//! Opaque references to firmware-tracked objects.
use vstd::prelude::*;

verus! {

/// A non-owning reference to an object in the firmware's handle database
/// (a device, a loaded image, a controller).
///
/// The library neither creates nor invalidates what a handle denotes; two
/// handles refer to the same object exactly when they are equal.
#[derive(Clone, Copy, Debug, PartialEq, Eq, Structural)]
pub struct Handle {
    raw: u64,
}

impl View for Handle {
    type V = u64;

    closed spec fn view(&self) -> u64 {
        self.raw
    }
}

impl Handle {
    /// Wraps the address-sized identifier that firmware handed out.
    pub fn from_raw(raw: u64) -> (h: Handle)
        ensures
            h@ == raw,
    {
        Handle { raw }
    }

    /// The identifier this handle carries, for passing back to firmware.
    pub fn as_raw(&self) -> (r: u64)
        ensures
            r == self@,
    {
        self.raw
    }

    /// Whether this is the null handle (no object).
    pub fn is_null(&self) -> (r: bool)
        ensures
            r == (self@ == 0),
    {
        self.raw == 0
    }

    /// Handles are equal exactly when they carry the same identifier.
    pub proof fn lemma_eq_iff_same_raw(a: Handle, b: Handle)
        ensures
            (a == b) == (a@ == b@),
    {
    }
}

} // verus!
