//! Firmware status codes and their classification.
use vstd::prelude::*;

verus! {

/// The bit that marks a status code as an error.
pub const ERROR_BIT: u64 = 0x8000_0000_0000_0000;

// Codes the firmware specification names. Others are kept as they come.

pub const SUCCESS: u64 = 0;

pub const WARN_UNKNOWN_GLYPH: u64 = 1;

pub const WARN_DELETE_FAILURE: u64 = 2;

pub const WARN_WRITE_FAILURE: u64 = 3;

pub const WARN_BUFFER_TOO_SMALL: u64 = 4;

pub const WARN_STALE_DATA: u64 = 5;

pub const LOAD_ERROR: u64 = ERROR_BIT + 1;

pub const INVALID_PARAMETER: u64 = ERROR_BIT + 2;

pub const UNSUPPORTED: u64 = ERROR_BIT + 3;

pub const BAD_BUFFER_SIZE: u64 = ERROR_BIT + 4;

pub const BUFFER_TOO_SMALL: u64 = ERROR_BIT + 5;

pub const NOT_READY: u64 = ERROR_BIT + 6;

pub const DEVICE_ERROR: u64 = ERROR_BIT + 7;

pub const WRITE_PROTECTED: u64 = ERROR_BIT + 8;

pub const OUT_OF_RESOURCES: u64 = ERROR_BIT + 9;

pub const NOT_FOUND: u64 = ERROR_BIT + 14;

pub const ACCESS_DENIED: u64 = ERROR_BIT + 15;

/// The three disjoint classes of firmware status codes.
#[derive(Clone, Copy, Debug, PartialEq, Eq, Structural)]
pub enum StatusClass {
    Success,
    Warning,
    Error,
}

/// The class of a raw code: the error bit decides first, whatever the low
/// bits hold; any other nonzero code is a warning; zero is success.
pub open spec fn class_of(code: u64) -> StatusClass {
    if code >= ERROR_BIT {
        StatusClass::Error
    } else if code != 0 {
        StatusClass::Warning
    } else {
        StatusClass::Success
    }
}

/// A firmware result code, kept as its raw numeric value so that codes the
/// library has never seen round-trip unchanged.
#[derive(Clone, Copy, Debug, PartialEq, Eq, Structural)]
pub struct Status {
    pub code: u64,
}

impl Status {
    /// Wraps a raw code as firmware returned it.
    pub fn from_code(code: u64) -> (s: Status)
        ensures
            s.code == code,
    {
        Status { code }
    }

    /// The raw numeric code, for diagnostics.
    pub fn code(&self) -> (r: u64)
        ensures
            r == self.code,
    {
        self.code
    }

    /// The class of this code, decided by its bit pattern alone.
    pub fn class(&self) -> (r: StatusClass)
        ensures
            r == class_of(self.code),
    {
        let c = self.code;
        assert((c & ERROR_BIT != 0) == (c >= ERROR_BIT)) by (bit_vector);
        if c & ERROR_BIT != 0 {
            StatusClass::Error
        } else if c != 0 {
            StatusClass::Warning
        } else {
            StatusClass::Success
        }
    }

    pub fn is_success(&self) -> (r: bool)
        ensures
            r == (class_of(self.code) == StatusClass::Success),
    {
        self.code == 0
    }

    pub fn is_warning(&self) -> (r: bool)
        ensures
            r == (class_of(self.code) == StatusClass::Warning),
    {
        match self.class() {
            StatusClass::Warning => true,
            _ => false,
        }
    }

    pub fn is_error(&self) -> (r: bool)
        ensures
            r == (class_of(self.code) == StatusClass::Error),
    {
        match self.class() {
            StatusClass::Error => true,
            _ => false,
        }
    }

    /// `Ok` with the status for success and warnings, `Err` with it for errors.
    pub fn to_result(self) -> (r: Result<Status, Status>)
        ensures
            class_of(self.code) == StatusClass::Error ==> r == Err::<Status, Status>(self),
            class_of(self.code) != StatusClass::Error ==> r == Ok::<Status, Status>(self),
    {
        if self.is_error() {
            Err(self)
        } else {
            Ok(self)
        }
    }
}

/// Classification is total and exclusive: a code with the error bit set is
/// an error whatever its low bits are, a nonzero code without it is a warning,
/// and zero alone is success.
pub proof fn lemma_classification(code: u64)
    ensures
        (code & ERROR_BIT != 0) ==> class_of(code) == StatusClass::Error,
        (code & ERROR_BIT == 0 && code != 0) ==> class_of(code) == StatusClass::Warning,
        class_of(code) == StatusClass::Success <==> code == 0,
        forall|low: u64| #![auto] low < ERROR_BIT ==> class_of(low | ERROR_BIT) == StatusClass::Error,
{
    assert((code & ERROR_BIT != 0) == (code >= ERROR_BIT)) by (bit_vector);
    assert forall|low: u64| #![auto] low < ERROR_BIT implies class_of(low | ERROR_BIT) == StatusClass::Error by {
        assert((low | ERROR_BIT) >= ERROR_BIT) by (bit_vector);
    }
}

} // verus!
