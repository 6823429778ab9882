//! Lookup and acquisition of protocol interfaces on a handle.
use vstd::prelude::*;
use vstd::slice::slice_subrange;

use crate::capability::Protocol;
use crate::guid::Guid;
use crate::handle::Handle;
use crate::status::{Status, NOT_FOUND};

verus! {

/// The boot-services operations acquisition consumes, passed in explicitly
/// rather than reached through a global table.
pub trait BootServices {
    /// Resolves `(handle, guid)` to the address of the raw interface, opening
    /// it, or fails with the firmware's status.
    fn locate_protocol(&mut self, handle: Handle, guid: &Guid) -> Result<u64, Status>;

    /// Closes an interface that `locate_protocol` opened.
    fn close_protocol(&mut self, handle: Handle, guid: &Guid) -> Status;
}

/// Why an interface could not be acquired.
#[derive(Clone, Copy, Debug, PartialEq, Eq)]
pub enum AcquireError {
    /// The handle has no interface for the requested GUID.
    NotFound { guid: Guid },
    /// An interface was returned, but its address is null, misaligned for the
    /// overlay's layout, or leaves no room for the whole structure.
    InvalidInterface { guid: Guid, address: u64 },
    /// Any other firmware status, forwarded as it came.
    Firmware(Status),
}

/// Whether an interface of `size` bytes aligned to `align` can be read at
/// `address` in a memory of `mem_len` bytes.
pub open spec fn address_fits(address: u64, mem_len: nat, size: nat, align: nat) -> bool {
    &&& address != 0
    &&& address as nat % align == 0
    &&& address as nat + size <= mem_len
}

/// Checks that an interface of `size` bytes aligned to `align` may be read at
/// `address` in a memory of `mem_len` bytes.
pub fn check_address(address: u64, mem_len: usize, size: usize, align: usize) -> (r: bool)
    requires
        align > 0,
    ensures
        r == address_fits(address, mem_len as nat, size as nat, align as nat),
{
    if address == 0 || address % (align as u64) != 0 {
        return false;
    }
    address <= mem_len as u64 && size as u64 <= mem_len as u64 - address
}

/// An acquired interface: the overlay together with the open session it
/// belongs to. Closing it hands the session back to firmware.
pub struct Opened<T> {
    interface: T,
    handle: Handle,
    guid: Guid,
    address: u64,
}

impl<'m, T: Protocol<'m>> Opened<T> {
    pub closed spec fn spec_interface(&self) -> T {
        self.interface
    }

    pub closed spec fn spec_handle(&self) -> Handle {
        self.handle
    }

    pub closed spec fn spec_guid(&self) -> Guid {
        self.guid
    }

    pub closed spec fn spec_address(&self) -> u64 {
        self.address
    }

    /// The overlay; borrowing it ties its use to this session.
    pub fn interface(&self) -> (r: &T)
        ensures
            *r == self.spec_interface(),
    {
        &self.interface
    }

    /// The handle the interface was acquired on.
    pub fn handle(&self) -> (h: Handle)
        ensures
            h == self.spec_handle(),
    {
        self.handle
    }

    /// The GUID of the protocol the session is open for.
    pub fn guid(&self) -> (g: Guid)
        ensures
            g == self.spec_guid(),
    {
        self.guid
    }

    /// The address of the raw interface in firmware memory.
    pub fn address(&self) -> (a: u64)
        ensures
            a == self.spec_address(),
    {
        self.address
    }

    /// Ends the session: the collaborator closes the interface on the handle it
    /// was acquired on, and the overlay is no longer reachable.
    pub fn close<B: BootServices>(self, services: &mut B) -> Status {
        services.close_protocol(self.handle, &self.guid)
    }
}

/// `o` is a session on `handle` whose overlay of type `T` views the bytes of
/// `mem` at `address`.
pub open spec fn opened_at<'m, T: Protocol<'m>>(
    o: Opened<T>,
    mem: Seq<u8>,
    handle: Handle,
    address: u64,
) -> bool {
    &&& o.spec_handle() == handle
    &&& o.spec_guid()@ == T::spec_guid()
    &&& o.spec_address() == address
    &&& o.spec_interface().raw() == mem.subrange(address as int, address + T::spec_size())
}

/// What acquisition of `T` on `handle` owes for each answer `located` of the
/// collaborator.
pub open spec fn acquire_outcome<'m, T: Protocol<'m>>(
    r: Result<Opened<T>, AcquireError>,
    mem: Seq<u8>,
    handle: Handle,
    located: Result<u64, Status>,
) -> bool {
    match located {
        Err(s) => if s.code == NOT_FOUND {
            r matches Err(AcquireError::NotFound { guid }) && guid@ == T::spec_guid()
        } else {
            r == Err::<Opened<T>, AcquireError>(AcquireError::Firmware(s))
        },
        Ok(a) => if address_fits(a, mem.len(), T::spec_size(), T::spec_align()) {
            r is Ok && opened_at(r->Ok_0, mem, handle, a)
        } else {
            r matches Err(AcquireError::InvalidInterface { guid, address }) && guid@ == T::spec_guid()
                && address == a
        },
    }
}

/// Turns the collaborator's answer into an overlay of type `T` over `mem`, the
/// firmware memory addressed from zero.
///
/// A failed lookup is forwarded unchanged, as `NotFound` when firmware said
/// not found; an address that cannot hold `T` is `InvalidInterface`;
/// otherwise the overlay views exactly the `size` bytes at the address.
pub fn overlay_at<'m, T: Protocol<'m>>(
    mem: &'m [u8],
    handle: Handle,
    located: Result<u64, Status>,
) -> (r: Result<Opened<T>, AcquireError>)
    ensures
        acquire_outcome(r, mem@, handle, located),
{
    let guid = T::guid();
    match located {
        Err(s) => {
            if s.code == NOT_FOUND {
                Err(AcquireError::NotFound { guid })
            } else {
                Err(AcquireError::Firmware(s))
            }
        },
        Ok(a) => {
            let size = T::size();
            if check_address(a, mem.len(), size, T::align()) {
                let start = a as usize;
                let raw = slice_subrange(mem, start, start + size);
                Ok(Opened { interface: T::overlay(raw), handle, guid, address: a })
            } else {
                Err(AcquireError::InvalidInterface { guid, address: a })
            }
        },
    }
}

/// A handle that does not support the protocol yields `NotFound`, never
/// `InvalidInterface`, and never an overlay.
pub proof fn lemma_unsupported_is_not_found<'m, T: Protocol<'m>>(
    r: Result<Opened<T>, AcquireError>,
    mem: Seq<u8>,
    handle: Handle,
    located: Result<u64, Status>,
)
    requires
        acquire_outcome(r, mem, handle, located),
        located is Err,
        located->Err_0.code == NOT_FOUND,
    ensures
        r matches Err(AcquireError::NotFound { guid }) && guid@ == T::spec_guid(),
        !(r matches Err(AcquireError::InvalidInterface { .. })),
{
}

/// A null interface address yields `InvalidInterface`, which callers tell
/// apart from `NotFound` by its variant.
pub proof fn lemma_null_is_invalid<'m, T: Protocol<'m>>(
    r: Result<Opened<T>, AcquireError>,
    mem: Seq<u8>,
    handle: Handle,
)
    requires
        acquire_outcome(r, mem, handle, Ok::<u64, Status>(0)),
    ensures
        r matches Err(AcquireError::InvalidInterface { guid, address }) && guid@ == T::spec_guid()
            && address == 0,
        !(r matches Err(AcquireError::NotFound { .. })),
{
}

/// A non-null address that is not a multiple of the layout's alignment yields
/// `InvalidInterface`.
pub proof fn lemma_misaligned_is_invalid<'m, T: Protocol<'m>>(
    r: Result<Opened<T>, AcquireError>,
    mem: Seq<u8>,
    handle: Handle,
    address: u64,
)
    requires
        acquire_outcome(r, mem, handle, Ok::<u64, Status>(address)),
        address as nat % T::spec_align() != 0,
    ensures
        r matches Err(AcquireError::InvalidInterface { guid, address: a }) && guid@ == T::spec_guid()
            && a == address,
{
}

/// Acquires the interface of overlay type `T` on `handle`.
///
/// The collaborator resolves the handle and `T`'s GUID to an address in `mem`;
/// the result is what `overlay_at` makes of that answer. When an interface was
/// opened but fails the layout check, it is closed again before the error is
/// returned.
pub fn acquire<'m, T: Protocol<'m>, B: BootServices>(
    services: &mut B,
    mem: &'m [u8],
    handle: Handle,
) -> (r: Result<Opened<T>, AcquireError>)
    ensures
        exists|located: Result<u64, Status>| acquire_outcome(r, mem@, handle, located),
{
    let guid = T::guid();
    let located = services.locate_protocol(handle, &guid);
    let r = overlay_at::<T>(mem, handle, located);
    if let Err(AcquireError::InvalidInterface { .. }) = r {
        let _ = services.close_protocol(handle, &guid);
    }
    assert(acquire_outcome(r, mem@, handle, located));
    r
}

/// Acquires the interface of overlay type `T` on `handle`, runs `body` on it,
/// and closes the session before returning, so that the overlay cannot outlive
/// it. Returns what `body` returned and the status of the close.
pub fn with_protocol<'m, T: Protocol<'m>, B: BootServices, R, F: FnOnce(&T) -> R>(
    services: &mut B,
    mem: &'m [u8],
    handle: Handle,
    body: F,
) -> (r: Result<(R, Status), AcquireError>)
    requires
        forall|t: &T| #[trigger] body.requires((t,)),
    ensures
        r is Err ==> exists|located: Result<u64, Status>|
            acquire_outcome::<T>(Err(r->Err_0), mem@, handle, located),
        r is Ok ==> exists|t: T|
            {
                &&& #[trigger] body.ensures((&t,), r->Ok_0.0)
                &&& exists|a: u64|
                    address_fits(a, mem@.len(), T::spec_size(), T::spec_align()) && t.raw()
                        == mem@.subrange(a as int, a + T::spec_size())
            },
{
    let acquired = acquire::<T, B>(services, mem, handle);
    let ghost located = choose|l: Result<u64, Status>| acquire_outcome(acquired, mem@, handle, l);
    assert(acquire_outcome(acquired, mem@, handle, located));
    match acquired {
        Err(e) => {
            assert(acquired == Err::<Opened<T>, AcquireError>(e));
            assert(acquire_outcome::<T>(Err(e), mem@, handle, located));
            let r: Result<(R, Status), AcquireError> = Err(e);
            assert(r is Err);
            assert(r->Err_0 == e);
            assert(exists|l: Result<u64, Status>| acquire_outcome::<T>(Err(r->Err_0), mem@, handle, l));
            r
        },
        Ok(opened) => {
            let ghost t = opened.spec_interface();
            let ghost a = opened.spec_address();
            assert(located == Ok::<u64, Status>(a));
            assert(address_fits(a, mem@.len(), T::spec_size(), T::spec_align()));
            let value = body(opened.interface());
            assert(body.ensures((&t,), value));
            assert(t.raw() == mem@.subrange(a as int, a + T::spec_size()));
            let status = opened.close(services);
            let r: Result<(R, Status), AcquireError> = Ok((value, status));
            assert(body.ensures((&t,), r->Ok_0.0));
            r
        },
    }
}

} // verus!
