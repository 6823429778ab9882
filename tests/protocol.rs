use uefi::acquire::{
    acquire, check_address, overlay_at, with_protocol, AcquireError, BootServices,
};
use uefi::capability::{capability_of, Namespace, Protocol, RegistrationError};
use uefi::guid::Guid;
use uefi::handle::Handle;
use uefi::loaded_image::{
    LoadedImage, DEVICE_HANDLE_OFFSET, IMAGE_BASE_OFFSET, IMAGE_CODE_TYPE_OFFSET,
    IMAGE_DATA_TYPE_OFFSET, IMAGE_SIZE_OFFSET, LOADED_IMAGE_ALIGN, LOADED_IMAGE_SIZE,
    PARENT_HANDLE_OFFSET, UNLOAD_OFFSET,
};
use uefi::memory_type::{MemoryType, BOOT_SERVICES_DATA, LOADER_CODE, LOADER_DATA};
use uefi::status::{
    Status, StatusClass, ACCESS_DENIED, ERROR_BIT, NOT_FOUND, SUCCESS, WARN_STALE_DATA,
};

fn loaded_image_guid() -> Guid {
    Guid::new(0x5b1b31a1, 0x9562, 0x11d2, [0x8e, 0x3f, 0x00, 0xa0, 0xc9, 0x69, 0x72, 0x3b])
}

/// A boot-services stand-in: one table of (handle, guid) -> address, and a
/// log of the sessions it was asked to close.
struct MockServices {
    installed: Vec<(Handle, Guid, u64)>,
    closed: Vec<(Handle, Guid)>,
    fail_with: Option<Status>,
}

impl MockServices {
    fn new(installed: Vec<(Handle, Guid, u64)>) -> MockServices {
        MockServices { installed, closed: Vec::new(), fail_with: None }
    }
}

impl BootServices for MockServices {
    fn locate_protocol(&mut self, handle: Handle, guid: &Guid) -> Result<u64, Status> {
        if let Some(s) = self.fail_with {
            return Err(s);
        }
        for (h, g, a) in &self.installed {
            if *h == handle && g == guid {
                return Ok(*a);
            }
        }
        Err(Status::from_code(NOT_FOUND))
    }

    fn close_protocol(&mut self, handle: Handle, guid: &Guid) -> Status {
        self.closed.push((handle, *guid));
        Status::from_code(SUCCESS)
    }
}

fn put_u64(mem: &mut [u8], at: usize, x: u64) {
    mem[at..at + 8].copy_from_slice(&x.to_le_bytes());
}

fn put_u32(mem: &mut [u8], at: usize, x: u32) {
    mem[at..at + 4].copy_from_slice(&x.to_le_bytes());
}

const IMAGE_AT: usize = 0x100;

/// Firmware memory with a loaded image structure at `IMAGE_AT`.
fn firmware_memory(parent: u64) -> Vec<u8> {
    let mut mem = vec![0xa5u8; 0x200];
    let base = IMAGE_AT;
    put_u32(&mut mem, base, 0x1000);
    put_u64(&mut mem, base + PARENT_HANDLE_OFFSET, parent);
    put_u64(&mut mem, base + DEVICE_HANDLE_OFFSET, 0xd00d);
    put_u64(&mut mem, base + IMAGE_BASE_OFFSET, 0x100000);
    put_u64(&mut mem, base + IMAGE_SIZE_OFFSET, 0x2000);
    put_u32(&mut mem, base + IMAGE_CODE_TYPE_OFFSET, LOADER_CODE);
    put_u32(&mut mem, base + IMAGE_DATA_TYPE_OFFSET, LOADER_DATA);
    mem
}

#[test]
fn guid_new_is_canonical_encoding() {
    let g = loaded_image_guid();
    assert_eq!(
        g.to_bytes(),
        [0xa1, 0x31, 0x1b, 0x5b, 0x62, 0x95, 0xd2, 0x11, 0x8e, 0x3f, 0x00, 0xa0, 0xc9, 0x69, 0x72, 0x3b]
    );
    assert_eq!(g, Guid::from_bytes(g.to_bytes()));
}

#[test]
fn guid_equality_is_bytewise() {
    let g = loaded_image_guid();
    let mut bytes = g.to_bytes();
    bytes[15] ^= 1;
    let other = Guid::from_bytes(bytes);
    assert!(!g.same_as(&other));
    assert_ne!(g, other);
    assert!(g.same_as(&loaded_image_guid()));
}

#[test]
fn capability_is_constant() {
    let first = capability_of::<LoadedImage>();
    let second = capability_of::<LoadedImage>();
    assert_eq!(first, second);
    assert_eq!(first, loaded_image_guid());
    assert_eq!(LoadedImage::name(), "LoadedImage");
}

#[test]
fn namespace_refuses_shared_guid() {
    let mut ns = Namespace::new();
    assert_eq!(ns.register_protocol::<LoadedImage>(), Ok(()));
    assert_eq!(ns.len(), 1);
    assert_eq!(
        ns.register("ImpostorImage", loaded_image_guid()),
        Err(RegistrationError::GuidAlreadyClaimed)
    );
    assert_eq!(ns.len(), 1);
    assert!(ns.claims(&loaded_image_guid()));
}

#[test]
fn namespace_refuses_second_guid_for_a_type() {
    let mut ns = Namespace::new();
    assert_eq!(ns.register_protocol::<LoadedImage>(), Ok(()));
    let other = Guid::new(1, 2, 3, [4, 5, 6, 7, 8, 9, 10, 11]);
    assert_eq!(ns.register("LoadedImage", other), Err(RegistrationError::TypeAlreadyBound));
    assert!(!ns.claims(&other));
}

#[test]
fn namespace_guid_conflict_reported_first() {
    let mut ns = Namespace::new();
    let a = Guid::new(1, 0, 0, [0; 8]);
    let b = Guid::new(2, 0, 0, [0; 8]);
    assert_eq!(ns.register("A", a), Ok(()));
    assert_eq!(ns.register("B", b), Ok(()));
    assert_eq!(ns.register("A", b), Err(RegistrationError::GuidAlreadyClaimed));
    assert_eq!(ns.len(), 2);
}

#[test]
fn namespace_same_pair_twice_is_unchanged() {
    let mut ns = Namespace::new();
    assert_eq!(ns.register_protocol::<LoadedImage>(), Ok(()));
    assert_eq!(ns.register_protocol::<LoadedImage>(), Ok(()));
    assert_eq!(ns.len(), 1);
    let other = Guid::new(7, 7, 7, [7; 8]);
    assert_eq!(ns.register("Other", other), Ok(()));
    assert_eq!(ns.len(), 2);
    assert!(ns.claims(&other));
}

#[test]
fn status_classes() {
    assert_eq!(Status::from_code(0).class(), StatusClass::Success);
    assert_eq!(Status::from_code(WARN_STALE_DATA).class(), StatusClass::Warning);
    assert_eq!(Status::from_code(0x7fff_ffff_ffff_ffff).class(), StatusClass::Warning);
    assert_eq!(Status::from_code(ERROR_BIT).class(), StatusClass::Error);
    assert_eq!(Status::from_code(ERROR_BIT | 0x1234_5678).class(), StatusClass::Error);
    assert_eq!(Status::from_code(u64::MAX).class(), StatusClass::Error);
    assert_eq!(Status::from_code(NOT_FOUND).class(), StatusClass::Error);
    assert_eq!(NOT_FOUND, 0x8000_0000_0000_000e);
}

#[test]
fn status_predicates_and_result() {
    let ok = Status::from_code(SUCCESS);
    let warn = Status::from_code(3);
    let err = Status::from_code(ACCESS_DENIED);
    assert!(ok.is_success() && !ok.is_warning() && !ok.is_error());
    assert!(!warn.is_success() && warn.is_warning() && !warn.is_error());
    assert!(!err.is_success() && !err.is_warning() && err.is_error());
    assert_eq!(ok.to_result(), Ok(ok));
    assert_eq!(warn.to_result(), Ok(warn));
    assert_eq!(err.to_result(), Err(err));
    assert_eq!(Status::from_code(0xdead_beef).code(), 0xdead_beef);
}

#[test]
fn memory_type_codes_round_trip() {
    assert!(MemoryType::from_code(BOOT_SERVICES_DATA).is_known());
    assert!(MemoryType::from_code(14).is_known());
    let vendor = MemoryType::from_code(0x8000_0001);
    assert!(!vendor.is_known());
    assert_eq!(vendor.code, 0x8000_0001);
}

#[test]
fn handle_identity() {
    let a = Handle::from_raw(0x1234);
    assert_eq!(a, Handle::from_raw(0x1234));
    assert_ne!(a, Handle::from_raw(0x1235));
    assert_eq!(a.as_raw(), 0x1234);
    assert!(Handle::from_raw(0).is_null());
    assert!(!a.is_null());
}

#[test]
fn loaded_image_layout_sizes() {
    assert_eq!(LOADED_IMAGE_SIZE, 96);
    assert_eq!(LOADED_IMAGE_ALIGN, 8);
    assert_eq!(UNLOAD_OFFSET + 8, LOADED_IMAGE_SIZE);
    assert_eq!(LoadedImage::size(), 96);
    assert_eq!(LoadedImage::align(), 8);
}

#[test]
fn acquire_loaded_image_reads_fields() {
    let h = Handle::from_raw(0x4000);
    let h0 = Handle::from_raw(0x3000);
    let mem = firmware_memory(h0.as_raw());
    let mut bs = MockServices::new(vec![(h, loaded_image_guid(), IMAGE_AT as u64)]);
    let opened = acquire::<LoadedImage, MockServices>(&mut bs, &mem, h).expect("acquired");
    assert_eq!(opened.handle(), h);
    assert_eq!(opened.address(), IMAGE_AT as u64);
    assert_eq!(opened.guid(), loaded_image_guid());
    let image = opened.interface();
    assert_eq!(image.image_base(), 0x100000);
    assert_eq!(image.image_size(), 0x2000);
    assert_eq!(image.image_code_type(), MemoryType::from_code(LOADER_CODE));
    assert_eq!(image.image_data_type(), MemoryType::from_code(LOADER_DATA));
    assert_eq!(image.parent(), h0);
    assert_eq!(image.device(), Handle::from_raw(0xd00d));
    assert!(bs.closed.is_empty());
    let st = opened.close(&mut bs);
    assert!(st.is_success());
    assert_eq!(bs.closed, vec![(h, loaded_image_guid())]);
}

#[test]
fn unregistered_guid_is_not_found() {
    let h = Handle::from_raw(0x4000);
    let mem = firmware_memory(0x3000);
    let mut bs = MockServices::new(vec![(h, loaded_image_guid(), IMAGE_AT as u64)]);
    let unregistered = Guid::new(0xdeadbeef, 1, 2, [3; 8]);
    let located = bs.locate_protocol(h, &unregistered);
    assert_eq!(located, Err(Status::from_code(NOT_FOUND)));
    let r = overlay_at::<LoadedImage>(&mem, h, located);
    assert!(matches!(r, Err(AcquireError::NotFound { guid }) if guid == loaded_image_guid()));
}

#[test]
fn unsupported_handle_is_not_found() {
    let mem = firmware_memory(0x3000);
    let mut bs =
        MockServices::new(vec![(Handle::from_raw(0x4000), loaded_image_guid(), IMAGE_AT as u64)]);
    let r = acquire::<LoadedImage, MockServices>(&mut bs, &mem, Handle::from_raw(0x5000));
    assert!(matches!(r, Err(AcquireError::NotFound { .. })));
    assert!(bs.closed.is_empty());
}

#[test]
fn null_address_is_invalid_interface() {
    let h = Handle::from_raw(0x4000);
    let mem = firmware_memory(0x3000);
    let mut bs = MockServices::new(vec![(h, loaded_image_guid(), 0)]);
    let r = acquire::<LoadedImage, MockServices>(&mut bs, &mem, h);
    assert!(matches!(
        r,
        Err(AcquireError::InvalidInterface { guid, address: 0 }) if guid == loaded_image_guid()
    ));
    assert_eq!(bs.closed, vec![(h, loaded_image_guid())]);
}

#[test]
fn misaligned_address_is_invalid_interface() {
    let h = Handle::from_raw(0x4000);
    let mem = firmware_memory(0x3000);
    let mut bs = MockServices::new(vec![(h, loaded_image_guid(), IMAGE_AT as u64 + 4)]);
    let r = acquire::<LoadedImage, MockServices>(&mut bs, &mem, h);
    assert!(matches!(
        r,
        Err(AcquireError::InvalidInterface { address, .. }) if address == IMAGE_AT as u64 + 4
    ));
    assert_eq!(bs.closed.len(), 1);
}

#[test]
fn address_past_memory_is_invalid_interface() {
    let h = Handle::from_raw(0x4000);
    let mem = firmware_memory(0x3000);
    let r = overlay_at::<LoadedImage>(&mem, h, Ok(0x1a8));
    assert!(matches!(r, Err(AcquireError::InvalidInterface { address: 0x1a8, .. })));
    let r = overlay_at::<LoadedImage>(&mem, h, Ok(u64::MAX - 7));
    assert!(matches!(r, Err(AcquireError::InvalidInterface { .. })));
    // The last position that still holds the whole structure.
    let r = overlay_at::<LoadedImage>(&mem, h, Ok(0x1a0));
    assert!(r.is_ok());
}

#[test]
fn other_firmware_errors_are_forwarded() {
    let h = Handle::from_raw(0x4000);
    let mem = firmware_memory(0x3000);
    let mut bs = MockServices::new(vec![]);
    bs.fail_with = Some(Status::from_code(ACCESS_DENIED));
    let r = acquire::<LoadedImage, MockServices>(&mut bs, &mem, h);
    assert!(matches!(r, Err(AcquireError::Firmware(s)) if s == Status::from_code(ACCESS_DENIED)));
    let vendor = Status::from_code(ERROR_BIT | 0xabc);
    let r = overlay_at::<LoadedImage>(&mem, h, Err(vendor));
    assert!(matches!(r, Err(AcquireError::Firmware(s)) if s.code() == ERROR_BIT | 0xabc));
}

#[test]
fn check_address_cases() {
    assert!(!check_address(0, 0x200, 96, 8));
    assert!(!check_address(0x104, 0x200, 96, 8));
    assert!(check_address(0x100, 0x200, 96, 8));
    assert!(check_address(0x1a0, 0x200, 96, 8));
    assert!(!check_address(0x1a8, 0x200, 96, 8));
    assert!(!check_address(0x208, 0x200, 96, 8));
}

#[test]
fn written_pattern_reads_back() {
    let h = Handle::from_raw(1);
    let mut mem = vec![0u8; 0x200];
    for (i, b) in mem.iter_mut().enumerate() {
        *b = (i * 7 + 3) as u8;
    }
    let at = 0x40;
    put_u64(&mut mem, at + PARENT_HANDLE_OFFSET, 0x0102_0304_0506_0708);
    put_u64(&mut mem, at + DEVICE_HANDLE_OFFSET, 0xffee_ddcc_bbaa_9988);
    put_u64(&mut mem, at + IMAGE_BASE_OFFSET, 0x8000_0000_0000_1000);
    put_u64(&mut mem, at + IMAGE_SIZE_OFFSET, u64::MAX);
    put_u32(&mut mem, at + IMAGE_CODE_TYPE_OFFSET, 0x7000_0001);
    put_u32(&mut mem, at + IMAGE_DATA_TYPE_OFFSET, 0xdead_beef);
    let opened = overlay_at::<LoadedImage>(&mem, h, Ok(at as u64)).expect("valid");
    let image = opened.interface();
    assert_eq!(image.parent().as_raw(), 0x0102_0304_0506_0708);
    assert_eq!(image.device().as_raw(), 0xffee_ddcc_bbaa_9988);
    assert_eq!(image.image_base(), 0x8000_0000_0000_1000);
    assert_eq!(image.image_size(), u64::MAX);
    assert_eq!(image.image_code_type().code, 0x7000_0001);
    assert_eq!(image.image_data_type().code, 0xdead_beef);
    // Reading twice gives the same values.
    assert_eq!(image.image_size(), u64::MAX);
}

#[test]
fn scoped_use_closes_the_session() {
    let h = Handle::from_raw(0x4000);
    let mem = firmware_memory(0x3000);
    let mut bs = MockServices::new(vec![(h, loaded_image_guid(), IMAGE_AT as u64)]);
    let r = with_protocol::<LoadedImage, MockServices, (u64, u64), _>(&mut bs, &mem, h, |img| {
        (img.image_base(), img.image_size())
    });
    assert_eq!(r, Ok(((0x100000, 0x2000), Status::from_code(SUCCESS))));
    assert_eq!(bs.closed, vec![(h, loaded_image_guid())]);
}

#[test]
fn scoped_use_skips_body_when_not_found() {
    let mem = firmware_memory(0x3000);
    let mut bs = MockServices::new(vec![]);
    let mut called = false;
    let r = with_protocol::<LoadedImage, MockServices, (), _>(
        &mut bs,
        &mem,
        Handle::from_raw(0x4000),
        |_img| {
            called = true;
        },
    );
    assert!(matches!(r, Err(AcquireError::NotFound { .. })));
    assert!(!called);
    assert!(bs.closed.is_empty());
}
