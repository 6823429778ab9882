//! The loaded image protocol: where an executable image sits in memory and
//! where it came from.
use vstd::bytes::{
    lemma_auto_spec_u32_to_from_le_bytes,
    lemma_auto_spec_u64_to_from_le_bytes,
    spec_u32_from_le_bytes,
    spec_u32_to_le_bytes,
    spec_u64_from_le_bytes,
    spec_u64_to_le_bytes,
    u32_from_le_bytes,
    u64_from_le_bytes,
};
use vstd::prelude::*;
use vstd::slice::slice_subrange;

use crate::capability::Protocol;
use crate::guid::{guid_encoding, Guid};
use crate::handle::Handle;
use crate::memory_type::MemoryType;

verus! {

// Byte layout of the interface structure on the 64-bit firmware ABI, where
// handles and addresses are eight bytes wide. Offsets of the fields that are
// kept for byte accuracy but never surfaced are listed too.
pub const REVISION_OFFSET: usize = 0;

pub const PARENT_HANDLE_OFFSET: usize = 8;

pub const SYSTEM_TABLE_OFFSET: usize = 16;

pub const DEVICE_HANDLE_OFFSET: usize = 24;

pub const FILE_PATH_OFFSET: usize = 32;

pub const RESERVED_OFFSET: usize = 40;

pub const LOAD_OPTIONS_SIZE_OFFSET: usize = 48;

pub const LOAD_OPTIONS_OFFSET: usize = 56;

pub const IMAGE_BASE_OFFSET: usize = 64;

pub const IMAGE_SIZE_OFFSET: usize = 72;

pub const IMAGE_CODE_TYPE_OFFSET: usize = 80;

pub const IMAGE_DATA_TYPE_OFFSET: usize = 84;

pub const UNLOAD_OFFSET: usize = 88;

/// Total byte length of the structure.
pub const LOADED_IMAGE_SIZE: usize = 96;

/// Alignment of the structure: that of its widest field.
pub const LOADED_IMAGE_ALIGN: usize = 8;

/// The little-endian 64-bit value stored at `off`.
pub open spec fn u64_at(raw: Seq<u8>, off: int) -> u64 {
    spec_u64_from_le_bytes(raw.subrange(off, off + 8))
}

/// The little-endian 32-bit value stored at `off`.
pub open spec fn u32_at(raw: Seq<u8>, off: int) -> u32 {
    spec_u32_from_le_bytes(raw.subrange(off, off + 4))
}

/// `raw` with the little-endian bytes of `x` written at `off`.
pub open spec fn with_u64_at(raw: Seq<u8>, off: int, x: u64) -> Seq<u8> {
    raw.subrange(0, off) + spec_u64_to_le_bytes(x) + raw.subrange(off + 8, raw.len() as int)
}

/// `raw` with the little-endian bytes of `x` written at `off`.
pub open spec fn with_u32_at(raw: Seq<u8>, off: int, x: u32) -> Seq<u8> {
    raw.subrange(0, off) + spec_u32_to_le_bytes(x) + raw.subrange(off + 4, raw.len() as int)
}

/// The GUID of the loaded image protocol, 5b1b31a1-9562-11d2-8e3f-00a0c969723b.
pub open spec fn loaded_image_guid() -> Seq<u8> {
    guid_encoding(0x5b1b31a1, 0x9562, 0x11d2, seq![0x8e, 0x3f, 0x00, 0xa0, 0xc9, 0x69, 0x72, 0x3b])
}

/// The loaded image protocol describes an executable image loaded into memory.
///
/// A value is a live view onto the firmware's structure: each accessor reads
/// its field from firmware memory when called and hands back the stored value
/// unchanged. The system table, device path, load options and unload entry
/// point are not surfaced.
pub struct LoadedImage<'m> {
    raw: &'m [u8],
}

impl<'m> LoadedImage<'m> {
    #[verifier::type_invariant]
    spec fn has_layout(self) -> bool {
        self.raw@.len() == LOADED_IMAGE_SIZE
    }

    /// The firmware bytes this view reads.
    pub closed spec fn bytes(&self) -> Seq<u8> {
        self.raw@
    }

    pub open spec fn spec_parent(raw: Seq<u8>) -> u64 {
        u64_at(raw, PARENT_HANDLE_OFFSET as int)
    }

    pub open spec fn spec_device(raw: Seq<u8>) -> u64 {
        u64_at(raw, DEVICE_HANDLE_OFFSET as int)
    }

    pub open spec fn spec_image_base(raw: Seq<u8>) -> u64 {
        u64_at(raw, IMAGE_BASE_OFFSET as int)
    }

    pub open spec fn spec_image_size(raw: Seq<u8>) -> u64 {
        u64_at(raw, IMAGE_SIZE_OFFSET as int)
    }

    pub open spec fn spec_image_code_type(raw: Seq<u8>) -> u32 {
        u32_at(raw, IMAGE_CODE_TYPE_OFFSET as int)
    }

    pub open spec fn spec_image_data_type(raw: Seq<u8>) -> u32 {
        u32_at(raw, IMAGE_DATA_TYPE_OFFSET as int)
    }

    fn read_u64(&self, off: usize) -> (r: u64)
        requires
            off + 8 <= LOADED_IMAGE_SIZE,
        ensures
            r == u64_at(self.bytes(), off as int),
    {
        proof {
            use_type_invariant(self);
        }
        u64_from_le_bytes(slice_subrange(self.raw, off, off + 8))
    }

    fn read_u32(&self, off: usize) -> (r: u32)
        requires
            off + 4 <= LOADED_IMAGE_SIZE,
        ensures
            r == u32_at(self.bytes(), off as int),
    {
        proof {
            use_type_invariant(self);
        }
        u32_from_le_bytes(slice_subrange(self.raw, off, off + 4))
    }

    /// Image handle for the parent which loaded this image. Null if the image
    /// was loaded directly by the firmware's boot manager.
    pub fn parent(&self) -> (h: Handle)
        ensures
            h@ == Self::spec_parent(self.bytes()),
    {
        Handle::from_raw(self.read_u64(PARENT_HANDLE_OFFSET))
    }

    /// Handle for the device this image was loaded from.
    pub fn device(&self) -> (h: Handle)
        ensures
            h@ == Self::spec_device(self.bytes()),
    {
        Handle::from_raw(self.read_u64(DEVICE_HANDLE_OFFSET))
    }

    /// Base address where the image was loaded into memory.
    pub fn image_base(&self) -> (r: u64)
        ensures
            r == Self::spec_image_base(self.bytes()),
    {
        self.read_u64(IMAGE_BASE_OFFSET)
    }

    /// Size of the loaded image, in bytes.
    pub fn image_size(&self) -> (r: u64)
        ensures
            r == Self::spec_image_size(self.bytes()),
    {
        self.read_u64(IMAGE_SIZE_OFFSET)
    }

    /// Memory type allocated for code sections of the image.
    pub fn image_code_type(&self) -> (m: MemoryType)
        ensures
            m.code == Self::spec_image_code_type(self.bytes()),
    {
        MemoryType::from_code(self.read_u32(IMAGE_CODE_TYPE_OFFSET))
    }

    /// Memory type allocated for data sections of the image.
    pub fn image_data_type(&self) -> (m: MemoryType)
        ensures
            m.code == Self::spec_image_data_type(self.bytes()),
    {
        MemoryType::from_code(self.read_u32(IMAGE_DATA_TYPE_OFFSET))
    }
}

impl<'m> Protocol<'m> for LoadedImage<'m> {
    open spec fn spec_guid() -> Seq<u8> {
        loaded_image_guid()
    }

    open spec fn spec_name() -> Seq<char> {
        seq!['L', 'o', 'a', 'd', 'e', 'd', 'I', 'm', 'a', 'g', 'e']
    }

    open spec fn spec_size() -> nat {
        LOADED_IMAGE_SIZE as nat
    }

    open spec fn spec_align() -> nat {
        LOADED_IMAGE_ALIGN as nat
    }

    open spec fn raw(&self) -> Seq<u8> {
        self.bytes()
    }

    fn guid() -> (g: Guid) {
        Guid::new(0x5b1b31a1, 0x9562, 0x11d2, [0x8e, 0x3f, 0x00, 0xa0, 0xc9, 0x69, 0x72, 0x3b])
    }

    fn name() -> (r: &'static str) {
        proof {
            reveal_strlit("LoadedImage");
        }
        let r = "LoadedImage";
        assert(r@ =~= Self::spec_name());
        r
    }

    fn size() -> (n: usize) {
        LOADED_IMAGE_SIZE
    }

    fn align() -> (n: usize) {
        LOADED_IMAGE_ALIGN
    }

    fn overlay(raw: &'m [u8]) -> (r: Self) {
        LoadedImage { raw }
    }
}

/// The structure is the documented fields laid end to end at native width,
/// each 32-bit field followed by padding only where the next field is eight
/// bytes wide, with nothing after the last field.
pub proof fn lemma_loaded_image_layout()
    ensures
        PARENT_HANDLE_OFFSET == REVISION_OFFSET + 4 + 4,
        SYSTEM_TABLE_OFFSET == PARENT_HANDLE_OFFSET + 8,
        DEVICE_HANDLE_OFFSET == SYSTEM_TABLE_OFFSET + 8,
        FILE_PATH_OFFSET == DEVICE_HANDLE_OFFSET + 8,
        RESERVED_OFFSET == FILE_PATH_OFFSET + 8,
        LOAD_OPTIONS_SIZE_OFFSET == RESERVED_OFFSET + 8,
        LOAD_OPTIONS_OFFSET == LOAD_OPTIONS_SIZE_OFFSET + 4 + 4,
        IMAGE_BASE_OFFSET == LOAD_OPTIONS_OFFSET + 8,
        IMAGE_SIZE_OFFSET == IMAGE_BASE_OFFSET + 8,
        IMAGE_CODE_TYPE_OFFSET == IMAGE_SIZE_OFFSET + 8,
        IMAGE_DATA_TYPE_OFFSET == IMAGE_CODE_TYPE_OFFSET + 4,
        UNLOAD_OFFSET == IMAGE_DATA_TYPE_OFFSET + 4,
        LOADED_IMAGE_SIZE == UNLOAD_OFFSET + 8,
        LOADED_IMAGE_SIZE == 4 * 4 + 10 * 8,
        LOADED_IMAGE_SIZE % LOADED_IMAGE_ALIGN == 0,
        <LoadedImage<'static> as Protocol<'static>>::spec_size() == LOADED_IMAGE_SIZE,
        <LoadedImage<'static> as Protocol<'static>>::spec_align() == LOADED_IMAGE_ALIGN,
{
}

/// Writing a 64-bit value at `off` changes those eight bytes alone, and
/// reading them back gives the value.
pub proof fn lemma_with_u64_at(raw: Seq<u8>, off: int, x: u64)
    requires
        0 <= off,
        off + 8 <= raw.len(),
    ensures
        with_u64_at(raw, off, x).len() == raw.len(),
        u64_at(with_u64_at(raw, off, x), off) == x,
        forall|p: int, q: int|
            0 <= p <= q <= raw.len() && (q <= off || off + 8 <= p) ==> #[trigger] with_u64_at(
                raw,
                off,
                x,
            ).subrange(p, q) == raw.subrange(p, q),
{
    lemma_auto_spec_u64_to_from_le_bytes();
    let w = with_u64_at(raw, off, x);
    assert(w.subrange(off, off + 8) =~= spec_u64_to_le_bytes(x));
    assert forall|p: int, q: int|
        0 <= p <= q <= raw.len() && (q <= off || off + 8 <= p) implies #[trigger] with_u64_at(
            raw,
            off,
            x,
        ).subrange(p, q) == raw.subrange(p, q) by {
        assert(w.subrange(p, q) =~= raw.subrange(p, q));
    }
}

/// Writing a 32-bit value at `off` changes those four bytes alone, and
/// reading them back gives the value.
pub proof fn lemma_with_u32_at(raw: Seq<u8>, off: int, x: u32)
    requires
        0 <= off,
        off + 4 <= raw.len(),
    ensures
        with_u32_at(raw, off, x).len() == raw.len(),
        u32_at(with_u32_at(raw, off, x), off) == x,
        forall|p: int, q: int|
            0 <= p <= q <= raw.len() && (q <= off || off + 4 <= p) ==> #[trigger] with_u32_at(
                raw,
                off,
                x,
            ).subrange(p, q) == raw.subrange(p, q),
{
    lemma_auto_spec_u32_to_from_le_bytes();
    let w = with_u32_at(raw, off, x);
    assert(w.subrange(off, off + 4) =~= spec_u32_to_le_bytes(x));
    assert forall|p: int, q: int|
        0 <= p <= q <= raw.len() && (q <= off || off + 4 <= p) implies #[trigger] with_u32_at(
            raw,
            off,
            x,
        ).subrange(p, q) == raw.subrange(p, q) by {
        assert(w.subrange(p, q) =~= raw.subrange(p, q));
    }
}

/// The structure's bytes after writing the six surfaced fields, in their
/// firmware encoding, over whatever `raw` held.
pub open spec fn with_loaded_image_fields(
    raw: Seq<u8>,
    parent: u64,
    device: u64,
    image_base: u64,
    image_size: u64,
    code_type: u32,
    data_type: u32,
) -> Seq<u8> {
    with_u32_at(
        with_u32_at(
            with_u64_at(
                with_u64_at(
                    with_u64_at(
                        with_u64_at(raw, PARENT_HANDLE_OFFSET as int, parent),
                        DEVICE_HANDLE_OFFSET as int,
                        device,
                    ),
                    IMAGE_BASE_OFFSET as int,
                    image_base,
                ),
                IMAGE_SIZE_OFFSET as int,
                image_size,
            ),
            IMAGE_CODE_TYPE_OFFSET as int,
            code_type,
        ),
        IMAGE_DATA_TYPE_OFFSET as int,
        data_type,
    )
}

/// Values written into the backing memory of a loaded image structure are
/// read back unchanged by the accessors: none transforms, caches or reorders
/// field data.
pub proof fn lemma_loaded_image_round_trip(
    raw: Seq<u8>,
    parent: u64,
    device: u64,
    image_base: u64,
    image_size: u64,
    code_type: u32,
    data_type: u32,
)
    requires
        raw.len() == LOADED_IMAGE_SIZE,
    ensures
        ({
            let w = with_loaded_image_fields(
                raw,
                parent,
                device,
                image_base,
                image_size,
                code_type,
                data_type,
            );
            &&& w.len() == LOADED_IMAGE_SIZE
            &&& LoadedImage::spec_parent(w) == parent
            &&& LoadedImage::spec_device(w) == device
            &&& LoadedImage::spec_image_base(w) == image_base
            &&& LoadedImage::spec_image_size(w) == image_size
            &&& LoadedImage::spec_image_code_type(w) == code_type
            &&& LoadedImage::spec_image_data_type(w) == data_type
        }),
{
    let w1 = with_u64_at(raw, PARENT_HANDLE_OFFSET as int, parent);
    lemma_with_u64_at(raw, PARENT_HANDLE_OFFSET as int, parent);
    let w2 = with_u64_at(w1, DEVICE_HANDLE_OFFSET as int, device);
    lemma_with_u64_at(w1, DEVICE_HANDLE_OFFSET as int, device);
    let w3 = with_u64_at(w2, IMAGE_BASE_OFFSET as int, image_base);
    lemma_with_u64_at(w2, IMAGE_BASE_OFFSET as int, image_base);
    let w4 = with_u64_at(w3, IMAGE_SIZE_OFFSET as int, image_size);
    lemma_with_u64_at(w3, IMAGE_SIZE_OFFSET as int, image_size);
    let w5 = with_u32_at(w4, IMAGE_CODE_TYPE_OFFSET as int, code_type);
    lemma_with_u32_at(w4, IMAGE_CODE_TYPE_OFFSET as int, code_type);
    let w6 = with_u32_at(w5, IMAGE_DATA_TYPE_OFFSET as int, data_type);
    lemma_with_u32_at(w5, IMAGE_DATA_TYPE_OFFSET as int, data_type);
    // Each later write leaves the earlier fields' bytes as they were.
    assert(w6.subrange(8, 16) == w5.subrange(8, 16));
    assert(w5.subrange(8, 16) == w4.subrange(8, 16));
    assert(w4.subrange(8, 16) == w3.subrange(8, 16));
    assert(w3.subrange(8, 16) == w2.subrange(8, 16));
    assert(w2.subrange(8, 16) == w1.subrange(8, 16));
    assert(w6.subrange(24, 32) == w5.subrange(24, 32));
    assert(w5.subrange(24, 32) == w4.subrange(24, 32));
    assert(w4.subrange(24, 32) == w3.subrange(24, 32));
    assert(w3.subrange(24, 32) == w2.subrange(24, 32));
    assert(w6.subrange(64, 72) == w5.subrange(64, 72));
    assert(w5.subrange(64, 72) == w4.subrange(64, 72));
    assert(w4.subrange(64, 72) == w3.subrange(64, 72));
    assert(w6.subrange(72, 80) == w5.subrange(72, 80));
    assert(w5.subrange(72, 80) == w4.subrange(72, 80));
    assert(w6.subrange(80, 84) == w5.subrange(80, 84));
}

} // verus!
