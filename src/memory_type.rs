//! Firmware memory types.
use vstd::prelude::*;

verus! {

/// The number of memory types the firmware specification names; codes at or
/// above it are vendor or OS defined and are kept as they are.
pub const KNOWN_MEMORY_TYPES: u32 = 15;

// Codes the firmware specification names.

pub const RESERVED: u32 = 0;

pub const LOADER_CODE: u32 = 1;

pub const LOADER_DATA: u32 = 2;

pub const BOOT_SERVICES_CODE: u32 = 3;

pub const BOOT_SERVICES_DATA: u32 = 4;

pub const RUNTIME_SERVICES_CODE: u32 = 5;

pub const RUNTIME_SERVICES_DATA: u32 = 6;

pub const CONVENTIONAL: u32 = 7;

pub const UNUSABLE: u32 = 8;

pub const ACPI_RECLAIM: u32 = 9;

pub const ACPI_NON_VOLATILE: u32 = 10;

pub const MMIO: u32 = 11;

pub const MMIO_PORT_SPACE: u32 = 12;

pub const PAL_CODE: u32 = 13;

pub const PERSISTENT_MEMORY: u32 = 14;

/// The type of a memory region, as its 32-bit firmware code.
#[derive(Clone, Copy, Debug, PartialEq, Eq, Structural)]
pub struct MemoryType {
    pub code: u32,
}

impl MemoryType {
    /// Wraps any 32-bit code, named or not.
    pub fn from_code(code: u32) -> (m: MemoryType)
        ensures
            m.code == code,
    {
        MemoryType { code }
    }

    /// Whether the code is one the firmware specification names.
    pub fn is_known(&self) -> (r: bool)
        ensures
            r == (self.code < KNOWN_MEMORY_TYPES),
    {
        self.code < KNOWN_MEMORY_TYPES
    }
}

} // verus!
