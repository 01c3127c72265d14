//! Types of the firmware's memory allocation services: allocation policy,
//! memory kinds, physical and virtual addresses, memory attributes, and the
//! descriptor the memory-map service fills.

use vstd::prelude::*;

use crate::layout::LayoutBuilder;

verus! {

/// How the allocate-pages service chooses an address. The firmware reads
/// the variants as consecutive 32-bit values starting at zero, in the order
/// declared here.
#[derive(Debug, Clone, Copy, PartialEq, Eq, Structural)]
pub enum EfiAllocateType {
    AllocateAnyPages,
    AllocateMaxAddress,
    AllocateAddress,
    MaxAllocateType,
}

impl EfiAllocateType {
    /// The 32-bit value the firmware interface assigns to this variant.
    pub fn number(&self) -> (r: u32)
        ensures
            r == match *self {
                EfiAllocateType::AllocateAnyPages => 0u32,
                EfiAllocateType::AllocateMaxAddress => 1u32,
                EfiAllocateType::AllocateAddress => 2u32,
                EfiAllocateType::MaxAllocateType => 3u32,
            },
    {
        match *self {
            EfiAllocateType::AllocateAnyPages => 0,
            EfiAllocateType::AllocateMaxAddress => 1,
            EfiAllocateType::AllocateAddress => 2,
            EfiAllocateType::MaxAllocateType => 3,
        }
    }
}

/// What a memory region is used for. The firmware reads the variants as
/// consecutive 32-bit values starting at zero, in the order declared here.
#[derive(Debug, Clone, Copy, PartialEq, Eq, Structural)]
pub enum EfiMemoryType {
    EfiReservedMemoryType,
    EfiLoaderCode,
    EfiLoaderData,
    EfiBootServicesCode,
    EfiBootServicesData,
    EfiRuntimeServicesCode,
    EfiRuntimeServicesData,
    EfiConventionalMemory,
    EfiUnusableMemory,
    EfiACPIReclaimMemory,
    EfiACPIMemoryNVS,
    EfiMemoryMappedIO,
    EfiMemoryMappedIOPortSpace,
    EfiPalCode,
    EfiPersistentMemory,
    EfiUnacceptedMemoryType,
    EfiMaxMemoryType,
}

impl EfiMemoryType {
    /// The 32-bit value the firmware interface assigns to this variant.
    pub fn number(&self) -> (r: u32)
        ensures
            r == match *self {
                EfiMemoryType::EfiReservedMemoryType => 0u32,
                EfiMemoryType::EfiLoaderCode => 1u32,
                EfiMemoryType::EfiLoaderData => 2u32,
                EfiMemoryType::EfiBootServicesCode => 3u32,
                EfiMemoryType::EfiBootServicesData => 4u32,
                EfiMemoryType::EfiRuntimeServicesCode => 5u32,
                EfiMemoryType::EfiRuntimeServicesData => 6u32,
                EfiMemoryType::EfiConventionalMemory => 7u32,
                EfiMemoryType::EfiUnusableMemory => 8u32,
                EfiMemoryType::EfiACPIReclaimMemory => 9u32,
                EfiMemoryType::EfiACPIMemoryNVS => 10u32,
                EfiMemoryType::EfiMemoryMappedIO => 11u32,
                EfiMemoryType::EfiMemoryMappedIOPortSpace => 12u32,
                EfiMemoryType::EfiPalCode => 13u32,
                EfiMemoryType::EfiPersistentMemory => 14u32,
                EfiMemoryType::EfiUnacceptedMemoryType => 15u32,
                EfiMemoryType::EfiMaxMemoryType => 16u32,
            },
    {
        match *self {
            EfiMemoryType::EfiReservedMemoryType => 0,
            EfiMemoryType::EfiLoaderCode => 1,
            EfiMemoryType::EfiLoaderData => 2,
            EfiMemoryType::EfiBootServicesCode => 3,
            EfiMemoryType::EfiBootServicesData => 4,
            EfiMemoryType::EfiRuntimeServicesCode => 5,
            EfiMemoryType::EfiRuntimeServicesData => 6,
            EfiMemoryType::EfiConventionalMemory => 7,
            EfiMemoryType::EfiUnusableMemory => 8,
            EfiMemoryType::EfiACPIReclaimMemory => 9,
            EfiMemoryType::EfiACPIMemoryNVS => 10,
            EfiMemoryType::EfiMemoryMappedIO => 11,
            EfiMemoryType::EfiMemoryMappedIOPortSpace => 12,
            EfiMemoryType::EfiPalCode => 13,
            EfiMemoryType::EfiPersistentMemory => 14,
            EfiMemoryType::EfiUnacceptedMemoryType => 15,
            EfiMemoryType::EfiMaxMemoryType => 16,
        }
    }
}

/// A physical address.
#[derive(Debug, Clone, Copy, PartialEq, Eq, Structural)]
pub struct EfiPhysicalAddress(pub u64);

/// A virtual address.
#[derive(Debug, Clone, Copy, PartialEq, Eq, Structural)]
pub struct EfiVirtualAddress(pub u64);

/// The bit flags that describe a memory region's capabilities. The
/// documented flag values are the associated constants below.
#[derive(Debug, Clone, Copy, PartialEq, Eq, Structural)]
pub struct EfiMemoryAttribute(pub u64);

impl EfiMemoryAttribute {
    /// The region supports being configured as not cacheable.
    pub const MEMORY_UC: u64 = 0x0000000000000001;
    /// The region supports being configured as write combining.
    pub const MEMORY_WC: u64 = 0x0000000000000002;
    /// The region supports a write-through cache policy.
    pub const MEMORY_WT: u64 = 0x0000000000000004;
    /// The region supports a write-back cache policy.
    pub const MEMORY_WB: u64 = 0x0000000000000008;
    /// The region supports being not cacheable, exported, with fetch-and-add.
    pub const MEMORY_UCE: u64 = 0x0000000000000010;
    /// The region supports being write-protected by hardware.
    pub const MEMORY_WP: u64 = 0x0000000000001000;
    /// The region supports being read-protected by hardware.
    pub const MEMORY_RP: u64 = 0x0000000000002000;
    /// The region supports being protected from code execution.
    pub const MEMORY_XP: u64 = 0x0000000000004000;
    /// The region refers to persistent memory.
    pub const MEMORY_NV: u64 = 0x0000000000008000;
    /// The region is more reliable than other memory in the system.
    pub const MEMORY_MORE_RELIABLE: u64 = 0x0000000000010000;
    /// The region supports being made read-only by hardware.
    pub const MEMORY_RO: u64 = 0x0000000000020000;
    /// The region is earmarked for specific purposes.
    pub const MEMORY_SP: u64 = 0x0000000000040000;
    /// The region can be protected with the CPU's memory cryptography.
    pub const MEMORY_CPU_CRYPTO: u64 = 0x0000000000080000;
    /// The region needs a virtual mapping from the operating system.
    pub const MEMORY_RUNTIME: u64 = 0x8000000000000000;
    /// The region carries additional ISA-specific attributes.
    pub const MEMORY_ISA_VALID: u64 = 0x4000000000000000;
    /// The bits reserved for ISA-specific cacheability attributes.
    pub const MEMORY_ISA_MASK: u64 = 0x0FFFF00000000000;

    /// The union of two attribute sets.
    pub fn bitor(self, rhs: EfiMemoryAttribute) -> (r: EfiMemoryAttribute)
        ensures
            r.0 == self.0 | rhs.0,
    {
        EfiMemoryAttribute(self.0 | rhs.0)
    }
}

/// One entry of the memory map the firmware returns: a region's kind, its
/// physical and virtual start, its page count and its attributes.
#[derive(Debug, Clone, Copy, PartialEq, Eq, Structural)]
pub struct EfiMemoryDescriptor {
    pub memory_type: EfiMemoryType,
    pub physical_start: EfiPhysicalAddress,
    pub virtual_start: EfiVirtualAddress,
    pub number_of_pages: u64,
    pub attribute: EfiMemoryAttribute,
}

/// The C layout of `EfiMemoryDescriptor`: each field's byte offset in
/// declaration order, and the total size. The 32-bit kind is followed by
/// 64-bit fields, so the physical start sits at byte offset 8 and the
/// descriptor spans 40 bytes.
pub fn memory_descriptor_layout() -> (r: (Vec<usize>, usize))
    ensures
        r.0@ =~= seq![0usize, 8, 16, 24, 32],
        r.1 == 40,
{
    let mut b = LayoutBuilder::new();
    let _ = b.field(4, 4);  // memory_type: u32
    let _ = b.field(8, 8);  // physical_start: u64
    let _ = b.field(8, 8);  // virtual_start: u64
    let _ = b.field(8, 8);  // number_of_pages: u64
    let _ = b.field(8, 8);  // attribute: u64
    let size = b.finish();
    (b.offsets, size)
}

} // verus!
