//! The system table the firmware hands to the entry point: console handles
//! and interfaces, and references to the runtime and boot services tables.

use vstd::prelude::*;

use crate::data_type::EfiHandle;
use crate::efi_table_header::EfiTableHeader;
use crate::layout::LayoutBuilder;

verus! {

/// The firmware's system table. Every reference the firmware stores in it is
/// carried as the address of the pointed-to table or buffer; the firmware
/// owns all of them, and they stay valid while boot services are active.
#[derive(Debug, Clone, Copy, PartialEq, Eq, Structural)]
pub struct EfiSystemTable {
    pub hdr: EfiTableHeader,
    pub firmware_vendor: u64,
    pub firmware_revision: u32,
    pub console_in_handle: EfiHandle,
    pub console_in: u64,
    pub console_out_handle: EfiHandle,
    pub console_out: u64,
    pub standard_error_handle: EfiHandle,
    pub std_err: u64,
    pub runtime_services: u64,
    pub boot_services: u64,
    pub number_of_table_entries: u64,
    pub efi_configuration_table: u64,
}

/// Index of the boot-services reference among the system table's fields.
pub const SYSTEM_TABLE_BOOT_SERVICES: usize = 10;

/// The C layout of `EfiSystemTable`: each field's byte offset in declaration
/// order, and the total size. The reference to the boot services table sits
/// at byte offset 96 — twelve 64-bit words into the table — and the table
/// spans 120 bytes.
pub fn system_table_layout() -> (r: (Vec<usize>, usize))
    ensures
        r.0@ =~= seq![0usize, 24, 32, 40, 48, 56, 64, 72, 80, 88, 96, 104, 112],
        r.0@[SYSTEM_TABLE_BOOT_SERVICES as int] == 96,
        r.1 == 120,
{
    let mut b = LayoutBuilder::new();
    let _ = b.field(24, 8);  // hdr: EfiTableHeader
    let _ = b.field(8, 8);  // firmware_vendor: pointer
    let _ = b.field(4, 4);  // firmware_revision: u32
    let _ = b.field(8, 8);  // console_in_handle: EfiHandle
    let _ = b.field(8, 8);  // console_in: pointer
    let _ = b.field(8, 8);  // console_out_handle: EfiHandle
    let _ = b.field(8, 8);  // console_out: pointer
    let _ = b.field(8, 8);  // standard_error_handle: EfiHandle
    let _ = b.field(8, 8);  // std_err: pointer
    let _ = b.field(8, 8);  // runtime_services: pointer
    let _ = b.field(8, 8);  // boot_services: pointer
    let _ = b.field(8, 8);  // number_of_table_entries: usize
    let _ = b.field(8, 8);  // efi_configuration_table: pointer
    let size = b.finish();
    (b.offsets, size)
}

} // verus!
