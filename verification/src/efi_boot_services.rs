//! The boot services table: the firmware's function pointers for task
//! priority, memory, event, protocol, image and miscellaneous services, at
//! fixed byte offsets behind a common header.

use vstd::prelude::*;

use crate::efi_table_header::EfiTableHeader;
use crate::layout::LayoutBuilder;

verus! {

/// The firmware's boot services table. Each field after the header is a
/// function pointer, carried here as the entry's address; the firmware owns
/// the table, and it stays valid until the boot-services-exit call. The
/// byte offset of every field is stated by `boot_services_layout`.
#[derive(Debug, Clone, Copy, PartialEq, Eq, Structural)]
pub struct EfiBootServices {
    pub hdr: EfiTableHeader,
    // Task priority services
    pub raise_tpl: u64,
    pub restore_tpl: u64,
    // Memory services
    pub allocate_pages: u64,
    pub free_pages: u64,
    pub get_memory_map: u64,
    pub allocate_pool: u64,
    pub free_pool: u64,
    // Event and timer services
    pub create_event: u64,
    pub set_timer: u64,
    pub wait_for_event: u64,
    pub signal_event: u64,
    pub close_event: u64,
    pub check_event: u64,
    // Protocol handler services
    pub install_protocol_interface: u64,
    pub reinstall_protocol_interface: u64,
    pub uninstall_protocol_interface: u64,
    pub handle_protocol: u64,
    pub reserved: u64,
    pub register_protocol_notify: u64,
    pub locate_handle: u64,
    pub locate_device_path: u64,
    pub install_configuration_table: u64,
    // Image services
    pub load_image: u64,
    pub start_image: u64,
    pub exit: u64,
    pub unload_image: u64,
    pub exit_boot_services: u64,
    // Miscellaneous services
    pub get_next_monotonic_count: u64,
    pub stall: u64,
    pub set_watchdog_timer: u64,
    // Driver support services
    pub connect_controller: u64,
    pub disconnect_controller: u64,
    // Open and close protocol services
    pub open_protocol: u64,
    pub close_protocol: u64,
    pub open_protocol_information: u64,
    // Library services
    pub protocols_per_handle: u64,
    pub locate_handle_buffer: u64,
    pub locate_protocol: u64,
    pub install_multiple_protocol_interfaces: u64,
    pub uninstall_multiple_protocol_interfaces: u64,
    // 32-bit CRC services
    pub calculate_crc32: u64,
    // Miscellaneous services
    pub copy_mem: u64,
    pub set_mem: u64,
    pub create_event_ex: u64,
}

/// Index of the locate-protocol pointer among the table's fields.
pub const BOOT_SERVICES_LOCATE_PROTOCOL: usize = 38;

/// The C layout of `EfiBootServices`: each field's byte offset in
/// declaration order, and the total size. After the 24-byte header every
/// field is an 8-byte pointer, so field `i` sits at `16 + 8 * i`; the
/// locate-protocol pointer sits at byte offset 320, and the table spans
/// 376 bytes.
pub fn boot_services_layout() -> (r: (Vec<usize>, usize))
    ensures
        r.0@.len() == 45,
        r.0@[0] == 0,
        forall|i: int| 1 <= i < 45 ==> r.0@[i] == 16 + 8 * i,
        r.0@[BOOT_SERVICES_LOCATE_PROTOCOL as int] == 320,
        r.1 == 376,
{
    let mut b = LayoutBuilder::new();
    let _ = b.field(24, 8);  // hdr: EfiTableHeader
    let mut placed: usize = 1;
    while placed < 45
        invariant
            1 <= placed <= 45,
            b.end == 16 + 8 * placed,
            b.align == 8,
            b.offsets@.len() == placed,
            b.offsets@[0] == 0,
            forall|i: int| 1 <= i < placed ==> b.offsets@[i] == 16 + 8 * i,
        decreases 45 - placed,
    {
        let _ = b.field(8, 8);  // the next function pointer
        placed = placed + 1;
    }
    let size = b.finish();
    (b.offsets, size)
}

} // verus!
