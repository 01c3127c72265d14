//! The declared field offsets and sizes of every modeled firmware structure
//! equal the values the UEFI specification mandates.

use uefi::data_type::guid_layout;
use uefi::device_path::device_path_layout;
use uefi::efi_boot_services::{boot_services_layout, BOOT_SERVICES_LOCATE_PROTOCOL};
use uefi::efi_system_table::{system_table_layout, SYSTEM_TABLE_BOOT_SERVICES};
use uefi::efi_table_header::{table_header_layout, TABLE_HEADER_SIZE};
use uefi::memory_allocation::memory_descriptor_layout;
use uefi::protocol::{
    boot_services_table_layout, graphics_mode_layout, graphics_output_protocol_layout,
    pixel_info_layout, PIXEL_INFO_SIZE,
};
use uefi::protocol_handler::open_protocol_information_entry_layout;

#[test]
fn table_header_offsets() {
    let (offsets, size) = table_header_layout();
    assert_eq!(offsets, vec![0, 8, 12, 16, 20]);
    assert_eq!(size, 24);
    assert_eq!(size, TABLE_HEADER_SIZE);
}

#[test]
fn system_table_offsets() {
    let (offsets, size) = system_table_layout();
    assert_eq!(offsets, vec![0, 24, 32, 40, 48, 56, 64, 72, 80, 88, 96, 104, 112]);
    assert_eq!(offsets[SYSTEM_TABLE_BOOT_SERVICES], 96);
    assert_eq!(size, 120);
}

#[test]
fn boot_services_offsets() {
    let (offsets, size) = boot_services_layout();
    assert_eq!(offsets.len(), 45);
    assert_eq!(offsets[0], 0);
    for i in 1..45 {
        assert_eq!(offsets[i], 16 + 8 * i);
    }
    assert_eq!(size, 376);
}

#[test]
fn locate_protocol_sits_at_320() {
    let (offsets, _) = boot_services_layout();
    assert_eq!(offsets[BOOT_SERVICES_LOCATE_PROTOCOL], 320);
    // The minimal table the loader reads agrees with the full table.
    let (minimal, _) = boot_services_table_layout();
    assert_eq!(minimal, vec![0, 320]);
}

#[test]
fn pixel_info_is_36_bytes() {
    let (offsets, size) = pixel_info_layout();
    assert_eq!(offsets, vec![0, 4, 8, 12, 32]);
    assert_eq!(size, 36);
    assert_eq!(size, PIXEL_INFO_SIZE);
}

#[test]
fn graphics_protocol_offsets() {
    let (offsets, size) = graphics_output_protocol_layout();
    assert_eq!(offsets, vec![0, 24]);
    assert_eq!(size, 32);
    let (mode_offsets, mode_size) = graphics_mode_layout();
    assert_eq!(mode_offsets, vec![0, 4, 8, 16, 24, 32]);
    assert_eq!(mode_size, 40);
}

#[test]
fn memory_descriptor_offsets() {
    let (offsets, size) = memory_descriptor_layout();
    assert_eq!(offsets, vec![0, 8, 16, 24, 32]);
    assert_eq!(size, 40);
}

#[test]
fn open_protocol_information_entry_offsets() {
    let (offsets, size) = open_protocol_information_entry_layout();
    assert_eq!(offsets, vec![0, 8, 16, 20]);
    assert_eq!(size, 24);
}

#[test]
fn device_path_offsets() {
    let (offsets, size) = device_path_layout();
    assert_eq!(offsets, vec![0, 1, 2]);
    assert_eq!(size, 4);
}

#[test]
fn guid_is_128_bits() {
    let (offsets, size) = guid_layout();
    assert_eq!(offsets, vec![0, 4, 6, 8]);
    assert_eq!(size * 8, 128);
}
