//! The locator's decision on mock firmware replies, and the fill routine's
//! exact effect on frame buffers of various sizes.

use uefi::boot::{fill_frame_buffer, run_graphics_fill, FILL_COLOR};
use uefi::data_type::EfiStatus;
use uefi::protocol::{locate_graphics_protocol, LocateProtocolReply};

#[test]
fn locator_yields_mock_interface_on_success() {
    let reply = LocateProtocolReply { status: EfiStatus(EfiStatus::SUCCESS), interface: 0xCAFE };
    assert_eq!(locate_graphics_protocol(&reply), Ok(0xCAFE));
}

#[test]
fn locator_fails_on_any_non_success_status() {
    for code in [
        EfiStatus::LOAD_ERROR,
        EfiStatus::INVALID_PARAMETER,
        EfiStatus::NOT_FOUND,
        EfiStatus::OUT_OF_RESOURCES,
        EfiStatus::HTTP_ERROR,
    ] {
        let reply = LocateProtocolReply { status: EfiStatus(code), interface: 0xCAFE };
        assert_eq!(
            locate_graphics_protocol(&reply),
            Err("Failed to locate graphics output protocol")
        );
    }
}

#[test]
fn fill_writes_every_whole_pixel() {
    // 16 bytes: exactly 4 pixel values, each the color, little-endian.
    let mut fb = vec![0u8; 16];
    fill_frame_buffer(&mut fb, FILL_COLOR);
    assert_eq!(fb.len(), 16);
    for p in 0..4 {
        let cell = u32::from_le_bytes([fb[4 * p], fb[4 * p + 1], fb[4 * p + 2], fb[4 * p + 3]]);
        assert_eq!(cell, 0xFFFFFF);
    }
}

#[test]
fn fill_leaves_incomplete_tail_untouched() {
    // 10 bytes: two whole pixels are written; the last two bytes keep their
    // prior values, and the length does not change.
    let mut fb = vec![0x5Au8; 10];
    fill_frame_buffer(&mut fb, 0x11223344);
    assert_eq!(fb.len(), 10);
    assert_eq!(&fb[0..4], &[0x44, 0x33, 0x22, 0x11]);
    assert_eq!(&fb[4..8], &[0x44, 0x33, 0x22, 0x11]);
    assert_eq!(&fb[8..10], &[0x5A, 0x5A]);
}

#[test]
fn fill_of_empty_buffer_is_a_no_op() {
    let mut fb: Vec<u8> = Vec::new();
    fill_frame_buffer(&mut fb, FILL_COLOR);
    assert!(fb.is_empty());
}

#[test]
fn run_fills_on_success() {
    let reply = LocateProtocolReply { status: EfiStatus(EfiStatus::SUCCESS), interface: 0x1000 };
    let mut fb = vec![0u8; 8];
    let r = run_graphics_fill(&reply, &mut fb);
    assert_eq!(r, Ok(0x1000));
    assert_eq!(fb, vec![0xFF, 0xFF, 0xFF, 0x00, 0xFF, 0xFF, 0xFF, 0x00]);
}

#[test]
fn run_does_not_touch_buffer_on_failure() {
    let reply =
        LocateProtocolReply { status: EfiStatus(EfiStatus::NOT_FOUND), interface: 0x1000 };
    let mut fb = vec![0xABu8; 8];
    let r = run_graphics_fill(&reply, &mut fb);
    assert_eq!(r, Err("Failed to locate graphics output protocol"));
    assert_eq!(fb, vec![0xAB; 8]);
}
