//! The GUID constants equal their documented values, field by field and in
//! their 16-byte wire form.

use uefi::data_type::EfiGuid;
use uefi::device_path::device_path_protocol_guid;
use uefi::event_group;
use uefi::protocol::graphics_output_protocol_guid;

#[test]
fn graphics_output_protocol_guid_bytes() {
    let g = graphics_output_protocol_guid();
    assert_eq!(g.0, 0x9042a9de);
    assert_eq!(g.1, 0x23dc);
    assert_eq!(g.2, 0x4a38);
    assert_eq!(g.3, [0x96, 0xfb, 0x7a, 0xde, 0xd0, 0x80, 0x51, 0x6a]);
    assert_eq!(
        g.to_bytes(),
        vec![
            0xde, 0xa9, 0x42, 0x90, 0xdc, 0x23, 0x38, 0x4a, 0x96, 0xfb, 0x7a, 0xde, 0xd0, 0x80,
            0x51, 0x6a,
        ]
    );
}

#[test]
fn device_path_protocol_guid_bytes() {
    let g = device_path_protocol_guid();
    assert_eq!(g.0, 0x09576e91);
    assert_eq!(g.1, 0x6d3f);
    assert_eq!(g.2, 0x11d2);
    assert_eq!(g.3, [0x8e, 0x39, 0x00, 0xa0, 0xc9, 0x69, 0x72, 0x3b]);
    assert_eq!(
        g.to_bytes(),
        vec![
            0x91, 0x6e, 0x57, 0x09, 0x3f, 0x6d, 0xd2, 0x11, 0x8e, 0x39, 0x00, 0xa0, 0xc9, 0x69,
            0x72, 0x3b,
        ]
    );
}

#[test]
fn event_group_guids() {
    let g = event_group::exit_boot_services();
    assert_eq!(g.0, 0x27abf055);
    assert_eq!(g.1, 0xb1b8);
    assert_eq!(g.2, 0x4c26);
    assert_eq!(g.3, [0x80, 0x48, 0x74, 0x8f, 0x37, 0xba, 0xa2, 0xdf]);

    let g = event_group::before_exit_boot_services();
    assert_eq!(g.0, 0x8be0e274);
    assert_eq!(g.1, 0x3970);
    assert_eq!(g.2, 0x4b44);
    assert_eq!(g.3, [0x80, 0xc5, 0x1a, 0xb9, 0x50, 0x2f, 0x3b, 0xfc]);

    let g = event_group::virtual_address_change();
    assert_eq!(g.0, 0x13fa7698);
    assert_eq!(g.1, 0xc831);
    assert_eq!(g.2, 0x49c7);
    assert_eq!(g.3, [0x87, 0xea, 0x8f, 0x43, 0xfc, 0xc2, 0x51, 0x96]);

    let g = event_group::memory_map_change();
    assert_eq!(g.0, 0x78bee926);
    assert_eq!(g.1, 0x692f);
    assert_eq!(g.2, 0x48fd);
    assert_eq!(g.3, [0x9e, 0xdb, 0x01, 0x42, 0x2e, 0xf0, 0xd7, 0xab]);

    let g = event_group::ready_to_boot();
    assert_eq!(g.0, 0x7ce88fb3);
    assert_eq!(g.1, 0x4bd7);
    assert_eq!(g.2, 0x4679);
    assert_eq!(g.3, [0x87, 0xa8, 0xa8, 0xd8, 0xde, 0xe5, 0x0d, 0x2b]);

    let g = event_group::after_ready_to_boot();
    assert_eq!(g.0, 0x3a2a00ad);
    assert_eq!(g.1, 0x98b9);
    assert_eq!(g.2, 0x4cdf);
    assert_eq!(g.3, [0xa4, 0x78, 0x70, 0x27, 0x77, 0xf1, 0xc1, 0x0b]);

    let g = event_group::reset_system();
    assert_eq!(g.0, 0x62da6a56);
    assert_eq!(g.1, 0x13fb);
    assert_eq!(g.2, 0x485a);
    assert_eq!(g.3, [0xa8, 0xda, 0xa3, 0xdd, 0x79, 0x12, 0xcb, 0x6b]);
}

#[test]
fn guid_equality_is_field_equality() {
    let a = graphics_output_protocol_guid();
    let b = graphics_output_protocol_guid();
    assert_eq!(a, b);
    let c = EfiGuid(a.0, a.1, a.2, [0x96, 0xfb, 0x7a, 0xde, 0xd0, 0x80, 0x51, 0x00]);
    assert_ne!(a, c);
    let d = EfiGuid(a.0 ^ 1, a.1, a.2, a.3);
    assert_ne!(a, d);
}
