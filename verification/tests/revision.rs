//! The revision word splits into its documented major and minor parts, and
//! renders as the documented dotted text.

use uefi::efi_revision::{u16_to_decimal, EfiRevision};

#[test]
fn revision_parts() {
    let r = EfiRevision::from((2u32 << 16) | 70);
    assert_eq!(r.major(), 2);
    assert_eq!(r.minor(), 70);
    assert_eq!(r.minor_upper(), 7);
    assert_eq!(r.minor_lower(), 0);
}

#[test]
fn revision_roundtrip() {
    let r = EfiRevision::from(0x0002001E);
    assert_eq!(r.to_u32(), 0x0002001E);
    assert_eq!(r.major(), 2);
    assert_eq!(r.minor(), 30);
}

#[test]
fn revision_text_two_components() {
    // Minor revision 100: ten units of ten, last digit zero.
    let r = EfiRevision::from((2u32 << 16) | 100);
    assert_eq!(r.to_string(), "2.10");
}

#[test]
fn revision_text_three_components() {
    // Minor revision 101: the non-zero last digit becomes a third component.
    let r = EfiRevision::from((2u32 << 16) | 101);
    assert_eq!(r.to_string(), "2.10.1");
}

#[test]
fn revision_text_zero_minor() {
    let r = EfiRevision::from(1u32 << 16);
    assert_eq!(r.to_string(), "1.0");
}

#[test]
fn decimal_rendering() {
    assert_eq!(u16_to_decimal(0), "0");
    assert_eq!(u16_to_decimal(7), "7");
    assert_eq!(u16_to_decimal(10), "10");
    assert_eq!(u16_to_decimal(409), "409");
    assert_eq!(u16_to_decimal(65535), "65535");
}
