//! Iterating a NUL-terminated code-unit buffer yields the units before the
//! first NUL and nothing after it.

use uefi::u16str::U16Str;

#[test]
fn code_units_stop_at_nul() {
    let s = U16Str::from_units(vec![72, 105, 0, 99]);
    let mut it = s.code_units();
    assert_eq!(it.next(), Some(72));
    assert_eq!(it.next(), Some(105));
    assert_eq!(it.next(), None);
    // Standing on the NUL, the iterator never advances past it.
    assert_eq!(it.next(), None);
}

#[test]
fn code_units_of_empty_buffer() {
    let s = U16Str::from_units(vec![]);
    let mut it = s.code_units();
    assert_eq!(it.next(), None);
}

#[test]
fn code_units_of_lone_nul() {
    let s = U16Str::from_units(vec![0]);
    let mut it = s.code_units();
    assert_eq!(it.next(), None);
}

#[test]
fn text_units_take_everything_before_the_nul() {
    let s = U16Str::from_units(vec![72, 105, 0, 99]);
    assert_eq!(s.text_units(), vec![72, 105]);
    let t = U16Str::from_units(vec![7, 8, 9]);
    assert_eq!(t.text_units(), vec![7, 8, 9]);
    let e = U16Str::from_units(vec![]);
    assert_eq!(e.text_units(), Vec::<u16>::new());
}

#[test]
fn code_units_collects_text() {
    let text = "Lorem ipsum dolor sit amet";
    let units: Vec<u16> = text.encode_utf16().chain([0]).collect();
    let s = U16Str::from_units(units);
    let mut it = s.code_units();
    let mut collected: Vec<u16> = Vec::new();
    while let Some(u) = it.next() {
        collected.push(u);
    }
    let expected: Vec<u16> = text.encode_utf16().collect();
    assert_eq!(collected, expected);
}
