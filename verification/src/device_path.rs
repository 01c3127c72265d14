//! The device path protocol: the GUID that names it and the fixed header of
//! a device path node.

use vstd::prelude::*;

use crate::data_type::EfiGuid;
use crate::layout::LayoutBuilder;

verus! {

/// Names the device path protocol.
pub fn device_path_protocol_guid() -> (g: EfiGuid)
    ensures
        g.0 == 0x09576e91,
        g.1 == 0x6d3f,
        g.2 == 0x11d2,
        g.3 == [0x8eu8, 0x39, 0x00, 0xa0, 0xc9, 0x69, 0x72, 0x3b],
{
    EfiGuid(0x09576e91, 0x6d3f, 0x11d2, [0x8e, 0x39, 0x00, 0xa0, 0xc9, 0x69, 0x72, 0x3b])
}

/// The header of one device path node: its type, sub-type, and the node's
/// total length as two little-endian bytes.
#[derive(Debug, Clone, Copy)]
pub struct EfiDevicePathProtocol {
    pub ty: u8,
    pub subty: u8,
    pub length: [u8; 2],
}

/// The C layout of `EfiDevicePathProtocol`: each field's byte offset in
/// declaration order, and the total size. All fields are single bytes, so
/// the header spans 4 bytes.
pub fn device_path_layout() -> (r: (Vec<usize>, usize))
    ensures
        r.0@ =~= seq![0usize, 1, 2],
        r.1 == 4,
{
    let mut b = LayoutBuilder::new();
    let _ = b.field(1, 1);  // ty: u8
    let _ = b.field(1, 1);  // subty: u8
    let _ = b.field(2, 1);  // length: [u8; 2]
    let size = b.finish();
    (b.offsets, size)
}

} // verus!
