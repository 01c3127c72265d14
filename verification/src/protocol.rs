//! The protocol surface a minimal loader touches: the boot-services entry it
//! calls, the Graphics Output Protocol structures it reads, and the locator
//! that turns the firmware's reply into a usable interface or a failure.

use vstd::prelude::*;

use crate::data_type::{guid_bytes, EfiGuid, EfiStatus};
use crate::layout::LayoutBuilder;
use crate::EfiResult;

verus! {

/// The one boot-services entry the loader uses. In the firmware's table this
/// function pointer sits behind 40 reserved 64-bit slots, at byte offset 320;
/// `boot_services_table_layout` in the layout module states that. The field
/// carries the entry's address.
#[derive(Debug, Clone, Copy, PartialEq, Eq, Structural)]
pub struct EfiBootServicesTable {
    pub locate_protocol: u64,
}

/// The GUID of the Graphics Output Protocol.
pub open spec fn spec_graphics_output_protocol_guid() -> EfiGuid {
    EfiGuid(0x9042a9de, 0x23dc, 0x4a38, [0x96u8, 0xfb, 0x7a, 0xde, 0xd0, 0x80, 0x51, 0x6a])
}

/// Identifies the Graphics Output Protocol.
pub fn graphics_output_protocol_guid() -> (g: EfiGuid)
    ensures
        g == spec_graphics_output_protocol_guid(),
        g.0 == 0x9042a9de,
        g.1 == 0x23dc,
        g.2 == 0x4a38,
        g.3 == [0x96u8, 0xfb, 0x7a, 0xde, 0xd0, 0x80, 0x51, 0x6a],
{
    EfiGuid(0x9042a9de, 0x23dc, 0x4a38, [0x96, 0xfb, 0x7a, 0xde, 0xd0, 0x80, 0x51, 0x6a])
}

/// The graphics GUID's documented 16-byte wire form, byte for byte.
pub proof fn lemma_graphics_guid_bytes()
    ensures
        guid_bytes(spec_graphics_output_protocol_guid()) =~= seq![
            0xdeu8,
            0xa9,
            0x42,
            0x90,
            0xdc,
            0x23,
            0x38,
            0x4a,
            0x96,
            0xfb,
            0x7a,
            0xde,
            0xd0,
            0x80,
            0x51,
            0x6a,
        ],
{
    assert((0x9042a9deu32 & 0xff) as u8 == 0xde) by (bit_vector);
    assert(((0x9042a9deu32 >> 8) & 0xff) as u8 == 0xa9) by (bit_vector);
    assert(((0x9042a9deu32 >> 16) & 0xff) as u8 == 0x42) by (bit_vector);
    assert(((0x9042a9deu32 >> 24) & 0xff) as u8 == 0x90) by (bit_vector);
    assert((0x23dcu16 & 0xff) as u8 == 0xdc) by (bit_vector);
    assert(((0x23dcu16 >> 8) & 0xff) as u8 == 0x23) by (bit_vector);
    assert((0x4a38u16 & 0xff) as u8 == 0x38) by (bit_vector);
    assert(((0x4a38u16 >> 8) & 0xff) as u8 == 0x4a) by (bit_vector);
}

/// Resolution and stride of the active graphics mode. In the firmware's
/// structure five reserved 32-bit words follow the vertical resolution, so
/// the whole structure spans 36 bytes; `pixel_info_layout` in the layout
/// module states that.
#[derive(Debug, Clone, Copy, PartialEq, Eq, Structural)]
pub struct EfiGraphicsOutputProtocolPixelInfo {
    pub version: u32,
    pub horizontal_resolution: u32,
    pub vertical_resolution: u32,
    pub pixels_per_scan_line: u32,
}

/// The firmware-owned mode structure: where the frame buffer starts and how
/// many bytes it spans, beside the pixel geometry.
#[derive(Debug, Clone, Copy, PartialEq, Eq, Structural)]
pub struct EfiGraphicsOutputProtocolMode {
    pub max_mode: u32,
    pub mode: u32,
    pub info: EfiGraphicsOutputProtocolPixelInfo,
    pub size_of_info: u64,
    pub frame_buffer_base: usize,
    pub frame_buffer_size: usize,
}

/// The Graphics Output Protocol interface as the loader reads it: three
/// reserved 64-bit slots precede the mode reference in the firmware's layout.
#[derive(Debug, Clone, Copy, PartialEq, Eq, Structural)]
pub struct EfiGraphicsOutputProtocol {
    pub mode: EfiGraphicsOutputProtocolMode,
}

/// The pixel-info structure spans 36 bytes.
pub const PIXEL_INFO_SIZE: usize = 36;

/// The C layout of the minimal boot-services table above: 40 reserved
/// 64-bit slots, then the locate-protocol pointer at byte offset 320.
pub fn boot_services_table_layout() -> (r: (Vec<usize>, usize))
    ensures
        r.0@ =~= seq![0usize, 320],
        r.1 == 328,
{
    let mut b = LayoutBuilder::new();
    let _ = b.field(320, 8);  // reserved: [u64; 40]
    let _ = b.field(8, 8);  // locate_protocol: pointer
    let size = b.finish();
    (b.offsets, size)
}

/// The C layout of `EfiGraphicsOutputProtocolPixelInfo`: each field's byte
/// offset in declaration order, and the total size. Five reserved 32-bit
/// words lie between the vertical resolution and the scan-line stride, and
/// the whole structure spans 36 bytes.
pub fn pixel_info_layout() -> (r: (Vec<usize>, usize))
    ensures
        r.0@ =~= seq![0usize, 4, 8, 12, 32],
        r.1 == PIXEL_INFO_SIZE,
{
    let mut b = LayoutBuilder::new();
    let _ = b.field(4, 4);  // version: u32
    let _ = b.field(4, 4);  // horizontal_resolution: u32
    let _ = b.field(4, 4);  // vertical_resolution: u32
    let _ = b.field(20, 4);  // reserved: [u32; 5]
    let _ = b.field(4, 4);  // pixels_per_scan_line: u32
    let size = b.finish();
    (b.offsets, size)
}

/// The C layout of `EfiGraphicsOutputProtocolMode` as the loader reads it:
/// the reference to the pixel info at byte offset 8, and the frame buffer's
/// base and byte length at offsets 24 and 32, 40 bytes in all.
pub fn graphics_mode_layout() -> (r: (Vec<usize>, usize))
    ensures
        r.0@ =~= seq![0usize, 4, 8, 16, 24, 32],
        r.1 == 40,
{
    let mut b = LayoutBuilder::new();
    let _ = b.field(4, 4);  // max_mode: u32
    let _ = b.field(4, 4);  // mode: u32
    let _ = b.field(8, 8);  // info: pointer
    let _ = b.field(8, 8);  // size_of_info: u64
    let _ = b.field(8, 8);  // frame_buffer_base: usize
    let _ = b.field(8, 8);  // frame_buffer_size: usize
    let size = b.finish();
    (b.offsets, size)
}

/// The C layout of `EfiGraphicsOutputProtocol` as the loader reads it:
/// three reserved 64-bit slots, then the mode reference at byte offset 24.
pub fn graphics_output_protocol_layout() -> (r: (Vec<usize>, usize))
    ensures
        r.0@ =~= seq![0usize, 24],
        r.1 == 32,
{
    let mut b = LayoutBuilder::new();
    let _ = b.field(24, 8);  // reserved: [u64; 3]
    let _ = b.field(8, 8);  // mode: pointer
    let size = b.finish();
    (b.offsets, size)
}

/// What the firmware's locate-protocol service handed back: the status it
/// returned, and the value it stored through the interface out-pointer. The
/// firmware produces this at the program's edge; everything that follows from
/// it is decided here, verified for every possible reply.
#[derive(Debug, Clone, Copy, PartialEq, Eq, Structural)]
pub struct LocateProtocolReply {
    pub status: EfiStatus,
    pub interface: u64,
}

/// Turns the firmware's locate-protocol reply into the located interface
/// address, or into the loader's failure text when the firmware reported any
/// non-success status. A single call, fail-fast: no retry, no fallback.
pub fn locate_graphics_protocol(reply: &LocateProtocolReply) -> (r: EfiResult<u64>)
    ensures
        r is Ok <==> reply.status.0 == EfiStatus::SUCCESS,
        r is Ok ==> r->Ok_0 == reply.interface,
        r is Err ==> r->Err_0@ == "Failed to locate graphics output protocol"@,
{
    if reply.status.0 != EfiStatus::SUCCESS {
        return Err("Failed to locate graphics output protocol");
    }
    Ok(reply.interface)
}

} // verus!
