//! The loader's runtime behavior: locate the Graphics Output Protocol, then
//! paint the whole frame buffer with one solid color. The firmware call and
//! the raw frame-buffer memory live at the program's edge; here the frame
//! buffer is its byte contents, and the fill is verified byte for byte.

use vstd::prelude::*;

use crate::data_type::EfiStatus;
use crate::protocol::{locate_graphics_protocol, LocateProtocolReply};
use crate::EfiResult;

verus! {

/// The color every pixel is painted with: solid white in a 32-bit pixel.
pub const FILL_COLOR: u32 = 0xFFFFFF;

/// Byte `k` of a 32-bit pixel value as it lies in frame-buffer memory, least
/// significant byte first, for `0 <= k < 4`.
pub open spec fn pixel_byte(color: u32, k: int) -> u8 {
    if k == 0 {
        (color & 0xff) as u8
    } else if k == 1 {
        ((color >> 8) & 0xff) as u8
    } else if k == 2 {
        ((color >> 16) & 0xff) as u8
    } else {
        ((color >> 24) & 0xff) as u8
    }
}

/// The contents of a frame buffer after the fill: the first `len / 4` whole
/// 32-bit cells each hold the color, and the tail bytes of an incomplete
/// cell, if any, keep their prior values. Nothing outside the buffer is
/// spoken of, because nothing outside it is touched.
pub open spec fn filled(fb0: Seq<u8>, color: u32) -> Seq<u8> {
    Seq::new(
        fb0.len(),
        |i: int|
            if i < 4 * ((fb0.len() as int) / 4) {
                pixel_byte(color, i % 4)
            } else {
                fb0[i]
            },
    )
}

/// Overwrites every whole 32-bit cell of the frame buffer with the color:
/// for a buffer of `n` bytes, exactly `n / 4` pixel values are written, and
/// the bytes of an incomplete trailing cell are left as they were.
pub fn fill_frame_buffer(fb: &mut Vec<u8>, color: u32)
    ensures
        final(fb)@ == filled(old(fb)@, color),
{
    let n = fb.len();
    let limit = (n / 4) * 4;
    let mut i: usize = 0;
    while i < limit
        invariant
            limit == 4 * ((n as int) / 4),
            n == old(fb)@.len(),
            i <= limit,
            fb@.len() == n,
            forall|j: int| 0 <= j < i ==> fb@[j] == pixel_byte(color, j % 4),
            forall|j: int| i <= j < n ==> fb@[j] == old(fb)@[j],
        decreases limit - i,
    {
        let k = i % 4;
        let b: u8 = if k == 0 {
            (color & 0xff) as u8
        } else if k == 1 {
            ((color >> 8) & 0xff) as u8
        } else if k == 2 {
            ((color >> 16) & 0xff) as u8
        } else {
            ((color >> 24) & 0xff) as u8
        };
        assert(b == pixel_byte(color, i as int % 4));
        fb.set(i, b);
        i = i + 1;
    }
    proof {
        assert(fb@ =~= filled(old(fb)@, color));
    }
}

/// The loader's whole runtime flow on the values the firmware provided:
/// locate the Graphics Output Protocol from the firmware's reply, and on
/// success fill the frame buffer with the color constant. On any non-success
/// status the failure is returned and the frame buffer is not touched.
pub fn run_graphics_fill(reply: &LocateProtocolReply, fb: &mut Vec<u8>) -> (r: EfiResult<u64>)
    ensures
        r is Ok <==> reply.status.0 == EfiStatus::SUCCESS,
        r is Ok ==> r->Ok_0 == reply.interface && final(fb)@ == filled(old(fb)@, FILL_COLOR),
        r is Err ==> final(fb)@ == old(fb)@ && r->Err_0@ == "Failed to locate graphics output protocol"@,
{
    match locate_graphics_protocol(reply) {
        Ok(interface) => {
            fill_frame_buffer(fb, FILL_COLOR);
            Ok(interface)
        },
        Err(e) => Err(e),
    }
}

} // verus!
