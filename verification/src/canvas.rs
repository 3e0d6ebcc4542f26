//! The pixel buffer: a flat run of bytes, four (red, green, blue, alpha) per
//! pixel, and the rule by which a position is stamped into it.

use crate::point::{Coords, Point, PIXEL_LIMIT};
use vstd::prelude::*;

verus! {

/// Width of the canvas in pixels.
pub const WIDTH: usize = 100;

/// Height of the canvas in pixels.
pub const HEIGHT: usize = 100;

/// The flat pixel index of a position: its pixel row times [`HEIGHT`] plus its
/// pixel column; on the square canvas a row is [`HEIGHT`] pixels long. The
/// index is negative, or past the end of the buffer, for positions far enough
/// off the canvas.
pub open spec fn flat_index(position: Coords) -> int {
    position.row() * HEIGHT + position.column()
}

/// Whether all four bytes of pixel `index` lie inside a buffer of `len` bytes.
pub open spec fn holds_pixel(len: nat, index: int) -> bool {
    0 <= index && 4 * index + 4 <= len
}

/// The buffer after stamping `colour` at pixel `index`: the four bytes of that
/// pixel are replaced if the buffer holds it, and nothing changes otherwise.
pub open spec fn stamped(frame: Seq<u8>, index: int, colour: Seq<u8>) -> Seq<u8> {
    if holds_pixel(frame.len(), index) {
        Seq::new(
            frame.len(),
            |k: int|
                if 4 * index <= k < 4 * index + 4 {
                    colour[k - 4 * index]
                } else {
                    frame[k]
                },
        )
    } else {
        frame
    }
}

/// In a buffer made of whole pixels, a pixel lies inside exactly when its
/// first byte does.
pub proof fn lemma_holds_pixel_by_offset(len: nat, index: int)
    requires
        len % 4 == 0,
    ensures
        holds_pixel(len, index) <==> 0 <= 4 * index < len,
{
}

/// Stamping never changes the length of the buffer, never touches a byte
/// outside the stamped pixel, and leaves the colour in the pixel when the
/// buffer holds it.
pub proof fn lemma_stamped_footprint(frame: Seq<u8>, index: int, colour: Seq<u8>)
    requires
        colour.len() == 4,
    ensures
        stamped(frame, index, colour).len() == frame.len(),
        forall|k: int|
            0 <= k < frame.len() && !(4 * index <= k < 4 * index + 4) ==> stamped(
                frame,
                index,
                colour,
            )[k] == frame[k],
        holds_pixel(frame.len(), index) ==> stamped(frame, index, colour).subrange(
            4 * index,
            4 * index + 4,
        ) == colour,
        !holds_pixel(frame.len(), index) ==> stamped(frame, index, colour) == frame,
{
    if holds_pixel(frame.len(), index) {
        assert(stamped(frame, index, colour).subrange(4 * index, 4 * index + 4) =~= colour);
    }
}

/// The flat pixel index of a point.
pub fn pixel_index(position: &Point) -> (index: i64)
    ensures
        index == flat_index(position@),
{
    let row: i64 = position.row();
    let column: i64 = position.column();
    assert(-PIXEL_LIMIT * 100 <= row * HEIGHT <= PIXEL_LIMIT * 100) by {
        assert(HEIGHT == 100 && PIXEL_LIMIT == 9_223_372_036_855);
    }
    row * (HEIGHT as i64) + column
}

/// Writes `colour` into pixel `index` of `frame` if the buffer holds that
/// pixel, and does nothing otherwise.
pub fn stamp(frame: &mut [u8], index: i64, colour: &[u8; 4])
    ensures
        final(frame)@ == stamped(old(frame)@, index as int, colour@),
{
    let len: usize = frame.len();
    if index < 0 || len < 4 || index as u64 > ((len - 4) / 4) as u64 {
        return;
    }
    let base: usize = 4 * (index as usize);
    frame[base] = colour[0];
    frame[base + 1] = colour[1];
    frame[base + 2] = colour[2];
    frame[base + 3] = colour[3];
    assert(frame@ =~= stamped(old(frame)@, index as int, colour@));
}

} // verus!
