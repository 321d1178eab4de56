//! The packed framebuffer as a sequence of bytes: one bit per pixel, a set
//! bit for a dark pixel and a clear bit for a lit one.

use vstd::prelude::*;
use crate::geometry::{pixel_mask, Tiling};

verus! {

/// Whether pixel `(x, y)` of `frame` is lit (its bit is clear).
pub open spec fn pixel_is_lit(t: Tiling, frame: Seq<u8>, x: int, y: int) -> bool {
    frame[t.bitmap_index(x, y)] & pixel_mask(x) == 0
}

/// `frame` with pixel `(x, y)` lit or dark; a pixel off the display is
/// clipped and leaves the frame as it is.
pub open spec fn with_pixel(t: Tiling, frame: Seq<u8>, x: int, y: int, on: bool) -> Seq<u8> {
    if t.on_panel(x, y) {
        let i = t.bitmap_index(x, y);
        let mask = pixel_mask(x);
        frame.update(i, if on { frame[i] & !mask } else { frame[i] | mask })
    } else {
        frame
    }
}

/// `frame` after drawing `pixels` in order, each a column, a row and whether
/// it is lit.
pub open spec fn draw_all(t: Tiling, frame: Seq<u8>, pixels: Seq<(i32, i32, bool)>) -> Seq<u8>
    decreases pixels.len(),
{
    if pixels.len() == 0 {
        frame
    } else {
        let p = pixels.last();
        with_pixel(t, draw_all(t, frame, pixels.drop_last()), p.0 as int, p.1 as int, p.2)
    }
}

proof fn lemma_mask_bits(b: u8, k: u8)
    requires
        k < 8,
    ensures
        b & (1u8 << k) != 0 ==> (b & !(1u8 << k)) | (1u8 << k) == b,
        b & (1u8 << k) != 0 ==> b | (1u8 << k) == b,
        b & (1u8 << k) == 0 ==> b & !(1u8 << k) == b,
        (b & !(1u8 << k)) & (1u8 << k) == 0,
        (b | (1u8 << k)) & (1u8 << k) != 0,
{
    assert(b & (1u8 << k) != 0 ==> (b & !(1u8 << k)) | (1u8 << k) == b) by (bit_vector)
        requires k < 8;
    assert(b & (1u8 << k) != 0 ==> b | (1u8 << k) == b) by (bit_vector)
        requires k < 8;
    assert(b & (1u8 << k) == 0 ==> b & !(1u8 << k) == b) by (bit_vector)
        requires k < 8;
    assert((b & !(1u8 << k)) & (1u8 << k) == 0) by (bit_vector)
        requires k < 8;
    assert((b | (1u8 << k)) & (1u8 << k) != 0) by (bit_vector)
        requires k < 8;
}

/// Drawing a pixel sets exactly that pixel: afterwards it is lit if and
/// only if it was drawn lit, and the frame keeps its length.
pub proof fn lemma_with_pixel_sets(t: Tiling, frame: Seq<u8>, x: int, y: int, on: bool)
    requires
        t.valid(),
        frame.len() == t.frame_len(),
        t.on_panel(x, y),
    ensures
        with_pixel(t, frame, x, y, on).len() == frame.len(),
        pixel_is_lit(t, with_pixel(t, frame, x, y, on), x, y) == on,
{
    crate::geometry::lemma_addressing_in_range(t, x, y);
    lemma_mask_bits(frame[t.bitmap_index(x, y)], (7 - x % 8) as u8);
}

/// Lighting a dark pixel and then darkening it gives back the frame it
/// started from; off the display neither call changes anything.
pub proof fn lemma_light_then_darken(t: Tiling, frame: Seq<u8>, x: int, y: int)
    requires
        t.valid(),
        frame.len() == t.frame_len(),
        t.on_panel(x, y) ==> !pixel_is_lit(t, frame, x, y),
    ensures
        with_pixel(t, with_pixel(t, frame, x, y, true), x, y, false) == frame,
{
    if t.on_panel(x, y) {
        crate::geometry::lemma_addressing_in_range(t, x, y);
        let i = t.bitmap_index(x, y);
        lemma_mask_bits(frame[i], (7 - x % 8) as u8);
        assert(with_pixel(t, with_pixel(t, frame, x, y, true), x, y, false) =~= frame);
    }
}

/// Drawing a pixel in the state it already has leaves the frame unchanged.
pub proof fn lemma_redraw_is_noop(t: Tiling, frame: Seq<u8>, x: int, y: int, on: bool)
    requires
        t.valid(),
        frame.len() == t.frame_len(),
        t.on_panel(x, y) ==> pixel_is_lit(t, frame, x, y) == on,
    ensures
        with_pixel(t, frame, x, y, on) == frame,
{
    if t.on_panel(x, y) {
        crate::geometry::lemma_addressing_in_range(t, x, y);
        let i = t.bitmap_index(x, y);
        lemma_mask_bits(frame[i], (7 - x % 8) as u8);
        assert(with_pixel(t, frame, x, y, on) =~= frame);
    }
}

} // verus!
