//! Integer layout of the rays over the frame buffer.
//!
//! Every cell is traced with two rays, one per vertical sub-pixel. A cell of
//! slice index `idx` sits at column `idx % width` and row `idx / width`; its
//! top pixel lies on pixel row `2 * row`, its bottom pixel on `2 * row + 1`.
use vstd::prelude::*;

use crate::render::framebuffer::FrameBuffer;

verus! {

/// Number of rays traced for a frame of `width` by `height` cells: two per
/// cell.
pub fn total_rays(width: u16, height: u16) -> (n: u64)
    ensures
        n == width * height * 2,
{
    assert(width * height <= 0xffff * 0xffff) by (nonlinear_arith)
        requires
            width <= 0xffff,
            height <= 0xffff,
    ;
    width as u64 * height as u64 * 2
}

/// Column and row of the cell at flat index `idx` in a buffer `width`
/// columns wide.
pub fn cell_coordinates(idx: usize, width: u16) -> (xy: (u16, u16))
    requires
        width > 0,
        idx < width * 0x10000,
    ensures
        xy.0 == (idx as int) % (width as int),
        xy.1 == (idx as int) / (width as int),
{
    let w = width as usize;
    assert((idx as int) / (width as int) < 0x10000) by (nonlinear_arith)
        requires
            width > 0,
            idx < width * 0x10000,
    ;
    ((idx % w) as u16, (idx / w) as u16)
}

/// Pixel rows of the top and bottom pixel of cell row `ty`.
pub fn subpixel_rows(ty: u16) -> (rows: (u16, u16))
    requires
        ty < 0x8000,
    ensures
        rows.0 == 2 * ty,
        rows.1 == 2 * ty + 1,
{
    (ty * 2, ty * 2 + 1)
}

/// The rays of a frame are one per pixel: `width` columns times the pixel
/// height of the buffer.
pub proof fn lemma_one_ray_per_pixel(width: u16, height: u16)
    ensures
        width * height * 2 == width * (2 * height),
{
    assert(width * height * 2 == width * (2 * height)) by (nonlinear_arith);
}

/// Splitting a flat index into column and row, then joining them again,
/// gives back the index; and the cell at a column and row inside the buffer
/// splits back into that column and row.
pub proof fn lemma_layout_round_trip(fb: FrameBuffer, idx: int, x: int, y: int)
    requires
        fb.width > 0,
    ensures
        0 <= idx ==> fb.index_of(idx % (fb.width as int), idx / (fb.width as int)) == idx,
        0 <= x < fb.width && 0 <= y ==> {
            &&& fb.index_of(x, y) % (fb.width as int) == x
            &&& fb.index_of(x, y) / (fb.width as int) == y
        },
{
    let w = fb.width as int;
    if 0 <= idx {
        assert((idx / w) * w + idx % w == idx) by (nonlinear_arith)
            requires
                w > 0,
        ;
    }
    if 0 <= x < w && 0 <= y {
        vstd::arithmetic::div_mod::lemma_fundamental_div_mod_converse(y * w + x, w, y, x);
    }
}

/// Distinct columns and rows inside the buffer name distinct cells, and every
/// such cell lies inside the flat array of a well-formed buffer.
pub proof fn lemma_layout_injective(fb: FrameBuffer, x1: int, y1: int, x2: int, y2: int)
    requires
        fb.wf(),
        0 <= x1 < fb.width,
        0 <= y1 < fb.height,
        0 <= x2 < fb.width,
        0 <= y2 < fb.height,
    ensures
        0 <= fb.index_of(x1, y1) < fb.cells@.len(),
        fb.index_of(x1, y1) == fb.index_of(x2, y2) ==> x1 == x2 && y1 == y2,
{
    let w = fb.width as int;
    let h = fb.height as int;
    assert(0 <= y1 * w + x1 < w * h) by (nonlinear_arith)
        requires
            0 <= x1 < w,
            0 <= y1 < h,
    ;
    lemma_layout_round_trip(fb, 0, x1, y1);
    lemma_layout_round_trip(fb, 0, x2, y2);
}

} // verus!
