//! Flat frame buffer of half-block cells.
//!
//! Each terminal cell shows two vertical pixels: the upper half block is drawn
//! in the top pixel's colour (foreground) over the bottom pixel's colour
//! (background). The buffer is a flat row-major array: the cell of column `x`
//! and row `y` sits at `y * width + x`.
use vstd::prelude::*;

use crate::constants::{color_void, void_rgb, Color};

verus! {

/// The half-block character used for sub-cell rendering: it fills the top
/// half of a cell.
pub const HALF_BLOCK: char = '\u{2580}';

/// A single cell of the frame buffer, representing two vertical pixels.
#[derive(Clone, Copy, Debug, PartialEq, Eq, Structural)]
pub struct Cell {
    /// Colour of the top pixel (foreground of the half block).
    pub top_color: Color,
    /// Colour of the bottom pixel (background of the half block).
    pub bottom_color: Color,
}

/// A cell whose two pixels are both void.
pub open spec fn void_cell() -> Cell {
    Cell { top_color: void_rgb(), bottom_color: void_rgb() }
}

/// `n` void cells.
pub open spec fn void_cells(n: nat) -> Seq<Cell> {
    Seq::new(n, |i: int| void_cell())
}

/// The cells after a resize to `n` cells: the first `n` old cells are kept
/// in place, missing ones are void.
pub open spec fn resized_cells(old: Seq<Cell>, n: nat) -> Seq<Cell> {
    if n <= old.len() {
        old.take(n as int)
    } else {
        old + void_cells((n - old.len()) as nat)
    }
}

impl Default for Cell {
    fn default() -> (c: Self)
        ensures
            c == void_cell(),
    {
        Cell { top_color: color_void(), bottom_color: color_void() }
    }
}

/// The whole rendered image as a flat array of cells.
pub struct FrameBuffer {
    /// Width in terminal columns.
    pub width: u16,
    /// Height in terminal rows (each row holds two pixel rows).
    pub height: u16,
    /// Flat array of cells, `width * height` of them.
    pub cells: Vec<Cell>,
}

impl FrameBuffer {
    /// The buffer holds exactly one cell per column and row.
    pub open spec fn wf(&self) -> bool {
        self.cells@.len() == self.width as int * self.height as int
    }

    /// Flat index of the cell at column `x`, row `y`.
    pub open spec fn index_of(&self, x: int, y: int) -> int {
        y * self.width + x
    }

    /// Creates a frame buffer of the given terminal size, every cell void.
    pub fn new(width: u16, height: u16) -> (fb: Self)
        ensures
            fb.width == width,
            fb.height == height,
            fb.cells@ == void_cells((width * height) as nat),
            fb.wf(),
    {
        proof {
            lemma_cell_count_fits(width, height);
        }
        let cell_count = width as usize * height as usize;
        let fb = FrameBuffer { width, height, cells: vec![Cell::default(); cell_count] };
        assert(fb.cells@ =~= void_cells((width * height) as nat));
        fb
    }

    /// Resizes the buffer to new dimensions. The flat array keeps its first
    /// `width * height` cells; cells added at the end are void.
    pub fn resize(&mut self, width: u16, height: u16)
        ensures
            final(self).width == width,
            final(self).height == height,
            final(self).cells@ == resized_cells(old(self).cells@, (width * height) as nat),
            final(self).wf(),
            forall|i: int|
                0 <= i < final(self).cells@.len() && i < old(self).cells@.len()
                    ==> #[trigger] final(self).cells@[i] == old(self).cells@[i],
            forall|i: int|
                old(self).cells@.len() <= i < final(self).cells@.len()
                    ==> #[trigger] final(self).cells@[i] == (Cell {
                    top_color: Color::Rgb(0, 0, 0),
                    bottom_color: Color::Rgb(0, 0, 0),
                }),
    {
        proof {
            lemma_cell_count_fits(width, height);
            lemma_resize_keeps_and_voids(old(self).cells@, (width * height) as nat);
        }
        self.width = width;
        self.height = height;
        let cell_count = width as usize * height as usize;
        self.cells.resize(cell_count, Cell::default());
        proof {
            let n = (width * height) as nat;
            if n > old(self).cells@.len() {
                assert(self.cells@ =~= resized_cells(old(self).cells@, n));
            }
        }
    }

    /// The cell at column `x`, row `y`, for writing.
    pub fn get_mut(&mut self, x: u16, y: u16) -> (cell: &mut Cell)
        requires
            old(self).wf(),
            x < old(self).width,
            y < old(self).height,
        ensures
            *cell == old(self).cells@[old(self).index_of(x as int, y as int)],
            final(self).cells@ == old(self).cells@.update(
                old(self).index_of(x as int, y as int),
                *final(cell),
            ),
            final(self).width == old(self).width,
            final(self).height == old(self).height,
    {
        proof {
            lemma_index_in_bounds(self.width, self.height, x, y);
        }
        let idx = y as usize * self.width as usize + x as usize;
        &mut self.cells[idx]
    }

    /// Number of pixel rows: each cell row holds two of them.
    pub fn pixel_height(&self) -> (h: u16)
        requires
            2 * self.height <= u16::MAX,
        ensures
            h == 2 * self.height,
    {
        self.height * 2
    }

    /// Clears every cell to the void colour.
    pub fn clear(&mut self)
        ensures
            final(self).width == old(self).width,
            final(self).height == old(self).height,
            final(self).cells@ == void_cells(old(self).cells@.len()),
    {
        let n = self.cells.len();
        let mut i: usize = 0;
        while i < n
            invariant
                n == self.cells@.len(),
                n == old(self).cells@.len(),
                i <= n,
                self.width == old(self).width,
                self.height == old(self).height,
                forall|j: int| 0 <= j < i ==> #[trigger] self.cells@[j] == void_cell(),
            decreases n - i,
        {
            self.cells.set(i, Cell::default());
            i = i + 1;
        }
        assert(self.cells@ =~= void_cells(n as nat));
    }

    /// All cells as one mutable slice, for filling in parallel; the cell of
    /// slice index `i` is at column `i % width`, row `i / width`.
    pub fn cells_mut(&mut self) -> (cells: &mut [Cell])
        ensures
            cells@ == old(self).cells@,
            final(self).cells@ == final(cells)@,
            final(self).width == old(self).width,
            final(self).height == old(self).height,
    {
        self.cells.as_mut_slice()
    }
}

/// A resize to `n` cells yields exactly `n` cells: those below the old count
/// are the old cells in place, and every cell at or past the old count is
/// void (both colours black), whatever the old cells hold.
pub proof fn lemma_resize_keeps_and_voids(cells: Seq<Cell>, n: nat)
    ensures
        resized_cells(cells, n).len() == n,
        forall|i: int|
            0 <= i < n && i < cells.len() ==> #[trigger] resized_cells(cells, n)[i] == cells[i],
        forall|i: int|
            cells.len() <= i < n ==> #[trigger] resized_cells(cells, n)[i] == (Cell {
                top_color: Color::Rgb(0, 0, 0),
                bottom_color: Color::Rgb(0, 0, 0),
            }),
{
}

/// Resizing to the number of cells the buffer already holds keeps every cell.
pub proof fn lemma_resize_same_size(cells: Seq<Cell>)
    ensures
        resized_cells(cells, cells.len()) == cells,
{
    assert(cells.take(cells.len() as int) =~= cells);
}

/// Growing the buffer and shrinking it back to its former number of cells
/// restores the former cells.
pub proof fn lemma_grow_then_shrink(cells: Seq<Cell>, n: nat)
    requires
        n >= cells.len(),
    ensures
        resized_cells(resized_cells(cells, n), cells.len()) == cells,
{
    let grown = resized_cells(cells, n);
    assert(grown.len() == n);
    assert(grown.take(cells.len() as int) =~= cells);
}

/// Clearing a cleared buffer changes nothing.
pub proof fn lemma_clear_idempotent(n: nat)
    ensures
        void_cells(void_cells(n).len()) == void_cells(n),
{
}

/// `width * height` cells always fit in a `usize`.
proof fn lemma_cell_count_fits(width: u16, height: u16)
    ensures
        0 <= width * height <= usize::MAX,
{
    assert(width * height <= 0xffff * 0xffff) by (nonlinear_arith)
        requires
            width <= 0xffff,
            height <= 0xffff,
    ;
}

/// A column and row inside the buffer name a cell inside the flat array.
proof fn lemma_index_in_bounds(width: u16, height: u16, x: u16, y: u16)
    requires
        x < width,
        y < height,
    ensures
        0 <= y * width + x < width * height,
        y * width + x <= usize::MAX,
{
    lemma_cell_count_fits(width, height);
    assert(y * width + x < width * height) by (nonlinear_arith)
        requires
            x < width,
            y < height,
    ;
    assert(0 <= y * width) by (nonlinear_arith)
        requires
            0 <= y,
            0 <= width,
    ;
}

} // verus!
