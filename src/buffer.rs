use vstd::prelude::*;
use vstd::string::*;
use crossterm::style::Color;
use crate::cell::{Cell, Half};
use crate::render::{cell_text, push_cell_text};

verus! {

/// The text of the first `k` cells of a row-major grid `width` cells wide,
/// with a line break after each full row but the last.
pub open spec fn frame_prefix(cells: Seq<Cell>, width: nat, k: nat) -> Seq<char>
    decreases k,
{
    if k == 0 {
        seq![]
    } else {
        frame_prefix(cells, width, (k - 1) as nat) + cell_text(cells[k - 1]) + line_break_after(
            cells.len(),
            width,
            k,
        )
    }
}

/// A line break follows the `k`-th cell when it ends a row that is not the last.
pub open spec fn line_break_after(len: nat, width: nat, k: nat) -> Seq<char> {
    if width > 0 && k % width == 0 && k < len {
        seq!['\n']
    } else {
        seq![]
    }
}

/// The text of one frame: every cell in row-major order, rows separated by
/// line breaks.
pub open spec fn frame_text(cells: Seq<Cell>, width: nat) -> Seq<char> {
    frame_prefix(cells, width, cells.len())
}

/// Pixel `(x, y)` lies on a grid of `width` by `height` cells, each two
/// pixels tall.
pub open spec fn pixel_in_grid(width: int, height: int, x: int, y: int) -> bool {
    0 <= x < width && 0 <= y && y / 2 < height
}

/// The flat index of the cell that holds pixel `(x, y)`.
pub open spec fn cell_index(width: int, x: int, y: int) -> int {
    x + width * (y / 2)
}

/// `cell` with the half that pixel row `y` selects (even: upper, odd: lower)
/// set to `h`; everything else is kept.
pub open spec fn with_half(cell: Cell, y: int, h: Half) -> Cell {
    if y % 2 == 0 {
        Cell { upper_half: h, ..cell }
    } else {
        Cell { lower_half: h, ..cell }
    }
}

/// Every cell of `cells` replaced by the blank cell of `fallback_char` and
/// `fallback_color`.
pub open spec fn cleared(cells: Seq<Cell>, fallback_char: char, fallback_color: Option<Color>) -> Seq<Cell> {
    Seq::new(cells.len(), |i: int| Cell::blank(fallback_char, fallback_color))
}

/// `cells` after writing `text` from index `start` on: each touched cell
/// shows one character in `color`, with both halves unset.
pub open spec fn written(cells: Seq<Cell>, start: int, text: Seq<char>, color: Option<Color>) -> Seq<Cell> {
    Seq::new(
        cells.len(),
        |i: int|
            if start <= i < start + text.len() {
                Cell::blank(text[i - start], color)
            } else {
                cells[i]
            },
    )
}

/// The cell that holds a pixel of a grid lies on the grid.
pub proof fn lemma_index_in_grid(width: int, height: int, x: int, y: int)
    requires
        pixel_in_grid(width, height, x, y),
    ensures
        0 <= cell_index(width, x, y) < width * height,
{
    let q = y / 2;
    assert(0 <= width * q) by (nonlinear_arith)
        requires
            0 <= q,
            0 < width,
    ;
    assert(width * q + width <= width * height) by (nonlinear_arith)
        requires
            q < height,
            0 < width,
    ;
}

/// A drawing canvas of `width` by `height` terminal cells, stored row-major.
/// Pixel coordinates address half blocks: pixel `(x, y)` is the upper half
/// of cell `(x, y / 2)` when `y` is even and its lower half when `y` is odd.
pub struct Buffer {
    pub cells: Vec<Cell>,
    pub width: usize,
    pub height: usize,
}

impl Buffer {
    /// The grid holds exactly `width * height` cells.
    pub open spec fn wf(&self) -> bool {
        self.cells@.len() == self.width * self.height
    }

    /// Pixel `(x, y)` lies on this buffer.
    pub open spec fn contains_pixel(&self, x: int, y: int) -> bool {
        pixel_in_grid(self.width as int, self.height as int, x, y)
    }

    /// The flat index of the cell that holds pixel `(x, y)`.
    pub open spec fn index_of(&self, x: int, y: int) -> int {
        cell_index(self.width as int, x, y)
    }

    /// Creates a buffer of `width * height` cells, each showing `fallback_char`.
    pub fn new(width: usize, height: usize, fallback_char: char) -> (r: Buffer)
        requires
            width * height <= usize::MAX,
        ensures
            r.wf(),
            r.width == width,
            r.height == height,
            r.cells@ == Seq::new((width * height) as nat, |i: int| Cell::blank(fallback_char, None)),
    {
        let n: usize = width * height;
        let mut cells: Vec<Cell> = Vec::with_capacity(n);
        let mut i: usize = 0;
        while i < n
            invariant
                i <= n,
                cells@ == Seq::new(i as nat, |j: int| Cell::blank(fallback_char, None)),
            decreases n - i,
        {
            cells.push(Cell::new(fallback_char, None));
            i += 1;
        }
        Buffer { cells, width, height }
    }

    /// Whether pixel `(x, y)` lies on this buffer.
    pub fn in_range(&self, x: usize, y: usize) -> (r: bool)
        ensures
            r == self.contains_pixel(x as int, y as int),
    {
        x < self.width && y / 2 < self.height
    }

    /// Sets the half block at pixel `(x, y)` to `h`; the cell's other half
    /// and its fallback character and color are kept.
    fn put_half(&mut self, x: usize, y: usize, h: Half)
        requires
            old(self).wf(),
            old(self).contains_pixel(x as int, y as int),
        ensures
            final(self).wf(),
            final(self).width == old(self).width,
            final(self).height == old(self).height,
            final(self).cells@ == old(self).cells@.update(
                old(self).index_of(x as int, y as int),
                with_half(old(self).cells@[old(self).index_of(x as int, y as int)], y as int, h),
            ),
    {
        let n = self.cells.len();
        proof {
            lemma_index_in_grid(self.width as int, self.height as int, x as int, y as int);
            assert(0 <= self.width * (y / 2) <= x + self.width * (y / 2) < n);
        }
        let position: usize = x + self.width * (y / 2);
        let current = self.cells[position];
        let next = if y % 2 == 0 {
            Cell { upper_half: h, ..current }
        } else {
            Cell { lower_half: h, ..current }
        };
        self.cells.set(position, next);
    }

    /// Draws the half block at pixel `(x, y)` in the default foreground color.
    pub fn set(&mut self, x: usize, y: usize)
        requires
            old(self).wf(),
            old(self).contains_pixel(x as int, y as int),
        ensures
            final(self).wf(),
            final(self).width == old(self).width,
            final(self).height == old(self).height,
            final(self).cells@ == old(self).cells@.update(
                old(self).index_of(x as int, y as int),
                with_half(old(self).cells@[old(self).index_of(x as int, y as int)], y as int, Half::Filled),
            ),
    {
        self.put_half(x, y, Half::Filled);
    }

    /// Draws the half block at pixel `(x, y)` in `color`.
    pub fn color(&mut self, x: usize, y: usize, color: Color)
        requires
            old(self).wf(),
            old(self).contains_pixel(x as int, y as int),
        ensures
            final(self).wf(),
            final(self).width == old(self).width,
            final(self).height == old(self).height,
            final(self).cells@ == old(self).cells@.update(
                old(self).index_of(x as int, y as int),
                with_half(
                    old(self).cells@[old(self).index_of(x as int, y as int)],
                    y as int,
                    Half::Colored(color),
                ),
            ),
    {
        self.put_half(x, y, Half::Colored(color));
    }

    /// Writes `text` from pixel `(x, y)` on: the `i`-th character goes to the
    /// cell `i` places after the one that holds the pixel, with both halves
    /// unset and `color` as its fallback color.
    fn put_text(&mut self, x: usize, y: usize, text: &str, color: Option<Color>)
        requires
            old(self).wf(),
            old(self).contains_pixel(x as int, y as int),
            old(self).index_of(x as int, y as int) + text@.len() <= old(self).cells@.len(),
        ensures
            final(self).wf(),
            final(self).width == old(self).width,
            final(self).height == old(self).height,
            final(self).cells@ == written(
                old(self).cells@,
                old(self).index_of(x as int, y as int),
                text@,
                color,
            ),
    {
        let n = self.cells.len();
        proof {
            lemma_index_in_grid(self.width as int, self.height as int, x as int, y as int);
            assert(0 <= self.width * (y / 2) <= x + self.width * (y / 2) < n);
        }
        let position: usize = x + self.width * (y / 2);
        let len = text.unicode_len();
        let mut i: usize = 0;
        while i < len
            invariant
                len == text@.len(),
                position + len <= n,
                position == old(self).index_of(x as int, y as int),
                n == self.cells@.len(),
                n == old(self).cells@.len(),
                self.width == old(self).width,
                self.height == old(self).height,
                i <= len,
                forall|j: int|
                    0 <= j < n ==> self.cells@[j] == (if position <= j < position + i {
                        Cell::blank(text@[j - position], color)
                    } else {
                        old(self).cells@[j]
                    }),
            decreases len - i,
        {
            let c = text.get_char(i);
            self.cells.set(position + i, Cell::new(c, color));
            i += 1;
        }
        assert(self.cells@ =~= written(old(self).cells@, position as int, text@, color));
    }

    /// Writes `text` from pixel `(x, y)` on in the default foreground color.
    /// Each character takes a whole cell, whose halves are unset; text that
    /// passes the end of a row goes on at the start of the next.
    pub fn print(&mut self, x: usize, y: usize, text: &str)
        requires
            old(self).wf(),
            old(self).contains_pixel(x as int, y as int),
            old(self).index_of(x as int, y as int) + text@.len() <= old(self).cells@.len(),
        ensures
            final(self).wf(),
            final(self).width == old(self).width,
            final(self).height == old(self).height,
            final(self).cells@ == written(
                old(self).cells@,
                old(self).index_of(x as int, y as int),
                text@,
                None,
            ),
    {
        self.put_text(x, y, text, None);
    }

    /// Writes `text` from pixel `(x, y)` on in `color`, as [`Buffer::print`]
    /// does.
    pub fn colored_print(&mut self, x: usize, y: usize, text: &str, color: Color)
        requires
            old(self).wf(),
            old(self).contains_pixel(x as int, y as int),
            old(self).index_of(x as int, y as int) + text@.len() <= old(self).cells@.len(),
        ensures
            final(self).wf(),
            final(self).width == old(self).width,
            final(self).height == old(self).height,
            final(self).cells@ == written(
                old(self).cells@,
                old(self).index_of(x as int, y as int),
                text@,
                Some(color),
            ),
    {
        self.put_text(x, y, text, Some(color));
    }

    /// Replaces every cell by a blank cell showing `fallback_char` in
    /// `fallback_color`.
    fn fill(&mut self, fallback_char: char, fallback_color: Option<Color>)
        requires
            old(self).wf(),
        ensures
            final(self).wf(),
            final(self).width == old(self).width,
            final(self).height == old(self).height,
            final(self).cells@ == cleared(old(self).cells@, fallback_char, fallback_color),
    {
        let n = self.cells.len();
        let mut i: usize = 0;
        while i < n
            invariant
                n == self.cells@.len(),
                self.width == old(self).width,
                self.height == old(self).height,
                n == old(self).cells@.len(),
                i <= n,
                forall|j: int| 0 <= j < i ==> self.cells@[j] == Cell::blank(fallback_char, fallback_color),
            decreases n - i,
        {
            self.cells.set(i, Cell::new(fallback_char, fallback_color));
            i += 1;
        }
        assert(self.cells@ =~= cleared(old(self).cells@, fallback_char, fallback_color));
    }

    /// Resets every cell: both halves unset, showing `fallback_char` in the
    /// default foreground color.
    pub fn clear(&mut self, fallback_char: char)
        requires
            old(self).wf(),
        ensures
            final(self).wf(),
            final(self).width == old(self).width,
            final(self).height == old(self).height,
            final(self).cells@ == cleared(old(self).cells@, fallback_char, None),
    {
        self.fill(fallback_char, None);
    }

    /// Resets every cell: both halves unset, showing `fallback_char` in
    /// `color`.
    pub fn colored_clear(&mut self, fallback_char: char, color: Color)
        requires
            old(self).wf(),
        ensures
            final(self).wf(),
            final(self).width == old(self).width,
            final(self).height == old(self).height,
            final(self).cells@ == cleared(old(self).cells@, fallback_char, Some(color)),
    {
        self.fill(fallback_char, Some(color));
    }

    /// Serializes the whole grid into the text of one frame: each cell's
    /// glyph with its color escapes, a color reset after each styled cell, and
    /// a line break after every row but the last.
    pub fn draw(&self) -> (r: Vec<char>)
        requires
            self.wf(),
        ensures
            r@ == frame_text(self.cells@, self.width as nat),
    {
        let n = self.cells.len();
        let mut out: Vec<char> = Vec::new();
        let mut i: usize = 0;
        while i < n
            invariant
                n == self.cells@.len(),
                i <= n,
                out@ == frame_prefix(self.cells@, self.width as nat, i as nat),
            decreases n - i,
        {
            push_cell_text(&mut out, &self.cells[i]);
            let k: usize = i + 1;
            if self.width > 0 && k % self.width == 0 && k < n {
                out.push('\n');
            }
            i = k;
            assert(out@ =~= frame_prefix(self.cells@, self.width as nat, i as nat));
        }
        out
    }
}

} // verus!
