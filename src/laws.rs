use vstd::prelude::*;
use crossterm::style::Color;
use crate::buffer::{Buffer, cell_index, cleared, pixel_in_grid, with_half, written};
use crate::cell::{Cell, Half};

verus! {

/// Drawing half `h` at pixel row `y` of a cell shows `h` in the half that `y`
/// selects and leaves the other half and the fallback character and color as
/// they were.
pub proof fn marked_half_reads_back(cell: Cell, y: int, h: Half)
    requires
        0 <= y,
    ensures
        y % 2 == 0 ==> with_half(cell, y, h).upper_half == h && with_half(cell, y, h).lower_half
            == cell.lower_half,
        y % 2 == 1 ==> with_half(cell, y, h).lower_half == h && with_half(cell, y, h).upper_half
            == cell.upper_half,
        with_half(cell, y, h).fallback_char == cell.fallback_char,
        with_half(cell, y, h).fallback_color == cell.fallback_color,
{
}

/// Pixel rows `2k` and `2k + 1` at the same column map to the same cell.
pub proof fn paired_rows_share_cell(width: int, height: int, x: int, k: int)
    requires
        pixel_in_grid(width, height, x, 2 * k),
    ensures
        pixel_in_grid(width, height, x, 2 * k + 1),
        cell_index(width, x, 2 * k) == cell_index(width, x, 2 * k + 1),
{
    assert((2 * k) / 2 == k);
    assert((2 * k + 1) / 2 == k);
}

/// Two pixels of a grid map to the same cell only when they share the column
/// and the pair of pixel rows.
pub proof fn cell_index_injective(width: int, height: int, x1: int, y1: int, x2: int, y2: int)
    requires
        pixel_in_grid(width, height, x1, y1),
        pixel_in_grid(width, height, x2, y2),
        cell_index(width, x1, y1) == cell_index(width, x2, y2),
    ensures
        x1 == x2,
        y1 / 2 == y2 / 2,
{
    let q1 = y1 / 2;
    let q2 = y2 / 2;
    assert(q1 == q2) by (nonlinear_arith)
        requires
            0 <= x1 < width,
            0 <= x2 < width,
            x1 + width * q1 == x2 + width * q2,
    {
        if q1 < q2 {
            assert(width * q2 >= width * (q1 + 1));
        } else if q2 < q1 {
            assert(width * q1 >= width * (q2 + 1));
        }
    }
}

/// Clearing twice with the same fallback gives the cells that clearing once
/// gives.
pub proof fn clear_idempotent(cells: Seq<Cell>, fallback_char: char, fallback_color: Option<Color>)
    ensures
        cleared(cleared(cells, fallback_char, fallback_color), fallback_char, fallback_color)
            == cleared(cells, fallback_char, fallback_color),
{
    assert(cleared(cleared(cells, fallback_char, fallback_color), fallback_char, fallback_color)
        =~= cleared(cells, fallback_char, fallback_color));
}

/// After writing `text` from cell `start` on, the fallback characters of the
/// touched cells spell `text`, and both halves of each touched cell are unset.
pub proof fn written_text_reads_back(cells: Seq<Cell>, start: int, text: Seq<char>, color: Option<Color>)
    requires
        0 <= start,
        start + text.len() <= cells.len(),
    ensures
        Seq::new(text.len(), |i: int| written(cells, start, text, color)[start + i].fallback_char)
            == text,
        forall|i: int|
            0 <= i < text.len() ==> (#[trigger] written(cells, start, text, color)[start + i]).upper_half
                == Half::Unset && written(cells, start, text, color)[start + i].lower_half
                == Half::Unset,
{
    assert(Seq::new(text.len(), |i: int| written(cells, start, text, color)[start + i].fallback_char)
        =~= text);
}

/// The last pixel of a grid lies on it; one column to the right of the grid,
/// or one pixel row below it, does not.
pub proof fn grid_boundary(width: int, height: int)
    requires
        0 < width,
        0 < height,
    ensures
        pixel_in_grid(width, height, width - 1, 2 * height - 1),
        !pixel_in_grid(width, height, width, 0),
        !pixel_in_grid(width, height, 0, 2 * height),
{
    assert((2 * height - 1) / 2 == height - 1);
    assert((2 * height) / 2 == height);
}

/// On a well-formed buffer the last pixel, at column `width - 1` and pixel
/// row `2 * height - 1`, is accepted and lies in the lower half of the last
/// cell; column `width` and pixel row `2 * height` are out of range.
pub proof fn buffer_boundary(b: Buffer)
    requires
        b.wf(),
        1 <= b.width,
        1 <= b.height,
    ensures
        b.contains_pixel(b.width - 1, 2 * b.height - 1),
        b.index_of(b.width - 1, 2 * b.height - 1) == b.cells@.len() - 1,
        (2 * b.height - 1) % 2 == 1,
        !b.contains_pixel(b.width as int, 0),
        !b.contains_pixel(0, 2 * b.height),
{
    grid_boundary(b.width as int, b.height as int);
    let w = b.width as int;
    let h = b.height as int;
    assert((2 * h - 1) / 2 == h - 1);
    assert(w - 1 + w * (h - 1) == w * h - 1) by (nonlinear_arith);
}

} // verus!
