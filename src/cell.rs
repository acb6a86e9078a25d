use vstd::prelude::*;
use crossterm::style::Color;

verus! {

/// The state of one half block of a cell.
#[derive(Debug, Clone, Copy, PartialEq, Eq)]
pub enum Half {
    /// Nothing drawn here: the cell's fallback character governs it.
    Unset,
    /// Drawn in the terminal's default foreground color.
    Filled,
    /// Drawn in an explicit color.
    Colored(Color),
}

/// One terminal cell: two stacked half blocks and a whole-cell fallback
/// character, shown while neither half is drawn.
#[derive(Debug, Clone, Copy, PartialEq, Eq)]
pub struct Cell {
    pub upper_half: Half,
    pub lower_half: Half,
    pub fallback_char: char,
    pub fallback_color: Option<Color>,
}

impl Cell {
    /// A cell with both halves unset that shows `fallback_char`.
    pub open spec fn blank(fallback_char: char, fallback_color: Option<Color>) -> Cell {
        Cell { upper_half: Half::Unset, lower_half: Half::Unset, fallback_char, fallback_color }
    }

    /// Creates a cell with both halves unset that shows `fallback_char`,
    /// in `fallback_color` if one is given.
    pub fn new(fallback_char: char, fallback_color: Option<Color>) -> (r: Cell)
        ensures
            r == Cell::blank(fallback_char, fallback_color),
    {
        Cell { upper_half: Half::Unset, lower_half: Half::Unset, fallback_char, fallback_color }
    }
}

} // verus!
