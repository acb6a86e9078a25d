//! Pixel graphics in a text terminal: every terminal cell is split into an
//! upper and a lower half block, which doubles the vertical resolution.
//!
//! [`Buffer`] holds the cells, maps pixel coordinates onto them and turns the
//! whole grid into the text of one frame.

mod buffer;
mod cell;
mod error;
pub mod laws;
mod render;
mod term;

pub use buffer::{
    cell_index, cleared, frame_prefix, frame_text, line_break_after, pixel_in_grid, with_half,
    written, Buffer,
};
pub use cell::{Cell, Half};
pub use crossterm::style::Color;
pub use error::TerminalSizeError;
pub use render::{cell_text, push_cell_text, styled, FULL_GLYPH, LOWER_GLYPH, UPPER_GLYPH};
pub use term::{bg_escape_of, fg_escape_of, reset_escape_text};
