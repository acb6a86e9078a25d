use vstd::prelude::*;
use crate::cell::{Cell, Half};
use crate::term::{bg_escape, bg_escape_of, fg_escape, fg_escape_of, reset_escape, reset_escape_text};

verus! {

/// The upper half block glyph.
pub const UPPER_GLYPH: char = '\u{2580}';

/// The lower half block glyph.
pub const LOWER_GLYPH: char = '\u{2584}';

/// The full block glyph.
pub const FULL_GLYPH: char = '\u{2588}';

/// `glyph` under the escape sequences `style`, followed by a reset of the
/// colors so that the style does not bleed into the next cell.
pub open spec fn styled(style: Seq<char>, glyph: char) -> Seq<char> {
    style + seq![glyph] + reset_escape_text()
}

/// The text that draws one cell.
///
/// A half block glyph's ink covers one half of the cell in the foreground
/// color; the background color paints the other half. Where only one of two
/// drawn halves has a color, that color goes to the background, so that the
/// uncolored half keeps the default foreground.
pub open spec fn cell_text(c: Cell) -> Seq<char> {
    match (c.upper_half, c.lower_half) {
        (Half::Unset, Half::Unset) => match c.fallback_color {
            Some(k) => styled(fg_escape_of(k), c.fallback_char),
            None => seq![c.fallback_char],
        },
        (Half::Filled, Half::Unset) => seq![UPPER_GLYPH],
        (Half::Colored(k), Half::Unset) => styled(fg_escape_of(k), UPPER_GLYPH),
        (Half::Unset, Half::Filled) => seq![LOWER_GLYPH],
        (Half::Unset, Half::Colored(k)) => styled(fg_escape_of(k), LOWER_GLYPH),
        (Half::Colored(a), Half::Colored(b)) => styled(fg_escape_of(a) + bg_escape_of(b), UPPER_GLYPH),
        (Half::Colored(a), Half::Filled) => styled(bg_escape_of(a), LOWER_GLYPH),
        (Half::Filled, Half::Colored(b)) => styled(bg_escape_of(b), UPPER_GLYPH),
        (Half::Filled, Half::Filled) => seq![FULL_GLYPH],
    }
}

/// Appends `glyph` under `style`, then the color reset.
fn push_styled(out: &mut Vec<char>, style: Vec<char>, glyph: char)
    ensures
        final(out)@ == old(out)@ + styled(style@, glyph),
{
    let mut style = style;
    out.append(&mut style);
    out.push(glyph);
    let mut reset = reset_escape();
    out.append(&mut reset);
}

/// Appends the text that draws `c` to `out`.
pub fn push_cell_text(out: &mut Vec<char>, c: &Cell)
    ensures
        final(out)@ == old(out)@ + cell_text(*c),
{
    match (c.upper_half, c.lower_half) {
        (Half::Unset, Half::Unset) => match c.fallback_color {
            Some(k) => push_styled(out, fg_escape(k), c.fallback_char),
            None => out.push(c.fallback_char),
        },
        (Half::Filled, Half::Unset) => out.push(UPPER_GLYPH),
        (Half::Colored(k), Half::Unset) => push_styled(out, fg_escape(k), UPPER_GLYPH),
        (Half::Unset, Half::Filled) => out.push(LOWER_GLYPH),
        (Half::Unset, Half::Colored(k)) => push_styled(out, fg_escape(k), LOWER_GLYPH),
        (Half::Colored(a), Half::Colored(b)) => {
            let mut style = fg_escape(a);
            let mut back = bg_escape(b);
            style.append(&mut back);
            push_styled(out, style, UPPER_GLYPH);
        },
        (Half::Colored(a), Half::Filled) => push_styled(out, bg_escape(a), LOWER_GLYPH),
        (Half::Filled, Half::Colored(b)) => push_styled(out, bg_escape(b), UPPER_GLYPH),
        (Half::Filled, Half::Filled) => out.push(FULL_GLYPH),
    }
}

} // verus!
