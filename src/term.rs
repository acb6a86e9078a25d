use vstd::prelude::*;

verus! {

/// crossterm's terminal color: named ANSI colors, their bright variants,
/// 256-color palette indices and 24-bit RGB triples. The library carries
/// colors through unread.
#[verifier::external_type_specification]
#[verifier::external_body]
pub struct ExColor(crossterm::style::Color);

/// The escape sequence that makes `c` the foreground color.
pub uninterp spec fn fg_escape_of(c: crossterm::style::Color) -> Seq<char>;

/// The escape sequence that makes `c` the background color.
pub uninterp spec fn bg_escape_of(c: crossterm::style::Color) -> Seq<char>;

/// The escape sequence that restores the default colors: `ESC [ 0 m`.
pub open spec fn reset_escape_text() -> Seq<char> {
    seq!['\x1b', '[', '0', 'm']
}

/// Relies on `crossterm::Command::write_ansi` for `SetForegroundColor`: it writes the
/// ANSI escape sequence that sets the foreground color, on every platform, and
/// reads nothing but `c`. Writing into a `String` cannot fail.
#[verifier::external_body]
pub(crate) fn fg_escape(c: crossterm::style::Color) -> (r: Vec<char>)
    ensures
        r@ == fg_escape_of(c),
{
    let mut s = String::new();
    let _ = crossterm::Command::write_ansi(&crossterm::style::SetForegroundColor(c), &mut s);
    s.chars().collect()
}

/// Relies on `crossterm::Command::write_ansi` for `SetBackgroundColor`: it writes the
/// ANSI escape sequence that sets the background color, on every platform, and
/// reads nothing but `c`. Writing into a `String` cannot fail.
#[verifier::external_body]
pub(crate) fn bg_escape(c: crossterm::style::Color) -> (r: Vec<char>)
    ensures
        r@ == bg_escape_of(c),
{
    let mut s = String::new();
    let _ = crossterm::Command::write_ansi(&crossterm::style::SetBackgroundColor(c), &mut s);
    s.chars().collect()
}

/// Relies on `crossterm::Command::write_ansi` for `ResetColor`: it writes
/// the fixed ANSI sequence `ESC [ 0 m` on every platform. Writing into a
/// `String` cannot fail.
#[verifier::external_body]
pub(crate) fn reset_escape() -> (r: Vec<char>)
    ensures
        r@ == reset_escape_text(),
{
    let mut s = String::new();
    let _ = crossterm::Command::write_ansi(&crossterm::style::ResetColor, &mut s);
    s.chars().collect()
}

} // verus!
