use hanbun::{Buffer, Cell, Color, Half, TerminalSizeError};

const ESC: &str = "\x1b";

fn text(v: Vec<char>) -> String {
    v.into_iter().collect()
}

fn fg(code: &str) -> String {
    format!("{}[38;5;{}m", ESC, code)
}

fn bg(code: &str) -> String {
    format!("{}[48;5;{}m", ESC, code)
}

fn reset() -> String {
    format!("{}[0m", ESC)
}

fn one_cell(upper: Half, lower: Half, fallback_color: Option<Color>) -> String {
    let mut buffer = Buffer::new(1, 1, 'x');
    buffer.cells[0] = Cell {
        upper_half: upper,
        lower_half: lower,
        fallback_char: 'x',
        fallback_color,
    };
    text(buffer.draw())
}

#[test]
fn new_buffer_is_blank() {
    let buffer = Buffer::new(4, 3, '.');
    assert_eq!(buffer.width, 4);
    assert_eq!(buffer.height, 3);
    assert_eq!(buffer.cells.len(), 12);
    for cell in &buffer.cells {
        assert_eq!(*cell, Cell::new('.', None));
    }
}

#[test]
fn set_fills_targeted_half_only() {
    let mut buffer = Buffer::new(3, 2, ' ');
    buffer.set(2, 2);
    assert_eq!(buffer.cells[5].upper_half, Half::Filled);
    assert_eq!(buffer.cells[5].lower_half, Half::Unset);
    buffer.set(2, 3);
    assert_eq!(buffer.cells[5].upper_half, Half::Filled);
    assert_eq!(buffer.cells[5].lower_half, Half::Filled);
    assert_eq!(buffer.cells[5].fallback_char, ' ');
    for i in 0..5 {
        assert_eq!(buffer.cells[i], Cell::new(' ', None));
    }
}

#[test]
fn set_keeps_colored_other_half() {
    let mut buffer = Buffer::new(2, 1, ' ');
    buffer.color(1, 0, Color::Red);
    buffer.set(1, 1);
    assert_eq!(buffer.cells[1].upper_half, Half::Colored(Color::Red));
    assert_eq!(buffer.cells[1].lower_half, Half::Filled);
}

#[test]
fn color_overwrites_filled_half() {
    let mut buffer = Buffer::new(2, 2, ' ');
    buffer.set(0, 3);
    buffer.color(0, 3, Color::Blue);
    assert_eq!(buffer.cells[2].lower_half, Half::Colored(Color::Blue));
    assert_eq!(buffer.cells[2].upper_half, Half::Unset);
}

#[test]
fn paired_rows_reach_same_cell() {
    let mut a = Buffer::new(3, 2, ' ');
    let mut b = Buffer::new(3, 2, ' ');
    a.set(1, 2);
    b.set(1, 3);
    let changed_a: Vec<usize> = (0..6).filter(|&i| a.cells[i] != Cell::new(' ', None)).collect();
    let changed_b: Vec<usize> = (0..6).filter(|&i| b.cells[i] != Cell::new(' ', None)).collect();
    assert_eq!(changed_a, vec![4]);
    assert_eq!(changed_b, vec![4]);
}

#[test]
fn clear_twice_equals_clear_once() {
    let mut buffer = Buffer::new(3, 2, ' ');
    buffer.set(0, 0);
    buffer.color(2, 3, Color::Green);
    buffer.print(0, 2, "ab");
    buffer.clear('#');
    let once = buffer.cells.clone();
    buffer.clear('#');
    assert_eq!(buffer.cells, once);
    assert!(once.iter().all(|c| *c == Cell::new('#', None)));
}

#[test]
fn colored_clear_sets_fallback_color() {
    let mut buffer = Buffer::new(2, 2, ' ');
    buffer.set(1, 1);
    buffer.colored_clear('*', Color::Yellow);
    assert!(buffer.cells.iter().all(|c| *c == Cell::new('*', Some(Color::Yellow))));
}

#[test]
fn print_reads_back() {
    let mut buffer = Buffer::new(5, 2, ' ');
    buffer.set(1, 2);
    buffer.color(2, 3, Color::Red);
    buffer.print(1, 3, "hey");
    let read: String = buffer.cells[6..9].iter().map(|c| c.fallback_char).collect();
    assert_eq!(read, "hey");
    for c in &buffer.cells[6..9] {
        assert_eq!(c.upper_half, Half::Unset);
        assert_eq!(c.lower_half, Half::Unset);
        assert_eq!(c.fallback_color, None);
    }
    assert_eq!(buffer.cells[5], Cell::new(' ', None));
    assert_eq!(buffer.cells[9], Cell::new(' ', None));
}

#[test]
fn print_wraps_to_next_row() {
    let mut buffer = Buffer::new(3, 2, ' ');
    buffer.print(2, 0, "xyz");
    let all: String = buffer.cells.iter().map(|c| c.fallback_char).collect();
    assert_eq!(all, "  xyz ");
}

#[test]
fn colored_print_sets_color() {
    let mut buffer = Buffer::new(4, 1, ' ');
    buffer.colored_print(0, 1, "ok", Color::Cyan);
    assert_eq!(buffer.cells[0], Cell::new('o', Some(Color::Cyan)));
    assert_eq!(buffer.cells[1], Cell::new('k', Some(Color::Cyan)));
    assert_eq!(buffer.cells[2], Cell::new(' ', None));
}

#[test]
fn draw_unset_unset_plain() {
    assert_eq!(one_cell(Half::Unset, Half::Unset, None), "x");
}

#[test]
fn draw_unset_unset_colored_fallback() {
    let expected = format!("{}x{}", fg("9"), reset());
    assert_eq!(one_cell(Half::Unset, Half::Unset, Some(Color::Red)), expected);
}

#[test]
fn draw_filled_unset() {
    assert_eq!(one_cell(Half::Filled, Half::Unset, None), "\u{2580}");
}

#[test]
fn draw_colored_unset() {
    let expected = format!("{}\u{2580}{}", fg("9"), reset());
    assert_eq!(one_cell(Half::Colored(Color::Red), Half::Unset, None), expected);
}

#[test]
fn draw_unset_filled() {
    assert_eq!(one_cell(Half::Unset, Half::Filled, None), "\u{2584}");
}

#[test]
fn draw_unset_colored() {
    let expected = format!("{}\u{2584}{}", fg("10"), reset());
    assert_eq!(one_cell(Half::Unset, Half::Colored(Color::Green), None), expected);
}

#[test]
fn draw_colored_colored() {
    let expected = format!("{}{}\u{2580}{}", fg("9"), bg("10"), reset());
    let got = one_cell(Half::Colored(Color::Red), Half::Colored(Color::Green), None);
    assert_eq!(got, expected);
}

#[test]
fn draw_colored_filled() {
    let expected = format!("{}\u{2584}{}", bg("9"), reset());
    assert_eq!(one_cell(Half::Colored(Color::Red), Half::Filled, None), expected);
}

#[test]
fn draw_filled_colored() {
    let expected = format!("{}\u{2580}{}", bg("10"), reset());
    assert_eq!(one_cell(Half::Filled, Half::Colored(Color::Green), None), expected);
}

#[test]
fn draw_filled_filled() {
    assert_eq!(one_cell(Half::Filled, Half::Filled, Some(Color::Red)), "\u{2588}");
}

#[test]
fn draw_rgb_color() {
    let expected = format!("{}[38;2;1;2;3m\u{2580}{}", ESC, reset());
    let got = one_cell(Half::Colored(Color::Rgb { r: 1, g: 2, b: 3 }), Half::Unset, None);
    assert_eq!(got, expected);
}

#[test]
fn draw_breaks_lines_between_rows() {
    let mut buffer = Buffer::new(2, 3, ' ');
    buffer.print(0, 0, "abcdef");
    assert_eq!(text(buffer.draw()), "ab\ncd\nef");
}

#[test]
fn draw_empty_buffer() {
    let buffer = Buffer::new(0, 0, ' ');
    assert_eq!(text(buffer.draw()), "");
}

#[test]
fn boundary_pixels() {
    let mut buffer = Buffer::new(3, 2, ' ');
    assert!(buffer.in_range(2, 3));
    assert!(!buffer.in_range(3, 0));
    assert!(!buffer.in_range(0, 4));
    buffer.set(2, 3);
    assert_eq!(buffer.cells[5].lower_half, Half::Filled);
}

#[test]
fn end_to_end_three_by_two() {
    let mut buffer = Buffer::new(3, 2, ' ');
    buffer.color(1, 1, Color::Green);
    let expected = format!(" {}\u{2584}{} \n   ", fg("10"), reset());
    assert_eq!(text(buffer.draw()), expected);
}

#[test]
fn terminal_size_error_compares_equal() {
    assert_eq!(TerminalSizeError, TerminalSizeError);
}
