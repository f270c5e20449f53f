use vga_console::buffer::{Buffer, ScreenChar, BUFFER_HEIGHT, BUFFER_WIDTH};
use vga_console::color::{Color, ColorCode};
use vga_console::writer::{print_something, Writer};

fn yellow() -> ColorCode {
    ColorCode::new(Color::Yellow, Color::Black)
}

fn cell(b: u8, color: ColorCode) -> ScreenChar {
    ScreenChar { ascii_character: b, color_code: color }
}

fn fresh_writer() -> Writer {
    Writer::new(yellow(), Buffer::filled(cell(b' ', yellow())))
}

/// A writer whose rows each hold a distinct marker, in a color of their own.
fn marked_writer(color: ColorCode) -> Writer {
    let old = ColorCode::new(Color::Green, Color::Red);
    let mut buffer = Buffer::filled(cell(b'.', old));
    for row in 0..BUFFER_HEIGHT {
        for col in 0..BUFFER_WIDTH {
            buffer.write(row, col, cell(b'A' + (row as u8), old));
        }
    }
    Writer::new(color, buffer)
}

fn row_text(w: &Writer, row: usize) -> Vec<u8> {
    (0..BUFFER_WIDTH).map(|c| w.read_char(row, c).ascii_character).collect()
}

fn padded(s: &str) -> Vec<u8> {
    let mut v = s.as_bytes().to_vec();
    v.resize(BUFFER_WIDTH, b' ');
    v
}

#[test]
fn color_indices_follow_the_palette() {
    assert_eq!(Color::Black.index(), 0);
    assert_eq!(Color::Blue.index(), 1);
    assert_eq!(Color::LightGray.index(), 7);
    assert_eq!(Color::DarkGray.index(), 8);
    assert_eq!(Color::Pink.index(), 13);
    assert_eq!(Color::White.index(), 15);
}

#[test]
fn color_code_packs_background_high_foreground_low() {
    assert_eq!(ColorCode::new(Color::Yellow, Color::Black).attribute(), 0x0e);
    assert_eq!(ColorCode::new(Color::White, Color::Blue).attribute(), 0x1f);
    assert_eq!(ColorCode::new(Color::Black, Color::White).attribute(), 0xf0);
    assert_eq!(ColorCode::new(Color::LightGreen, Color::Magenta).attribute(), 0x5a);
}

#[test]
fn buffer_reads_back_what_was_written() {
    let mut b = Buffer::filled(cell(b' ', yellow()));
    assert_eq!(b.read(3, 7), cell(b' ', yellow()));
    b.write(3, 7, cell(b'Q', yellow()));
    assert_eq!(b.read(3, 7), cell(b'Q', yellow()));
    assert_eq!(b.read(3, 8), cell(b' ', yellow()));
    assert_eq!(b.read(BUFFER_HEIGHT - 1, BUFFER_WIDTH - 1), cell(b' ', yellow()));
}

#[test]
fn short_printable_write_moves_cursor_only() {
    let mut w = marked_writer(yellow());
    w.write_string("abc");
    assert_eq!(w.column_position(), 3);
    for row in 0..BUFFER_HEIGHT - 1 {
        let expected = vec![b'A' + row as u8; BUFFER_WIDTH];
        assert_eq!(row_text(&w, row), expected);
    }
    assert_eq!(w.read_char(BUFFER_HEIGHT - 1, 0), cell(b'a', yellow()));
    assert_eq!(w.read_char(BUFFER_HEIGHT - 1, 2), cell(b'c', yellow()));
}

#[test]
fn empty_write_changes_nothing() {
    let mut w = fresh_writer();
    w.write_string("");
    assert_eq!(w.column_position(), 0);
    assert_eq!(row_text(&w, BUFFER_HEIGHT - 1), padded(""));
}

#[test]
fn full_row_does_not_scroll_until_next_byte() {
    let mut w = fresh_writer();
    let line = "x".repeat(BUFFER_WIDTH);
    w.write_string(&line);
    assert_eq!(w.column_position(), BUFFER_WIDTH);
    assert_eq!(row_text(&w, BUFFER_HEIGHT - 1), vec![b'x'; BUFFER_WIDTH]);
    assert_eq!(row_text(&w, BUFFER_HEIGHT - 2), padded(""));
}

#[test]
fn one_byte_past_full_row_scrolls_once() {
    let mut w = marked_writer(yellow());
    let mut text = "x".repeat(BUFFER_WIDTH);
    text.push('y');
    w.write_string(&text);
    assert_eq!(w.column_position(), 1);
    for row in 0..BUFFER_HEIGHT - 2 {
        assert_eq!(row_text(&w, row), vec![b'A' + (row + 1) as u8; BUFFER_WIDTH]);
    }
    assert_eq!(row_text(&w, BUFFER_HEIGHT - 2), vec![b'x'; BUFFER_WIDTH]);
    assert_eq!(w.read_char(BUFFER_HEIGHT - 1, 0), cell(b'y', yellow()));
    assert_eq!(row_text(&w, BUFFER_HEIGHT - 1), padded("y"));
}

#[test]
fn unprintable_bytes_show_placeholder() {
    let mut w = fresh_writer();
    w.write_string("a\tb\u{7f}");
    assert_eq!(row_text(&w, BUFFER_HEIGHT - 1)[..4], [b'a', 0xfe, b'b', 0xfe]);
    assert_eq!(w.column_position(), 4);
}

#[test]
fn multibyte_characters_give_one_placeholder_per_byte() {
    let mut w = fresh_writer();
    w.write_string("\u{f6}\u{4f60}");
    assert_eq!(w.column_position(), 5);
    assert_eq!(row_text(&w, BUFFER_HEIGHT - 1)[..6], [0xfe, 0xfe, 0xfe, 0xfe, 0xfe, b' ']);
}

#[test]
fn write_byte_stores_raw_byte() {
    let mut w = fresh_writer();
    w.write_byte(0x01);
    assert_eq!(w.read_char(BUFFER_HEIGHT - 1, 0), cell(0x01, yellow()));
    assert_eq!(w.column_position(), 1);
}

#[test]
fn newline_resets_column_from_any_position() {
    for n in [0usize, 1, 40, BUFFER_WIDTH] {
        let mut w = fresh_writer();
        w.write_string(&"z".repeat(n));
        assert_eq!(w.column_position(), n);
        w.write_byte(b'\n');
        assert_eq!(w.column_position(), 0);
    }
}

#[test]
fn scroll_shifts_rows_and_blanks_bottom_in_current_color() {
    let color = ColorCode::new(Color::White, Color::Blue);
    let mut w = marked_writer(color);
    w.write_string("\n");
    for row in 1..BUFFER_HEIGHT {
        assert_eq!(row_text(&w, row - 1), vec![b'A' + row as u8; BUFFER_WIDTH]);
        assert_eq!(w.read_char(row - 1, 0).color_code, ColorCode::new(Color::Green, Color::Red));
    }
    for col in 0..BUFFER_WIDTH {
        assert_eq!(w.read_char(BUFFER_HEIGHT - 1, col), cell(b' ', color));
    }
}

#[test]
fn hello_newline_world() {
    let mut w = fresh_writer();
    w.write_string("Hello\n");
    w.write_string("World");
    assert_eq!(row_text(&w, BUFFER_HEIGHT - 2), padded("Hello"));
    assert_eq!(row_text(&w, BUFFER_HEIGHT - 1), padded("World"));
    assert_eq!(w.column_position(), 5);
}

#[test]
fn two_writes_equal_one_concatenated_write() {
    let first = "first call \u{e9}";
    let second = &"second call, long enough to wrap the row. ".repeat(3);
    let mut a = marked_writer(yellow());
    a.write_string(first);
    a.write_string(second);
    let mut b = marked_writer(yellow());
    b.write_string(&format!("{}{}", first, second));
    assert_eq!(a.column_position(), b.column_position());
    for row in 0..BUFFER_HEIGHT {
        for col in 0..BUFFER_WIDTH {
            assert_eq!(a.read_char(row, col), b.read_char(row, col));
        }
    }
}

#[test]
fn greeting_renders_placeholders_for_wide_characters() {
    let mut w = fresh_writer();
    print_something(&mut w);
    assert_eq!(w.column_position(), 0);
    let mut expected = b"Hello W".to_vec();
    expected.extend_from_slice(&[0xfe, 0xfe]);
    expected.extend_from_slice(b"rld!");
    expected.extend_from_slice(&[0xfe; 6]);
    expected.resize(BUFFER_WIDTH, b' ');
    assert_eq!(row_text(&w, BUFFER_HEIGHT - 2), expected);
    assert_eq!(row_text(&w, BUFFER_HEIGHT - 1), padded(""));
    assert_eq!(w.color_code(), yellow());
}
