use os::values::Paint;
use os::vga_buffer::{
    _print, _print_retaining_colour, set_terminal_bg, set_terminal_colour, set_terminal_fg, Colour,
    TerminalChar, Writer, BUFFER_HEIGHT, BUFFER_WIDTH, REPLACEMENT_GLYPH,
};

const BLANK: TerminalChar = TerminalChar { character: b' ', colour: Colour(0x0f) };

fn row_text(w: &Writer, row: usize) -> Vec<u8> {
    (0..BUFFER_WIDTH).map(|c| w.char_at(row, c).character).collect()
}

#[test]
fn test_println_simple() {
    let mut w = Writer::new();
    _print(&mut w, "test_println_simple output\n");
    assert_eq!(w.row(), 1);
    assert_eq!(w.column(), 0);
}

#[test]
fn test_println_many() {
    let mut w = Writer::new();
    for _ in 0..200 {
        _print(&mut w, "test_println_many output\n");
    }
    assert_eq!(w.row(), BUFFER_HEIGHT - 1);
    let expected = b"test_println_many output";
    for (i, b) in expected.iter().enumerate() {
        assert_eq!(w.char_at(BUFFER_HEIGHT - 2, i).character, *b);
    }
}

#[test]
fn test_println_output() {
    let s = "Some test string that fits on a single line";
    let mut w = Writer::new();
    _print(&mut w, &format!("{}\n", s));
    for (i, c) in s.chars().enumerate() {
        let screen_char = w.char_at(w.row() - 1, i);
        assert_eq!(char::from(screen_char.character), c);
    }
}

#[test]
fn single_line_on_empty_grid() {
    let s = "Some test string that fits on a single line";
    let mut w = Writer::new();
    w.write_string(s);
    assert_eq!(w.row(), 0);
    assert_eq!(w.column(), s.len());
    for (i, b) in s.bytes().enumerate() {
        assert_eq!(w.char_at(0, i), TerminalChar { character: b, colour: Colour(0x02) });
    }
    for col in s.len()..BUFFER_WIDTH {
        assert_eq!(w.char_at(0, col), BLANK);
    }
    for row in 1..BUFFER_HEIGHT {
        for col in 0..BUFFER_WIDTH {
            assert_eq!(w.char_at(row, col), BLANK);
        }
    }
}

#[test]
fn new_writer_is_blank_green_on_black() {
    let w = Writer::new();
    assert_eq!(w.row(), 0);
    assert_eq!(w.column(), 0);
    assert_eq!(w.colour(), Colour(0x02));
    assert_eq!(w.char_at(BUFFER_HEIGHT - 1, BUFFER_WIDTH - 1), BLANK);
}

#[test]
fn every_printable_byte_is_stored() {
    let mut w = Writer::new();
    for b in 0x20u8..=0x7e {
        w.write_byte(b);
        let r = w.row();
        let c = w.column();
        assert_eq!(w.char_at(r, c - 1).character, b);
    }
}

#[test]
fn unprintable_bytes_become_replacement_glyph() {
    let mut w = Writer::new();
    for b in [0x00u8, 0x07, 0x09, 0x0d, 0x1f, 0x7f, 0x80, 0xc3, 0xfe, 0xff] {
        w.write_byte(b);
        let c = w.column();
        assert_eq!(w.char_at(w.row(), c - 1).character, REPLACEMENT_GLYPH);
    }
    assert_eq!(w.column(), 10);
}

#[test]
fn non_ascii_text_is_replaced_byte_by_byte() {
    let mut w = Writer::new();
    w.write_string("é!");
    assert_eq!(w.char_at(0, 0).character, 0xfe);
    assert_eq!(w.char_at(0, 1).character, 0xfe);
    assert_eq!(w.char_at(0, 2).character, b'!');
    assert_eq!(w.column(), 3);
}

#[test]
fn newline_moves_to_next_blank_row() {
    let mut w = Writer::new();
    w.write_string("ab\ncd");
    assert_eq!(w.row(), 1);
    assert_eq!(w.column(), 2);
    assert_eq!(w.char_at(1, 0).character, b'c');
    assert_eq!(w.char_at(0, 1).character, b'b');
    assert_eq!(w.char_at(1, 2), BLANK);
}

#[test]
fn byte_after_full_row_wraps() {
    let mut w = Writer::new();
    for _ in 0..BUFFER_WIDTH {
        w.write_byte(b'x');
    }
    assert_eq!(w.row(), 0);
    assert_eq!(w.column(), BUFFER_WIDTH);
    w.write_byte(b'y');
    assert_eq!(w.row(), 1);
    assert_eq!(w.column(), 1);
    assert_eq!(w.char_at(1, 0).character, b'y');
}

#[test]
fn wrap_on_last_row_scrolls() {
    let mut w = Writer::new();
    for _ in 0..BUFFER_HEIGHT - 1 {
        w.write_byte(b'\n');
    }
    assert_eq!(w.row(), BUFFER_HEIGHT - 1);
    for _ in 0..BUFFER_WIDTH {
        w.write_byte(b'x');
    }
    w.write_byte(b'y');
    assert_eq!(w.row(), BUFFER_HEIGHT - 1);
    assert_eq!(w.column(), 1);
    assert_eq!(w.char_at(BUFFER_HEIGHT - 1, 0).character, b'y');
    assert_eq!(w.char_at(BUFFER_HEIGHT - 2, 0).character, b'x');
    assert_eq!(w.char_at(BUFFER_HEIGHT - 1, 1), BLANK);
}

#[test]
fn overflowing_grid_discards_first_row() {
    let k = 7;
    let mut w = Writer::new();
    let mut bytes = Vec::new();
    for i in 0..BUFFER_HEIGHT * BUFFER_WIDTH + k {
        let b = if i < BUFFER_WIDTH { b'#' } else { b'a' + (i % 26) as u8 };
        bytes.push(b);
        w.write_byte(b);
    }
    assert_eq!(w.row(), BUFFER_HEIGHT - 1);
    assert_eq!(w.column(), k);
    for row in 0..BUFFER_HEIGHT {
        assert!(!row_text(&w, row).contains(&b'#'));
    }
    for row in 0..BUFFER_HEIGHT - 1 {
        for col in 0..BUFFER_WIDTH {
            assert_eq!(w.char_at(row, col).character, bytes[BUFFER_WIDTH + row * BUFFER_WIDTH + col]);
        }
    }
    let n = bytes.len();
    for c in 0..k {
        assert_eq!(w.char_at(BUFFER_HEIGHT - 1, c).character, bytes[n - k + c]);
    }
    assert_eq!(w.char_at(BUFFER_HEIGHT - 1, k), BLANK);
}

#[test]
fn colour_change_repaints_written_cells_of_current_row_only() {
    let mut w = Writer::new();
    w.write_string("first line\nsecond");
    w.set_foreground(Paint::Red);
    assert_eq!(w.colour(), Colour(0x04));
    for col in 0..6 {
        assert_eq!(w.char_at(1, col).colour, Colour(0x04));
    }
    assert_eq!(w.char_at(1, 0).character, b's');
    assert_eq!(w.char_at(1, 6), BLANK);
    for col in 0..10 {
        assert_eq!(w.char_at(0, col).colour, Colour(0x02));
    }
    w.write_byte(b'!');
    assert_eq!(w.char_at(1, 6), TerminalChar { character: b'!', colour: Colour(0x04) });
}

#[test]
fn colour_change_does_not_reach_scrolled_rows() {
    let mut w = Writer::new();
    for _ in 0..30 {
        w.write_string("line\n");
    }
    w.write_string("ab");
    set_terminal_colour(&mut w, Paint::Yellow, Paint::Blue);
    assert_eq!(w.char_at(BUFFER_HEIGHT - 1, 0).colour, Colour(0x1e));
    assert_eq!(w.char_at(BUFFER_HEIGHT - 2, 0).colour, Colour(0x02));
}

#[test]
fn colour_byte_layout() {
    assert_eq!(Colour::new(Paint::Green, Paint::Black), Colour(0x02));
    assert_eq!(Colour::new(Paint::White, Paint::Red), Colour(0x4f));
    assert_eq!(Colour::new(Paint::Black, Paint::White), Colour(0xf0));
    let mut c = Colour::new(Paint::Pink, Paint::Cyan);
    assert_eq!(c, Colour(0x3d));
    c.set_foreground(Paint::LightGray);
    assert_eq!(c, Colour(0x37));
    c.set_background(Paint::Brown);
    assert_eq!(c, Colour(0x67));
}

#[test]
fn terminal_fg_and_bg_keep_the_other_nibble() {
    let mut w = Writer::new();
    w.write_string("abc");
    set_terminal_fg(&mut w, Paint::LightBlue);
    assert_eq!(w.colour(), Colour(0x09));
    set_terminal_bg(&mut w, Paint::DarkGray);
    assert_eq!(w.colour(), Colour(0x89));
    assert_eq!(w.char_at(0, 2).colour, Colour(0x89));
}

#[test]
fn chained_colour_setters() {
    let mut w = Writer::new();
    w.set_colour(Paint::White, Paint::Black).set_background(Paint::Magenta).write_byte(b'z');
    assert_eq!(w.char_at(0, 0), TerminalChar { character: b'z', colour: Colour(0x5f) });
}

#[test]
fn print_retaining_colour_restores_current_colour() {
    let mut w = Writer::new();
    w.write_string("ok ");
    _print_retaining_colour(&mut w, Paint::White, Paint::Red, "panic");
    assert_eq!(w.colour(), Colour(0x02));
    for col in 0..8 {
        assert_eq!(w.char_at(0, col).colour, Colour(0x4f));
    }
    w.write_byte(b'.');
    assert_eq!(w.char_at(0, 8), TerminalChar { character: b'.', colour: Colour(0x02) });
}
