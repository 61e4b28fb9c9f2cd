use mini_kernel::interrupt::breakpoint_handler;
use mini_kernel::vga::{glyph, Buffer, Char, Color, Writer, M, N};

const COLORS: [Color; 16] = [
    Color::Black,
    Color::Blue,
    Color::Green,
    Color::Cyan,
    Color::Red,
    Color::Magenta,
    Color::Brown,
    Color::LightGray,
    Color::DarkGray,
    Color::LightBlue,
    Color::LightGreen,
    Color::LightCyan,
    Color::LightRed,
    Color::Pink,
    Color::Yellow,
    Color::White,
];

/// Attribute of cyan on black.
const ATTR: u8 = 0x03;

/// A cell that no writer produces, to tell what was left alone.
const OLD: Char = Char { ch: b'#', color_code: 0x70 };

fn writer() -> Writer {
    Writer::new(Color::Cyan, Color::Black, Buffer::new(OLD))
}

fn row(w: &Writer, row: usize) -> Vec<u8> {
    (0..N).map(|col| w.buffer().read(row, col).ch).collect()
}

fn text_row(text: &[u8], fill: u8) -> Vec<u8> {
    let mut cells = text.to_vec();
    cells.resize(N, fill);
    cells
}

#[test]
fn color_codes_run_from_0_to_15() {
    for (code, color) in COLORS.iter().enumerate() {
        assert_eq!(color.code() as usize, code);
    }
}

#[test]
fn attribute_is_background_high_foreground_low() {
    for (b, back) in COLORS.iter().enumerate() {
        for (f, front) in COLORS.iter().enumerate() {
            assert_eq!(Color::GenColorCode(*front, *back), ((b as u8) << 4) | f as u8);
        }
    }
    assert_eq!(Color::GenColorCode(Color::Cyan, Color::Black), 0x03);
    assert_eq!(Color::GenColorCode(Color::Yellow, Color::Blue), 0x1e);
    assert_eq!(Color::GenColorCode(Color::White, Color::White), 0xff);
}

#[test]
fn buffer_cells_are_read_and_written_by_coordinate() {
    let mut buffer = Buffer::new(OLD);
    buffer.write(0, 0, Char { ch: b'a', color_code: 1 });
    buffer.write(M - 1, N - 1, Char { ch: b'z', color_code: 2 });
    for r in 0..M {
        for c in 0..N {
            let expected = match (r, c) {
                (0, 0) => Char { ch: b'a', color_code: 1 },
                (24, 79) => Char { ch: b'z', color_code: 2 },
                _ => OLD,
            };
            assert_eq!(buffer.read(r, c), expected);
        }
    }
}

#[test]
fn new_writer_leaves_the_screen_alone() {
    let w = writer();
    assert_eq!(w.col(), 0);
    assert_eq!(w.color_code(), ATTR);
    for r in 0..M {
        for c in 0..N {
            assert_eq!(w.buffer().read(r, c), OLD);
        }
    }
}

#[test]
fn byte_goes_to_the_last_row() {
    let mut w = writer();
    w.write_byte(b'H');
    w.write_byte(b'i');
    assert_eq!(w.col(), 2);
    assert_eq!(w.buffer().read(M - 1, 0), Char { ch: b'H', color_code: ATTR });
    assert_eq!(w.buffer().read(M - 1, 1), Char { ch: b'i', color_code: ATTR });
    assert_eq!(w.buffer().read(M - 1, 2), OLD);
    for r in 0..M - 1 {
        assert_eq!(row(&w, r), text_row(b"", b'#'));
    }
}

#[test]
fn newline_scrolls_and_clears_the_last_row() {
    let mut buffer = Buffer::new(OLD);
    for r in 0..M {
        buffer.write(r, 0, Char { ch: b'a' + r as u8, color_code: 0x70 });
    }
    let mut w = Writer::new(Color::Cyan, Color::Black, buffer);
    w.write_byte(b'x');
    w.write_byte(b'\n');
    assert_eq!(w.col(), 0);
    for r in 0..M - 2 {
        assert_eq!(w.buffer().read(r, 0).ch, b'a' + r as u8 + 1);
        assert_eq!(w.buffer().read(r, 1), OLD);
    }
    assert_eq!(w.buffer().read(M - 2, 0), Char { ch: b'x', color_code: ATTR });
    for c in 0..N {
        assert_eq!(w.buffer().read(M - 1, c), Char { ch: b' ', color_code: ATTR });
    }
}

#[test]
fn unprintable_bytes_show_the_replacement_glyph() {
    for byte in 0..=255u8 {
        if byte == b'\n' {
            continue;
        }
        let mut w = writer();
        w.write_byte(byte);
        let expected = if (0x20..=0x7e).contains(&byte) { byte } else { 0xfe };
        assert_eq!(w.buffer().read(M - 1, 0), Char { ch: expected, color_code: ATTR });
        assert_eq!(w.col(), 1);
    }
}

#[test]
fn edges_of_the_printable_range() {
    let mut w = writer();
    for byte in [0x1f, 0x20, 0x7e, 0x7f, 0x00, 0xff, 0xfe, b'\r', b'\t'] {
        w.write_byte(byte);
    }
    assert_eq!(
        row(&w, M - 1),
        text_row(&[0xfe, 0x20, 0x7e, 0xfe, 0xfe, 0xfe, 0xfe, 0xfe, 0xfe], b'#')
    );
    assert_eq!(w.col(), 9);
}

#[test]
fn string_bytes_are_written_in_order() {
    let mut w = writer();
    w.write_string("");
    assert_eq!(w.col(), 0);
    w.write_string("abc");
    w.write_string("de");
    assert_eq!(w.col(), 5);
    assert_eq!(row(&w, M - 1), text_row(b"abcde", b'#'));
}

#[test]
fn string_that_is_not_ascii_shows_one_glyph_per_byte() {
    let mut w = writer();
    w.write_string("a\u{e9}\u{20ac}b");
    assert_eq!(w.col(), 7);
    assert_eq!(row(&w, M - 1), text_row(&[b'a', 0xfe, 0xfe, 0xfe, 0xfe, 0xfe, b'b'], b'#'));
}

#[test]
fn hello_world_scrolls_twice() {
    let mut w = writer();
    w.write_string("Hello\nWorld!\n");
    assert_eq!(w.col(), 0);
    for r in 0..M - 3 {
        assert_eq!(row(&w, r), text_row(b"", b'#'));
    }
    assert_eq!(row(&w, M - 3), text_row(b"Hello", b'#'));
    assert_eq!(row(&w, M - 2), text_row(b"World!", b' '));
    assert_eq!(row(&w, M - 1), text_row(b"", b' '));
    for c in 0..N {
        assert_eq!(w.buffer().read(M - 1, c).color_code, ATTR);
    }
}

#[test]
fn eighty_one_characters_scroll_once() {
    let mut w = writer();
    for _ in 0..81 {
        w.write_byte(b'A');
    }
    assert_eq!(w.col(), 1);
    for r in 0..M - 2 {
        assert_eq!(row(&w, r), text_row(b"", b'#'));
    }
    assert_eq!(row(&w, M - 2), vec![b'A'; N]);
    assert_eq!(row(&w, M - 1), text_row(b"A", b' '));
}

#[test]
fn full_row_waits_for_the_next_byte_to_scroll() {
    let mut w = writer();
    w.write_string(&"A".repeat(N));
    assert_eq!(w.col(), N);
    assert_eq!(row(&w, M - 1), vec![b'A'; N]);
    assert_eq!(row(&w, M - 2), text_row(b"", b'#'));
    w.write_byte(b'B');
    assert_eq!(w.col(), 1);
    assert_eq!(row(&w, M - 2), vec![b'A'; N]);
    assert_eq!(row(&w, M - 1), text_row(b"B", b' '));
    assert_eq!(row(&w, M - 3), text_row(b"", b'#'));
}

#[test]
fn newline_after_full_row_scrolls_once() {
    let mut w = writer();
    w.write_string(&"A".repeat(N));
    w.write_byte(b'\n');
    assert_eq!(w.col(), 0);
    assert_eq!(row(&w, M - 2), vec![b'A'; N]);
    assert_eq!(row(&w, M - 1), text_row(b"", b' '));
    assert_eq!(row(&w, M - 3), text_row(b"", b'#'));
}

#[test]
fn run_ends_where_the_formula_says() {
    for start in [0usize, 1, 79, 80] {
        for len in [1usize, 2, 79, 80, 81, 160, 161, 200] {
            let mut w = writer();
            w.write_string(&"s".repeat(start));
            assert_eq!(w.col(), start);
            w.write_string(&"r".repeat(len));
            assert_eq!(w.col(), (start + len - 1) % N + 1);
            let scrolls = (start + len - 1) / N;
            let scrolls_since_first = if start == N { scrolls - 1 } else { scrolls };
            let first_of_run = w.buffer().read(M - 1 - scrolls_since_first, start % N).ch;
            assert_eq!(first_of_run, b'r');
            if scrolls + 1 < M {
                assert_eq!(row(&w, M - 2 - scrolls), text_row(b"", b'#'));
            }
        }
    }
}

#[test]
fn text_scrolls_off_the_top() {
    let mut w = writer();
    for line in 0..30u8 {
        w.write_byte(b'a' + line);
        w.write_byte(b'\n');
    }
    assert_eq!(w.col(), 0);
    for r in 0..M - 1 {
        let line = 30 - (M - 1) + r;
        assert_eq!(row(&w, r), text_row(&[b'a' + line as u8], b' '));
    }
    assert_eq!(row(&w, M - 1), text_row(b"", b' '));
}

#[test]
fn breakpoint_handler_shows_its_line() {
    let mut w = writer();
    breakpoint_handler(&mut w);
    assert_eq!(w.col(), 0);
    assert_eq!(row(&w, M - 3), text_row(b"EXCEPTION: BREAKPOINT .......", b'#'));
    assert_eq!(row(&w, M - 2), text_row(b"", b' '));
    assert_eq!(row(&w, M - 1), text_row(b"", b' '));
    assert_eq!(row(&w, M - 4), text_row(b"", b'#'));
}

#[test]
fn cell_word_has_the_character_low_and_the_attribute_high() {
    assert_eq!(Char { ch: b'A', color_code: 0x1e }.to_word(), 0x1e41);
    assert_eq!(Char { ch: 0xff, color_code: 0x00 }.to_word(), 0x00ff);
    assert_eq!(Char::from_word(0x1e41), Char { ch: b'A', color_code: 0x1e });
    for word in [0u16, 1, 0x00ff, 0x0100, 0xff00, 0x8000, 0xffff, 0x0720] {
        assert_eq!(Char::from_word(word).to_word(), word);
    }
}

#[test]
fn glyph_keeps_printable_bytes_only() {
    for byte in 0..=255u8 {
        let expected = if byte >= 0x20 && byte <= 0x7e { byte } else { 0xfe };
        assert_eq!(glyph(byte), expected);
    }
    assert_eq!(glyph(b' '), b' ');
    assert_eq!(glyph(b'~'), b'~');
    assert_eq!(glyph(0x7f), 0xfe);
    assert_eq!(glyph(b'\n'), 0xfe);
}

#[test]
fn screen_is_25_rows_of_80_columns() {
    assert_eq!(M, 25);
    assert_eq!(N, 80);
}
