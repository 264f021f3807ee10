use rust_os::io::vga_text::{
    BackgroundColor, CgaColor, CharColor, ScreenChar, TextColor, Writer, BUFFER_CELLS,
    CHARS_PER_LINE, HEIGHT,
};

#[test]
fn test_color_from_0() {
    assert!(CgaColor::try_from(0x00).ok().is_some());
}

#[test]
fn test_color_from_7() {
    assert!(CgaColor::try_from(0x07).ok().is_some());
}

#[test]
fn test_color_from_8() {
    assert!(CgaColor::try_from(0x08).ok().is_none());
}

#[test]
fn test_cga_color_round_trip() {
    for b in 0x00u8..=0x07 {
        assert_eq!(CgaColor::try_from(b).unwrap().to_byte(), b);
    }
    for b in 0x08u8..=0xFF {
        assert_eq!(CgaColor::try_from(b), Err(b));
    }
}

#[test]
fn test_background_color_round_trip() {
    for b in 0x00u8..=0x0F {
        assert_eq!(BackgroundColor::try_from(b).unwrap().to_byte(), b);
    }
    for b in 0x10u8..=0xFF {
        assert_eq!(BackgroundColor::try_from(b), Err(b));
    }
}

#[test]
fn test_text_color_round_trip() {
    for b in 0x00u8..=0x0F {
        assert_eq!(TextColor::try_from(b).unwrap().to_byte(), b);
    }
    for b in 0x10u8..=0xFF {
        assert_eq!(TextColor::try_from(b), Err(b));
    }
}

#[test]
fn test_color_lists() {
    let base = CgaColor::colors();
    assert_eq!(base.len(), 8);
    for (i, c) in base.iter().enumerate() {
        assert_eq!(c.to_byte() as usize, i);
    }
    let bg = BackgroundColor::colors();
    assert_eq!(bg.len(), 16);
    for (i, c) in bg.iter().enumerate() {
        assert_eq!(c.to_byte() as usize, i);
    }
    let text = TextColor::colors();
    assert_eq!(text.len(), 16);
    for (i, c) in text.iter().enumerate() {
        assert_eq!(c.to_byte() as usize, i);
    }
}

#[test]
fn test_char_color_packs_nibbles() {
    assert_eq!(
        CharColor::from_pair(
            BackgroundColor::NoBlink(CgaColor::Black),
            TextColor::Light(CgaColor::Green),
        ),
        CharColor(0x0A)
    );
    assert_eq!(
        CharColor::from_pair(
            BackgroundColor::Blink(CgaColor::Red),
            TextColor::Dark(CgaColor::Cyan),
        ),
        CharColor(0xC3)
    );
    assert_eq!(
        CharColor::from_pair(
            BackgroundColor::Blink(CgaColor::LightGray),
            TextColor::Light(CgaColor::LightGray),
        ),
        CharColor(0xFF)
    );
}

#[test]
fn test_default_color_pair() {
    let (bg, text) = Writer::default_color_pair();
    assert_eq!(bg, BackgroundColor::NoBlink(CgaColor::Black));
    assert_eq!(text, TextColor::Light(CgaColor::Green));
    assert_eq!(CharColor::from_pair(bg, text), CharColor(0x0A));
}

fn cell(w: &Writer, line: usize, col: usize) -> ScreenChar {
    w.buffer[line * CHARS_PER_LINE + col]
}

#[test]
fn test_write_byte_lands_on_bottom_line() {
    let mut w = Writer::new(CharColor(0x0A));
    w.write_byte(b'A');
    w.write_byte(b'B');
    assert_eq!(w.column, 2);
    assert_eq!(cell(&w, HEIGHT - 1, 0), ScreenChar { c: b'A', color: CharColor(0x0A) });
    assert_eq!(cell(&w, HEIGHT - 1, 1), ScreenChar { c: b'B', color: CharColor(0x0A) });
}

#[test]
fn test_non_ascii_byte_replaced() {
    let mut w = Writer::new(CharColor(0x0A));
    w.write_byte(0x80);
    w.write_byte(0xFF);
    assert_eq!(cell(&w, HEIGHT - 1, 0).c, 0xEF);
    assert_eq!(cell(&w, HEIGHT - 1, 1).c, 0xEF);
}

#[test]
fn test_newline_scrolls_and_resets_column() {
    let mut w = Writer::new(CharColor(0x0A));
    w.write(b"hi");
    assert_eq!(w.column, 2);
    w.write_byte(b'\n');
    assert_eq!(w.column, 0);
    assert_eq!(cell(&w, HEIGHT - 2, 0).c, b'h');
    assert_eq!(cell(&w, HEIGHT - 2, 1).c, b'i');
    assert_eq!(cell(&w, HEIGHT - 1, 0), ScreenChar { c: 0, color: CharColor(0x00) });
}

#[test]
fn test_full_line_wraps() {
    let mut w = Writer::new(CharColor(0x0A));
    for _ in 0..CHARS_PER_LINE {
        w.write_byte(b'x');
    }
    assert_eq!(w.column, 0);
    for col in 0..CHARS_PER_LINE {
        assert_eq!(cell(&w, HEIGHT - 2, col).c, b'x');
        assert_eq!(cell(&w, HEIGHT - 1, col).c, 0);
    }
}

#[test]
fn test_crlf_moves_every_line_up() {
    let mut w = Writer::new(CharColor(0x0A));
    w.write(b"first\n");
    w.write(b"second\n");
    assert_eq!(cell(&w, HEIGHT - 3, 0).c, b'f');
    assert_eq!(cell(&w, HEIGHT - 2, 0).c, b's');
    // a line written HEIGHT scrolls ago has left the screen
    let mut w2 = Writer::new(CharColor(0x0A));
    w2.write(b"gone");
    for _ in 0..HEIGHT {
        w2.crlf();
    }
    assert!(w2.buffer.iter().all(|sc| sc.c == 0));
}

#[test]
fn test_many_newlines() {
    let mut w = Writer::new(CharColor(0x0A));
    for _ in 0..200 {
        w.write_byte(b'\n');
    }
    assert_eq!(w.column, 0);
    assert_eq!(w.buffer.len(), BUFFER_CELLS);
    assert!(w.buffer.iter().all(|sc| *sc == ScreenChar { c: 0, color: CharColor(0x00) }));
}

#[test]
fn test_println_output() {
    let mut w = Writer::new(CharColor(0x0A));
    let s = "Some test string that fits on a single line";
    w.write(s.as_bytes());
    w.write_byte(b'\n');
    for (i, b) in s.bytes().enumerate() {
        assert_eq!(cell(&w, HEIGHT - 2, i).c, b);
    }
}

#[test]
fn test_set_color_applies_to_new_characters_only() {
    let mut w = Writer::new(CharColor(0x0A));
    w.write_byte(b'a');
    w.set_color(CharColor(0x4E));
    assert_eq!(w.color, CharColor(0x4E));
    w.write_byte(b'b');
    assert_eq!(cell(&w, HEIGHT - 1, 0).color, CharColor(0x0A));
    assert_eq!(cell(&w, HEIGHT - 1, 1).color, CharColor(0x4E));
}
