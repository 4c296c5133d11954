use rost::vga_driver::{colorchg, move_cursor_by, ColorCode, CursorPosition, Writer};
use rost::Color;

fn row_text(w: &Writer, row: usize) -> String {
    let mut s = String::new();
    for col in 0..80 {
        s.push(w.char_at(row, col).ascii_character as char);
    }
    s
}

#[test]
fn fresh_console_is_blank_white_on_black() {
    let w = Writer::new();
    let white_on_black = ColorCode::new(Color::White, Color::Black);
    assert_eq!(white_on_black.0, 0x0f);
    for row in 0..25 {
        for col in 0..80 {
            let c = w.char_at(row, col);
            assert_eq!(c.ascii_character, b' ');
            assert_eq!(c.color_code, white_on_black);
        }
    }
}

#[test]
fn color_code_packs_background_high_foreground_low() {
    assert_eq!(ColorCode::new(Color::White, Color::Black).0, 0x0f);
    assert_eq!(ColorCode::new(Color::Green, Color::Blue).0, 0x12);
    assert_eq!(ColorCode::new(Color::Black, Color::White).0, 0xf0);
    assert_eq!(ColorCode::new(Color::Yellow, Color::LightRed).0, 0xce);
}

#[test]
fn cursor_round_trips_for_every_valid_position() {
    let mut w = Writer::new();
    for y in 0..25u8 {
        for x in 0..80u8 {
            w.set_cursor_pos(CursorPosition { x, y });
            let back = w.get_cursor_position();
            assert_eq!(back.x, x);
            assert_eq!(back.y, y);
        }
    }
}

#[test]
fn cursor_wraps_around_both_axes() {
    let mut w = Writer::new();
    w.set_cursor_pos(CursorPosition { x: 0, y: 0 });
    w.move_cursor_by(-1, -1);
    let p = w.get_cursor_position();
    assert_eq!((p.x, p.y), (79, 24));

    w.set_cursor_pos(CursorPosition { x: 79, y: 24 });
    w.move_cursor_by(1, 1);
    let p = w.get_cursor_position();
    assert_eq!((p.x, p.y), (0, 0));

    w.set_cursor_pos(CursorPosition { x: 40, y: 12 });
    w.move_cursor_by(127, 127);
    let p = w.get_cursor_position();
    assert_eq!((p.x, p.y), ((40 + 127) % 80, (12 + 127) % 25));

    w.set_cursor_pos(CursorPosition { x: 40, y: 12 });
    w.move_cursor_by(-128, -128);
    let p = w.get_cursor_position();
    assert_eq!((p.x, p.y), ((40 + 160 - 128) % 80, (12 + 150 - 128) % 25));
}

#[test]
fn free_move_cursor_by_drives_the_writer() {
    let mut w = Writer::new();
    w.set_cursor_pos(CursorPosition { x: 10, y: 10 });
    move_cursor_by(&mut w, 5, -3);
    let p = w.get_cursor_position();
    assert_eq!((p.x, p.y), (15, 7));
}

#[test]
fn short_write_stays_on_bottom_row_and_scrolls_nothing() {
    let mut w = Writer::new();
    w.write_string("marker\n");
    let before: Vec<String> = (0..24).map(|r| row_text(&w, r)).collect();
    let line: String = std::iter::repeat('x').take(79).collect();
    w.write_string(&line);
    for r in 0..24 {
        assert_eq!(row_text(&w, r), before[r]);
    }
    assert!(row_text(&w, 23).starts_with("marker"));
    for col in 0..79 {
        assert_eq!(w.char_at(24, col).ascii_character, b'x');
    }
    assert_eq!(w.char_at(24, 79).ascii_character, b' ');
}

#[test]
fn eighty_chars_fill_the_row_and_one_more_scrolls_once() {
    let mut w = Writer::new();
    w.write_string("marker\n");
    let eighty: String = std::iter::repeat('x').take(80).collect();
    w.write_string(&eighty);
    // the full row still sits on the bottom row: no scroll yet
    assert!(row_text(&w, 23).starts_with("marker"));
    for col in 0..80 {
        assert_eq!(w.char_at(24, col).ascii_character, b'x');
    }
    w.write_byte(b'y');
    // exactly one scroll: the filled row moved up, the marker moved with it
    assert!(row_text(&w, 22).starts_with("marker"));
    for col in 0..80 {
        assert_eq!(w.char_at(23, col).ascii_character, b'x');
    }
    assert_eq!(w.char_at(24, 0).ascii_character, b'y');
    for col in 1..80 {
        assert_eq!(w.char_at(24, col).ascii_character, b' ');
    }
}

#[test]
fn nonprintable_bytes_are_substituted() {
    let mut w = Writer::new();
    w.write_byte(0x01);
    w.write_byte(0x7f);
    w.write_byte(b'a');
    assert_eq!(w.char_at(24, 0).ascii_character, 0xfe);
    assert_eq!(w.char_at(24, 1).ascii_character, 0xfe);
    assert_eq!(w.char_at(24, 2).ascii_character, b'a');
}

#[test]
fn change_color_touches_only_later_writes() {
    let mut w = Writer::new();
    w.write_string("ab");
    colorchg(&mut w, Color::Yellow, Color::Red);
    w.write_string("cd");
    let old_code = ColorCode::new(Color::White, Color::Black);
    let new_code = ColorCode::new(Color::Yellow, Color::Red);
    assert_eq!(w.char_at(24, 0).color_code, old_code);
    assert_eq!(w.char_at(24, 1).color_code, old_code);
    assert_eq!(w.char_at(24, 2).color_code, new_code);
    assert_eq!(w.char_at(24, 3).color_code, new_code);
}

#[test]
fn set_screen_color_keeps_every_glyph() {
    let mut w = Writer::new();
    w.write_string("some text\nand a second line");
    let glyphs: Vec<Vec<u8>> = (0..25)
        .map(|r| (0..80).map(|c| w.char_at(r, c).ascii_character).collect())
        .collect();
    w.change_screen_color(Color::Pink, Color::DarkGray);
    let code = ColorCode::new(Color::Pink, Color::DarkGray);
    for r in 0..25 {
        for c in 0..80 {
            assert_eq!(w.char_at(r, c).ascii_character, glyphs[r][c]);
            assert_eq!(w.char_at(r, c).color_code, code);
        }
    }
}

#[test]
fn hello_recolored_green_on_blue() {
    let mut w = Writer::new();
    colorchg(&mut w, Color::White, Color::Black);
    w.write_string("Hello");
    rost::vga_driver::change_screen_color(&mut w, Color::Green, Color::Blue);
    let expected = [b'H', b'e', b'l', b'l', b'o'];
    let green_on_blue = ColorCode::new(Color::Green, Color::Blue);
    assert_eq!(green_on_blue.0, 0x12);
    for (i, g) in expected.iter().enumerate() {
        let cell = w.char_at(24, i);
        assert_eq!(cell.ascii_character, *g);
        assert_eq!(cell.color_code, green_on_blue);
    }
}

#[test]
fn two_hundred_lines_scroll_correctly() {
    let mut w = Writer::new();
    for i in 0..200 {
        w.write_string(&format!("line {:03}\n", i));
    }
    // the last written line is the bottom-most text row; the fresh bottom
    // row below it is blank because every line ended with a newline
    assert!(row_text(&w, 23).starts_with("line 199"));
    assert_eq!(row_text(&w, 24).trim(), "");
    // row 0 holds the line written 23 rows earlier, scrolled all the way up
    assert!(row_text(&w, 0).starts_with("line 176"));
    for r in 0..24 {
        assert!(row_text(&w, r).starts_with(&format!("line {:03}", 176 + r)));
    }
}
