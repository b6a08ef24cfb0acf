use rustos::vga_buffer::{Buffer, ScreenChar, Writer};
use rustos::{Color, ColorMode, BUFFER_HEIGHT, BUFFER_WIDTH};
use volatile::Volatile;

fn fresh_buffer(word: u16) -> &'static mut Buffer {
    Box::leak(Box::new(core::array::from_fn(|_| core::array::from_fn(|_| Volatile::new(word)))))
}

fn writer() -> Writer {
    Writer::new(fresh_buffer(0x0e20), ColorMode::new(Color::YELLOW, Color::BLACK))
}

fn row_text(w: &Writer, row: usize) -> String {
    (0..BUFFER_WIDTH).map(|c| w.read_char(row, c).ascii_character as char).collect()
}

#[test]
fn trivial_assertion() {
    assert_eq!(1, 1);
}

#[test]
fn test_println_single() {
    let mut w = writer();
    w.write_string("test_println_single output\n");
    assert_eq!(w.column(), 0);
    assert!(row_text(&w, BUFFER_HEIGHT - 2).starts_with("test_println_single output "));
}

#[test]
fn test_println_many() {
    let mut w = writer();
    for _ in 0..200 {
        w.write_string("test_println_many output\n");
    }
    for row in 0..BUFFER_HEIGHT - 1 {
        assert!(row_text(&w, row).starts_with("test_println_many output "));
    }
    assert_eq!(row_text(&w, BUFFER_HEIGHT - 1), " ".repeat(BUFFER_WIDTH));
}

#[test]
fn test_println_output() {
    let mut w = writer();
    let s = "some test string that fits on a single line";
    w.write_string(&format!("{}\n", s));
    for (i, c) in s.chars().enumerate() {
        let screen_char = w.read_char(BUFFER_HEIGHT - 2, i);
        assert_eq!(char::from(screen_char.ascii_character), c);
    }
}

#[test]
fn color_mode_packs_background_high_and_foreground_low() {
    let m = ColorMode::new(Color::YELLOW, Color::BLACK);
    assert_eq!(m.0, 0x0e);
    let m = ColorMode::new(Color::LIGHTCYAN, Color::RED);
    assert_eq!(m.0, 0x4b);
    assert_eq!(ColorMode::new(Color::WHITE, Color::WHITE).0, 0xff);
}

#[test]
fn color_mode_decodes_every_pair() {
    let all = [
        Color::BLACK,
        Color::BLUE,
        Color::GREEN,
        Color::CYAN,
        Color::RED,
        Color::MAGENTA,
        Color::BROWN,
        Color::LIGHTGRAY,
        Color::DARKGRAY,
        Color::LIGHTBLUE,
        Color::LIGHTGREEN,
        Color::LIGHTCYAN,
        Color::LIGHTRED,
        Color::PINK,
        Color::YELLOW,
        Color::WHITE,
    ];
    for (i, f) in all.iter().enumerate() {
        assert_eq!(f.code() as usize, i);
        assert_eq!(Color::from_code(i as u8), *f);
        for b in all.iter() {
            let m = ColorMode::new(*f, *b);
            assert_eq!(m.foreground(), *f);
            assert_eq!(m.background(), *b);
        }
    }
}

#[test]
fn screen_char_word_layout() {
    let c = ScreenChar::encode(b'A', ColorMode::new(Color::YELLOW, Color::BLACK));
    assert_eq!(c.word(), 0x0e41);
    assert_eq!(ScreenChar::from_word(0x0e41), c);
}

#[test]
fn column_stays_within_width() {
    let mut w = writer();
    for i in 0..500 {
        let s = if i % 97 == 0 { "\n" } else { "x" };
        w.write_string(s);
        assert!(w.column() <= BUFFER_WIDTH);
    }
}

#[test]
fn byte_is_stored_at_column_with_attribute() {
    let mut w = writer();
    w.write_byte(b'Q');
    w.write_byte(b'R');
    assert_eq!(w.column(), 2);
    let c = w.read_char(BUFFER_HEIGHT - 1, 1);
    assert_eq!(c.ascii_character, b'R');
    assert_eq!(c.color_mode, ColorMode::new(Color::YELLOW, Color::BLACK));
    assert_eq!(w.read_char(BUFFER_HEIGHT - 1, 0).ascii_character, b'Q');
}

#[test]
fn wrap_before_overflow() {
    let mut w = writer();
    let line: String = (0..BUFFER_WIDTH).map(|i| (b'a' + (i % 26) as u8) as char).collect();
    w.write_string(&line);
    assert_eq!(w.column(), BUFFER_WIDTH);
    w.write_string("Z");
    assert_eq!(w.column(), 1);
    assert_eq!(w.read_char(BUFFER_HEIGHT - 1, 0).ascii_character, b'Z');
    assert_eq!(row_text(&w, BUFFER_HEIGHT - 2), line);
    assert_eq!(w.read_char(BUFFER_HEIGHT - 1, 1).ascii_character, b' ');
}

#[test]
fn scroll_discards_oldest_row() {
    let filled = ScreenChar::encode(b'#', ColorMode::new(Color::RED, Color::BLUE)).word();
    let mut w = Writer::new(fresh_buffer(filled), ColorMode::new(Color::GREEN, Color::BLACK));
    assert_eq!(w.read_char(0, 0).ascii_character, b'#');
    for _ in 0..BUFFER_HEIGHT {
        w.write_byte(b'\n');
    }
    let blank = ScreenChar::encode(b' ', ColorMode::new(Color::GREEN, Color::BLACK));
    for row in 0..BUFFER_HEIGHT {
        for col in 0..BUFFER_WIDTH {
            assert_eq!(w.read_char(row, col), blank);
        }
    }
}

#[test]
fn new_line_moves_rows_up() {
    let mut w = writer();
    w.write_string("first\nsecond");
    w.new_line();
    assert_eq!(w.column(), 0);
    assert!(row_text(&w, BUFFER_HEIGHT - 3).starts_with("first "));
    assert!(row_text(&w, BUFFER_HEIGHT - 2).starts_with("second "));
    assert_eq!(row_text(&w, BUFFER_HEIGHT - 1), " ".repeat(BUFFER_WIDTH));
}

#[test]
fn clear_row_blanks_one_row() {
    let mut w = Writer::new(fresh_buffer(0x0741), ColorMode::new(Color::WHITE, Color::BLACK));
    w.clear_row(3);
    assert_eq!(row_text(&w, 3), " ".repeat(BUFFER_WIDTH));
    assert_eq!(w.read_char(3, 0).color_mode.0, 0x0f);
    assert_eq!(w.read_char(2, 0).ascii_character, b'A');
    assert_eq!(w.read_char(4, 79).ascii_character, b'A');
}

#[test]
fn control_byte_becomes_question_mark() {
    let mut w = writer();
    w.write_string("\u{1}");
    let c = w.read_char(BUFFER_HEIGHT - 1, 0);
    assert_eq!(c.ascii_character, 0x3f);
    assert_ne!(c.ascii_character, 0x01);
}

#[test]
fn non_ascii_bytes_each_become_question_mark() {
    let mut w = writer();
    w.write_string("a\u{e9}b~\t");
    assert_eq!(w.column(), 6);
    assert_eq!(&row_text(&w, BUFFER_HEIGHT - 1)[..6], "a??b~?");
}

#[test]
fn empty_string_changes_nothing() {
    let mut w = writer();
    w.write_string("");
    assert_eq!(w.column(), 0);
    assert_eq!(w.read_char(BUFFER_HEIGHT - 1, 0).ascii_character, b' ');
    assert_eq!(w.color_mode(), ColorMode::new(Color::YELLOW, Color::BLACK));
}

#[test]
fn print_writes_rendered_text() {
    let mut w = writer();
    rustos::vga_buffer::_print(&mut w, "Lorem Ipsum!\n");
    assert!(row_text(&w, BUFFER_HEIGHT - 2).starts_with("Lorem Ipsum! "));
    assert_eq!(w.column(), 0);
}
