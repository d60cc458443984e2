use neblogos::cell::{blank_buffer, Buffer, ScreenChar};
use neblogos::color::{Color, ColorCode};
use neblogos::screen::{NEWLINE, OUT_OF_BOUNDS_MESSAGE};
use neblogos::vga_buffer::Writer;

fn white_on_black() -> ColorCode {
    ColorCode::new(Color::White, Color::Black)
}

fn cell(byte: u8, color: ColorCode) -> Option<ScreenChar> {
    Some(ScreenChar { ascii_character: byte, color_code: color })
}

fn row_text(writer: &Writer, row: usize) -> Vec<u8> {
    (0..80).map(|col| writer.read_cell(col, row).unwrap().ascii_character).collect()
}

fn padded(text: &[u8]) -> Vec<u8> {
    let mut row = text.to_vec();
    row.resize(80, b' ');
    row
}

fn fresh() -> Buffer {
    blank_buffer(ColorCode::new(Color::LightGray, Color::Black))
}

#[test]
fn new_starts_at_column_zero_in_white_on_black() {
    let mut buffer = fresh();
    let writer = Writer::new(&mut buffer);
    assert_eq!(writer.column_position(), 0);
    assert_eq!(writer.color_code(), white_on_black());
    assert_eq!(writer.color_code().to_num(), 0x0f);
}

#[test]
fn new_leaves_the_grid_as_it_is() {
    let mut buffer = fresh();
    buffer[3][7].write(0x2a58);
    let writer = Writer::new(&mut buffer);
    assert_eq!(writer.read_cell(7, 3), cell(b'X', ColorCode::from_num(&0x2a)));
    assert_eq!(writer.read_cell(0, 0), cell(b' ', ColorCode::from_num(&0x07)));
}

#[test]
fn write_byte_lands_on_the_bottom_row() {
    let mut buffer = fresh();
    let mut writer = Writer::new(&mut buffer);
    writer.write_byte(b'a');
    assert_eq!(writer.column_position(), 1);
    assert_eq!(writer.read_cell(0, 24), cell(b'a', white_on_black()));
    assert_eq!(writer.read_cell(1, 24), cell(b' ', ColorCode::from_num(&0x07)));
    drop(writer);
    assert_eq!(buffer[24][0].read(), 0x0f61);
}

#[test]
fn short_line_advances_cursor_by_its_length() {
    let text = b"Hello World!";
    let mut buffer = fresh();
    let mut writer = Writer::new(&mut buffer);
    for &byte in text.iter() {
        writer.write_byte(byte);
    }
    assert_eq!(writer.column_position(), text.len());
    for (col, &byte) in text.iter().enumerate() {
        assert_eq!(writer.read_cell(col, 24), cell(byte, white_on_black()));
    }
    for row in 0..24 {
        assert_eq!(row_text(&writer, row), padded(b""));
    }
}

#[test]
fn seventy_nine_bytes_do_not_scroll() {
    let mut buffer = fresh();
    buffer[23][0].write(0x0f2a);
    let mut writer = Writer::new(&mut buffer);
    for i in 0..79u8 {
        writer.write_byte(b'0' + i % 10);
    }
    assert_eq!(writer.column_position(), 79);
    assert_eq!(writer.read_cell(0, 23), cell(b'*', white_on_black()));
    assert_eq!(writer.read_cell(78, 24), cell(b'8', white_on_black()));
    assert_eq!(writer.read_cell(79, 24), cell(b' ', ColorCode::from_num(&0x07)));
}

#[test]
fn full_row_waits_for_the_next_byte_to_scroll() {
    let mut buffer = fresh();
    buffer[0][0].write(0x0f54);
    buffer[1][0].write(0x0f55);
    let mut writer = Writer::new(&mut buffer);
    let line: Vec<u8> = (0..80u8).map(|i| b'a' + i % 26).collect();
    for &byte in line.iter() {
        writer.write_byte(byte);
    }
    assert_eq!(writer.column_position(), 80);
    assert_eq!(row_text(&writer, 24), line);
    assert_eq!(writer.read_cell(0, 0).unwrap().ascii_character, b'T');

    writer.write_byte(b'!');
    assert_eq!(writer.column_position(), 1);
    assert_eq!(writer.read_cell(0, 0).unwrap().ascii_character, b'U');
    assert_eq!(row_text(&writer, 23), line);
    assert_eq!(row_text(&writer, 24), padded(b"!"));
    for col in 0..80 {
        assert_eq!(writer.read_cell(col, 23).unwrap().color_code, white_on_black());
        assert_eq!(writer.read_cell(col, 24).unwrap().color_code, white_on_black());
    }
}

#[test]
fn newline_scrolls_and_returns_the_cursor() {
    let mut buffer = fresh();
    let mut writer = Writer::new(&mut buffer);
    writer.write_str("one");
    writer.write_byte(NEWLINE);
    assert_eq!(writer.column_position(), 0);
    assert_eq!(row_text(&writer, 23), padded(b"one"));
    assert_eq!(row_text(&writer, 24), padded(b""));
    writer.write_str("two\nthree");
    assert_eq!(writer.column_position(), 5);
    assert_eq!(row_text(&writer, 22), padded(b"one"));
    assert_eq!(row_text(&writer, 23), padded(b"two"));
    assert_eq!(row_text(&writer, 24), padded(b"three"));
}

#[test]
fn newline_blanks_the_bottom_row_in_the_current_attribute() {
    let pink = ColorCode::from_num(&13);
    let mut buffer = fresh();
    let mut writer = Writer::new(&mut buffer);
    writer.set_color(pink);
    writer.write_byte(b'\n');
    for col in 0..80 {
        assert_eq!(writer.read_cell(col, 24), cell(b' ', pink));
        assert_eq!(writer.read_cell(col, 23), cell(b' ', ColorCode::from_num(&0x07)));
    }
}

#[test]
fn scroll_discards_the_top_row() {
    let mut buffer = fresh();
    let mut writer = Writer::new(&mut buffer);
    for row in 0..25usize {
        writer.set_pos(0, row, char::from(b'A' + row as u8));
    }
    writer.write_byte(b'\n');
    for row in 0..24usize {
        assert_eq!(writer.read_cell(0, row).unwrap().ascii_character, b'B' + row as u8);
    }
    assert_eq!(writer.read_cell(0, 24).unwrap().ascii_character, b' ');
}

#[test]
fn set_color_is_not_retroactive() {
    let mut buffer = fresh();
    let mut writer = Writer::new(&mut buffer);
    writer.write_byte(b'a');
    let code = ColorCode::new(Color::Yellow, Color::Blue);
    writer.set_color(code);
    assert_eq!(writer.color_code(), code);
    assert_eq!(writer.column_position(), 1);
    writer.write_byte(b'b');
    assert_eq!(writer.read_cell(0, 24), cell(b'a', white_on_black()));
    assert_eq!(writer.read_cell(1, 24), cell(b'b', code));
}

#[test]
fn write_str_writes_utf8_bytes_in_order() {
    let mut buffer = fresh();
    let mut writer = Writer::new(&mut buffer);
    writer.write_str("h\u{e9}");
    assert_eq!(writer.column_position(), 3);
    assert_eq!(writer.read_cell(0, 24).unwrap().ascii_character, b'h');
    assert_eq!(writer.read_cell(1, 24).unwrap().ascii_character, 0xc3);
    assert_eq!(writer.read_cell(2, 24).unwrap().ascii_character, 0xa9);
}

#[test]
fn write_str_of_nothing_changes_nothing() {
    let mut buffer = fresh();
    let mut writer = Writer::new(&mut buffer);
    writer.write_str("ab");
    writer.write_str("");
    assert_eq!(writer.column_position(), 2);
    assert_eq!(row_text(&writer, 24), padded(b"ab"));
}

#[test]
fn set_pos_writes_the_cell_and_keeps_the_cursor() {
    let mut buffer = fresh();
    let mut writer = Writer::new(&mut buffer);
    writer.write_str("ab");
    writer.set_pos(78, 24, 'H');
    writer.set_pos(79, 24, 'I');
    writer.set_pos(0, 0, 'Z');
    assert_eq!(writer.column_position(), 2);
    assert_eq!(writer.read_cell(78, 24), cell(b'H', white_on_black()));
    assert_eq!(writer.read_cell(79, 24), cell(b'I', white_on_black()));
    assert_eq!(writer.read_cell(0, 0), cell(b'Z', white_on_black()));
    assert_eq!(writer.read_cell(0, 24), cell(b'a', white_on_black()));
    assert_eq!(writer.read_cell(1, 0), cell(b' ', ColorCode::from_num(&0x07)));
}

#[test]
fn set_pos_cuts_the_character_to_a_byte() {
    let mut buffer = fresh();
    let mut writer = Writer::new(&mut buffer);
    writer.set_pos(1, 1, '\u{e9}');
    writer.set_pos(2, 1, '\u{20ac}');
    writer.set_pos(3, 1, '\u{1f600}');
    assert_eq!(writer.read_cell(1, 1).unwrap().ascii_character, 0xe9);
    assert_eq!(writer.read_cell(2, 1).unwrap().ascii_character, 0xac);
    assert_eq!(writer.read_cell(3, 1).unwrap().ascii_character, 0x00);
}

#[test]
fn message_is_the_fixed_sentence() {
    assert_eq!(OUT_OF_BOUNDS_MESSAGE, "co-ordinates outside the framebuffer");
    assert_eq!(OUT_OF_BOUNDS_MESSAGE.len(), 36);
    assert!(!OUT_OF_BOUNDS_MESSAGE.bytes().any(|byte| byte == NEWLINE));
}

#[test]
fn set_pos_outside_the_grid_prints_the_message() {
    for (x, y) in [(80usize, 0usize), (0, 25), (80, 25), (usize::MAX, 3), (3, usize::MAX)] {
        let mut buffer = fresh();
        let mut writer = Writer::new(&mut buffer);
        writer.write_str("ab");
        writer.set_pos(x, y, 'Q');
        assert_eq!(writer.column_position(), 0);
        let mut expected = b"ab".to_vec();
        expected.extend_from_slice(OUT_OF_BOUNDS_MESSAGE.as_bytes());
        assert_eq!(row_text(&writer, 23), padded(&expected));
        assert_eq!(row_text(&writer, 24), padded(b""));
        for row in 0..25 {
            assert!(!row_text(&writer, row).contains(&b'Q'));
        }
    }
}

#[test]
fn set_pos_outside_is_the_same_as_writing_the_message() {
    let mut one = fresh();
    let mut two = fresh();
    let mut addressed = Writer::new(&mut one);
    let mut written = Writer::new(&mut two);
    for writer in [&mut addressed, &mut written] {
        writer.write_str("0123456789012345678901234567890123456789012345678901234567890123456");
    }
    addressed.set_pos(100, 100, 'x');
    for byte in OUT_OF_BOUNDS_MESSAGE.bytes() {
        written.write_byte(byte);
    }
    written.write_byte(b'\n');
    assert_eq!(addressed.column_position(), written.column_position());
    for row in 0..25 {
        for col in 0..80 {
            assert_eq!(addressed.read_cell(col, row), written.read_cell(col, row));
        }
    }
    assert_eq!(addressed.column_position(), 0);
    assert_eq!(
        row_text(&addressed, 22),
        b"0123456789012345678901234567890123456789012345678901234567890123456co-ordinates "
    );
    assert_eq!(row_text(&addressed, 23), padded(b"outside the framebuffer"));
    assert_eq!(row_text(&addressed, 24), padded(b""));
}

#[test]
fn clear_screen_blanks_every_row() {
    let code = ColorCode::new(Color::LightGreen, Color::Magenta);
    let mut buffer = fresh();
    let mut writer = Writer::new(&mut buffer);
    for row in 0..25 {
        writer.set_pos(row, row, '#');
    }
    writer.write_str("text");
    writer.set_color(code);
    writer.clear_screen();
    assert_eq!(writer.column_position(), 0);
    assert_eq!(writer.color_code(), code);
    for row in 0..25 {
        for col in 0..80 {
            assert_eq!(writer.read_cell(col, row), cell(b' ', code));
        }
    }
    drop(writer);
    assert!(buffer.iter().all(|row| row.iter().all(|cell| cell.read() == 0x5a20)));
}

#[test]
fn read_cell_outside_the_grid_is_none() {
    let mut buffer = fresh();
    let writer = Writer::new(&mut buffer);
    assert_eq!(writer.read_cell(80, 0), None);
    assert_eq!(writer.read_cell(0, 25), None);
    assert!(writer.read_cell(79, 24).is_some());
}
