use ost::port::PortWrite;
use ost::vga::{Color, ColorCode, ScreenChar, Writer, BUFFER_HEIGHT, BUFFER_WIDTH};

fn writer() -> Writer {
    Writer::new(ColorCode::new(Color::Cyan, Color::Black), ColorCode::new(Color::Red, Color::Blue))
}

fn text_color() -> ColorCode {
    ColorCode::new(Color::Cyan, Color::Black)
}

fn bar_color() -> ColorCode {
    ColorCode::new(Color::Red, Color::Blue)
}

fn row_text(writer: &Writer, row: usize, len: usize) -> String {
    let mut text = String::new();
    for column in 0..len {
        text.push(char::from(writer.cell(row, column).unwrap().ascii_character));
    }
    text
}

fn cursor(writer: &Writer) -> (usize, usize) {
    (writer.row_position(), writer.column_position())
}

#[test]
fn default_cell_is_a_black_space() {
    assert_eq!(
        ScreenChar::default(),
        ScreenChar { ascii_character: b' ', color_code: ColorCode::new(Color::Black, Color::Black) }
    );
}

#[test]
fn new_writer_starts_below_the_status_row_on_an_empty_screen() {
    let writer = writer();
    assert_eq!(cursor(&writer), (1, 0));
    for row in 0..BUFFER_HEIGHT {
        for column in 0..BUFFER_WIDTH {
            assert_eq!(writer.cell(row, column), Some(ScreenChar::default()));
        }
    }
    assert_eq!(writer.cell(BUFFER_HEIGHT, 0), None);
    assert_eq!(writer.cell(0, BUFFER_WIDTH), None);
}

#[test]
fn println_output_lands_on_the_row_of_the_cursor() {
    let mut writer = writer();
    let s = "Some test string that fits on a single line";
    writer.write_str("\n");
    writer.write_str(s);
    writer.write_str("\n");
    let row = writer.row_position() - 1;
    assert_eq!(row, 2);
    assert_eq!(writer.cell(row, 0).unwrap().ascii_character, b'>');
    for (i, c) in s.chars().enumerate() {
        let screen_char = writer.cell(row, i + 1).unwrap();
        assert_eq!(char::from(screen_char.ascii_character), c);
        assert_eq!(screen_char.color_code, text_color());
    }
}

#[test]
fn write_str_moves_the_cursor_and_reports_it() {
    let mut writer = writer();
    let moved = writer.write_str("abc");
    assert_eq!(row_text(&writer, 1, 3), "abc");
    assert_eq!(cursor(&writer), (1, 3));
    assert_eq!(
        moved,
        vec![
            PortWrite { port: 0x3D4, value: 0x0F },
            PortWrite { port: 0x3D5, value: 83 },
            PortWrite { port: 0x3D4, value: 0x0E },
            PortWrite { port: 0x3D5, value: 0 },
        ]
    );
}

#[test]
fn cursor_position_is_split_into_low_and_high_byte() {
    let mut writer = writer();
    writer.write_str("\n\n\n");
    let moved = writer.write_str("x");
    assert_eq!(cursor(&writer), (4, 2));
    assert_eq!(moved[1], PortWrite { port: 0x3D5, value: (322 % 256) as u8 });
    assert_eq!(moved[3], PortWrite { port: 0x3D5, value: 1 });
}

#[test]
fn newline_prints_a_prompt() {
    let mut writer = writer();
    writer.write_str("a\nb");
    assert_eq!(row_text(&writer, 1, 1), "a");
    assert_eq!(row_text(&writer, 2, 2), ">b");
    assert_eq!(cursor(&writer), (2, 2));
}

#[test]
fn full_row_wraps_without_a_prompt() {
    let mut writer = writer();
    let line = "x".repeat(BUFFER_WIDTH);
    writer.write_str(&line);
    assert_eq!(cursor(&writer), (1, BUFFER_WIDTH));
    writer.write_str("y");
    assert_eq!(cursor(&writer), (2, 1));
    assert_eq!(row_text(&writer, 2, 1), "y");
    assert_eq!(row_text(&writer, 1, BUFFER_WIDTH), line);
}

#[test]
fn unprintable_bytes_are_replaced() {
    let mut writer = writer();
    writer.write_str("a\u{7f}\tö~ ");
    let cells: Vec<u8> = (0..7).map(|c| writer.cell(1, c).unwrap().ascii_character).collect();
    assert_eq!(cells, vec![b'a', 0xfe, 0xfe, 0xfe, 0xfe, b'~', b' ']);
}

#[test]
fn backspace_rubs_out_the_character_before_the_cursor() {
    let mut writer = writer();
    writer.write_str("ab\u{8}");
    assert_eq!(cursor(&writer), (1, 1));
    assert_eq!(writer.cell(1, 0).unwrap().ascii_character, b'a');
    assert_eq!(
        writer.cell(1, 1),
        Some(ScreenChar { ascii_character: b' ', color_code: text_color() })
    );
}

#[test]
fn backspace_at_the_start_of_a_row_does_nothing() {
    let mut writer = writer();
    writer.write_str("\u{8}\u{8}");
    assert_eq!(cursor(&writer), (1, 0));
    assert_eq!(writer.cell(1, 0), Some(ScreenChar::default()));
}

#[test]
fn control_byte_clears_the_screen() {
    let mut writer = writer();
    writer.write_time((1, 2, 3));
    writer.write_str("abc\ndef\u{12}");
    assert_eq!(cursor(&writer), (1, 0));
    let blank = ScreenChar { ascii_character: b' ', color_code: text_color() };
    for row in 0..BUFFER_HEIGHT {
        for column in 0..BUFFER_WIDTH {
            assert_eq!(writer.cell(row, column), Some(blank));
        }
    }
}

#[test]
fn last_row_scrolls_and_the_status_row_stays() {
    let mut writer = writer();
    writer.write_time((9, 8, 7));
    for row in 1..BUFFER_HEIGHT {
        let digit = char::from(b'a' + row as u8);
        writer.write_str(&digit.to_string());
        if row < BUFFER_HEIGHT - 1 {
            writer.write_str("\n");
        }
    }
    assert_eq!(cursor(&writer), (BUFFER_HEIGHT - 1, 2));
    assert_eq!(row_text(&writer, 1, 1), "b");
    assert_eq!(row_text(&writer, 2, 2), ">c");
    assert_eq!(row_text(&writer, 24, 2), ">y");
    writer.write_str("\n");
    assert_eq!(cursor(&writer), (BUFFER_HEIGHT - 1, 1));
    assert_eq!(row_text(&writer, 0, 9), " 09:08:07");
    assert_eq!(row_text(&writer, 1, 2), ">c");
    assert_eq!(row_text(&writer, 23, 2), ">y");
    assert_eq!(row_text(&writer, 24, 2), "> ");
    assert_eq!(
        writer.cell(24, 5),
        Some(ScreenChar { ascii_character: b' ', color_code: text_color() })
    );
}

#[test]
fn write_time_pads_to_two_digits() {
    let mut writer = writer();
    writer.write_time((5, 14, 7));
    assert_eq!(row_text(&writer, 0, 9), format!(" {:02}:{:02}:{:02}", 5, 14, 7));
    assert_eq!(row_text(&writer, 0, 9), " 05:14:07");
    for column in 1..9 {
        assert_eq!(writer.cell(0, column).unwrap().color_code, bar_color());
    }
    assert_eq!(writer.cell(0, 0), Some(ScreenChar::default()));
    assert_eq!(writer.cell(0, 9), Some(ScreenChar::default()));
    assert_eq!(cursor(&writer), (1, 0));
}

#[test]
fn write_time_shows_three_digits_where_there_are_three() {
    for time in [(0u8, 0u8, 0u8), (23, 59, 59), (100, 9, 255), (255, 255, 255), (30, 30, 30)] {
        let mut writer = writer();
        writer.write_time(time);
        let expected = format!("{:02}:{:02}:{:02}", time.0, time.1, time.2);
        assert_eq!(row_text(&writer, 0, expected.len() + 1), format!(" {}", expected));
    }
}

#[test]
fn write_str_at_leaves_the_cursor_alone() {
    let mut writer = writer();
    assert!(writer.write_str_at(78, 3, "abcd\nef"));
    assert_eq!(cursor(&writer), (1, 0));
    assert_eq!(writer.cell(3, 78).unwrap().ascii_character, b'a');
    assert_eq!(writer.cell(3, 79).unwrap().ascii_character, b'b');
    assert_eq!(row_text(&writer, 4, 2), "cd");
    assert_eq!(row_text(&writer, 5, 2), "ef");
    assert_eq!(writer.cell(5, 0).unwrap().color_code, text_color());
}

#[test]
fn write_str_at_may_write_into_the_status_row() {
    let mut writer = writer();
    assert!(writer.write_str_at(0, 0, "top"));
    assert_eq!(row_text(&writer, 0, 3), "top");
}

#[test]
fn write_str_at_stops_where_the_screen_ends() {
    let mut writer = writer();
    assert!(!writer.write_str_at(79, 24, "ab"));
    assert_eq!(writer.cell(24, 79).unwrap().ascii_character, b'a');
    assert!(!writer.write_str_at(0, 25, "a"));
    assert!(writer.write_str_at(0, 25, ""));
    assert!(writer.write_str_at(0, 24, "z\n\n\n"));
    assert!(!writer.write_str_at(0, 24, "z\ny"));
    assert!(writer.write_str_at(200, 23, "w"));
    assert_eq!(writer.cell(24, 0).unwrap().ascii_character, b'w');
}
