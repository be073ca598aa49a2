//! The text display: colours, character cells, and the writer that keeps the
//! cursor and the picture of the screen.

use vstd::prelude::*;
use vstd::string::StringSliceAdditionalSpecFns;
use crate::port::PortWrite;

verus! {

/// Number of rows of the screen.
pub const BUFFER_HEIGHT: usize = 25;

/// Number of columns of the screen.
pub const BUFFER_WIDTH: usize = 80;

/// Number of character cells of the screen.
pub const BUFFER_CELLS: usize = 2000;

/// The display controller's index port.
pub const CURSOR_INDEX_PORT: u16 = 0x3D4;

/// The display controller's data port.
pub const CURSOR_DATA_PORT: u16 = 0x3D5;

/// The byte shown for what is not printable.
pub const UNPRINTABLE: u8 = 0xfe;

/// The sixteen colours of the text display.
#[allow(dead_code)]
#[derive(Debug, Clone, Copy, PartialEq, Eq, Structural)]
pub enum Color {
    Black,
    Blue,
    Green,
    Cyan,
    Red,
    Magenta,
    Brown,
    LightGray,
    DarkGray,
    LightBlue,
    LightGreen,
    LightCyan,
    LightRed,
    Pink,
    Yellow,
    White,
}

impl Color {
    /// The number that the display knows the colour by.
    pub open spec fn code(self) -> u8 {
        match self {
            Color::Black => 0,
            Color::Blue => 1,
            Color::Green => 2,
            Color::Cyan => 3,
            Color::Red => 4,
            Color::Magenta => 5,
            Color::Brown => 6,
            Color::LightGray => 7,
            Color::DarkGray => 8,
            Color::LightBlue => 9,
            Color::LightGreen => 10,
            Color::LightCyan => 11,
            Color::LightRed => 12,
            Color::Pink => 13,
            Color::Yellow => 14,
            Color::White => 15,
        }
    }

    /// The number that the display knows the colour by.
    pub fn as_u8(self) -> (code: u8)
        ensures
            code == self.code(),
    {
        match self {
            Color::Black => 0,
            Color::Blue => 1,
            Color::Green => 2,
            Color::Cyan => 3,
            Color::Red => 4,
            Color::Magenta => 5,
            Color::Brown => 6,
            Color::LightGray => 7,
            Color::DarkGray => 8,
            Color::LightBlue => 9,
            Color::LightGreen => 10,
            Color::LightCyan => 11,
            Color::LightRed => 12,
            Color::Pink => 13,
            Color::Yellow => 14,
            Color::White => 15,
        }
    }
}

/// A foreground and a background colour packed into the attribute byte of a
/// character cell: background in the high nibble, foreground in the low one.
#[derive(Debug, Clone, Copy, PartialEq, Eq, Structural)]
pub struct ColorCode(pub u8);

impl ColorCode {
    /// The attribute byte for `foreground` on `background`.
    pub fn new(foreground: Color, background: Color) -> (code: ColorCode)
        ensures
            code.0 == background.code() * 16 + foreground.code(),
            code.0 == (background.code() << 4 | foreground.code()),
    {
        let high: u8 = background.as_u8();
        let low: u8 = foreground.as_u8();
        assert((high << 4 | low) == high * 16 + low) by (bit_vector)
            requires
                high < 16,
                low < 16,
        ;
        ColorCode(high << 4 | low)
    }
}

/// One character cell of the screen.
#[derive(Debug, Clone, Copy, PartialEq, Eq, Structural)]
pub struct ScreenChar {
    pub ascii_character: u8,
    pub color_code: ColorCode,
}

/// The cell that an untouched screen is made of: a space, black on black.
pub open spec fn empty_cell() -> ScreenChar {
    ScreenChar { ascii_character: 0x20, color_code: ColorCode(0) }
}

impl Default for ScreenChar {
    fn default() -> (cell: ScreenChar)
        ensures
            cell == empty_cell(),
    {
        ScreenChar { ascii_character: 0x20, color_code: ColorCode::new(Color::Black, Color::Black) }
    }
}

/// A writer as contracts see it: the cursor, the two colours and the cells of
/// the screen, row after row.
pub struct Screen {
    pub column: int,
    pub row: int,
    pub color: ColorCode,
    pub bar: ColorCode,
    pub cells: Seq<ScreenChar>,
}

/// The decimal digits of `value` as characters, with a leading zero if there
/// would be one digit only.
pub open spec fn two_digits(value: u8) -> Seq<u8> {
    if value >= 100 {
        seq![(0x30 + value / 100) as u8, (0x30 + (value / 10) % 10) as u8, (0x30 + value % 10) as u8]
    } else {
        seq![(0x30 + value / 10) as u8, (0x30 + value % 10) as u8]
    }
}

/// The characters by which a time of day is shown: hour, minute and second,
/// two digits each at least, with colons between.
pub open spec fn time_text(time: (u8, u8, u8)) -> Seq<u8> {
    two_digits(time.0) + seq![0x3au8] + two_digits(time.1) + seq![0x3au8] + two_digits(time.2)
}

impl Screen {
    /// Validity: all cells are there, the cursor is below the status row and
    /// at most one column past the end of its row.
    pub open spec fn wf(self) -> bool {
        &&& self.cells.len() == BUFFER_CELLS
        &&& 1 <= self.row < BUFFER_HEIGHT
        &&& 0 <= self.column <= BUFFER_WIDTH
    }

    /// The cell at `row` and `column`.
    pub open spec fn at(self, row: int, column: int) -> ScreenChar {
        self.cells[row * BUFFER_WIDTH + column]
    }

    /// A space in the writer's colour.
    pub open spec fn blank(self) -> ScreenChar {
        ScreenChar { ascii_character: 0x20, color_code: self.color }
    }

    /// The screen with `cell` put at `row` and `column`.
    pub open spec fn with_cell(self, row: int, column: int, cell: ScreenChar) -> Screen {
        Screen { cells: self.cells.update(row * BUFFER_WIDTH + column, cell), ..self }
    }

    /// The cells after scrolling: the status row stays, every row below it
    /// but the last takes the cells of the row beneath, and the last row is
    /// blank.
    pub open spec fn scrolled(self) -> Seq<ScreenChar> {
        Seq::new(
            BUFFER_CELLS as nat,
            |i: int|
                if i < BUFFER_WIDTH {
                    self.cells[i]
                } else if i < BUFFER_CELLS - BUFFER_WIDTH {
                    self.cells[i + BUFFER_WIDTH]
                } else {
                    self.blank()
                },
        )
    }

    /// The screen after the cursor moved to the start of the next row,
    /// scrolling if it was on the last one.
    pub open spec fn wrapped(self) -> Screen {
        if self.row == BUFFER_HEIGHT - 1 {
            Screen { cells: self.scrolled(), column: 0, ..self }
        } else {
            Screen { row: self.row + 1, column: 0, ..self }
        }
    }

    /// The screen after `byte`, which is no newline, was put at the cursor:
    /// a full row is wrapped first, and the cursor moves one column on.
    pub open spec fn typed(self, byte: u8) -> Screen {
        let start = if self.column >= BUFFER_WIDTH { self.wrapped() } else { self };
        Screen {
            column: start.column + 1,
            ..start.with_cell(
                start.row,
                start.column,
                ScreenChar { ascii_character: byte, color_code: self.color },
            )
        }
    }

    /// The screen after a new line, which begins with the prompt `>` if
    /// `print_prompt` says so.
    pub open spec fn new_line(self, print_prompt: bool) -> Screen {
        if print_prompt {
            self.wrapped().typed(0x3e)
        } else {
            self.wrapped()
        }
    }

    /// The screen after `byte` was written: a newline starts a new line with
    /// a prompt, any other byte is put at the cursor.
    pub open spec fn written(self, byte: u8) -> Screen {
        if byte == 0x0a {
            self.new_line(true)
        } else {
            self.typed(byte)
        }
    }

    /// The screen with row `row` blank.
    pub open spec fn with_row_cleared(self, row: int) -> Screen {
        Screen {
            cells: Seq::new(
                self.cells.len(),
                |i: int|
                    if row * BUFFER_WIDTH <= i < (row + 1) * BUFFER_WIDTH {
                        self.blank()
                    } else {
                        self.cells[i]
                    },
            ),
            ..self
        }
    }

    /// The screen after it was cleared: every cell blank, the cursor at the
    /// start of the first row below the status row.
    pub open spec fn cleared(self) -> Screen {
        Screen {
            cells: Seq::new(BUFFER_CELLS as nat, |i: int| self.blank()),
            column: 0,
            row: 1,
            ..self
        }
    }

    /// The screen after the character before the cursor was rubbed out, if
    /// the cursor is not at the start of its row.
    pub open spec fn rubbed(self) -> Screen {
        if self.column >= 1 {
            Screen { column: self.column - 1, ..self.with_cell(self.row, self.column - 1, self.blank()) }
        } else {
            self
        }
    }

    /// The screen after one byte of a string: 0x12 clears the screen, 0x08
    /// rubs out, printable characters and newlines are written, and anything
    /// else is written as [`UNPRINTABLE`].
    pub open spec fn fed(self, byte: u8) -> Screen {
        if byte == 0x12 {
            self.cleared()
        } else if byte == 0x08 {
            self.rubbed()
        } else if 0x20 <= byte <= 0x7e || byte == 0x0a {
            self.written(byte)
        } else {
            self.written(UNPRINTABLE)
        }
    }

    /// The screen after the bytes of a string, one after the other.
    pub open spec fn fed_all(self, bytes: Seq<u8>) -> Screen
        decreases bytes.len(),
    {
        if bytes.len() == 0 {
            self
        } else {
            self.fed(bytes[0]).fed_all(bytes.subrange(1, bytes.len() as int))
        }
    }

    /// The position of the cursor, counted in cells from the top left.
    pub open spec fn cursor(self) -> int {
        self.row * BUFFER_WIDTH + self.column
    }

    /// The port writes that move the hardware cursor to the writer's cursor:
    /// the low byte of its position, then the high byte.
    pub open spec fn cursor_writes(self) -> Seq<PortWrite> {
        seq![
            PortWrite { port: CURSOR_INDEX_PORT, value: 0x0F },
            PortWrite { port: CURSOR_DATA_PORT, value: (self.cursor() % 256) as u8 },
            PortWrite { port: CURSOR_INDEX_PORT, value: 0x0E },
            PortWrite { port: CURSOR_DATA_PORT, value: (self.cursor() / 256) as u8 },
        ]
    }

    /// The screen with the characters `text` put into the status row from
    /// column `column` on, in the bar colour.
    pub open spec fn with_bar_text(self, column: int, text: Seq<u8>) -> Screen
        decreases text.len(),
    {
        if text.len() == 0 {
            self
        } else {
            self.with_cell(
                0,
                column,
                ScreenChar { ascii_character: text[0], color_code: self.bar },
            ).with_bar_text(column + 1, text.subrange(1, text.len() as int))
        }
    }

    /// The screen after a time of day was put into the status row, from the
    /// second column on.
    pub open spec fn with_time(self, time: (u8, u8, u8)) -> Screen {
        self.with_bar_text(1, time_text(time))
    }
}

/// Where a text that is put at a given place has got to.
pub struct Placed {
    pub cells: Seq<ScreenChar>,
    pub column: int,
    pub row: int,
    /// Whether every character so far found a cell on the screen.
    pub fits: bool,
}

impl Placed {
    /// The state after one more byte: a newline moves to the start of the
    /// next row, any other byte is put down, on the next row if the row is
    /// full. Once the text has left the screen nothing more is put down.
    pub open spec fn put(self, byte: u8, color: ColorCode) -> Placed {
        if !self.fits {
            self
        } else if byte == 0x0a {
            Placed { column: 0, row: if self.row < BUFFER_HEIGHT { self.row + 1 } else { self.row }, ..self }
        } else {
            let column = if self.column >= BUFFER_WIDTH { 0 } else { self.column };
            let row = if self.column >= BUFFER_WIDTH && self.row < BUFFER_HEIGHT {
                self.row + 1
            } else {
                self.row
            };
            if row >= BUFFER_HEIGHT {
                Placed { column, row, fits: false, ..self }
            } else {
                Placed {
                    cells: self.cells.update(
                        row * BUFFER_WIDTH + column,
                        ScreenChar { ascii_character: byte, color_code: color },
                    ),
                    column: column + 1,
                    row,
                    fits: true,
                }
            }
        }
    }

    /// The state after the bytes of a text, one after the other.
    pub open spec fn put_all(self, bytes: Seq<u8>, color: ColorCode) -> Placed
        decreases bytes.len(),
    {
        if bytes.len() == 0 {
            self
        } else {
            self.put(bytes[0], color).put_all(bytes.subrange(1, bytes.len() as int), color)
        }
    }
}

/// The writer of the text display. It keeps the picture of the screen, which
/// its caller copies to the display's memory, and the cursor.
pub struct Writer {
    column_position: usize,
    row_position: usize,
    color_code: ColorCode,
    bar_color: ColorCode,
    cells: Vec<ScreenChar>,
}

impl View for Writer {
    type V = Screen;

    closed spec fn view(&self) -> Screen {
        Screen {
            column: self.column_position as int,
            row: self.row_position as int,
            color: self.color_code,
            bar: self.bar_color,
            cells: self.cells@,
        }
    }
}

/// The characters of `value` in decimal, two at least.
fn push_two_digits(text: &mut Vec<u8>, value: u8)
    ensures
        final(text)@ == old(text)@ + two_digits(value),
{
    if value >= 100 {
        text.push(0x30 + value / 100);
        text.push(0x30 + (value / 10) % 10);
        text.push(0x30 + value % 10);
    } else {
        text.push(0x30 + value / 10);
        text.push(0x30 + value % 10);
    }
    assert(text@ =~= old(text)@ + two_digits(value));
}

impl Writer {
    /// Validity of a writer: that of its screen.
    pub open spec fn wf(&self) -> bool {
        self@.wf()
    }

    /// A writer with the cursor at the start of the first row below the
    /// status row, on a screen of empty cells.
    pub fn new(color_code: ColorCode, bar_color: ColorCode) -> (writer: Writer)
        ensures
            writer.wf(),
            writer@ == (Screen {
                column: 0,
                row: 1,
                color: color_code,
                bar: bar_color,
                cells: Seq::new(BUFFER_CELLS as nat, |i: int| empty_cell()),
            }),
    {
        let mut cells: Vec<ScreenChar> = Vec::new();
        while cells.len() < BUFFER_CELLS
            invariant
                cells.len() <= BUFFER_CELLS,
                forall|i: int| 0 <= i < cells.len() ==> #[trigger] cells@[i] == empty_cell(),
            decreases BUFFER_CELLS - cells.len(),
        {
            cells.push(ScreenChar::default());
        }
        assert(cells@ =~= Seq::new(BUFFER_CELLS as nat, |i: int| empty_cell()));
        Writer { column_position: 0, row_position: 1, color_code, bar_color, cells }
    }

    /// The column of the cursor.
    pub fn column_position(&self) -> (column: usize)
        ensures
            column == self@.column,
    {
        self.column_position
    }

    /// The row of the cursor.
    pub fn row_position(&self) -> (row: usize)
        ensures
            row == self@.row,
    {
        self.row_position
    }

    /// The cell at `row` and `column`, or `None` if the screen has no such
    /// cell.
    pub fn cell(&self, row: usize, column: usize) -> (cell: Option<ScreenChar>)
        requires
            self.wf(),
        ensures
            cell == (if row < BUFFER_HEIGHT && column < BUFFER_WIDTH {
                Some(self@.at(row as int, column as int))
            } else {
                None
            }),
    {
        if row < BUFFER_HEIGHT && column < BUFFER_WIDTH {
            Some(self.cells[row * BUFFER_WIDTH + column])
        } else {
            None
        }
    }

    /// Writes a string at the cursor, byte by byte: 0x12 clears the screen,
    /// 0x08 rubs out the character before the cursor, printable characters
    /// and newlines are written, anything else is written as
    /// [`UNPRINTABLE`]. Returns the port writes that move the hardware
    /// cursor to where the writer's cursor is now.
    pub fn write_str(&mut self, s: &str) -> (cursor: Vec<PortWrite>)
        requires
            old(self).wf(),
        ensures
            final(self).wf(),
            final(self)@ == old(self)@.fed_all(s.spec_bytes()),
            cursor@ == final(self)@.cursor_writes(),
    {
        let bytes: &[u8] = s.as_bytes();
        let mut at: usize = 0;
        assert(bytes@.subrange(0, bytes@.len() as int) =~= bytes@);
        while at < bytes.len()
            invariant
                self.wf(),
                at <= bytes.len(),
                old(self)@.fed_all(bytes@) == self@.fed_all(bytes@.subrange(at as int, bytes@.len() as int)),
            decreases bytes.len() - at,
        {
            let byte: u8 = bytes[at];
            let ghost rest = bytes@.subrange(at as int, bytes@.len() as int);
            assert(rest.subrange(1, rest.len() as int) == bytes@.subrange(
                at + 1,
                bytes@.len() as int,
            ));
            if byte == 0x12 {
                self.cls();
            } else if byte == 0x08 {
                self.rub_one_out();
            } else if (0x20 <= byte && byte <= 0x7e) || byte == 0x0a {
                self.write_byte(byte);
            } else {
                self.write_byte(UNPRINTABLE);
            }
            at = at + 1;
        }
        self.update_cursor()
    }

    fn write_byte(&mut self, byte: u8)
        requires
            old(self).wf(),
        ensures
            final(self).wf(),
            final(self)@ == old(self)@.written(byte),
    {
        if byte == 0x0a {
            self.new_line(true);
        } else {
            self.type_byte(byte);
        }
    }

    fn type_byte(&mut self, byte: u8)
        requires
            old(self).wf(),
            byte != 0x0a,
        ensures
            final(self).wf(),
            final(self)@ == old(self)@.typed(byte),
    {
        if self.column_position >= BUFFER_WIDTH {
            self.wrap();
        }
        let row: usize = self.row_position;
        let col: usize = self.column_position;
        let color_code: ColorCode = self.color_code;
        self.cells.set(row * BUFFER_WIDTH + col, ScreenChar { ascii_character: byte, color_code });
        self.column_position = col + 1;
    }

    fn wrap(&mut self)
        requires
            old(self).wf(),
        ensures
            final(self).wf(),
            final(self)@ == old(self)@.wrapped(),
    {
        if self.row_position == BUFFER_HEIGHT - 1 {
            let mut at: usize = BUFFER_WIDTH;
            while at < BUFFER_CELLS - BUFFER_WIDTH
                invariant
                    BUFFER_WIDTH <= at <= BUFFER_CELLS - BUFFER_WIDTH,
                    self.cells.len() == BUFFER_CELLS,
                    self.column_position == old(self).column_position,
                    self.row_position == old(self).row_position,
                    self.color_code == old(self).color_code,
                    self.bar_color == old(self).bar_color,
                    forall|i: int|
                        0 <= i < BUFFER_CELLS ==> #[trigger] self.cells@[i] == (if BUFFER_WIDTH <= i
                            < at {
                            old(self).cells@[i + BUFFER_WIDTH]
                        } else {
                            old(self).cells@[i]
                        }),
                decreases BUFFER_CELLS - at,
            {
                let below: ScreenChar = self.cells[at + BUFFER_WIDTH];
                self.cells.set(at, below);
                at = at + 1;
            }
            self.clear_row(BUFFER_HEIGHT - 1);
            self.column_position = 0;
            assert(self@.cells =~= old(self)@.scrolled());
        } else {
            self.row_position = self.row_position + 1;
            self.column_position = 0;
        }
    }

    fn new_line(&mut self, print_prompt: bool)
        requires
            old(self).wf(),
        ensures
            final(self).wf(),
            final(self)@ == old(self)@.new_line(print_prompt),
    {
        self.wrap();
        if print_prompt {
            self.type_byte(0x3e);
        }
    }

    fn blank(&self) -> (cell: ScreenChar)
        ensures
            cell == self@.blank(),
    {
        ScreenChar { ascii_character: 0x20, color_code: self.color_code }
    }

    fn clear_row(&mut self, row: usize)
        requires
            old(self).cells.len() == BUFFER_CELLS,
            row < BUFFER_HEIGHT,
        ensures
            final(self)@ == old(self)@.with_row_cleared(row as int),
            final(self).cells.len() == BUFFER_CELLS,
    {
        let mut col: usize = 0;
        while col < BUFFER_WIDTH
            invariant
                col <= BUFFER_WIDTH,
                row < BUFFER_HEIGHT,
                self.cells.len() == BUFFER_CELLS,
                self.column_position == old(self).column_position,
                self.row_position == old(self).row_position,
                self.color_code == old(self).color_code,
                self.bar_color == old(self).bar_color,
                forall|i: int|
                    0 <= i < BUFFER_CELLS ==> #[trigger] self.cells@[i] == (if row * BUFFER_WIDTH <= i
                        < row * BUFFER_WIDTH + col {
                        old(self)@.blank()
                    } else {
                        old(self).cells@[i]
                    }),
            decreases BUFFER_WIDTH - col,
        {
            let blank: ScreenChar = self.blank();
            self.cells.set(row * BUFFER_WIDTH + col, blank);
            col = col + 1;
        }
        assert(self@.cells =~= old(self)@.with_row_cleared(row as int).cells);
    }

    fn cls(&mut self)
        requires
            old(self).wf(),
        ensures
            final(self).wf(),
            final(self)@ == old(self)@.cleared(),
    {
        let mut row: usize = 0;
        while row < BUFFER_HEIGHT
            invariant
                row <= BUFFER_HEIGHT,
                self.cells.len() == BUFFER_CELLS,
                self.column_position == old(self).column_position,
                self.row_position == old(self).row_position,
                self.color_code == old(self).color_code,
                self.bar_color == old(self).bar_color,
                forall|i: int|
                    0 <= i < BUFFER_CELLS ==> #[trigger] self.cells@[i] == (if i < row * BUFFER_WIDTH {
                        old(self)@.blank()
                    } else {
                        old(self).cells@[i]
                    }),
            decreases BUFFER_HEIGHT - row,
        {
            self.clear_row(row);
            row = row + 1;
        }
        self.column_position = 0;
        self.row_position = 1;
        assert(self@.cells =~= old(self)@.cleared().cells);
    }

    fn rub_one_out(&mut self)
        requires
            old(self).wf(),
        ensures
            final(self).wf(),
            final(self)@ == old(self)@.rubbed(),
    {
        if self.column_position >= 1 {
            let row: usize = self.row_position;
            let col: usize = self.column_position - 1;
            let blank: ScreenChar = self.blank();
            self.cells.set(row * BUFFER_WIDTH + col, blank);
            self.column_position = col;
        }
    }

    /// Writes a text at `col` and `row` without moving the cursor: a newline
    /// goes to the start of the next row, and a full row is followed by the
    /// next one. Nothing is put down once the text has left the screen;
    /// returns whether all of it found room.
    pub fn write_str_at(&mut self, col: usize, row: usize, s: &str) -> (fits: bool)
        requires
            old(self).wf(),
        ensures
            final(self).wf(),
            ({
                let placed = (Placed {
                    cells: old(self)@.cells,
                    column: col as int,
                    row: row as int,
                    fits: true,
                }).put_all(s.spec_bytes(), old(self)@.color);
                &&& fits == placed.fits
                &&& final(self)@ == (Screen { cells: placed.cells, ..old(self)@ })
            }),
    {
        let bytes: &[u8] = s.as_bytes();
        let mut col: usize = col;
        let mut row: usize = row;
        let mut fits: bool = true;
        let mut at: usize = 0;
        let ghost start = Placed {
            cells: old(self)@.cells,
            column: col as int,
            row: row as int,
            fits: true,
        };
        let ghost color = old(self)@.color;
        assert(bytes@.subrange(0, bytes@.len() as int) =~= bytes@);
        while at < bytes.len()
            invariant
                at <= bytes.len(),
                self.cells.len() == BUFFER_CELLS,
                self.column_position == old(self).column_position,
                self.row_position == old(self).row_position,
                self.color_code == old(self).color_code,
                self.bar_color == old(self).bar_color,
                color == self.color_code,
                start.put_all(bytes@, color) == (Placed {
                    cells: self.cells@,
                    column: col as int,
                    row: row as int,
                    fits,
                }).put_all(bytes@.subrange(at as int, bytes@.len() as int), color),
            decreases bytes.len() - at,
        {
            let byte: u8 = bytes[at];
            let ghost rest = bytes@.subrange(at as int, bytes@.len() as int);
            assert(rest.subrange(1, rest.len() as int) == bytes@.subrange(
                at + 1,
                bytes@.len() as int,
            ));
            if fits {
                if byte == 0x0a {
                    col = 0;
                    if row < BUFFER_HEIGHT {
                        row = row + 1;
                    }
                } else {
                    if col >= BUFFER_WIDTH {
                        col = 0;
                        if row < BUFFER_HEIGHT {
                            row = row + 1;
                        }
                    }
                    if row >= BUFFER_HEIGHT {
                        fits = false;
                    } else {
                        let color_code: ColorCode = self.color_code;
                        self.cells.set(
                            row * BUFFER_WIDTH + col,
                            ScreenChar { ascii_character: byte, color_code },
                        );
                        col = col + 1;
                    }
                }
            }
            at = at + 1;
        }
        fits
    }

    /// Shows a time of day in the status row, in the bar colour, from the
    /// second column on: hour, minute and second in decimal, two digits each
    /// at least, with colons between.
    pub fn write_time(&mut self, time: (u8, u8, u8))
        requires
            old(self).wf(),
        ensures
            final(self).wf(),
            final(self)@ == old(self)@.with_time(time),
    {
        let mut text: Vec<u8> = Vec::new();
        push_two_digits(&mut text, time.0);
        text.push(0x3a);
        push_two_digits(&mut text, time.1);
        text.push(0x3a);
        push_two_digits(&mut text, time.2);
        assert(text@ =~= time_text(time));
        let mut at: usize = 0;
        assert(text@.subrange(0, text@.len() as int) =~= text@);
        while at < text.len()
            invariant
                at <= text.len() <= 11,
                self.wf(),
                self@.color == old(self)@.color,
                old(self)@.with_bar_text(1, text@) == self@.with_bar_text(
                    1 + at,
                    text@.subrange(at as int, text@.len() as int),
                ),
            decreases text.len() - at,
        {
            let ghost rest = text@.subrange(at as int, text@.len() as int);
            assert(rest.subrange(1, rest.len() as int) == text@.subrange(
                at + 1,
                text@.len() as int,
            ));
            let color_code: ColorCode = self.bar_color;
            self.cells.set(1 + at, ScreenChar { ascii_character: text[at], color_code });
            at = at + 1;
        }
    }

    fn update_cursor(&self) -> (writes: Vec<PortWrite>)
        requires
            self.wf(),
        ensures
            writes@ == self@.cursor_writes(),
    {
        let pos: usize = self.row_position * BUFFER_WIDTH + self.column_position;
        let mut writes: Vec<PortWrite> = Vec::new();
        writes.push(PortWrite { port: CURSOR_INDEX_PORT, value: 0x0F });
        writes.push(PortWrite { port: CURSOR_DATA_PORT, value: (pos % 256) as u8 });
        writes.push(PortWrite { port: CURSOR_INDEX_PORT, value: 0x0E });
        writes.push(PortWrite { port: CURSOR_DATA_PORT, value: (pos / 256) as u8 });
        assert(writes@ =~= self@.cursor_writes());
        writes
    }
}

} // verus!
