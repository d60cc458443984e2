//! The console as a mathematical value: where the cursor stands, the
//! attribute in use, and what every cell of the grid shows. The driver's
//! operations are stated here as functions from one such value to the next.

use vstd::prelude::*;
use vstd::string::StringSliceAdditionalSpecFns;
use vstd::utf8::{is_ascii_chars, is_ascii_chars_encode_utf8};
use crate::cell::{blank_grid, blank_row, ScreenChar, BUFFER_HEIGHT, BUFFER_WIDTH};
use crate::color::ColorCode;

verus! {

/// The byte that ends a line.
pub const NEWLINE: u8 = 0x0a;

/// What is printed in place of a cell write that falls outside the grid.
pub const OUT_OF_BOUNDS_MESSAGE: &'static str = "co-ordinates outside the framebuffer";

/// The state of the console. All output goes to the bottom row; the cursor
/// is a column of that row.
pub struct Screen {
    /// The column that the next byte goes to. It is `BUFFER_WIDTH` exactly
    /// when the bottom row is full and the next byte must scroll first.
    pub column: int,
    /// The attribute that new cells are written in.
    pub color: ColorCode,
    /// The cells, row by row from the top.
    pub rows: Seq<Seq<ScreenChar>>,
}

impl Screen {
    /// The grid has its 25 x 80 cells and the cursor is on it or just past
    /// the end of the bottom row.
    pub open spec fn wf(self) -> bool {
        &&& 0 <= self.column <= BUFFER_WIDTH
        &&& self.rows.len() == BUFFER_HEIGHT
        &&& forall|row: int|
            0 <= row < BUFFER_HEIGHT ==> (#[trigger] self.rows[row]).len() == BUFFER_WIDTH
    }

    /// The cell that a byte becomes when it is written in an attribute.
    pub open spec fn cell_of(byte: u8, color: ColorCode) -> ScreenChar {
        ScreenChar { ascii_character: byte, color_code: color }
    }

    /// The bottom row.
    pub open spec fn bottom(self) -> Seq<ScreenChar> {
        self.rows[BUFFER_HEIGHT - 1]
    }

    /// One scroll: the top row is lost, every other row moves up by one, the
    /// bottom row becomes blank in the current attribute, and the cursor
    /// returns to column 0.
    pub open spec fn new_line(self) -> Screen {
        Screen {
            column: 0,
            color: self.color,
            rows: self.rows.subrange(1, BUFFER_HEIGHT as int).push(blank_row(self.color)),
        }
    }

    /// The byte is placed under the cursor in the current attribute and the
    /// cursor moves right by one.
    pub open spec fn put(self, byte: u8) -> Screen {
        Screen {
            column: self.column + 1,
            color: self.color,
            rows: self.rows.update(
                BUFFER_HEIGHT - 1,
                self.bottom().update(self.column, Self::cell_of(byte, self.color)),
            ),
        }
    }

    /// One byte of output. A newline scrolls. Any other byte is placed under
    /// the cursor, after a scroll if the bottom row is already full.
    pub open spec fn write_byte(self, byte: u8) -> Screen {
        if byte == NEWLINE {
            self.new_line()
        } else if self.column >= BUFFER_WIDTH {
            self.new_line().put(byte)
        } else {
            self.put(byte)
        }
    }

    /// A run of bytes, written one by one from the first to the last.
    pub open spec fn write_bytes(self, bytes: Seq<u8>) -> Screen
        decreases bytes.len(),
    {
        if bytes.len() == 0 {
            self
        } else {
            self.write_bytes(bytes.drop_last()).write_byte(bytes.last())
        }
    }

    /// The same screen with another attribute for what is written next.
    pub open spec fn set_color(self, color: ColorCode) -> Screen {
        Screen { column: self.column, color, rows: self.rows }
    }

    /// One cell replaced, the cursor left where it is.
    pub open spec fn set_cell(self, x: int, y: int, byte: u8) -> Screen {
        Screen {
            column: self.column,
            color: self.color,
            rows: self.rows.update(
                y,
                self.rows[y].update(x, Self::cell_of(byte, self.color)),
            ),
        }
    }

    /// The message for a cell outside the grid, then a newline, written like
    /// any other output.
    pub open spec fn report_out_of_bounds(self) -> Screen {
        self.write_bytes(OUT_OF_BOUNDS_MESSAGE.spec_bytes()).write_byte(NEWLINE)
    }

    /// A write addressed to column `x` of row `y`: inside the grid it
    /// replaces that cell, outside it prints the message instead.
    pub open spec fn set_pos(self, x: int, y: int, byte: u8) -> Screen {
        if 0 <= x < BUFFER_WIDTH && 0 <= y < BUFFER_HEIGHT {
            self.set_cell(x, y, byte)
        } else {
            self.report_out_of_bounds()
        }
    }

    /// Every cell a space in the current attribute, the cursor at column 0.
    pub open spec fn cleared(self) -> Screen {
        Screen { column: 0, color: self.color, rows: blank_grid(self.color) }
    }

    /// As many newlines as asked for, one after the other.
    pub open spec fn new_lines(self, count: nat) -> Screen
        decreases count,
    {
        if count == 0 {
            self
        } else {
            self.new_lines((count - 1) as nat).new_line()
        }
    }

    /// No byte of the run is a newline.
    pub open spec fn no_newline(bytes: Seq<u8>) -> bool {
        forall|i: int| 0 <= i < bytes.len() ==> #[trigger] bytes[i] != NEWLINE
    }

    /// After `count` newlines the lowest `count` rows are blank and the rows
    /// above them are the old rows that were that much further down.
    pub proof fn lemma_new_lines_rows(self, count: nat)
        requires
            self.wf(),
            count <= BUFFER_HEIGHT,
        ensures
            self.new_lines(count).wf(),
            self.new_lines(count).color == self.color,
            count > 0 ==> self.new_lines(count).column == 0,
            forall|row: int|
                0 <= row < BUFFER_HEIGHT - count ==> #[trigger] self.new_lines(count).rows[row]
                    == self.rows[row + count],
            forall|row: int|
                BUFFER_HEIGHT - count <= row < BUFFER_HEIGHT ==> #[trigger] self.new_lines(
                    count,
                ).rows[row] == blank_row(self.color),
        decreases count,
    {
        if count > 0 {
            self.lemma_new_lines_rows((count - 1) as nat);
        }
    }

    /// Bytes without a newline that fit in what is left of the bottom row
    /// cause no scroll. The cursor advances by their number, the cells it
    /// passes hold the bytes in the current attribute, and every other cell
    /// of the grid is as before.
    pub proof fn lemma_write_bytes_in_row(self, bytes: Seq<u8>)
        requires
            self.wf(),
            Self::no_newline(bytes),
            self.column + bytes.len() <= BUFFER_WIDTH,
        ensures
            self.write_bytes(bytes).wf(),
            self.write_bytes(bytes).column == self.column + bytes.len(),
            self.write_bytes(bytes).color == self.color,
            forall|row: int|
                0 <= row < BUFFER_HEIGHT - 1 ==> #[trigger] self.write_bytes(bytes).rows[row]
                    == self.rows[row],
            forall|col: int|
                0 <= col < BUFFER_WIDTH ==> #[trigger] self.write_bytes(bytes).bottom()[col]
                    == if self.column <= col < self.column + bytes.len() {
                    Self::cell_of(bytes[col - self.column], self.color)
                } else {
                    self.bottom()[col]
                },
        decreases bytes.len(),
    {
        if bytes.len() > 0 {
            self.lemma_write_bytes_in_row(bytes.drop_last());
        }
    }

    /// Written from the start of a line, fewer bytes than the row is wide,
    /// none of them a newline, leave the cursor at their number, and the
    /// first cells of the bottom row hold them in the current attribute.
    pub proof fn lemma_write_short_line(self, bytes: Seq<u8>)
        requires
            self.wf(),
            self.column == 0,
            Self::no_newline(bytes),
            bytes.len() < BUFFER_WIDTH,
        ensures
            self.write_bytes(bytes).column == bytes.len(),
            forall|col: int|
                0 <= col < bytes.len() ==> #[trigger] self.write_bytes(bytes).bottom()[col]
                    == Self::cell_of(bytes[col], self.color),
    {
        self.lemma_write_bytes_in_row(bytes);
    }

    /// A full row of bytes written from the start of a line causes no
    /// scroll; one more byte then causes exactly one. The top row is lost,
    /// the other rows move up by one, so that the full row stands second to
    /// last, and the bottom row is blank but for the new byte in column 0.
    pub proof fn lemma_overflow_scrolls_once(self, bytes: Seq<u8>, byte: u8)
        requires
            self.wf(),
            self.column == 0,
            Self::no_newline(bytes),
            bytes.len() == BUFFER_WIDTH,
            byte != NEWLINE,
        ensures
            self.write_bytes(bytes).column == BUFFER_WIDTH,
            forall|row: int|
                0 <= row < BUFFER_HEIGHT - 1 ==> #[trigger] self.write_bytes(bytes).rows[row]
                    == self.rows[row],
            self.write_bytes(bytes).write_byte(byte) == self.write_bytes(bytes).new_line().put(
                byte,
            ),
            self.write_bytes(bytes).write_byte(byte).wf(),
            self.write_bytes(bytes).write_byte(byte).column == 1,
            forall|row: int|
                0 <= row < BUFFER_HEIGHT - 2 ==> #[trigger] self.write_bytes(bytes).write_byte(
                    byte,
                ).rows[row] == self.rows[row + 1],
            self.write_bytes(bytes).write_byte(byte).rows[BUFFER_HEIGHT - 2] == Seq::new(
                BUFFER_WIDTH as nat,
                |col: int| Self::cell_of(bytes[col], self.color),
            ),
            self.write_bytes(bytes).write_byte(byte).bottom() == blank_row(self.color).update(
                0,
                Self::cell_of(byte, self.color),
            ),
    {
        self.lemma_write_bytes_in_row(bytes);
        let full = self.write_bytes(bytes);
        let after = full.write_byte(byte);
        assert(after.rows[BUFFER_HEIGHT - 2] == full.bottom());
        assert(full.bottom() =~= Seq::new(
            BUFFER_WIDTH as nat,
            |col: int| Self::cell_of(bytes[col], self.color),
        ));
        assert(after.bottom() =~= blank_row(self.color).update(0, Self::cell_of(byte, self.color)));
    }

    /// The message for a cell outside the grid is 36 bytes of ASCII, one for
    /// each of its characters, and none of them is a newline.
    pub proof fn lemma_out_of_bounds_message()
        ensures
            OUT_OF_BOUNDS_MESSAGE.spec_bytes().len() == 36,
            OUT_OF_BOUNDS_MESSAGE.spec_bytes() == Seq::new(
                36,
                |i: int| OUT_OF_BOUNDS_MESSAGE@[i] as u8,
            ),
            Self::no_newline(OUT_OF_BOUNDS_MESSAGE.spec_bytes()),
    {
        reveal_strlit("co-ordinates outside the framebuffer");
        let chars = OUT_OF_BOUNDS_MESSAGE@;
        assert(chars.len() == 36);
        assert(is_ascii_chars(chars));
        is_ascii_chars_encode_utf8(chars);
        assert(OUT_OF_BOUNDS_MESSAGE.spec_bytes() =~= Seq::new(36, |i: int| chars[i] as u8));
    }

    /// A write addressed outside the grid does not depend on the address or
    /// on the character: it is the message and a newline, written as any
    /// other output is, and it leaves the cursor at the start of a line.
    /// Where the message fits in what is left of the bottom row, the screen
    /// scrolls once: the row with the message now stands second to last and
    /// the bottom row is blank.
    pub proof fn lemma_set_pos_out_of_bounds(self, x: int, y: int, byte: u8)
        requires
            self.wf(),
            !(0 <= x < BUFFER_WIDTH && 0 <= y < BUFFER_HEIGHT),
        ensures
            self.set_pos(x, y, byte) == self.write_bytes(
                OUT_OF_BOUNDS_MESSAGE.spec_bytes(),
            ).write_byte(NEWLINE),
            self.set_pos(x, y, byte).wf(),
            self.set_pos(x, y, byte).column == 0,
            self.set_pos(x, y, byte).color == self.color,
            self.set_pos(x, y, byte).bottom() == blank_row(self.color),
            self.column + 36 <= BUFFER_WIDTH ==> {
                &&& forall|row: int|
                    0 <= row < BUFFER_HEIGHT - 2 ==> #[trigger] self.set_pos(x, y, byte).rows[row]
                        == self.rows[row + 1]
                &&& forall|col: int|
                    0 <= col < BUFFER_WIDTH ==> #[trigger] self.set_pos(
                        x,
                        y,
                        byte,
                    ).rows[BUFFER_HEIGHT - 2][col] == if self.column <= col < self.column + 36 {
                        Self::cell_of(
                            OUT_OF_BOUNDS_MESSAGE.spec_bytes()[col - self.column],
                            self.color,
                        )
                    } else {
                        self.bottom()[col]
                    }
            },
    {
        Self::lemma_out_of_bounds_message();
        let message = OUT_OF_BOUNDS_MESSAGE.spec_bytes();
        self.lemma_write_bytes_wf(message);
        if self.column + 36 <= BUFFER_WIDTH {
            self.lemma_write_bytes_in_row(message);
            let written = self.write_bytes(message);
            let after = self.set_pos(x, y, byte);
            assert forall|row: int| 0 <= row < BUFFER_HEIGHT - 2 implies #[trigger] after.rows[row]
                == self.rows[row + 1] by {
                assert(after.rows[row] == written.rows[row + 1]);
            }
            assert(after.rows[BUFFER_HEIGHT - 2] == written.bottom());
        }
    }

    /// Output keeps a well-formed screen well-formed and never changes the
    /// attribute.
    pub proof fn lemma_write_bytes_wf(self, bytes: Seq<u8>)
        requires
            self.wf(),
        ensures
            self.write_bytes(bytes).wf(),
            self.write_bytes(bytes).color == self.color,
        decreases bytes.len(),
    {
        if bytes.len() > 0 {
            self.lemma_write_bytes_wf(bytes.drop_last());
        }
    }

    /// As many newlines as the grid has rows leave every cell a space in the
    /// current attribute, whatever was on the screen before.
    pub proof fn lemma_new_lines_clear(self)
        requires
            self.wf(),
        ensures
            self.new_lines(BUFFER_HEIGHT as nat) == self.cleared(),
    {
        self.lemma_new_lines_rows(BUFFER_HEIGHT as nat);
        assert(self.new_lines(BUFFER_HEIGHT as nat).rows =~= self.cleared().rows);
    }
}

} // verus!
