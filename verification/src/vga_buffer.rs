//! The console driver: a cursor on the bottom row of the text grid, and the
//! operations that write, scroll and clear through volatile cell accesses.

use vstd::prelude::*;
use vstd::string::StringSliceAdditionalSpecFns;
use core::ops::DerefMut;
use spin::{Mutex, MutexGuard};
use crate::cell::{
    blank_row, cell_read, cell_write, grid_view, stored, Buffer, ScreenChar, BUFFER_HEIGHT,
    BUFFER_WIDTH,
};
use crate::color::{Color, ColorCode};
use crate::screen::{Screen, NEWLINE, OUT_OF_BOUNDS_MESSAGE};

verus! {

/// The driver. It borrows the grid for as long as it lives, so nothing else
/// can touch the cells in the meantime.
pub struct Writer<'a> {
    column_position: usize,
    color_code: ColorCode,
    buffer: &'a mut Buffer,
}

impl<'a> View for Writer<'a> {
    type V = Screen;

    closed spec fn view(&self) -> Screen {
        Screen {
            column: self.column_position as int,
            color: self.color_code,
            rows: grid_view(*self.buffer),
        }
    }
}

impl<'a> Writer<'a> {
    /// The cursor is on the bottom row or just past its end. It is past the
    /// end exactly after a byte was written into the last column; the next
    /// byte then scrolls before it is placed.
    #[verifier::type_invariant]
    spec fn cursor_in_range(self) -> bool {
        self.column_position <= BUFFER_WIDTH
    }

    /// The byte that a character is written as: its code point cut down to
    /// eight bits.
    pub open spec fn char_byte(character: char) -> u8 {
        ((character as u32) % 256) as u8
    }

    /// A driver for the given grid, with the cursor at column 0 and white on
    /// black as the attribute. What the grid shows is left as it is.
    pub fn new(buffer: &'a mut Buffer) -> (writer: Writer<'a>)
        ensures
            writer@.wf(),
            writer@.column == 0,
            writer@.color@ == ColorCode::packed(Color::White, Color::Black),
            writer@.rows == grid_view(*old(buffer)),
    {
        let color_code = ColorCode::new(Color::White, Color::Black);
        Writer { column_position: 0, color_code, buffer }
    }

    /// Writes one byte at the cursor on the bottom row. A newline scrolls
    /// instead, and so does any byte that finds the bottom row full, before
    /// it is placed.
    pub fn write_byte(&mut self, byte: u8)
        ensures
            final(self)@ == old(self)@.write_byte(byte),
            final(self)@.wf(),
    {
        if byte == NEWLINE {
            self.new_line();
        } else {
            proof {
                use_type_invariant(&*self);
            }
            if self.column_position >= BUFFER_WIDTH {
                self.new_line();
            }
            let ghost before = self@;
            let row = BUFFER_HEIGHT - 1;
            let col = self.column_position;
            let cell = ScreenChar { ascii_character: byte, color_code: self.color_code };
            cell_write(&mut self.buffer[row][col], cell.to_bits());
            self.column_position = col + 1;
            assert(self@.rows =~~= before.put(byte).rows);
        }
    }

    /// Writes the bytes of a string, one by one.
    pub fn write_str(&mut self, s: &str)
        ensures
            final(self)@ == old(self)@.write_bytes(s.spec_bytes()),
            final(self)@.wf(),
    {
        proof {
            use_type_invariant(&*self);
        }
        let bytes = s.as_bytes();
        for i in 0..bytes.len()
            invariant
                bytes@ == s.spec_bytes(),
                self@.wf(),
                self@ == old(self)@.write_bytes(bytes@.take(i as int)),
        {
            proof {
                assert(bytes@.take(i + 1).drop_last() == bytes@.take(i as int));
            }
            self.write_byte(bytes[i]);
        }
        assert(bytes@.take(bytes@.len() as int) == bytes@);
    }

    /// Writes a character straight into column `xpos` of row `ypos`, in the
    /// current attribute, without moving the cursor. Outside the grid
    /// nothing is written there: the console prints
    /// `OUT_OF_BOUNDS_MESSAGE` and a newline instead.
    pub fn set_pos(&mut self, xpos: usize, ypos: usize, character: char)
        ensures
            final(self)@ == old(self)@.set_pos(
                xpos as int,
                ypos as int,
                Self::char_byte(character),
            ),
            final(self)@.wf(),
    {
        proof {
            use_type_invariant(&*self);
        }
        let color = self.color_code;
        if xpos < BUFFER_WIDTH && ypos < BUFFER_HEIGHT {
            let byte: u8 = #[verifier::truncate] (character as u8);
            assert(byte == Self::char_byte(character)) by {
                let code: u32 = character as u32;
                assert(code as u8 == code % 256) by (bit_vector);
            }
            let cell = ScreenChar { ascii_character: byte, color_code: color };
            cell_write(&mut self.buffer[ypos][xpos], cell.to_bits());
            assert(self@.rows =~~= old(self)@.set_cell(
                xpos as int,
                ypos as int,
                Self::char_byte(character),
            ).rows);
        } else {
            self.write_str(OUT_OF_BOUNDS_MESSAGE);
            self.write_byte(NEWLINE);
        }
    }

    /// Blanks the whole grid by writing one newline for each of its rows.
    pub fn clear_screen(&mut self)
        ensures
            final(self)@ == old(self)@.new_lines(BUFFER_HEIGHT as nat),
            final(self)@ == old(self)@.cleared(),
            final(self)@.wf(),
    {
        proof {
            use_type_invariant(&*self);
        }
        for i in 0..BUFFER_HEIGHT
            invariant
                self@.wf(),
                self@ == old(self)@.new_lines(i as nat),
        {
            self.write_byte(NEWLINE);
        }
        proof {
            old(self)@.lemma_new_lines_clear();
        }
    }

    /// Sets the attribute for what is written from now on. What is on the
    /// screen keeps its attribute.
    pub fn set_color(&mut self, color: ColorCode)
        ensures
            final(self)@ == old(self)@.set_color(color),
            final(self)@.wf(),
    {
        proof {
            use_type_invariant(&*self);
        }
        self.color_code = color;
    }

    /// The column that the next byte goes to.
    pub fn column_position(&self) -> (column: usize)
        ensures
            column == self@.column,
            column <= BUFFER_WIDTH,
            self@.wf(),
    {
        proof {
            use_type_invariant(self);
        }
        self.column_position
    }

    /// The attribute that new cells are written in.
    pub fn color_code(&self) -> (color: ColorCode)
        ensures
            color == self@.color,
    {
        self.color_code
    }

    /// What the grid shows in column `xpos` of row `ypos`, read from the
    /// cell itself. There is no such cell outside the grid.
    pub fn read_cell(&self, xpos: usize, ypos: usize) -> (cell: Option<ScreenChar>)
        ensures
            xpos < BUFFER_WIDTH && ypos < BUFFER_HEIGHT ==> cell == Some(
                self@.rows[ypos as int][xpos as int],
            ),
            xpos >= BUFFER_WIDTH || ypos >= BUFFER_HEIGHT ==> cell.is_none(),
    {
        if xpos < BUFFER_WIDTH && ypos < BUFFER_HEIGHT {
            Some(ScreenChar::from_bits(cell_read(&self.buffer[ypos][xpos])))
        } else {
            None
        }
    }

    /// Overwrites one row with spaces in the current attribute, cell by
    /// cell from the left.
    fn clear_row(&mut self, row: usize)
        requires
            row < BUFFER_HEIGHT,
        ensures
            final(self)@.column == old(self)@.column,
            final(self)@.color == old(self)@.color,
            final(self)@.rows == old(self)@.rows.update(row as int, blank_row(old(self)@.color)),
    {
        proof {
            use_type_invariant(&*self);
        }
        let blank = ScreenChar::blank(self.color_code);
        let bits: u16 = blank.to_bits();
        let ghost start: Buffer = *self.buffer;
        for col in 0..BUFFER_WIDTH
            invariant
                row < BUFFER_HEIGHT,
                ScreenChar::spec_from_bits(bits) == ScreenChar::spec_blank(self.color_code),
                self.column_position == old(self).column_position,
                self.column_position <= BUFFER_WIDTH,
                self.color_code == old(self).color_code,
                start == *old(self).buffer,
                forall|r: int, c: int|
                    0 <= r < BUFFER_HEIGHT && 0 <= c < BUFFER_WIDTH ==> stored(
                        #[trigger] self.buffer[r][c],
                    ) == if r == row && c < col {
                        bits
                    } else {
                        stored(start[r][c])
                    },
        {
            cell_write(&mut self.buffer[row][col], bits);
        }
        assert(self@.rows =~~= old(self)@.rows.update(row as int, blank_row(old(self)@.color)));
    }

    /// Scrolls by one row. Rows are moved from the top down, each cell by
    /// one volatile read and one volatile write, so that a row is read
    /// before the row below it is copied over it. Then the bottom row is
    /// blanked and the cursor returns to column 0.
    fn new_line(&mut self)
        ensures
            final(self)@ == old(self)@.new_line(),
            final(self)@.wf(),
    {
        proof {
            use_type_invariant(&*self);
        }
        let ghost start: Buffer = *self.buffer;
        for row in 1..BUFFER_HEIGHT
            invariant
                self.column_position == old(self).column_position,
                self.column_position <= BUFFER_WIDTH,
                self.color_code == old(self).color_code,
                start == *old(self).buffer,
                forall|r: int, c: int|
                    0 <= r < BUFFER_HEIGHT && 0 <= c < BUFFER_WIDTH ==> stored(
                        #[trigger] self.buffer[r][c],
                    ) == if r < row - 1 {
                        stored(start[r + 1][c])
                    } else {
                        stored(start[r][c])
                    },
        {
            for col in 0..BUFFER_WIDTH
                invariant
                    1 <= row < BUFFER_HEIGHT,
                    self.column_position == old(self).column_position,
                    self.column_position <= BUFFER_WIDTH,
                    self.color_code == old(self).color_code,
                    start == *old(self).buffer,
                    forall|r: int, c: int|
                        0 <= r < BUFFER_HEIGHT && 0 <= c < BUFFER_WIDTH ==> stored(
                            #[trigger] self.buffer[r][c],
                        ) == if r < row - 1 || (r == row - 1 && c < col) {
                            stored(start[r + 1][c])
                        } else {
                            stored(start[r][c])
                        },
            {
                let character = cell_read(&self.buffer[row][col]);
                cell_write(&mut self.buffer[row - 1][col], character);
            }
        }
        self.clear_row(BUFFER_HEIGHT - 1);
        self.column_position = 0;
        assert(self@.rows =~~= old(self)@.new_line().rows);
    }
}

#[verifier::external_type_specification]
#[verifier::external_body]
#[verifier::reject_recursive_types(T)]
pub struct ExMutex<T: ?Sized>(spin::Mutex<T>);

#[verifier::external_type_specification]
#[verifier::external_body]
#[verifier::reject_recursive_types(T)]
pub struct ExMutexGuard<'a, T: ?Sized + 'a>(spin::MutexGuard<'a, T>);

/// `Mutex::lock`: spins until no other guard of this mutex is alive, then
/// returns the guard that holds the lock; dropping the guard releases it.
/// Nothing is claimed of the driver behind the lock: whoever held it before
/// may have left any screen. The call returns only when the lock comes
/// free, so it must not be made by one who still holds a guard of the same
/// mutex.
#[verifier::external_body]
fn lock<'m, 'a>(console: &'m Mutex<Writer<'a>>) -> (guard: MutexGuard<'m, Writer<'a>>) {
    console.lock()
}

/// `MutexGuard::deref_mut`: the exclusive reference to the driver that the
/// guard protects, for as long as the guard is borrowed. It does not panic,
/// and nothing is claimed of the driver it leads to.
#[verifier::external_body]
fn locked_writer<'g, 'm, 'a>(guard: &'g mut MutexGuard<'m, Writer<'a>>) -> (writer: &'g mut Writer<
    'a,
>) {
    guard.deref_mut()
}

/// Prints a string on the shared console: `Writer::write_str` on the driver
/// behind the lock. The lock is held from the first byte to the last, so
/// the text of two callers never interleaves, and it is free again when the
/// call returns.
pub fn print(console: &Mutex<Writer<'_>>, text: &str) {
    let mut guard = lock(console);
    locked_writer(&mut guard).write_str(text);
}

/// Sets the attribute of the shared console for what is written from now
/// on: `Writer::set_color` on the driver behind the lock.
pub fn set_color(console: &Mutex<Writer<'_>>, color: ColorCode) {
    let mut guard = lock(console);
    locked_writer(&mut guard).set_color(color);
}

/// Writes a character straight into a cell of the shared console, or has the
/// console report that the cell lies outside the grid: `Writer::set_pos` on
/// the driver behind the lock.
pub fn set_pos(console: &Mutex<Writer<'_>>, xpos: usize, ypos: usize, character: char) {
    let mut guard = lock(console);
    locked_writer(&mut guard).set_pos(xpos, ypos, character);
}

/// Blanks the shared console: `Writer::clear_screen` on the driver behind the
/// lock, which is held until the last row is blank.
pub fn clear_screen(console: &Mutex<Writer<'_>>) {
    let mut guard = lock(console);
    locked_writer(&mut guard).clear_screen();
}

} // verus!
