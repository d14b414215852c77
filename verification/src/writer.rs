use core::fmt::Write;
use vstd::prelude::*;
use vstd::string::StringSliceAdditionalSpecFns;
use crate::buffer::{Buffer, BUFFER_HEIGHT, BUFFER_WIDTH};
use crate::cell::{ScreenChar, SPACE};
use crate::color::{packed, Color, ColorCode};
use crate::screen::{blank_row, displayed, rendered, Screen, NEWLINE, PLACEHOLDER};

verus! {

/// The colors that a new writer writes in: yellow on black.
pub open spec fn default_color() -> ColorCode {
    ColorCode::of(packed(Color::Yellow, Color::Black))
}

/// Writes text into the bottom row of the display, and moves the display up
/// by one line where a line ends or is full.
pub struct Writer {
    column_position: usize,
    color_code: ColorCode,
    buffer: Buffer,
}

impl View for Writer {
    type V = Screen;

    closed spec fn view(&self) -> Screen {
        Screen { column: self.column_position as int, color: self.color_code, grid: self.buffer@ }
    }
}

impl Writer {
    /// The cursor stands in the bottom row or just behind its last column.
    #[verifier::type_invariant]
    spec fn cursor_in_row(self) -> bool {
        self.column_position <= BUFFER_WIDTH
    }

    /// A writer on `buffer`, with the cursor at column 0 and the default colors.
    pub fn new(buffer: Buffer) -> (writer: Writer)
        ensures
            writer@ == (Screen { column: 0, color: default_color(), grid: buffer@ }),
            writer@.wf(),
    {
        let color_code = ColorCode::new(Color::Yellow, Color::Black);
        proof {
            buffer.lemma_dimensions();
        }
        Writer { column_position: 0, color_code, buffer }
    }

    /// The next free column of the bottom row, or eighty when that row is full.
    pub fn column_position(&self) -> (column: usize)
        ensures
            column == self@.column,
            column <= BUFFER_WIDTH,
    {
        proof {
            use_type_invariant(self);
        }
        self.column_position
    }

    /// The colors in which the writer writes and clears.
    pub fn color_code(&self) -> (color_code: ColorCode)
        ensures
            color_code == self@.color,
    {
        self.color_code
    }

    /// Changes the colors for what is written and cleared from now on; what
    /// the display shows stays as it is.
    pub fn set_color_code(&mut self, color_code: ColorCode)
        ensures
            final(self)@ == (Screen { color: color_code, ..old(self)@ }),
    {
        proof {
            use_type_invariant(&*self);
        }
        self.color_code = color_code;
    }

    /// The cell that the display shows at `row` and `col`.
    pub fn read(&self, row: usize, col: usize) -> (cell: ScreenChar)
        requires
            row < BUFFER_HEIGHT,
            col < BUFFER_WIDTH,
        ensures
            cell == self@.grid[row as int][col as int],
    {
        self.buffer.read(row, col)
    }

    /// Hands one byte to the display. A newline moves the display up by one
    /// line. Any other byte is written at the cursor in the bottom row, after
    /// the display has moved up if that row was full, and the cursor moves on
    /// by one column.
    pub fn write_byte(&mut self, byte: u8)
        ensures
            final(self)@ == old(self)@.put(byte),
            final(self)@.wf(),
    {
        if byte == NEWLINE {
            self.new_line();
        } else {
            if self.column_position >= BUFFER_WIDTH {
                self.new_line();
            }
            let row: usize = BUFFER_HEIGHT - 1;
            let col: usize = self.column_position;
            let color_code = self.color_code;
            proof {
                use_type_invariant(&*self);
            }
            self.buffer.write(row, col, ScreenChar { ascii_character: byte, color_code });
            self.column_position = col + 1;
        }
        proof {
            self.buffer.lemma_dimensions();
            use_type_invariant(&*self);
        }
    }

    /// Writes the bytes of `s` in order. A byte that is printable ASCII or a
    /// newline is handed to the display as it is, every other byte as the
    /// placeholder.
    pub fn write_string(&mut self, s: &str)
        ensures
            final(self)@ == old(self)@.put_all(rendered(s.spec_bytes())),
            final(self)@.wf(),
    {
        let bytes = s.as_bytes();
        let mut i: usize = 0;
        proof {
            self.buffer.lemma_dimensions();
            use_type_invariant(&*self);
            assert(rendered(bytes@.take(0)) =~= Seq::<u8>::empty());
        }
        while i < bytes.len()
            invariant
                i <= bytes.len(),
                bytes@ == s.spec_bytes(),
                self@ == old(self)@.put_all(rendered(bytes@.take(i as int))),
                self@.wf(),
            decreases bytes.len() - i,
        {
            let byte: u8 = bytes[i];
            if (0x20 <= byte && byte <= 0x7e) || byte == NEWLINE {
                self.write_byte(byte);
            } else {
                self.write_byte(PLACEHOLDER);
            }
            proof {
                let done = rendered(bytes@.take(i as int));
                let next = rendered(bytes@.take(i + 1));
                assert(next.drop_last() =~= done);
                assert(next.last() == displayed(byte));
            }
            i = i + 1;
        }
        proof {
            assert(bytes@.take(bytes@.len() as int) =~= bytes@);
        }
    }

    /// Moves the display up by one line: each row but the top one is copied
    /// to the row above it, the bottom row is cleared, and the cursor goes
    /// back to column 0.
    fn new_line(&mut self)
        ensures
            final(self)@ == old(self)@.scroll(),
    {
        proof {
            use_type_invariant(&*self);
            self.buffer.lemma_dimensions();
        }
        for row in 1..BUFFER_HEIGHT
            invariant
                old(self).column_position <= BUFFER_WIDTH,
                self.column_position == old(self).column_position,
                self.color_code == old(self).color_code,
                old(self).buffer@.len() == 25,
                self.buffer@.len() == 25,
                forall|r: int| 0 <= r < 25 ==> (#[trigger] self.buffer@[r]).len() == 80,
                forall|r: int| 0 <= r < row - 1 ==> self.buffer@[r] == old(self).buffer@[r + 1],
                forall|r: int| row - 1 <= r < 25 ==> self.buffer@[r] == old(self).buffer@[r],
        {
            let ghost before = self.buffer@;
            for col in 0..BUFFER_WIDTH
                invariant
                    1 <= row < BUFFER_HEIGHT,
                    old(self).column_position <= BUFFER_WIDTH,
                    self.column_position == old(self).column_position,
                    self.color_code == old(self).color_code,
                    before.len() == 25,
                    self.buffer@.len() == 25,
                    forall|r: int| 0 <= r < 25 ==> (#[trigger] self.buffer@[r]).len() == 80,
                    forall|r: int| 0 <= r < 25 && r != row - 1 ==> self.buffer@[r] == before[r],
                    forall|c: int| 0 <= c < col ==> self.buffer@[row - 1][c] == before[row as int][c],
            {
                let character = self.buffer.read(row, col);
                self.buffer.write(row - 1, col, character);
            }
            proof {
                assert(self.buffer@[row - 1] =~= before[row as int]);
                assert forall|r: int| 0 <= r < row - 1 implies self.buffer@[r] == old(
                    self,
                ).buffer@[r + 1] by {
                    assert(self.buffer@[r] == before[r]);
                }
            }
        }
        self.clear_row(BUFFER_HEIGHT - 1);
        self.column_position = 0;
        proof {
            assert(self.buffer@ =~= old(self)@.scroll().grid);
        }
    }

    /// Fills `row` with spaces in the current colors.
    fn clear_row(&mut self, row: usize)
        requires
            row < BUFFER_HEIGHT,
        ensures
            final(self)@ == old(self)@.clear_row(row as int),
    {
        let blank = ScreenChar { ascii_character: SPACE, color_code: self.color_code };
        proof {
            use_type_invariant(&*self);
            self.buffer.lemma_dimensions();
        }
        for col in 0..BUFFER_WIDTH
            invariant
                row < BUFFER_HEIGHT,
                old(self).column_position <= BUFFER_WIDTH,
                old(self).buffer@.len() == 25,
                blank == ScreenChar::blank(old(self).color_code),
                self.column_position == old(self).column_position,
                self.color_code == old(self).color_code,
                self.buffer@.len() == 25,
                self.buffer@[row as int].len() == 80,
                forall|r: int| 0 <= r < 25 && r != row ==> self.buffer@[r] == old(self).buffer@[r],
                forall|c: int| 0 <= c < col ==> self.buffer@[row as int][c] == blank,
        {
            self.buffer.write(row, col, blank);
        }
        proof {
            assert(self.buffer@[row as int] =~= blank_row(old(self).color_code));
            assert(self.buffer@ =~= old(self).buffer@.update(
                row as int,
                blank_row(old(self).color_code),
            ));
        }
    }
}

/// `core::fmt::Error`, the error of the formatting traits. It holds nothing.
#[verifier::external_type_specification]
#[verifier::external_body]
pub struct ExFmtError(core::fmt::Error);

/// A writer takes formatted text: each piece of it is written as
/// [`Writer::write_string`] writes it, and writing never fails.
impl Write for Writer {
    fn write_str(&mut self, s: &str) -> (result: core::fmt::Result)
        ensures
            result is Ok,
            final(self)@ == old(self)@.put_all(rendered(s.spec_bytes())),
            final(self)@.wf(),
    {
        self.write_string(s);
        Ok(())
    }
}

} // verus!
