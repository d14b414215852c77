use vstd::prelude::*;
use crate::cell::ScreenChar;
use crate::color::ColorCode;

verus! {

/// The byte that marks the end of a line.
pub const NEWLINE: u8 = 0x0a;

/// The byte shown in place of one that the display cannot show.
pub const PLACEHOLDER: u8 = 0xfe;

/// Whether the display can show `byte` as it is: printable ASCII, from the
/// space to the tilde.
pub open spec fn is_printable(byte: u8) -> bool {
    0x20 <= byte <= 0x7e
}

/// The byte that is handed to the display for `byte`: itself where it is
/// printable or ends a line, the placeholder in every other case.
pub open spec fn displayed(byte: u8) -> u8 {
    if is_printable(byte) || byte == NEWLINE {
        byte
    } else {
        PLACEHOLDER
    }
}

/// `bytes` with each byte replaced by the one handed to the display for it.
pub open spec fn rendered(bytes: Seq<u8>) -> Seq<u8> {
    Seq::new(bytes.len(), |i: int| displayed(bytes[i]))
}

/// A row of spaces in the given colors.
pub open spec fn blank_row(color: ColorCode) -> Seq<ScreenChar> {
    Seq::new(80, |col: int| ScreenChar::blank(color))
}

/// What a writer shows, and where and in which colors it writes next.
///
/// Text is only ever written into the bottom row; `column` is the next free
/// column of that row, or eighty when the row is full.
pub struct Screen {
    pub column: int,
    pub color: ColorCode,
    pub grid: Seq<Seq<ScreenChar>>,
}

impl Screen {
    /// The grid has twenty-five rows of eighty columns, and the cursor stands
    /// in the bottom row or just behind its last column.
    pub open spec fn wf(self) -> bool {
        &&& 0 <= self.column <= 80
        &&& self.grid.len() == 25
        &&& forall|row: int| 0 <= row < 25 ==> (#[trigger] self.grid[row]).len() == 80
    }

    /// The cell that `byte` is shown as in the current colors.
    pub open spec fn glyph(self, byte: u8) -> ScreenChar {
        ScreenChar { ascii_character: byte, color_code: self.color }
    }

    /// The screen with the cell at `row` and `col` replaced.
    pub open spec fn with_cell(self, row: int, col: int, cell: ScreenChar) -> Screen {
        Screen { grid: self.grid.update(row, self.grid[row].update(col, cell)), ..self }
    }

    /// The screen with `row` filled with spaces in the current colors.
    pub open spec fn clear_row(self, row: int) -> Screen {
        Screen { grid: self.grid.update(row, blank_row(self.color)), ..self }
    }

    /// The screen moved up by one line: each row but the top one takes the
    /// place of the row above it, the top row is lost, the bottom row is
    /// blank in the current colors, and the cursor is back at column 0.
    pub open spec fn scroll(self) -> Screen {
        Screen {
            column: 0,
            color: self.color,
            grid: Seq::new(
                25,
                |row: int|
                    if row < 24 {
                        self.grid[row + 1]
                    } else {
                        blank_row(self.color)
                    },
            ),
        }
    }

    /// The screen after one byte was handed to the display. A newline
    /// scrolls. Any other byte is placed at the cursor in the bottom row,
    /// after a scroll if that row was full, and moves the cursor on by one.
    pub open spec fn put(self, byte: u8) -> Screen {
        if byte == NEWLINE {
            self.scroll()
        } else {
            let line = if self.column >= 80 {
                self.scroll()
            } else {
                self
            };
            Screen { column: line.column + 1, ..line.with_cell(24, line.column, line.glyph(byte)) }
        }
    }

    /// The screen after the bytes of `bytes` were handed to the display one
    /// after the other.
    pub open spec fn put_all(self, bytes: Seq<u8>) -> Screen
        decreases bytes.len(),
    {
        if bytes.len() == 0 {
            self
        } else {
            self.put_all(bytes.drop_last()).put(bytes.last())
        }
    }
}

/// Where a text without newlines comes to stand, told without writing it
/// byte by byte.
///
/// The text is laid out on lines of eighty columns. Line 0 is the bottom row
/// as it was before, and the text starts on it at the cursor; each later line
/// is a row that scrolling brought in. The line of the last byte is the
/// bottom row afterwards.
impl Screen {
    /// The line on which byte `k` of a text comes to stand.
    pub open spec fn line_of(self, k: int) -> int {
        (self.column + k) / 80
    }

    /// The column in which byte `k` of a text comes to stand.
    pub open spec fn column_of(self, k: int) -> int {
        (self.column + k) % 80
    }

    /// The number of lines that writing `bytes` brings in: the line of its
    /// last byte.
    pub open spec fn lines_added(self, bytes: Seq<u8>) -> int {
        if bytes.len() == 0 {
            0
        } else {
            self.line_of(bytes.len() - 1)
        }
    }

    /// The row in which byte `k` of `bytes` stands once all of `bytes` is
    /// written. It is negative where the line of that byte has left the
    /// display at the top.
    pub open spec fn row_of(self, bytes: Seq<u8>, k: int) -> int {
        24 - (self.lines_added(bytes) - self.line_of(k))
    }

    /// The cell at `row` and `col` after the text `bytes` was written: a
    /// cell of an old row that moved up, a byte of the text, a cell of the
    /// old bottom row beside the text, or a blank that scrolling brought in.
    pub open spec fn typeset_cell(self, bytes: Seq<u8>, row: int, col: int) -> ScreenChar {
        let line = row - 24 + self.lines_added(bytes);
        let at = line * 80 + col - self.column;
        if line < 0 {
            self.grid[row + self.lines_added(bytes)][col]
        } else if 0 <= at < bytes.len() {
            self.glyph(bytes[at])
        } else if line == 0 {
            self.grid[24][col]
        } else {
            ScreenChar::blank(self.color)
        }
    }

    /// The screen after the text `bytes`, which holds no newline, was written.
    pub open spec fn typeset(self, bytes: Seq<u8>) -> Screen {
        Screen {
            column: if bytes.len() == 0 {
                self.column
            } else {
                self.column_of(bytes.len() - 1) + 1
            },
            color: self.color,
            grid: Seq::new(
                25,
                |row: int| Seq::new(80, |col: int| self.typeset_cell(bytes, row, col)),
            ),
        }
    }
}

} // verus!
