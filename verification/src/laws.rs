use vstd::prelude::*;
use crate::cell::ScreenChar;
use crate::screen::{blank_row, displayed, is_printable, rendered, Screen, NEWLINE, PLACEHOLDER};

verus! {

/// A byte that is printable ASCII or a newline is handed to the display as it
/// is; for every other byte the display gets the placeholder. Only a newline
/// is handed on as a newline.
pub proof fn lemma_displayed(byte: u8)
    ensures
        is_printable(byte) || byte == NEWLINE ==> displayed(byte) == byte,
        !is_printable(byte) && byte != NEWLINE ==> displayed(byte) == PLACEHOLDER,
        displayed(byte) == NEWLINE <==> byte == NEWLINE,
{
}

/// Rendering keeps the length of a text and works byte by byte; a text of
/// printable ASCII alone is rendered as itself.
pub proof fn lemma_rendered(bytes: Seq<u8>)
    ensures
        rendered(bytes).len() == bytes.len(),
        forall|i: int|
            0 <= i < bytes.len() ==> rendered(bytes)[i] == displayed(#[trigger] bytes[i]),
        (forall|i: int| 0 <= i < bytes.len() ==> is_printable(#[trigger] bytes[i]))
            ==> rendered(bytes) == bytes,
{
    if forall|i: int| 0 <= i < bytes.len() ==> is_printable(#[trigger] bytes[i]) {
        assert(rendered(bytes) =~= bytes);
    }
}

/// A newline always moves the display up by exactly one line and puts the
/// cursor back to column 0, whether the bottom row was full or not.
pub proof fn lemma_newline_scrolls(screen: Screen)
    requires
        screen.wf(),
    ensures
        screen.put(NEWLINE) == screen.scroll(),
        screen.put(NEWLINE).column == 0,
{
}

/// A scroll keeps the content of every row but the top one: what stood in
/// row `row` stands in the row above it afterwards. The top row is lost.
pub proof fn lemma_scroll_keeps_rows(screen: Screen, row: int)
    requires
        screen.wf(),
        1 <= row <= 24,
    ensures
        screen.scroll().grid[row - 1] == screen.grid[row],
{
}

/// After a scroll the bottom row holds only spaces in the colors that were
/// current when the display scrolled, whatever stood there before.
pub proof fn lemma_scroll_blanks_bottom_row(screen: Screen, col: int)
    requires
        screen.wf(),
        0 <= col < 80,
    ensures
        screen.scroll().grid[24] == blank_row(screen.color),
        screen.scroll().grid[24][col] == ScreenChar::blank(screen.color),
        screen.scroll().color == screen.color,
{
}

/// Scrolling and writing keep a screen well-formed and keep its colors.
pub proof fn lemma_writing_keeps_wf(screen: Screen, bytes: Seq<u8>)
    requires
        screen.wf(),
    ensures
        screen.scroll().wf(),
        forall|byte: u8| (#[trigger] screen.put(byte)).wf() && screen.put(byte).color == screen.color,
        screen.put_all(bytes).wf(),
        screen.put_all(bytes).color == screen.color,
    decreases bytes.len(),
{
    if bytes.len() > 0 {
        lemma_writing_keeps_wf(screen, bytes.drop_last());
        lemma_writing_keeps_wf(screen.put_all(bytes.drop_last()), Seq::empty());
    }
}

/// Writing a text in two pieces gives what writing it in one piece gives.
pub proof fn lemma_put_all_concat(screen: Screen, first: Seq<u8>, second: Seq<u8>)
    ensures
        screen.put_all(first + second) == screen.put_all(first).put_all(second),
    decreases second.len(),
{
    if second.len() == 0 {
        assert(first + second =~= first);
    } else {
        assert((first + second).drop_last() =~= first + second.drop_last());
        lemma_put_all_concat(screen, first, second.drop_last());
    }
}

/// Writing a text without newlines byte by byte lays it out on lines of
/// eighty columns: the result is the typeset screen.
pub proof fn lemma_put_all_typesets(screen: Screen, bytes: Seq<u8>)
    requires
        screen.wf(),
        forall|i: int| 0 <= i < bytes.len() ==> bytes[i] != NEWLINE,
    ensures
        screen.put_all(bytes) == screen.typeset(bytes),
        screen.typeset(bytes).wf(),
    decreases bytes.len(),
{
    let goal = screen.typeset(bytes);
    if bytes.len() == 0 {
        assert forall|row: int| 0 <= row < 25 implies #[trigger] goal.grid[row]
            == screen.grid[row] by {
            assert(goal.grid[row] =~= screen.grid[row]);
        }
        assert(goal.grid =~= screen.grid);
    } else {
        lemma_put_all_typesets(screen, bytes.drop_last());
        let end = screen.typeset(bytes.drop_last()).put(bytes.last());
        assert forall|row: int| 0 <= row < 25 implies #[trigger] end.grid[row]
            == goal.grid[row] by {
            assert forall|col: int| 0 <= col < 80 implies #[trigger] end.grid[row][col]
                == goal.grid[row][col] by {
                assert(goal.grid[row][col] == screen.typeset_cell(bytes, row, col));
            }
            assert(end.grid[row] =~= goal.grid[row]);
        }
        assert(end.grid =~= goal.grid);
    }
}

/// A text without newlines that fits into what is left of the bottom row is
/// written there, from the cursor on, in the current colors; the cursor ends
/// behind it, and every other cell of the display stays as it was.
pub proof fn lemma_text_on_one_line(screen: Screen, bytes: Seq<u8>)
    requires
        screen.wf(),
        forall|i: int| 0 <= i < bytes.len() ==> bytes[i] != NEWLINE,
        screen.column + bytes.len() <= 80,
    ensures
        screen.put_all(bytes).column == screen.column + bytes.len(),
        screen.put_all(bytes).color == screen.color,
        forall|k: int|
            0 <= k < bytes.len() ==> screen.put_all(bytes).grid[24][screen.column + k]
                == screen.glyph(#[trigger] bytes[k]),
        forall|row: int, col: int|
            0 <= row < 25 && 0 <= col < 80 && !(row == 24 && screen.column <= col
                < screen.column + bytes.len()) ==> #[trigger] screen.put_all(bytes).grid[row][col]
                == screen.grid[row][col],
{
    lemma_put_all_typesets(screen, bytes);
}

/// At most eighty printable bytes, written on a fresh bottom row, are read
/// back from the first cells of that row, in order and in the current colors,
/// and the cursor column is their number. The bottom row is fresh where the
/// cursor stands at column 0, or where the row is full and the text is not
/// empty, so that its first byte scrolls.
pub proof fn lemma_short_text_fills_bottom_row(screen: Screen, bytes: Seq<u8>)
    requires
        screen.wf(),
        forall|i: int| 0 <= i < bytes.len() ==> is_printable(#[trigger] bytes[i]),
        bytes.len() <= 80,
        screen.column == 0 || (screen.column == 80 && bytes.len() > 0),
    ensures
        screen.put_all(rendered(bytes)).column == bytes.len(),
        forall|k: int|
            0 <= k < bytes.len() ==> screen.put_all(rendered(bytes)).grid[24][k]
                == screen.glyph(#[trigger] bytes[k]),
{
    lemma_rendered(bytes);
    lemma_put_all_typesets(screen, bytes);
}

/// Eighty-one printable bytes, written from column 0, scroll the display
/// exactly once, behind the eightieth byte. Before that scroll the first
/// eighty bytes fill the bottom row and the rows above it are as they were.
/// Afterwards those eighty bytes stand in the row above the bottom row, every
/// row above that holds what stood one row below it at the start, and the
/// last byte stands in column 0 of a bottom row that is blank behind it.
pub proof fn lemma_long_line_scrolls_once(screen: Screen, bytes: Seq<u8>)
    requires
        screen.wf(),
        screen.column == 0,
        bytes.len() == 81,
        forall|i: int| 0 <= i < bytes.len() ==> is_printable(#[trigger] bytes[i]),
    ensures
        screen.put_all(rendered(bytes)) == screen.put_all(bytes.take(80)).scroll().put(bytes[80]),
        screen.put_all(bytes.take(80)).grid[24] == Seq::new(80, |k: int| screen.glyph(bytes[k])),
        forall|row: int|
            0 <= row < 24 ==> #[trigger] screen.put_all(bytes.take(80)).grid[row]
                == screen.grid[row],
        screen.put_all(rendered(bytes)).column == 1,
        screen.put_all(rendered(bytes)).grid[23] == Seq::new(80, |k: int| screen.glyph(bytes[k])),
        forall|row: int|
            0 <= row < 23 ==> #[trigger] screen.put_all(rendered(bytes)).grid[row]
                == screen.grid[row + 1],
        screen.put_all(rendered(bytes)).grid[24][0] == screen.glyph(bytes[80]),
        forall|col: int|
            1 <= col < 80 ==> #[trigger] screen.put_all(rendered(bytes)).grid[24][col]
                == ScreenChar::blank(screen.color),
{
    lemma_rendered(bytes);
    let head = bytes.take(80);
    let line = screen.put_all(head);
    let end = screen.put_all(bytes);
    lemma_put_all_typesets(screen, bytes);
    lemma_put_all_typesets(screen, head);
    assert(bytes.drop_last() =~= head);
    assert(end == line.scroll().put(bytes[80])) by {
        assert(line.column == 80);
        assert(line.scroll().column == 0);
    }
    assert(line.grid[24] =~= Seq::new(80, |k: int| screen.glyph(bytes[k])));
    assert forall|row: int| 0 <= row < 24 implies #[trigger] line.grid[row]
        == screen.grid[row] by {
        assert(line.grid[row] =~= screen.grid[row]);
    }
    assert(end.grid[23] =~= Seq::new(80, |k: int| screen.glyph(bytes[k])));
    assert forall|row: int| 0 <= row < 23 implies #[trigger] end.grid[row]
        == screen.grid[row + 1] by {
        assert(end.grid[row] =~= screen.grid[row + 1]);
    }
}

/// A text without newlines is read back from the display as it was
/// rendered: byte `k` of the text is found in the cell where the layout puts
/// it, as the byte that was handed to the display for it and in the current
/// colors, as long as its line has not left the display at the top.
pub proof fn lemma_text_reads_back(screen: Screen, bytes: Seq<u8>, k: int)
    requires
        screen.wf(),
        forall|i: int| 0 <= i < bytes.len() ==> bytes[i] != NEWLINE,
        0 <= k < bytes.len(),
        0 <= screen.row_of(bytes, k),
    ensures
        screen.row_of(bytes, k) <= 24,
        0 <= screen.column_of(k) < 80,
        screen.put_all(rendered(bytes)).grid[screen.row_of(bytes, k)][screen.column_of(k)]
            == screen.glyph(displayed(bytes[k])),
{
    lemma_rendered(bytes);
    lemma_put_all_typesets(screen, rendered(bytes));
    assert(screen.lines_added(rendered(bytes)) == screen.lines_added(bytes));
    assert(screen.typeset(rendered(bytes)).grid[screen.row_of(bytes, k)][screen.column_of(k)]
        == screen.typeset_cell(rendered(bytes), screen.row_of(bytes, k), screen.column_of(k)));
}

/// A text of printable ASCII is read back from the display byte for byte:
/// byte `k` is found, unchanged, in the cell where the layout puts it, as
/// long as its line has not left the display at the top.
pub proof fn lemma_printable_text_reads_back(screen: Screen, bytes: Seq<u8>, k: int)
    requires
        screen.wf(),
        forall|i: int| 0 <= i < bytes.len() ==> is_printable(#[trigger] bytes[i]),
        0 <= k < bytes.len(),
        0 <= screen.row_of(bytes, k),
    ensures
        screen.put_all(rendered(bytes)).grid[screen.row_of(bytes, k)][screen.column_of(
            k,
        )].ascii_character == bytes[k],
{
    lemma_text_reads_back(screen, bytes, k);
}

} // verus!
