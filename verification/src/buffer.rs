use vstd::prelude::*;
use volatile::Volatile;
use crate::cell::ScreenChar;

verus! {

/// The address at which the display hardware maps its character grid.
pub const BUFFER_ADDRESS: usize = 0xb8000;

/// The number of rows of the display.
pub const BUFFER_HEIGHT: usize = 25;

/// The number of columns of the display.
pub const BUFFER_WIDTH: usize = 80;

/// `volatile::Volatile`, a wrapper of the size of the value it holds, which
/// reaches that value only by volatile memory accesses. Nothing of its inside
/// is visible to the verifier.
#[verifier::external_type_specification]
#[verifier::external_body]
#[verifier::reject_recursive_types(T)]
pub struct ExVolatile<T: Copy>(Volatile<T>);

/// The two bytes that a cell of the display holds: what a volatile read of
/// the cell hands back, and what the last volatile write to it stored. This
/// takes the display's memory to keep what is written to it, as the memory
/// of the text-mode grid does.
pub uninterp spec fn cell_bytes(cell: Volatile<[u8; 2]>) -> Seq<u8>;

/// `Volatile::read`. The contract claims that the volatile read hands back
/// a copy of the two bytes that the cell holds. The method never panics.
#[verifier::external_body]
fn volatile_read(cell: &Volatile<[u8; 2]>) -> (bytes: [u8; 2])
    ensures
        bytes@ == cell_bytes(*cell),
{
    cell.read()
}

/// `Volatile::write`. The contract claims that after the volatile write the
/// cell holds the two bytes given, and that the method never panics, as its
/// documentation says.
#[verifier::external_body]
fn volatile_write(cell: &mut Volatile<[u8; 2]>, bytes: [u8; 2])
    ensures
        cell_bytes(*final(cell)) == bytes@,
    no_unwind
{
    cell.write(bytes)
}

/// The memory of the display, one volatile cell of two bytes for each
/// character position, row after row.
pub type Cells = [[Volatile<[u8; 2]>; BUFFER_WIDTH]; BUFFER_HEIGHT];

/// What the cells show: for each row from the top, the characters of its
/// columns from the left.
pub open spec fn grid_of(cells: Cells) -> Seq<Seq<ScreenChar>> {
    Seq::new(
        BUFFER_HEIGHT as nat,
        |row: int|
            Seq::new(
                BUFFER_WIDTH as nat,
                |col: int| ScreenChar::of_bytes(cell_bytes(cells[row][col])),
            ),
    )
}

/// The character grid of the display. It owns the one reference to the
/// display's memory, and reaches a cell only by a volatile read or write.
pub struct Buffer {
    chars: &'static mut Cells,
}

impl View for Buffer {
    type V = Seq<Seq<ScreenChar>>;

    closed spec fn view(&self) -> Seq<Seq<ScreenChar>> {
        grid_of(*self.chars)
    }
}

impl Buffer {
    /// Takes over the memory of the display. The reference is the only one
    /// to that memory from then on, and it is left as it was found.
    pub fn new(chars: &'static mut Cells) -> (buffer: Buffer)
        ensures
            buffer@ == grid_of(*old(chars)),
    {
        Buffer { chars }
    }

    /// A grid has twenty-five rows of eighty columns.
    pub proof fn lemma_dimensions(&self)
        ensures
            self@.len() == BUFFER_HEIGHT,
            forall|row: int|
                0 <= row < BUFFER_HEIGHT ==> (#[trigger] self@[row]).len() == BUFFER_WIDTH,
    {
    }

    /// Reads the cell at `row` and `col` from the display's memory.
    pub fn read(&self, row: usize, col: usize) -> (cell: ScreenChar)
        requires
            row < BUFFER_HEIGHT,
            col < BUFFER_WIDTH,
        ensures
            cell == self@[row as int][col as int],
    {
        ScreenChar::from_bytes(volatile_read(&self.chars[row][col]))
    }

    /// Writes `cell` to the display's memory at `row` and `col`; every other
    /// cell stays as it was.
    pub fn write(&mut self, row: usize, col: usize, cell: ScreenChar)
        requires
            row < BUFFER_HEIGHT,
            col < BUFFER_WIDTH,
        ensures
            final(self)@ == old(self)@.update(
                row as int,
                old(self)@[row as int].update(col as int, cell),
            ),
        no_unwind
    {
        volatile_write(&mut self.chars[row][col], cell.to_bytes());
        proof {
            cell.lemma_bytes_round_trip();
            assert(self@ =~~= old(self)@.update(
                row as int,
                old(self)@[row as int].update(col as int, cell),
            ));
        }
    }
}

} // verus!
