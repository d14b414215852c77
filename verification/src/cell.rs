use vstd::prelude::*;
use crate::color::ColorCode;

verus! {

/// The byte of a space, which a blank cell shows.
pub const SPACE: u8 = 0x20;

/// One character position of the display: the byte shown and its colors.
#[derive(Debug, Clone, Copy, PartialEq, Eq, Structural)]
pub struct ScreenChar {
    pub ascii_character: u8,
    pub color_code: ColorCode,
}

impl ScreenChar {
    /// A space in the given colors.
    pub open spec fn blank(color_code: ColorCode) -> ScreenChar {
        ScreenChar { ascii_character: SPACE, color_code }
    }

    /// The two bytes of a cell as the display hardware reads them:
    /// the character first, then the attribute.
    pub open spec fn bytes(self) -> Seq<u8> {
        seq![self.ascii_character, self.color_code@]
    }

    /// The cell that two bytes in hardware order stand for.
    pub open spec fn of_bytes(bytes: Seq<u8>) -> ScreenChar {
        ScreenChar { ascii_character: bytes[0], color_code: ColorCode::of(bytes[1]) }
    }

    /// A cell is found again in its two bytes.
    pub proof fn lemma_bytes_round_trip(self)
        ensures
            self.bytes().len() == 2,
            ScreenChar::of_bytes(self.bytes()) == self,
    {
        self.color_code.lemma_of_view();
    }

    /// The cell as two bytes in hardware order.
    pub fn to_bytes(self) -> (bytes: [u8; 2])
        ensures
            bytes@ == self.bytes(),
        no_unwind
    {
        let bytes: [u8; 2] = [self.ascii_character, self.color_code.byte()];
        assert(bytes@ =~= self.bytes());
        bytes
    }

    /// The cell that two bytes read from the display stand for.
    pub(crate) fn from_bytes(bytes: [u8; 2]) -> (cell: ScreenChar)
        ensures
            cell == ScreenChar::of_bytes(bytes@),
    {
        ScreenChar { ascii_character: bytes[0], color_code: ColorCode::from_byte(bytes[1]) }
    }
}

} // verus!
