use vstd::prelude::*;

verus! {

/// The sixteen colors of the text-mode palette, in palette order.
#[derive(Debug, Clone, Copy, PartialEq, Eq, Structural)]
pub enum Color {
    Black,
    Blue,
    Green,
    Cyan,
    Red,
    Magenta,
    Brown,
    LightGray,
    DarkGray,
    LightBlue,
    LightGreen,
    LightCyan,
    LightRed,
    Pink,
    Yellow,
    White,
}

impl Color {
    /// The palette index of a color.
    pub open spec fn spec_index(self) -> u8 {
        match self {
            Color::Black => 0,
            Color::Blue => 1,
            Color::Green => 2,
            Color::Cyan => 3,
            Color::Red => 4,
            Color::Magenta => 5,
            Color::Brown => 6,
            Color::LightGray => 7,
            Color::DarkGray => 8,
            Color::LightBlue => 9,
            Color::LightGreen => 10,
            Color::LightCyan => 11,
            Color::LightRed => 12,
            Color::Pink => 13,
            Color::Yellow => 14,
            Color::White => 15,
        }
    }

    /// The palette index of a color, a number below sixteen.
    #[verifier::when_used_as_spec(spec_index)]
    pub fn index(self) -> (index: u8)
        ensures
            index == self.spec_index(),
            index < 16,
    {
        match self {
            Color::Black => 0,
            Color::Blue => 1,
            Color::Green => 2,
            Color::Cyan => 3,
            Color::Red => 4,
            Color::Magenta => 5,
            Color::Brown => 6,
            Color::LightGray => 7,
            Color::DarkGray => 8,
            Color::LightBlue => 9,
            Color::LightGreen => 10,
            Color::LightCyan => 11,
            Color::LightRed => 12,
            Color::Pink => 13,
            Color::Yellow => 14,
            Color::White => 15,
        }
    }

    /// The color at a palette index below sixteen.
    pub open spec fn of_index(index: u8) -> Color
        recommends
            index < 16,
    {
        if index == 0 {
            Color::Black
        } else if index == 1 {
            Color::Blue
        } else if index == 2 {
            Color::Green
        } else if index == 3 {
            Color::Cyan
        } else if index == 4 {
            Color::Red
        } else if index == 5 {
            Color::Magenta
        } else if index == 6 {
            Color::Brown
        } else if index == 7 {
            Color::LightGray
        } else if index == 8 {
            Color::DarkGray
        } else if index == 9 {
            Color::LightBlue
        } else if index == 10 {
            Color::LightGreen
        } else if index == 11 {
            Color::LightCyan
        } else if index == 12 {
            Color::LightRed
        } else if index == 13 {
            Color::Pink
        } else if index == 14 {
            Color::Yellow
        } else {
            Color::White
        }
    }

    /// Every color has an index below sixteen, and no two colors share one.
    pub proof fn lemma_index_unique(a: Color, b: Color)
        ensures
            a.index() < 16,
            a.index() == b.index() <==> a == b,
    {
    }
}

/// The attribute byte of a cell as the pair of palette indices it packs:
/// the background in the high four bits, the foreground in the low four.
pub open spec fn packed(foreground: Color, background: Color) -> u8 {
    (background.index() << 4) | foreground.index()
}

/// A foreground and a background color packed into one attribute byte.
#[derive(Debug, Clone, Copy, PartialEq, Eq, Structural)]
pub struct ColorCode(u8);

impl View for ColorCode {
    type V = u8;

    closed spec fn view(&self) -> u8 {
        self.0
    }
}

impl ColorCode {
    /// Packs `foreground` and `background` into an attribute byte.
    pub fn new(foreground: Color, background: Color) -> (code: ColorCode)
        ensures
            code == ColorCode::of(packed(foreground, background)),
            code@ == packed(foreground, background),
            code@ == 16 * background.index() + foreground.index(),
            code.foreground() == foreground.index(),
            code.background() == background.index(),
    {
        let f: u8 = foreground.index();
        let b: u8 = background.index();
        let byte: u8 = (b << 4) | f;
        assert(byte == 16 * b + f && byte & 0x0f == f && byte >> 4 == b) by (bit_vector)
            requires
                f < 16,
                b < 16,
                byte == (b << 4) | f,
        ;
        ColorCode(byte)
    }

    /// The low four bits of the attribute byte.
    pub open spec fn foreground(self) -> u8 {
        self@ & 0x0f
    }

    /// The high four bits of the attribute byte.
    pub open spec fn background(self) -> u8 {
        self@ >> 4
    }

    /// The attribute byte.
    pub fn byte(self) -> (byte: u8)
        ensures
            byte == self@,
        no_unwind
    {
        self.0
    }

    /// The code whose attribute byte is `byte`.
    pub closed spec fn of(byte: u8) -> ColorCode {
        ColorCode(byte)
    }

    /// The code that an attribute byte found in the grid stands for.
    pub(crate) fn from_byte(byte: u8) -> (code: ColorCode)
        ensures
            code == ColorCode::of(byte),
    {
        ColorCode(byte)
    }

    /// The code of an attribute byte has that byte.
    pub proof fn lemma_of_byte(byte: u8)
        ensures
            ColorCode::of(byte)@ == byte,
    {
    }

    /// A code is the code of its attribute byte: two codes with the same
    /// byte are the same code.
    pub proof fn lemma_of_view(self)
        ensures
            ColorCode::of(self@) == self,
    {
    }

    /// Every attribute byte packs some pair of colors.
    pub proof fn lemma_every_byte_packs_colors(byte: u8)
        ensures
            exists|foreground: Color, background: Color|
                packed(foreground, background) == byte,
    {
        let low: u8 = byte & 0x0f;
        let high: u8 = byte >> 4;
        assert(low < 16 && high < 16 && (high << 4) | low == byte) by (bit_vector)
            requires
                low == byte & 0x0f,
                high == byte >> 4,
        ;
        let foreground = Color::of_index(low);
        let background = Color::of_index(high);
        assert(packed(foreground, background) == byte);
    }
}

} // verus!
