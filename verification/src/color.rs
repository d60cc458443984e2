//! The sixteen hardware colours and the attribute byte that pairs two of them.

use vstd::prelude::*;

verus! {

/// The sixteen colours of the text-mode palette, in hardware order:
/// `Black` is 0 and `White` is 15.
#[derive(Debug, Clone, Copy, PartialEq, Eq, Structural)]
pub enum Color {
    Black,
    Blue,
    Green,
    Cyan,
    Red,
    Magenta,
    Brown,
    LightGray,
    DarkGray,
    LightBlue,
    LightGreen,
    LightCyan,
    LightRed,
    Pink,
    Yellow,
    White,
}

impl Color {
    /// The palette index of a colour, 0 to 15.
    pub open spec fn spec_ordinal(self) -> u8 {
        match self {
            Color::Black => 0,
            Color::Blue => 1,
            Color::Green => 2,
            Color::Cyan => 3,
            Color::Red => 4,
            Color::Magenta => 5,
            Color::Brown => 6,
            Color::LightGray => 7,
            Color::DarkGray => 8,
            Color::LightBlue => 9,
            Color::LightGreen => 10,
            Color::LightCyan => 11,
            Color::LightRed => 12,
            Color::Pink => 13,
            Color::Yellow => 14,
            Color::White => 15,
        }
    }

    /// The colour with a given palette index. Indices above 15 name no
    /// colour; this function lets them stand for `White`.
    pub open spec fn spec_from_ordinal(index: u8) -> Color {
        if index == 0 {
            Color::Black
        } else if index == 1 {
            Color::Blue
        } else if index == 2 {
            Color::Green
        } else if index == 3 {
            Color::Cyan
        } else if index == 4 {
            Color::Red
        } else if index == 5 {
            Color::Magenta
        } else if index == 6 {
            Color::Brown
        } else if index == 7 {
            Color::LightGray
        } else if index == 8 {
            Color::DarkGray
        } else if index == 9 {
            Color::LightBlue
        } else if index == 10 {
            Color::LightGreen
        } else if index == 11 {
            Color::LightCyan
        } else if index == 12 {
            Color::LightRed
        } else if index == 13 {
            Color::Pink
        } else if index == 14 {
            Color::Yellow
        } else {
            Color::White
        }
    }

    /// The palette index of this colour.
    #[verifier::when_used_as_spec(spec_ordinal)]
    pub fn ordinal(self) -> (index: u8)
        ensures
            index == self.spec_ordinal(),
            index < 16,
    {
        match self {
            Color::Black => 0,
            Color::Blue => 1,
            Color::Green => 2,
            Color::Cyan => 3,
            Color::Red => 4,
            Color::Magenta => 5,
            Color::Brown => 6,
            Color::LightGray => 7,
            Color::DarkGray => 8,
            Color::LightBlue => 9,
            Color::LightGreen => 10,
            Color::LightCyan => 11,
            Color::LightRed => 12,
            Color::Pink => 13,
            Color::Yellow => 14,
            Color::White => 15,
        }
    }

    /// The colour with the given palette index, if there is one.
    pub fn from_ordinal(index: u8) -> (color: Option<Color>)
        ensures
            index < 16 ==> color == Some(Color::spec_from_ordinal(index)),
            index >= 16 ==> color.is_none(),
            color matches Some(c) ==> c.spec_ordinal() == index,
    {
        match index {
            0 => Some(Color::Black),
            1 => Some(Color::Blue),
            2 => Some(Color::Green),
            3 => Some(Color::Cyan),
            4 => Some(Color::Red),
            5 => Some(Color::Magenta),
            6 => Some(Color::Brown),
            7 => Some(Color::LightGray),
            8 => Some(Color::DarkGray),
            9 => Some(Color::LightBlue),
            10 => Some(Color::LightGreen),
            11 => Some(Color::LightCyan),
            12 => Some(Color::LightRed),
            13 => Some(Color::Pink),
            14 => Some(Color::Yellow),
            15 => Some(Color::White),
            _ => None,
        }
    }

    /// Every colour has an index below 16, and the index names the colour.
    pub proof fn lemma_ordinal_round_trip(color: Color)
        ensures
            color.spec_ordinal() < 16,
            Color::spec_from_ordinal(color.spec_ordinal()) == color,
    {
    }
}

/// An attribute byte: the background colour in the high four bits, the
/// foreground colour in the low four. Every byte is a valid attribute.
#[derive(Debug, Clone, Copy, PartialEq, Eq)]
pub struct ColorCode(u8);

impl View for ColorCode {
    type V = u8;

    closed spec fn view(&self) -> u8 {
        self.0
    }
}

impl ColorCode {
    /// The attribute byte for a foreground and a background colour.
    pub open spec fn packed(foreground: Color, background: Color) -> u8 {
        (background.spec_ordinal() << 4) | foreground.spec_ordinal()
    }

    /// The foreground colour that an attribute byte encodes.
    pub open spec fn foreground_of(byte: u8) -> Color {
        Color::spec_from_ordinal(byte & 0x0f)
    }

    /// The background colour that an attribute byte encodes.
    pub open spec fn background_of(byte: u8) -> Color {
        Color::spec_from_ordinal(byte >> 4)
    }

    /// The attribute with the given byte.
    pub closed spec fn spec_from_num(byte: u8) -> ColorCode {
        ColorCode(byte)
    }

    /// Pairs a foreground with a background colour.
    pub fn new(foreground: Color, background: Color) -> (code: ColorCode)
        ensures
            code@ == ColorCode::packed(foreground, background),
            ColorCode::foreground_of(code@) == foreground,
            ColorCode::background_of(code@) == background,
    {
        let fg: u8 = foreground.ordinal();
        let bg: u8 = background.ordinal();
        proof {
            ColorCode::lemma_nibbles(fg, bg);
            Color::lemma_ordinal_round_trip(foreground);
            Color::lemma_ordinal_round_trip(background);
        }
        ColorCode((bg << 4) | fg)
    }

    /// Takes a byte that is already an attribute, as it is.
    pub fn from_num(color: &u8) -> (code: ColorCode)
        ensures
            code@ == *color,
            code == ColorCode::spec_from_num(*color),
    {
        ColorCode(*color)
    }

    /// The attribute byte.
    pub fn to_num(&self) -> (byte: u8)
        ensures
            byte == self@,
    {
        self.0
    }

    /// The foreground colour, from the low four bits.
    pub fn foreground(&self) -> (color: Color)
        ensures
            color == ColorCode::foreground_of(self@),
    {
        let byte: u8 = self.0;
        let index: u8 = byte & 0x0f;
        assert(index < 16) by (bit_vector)
            requires
                index == byte & 0x0f,
        ;
        match Color::from_ordinal(index) {
            Some(color) => color,
            None => Color::White,
        }
    }

    /// The background colour, from the high four bits.
    pub fn background(&self) -> (color: Color)
        ensures
            color == ColorCode::background_of(self@),
    {
        let byte: u8 = self.0;
        let index: u8 = byte >> 4;
        assert(index < 16) by (bit_vector)
            requires
                index == byte >> 4,
        ;
        match Color::from_ordinal(index) {
            Some(color) => color,
            None => Color::White,
        }
    }

    /// Two four-bit values packed into a byte come apart again unchanged.
    pub proof fn lemma_nibbles(low: u8, high: u8)
        requires
            low < 16,
            high < 16,
        ensures
            ((high << 4) | low) & 0x0f == low,
            ((high << 4) | low) >> 4 == high,
    {
        assert(((high << 4) | low) & 0x0f == low && ((high << 4) | low) >> 4 == high)
            by (bit_vector)
            requires
                low < 16,
                high < 16,
        ;
    }

    /// For each of the 16 x 16 pairs, the attribute built from a foreground
    /// and a background colour decodes to that same pair.
    pub proof fn lemma_pair_round_trip(foreground: Color, background: Color)
        ensures
            ColorCode::foreground_of(ColorCode::packed(foreground, background)) == foreground,
            ColorCode::background_of(ColorCode::packed(foreground, background)) == background,
    {
        ColorCode::lemma_nibbles(foreground.spec_ordinal(), background.spec_ordinal());
        Color::lemma_ordinal_round_trip(foreground);
        Color::lemma_ordinal_round_trip(background);
    }

    /// An attribute is its byte: two attributes with the same byte are equal.
    pub proof fn lemma_equal_by_byte(a: ColorCode, b: ColorCode)
        requires
            a@ == b@,
        ensures
            a == b,
    {
    }

    /// The attribute made from a byte has that byte.
    pub proof fn lemma_from_num_view(byte: u8)
        ensures
            ColorCode::spec_from_num(byte)@ == byte,
    {
    }
}

} // verus!
