//! Colours of the display and the attribute byte that packs two of them.

use vstd::prelude::*;

verus! {

/// One of the sixteen colours of the display's palette.
#[derive(Debug, Clone, Copy, PartialEq, Eq, Structural)]
pub enum Color {
    Black,
    Blue,
    Green,
    Cyan,
    Red,
    Magenta,
    Brown,
    LightGray,
    DarkGray,
    LightBlue,
    LightGreen,
    LightCyan,
    LightRed,
    Pink,
    Yellow,
    White,
}

impl Color {
    /// The colour's four-bit index in the palette.
    pub open spec fn spec_index(self) -> u8 {
        match self {
            Color::Black => 0,
            Color::Blue => 1,
            Color::Green => 2,
            Color::Cyan => 3,
            Color::Red => 4,
            Color::Magenta => 5,
            Color::Brown => 6,
            Color::LightGray => 7,
            Color::DarkGray => 8,
            Color::LightBlue => 9,
            Color::LightGreen => 10,
            Color::LightCyan => 11,
            Color::LightRed => 12,
            Color::Pink => 13,
            Color::Yellow => 14,
            Color::White => 15,
        }
    }

    /// The colour's four-bit index in the palette.
    #[verifier::when_used_as_spec(spec_index)]
    pub fn index(self) -> (i: u8)
        ensures
            i == self.spec_index(),
            i < 16,
    {
        match self {
            Color::Black => 0,
            Color::Blue => 1,
            Color::Green => 2,
            Color::Cyan => 3,
            Color::Red => 4,
            Color::Magenta => 5,
            Color::Brown => 6,
            Color::LightGray => 7,
            Color::DarkGray => 8,
            Color::LightBlue => 9,
            Color::LightGreen => 10,
            Color::LightCyan => 11,
            Color::LightRed => 12,
            Color::Pink => 13,
            Color::Yellow => 14,
            Color::White => 15,
        }
    }

    /// The colour with the given palette index, if there is one.
    pub fn from_index(i: u8) -> (color: Option<Color>)
        ensures
            color is Some <==> i < 16,
            color is Some ==> color->0.index() == i,
    {
        match i {
            0 => Some(Color::Black),
            1 => Some(Color::Blue),
            2 => Some(Color::Green),
            3 => Some(Color::Cyan),
            4 => Some(Color::Red),
            5 => Some(Color::Magenta),
            6 => Some(Color::Brown),
            7 => Some(Color::LightGray),
            8 => Some(Color::DarkGray),
            9 => Some(Color::LightBlue),
            10 => Some(Color::LightGreen),
            11 => Some(Color::LightCyan),
            12 => Some(Color::LightRed),
            13 => Some(Color::Pink),
            14 => Some(Color::Yellow),
            15 => Some(Color::White),
            _ => None,
        }
    }
}

/// The attribute byte for a background and a foreground colour: the
/// background's index in the high four bits, the foreground's in the low four.
pub open spec fn packed(background_color: Color, foreground_color: Color) -> u8 {
    (background_color.index() << 4) | foreground_color.index()
}

/// The attribute byte of a cell: the background colour in the high four
/// bits, the foreground colour in the low four.
#[derive(Debug, Clone, Copy, PartialEq, Eq, Structural)]
pub struct ColorCode(u8);

impl View for ColorCode {
    type V = u8;

    closed spec fn view(&self) -> u8 {
        self.0
    }
}

impl ColorCode {
    /// The attribute whose byte is `byte`.
    pub closed spec fn of_byte(byte: u8) -> ColorCode {
        ColorCode(byte)
    }

    /// An attribute is its byte and nothing more.
    pub broadcast proof fn byte_determines(byte: u8)
        ensures
            (#[trigger] ColorCode::of_byte(byte))@ == byte,
    {
    }

    /// An attribute is its byte and nothing more.
    pub broadcast proof fn view_determines(self)
        ensures
            ColorCode::of_byte(#[trigger] self@) == self,
    {
    }

    /// Packs a background and a foreground colour into one attribute.
    pub fn new(background_color: Color, foreground_color: Color) -> (code: ColorCode)
        ensures
            code@ == packed(background_color, foreground_color),
            code@ >> 4 == background_color.index(),
            code@ & 0x0f == foreground_color.index(),
    {
        let high: u8 = background_color.index();
        let low: u8 = foreground_color.index();
        assert(((high << 4) | low) >> 4 == high && ((high << 4) | low) & 0x0f == low) by (bit_vector)
            requires
                high < 16,
                low < 16,
        ;
        ColorCode((high << 4) | low)
    }

    /// The attribute as the device stores it.
    pub fn byte(self) -> (byte: u8)
        ensures
            byte == self@,
    {
        self.0
    }

    /// The attribute that the device stores as `byte`.
    pub fn from_byte(byte: u8) -> (code: ColorCode)
        ensures
            code == ColorCode::of_byte(byte),
            code@ == byte,
    {
        ColorCode(byte)
    }

    /// The background colour.
    pub fn background(self) -> (color: Color)
        ensures
            color.index() == self@ >> 4,
    {
        let byte: u8 = self.0;
        let high: u8 = byte >> 4;
        assert(high < 16) by (bit_vector)
            requires
                high == byte >> 4,
        ;
        match Color::from_index(high) {
            Some(color) => color,
            None => Color::Black,
        }
    }

    /// The foreground colour.
    pub fn foreground(self) -> (color: Color)
        ensures
            color.index() == self@ & 0x0f,
    {
        let byte: u8 = self.0;
        let low: u8 = byte & 0x0f;
        assert(low < 16) by (bit_vector)
            requires
                low == byte & 0x0f,
        ;
        match Color::from_index(low) {
            Some(color) => color,
            None => Color::Black,
        }
    }
}


impl Default for ColorCode {
    /// The attribute that the console draws with unless told otherwise:
    /// yellow on black.
    fn default() -> (code: ColorCode)
        ensures
            code@ == packed(Color::Black, Color::Yellow),
            code@ == 0x0e,
    {
        let code = ColorCode::new(Color::Black, Color::Yellow);
        assert((0u8 << 4) | 14u8 == 0x0e) by (bit_vector);
        code
    }
}

} // verus!
