//! One cell of the display, and the two bytes that the device keeps for it.

use vstd::prelude::*;
use crate::color::ColorCode;

verus! {

/// A cell of the grid: a glyph code and the attribute it is drawn with.
#[derive(Debug, Clone, Copy, PartialEq, Eq, Structural)]
pub struct ScreenChar {
    pub character: u8,
    pub color_code: ColorCode,
}

impl ScreenChar {
    /// The cell as the device lays it out: the glyph byte, then the
    /// attribute byte.
    pub open spec fn bytes(self) -> Seq<u8> {
        seq![self.character, self.color_code@]
    }

    /// The cell that two bytes of device memory stand for.
    pub open spec fn of_bytes(pair: Seq<u8>) -> ScreenChar {
        ScreenChar { character: pair[0], color_code: ColorCode::of_byte(pair[1]) }
    }

    /// Decoding the bytes of a cell gives the cell back.
    pub broadcast proof fn bytes_round_trip(self)
        ensures
            ScreenChar::of_bytes(#[trigger] self.bytes()) == self,
    {
        broadcast use ColorCode::view_determines;

    }

    /// Lays the cell out as the device expects it.
    pub fn to_bytes(self) -> (pair: [u8; 2])
        ensures
            pair@ == self.bytes(),
    {
        let pair: [u8; 2] = [self.character, self.color_code.byte()];
        assert(pair@ =~= self.bytes());
        pair
    }

    /// Reads a cell from two bytes of device memory.
    pub fn from_bytes(pair: [u8; 2]) -> (cell: ScreenChar)
        ensures
            cell == ScreenChar::of_bytes(pair@),
    {
        ScreenChar { character: pair[0], color_code: ColorCode::from_byte(pair[1]) }
    }
}

} // verus!
