//! The console as a mathematical value: a cursor column, the attribute in
//! use and the grid of cells. The functions here say what each operation of
//! the writer does; the writer is proved to do exactly that.

use vstd::prelude::*;
use crate::cell::ScreenChar;
use crate::color::ColorCode;

verus! {

/// Columns of the grid.
pub const BUFFER_WIDTH: usize = 80;

/// Rows of the grid.
pub const BUFFER_HEIGHT: usize = 25;

/// The byte that ends a line.
pub const NEWLINE: u8 = 0x0a;

/// The glyph of an empty cell.
pub const BLANK: u8 = 0x20;

/// The glyph drawn in place of a byte that the display has no glyph for.
pub const UNRENDERABLE: u8 = 0xfe;

/// Whether `byte` is a printable ASCII byte.
pub open spec fn is_printable(byte: u8) -> bool {
    0x20 <= byte <= 0x7e
}

/// The byte that the console is given for an input byte: the byte itself
/// where it is printable or ends a line, the placeholder glyph otherwise.
pub open spec fn rendered(byte: u8) -> u8 {
    if is_printable(byte) || byte == NEWLINE {
        byte
    } else {
        UNRENDERABLE
    }
}

/// The byte that the console is given for an input byte. Every byte has
/// one: what the display cannot show is replaced, never refused.
pub fn render(byte: u8) -> (glyph: u8)
    ensures
        glyph == rendered(byte),
{
    if (0x20 <= byte && byte <= 0x7e) || byte == NEWLINE {
        byte
    } else {
        UNRENDERABLE
    }
}

/// A row of empty cells drawn with `color`.
pub open spec fn blank_row(color: ColorCode) -> Seq<ScreenChar> {
    Seq::new(BUFFER_WIDTH as nat, |col: int| ScreenChar { character: BLANK, color_code: color })
}

/// Whether `grid` has the display's fixed shape.
pub open spec fn is_grid(grid: Seq<Seq<ScreenChar>>) -> bool {
    &&& grid.len() == BUFFER_HEIGHT
    &&& forall|row: int| 0 <= row < BUFFER_HEIGHT ==> (#[trigger] grid[row]).len() == BUFFER_WIDTH
}

/// The state of a console.
pub ghost struct Console {
    /// The column of the last row that the next byte is drawn at.
    pub column: nat,
    /// The attribute that cells are drawn with.
    pub color: ColorCode,
    /// The cells, row by row, the top row first.
    pub grid: Seq<Seq<ScreenChar>>,
}

impl Console {
    /// The grid has its fixed shape and the cursor is on the last row or
    /// just past its end.
    pub open spec fn well_formed(self) -> bool {
        &&& self.column <= BUFFER_WIDTH
        &&& is_grid(self.grid)
    }

    /// The console after a line ends: every row moves up by one, the top
    /// row is lost, the last row is empty, and the cursor is at its start.
    pub open spec fn new_line(self) -> Console {
        Console {
            column: 0,
            color: self.color,
            grid: self.grid.subrange(1, BUFFER_HEIGHT as int).push(blank_row(self.color)),
        }
    }

    /// The console after `byte` is drawn at the cursor.
    pub open spec fn put(self, byte: u8) -> Console {
        let last = BUFFER_HEIGHT - 1;
        let cell = ScreenChar { character: byte, color_code: self.color };
        Console {
            column: self.column + 1,
            color: self.color,
            grid: self.grid.update(last, self.grid[last].update(self.column as int, cell)),
        }
    }

    /// The console after one device byte is written: a line end scrolls; any
    /// other byte is drawn, after a scroll where the last row is full.
    pub open spec fn write_byte(self, byte: u8) -> Console {
        if byte == NEWLINE {
            self.new_line()
        } else if self.column >= BUFFER_WIDTH {
            self.new_line().put(byte)
        } else {
            self.put(byte)
        }
    }

    /// The console after each of `bytes` is written in turn, as `rendered`
    /// gives it.
    pub open spec fn write_string(self, bytes: Seq<u8>) -> Console
        decreases bytes.len(),
    {
        if bytes.len() == 0 {
            self
        } else {
            self.write_string(bytes.drop_last()).write_byte(rendered(bytes.last()))
        }
    }
}

} // verus!
