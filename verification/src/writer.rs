//! The writer: the one value through which the frame buffer is changed.

use vstd::prelude::*;
use vstd::string::StringSliceAdditionalSpecFns;
use crate::cell::ScreenChar;
use crate::color::ColorCode;
use crate::frame::{grid_of, load, store, FrameBuffer};
use crate::model::{
    blank_row, is_grid, render, Console, BLANK, BUFFER_HEIGHT, BUFFER_WIDTH, NEWLINE,
};

verus! {

/// A console on a frame buffer. It holds the buffer exclusively for as long
/// as it lives, draws at a cursor on the last row, and scrolls when a line
/// ends or is full.
pub struct Writer<'a> {
    column_position: usize,
    color_code: ColorCode,
    buffer: &'a mut FrameBuffer,
}

impl<'a> View for Writer<'a> {
    type V = Console;

    closed spec fn view(&self) -> Console {
        Console {
            column: self.column_position as nat,
            color: self.color_code,
            grid: grid_of(*self.buffer),
        }
    }
}

impl<'a> Writer<'a> {
    #[verifier::type_invariant]
    spec fn cursor_in_row(self) -> bool {
        self.column_position <= BUFFER_WIDTH
    }

    /// What a writer shows always has the display's shape.
    pub broadcast proof fn lemma_shows_a_grid(self)
        ensures
            is_grid(#[trigger] self@.grid),
    {
    }

    /// A writer on `buffer` that draws with `color_code`, its cursor at the
    /// start of the last row. What the buffer shows is left as it is.
    pub fn new(buffer: &'a mut FrameBuffer, color_code: ColorCode) -> (writer: Writer<'a>)
        ensures
            writer@ == (Console { column: 0, color: color_code, grid: grid_of(*old(buffer)) }),
            writer@.well_formed(),
    {
        Writer { column_position: 0, color_code, buffer }
    }

    /// The column that the next byte is drawn at.
    pub fn column_position(&self) -> (column: usize)
        ensures
            column == self@.column,
            column <= BUFFER_WIDTH,
            self@.well_formed(),
    {
        proof {
            use_type_invariant(self);
        }
        self.column_position
    }

    /// The attribute that cells are drawn with.
    pub fn color_code(&self) -> (color: ColorCode)
        ensures
            color == self@.color,
    {
        self.color_code
    }

    /// The cell shown at `row` and `col`, if the grid has such a cell.
    pub fn read_cell(&self, row: usize, col: usize) -> (cell: Option<ScreenChar>)
        ensures
            cell is Some <==> row < BUFFER_HEIGHT && col < BUFFER_WIDTH,
            cell is Some ==> cell->0 == self@.grid[row as int][col as int],
    {
        if row < BUFFER_HEIGHT && col < BUFFER_WIDTH {
            Some(ScreenChar::from_bytes(self.load_at(row, col)))
        } else {
            None
        }
    }

    /// The two bytes of device memory at `row` and `col`.
    fn load_at(&self, row: usize, col: usize) -> (pair: [u8; 2])
        requires
            row < BUFFER_HEIGHT,
            col < BUFFER_WIDTH,
        ensures
            ScreenChar::of_bytes(pair@) == self@.grid[row as int][col as int],
    {
        load(&self.buffer[row][col])
    }

    /// Puts two bytes into device memory at `row` and `col`; no other cell
    /// changes.
    fn store_at(&mut self, row: usize, col: usize, pair: [u8; 2])
        requires
            row < BUFFER_HEIGHT,
            col < BUFFER_WIDTH,
        ensures
            final(self)@ == (Console {
                grid: old(self)@.grid.update(
                    row as int,
                    old(self)@.grid[row as int].update(col as int, ScreenChar::of_bytes(pair@)),
                ),
                ..old(self)@
            }),
    {
        proof {
            use_type_invariant(&*self);
        }
        store(&mut self.buffer[row][col], pair);
        assert(self@.grid =~~= old(self)@.grid.update(
            row as int,
            old(self)@.grid[row as int].update(col as int, ScreenChar::of_bytes(pair@)),
        ));
    }

    /// Empties `row`: every cell of it becomes a blank drawn with the
    /// writer's attribute.
    fn clear_row(&mut self, row: usize)
        requires
            row < BUFFER_HEIGHT,
        ensures
            final(self)@ == (Console {
                grid: old(self)@.grid.update(row as int, blank_row(old(self)@.color)),
                ..old(self)@
            }),
    {
        let blank = ScreenChar { character: BLANK, color_code: self.color_code };
        let ghost before = self@;
        for col in 0..BUFFER_WIDTH
            invariant
                row < BUFFER_HEIGHT,
                is_grid(before.grid),
                blank == (ScreenChar { character: BLANK, color_code: before.color }),
                self@.column == before.column,
                self@.color == before.color,
                self@.grid =~~= before.grid.update(
                    row as int,
                    Seq::new(
                        BUFFER_WIDTH as nat,
                        |c: int| if c < col { blank } else { before.grid[row as int][c] },
                    ),
                ),
        {
            broadcast use ScreenChar::bytes_round_trip;

            self.store_at(row, col, blank.to_bytes());
        }
        assert(self@.grid =~~= before.grid.update(row as int, blank_row(before.color)));
    }

    /// Ends the line: every row moves up by one, the last row is emptied and
    /// the cursor returns to its start.
    fn new_line(&mut self)
        ensures
            final(self)@ == old(self)@.new_line(),
    {
        let ghost before = self@;
        for row in 1..BUFFER_HEIGHT
            invariant
                is_grid(before.grid),
                self@.column == before.column,
                self@.color == before.color,
                self@.grid =~~= Seq::new(
                    BUFFER_HEIGHT as nat,
                    |r: int| if r < row - 1 { before.grid[r + 1] } else { before.grid[r] },
                ),
        {
            let ghost above = self@.grid;
            for col in 0..BUFFER_WIDTH
                invariant
                    1 <= row < BUFFER_HEIGHT,
                    is_grid(above),
                    self@.column == before.column,
                    self@.color == before.color,
                    self@.grid =~~= above.update(
                        row - 1,
                        Seq::new(
                            BUFFER_WIDTH as nat,
                            |c: int| if c < col { above[row as int][c] } else { above[row - 1][c] },
                        ),
                    ),
            {
                let pair = self.load_at(row, col);
                self.store_at(row - 1, col, pair);
            }
        }
        self.clear_row(BUFFER_HEIGHT - 1);
        self.column_position = 0;
        assert(self@.grid =~~= before.new_line().grid);
    }

    /// Writes one device byte at the cursor. The line-end byte ends the
    /// line and takes no cell. Any other byte is drawn on the last row at
    /// the cursor, with the writer's attribute, and the cursor moves on by
    /// one; where the row is already full, the line ends first.
    pub fn write_byte(&mut self, byte: u8)
        ensures
            final(self)@ == old(self)@.write_byte(byte),
            final(self)@.well_formed(),
    {
        if byte == NEWLINE {
            self.new_line();
        } else {
            if self.column_position >= BUFFER_WIDTH {
                self.new_line();
            }
            let row = BUFFER_HEIGHT - 1;
            let col = self.column_position;
            let cell = ScreenChar { character: byte, color_code: self.color_code };
            proof {
                cell.bytes_round_trip();
            }
            self.store_at(row, col, cell.to_bytes());
            self.column_position += 1;
        }
        proof {
            use_type_invariant(&*self);
        }
    }

    /// Writes a string byte by byte: a printable ASCII byte and the line-end
    /// byte as they are, the placeholder glyph for every other byte. No
    /// input is refused.
    pub fn write_string(&mut self, s: &str)
        ensures
            final(self)@ == old(self)@.write_string(s.spec_bytes()),
            final(self)@.well_formed(),
    {
        let bytes = s.as_bytes();
        let ghost before = self@;
        proof {
            use_type_invariant(&*self);
        }
        for i in 0..bytes.len()
            invariant
                bytes@ == s.spec_bytes(),
                self@ == before.write_string(bytes@.take(i as int)),
                self@.well_formed(),
        {
            assert(bytes@.take(i + 1).drop_last() =~= bytes@.take(i as int));
            self.write_byte(render(bytes[i]));
        }
        assert(bytes@.take(bytes@.len() as int) =~= bytes@);
    }
}

/// `core::fmt::Error`, the error of a formatting stream. The writer never
/// makes one.
#[verifier::external_type_specification]
#[verifier::external_body]
pub struct ExFmtError(core::fmt::Error);

impl<'a> core::fmt::Write for Writer<'a> {
    /// Takes one piece of a formatted text and writes it as `write_string`
    /// does. The writer itself never fails.
    fn write_str(&mut self, s: &str) -> (result: core::fmt::Result)
        ensures
            result is Ok,
            final(self)@ == old(self)@.write_string(s.spec_bytes()),
            final(self)@.well_formed(),
    {
        self.write_string(s);
        Ok(())
    }
}

} // verus!
