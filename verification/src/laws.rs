//! What holds of the console whatever is written to it.

use vstd::prelude::*;
use crate::cell::ScreenChar;
use crate::color::{packed, Color, ColorCode};
use crate::model::{
    blank_row, is_grid, is_printable, rendered, Console, BUFFER_HEIGHT, BUFFER_WIDTH, NEWLINE,
    UNRENDERABLE,
};

verus! {

/// Two colours with the same palette index are the same colour.
pub proof fn lemma_index_is_injective(a: Color, b: Color)
    requires
        a.index() == b.index(),
    ensures
        a == b,
{
}

/// The high four bits of an attribute byte are the index of the background
/// it was packed from, the low four bits the index of the foreground.
pub proof fn lemma_attribute_round_trip(background_color: Color, foreground_color: Color)
    ensures
        packed(background_color, foreground_color) >> 4 == background_color.index(),
        packed(background_color, foreground_color) & 0x0f == foreground_color.index(),
{
    let high = background_color.index();
    let low = foreground_color.index();
    assert(((high << 4) | low) >> 4 == high && ((high << 4) | low) & 0x0f == low) by (bit_vector)
        requires
            high < 16,
            low < 16,
    ;
}

/// The placeholder glyph stands for exactly the bytes that are neither
/// printable nor the line end, and what is drawn is never a line end unless
/// the input byte was one.
pub proof fn lemma_rendered(byte: u8)
    ensures
        is_printable(byte) ==> rendered(byte) == byte,
        byte == NEWLINE ==> rendered(byte) == NEWLINE,
        !is_printable(byte) && byte != NEWLINE ==> rendered(byte) == UNRENDERABLE,
        rendered(byte) == NEWLINE <==> byte == NEWLINE,
        rendered(rendered(byte)) == rendered(byte),
{
}

/// Ending a line moves every row up by one, in order: what was row `k` is
/// row `k - 1` afterwards. The top row is lost, the last row is blank, the
/// cursor is at column 0 and the attribute is kept.
pub proof fn lemma_new_line_shifts_rows(console: Console)
    requires
        is_grid(console.grid),
    ensures
        console.new_line().well_formed(),
        console.new_line().column == 0,
        console.new_line().color == console.color,
        forall|k: int| 1 <= k < BUFFER_HEIGHT ==> console.new_line().grid[k - 1] == #[trigger] console.grid[k],
        console.new_line().grid[BUFFER_HEIGHT - 1] == blank_row(console.color),
{
}

/// Writing the line-end byte is one scroll, wherever the cursor is: the
/// cursor returns to column 0 and no cell is drawn.
pub proof fn lemma_newline_scrolls_once(console: Console)
    ensures
        console.write_byte(NEWLINE) == console.new_line(),
        console.write_byte(NEWLINE).column == 0,
{
}

/// Writing one byte other than the line end, with room left on the last
/// row, draws it at the cursor with the console's attribute, moves the
/// cursor on by one and changes no other cell.
pub proof fn lemma_write_byte_in_row(console: Console, byte: u8)
    requires
        console.well_formed(),
        console.column < BUFFER_WIDTH,
        byte != NEWLINE,
    ensures
        console.write_byte(byte).well_formed(),
        console.write_byte(byte).column == console.column + 1,
        console.write_byte(byte).color == console.color,
        forall|row: int| 0 <= row < BUFFER_HEIGHT - 1 ==> #[trigger] console.write_byte(byte).grid[row] == console.grid[row],
        console.write_byte(byte).grid[BUFFER_HEIGHT - 1] == console.grid[BUFFER_HEIGHT - 1].update(
            console.column as int,
            ScreenChar { character: byte, color_code: console.color },
        ),
{
}

/// Writing one byte other than the line end when the last row is full
/// scrolls exactly once and then draws the byte at column 0: the cursor is
/// at column 1, the last row holds the byte followed by blanks, and every
/// row above holds what the row below it held.
pub proof fn lemma_write_byte_wraps(console: Console, byte: u8)
    requires
        console.well_formed(),
        console.column == BUFFER_WIDTH,
        byte != NEWLINE,
    ensures
        console.write_byte(byte) == console.new_line().put(byte),
        console.write_byte(byte).well_formed(),
        console.write_byte(byte).column == 1,
        forall|k: int| 1 <= k < BUFFER_HEIGHT ==> console.write_byte(byte).grid[k - 1] == #[trigger] console.grid[k],
        console.write_byte(byte).grid[BUFFER_HEIGHT - 1] == blank_row(console.color).update(
            0,
            ScreenChar { character: byte, color_code: console.color },
        ),
{
}

/// Every write leaves a well-formed console well-formed.
pub proof fn lemma_write_byte_keeps_well_formed(console: Console, byte: u8)
    requires
        console.well_formed(),
    ensures
        console.write_byte(byte).well_formed(),
{
}

/// Every write leaves a well-formed console well-formed, and never changes
/// the attribute.
pub proof fn lemma_write_string_keeps_well_formed(console: Console, bytes: Seq<u8>)
    requires
        console.well_formed(),
    ensures
        console.write_string(bytes).well_formed(),
        console.write_string(bytes).color == console.color,
    decreases bytes.len(),
{
    if bytes.len() > 0 {
        lemma_write_string_keeps_well_formed(console, bytes.drop_last());
        lemma_write_byte_keeps_well_formed(
            console.write_string(bytes.drop_last()),
            rendered(bytes.last()),
        );
    }
}

/// Writing one string and then another is writing the two joined: the
/// bytes of two writes that follow each other are never mixed.
pub proof fn lemma_write_string_concat(console: Console, first: Seq<u8>, second: Seq<u8>)
    ensures
        console.write_string(first + second) == console.write_string(first).write_string(second),
    decreases second.len(),
{
    if second.len() == 0 {
        assert(first + second =~= first);
    } else {
        assert((first + second).drop_last() =~= first + second.drop_last());
        lemma_write_string_concat(console, first, second.drop_last());
    }
}

/// Writing a single byte as a string is writing what stands for it.
pub proof fn lemma_write_string_one(console: Console, byte: u8)
    ensures
        console.write_string(seq![byte]) == console.write_byte(rendered(byte)),
{
    assert(seq![byte].drop_last() =~= Seq::<u8>::empty());
    reveal_with_fuel(Console::write_string, 2);
}

/// The last row after `bytes` were drawn on it from column `start` on.
pub open spec fn drawn_row(
    row: Seq<ScreenChar>,
    start: int,
    bytes: Seq<u8>,
    color: ColorCode,
) -> Seq<ScreenChar> {
    Seq::new(
        row.len(),
        |col: int|
            if start <= col < start + bytes.len() {
                ScreenChar { character: rendered(bytes[col - start]), color_code: color }
            } else {
                row[col]
            },
    )
}

/// Writing bytes that hold no line end and fit on the rest of the last row
/// moves the cursor on by their number and touches the last row only: each
/// byte is drawn in turn from the cursor on, as itself where it is printable
/// and as the placeholder glyph where it is not, with the console's
/// attribute, and every other cell stays as it was.
pub proof fn lemma_write_string_in_row(console: Console, bytes: Seq<u8>)
    requires
        console.well_formed(),
        console.column + bytes.len() <= BUFFER_WIDTH,
        forall|i: int| 0 <= i < bytes.len() ==> bytes[i] != NEWLINE,
    ensures
        console.write_string(bytes).column == console.column + bytes.len(),
        console.write_string(bytes).color == console.color,
        is_grid(console.write_string(bytes).grid),
        forall|row: int| 0 <= row < BUFFER_HEIGHT - 1 ==> #[trigger] console.write_string(bytes).grid[row] == console.grid[row],
        console.write_string(bytes).grid[BUFFER_HEIGHT - 1] == drawn_row(
            console.grid[BUFFER_HEIGHT - 1],
            console.column as int,
            bytes,
            console.color,
        ),
    decreases bytes.len(),
{
    let last = BUFFER_HEIGHT - 1;
    if bytes.len() == 0 {
        assert(console.grid[last] =~= drawn_row(console.grid[last], console.column as int, bytes, console.color));
    } else {
        lemma_write_string_in_row(console, bytes.drop_last());
        assert(console.write_string(bytes).grid[last] =~= drawn_row(
            console.grid[last],
            console.column as int,
            bytes,
            console.color,
        ));
    }
}

/// A byte that is neither printable nor the line end is drawn as the
/// placeholder glyph with the console's attribute, at the place where a
/// printable byte would have been drawn, and moves the cursor as a printable
/// byte does.
pub proof fn lemma_unrenderable_byte(console: Console, byte: u8, printable: u8)
    requires
        console.well_formed(),
        !is_printable(byte),
        byte != NEWLINE,
        is_printable(printable),
    ensures
        console.write_string(seq![byte]) == console.write_string(seq![UNRENDERABLE]),
        console.write_string(seq![byte]).column == console.write_string(seq![printable]).column,
        console.write_string(seq![byte]).grid[BUFFER_HEIGHT - 1][console.write_string(seq![byte]).column - 1]
            == (ScreenChar { character: UNRENDERABLE, color_code: console.color }),
        console.write_string(seq![printable]).grid[BUFFER_HEIGHT - 1][console.write_string(seq![byte]).column - 1]
            == (ScreenChar { character: printable, color_code: console.color }),
{
    lemma_write_string_one(console, byte);
    lemma_write_string_one(console, UNRENDERABLE);
    lemma_write_string_one(console, printable);
}

/// Writing 80 bytes that hold no line end from the start of the last row,
/// and then one more, scrolls exactly once: the 80 bytes then fill the row
/// above the last, the last row holds the new byte at column 0 followed by
/// blanks, every other row has moved up by one, and the cursor is at
/// column 1.
pub proof fn lemma_full_row_then_one(console: Console, bytes: Seq<u8>)
    requires
        console.well_formed(),
        console.column == 0,
        bytes.len() == BUFFER_WIDTH + 1,
        forall|i: int| 0 <= i < bytes.len() ==> bytes[i] != NEWLINE,
    ensures
        console.write_string(bytes).column == 1,
        forall|k: int| 1 <= k < BUFFER_HEIGHT - 1 ==> console.write_string(bytes).grid[k - 1] == #[trigger] console.grid[k],
        console.write_string(bytes).grid[BUFFER_HEIGHT - 2] == drawn_row(
            console.grid[BUFFER_HEIGHT - 1],
            0,
            bytes.drop_last(),
            console.color,
        ),
        console.write_string(bytes).grid[BUFFER_HEIGHT - 1] == blank_row(console.color).update(
            0,
            ScreenChar { character: rendered(bytes.last()), color_code: console.color },
        ),
{
    let front = bytes.drop_last();
    lemma_write_string_in_row(console, front);
    lemma_write_string_keeps_well_formed(console, front);
    lemma_rendered(bytes.last());
    lemma_write_byte_wraps(console.write_string(front), rendered(bytes.last()));
}

} // verus!
