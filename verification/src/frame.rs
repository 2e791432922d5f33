//! The frame buffer: the device's memory, one volatile slot of two bytes for
//! each cell, row by row.
//!
//! Every access to a slot goes through `volatile::Volatile`, so that none is
//! reordered, merged or dropped by the compiler. What this module states
//! about those accesses is believed, not proved.

use vstd::prelude::*;
use volatile::Volatile;
use crate::cell::ScreenChar;
use crate::model::{BUFFER_HEIGHT, BUFFER_WIDTH};

verus! {

/// `volatile::Volatile`, a value that is only ever read and written by
/// volatile accesses. Nothing is known of what is inside one but through
/// `held`.
#[verifier::external_type_specification]
#[verifier::external_body]
#[verifier::reject_recursive_types(T)]
pub struct ExVolatile<T: Copy>(Volatile<T>);

/// The memory of the display. A slot holds its cell's glyph byte, then its
/// attribute byte; `Volatile` adds nothing to the size of what it wraps, and
/// arrays lie in memory in index order, so this type is the device's layout
/// bit for bit: 25 rows of 80 cells of 2 bytes.
pub type FrameBuffer = [[Volatile<[u8; 2]>; BUFFER_WIDTH]; BUFFER_HEIGHT];

/// The two bytes that a slot holds: what `Volatile::read` returns for it.
/// The display's text memory is plain memory to the program: it keeps what
/// was last written to it.
pub uninterp spec fn held(slot: Volatile<[u8; 2]>) -> Seq<u8>;

/// The cell shown at `row` and `col`.
pub open spec fn cell_at(buffer: FrameBuffer, row: int, col: int) -> ScreenChar {
    ScreenChar::of_bytes(held(buffer[row][col]))
}

/// The cells that the frame buffer shows, row by row.
pub open spec fn grid_of(buffer: FrameBuffer) -> Seq<Seq<ScreenChar>> {
    Seq::new(
        BUFFER_HEIGHT as nat,
        |row: int| Seq::new(BUFFER_WIDTH as nat, |col: int| cell_at(buffer, row, col)),
    )
}

/// `Volatile::read`: a volatile read of the slot, which returns a copy of the
/// two bytes it holds.
#[verifier::external_body]
pub(crate) fn load(slot: &Volatile<[u8; 2]>) -> (pair: [u8; 2])
    ensures
        pair@ == held(*slot),
{
    slot.read()
}

/// `Volatile::write`: a volatile write to the slot, after which it holds the
/// two bytes given. It never panics.
#[verifier::external_body]
pub(crate) fn store(slot: &mut Volatile<[u8; 2]>, pair: [u8; 2])
    ensures
        held(*final(slot)) == pair@,
    no_unwind
{
    slot.write(pair)
}

} // verus!
