//! Numbers of the board and of its encoding.

use vstd::prelude::*;

verus! {

/// The bit that stands for player X.
pub const PLAYER_X: u32 = 0x0;

/// The bit that stands for player O.
pub const PLAYER_O: u32 = 0x1;

/// The board has nine cells, numbered 0 to 8 row by row: cell `3 * row + column`.
pub const CELLS: u8 = 9;

/// Each cell has a slot of two bits in the packed word.
pub const SLOT_BITS: u8 = 2;

/// The board travels as four bytes.
pub const WIRE_BYTES: usize = 4;

} // verus!
