//! Masks of the packed board word.
//!
//! The word has four sub-fields, from the low bits upwards: the nine cell slots, the
//! current player, the round counter, and a remainder without meaning. Only the cell
//! slots are read and written; the other three are carried along unchanged.

use vstd::prelude::*;

verus! {

/// Bits 0 to 17: nine two-bit cell slots, cell 0 lowest.
pub const FIELD: u32 = 0x0003_FFFF;

/// Bit 18: whose turn it is, clear for X and set for O.
pub const CURRENTPLAYER: u32 = 0x0004_0000;

/// Bits 19 to 22: a four-bit round counter.
pub const CURRENTROUND: u32 = 0x0078_0000;

/// Bits 23 to 31: without meaning.
pub const REST: u32 = 0xFF80_0000;

/// One cell slot, moved down to the low end of the word.
pub const SLOT: u32 = 0b11;

/// The low bit of a slot: the cell is taken.
pub const SLOT_SET: u32 = 0b01;

/// The high bit of a slot: who took the cell, clear for X and set for O.
pub const SLOT_PLAYER: u32 = 0b10;

/// The four sub-fields tile the word: every bit belongs to exactly one of them.
pub proof fn lemma_masks_tile_the_word()
    ensures
        FIELD | CURRENTPLAYER | CURRENTROUND | REST == 0xFFFF_FFFFu32,
        FIELD & CURRENTPLAYER == 0,
        FIELD & CURRENTROUND == 0,
        FIELD & REST == 0,
        CURRENTPLAYER & CURRENTROUND == 0,
        CURRENTPLAYER & REST == 0,
        CURRENTROUND & REST == 0,
{
    assert({
        &&& FIELD | CURRENTPLAYER | CURRENTROUND | REST == 0xFFFF_FFFFu32
        &&& FIELD & CURRENTPLAYER == 0
        &&& FIELD & CURRENTROUND == 0
        &&& FIELD & REST == 0
        &&& CURRENTPLAYER & CURRENTROUND == 0
        &&& CURRENTPLAYER & REST == 0
        &&& CURRENTROUND & REST == 0
    }) by (bit_vector);
}

} // verus!
