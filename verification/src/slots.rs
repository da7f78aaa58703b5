//! The cell slots of the packed board word, as mathematics.
//!
//! Cell `n` owns bits `2n` and `2n + 1` of the word. The low bit of the pair says that
//! the cell is taken, the high bit says by whom. Every reader and the one writer of the
//! board go through the functions of this module.

use vstd::prelude::*;
use crate::player::Player;
use crate::ticmasks::{FIELD, SLOT, SLOT_PLAYER, SLOT_SET};
use crate::ticonst::{CELLS, SLOT_BITS};

verus! {

/// The two bits of cell `n`, moved down to the low end.
pub open spec fn slot(word: u32, n: u8) -> u32 {
    (word >> (SLOT_BITS * n)) & SLOT
}

/// Whether cell `n` is taken.
pub open spec fn is_set(word: u32, n: u8) -> bool {
    slot(word, n) & SLOT_SET != 0
}

/// The player that the high bit of cell `n` names, whether or not the cell is taken.
pub open spec fn player_of(word: u32, n: u8) -> Player {
    if slot(word, n) & SLOT_PLAYER == 0 {
        Player::X
    } else {
        Player::O
    }
}

/// What cell `n` holds: nobody, or the player who took it.
pub open spec fn cell(word: u32, n: u8) -> Option<Player> {
    if is_set(word, n) {
        Some(player_of(word, n))
    } else {
        None
    }
}

/// The slot of a cell taken by `player`: the player's bit above a set low bit.
pub open spec fn taken_by(player: Player) -> u32 {
    (player.bit() << 1) | SLOT_SET
}

/// The word with the slot of `player` laid over cell `n`. Bits are only ever added.
pub open spec fn with_field(word: u32, n: u8, player: Player) -> u32 {
    word | (taken_by(player) << (SLOT_BITS * n))
}

/// Whether every free cell of the word is blank: no slot has its high bit set without
/// its low bit.
pub open spec fn free_slots_are_blank(word: u32) -> bool {
    forall|n: u8| n < CELLS && !is_set(word, n) ==> #[trigger] slot(word, n) == 0
}

/// The slot of a taken cell is `0b01` for X and `0b11` for O.
pub proof fn lemma_taken_by(player: Player)
    ensures
        taken_by(player) == match player {
            Player::X => 0b01u32,
            Player::O => 0b11u32,
        },
{
    assert((0u32 << 1) | SLOT_SET == 0b01 && (1u32 << 1) | SLOT_SET == 0b11) by (bit_vector);
}

/// What laying a slot over cell `n` does to the word: cell `n` is taken; its high bit
/// names `player`, unless it was already set and so goes on naming O; no other cell and
/// no bit above the cells changes; no bit is cleared.
pub proof fn lemma_with_field(word: u32, n: u8, player: Player)
    requires
        n < CELLS,
    ensures
        is_set(with_field(word, n, player), n),
        slot(with_field(word, n, player), n) == slot(word, n) | taken_by(player),
        player_of(with_field(word, n, player), n) == (if player_of(word, n) == Player::O {
            Player::O
        } else {
            player
        }),
        slot(word, n) == 0 ==> cell(with_field(word, n, player), n) == Some(player),
        forall|m: u8| m < CELLS && m != n ==> slot(with_field(word, n, player), m) == slot(word, m),
        with_field(word, n, player) & !FIELD == word & !FIELD,
        with_field(word, n, player) & word == word,
{
    lemma_taken_by(player);
    let code: u32 = taken_by(player);
    let after: u32 = with_field(word, n, player);
    let before_slot: u32 = slot(word, n);
    let after_slot: u32 = slot(after, n);
    assert({
        &&& after_slot == before_slot | code
        &&& after_slot & SLOT_SET != 0
        &&& (after_slot & SLOT_PLAYER == 0) == (before_slot & SLOT_PLAYER == 0 && code == 0b01)
        &&& before_slot == 0 ==> before_slot & SLOT_PLAYER == 0
        &&& after & !FIELD == word & !FIELD
        &&& after & word == word
    }) by (bit_vector)
        requires
            n < CELLS,
            code == 0b01 || code == 0b11,
            after == word | (code << (SLOT_BITS * n)),
            before_slot == (word >> (SLOT_BITS * n)) & SLOT,
            after_slot == (after >> (SLOT_BITS * n)) & SLOT,
    ;
    assert forall|m: u8| m < CELLS && m != n implies slot(after, m) == slot(word, m) by {
        assert(((after >> (SLOT_BITS * m)) & SLOT) == ((word >> (SLOT_BITS * m)) & SLOT))
            by (bit_vector)
            requires
                n < CELLS,
                m < CELLS,
                m != n,
                code == 0b01 || code == 0b11,
                after == word | (code << (SLOT_BITS * n)),
        ;
    }
}

/// Laying a slot over a cell keeps the free cells blank.
pub proof fn lemma_free_slots_stay_blank(word: u32, n: u8, player: Player)
    requires
        n < CELLS,
        free_slots_are_blank(word),
    ensures
        free_slots_are_blank(with_field(word, n, player)),
{
    lemma_with_field(word, n, player);
    let after: u32 = with_field(word, n, player);
    assert forall|m: u8| m < CELLS && !is_set(after, m) implies #[trigger] slot(after, m) == 0 by {
        assert(m != n);
        assert(slot(after, m) == slot(word, m));
        assert(!is_set(word, m));
    }
}

/// In the empty word every slot is blank: no cell is taken, and none names O.
pub proof fn lemma_empty_word(n: u8)
    requires
        n < CELLS,
    ensures
        slot(0, n) == 0,
        !is_set(0, n),
        player_of(0, n) == Player::X,
        cell(0, n) == None::<Player>,
{
    assert((0u32 >> (SLOT_BITS * n)) & SLOT == 0) by (bit_vector)
        requires
            n < CELLS,
    ;
    assert(0u32 & SLOT_SET == 0 && 0u32 & SLOT_PLAYER == 0) by (bit_vector);
}

} // verus!
