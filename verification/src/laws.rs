//! What holds of the board whatever is done with it.

use vstd::prelude::*;
use crate::error::{FieldAlreadyUsed, InvalidByteLength};
use crate::field::TicField;
use crate::player::Player;
use crate::slots::{
    cell, lemma_empty_word, lemma_free_slots_stay_blank, lemma_with_field, slot, with_field,
};
use crate::ticmasks::{CURRENTPLAYER, CURRENTROUND, FIELD, REST};
use crate::ticonst::{CELLS, WIRE_BYTES};
use crate::wire::{bytes_word, lemma_bytes_survive_the_word, lemma_word_survives_the_wire};

verus! {

/// On the empty board every cell is free, and each cell can be taken once and no more:
/// whoever asks first gets it, and whoever asks after that is refused.
pub proof fn lemma_empty_board_gives_each_cell_once(n: u8, first: Player, second: Player)
    requires
        n < CELLS,
    ensures
        !TicField::new().is_field_set(n),
        TicField::new().set_field_answer(n, first) == Ok::<(), FieldAlreadyUsed>(()),
        TicField::new().after_set_field(n, first).set_field_answer(n, second) == Err::<
            (),
            FieldAlreadyUsed,
        >((FieldAlreadyUsed { failed_field: n, used_by: first })),
{
    TicField::lemma_of_word(0);
    lemma_empty_word(n);
    lemma_free_cell_is_taken_once(TicField::new(), n, first, second);
}

/// Taking a free cell twice: the first call succeeds; the second is refused and names
/// the cell and the first player; it leaves the board as the first call left it, so the
/// cell goes on naming the first player.
///
/// The cell must be free, and its high bit must not already say O where X asks for it:
/// slots are laid over the word, so such a cell reads O once it is taken.
pub proof fn lemma_free_cell_is_taken_once(field: TicField, n: u8, first: Player, second: Player)
    requires
        n < CELLS,
        !field.is_field_set(n),
        field.get_player_for_field(n) == Player::O ==> first == Player::O,
    ensures
        field.set_field_answer(n, first) == Ok::<(), FieldAlreadyUsed>(()),
        field.after_set_field(n, first).set_field_answer(n, second) == Err::<(), FieldAlreadyUsed>(
            (FieldAlreadyUsed { failed_field: n, used_by: first }),
        ),
        field.after_set_field(n, first).after_set_field(n, second) == field.after_set_field(
            n,
            first,
        ),
        field.after_set_field(n, first).after_set_field(n, second).get_player_for_field(n)
            == first,
{
    TicField::lemma_of_word(with_field(field@, n, first));
    lemma_with_field(field@, n, first);
}

/// A cell that is taken stays taken, whatever cell is asked for next and by whom.
pub proof fn lemma_taken_cells_stay_taken(field: TicField, m: u8, n: u8, player: Player)
    requires
        m < CELLS,
        n < CELLS,
        field.is_field_set(m),
    ensures
        field.after_set_field(n, player).is_field_set(m),
{
    TicField::lemma_of_word(with_field(field@, n, player));
    lemma_with_field(field@, n, player);
}

/// Taking a cell leaves the rest of the word alone: the current player, the round
/// counter and the bits without meaning are what they were.
pub proof fn lemma_set_field_keeps_the_other_fields(field: TicField, n: u8, player: Player)
    requires
        n < CELLS,
    ensures
        field.after_set_field(n, player)@ & CURRENTPLAYER == field@ & CURRENTPLAYER,
        field.after_set_field(n, player)@ & CURRENTROUND == field@ & CURRENTROUND,
        field.after_set_field(n, player)@ & REST == field@ & REST,
{
    TicField::lemma_of_word(with_field(field@, n, player));
    lemma_with_field(field@, n, player);
    let before: u32 = field@;
    let after: u32 = field.after_set_field(n, player)@;
    assert({
        &&& after & CURRENTPLAYER == before & CURRENTPLAYER
        &&& after & CURRENTROUND == before & CURRENTROUND
        &&& after & REST == before & REST
    }) by (bit_vector)
        requires
            after & !FIELD == before & !FIELD,
    ;
}

/// Where every free cell is blank, taking a cell keeps it so, and the cell then holds
/// the player that took it. The empty board is such a board, so every board made by
/// taking cells one after another is.
pub proof fn lemma_blank_free_cells(field: TicField, n: u8, player: Player)
    requires
        n < CELLS,
        field.free_cells_are_blank(),
    ensures
        TicField::new().free_cells_are_blank(),
        field.after_set_field(n, player).free_cells_are_blank(),
        !field.is_field_set(n) ==> cell(field.after_set_field(n, player)@, n) == Some(player),
{
    TicField::lemma_of_word(0);
    assert forall|m: u8| m < CELLS implies #[trigger] slot(0, m) == 0 by {
        lemma_empty_word(m);
    }
    TicField::lemma_of_word(with_field(field@, n, player));
    lemma_with_field(field@, n, player);
    lemma_free_slots_stay_blank(field@, n, player);
}

/// A board survives the wire: its four bytes decode to the same board, bit for bit,
/// the bits without meaning included.
pub proof fn lemma_board_survives_the_wire(field: TicField)
    ensures
        field.wire_form().len() == WIRE_BYTES,
        TicField::spec_from_bytes(field.wire_form()) == Ok::<TicField, InvalidByteLength>(field),
{
    lemma_word_survives_the_wire(field@);
    field.lemma_of_view();
}

/// Four bytes survive the board: the board that they decode to encodes to the same
/// four bytes, so no two buffers hold one board.
pub proof fn lemma_bytes_survive_the_board(bytes: Seq<u8>)
    requires
        bytes.len() == WIRE_BYTES,
    ensures
        TicField::spec_from_bytes(bytes) is Ok,
        TicField::spec_from_bytes(bytes)->Ok_0.wire_form() == bytes,
{
    TicField::lemma_of_word(bytes_word(bytes));
    lemma_bytes_survive_the_word(bytes);
}

} // verus!
