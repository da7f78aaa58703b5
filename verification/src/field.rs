//! The board.

use vstd::prelude::*;
use vstd::std_specs::convert::FromSpecImpl;
use crate::error::{FieldAlreadyUsed, InvalidByteLength, InvalidCellIndex, SetFieldError};
use crate::player::Player;
use crate::slots::{
    cell, free_slots_are_blank, is_set, lemma_empty_word, lemma_free_slots_stay_blank,
    lemma_with_field, player_of, slot, with_field,
};
use crate::text::{binary_string, board_text, cell_glyph, lemma_cell_glyph, push_row};
use crate::ticmasks::{FIELD, SLOT, SLOT_PLAYER, SLOT_SET};
use crate::ticonst::{CELLS, SLOT_BITS, WIRE_BYTES};
use crate::wire::{bytes_word, decode, encode, word_array, word_bytes};

verus! {

/// A tic-tac-toe board, packed into one 32-bit word.
///
/// Bits 0 to 17 hold nine two-bit slots, one per cell, cell 0 lowest. In a slot the low
/// bit says that the cell is taken and the high bit says by whom: clear for X, set for O.
/// Bit 18 (current player), bits 19 to 22 (round counter) and bits 23 to 31 are carried
/// along and never read. Every 32-bit pattern is a board. A cell that is taken stays
/// taken: nothing here clears a bit.
#[derive(Debug, PartialEq, Eq, Structural, Clone, Copy)]
pub struct TicField {
    bits: u32,
}

impl View for TicField {
    type V = u32;

    /// The packed word that the board is.
    closed spec fn view(&self) -> u32 {
        self.bits
    }
}

impl TicField {
    /// The board that a packed word is.
    pub closed spec fn of_word(word: u32) -> TicField {
        TicField { bits: word }
    }

    /// Every word is the word of its board.
    pub proof fn lemma_of_word(word: u32)
        ensures
            TicField::of_word(word)@ == word,
    {
    }

    /// Every board is the board of its word: two boards with one word are one board.
    pub proof fn lemma_of_view(self)
        ensures
            TicField::of_word(self@) == self,
    {
    }

    /// The empty board.
    pub open spec fn spec_new() -> TicField {
        TicField::of_word(0)
    }

    /// Whether cell `n` is taken.
    pub open spec fn spec_is_field_set(&self, n: u8) -> bool {
        is_set(self@, n)
    }

    /// The player that cell `n` names, whether or not the cell is taken.
    pub open spec fn spec_get_player_for_field(&self, n: u8) -> Player {
        player_of(self@, n)
    }

    /// What `set_field(n, player)` answers on this board: a taken cell is refused, with
    /// the cell and the player that it names.
    pub open spec fn set_field_answer(self, n: u8, player: Player) -> Result<(), FieldAlreadyUsed> {
        if self.is_field_set(n) {
            Err(FieldAlreadyUsed { failed_field: n, used_by: self.get_player_for_field(n) })
        } else {
            Ok(())
        }
    }

    /// The board that `set_field(n, player)` leaves: this one where the cell is taken,
    /// else this one with the player's slot laid over cell `n`.
    pub open spec fn after_set_field(self, n: u8, player: Player) -> TicField {
        if self.is_field_set(n) {
            self
        } else {
            TicField::of_word(with_field(self@, n, player))
        }
    }

    /// Whether every free cell is blank: no cell names O without being taken. The empty
    /// board is so, and taking cells keeps a board so; a board from the wire need not be.
    pub open spec fn free_cells_are_blank(self) -> bool {
        free_slots_are_blank(self@)
    }

    /// The board on the wire: the four bytes of its word, least significant first.
    pub open spec fn wire_form(self) -> Seq<u8> {
        word_bytes(self@)
    }

    /// What `from_bytes` answers on a buffer: four bytes are the board of their word,
    /// any other length is refused.
    pub open spec fn spec_from_bytes(bytes: Seq<u8>) -> Result<TicField, InvalidByteLength> {
        if bytes.len() == WIRE_BYTES {
            Ok(TicField::of_word(bytes_word(bytes)))
        } else {
            Err(InvalidByteLength { len: bytes.len() as usize })
        }
    }

    /// The nine cells as they are shown, cell 0 first: the letter of the player that
    /// took the cell, `_` for a free cell.
    pub open spec fn glyphs(self) -> Seq<Seq<char>> {
        Seq::new(CELLS as nat, |i: int| cell_glyph(self@, i as u8))
    }

    /// The empty board: the word zero, on which every slot is blank and no cell is taken.
    #[verifier::when_used_as_spec(spec_new)]
    pub fn new() -> (field: TicField)
        ensures
            field == TicField::spec_new(),
            field@ == 0,
            forall|n: u8| n < CELLS ==> !field.is_field_set(n),
            forall|n: u8| n < CELLS ==> slot(field@, n) == 0,
            field.free_cells_are_blank(),
    {
        let field = TicField { bits: 0 };
        assert forall|n: u8| n < CELLS implies !field.is_field_set(n) by {
            lemma_empty_word(n);
        }
        assert forall|n: u8| n < CELLS implies slot(field@, n) == 0 by {
            lemma_empty_word(n);
        }
        field
    }

    /// The two bits of cell `n`, moved down to the low end.
    fn select_field(&self, n: u8) -> (bits: u32)
        requires
            n < CELLS,
        ensures
            bits == slot(self@, n),
            bits <= SLOT,
    {
        let word: u32 = self.bits;
        let shift: u32 = (SLOT_BITS as u32) * (n as u32);
        let bits: u32 = SLOT & (word >> shift);
        assert(bits == (word >> (SLOT_BITS * n)) & SLOT && bits <= SLOT) by (bit_vector)
            requires
                n < CELLS,
                shift == (SLOT_BITS as u32) * (n as u32),
                bits == SLOT & (word >> shift),
        ;
        bits
    }

    /// The player that cell `n` names. The answer is read from the high bit of the
    /// cell's slot whether or not the cell is taken: ask `is_field_set` first where
    /// that matters.
    #[verifier::when_used_as_spec(spec_get_player_for_field)]
    pub fn get_player_for_field(&self, n: u8) -> (player: Player)
        requires
            n < CELLS,
        ensures
            player == player_of(self@, n),
    {
        let bits: u32 = self.select_field(n);
        let high: u32 = (bits & SLOT_PLAYER) >> 1;
        assert((high == 0) == (bits & SLOT_PLAYER == 0)) by (bit_vector)
            requires
                high == (bits & SLOT_PLAYER) >> 1,
        ;
        Player::from(high)
    }

    /// Whether cell `n` is taken.
    #[verifier::when_used_as_spec(spec_is_field_set)]
    pub fn is_field_set(&self, n: u8) -> (set: bool)
        requires
            n < CELLS,
        ensures
            set == is_set(self@, n),
    {
        self.select_field(n) & SLOT_SET != 0
    }

    /// Takes cell `n` for `player`.
    ///
    /// A cell that is already taken is refused, with the cell and the player that it
    /// names, and the board stays as it was. Otherwise the cell's slot is laid over the
    /// word, `bits | ((player bit << 1 | 1) << 2n)`: the cell is then taken, no other
    /// cell and no bit above the cells changes, and no bit is cleared.
    ///
    /// Bits are only added. So a free cell whose high bit was already set reads O once
    /// it is taken, whoever took it. Only a board from the wire can hold such a cell: on
    /// a board made by `new` and `set_field` every free cell is blank, and a taken cell
    /// names the player that took it.
    pub fn set_field(&mut self, n: u8, player: Player) -> (result: Result<(), FieldAlreadyUsed>)
        requires
            n < CELLS,
        ensures
            result == old(self).set_field_answer(n, player),
            *final(self) == old(self).after_set_field(n, player),
            final(self)@ == (if old(self).is_field_set(n) {
                old(self)@
            } else {
                with_field(old(self)@, n, player)
            }),
            final(self).is_field_set(n),
            final(self).get_player_for_field(n) == (if old(self).get_player_for_field(n)
                == Player::O {
                Player::O
            } else if old(self).is_field_set(n) {
                Player::X
            } else {
                player
            }),
            slot(old(self)@, n) == 0 ==> cell(final(self)@, n) == Some(player),
            forall|m: u8| m < CELLS && m != n ==> slot(final(self)@, m) == slot(old(self)@, m),
            final(self)@ & !FIELD == old(self)@ & !FIELD,
            final(self)@ & old(self)@ == old(self)@,
            old(self).free_cells_are_blank() ==> final(self).free_cells_are_blank(),
    {
        if self.is_field_set(n) {
            proof {
                let word: u32 = self@;
                assert(word & word == word) by (bit_vector);
                assert(slot(word, n) != 0) by {
                    assert(0u32 & SLOT_SET == 0) by (bit_vector);
                }
            }
            Err(FieldAlreadyUsed::new(n, self.get_player_for_field(n)))
        } else {
            let field_value: u32 = (player.to_bit() << 1) | SLOT_SET;
            let shift: u32 = (SLOT_BITS as u32) * (n as u32);
            proof {
                lemma_with_field(self@, n, player);
                if self.free_cells_are_blank() {
                    lemma_free_slots_stay_blank(self@, n, player);
                }
                assert(field_value << shift == field_value << (SLOT_BITS * n)) by (bit_vector)
                    requires
                        shift == (SLOT_BITS as u32) * (n as u32),
                ;
            }
            self.bits = self.bits | (field_value << shift);
            Ok(())
        }
    }

    /// Whether cell `n` is taken, for any number `n`: one that is not on the board is
    /// refused.
    pub fn checked_is_field_set(&self, n: u8) -> (result: Result<bool, InvalidCellIndex>)
        ensures
            result == (if n < CELLS {
                Ok::<bool, InvalidCellIndex>(self.is_field_set(n))
            } else {
                Err::<bool, InvalidCellIndex>((InvalidCellIndex { cell: n }))
            }),
    {
        if n < CELLS {
            Ok(self.is_field_set(n))
        } else {
            Err(InvalidCellIndex { cell: n })
        }
    }

    /// The player that cell `n` names, for any number `n`: one that is not on the board
    /// is refused.
    pub fn checked_get_player_for_field(&self, n: u8) -> (result: Result<Player, InvalidCellIndex>)
        ensures
            result == (if n < CELLS {
                Ok::<Player, InvalidCellIndex>(self.get_player_for_field(n))
            } else {
                Err::<Player, InvalidCellIndex>((InvalidCellIndex { cell: n }))
            }),
    {
        if n < CELLS {
            Ok(self.get_player_for_field(n))
        } else {
            Err(InvalidCellIndex { cell: n })
        }
    }

    /// Takes cell `n` for `player`, for any number `n`: one that is not on the board is
    /// refused and the board stays as it was. On the board this is `set_field`.
    pub fn checked_set_field(&mut self, n: u8, player: Player) -> (result: Result<
        (),
        SetFieldError,
    >)
        ensures
            result == (if n >= CELLS {
                Err::<(), SetFieldError>(SetFieldError::InvalidCellIndex((InvalidCellIndex { cell: n })))
            } else {
                match old(self).set_field_answer(n, player) {
                    Ok(()) => Ok::<(), SetFieldError>(()),
                    Err(used) => Err::<(), SetFieldError>(SetFieldError::FieldAlreadyUsed(used)),
                }
            }),
            *final(self) == (if n >= CELLS {
                *old(self)
            } else {
                old(self).after_set_field(n, player)
            }),
            final(self)@ == (if n >= CELLS || old(self).is_field_set(n) {
                old(self)@
            } else {
                with_field(old(self)@, n, player)
            }),
            n < CELLS ==> final(self).is_field_set(n),
            n < CELLS && slot(old(self)@, n) == 0 ==> cell(final(self)@, n) == Some(player),
            forall|m: u8| m < CELLS && m != n ==> slot(final(self)@, m) == slot(old(self)@, m),
            final(self)@ & !FIELD == old(self)@ & !FIELD,
            final(self)@ & old(self)@ == old(self)@,
            old(self).free_cells_are_blank() ==> final(self).free_cells_are_blank(),
    {
        if n >= CELLS {
            proof {
                let word: u32 = self@;
                assert(word & word == word) by (bit_vector);
            }
            return Err(SetFieldError::InvalidCellIndex(InvalidCellIndex { cell: n }));
        }
        match self.set_field(n, player) {
            Ok(()) => Ok(()),
            Err(used) => Err(SetFieldError::FieldAlreadyUsed(used)),
        }
    }

    /// The board on the wire: its word as four bytes, least significant first. All 32
    /// bits travel, those without meaning too.
    pub fn as_bytes(&self) -> (bytes: [u8; 4])
        ensures
            bytes@ == self.wire_form(),
            bytes@ == word_bytes(self@),
    {
        encode(self.bits)
    }

    /// The board that a buffer from the wire holds. Exactly four bytes are a board,
    /// whatever their bits; a buffer of any other length is refused and nothing is read
    /// from it.
    pub fn from_bytes(value: &[u8]) -> (result: Result<TicField, InvalidByteLength>)
        ensures
            result == TicField::spec_from_bytes(value@),
            match result {
                Ok(field) => value@.len() == WIRE_BYTES && field@ == bytes_word(value@),
                Err(error) => value@.len() != WIRE_BYTES && error.len == value@.len(),
            },
    {
        if value.len() == WIRE_BYTES {
            Ok(TicField { bits: decode(value) })
        } else {
            Err(InvalidByteLength { len: value.len() })
        }
    }

    /// The nine cells as they are shown, cell 0 first: `"X"` or `"O"` for a cell that
    /// the player took, `"_"` for a free cell.
    pub fn as_vec(&self) -> (cells: Vec<&'static str>)
        ensures
            cells@.len() == CELLS,
            forall|i: int| 0 <= i < CELLS ==> (#[trigger] cells@[i])@ == self.glyphs()[i],
            forall|i: int|
                0 <= i < CELLS ==> (#[trigger] cells@[i])@ == (match cell(self@, i as u8) {
                    Some(Player::X) => seq!['X'],
                    Some(Player::O) => seq!['O'],
                    None => seq!['_'],
                }),
    {
        let mut cells: Vec<&'static str> = Vec::new();
        let mut n: u8 = 0;
        while n < CELLS
            invariant
                n <= CELLS,
                cells@.len() == n,
                forall|i: int| 0 <= i < n ==> (#[trigger] cells@[i])@ == cell_glyph(self@, i as u8),
            decreases CELLS - n,
        {
            let glyph: &'static str = if self.is_field_set(n) {
                self.get_player_for_field(n).as_str()
            } else {
                "_"
            };
            proof {
                reveal_strlit("_");
                assert(glyph@ =~= cell_glyph(self@, n));
            }
            cells.push(glyph);
            n = n + 1;
        }
        proof {
            assert forall|i: int| 0 <= i < CELLS implies (#[trigger] cells@[i])@ == (match cell(
                self@,
                i as u8,
            ) {
                Some(Player::X) => seq!['X'],
                Some(Player::O) => seq!['O'],
                None => seq!['_'],
            }) by {
                lemma_cell_glyph(self@, i as u8);
            }
        }
        cells
    }

    /// The board as text for a reader: an empty line, `Bits: ` and the word in binary,
    /// then the three rows, each cell behind a bar.
    pub fn to_string(&self) -> (text: String)
        ensures
            text@ == board_text(self@),
    {
        proof {
            reveal_strlit("\nBits: ");
            reveal_strlit("\n");
        }
        let mut text: String = String::from_str("\nBits: ");
        let binary: String = binary_string(self.bits);
        text.append(binary.as_str());
        text.append("\n");
        let cells: Vec<&'static str> = self.as_vec();
        assert forall|i: int| 0 <= i < 9 implies (#[trigger] cells@[i])@ == cell_glyph(
            self@,
            i as u8,
        ) by {
            assert(cells@[i]@ == self.glyphs()[i]);
        }
        push_row(&mut text, &cells, 0, Ghost(self@));
        push_row(&mut text, &cells, 1, Ghost(self@));
        push_row(&mut text, &cells, 2, Ghost(self@));
        assert(text@ =~= board_text(self@));
        text
    }
}

impl From<[u8; 4]> for TicField {
    /// The board that four bytes from the wire hold.
    fn from(value: [u8; 4]) -> (field: TicField) {
        TicField { bits: decode(value.as_slice()) }
    }
}

impl FromSpecImpl<[u8; 4]> for TicField {
    open spec fn obeys_from_spec() -> bool {
        true
    }

    open spec fn from_spec(value: [u8; 4]) -> TicField {
        TicField::of_word(bytes_word(value@))
    }
}

impl From<&TicField> for [u8; 4] {
    /// The board on the wire.
    fn from(value: &TicField) -> (bytes: [u8; 4]) {
        let bytes: [u8; 4] = value.as_bytes();
        proof {
            assert(word_array(value@)@ =~= word_bytes(value@));
            assert(bytes =~= word_array(value@));
        }
        bytes
    }
}

impl FromSpecImpl<&TicField> for [u8; 4] {
    open spec fn obeys_from_spec() -> bool {
        true
    }

    open spec fn from_spec(value: &TicField) -> [u8; 4] {
        word_array(value@)
    }
}

} // verus!
