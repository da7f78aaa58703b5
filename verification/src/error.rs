//! What the board refuses, and why.

use vstd::prelude::*;
use crate::player::Player;
use crate::text::{decimal_string, decimal_text};

verus! {

/// A cell was asked for that is already taken.
#[derive(Debug, PartialEq, Eq, Structural, Clone, Copy)]
pub struct FieldAlreadyUsed {
    /// The cell that was asked for.
    pub failed_field: u8,
    /// The player that the cell names as its holder.
    pub used_by: Player,
}

impl FieldAlreadyUsed {
    /// The refusal of cell `failed_field`, which names `used_by`.
    pub fn new(failed_field: u8, used_by: Player) -> (error: FieldAlreadyUsed)
        ensures
            error == (FieldAlreadyUsed { failed_field, used_by }),
    {
        FieldAlreadyUsed { failed_field, used_by }
    }

    /// What the refusal says, as text.
    pub open spec fn text(self) -> Seq<char> {
        "The field "@ + decimal_text(self.failed_field as nat) + " is already in use by "@
            + self.used_by.glyph()
    }

    /// The refusal as text for a reader: `The field 4 is already in use by X`.
    pub fn to_string(&self) -> (text: String)
        ensures
            text@ == self.text(),
    {
        let mut text: String = String::from_str("The field ");
        let number: String = decimal_string(self.failed_field);
        text.append(number.as_str());
        text.append(" is already in use by ");
        text.append(self.used_by.as_str());
        assert(text@ =~= self.text());
        text
    }
}

/// A cell number that is not on the board: the cells are numbered 0 to 8.
#[derive(Debug, PartialEq, Eq, Structural, Clone, Copy)]
pub struct InvalidCellIndex {
    /// The number that was given.
    pub cell: u8,
}

/// A buffer that is not a board on the wire: a board is exactly four bytes.
#[derive(Debug, PartialEq, Eq, Structural, Clone, Copy)]
pub struct InvalidByteLength {
    /// The length of the buffer that was given.
    pub len: usize,
}

/// Why a cell could not be taken.
#[derive(Debug, PartialEq, Eq, Structural, Clone, Copy)]
pub enum SetFieldError {
    /// The cell number is not on the board.
    InvalidCellIndex(InvalidCellIndex),
    /// The cell is already taken.
    FieldAlreadyUsed(FieldAlreadyUsed),
}

} // verus!
