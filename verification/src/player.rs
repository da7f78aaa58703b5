//! The two players.

use vstd::prelude::*;
use vstd::std_specs::convert::FromSpecImpl;
use crate::ticonst::{PLAYER_O, PLAYER_X};

verus! {

/// One of the two players. X is encoded as bit 0, O as bit 1.
#[derive(Debug, PartialEq, Eq, Structural, Clone, Copy)]
pub enum Player {
    X,
    O,
}

impl Player {
    /// The bit that encodes this player.
    pub open spec fn bit(self) -> u32 {
        match self {
            Player::X => PLAYER_X,
            Player::O => PLAYER_O,
        }
    }

    /// The player that a number decodes to: zero is X, everything else is O.
    pub open spec fn of_number(number: int) -> Player {
        if number == 0 {
            Player::X
        } else {
            Player::O
        }
    }

    /// The letter that shows this player.
    pub open spec fn glyph(self) -> Seq<char> {
        match self {
            Player::X => seq!['X'],
            Player::O => seq!['O'],
        }
    }

    /// Encodes the player as its bit.
    pub fn to_bit(&self) -> (bit: u32)
        ensures
            bit == self.bit(),
            bit <= 1,
            Player::of_number(bit as int) == *self,
    {
        match self {
            Player::X => PLAYER_X,
            Player::O => PLAYER_O,
        }
    }

    /// The player's letter, `"X"` or `"O"`.
    pub fn as_str(&self) -> (letter: &'static str)
        ensures
            letter@ == self.glyph(),
    {
        proof {
            reveal_strlit("X");
            reveal_strlit("O");
        }
        let letter: &'static str = match self {
            Player::X => "X",
            Player::O => "O",
        };
        assert(letter@ =~= self.glyph());
        letter
    }

    /// The player's letter as text of its own.
    pub fn to_string(&self) -> (text: String)
        ensures
            text@ == self.glyph(),
    {
        String::from_str(self.as_str())
    }
}

impl From<u8> for Player {
    /// Decodes a player: zero is X, everything else is O.
    fn from(value: u8) -> (player: Player) {
        match value {
            0 => Player::X,
            1 => Player::O,
            _ => Player::O,
        }
    }
}

impl FromSpecImpl<u8> for Player {
    open spec fn obeys_from_spec() -> bool {
        true
    }

    open spec fn from_spec(value: u8) -> Player {
        Player::of_number(value as int)
    }
}

impl From<u16> for Player {
    /// Decodes a player: zero is X, everything else is O.
    fn from(value: u16) -> (player: Player) {
        match value {
            0 => Player::X,
            1 => Player::O,
            _ => Player::O,
        }
    }
}

impl FromSpecImpl<u16> for Player {
    open spec fn obeys_from_spec() -> bool {
        true
    }

    open spec fn from_spec(value: u16) -> Player {
        Player::of_number(value as int)
    }
}

impl From<u32> for Player {
    /// Decodes a player: zero is X, everything else is O.
    fn from(value: u32) -> (player: Player) {
        match value {
            0 => Player::X,
            1 => Player::O,
            _ => Player::O,
        }
    }
}

impl FromSpecImpl<u32> for Player {
    open spec fn obeys_from_spec() -> bool {
        true
    }

    open spec fn from_spec(value: u32) -> Player {
        Player::of_number(value as int)
    }
}

impl From<u64> for Player {
    /// Decodes a player: zero is X, everything else is O.
    fn from(value: u64) -> (player: Player) {
        match value {
            0 => Player::X,
            1 => Player::O,
            _ => Player::O,
        }
    }
}

impl FromSpecImpl<u64> for Player {
    open spec fn obeys_from_spec() -> bool {
        true
    }

    open spec fn from_spec(value: u64) -> Player {
        Player::of_number(value as int)
    }
}

} // verus!
