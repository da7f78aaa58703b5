//! A tic-tac-toe board packed into one 32-bit word, and its four-byte wire form.
//!
//! Each of the nine cells has two bits of the word: one says that the cell is taken,
//! the other by whom. A cell is taken once and stays taken. The rest of the word is
//! carried along unchanged. On the wire the board is the four bytes of its word, least
//! significant first.
//!
//! [`TicField`] is the board, [`Player`] one of the two players. The modules `slots`
//! and `wire` say what the bits and the bytes mean; `laws` holds what is proved of the
//! board as a whole.

pub mod error;
pub mod field;
pub mod laws;
pub mod player;
pub mod slots;
pub mod text;
pub mod ticmasks;
pub mod ticonst;
pub mod wire;

pub use error::{FieldAlreadyUsed, InvalidByteLength, InvalidCellIndex, SetFieldError};
pub use field::TicField;
pub use player::Player;
