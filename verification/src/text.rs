//! How a board is shown to a reader.
//!
//! The text is for people: nothing on the wire depends on it.

use vstd::prelude::*;
use crate::player::Player;
use crate::slots::cell;

verus! {

/// What shows cell `n`: the letter of the player that took it, `_` for a free cell.
pub open spec fn cell_glyph(word: u32, n: u8) -> Seq<char> {
    match cell(word, n) {
        Some(player) => player.glyph(),
        None => seq!['_'],
    }
}

/// One row of the board: its three cells between bars, and a line end.
pub open spec fn row_text(word: u32, row: u8) -> Seq<char> {
    seq!['|'] + cell_glyph(word, (3 * row) as u8) + seq!['|'] + cell_glyph(
        word,
        (3 * row + 1) as u8,
    ) + seq!['|'] + cell_glyph(word, (3 * row + 2) as u8) + seq!['|', '\n']
}

/// How many binary digits show a word: thirty, or as many as the word needs.
pub open spec fn binary_width(word: u32) -> u32 {
    if word >= 0x8000_0000 {
        32
    } else if word >= 0x4000_0000 {
        31
    } else {
        30
    }
}

/// The binary digit of a word at a bit position, bit 0 being the lowest.
pub open spec fn binary_digit(word: u32, bit: u32) -> char {
    if (word >> bit) & 1 == 1 {
        '1'
    } else {
        '0'
    }
}

/// A word in binary: `0b`, then its digits from the highest to the lowest, with zeros
/// in front up to thirty digits.
pub open spec fn binary_text(word: u32) -> Seq<char> {
    seq!['0', 'b'] + Seq::new(
        binary_width(word) as nat,
        |i: int| binary_digit(word, (binary_width(word) - 1 - i) as u32),
    )
}

/// The whole board as text: an empty line, the word in binary after `Bits: `, and the
/// three rows.
pub open spec fn board_text(word: u32) -> Seq<char> {
    seq!['\n', 'B', 'i', 't', 's', ':', ' '] + binary_text(word) + seq!['\n'] + row_text(word, 0)
        + row_text(word, 1) + row_text(word, 2)
}

/// The character of a decimal digit.
pub open spec fn digit_glyph(digit: nat) -> char {
    ('0' as nat + digit) as char
}

/// A number in decimal, without zeros in front.
pub open spec fn decimal_text(number: nat) -> Seq<char>
    decreases number,
{
    if number < 10 {
        seq![digit_glyph(number)]
    } else {
        decimal_text(number / 10).push(digit_glyph(number % 10))
    }
}

/// A cell is shown as one of `X`, `O` and `_`.
pub proof fn lemma_cell_glyph(word: u32, n: u8)
    ensures
        cell_glyph(word, n) == (match cell(word, n) {
            Some(Player::X) => seq!['X'],
            Some(Player::O) => seq!['O'],
            None => seq!['_'],
        }),
        cell_glyph(word, n) == seq!['X'] || cell_glyph(word, n) == seq!['O'] || cell_glyph(word, n)
            == seq!['_'],
{
}

/// Writes a word in binary.
pub fn binary_string(word: u32) -> (text: String)
    ensures
        text@ == binary_text(word),
{
    let width: u32 = if word >= 0x8000_0000 {
        32
    } else if word >= 0x4000_0000 {
        31
    } else {
        30
    };
    let mut text: String = String::from_str("0b");
    proof {
        reveal_strlit("0b");
        reveal_strlit("0");
        reveal_strlit("1");
        assert(text@ =~= seq!['0', 'b'] + Seq::new(
            0,
            |k: int| binary_digit(word, (width - 1 - k) as u32),
        ));
    }
    let mut i: u32 = 0;
    while i < width
        invariant
            i <= width,
            width == binary_width(word),
            "0"@ == seq!['0'],
            "1"@ == seq!['1'],
            text@ == seq!['0', 'b'] + Seq::new(
                i as nat,
                |k: int| binary_digit(word, (width - 1 - k) as u32),
            ),
        decreases width - i,
    {
        let bit: u32 = width - 1 - i;
        let digit: &'static str = if (word >> bit) & 1 == 1 {
            "1"
        } else {
            "0"
        };
        text.append(digit);
        proof {
            assert(digit@ =~= seq![binary_digit(word, bit)]);
            assert(text@ =~= seq!['0', 'b'] + Seq::new(
                (i + 1) as nat,
                |k: int| binary_digit(word, (width - 1 - k) as u32),
            ));
        }
        i = i + 1;
    }
    text
}

/// One decimal digit as text.
fn digit_str(digit: u8) -> (text: &'static str)
    requires
        digit < 10,
    ensures
        text@ == seq![digit_glyph(digit as nat)],
{
    proof {
        reveal_strlit("0");
        reveal_strlit("1");
        reveal_strlit("2");
        reveal_strlit("3");
        reveal_strlit("4");
        reveal_strlit("5");
        reveal_strlit("6");
        reveal_strlit("7");
        reveal_strlit("8");
        reveal_strlit("9");
    }
    let text: &'static str = match digit {
        0 => "0",
        1 => "1",
        2 => "2",
        3 => "3",
        4 => "4",
        5 => "5",
        6 => "6",
        7 => "7",
        8 => "8",
        _ => "9",
    };
    assert(text@ =~= seq![digit_glyph(digit as nat)]);
    text
}

/// Writes a small number in decimal.
pub fn decimal_string(number: u8) -> (text: String)
    ensures
        text@ == decimal_text(number as nat),
{
    let mut text: String = String::new();
    if number >= 100 {
        text.append(digit_str(number / 100));
    }
    if number >= 10 {
        text.append(digit_str(number / 10 % 10));
    }
    text.append(digit_str(number % 10));
    proof {
        reveal_with_fuel(decimal_text, 3);
        assert(text@ =~= decimal_text(number as nat));
    }
    text
}

/// Adds one row of the board to a text. `cells` are the nine cells as they are shown.
pub(crate) fn push_row(
    text: &mut String,
    cells: &Vec<&'static str>,
    row: u8,
    Ghost(word): Ghost<u32>,
)
    requires
        row < 3,
        cells@.len() == 9,
        forall|i: int| 0 <= i < 9 ==> (#[trigger] cells@[i])@ == cell_glyph(word, i as u8),
    ensures
        final(text)@ == old(text)@ + row_text(word, row),
{
    proof {
        reveal_strlit("|");
        reveal_strlit("|\n");
    }
    let first: usize = 3 * (row as usize);
    text.append("|");
    text.append(cells[first]);
    text.append("|");
    text.append(cells[first + 1]);
    text.append("|");
    text.append(cells[first + 2]);
    text.append("|\n");
    assert(text@ =~= old(text)@ + row_text(word, row));
}

} // verus!
