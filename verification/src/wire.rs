//! The wire form of the packed board word: four bytes, least significant first.
//!
//! Byte `i` is digit `i` of the word written in base 256. The order is fixed: it does
//! not depend on the machine that encodes or decodes.

use vstd::prelude::*;
use crate::ticonst::WIRE_BYTES;

verus! {

/// The four bytes of a word, least significant first.
pub open spec fn word_bytes(word: u32) -> Seq<u8> {
    seq![
        (word % 0x100) as u8,
        (word / 0x100 % 0x100) as u8,
        (word / 0x1_0000 % 0x100) as u8,
        (word / 0x100_0000) as u8,
    ]
}

/// The same four bytes as an array.
pub open spec fn word_array(word: u32) -> [u8; 4] {
    [
        (word % 0x100) as u8,
        (word / 0x100 % 0x100) as u8,
        (word / 0x1_0000 % 0x100) as u8,
        (word / 0x100_0000) as u8,
    ]
}

/// The word that four bytes stand for, the first byte being the least significant.
pub open spec fn bytes_word(bytes: Seq<u8>) -> u32
    recommends
        bytes.len() == WIRE_BYTES,
{
    (bytes[0] + 0x100 * bytes[1] + 0x1_0000 * bytes[2] + 0x100_0000 * bytes[3]) as u32
}

/// Encoding and then decoding gives the word back, whatever its bits.
pub proof fn lemma_word_survives_the_wire(word: u32)
    ensures
        word_bytes(word).len() == WIRE_BYTES,
        bytes_word(word_bytes(word)) == word,
{
    assert(word % 0x100 + 0x100 * (word / 0x100 % 0x100) + 0x1_0000 * (word / 0x1_0000 % 0x100)
        + 0x100_0000 * (word / 0x100_0000) == word && word / 0x100_0000 < 0x100) by (bit_vector);
}

/// Decoding and then encoding gives the four bytes back.
pub proof fn lemma_bytes_survive_the_word(bytes: Seq<u8>)
    requires
        bytes.len() == WIRE_BYTES,
    ensures
        word_bytes(bytes_word(bytes)) == bytes,
{
    let b0: u32 = bytes[0] as u32;
    let b1: u32 = bytes[1] as u32;
    let b2: u32 = bytes[2] as u32;
    let b3: u32 = bytes[3] as u32;
    let word: u32 = bytes_word(bytes);
    assert({
        &&& word % 0x100 == b0
        &&& word / 0x100 % 0x100 == b1
        &&& word / 0x1_0000 % 0x100 == b2
        &&& word / 0x100_0000 == b3
    }) by (bit_vector)
        requires
            b0 < 0x100,
            b1 < 0x100,
            b2 < 0x100,
            b3 < 0x100,
            word == b0 + 0x100 * b1 + 0x1_0000 * b2 + 0x100_0000 * b3,
    ;
    assert(word_bytes(word) =~= bytes);
}

/// Writes a word as its four bytes.
pub fn encode(word: u32) -> (bytes: [u8; 4])
    ensures
        bytes@ == word_bytes(word),
{
    let b0: u32 = word & 0xff;
    let b1: u32 = (word >> 8) & 0xff;
    let b2: u32 = (word >> 16) & 0xff;
    let b3: u32 = word >> 24;
    assert({
        &&& b0 == word % 0x100
        &&& b1 == word / 0x100 % 0x100
        &&& b2 == word / 0x1_0000 % 0x100
        &&& b3 == word / 0x100_0000
        &&& b3 < 0x100
    }) by (bit_vector)
        requires
            b0 == word & 0xff,
            b1 == (word >> 8) & 0xff,
            b2 == (word >> 16) & 0xff,
            b3 == word >> 24,
    ;
    let bytes: [u8; 4] = [b0 as u8, b1 as u8, b2 as u8, b3 as u8];
    assert(bytes@ =~= word_bytes(word));
    bytes
}

/// Reads a word from its four bytes.
pub fn decode(bytes: &[u8]) -> (word: u32)
    requires
        bytes@.len() == WIRE_BYTES,
    ensures
        word == bytes_word(bytes@),
{
    let b0: u32 = bytes[0] as u32;
    let b1: u32 = bytes[1] as u32;
    let b2: u32 = bytes[2] as u32;
    let b3: u32 = bytes[3] as u32;
    let word: u32 = b0 | (b1 << 8) | (b2 << 16) | (b3 << 24);
    assert(word == b0 + 0x100 * b1 + 0x1_0000 * b2 + 0x100_0000 * b3) by (bit_vector)
        requires
            b0 < 0x100,
            b1 < 0x100,
            b2 < 0x100,
            b3 < 0x100,
            word == b0 | (b1 << 8) | (b2 << 16) | (b3 << 24),
    ;
    word
}

} // verus!
