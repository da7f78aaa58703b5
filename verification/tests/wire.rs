use tcp_udp_toe::wire::{decode, encode};
use tcp_udp_toe::{InvalidByteLength, Player, TicField};

#[test]
fn cell_zero_taken_by_o_is_three_in_the_low_byte() {
    let mut field = TicField::new();
    field.set_field(0, Player::O).expect("cell 0 is free");
    let bytes: [u8; 4] = field.as_bytes();
    assert_eq!(bytes.len(), 4);
    assert_eq!(bytes[0] & 0b11, 0b11);
    assert_eq!(bytes, [0b0000_0011, 0x00, 0x00, 0x00]);
}

#[test]
fn one_in_the_low_byte_is_cell_zero_taken_by_x() {
    let field = TicField::from_bytes(&[0x01, 0x00, 0x00, 0x00]).expect("four bytes");
    assert!(field.is_field_set(0));
    assert_eq!(field.get_player_for_field(0), Player::X);
    for n in 1..9u8 {
        assert!(!field.is_field_set(n));
    }
}

#[test]
fn bytes_are_least_significant_first() {
    assert_eq!(encode(0x0403_0201), [0x01, 0x02, 0x03, 0x04]);
    assert_eq!(decode(&[0x01, 0x02, 0x03, 0x04]), 0x0403_0201);
    assert_eq!(encode(0x0403_0201), 0x0403_0201u32.to_le_bytes());
    assert_eq!(decode(&[0xEF, 0xBE, 0xAD, 0xDE]), 0xDEAD_BEEF);
    assert_eq!(encode(u32::MAX), [0xFF, 0xFF, 0xFF, 0xFF]);
    assert_eq!(encode(0), [0, 0, 0, 0]);
    assert_eq!(encode(0x8000_0000), [0, 0, 0, 0x80]);
    assert_eq!(decode(&[0, 0, 0, 0x80]), 0x8000_0000);
}

#[test]
fn words_survive_the_wire() {
    let mut word: u32 = 1;
    for _ in 0..2000 {
        word = word.wrapping_mul(1_664_525).wrapping_add(1_013_904_223);
        assert_eq!(decode(&encode(word)), word);
        assert_eq!(encode(word), word.to_le_bytes());
        assert_eq!(decode(&word.to_le_bytes()), u32::from_le_bytes(word.to_le_bytes()));
    }
}

#[test]
fn boards_survive_the_wire_bit_for_bit() {
    let samples: [[u8; 4]; 8] = [
        [0x00, 0x00, 0x00, 0x00],
        [0xFF, 0xFF, 0xFF, 0xFF],
        [0x01, 0x02, 0x03, 0x04],
        [0x00, 0x00, 0x04, 0x00],
        [0x00, 0x00, 0x78, 0x00],
        [0x00, 0x00, 0x80, 0xFF],
        [0xAA, 0xAA, 0x02, 0x00],
        [0xEF, 0xBE, 0xAD, 0xDE],
    ];
    for bytes in samples {
        let field = TicField::from_bytes(&bytes).expect("four bytes");
        assert_eq!(field.as_bytes(), bytes);
        let again = TicField::from_bytes(&field.as_bytes()).expect("four bytes");
        assert_eq!(again, field);
        assert_eq!(again.as_bytes(), bytes);
    }
}

#[test]
fn boards_made_by_moves_survive_the_wire() {
    let mut field = TicField::new();
    for n in [4u8, 0, 8] {
        field.set_field(n, Player::O).expect("each cell is free once");
        let again = TicField::from_bytes(&field.as_bytes()).expect("four bytes");
        assert_eq!(again, field);
    }
}

#[test]
fn only_four_bytes_are_a_board() {
    let buffer: [u8; 9] = [0x01, 0x02, 0x03, 0x04, 0x05, 0x06, 0x07, 0x08, 0x09];
    for len in 0..=9usize {
        let result = TicField::from_bytes(&buffer[..len]);
        if len == 4 {
            assert_eq!(result.expect("four bytes").as_bytes(), [0x01, 0x02, 0x03, 0x04]);
        } else {
            assert_eq!(result, Err(InvalidByteLength { len }));
        }
    }
    assert_eq!(TicField::from_bytes(&[]), Err(InvalidByteLength { len: 0 }));
    assert_eq!(TicField::from_bytes(&[0x01, 0x00, 0x00]), Err(InvalidByteLength { len: 3 }));
    assert_eq!(TicField::from_bytes(&vec![0u8; 1000]), Err(InvalidByteLength { len: 1000 }));
}

#[test]
fn arrays_convert_both_ways() {
    let field = TicField::from([0x03, 0x00, 0xFC, 0xFF]);
    assert!(field.is_field_set(0));
    assert_eq!(field.get_player_for_field(0), Player::O);
    assert_eq!(field, TicField::from_bytes(&[0x03, 0x00, 0xFC, 0xFF]).expect("four bytes"));
    let bytes: [u8; 4] = (&field).into();
    assert_eq!(bytes, [0x03, 0x00, 0xFC, 0xFF]);
    assert_eq!(<[u8; 4]>::from(&field), field.as_bytes());
}
