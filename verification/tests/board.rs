use tcp_udp_toe::{FieldAlreadyUsed, InvalidCellIndex, Player, SetFieldError, TicField};

#[test]
fn test_tic_field_init() {
    let field = TicField::new();
    for i in 0..9 {
        assert_eq!(field.is_field_set(i), false);
    }
}

#[test]
fn test_tic_field_set() {
    let mut field = TicField::new();
    field.set_field(0, Player::O).expect("Field already set");
    for i in 1..9 {
        assert_eq!(field.is_field_set(i), false);
    }
    assert_eq!(field.is_field_set(0), true);
    assert_eq!(field.get_player_for_field(0), Player::O);
}

#[test]
fn empty_board_is_the_zero_word() {
    assert_eq!(TicField::new().as_bytes(), [0, 0, 0, 0]);
}

#[test]
fn every_cell_of_the_empty_board_is_taken_once() {
    for n in 0..9u8 {
        for first in [Player::X, Player::O] {
            for second in [Player::X, Player::O] {
                let mut field = TicField::new();
                assert!(!field.is_field_set(n));
                assert_eq!(field.set_field(n, first), Ok(()));
                assert!(field.is_field_set(n));
                assert_eq!(field.get_player_for_field(n), first);
                let once = field;
                assert_eq!(
                    field.set_field(n, second),
                    Err(FieldAlreadyUsed { failed_field: n, used_by: first })
                );
                assert_eq!(field, once);
                assert_eq!(field.get_player_for_field(n), first);
            }
        }
    }
}

#[test]
fn second_claim_names_the_first_player() {
    let mut field = TicField::new();
    assert_eq!(field.set_field(0, Player::X), Ok(()));
    let refused = field.set_field(0, Player::O);
    assert_eq!(refused, Err(FieldAlreadyUsed { failed_field: 0, used_by: Player::X }));
    assert_eq!(refused, Err(FieldAlreadyUsed::new(0, Player::X)));
    assert_eq!(field.get_player_for_field(0), Player::X);
    assert_eq!(field.as_bytes(), [0x01, 0, 0, 0]);
}

#[test]
fn taking_a_cell_sets_its_two_bits() {
    let mut field = TicField::new();
    field.set_field(0, Player::O).expect("cell 0 is free");
    assert_eq!(field.as_bytes(), [0b11, 0, 0, 0]);

    let mut field = TicField::new();
    field.set_field(1, Player::X).expect("cell 1 is free");
    assert_eq!(field.as_bytes(), [0b0100, 0, 0, 0]);

    let mut field = TicField::new();
    field.set_field(4, Player::O).expect("cell 4 is free");
    assert_eq!(field.as_bytes(), [0, 0b11, 0, 0]);

    let mut field = TicField::new();
    field.set_field(8, Player::X).expect("cell 8 is free");
    assert_eq!(field.as_bytes(), [0, 0, 0b01, 0]);

    let mut field = TicField::new();
    field.set_field(8, Player::O).expect("cell 8 is free");
    assert_eq!(field.as_bytes(), [0, 0, 0b11, 0]);
}

#[test]
fn a_full_board_fills_eighteen_bits() {
    let mut field = TicField::new();
    for n in 0..9u8 {
        field.set_field(n, Player::O).expect("each cell is free once");
    }
    assert_eq!(field.as_bytes(), [0xFF, 0xFF, 0x03, 0x00]);
    for n in 0..9u8 {
        assert!(field.is_field_set(n));
        assert_eq!(field.get_player_for_field(n), Player::O);
    }

    let mut field = TicField::new();
    for n in 0..9u8 {
        field.set_field(n, Player::X).expect("each cell is free once");
    }
    assert_eq!(field.as_bytes(), [0x55, 0x55, 0x01, 0x00]);
}

#[test]
fn taking_a_cell_leaves_the_others_alone() {
    let mut field = TicField::from_bytes(&[0b0001_1100, 0, 0xFC, 0xFF]).expect("four bytes");
    assert!(field.is_field_set(1));
    assert_eq!(field.get_player_for_field(1), Player::O);
    assert!(field.is_field_set(2));
    assert_eq!(field.get_player_for_field(2), Player::X);
    assert_eq!(field.set_field(0, Player::X), Ok(()));
    assert_eq!(field.as_bytes(), [0b0001_1101, 0, 0xFC, 0xFF]);
    assert_eq!(field.set_field(8, Player::O), Ok(()));
    assert_eq!(field.as_bytes(), [0b0001_1101, 0, 0xFF, 0xFF]);
}

#[test]
fn taken_cells_stay_taken() {
    let mut field = TicField::new();
    let order: [u8; 9] = [4, 0, 8, 2, 6, 1, 7, 3, 5];
    for (turn, n) in order.iter().enumerate() {
        let player = if turn % 2 == 0 { Player::X } else { Player::O };
        field.set_field(*n, player).expect("each cell is free once");
        for earlier in order.iter().take(turn + 1) {
            assert!(field.is_field_set(*earlier));
        }
    }
}

#[test]
fn owner_is_read_whether_or_not_the_cell_is_taken() {
    let field = TicField::from_bytes(&[0b10, 0, 0, 0]).expect("four bytes");
    assert!(!field.is_field_set(0));
    assert_eq!(field.get_player_for_field(0), Player::O);
    assert_eq!(TicField::new().get_player_for_field(0), Player::X);
}

#[test]
fn a_free_cell_with_its_high_bit_set_reads_o_once_taken() {
    let mut field = TicField::from_bytes(&[0b10, 0, 0, 0]).expect("four bytes");
    assert_eq!(field.set_field(0, Player::X), Ok(()));
    assert_eq!(field.as_bytes(), [0b11, 0, 0, 0]);
    assert_eq!(field.get_player_for_field(0), Player::O);
}

#[test]
fn checked_queries_refuse_numbers_off_the_board() {
    let mut field = TicField::new();
    field.set_field(3, Player::O).expect("cell 3 is free");
    assert_eq!(field.checked_is_field_set(3), Ok(true));
    assert_eq!(field.checked_is_field_set(8), Ok(false));
    assert_eq!(field.checked_is_field_set(9), Err(InvalidCellIndex { cell: 9 }));
    assert_eq!(field.checked_is_field_set(16), Err(InvalidCellIndex { cell: 16 }));
    assert_eq!(field.checked_is_field_set(255), Err(InvalidCellIndex { cell: 255 }));
    assert_eq!(field.checked_get_player_for_field(3), Ok(Player::O));
    assert_eq!(field.checked_get_player_for_field(0), Ok(Player::X));
    assert_eq!(field.checked_get_player_for_field(9), Err(InvalidCellIndex { cell: 9 }));
    assert_eq!(field.checked_get_player_for_field(128), Err(InvalidCellIndex { cell: 128 }));
}

#[test]
fn checked_set_field_refuses_and_changes_nothing() {
    let mut field = TicField::from_bytes(&[0, 0, 0xFC, 0xFF]).expect("four bytes");
    let before = field;
    for n in [9u8, 10, 15, 16, 127, 128, 255] {
        assert_eq!(
            field.checked_set_field(n, Player::O),
            Err(SetFieldError::InvalidCellIndex(InvalidCellIndex { cell: n }))
        );
        assert_eq!(field, before);
    }
    assert_eq!(field.checked_set_field(8, Player::X), Ok(()));
    assert_eq!(field.as_bytes(), [0, 0, 0xFD, 0xFF]);
    assert_eq!(
        field.checked_set_field(8, Player::O),
        Err(SetFieldError::FieldAlreadyUsed(FieldAlreadyUsed { failed_field: 8, used_by: Player::X }))
    );
    assert_eq!(field.as_bytes(), [0, 0, 0xFD, 0xFF]);
}

#[test]
fn boards_made_by_moves_have_blank_free_cells() {
    let mut field = TicField::new();
    let order: [u8; 9] = [7, 2, 5, 0, 8, 3, 1, 6, 4];
    for (turn, n) in order.iter().enumerate() {
        let player = if turn % 3 == 0 { Player::O } else { Player::X };
        field.set_field(*n, player).expect("each cell is free once");
        assert_eq!(field.get_player_for_field(*n), player);
        let bytes = field.as_bytes();
        let word = u32::from_le_bytes(bytes);
        for cell in 0..9u32 {
            let slot = (word >> (2 * cell)) & 0b11;
            assert_ne!(slot, 0b10);
        }
        assert_eq!(word >> 18, 0);
    }
}

#[test]
fn taking_a_cell_keeps_player_round_and_rest() {
    for high in [0x04u8, 0x78, 0x80, 0xFC] {
        for top in [0x00u8, 0x5A, 0xFF] {
            let mut field = TicField::from_bytes(&[0, 0, high, top]).expect("four bytes");
            for n in 0..9u8 {
                field.set_field(n, Player::O).expect("each cell is free once");
                let bytes = field.as_bytes();
                assert_eq!(bytes[2] & 0xFC, high);
                assert_eq!(bytes[3], top);
            }
        }
    }
}
