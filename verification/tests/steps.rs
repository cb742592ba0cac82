use aesteve::block::Block;
use aesteve::galois::{gmul, table_index};
use aesteve::tables::{lookup, reverse_lookup, round_constant, INV_MIX_MATRIX, MIX_MATRIX};
use aesteve::AESteve;

const SAMPLE: Block = [
    [0x00, 0x01, 0x02, 0x03],
    [0x10, 0x11, 0x12, 0x13],
    [0x20, 0x21, 0x22, 0x23],
    [0x30, 0x31, 0x32, 0x33],
];

#[test]
fn lookup_gives_the_substitute() {
    assert_eq!(lookup(0x00), 0x63);
    assert_eq!(lookup(0x53), 0xed);
    assert_eq!(lookup(0xff), 0x16);
}

#[test]
fn reverse_lookup_gives_the_byte_back() {
    assert_eq!(reverse_lookup(0x63), 0x00);
    assert_eq!(reverse_lookup(0xed), 0x53);
    assert_eq!(reverse_lookup(0x16), 0xff);
}

#[test]
fn the_substitution_boxes_undo_each_other() {
    for byte in 0..=255u8 {
        assert_eq!(reverse_lookup(lookup(byte)), byte);
        assert_eq!(lookup(reverse_lookup(byte)), byte);
    }
}

#[test]
fn round_constants_of_the_ten_rounds() {
    let expected = [0x01, 0x02, 0x04, 0x08, 0x10, 0x20, 0x40, 0x80, 0x1b, 0x36];
    for round in 0..10u8 {
        assert_eq!(round_constant(round), expected[round as usize]);
    }
}

#[test]
fn last_round_constant_of_the_table() {
    assert_eq!(round_constant(21), 0x35);
}

#[test]
fn table_index_of_each_multiplicand() {
    assert_eq!(table_index(2), 0);
    assert_eq!(table_index(3), 1);
    assert_eq!(table_index(9), 2);
    assert_eq!(table_index(11), 3);
    assert_eq!(table_index(13), 4);
    assert_eq!(table_index(14), 5);
}

#[test]
fn gmul_by_one_is_the_identity() {
    for byte in 0..=255u8 {
        assert_eq!(gmul(1, byte), byte);
    }
}

#[test]
fn gmul_gives_the_field_product() {
    assert_eq!(gmul(2, 0x57), 0xae);
    assert_eq!(gmul(3, 0x57), 0xf9);
    assert_eq!(gmul(9, 0x57), 0xd9);
    assert_eq!(gmul(11, 0x57), 0x77);
    assert_eq!(gmul(13, 0x57), 0x9e);
    assert_eq!(gmul(14, 0x57), 0x67);
    assert_eq!(gmul(2, 0x80), 0x1b);
    assert_eq!(gmul(14, 0xff), 0x8d);
}

#[test]
fn gmul_agrees_with_shift_and_add() {
    fn double(byte: u8) -> u8 {
        let shifted = byte << 1;
        if byte & 0x80 != 0 {
            shifted ^ 0x1b
        } else {
            shifted
        }
    }
    fn product(mut a: u8, mut b: u8) -> u8 {
        let mut sum = 0;
        while a != 0 {
            if a & 1 == 1 {
                sum ^= b;
            }
            b = double(b);
            a >>= 1;
        }
        sum
    }
    for n in [1u8, 2, 3, 9, 11, 13, 14] {
        for byte in 0..=255u8 {
            assert_eq!(gmul(n, byte), product(n, byte));
        }
    }
}

#[test]
fn the_diffusion_matrices_hold_supported_multiplicands() {
    for row in MIX_MATRIX.iter().chain(INV_MIX_MATRIX.iter()) {
        for entry in row {
            assert!([1u8, 2, 3, 9, 11, 13, 14].contains(entry));
        }
    }
}

#[test]
fn add_round_key_is_xor() {
    let key = [[0xffu8; 4]; 4];
    let mixed = AESteve::add_round_key(key, SAMPLE);
    assert_eq!(mixed[0], [0xff, 0xfe, 0xfd, 0xfc]);
    assert_eq!(mixed[3], [0xcf, 0xce, 0xcd, 0xcc]);
    assert_eq!(AESteve::add_round_key(key, mixed), SAMPLE);
}

#[test]
fn sub_bytes_substitutes_every_byte() {
    let substituted = AESteve::sub_bytes(SAMPLE);
    assert_eq!(substituted[0], [0x63, 0x7c, 0x77, 0x7b]);
    assert_eq!(substituted[3], [0x04, 0xc7, 0x23, 0xc3]);
    assert_eq!(AESteve::inv_sub_bytes(substituted), SAMPLE);
}

#[test]
fn shift_rows_rotates_row_r_by_r() {
    let shifted = AESteve::shift_rows(SAMPLE);
    assert_eq!(
        shifted,
        [
            [0x00, 0x11, 0x22, 0x33],
            [0x10, 0x21, 0x32, 0x03],
            [0x20, 0x31, 0x02, 0x13],
            [0x30, 0x01, 0x12, 0x23],
        ]
    );
}

#[test]
fn inv_shift_rows_rotates_back() {
    let shifted = AESteve::inv_shift_rows(SAMPLE);
    assert_eq!(
        shifted,
        [
            [0x00, 0x31, 0x22, 0x13],
            [0x10, 0x01, 0x32, 0x23],
            [0x20, 0x11, 0x02, 0x33],
            [0x30, 0x21, 0x12, 0x03],
        ]
    );
    assert_eq!(AESteve::inv_shift_rows(AESteve::shift_rows(SAMPLE)), SAMPLE);
}

#[test]
fn transpose_exchanges_rows_and_columns() {
    let transposed = AESteve::transpose(SAMPLE);
    assert_eq!(
        transposed,
        [
            [0x00, 0x10, 0x20, 0x30],
            [0x01, 0x11, 0x21, 0x31],
            [0x02, 0x12, 0x22, 0x32],
            [0x03, 0x13, 0x23, 0x33],
        ]
    );
}

#[test]
fn mix_columns_on_known_columns() {
    let block = [
        [0xdb, 0x13, 0x53, 0x45],
        [0xf2, 0x0a, 0x22, 0x5c],
        [0x01, 0x01, 0x01, 0x01],
        [0xc6, 0xc6, 0xc6, 0xc6],
    ];
    let mixed = AESteve::mix_columns(block);
    assert_eq!(
        mixed,
        [
            [0x8e, 0x4d, 0xa1, 0xbc],
            [0x9f, 0xdc, 0x58, 0x9d],
            [0x01, 0x01, 0x01, 0x01],
            [0xc6, 0xc6, 0xc6, 0xc6],
        ]
    );
    assert_eq!(AESteve::inv_mix_columns(mixed), block);
}

#[test]
fn inv_mix_columns_undoes_mix_columns() {
    let mixed = AESteve::mix_columns(SAMPLE);
    assert_ne!(mixed, SAMPLE);
    assert_eq!(AESteve::inv_mix_columns(mixed), SAMPLE);
}
