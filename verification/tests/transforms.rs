use aes_cbc::block::{
    sub_bytes, shift_rows, inv_shift_rows, mix_columns, inv_mix_columns, add_round_key, rot_word,
    sub_word, gf_word_add, AesBlock,
};
use aes_cbc::state::State;
use aes_cbc::tables::{rcon_word, sbox_encrypt_table, sbox_decrypt_table};

const STATE_INIT: [u8; 16] = [1, 2, 3, 4, 5, 6, 7, 8, 9, 10, 11, 12, 13, 14, 15, 16];
const STATE_COLS: [u8; 16] = [
    0xd4, 0xbf, 0x5d, 0x30, 0xe0, 0xb4, 0x52, 0xae, 0xb8, 0x41, 0x11, 0xf1, 0x1e, 0x27, 0x98, 0xe5,
];

#[test]
fn test_sub_bytes() {
    let mut state: AesBlock = [[1, 2, 3, 4], [5, 6, 7, 8], [9, 10, 11, 12], [13, 14, 15, 16]];

    let enc_expected = [
        [0x7c, 0x77, 0x7b, 0xf2],
        [0x6b, 0x6f, 0xc5, 0x30],
        [0x01, 0x67, 0x2b, 0xfe],
        [0xd7, 0xab, 0x76, 0xca],
    ];

    let dec_expected = [[1, 2, 3, 4], [5, 6, 7, 8], [9, 10, 11, 12], [13, 14, 15, 16]];

    let enc_table = sbox_encrypt_table();
    let dec_table = sbox_decrypt_table();

    sub_bytes(&mut state, enc_table.as_slice());
    assert_eq!(state, enc_expected);

    sub_bytes(&mut state, dec_table.as_slice());
    assert_eq!(state, dec_expected);
}

#[test]
fn test_shift_rows() {
    let mut state: AesBlock = [[1, 2, 3, 4], [5, 6, 7, 8], [9, 10, 11, 12], [13, 14, 15, 16]];

    let expected_shift: AesBlock = [[1, 6, 11, 16], [5, 10, 15, 4], [9, 14, 3, 8], [13, 2, 7, 12]];

    shift_rows(&mut state);
    assert_eq!(state, expected_shift);
}

#[test]
fn test_inv_shift_rows() {
    let mut state: AesBlock = [[1, 2, 3, 4], [5, 6, 7, 8], [9, 10, 11, 12], [13, 14, 15, 16]];
    let expected_shift: AesBlock = [[1, 14, 11, 8], [5, 2, 15, 12], [9, 6, 3, 16], [13, 10, 7, 4]];

    inv_shift_rows(&mut state);
    assert_eq!(state, expected_shift);
}

#[test]
fn test_mix_columns() {
    let mut state: AesBlock = [
        [0xd4, 0xbf, 0x5d, 0x30],
        [0xe0, 0xb4, 0x52, 0xae],
        [0xb8, 0x41, 0x11, 0xf1],
        [0x1e, 0x27, 0x98, 0xe5],
    ];

    let expected_output: AesBlock = [
        [0x04, 0x66, 0x81, 0xe5],
        [0xe0, 0xcb, 0x19, 0x9a],
        [0x48, 0xf8, 0xd3, 0x7a],
        [0x28, 0x06, 0x26, 0x4c],
    ];

    mix_columns(&mut state);
    assert_eq!(state, expected_output);
}

#[test]
fn inv_mix_columns_undoes_mix_columns() {
    let mut state: AesBlock = [
        [0xd4, 0xbf, 0x5d, 0x30],
        [0xe0, 0xb4, 0x52, 0xae],
        [0xb8, 0x41, 0x11, 0xf1],
        [0x1e, 0x27, 0x98, 0xe5],
    ];
    let original = state;
    mix_columns(&mut state);
    inv_mix_columns(&mut state);
    assert_eq!(state, original);
}

#[test]
fn forward_test_sub_bytes() {
    let enc_expected = [
        [0x7c, 0x77, 0x7b, 0xf2],
        [0x6b, 0x6f, 0xc5, 0x30],
        [0x01, 0x67, 0x2b, 0xfe],
        [0xd7, 0xab, 0x76, 0xca],
    ];
    let mut output = State::new(&STATE_INIT);
    output.sub_bytes();

    assert_eq!(output.block, enc_expected);
}

#[test]
fn forward_shift_rows_test() {
    let expected_shift = [[1, 6, 11, 16], [5, 10, 15, 4], [9, 14, 3, 8], [13, 2, 7, 12]];
    let mut output = State::new(&STATE_INIT);
    output.shift_rows();

    assert_eq!(output.block, expected_shift);
}

#[test]
fn inverse_shift_rows_test() {
    let expected_shift = [[1, 14, 11, 8], [5, 2, 15, 12], [9, 6, 3, 16], [13, 10, 7, 4]];
    let mut output = State::new(&STATE_INIT);
    output.flip_direction();
    output.shift_rows();

    assert_eq!(output.block, expected_shift);
}

#[test]
fn rot_word_rotates_left_by_one() {
    let mut word = [1u8, 2, 3, 4];
    rot_word(&mut word);
    assert_eq!(word, [2, 3, 4, 1]);
}

#[test]
fn sub_word_substitutes_each_byte() {
    let table = sbox_encrypt_table();
    let mut word = [0u8, 1, 2, 3];
    sub_word(&mut word, table.as_slice());
    assert_eq!(word, [0x63, 0x7c, 0x77, 0x7b]);
}

#[test]
fn gf_word_add_is_bytewise_xor() {
    let mut dest = [0u8; 4];
    gf_word_add([0xf0, 0x0f, 0xaa, 0x55], [0x0f, 0x0f, 0xaa, 0xff], &mut dest);
    assert_eq!(dest, [0xff, 0x00, 0x00, 0xaa]);
}

#[test]
fn add_round_key_with_itself_zeroes_the_state() {
    let mut state: AesBlock = [[1, 2, 3, 4], [5, 6, 7, 8], [9, 10, 11, 12], [13, 14, 15, 16]];
    let key = state;
    add_round_key(&mut state, &key);
    assert_eq!(state, [[0; 4]; 4]);
}

#[test]
fn sbox_tables_hold_known_entries() {
    let enc = sbox_encrypt_table();
    let dec = sbox_decrypt_table();
    assert_eq!(enc[0x00], 0x63);
    assert_eq!(enc[0x53], 0xed);
    assert_eq!(dec[0x63], 0x00);
    assert_eq!(dec[0xed], 0x53);
    for b in 0..=255usize {
        assert_eq!(dec[enc[b] as usize] as usize, b);
    }
}

#[test]
fn rcon_words_match_the_standard_constants() {
    let expected: [u8; 10] = [0x01, 0x02, 0x04, 0x08, 0x10, 0x20, 0x40, 0x80, 0x1b, 0x36];
    for (i, rc) in expected.iter().enumerate() {
        assert_eq!(rcon_word(i), [*rc, 0, 0, 0]);
    }
}

#[test]
fn foward_mix_columns_test() {
    let mut output = State::new(&STATE_COLS);
    let expected_output = [
        [0x04, 0x66, 0x81, 0xe5],
        [0xe0, 0xcb, 0x19, 0x9a],
        [0x48, 0xf8, 0xd3, 0x7a],
        [0x28, 0x06, 0x26, 0x4c],
    ];
    output.mix_columns();

    assert_eq!(output.block, expected_output);
}
