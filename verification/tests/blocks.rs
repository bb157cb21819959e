use aes_cbc::block::{
    key_schedule_128, encrypt_block, decrypt_block, AesBlock, AesKey128, NUM_ROUND_KEYS_128,
};
use aes_cbc::state::{Aes128, State};

const FIPS_KEY: AesKey128 = [
    0x2b, 0x7e, 0x15, 0x16, 0x28, 0xae, 0xd2, 0xa6, 0xab, 0xf7, 0x15, 0x88, 0x09, 0xcf, 0x4f, 0x3c,
];

#[test]
fn test_block_encrypt_from_key_schedule() {
    let mut input: AesBlock = [
        [0x32, 0x43, 0xf6, 0xa8],
        [0x88, 0x5a, 0x30, 0x8d],
        [0x31, 0x31, 0x98, 0xa2],
        [0xe0, 0x37, 0x07, 0x34],
    ];

    let expected: AesBlock = [
        [0x39, 0x25, 0x84, 0x1d],
        [0x02, 0xdc, 0x09, 0xfb],
        [0xdc, 0x11, 0x85, 0x97],
        [0x19, 0x6a, 0x0b, 0x32],
    ];
    let mut round_keys: [AesBlock; NUM_ROUND_KEYS_128] = [[[0; 4]; 4]; NUM_ROUND_KEYS_128];
    let key: AesKey128 = FIPS_KEY;

    key_schedule_128(&key, &mut round_keys);
    encrypt_block(&mut input, &round_keys);

    assert_eq!(input, expected);
}

#[test]
fn test_block_decrypt_from_key_schedule() {
    let mut input: AesBlock = [
        [0x39, 0x25, 0x84, 0x1d],
        [0x02, 0xdc, 0x09, 0xfb],
        [0xdc, 0x11, 0x85, 0x97],
        [0x19, 0x6a, 0x0b, 0x32],
    ];

    let expected: AesBlock = [
        [0x32, 0x43, 0xf6, 0xa8],
        [0x88, 0x5a, 0x30, 0x8d],
        [0x31, 0x31, 0x98, 0xa2],
        [0xe0, 0x37, 0x07, 0x34],
    ];

    let mut round_keys: [AesBlock; NUM_ROUND_KEYS_128] = [[[0; 4]; 4]; NUM_ROUND_KEYS_128];
    let key: AesKey128 = FIPS_KEY;

    key_schedule_128(&key, &mut round_keys);
    decrypt_block(&mut input, &round_keys);

    assert_eq!(input, expected);
}

#[test]
fn state_encrypt_block_fips_vector() {
    let plaintext: [u8; 16] = [
        0x32, 0x43, 0xf6, 0xa8, 0x88, 0x5a, 0x30, 0x8d, 0x31, 0x31, 0x98, 0xa2, 0xe0, 0x37, 0x07,
        0x34,
    ];
    let expected: [u8; 16] = [
        0x39, 0x25, 0x84, 0x1d, 0x02, 0xdc, 0x09, 0xfb, 0xdc, 0x11, 0x85, 0x97, 0x19, 0x6a, 0x0b,
        0x32,
    ];

    let schedule = Aes128::new(FIPS_KEY);
    let mut state = State::new(&plaintext);
    state.encrypt_block(schedule);

    assert_eq!(state.flat, expected);
}

#[test]
fn state_decrypt_block_inverts_encrypt_block() {
    let plaintext: [u8; 16] = [
        0x32, 0x43, 0xf6, 0xa8, 0x88, 0x5a, 0x30, 0x8d, 0x31, 0x31, 0x98, 0xa2, 0xe0, 0x37, 0x07,
        0x34,
    ];

    let schedule = Aes128::new(FIPS_KEY);
    let mut state = State::new(&plaintext);
    state.encrypt_block(schedule);
    let ciphertext = state.flat;

    let mut back = State::new(&ciphertext);
    back.decrypt_block(schedule);

    assert_eq!(back.flat, plaintext);
}

#[test]
fn get_round_key_returns_schedule_entry() {
    let schedule = Aes128::new(FIPS_KEY);
    let first = schedule.get_round_key(0);
    assert_eq!(first, schedule.round_keys[0]);
    let last = schedule.get_round_key(10);
    assert_eq!(last, schedule.round_keys[10]);
}
