use aes_cbc::block::AesKey128;
use aes_cbc::cbc::{aes, cbc_decrypt, cbc_encrypt, cbc_encrypt_with_iv, Aes128Cbc, CbcError};

#[test]
fn test_cbc_padding_needed() {
    let key: AesKey128 = [0x61; 16];
    let input: [u8; 9] = [0x41; 9];

    let enc = cbc_encrypt(&input, &key);
    let enc_clone = enc.clone();

    let dec = cbc_decrypt(key, &enc_clone);

    assert!(dec.is_ok());
    assert_eq!(dec.unwrap(), input);
}

#[test]
fn test_cbc_full_block() {
    let key: AesKey128 = [0x61; 16];
    let input: [u8; 16] = [0x41; 16];

    let enc = cbc_encrypt(&input, &key);
    let enc_clone = enc.clone();

    let dec = cbc_decrypt(key, &enc_clone);

    assert!(dec.is_ok());
    assert_eq!(dec.unwrap(), input);
}

#[test]
fn round_trip_many_lengths() {
    let key: AesKey128 = [
        0x2b, 0x7e, 0x15, 0x16, 0x28, 0xae, 0xd2, 0xa6, 0xab, 0xf7, 0x15, 0x88, 0x09, 0xcf, 0x4f,
        0x3c,
    ];
    for len in [0usize, 1, 9, 15, 16, 17, 32, 100] {
        let plaintext: Vec<u8> = (0..len).map(|i| (i * 7 + 13) as u8).collect();
        let enc = cbc_encrypt(&plaintext, &key);
        let dec = cbc_decrypt(key, &enc).unwrap();
        assert_eq!(dec, plaintext);
    }
}

#[test]
fn ciphertext_length_is_iv_plus_padded_plaintext() {
    let key: AesKey128 = [0x10; 16];
    for (len, expected) in [(0usize, 32usize), (1, 32), (15, 32), (16, 48), (17, 48), (32, 64)] {
        let plaintext: Vec<u8> = vec![0xab; len];
        let enc = cbc_encrypt(&plaintext, &key);
        assert_eq!(enc.len(), expected);
    }
}

#[test]
fn encrypt_with_iv_is_deterministic_and_embeds_iv() {
    let key: AesKey128 = [0x42; 16];
    let iv: [u8; 16] = [0x24; 16];
    let plaintext = [1u8, 2, 3, 4, 5];

    let a = cbc_encrypt_with_iv(&plaintext, &key, &iv);
    let b = cbc_encrypt_with_iv(&plaintext, &key, &iv);

    assert_eq!(a, b);
    assert_eq!(&a[..16], &iv[..]);
}

#[test]
fn malformed_lengths_are_rejected() {
    let key: AesKey128 = [0x61; 16];
    for len in [0usize, 1, 15, 16, 31, 33, 40, 47, 49, 63] {
        let input: Vec<u8> = vec![0u8; len];
        let dec = cbc_decrypt(key, &input);
        assert_eq!(dec, Err(CbcError::MalformedCiphertext));
    }
}

#[test]
fn corrupted_final_block_is_rejected() {
    let key: AesKey128 = [0x61; 16];
    let iv: [u8; 16] = [0x33; 16];
    let plaintext: [u8; 9] = [0x41; 9];

    let enc = cbc_encrypt_with_iv(&plaintext, &key, &iv);
    let last_block_start = enc.len() - 16;

    for pos in last_block_start..enc.len() {
        let mut corrupted = enc.clone();
        corrupted[pos] ^= 0xff;
        let dec = cbc_decrypt(key, &corrupted);
        match dec {
            Err(CbcError::PaddingInvalid) => {},
            Err(other) => panic!("unexpected error {:?}", other),
            Ok(recovered) => assert_ne!(recovered, plaintext),
        }
    }
}

#[test]
fn corrupted_final_byte_never_recovers_plaintext() {
    let key: AesKey128 = [0x77; 16];
    let iv: [u8; 16] = [0x11; 16];
    let plaintext: [u8; 20] = [0x55; 20];

    let enc = cbc_encrypt_with_iv(&plaintext, &key, &iv);
    let last = enc.len() - 1;

    for flip in 1..=255u8 {
        let mut corrupted = enc.clone();
        corrupted[last] ^= flip;
        let dec = cbc_decrypt(key, &corrupted);
        if let Ok(recovered) = dec {
            assert_ne!(recovered, plaintext);
        }
    }
}

#[test]
fn engine_round_trip() {
    let key: AesKey128 = [0x09; 16];
    let engine = Aes128Cbc::new(key);
    let plaintext = b"the quick brown fox jumps over the lazy dog";

    let enc = engine.encrypt(plaintext);
    assert_eq!(&enc[..16], &engine.iv[..]);

    let dec = engine.decrypt(&enc).unwrap();
    assert_eq!(dec, plaintext);
}

#[test]
fn from_key_slice_rejects_wrong_lengths() {
    assert!(matches!(
        Aes128Cbc::from_key_slice(&[0u8; 15]),
        Err(CbcError::InvalidKeyLength)
    ));
    assert!(matches!(
        Aes128Cbc::from_key_slice(&[0u8; 17]),
        Err(CbcError::InvalidKeyLength)
    ));
    assert!(matches!(Aes128Cbc::from_key_slice(&[]), Err(CbcError::InvalidKeyLength)));

    let engine = Aes128Cbc::from_key_slice(&[0x61u8; 16]).unwrap();
    assert_eq!(engine.aes.key, [0x61u8; 16]);
}

#[test]
fn aes_builder_uses_supplied_key() {
    let key_bytes: Vec<u8> = vec![0x61; 16];
    let engine = aes("cbc128", Some(key_bytes.clone()));
    assert_eq!(&engine.aes.key[..], &key_bytes[..]);

    let enc = engine.encrypt(b"attack at dawn");
    let dec = engine.decrypt(&enc).unwrap();
    assert_eq!(dec, b"attack at dawn");
}

#[test]
fn aes_builder_random_key_round_trips() {
    let engine = aes("cbc128", None);
    let enc = engine.encrypt(b"shellcode");
    let dec = engine.decrypt(&enc).unwrap();
    assert_eq!(dec, b"shellcode");
}

#[test]
fn distinct_ivs_give_distinct_ciphertexts() {
    let key: AesKey128 = [0x05; 16];
    let plaintext = [0u8; 16];
    let a = cbc_encrypt_with_iv(&plaintext, &key, &[0x01; 16]);
    let b = cbc_encrypt_with_iv(&plaintext, &key, &[0x02; 16]);
    assert_ne!(a, b);
}
