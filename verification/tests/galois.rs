use aes_cbc::galois::{gf_mult, gf_mult_fast};

#[test]
fn galois_test_gf_mult() {
    let a: u8 = 0x57;
    let enc_b: u8 = 0x13;
    let dec_b = 1;

    let enc_r: u8 = gf_mult_fast(a, enc_b);
    let dec_r: u8 = gf_mult_fast(a, dec_b);

    assert_eq!(enc_r, 0xfe);
    assert_eq!(dec_r, a);
}

#[test]
fn aes_test_gf_mult() {
    let a: u8 = 0x57;
    let enc_b: u8 = 0x13;
    let dec_b = 1;
    let enc_r: u8 = gf_mult(a, enc_b);
    let dec_r: u8 = gf_mult(a, dec_b);

    assert_eq!(enc_r, 0xfe);
    assert_eq!(dec_r, a);
}

#[test]
fn gf_mult_agrees_with_fast_variant() {
    for a in 0..=255u8 {
        for b in [0u8, 1, 2, 3, 0x13, 0x57, 0x80, 0xff] {
            assert_eq!(gf_mult(a, b), gf_mult_fast(a, b));
        }
    }
}

#[test]
fn gf_mult_zero_annihilates() {
    for a in 0..=255u8 {
        assert_eq!(gf_mult(a, 0), 0);
        assert_eq!(gf_mult(0, a), 0);
    }
}
