//! The AES-128 block cipher core: the forward and inverse round transforms
//! over a 4x4 byte state, the FIPS-197 key schedule, and the encrypt and
//! decrypt round pipelines.
//!
//! A state is a 4x4 byte matrix stored column-major: the 16 flat bytes of a
//! block map to 4 columns of 4 bytes each, column `c` holding flat bytes
//! `[4c .. 4c+4)`. All contracts are stated over the flat byte sequence of a
//! state, obtained through `block_bytes`.

use vstd::prelude::*;
use crate::galois::{gf_mul, gf_mult};
use crate::tables::{sbox_fwd, sbox_inv, spec_rcon, sbox_encrypt_table, sbox_decrypt_table, rcon_word};

verus! {

/// One column of the state: 4 bytes.
pub type AesColumn = [u8; 4];

/// A full state: 4 columns of 4 bytes, column-major.
pub type AesBlock = [AesColumn; 4];

/// An AES-128 key: exactly 16 bytes.
pub type AesKey128 = [u8; 16];

/// The number of round keys an AES-128 schedule holds.
pub const NUM_ROUND_KEYS_128: usize = 11;

/// The flat byte sequence of a state, in column-major order.
pub open spec fn block_bytes(b: AesBlock) -> Seq<u8> {
    Seq::new(16, |i: int| b[i / 4][i % 4])
}

/// The flat byte sequences of a whole round-key schedule.
pub open spec fn schedule_bytes(ks: Seq<AesBlock>) -> Seq<Seq<u8>> {
    ks.map_values(|b: AesBlock| block_bytes(b))
}

/// A well-formed schedule model: 11 round keys of 16 bytes each.
pub open spec fn wf_schedule(ks: Seq<Seq<u8>>) -> bool {
    &&& ks.len() == 11
    &&& forall|i: int| 0 <= i < 11 ==> #[trigger] ks[i].len() == 16
}

/// Bytewise exclusive or of two equally long sequences.
pub open spec fn xor_seq(s: Seq<u8>, k: Seq<u8>) -> Seq<u8>
    recommends
        s.len() == k.len(),
{
    Seq::new(s.len(), |i: int| s[i] ^ k[i])
}

/// Substitution of every byte through a 256-entry lookup sequence.
pub open spec fn sub_seq(s: Seq<u8>, table: Seq<u8>) -> Seq<u8>
    recommends
        table.len() == 256,
{
    Seq::new(s.len(), |i: int| table[s[i] as int])
}

/// Substitution of every byte through the forward S-box.
pub open spec fn sub_fwd_seq(s: Seq<u8>) -> Seq<u8> {
    Seq::new(s.len(), |i: int| sbox_fwd(s[i]))
}

/// Substitution of every byte through the inverse S-box.
pub open spec fn sub_inv_seq(s: Seq<u8>) -> Seq<u8> {
    Seq::new(s.len(), |i: int| sbox_inv(s[i]))
}

/// Source position that forward ShiftRows reads for flat position `i`:
/// row `r` is rotated left by `r`, so column `c` of the output takes the
/// byte of column `(c + r) % 4`.
pub open spec fn shift_src(i: int) -> int {
    4 * ((i / 4 + i % 4) % 4) + i % 4
}

/// Source position that inverse ShiftRows reads for flat position `i`:
/// row `r` is rotated right by `r`.
pub open spec fn inv_shift_src(i: int) -> int {
    4 * ((i / 4 + 4 - i % 4) % 4) + i % 4
}

/// Forward ShiftRows on the flat state.
pub open spec fn shift_rows_seq(s: Seq<u8>) -> Seq<u8>
    recommends
        s.len() == 16,
{
    Seq::new(16, |i: int| s[shift_src(i)])
}

/// Inverse ShiftRows on the flat state.
pub open spec fn inv_shift_rows_seq(s: Seq<u8>) -> Seq<u8>
    recommends
        s.len() == 16,
{
    Seq::new(16, |i: int| s[inv_shift_src(i)])
}

/// Coefficient of the forward MixColumns matrix at row `r`, column `k`.
pub open spec fn mix_coef(r: int, k: int) -> u8 {
    if k == r {
        0x02
    } else if k == (r + 1) % 4 {
        0x03
    } else {
        0x01
    }
}

/// Coefficient of the inverse MixColumns matrix at row `r`, column `k`.
pub open spec fn inv_mix_coef(r: int, k: int) -> u8 {
    if k == r {
        0x0e
    } else if k == (r + 1) % 4 {
        0x0b
    } else if k == (r + 2) % 4 {
        0x0d
    } else {
        0x09
    }
}

/// One byte of the forward MixColumns product: the GF(2^8) inner product of
/// matrix row `i % 4` with the column holding flat position `i`.
pub open spec fn mix_byte(s: Seq<u8>, i: int) -> u8 {
    let c = i / 4;
    let r = i % 4;
    gf_mul(mix_coef(r, 0), s[4 * c]) ^ gf_mul(mix_coef(r, 1), s[4 * c + 1]) ^ gf_mul(
        mix_coef(r, 2),
        s[4 * c + 2],
    ) ^ gf_mul(mix_coef(r, 3), s[4 * c + 3])
}

/// One byte of the inverse MixColumns product.
pub open spec fn inv_mix_byte(s: Seq<u8>, i: int) -> u8 {
    let c = i / 4;
    let r = i % 4;
    gf_mul(inv_mix_coef(r, 0), s[4 * c]) ^ gf_mul(inv_mix_coef(r, 1), s[4 * c + 1]) ^ gf_mul(
        inv_mix_coef(r, 2),
        s[4 * c + 2],
    ) ^ gf_mul(inv_mix_coef(r, 3), s[4 * c + 3])
}

/// Forward MixColumns on the flat state.
pub open spec fn mix_columns_seq(s: Seq<u8>) -> Seq<u8>
    recommends
        s.len() == 16,
{
    Seq::new(16, |i: int| mix_byte(s, i))
}

/// Inverse MixColumns on the flat state.
pub open spec fn inv_mix_columns_seq(s: Seq<u8>) -> Seq<u8>
    recommends
        s.len() == 16,
{
    Seq::new(16, |i: int| inv_mix_byte(s, i))
}

/// Bytewise exclusive or of two columns. The destination is overwritten
/// with `a ^ b`.
pub fn gf_word_add(a: AesColumn, b: AesColumn, dest: &mut AesColumn)
    ensures
        final(dest)@ =~= xor_seq(a@, b@),
{
    dest[0] = a[0] ^ b[0];
    dest[1] = a[1] ^ b[1];
    dest[2] = a[2] ^ b[2];
    dest[3] = a[3] ^ b[3];
}

/// Cyclic left rotation of a column by one byte (RotWord).
pub fn rot_word(word: &mut AesColumn)
    ensures
        final(word)@ =~= seq![old(word)[1], old(word)[2], old(word)[3], old(word)[0]],
{
    let tmp = word[0];
    word[0] = word[1];
    word[1] = word[2];
    word[2] = word[3];
    word[3] = tmp;
}

/// Substitute each byte of a column through a 256-entry table (SubWord).
pub fn sub_word(word: &mut AesColumn, table: &[u8])
    requires
        table@.len() == 256,
    ensures
        final(word)@ =~= sub_seq(old(word)@, table@),
{
    let mut index: usize;

    index = word[0] as usize;
    word[0] = table[index];
    index = word[1] as usize;
    word[1] = table[index];
    index = word[2] as usize;
    word[2] = table[index];
    index = word[3] as usize;
    word[3] = table[index];
}

/// Substitute every byte of the state through a 256-entry table (SubBytes
/// or its inverse, depending on the table passed).
pub fn sub_bytes(state: &mut AesBlock, table: &[u8])
    requires
        table@.len() == 256,
    ensures
        block_bytes(*final(state)) =~= sub_seq(block_bytes(*old(state)), table@),
{
    let ghost s0 = *old(state);
    let mut b = *state;
    let mut index: usize;

    let mut col: usize = 0;
    while col < 4
        invariant
            col <= 4,
            table@.len() == 256,
            forall|c: int, r: int|
                0 <= c < 4 && 0 <= r < 4 && c < col ==> b[c][r] == table@[s0[c][r] as int],
            forall|c: int, r: int|
                0 <= c < 4 && 0 <= r < 4 && c >= col ==> b[c][r] == s0[c][r],
        decreases 4 - col,
    {
        let mut row: usize = 0;
        while row < 4
            invariant
                col < 4,
                row <= 4,
                table@.len() == 256,
                forall|c: int, r: int|
                    0 <= c < 4 && 0 <= r < 4 && (c < col || (c == col && r < row)) ==> b[c][r]
                        == table@[s0[c][r] as int],
                forall|c: int, r: int|
                    0 <= c < 4 && 0 <= r < 4 && (c > col || (c == col && r >= row)) ==> b[c][r]
                        == s0[c][r],
            decreases 4 - row,
        {
            index = b[col][row] as usize;
            b[col][row] = table[index];
            row += 1;
        }
        col += 1;
    }
    *state = b;
}

/// Forward ShiftRows: row `r` of the state is cyclically rotated left by
/// `r` positions (row 0 is fixed).
pub fn shift_rows(state: &mut AesBlock)
    ensures
        block_bytes(*final(state)) =~= shift_rows_seq(block_bytes(*old(state))),
{
    let ghost s0 = *old(state);
    let mut b = *state;
    let mut tmp_a: u8;
    let tmp_b: u8;

    // row 1: [0] [1] [2] [3] --> [1] [2] [3] [0]
    tmp_a = b[0][1];
    b[0][1] = b[1][1];
    b[1][1] = b[2][1];
    b[2][1] = b[3][1];
    b[3][1] = tmp_a;

    // row 2: [0] [1] [2] [3] --> [2] [3] [0] [1]
    tmp_a = b[0][2];
    tmp_b = b[1][2];
    b[0][2] = b[2][2];
    b[1][2] = b[3][2];
    b[2][2] = tmp_a;
    b[3][2] = tmp_b;

    // row 3: [0] [1] [2] [3] --> [3] [0] [1] [2]
    tmp_a = b[3][3];
    b[3][3] = b[2][3];
    b[2][3] = b[1][3];
    b[1][3] = b[0][3];
    b[0][3] = tmp_a;

    *state = b;
    proof {
        assert forall|i: int| 0 <= i < 16 implies block_bytes(b)[i] == shift_rows_seq(
            block_bytes(s0),
        )[i] by {
            assert(0 <= shift_src(i) < 16);
        }
    }
}

/// Inverse ShiftRows: row `r` of the state is cyclically rotated right by
/// `r` positions (row 0 is fixed).
pub fn inv_shift_rows(state: &mut AesBlock)
    ensures
        block_bytes(*final(state)) =~= inv_shift_rows_seq(block_bytes(*old(state))),
{
    let ghost s0 = *old(state);
    let mut b = *state;
    let mut tmp_a: u8;
    let tmp_b: u8;

    // row 1: [0] [1] [2] [3] --> [3] [0] [1] [2]
    tmp_a = b[3][1];
    b[3][1] = b[2][1];
    b[2][1] = b[1][1];
    b[1][1] = b[0][1];
    b[0][1] = tmp_a;

    // row 2: [0] [1] [2] [3] --> [2] [3] [0] [1]
    tmp_a = b[0][2];
    tmp_b = b[1][2];
    b[0][2] = b[2][2];
    b[1][2] = b[3][2];
    b[2][2] = tmp_a;
    b[3][2] = tmp_b;

    // row 3: [0] [1] [2] [3] --> [1] [2] [3] [0]
    tmp_a = b[0][3];
    b[0][3] = b[1][3];
    b[1][3] = b[2][3];
    b[2][3] = b[3][3];
    b[3][3] = tmp_a;

    *state = b;
    proof {
        assert forall|i: int| 0 <= i < 16 implies block_bytes(b)[i] == inv_shift_rows_seq(
            block_bytes(s0),
        )[i] by {
            assert(0 <= inv_shift_src(i) < 16);
        }
    }
}

/// Forward MixColumns: each column is replaced by the product of the fixed
/// forward matrix with that column, over GF(2^8).
pub fn mix_columns(state: &mut AesBlock)
    ensures
        block_bytes(*final(state)) =~= mix_columns_seq(block_bytes(*old(state))),
{
    let ghost s0 = *old(state);
    let mut b = *state;
    let mut tmp: AesColumn = [0, 0, 0, 0];

    let mut i: usize = 0;
    while i < 4
        invariant
            i <= 4,
            forall|c: int, r: int|
                0 <= c < 4 && 0 <= r < 4 && c < i ==> b[c][r] == mix_byte(
                    block_bytes(s0),
                    4 * c + r,
                ),
            forall|c: int, r: int| 0 <= c < 4 && 0 <= r < 4 && c >= i ==> b[c][r] == s0[c][r],
        decreases 4 - i,
    {
        tmp[0] = gf_mult(0x02, b[i][0]) ^ gf_mult(0x03, b[i][1]) ^ b[i][2] ^ b[i][3];
        tmp[1] = b[i][0] ^ gf_mult(0x02, b[i][1]) ^ gf_mult(0x03, b[i][2]) ^ b[i][3];
        tmp[2] = b[i][0] ^ b[i][1] ^ gf_mult(0x02, b[i][2]) ^ gf_mult(0x03, b[i][3]);
        tmp[3] = gf_mult(0x03, b[i][0]) ^ b[i][1] ^ b[i][2] ^ gf_mult(0x02, b[i][3]);

        proof {
            crate::galois::lemma_gf_mul_one(s0[i as int][0]);
            crate::galois::lemma_gf_mul_one(s0[i as int][1]);
            crate::galois::lemma_gf_mul_one(s0[i as int][2]);
            crate::galois::lemma_gf_mul_one(s0[i as int][3]);
            assert(block_bytes(s0)[4 * (i as int)] == s0[i as int][0]);
            assert(block_bytes(s0)[4 * (i as int) + 1] == s0[i as int][1]);
            assert(block_bytes(s0)[4 * (i as int) + 2] == s0[i as int][2]);
            assert(block_bytes(s0)[4 * (i as int) + 3] == s0[i as int][3]);
        }

        b[i] = tmp;
        i += 1;
    }
    *state = b;
    proof {
        assert(block_bytes(b) =~= mix_columns_seq(block_bytes(s0)));
    }
}

/// Inverse MixColumns: each column is replaced by the product of the fixed
/// inverse matrix with that column, over GF(2^8).
pub fn inv_mix_columns(state: &mut AesBlock)
    ensures
        block_bytes(*final(state)) =~= inv_mix_columns_seq(block_bytes(*old(state))),
{
    let ghost s0 = *old(state);
    let mut b = *state;
    let mut tmp: AesColumn = [0, 0, 0, 0];

    let mut i: usize = 0;
    while i < 4
        invariant
            i <= 4,
            forall|c: int, r: int|
                0 <= c < 4 && 0 <= r < 4 && c < i ==> b[c][r] == inv_mix_byte(
                    block_bytes(s0),
                    4 * c + r,
                ),
            forall|c: int, r: int| 0 <= c < 4 && 0 <= r < 4 && c >= i ==> b[c][r] == s0[c][r],
        decreases 4 - i,
    {
        tmp[0] = gf_mult(0x0e, b[i][0]) ^ gf_mult(0x0b, b[i][1]) ^ gf_mult(0x0d, b[i][2]) ^ gf_mult(
            0x09,
            b[i][3],
        );
        tmp[1] = gf_mult(0x09, b[i][0]) ^ gf_mult(0x0e, b[i][1]) ^ gf_mult(0x0b, b[i][2]) ^ gf_mult(
            0x0d,
            b[i][3],
        );
        tmp[2] = gf_mult(0x0d, b[i][0]) ^ gf_mult(0x09, b[i][1]) ^ gf_mult(0x0e, b[i][2]) ^ gf_mult(
            0x0b,
            b[i][3],
        );
        tmp[3] = gf_mult(0x0b, b[i][0]) ^ gf_mult(0x0d, b[i][1]) ^ gf_mult(0x09, b[i][2]) ^ gf_mult(
            0x0e,
            b[i][3],
        );

        proof {
            assert(block_bytes(s0)[4 * (i as int)] == s0[i as int][0]);
            assert(block_bytes(s0)[4 * (i as int) + 1] == s0[i as int][1]);
            assert(block_bytes(s0)[4 * (i as int) + 2] == s0[i as int][2]);
            assert(block_bytes(s0)[4 * (i as int) + 3] == s0[i as int][3]);
        }

        b[i] = tmp;
        i += 1;
    }
    *state = b;
    proof {
        assert(block_bytes(b) =~= inv_mix_columns_seq(block_bytes(s0)));
    }
}

/// AddRoundKey: bytewise exclusive or of the state with a round key.
pub fn add_round_key(state: &mut AesBlock, round_key: &AesBlock)
    ensures
        block_bytes(*final(state)) =~= xor_seq(block_bytes(*old(state)), block_bytes(*round_key)),
{
    let ghost s0 = *old(state);
    let mut b = *state;

    let mut col: usize = 0;
    while col < 4
        invariant
            col <= 4,
            forall|c: int, r: int|
                0 <= c < 4 && 0 <= r < 4 && c < col ==> b[c][r] == (s0[c][r] ^ round_key[c][r]),
            forall|c: int, r: int| 0 <= c < 4 && 0 <= r < 4 && c >= col ==> b[c][r] == s0[c][r],
        decreases 4 - col,
    {
        let mut row: usize = 0;
        while row < 4
            invariant
                col < 4,
                row <= 4,
                forall|c: int, r: int|
                    0 <= c < 4 && 0 <= r < 4 && (c < col || (c == col && r < row)) ==> b[c][r] == (
                    s0[c][r] ^ round_key[c][r]),
                forall|c: int, r: int|
                    0 <= c < 4 && 0 <= r < 4 && (c > col || (c == col && r >= row)) ==> b[c][r]
                        == s0[c][r],
            decreases 4 - row,
        {
            b[col][row] = b[col][row] ^ round_key[col][row];
            row += 1;
        }
        col += 1;
    }
    *state = b;
}

/// Cyclic left rotation of a 4-byte word, as a sequence.
pub open spec fn rot_word_seq(w: Seq<u8>) -> Seq<u8>
    recommends
        w.len() == 4,
{
    seq![w[1], w[2], w[3], w[0]]
}

/// The round-constant word for key expansion round `i`.
pub open spec fn rcon_seq(i: int) -> Seq<u8> {
    seq![spec_rcon(i), 0u8, 0u8, 0u8]
}

/// Word `w` of the expanded key (FIPS-197 key expansion): words 0..4 are
/// the key itself; every fourth word mixes RotWord, SubWord and the round
/// constant; the rest are the exclusive or of the two neighbouring words.
pub open spec fn key_word(key: Seq<u8>, w: int) -> Seq<u8>
    recommends
        key.len() == 16,
        0 <= w < 44,
    decreases w,
{
    if w < 4 {
        key.subrange(4 * w, 4 * w + 4)
    } else if w % 4 == 0 {
        xor_seq(
            xor_seq(sub_fwd_seq(rot_word_seq(key_word(key, w - 1))), rcon_seq(w / 4 - 1)),
            key_word(key, w - 4),
        )
    } else {
        xor_seq(key_word(key, w - 1), key_word(key, w - 4))
    }
}

/// Round key `i` of the expanded key: words `4i .. 4i+4` laid out flat.
pub open spec fn spec_round_key(key: Seq<u8>, i: int) -> Seq<u8> {
    key_word(key, 4 * i) + key_word(key, 4 * i + 1) + key_word(key, 4 * i + 2) + key_word(
        key,
        4 * i + 3,
    )
}

/// The full 11-entry round-key schedule derived from a 16-byte key.
pub open spec fn spec_key_schedule(key: Seq<u8>) -> Seq<Seq<u8>> {
    Seq::new(11, |i: int| spec_round_key(key, i))
}

/// Every word of the expanded key holds exactly 4 bytes.
pub proof fn lemma_key_word_len(key: Seq<u8>, w: int)
    requires
        key.len() == 16,
        0 <= w,
    ensures
        key_word(key, w).len() == 4,
    decreases w,
{
    if w >= 4 {
        lemma_key_word_len(key, w - 1);
        lemma_key_word_len(key, w - 4);
    }
}

/// The derived schedule is well formed: 11 round keys of 16 bytes each.
pub proof fn lemma_key_schedule_wf(key: Seq<u8>)
    requires
        key.len() == 16,
    ensures
        wf_schedule(spec_key_schedule(key)),
{
    assert forall|i: int| 0 <= i < 11 implies #[trigger] spec_key_schedule(key)[i].len() == 16 by {
        lemma_key_word_len(key, 4 * i);
        lemma_key_word_len(key, 4 * i + 1);
        lemma_key_word_len(key, 4 * i + 2);
        lemma_key_word_len(key, 4 * i + 3);
    }
}

/// Substitution through the forward lookup table equals the forward S-box
/// applied pointwise.
pub proof fn lemma_sub_seq_fwd(s: Seq<u8>)
    ensures
        sub_seq(s, crate::tables::sbox_fwd_seq()) =~= sub_fwd_seq(s),
{
}

/// Substitution through the inverse lookup table equals the inverse S-box
/// applied pointwise.
pub proof fn lemma_sub_seq_inv(s: Seq<u8>)
    ensures
        sub_seq(s, crate::tables::sbox_inv_seq()) =~= sub_inv_seq(s),
{
}

/// Expand a 16-byte key into the 11 round keys of AES-128.
pub fn key_schedule_128(key: &AesKey128, keys_out: &mut [AesBlock; NUM_ROUND_KEYS_128])
    ensures
        schedule_bytes(final(keys_out)@) == spec_key_schedule(key@),
        wf_schedule(schedule_bytes(final(keys_out)@)),
{
    let mut ks = *keys_out;
    let tbl = sbox_encrypt_table();

    // round key 0 is the key itself, split into 4 columns
    let mut c: usize = 0;
    while c < 4
        invariant
            c <= 4,
            forall|cc: int, r: int|
                0 <= cc < 4 && 0 <= r < 4 && cc < c ==> ks[0][cc][r] == key@[4 * cc + r],
        decreases 4 - c,
    {
        ks[0][c] = [key[4 * c], key[4 * c + 1], key[4 * c + 2], key[4 * c + 3]];
        c += 1;
    }

    proof {
        assert forall|w: int| 0 <= w < 4 implies ks@[w / 4][w % 4]@ == key_word(key@, w) by {
            assert(ks@[0][w]@ =~= key@.subrange(4 * w, 4 * w + 4));
        }
    }

    let mut i: usize = 0;
    while i < NUM_ROUND_KEYS_128 - 1
        invariant
            i <= 10,
            tbl@ == crate::tables::sbox_fwd_seq(),
            forall|w: int| 0 <= w < 4 * (i + 1) ==> #[trigger] ks@[w / 4][w % 4]@ == key_word(
                key@,
                w,
            ),
        decreases 10 - i,
    {
        let mut col_c = ks[i][3];
        proof {
            lemma_key_word_len(key@, 4 * (i as int) + 3);
            assert(ks@[(4 * (i as int) + 3) / 4][(4 * (i as int) + 3) % 4]@ == key_word(
                key@,
                4 * (i as int) + 3,
            ));
        }
        rot_word(&mut col_c);
        proof {
            assert(col_c@ =~= rot_word_seq(key_word(key@, 4 * (i as int) + 3)));
        }
        sub_word(&mut col_c, tbl.as_slice());
        proof {
            lemma_sub_seq_fwd(rot_word_seq(key_word(key@, 4 * (i as int) + 3)));
        }
        let rw = rcon_word(i);
        let ghost col_sub = col_c@;
        let mut nw: AesColumn = [0, 0, 0, 0];
        gf_word_add(col_c, rw, &mut nw);
        col_c = nw;
        proof {
            assert(col_c@ == xor_seq(col_sub, rcon_seq(i as int)));
        }

        // compute the next round key, column by column
        let prev0 = ks[i][0];
        gf_word_add(col_c, prev0, &mut nw);
        ks[i + 1][0] = nw;
        let prev1 = ks[i][1];
        gf_word_add(ks[i + 1][0], prev1, &mut nw);
        ks[i + 1][1] = nw;
        let prev2 = ks[i][2];
        gf_word_add(ks[i + 1][1], prev2, &mut nw);
        ks[i + 1][2] = nw;
        let prev3 = ks[i][3];
        gf_word_add(ks[i + 1][2], prev3, &mut nw);
        ks[i + 1][3] = nw;

        proof {
            let ii = i as int;
            let kk = key@;
            lemma_key_word_len(kk, 4 * ii);
            lemma_key_word_len(kk, 4 * ii + 1);
            lemma_key_word_len(kk, 4 * ii + 2);
            assert(ks@[(4 * ii) / 4][(4 * ii) % 4]@ == key_word(kk, 4 * ii));
            assert(ks@[(4 * ii + 1) / 4][(4 * ii + 1) % 4]@ == key_word(kk, 4 * ii + 1));
            assert(ks@[(4 * ii + 2) / 4][(4 * ii + 2) % 4]@ == key_word(kk, 4 * ii + 2));
            assert(ks@[ii + 1][0]@ =~= xor_seq(
                xor_seq(sub_fwd_seq(rot_word_seq(key_word(kk, 4 * ii + 3))), rcon_seq(ii)),
                key_word(kk, 4 * ii),
            ));
            assert(ks@[ii + 1][0]@ == key_word(kk, 4 * ii + 4));
            assert(ks@[ii + 1][1]@ =~= xor_seq(key_word(kk, 4 * ii + 4), key_word(kk, 4 * ii + 1)));
            assert(ks@[ii + 1][1]@ == key_word(kk, 4 * ii + 5));
            assert(ks@[ii + 1][2]@ =~= xor_seq(key_word(kk, 4 * ii + 5), key_word(kk, 4 * ii + 2)));
            assert(ks@[ii + 1][2]@ == key_word(kk, 4 * ii + 6));
            assert(ks@[ii + 1][3]@ =~= xor_seq(key_word(kk, 4 * ii + 6), key_word(kk, 4 * ii + 3)));
            assert(ks@[ii + 1][3]@ == key_word(kk, 4 * ii + 7));
            assert forall|w: int| 0 <= w < 4 * (ii + 2) implies #[trigger] ks@[w / 4][w % 4]@
                == key_word(kk, w) by {
                if w >= 4 * (ii + 1) {
                    assert(w / 4 == ii + 1);
                    if w % 4 == 0 {
                        assert(w == 4 * ii + 4);
                    } else if w % 4 == 1 {
                        assert(w == 4 * ii + 5);
                    } else if w % 4 == 2 {
                        assert(w == 4 * ii + 6);
                    } else {
                        assert(w == 4 * ii + 7);
                    }
                }
            }
        }
        i += 1;
    }

    *keys_out = ks;
    proof {
        assert forall|j: int| 0 <= j < 11 implies schedule_bytes(ks@)[j] == spec_key_schedule(
            key@,
        )[j] by {
            lemma_key_word_len(key@, 4 * j);
            lemma_key_word_len(key@, 4 * j + 1);
            lemma_key_word_len(key@, 4 * j + 2);
            lemma_key_word_len(key@, 4 * j + 3);
            assert(ks@[(4 * j) / 4][(4 * j) % 4]@ == key_word(key@, 4 * j));
            assert(ks@[(4 * j + 1) / 4][(4 * j + 1) % 4]@ == key_word(key@, 4 * j + 1));
            assert(ks@[(4 * j + 2) / 4][(4 * j + 2) % 4]@ == key_word(key@, 4 * j + 2));
            assert(ks@[(4 * j + 3) / 4][(4 * j + 3) % 4]@ == key_word(key@, 4 * j + 3));
            assert(block_bytes(ks@[j]) =~= spec_round_key(key@, j));
        }
        assert(schedule_bytes(ks@) =~= spec_key_schedule(key@));
        lemma_key_schedule_wf(key@);
    }
}

/// One forward round: SubBytes, ShiftRows, MixColumns (skipped on the last
/// round) and AddRoundKey.
pub open spec fn enc_round(s: Seq<u8>, rk: Seq<u8>, last: bool) -> Seq<u8> {
    let t = shift_rows_seq(sub_fwd_seq(s));
    if last {
        xor_seq(t, rk)
    } else {
        xor_seq(mix_columns_seq(t), rk)
    }
}

/// The state after forward rounds `1..=n` applied to `s`.
pub open spec fn enc_rounds(s: Seq<u8>, ks: Seq<Seq<u8>>, n: int) -> Seq<u8>
    decreases n,
{
    if n <= 0 {
        s
    } else {
        enc_round(enc_rounds(s, ks, n - 1), ks[n], n == 10)
    }
}

/// The full forward pipeline: AddRoundKey with round key 0, then rounds
/// 1 through 10.
pub open spec fn spec_encrypt_block(s: Seq<u8>, ks: Seq<Seq<u8>>) -> Seq<u8> {
    enc_rounds(xor_seq(s, ks[0]), ks, 10)
}

/// One inverse step undoing forward round `j`: AddRoundKey with round key
/// `j`, inverse MixColumns (skipped when undoing the last forward round),
/// inverse ShiftRows and inverse SubBytes.
pub open spec fn dec_step(s: Seq<u8>, rk: Seq<u8>, last: bool) -> Seq<u8> {
    let t = if last {
        xor_seq(s, rk)
    } else {
        inv_mix_columns_seq(xor_seq(s, rk))
    };
    sub_inv_seq(inv_shift_rows_seq(t))
}

/// The state after inverse steps undoing forward rounds `10 down to j`.
pub open spec fn dec_from(s: Seq<u8>, ks: Seq<Seq<u8>>, j: int) -> Seq<u8>
    decreases 11 - j,
{
    if j > 10 || j < 1 {
        s
    } else {
        dec_step(dec_from(s, ks, j + 1), ks[j], j == 10)
    }
}

/// The full inverse pipeline: undo rounds 10 down to 1, then AddRoundKey
/// with round key 0.
pub open spec fn spec_decrypt_block(s: Seq<u8>, ks: Seq<Seq<u8>>) -> Seq<u8> {
    xor_seq(dec_from(s, ks, 1), ks[0])
}

/// Encrypt one 16-byte block with an 11-entry round-key schedule.
pub fn encrypt_block(state: &mut AesBlock, key_schedule: &[AesBlock])
    requires
        key_schedule@.len() == NUM_ROUND_KEYS_128,
    ensures
        block_bytes(*final(state)) == spec_encrypt_block(
            block_bytes(*old(state)),
            schedule_bytes(key_schedule@),
        ),
{
    let ghost ksb = schedule_bytes(key_schedule@);
    let ghost s0 = xor_seq(block_bytes(*old(state)), ksb[0]);
    let tbl = sbox_encrypt_table();

    let mut b = *state;
    add_round_key(&mut b, &key_schedule[0]);

    let mut i: usize = 1;
    while i < NUM_ROUND_KEYS_128
        invariant
            1 <= i <= 11,
            key_schedule@.len() == 11,
            ksb == schedule_bytes(key_schedule@),
            tbl@ == crate::tables::sbox_fwd_seq(),
            block_bytes(b) == enc_rounds(s0, ksb, i - 1),
        decreases 11 - i,
    {
        let ghost prev = block_bytes(b);
        sub_bytes(&mut b, tbl.as_slice());
        proof {
            lemma_sub_seq_fwd(prev);
        }
        shift_rows(&mut b);

        // the final round never mixes columns, as the standard mandates
        if i < NUM_ROUND_KEYS_128 - 1 {
            mix_columns(&mut b);
        }

        add_round_key(&mut b, &key_schedule[i]);
        proof {
            assert(block_bytes(b) == enc_round(prev, ksb[i as int], i == 10));
        }
        i += 1;
    }
    *state = b;
}

/// Decrypt one 16-byte block with an 11-entry round-key schedule, undoing
/// the forward pipeline exactly.
pub fn decrypt_block(state: &mut AesBlock, key_schedule: &[AesBlock])
    requires
        key_schedule@.len() == NUM_ROUND_KEYS_128,
    ensures
        block_bytes(*final(state)) == spec_decrypt_block(
            block_bytes(*old(state)),
            schedule_bytes(key_schedule@),
        ),
{
    let ghost ksb = schedule_bytes(key_schedule@);
    let ghost s0 = block_bytes(*old(state));
    let tbl = sbox_decrypt_table();

    let mut b = *state;

    let mut i: usize = 1;
    while i < NUM_ROUND_KEYS_128
        invariant
            1 <= i <= 11,
            key_schedule@.len() == 11,
            ksb == schedule_bytes(key_schedule@),
            tbl@ == crate::tables::sbox_inv_seq(),
            block_bytes(b) == dec_from(s0, ksb, 12 - i),
        decreases 11 - i,
    {
        let rnd = NUM_ROUND_KEYS_128 - i;
        let ghost prev = block_bytes(b);
        add_round_key(&mut b, &key_schedule[rnd]);

        if i != 1 {
            inv_mix_columns(&mut b);
        }

        inv_shift_rows(&mut b);
        let ghost before_sub = block_bytes(b);
        sub_bytes(&mut b, tbl.as_slice());
        proof {
            lemma_sub_seq_inv(before_sub);
            assert(block_bytes(b) == dec_step(prev, ksb[rnd as int], i == 1));
            assert(dec_from(s0, ksb, 11 - i) == dec_step(
                dec_from(s0, ksb, 12 - i),
                ksb[11 - i],
                11 - i == 10,
            ));
        }
        i += 1;
    }

    add_round_key(&mut b, &key_schedule[0]);
    *state = b;
}

/// Bounds-checked conversion from a flat 16-byte block to the column-major
/// state matrix: column `c` takes flat bytes `[4c .. 4c+4)`.
pub fn block_from_flat(flat: &[u8; 16]) -> (b: AesBlock)
    ensures
        block_bytes(b) =~= flat@,
{
    let mut b: AesBlock = [[0; 4]; 4];
    let mut c: usize = 0;
    while c < 4
        invariant
            c <= 4,
            forall|cc: int, r: int|
                0 <= cc < 4 && 0 <= r < 4 && cc < c ==> b[cc][r] == flat@[4 * cc + r],
        decreases 4 - c,
    {
        b[c] = [flat[4 * c], flat[4 * c + 1], flat[4 * c + 2], flat[4 * c + 3]];
        c += 1;
    }
    b
}

/// Bounds-checked conversion from the column-major state matrix back to a
/// flat 16-byte block.
pub fn flat_from_block(b: &AesBlock) -> (flat: [u8; 16])
    ensures
        flat@ =~= block_bytes(*b),
{
    [
        b[0][0],
        b[0][1],
        b[0][2],
        b[0][3],
        b[1][0],
        b[1][1],
        b[1][2],
        b[1][3],
        b[2][0],
        b[2][1],
        b[2][2],
        b[2][3],
        b[3][0],
        b[3][1],
        b[3][2],
        b[3][3],
    ]
}

/// Key expansion is a pure function of the key: expanding equal keys gives
/// identical round-key schedules, with no hidden state.
pub proof fn lemma_key_schedule_deterministic(k1: Seq<u8>, k2: Seq<u8>)
    requires
        k1 == k2,
    ensures
        spec_key_schedule(k1) == spec_key_schedule(k2),
{
}

/// Adding the same round key twice restores the state.
pub proof fn lemma_xor_involution(s: Seq<u8>, k: Seq<u8>)
    requires
        s.len() == k.len(),
    ensures
        xor_seq(xor_seq(s, k), k) =~= s,
{
    assert forall|i: int| 0 <= i < s.len() implies xor_seq(xor_seq(s, k), k)[i] == s[i] by {
        let x = s[i];
        let y = k[i];
        assert((x ^ y) ^ y == x) by (bit_vector);
    }
}

/// Inverse SubBytes undoes forward SubBytes.
pub proof fn lemma_sub_inverse(s: Seq<u8>)
    ensures
        sub_inv_seq(sub_fwd_seq(s)) =~= s,
{
    crate::tables::lemma_sbox_inverse();
}

/// Inverse ShiftRows undoes forward ShiftRows.
pub proof fn lemma_shift_inverse(s: Seq<u8>)
    requires
        s.len() == 16,
    ensures
        inv_shift_rows_seq(shift_rows_seq(s)) =~= s,
{
    assert forall|i: int| 0 <= i < 16 implies inv_shift_rows_seq(shift_rows_seq(s))[i] == s[i] by {
        let j = inv_shift_src(i);
        assert(0 <= j < 16);
        assert(shift_src(j) == i);
    }
}

/// Multiplication distributes over exclusive or in GF(2^8).
pub proof fn lemma_gf_mul_linear(c: u8, p: u8, q: u8)
    ensures
        gf_mul(c, p ^ q) == gf_mul(c, p) ^ gf_mul(c, q),
{
    assert(gf_mul(c, p ^ q) == gf_mul(c, p) ^ gf_mul(c, q)) by (bit_vector);
}

/// Inverse MixColumns undoes forward MixColumns: the two matrices are
/// mutually inverse over GF(2^8).
pub proof fn lemma_mix_inverse(s: Seq<u8>)
    requires
        s.len() == 16,
    ensures
        inv_mix_columns_seq(mix_columns_seq(s)) =~= s,
{
    let m = mix_columns_seq(s);
    assert forall|i: int| 0 <= i < 16 implies inv_mix_columns_seq(m)[i] == s[i] by {
        let c = i / 4;
        let r = i % 4;
        let x0 = s[4 * c];
        let x1 = s[4 * c + 1];
        let x2 = s[4 * c + 2];
        let x3 = s[4 * c + 3];
        let y0 = m[4 * c];
        let y1 = m[4 * c + 1];
        let y2 = m[4 * c + 2];
        let y3 = m[4 * c + 3];
        assert(y0 == gf_mul(0x02, x0) ^ gf_mul(0x03, x1) ^ gf_mul(0x01, x2) ^ gf_mul(0x01, x3));
        assert(y1 == gf_mul(0x01, x0) ^ gf_mul(0x02, x1) ^ gf_mul(0x03, x2) ^ gf_mul(0x01, x3));
        assert(y2 == gf_mul(0x01, x0) ^ gf_mul(0x01, x1) ^ gf_mul(0x02, x2) ^ gf_mul(0x03, x3));
        assert(y3 == gf_mul(0x03, x0) ^ gf_mul(0x01, x1) ^ gf_mul(0x01, x2) ^ gf_mul(0x02, x3));
        if r == 0 {
            let u00 = gf_mul(0x0e, gf_mul(0x02, x0));
            let u01 = gf_mul(0x0e, gf_mul(0x03, x1));
            let u02 = gf_mul(0x0e, gf_mul(0x01, x2));
            let u03 = gf_mul(0x0e, gf_mul(0x01, x3));
            let u10 = gf_mul(0x0b, gf_mul(0x01, x0));
            let u11 = gf_mul(0x0b, gf_mul(0x02, x1));
            let u12 = gf_mul(0x0b, gf_mul(0x03, x2));
            let u13 = gf_mul(0x0b, gf_mul(0x01, x3));
            let u20 = gf_mul(0x0d, gf_mul(0x01, x0));
            let u21 = gf_mul(0x0d, gf_mul(0x01, x1));
            let u22 = gf_mul(0x0d, gf_mul(0x02, x2));
            let u23 = gf_mul(0x0d, gf_mul(0x03, x3));
            let u30 = gf_mul(0x09, gf_mul(0x03, x0));
            let u31 = gf_mul(0x09, gf_mul(0x01, x1));
            let u32 = gf_mul(0x09, gf_mul(0x01, x2));
            let u33 = gf_mul(0x09, gf_mul(0x02, x3));
            lemma_gf_mul_linear(0x0e, gf_mul(0x02, x0) ^ gf_mul(0x03, x1) ^ gf_mul(0x01, x2), gf_mul(0x01, x3));
            lemma_gf_mul_linear(0x0e, gf_mul(0x02, x0) ^ gf_mul(0x03, x1), gf_mul(0x01, x2));
            lemma_gf_mul_linear(0x0e, gf_mul(0x02, x0), gf_mul(0x03, x1));
            assert(gf_mul(0x0e, y0) == ((u00 ^ u01) ^ u02) ^ u03);
            lemma_gf_mul_linear(0x0b, gf_mul(0x01, x0) ^ gf_mul(0x02, x1) ^ gf_mul(0x03, x2), gf_mul(0x01, x3));
            lemma_gf_mul_linear(0x0b, gf_mul(0x01, x0) ^ gf_mul(0x02, x1), gf_mul(0x03, x2));
            lemma_gf_mul_linear(0x0b, gf_mul(0x01, x0), gf_mul(0x02, x1));
            assert(gf_mul(0x0b, y1) == ((u10 ^ u11) ^ u12) ^ u13);
            lemma_gf_mul_linear(0x0d, gf_mul(0x01, x0) ^ gf_mul(0x01, x1) ^ gf_mul(0x02, x2), gf_mul(0x03, x3));
            lemma_gf_mul_linear(0x0d, gf_mul(0x01, x0) ^ gf_mul(0x01, x1), gf_mul(0x02, x2));
            lemma_gf_mul_linear(0x0d, gf_mul(0x01, x0), gf_mul(0x01, x1));
            assert(gf_mul(0x0d, y2) == ((u20 ^ u21) ^ u22) ^ u23);
            lemma_gf_mul_linear(0x09, gf_mul(0x03, x0) ^ gf_mul(0x01, x1) ^ gf_mul(0x01, x2), gf_mul(0x02, x3));
            lemma_gf_mul_linear(0x09, gf_mul(0x03, x0) ^ gf_mul(0x01, x1), gf_mul(0x01, x2));
            lemma_gf_mul_linear(0x09, gf_mul(0x03, x0), gf_mul(0x01, x1));
            assert(gf_mul(0x09, y3) == ((u30 ^ u31) ^ u32) ^ u33);
            assert(((gf_mul(0x0e, gf_mul(0x02, x0)) ^ gf_mul(0x0b, gf_mul(0x01, x0))) ^ gf_mul(0x0d, gf_mul(0x01, x0))) ^ gf_mul(0x09, gf_mul(0x03, x0)) == x0) by (bit_vector);
            assert(((u00 ^ u10) ^ u20) ^ u30 == x0);
            assert(((gf_mul(0x0e, gf_mul(0x03, x1)) ^ gf_mul(0x0b, gf_mul(0x02, x1))) ^ gf_mul(0x0d, gf_mul(0x01, x1))) ^ gf_mul(0x09, gf_mul(0x01, x1)) == 0) by (bit_vector);
            assert(((u01 ^ u11) ^ u21) ^ u31 == 0);
            assert(((gf_mul(0x0e, gf_mul(0x01, x2)) ^ gf_mul(0x0b, gf_mul(0x03, x2))) ^ gf_mul(0x0d, gf_mul(0x02, x2))) ^ gf_mul(0x09, gf_mul(0x01, x2)) == 0) by (bit_vector);
            assert(((u02 ^ u12) ^ u22) ^ u32 == 0);
            assert(((gf_mul(0x0e, gf_mul(0x01, x3)) ^ gf_mul(0x0b, gf_mul(0x01, x3))) ^ gf_mul(0x0d, gf_mul(0x03, x3))) ^ gf_mul(0x09, gf_mul(0x02, x3)) == 0) by (bit_vector);
            assert(((u03 ^ u13) ^ u23) ^ u33 == 0);
            let a0 = gf_mul(0x0e, y0);
            let a1 = gf_mul(0x0b, y1);
            let a2 = gf_mul(0x0d, y2);
            let a3 = gf_mul(0x09, y3);
            assert(inv_mix_columns_seq(m)[i] == ((a0 ^ a1) ^ a2) ^ a3);
            assert(((a0 ^ a1) ^ a2) ^ a3 == x0) by (bit_vector)
                requires
                    a0 == ((u00 ^ u01) ^ u02) ^ u03,
                    a1 == ((u10 ^ u11) ^ u12) ^ u13,
                    a2 == ((u20 ^ u21) ^ u22) ^ u23,
                    a3 == ((u30 ^ u31) ^ u32) ^ u33,
                    ((u00 ^ u10) ^ u20) ^ u30 == x0,
                    ((u01 ^ u11) ^ u21) ^ u31 == 0,
                    ((u02 ^ u12) ^ u22) ^ u32 == 0,
                    ((u03 ^ u13) ^ u23) ^ u33 == 0,
            ;
        } else if r == 1 {
            let u00 = gf_mul(0x09, gf_mul(0x02, x0));
            let u01 = gf_mul(0x09, gf_mul(0x03, x1));
            let u02 = gf_mul(0x09, gf_mul(0x01, x2));
            let u03 = gf_mul(0x09, gf_mul(0x01, x3));
            let u10 = gf_mul(0x0e, gf_mul(0x01, x0));
            let u11 = gf_mul(0x0e, gf_mul(0x02, x1));
            let u12 = gf_mul(0x0e, gf_mul(0x03, x2));
            let u13 = gf_mul(0x0e, gf_mul(0x01, x3));
            let u20 = gf_mul(0x0b, gf_mul(0x01, x0));
            let u21 = gf_mul(0x0b, gf_mul(0x01, x1));
            let u22 = gf_mul(0x0b, gf_mul(0x02, x2));
            let u23 = gf_mul(0x0b, gf_mul(0x03, x3));
            let u30 = gf_mul(0x0d, gf_mul(0x03, x0));
            let u31 = gf_mul(0x0d, gf_mul(0x01, x1));
            let u32 = gf_mul(0x0d, gf_mul(0x01, x2));
            let u33 = gf_mul(0x0d, gf_mul(0x02, x3));
            lemma_gf_mul_linear(0x09, gf_mul(0x02, x0) ^ gf_mul(0x03, x1) ^ gf_mul(0x01, x2), gf_mul(0x01, x3));
            lemma_gf_mul_linear(0x09, gf_mul(0x02, x0) ^ gf_mul(0x03, x1), gf_mul(0x01, x2));
            lemma_gf_mul_linear(0x09, gf_mul(0x02, x0), gf_mul(0x03, x1));
            assert(gf_mul(0x09, y0) == ((u00 ^ u01) ^ u02) ^ u03);
            lemma_gf_mul_linear(0x0e, gf_mul(0x01, x0) ^ gf_mul(0x02, x1) ^ gf_mul(0x03, x2), gf_mul(0x01, x3));
            lemma_gf_mul_linear(0x0e, gf_mul(0x01, x0) ^ gf_mul(0x02, x1), gf_mul(0x03, x2));
            lemma_gf_mul_linear(0x0e, gf_mul(0x01, x0), gf_mul(0x02, x1));
            assert(gf_mul(0x0e, y1) == ((u10 ^ u11) ^ u12) ^ u13);
            lemma_gf_mul_linear(0x0b, gf_mul(0x01, x0) ^ gf_mul(0x01, x1) ^ gf_mul(0x02, x2), gf_mul(0x03, x3));
            lemma_gf_mul_linear(0x0b, gf_mul(0x01, x0) ^ gf_mul(0x01, x1), gf_mul(0x02, x2));
            lemma_gf_mul_linear(0x0b, gf_mul(0x01, x0), gf_mul(0x01, x1));
            assert(gf_mul(0x0b, y2) == ((u20 ^ u21) ^ u22) ^ u23);
            lemma_gf_mul_linear(0x0d, gf_mul(0x03, x0) ^ gf_mul(0x01, x1) ^ gf_mul(0x01, x2), gf_mul(0x02, x3));
            lemma_gf_mul_linear(0x0d, gf_mul(0x03, x0) ^ gf_mul(0x01, x1), gf_mul(0x01, x2));
            lemma_gf_mul_linear(0x0d, gf_mul(0x03, x0), gf_mul(0x01, x1));
            assert(gf_mul(0x0d, y3) == ((u30 ^ u31) ^ u32) ^ u33);
            assert(((gf_mul(0x09, gf_mul(0x02, x0)) ^ gf_mul(0x0e, gf_mul(0x01, x0))) ^ gf_mul(0x0b, gf_mul(0x01, x0))) ^ gf_mul(0x0d, gf_mul(0x03, x0)) == 0) by (bit_vector);
            assert(((u00 ^ u10) ^ u20) ^ u30 == 0);
            assert(((gf_mul(0x09, gf_mul(0x03, x1)) ^ gf_mul(0x0e, gf_mul(0x02, x1))) ^ gf_mul(0x0b, gf_mul(0x01, x1))) ^ gf_mul(0x0d, gf_mul(0x01, x1)) == x1) by (bit_vector);
            assert(((u01 ^ u11) ^ u21) ^ u31 == x1);
            assert(((gf_mul(0x09, gf_mul(0x01, x2)) ^ gf_mul(0x0e, gf_mul(0x03, x2))) ^ gf_mul(0x0b, gf_mul(0x02, x2))) ^ gf_mul(0x0d, gf_mul(0x01, x2)) == 0) by (bit_vector);
            assert(((u02 ^ u12) ^ u22) ^ u32 == 0);
            assert(((gf_mul(0x09, gf_mul(0x01, x3)) ^ gf_mul(0x0e, gf_mul(0x01, x3))) ^ gf_mul(0x0b, gf_mul(0x03, x3))) ^ gf_mul(0x0d, gf_mul(0x02, x3)) == 0) by (bit_vector);
            assert(((u03 ^ u13) ^ u23) ^ u33 == 0);
            let a0 = gf_mul(0x09, y0);
            let a1 = gf_mul(0x0e, y1);
            let a2 = gf_mul(0x0b, y2);
            let a3 = gf_mul(0x0d, y3);
            assert(inv_mix_columns_seq(m)[i] == ((a0 ^ a1) ^ a2) ^ a3);
            assert(((a0 ^ a1) ^ a2) ^ a3 == x1) by (bit_vector)
                requires
                    a0 == ((u00 ^ u01) ^ u02) ^ u03,
                    a1 == ((u10 ^ u11) ^ u12) ^ u13,
                    a2 == ((u20 ^ u21) ^ u22) ^ u23,
                    a3 == ((u30 ^ u31) ^ u32) ^ u33,
                    ((u00 ^ u10) ^ u20) ^ u30 == 0,
                    ((u01 ^ u11) ^ u21) ^ u31 == x1,
                    ((u02 ^ u12) ^ u22) ^ u32 == 0,
                    ((u03 ^ u13) ^ u23) ^ u33 == 0,
            ;
        } else if r == 2 {
            let u00 = gf_mul(0x0d, gf_mul(0x02, x0));
            let u01 = gf_mul(0x0d, gf_mul(0x03, x1));
            let u02 = gf_mul(0x0d, gf_mul(0x01, x2));
            let u03 = gf_mul(0x0d, gf_mul(0x01, x3));
            let u10 = gf_mul(0x09, gf_mul(0x01, x0));
            let u11 = gf_mul(0x09, gf_mul(0x02, x1));
            let u12 = gf_mul(0x09, gf_mul(0x03, x2));
            let u13 = gf_mul(0x09, gf_mul(0x01, x3));
            let u20 = gf_mul(0x0e, gf_mul(0x01, x0));
            let u21 = gf_mul(0x0e, gf_mul(0x01, x1));
            let u22 = gf_mul(0x0e, gf_mul(0x02, x2));
            let u23 = gf_mul(0x0e, gf_mul(0x03, x3));
            let u30 = gf_mul(0x0b, gf_mul(0x03, x0));
            let u31 = gf_mul(0x0b, gf_mul(0x01, x1));
            let u32 = gf_mul(0x0b, gf_mul(0x01, x2));
            let u33 = gf_mul(0x0b, gf_mul(0x02, x3));
            lemma_gf_mul_linear(0x0d, gf_mul(0x02, x0) ^ gf_mul(0x03, x1) ^ gf_mul(0x01, x2), gf_mul(0x01, x3));
            lemma_gf_mul_linear(0x0d, gf_mul(0x02, x0) ^ gf_mul(0x03, x1), gf_mul(0x01, x2));
            lemma_gf_mul_linear(0x0d, gf_mul(0x02, x0), gf_mul(0x03, x1));
            assert(gf_mul(0x0d, y0) == ((u00 ^ u01) ^ u02) ^ u03);
            lemma_gf_mul_linear(0x09, gf_mul(0x01, x0) ^ gf_mul(0x02, x1) ^ gf_mul(0x03, x2), gf_mul(0x01, x3));
            lemma_gf_mul_linear(0x09, gf_mul(0x01, x0) ^ gf_mul(0x02, x1), gf_mul(0x03, x2));
            lemma_gf_mul_linear(0x09, gf_mul(0x01, x0), gf_mul(0x02, x1));
            assert(gf_mul(0x09, y1) == ((u10 ^ u11) ^ u12) ^ u13);
            lemma_gf_mul_linear(0x0e, gf_mul(0x01, x0) ^ gf_mul(0x01, x1) ^ gf_mul(0x02, x2), gf_mul(0x03, x3));
            lemma_gf_mul_linear(0x0e, gf_mul(0x01, x0) ^ gf_mul(0x01, x1), gf_mul(0x02, x2));
            lemma_gf_mul_linear(0x0e, gf_mul(0x01, x0), gf_mul(0x01, x1));
            assert(gf_mul(0x0e, y2) == ((u20 ^ u21) ^ u22) ^ u23);
            lemma_gf_mul_linear(0x0b, gf_mul(0x03, x0) ^ gf_mul(0x01, x1) ^ gf_mul(0x01, x2), gf_mul(0x02, x3));
            lemma_gf_mul_linear(0x0b, gf_mul(0x03, x0) ^ gf_mul(0x01, x1), gf_mul(0x01, x2));
            lemma_gf_mul_linear(0x0b, gf_mul(0x03, x0), gf_mul(0x01, x1));
            assert(gf_mul(0x0b, y3) == ((u30 ^ u31) ^ u32) ^ u33);
            assert(((gf_mul(0x0d, gf_mul(0x02, x0)) ^ gf_mul(0x09, gf_mul(0x01, x0))) ^ gf_mul(0x0e, gf_mul(0x01, x0))) ^ gf_mul(0x0b, gf_mul(0x03, x0)) == 0) by (bit_vector);
            assert(((u00 ^ u10) ^ u20) ^ u30 == 0);
            assert(((gf_mul(0x0d, gf_mul(0x03, x1)) ^ gf_mul(0x09, gf_mul(0x02, x1))) ^ gf_mul(0x0e, gf_mul(0x01, x1))) ^ gf_mul(0x0b, gf_mul(0x01, x1)) == 0) by (bit_vector);
            assert(((u01 ^ u11) ^ u21) ^ u31 == 0);
            assert(((gf_mul(0x0d, gf_mul(0x01, x2)) ^ gf_mul(0x09, gf_mul(0x03, x2))) ^ gf_mul(0x0e, gf_mul(0x02, x2))) ^ gf_mul(0x0b, gf_mul(0x01, x2)) == x2) by (bit_vector);
            assert(((u02 ^ u12) ^ u22) ^ u32 == x2);
            assert(((gf_mul(0x0d, gf_mul(0x01, x3)) ^ gf_mul(0x09, gf_mul(0x01, x3))) ^ gf_mul(0x0e, gf_mul(0x03, x3))) ^ gf_mul(0x0b, gf_mul(0x02, x3)) == 0) by (bit_vector);
            assert(((u03 ^ u13) ^ u23) ^ u33 == 0);
            let a0 = gf_mul(0x0d, y0);
            let a1 = gf_mul(0x09, y1);
            let a2 = gf_mul(0x0e, y2);
            let a3 = gf_mul(0x0b, y3);
            assert(inv_mix_columns_seq(m)[i] == ((a0 ^ a1) ^ a2) ^ a3);
            assert(((a0 ^ a1) ^ a2) ^ a3 == x2) by (bit_vector)
                requires
                    a0 == ((u00 ^ u01) ^ u02) ^ u03,
                    a1 == ((u10 ^ u11) ^ u12) ^ u13,
                    a2 == ((u20 ^ u21) ^ u22) ^ u23,
                    a3 == ((u30 ^ u31) ^ u32) ^ u33,
                    ((u00 ^ u10) ^ u20) ^ u30 == 0,
                    ((u01 ^ u11) ^ u21) ^ u31 == 0,
                    ((u02 ^ u12) ^ u22) ^ u32 == x2,
                    ((u03 ^ u13) ^ u23) ^ u33 == 0,
            ;
        } else {
            let u00 = gf_mul(0x0b, gf_mul(0x02, x0));
            let u01 = gf_mul(0x0b, gf_mul(0x03, x1));
            let u02 = gf_mul(0x0b, gf_mul(0x01, x2));
            let u03 = gf_mul(0x0b, gf_mul(0x01, x3));
            let u10 = gf_mul(0x0d, gf_mul(0x01, x0));
            let u11 = gf_mul(0x0d, gf_mul(0x02, x1));
            let u12 = gf_mul(0x0d, gf_mul(0x03, x2));
            let u13 = gf_mul(0x0d, gf_mul(0x01, x3));
            let u20 = gf_mul(0x09, gf_mul(0x01, x0));
            let u21 = gf_mul(0x09, gf_mul(0x01, x1));
            let u22 = gf_mul(0x09, gf_mul(0x02, x2));
            let u23 = gf_mul(0x09, gf_mul(0x03, x3));
            let u30 = gf_mul(0x0e, gf_mul(0x03, x0));
            let u31 = gf_mul(0x0e, gf_mul(0x01, x1));
            let u32 = gf_mul(0x0e, gf_mul(0x01, x2));
            let u33 = gf_mul(0x0e, gf_mul(0x02, x3));
            lemma_gf_mul_linear(0x0b, gf_mul(0x02, x0) ^ gf_mul(0x03, x1) ^ gf_mul(0x01, x2), gf_mul(0x01, x3));
            lemma_gf_mul_linear(0x0b, gf_mul(0x02, x0) ^ gf_mul(0x03, x1), gf_mul(0x01, x2));
            lemma_gf_mul_linear(0x0b, gf_mul(0x02, x0), gf_mul(0x03, x1));
            assert(gf_mul(0x0b, y0) == ((u00 ^ u01) ^ u02) ^ u03);
            lemma_gf_mul_linear(0x0d, gf_mul(0x01, x0) ^ gf_mul(0x02, x1) ^ gf_mul(0x03, x2), gf_mul(0x01, x3));
            lemma_gf_mul_linear(0x0d, gf_mul(0x01, x0) ^ gf_mul(0x02, x1), gf_mul(0x03, x2));
            lemma_gf_mul_linear(0x0d, gf_mul(0x01, x0), gf_mul(0x02, x1));
            assert(gf_mul(0x0d, y1) == ((u10 ^ u11) ^ u12) ^ u13);
            lemma_gf_mul_linear(0x09, gf_mul(0x01, x0) ^ gf_mul(0x01, x1) ^ gf_mul(0x02, x2), gf_mul(0x03, x3));
            lemma_gf_mul_linear(0x09, gf_mul(0x01, x0) ^ gf_mul(0x01, x1), gf_mul(0x02, x2));
            lemma_gf_mul_linear(0x09, gf_mul(0x01, x0), gf_mul(0x01, x1));
            assert(gf_mul(0x09, y2) == ((u20 ^ u21) ^ u22) ^ u23);
            lemma_gf_mul_linear(0x0e, gf_mul(0x03, x0) ^ gf_mul(0x01, x1) ^ gf_mul(0x01, x2), gf_mul(0x02, x3));
            lemma_gf_mul_linear(0x0e, gf_mul(0x03, x0) ^ gf_mul(0x01, x1), gf_mul(0x01, x2));
            lemma_gf_mul_linear(0x0e, gf_mul(0x03, x0), gf_mul(0x01, x1));
            assert(gf_mul(0x0e, y3) == ((u30 ^ u31) ^ u32) ^ u33);
            assert(((gf_mul(0x0b, gf_mul(0x02, x0)) ^ gf_mul(0x0d, gf_mul(0x01, x0))) ^ gf_mul(0x09, gf_mul(0x01, x0))) ^ gf_mul(0x0e, gf_mul(0x03, x0)) == 0) by (bit_vector);
            assert(((u00 ^ u10) ^ u20) ^ u30 == 0);
            assert(((gf_mul(0x0b, gf_mul(0x03, x1)) ^ gf_mul(0x0d, gf_mul(0x02, x1))) ^ gf_mul(0x09, gf_mul(0x01, x1))) ^ gf_mul(0x0e, gf_mul(0x01, x1)) == 0) by (bit_vector);
            assert(((u01 ^ u11) ^ u21) ^ u31 == 0);
            assert(((gf_mul(0x0b, gf_mul(0x01, x2)) ^ gf_mul(0x0d, gf_mul(0x03, x2))) ^ gf_mul(0x09, gf_mul(0x02, x2))) ^ gf_mul(0x0e, gf_mul(0x01, x2)) == 0) by (bit_vector);
            assert(((u02 ^ u12) ^ u22) ^ u32 == 0);
            assert(((gf_mul(0x0b, gf_mul(0x01, x3)) ^ gf_mul(0x0d, gf_mul(0x01, x3))) ^ gf_mul(0x09, gf_mul(0x03, x3))) ^ gf_mul(0x0e, gf_mul(0x02, x3)) == x3) by (bit_vector);
            assert(((u03 ^ u13) ^ u23) ^ u33 == x3);
            let a0 = gf_mul(0x0b, y0);
            let a1 = gf_mul(0x0d, y1);
            let a2 = gf_mul(0x09, y2);
            let a3 = gf_mul(0x0e, y3);
            assert(inv_mix_columns_seq(m)[i] == ((a0 ^ a1) ^ a2) ^ a3);
            assert(((a0 ^ a1) ^ a2) ^ a3 == x3) by (bit_vector)
                requires
                    a0 == ((u00 ^ u01) ^ u02) ^ u03,
                    a1 == ((u10 ^ u11) ^ u12) ^ u13,
                    a2 == ((u20 ^ u21) ^ u22) ^ u23,
                    a3 == ((u30 ^ u31) ^ u32) ^ u33,
                    ((u00 ^ u10) ^ u20) ^ u30 == 0,
                    ((u01 ^ u11) ^ u21) ^ u31 == 0,
                    ((u02 ^ u12) ^ u22) ^ u32 == 0,
                    ((u03 ^ u13) ^ u23) ^ u33 == x3,
            ;
        }
    }
}

/// One inverse step undoes one forward round.
pub proof fn lemma_dec_step_undoes_enc_round(u: Seq<u8>, rk: Seq<u8>, last: bool)
    requires
        u.len() == 16,
        rk.len() == 16,
    ensures
        dec_step(enc_round(u, rk, last), rk, last) == u,
{
    let t = shift_rows_seq(sub_fwd_seq(u));
    if last {
        lemma_xor_involution(t, rk);
    } else {
        lemma_xor_involution(mix_columns_seq(t), rk);
        lemma_mix_inverse(t);
    }
    lemma_shift_inverse(sub_fwd_seq(u));
    lemma_sub_inverse(u);
    assert(dec_step(enc_round(u, rk, last), rk, last) =~= u);
}

/// Undoing forward rounds 10 down to `j` recovers the state the forward
/// pipeline had before round `j`.
proof fn lemma_dec_from_enc_rounds(t: Seq<u8>, ks: Seq<Seq<u8>>, j: int)
    requires
        t.len() == 16,
        wf_schedule(ks),
        1 <= j <= 11,
    ensures
        dec_from(enc_rounds(t, ks, 10), ks, j) == enc_rounds(t, ks, j - 1),
    decreases 11 - j,
{
    if j == 11 {
    } else {
        lemma_dec_from_enc_rounds(t, ks, j + 1);
        lemma_enc_rounds_len(t, ks, j - 1);
        lemma_dec_step_undoes_enc_round(enc_rounds(t, ks, j - 1), ks[j], j == 10);
    }
}

/// The state after any number of forward rounds stays 16 bytes long.
pub proof fn lemma_enc_rounds_len(t: Seq<u8>, ks: Seq<Seq<u8>>, n: int)
    requires
        t.len() == 16,
    ensures
        enc_rounds(t, ks, n).len() == 16,
    decreases n,
{
    if n > 0 {
        lemma_enc_rounds_len(t, ks, n - 1);
    }
}

/// Decrypting an encrypted block recovers the block exactly, for every
/// 16-byte state and every well-formed round-key schedule.
pub proof fn lemma_block_round_trip(s: Seq<u8>, ks: Seq<Seq<u8>>)
    requires
        s.len() == 16,
        wf_schedule(ks),
    ensures
        spec_decrypt_block(spec_encrypt_block(s, ks), ks) == s,
{
    let t = xor_seq(s, ks[0]);
    lemma_dec_from_enc_rounds(t, ks, 1);
    lemma_xor_involution(s, ks[0]);
    assert(spec_decrypt_block(spec_encrypt_block(s, ks), ks) =~= s);
}

} // verus!
