//! Cipher Block Chaining around the AES-128 block cipher: padding, IV
//! chaining, decryption with padding validation, and the round-trip law.
//!
//! Wire format: `IV (16 bytes) || C_0 || ... || C_{N-1}`, each ciphertext
//! block 16 bytes, N >= 1. Padding always adds at least one byte and at most
//! one full block: every padding byte equals the pad length.

use vstd::prelude::*;
use rand::Rng;
use crate::block::{
    AesBlock, AesKey128, NUM_ROUND_KEYS_128, block_from_flat, flat_from_block,
    encrypt_block, decrypt_block, key_schedule_128, spec_encrypt_block, spec_decrypt_block,
    spec_key_schedule, xor_seq, wf_schedule, schedule_bytes, lemma_key_schedule_wf,
    lemma_block_round_trip, lemma_enc_rounds_len, lemma_xor_involution,
};
use vstd::array::array_as_slice;

verus! {

/// The failures CBC decryption and construction can report.
#[derive(Clone, Copy, Debug, PartialEq, Eq, Structural)]
pub enum CbcError {
    /// The key is not exactly 16 bytes.
    InvalidKeyLength,
    /// The input is shorter than 32 bytes or not block-aligned after the IV.
    MalformedCiphertext,
    /// The recovered final block carries no valid padding.
    PaddingInvalid,
}

/// How many padding bytes a plaintext of length `n` receives: always
/// between 1 and 16, and a whole block when `n` is already block-aligned.
pub open spec fn pad_amount(n: nat) -> nat {
    (16 - n % 16) as nat
}

/// The plaintext with its padding appended: `pad_amount` copies of the pad
/// length itself.
pub open spec fn padded_seq(p: Seq<u8>) -> Seq<u8> {
    p + Seq::new(pad_amount(p.len()), |i: int| pad_amount(p.len()) as u8)
}

/// The ciphertext blocks produced by chaining over `blocks` (a whole number
/// of 16-byte blocks) starting from chain value `prev`.
pub open spec fn enc_chain(blocks: Seq<u8>, prev: Seq<u8>, ks: Seq<Seq<u8>>) -> Seq<u8>
    decreases blocks.len(),
{
    if blocks.len() < 16 {
        Seq::empty()
    } else {
        let cblk = spec_encrypt_block(xor_seq(blocks.take(16), prev), ks);
        cblk + enc_chain(blocks.skip(16), cblk, ks)
    }
}

/// The full encryption result: the IV followed by the chained ciphertext
/// blocks of the padded plaintext.
pub open spec fn spec_cbc_encrypt(p: Seq<u8>, key: Seq<u8>, iv: Seq<u8>) -> Seq<u8> {
    iv + enc_chain(padded_seq(p), iv, spec_key_schedule(key))
}

/// The padded plaintext recovered by chaining over ciphertext blocks `ct`,
/// where each block is decrypted and combined with the previous ciphertext
/// block (the IV for the first).
pub open spec fn dec_chain(ct: Seq<u8>, prev: Seq<u8>, ks: Seq<Seq<u8>>) -> Seq<u8>
    decreases ct.len(),
{
    if ct.len() < 16 {
        Seq::empty()
    } else {
        xor_seq(spec_decrypt_block(ct.take(16), ks), prev) + dec_chain(ct.skip(16), ct.take(16), ks)
    }
}

/// A decryption input is malformed when it cannot hold an IV and at least
/// one whole ciphertext block.
pub open spec fn malformed(input: Seq<u8>) -> bool {
    input.len() < 32 || (input.len() - 16) % 16 != 0
}

/// Valid padding: the last byte names a pad length between 1 and 16, and
/// that many trailing bytes all equal it.
pub open spec fn padding_valid(pt: Seq<u8>) -> bool {
    &&& pt.len() >= 16
    &&& 1 <= pt.last() <= 16
    &&& forall|i: int| pt.len() - pt.last() <= i < pt.len() ==> pt[i] == pt.last()
}

/// The plaintext with its padding removed.
pub open spec fn unpad_seq(pt: Seq<u8>) -> Seq<u8> {
    pt.take(pt.len() - pt.last() as int)
}

/// The full decryption result: reject malformed input before any block is
/// processed, then decrypt every block, then validate and strip padding.
pub open spec fn spec_cbc_decrypt(input: Seq<u8>, key: Seq<u8>) -> Result<Seq<u8>, CbcError> {
    if malformed(input) {
        Err(CbcError::MalformedCiphertext)
    } else {
        let pt = dec_chain(input.skip(16), input.take(16), spec_key_schedule(key));
        if padding_valid(pt) {
            Ok(unpad_seq(pt))
        } else {
            Err(CbcError::PaddingInvalid)
        }
    }
}

/// The view of an executable decryption result in the model.
pub open spec fn result_bytes(r: Result<Vec<u8>, CbcError>) -> Result<Seq<u8>, CbcError> {
    match r {
        Ok(v) => Ok(v@),
        Err(e) => Err(e),
    }
}

/// Relies on rand::rng and rand::Rng::fill_bytes for 16 bytes from
/// the thread-local cryptographically secure generator; nothing is assumed
/// about which bytes come back.
#[verifier::external_body]
fn random_block() -> (r: [u8; 16])
    ensures
        r@.len() == 16,
{
    let mut block = [0u8; 16];
    rand::rng().fill_bytes(&mut block);
    block
}

/// Encrypt with an explicit IV: pad, chain block by block, and return the
/// IV followed by every ciphertext block.
pub fn cbc_encrypt_with_iv(input: &[u8], key: &AesKey128, iv: &[u8; 16]) -> (out: Vec<u8>)
    requires
        input@.len() <= usize::MAX - 32,
    ensures
        out@ == spec_cbc_encrypt(input@, key@, iv@),
        out@.len() == 16 + input@.len() + pad_amount(input@.len()),
{
    let ghost ksb = spec_key_schedule(key@);
    let padding: usize = 16 - (input.len() % 16);

    // build the padded plaintext
    let mut data: Vec<u8> = Vec::new();
    let mut i: usize = 0;
    while i < input.len()
        invariant
            i <= input@.len(),
            data@ == input@.take(i as int),
        decreases input@.len() - i,
    {
        data.push(input[i]);
        i += 1;
        proof {
            assert(data@ =~= input@.take(i as int));
        }
    }
    let mut j: usize = 0;
    while j < padding
        invariant
            j <= padding,
            padding == pad_amount(input@.len()),
            input@.len() <= usize::MAX - 32,
            data@ == input@ + Seq::new(j as nat, |k: int| padding as u8),
        decreases padding - j,
    {
        data.push(padding as u8);
        j += 1;
        proof {
            assert(data@ =~= input@ + Seq::new(j as nat, |k: int| padding as u8));
        }
    }
    proof {
        assert(data@ == padded_seq(input@));
        assert(data@.len() % 16 == 0);
    }

    let mut ks: [AesBlock; NUM_ROUND_KEYS_128] = [[[0; 4]; 4]; NUM_ROUND_KEYS_128];
    key_schedule_128(key, &mut ks);

    let mut out: Vec<u8> = Vec::new();
    let mut i: usize = 0;
    while i < 16
        invariant
            i <= 16,
            out@ == iv@.take(i as int),
        decreases 16 - i,
    {
        out.push(iv[i]);
        i += 1;
        proof {
            assert(out@ =~= iv@.take(i as int));
        }
    }
    proof {
        assert(out@ =~= iv@);
    }

    let mut prev: [u8; 16] = *iv;
    proof {
        assert(out@.skip(16) =~= Seq::<u8>::empty());
        assert(data@.skip(0) =~= data@);
        assert(Seq::<u8>::empty() + enc_chain(data@, iv@, ksb) =~= enc_chain(data@, iv@, ksb));
        assert(out@.take(16) =~= iv@);
    }
    let mut offset: usize = 0;
    while offset < data.len()
        invariant
            offset % 16 == 0,
            offset <= data@.len(),
            data@.len() % 16 == 0,
            data@.len() <= usize::MAX - 16,
            schedule_bytes(ks@) == ksb,
            ks@.len() == 11,
            enc_chain(data@, iv@, ksb) == out@.skip(16) + enc_chain(
                data@.skip(offset as int),
                prev@,
                ksb,
            ),
            out@.len() == 16 + offset,
            out@.take(16) == iv@,
        decreases data@.len() - offset,
    {
        let ghost out0 = out@;
        let ghost rest = data@.skip(offset as int);
        let ghost prev0 = prev@;

        proof {
            assert(offset + 16 <= data@.len()) by (nonlinear_arith)
                requires
                    offset % 16 == 0,
                    data@.len() % 16 == 0,
                    offset < data@.len(),
            ;
        }

        let mut chunk = [0u8; 16];
        let mut k: usize = 0;
        while k < 16
            invariant
                k <= 16,
                offset + 16 <= data@.len(),
                data@.len() <= usize::MAX - 16,
                forall|m: int|
                    0 <= m < k ==> chunk@[m] == (data@[offset + m] ^ prev@[m]),
            decreases 16 - k,
        {
            chunk[k] = data[offset + k] ^ prev[k];
            k += 1;
        }
        proof {
            assert(chunk@ =~= xor_seq(data@.subrange(offset as int, offset as int + 16), prev@));
            assert(rest.take(16) =~= data@.subrange(offset as int, offset as int + 16));
        }

        let mut b = block_from_flat(&chunk);
        encrypt_block(&mut b, array_as_slice(&ks));
        prev = flat_from_block(&b);

        let mut k: usize = 0;
        while k < 16
            invariant
                k <= 16,
                out@ == out0 + prev@.take(k as int),
            decreases 16 - k,
        {
            out.push(prev[k]);
            k += 1;
            proof {
                assert(out@ =~= out0 + prev@.take(k as int));
            }
        }
        offset += 16;

        proof {
            let cblk = spec_encrypt_block(xor_seq(rest.take(16), prev0), ksb);
            assert(prev@ =~= prev@.take(16));
            assert(prev@ == cblk);
            assert(enc_chain(rest, prev0, ksb) == cblk + enc_chain(rest.skip(16), cblk, ksb));
            assert(rest.skip(16) =~= data@.skip(offset as int));
            assert(out@.skip(16) =~= out0.skip(16) + prev@);
            assert(out@.skip(16) + enc_chain(data@.skip(offset as int), prev@, ksb) =~= out0.skip(
                16,
            ) + enc_chain(rest, prev0, ksb));
            assert(out@.take(16) =~= iv@);
        }
    }
    proof {
        assert(data@.skip(data@.len() as int) =~= Seq::<u8>::empty());
        assert(enc_chain(data@, iv@, ksb) == out@.skip(16));
        assert(out@ =~= out@.take(16) + out@.skip(16));
        assert(out@ == spec_cbc_encrypt(input@, key@, iv@));
    }
    out
}

/// Encrypt a plaintext under a 16-byte key: a fresh random IV is drawn, and
/// the result is that IV followed by the chained ciphertext blocks, so the
/// first 16 bytes of the output are the IV the rest was chained from.
pub fn cbc_encrypt(input: &[u8], key: &AesKey128) -> (out: Vec<u8>)
    requires
        input@.len() <= usize::MAX - 32,
    ensures
        out@.len() == 16 + input@.len() + pad_amount(input@.len()),
        out@ == spec_cbc_encrypt(input@, key@, out@.take(16)),
{
    let iv = random_block();
    let out = cbc_encrypt_with_iv(input, key, &iv);
    proof {
        assert(out@.take(16) =~= iv@);
    }
    out
}

/// Decrypt an `IV || blocks` input under a 16-byte key: reject inputs that
/// are too short or not block-aligned, then undo the chaining block by
/// block, then validate and strip the padding.
pub fn cbc_decrypt(key: AesKey128, input: &[u8]) -> (result: Result<Vec<u8>, CbcError>)
    ensures
        result_bytes(result) == spec_cbc_decrypt(input@, key@),
{
    if input.len() < 32 || (input.len() - 16) % 16 != 0 {
        return Err(CbcError::MalformedCiphertext);
    }
    let ghost ksb = spec_key_schedule(key@);
    let ghost ct = input@.skip(16);
    let ghost iv = input@.take(16);
    let mut ks: [AesBlock; NUM_ROUND_KEYS_128] = [[[0; 4]; 4]; NUM_ROUND_KEYS_128];
    key_schedule_128(&key, &mut ks);

    // the IV is the first 16 bytes
    let mut prev = [0u8; 16];
    let mut k: usize = 0;
    while k < 16
        invariant
            k <= 16,
            input@.len() >= 32,
            forall|m: int| 0 <= m < k ==> prev@[m] == input@[m],
        decreases 16 - k,
    {
        prev[k] = input[k];
        k += 1;
    }
    proof {
        assert(prev@ =~= iv);
        assert(input@.skip(16) =~= ct);
        assert(Seq::<u8>::empty() + dec_chain(ct, iv, ksb) =~= dec_chain(ct, iv, ksb));
    }

    let mut out: Vec<u8> = Vec::new();
    let mut offset: usize = 16;
    while offset < input.len()
        invariant
            16 <= offset <= input@.len(),
            offset % 16 == 0,
            input@.len() % 16 == 0,
            input@.len() <= usize::MAX,
            schedule_bytes(ks@) == ksb,
            ks@.len() == 11,
            dec_chain(ct, iv, ksb) == out@ + dec_chain(input@.skip(offset as int), prev@, ksb),
            out@.len() == offset - 16,
        decreases input@.len() - offset,
    {
        let ghost out0 = out@;
        let ghost rest = input@.skip(offset as int);
        let ghost prev0 = prev@;

        proof {
            assert(offset + 16 <= input@.len()) by (nonlinear_arith)
                requires
                    offset % 16 == 0,
                    input@.len() % 16 == 0,
                    offset < input@.len(),
            ;
        }

        let mut chunk = [0u8; 16];
        let mut k: usize = 0;
        while k < 16
            invariant
                k <= 16,
                offset + 16 <= input@.len(),
                input@.len() <= usize::MAX,
                forall|m: int| 0 <= m < k ==> chunk@[m] == input@[offset + m],
            decreases 16 - k,
        {
            chunk[k] = input[offset + k];
            k += 1;
        }
        proof {
            assert(chunk@ =~= rest.take(16));
        }

        let mut b = block_from_flat(&chunk);
        decrypt_block(&mut b, array_as_slice(&ks));
        let flat = flat_from_block(&b);

        let mut k: usize = 0;
        while k < 16
            invariant
                k <= 16,
                prev@ == prev0,
                prev0.len() == 16,
                flat@.len() == 16,
                out@.len() == out0.len() + k,
                out@.take(out0.len() as int) == out0,
                forall|m: int| 0 <= m < k ==> out@[out0.len() + m] == (flat@[m] ^ prev0[m]),
            decreases 16 - k,
        {
            out.push(flat[k] ^ prev[k]);
            k += 1;
            proof {
                assert(out@.take(out0.len() as int) =~= out0);
            }
        }
        prev = chunk;
        offset += 16;

        proof {
            let dblk = xor_seq(spec_decrypt_block(rest.take(16), ksb), prev0);
            assert(out@ =~= out0 + xor_seq(flat@, prev0));
            assert(dec_chain(rest, prev0, ksb) == dblk + dec_chain(rest.skip(16), rest.take(16), ksb));
            assert(out@ =~= out0 + dblk);
            assert(rest.skip(16) =~= input@.skip(offset as int));
            assert(prev@ == rest.take(16));
            assert(out0 + (dblk + dec_chain(input@.skip(offset as int), prev@, ksb)) =~= out@
                + dec_chain(input@.skip(offset as int), prev@, ksb));
        }
    }
    proof {
        assert(input@.skip(input@.len() as int) =~= Seq::<u8>::empty());
        assert(out@ + Seq::<u8>::empty() =~= out@);
        assert(out@ == dec_chain(ct, iv, ksb));
    }

    // validate padding on the recovered plaintext
    let ghost pt = out@;
    let n = out.len();
    let last = out[n - 1];
    if last == 0 || last > 16 {
        return Err(CbcError::PaddingInvalid);
    }
    let pad = last as usize;
    let mut i: usize = n - pad;
    while i < n
        invariant
            out@ == pt,
            n == pt.len(),
            16 <= n,
            1 <= pad <= 16,
            pad == last as usize,
            last == pt.last(),
            n - pad <= i <= n,
            !malformed(input@),
            pt == dec_chain(input@.skip(16), input@.take(16), spec_key_schedule(key@)),
            forall|m: int| n - pad <= m < i ==> pt[m] == pt.last(),
        decreases n - i,
    {
        if out[i] != last {
            return Err(CbcError::PaddingInvalid);
        }
        i += 1;
    }
    proof {
        assert(padding_valid(pt));
    }
    out.truncate(n - pad);
    proof {
        assert(out@ == unpad_seq(pt));
    }
    Ok(out)
}

/// Chaining over a whole number of blocks yields a ciphertext of the same
/// length.
pub proof fn lemma_enc_chain_len(blocks: Seq<u8>, prev: Seq<u8>, ks: Seq<Seq<u8>>)
    requires
        blocks.len() % 16 == 0,
        prev.len() == 16,
        wf_schedule(ks),
    ensures
        enc_chain(blocks, prev, ks).len() == blocks.len(),
    decreases blocks.len(),
{
    if blocks.len() >= 16 {
        let first = xor_seq(blocks.take(16), prev);
        lemma_enc_rounds_len(xor_seq(first, ks[0]), ks, 10);
        let cblk = spec_encrypt_block(first, ks);
        lemma_enc_chain_len(blocks.skip(16), cblk, ks);
    }
}

/// Undoing the chaining of an encryption chain recovers the padded
/// plaintext exactly.
pub proof fn lemma_dec_chain_of_enc_chain(blocks: Seq<u8>, prev: Seq<u8>, ks: Seq<Seq<u8>>)
    requires
        blocks.len() % 16 == 0,
        prev.len() == 16,
        wf_schedule(ks),
    ensures
        dec_chain(enc_chain(blocks, prev, ks), prev, ks) == blocks,
    decreases blocks.len(),
{
    if blocks.len() < 16 {
        assert(dec_chain(enc_chain(blocks, prev, ks), prev, ks) =~= blocks);
    } else {
        let b0 = blocks.take(16);
        let first = xor_seq(b0, prev);
        let cblk = spec_encrypt_block(first, ks);
        lemma_enc_rounds_len(xor_seq(first, ks[0]), ks, 10);
        let tail = enc_chain(blocks.skip(16), cblk, ks);
        let ct = enc_chain(blocks, prev, ks);
        assert(ct == cblk + tail);
        assert(ct.take(16) =~= cblk);
        assert(ct.skip(16) =~= tail);
        lemma_block_round_trip(first, ks);
        lemma_xor_involution(b0, prev);
        assert(xor_seq(spec_decrypt_block(cblk, ks), prev) =~= b0);
        lemma_dec_chain_of_enc_chain(blocks.skip(16), cblk, ks);
        assert(dec_chain(ct, prev, ks) == b0 + blocks.skip(16));
        assert(b0 + blocks.skip(16) =~= blocks);
    }
}

/// The padded plaintext always carries valid padding, and stripping it
/// recovers the plaintext.
pub proof fn lemma_padding_round_trip(p: Seq<u8>)
    ensures
        padded_seq(p).len() % 16 == 0,
        padded_seq(p).len() >= 16,
        padded_seq(p).len() == p.len() + pad_amount(p.len()),
        padding_valid(padded_seq(p)),
        unpad_seq(padded_seq(p)) == p,
{
    let pad = pad_amount(p.len());
    let padded = padded_seq(p);
    assert(1 <= pad <= 16);
    assert(padded.last() == pad as u8);
    assert(forall|i: int| padded.len() - pad <= i < padded.len() ==> padded[i] == pad as u8);
    assert(unpad_seq(padded) =~= p);
}

/// A CBC engine: an AES-128 cipher context together with the IV the next
/// encryption will chain from.
#[derive(Debug)]
pub struct Aes128Cbc {
    pub aes: crate::state::Aes128,
    pub iv: [u8; 16],
}

impl Aes128Cbc {
    /// The engine is well formed: its context carries the schedule its key
    /// expands to.
    pub open spec fn wf(self) -> bool {
        self.aes.wf()
    }

    /// Build an engine from a 16-byte key, drawing a fresh random IV.
    pub fn new(key: AesKey128) -> (engine: Self)
        ensures
            engine.wf(),
            engine.aes.key == key,
    {
        let iv = random_block();
        Aes128Cbc { aes: crate::state::Aes128::new(key), iv }
    }

    /// Build an engine from a key of arbitrary length, rejecting any key
    /// that is not exactly 16 bytes.
    pub fn from_key_slice(key: &[u8]) -> (result: Result<Self, CbcError>)
        ensures
            key@.len() == 16 <==> result is Ok,
            result matches Ok(engine) ==> engine.wf() && engine.aes.key@ == key@,
            result matches Err(e) ==> e == CbcError::InvalidKeyLength,
    {
        if key.len() != 16 {
            return Err(CbcError::InvalidKeyLength);
        }
        let mut key_arr = [0u8; 16];
        let mut i: usize = 0;
        while i < 16
            invariant
                i <= 16,
                key@.len() == 16,
                forall|m: int| 0 <= m < i ==> key_arr@[m] == key@[m],
            decreases 16 - i,
        {
            key_arr[i] = key[i];
            i += 1;
        }
        proof {
            assert(key_arr@ =~= key@);
        }
        Ok(Self::new(key_arr))
    }

    /// Bytewise exclusive or of a block with the previous chain value.
    pub fn xor_blocks(block: &mut [u8; 16], prev_block: &[u8; 16])
        ensures
            final(block)@ == xor_seq(old(block)@, prev_block@),
    {
        let mut k: usize = 0;
        while k < 16
            invariant
                k <= 16,
                forall|m: int| 0 <= m < k ==> block@[m] == (old(block)@[m] ^ prev_block@[m]),
                forall|m: int| k <= m < 16 ==> block@[m] == old(block)@[m],
            decreases 16 - k,
        {
            block[k] = block[k] ^ prev_block[k];
            k += 1;
        }
        proof {
            assert(block@ =~= xor_seq(old(block)@, prev_block@));
        }
    }

    /// Encrypt a plaintext, chaining from the engine's IV: the result is
    /// the IV followed by the ciphertext blocks.
    pub fn encrypt(&self, plaintext: &[u8]) -> (out: Vec<u8>)
        requires
            plaintext@.len() <= usize::MAX - 32,
        ensures
            out@ == spec_cbc_encrypt(plaintext@, self.aes.key@, self.iv@),
    {
        cbc_encrypt_with_iv(plaintext, &self.aes.key, &self.iv)
    }

    /// Decrypt an `IV || blocks` input under the engine's key.
    pub fn decrypt(&self, input: &[u8]) -> (result: Result<Vec<u8>, CbcError>)
        ensures
            result_bytes(result) == spec_cbc_decrypt(input@, self.aes.key@),
    {
        cbc_decrypt(self.aes.key, input)
    }
}

/// Build a CBC engine for the named scheme, under the given key where one
/// is supplied and under a fresh random key otherwise.
pub fn aes(crypt_type: &str, d_key: Option<Vec<u8>>) -> (engine: Aes128Cbc)
    requires
        d_key matches Some(k) ==> k@.len() == 16,
    ensures
        engine.wf(),
        d_key matches Some(k) ==> engine.aes.key@ == k@,
{
    let key: [u8; 16] = match d_key {
        Some(k) => {
            let mut key_arr = [0u8; 16];
            let mut i: usize = 0;
            while i < 16
                invariant
                    i <= 16,
                    k@.len() == 16,
                    forall|m: int| 0 <= m < i ==> key_arr@[m] == k@[m],
                decreases 16 - i,
            {
                key_arr[i] = k[i];
                i += 1;
            }
            proof {
                assert(key_arr@ =~= k@);
            }
            key_arr
        },
        None => random_block(),
    };
    let _ = crypt_type;
    Aes128Cbc::new(key)
}

/// The round-trip law of the CBC engine: decrypting an encryption under the
/// same key returns exactly the original plaintext, for every plaintext,
/// every 16-byte key and every 16-byte IV.
pub proof fn lemma_cbc_round_trip(p: Seq<u8>, key: Seq<u8>, iv: Seq<u8>)
    requires
        key.len() == 16,
        iv.len() == 16,
    ensures
        spec_cbc_decrypt(spec_cbc_encrypt(p, key, iv), key) == Ok::<Seq<u8>, CbcError>(p),
{
    let ks = spec_key_schedule(key);
    lemma_key_schedule_wf(key);
    lemma_padding_round_trip(p);
    let padded = padded_seq(p);
    let ct = enc_chain(padded, iv, ks);
    lemma_enc_chain_len(padded, iv, ks);
    let full = spec_cbc_encrypt(p, key, iv);
    assert(full == iv + ct);
    assert(full.len() == 16 + padded.len());
    assert(!malformed(full)) by {
        assert((full.len() - 16) % 16 == padded.len() % 16);
    }
    assert(full.take(16) =~= iv);
    assert(full.skip(16) =~= ct);
    lemma_dec_chain_of_enc_chain(padded, iv, ks);
    assert(dec_chain(full.skip(16), full.take(16), ks) == padded);
}

} // verus!
