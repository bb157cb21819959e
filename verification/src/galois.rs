//! Multiplication in the Galois field GF(2^8) under the AES reduction
//! polynomial x^8 + x^4 + x^3 + x + 1 (reduction constant 0x1b).

use vstd::prelude::*;

verus! {

/// Doubling in GF(2^8): multiply by x, reducing by 0x1b when the top bit
/// would overflow.
pub open spec fn xtime(a: u8) -> u8 {
    if a < 0x80 {
        a << 1
    } else {
        (a << 1) ^ 0x1b
    }
}

/// Partial product of `a` by the low `k` bits of `b`, accumulating the
/// classic shift-and-add (Russian peasant) recursion.
pub open spec fn gf_mul_rec(a: u8, b: u8, k: nat) -> u8
    decreases k,
{
    if k == 0 {
        0
    } else {
        (if b & 1 == 1 {
            a
        } else {
            0
        }) ^ gf_mul_rec(xtime(a), b >> 1, (k - 1) as nat)
    }
}

/// The product a * b in GF(2^8) modulo the AES irreducible polynomial.
pub open spec fn gf_mul(a: u8, b: u8) -> u8 {
    gf_mul_rec(a, b, 8)
}

/// Bit-loop multiplication in GF(2^8).
pub fn gf_mult(a: u8, b: u8) -> (result: u8)
    ensures
        result == gf_mul(a, b),
{
    let mut result: u8 = 0;
    let mut a_tmp: u8 = a;
    let mut b_tmp: u8 = b;

    proof {
        let g = gf_mul_rec(a, b, 8);
        assert(0u8 ^ g == g) by (bit_vector);
    }

    let mut i: u8 = 0;
    while i < 8
        invariant
            i <= 8,
            gf_mul(a, b) == result ^ gf_mul_rec(a_tmp, b_tmp, (8 - i) as nat),
        decreases 8 - i,
    {
        let ghost result0 = result;
        let ghost a0 = a_tmp;
        let ghost b0 = b_tmp;
        let ghost k = (8 - i) as nat;

        if b_tmp & 1 == 1 {
            result ^= a_tmp;
        }

        let msb = a_tmp & 0x80;
        a_tmp <<= 1;

        if msb != 0 {
            a_tmp ^= 0x1b;
        }

        b_tmp >>= 1;
        i += 1;

        proof {
            let t: u8 = if b0 & 1 == 1 {
                a0
            } else {
                0
            };
            assert(result == result0 ^ t) by (bit_vector)
                requires
                    t == (if b0 & 1 == 1 {
                        a0
                    } else {
                        0u8
                    }),
                    result == (if b0 & 1 == 1 {
                        result0 ^ a0
                    } else {
                        result0
                    }),
            ;
            assert(a_tmp == xtime(a0)) by (bit_vector)
                requires
                    a_tmp == (if a0 & 0x80 != 0 {
                        ((a0 << 1) as u8) ^ 0x1b
                    } else {
                        (a0 << 1) as u8
                    }),
            ;
            let rest = gf_mul_rec(a_tmp, b_tmp, (k - 1) as nat);
            assert(gf_mul_rec(a0, b0, k) == t ^ rest);
            assert(result0 ^ (t ^ rest) == (result0 ^ t) ^ rest) by (bit_vector);
        }
    }
    proof {
        let r = result;
        assert(gf_mul_rec(a_tmp, b_tmp, 0) == 0);
        assert(r ^ 0u8 == r) by (bit_vector);
    }
    result
}

/// One is the multiplicative identity of GF(2^8).
pub proof fn lemma_gf_mul_one(x: u8)
    ensures
        gf_mul(1, x) == x,
{
    assert(gf_mul(1, x) == x) by (bit_vector);
}

/// Table-free entry point kept alongside `gf_mult`; both compute the same
/// product in GF(2^8), so the fast variant simply shares the one verified
/// implementation.
pub fn gf_mult_fast(a: u8, b: u8) -> (result: u8)
    ensures
        result == gf_mul(a, b),
{
    gf_mult(a, b)
}

} // verus!
