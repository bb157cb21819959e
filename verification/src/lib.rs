//! Verified AES-128 block cipher with CBC mode chaining.
//!
//! The library implements the AES-128 forward and inverse round pipeline
//! over a 4x4 byte state, the FIPS-197 key schedule, and a CBC mode engine
//! with PKCS#7-style padding. Every executable function carries a contract
//! stated over a flat byte-sequence model of the cipher state, and the
//! round-trip laws — one block, and a whole CBC stream — are proved for
//! every key, IV and plaintext.

pub mod block;
pub mod cbc;
pub mod galois;
pub mod state;
pub mod tables;
