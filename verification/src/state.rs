//! A cipher state bundling the 4x4 block matrix with a transform direction,
//! and the cipher context holding a key with its derived round-key schedule.

use vstd::prelude::*;
use crate::block::{
    AesBlock, AesKey128, NUM_ROUND_KEYS_128, block_bytes, block_from_flat, flat_from_block,
    schedule_bytes, spec_key_schedule, spec_encrypt_block, spec_decrypt_block, sub_fwd_seq,
    sub_inv_seq, shift_rows_seq, inv_shift_rows_seq, mix_columns_seq, inv_mix_columns_seq,
    key_schedule_128, lemma_sub_seq_fwd, lemma_sub_seq_inv,
};
use crate::tables::{sbox_encrypt_table, sbox_decrypt_table};
use vstd::array::array_as_slice;

verus! {

/// Whether a transform runs forward (encrypting) or inverse (decrypting).
#[derive(Copy, Clone, Debug, PartialEq, Eq, Structural)]
pub enum Direction {
    Forward,
    Inverse,
}

/// An AES-128 cipher context: a key and the round-key schedule derived from
/// it once at construction, immutable and shareable thereafter.
#[derive(Copy, Clone, Debug)]
pub struct Aes128 {
    pub key: AesKey128,
    pub round_keys: [AesBlock; NUM_ROUND_KEYS_128],
}

impl Aes128 {
    /// The context is well formed: the round keys are exactly the schedule
    /// the key expands to.
    pub open spec fn wf(self) -> bool {
        schedule_bytes(self.round_keys@) == spec_key_schedule(self.key@)
    }

    /// Build a context by expanding the key once.
    pub fn new(key: AesKey128) -> (ctx: Self)
        ensures
            ctx.wf(),
            ctx.key == key,
    {
        let mut round_keys: [AesBlock; NUM_ROUND_KEYS_128] = [[[0; 4]; 4]; NUM_ROUND_KEYS_128];
        key_schedule_128(&key, &mut round_keys);
        Aes128 { key, round_keys }
    }

    /// Round key `i` of the schedule.
    pub fn get_round_key(&self, i: usize) -> (rk: AesBlock)
        requires
            i < NUM_ROUND_KEYS_128,
        ensures
            rk == self.round_keys@[i as int],
    {
        self.round_keys[i]
    }
}

/// A transient cipher state: the block held both as a column-major matrix
/// and as the flat bytes it was built from, plus the transform direction.
#[derive(Debug)]
pub struct State {
    pub block: AesBlock,
    pub flat: [u8; 16],
    pub direction: Direction,
}

impl State {
    /// Build a state from a flat 16-byte block, facing forward.
    pub fn new(flat: &[u8; 16]) -> (s: Self)
        ensures
            s.direction == Direction::Forward,
            block_bytes(s.block) == flat@,
            s.flat == *flat,
    {
        let block = block_from_flat(flat);
        State { direction: Direction::Forward, block, flat: *flat }
    }

    /// Swap the transform direction, leaving the block untouched.
    pub fn flip_direction(&mut self)
        ensures
            final(self).direction == (match old(self).direction {
                Direction::Forward => Direction::Inverse,
                Direction::Inverse => Direction::Forward,
            }),
            final(self).block == old(self).block,
            final(self).flat == old(self).flat,
    {
        self.direction = match self.direction {
            Direction::Forward => Direction::Inverse,
            Direction::Inverse => Direction::Forward,
        };
    }

    /// Substitute every byte through the S-box the direction selects.
    pub fn sub_bytes(&mut self)
        ensures
            final(self).direction == old(self).direction,
            final(self).flat == old(self).flat,
            block_bytes(final(self).block) == (match old(self).direction {
                Direction::Forward => sub_fwd_seq(block_bytes(old(self).block)),
                Direction::Inverse => sub_inv_seq(block_bytes(old(self).block)),
            }),
    {
        let ghost before = block_bytes(self.block);
        let mut b = self.block;
        match self.direction {
            Direction::Forward => {
                let tbl = sbox_encrypt_table();
                crate::block::sub_bytes(&mut b, tbl.as_slice());
                proof {
                    lemma_sub_seq_fwd(before);
                }
            },
            Direction::Inverse => {
                let tbl = sbox_decrypt_table();
                crate::block::sub_bytes(&mut b, tbl.as_slice());
                proof {
                    lemma_sub_seq_inv(before);
                }
            },
        }
        self.block = b;
    }

    /// Rotate each row left (forward) or right (inverse) by its row index.
    pub fn shift_rows(&mut self)
        ensures
            final(self).direction == old(self).direction,
            final(self).flat == old(self).flat,
            block_bytes(final(self).block) == (match old(self).direction {
                Direction::Forward => shift_rows_seq(block_bytes(old(self).block)),
                Direction::Inverse => inv_shift_rows_seq(block_bytes(old(self).block)),
            }),
    {
        let mut b = self.block;
        match self.direction {
            Direction::Forward => crate::block::shift_rows(&mut b),
            Direction::Inverse => crate::block::inv_shift_rows(&mut b),
        }
        self.block = b;
    }

    /// Multiply each column by the matrix the direction selects.
    pub fn mix_columns(&mut self)
        ensures
            final(self).direction == old(self).direction,
            final(self).flat == old(self).flat,
            block_bytes(final(self).block) == (match old(self).direction {
                Direction::Forward => mix_columns_seq(block_bytes(old(self).block)),
                Direction::Inverse => inv_mix_columns_seq(block_bytes(old(self).block)),
            }),
    {
        let mut b = self.block;
        match self.direction {
            Direction::Forward => crate::block::mix_columns(&mut b),
            Direction::Inverse => crate::block::inv_mix_columns(&mut b),
        }
        self.block = b;
    }

    /// Run the forward pipeline over the block and refresh the flat bytes.
    pub fn encrypt_block(&mut self, schedule: Aes128)
        requires
            schedule.wf(),
        ensures
            final(self).direction == Direction::Forward,
            block_bytes(final(self).block) == spec_encrypt_block(
                block_bytes(old(self).block),
                spec_key_schedule(schedule.key@),
            ),
            final(self).flat@ == block_bytes(final(self).block),
    {
        self.direction = Direction::Forward;
        let mut b = self.block;
        crate::block::encrypt_block(&mut b, array_as_slice(&schedule.round_keys));
        self.block = b;
        self.flat = flat_from_block(&b);
    }

    /// Run the inverse pipeline over the block and refresh the flat bytes.
    pub fn decrypt_block(&mut self, schedule: Aes128)
        requires
            schedule.wf(),
        ensures
            final(self).direction == Direction::Inverse,
            block_bytes(final(self).block) == spec_decrypt_block(
                block_bytes(old(self).block),
                spec_key_schedule(schedule.key@),
            ),
            final(self).flat@ == block_bytes(final(self).block),
    {
        self.direction = Direction::Inverse;
        let mut b = self.block;
        crate::block::decrypt_block(&mut b, array_as_slice(&schedule.round_keys));
        self.block = b;
        self.flat = flat_from_block(&b);
    }
}

} // verus!
