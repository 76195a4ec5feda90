//! The proof-of-work engine: the hash input of a block, the nonce search, and
//! the single-hash check of a stored nonce.

use vstd::prelude::*;
use vstd::arithmetic::power2::pow2;
use crate::encoding::{be_i64_bytes, be_u16_bytes, be_value, push_be_i64, push_be_u16, push_bytes};
use crate::external::{be_below_pow2, sha256_digest, sha256_of};
use crate::types::{Block, ChainError};

verus! {

/// Difficulty of the chain: a hash must be below two to the power `256 - TARGET_BITS`.
pub const TARGET_BITS: u16 = 24;

/// The bytes hashed for a block with these fields and this nonce.
pub open spec fn pow_input(
    prev_block_hash: Seq<u8>,
    data: Seq<u8>,
    timestamp: i64,
    target_bits: u16,
    nonce: i64,
) -> Seq<u8> {
    prev_block_hash + data + be_i64_bytes(timestamp) + be_u16_bytes(target_bits) + be_i64_bytes(
        nonce,
    )
}

/// A hash meets a difficulty of `target_bits` when, read as a big-endian
/// integer, it is below two to the power `256 - target_bits`.
pub open spec fn meets_target(hash: Seq<u8>, target_bits: u16) -> bool {
    be_value(hash) < pow2((256 - target_bits) as nat)
}

/// SHA-256 of `data`.
pub fn calca_hash(data: &[u8]) -> (r: [u8; 32])
    ensures
        r@ == sha256_of(data@),
{
    sha256_digest(data)
}

/// Whether `hash` meets a difficulty of `target_bits`.
pub fn hash_meets_target(hash: &[u8; 32], target_bits: u16) -> (r: bool)
    requires
        target_bits <= 256,
    ensures
        r == meets_target(hash@, target_bits),
{
    be_below_pow2(hash, 256 - target_bits)
}

/// The engine for one block at one difficulty: it reads the block's fields
/// and never copies them.
pub struct ProofOfWork<'a> {
    /// The block whose nonce is searched for or checked.
    pub block: &'a Block,
    /// The difficulty the nonce is searched for, or checked, against.
    pub target_bits: u16,
}

impl<'a> ProofOfWork<'a> {
    /// An engine over `block` at the chain's difficulty.
    pub fn new(block: &'a Block) -> (r: ProofOfWork<'a>)
        ensures
            r.block == block,
            r.target_bits == TARGET_BITS,
    {
        ProofOfWork { block, target_bits: TARGET_BITS }
    }

    /// An engine over `block` at difficulty `target_bits`.
    pub fn with_target_bits(block: &'a Block, target_bits: u16) -> (r: ProofOfWork<'a>)
        ensures
            r.block == block,
            r.target_bits == target_bits,
    {
        ProofOfWork { block, target_bits }
    }

    /// The bytes hashed for the block with `nonce` in place of its own:
    /// previous hash, payload, timestamp, difficulty and nonce, in that order,
    /// the last three big-endian.
    pub fn prepar_data(&self, nonce: i64) -> (r: Vec<u8>)
        ensures
            r@ == self.block.pow_input_at(nonce, self.target_bits),
    {
        let mut data: Vec<u8> = Vec::new();
        push_bytes(&mut data, &self.block.prev_block_hash);
        push_bytes(&mut data, self.block.data.as_slice());
        push_be_i64(&mut data, self.block.timestamp);
        push_be_u16(&mut data, self.target_bits);
        push_be_i64(&mut data, nonce);
        data
    }

    /// Searches the nonces from zero upwards for the first whose hash meets the
    /// difficulty, and returns it with that hash.
    pub fn run(&self) -> (r: Result<(i64, [u8; 32]), ChainError>)
        requires
            self.target_bits <= 256,
        ensures
            match r {
                Ok((nonce, hash)) => self.block.first_valid_nonce(nonce, self.target_bits)
                    && hash@ == self.block.digest_at(nonce, self.target_bits),
                Err(e) => e == ChainError::NonceExhausted && forall|n: i64|
                    0 <= n ==> !#[trigger] self.block.nonce_meets_target(n, self.target_bits),
            },
    {
        let mut nonce: i64 = 0;
        loop
            invariant
                0 <= nonce,
                self.target_bits <= 256,
                forall|n: i64|
                    0 <= n < nonce ==> !#[trigger] self.block.nonce_meets_target(
                        n,
                        self.target_bits,
                    ),
            decreases i64::MAX - nonce,
        {
            let data = self.prepar_data(nonce);
            let hash = sha256_digest(data.as_slice());
            if hash_meets_target(&hash, self.target_bits) {
                return Ok((nonce, hash));
            }
            if nonce == i64::MAX {
                return Err(ChainError::NonceExhausted);
            }
            nonce = nonce + 1;
        }
    }

    /// Recomputes the hash for the block's stored nonce, once, and tells
    /// whether it meets the difficulty. The block is only read, so repeated
    /// checks give the same answer.
    pub fn validate(&self) -> (r: bool)
        requires
            self.target_bits <= 256,
        ensures
            r == self.block.is_valid(self.target_bits),
    {
        let data = self.prepar_data(self.block.nonce);
        let hash = sha256_digest(data.as_slice());
        hash_meets_target(&hash, self.target_bits)
    }
}

/// Mining always yields a block that validates: a block given the nonce and
/// hash that the search returns carries the hash of that nonce, and the nonce
/// meets the difficulty.
pub proof fn lemma_mined_block_validates(block: Block, target_bits: u16, nonce: i64, hash: [u8; 32])
    requires
        block.first_valid_nonce(nonce, target_bits),
        hash@ == block.digest_at(nonce, target_bits),
    ensures
        ({
            let mined = Block { nonce, hash, ..block };
            mined.is_sealed(target_bits) && mined.is_valid(target_bits)
        }),
{
    let mined = Block { nonce, hash, ..block };
    assert(mined.pow_input_at(nonce, target_bits) == block.pow_input_at(nonce, target_bits));
}

/// A nonce whose hash does not meet the difficulty, set on a block, makes
/// that block fail validation.
pub proof fn lemma_unmet_target_fails_validation(block: Block, target_bits: u16, nonce: i64)
    requires
        !meets_target(sha256_of(block.pow_input_at(nonce, target_bits)), target_bits),
    ensures
        !(Block { nonce, ..block }).is_valid(target_bits),
{
    let forced = Block { nonce, ..block };
    assert(forced.pow_input_at(nonce, target_bits) == block.pow_input_at(nonce, target_bits));
}

/// The hash input depends on the previous hash, payload, timestamp,
/// difficulty and nonce alone: blocks that agree on the first three get the
/// same bytes, and so the same hash, whatever hash and nonce they store.
pub proof fn lemma_pow_input_deterministic(a: Block, b: Block, target_bits: u16, nonce: i64)
    requires
        a.prev_block_hash@ == b.prev_block_hash@,
        a.data@ == b.data@,
        a.timestamp == b.timestamp,
    ensures
        a.pow_input_at(nonce, target_bits) == b.pow_input_at(nonce, target_bits),
        a.digest_at(nonce, target_bits) == b.digest_at(nonce, target_bits),
{
}

} // verus!
