//! Blocks and the append-only chain that owns them.

use vstd::prelude::*;
use vstd::string::{StrSliceExecFns, StringExecFns, StringSliceAdditionalSpecFns};
use vstd::utf8::encode_utf8;
use crate::encoding::{be_i64_bytes, hex_text, push_be_i64, push_bytes};
use crate::external::{
    format_unix_time, hex_encode, now_unix_timestamp, sha256_digest, sha256_of, utf8_lossy,
    utf8_lossy_text_of, utc_time_text_of, MAX_DISPLAY_TIMESTAMP, MIN_DISPLAY_TIMESTAMP,
};
use crate::pow::{meets_target, pow_input, ProofOfWork, TARGET_BITS};

verus! {

/// A 32-byte block hash.
pub type Hash = [u8; 32];

/// Why building, extending or rendering a chain did not succeed.
#[derive(Debug, Clone, Copy, PartialEq, Eq, Structural)]
pub enum ChainError {
    /// The chain holds no block to extend.
    EmptyChain,
    /// No nonce in the range of `i64` gives a hash that meets the target.
    NonceExhausted,
    /// A block's timestamp is outside the range of calendar time that can be shown.
    TimestampFormatting,
}

/// One block of the chain.
#[derive(Debug, Clone)]
pub struct Block {
    /// Seconds since the Unix epoch at which the block was made.
    pub timestamp: i64,
    /// The payload.
    pub data: Vec<u8>,
    /// Hash of the preceding block; all zero for the first block.
    pub prev_block_hash: Hash,
    /// This block's hash, found by mining.
    pub hash: Hash,
    /// The nonce found by mining.
    pub nonce: i64,
}

/// No non-negative nonce gives a block with these fields a hash that meets
/// a difficulty of `target_bits`.
pub open spec fn nonce_space_exhausted(
    prev_block_hash: Seq<u8>,
    data: Seq<u8>,
    timestamp: i64,
    target_bits: u16,
) -> bool {
    forall|n: i64|
        0 <= n ==> !#[trigger] meets_target(
            sha256_of(pow_input(prev_block_hash, data, timestamp, target_bits, n)),
            target_bits,
        )
}

impl Block {
    /// The bytes hashed for this block at difficulty `target_bits` with
    /// `nonce` in place of its own.
    pub open spec fn pow_input_at(&self, nonce: i64, target_bits: u16) -> Seq<u8> {
        pow_input(self.prev_block_hash@, self.data@, self.timestamp, target_bits, nonce)
    }

    /// The hash of this block at difficulty `target_bits` with `nonce` in
    /// place of its own.
    pub open spec fn digest_at(&self, nonce: i64, target_bits: u16) -> Seq<u8> {
        sha256_of(self.pow_input_at(nonce, target_bits))
    }

    /// Whether `nonce` gives this block a hash that meets a difficulty of
    /// `target_bits`.
    pub open spec fn nonce_meets_target(&self, nonce: i64, target_bits: u16) -> bool {
        meets_target(self.digest_at(nonce, target_bits), target_bits)
    }

    /// `nonce` is the least non-negative nonce that meets the difficulty.
    pub open spec fn first_valid_nonce(&self, nonce: i64, target_bits: u16) -> bool {
        &&& 0 <= nonce
        &&& self.nonce_meets_target(nonce, target_bits)
        &&& forall|n: i64| 0 <= n < nonce ==> !#[trigger] self.nonce_meets_target(n, target_bits)
    }

    /// The stored nonce meets the difficulty.
    pub open spec fn is_valid(&self, target_bits: u16) -> bool {
        self.nonce_meets_target(self.nonce, target_bits)
    }

    /// The stored hash is the one the stored nonce gives, and it meets the difficulty.
    pub open spec fn is_sealed(&self, target_bits: u16) -> bool {
        &&& self.hash@ == self.digest_at(self.nonce, target_bits)
        &&& self.is_valid(target_bits)
    }

    /// This block holds `data` after `prev_block_hash` and carries the first
    /// nonce that meets a difficulty of `target_bits`, with that nonce's hash.
    pub open spec fn is_mined_from(
        &self,
        data: Seq<u8>,
        prev_block_hash: Seq<u8>,
        target_bits: u16,
    ) -> bool {
        &&& self.data@ == data
        &&& self.prev_block_hash@ == prev_block_hash
        &&& self.first_valid_nonce(self.nonce, target_bits)
        &&& self.hash@ == self.digest_at(self.nonce, target_bits)
    }

    /// Mines a block holding `data` after `prev_block_hash`, stamped with
    /// `timestamp`, at difficulty `target_bits`.
    pub fn mine_at(data: Vec<u8>, prev_block_hash: Hash, timestamp: i64, target_bits: u16) -> (r:
        Result<Block, ChainError>)
        requires
            target_bits <= 256,
        ensures
            match r {
                Ok(b) => b.timestamp == timestamp && b.is_mined_from(
                    data@,
                    prev_block_hash@,
                    target_bits,
                ),
                Err(e) => e == ChainError::NonceExhausted && nonce_space_exhausted(
                    prev_block_hash@,
                    data@,
                    timestamp,
                    target_bits,
                ),
            },
    {
        let mut block = Block { timestamp, data, prev_block_hash, hash: [0u8; 32], nonce: 0 };
        let found = {
            let pow = ProofOfWork::with_target_bits(&block, target_bits);
            pow.run()
        };
        match found {
            Ok((nonce, hash)) => {
                let ghost unmined = block;
                block.hash = hash;
                block.nonce = nonce;
                assert forall|n: i64| #[trigger] block.nonce_meets_target(n, target_bits)
                    == unmined.nonce_meets_target(n, target_bits) by {
                    assert(block.pow_input_at(n, target_bits) == unmined.pow_input_at(
                        n,
                        target_bits,
                    ));
                }
                Ok(block)
            },
            Err(e) => {
                assert forall|n: i64| 0 <= n implies !#[trigger] meets_target(
                    sha256_of(pow_input(prev_block_hash@, data@, timestamp, target_bits, n)),
                    target_bits,
                ) by {
                    assert(!block.nonce_meets_target(n, target_bits));
                }
                Err(e)
            },
        }
    }

    /// Mines a block holding `data` after `prev_block_hash` at difficulty
    /// `target_bits`, stamped with the current time. It fails only where no
    /// nonce works for the time that was read.
    pub fn new_with_target_bits(data: Vec<u8>, prev_block_hash: Hash, target_bits: u16) -> (r:
        Result<Block, ChainError>)
        requires
            target_bits <= 256,
        ensures
            match r {
                Ok(b) => b.is_mined_from(data@, prev_block_hash@, target_bits),
                Err(e) => e == ChainError::NonceExhausted && exists|t: i64|
                    nonce_space_exhausted(prev_block_hash@, data@, t, target_bits),
            },
    {
        let timestamp = now_unix_timestamp();
        Block::mine_at(data, prev_block_hash, timestamp, target_bits)
    }

    /// Mines a block holding `data` after `prev_block_hash` at the chain's
    /// difficulty, stamped with the current time. It fails only where no
    /// nonce works for the time that was read.
    pub fn new(data: Vec<u8>, prev_block_hash: Hash) -> (r: Result<Block, ChainError>)
        ensures
            match r {
                Ok(b) => b.is_mined_from(data@, prev_block_hash@, TARGET_BITS),
                Err(e) => e == ChainError::NonceExhausted && exists|t: i64|
                    nonce_space_exhausted(prev_block_hash@, data@, t, TARGET_BITS),
            },
    {
        Block::new_with_target_bits(data, prev_block_hash, TARGET_BITS)
    }

    /// SHA-256 of the previous hash, the payload and the big-endian timestamp.
    pub fn hash(data: &[u8], prev_block_hash: &[u8], timestamp: i64) -> (r: Hash)
        ensures
            r@ == sha256_of(prev_block_hash@ + data@ + be_i64_bytes(timestamp)),
    {
        let mut input: Vec<u8> = Vec::new();
        push_bytes(&mut input, prev_block_hash);
        push_bytes(&mut input, data);
        push_be_i64(&mut input, timestamp);
        sha256_digest(input.as_slice())
    }
}

/// The payload of the first block of every chain.
pub const GENESIS_DATA: &'static str = "Genesis Block";

/// Thirty-two zero bytes: the previous hash of a first block.
pub open spec fn zero_hash() -> Seq<u8> {
    Seq::new(32, |i: int| 0u8)
}

/// Each block after the first names its predecessor's hash.
pub open spec fn linked(blocks: Seq<Block>) -> bool {
    forall|i: int|
        0 < i < blocks.len() ==> #[trigger] blocks[i].prev_block_hash@ == blocks[i - 1].hash@
}

/// An append-only sequence of blocks mined at one difficulty.
pub struct Blockchain {
    /// The blocks, first block at index zero.
    pub blocks: Vec<Block>,
    /// The difficulty at which new blocks are mined.
    pub target_bits: u16,
}

impl Blockchain {
    /// The chain's invariant: its first block names no predecessor, each
    /// later block names its predecessor's hash, and every block is sealed at
    /// the chain's difficulty.
    pub open spec fn well_formed(&self) -> bool {
        &&& self.target_bits <= 256
        &&& self.blocks@.len() > 0 ==> self.blocks@[0].prev_block_hash@ == zero_hash()
        &&& linked(self.blocks@)
        &&& forall|i: int|
            0 <= i < self.blocks@.len() ==> #[trigger] self.blocks@[i].is_sealed(self.target_bits)
    }

    /// A chain of one block, the first block, mined at difficulty `target_bits`.
    pub fn new_genesis_block_with_target_bits(target_bits: u16) -> (r: Result<
        Blockchain,
        ChainError,
    >)
        requires
            target_bits <= 256,
        ensures
            match r {
                Ok(c) => {
                    &&& c.target_bits == target_bits
                    &&& c.blocks@.len() == 1
                    &&& c.blocks@[0].is_mined_from(
                        GENESIS_DATA.spec_bytes(),
                        zero_hash(),
                        target_bits,
                    )
                    &&& linked(c.blocks@)
                    &&& c.well_formed()
                },
                Err(e) => e == ChainError::NonceExhausted && exists|t: i64|
                    nonce_space_exhausted(zero_hash(), GENESIS_DATA.spec_bytes(), t, target_bits),
            },
    {
        let data = GENESIS_DATA.as_bytes_vec();
        let zero: Hash = [0u8; 32];
        assert(zero@ =~= zero_hash());
        match Block::new_with_target_bits(data, zero, target_bits) {
            Ok(genesis) => {
                let mut blocks: Vec<Block> = Vec::new();
                blocks.push(genesis);
                let chain = Blockchain { blocks, target_bits };
                assert(chain.blocks@[0] == genesis);
                Ok(chain)
            },
            Err(e) => Err(e),
        }
    }

    /// A chain of one block, the first block, mined at the chain's difficulty.
    pub fn new_genesis_block() -> (r: Result<Blockchain, ChainError>)
        ensures
            match r {
                Ok(c) => {
                    &&& c.target_bits == TARGET_BITS
                    &&& c.blocks@.len() == 1
                    &&& c.blocks@[0].is_mined_from(
                        GENESIS_DATA.spec_bytes(),
                        zero_hash(),
                        TARGET_BITS,
                    )
                    &&& linked(c.blocks@)
                    &&& c.well_formed()
                },
                Err(e) => e == ChainError::NonceExhausted && exists|t: i64|
                    nonce_space_exhausted(zero_hash(), GENESIS_DATA.spec_bytes(), t, TARGET_BITS),
            },
    {
        Blockchain::new_genesis_block_with_target_bits(TARGET_BITS)
    }

    /// Mines a block holding the bytes of `data` after the last block and
    /// appends it; the chain is left as it was when that does not succeed.
    pub fn add_block(&mut self, data: String) -> (r: Result<(), ChainError>)
        requires
            old(self).target_bits <= 256,
        ensures
            final(self).target_bits == old(self).target_bits,
            old(self).blocks@.len() == 0 ==> r == Err::<(), ChainError>(ChainError::EmptyChain),
            r is Err ==> final(self).blocks@ == old(self).blocks@,
            old(self).blocks@.len() > 0 ==> match r {
                Ok(_) => {
                    &&& final(self).blocks@.len() == old(self).blocks@.len() + 1
                    &&& final(self).blocks@.drop_last() == old(self).blocks@
                    &&& final(self).blocks@.last().is_mined_from(
                        encode_utf8(data@),
                        old(self).blocks@.last().hash@,
                        old(self).target_bits,
                    )
                },
                Err(e) => e == ChainError::NonceExhausted && exists|t: i64|
                    nonce_space_exhausted(
                        old(self).blocks@.last().hash@,
                        encode_utf8(data@),
                        t,
                        old(self).target_bits,
                    ),
            },
            linked(old(self).blocks@) ==> linked(final(self).blocks@),
            old(self).well_formed() ==> final(self).well_formed(),
    {
        let len = self.blocks.len();
        if len == 0 {
            return Err(ChainError::EmptyChain);
        }
        let prev_hash = self.blocks[len - 1].hash;
        let bytes = data.as_str().as_bytes_vec();
        match Block::new_with_target_bits(bytes, prev_hash, self.target_bits) {
            Ok(block) => {
                self.blocks.push(block);
                proof {
                    assert(self.blocks@.drop_last() =~= old(self).blocks@);
                    if linked(old(self).blocks@) {
                        lemma_append_keeps_linked(old(self).blocks@, block);
                    }
                    assert(self.blocks@.last() == block);
                    assert forall|i: int| 0 <= i < old(self).blocks@.len() implies self.blocks@[i]
                        == old(self).blocks@[i] by {
                        assert(self.blocks@.drop_last()[i] == self.blocks@[i]);
                    }
                }
                Ok(())
            },
            Err(e) => {
                assert(prev_hash@ == old(self).blocks@.last().hash@);
                assert(bytes@ == encode_utf8(data@));
                Err(e)
            },
        }
    }
}

/// Appending to a linked chain a block that names the last block's hash gives
/// a linked chain.
pub proof fn lemma_append_keeps_linked(blocks: Seq<Block>, next: Block)
    requires
        linked(blocks),
        blocks.len() > 0,
        next.prev_block_hash@ == blocks.last().hash@,
    ensures
        linked(blocks.push(next)),
{
    let grown = blocks.push(next);
    assert forall|i: int| 0 < i < grown.len() implies #[trigger] grown[i].prev_block_hash@
        == grown[i - 1].hash@ by {
        if i < blocks.len() {
            assert(grown[i] == blocks[i]);
        }
    }
}

/// The text of a boolean.
pub open spec fn bool_text(b: bool) -> Seq<char> {
    if b {
        "true"@
    } else {
        "false"@
    }
}

/// The five lines that show a block, each ending in a newline; the last
/// tells whether its nonce meets a difficulty of `target_bits`.
pub open spec fn block_text(b: Block, target_bits: u16) -> Seq<char> {
    "Time: "@ + utc_time_text_of(b.timestamp) + "\nPrev. hash: "@ + hex_text(b.prev_block_hash@)
        + "\nData: "@ + utf8_lossy_text_of(b.data@) + "\nHash: "@ + hex_text(b.hash@)
        + "\nPoW: "@ + bool_text(b.is_valid(target_bits)) + "\n"@
}

/// The timestamp can be shown as a calendar date.
pub open spec fn displayable(b: Block) -> bool {
    MIN_DISPLAY_TIMESTAMP <= b.timestamp <= MAX_DISPLAY_TIMESTAMP
}

/// The blocks shown one after another, each followed by an empty line.
pub open spec fn chain_text(blocks: Seq<Block>, target_bits: u16) -> Seq<char>
    decreases blocks.len(),
{
    if blocks.len() == 0 {
        Seq::empty()
    } else {
        chain_text(blocks.drop_last(), target_bits) + block_text(blocks.last(), target_bits) + "\n"@
    }
}

impl Block {
    /// Shows the block: its time, previous hash, payload, hash, and whether
    /// its nonce meets the chain's difficulty, checked afresh.
    pub fn render(&self) -> (r: Result<String, ChainError>)
        ensures
            r is Ok <==> displayable(*self),
            r matches Ok(s) ==> s@ == block_text(*self, TARGET_BITS),
            r matches Err(e) ==> e == ChainError::TimestampFormatting,
    {
        self.render_with_target_bits(TARGET_BITS)
    }

    /// Shows the block: its time, previous hash, payload, hash, and whether
    /// its nonce meets a difficulty of `target_bits`, checked afresh.
    pub fn render_with_target_bits(&self, target_bits: u16) -> (r: Result<String, ChainError>)
        requires
            target_bits <= 256,
        ensures
            r is Ok <==> displayable(*self),
            r matches Ok(s) ==> s@ == block_text(*self, target_bits),
            r matches Err(e) ==> e == ChainError::TimestampFormatting,
    {
        let time = match format_unix_time(self.timestamp) {
            Some(t) => t,
            None => return Err(ChainError::TimestampFormatting),
        };
        let valid = ProofOfWork::with_target_bits(self, target_bits).validate();
        let mut s = String::from_str("Time: ");
        s.append(time.as_str());
        s.append("\nPrev. hash: ");
        s.append(hex_encode(&self.prev_block_hash).as_str());
        s.append("\nData: ");
        s.append(utf8_lossy(self.data.as_slice()).as_str());
        s.append("\nHash: ");
        s.append(hex_encode(&self.hash).as_str());
        s.append("\nPoW: ");
        s.append(if valid { "true" } else { "false" });
        s.append("\n");
        Ok(s)
    }
}

impl Blockchain {
    /// Shows every block in chain order, each followed by an empty line, each
    /// checked against the chain's difficulty.
    pub fn render(&self) -> (r: Result<String, ChainError>)
        requires
            self.target_bits <= 256,
        ensures
            r is Ok <==> forall|i: int| 0 <= i < self.blocks@.len() ==> displayable(#[trigger] self.blocks@[i]),
            r matches Ok(s) ==> s@ == chain_text(self.blocks@, self.target_bits),
            r matches Err(e) ==> e == ChainError::TimestampFormatting,
    {
        let mut s = String::new();
        let mut i: usize = 0;
        while i < self.blocks.len()
            invariant
                0 <= i <= self.blocks@.len(),
                self.target_bits <= 256,
                forall|j: int| 0 <= j < i ==> displayable(#[trigger] self.blocks@[j]),
                s@ == chain_text(self.blocks@.subrange(0, i as int), self.target_bits),
            decreases self.blocks@.len() - i,
        {
            let shown = match self.blocks[i].render_with_target_bits(self.target_bits) {
                Ok(t) => t,
                Err(e) => return Err(e),
            };
            s.append(shown.as_str());
            s.append("\n");
            proof {
                let head = self.blocks@.subrange(0, i + 1);
                assert(head.drop_last() =~= self.blocks@.subrange(0, i as int));
            }
            i = i + 1;
        }
        assert(self.blocks@.subrange(0, i as int) =~= self.blocks@);
        Ok(s)
    }
}

/// A block that mining produced validates: it carries the hash of its nonce,
/// and that nonce meets its difficulty.
pub proof fn lemma_mined_block_is_sealed(
    block: Block,
    data: Seq<u8>,
    prev_block_hash: Seq<u8>,
    target_bits: u16,
)
    requires
        block.is_mined_from(data, prev_block_hash, target_bits),
    ensures
        block.is_sealed(target_bits),
        block.is_valid(target_bits),
{
}

} // verus!
