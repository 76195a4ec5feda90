//! A small proof-of-work blockchain: blocks linked by hash, mined by a nonce
//! search against a fixed difficulty target and checked by a single hash.

pub mod external;

pub mod encoding;
pub mod pow;
pub mod types;

pub use pow::{calca_hash, hash_meets_target, ProofOfWork, TARGET_BITS};
pub use types::{Block, Blockchain, ChainError, GENESIS_DATA};
