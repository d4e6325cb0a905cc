//! Primitive types shared by every other module.

pub mod address;
pub mod bcs_layout;
pub mod digest;
pub mod endian;
pub mod error;
pub mod hexadecimal;
pub mod ids;
pub mod laws;
pub mod lex;
pub mod table;
pub mod text;
pub mod traits;

pub use address::{AccountAddress, Amount, ContractAddress, TokenId};
pub use digest::{
    BatchDigest, Blake3Digest, BlockDigest, CertDigest, IntentId, StateRoot, TxDigest,
};
pub use error::{DigestDecodeError, NexusPrimitivesError};
pub use ids::{CommitSequence, EpochNumber, RoundNumber, ShardId, TimestampMs, ValidatorIndex};
pub use traits::ProtocolId;
