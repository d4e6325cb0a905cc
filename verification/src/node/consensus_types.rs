//! The part of the consensus state that the node reads.

use vstd::prelude::*;

use crate::primitives::{Amount, Blake3Digest, CommitSequence, ShardId, TimestampMs, ValidatorIndex};

verus! {

/// Reputation of a validator in ten-thousandths: zero is the lowest score,
/// ten thousand the highest.
#[derive(Clone, Copy, Debug, PartialEq, Eq, Structural, Hash, PartialOrd, Ord)]
pub struct ReputationScore(pub u16);

/// The highest reputation score.
pub const MAX_REPUTATION: u16 = 10_000;

impl ReputationScore {
    /// The lowest score.
    pub fn zero() -> (r: Self)
        ensures
            r.0 == 0,
    {
        ReputationScore(0)
    }

    /// A score from ten-thousandths; anything above the highest score is the
    /// highest score.
    pub fn from_basis_points(points: u16) -> (r: Self)
        ensures
            r.0 == if points <= MAX_REPUTATION {
                points
            } else {
                MAX_REPUTATION
            },
    {
        if points <= MAX_REPUTATION {
            ReputationScore(points)
        } else {
            ReputationScore(MAX_REPUTATION)
        }
    }
}

impl Default for ReputationScore {
    /// A validator starts with the highest score.
    fn default() -> (r: Self)
        ensures
            r.0 == MAX_REPUTATION,
    {
        ReputationScore(MAX_REPUTATION)
    }
}

/// A committee member as the consensus engine sees it.
#[derive(Clone, Debug, PartialEq, Eq)]
pub struct ValidatorInfo {
    /// Committee index.
    pub index: ValidatorIndex,
    /// Falcon verification key, as raw bytes.
    pub falcon_pub_key: Vec<u8>,
    /// Stake of the validator.
    pub stake: Amount,
    /// Reputation score.
    pub reputation: ReputationScore,
    /// Whether the validator has been slashed.
    pub is_slashed: bool,
    /// Assigned shard, if any.
    pub shard_id: Option<ShardId>,
}

/// A committed sub-DAG.
#[derive(Clone, Debug, PartialEq, Eq)]
pub struct CommittedBatch {
    /// Digest of the anchor certificate.
    pub anchor: Blake3Digest,
    /// Digests of the certificates in the sub-DAG.
    pub certificates: Vec<Blake3Digest>,
    /// Commit sequence number.
    pub sequence: CommitSequence,
    /// Time of the commit.
    pub committed_at: TimestampMs,
}

} // verus!
