//! What the endpoints ask of the node.
//!
//! A node implements these traits. Nothing is assumed of what an
//! implementation returns: two calls with the same arguments may differ.

use vstd::prelude::*;
use vstd::string::*;

use crate::primitives::{AccountAddress, Amount, Blake3Digest, TokenId, TxDigest, ValidatorIndex};
use crate::rpc::agent::{
    AgentEnvelope, AgentSession, AnchorReceipt, DispatchOutcome, ProvenanceQueryParams,
    ProvenanceQueryResult, ProvenanceRecord, ProvenanceStatus,
};
use crate::rpc::dto::{
    BlockDto, BlockHeaderDto, BlockReceiptsDto, ChainHeadDto, ConsensusStatusDto, ContractQueryRequest, ContractQueryResponse,
    ElectionResultDto, EpochAdvanceResponse, EpochHistoryResponse, EpochInfoDto, EventQueryResponse,
    HealthResponse,
    HtlcLockDto, HtlcPendingListDto, NetworkHealthResponse, NetworkPeersResponse,
    NetworkStatusResponse, RotationPolicyDto, ShardChainHeadDto, ShardTopologyDto,
    SlashValidatorResponse, StakingValidatorsResponse, StateCommitmentDto, TransactionReceiptDto,
    ValidatorInfoDto, ZkProofDto,
};
use crate::rpc::error::{IntentError, RpcError, RpcErrorView, RpcResult};

verus! {

/// Whether `r` reports that a service is not available, with the text `text`.
pub open spec fn not_available<T>(r: RpcResult<T>, text: Seq<char>) -> bool {
    r is Err && r->Err_0@ == RpcErrorView::Unavailable(text)
}

fn unavailable<T>(text: &str) -> (r: RpcResult<T>)
    ensures
        not_available(r, text@),
{
    Err(RpcError::Unavailable(text.to_owned()))
}

/// The agent engine.
pub trait DispatchBackend: Send + Sync {
    /// Carries out a request.
    fn dispatch(&self, envelope: &AgentEnvelope) -> (r: Result<DispatchOutcome, IntentError>);
}

/// Accounts and transactions.
pub trait QueryBackend: Send + Sync {
    /// The balance of an account.
    fn account_balance(&self, address: &AccountAddress, token: &TokenId) -> (r: RpcResult<Amount>);

    /// The receipt of a transaction.
    fn transaction_receipt(&self, digest: &TxDigest) -> (r: RpcResult<Option<TransactionReceiptDto>>);

    /// The health of the node.
    fn health_status(&self) -> (r: HealthResponse);

    /// Executes a read-only view function of a contract.
    fn contract_query(&self, request: &ContractQueryRequest) -> (r: RpcResult<ContractQueryResponse>);

    /// The latest committed block, if there is one.
    fn chain_head(&self) -> (r: RpcResult<Option<ChainHeadDto>>)
        default_ensures
            r is Ok,
            r->Ok_0 is None,
    {
        Ok(None)
    }

    /// Mints faucet tokens for an account.
    fn faucet_mint(&self, address: &AccountAddress, amount: u64) -> (r: RpcResult<()>)
        default_ensures
            not_available(r, "faucet not implemented"@),
    {
        unavailable("faucet not implemented")
    }
}

/// Consensus and validators.
pub trait ConsensusBackend: Send + Sync {
    /// The validators that are not slashed.
    fn active_validators(&self) -> (r: RpcResult<Vec<ValidatorInfoDto>>);

    /// A validator, by committee index.
    fn validator_info(&self, index: ValidatorIndex) -> (r: RpcResult<ValidatorInfoDto>);

    /// The status of the consensus engine.
    fn consensus_status(&self) -> (r: RpcResult<ConsensusStatusDto>);

    /// The current epoch.
    fn epoch_info(&self) -> (r: RpcResult<EpochInfoDto>)
        default_ensures
            not_available(r, "epoch info not available"@),
    {
        unavailable("epoch info not available")
    }

    /// The epoch transitions so far.
    fn epoch_history(&self) -> (r: RpcResult<EpochHistoryResponse>)
        default_ensures
            not_available(r, "epoch history not available"@),
    {
        unavailable("epoch history not available")
    }

    /// Advances the epoch by hand.
    fn advance_epoch(&self, reason: &str) -> (r: RpcResult<EpochAdvanceResponse>)
        default_ensures
            not_available(r, "epoch advance not available"@),
    {
        unavailable("epoch advance not available")
    }

    /// Slashes a validator.
    fn slash_validator(&self, index: ValidatorIndex, reason: &str) -> (r: RpcResult<SlashValidatorResponse>)
        default_ensures
            not_available(r, "slashing not available"@),
    {
        unavailable("slashing not available")
    }

    /// The latest election.
    fn election_result(&self) -> (r: RpcResult<ElectionResultDto>)
        default_ensures
            not_available(r, "election result not available"@),
    {
        unavailable("election result not available")
    }

    /// The committee rotation policy.
    fn rotation_policy(&self) -> (r: RpcResult<RotationPolicyDto>)
        default_ensures
            not_available(r, "rotation policy not available"@),
    {
        unavailable("rotation policy not available")
    }

    /// The staking records of the validators.
    fn staking_validators(&self) -> (r: RpcResult<StakingValidatorsResponse>)
        default_ensures
            not_available(r, "staking validators not available"@),
    {
        unavailable("staking validators not available")
    }

    /// The shards and the validators that serve them.
    fn shard_topology(&self) -> (r: RpcResult<ShardTopologyDto>)
        default_ensures
            not_available(r, "shard topology not available"@),
    {
        unavailable("shard topology not available")
    }

    /// The chain head of a shard.
    fn shard_chain_head(&self, shard_id: u16) -> (r: RpcResult<ShardChainHeadDto>)
        default_ensures
            not_available(r, "shard chain head not available"@),
    {
        unavailable("shard chain head not available")
    }
}

/// The peer-to-peer network.
pub trait NetworkBackend: Send + Sync {
    /// The known peers.
    fn network_peers(&self) -> (r: RpcResult<NetworkPeersResponse>);

    /// The health of the routing table.
    fn network_status(&self) -> (r: RpcResult<NetworkStatusResponse>);

    /// The health of the peer-to-peer network.
    fn network_health(&self) -> (r: RpcResult<NetworkHealthResponse>);
}

/// Hashed time locks.
pub trait HtlcBackend: Send + Sync {
    /// The lock with a digest, if there is one.
    fn get_htlc_lock(&self, digest: &Blake3Digest) -> (r: RpcResult<Option<HtlcLockDto>>);

    /// The pending locks, up to `limit`.
    fn list_pending_htlc_locks(&self, limit: u32) -> (r: RpcResult<HtlcPendingListDto>);
}

/// Committed blocks.
pub trait BlockBackend: Send + Sync {
    /// The summary of a block.
    fn block_header(&self, seq: u64) -> (r: RpcResult<BlockHeaderDto>);

    /// A block with its transactions.
    fn block_full(&self, seq: u64) -> (r: RpcResult<BlockDto>);

    /// The receipts of the transactions in a block.
    fn block_receipts(&self, seq: u64) -> (r: RpcResult<BlockReceiptsDto>);

    /// The zero-knowledge proof of a block.
    fn block_zk_proof(&self, seq: u64) -> (r: RpcResult<ZkProofDto>)
        default_ensures
            not_available(r, "zk proof not available"@),
    {
        unavailable("zk proof not available")
    }
}

/// Contract events.
pub trait EventBackend: Send + Sync {
    /// The events that match all given filters.
    fn query_events(
        &self,
        contract: Option<AccountAddress>,
        event_type: Option<&str>,
        after_seq: Option<u64>,
        before_seq: Option<u64>,
        limit: u32,
        cursor: Option<&str>,
    ) -> (r: RpcResult<EventQueryResponse>);
}

/// Sessions and the audit trail.
pub trait SessionProvenanceBackend: Send + Sync {
    /// The session with an identifier, if there is one.
    fn get_session(&self, session_id: &Blake3Digest) -> (r: Option<AgentSession>);

    /// The sessions that have not ended.
    fn active_sessions(&self) -> (r: Vec<AgentSession>);

    /// All sessions.
    fn all_sessions(&self) -> (r: Vec<AgentSession>);

    /// The record with an identifier, if there is one.
    fn get_provenance(&self, provenance_id: &Blake3Digest) -> (r: Option<ProvenanceRecord>);

    /// The records of an agent.
    fn query_provenance_by_agent(&self, agent: &AccountAddress, params: &ProvenanceQueryParams) -> (r:
        ProvenanceQueryResult);

    /// The records of a session.
    fn query_provenance_by_session(&self, session_id: &Blake3Digest, params: &ProvenanceQueryParams) -> (r:
        ProvenanceQueryResult);

    /// The records of a transaction.
    fn query_provenance_by_tx_hash(&self, tx_hash: &Blake3Digest, params: &ProvenanceQueryParams) -> (r:
        ProvenanceQueryResult);

    /// The records with a status.
    fn query_provenance_by_status(&self, status: ProvenanceStatus, params: &ProvenanceQueryParams) -> (r:
        ProvenanceQueryResult);

    /// All records in the order of time.
    fn provenance_activity_feed(&self, params: &ProvenanceQueryParams) -> (r: ProvenanceQueryResult);

    /// The receipt of an anchored batch, if there is one.
    fn get_anchor_receipt(&self, anchor_digest: &Blake3Digest) -> (r: Option<AnchorReceipt>);

    /// The receipts of anchored batches in batch order, up to `limit`.
    fn list_anchor_receipts(&self, limit: u32) -> (r: Vec<AnchorReceipt>);
}

/// The neighbour of an absent key, with its proof of inclusion.
#[derive(Debug, Clone)]
pub struct MerkleNeighborProof {
    /// Key of the neighbour.
    pub key: Vec<u8>,
    /// Value of the neighbour.
    pub value: Vec<u8>,
    /// Position of the neighbour's leaf.
    pub leaf_index: u64,
    /// Hashes of the siblings on the way to the root, bottom-up.
    pub siblings: Vec<Blake3Digest>,
}

/// A proof that a key is, or is not, in the committed state.
#[derive(Debug, Clone)]
pub enum MerkleProof {
    /// The key is in the state.
    Inclusion {
        /// Position of the key's leaf.
        leaf_index: u64,
        /// Number of leaves.
        leaf_count: u64,
        /// Hashes of the siblings on the way to the root, bottom-up.
        siblings: Vec<Blake3Digest>,
    },
    /// The key is not in the state.
    Exclusion {
        /// Number of leaves.
        leaf_count: u64,
        /// The greatest key below, if there is one.
        left_neighbor: Option<MerkleNeighborProof>,
        /// The least key above, if there is one.
        right_neighbor: Option<MerkleNeighborProof>,
    },
}

/// Proofs of the committed state.
pub trait StateProofBackend: Send + Sync {
    /// The current commitment.
    fn commitment_info(&self) -> (r: RpcResult<StateCommitmentDto>);

    /// The value of a key, if it has one, and the proof.
    fn prove_key(&self, key: &Vec<u8>) -> (r: RpcResult<(Option<Vec<u8>>, MerkleProof)>);

    /// The values of several keys and their proofs.
    fn prove_keys(&self, keys: &Vec<Vec<u8>>) -> (r: RpcResult<
        Vec<(Option<Vec<u8>>, MerkleProof)>,
    >);

    /// The root of the current commitment.
    fn commitment_root(&self) -> (r: RpcResult<Blake3Digest>);
}

} // verus!
