//! What the endpoints take and return.
//!
//! These types keep the internal ones from the public surface: no private
//! keys and no internal state are exposed through them.

use vstd::prelude::*;
use vstd::string::*;

use crate::node::consensus_types::ValidatorInfo;
use crate::primitives::hexadecimal::{encode, hex_encode};
use crate::primitives::{
    AccountAddress, Amount, CommitSequence, EpochNumber, IntentId, ShardId, TimestampMs, TokenId,
    TxDigest, ValidatorIndex,
};
use crate::rpc::agent::IntentStatus;

verus! {

/// Response from the `/health` endpoint.
#[derive(Debug, Clone)]
pub struct HealthResponse {
    /// Service status: `"healthy"`, `"degraded"`, `"syncing"`,
    /// `"halted"`, or `"bootstrapping"`.
    pub status: &'static str,
    /// Software version.
    pub version: &'static str,
    /// Number of connected peers.
    pub peers: usize,
    /// Current epoch.
    pub epoch: EpochNumber,
    /// Latest commit sequence.
    pub latest_commit: CommitSequence,
    /// Seconds since the node process started.
    pub uptime_seconds: u64,
    /// Per-subsystem health breakdown (empty when unavailable).
    pub subsystems: Vec<SubsystemHealthDto>,
    /// Human-readable root cause when the node is not healthy.
    /// `None` when status is `"healthy"`.
    pub reason: Option<String>,
}

/// Health status of a single node subsystem.
#[derive(Debug, Clone)]
pub struct SubsystemHealthDto {
    /// Subsystem name (e.g. `"storage"`, `"consensus"`).
    pub name: &'static str,
    /// Status string: `"ready"`, `"starting"`, `"degraded"`, `"down"`.
    pub status: &'static str,
    /// Milliseconds since this subsystem last reported progress (0 = never).
    pub last_progress_ms: u64,
}

/// Account balance response.
#[derive(Debug, Clone, PartialEq, Eq)]
pub struct AccountBalanceDto {
    /// Account address (hex).
    pub address: AccountAddress,
    /// Per-token balances.
    pub balances: Vec<TokenBalanceDto>,
}

/// Balance for a single token.
#[derive(Debug, Clone, PartialEq, Eq)]
pub struct TokenBalanceDto {
    /// Token identifier.
    pub token: TokenId,
    /// Amount held.
    pub amount: Amount,
}

/// Transaction receipt returned by the query API.
#[derive(Debug, Clone)]
pub struct TransactionReceiptDto {
    /// Transaction digest (hex).
    pub tx_digest: TxDigest,
    /// Global commit sequence.
    pub commit_seq: CommitSequence,
    /// Shard that executed the transaction.
    pub shard_id: ShardId,
    /// Execution outcome.
    pub status: ExecutionStatusDto,
    /// Gas consumed.
    pub gas_used: u64,
    /// Execution timestamp (unix millis).
    pub timestamp: TimestampMs,
}

/// Execution outcome (safe: no internal state references).
#[derive(Debug, Clone, PartialEq, Eq)]
pub enum ExecutionStatusDto {
    /// Executed successfully.
    Success,
    /// Move VM abort.
    MoveAbort {
        /// Abort location.
        location: String,
        /// Abort code.
        code: u64,
    },
    /// Ran out of gas.
    OutOfGas,
    /// Invalid signature or digest.
    InvalidSignature,
    /// `sender_pk` does not derive to `body.sender`.
    SenderMismatch,
    /// Sequence number mismatch.
    SequenceNumberMismatch {
        /// Expected nonce.
        expected: u64,
        /// Actual nonce submitted.
        got: u64,
    },
    /// Transaction expired.
    Expired,
    /// Chain ID mismatch.
    ChainIdMismatch,
    /// HTLC lock not found.
    HtlcLockNotFound,
    /// HTLC already claimed.
    HtlcAlreadyClaimed,
    /// HTLC already refunded.
    HtlcAlreadyRefunded,
    /// HTLC preimage mismatch.
    HtlcPreimageMismatch,
    /// HTLC refund too early.
    HtlcRefundTooEarly,
}

/// Response returned after successfully submitting a transaction for broadcast.
#[derive(Debug, Clone, PartialEq, Eq)]
pub struct TxSubmitResponse {
    /// Digest of the accepted transaction (hex).
    pub tx_digest: TxDigest,
    /// Whether the transaction was accepted for broadcast.
    pub accepted: bool,
}

/// Intent submission response.
#[derive(Debug, Clone)]
pub struct IntentSubmitResponse {
    /// Unique intent identifier.
    pub intent_id: IntentId,
    /// Number of compiled execution steps.
    pub steps: usize,
    /// Transaction digests for each step (for tracking via `/v2/tx/{hash}`).
    pub tx_hashes: Vec<TxDigest>,
    /// Whether cross-shard HTLC coordination is needed.
    pub requires_htlc: bool,
    /// Estimated gas cost.
    pub estimated_gas: u64,
}

/// Gas estimation response.
#[derive(Debug, Clone, PartialEq, Eq)]
pub struct GasEstimateDto {
    /// Estimated gas units.
    pub gas_units: u64,
    /// Number of shards touched.
    pub shards_touched: u16,
    /// Whether cross-shard coordination is required.
    pub requires_cross_shard: bool,
}

/// Intent status query response.
#[derive(Debug, Clone, PartialEq, Eq)]
pub struct IntentStatusDto {
    /// Intent identifier.
    pub intent_id: IntentId,
    /// Current status.
    pub status: IntentStatus,
}

/// Public validator information (no private keys or internal state).
#[derive(Debug, Clone)]
pub struct ValidatorInfoDto {
    /// Committee index.
    pub index: ValidatorIndex,
    /// Public key hex (FALCON-512).
    pub public_key_hex: String,
    /// Staked amount.
    pub stake: Amount,
    /// Reputation score (0 to 1 in ten-thousandths).
    pub reputation: u16,
    /// Whether the validator has been slashed.
    pub is_slashed: bool,
    /// Assigned shard (if any).
    pub shard_id: Option<ShardId>,
}

/// Node-level consensus status for the `/health` or admin endpoints.
#[derive(Debug, Clone)]
pub struct ConsensusStatusDto {
    /// Current epoch.
    pub epoch: EpochNumber,
    /// DAG size (number of certificates).
    pub dag_size: usize,
    /// Total commits since genesis.
    pub total_commits: u64,
    /// Pending commits waiting for execution.
    pub pending_commits: usize,
}

/// Epoch information response from `/v2/consensus/epoch`.
#[derive(Debug, Clone)]
pub struct EpochInfoDto {
    /// Current epoch number.
    pub epoch: EpochNumber,
    /// Timestamp when this epoch started (ms since Unix epoch).
    pub epoch_started_at: TimestampMs,
    /// Number of validators in the current committee.
    pub committee_size: usize,
    /// Total commits in the current epoch so far.
    pub epoch_commits: u64,
    /// Configured maximum commits per epoch (0 = disabled).
    pub epoch_length_commits: u64,
    /// Configured maximum seconds per epoch (0 = disabled).
    pub epoch_length_seconds: u64,
}

/// Summary of a single epoch transition.
#[derive(Debug, Clone)]
pub struct EpochTransitionDto {
    /// Epoch that ended.
    pub from_epoch: EpochNumber,
    /// Epoch that started.
    pub to_epoch: EpochNumber,
    /// What triggered the transition.
    pub trigger: String,
    /// Total commits in the ending epoch.
    pub final_commit_count: u64,
    /// When the transition occurred (ms since Unix epoch).
    pub transitioned_at: TimestampMs,
}

/// Response from `GET /v2/admin/epoch/history`.
#[derive(Debug, Clone)]
pub struct EpochHistoryResponse {
    /// Epoch transitions in chronological order.
    pub transitions: Vec<EpochTransitionDto>,
    /// Total number of transitions since genesis.
    pub total: usize,
}

/// Request body for `POST /v2/admin/epoch/advance`.
#[derive(Debug, Clone)]
pub struct EpochAdvanceRequest {
    /// Reason for the manual advance (audit trail).
    pub reason: String,
}

/// Response from `POST /v2/admin/epoch/advance`.
#[derive(Debug, Clone)]
pub struct EpochAdvanceResponse {
    /// The transition that was executed.
    pub transition: EpochTransitionDto,
    /// New epoch number after the advance.
    pub new_epoch: EpochNumber,
}

/// Request body for `POST /v2/admin/validator/slash`.
#[derive(Debug, Clone)]
pub struct SlashValidatorRequest {
    /// Validator committee index to slash.
    pub validator_index: u32,
    /// Reason for slashing (audit trail).
    pub reason: String,
}

/// Response from `POST /v2/admin/validator/slash`.
#[derive(Debug, Clone)]
pub struct SlashValidatorResponse {
    /// Validator that was slashed.
    pub validator_index: u32,
    /// Whether the slash was applied (false if already slashed).
    pub applied: bool,
    /// Current epoch at the time of slashing.
    pub epoch: EpochNumber,
}

/// A single elected validator in an election result.
#[derive(Debug, Clone)]
pub struct ElectedValidatorDto {
    /// Hex-encoded account address (32 bytes).
    pub address_hex: String,
    /// Effective stake at election time.
    pub effective_stake: u64,
    /// Committee position assigned by the election.
    pub committee_index: u32,
}

/// Election result summary returned by query endpoints.
#[derive(Debug, Clone)]
pub struct ElectionResultDto {
    /// Epoch for which this committee was elected.
    pub for_epoch: EpochNumber,
    /// Epoch of the staking snapshot used as election input.
    pub snapshot_epoch: EpochNumber,
    /// Elected validators (ordered by committee index).
    pub elected: Vec<ElectedValidatorDto>,
    /// Total effective stake of all elected validators.
    pub total_effective_stake: u64,
    /// Whether this is a fallback (carry-forward) result.
    pub is_fallback: bool,
}

/// Current committee rotation policy configuration.
#[derive(Debug, Clone)]
pub struct RotationPolicyDto {
    /// Re-election happens every N epochs (0 = every epoch).
    pub election_epoch_interval: u64,
    /// Maximum committee size (0 = unlimited).
    pub max_committee_size: usize,
    /// Minimum committee size.
    pub min_committee_size: usize,
    /// Minimum total effective stake required for a valid election.
    pub min_total_effective_stake: u64,
    /// Whether slashed validators are excluded from election.
    pub exclude_slashed: bool,
    /// Minimum reputation score to be eligible.
    pub min_reputation_score: u16,
}

/// A single validator's staking state.
#[derive(Debug, Clone)]
pub struct StakingValidatorDto {
    /// Hex-encoded account address.
    pub address_hex: String,
    /// Total bonded stake.
    pub bonded: u64,
    /// Cumulative penalties.
    pub penalty_total: u64,
    /// Effective stake (bonded - penalty).
    pub effective_stake: u64,
    /// Status (0=Active, 1=Unbonding, 2=Withdrawn).
    pub status: u8,
    /// Whether slashed in consensus.
    pub is_slashed: bool,
    /// Reputation score (0 to 10000).
    pub reputation: u16,
}

/// Response from `GET /v2/staking/validators`.
#[derive(Debug, Clone)]
pub struct StakingValidatorsResponse {
    /// Current staking snapshot epoch.
    pub snapshot_epoch: EpochNumber,
    /// Staking validator records.
    pub validators: Vec<StakingValidatorDto>,
    /// Total active validators.
    pub active_count: usize,
    /// Total effective stake across all active validators.
    pub total_effective_stake: u64,
}

/// Peer information returned by `/v2/network/peers`.
#[derive(Debug, Clone)]
pub struct NetworkPeerDto {
    /// Hex-encoded Nexus PeerId (32 bytes).
    pub peer_id: String,
    /// Whether this peer is a known validator.
    pub is_validator: bool,
    /// Validator stake (if known).
    pub stake: Option<u64>,
    /// Local reputation score.
    pub reputation: u32,
}

/// Network peers listing response.
#[derive(Debug, Clone)]
pub struct NetworkPeersResponse {
    /// Known peers.
    pub peers: Vec<NetworkPeerDto>,
    /// Total number of known peers.
    pub total: usize,
}

/// Network status response from `/v2/network/status`.
#[derive(Debug, Clone)]
pub struct NetworkStatusResponse {
    /// Number of known peers in the routing table.
    pub known_peers: usize,
    /// Number of known validators.
    pub known_validators: usize,
    /// Number of filled Kademlia buckets.
    pub filled_buckets: usize,
    /// Total Kademlia buckets (256).
    pub total_buckets: usize,
    /// Whether the routing table is healthy.
    pub routing_healthy: bool,
}

/// Network health response from `/v2/network/health`.
#[derive(Debug, Clone)]
pub struct NetworkHealthResponse {
    /// Overall P2P layer status: `"healthy"`, `"degraded"`, or `"offline"`.
    pub status: String,
    /// Number of known peers.
    pub peer_count: usize,
    /// Whether DHT routing is healthy.
    pub routing_healthy: bool,
}

/// Response from `GET /v2/chain/head`: latest committed block summary.
#[derive(Debug, Clone)]
pub struct ChainHeadDto {
    /// Latest commit sequence number.
    pub sequence: u64,
    /// Hex-encoded anchor certificate digest.
    pub anchor_digest: String,
    /// Hex-encoded post-execution state root.
    pub state_root: String,
    /// Current epoch.
    pub epoch: u64,
    /// Current round.
    pub round: u64,
    /// Number of certificates in this commit.
    pub cert_count: usize,
    /// Number of transactions executed.
    pub tx_count: usize,
    /// Total gas consumed.
    pub gas_total: u64,
    /// Wall-clock commit timestamp (ms since Unix epoch).
    pub committed_at_ms: u64,
}

/// Request body for `POST /v2/contract/query`.
#[derive(Debug, Clone)]
pub struct ContractQueryRequest {
    /// Contract address (hex, 64 chars).
    pub contract: String,
    /// View function name (e.g. "counter::get_count").
    pub function: String,
    /// Type arguments (hex-encoded BCS tags).
    pub type_args: Vec<String>,
    /// BCS-encoded arguments (hex strings).
    pub args: Vec<String>,
}

/// Response from `POST /v2/contract/query`.
#[derive(Debug, Clone)]
pub struct ContractQueryResponse {
    /// Hex-encoded return value (if any).
    pub return_value: Option<String>,
    /// Gas consumed by the view function.
    pub gas_used: u64,
    /// Gas budget that was applied (0 = unbounded).
    pub gas_budget: u64,
}

/// Response from `GET /v2/sessions/:id`.
#[derive(Debug, Clone)]
pub struct SessionDto {
    /// Session ID (hex).
    pub session_id: String,
    /// Current lifecycle state.
    pub state: String,
    /// Creation timestamp (ms since epoch).
    pub created_at_ms: u64,
    /// Plan hash (hex, if bound).
    pub plan_hash: Option<String>,
    /// Confirmation reference (hex, if present).
    pub confirmation_ref: Option<String>,
}

/// Response from `GET /v2/sessions?active=true`.
#[derive(Debug, Clone)]
pub struct SessionListResponse {
    /// Sessions matching the query.
    pub sessions: Vec<SessionDto>,
    /// Total count.
    pub total: usize,
}

/// Response from `GET /v2/provenance/:digest`.
#[derive(Debug, Clone)]
pub struct ProvenanceRecordDto {
    /// Provenance record ID (hex).
    pub provenance_id: String,
    /// Session ID (hex).
    pub session_id: String,
    /// Agent address (hex).
    pub agent_id: String,
    /// Parent agent address (hex, if delegated).
    pub parent_agent_id: Option<String>,
    /// Intent hash (hex).
    pub intent_hash: String,
    /// Plan hash (hex).
    pub plan_hash: String,
    /// Transaction hash (hex, if executed).
    pub tx_hash: Option<String>,
    /// Status (Pending/Committed/Failed/Aborted/Expired).
    pub status: String,
    /// Creation timestamp (ms).
    pub created_at_ms: u64,
}

/// Paginated query response for provenance records.
#[derive(Debug, Clone)]
pub struct ProvenanceQueryResponse {
    /// Records matching the query.
    pub records: Vec<ProvenanceRecordDto>,
    /// Total matching count.
    pub total_count: u64,
    /// Cursor for next page (hex, if more results).
    pub cursor: Option<String>,
}

/// Request body for `POST /v2/state/proof`.
#[derive(Debug, Clone)]
pub struct StateProofRequest {
    /// Hex-encoded storage key to prove.
    pub key: String,
}

/// Request body for `POST /v2/state/proofs` (batch).
#[derive(Debug, Clone)]
pub struct BatchStateProofRequest {
    /// Hex-encoded storage keys to prove.
    pub keys: Vec<String>,
}

/// Response from `POST /v2/state/proof`.
#[derive(Debug, Clone)]
pub struct StateProofResponse {
    /// Hex-encoded commitment root at the time of proof.
    pub commitment_root: String,
    /// Hex-encoded value (if the key exists).
    pub value: Option<String>,
    /// Version of the proof format.
    pub proof_version: String,
    /// How keys and values are encoded.
    pub encoding_format: String,
    /// Merkle proof details.
    pub proof: MerkleProofDto,
}

/// Response from `POST /v2/state/proofs` (batch).
#[derive(Debug, Clone)]
pub struct BatchStateProofResponse {
    /// Hex-encoded commitment root at the time of proof.
    pub commitment_root: String,
    /// Version of the proof format.
    pub proof_version: String,
    /// How keys and values are encoded.
    pub encoding_format: String,
    /// Individual proofs.
    pub proofs: Vec<SingleProofDto>,
}

/// A single proof entry in a batch response.
#[derive(Debug, Clone)]
pub struct SingleProofDto {
    /// Hex-encoded key that was queried.
    pub key: String,
    /// Hex-encoded value (if the key exists).
    pub value: Option<String>,
    /// Merkle proof details.
    pub proof: MerkleProofDto,
}

/// Merkle proof details for RPC responses.
#[derive(Debug, Clone)]
pub struct MerkleProofDto {
    /// Proof semantic kind.
    pub proof_type: String,
    /// Total number of leaves.
    pub leaf_count: u64,
    /// Index of the leaf for inclusion proofs.
    pub leaf_index: Option<u64>,
    /// Hex-encoded sibling hashes for inclusion proofs (bottom-up).
    pub siblings: Vec<String>,
    /// Immediate predecessor witness for exclusion proofs.
    pub left_neighbor: Option<MerkleNeighborProofDto>,
    /// Immediate successor witness for exclusion proofs.
    pub right_neighbor: Option<MerkleNeighborProofDto>,
}

/// Neighbour witness details for exclusion proofs.
#[derive(Debug, Clone)]
pub struct MerkleNeighborProofDto {
    /// Hex-encoded witnessed key.
    pub key: String,
    /// Hex-encoded witnessed value.
    pub value: String,
    /// Index of the witnessed leaf.
    pub leaf_index: u64,
    /// Hex-encoded sibling hashes (bottom-up).
    pub siblings: Vec<String>,
}

/// Response from `GET /v2/state/commitment`.
#[derive(Debug, Clone)]
pub struct StateCommitmentDto {
    /// Hex-encoded primary commitment root.
    pub commitment_root: String,
    /// Hex-encoded backup tree root.
    pub backup_root: String,
    /// Number of entries in the commitment tree.
    pub entry_count: u64,
    /// Total state changes applied.
    pub updates_applied: u64,
    /// Epoch boundary checks passed.
    pub epoch_checks_passed: u64,
}

/// Response from `GET /v2/provenance/anchor/:digest`.
#[derive(Debug, Clone)]
pub struct AnchorReceiptDto {
    /// Batch sequence number.
    pub batch_seq: u64,
    /// Anchor digest (hex).
    pub anchor_digest: String,
    /// Transaction hash of the anchoring transaction (hex).
    pub tx_hash: String,
    /// Block height at which the anchor was included.
    pub block_height: u64,
    /// Timestamp of anchor inclusion (ms).
    pub anchored_at_ms: u64,
}

/// Response from `GET /v2/provenance/anchors`.
#[derive(Debug, Clone)]
pub struct AnchorReceiptListResponse {
    /// Anchor receipts (in batch-sequence order).
    pub receipts: Vec<AnchorReceiptDto>,
}

/// Response from `GET /v2/shards`: current shard topology.
#[derive(Debug, Clone, PartialEq)]
pub struct ShardTopologyDto {
    /// Total shard count for the network.
    pub num_shards: u16,
    /// Per-shard information.
    pub shards: Vec<ShardInfoDto>,
}

/// Per-shard summary.
#[derive(Debug, Clone, PartialEq)]
pub struct ShardInfoDto {
    /// Shard identifier.
    pub shard_id: u16,
    /// Validator indices that serve this shard.
    pub validators: Vec<u32>,
}

/// Response from `GET /v2/shards/{shard_id}/head`: per-shard chain head.
#[derive(Debug, Clone, PartialEq)]
pub struct ShardChainHeadDto {
    /// Shard identifier.
    pub shard_id: u16,
    /// Latest commit sequence that includes this shard.
    pub sequence: u64,
    /// Hex-encoded anchor digest.
    pub anchor_digest: String,
    /// Current epoch.
    pub epoch: u64,
}

/// Status of an HTLC lock.
#[derive(Debug, Clone, PartialEq)]
pub enum HtlcStatusDto {
    /// Lock is active, not yet claimed or refunded.
    Pending,
    /// Lock was claimed with preimage.
    Claimed,
    /// Lock was refunded after timeout.
    Refunded,
    /// Lock expired without action.
    Expired,
}

/// Single HTLC lock state.
#[derive(Debug, Clone, PartialEq)]
pub struct HtlcLockDto {
    /// Hex-encoded lock digest (32 bytes).
    pub lock_digest: String,
    /// Sender account address (hex).
    pub sender: String,
    /// Recipient account address (hex).
    pub recipient: String,
    /// Locked amount (smallest unit).
    pub amount: u64,
    /// Target shard for this lock.
    pub target_shard: u16,
    /// Epoch after which the lock can be refunded.
    pub timeout_epoch: u64,
    /// Current lock status.
    pub status: HtlcStatusDto,
}

/// Response from `GET /v2/htlc/pending`: list of pending HTLC locks.
#[derive(Debug, Clone, PartialEq)]
pub struct HtlcPendingListDto {
    /// Pending locks.
    pub locks: Vec<HtlcLockDto>,
    /// Total number of pending locks in the system.
    pub total: usize,
}

/// Internal transaction lifecycle snapshot used by benchmark tooling.
#[derive(Debug, Clone, PartialEq, Eq)]
pub struct TxLifecycleDto {
    /// Digest of the tracked transaction.
    pub tx_digest: TxDigest,
    /// Timestamp when `POST /v2/tx/submit` accepted the transaction.
    pub submit_accepted_at: Option<TimestampMs>,
    /// Timestamp when the local node admitted the transaction into mempool.
    pub mempool_admitted_at: Option<TimestampMs>,
    /// Timestamp when the transaction was included in a committed consensus batch.
    pub consensus_included_at: Option<TimestampMs>,
    /// Timestamp when the local receipt query path first observed the receipt.
    pub receipt_visible_at: Option<TimestampMs>,
}

/// Summary of a committed block.
#[derive(Debug, Clone)]
pub struct BlockHeaderDto {
    /// Commit sequence number.
    pub sequence: u64,
    /// Hex-encoded anchor certificate digest.
    pub anchor_digest: String,
    /// Hex-encoded post-execution state root.
    pub state_root: String,
    /// Epoch of the block.
    pub epoch: u64,
    /// Number of certificates in the block.
    pub cert_count: usize,
    /// Number of transactions in the block.
    pub tx_count: usize,
    /// Total gas consumed.
    pub gas_total: u64,
    /// Wall-clock commit timestamp (ms since Unix epoch).
    pub committed_at_ms: u64,
}

/// Summary of a transaction in a block.
#[derive(Debug, Clone)]
pub struct TxSummaryDto {
    /// Hex-encoded transaction digest.
    pub tx_digest: String,
    /// Gas consumed.
    pub gas_used: u64,
    /// Execution outcome.
    pub status: ExecutionStatusDto,
}

/// A block with its transactions.
#[derive(Debug, Clone)]
pub struct BlockDto {
    /// Summary of the block.
    pub header: BlockHeaderDto,
    /// The transactions in the block.
    pub transactions: Vec<TxSummaryDto>,
}

/// The receipts of the transactions in a block.
#[derive(Debug, Clone)]
pub struct BlockReceiptsDto {
    /// Commit sequence number of the block.
    pub block_seq: u64,
    /// The receipts.
    pub receipts: Vec<TransactionReceiptDto>,
    /// Total gas consumed.
    pub total_gas: u64,
}

/// A zero-knowledge proof of a block.
#[derive(Debug, Clone)]
pub struct ZkProofDto {
    /// Commit sequence number of the block.
    pub block_seq: u64,
    /// Hex-encoded proof.
    pub proof_hex: String,
}

/// An event that a contract emitted.
#[derive(Debug, Clone)]
pub struct ContractEventDto {
    /// Hex-encoded address of the contract.
    pub emitter: String,
    /// Event type tag.
    pub event_type: String,
    /// Position of the event among those of its transaction.
    pub sequence_number: u64,
    /// Hex-encoded event data.
    pub data_hex: String,
    /// Event data as JSON text, if it can be decoded.
    pub data_json: Option<String>,
    /// Hex-encoded digest of the transaction.
    pub tx_digest: String,
    /// Commit sequence number of the block.
    pub block_seq: u64,
    /// When the event was emitted (ms since Unix epoch).
    pub timestamp_ms: u64,
}

/// Response from `GET /v2/events`.
#[derive(Debug, Clone)]
pub struct EventQueryResponse {
    /// The events of this page.
    pub events: Vec<ContractEventDto>,
    /// Where the next page begins, if there is one.
    pub next_cursor: Option<String>,
    /// Whether there are more events.
    pub has_more: bool,
}

/// How the execution engine left a transaction.
#[derive(Debug, Clone, PartialEq, Eq)]
pub enum ExecutionStatus {
    /// Executed successfully.
    Success,
    /// The Move machine aborted.
    MoveAbort {
        /// Abort location.
        location: String,
        /// Abort code.
        code: u64,
    },
    /// Ran out of gas.
    OutOfGas,
    /// Invalid signature or digest.
    InvalidSignature,
    /// The sender's key does not derive the sender's address.
    SenderMismatch,
    /// The sequence number is not the next one.
    SequenceNumberMismatch {
        /// Expected nonce.
        expected: u64,
        /// Nonce submitted.
        got: u64,
    },
    /// The transaction expired.
    Expired,
    /// The transaction is for another chain.
    ChainIdMismatch,
    /// There is no such lock.
    HtlcLockNotFound,
    /// The lock was already claimed.
    HtlcAlreadyClaimed,
    /// The lock was already refunded.
    HtlcAlreadyRefunded,
    /// The preimage does not open the lock.
    HtlcPreimageMismatch,
    /// The lock cannot be refunded yet.
    HtlcRefundTooEarly,
}

/// What the execution engine reports of a transaction.
#[derive(Debug, Clone)]
pub struct TransactionReceipt {
    /// Digest of the transaction.
    pub tx_digest: TxDigest,
    /// Commit that included it.
    pub commit_seq: CommitSequence,
    /// Shard that executed it.
    pub shard_id: ShardId,
    /// How it was left.
    pub status: ExecutionStatus,
    /// Gas that it used.
    pub gas_used: u64,
    /// When it was executed.
    pub timestamp: TimestampMs,
}

/// A step of a compiled intent, by the digest of its transaction.
#[derive(Debug, Clone, Copy)]
pub struct IntentStep {
    /// Digest of the step's transaction.
    pub digest: TxDigest,
}

/// A compiled intent.
#[derive(Debug, Clone)]
pub struct CompiledIntentPlan {
    /// The intent.
    pub intent_id: IntentId,
    /// The steps to execute.
    pub steps: Vec<IntentStep>,
    /// Whether shards have to be coordinated by hashed time locks.
    pub requires_htlc: bool,
    /// Gas that the plan is expected to use.
    pub estimated_gas: u64,
    /// The epoch after which the plan is void.
    pub expires_at: EpochNumber,
}

/// What an intent is expected to cost.
#[derive(Debug, Clone, Copy)]
pub struct GasEstimate {
    /// Estimated gas units.
    pub gas_units: u64,
    /// Number of shards touched.
    pub shards_touched: u16,
    /// Whether shards have to be coordinated.
    pub requires_cross_shard: bool,
}

/// The public form of an execution status.
pub open spec fn public_status(s: ExecutionStatus) -> ExecutionStatusDto {
    match s {
        ExecutionStatus::Success => ExecutionStatusDto::Success,
        ExecutionStatus::MoveAbort { location, code } => ExecutionStatusDto::MoveAbort {
            location,
            code,
        },
        ExecutionStatus::OutOfGas => ExecutionStatusDto::OutOfGas,
        ExecutionStatus::InvalidSignature => ExecutionStatusDto::InvalidSignature,
        ExecutionStatus::SenderMismatch => ExecutionStatusDto::SenderMismatch,
        ExecutionStatus::SequenceNumberMismatch { expected, got } => {
            ExecutionStatusDto::SequenceNumberMismatch { expected, got }
        },
        ExecutionStatus::Expired => ExecutionStatusDto::Expired,
        ExecutionStatus::ChainIdMismatch => ExecutionStatusDto::ChainIdMismatch,
        ExecutionStatus::HtlcLockNotFound => ExecutionStatusDto::HtlcLockNotFound,
        ExecutionStatus::HtlcAlreadyClaimed => ExecutionStatusDto::HtlcAlreadyClaimed,
        ExecutionStatus::HtlcAlreadyRefunded => ExecutionStatusDto::HtlcAlreadyRefunded,
        ExecutionStatus::HtlcPreimageMismatch => ExecutionStatusDto::HtlcPreimageMismatch,
        ExecutionStatus::HtlcRefundTooEarly => ExecutionStatusDto::HtlcRefundTooEarly,
    }
}

impl From<ExecutionStatus> for ExecutionStatusDto {
    fn from(s: ExecutionStatus) -> (r: Self) {
        match s {
            ExecutionStatus::Success => ExecutionStatusDto::Success,
            ExecutionStatus::MoveAbort { location, code } => ExecutionStatusDto::MoveAbort {
                location,
                code,
            },
            ExecutionStatus::OutOfGas => ExecutionStatusDto::OutOfGas,
            ExecutionStatus::InvalidSignature => ExecutionStatusDto::InvalidSignature,
            ExecutionStatus::SenderMismatch => ExecutionStatusDto::SenderMismatch,
            ExecutionStatus::SequenceNumberMismatch { expected, got } => {
                ExecutionStatusDto::SequenceNumberMismatch { expected, got }
            },
            ExecutionStatus::Expired => ExecutionStatusDto::Expired,
            ExecutionStatus::ChainIdMismatch => ExecutionStatusDto::ChainIdMismatch,
            ExecutionStatus::HtlcLockNotFound => ExecutionStatusDto::HtlcLockNotFound,
            ExecutionStatus::HtlcAlreadyClaimed => ExecutionStatusDto::HtlcAlreadyClaimed,
            ExecutionStatus::HtlcAlreadyRefunded => ExecutionStatusDto::HtlcAlreadyRefunded,
            ExecutionStatus::HtlcPreimageMismatch => ExecutionStatusDto::HtlcPreimageMismatch,
            ExecutionStatus::HtlcRefundTooEarly => ExecutionStatusDto::HtlcRefundTooEarly,
        }
    }
}

impl vstd::std_specs::convert::FromSpecImpl<ExecutionStatus> for ExecutionStatusDto {
    open spec fn obeys_from_spec() -> bool {
        true
    }

    open spec fn from_spec(s: ExecutionStatus) -> Self {
        public_status(s)
    }
}

impl From<TransactionReceipt> for TransactionReceiptDto {
    fn from(r: TransactionReceipt) -> (dto: Self) {
        TransactionReceiptDto {
            tx_digest: r.tx_digest,
            commit_seq: r.commit_seq,
            shard_id: r.shard_id,
            status: ExecutionStatusDto::from(r.status),
            gas_used: r.gas_used,
            timestamp: r.timestamp,
        }
    }
}

impl vstd::std_specs::convert::FromSpecImpl<TransactionReceipt> for TransactionReceiptDto {
    open spec fn obeys_from_spec() -> bool {
        true
    }

    open spec fn from_spec(r: TransactionReceipt) -> Self {
        TransactionReceiptDto {
            tx_digest: r.tx_digest,
            commit_seq: r.commit_seq,
            shard_id: r.shard_id,
            status: public_status(r.status),
            gas_used: r.gas_used,
            timestamp: r.timestamp,
        }
    }
}

impl From<GasEstimate> for GasEstimateDto {
    fn from(e: GasEstimate) -> (r: Self) {
        GasEstimateDto {
            gas_units: e.gas_units,
            shards_touched: e.shards_touched,
            requires_cross_shard: e.requires_cross_shard,
        }
    }
}

impl vstd::std_specs::convert::FromSpecImpl<GasEstimate> for GasEstimateDto {
    open spec fn obeys_from_spec() -> bool {
        true
    }

    open spec fn from_spec(e: GasEstimate) -> Self {
        GasEstimateDto {
            gas_units: e.gas_units,
            shards_touched: e.shards_touched,
            requires_cross_shard: e.requires_cross_shard,
        }
    }
}

/// The digests of the transactions of `steps`.
pub open spec fn step_digests(steps: Seq<IntentStep>) -> Seq<TxDigest> {
    steps.map_values(|s: IntentStep| s.digest)
}

impl IntentSubmitResponse {
    /// What the sender of an intent is told of its plan.
    pub fn from(plan: CompiledIntentPlan) -> (r: Self)
        ensures
            r.intent_id == plan.intent_id,
            r.steps == plan.steps@.len(),
            r.tx_hashes@ == step_digests(plan.steps@),
            r.requires_htlc == plan.requires_htlc,
            r.estimated_gas == plan.estimated_gas,
    {
        let mut tx_hashes: Vec<TxDigest> = Vec::new();
        let mut i: usize = 0;
        while i < plan.steps.len()
            invariant
                0 <= i <= plan.steps@.len(),
                tx_hashes@.len() == i,
                forall|j: int| 0 <= j < i ==> tx_hashes@[j] == plan.steps@[j].digest,
            decreases plan.steps@.len() - i,
        {
            tx_hashes.push(plan.steps[i].digest);
            i = i + 1;
        }
        assert(tx_hashes@ =~= step_digests(plan.steps@));
        IntentSubmitResponse {
            intent_id: plan.intent_id,
            steps: plan.steps.len(),
            tx_hashes,
            requires_htlc: plan.requires_htlc,
            estimated_gas: plan.estimated_gas,
        }
    }
}

impl ValidatorInfoDto {
    /// What is public of a validator.
    pub fn from(v: ValidatorInfo) -> (r: Self)
        ensures
            r.index == v.index,
            r.public_key_hex@ == hex_encode(v.falcon_pub_key@),
            r.stake == v.stake,
            r.reputation == v.reputation.0,
            r.is_slashed == v.is_slashed,
            r.shard_id == v.shard_id,
    {
        ValidatorInfoDto {
            index: v.index,
            public_key_hex: encode(v.falcon_pub_key.as_slice()),
            stake: v.stake,
            reputation: v.reputation.0,
            is_slashed: v.is_slashed,
            shard_id: v.shard_id,
        }
    }
}

} // verus!
