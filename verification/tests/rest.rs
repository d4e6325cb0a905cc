//! Handlers of the REST interface.

use nexus_node::primitives::address::{AccountAddress, Amount, TokenId};
use nexus_node::primitives::digest::{Blake3Digest, TxDigest};
use nexus_node::primitives::ids::{
    CommitSequence, EpochNumber, ShardId, TimestampMs, ValidatorIndex,
};
use nexus_node::rpc::agent::IntentStatus;
use nexus_node::rpc::dto::{
    BlockDto, BlockHeaderDto, BlockReceiptsDto, ChainHeadDto, CompiledIntentPlan,
    ConsensusStatusDto, ContractEventDto, ContractQueryRequest, ContractQueryResponse,
    EpochHistoryResponse, EpochInfoDto, EpochTransitionDto, EventQueryResponse,
    ExecutionStatusDto, GasEstimate, HealthResponse, HtlcLockDto, HtlcPendingListDto,
    HtlcStatusDto, IntentStep, NetworkHealthResponse, NetworkPeerDto, NetworkPeersResponse,
    NetworkStatusResponse, TransactionReceiptDto, TxSummaryDto, ValidatorInfoDto,
};
use nexus_node::rpc::error::{IntentError, RpcError, RpcResult};
use nexus_node::rpc::intent_tracker::IntentTracker;
use nexus_node::rpc::mcp::schema::parse_digest;
use nexus_node::rpc::middleware::FaucetAddressLimiter;
use nexus_node::rpc::rest::account::account_balance;
use nexus_node::rpc::rest::backends::{
    BlockBackend, ConsensusBackend, EventBackend, HtlcBackend, NetworkBackend, QueryBackend,
};
use nexus_node::rpc::rest::block::{block_full, block_header, block_receipts, block_zk_proof};
use nexus_node::rpc::rest::chain::chain_head;
use nexus_node::rpc::rest::consensus::{
    advance_epoch, consensus_status, epoch_history, epoch_info, get_validator, list_validators,
    slash_validator,
};
use nexus_node::rpc::rest::contract::{contract_query, QueryRun};
use nexus_node::rpc::rest::events::{query_events, EventQueryParams};
use nexus_node::rpc::rest::faucet::{faucet_mint, synthetic_digest, FaucetRequest};
use nexus_node::rpc::rest::htlc::{htlc_by_digest, htlc_pending};
use nexus_node::rpc::rest::intent::{
    estimate_gas, intent_status, submit_intent, IntentSubmission, SubmitAction, SubmitReply,
};
use nexus_node::rpc::rest::network::{network_health, network_peers, network_status};
use nexus_node::rpc::rest::parse_address;
use nexus_node::rpc::rest::readiness::{health_check, readiness_check, readiness_reply};
use nexus_node::rpc::rest::shard::{shard_chain_head, shard_topology};
use nexus_node::rpc::rest::transaction::{
    resolve_target_shard, submit_tx, tx_status, SubmitRun,
};

fn status<T>(r: RpcResult<T>) -> u16 {
    match r {
        Ok(_) => 200,
        Err(e) => e.status_code(),
    }
}

/// A backend that knows some balances, receipts and a chain head.
struct MockQueryBackend {
    balances: Vec<(AccountAddress, TokenId, Amount)>,
    receipts: Vec<(TxDigest, TransactionReceiptDto)>,
    head: Option<ChainHeadDto>,
    health: &'static str,
}

impl MockQueryBackend {
    fn new() -> Self {
        MockQueryBackend { balances: vec![], receipts: vec![], head: None, health: "healthy" }
    }

    fn with_balance(mut self, address: AccountAddress, token: TokenId, amount: Amount) -> Self {
        self.balances.push((address, token, amount));
        self
    }

    fn with_receipt(mut self, digest: TxDigest, receipt: TransactionReceiptDto) -> Self {
        self.receipts.push((digest, receipt));
        self
    }
}

impl QueryBackend for MockQueryBackend {
    fn account_balance(&self, address: &AccountAddress, token: &TokenId) -> RpcResult<Amount> {
        self.balances
            .iter()
            .find(|(a, t, _)| a == address && t == token)
            .map(|(_, _, amount)| *amount)
            .ok_or(RpcError::NotFound("account".into()))
    }

    fn transaction_receipt(&self, digest: &TxDigest) -> RpcResult<Option<TransactionReceiptDto>> {
        Ok(self.receipts.iter().find(|(d, _)| d == digest).map(|(_, r)| r.clone()))
    }

    fn health_status(&self) -> HealthResponse {
        HealthResponse {
            status: self.health,
            version: "0.1.14",
            peers: 5,
            epoch: EpochNumber(1),
            latest_commit: CommitSequence(2),
            uptime_seconds: 3,
            subsystems: Vec::new(),
            reason: None,
        }
    }

    fn contract_query(&self, _: &ContractQueryRequest) -> RpcResult<ContractQueryResponse> {
        Err(RpcError::Unavailable("not used in test".into()))
    }

    fn chain_head(&self) -> RpcResult<Option<ChainHeadDto>> {
        Ok(self.head.clone())
    }

    fn faucet_mint(&self, _: &AccountAddress, _: u64) -> RpcResult<()> {
        Ok(())
    }
}

// ── accounts ──

#[test]
fn balance_returns_200_with_known_account() {
    let addr = AccountAddress([0xAA; 32]);
    let backend = MockQueryBackend::new().with_balance(addr, TokenId::Native, Amount(1_000_000));
    let dto = account_balance(&backend, &hex::encode(addr.0)).unwrap();
    assert_eq!(dto.address, addr);
    assert_eq!(dto.balances.len(), 1);
    assert_eq!(dto.balances[0].amount, Amount(1_000_000));
}

#[test]
fn balance_returns_404_for_unknown_account() {
    let r = account_balance(&MockQueryBackend::new(), &hex::encode([0xBB; 32]));
    assert_eq!(status(r), 404);
}

#[test]
fn balance_returns_400_for_invalid_hex() {
    assert_eq!(status(account_balance(&MockQueryBackend::new(), "not-hex")), 400);
}

#[test]
fn balance_returns_400_for_wrong_length() {
    let r = account_balance(&MockQueryBackend::new(), &hex::encode([0xCC; 16]));
    assert_eq!(status(r), 400);
}

#[test]
fn parse_address_valid() {
    let hex_str = hex::encode([0xDD; 32]);
    let result = parse_address(&hex_str);
    assert!(result.is_ok());
    assert_eq!(result.unwrap(), AccountAddress([0xDD; 32]));
}

#[test]
fn parse_address_invalid_hex() {
    let result = parse_address("zzzz");
    assert!(result.is_err());
}

#[test]
fn parse_address_wrong_length() {
    let hex_str = hex::encode([0xEE; 16]);
    let result = parse_address(&hex_str);
    assert!(result.is_err());
}

// ── blocks ──

fn sample_header(seq: u64) -> BlockHeaderDto {
    BlockHeaderDto {
        sequence: seq,
        anchor_digest: "aa".repeat(32),
        state_root: "bb".repeat(32),
        epoch: 1,
        cert_count: 3,
        tx_count: 2,
        gas_total: 5000,
        committed_at_ms: 1_700_000_000_000,
    }
}

/// A backend that knows block 1 only.
struct MockBlockBackend;

impl BlockBackend for MockBlockBackend {
    fn block_header(&self, seq: u64) -> RpcResult<BlockHeaderDto> {
        if seq == 1 {
            Ok(sample_header(1))
        } else {
            Err(RpcError::NotFound("block".into()))
        }
    }

    fn block_full(&self, seq: u64) -> RpcResult<BlockDto> {
        Ok(BlockDto {
            header: self.block_header(seq)?,
            transactions: vec![TxSummaryDto {
                tx_digest: "cc".repeat(32),
                gas_used: 2500,
                status: ExecutionStatusDto::Success,
            }],
        })
    }

    fn block_receipts(&self, seq: u64) -> RpcResult<BlockReceiptsDto> {
        self.block_header(seq)?;
        Ok(BlockReceiptsDto { block_seq: seq, receipts: Vec::new(), total_gas: 5000 })
    }
}

#[test]
fn block_header_returns_503_when_backend_absent() {
    assert_eq!(status(block_header(None::<&MockBlockBackend>, 1)), 503);
}

#[test]
fn block_full_returns_503_when_backend_absent() {
    assert_eq!(status(block_full(None::<&MockBlockBackend>, 1)), 503);
}

#[test]
fn block_header_returns_200_with_mock() {
    let header = block_header(Some(&MockBlockBackend), 1).unwrap();
    assert_eq!(header.sequence, 1);
    assert_eq!(header.epoch, 1);
    assert_eq!(header.tx_count, 2);
}

#[test]
fn block_full_returns_200_with_mock() {
    let block = block_full(Some(&MockBlockBackend), 1).unwrap();
    assert_eq!(block.header.sequence, 1);
    assert_eq!(block.transactions.len(), 1);
}

#[test]
fn block_receipts_returns_200_with_mock() {
    let receipts = block_receipts(Some(&MockBlockBackend), 1).unwrap();
    assert_eq!(receipts.block_seq, 1);
    assert_eq!(receipts.total_gas, 5000);
}

#[test]
fn block_not_found_returns_404() {
    assert_eq!(status(block_header(Some(&MockBlockBackend), 999)), 404);
}

#[test]
fn block_zk_proof_returns_503_stub() {
    assert_eq!(status(block_zk_proof(Some(&MockBlockBackend), 1)), 503);
}

// ── chain ──

#[test]
fn chain_head_returns_404_when_no_commits() {
    assert_eq!(status(chain_head(&MockQueryBackend::new())), 404);
}

#[test]
fn chain_head_returns_200_with_data() {
    let mut backend = MockQueryBackend::new();
    backend.head = Some(ChainHeadDto {
        sequence: 42,
        anchor_digest: "ab".repeat(32),
        state_root: "cd".repeat(32),
        epoch: 3,
        round: 100,
        cert_count: 4,
        tx_count: 10,
        gas_total: 50_000,
        committed_at_ms: 1_700_000_000_000,
    });
    let dto = chain_head(&backend).unwrap();
    assert_eq!(dto.sequence, 42);
    assert_eq!(dto.epoch, 3);
    assert_eq!(dto.tx_count, 10);
}

// ── consensus ──

fn sample_validator(index: u32) -> ValidatorInfoDto {
    ValidatorInfoDto {
        index: ValidatorIndex(index),
        public_key_hex: hex::encode([0xAA; 16]),
        stake: Amount(1_000_000),
        reputation: 9500,
        is_slashed: false,
        shard_id: Some(ShardId(0)),
    }
}

/// A backend that knows the validators, and leaves the rest to the defaults.
struct MockConsensusBackend {
    validators: Vec<ValidatorInfoDto>,
}

impl ConsensusBackend for MockConsensusBackend {
    fn active_validators(&self) -> RpcResult<Vec<ValidatorInfoDto>> {
        Ok(self.validators.clone())
    }

    fn validator_info(&self, index: ValidatorIndex) -> RpcResult<ValidatorInfoDto> {
        self.validators
            .iter()
            .find(|v| v.index == index)
            .cloned()
            .ok_or(RpcError::NotFound("validator".into()))
    }

    fn consensus_status(&self) -> RpcResult<ConsensusStatusDto> {
        Ok(ConsensusStatusDto {
            epoch: EpochNumber(5),
            dag_size: 128,
            total_commits: 1000,
            pending_commits: 3,
        })
    }
}

/// A backend that also knows the epochs.
struct EpochBackend;

impl ConsensusBackend for EpochBackend {
    fn active_validators(&self) -> RpcResult<Vec<ValidatorInfoDto>> {
        Ok(vec![])
    }

    fn validator_info(&self, _: ValidatorIndex) -> RpcResult<ValidatorInfoDto> {
        Err(RpcError::NotFound("validator".into()))
    }

    fn consensus_status(&self) -> RpcResult<ConsensusStatusDto> {
        Err(RpcError::Internal("unknown".into()))
    }

    fn epoch_info(&self) -> RpcResult<EpochInfoDto> {
        Ok(EpochInfoDto {
            epoch: EpochNumber(3),
            epoch_started_at: TimestampMs(1_700_000_000_000),
            committee_size: 7,
            epoch_commits: 500,
            epoch_length_commits: 10_000,
            epoch_length_seconds: 86_400,
        })
    }

    fn epoch_history(&self) -> RpcResult<EpochHistoryResponse> {
        Ok(EpochHistoryResponse {
            transitions: vec![EpochTransitionDto {
                from_epoch: EpochNumber(0),
                to_epoch: EpochNumber(1),
                trigger: "CommitThreshold".into(),
                final_commit_count: 10_000,
                transitioned_at: TimestampMs(1_700_000_000_000),
            }],
            total: 1,
        })
    }
}

#[test]
fn list_validators_returns_200() {
    let backend = MockConsensusBackend { validators: vec![sample_validator(0), sample_validator(1)] };
    let result = list_validators(Some(&backend)).unwrap();
    assert_eq!(result.len(), 2);
    assert_eq!(result[0].index, ValidatorIndex(0));
}

#[test]
fn get_validator_returns_200() {
    let backend = MockConsensusBackend { validators: vec![sample_validator(0)] };
    let result = get_validator(Some(&backend), 0).unwrap();
    assert_eq!(result.index, ValidatorIndex(0));
    assert_eq!(result.reputation, 9500);
}

#[test]
fn get_validator_returns_404_for_unknown() {
    let backend = MockConsensusBackend { validators: vec![] };
    assert_eq!(status(get_validator(Some(&backend), 99)), 404);
}

#[test]
fn consensus_status_returns_200() {
    let backend = MockConsensusBackend { validators: vec![] };
    let result = consensus_status(Some(&backend)).unwrap();
    assert_eq!(result.epoch, EpochNumber(5));
    assert_eq!(result.total_commits, 1000);
}

#[test]
fn list_validators_returns_503_when_no_backend() {
    assert_eq!(status(list_validators(None::<&MockConsensusBackend>)), 503);
}

#[test]
fn epoch_info_returns_200() {
    let result = epoch_info(Some(&EpochBackend)).unwrap();
    assert_eq!(result.epoch, EpochNumber(3));
    assert_eq!(result.committee_size, 7);
}

#[test]
fn epoch_info_returns_503_when_not_configured() {
    let backend = MockConsensusBackend { validators: vec![] };
    assert_eq!(status(epoch_info(Some(&backend))), 503);
}

#[test]
fn epoch_history_returns_200() {
    let result = epoch_history(Some(&EpochBackend)).unwrap();
    assert_eq!(result.total, 1);
    assert_eq!(result.transitions[0].to_epoch, EpochNumber(1));
}

#[test]
fn slash_validator_returns_503_when_no_backend() {
    assert_eq!(status(slash_validator(None::<&MockConsensusBackend>, 0, "test")), 503);
    assert_eq!(status(advance_epoch(None::<&MockConsensusBackend>, "test")), 503);
}

// ── contracts ──

fn answered(gas_used: u64) -> QueryRun {
    QueryRun::Answered(Ok(ContractQueryResponse {
        return_value: Some("00".into()),
        gas_used,
        gas_budget: 0,
    }))
}

#[test]
fn contract_query_rejects_when_gas_budget_exceeded() {
    assert_eq!(status(contract_query(answered(25), 1_000, 10)), 400);
}

#[test]
fn contract_query_times_out() {
    assert_eq!(status(contract_query(QueryRun::TimedOut, 5, 10)), 503);
}

#[test]
fn contract_query_passes_answers_within_the_budget() {
    let response = contract_query(answered(10), 1_000, 10).unwrap();
    assert_eq!(response.gas_used, 10);
    assert_eq!(response.return_value.as_deref(), Some("00"));
    assert_eq!(status(contract_query(QueryRun::Broken("panic".into()), 1_000, 10)), 500);
}

// ── events ──

fn sample_event() -> ContractEventDto {
    ContractEventDto {
        emitter: "aa".repeat(32),
        event_type: "0x1::coin::DepositEvent".into(),
        sequence_number: 0,
        data_hex: "deadbeef".into(),
        data_json: None,
        tx_digest: "cc".repeat(32),
        block_seq: 1,
        timestamp_ms: 1_700_000_000_000,
    }
}

/// A backend that answers with as many events as were asked for, up to those
/// it has.
struct MockEventBackend {
    events: Vec<ContractEventDto>,
}

impl EventBackend for MockEventBackend {
    fn query_events(
        &self,
        _contract: Option<AccountAddress>,
        _event_type: Option<&str>,
        _after_seq: Option<u64>,
        _before_seq: Option<u64>,
        limit: u32,
        _cursor: Option<&str>,
    ) -> RpcResult<EventQueryResponse> {
        Ok(EventQueryResponse {
            events: self.events.iter().take(limit as usize).cloned().collect(),
            next_cursor: None,
            has_more: false,
        })
    }
}

fn any_events() -> EventQueryParams {
    EventQueryParams {
        contract: None,
        event_type: None,
        after_seq: None,
        before_seq: None,
        limit: None,
        cursor: None,
    }
}

#[test]
fn events_returns_503_when_backend_absent() {
    assert_eq!(status(query_events(None::<&MockEventBackend>, &any_events())), 503);
}

#[test]
fn events_returns_200_with_results() {
    let backend = MockEventBackend { events: vec![sample_event()] };
    let result = query_events(Some(&backend), &any_events()).unwrap();
    assert_eq!(result.events.len(), 1);
    assert_eq!(result.events[0].event_type, "0x1::coin::DepositEvent");
    assert!(!result.has_more);
}

#[test]
fn events_returns_empty_result() {
    let backend = MockEventBackend { events: vec![] };
    assert!(query_events(Some(&backend), &any_events()).unwrap().events.is_empty());
}

#[test]
fn events_invalid_contract_address_returns_400() {
    let backend = MockEventBackend { events: vec![] };
    let mut params = any_events();
    params.contract = Some("not_hex".into());
    assert_eq!(status(query_events(Some(&backend), &params)), 400);
}

#[test]
fn events_with_query_params() {
    let backend = MockEventBackend { events: vec![sample_event()] };
    let mut params = any_events();
    params.limit = Some(10);
    params.after_seq = Some(0);
    params.before_seq = Some(100);
    assert_eq!(status(query_events(Some(&backend), &params)), 200);
}

#[test]
fn event_pages_are_limited() {
    let backend = MockEventBackend { events: vec![sample_event(); 300] };
    assert_eq!(query_events(Some(&backend), &any_events()).unwrap().events.len(), 50);
    let mut params = any_events();
    params.limit = Some(1_000);
    assert_eq!(query_events(Some(&backend), &params).unwrap().events.len(), 200);
}

// ── faucet ──

fn mint(enabled: bool, byte: u8, limiter: &mut Option<FaucetAddressLimiter>) -> u16 {
    let req = FaucetRequest { recipient: hex::encode([byte; 32]) };
    status(faucet_mint(
        &MockQueryBackend::new(),
        enabled,
        1_000_000,
        limiter,
        &req,
        1_000,
        1_000_000_000,
    ))
}

#[test]
fn faucet_returns_200_when_enabled() {
    let req = FaucetRequest { recipient: hex::encode([0xAA; 32]) };
    let resp = faucet_mint(
        &MockQueryBackend::new(),
        true,
        1_000_000,
        &mut None,
        &req,
        1_000,
        1_000_000_000,
    )
    .unwrap();
    assert_eq!(resp.amount, 1_000_000);
    assert!(!resp.tx_digest.is_empty());
    let digest = synthetic_digest(&AccountAddress([0xAA; 32]), 1_000_000, 1_000_000_000);
    assert_eq!(resp.tx_digest, hex::encode(digest));
}

#[test]
fn faucet_returns_400_when_disabled() {
    assert_eq!(mint(false, 0xBB, &mut None), 400);
}

#[test]
fn faucet_payments_are_limited_per_address() {
    let mut limiter = Some(FaucetAddressLimiter::new(1));
    assert_eq!(mint(true, 0xAA, &mut limiter), 200);
    assert_ne!(mint(true, 0xAA, &mut limiter), 200);
    assert_eq!(mint(true, 0xBB, &mut limiter), 200);
}

#[test]
fn payments_at_different_times_have_different_digests() {
    let address = AccountAddress([1; 32]);
    assert_ne!(synthetic_digest(&address, 5, 1), synthetic_digest(&address, 5, 2));
    assert_ne!(synthetic_digest(&address, 5, 1), synthetic_digest(&address, 6, 1));
}

// ── health ──

#[test]
fn health_returns_200() {
    assert_eq!(health_check(&MockQueryBackend::new()).peers, 5);
}

#[test]
fn health_returns_json() {
    let health = health_check(&MockQueryBackend::new());
    assert_eq!(health.status, "healthy");
    assert_eq!(health.version, "0.1.14");
}

#[test]
fn ready_returns_200_when_healthy() {
    let (code, reply) = readiness_check(&MockQueryBackend::new());
    assert_eq!(code, 200);
    assert!(reply.ready);
    assert!(reply.reason.is_none());
}

#[test]
fn nodes_that_are_not_ready_say_why() {
    let mut backend = MockQueryBackend::new();
    backend.health = "syncing";
    let (code, reply) = readiness_check(&backend);
    assert_eq!(code, 503);
    assert!(!reply.ready);
    assert_eq!(reply.status, "syncing");
    assert!(reply.reason.is_some());
    assert_eq!(readiness_reply("degraded").0, 200);
    assert_eq!(readiness_reply("halted").0, 503);
}

// ── hash time locks ──

fn sample_lock(digest_hex: &str) -> HtlcLockDto {
    HtlcLockDto {
        lock_digest: digest_hex.to_string(),
        sender: "aa".repeat(32),
        recipient: "bb".repeat(32),
        amount: 1_000_000,
        target_shard: 0,
        timeout_epoch: 10,
        status: HtlcStatusDto::Pending,
    }
}

struct MockHtlcBackend {
    locks: Vec<(Blake3Digest, HtlcLockDto)>,
    pending: Vec<HtlcLockDto>,
}

impl HtlcBackend for MockHtlcBackend {
    fn get_htlc_lock(&self, digest: &Blake3Digest) -> RpcResult<Option<HtlcLockDto>> {
        Ok(self.locks.iter().find(|(d, _)| d == digest).map(|(_, l)| l.clone()))
    }

    fn list_pending_htlc_locks(&self, limit: u32) -> RpcResult<HtlcPendingListDto> {
        let total = self.pending.len();
        Ok(HtlcPendingListDto {
            locks: self.pending.iter().take(limit as usize).cloned().collect(),
            total,
        })
    }
}

fn no_locks() -> MockHtlcBackend {
    MockHtlcBackend { locks: vec![], pending: vec![] }
}

#[test]
fn htlc_by_digest_returns_503_when_no_backend() {
    assert_eq!(status(htlc_by_digest(None::<&MockHtlcBackend>, &"aa".repeat(32))), 503);
}

#[test]
fn htlc_pending_returns_503_when_no_backend() {
    assert_eq!(status(htlc_pending(None::<&MockHtlcBackend>)), 503);
}

#[test]
fn htlc_by_digest_returns_200_when_found() {
    let digest_hex = "cc".repeat(32);
    let mut backend = no_locks();
    backend.locks.push((Blake3Digest([0xcc; 32]), sample_lock(&digest_hex)));
    let dto = htlc_by_digest(Some(&backend), &digest_hex).unwrap();
    assert_eq!(dto.lock_digest, digest_hex);
    assert_eq!(dto.amount, 1_000_000);
}

#[test]
fn htlc_by_digest_returns_404_when_not_found() {
    assert_eq!(status(htlc_by_digest(Some(&no_locks()), &"dd".repeat(32))), 404);
}

#[test]
fn htlc_by_digest_returns_400_for_invalid_hex() {
    assert_eq!(status(htlc_by_digest(Some(&no_locks()), "not-valid-hex")), 400);
}

#[test]
fn htlc_pending_returns_200_with_locks() {
    let mut backend = no_locks();
    backend.pending.push(sample_lock(&"ee".repeat(32)));
    let dto = htlc_pending(Some(&backend)).unwrap();
    assert_eq!(dto.total, 1);
    assert_eq!(dto.locks.len(), 1);
    assert_eq!(dto.locks[0].status, HtlcStatusDto::Pending);
}

#[test]
fn htlc_pending_returns_empty_list() {
    let dto = htlc_pending(Some(&no_locks())).unwrap();
    assert_eq!(dto.total, 0);
    assert!(dto.locks.is_empty());
}

// ── intents ──

fn sample_plan(steps: u8) -> CompiledIntentPlan {
    CompiledIntentPlan {
        intent_id: Blake3Digest([0xCC; 32]),
        steps: (0..steps).map(|b| IntentStep { digest: Blake3Digest([b; 32]) }).collect(),
        requires_htlc: false,
        estimated_gas: 10_000,
        expires_at: EpochNumber(100),
    }
}

fn poor() -> RpcError {
    RpcError::from_intent_error(&IntentError::InsufficientBalance, "poor".into())
}

/// Runs a submission to its end, and tells which steps were broadcast.
fn run(outcome: RpcResult<CompiledIntentPlan>, sent: &mut Vec<usize>) -> SubmitReply {
    let (submission, mut action) =
        IntentSubmission::compiled(Blake3Digest([0xCC; 32]), outcome, true);
    let mut submission = submission;
    loop {
        match action {
            SubmitAction::Finish(reply) => return reply,
            SubmitAction::Broadcast(i) => {
                sent.push(i);
                action = submission.as_mut().unwrap().broadcast(Ok(()));
            }
        }
    }
}

#[test]
fn submit_intent_returns_200() {
    let reply = run(Ok(sample_plan(1)), &mut vec![]);
    let response = reply.reply.unwrap();
    assert_eq!(response.intent_id, Blake3Digest([0xCC; 32]));
    assert_eq!(response.estimated_gas, 10_000);
}

#[test]
fn submit_intent_emits_submitted_event() {
    let dto = run(Ok(sample_plan(1)), &mut vec![]).event.unwrap();
    assert_eq!(dto.intent_id, Blake3Digest([0xCC; 32]));
    assert_eq!(dto.status, IntentStatus::Submitted { steps: 1 });
}

#[test]
fn submit_intent_returns_422_on_error() {
    assert_eq!(status(run(Err(poor()), &mut vec![]).reply), 422);
}

#[test]
fn submit_intent_broadcasts_compiled_transactions() {
    let mut sent = vec![];
    let reply = run(Ok(sample_plan(3)), &mut sent);
    assert!(reply.reply.is_ok());
    assert_eq!(sent, vec![0, 1, 2]);
    let (id, digests) = reply.register.unwrap();
    assert_eq!(id, Blake3Digest([0xCC; 32]));
    assert_eq!(digests.len(), 3);
}

#[test]
fn submit_intent_emits_failed_event() {
    let reply = run(Err(poor()), &mut vec![]);
    let dto = reply.event.unwrap();
    assert_eq!(dto.intent_id, Blake3Digest([0xCC; 32]));
    assert!(matches!(dto.status, IntentStatus::Failed { .. }));
    assert!(reply.register.is_none());
}

#[test]
fn a_failed_broadcast_ends_the_submission() {
    let id = Blake3Digest([0xCC; 32]);
    let (submission, action) = IntentSubmission::compiled(id, Ok(sample_plan(2)), true);
    assert!(matches!(action, SubmitAction::Broadcast(0)));
    match submission.unwrap().broadcast(Err(RpcError::Internal("down".into()))) {
        SubmitAction::Finish(reply) => {
            assert!(reply.reply.is_err());
            assert!(reply.register.is_none());
        }
        SubmitAction::Broadcast(_) => panic!("nothing more is broadcast"),
    }
    let (_, action) = IntentSubmission::compiled(id, Ok(sample_plan(2)), false);
    match action {
        SubmitAction::Finish(reply) => assert_eq!(status(reply.reply), 503),
        SubmitAction::Broadcast(_) => panic!("there is nobody to broadcast"),
    }
}

#[test]
fn estimate_gas_returns_200() {
    let estimate = GasEstimate {
        gas_units: 25_000,
        shards_touched: 1,
        requires_cross_shard: false,
    };
    let dto = estimate_gas(Some(Ok(estimate))).unwrap();
    assert_eq!(dto.gas_units, 25_000);
    assert!(!dto.requires_cross_shard);
    assert_eq!(status(estimate_gas(None)), 503);
}

#[test]
fn submit_intent_returns_503_when_no_backend() {
    assert_eq!(status(submit_intent(false)), 503);
    assert_eq!(status(submit_intent(true)), 200);
}

#[test]
fn intents_are_looked_up_by_their_digits() {
    let mut tracker = IntentTracker::new();
    tracker.register(Blake3Digest([0x0c; 32]), vec![Blake3Digest([1; 32])]);
    let dto = intent_status(Some(&tracker), &"0c".repeat(32)).unwrap();
    assert_eq!(dto.status, IntentStatus::Submitted { steps: 1 });
    assert_eq!(status(intent_status(Some(&tracker), &"0d".repeat(32))), 404);
    assert_eq!(status(intent_status(Some(&tracker), "0d")), 400);
    assert_eq!(status(intent_status(None, &"0c".repeat(32))), 503);
}

// ── network ──

struct MockNetworkBackend;

impl NetworkBackend for MockNetworkBackend {
    fn network_peers(&self) -> RpcResult<NetworkPeersResponse> {
        Ok(NetworkPeersResponse {
            peers: vec![NetworkPeerDto {
                peer_id: "abcd1234".into(),
                is_validator: true,
                stake: Some(1000),
                reputation: 50,
            }],
            total: 1,
        })
    }

    fn network_status(&self) -> RpcResult<NetworkStatusResponse> {
        Ok(NetworkStatusResponse {
            known_peers: 10,
            known_validators: 4,
            filled_buckets: 5,
            total_buckets: 256,
            routing_healthy: true,
        })
    }

    fn network_health(&self) -> RpcResult<NetworkHealthResponse> {
        Ok(NetworkHealthResponse {
            status: "healthy".into(),
            peer_count: 10,
            routing_healthy: true,
        })
    }
}

#[test]
fn peers_endpoint_returns_json() {
    let parsed = network_peers(Some(&MockNetworkBackend)).unwrap();
    assert_eq!(parsed.total, 1);
    assert!(parsed.peers[0].is_validator);
}

#[test]
fn status_endpoint_returns_json() {
    let parsed = network_status(Some(&MockNetworkBackend)).unwrap();
    assert_eq!(parsed.known_peers, 10);
    assert!(parsed.routing_healthy);
}

#[test]
fn health_endpoint_returns_json() {
    assert_eq!(network_health(Some(&MockNetworkBackend)).unwrap().status, "healthy");
}

#[test]
fn endpoints_return_503_without_backend() {
    let nobody = None::<&MockNetworkBackend>;
    assert_eq!(status(network_peers(nobody)), 503);
    assert_eq!(status(network_status(nobody)), 503);
    assert_eq!(status(network_health(nobody)), 503);
}

// ── shards ──

#[test]
fn shard_topology_returns_minimal_when_no_backend() {
    let dto = shard_topology(None::<&MockConsensusBackend>, 1).unwrap();
    assert_eq!(dto.num_shards, 1);
    assert_eq!(dto.shards.len(), 1);
    assert!(dto.shards[0].validators.is_empty());
}

#[test]
fn shard_chain_head_returns_503_when_no_backend() {
    assert_eq!(status(shard_chain_head(None::<&MockConsensusBackend>, 0, 1)), 503);
}

#[test]
fn shard_chain_head_returns_404_for_invalid_shard_id() {
    let backend = MockConsensusBackend { validators: vec![] };
    assert_eq!(status(shard_chain_head(Some(&backend), 5, 1)), 404);
}

#[test]
fn shard_topology_returns_200_with_consensus_backend() {
    let backend = MockConsensusBackend { validators: vec![] };
    assert_eq!(shard_topology(Some(&backend), 1).unwrap().num_shards, 1);
}

#[test]
fn minimal_topologies_list_every_shard() {
    let dto = shard_topology(None::<&MockConsensusBackend>, 3).unwrap();
    let ids: Vec<u16> = dto.shards.iter().map(|s| s.shard_id).collect();
    assert_eq!(ids, vec![0, 1, 2]);
}

// ── transactions ──

fn sample_receipt() -> TransactionReceiptDto {
    TransactionReceiptDto {
        tx_digest: Blake3Digest([0xAA; 32]),
        commit_seq: CommitSequence(42),
        shard_id: ShardId(0),
        status: ExecutionStatusDto::Success,
        gas_used: 5_000,
        timestamp: TimestampMs(1_700_000_000_000),
    }
}

#[test]
fn tx_status_returns_200_for_known_tx() {
    let backend = MockQueryBackend::new().with_receipt(Blake3Digest([0xAA; 32]), sample_receipt());
    let dto = tx_status(&backend, &hex::encode([0xAA; 32])).unwrap();
    assert_eq!(dto.tx_digest, Blake3Digest([0xAA; 32]));
    assert_eq!(dto.gas_used, 5_000);
}

#[test]
fn tx_status_returns_404_for_unknown_tx() {
    assert_eq!(status(tx_status(&MockQueryBackend::new(), &hex::encode([0xBB; 32]))), 404);
}

#[test]
fn tx_status_returns_400_for_invalid_hex() {
    assert_eq!(status(tx_status(&MockQueryBackend::new(), "not-valid-hex")), 400);
}

#[test]
fn parse_digest_valid() {
    let hex_str = hex::encode([0xDD; 32]);
    let result = parse_digest(&hex_str);
    assert!(result.is_ok());
    assert_eq!(result.unwrap(), Blake3Digest([0xDD; 32]));
}

#[test]
fn parse_digest_wrong_length() {
    let hex_str = hex::encode([0xEE; 16]);
    let result = parse_digest(&hex_str);
    assert!(result.is_err());
}

#[test]
fn submit_tx_returns_200_on_success() {
    let digest = Blake3Digest([7; 32]);
    let dto = submit_tx(digest, SubmitRun::Broadcast(Ok(()))).unwrap();
    assert_eq!(dto.tx_digest, digest);
    assert!(dto.accepted);
}

#[test]
fn submit_tx_returns_503_without_broadcaster() {
    let sender = AccountAddress([1; 32]);
    let r = resolve_target_shard(false, None, &sender, 1, |_: &AccountAddress, _| ShardId(0));
    assert_eq!(status(r), 503);
}

#[test]
fn submit_tx_forwards_bcs_payload_to_broadcaster() {
    let sender = AccountAddress([1; 32]);
    let derive = |_: &AccountAddress, num_shards: u16| ShardId(num_shards - 1);
    let derived = resolve_target_shard(true, None, &sender, 4, derive).unwrap();
    assert_eq!(derived, Some(ShardId(3)));
    let kept = resolve_target_shard(true, Some(ShardId(1)), &sender, 4, derive).unwrap();
    assert_eq!(kept, Some(ShardId(1)));
}

#[test]
fn submit_tx_returns_500_on_broadcast_failure() {
    let run = SubmitRun::Broadcast(Err(RpcError::Internal("network down".into())));
    assert_eq!(status(submit_tx(Blake3Digest([7; 32]), run)), 500);
    let run = SubmitRun::EncodeFailed("too deep".into());
    assert!(submit_tx(Blake3Digest([7; 32]), run).is_err());
}
