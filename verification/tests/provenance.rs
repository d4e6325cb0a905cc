//! Sessions, provenance, state proofs, subscriptions and the service builder.

use nexus_node::primitives::address::{AccountAddress, Amount, TokenId};
use nexus_node::primitives::digest::{Blake3Digest, TxDigest};
use nexus_node::primitives::ids::{CommitSequence, EpochNumber, TimestampMs};
use nexus_node::rpc::agent::{
    AgentSession, AnchorReceipt, IntentStatus, ProvenanceQueryParams, ProvenanceQueryResult,
    ProvenanceRecord, ProvenanceStatus, SessionState,
};
use nexus_node::rpc::dto::{
    BatchStateProofRequest, ContractQueryRequest, ContractQueryResponse, HealthResponse,
    IntentStatusDto, StateCommitmentDto, StateProofRequest, TransactionReceiptDto,
};
use nexus_node::rpc::error::{RpcError, RpcResult};
use nexus_node::rpc::intent_tracker::IntentTracker;
use nexus_node::rpc::json::{JsonNumber, JsonValue};
use nexus_node::rpc::middleware::{IpAddress, QuotaManager};
use nexus_node::rpc::rest::backends::{
    MerkleNeighborProof, MerkleProof, QueryBackend, SessionProvenanceBackend, StateProofBackend,
};
use nexus_node::rpc::rest::proofs::{
    batch_state_proof, merkle_proof_to_dto, state_commitment, state_proof,
};
use nexus_node::rpc::rest::provenance::{
    get_anchor_receipt, get_provenance, list_anchor_receipts, parse_provenance_status,
    query_provenance, AnchorListParams, ProvenanceFeedParams,
};
use nexus_node::rpc::rest::session::{get_session, list_sessions, SessionListParams};
use nexus_node::rpc::server::{ListenAddress, RpcService};
use nexus_node::rpc::tx_lifecycle::TxLifecycleRegistry;
use nexus_node::rpc::ws::{
    connection_closed, connection_opened, handle_ws, lag_warning, matches_filter,
    wait_for_subscribe, ws_upgrade, FirstMessage, NodeEvent, SubscribeRequest, WsAction, WsInput,
};
use std::sync::Arc;

fn status<T>(r: RpcResult<T>) -> u16 {
    match r {
        Ok(_) => 200,
        Err(e) => e.status_code(),
    }
}

struct MockSessionProvenanceBackend {
    sessions: Vec<AgentSession>,
    records: Vec<ProvenanceRecord>,
    receipts: Vec<AnchorReceipt>,
}

impl MockSessionProvenanceBackend {
    fn new() -> Self {
        MockSessionProvenanceBackend { sessions: vec![], records: vec![], receipts: vec![] }
    }

    fn with_session(mut self, session: AgentSession) -> Self {
        self.sessions.push(session);
        self
    }

    fn with_provenance(mut self, record: ProvenanceRecord) -> Self {
        self.records.push(record);
        self
    }

    fn page(&self, keep: impl Fn(&ProvenanceRecord) -> bool, limit: u32) -> ProvenanceQueryResult {
        let records: Vec<ProvenanceRecord> =
            self.records.iter().filter(|r| keep(r)).take(limit as usize).cloned().collect();
        ProvenanceQueryResult {
            total_count: records.len() as u64,
            cursor: records.last().map(|r| r.provenance_id),
            records,
        }
    }
}

impl SessionProvenanceBackend for MockSessionProvenanceBackend {
    fn get_session(&self, session_id: &Blake3Digest) -> Option<AgentSession> {
        self.sessions.iter().find(|s| s.session_id == *session_id).cloned()
    }

    fn active_sessions(&self) -> Vec<AgentSession> {
        self.sessions
            .iter()
            .filter(|s| {
                !["Finalized", "Aborted", "Expired"].contains(&s.current_state.name.as_str())
            })
            .cloned()
            .collect()
    }

    fn all_sessions(&self) -> Vec<AgentSession> {
        self.sessions.clone()
    }

    fn get_provenance(&self, provenance_id: &Blake3Digest) -> Option<ProvenanceRecord> {
        self.records.iter().find(|r| r.provenance_id == *provenance_id).cloned()
    }

    fn query_provenance_by_agent(
        &self,
        agent: &AccountAddress,
        params: &ProvenanceQueryParams,
    ) -> ProvenanceQueryResult {
        self.page(|r| r.agent_id == *agent, params.limit)
    }

    fn query_provenance_by_session(
        &self,
        session_id: &Blake3Digest,
        params: &ProvenanceQueryParams,
    ) -> ProvenanceQueryResult {
        self.page(|r| r.session_id == *session_id, params.limit)
    }

    fn query_provenance_by_tx_hash(
        &self,
        tx_hash: &Blake3Digest,
        params: &ProvenanceQueryParams,
    ) -> ProvenanceQueryResult {
        self.page(|r| r.tx_hash == Some(*tx_hash), params.limit)
    }

    fn query_provenance_by_status(
        &self,
        status: ProvenanceStatus,
        params: &ProvenanceQueryParams,
    ) -> ProvenanceQueryResult {
        self.page(|r| r.status == status, params.limit)
    }

    fn provenance_activity_feed(&self, params: &ProvenanceQueryParams) -> ProvenanceQueryResult {
        self.page(|_| true, params.limit)
    }

    fn get_anchor_receipt(&self, anchor_digest: &Blake3Digest) -> Option<AnchorReceipt> {
        self.receipts.iter().find(|r| r.anchor_digest == *anchor_digest).cloned()
    }

    fn list_anchor_receipts(&self, limit: u32) -> Vec<AnchorReceipt> {
        self.receipts.iter().take(limit as usize).cloned().collect()
    }
}

// ── sessions ──

fn sample_session(id_byte: u8, state: &str) -> AgentSession {
    AgentSession {
        session_id: Blake3Digest([id_byte; 32]),
        created_at_ms: TimestampMs(1_700_000_000_000),
        replay_window_ms: 60_000,
        current_state: SessionState { name: state.to_owned() },
        plan_hash: None,
        confirmation_ref: None,
    }
}

#[test]
fn session_returns_503_when_backend_absent() {
    let nobody = None::<&MockSessionProvenanceBackend>;
    assert_eq!(status(get_session(nobody, &"aa".repeat(32))), 503);
}

#[test]
fn get_session_returns_200() {
    let backend =
        MockSessionProvenanceBackend::new().with_session(sample_session(0xaa, "Received"));
    let id_hex = "aa".repeat(32);
    let dto = get_session(Some(&backend), &id_hex).unwrap();
    assert_eq!(dto.session_id, id_hex);
    assert_eq!(dto.state, "Received");
}

#[test]
fn session_not_found_returns_404() {
    let backend = MockSessionProvenanceBackend::new();
    assert_eq!(status(get_session(Some(&backend), &"ff".repeat(32))), 404);
}

#[test]
fn session_invalid_hex_returns_400() {
    let backend = MockSessionProvenanceBackend::new();
    assert_eq!(status(get_session(Some(&backend), "not_valid_hex")), 400);
}

#[test]
fn list_sessions_returns_all() {
    let backend = MockSessionProvenanceBackend::new()
        .with_session(sample_session(0xaa, "Received"))
        .with_session(sample_session(0xbb, "Finalized"));
    let list = list_sessions(Some(&backend), &SessionListParams { active: false }).unwrap();
    assert_eq!(list.total, 2);
    assert_eq!(list.sessions.len(), 2);
}

#[test]
fn list_active_sessions_filters_terminal() {
    let backend = MockSessionProvenanceBackend::new()
        .with_session(sample_session(0xaa, "Received"))
        .with_session(sample_session(0xbb, "Finalized"))
        .with_session(sample_session(0xcc, "Aborted"));
    let list = list_sessions(Some(&backend), &SessionListParams { active: true }).unwrap();
    assert_eq!(list.total, 1);
    assert_eq!(list.sessions[0].state, "Received");
}

// ── provenance ──

fn sample_record(id_byte: u8, status: ProvenanceStatus) -> ProvenanceRecord {
    ProvenanceRecord {
        provenance_id: Blake3Digest([id_byte; 32]),
        session_id: Blake3Digest([0x01; 32]),
        request_id: Blake3Digest([0x02; 32]),
        agent_id: AccountAddress([0x10; 32]),
        parent_agent_id: None,
        capability_token_id: None,
        intent_hash: Blake3Digest([0x03; 32]),
        plan_hash: Blake3Digest([0x04; 32]),
        confirmation_ref: None,
        tx_hash: Some(Blake3Digest([0x05; 32])),
        status,
        created_at_ms: TimestampMs(1_700_000_000_000),
    }
}

fn feed() -> ProvenanceFeedParams {
    ProvenanceFeedParams {
        agent: None,
        session: None,
        tx_hash: None,
        status: None,
        limit: None,
        cursor: None,
        after_ms: None,
        before_ms: None,
    }
}

fn two_records() -> MockSessionProvenanceBackend {
    MockSessionProvenanceBackend::new()
        .with_provenance(sample_record(0xaa, ProvenanceStatus::Committed))
        .with_provenance(sample_record(0xbb, ProvenanceStatus::Pending))
}

#[test]
fn provenance_returns_503_when_backend_absent() {
    let nobody = None::<&MockSessionProvenanceBackend>;
    assert_eq!(status(get_provenance(nobody, &"aa".repeat(32))), 503);
}

#[test]
fn get_provenance_returns_200() {
    let id_hex = "aa".repeat(32);
    let dto = get_provenance(Some(&two_records()), &id_hex).unwrap();
    assert_eq!(dto.provenance_id, id_hex);
    assert_eq!(dto.status, "Committed");
    assert_eq!(dto.tx_hash, Some("05".repeat(32)));
    assert_eq!(dto.parent_agent_id, None);
}

#[test]
fn provenance_not_found_returns_404() {
    let backend = MockSessionProvenanceBackend::new();
    assert_eq!(status(get_provenance(Some(&backend), &"ff".repeat(32))), 404);
}

#[test]
fn provenance_invalid_hex_returns_400() {
    let backend = MockSessionProvenanceBackend::new();
    assert_eq!(status(get_provenance(Some(&backend), "not_hex")), 400);
}

#[test]
fn query_by_agent_returns_results() {
    let backend = MockSessionProvenanceBackend::new()
        .with_provenance(sample_record(0xaa, ProvenanceStatus::Committed));
    let mut params = feed();
    params.agent = Some("10".repeat(32));
    assert_eq!(query_provenance(Some(&backend), &params).unwrap().records.len(), 1);
    params.agent = Some("11".repeat(32));
    assert_eq!(query_provenance(Some(&backend), &params).unwrap().records.len(), 0);
}

#[test]
fn query_by_status_filters() {
    let mut params = feed();
    params.status = Some("Committed".into());
    let result = query_provenance(Some(&two_records()), &params).unwrap();
    assert_eq!(result.records.len(), 1);
    assert_eq!(result.records[0].status, "Committed");
}

#[test]
fn query_activity_feed_returns_all() {
    let result = query_provenance(Some(&two_records()), &feed()).unwrap();
    assert_eq!(result.records.len(), 2);
    assert_eq!(result.cursor, Some("bb".repeat(32)));
}

#[test]
fn query_invalid_status_returns_400() {
    let mut params = feed();
    params.status = Some("InvalidStatus".into());
    assert_eq!(status(query_provenance(Some(&two_records()), &params)), 400);
}

#[test]
fn queries_by_session_and_transaction() {
    let mut params = feed();
    params.session = Some("01".repeat(32));
    assert_eq!(query_provenance(Some(&two_records()), &params).unwrap().records.len(), 2);
    let mut params = feed();
    params.tx_hash = Some("06".repeat(32));
    assert_eq!(query_provenance(Some(&two_records()), &params).unwrap().records.len(), 0);
    assert!(parse_provenance_status("Expired").is_ok());
    assert!(parse_provenance_status("expired").is_err());
}

#[test]
fn anchor_receipts_are_listed_and_found() {
    let mut backend = MockSessionProvenanceBackend::new();
    for b in 1..=3u8 {
        backend.receipts.push(AnchorReceipt {
            batch_seq: b as u64,
            anchor_digest: Blake3Digest([b; 32]),
            tx_hash: Blake3Digest([0x20 + b; 32]),
            block_height: 100 + b as u64,
            anchored_at_ms: TimestampMs(9),
        });
    }
    let dto = get_anchor_receipt(Some(&backend), &"02".repeat(32)).unwrap();
    assert_eq!(dto.batch_seq, 2);
    assert_eq!(dto.tx_hash, "22".repeat(32));
    assert_eq!(status(get_anchor_receipt(Some(&backend), &"09".repeat(32))), 404);
    let list = list_anchor_receipts(Some(&backend), &AnchorListParams { limit: Some(2) }).unwrap();
    assert_eq!(list.receipts.len(), 2);
    let nobody = None::<&MockSessionProvenanceBackend>;
    assert_eq!(status(list_anchor_receipts(nobody, &AnchorListParams { limit: None })), 503);
}

// ── state proofs ──

/// A backend over sorted entries, which proves with made-up siblings.
struct MockStateProofBackend {
    entries: Vec<(Vec<u8>, Vec<u8>)>,
}

impl MockStateProofBackend {
    fn new(entries: &[(&[u8], &[u8])]) -> Self {
        MockStateProofBackend {
            entries: entries.iter().map(|(k, v)| (k.to_vec(), v.to_vec())).collect(),
        }
    }

    fn neighbor(&self, i: usize) -> MerkleNeighborProof {
        MerkleNeighborProof {
            key: self.entries[i].0.clone(),
            value: self.entries[i].1.clone(),
            leaf_index: i as u64,
            siblings: vec![Blake3Digest([i as u8; 32])],
        }
    }
}

impl StateProofBackend for MockStateProofBackend {
    fn commitment_info(&self) -> RpcResult<StateCommitmentDto> {
        Ok(StateCommitmentDto {
            commitment_root: "77".repeat(32),
            backup_root: "77".repeat(32),
            entry_count: self.entries.len() as u64,
            updates_applied: self.entries.len() as u64,
            epoch_checks_passed: 0,
        })
    }

    fn prove_key(&self, key: &Vec<u8>) -> RpcResult<(Option<Vec<u8>>, MerkleProof)> {
        let leaf_count = self.entries.len() as u64;
        match self.entries.binary_search_by(|(k, _)| k.cmp(key)) {
            Ok(i) => Ok((
                Some(self.entries[i].1.clone()),
                MerkleProof::Inclusion {
                    leaf_index: i as u64,
                    leaf_count,
                    siblings: vec![Blake3Digest([0x33; 32])],
                },
            )),
            Err(i) => Ok((
                None,
                MerkleProof::Exclusion {
                    leaf_count,
                    left_neighbor: if i > 0 { Some(self.neighbor(i - 1)) } else { None },
                    right_neighbor: if i < self.entries.len() {
                        Some(self.neighbor(i))
                    } else {
                        None
                    },
                },
            )),
        }
    }

    fn prove_keys(
        &self,
        keys: &Vec<Vec<u8>>,
    ) -> RpcResult<Vec<(Option<Vec<u8>>, MerkleProof)>> {
        keys.iter().map(|key| self.prove_key(key)).collect()
    }

    fn commitment_root(&self) -> RpcResult<Blake3Digest> {
        Ok(Blake3Digest([0x77; 32]))
    }
}

fn request(key: &[u8]) -> StateProofRequest {
    StateProofRequest { key: hex::encode(key) }
}

#[test]
fn commitment_returns_503_when_not_available() {
    assert_eq!(status(state_commitment(None::<&MockStateProofBackend>)), 503);
}

#[test]
fn proof_returns_503_when_not_available() {
    assert_eq!(status(state_proof(None::<&MockStateProofBackend>, &request(&[0xaa]))), 503);
}

#[test]
fn commitment_returns_summary_when_available() {
    let backend = MockStateProofBackend::new(&[(b"aa", b"11"), (b"bb", b"22")]);
    let response = state_commitment(Some(&backend)).unwrap();
    assert_eq!(response.entry_count, 2);
    assert_eq!(response.updates_applied, 2);
    assert!(!response.commitment_root.is_empty());
    assert_eq!(response.commitment_root, response.backup_root);
}

#[test]
fn proof_returns_inclusion_dto_for_existing_key() {
    let backend = MockStateProofBackend::new(&[(b"a", b"1"), (b"b", b"2"), (b"c", b"3")]);
    let response = state_proof(Some(&backend), &request(b"b")).unwrap();
    assert_eq!(response.value, Some(hex::encode(b"2")));
    assert_eq!(response.proof.proof_type, "inclusion");
    assert_eq!(response.proof.leaf_count, 3);
    assert_eq!(response.proof.leaf_index, Some(1));
    assert_eq!(response.proof.siblings, vec!["33".repeat(32)]);
    assert!(response.proof.left_neighbor.is_none());
    assert!(response.proof.right_neighbor.is_none());
    assert_eq!(response.commitment_root, "77".repeat(32));
}

#[test]
fn proof_returns_exclusion_dto_for_missing_key() {
    let backend = MockStateProofBackend::new(&[(b"a", b"1"), (b"c", b"3")]);
    let response = state_proof(Some(&backend), &request(b"b")).unwrap();
    assert!(response.value.is_none());
    assert_eq!(response.proof.proof_type, "exclusion");
    assert_eq!(response.proof.leaf_count, 2);
    assert!(response.proof.leaf_index.is_none());
    assert!(response.proof.siblings.is_empty());
    let left = response.proof.left_neighbor.unwrap();
    assert_eq!(left.key, hex::encode(b"a"));
    assert_eq!(left.value, hex::encode(b"1"));
    assert_eq!(response.proof.right_neighbor.unwrap().leaf_index, 1);
}

#[test]
fn proof_returns_empty_tree_exclusion_dto() {
    let response = state_proof(Some(&MockStateProofBackend::new(&[])), &request(b"x")).unwrap();
    assert!(response.value.is_none());
    assert_eq!(response.proof.proof_type, "exclusion");
    assert_eq!(response.proof.leaf_count, 0);
    assert!(response.proof.left_neighbor.is_none());
    assert!(response.proof.right_neighbor.is_none());
}

#[test]
fn batch_proofs_return_mixed_dtos_and_verify() {
    let backend = MockStateProofBackend::new(&[(b"a", b"1"), (b"c", b"3"), (b"e", b"5")]);
    let keys = vec![
        hex::encode(b"a"),
        hex::encode(b"b"),
        hex::encode(b"e"),
        hex::encode(b"z"),
    ];
    let req = BatchStateProofRequest { keys: keys.clone() };
    let response = batch_state_proof(Some(&backend), &req).unwrap();
    assert_eq!(response.proofs.len(), 4);
    assert_eq!(response.proofs[0].key, keys[0]);
    assert_eq!(response.proofs[0].value, Some(hex::encode(b"1")));
    assert_eq!(response.proofs[0].proof.proof_type, "inclusion");
    assert_eq!(response.proofs[1].key, keys[1]);
    assert!(response.proofs[1].value.is_none());
    assert_eq!(response.proofs[1].proof.proof_type, "exclusion");
    assert_eq!(response.proofs[2].key, keys[2]);
    assert_eq!(response.proofs[2].value, Some(hex::encode(b"5")));
    assert_eq!(response.proofs[2].proof.proof_type, "inclusion");
    assert_eq!(response.proofs[3].key, keys[3]);
    assert!(response.proofs[3].value.is_none());
    assert_eq!(response.proofs[3].proof.proof_type, "exclusion");
}

#[test]
fn batch_proofs_reject_empty_key_list() {
    let backend = MockStateProofBackend::new(&[]);
    assert_eq!(status(batch_state_proof(Some(&backend), &BatchStateProofRequest { keys: vec![] })), 400);
}

#[test]
fn batch_proofs_reject_invalid_hex_key() {
    let backend = MockStateProofBackend::new(&[(b"a", b"1")]);
    let req = BatchStateProofRequest { keys: vec!["zz".into()] };
    assert_eq!(status(batch_state_proof(Some(&backend), &req)), 400);
}

#[test]
fn batch_proofs_reject_oversized_request() {
    let backend = MockStateProofBackend::new(&[(b"a", b"1")]);
    let keys: Vec<String> = (0..101)
        .map(|index| hex::encode(format!("key-{index}").as_bytes()))
        .collect();
    assert_eq!(
        status(batch_state_proof(Some(&backend), &BatchStateProofRequest { keys: keys.clone() })),
        400
    );
    let keys = keys[..100].to_vec();
    assert_eq!(status(batch_state_proof(Some(&backend), &BatchStateProofRequest { keys })), 200);
}

#[test]
fn proofs_keep_their_numbers() {
    let dto = merkle_proof_to_dto(&MerkleProof::Inclusion {
        leaf_index: 4,
        leaf_count: 9,
        siblings: vec![],
    });
    assert_eq!(dto.leaf_index, Some(4));
    assert_eq!(dto.leaf_count, 9);
}

// ── subscriptions ──

fn commit(sequence: u64) -> NodeEvent {
    NodeEvent::NewCommit { sequence, certificate_count: 1, committed_at_ms: 0 }
}

#[test]
fn matches_filter_all_when_empty() {
    assert!(matches_filter(&commit(1), &vec![]));
}

#[test]
fn matches_filter_specific() {
    assert!(matches_filter(&commit(1), &vec!["new_commit".into()]));
    assert!(!matches_filter(&commit(1), &vec!["intent_status".into()]));
    let changed = NodeEvent::IntentStatusChanged(IntentStatusDto {
        intent_id: Blake3Digest([0xCC; 32]),
        status: IntentStatus::Pending,
    });
    assert!(matches_filter(&changed, &vec!["intent_status".into()]));
}

#[test]
fn clients_get_what_they_subscribed_to() {
    let filters = vec!["new_commit".to_owned()];
    match handle_ws(&filters, WsInput::Event(commit(7))) {
        WsAction::Send(NodeEvent::NewCommit { sequence, .. }) => assert_eq!(sequence, 7),
        _ => panic!("expected the event to be sent"),
    }
    let others = vec!["intent_status".to_owned()];
    assert!(matches!(handle_ws(&others, WsInput::Event(commit(7))), WsAction::Wait));
    assert!(matches!(handle_ws(&filters, WsInput::Lagged(3)), WsAction::WarnLagged(3)));
    assert!(matches!(handle_ws(&filters, WsInput::EventsClosed), WsAction::Stop));
    assert!(matches!(handle_ws(&filters, WsInput::ClientClosed), WsAction::Stop));
    assert!(matches!(handle_ws(&filters, WsInput::ClientMessage), WsAction::Wait));
    assert!(matches!(handle_ws(&filters, WsInput::SendFailed), WsAction::Stop));
}

#[test]
fn the_first_message_subscribes() {
    let request = SubscribeRequest { subscribe: vec!["new_commit".into(), "intent_status".into()] };
    let filters = wait_for_subscribe(FirstMessage::Text(Some(request))).unwrap();
    assert_eq!(filters.len(), 2);
    assert_eq!(filters[0], "new_commit");
    assert!(wait_for_subscribe(FirstMessage::Closed).is_none());
}

#[test]
fn connections_are_limited() {
    assert!(ws_upgrade(1, 2).is_none());
    assert_eq!(ws_upgrade(2, 2).unwrap().status, 503);
}

#[test]
fn connections_are_counted_while_they_are_open() {
    let mut count = 0;
    connection_opened(&mut count);
    connection_opened(&mut count);
    assert_eq!(count, 2);
    connection_closed(&mut count);
    assert_eq!(count, 1);
    assert!(ws_upgrade(count, 2).is_none());
    connection_opened(&mut count);
    assert!(ws_upgrade(count, 2).is_some());
}

#[test]
fn slow_clients_are_told_what_they_missed() {
    let JsonValue::Object(members) = lag_warning(17) else {
        panic!("expected an object");
    };
    assert_eq!(members.len(), 2);
    assert_eq!(members[0].0, "warning");
    assert!(matches!(&members[0].1, JsonValue::Text(text) if text == "lagged"));
    assert_eq!(members[1].0, "missed_events");
    assert!(matches!(members[1].1, JsonValue::Number(JsonNumber::Unsigned(17))));
}

#[test]
fn events_are_sent_in_the_order_in_which_they_happen() {
    let filters = vec!["new_commit".to_owned()];
    let changed = NodeEvent::IntentStatusChanged(IntentStatusDto {
        intent_id: Blake3Digest([0xCC; 32]),
        status: IntentStatus::Pending,
    });
    let inputs = vec![
        WsInput::Event(commit(3)),
        WsInput::Event(changed),
        WsInput::Event(commit(1)),
        WsInput::ClientMessage,
        WsInput::Event(commit(2)),
        WsInput::ClientClosed,
        WsInput::Event(commit(4)),
    ];
    let mut sent = Vec::new();
    for input in inputs {
        match handle_ws(&filters, input) {
            WsAction::Send(NodeEvent::NewCommit { sequence, .. }) => sent.push(sequence),
            WsAction::Stop => break,
            _ => {}
        }
    }
    assert_eq!(sent, vec![3, 1, 2]);
}

// ── service ──

struct SilentBackend;

impl QueryBackend for SilentBackend {
    fn account_balance(&self, _: &AccountAddress, _: &TokenId) -> RpcResult<Amount> {
        Err(RpcError::Unavailable("silent".into()))
    }

    fn transaction_receipt(&self, _: &TxDigest) -> RpcResult<Option<TransactionReceiptDto>> {
        Ok(None)
    }

    fn health_status(&self) -> HealthResponse {
        HealthResponse {
            status: "healthy",
            version: "0.1.14",
            peers: 0,
            epoch: EpochNumber(0),
            latest_commit: CommitSequence(0),
            uptime_seconds: 0,
            subsystems: Vec::new(),
            reason: None,
        }
    }

    fn contract_query(&self, _: &ContractQueryRequest) -> RpcResult<ContractQueryResponse> {
        Err(RpcError::Unavailable("silent".into()))
    }
}

fn local(port: u16) -> ListenAddress {
    ListenAddress { ip: IpAddress::localhost(), port }
}

#[test]
fn builder_constructs_service() {
    let svc = RpcService::builder(local(0)).query_backend(Arc::new(SilentBackend)).build();
    assert_eq!(svc.listen_addr.ip, IpAddress::V4([127, 0, 0, 1]));
    assert!(svc.state().rate_limiter.is_none());
    assert!(!svc.state().faucet_enabled);
}

#[test]
fn builder_with_all_options() {
    let svc = RpcService::builder(local(8080))
        .query_backend(Arc::new(SilentBackend))
        .rate_limit(100, 60_000_000_000)
        .faucet(true, 500)
        .faucet_per_addr_limit(3)
        .api_keys(vec!["k".into()])
        .cors_allowed_origins(vec!["*".into()])
        .max_ws_connections(9)
        .quota_manager(QuotaManager::new(1, 2, 3, vec![]))
        .query_gas_budget(11)
        .query_timeout_ms(12)
        .num_shards(4)
        .session_provenance(Arc::new(MockSessionProvenanceBackend::new()))
        .state_proof(Arc::new(MockStateProofBackend::new(&[])))
        .intent_tracker(IntentTracker::new())
        .tx_lifecycle(TxLifecycleRegistry::new(16))
        .build();

    assert!(svc.state().rate_limiter.is_some());
    assert!(svc.state().faucet_addr_limiter.is_some());
    assert!(svc.state().quota_manager.is_some());
    assert!(svc.state().session_provenance.is_some());
    assert!(svc.state().state_proof.is_some());
    assert!(svc.state().intent_tracker.is_some());
    assert!(svc.state().tx_lifecycle.is_some());
    assert!(svc.state().consensus.is_none());
    assert_eq!(svc.state().query.health_status().status, "healthy");
    assert_eq!(svc.state().faucet_amount, 500);
    assert_eq!(svc.state().max_ws_connections, 9);
    assert_eq!(svc.state().query_gas_budget, 11);
    assert_eq!(svc.state().query_timeout_ms, 12);
    assert_eq!(svc.state().num_shards, 4);
    assert_eq!(svc.api_keys, vec!["k".to_owned()]);
    assert_eq!(svc.listen_addr.port, 8080);
}
