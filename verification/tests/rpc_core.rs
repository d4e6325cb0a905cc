//! Errors, transfer objects and the trackers of intents and transactions.

use nexus_node::node::consensus_types::{ReputationScore, ValidatorInfo};
use nexus_node::primitives::address::{AccountAddress, Amount};
use nexus_node::primitives::digest::{Blake3Digest, IntentId, TxDigest};
use nexus_node::primitives::ids::{
    CommitSequence, EpochNumber, ShardId, TimestampMs, ValidatorIndex,
};
use nexus_node::rpc::agent::IntentStatus;
use nexus_node::rpc::dto::{
    CompiledIntentPlan, ExecutionStatus, ExecutionStatusDto, GasEstimate, GasEstimateDto,
    IntentStep, IntentSubmitResponse, TransactionReceipt, TransactionReceiptDto, ValidatorInfoDto,
};
use nexus_node::rpc::error::{ExecutionError, IntentError, RpcError};
use nexus_node::rpc::intent_tracker::{IntentTracker, MAX_TRACKED_INTENTS};
use nexus_node::rpc::json::{JsonNumber, JsonValue};
use nexus_node::rpc::tx_lifecycle::{Stage, TxLifecycleRegistry};

// ── errors ──

#[test]
fn not_found_maps_to_404() {
    let err = RpcError::NotFound("tx abc".into());
    assert_eq!(err.status_code(), 404);
    assert_eq!(err.error_code(), "NOT_FOUND");
}

#[test]
fn bad_request_maps_to_400() {
    let err = RpcError::BadRequest("invalid param".into());
    assert_eq!(err.status_code(), 400);
}

#[test]
fn intent_error_maps_to_422() {
    let err = RpcError::IntentError("insufficient balance".into());
    assert_eq!(err.status_code(), 422);
}

#[test]
fn internal_error_maps_to_500() {
    let err = RpcError::Internal("panic".into());
    assert_eq!(err.status_code(), 500);
}

#[test]
fn serde_json_error_converts() {
    let raw_err = serde_json::from_str::<serde_json::Value>("not json").unwrap_err();
    let rpc_err = RpcError::from_json_error(&raw_err);
    assert_eq!(rpc_err.status_code(), 400);
}

#[test]
fn responses_carry_code_and_message() {
    let cases = [
        (RpcError::NotFound("x".into()), 404, "NOT_FOUND"),
        (RpcError::BadRequest("x".into()), 400, "BAD_REQUEST"),
        (RpcError::Internal("x".into()), 500, "INTERNAL_ERROR"),
        (RpcError::Unavailable("x".into()), 503, "SERVICE_UNAVAILABLE"),
        (RpcError::IntentError("x".into()), 422, "INTENT_ERROR"),
        (RpcError::ExecutionError("x".into()), 422, "EXECUTION_ERROR"),
        (RpcError::ConsensusError("x".into()), 422, "CONSENSUS_ERROR"),
        (RpcError::Serialization("x".into()), 400, "SERIALIZATION_ERROR"),
    ];
    for (err, status, code) in cases {
        let text = err.to_string();
        assert!(text.ends_with('x'));
        let (got, body) = err.into_response();
        assert_eq!(got, status);
        assert_eq!(body.error, code);
        assert_eq!(body.message, text);
    }
}

#[test]
fn errors_of_the_layers_below_are_classified() {
    let missing = IntentError::AccountNotFound { account: AccountAddress([1; 32]) };
    assert!(matches!(
        RpcError::from_intent_error(&missing, "gone".into()),
        RpcError::NotFound(_)
    ));
    assert!(matches!(
        RpcError::from_intent_error(&IntentError::InvalidSignature, "bad".into()),
        RpcError::BadRequest(_)
    ));
    assert!(matches!(
        RpcError::from_intent_error(&IntentError::InsufficientBalance, "poor".into()),
        RpcError::IntentError(_)
    ));
    assert!(matches!(
        RpcError::from_intent_error(&IntentError::Internal("i".into()), "i".into()),
        RpcError::IntentError(_)
    ));
    assert!(matches!(
        RpcError::from_execution_error(ExecutionError::GasLimitTooLow, "low".into()),
        RpcError::BadRequest(_)
    ));
    assert!(matches!(
        RpcError::from_execution_error(ExecutionError::Other, "other".into()),
        RpcError::ExecutionError(_)
    ));
    assert!(matches!(
        RpcError::from_consensus_error("c".into()),
        RpcError::ConsensusError(_)
    ));
    assert!(matches!(
        RpcError::serialization_failure("s".into()),
        RpcError::Serialization(_)
    ));
}

#[test]
fn json_errors_are_quoted() {
    let raw = serde_json::from_str::<serde_json::Value>("not json").unwrap_err();
    let text = raw.to_string();
    assert!(RpcError::from_json_error(&raw).to_string().contains(&text));
}

// ── transfer objects ──

#[test]
fn execution_status_dto_roundtrip() {
    let success = ExecutionStatus::Success;
    let dto: ExecutionStatusDto = success.into();
    assert_eq!(dto, ExecutionStatusDto::Success);

    let abort = ExecutionStatus::MoveAbort {
        location: "0x1::coin::transfer".into(),
        code: 42,
    };
    let dto: ExecutionStatusDto = abort.into();
    assert_eq!(
        dto,
        ExecutionStatusDto::MoveAbort {
            location: "0x1::coin::transfer".into(),
            code: 42,
        }
    );

    let oog = ExecutionStatus::OutOfGas;
    let dto: ExecutionStatusDto = oog.into();
    assert_eq!(dto, ExecutionStatusDto::OutOfGas);
}

#[test]
fn transaction_receipt_dto_conversion() {
    let receipt = TransactionReceipt {
        tx_digest: Blake3Digest([0xAA; 32]),
        commit_seq: CommitSequence(100),
        shard_id: ShardId(1),
        status: ExecutionStatus::Success,
        gas_used: 5_000,
        timestamp: TimestampMs(1_700_000_000_000),
    };
    let dto: TransactionReceiptDto = receipt.into();
    assert_eq!(dto.tx_digest, Blake3Digest([0xAA; 32]));
    assert_eq!(dto.commit_seq, CommitSequence(100));
    assert_eq!(dto.gas_used, 5_000);
    assert_eq!(dto.status, ExecutionStatusDto::Success);
}

#[test]
fn intent_submit_response_from_plan() {
    let plan = CompiledIntentPlan {
        intent_id: Blake3Digest([0xBB; 32]),
        steps: vec![],
        requires_htlc: false,
        estimated_gas: 10_000,
        expires_at: EpochNumber(50),
    };
    let dto = IntentSubmitResponse::from(plan);
    assert_eq!(dto.intent_id, Blake3Digest([0xBB; 32]));
    assert_eq!(dto.steps, 0);
    assert!(!dto.requires_htlc);
    assert_eq!(dto.estimated_gas, 10_000);
}

#[test]
fn gas_estimate_dto_conversion() {
    let estimate = GasEstimate {
        gas_units: 25_000,
        shards_touched: 2,
        requires_cross_shard: true,
    };
    let dto: GasEstimateDto = estimate.into();
    assert_eq!(dto.gas_units, 25_000);
    assert_eq!(dto.shards_touched, 2);
    assert!(dto.requires_cross_shard);
}

#[test]
fn plans_list_the_transactions_of_their_steps() {
    let step = |b: u8| IntentStep { digest: Blake3Digest([b; 32]) };
    let dto = IntentSubmitResponse::from(CompiledIntentPlan {
        intent_id: Blake3Digest([0xBB; 32]),
        steps: vec![step(1), step(2)],
        requires_htlc: true,
        estimated_gas: 7,
        expires_at: EpochNumber(50),
    });
    assert_eq!(dto.steps, 2);
    assert_eq!(dto.tx_hashes, vec![Blake3Digest([1; 32]), Blake3Digest([2; 32])]);
    assert!(dto.requires_htlc);
}

#[test]
fn validators_show_their_key_in_hexadecimal() {
    let dto = ValidatorInfoDto::from(ValidatorInfo {
        index: ValidatorIndex(3),
        falcon_pub_key: vec![0x0a, 0xff],
        stake: Amount(9),
        reputation: ReputationScore::from_basis_points(1_234),
        is_slashed: true,
        shard_id: Some(ShardId(2)),
    });
    assert_eq!(dto.public_key_hex, "0aff");
    assert_eq!(dto.reputation, 1_234);
    assert_eq!(dto.shard_id, Some(ShardId(2)));
    assert!(dto.is_slashed);
}

#[test]
fn members_of_objects_are_found() {
    let value = JsonValue::Object(vec![
        ("a".to_owned(), JsonValue::Text("x".to_owned())),
        ("n".to_owned(), JsonValue::Number(JsonNumber::Unsigned(7))),
        ("m".to_owned(), JsonValue::Number(JsonNumber::Negative(-7))),
    ]);
    assert_eq!(value.text_member("a"), Some("x"));
    assert_eq!(value.number_member("n"), Some(7));
    assert_eq!(value.number_member("m"), None);
    assert_eq!(value.text_member("n"), None);
    assert!(value.get("zz").is_none());
    assert!(JsonValue::Null.get("a").is_none());
}

// ── intents ──

fn make_intent_id(seed: u8) -> IntentId {
    Blake3Digest([seed; 32])
}

fn make_tx_digest(seed: u8) -> TxDigest {
    TxDigest::from_bytes([seed; 32])
}

#[test]
fn register_and_query_status() {
    let mut tracker = IntentTracker::new();
    let id = make_intent_id(0xAA);
    let hashes = vec![make_tx_digest(0x01), make_tx_digest(0x02)];

    tracker.register(id, hashes.clone());

    let record = tracker.status(&id).unwrap();
    assert_eq!(record.intent_id, id);
    assert_eq!(record.tx_hashes, hashes);
    assert!(matches!(
        record.status,
        IntentStatus::Submitted { steps: 2 }
    ));
}

#[test]
fn on_tx_executed_transitions_to_completed() {
    let mut tracker = IntentTracker::new();
    let id = make_intent_id(0xBB);
    let h1 = make_tx_digest(0x01);
    let h2 = make_tx_digest(0x02);

    tracker.register(id, vec![h1, h2]);

    let (_id, status) = tracker.on_tx_executed(&h1, 500).unwrap();
    assert!(matches!(status, IntentStatus::Submitted { .. }));

    let (_id, status) = tracker.on_tx_executed(&h2, 300).unwrap();
    assert!(matches!(status, IntentStatus::Completed { gas_used: 800 }));
}

#[test]
fn on_tx_failed_transitions_to_failed() {
    let mut tracker = IntentTracker::new();
    let id = make_intent_id(0xCC);
    let h1 = make_tx_digest(0x01);
    let h2 = make_tx_digest(0x02);

    tracker.register(id, vec![h1, h2]);

    let (_id, status) = tracker.on_tx_failed(&h1, "out of gas".into()).unwrap();
    assert!(matches!(status, IntentStatus::Failed { .. }));

    let (_id, status) = tracker.on_tx_executed(&h2, 100).unwrap();
    assert!(matches!(status, IntentStatus::Failed { .. }));
}

#[test]
fn untracked_tx_returns_none() {
    let mut tracker = IntentTracker::new();
    let unknown = make_tx_digest(0xFF);

    assert!(tracker.on_tx_executed(&unknown, 100).is_none());
    assert!(tracker.on_tx_failed(&unknown, "err".into()).is_none());
}

#[test]
fn untracked_intent_returns_none() {
    let tracker = IntentTracker::new();
    let unknown = make_intent_id(0xFF);

    assert!(tracker.status(&unknown).is_none());
}

#[test]
fn the_oldest_intents_are_forgotten() {
    let id = |n: usize| {
        let mut bytes = [0u8; 32];
        bytes[..8].copy_from_slice(&(n as u64).to_be_bytes());
        Blake3Digest(bytes)
    };
    let mut tracker = IntentTracker::new();
    for n in 0..MAX_TRACKED_INTENTS + 1 {
        tracker.register_at(id(n), vec![], TimestampMs(n as u64));
    }
    assert!(tracker.status(&id(0)).is_none());
    assert!(tracker.status(&id(1)).is_some());
    assert!(tracker.status(&id(MAX_TRACKED_INTENTS)).is_some());
}

#[test]
fn intents_that_are_registered_again_start_anew() {
    let mut tracker = IntentTracker::new();
    let id = make_intent_id(1);
    let (early, kept, late) = (make_tx_digest(2), make_tx_digest(3), make_tx_digest(4));
    tracker.register_at(id, vec![early, kept], TimestampMs(1));
    tracker.on_tx_executed_at(&early, 7, TimestampMs(2));
    tracker.register_at(id, vec![kept, late], TimestampMs(3));
    let record = tracker.status(&id).unwrap();
    assert!(matches!(record.status, IntentStatus::Submitted { steps: 2 }));
    assert_eq!(record.submitted_at, TimestampMs(3));
    assert_eq!(record.gas_used, 0);
    assert!(tracker.on_tx_executed_at(&early, 1, TimestampMs(4)).is_none());
    assert!(tracker.on_tx_executed_at(&kept, 1, TimestampMs(5)).is_some());
    let (_, status) = tracker.on_tx_executed_at(&late, 2, TimestampMs(6)).unwrap();
    assert!(matches!(status, IntentStatus::Completed { gas_used: 3 }));
}

#[test]
fn intents_that_are_registered_again_are_the_latest() {
    let id = |n: usize| {
        let mut bytes = [0u8; 32];
        bytes[..8].copy_from_slice(&(n as u64).to_be_bytes());
        Blake3Digest(bytes)
    };
    let tx = make_tx_digest(9);
    let mut tracker = IntentTracker::new();
    for n in 0..MAX_TRACKED_INTENTS {
        tracker.register_at(id(n), vec![], TimestampMs(n as u64));
    }
    tracker.register_at(id(0), vec![tx], TimestampMs(0));
    assert!(tracker.status(&id(1)).is_some());
    tracker.register_at(id(MAX_TRACKED_INTENTS), vec![], TimestampMs(0));
    assert!(tracker.status(&id(0)).is_some());
    assert!(tracker.status(&id(1)).is_none());
    assert!(tracker.status(&id(2)).is_some());
    assert!(tracker.on_tx_executed_at(&tx, 1, TimestampMs(1)).is_some());
}

#[test]
fn shared_transactions_stay_with_their_latest_intent() {
    let id = |n: usize| {
        let mut bytes = [0u8; 32];
        bytes[..8].copy_from_slice(&(n as u64).to_be_bytes());
        Blake3Digest(bytes)
    };
    let tx = make_tx_digest(9);
    let mut tracker = IntentTracker::new();
    tracker.register_at(id(0), vec![tx], TimestampMs(0));
    tracker.register_at(id(1), vec![tx], TimestampMs(1));
    for n in 2..MAX_TRACKED_INTENTS + 1 {
        tracker.register_at(id(n), vec![], TimestampMs(n as u64));
    }
    assert!(tracker.status(&id(0)).is_none());
    let (owner, _) = tracker.on_tx_executed_at(&tx, 1, TimestampMs(1)).unwrap();
    assert_eq!(owner, id(1));
}

#[test]
fn records_tell_when_they_changed() {
    let mut tracker = IntentTracker::new();
    let id = make_intent_id(1);
    let tx = make_tx_digest(2);
    tracker.register_at(id, vec![tx], TimestampMs(10));
    tracker.on_tx_executed_at(&tx, 5, TimestampMs(20));
    let record = tracker.status(&id).unwrap();
    assert_eq!(record.submitted_at, TimestampMs(10));
    assert_eq!(record.updated_at, TimestampMs(20));
    assert_eq!(record.gas_used, 5);
    assert_eq!(record.confirmed_count, 1);
    assert!(matches!(record.status, IntentStatus::Completed { gas_used: 5 }));
}

#[test]
fn failures_keep_their_reason() {
    let mut tracker = IntentTracker::new();
    let id = make_intent_id(1);
    let tx = make_tx_digest(2);
    tracker.register(id, vec![tx]);
    tracker.on_tx_failed_at(&tx, "out of gas".into(), TimestampMs(20));
    match tracker.status(&id).unwrap().status {
        IntentStatus::Failed { reason } => assert_eq!(reason, "out of gas"),
        _ => panic!("expected a failure"),
    }
}

// ── transactions ──

fn digest(seed: u8) -> TxDigest {
    TxDigest::from_bytes([seed; 32])
}

#[test]
fn first_stage_timestamp_wins() {
    let mut tracker = TxLifecycleRegistry::new(16);
    let tx = digest(1);

    tracker.record_submit_accepted(tx);
    let first = tracker.snapshot(&tx).unwrap().submit_accepted_at;
    tracker.record_submit_accepted(tx);
    let second = tracker.snapshot(&tx).unwrap().submit_accepted_at;

    assert_eq!(first, second);
}

#[test]
fn oldest_entries_are_pruned() {
    let mut tracker = TxLifecycleRegistry::new(2);
    let tx1 = digest(1);
    let tx2 = digest(2);
    let tx3 = digest(3);

    tracker.record_submit_accepted(tx1);
    tracker.record_submit_accepted(tx2);
    tracker.record_submit_accepted(tx3);

    assert!(tracker.snapshot(&tx1).is_none());
    assert!(tracker.snapshot(&tx2).is_some());
    assert!(tracker.snapshot(&tx3).is_some());
}

#[test]
fn repeated_transactions_take_no_further_room() {
    let mut tracker = TxLifecycleRegistry::new(2);
    let txs = [digest(1), digest(2), digest(1), digest(3), digest(1)];
    let retained = [1, 2, 2, 2, 2];
    for (i, tx) in txs.iter().enumerate() {
        tracker.record_submit_accepted(*tx);
        assert!(tracker.snapshot(tx).is_some());
        let kept = (1..=3).filter(|&n| tracker.snapshot(&digest(n)).is_some()).count();
        assert_eq!(kept, retained[i]);
    }
}

#[test]
fn stages_are_recorded_apart() {
    let mut tracker = TxLifecycleRegistry::new(4);
    let tx = digest(9);
    tracker.record_at(tx, Stage::MempoolAdmitted, TimestampMs(5));
    tracker.record_at(tx, Stage::ReceiptVisible, TimestampMs(7));
    tracker.record_at(tx, Stage::ReceiptVisible, TimestampMs(8));
    let snapshot = tracker.snapshot(&tx).unwrap();
    assert_eq!(snapshot.tx_digest, tx);
    assert_eq!(snapshot.submit_accepted_at, None);
    assert_eq!(snapshot.mempool_admitted_at, Some(TimestampMs(5)));
    assert_eq!(snapshot.consensus_included_at, None);
    assert_eq!(snapshot.receipt_visible_at, Some(TimestampMs(7)));
}

#[test]
fn every_stage_has_a_recorder() {
    let mut tracker = TxLifecycleRegistry::new(4);
    let tx = digest(9);
    tracker.record_mempool_admitted(tx);
    tracker.record_consensus_included(tx);
    tracker.record_receipt_visible(tx);
    let snapshot = tracker.snapshot(&tx).unwrap();
    assert!(snapshot.submit_accepted_at.is_none());
    assert!(snapshot.mempool_admitted_at.is_some());
    assert!(snapshot.consensus_included_at.is_some());
    assert!(snapshot.receipt_visible_at.is_some());
}
