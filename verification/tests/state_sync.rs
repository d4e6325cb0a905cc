//! Block catch-up between nodes.

use nexus_node::node::consensus_types::CommittedBatch;
use nexus_node::node::state_sync::{
    accept_message, block_range, decode_message, encode_message, handle_block_request,
    handle_block_response, handle_sync_message, judge_block_response, load_committed_blocks,
    request_blocks, request_blocks_filtered, sync_service_step, validate_block_committee,
    BlockResponseOutcome, CommitteeValidator, NoOpCommitteeValidator, PeerId, RejectReason,
    ShardFilter, StateSyncMessage, SyncAction, SyncInput, SyncThrottle,
    MAX_BLOCKS_PER_RESPONSE, MAX_SYNC_MESSAGE_SIZE, MAX_SYNC_RESPONSES_PER_WINDOW,
    SYNC_RESPONSE_WINDOW_NS,
};
use nexus_node::primitives::digest::Blake3Digest;
use nexus_node::primitives::ids::{CommitSequence, EpochNumber, TimestampMs};
use std::collections::{BTreeMap, HashMap};

fn test_peer_id() -> PeerId {
    PeerId::from_digest(Blake3Digest([0xAA; 32]))
}

fn make_committed_batch(seq: u64) -> CommittedBatch {
    CommittedBatch {
        anchor: Blake3Digest([seq as u8; 32]),
        certificates: vec![Blake3Digest([seq as u8; 32])],
        sequence: CommitSequence(seq),
        committed_at: TimestampMs(1_000_000 + seq),
    }
}

/// A store of blocks in memory.
struct MemoryStore {
    blocks: BTreeMap<Vec<u8>, Vec<u8>>,
}

impl MemoryStore {
    fn new() -> Self {
        MemoryStore { blocks: BTreeMap::new() }
    }

    fn scan(&self, start: &Vec<u8>, end: &Vec<u8>) -> Vec<(Vec<u8>, Vec<u8>)> {
        self.blocks
            .range(start.clone()..end.clone())
            .map(|(k, v)| (k.clone(), v.clone()))
            .collect()
    }

    fn load(&self, from: u64, count: u64) -> Vec<CommittedBatch> {
        let (start, end) = block_range(CommitSequence(from), count);
        load_committed_blocks(&self.scan(&start, &end))
    }

    /// Handles a response, and stores what it says to store.
    fn respond<V: CommitteeValidator>(
        &mut self,
        blocks: Vec<CommittedBatch>,
        validator: Option<&V>,
    ) -> BlockResponseOutcome {
        let outcome = {
            let scan = |start: &Vec<u8>, end: &Vec<u8>| self.scan(start, end);
            handle_block_response(&blocks, &scan, validator)
        };
        if let BlockResponseOutcome::Store(entries) = &outcome {
            for (key, value) in entries {
                self.blocks.insert(key.clone(), value.clone());
            }
        }
        outcome
    }

    fn respond_unchecked(&mut self, blocks: Vec<CommittedBatch>) -> BlockResponseOutcome {
        self.respond(blocks, None::<&NoOpCommitteeValidator>)
    }
}

#[test]
fn state_sync_message_round_trip() {
    let peer = test_peer_id();
    let req = StateSyncMessage::BlockRequest {
        from_seq: CommitSequence(5),
        count: 10,
        requester: peer,
    };
    let encoded = encode_message(&req).expect("encode request");
    let decoded = decode_message(&encoded).expect("decode request");
    match decoded {
        StateSyncMessage::BlockRequest {
            from_seq,
            count,
            requester,
        } => {
            assert_eq!(from_seq, CommitSequence(5));
            assert_eq!(count, 10);
            assert_eq!(requester, peer);
        }
        _ => panic!("expected BlockRequest"),
    }

    let resp = StateSyncMessage::BlockResponse {
        blocks: vec![make_committed_batch(1), make_committed_batch(2)],
    };
    let encoded = encode_message(&resp).expect("encode response");
    let decoded = decode_message(&encoded).expect("decode response");
    match decoded {
        StateSyncMessage::BlockResponse { blocks } => {
            assert_eq!(blocks.len(), 2);
            assert_eq!(blocks[0].sequence, CommitSequence(1));
            assert_eq!(blocks[1].sequence, CommitSequence(2));
        }
        _ => panic!("expected BlockResponse"),
    }
}

#[test]
fn messages_have_a_fixed_encoding() {
    let req = StateSyncMessage::BlockRequest {
        from_seq: CommitSequence(5),
        count: 10,
        requester: test_peer_id(),
    };
    let mut expected = vec![0u8];
    expected.extend_from_slice(&5u64.to_le_bytes());
    expected.extend_from_slice(&10u64.to_le_bytes());
    expected.extend_from_slice(&[0xAA; 32]);
    assert_eq!(encode_message(&req).unwrap(), expected);

    let resp = StateSyncMessage::BlockResponse { blocks: vec![make_committed_batch(1)] };
    let mut expected = vec![1u8, 1];
    expected.extend_from_slice(&[1; 32]);
    expected.push(1);
    expected.extend_from_slice(&[1; 32]);
    expected.extend_from_slice(&1u64.to_le_bytes());
    expected.extend_from_slice(&1_000_001u64.to_le_bytes());
    assert_eq!(encode_message(&resp).unwrap(), expected);
}

#[test]
fn malformed_messages_are_refused() {
    assert!(decode_message(&[]).is_none());
    assert!(decode_message(&[2, 0]).is_none());
    let mut encoded = encode_message(&StateSyncMessage::BlockResponse { blocks: vec![] }).unwrap();
    assert!(decode_message(&encoded).is_some());
    encoded.push(0);
    assert!(decode_message(&encoded).is_none());
    assert!(accept_message(&vec![0u8; MAX_SYNC_MESSAGE_SIZE + 1]).is_none());
}

#[test]
fn load_committed_blocks_empty_store() {
    let store = MemoryStore::new();
    let blocks = store.load(0, 10);
    assert!(blocks.is_empty());
}

#[test]
fn load_committed_blocks_returns_stored_range() {
    let mut store = MemoryStore::new();
    store.respond_unchecked((0..5u64).map(make_committed_batch).collect());

    let blocks = store.load(1, 3);
    assert_eq!(blocks.len(), 3);
    assert_eq!(blocks[0].sequence, CommitSequence(1));
    assert_eq!(blocks[1].sequence, CommitSequence(2));
    assert_eq!(blocks[2].sequence, CommitSequence(3));
}

#[test]
fn handle_block_response_stores_blocks() {
    let mut store = MemoryStore::new();
    store.respond_unchecked(vec![make_committed_batch(10), make_committed_batch(11)]);

    let loaded = store.load(10, 2);
    assert_eq!(loaded.len(), 2);
    assert_eq!(loaded[0].sequence, CommitSequence(10));
    assert_eq!(loaded[1].sequence, CommitSequence(11));
}

#[test]
fn handle_block_response_empty_is_noop() {
    let mut store = MemoryStore::new();
    let outcome = store.respond_unchecked(Vec::new());
    assert!(matches!(outcome, BlockResponseOutcome::Empty));
    assert!(store.load(0, 100).is_empty());
}

#[test]
fn request_blocks_caps_count() {
    let data = request_blocks(CommitSequence(0), 1000, test_peer_id()).unwrap();
    match decode_message(&data).unwrap() {
        StateSyncMessage::BlockRequest { count, .. } => {
            assert_eq!(count, MAX_BLOCKS_PER_RESPONSE);
        }
        _ => unreachable!(),
    }
}

#[test]
fn oversized_message_constant_is_correct() {
    assert_eq!(MAX_SYNC_MESSAGE_SIZE, 256 * 1024);
}

#[test]
fn state_sync_should_not_amplify_single_request_across_cluster() {
    let now = 5_000;
    let mut throttle = SyncThrottle::new(now);

    for _ in 0..MAX_SYNC_RESPONSES_PER_WINDOW {
        assert!(throttle.try_acquire(now), "should acquire within budget");
    }

    for _ in 0..5 {
        assert!(!throttle.try_acquire(now), "should reject beyond budget");
    }
}

#[test]
fn the_throttle_opens_with_the_next_window() {
    let mut throttle = SyncThrottle::new(0);
    for _ in 0..MAX_SYNC_RESPONSES_PER_WINDOW {
        assert!(throttle.try_acquire(0));
    }
    assert!(!throttle.try_acquire(SYNC_RESPONSE_WINDOW_NS - 1));
    assert!(throttle.try_acquire(SYNC_RESPONSE_WINDOW_NS));
}

#[test]
fn state_sync_should_reject_unverified_block_response() {
    let mut store = MemoryStore::new();

    let outcome =
        store.respond_unchecked(vec![make_committed_batch(10), make_committed_batch(12)]);
    assert!(matches!(
        outcome,
        BlockResponseOutcome::Rejected(RejectReason::NotContiguous)
    ));
    assert!(
        store.load(10, 5).is_empty(),
        "non-contiguous blocks should be rejected"
    );

    let bad_block = CommittedBatch {
        anchor: Blake3Digest([7; 32]),
        certificates: vec![],
        sequence: CommitSequence(20),
        committed_at: TimestampMs(2_000_000),
    };
    let outcome = store.respond_unchecked(vec![bad_block]);
    assert!(matches!(
        outcome,
        BlockResponseOutcome::Rejected(RejectReason::EmptyCertificates)
    ));
    assert!(
        store.load(20, 1).is_empty(),
        "blocks with empty certificate list should be rejected"
    );

    store.respond_unchecked(vec![make_committed_batch(30), make_committed_batch(31)]);
    assert_eq!(store.load(30, 2).len(), 2, "first valid insert should succeed");

    let outcome =
        store.respond_unchecked(vec![make_committed_batch(30), make_committed_batch(31)]);
    assert!(matches!(
        outcome,
        BlockResponseOutcome::Rejected(RejectReason::Overlap)
    ));
    assert_eq!(store.load(30, 2).len(), 2, "original data should be unchanged");

    store.respond_unchecked(vec![
        make_committed_batch(50),
        make_committed_batch(51),
        make_committed_batch(52),
    ]);
    assert_eq!(
        store.load(50, 3).len(),
        3,
        "valid contiguous blocks should be stored"
    );
}

/// A validator that knows some certificates of each epoch.
struct TestCommitteeValidator {
    known_digests: HashMap<u64, Vec<Blake3Digest>>,
}

impl TestCommitteeValidator {
    fn new() -> Self {
        Self { known_digests: HashMap::new() }
    }

    fn add_known(&mut self, epoch: u64, digest: Blake3Digest) {
        self.known_digests.entry(epoch).or_default().push(digest);
    }
}

impl CommitteeValidator for TestCommitteeValidator {
    fn known_cert_digests_for_epoch(&self, epoch: EpochNumber) -> Option<Vec<Blake3Digest>> {
        self.known_digests.get(&epoch.0).cloned()
    }

    fn epoch_for_sequence(&self, _sequence: CommitSequence) -> Option<EpochNumber> {
        Some(EpochNumber(1))
    }

    fn latest_known_epoch(&self) -> EpochNumber {
        EpochNumber(1)
    }
}

#[test]
fn validate_block_committee_accepts_when_no_data() {
    let validator = NoOpCommitteeValidator;
    let block = make_committed_batch(1);
    assert!(
        validate_block_committee(&block, &validator),
        "NoOpCommitteeValidator should accept all blocks"
    );
}

#[test]
fn validate_block_committee_accepts_known_certs() {
    let block = make_committed_batch(5);
    let mut validator = TestCommitteeValidator::new();
    validator.add_known(1, Blake3Digest([5; 32]));

    assert!(
        validate_block_committee(&block, &validator),
        "block with known certificate should pass validation"
    );
}

#[test]
fn validate_block_committee_rejects_unknown_certs() {
    let block = make_committed_batch(5);
    let mut validator = TestCommitteeValidator::new();
    validator.add_known(1, Blake3Digest([99; 32]));

    assert!(
        !validate_block_committee(&block, &validator),
        "block with unknown certificate should be rejected"
    );
}

#[test]
fn handle_block_response_accepts_with_committee_validator() {
    let mut store = MemoryStore::new();
    let mut validator = TestCommitteeValidator::new();
    validator.add_known(1, Blake3Digest([100; 32]));
    validator.add_known(1, Blake3Digest([101; 32]));

    store.respond(
        vec![make_committed_batch(100), make_committed_batch(101)],
        Some(&validator),
    );

    assert_eq!(
        store.load(100, 2).len(),
        2,
        "blocks with valid committee certs should be stored"
    );
}

#[test]
fn handle_block_response_rejects_with_bad_committee() {
    let mut store = MemoryStore::new();
    let mut validator = TestCommitteeValidator::new();
    validator.add_known(1, Blake3Digest([200; 32]));

    let outcome = store.respond(
        vec![make_committed_batch(200), make_committed_batch(201)],
        Some(&validator),
    );

    assert!(matches!(
        outcome,
        BlockResponseOutcome::Rejected(RejectReason::UnknownCommittee)
    ));
    assert!(
        store.load(200, 2).is_empty(),
        "blocks with unknown committee certs should be rejected"
    );
}

#[test]
fn handle_block_response_noop_validator_accepts_all() {
    let mut store = MemoryStore::new();
    store.respond(
        vec![make_committed_batch(300), make_committed_batch(301)],
        Some(&NoOpCommitteeValidator),
    );

    assert_eq!(
        store.load(300, 2).len(),
        2,
        "NoOpCommitteeValidator should accept all blocks"
    );
}

#[test]
fn a_response_at_the_end_of_the_sequence_is_judged() {
    let blocks = vec![make_committed_batch(u64::MAX)];
    let outcome =
        judge_block_response(&blocks, &Vec::new(), None::<&NoOpCommitteeValidator>);
    match outcome {
        BlockResponseOutcome::Store(entries) => {
            assert_eq!(entries.len(), 1);
            assert_eq!(entries[0].0, u64::MAX.to_be_bytes().to_vec());
        }
        _ => panic!("expected the block to be stored"),
    }
}

#[test]
fn requests_are_answered_with_the_stored_blocks() {
    let mut store = MemoryStore::new();
    store.respond_unchecked((0..60u64).map(make_committed_batch).collect());

    let mut throttle = SyncThrottle::new(0);
    let answer = handle_block_request(
        CommitSequence(3),
        1000,
        &mut throttle,
        0,
        &|start: &Vec<u8>, end: &Vec<u8>| store.scan(start, end),
    )
    .expect("blocks are stored");
    match decode_message(&answer).unwrap() {
        StateSyncMessage::BlockResponse { blocks } => {
            assert_eq!(blocks.len() as u64, MAX_BLOCKS_PER_RESPONSE);
            assert_eq!(blocks[0].sequence, CommitSequence(3));
        }
        _ => panic!("expected BlockResponse"),
    }
}

#[test]
fn requests_for_nothing_are_not_answered() {
    let mut throttle = SyncThrottle::new(0);
    let answer = handle_block_request(
        CommitSequence(3),
        10,
        &mut throttle,
        0,
        &|_: &Vec<u8>, _: &Vec<u8>| Vec::new(),
    );
    assert!(answer.is_none());
}

/// Lets a node handle a message.
fn receive(store: &MemoryStore, data: &[u8]) -> SyncAction {
    let scan = |start: &Vec<u8>, end: &Vec<u8>| store.scan(start, end);
    let mut throttle = SyncThrottle::new(0);
    handle_sync_message(data, &mut throttle, 0, &scan, Some(&NoOpCommitteeValidator))
}

#[test]
fn a_new_node_catches_up() {
    let mut full = MemoryStore::new();
    full.respond_unchecked((0..5u64).map(make_committed_batch).collect());
    let mut fresh = MemoryStore::new();

    let request = request_blocks(CommitSequence(0), 5, test_peer_id()).unwrap();
    let answer = match receive(&full, &request) {
        SyncAction::Send(to, data) => {
            assert_eq!(to, test_peer_id());
            data
        }
        _ => panic!("expected an answer"),
    };
    match receive(&fresh, &answer) {
        SyncAction::Store(entries) => fresh.blocks.extend(entries),
        _ => panic!("expected blocks to store"),
    }
    assert_eq!(fresh.blocks, full.blocks);
    assert!(matches!(
        receive(&fresh, &answer),
        SyncAction::Reject(RejectReason::Overlap)
    ));
    assert!(matches!(receive(&fresh, b"noise"), SyncAction::Ignore));
}

#[test]
fn the_service_ignores_messages_of_foreign_shards() {
    let store = MemoryStore::new();
    let scan = |start: &Vec<u8>, end: &Vec<u8>| store.scan(start, end);
    let mut throttle = SyncThrottle::new(0);
    let mut filter = ShardFilter::new();
    filter.update(4, &[]);
    let blocks = StateSyncMessage::BlockResponse { blocks: vec![make_committed_batch(1)] };
    let data = encode_message(&blocks).unwrap();
    let mut step = |input: SyncInput, filter: &ShardFilter| {
        let nobody = None::<&NoOpCommitteeValidator>;
        sync_service_step(input, Some(filter), &mut throttle, 0, &scan, nobody)
    };
    assert!(matches!(
        step(SyncInput::Message(data.clone()), &filter),
        SyncAction::Filtered
    ));
    assert!(matches!(step(SyncInput::Lagged(3), &filter), SyncAction::WarnLagged(3)));
    assert!(matches!(step(SyncInput::Closed, &filter), SyncAction::Stop));
    filter.update(4, &[1]);
    assert!(matches!(step(SyncInput::Message(data), &filter), SyncAction::Store(_)));
}

#[test]
fn unassigned_nodes_request_nothing() {
    let mut filter = ShardFilter::new();
    filter.update(4, &[]);
    assert!(request_blocks_filtered(CommitSequence(0), 5, test_peer_id(), Some(&filter)).is_none());
    filter.update(4, &[2]);
    assert_eq!(
        request_blocks_filtered(CommitSequence(0), 5, test_peer_id(), Some(&filter)),
        request_blocks(CommitSequence(0), 5, test_peer_id())
    );
}

#[test]
fn shard_filter_single_shard_always_syncs() {
    let mut filter = ShardFilter::new();
    assert!(filter.should_sync(), "single-shard mode should always sync");
    assert!(
        filter.assigned_shards().is_none(),
        "single-shard mode has no shard set"
    );

    filter.update(1, &[0]);
    assert!(filter.should_sync(), "num_shards=1 should always sync");
    assert!(filter.assigned_shards().is_none());
}

#[test]
fn shard_filter_multi_shard_with_assigned() {
    let mut filter = ShardFilter::new();
    filter.update(4, &[1, 3]);

    assert!(
        filter.should_sync(),
        "node with assigned shards should sync"
    );
    let assigned = filter.assigned_shards().expect("should have shard set");
    assert_eq!(assigned.len(), 2);
    assert!(assigned.contains(&1));
    assert!(assigned.contains(&3));
}

#[test]
fn shard_filter_multi_shard_no_assigned() {
    let mut filter = ShardFilter::new();
    filter.update(4, &[]);

    assert!(
        !filter.should_sync(),
        "node with no assigned shards should not sync"
    );
    let assigned = filter
        .assigned_shards()
        .expect("multi-shard should return set");
    assert!(assigned.is_empty());
}

#[test]
fn shard_filter_updates_dynamically() {
    let mut filter = ShardFilter::new();

    filter.update(4, &[]);
    assert!(!filter.should_sync());

    filter.update(4, &[2]);
    assert!(filter.should_sync());

    let assigned = filter.assigned_shards().unwrap();
    assert_eq!(assigned.len(), 1);
    assert!(assigned.contains(&2));

    filter.update(4, &[]);
    assert!(!filter.should_sync());
}

#[test]
fn shard_filter_transition_to_single_shard() {
    let mut filter = ShardFilter::new();

    filter.update(4, &[]);
    assert!(!filter.should_sync());

    filter.update(1, &[0]);
    assert!(filter.should_sync());
    assert!(filter.assigned_shards().is_none());
}
