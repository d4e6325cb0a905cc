//! Catching up with committed blocks.
//!
//! A node that is behind asks for a range of blocks; a peer answers with the
//! blocks it holds. What a peer sends is checked before it is stored: every
//! block has certificates, the blocks follow each other without a gap, none is
//! stored already, and the certificates belong to the committee of the epoch.

use vstd::prelude::*;

use crate::node::consensus_types::CommittedBatch;
use crate::primitives::bcs_layout::{
    block_fits, block_layout, blocks_fit, decode_block, decode_request, decode_response, encode_block,
    encode_request, encode_response, law_block_layout_is_unambiguous, law_request_layout_is_unambiguous,
    law_response_layout_is_unambiguous, request_layout, response_layout, same_block, same_blocks,
};
use crate::primitives::endian::{be_bytes, law_big_endian_keeps_order, lemma_pow256_values, to_be_bytes};
use crate::primitives::lex::lex_lt;
use crate::primitives::text::bytes_eq;
use crate::primitives::{Blake3Digest, CommitSequence, EpochNumber};

verus! {

/// Most blocks in one response.
pub const MAX_BLOCKS_PER_RESPONSE: u64 = 50;

/// Most bytes of one message.
pub const MAX_SYNC_MESSAGE_SIZE: usize = 262_144;

/// Most responses that are sent in one window.
pub const MAX_SYNC_RESPONSES_PER_WINDOW: u32 = 10;

/// Length of a window in nanoseconds.
pub const SYNC_RESPONSE_WINDOW_NS: u128 = 60_000_000_000;

/// Identity of a peer.
#[derive(Clone, Copy, Debug, PartialEq, Eq, Hash)]
pub struct PeerId(pub Blake3Digest);

impl PeerId {
    /// The peer with the given digest.
    pub fn from_digest(digest: Blake3Digest) -> (r: Self)
        ensures
            r.0 == digest,
    {
        PeerId(digest)
    }
}

/// Limits how many responses are sent per window, so that requests cannot
/// make this node flood the network.
#[derive(Clone, Copy, Debug, PartialEq, Eq, Structural)]
pub struct SyncThrottle {
    /// Responses sent in the current window.
    pub count: u32,
    /// When the current window began, in nanoseconds.
    pub window_start_ns: u128,
}

impl SyncThrottle {
    /// Whether the window is over at `now_ns`.
    pub open spec fn window_over(self, now_ns: u128) -> bool {
        now_ns - self.window_start_ns >= SYNC_RESPONSE_WINDOW_NS
    }

    /// Whether a response may be sent at `now_ns`.
    pub open spec fn allows(self, now_ns: u128) -> bool {
        self.window_over(now_ns) || self.count < MAX_SYNC_RESPONSES_PER_WINDOW
    }

    /// The throttle after a permit was asked for at `now_ns`.
    pub open spec fn after(self, now_ns: u128) -> SyncThrottle {
        if self.window_over(now_ns) {
            SyncThrottle { count: 1, window_start_ns: now_ns }
        } else if self.count < MAX_SYNC_RESPONSES_PER_WINDOW {
            SyncThrottle { count: (self.count + 1) as u32, ..self }
        } else {
            self
        }
    }

    /// A throttle whose first window begins at `now_ns`.
    pub fn new(now_ns: u128) -> (r: Self)
        ensures
            r.count == 0,
            r.window_start_ns == now_ns,
    {
        SyncThrottle { count: 0, window_start_ns: now_ns }
    }

    /// Asks for a permit to send a response.
    pub fn try_acquire(&mut self, now_ns: u128) -> (r: bool)
        ensures
            r == old(self).allows(now_ns),
            *final(self) == old(self).after(now_ns),
    {
        if now_ns.saturating_sub(self.window_start_ns) >= SYNC_RESPONSE_WINDOW_NS {
            self.window_start_ns = now_ns;
            self.count = 1;
            return true;
        }
        if self.count >= MAX_SYNC_RESPONSES_PER_WINDOW {
            return false;
        }
        self.count = self.count + 1;
        true
    }
}

/// The number of permits that a throttle grants when asked at the given
/// times, one after another.
pub open spec fn permits(t: SyncThrottle, times: Seq<u128>) -> nat
    decreases times.len(),
{
    if times.len() == 0 {
        0
    } else {
        (if t.allows(times[0]) {
            1nat
        } else {
            0nat
        }) + permits(t.after(times[0]), times.drop_first())
    }
}

/// However often it is asked within a window, a throttle grants no more than
/// what is left of the window's budget.
pub proof fn law_throttle_bounds_responses(t: SyncThrottle, times: Seq<u128>)
    requires
        t.count <= MAX_SYNC_RESPONSES_PER_WINDOW,
        forall|i: int| 0 <= i < times.len() ==> !t.window_over(#[trigger] times[i]),
    ensures
        permits(t, times) + t.count <= MAX_SYNC_RESPONSES_PER_WINDOW,
    decreases times.len(),
{
    if times.len() > 0 {
        let next = t.after(times[0]);
        assert forall|i: int| 0 <= i < times.drop_first().len() implies !next.window_over(
            #[trigger] times.drop_first()[i],
        ) by {
            assert(!t.window_over(times[i + 1]));
        }
        assert(!t.window_over(times[0]));
        law_throttle_bounds_responses(next, times.drop_first());
    }
}

/// A message between nodes.
#[derive(Clone, Debug)]
pub enum StateSyncMessage {
    /// Asks for blocks.
    BlockRequest {
        /// First block wanted.
        from_seq: CommitSequence,
        /// Number of blocks wanted.
        count: u64,
        /// Where to send the answer.
        requester: PeerId,
    },
    /// Answers with blocks.
    BlockResponse {
        /// The blocks, in ascending order.
        blocks: Vec<CommittedBatch>,
    },
}

/// The encoding of a message.
pub open spec fn message_layout(m: StateSyncMessage) -> Seq<u8> {
    match m {
        StateSyncMessage::BlockRequest { from_seq, count, requester } => request_layout(
            0,
            from_seq.0,
            count,
            requester.0@,
        ),
        StateSyncMessage::BlockResponse { blocks } => response_layout(1, blocks@),
    }
}

/// Whether a message is short enough to be encoded.
pub open spec fn message_fits(m: StateSyncMessage) -> bool {
    m is BlockResponse ==> blocks_fit(m->blocks@)
}

/// Whether two messages say the same.
pub open spec fn same_message(a: StateSyncMessage, b: StateSyncMessage) -> bool {
    match (a, b) {
        (
            StateSyncMessage::BlockRequest { from_seq: f1, count: c1, requester: r1 },
            StateSyncMessage::BlockRequest { from_seq: f2, count: c2, requester: r2 },
        ) => f1 == f2 && c1 == c2 && r1.0@ == r2.0@,
        (
            StateSyncMessage::BlockResponse { blocks: b1 },
            StateSyncMessage::BlockResponse { blocks: b2 },
        ) => same_blocks(b1@, b2@),
        _ => false,
    }
}

/// Encodes a message; `None` if a list in it is too long.
pub fn encode_message(m: &StateSyncMessage) -> (r: Option<Vec<u8>>)
    ensures
        r is Some <==> message_fits(*m),
        r is Some ==> r->Some_0@ == message_layout(*m),
{
    match m {
        StateSyncMessage::BlockRequest { from_seq, count, requester } => encode_request(
            0,
            from_seq.0,
            *count,
            &requester.0.0,
        ),
        StateSyncMessage::BlockResponse { blocks } => encode_response(1, blocks),
    }
}

/// Decodes a message; `None` if the bytes are no message.
pub fn decode_message(data: &[u8]) -> (r: Option<StateSyncMessage>)
    ensures
        r is Some ==> message_fits(r->Some_0) && message_layout(r->Some_0) == data@,
        r is None ==> forall|m: StateSyncMessage| message_fits(m) ==> #[trigger] message_layout(m) != data@,
{
    match decode_request(data) {
        Some((variant, from_seq, count, requester)) => {
            if variant == 0 {
                return Some(
                    StateSyncMessage::BlockRequest {
                        from_seq: CommitSequence(from_seq),
                        count,
                        requester: PeerId(Blake3Digest(requester)),
                    },
                );
            }
            assert(data@[0] == variant);
        },
        None => {},
    }
    match decode_response(data) {
        Some((variant, blocks)) => {
            if variant == 1 {
                return Some(StateSyncMessage::BlockResponse { blocks });
            }
            assert(data@[0] == variant);
        },
        None => {},
    }
    assert forall|m: StateSyncMessage| message_fits(m) implies #[trigger] message_layout(m) != data@ by {
        match m {
            StateSyncMessage::BlockRequest { from_seq, count, requester } => {
                assert(request_layout(0, from_seq.0, count, requester.0@)[0] == 0);
                assert(requester.0@.len() == 32);
            },
            StateSyncMessage::BlockResponse { blocks } => {
                assert(response_layout(1, blocks@)[0] == 1);
            },
        }
    }
    None
}

/// The encoding of a message determines the message: decoding an encoded
/// message gives a message that says the same.
pub proof fn law_messages_read_back(a: StateSyncMessage, b: StateSyncMessage)
    requires
        message_layout(a) == message_layout(b),
    ensures
        same_message(a, b),
{
    match (a, b) {
        (
            StateSyncMessage::BlockRequest { from_seq: f1, count: c1, requester: r1 },
            StateSyncMessage::BlockRequest { from_seq: f2, count: c2, requester: r2 },
        ) => {
            law_request_layout_is_unambiguous(0, f1.0, c1, r1.0@, 0, f2.0, c2, r2.0@);
        },
        (
            StateSyncMessage::BlockResponse { blocks: b1 },
            StateSyncMessage::BlockResponse { blocks: b2 },
        ) => {
            law_response_layout_is_unambiguous(1, b1@, 1, b2@);
        },
        _ => {
            assert(message_layout(a)[0] == if a is BlockRequest {
                0u8
            } else {
                1u8
            });
            assert(message_layout(b)[0] == if b is BlockRequest {
                0u8
            } else {
                1u8
            });
        },
    }
}

/// Decodes an incoming message; a message that is too large, or is none, is
/// dropped.
pub fn accept_message(data: &[u8]) -> (r: Option<StateSyncMessage>)
    ensures
        r is Some ==> data@.len() <= MAX_SYNC_MESSAGE_SIZE && message_fits(r->Some_0)
            && message_layout(r->Some_0) == data@,
        r is None ==> data@.len() > MAX_SYNC_MESSAGE_SIZE || forall|m: StateSyncMessage|
            message_fits(m) ==> #[trigger] message_layout(m) != data@,
{
    if data.len() > MAX_SYNC_MESSAGE_SIZE {
        return None;
    }
    decode_message(data)
}

/// What a node knows of the committees of past epochs.
pub trait CommitteeValidator: Send + Sync {
    /// The certificates known to belong to the committee of an epoch, or
    /// `None` if the epoch is unknown.
    fn known_cert_digests_for_epoch(&self, epoch: EpochNumber) -> Option<Vec<Blake3Digest>>;

    /// The epoch of a commit, or `None` if it is not known.
    fn epoch_for_sequence(&self, sequence: CommitSequence) -> Option<EpochNumber>;

    /// The latest epoch that the node is aware of.
    fn latest_known_epoch(&self) -> EpochNumber;
}

/// A validator that knows no committee and so accepts every block.
pub struct NoOpCommitteeValidator;

impl CommitteeValidator for NoOpCommitteeValidator {
    fn known_cert_digests_for_epoch(&self, epoch: EpochNumber) -> (r: Option<Vec<Blake3Digest>>)
        ensures
            r is None,
    {
        None
    }

    fn epoch_for_sequence(&self, sequence: CommitSequence) -> (r: Option<EpochNumber>)
        ensures
            r == Some(EpochNumber(0)),
    {
        Some(EpochNumber(0))
    }

    fn latest_known_epoch(&self) -> (r: EpochNumber)
        ensures
            r == EpochNumber(0),
    {
        EpochNumber(0)
    }
}

/// Whether `v` says that the commit `sequence` belongs to `epoch`.
pub open spec fn names_epoch<V: CommitteeValidator + ?Sized>(
    v: &V,
    sequence: CommitSequence,
    epoch: Option<EpochNumber>,
) -> bool {
    call_ensures(V::epoch_for_sequence, (v, sequence), epoch)
}

/// Whether `v` says that the certificates of the committee of `epoch` are
/// `known`.
pub open spec fn names_certificates<V: CommitteeValidator + ?Sized>(
    v: &V,
    epoch: EpochNumber,
    known: Option<Vec<Blake3Digest>>,
) -> bool {
    call_ensures(V::known_cert_digests_for_epoch, (v, epoch), known)
}

/// Whether a list holds a digest.
pub open spec fn lists(list: Seq<Blake3Digest>, digest: Seq<u8>) -> bool {
    exists|i: int| 0 <= i < list.len() && (#[trigger] list[i])@ == digest
}

/// Whether the certificates of a block are acceptable: the committee is
/// unknown, or every certificate belongs to it.
pub open spec fn certificates_accepted(
    block: CommittedBatch,
    known: Option<Vec<Blake3Digest>>,
) -> bool {
    match known {
        None => true,
        Some(list) => forall|i: int|
            0 <= i < block.certificates@.len() ==> lists(
                list@,
                (#[trigger] block.certificates@[i])@,
            ),
    }
}

/// Whether `verdict` is what `v` makes of the certificates of a block: they are
/// acceptable where the epoch of the block or its committee is unknown, or all
/// of them belong to the committee.
pub open spec fn committee_judges<V: CommitteeValidator + ?Sized>(
    v: &V,
    block: CommittedBatch,
    verdict: bool,
) -> bool {
    exists|epoch: Option<EpochNumber>|
        {
            &&& #[trigger] names_epoch(v, block.sequence, epoch)
            &&& match epoch {
                None => verdict,
                Some(e) => exists|known: Option<Vec<Blake3Digest>>|
                    {
                        &&& #[trigger] names_certificates(v, e, known)
                        &&& verdict == certificates_accepted(block, known)
                    },
            }
        }
}

/// A validator that knows no committee accepts every block.
pub proof fn law_unknown_committees_accept_all(
    v: NoOpCommitteeValidator,
    block: CommittedBatch,
    verdict: bool,
)
    requires
        committee_judges(&v, block, verdict),
    ensures
        verdict,
{
}

/// Whether a list holds a digest.
fn holds_digest(list: &Vec<Blake3Digest>, digest: &Blake3Digest) -> (r: bool)
    ensures
        r == lists(list@, digest@),
{
    let mut i: usize = 0;
    while i < list.len()
        invariant
            0 <= i <= list@.len(),
            forall|j: int| 0 <= j < i ==> (#[trigger] list@[j])@ != digest@,
        decreases list@.len() - i,
    {
        if bytes_eq(list[i].0.as_slice(), digest.0.as_slice()) {
            assert(list@[i as int]@ == digest@);
            return true;
        }
        i = i + 1;
    }
    false
}

/// Whether the certificates of a block belong to a committee, or the committee
/// is unknown.
pub fn accept_certificates(block: &CommittedBatch, known: &Option<Vec<Blake3Digest>>) -> (r: bool)
    ensures
        r == certificates_accepted(*block, *known),
{
    match known {
        None => true,
        Some(list) => {
            let mut i: usize = 0;
            while i < block.certificates.len()
                invariant
                    0 <= i <= block.certificates@.len(),
                    *known == Some(*list),
                    forall|j: int|
                        0 <= j < i ==> lists(list@, (#[trigger] block.certificates@[j])@),
                decreases block.certificates@.len() - i,
            {
                if !holds_digest(list, &block.certificates[i]) {
                    assert(!lists(list@, block.certificates@[i as int]@));
                    return false;
                }
                i = i + 1;
            }
            true
        },
    }
}

/// Whether the certificates of a block belong to a known committee, or the
/// committee is unknown.
pub fn validate_block_committee<V: CommitteeValidator + ?Sized>(block: &CommittedBatch, validator: &V) -> (r: bool)
    ensures
        committee_judges(validator, *block, r),
{
    let named = validator.epoch_for_sequence(block.sequence);
    assert(names_epoch(validator, block.sequence, named));
    match named {
        None => true,
        Some(epoch) => {
            let known = validator.known_cert_digests_for_epoch(epoch);
            assert(names_certificates(validator, epoch, known));
            accept_certificates(block, &known)
        },
    }
}

/// The shards that this node serves.
///
/// With at most one shard in the network, the node always takes part in
/// synchronisation; with more, only if it serves one of them.
#[derive(Clone, Debug)]
pub struct ShardFilter {
    /// Number of shards in the network.
    pub num_shards: u16,
    /// Shards served by this node, each once.
    pub assigned: Vec<u16>,
}

impl ShardFilter {
    /// No shard is listed twice.
    pub open spec fn wf(&self) -> bool {
        self.assigned@.no_duplicates()
    }

    /// A filter for a network that is not sharded.
    pub fn new() -> (r: Self)
        ensures
            r.wf(),
            r.num_shards == 0,
            r.assigned@ == Seq::<u16>::empty(),
    {
        ShardFilter { num_shards: 0, assigned: Vec::new() }
    }

    /// Replaces the assignment.
    pub fn update(&mut self, num_shards: u16, assigned_shards: &[u16])
        ensures
            final(self).wf(),
            final(self).num_shards == num_shards,
            final(self).assigned@.to_set() == assigned_shards@.to_set(),
    {
        let mut assigned: Vec<u16> = Vec::new();
        let mut i: usize = 0;
        while i < assigned_shards.len()
            invariant
                0 <= i <= assigned_shards@.len(),
                assigned@.no_duplicates(),
                forall|s: u16|
                    assigned@.contains(s) <==> #[trigger] assigned_shards@.take(i as int).contains(s),
            decreases assigned_shards@.len() - i,
        {
            let shard: u16 = assigned_shards[i];
            let ghost before = assigned@;
            let known = holds_shard(&assigned, shard);
            if !known {
                assigned.push(shard);
            }
            proof {
                let done = assigned_shards@.take(i as int);
                let next = assigned_shards@.take(i + 1);
                assert(next =~= done.push(shard));
                assert forall|s: u16| assigned@.contains(s) <==> #[trigger] next.contains(s) by {
                    assert(before.contains(s) <==> done.contains(s));
                    if done.contains(s) {
                        let k = choose|k: int| 0 <= k < done.len() && done[k] == s;
                        assert(next[k] == s);
                    }
                    if next.contains(s) && s != shard {
                        let k = choose|k: int| 0 <= k < next.len() && next[k] == s;
                        assert(done[k] == s);
                    }
                    assert(next[i as int] == shard);
                    if !known {
                        assert(assigned@ == before.push(shard));
                        assert(assigned@[before.len() as int] == shard);
                        if before.contains(s) {
                            let k = choose|k: int| 0 <= k < before.len() && before[k] == s;
                            assert(assigned@[k] == s);
                        }
                        if assigned@.contains(s) && s != shard {
                            let k = choose|k: int| 0 <= k < assigned@.len() && assigned@[k] == s;
                            assert(before[k] == s);
                        }
                    }
                }
            }
            i = i + 1;
        }
        assert(assigned_shards@.take(i as int) =~= assigned_shards@);
        assert(assigned@.to_set() =~= assigned_shards@.to_set()) by {
            assert forall|s: u16| assigned@.to_set().contains(s) == assigned_shards@.to_set().contains(s) by {
                assert(assigned@.contains(s) <==> assigned_shards@.contains(s));
            }
        }
        self.num_shards = num_shards;
        self.assigned = assigned;
    }

    /// Whether the node takes part in synchronisation.
    pub open spec fn syncs(&self) -> bool {
        self.num_shards <= 1 || self.assigned@.len() > 0
    }

    /// Whether the node takes part in synchronisation.
    pub fn should_sync(&self) -> (r: bool)
        ensures
            r == self.syncs(),
    {
        self.num_shards <= 1 || self.assigned.len() > 0
    }

    /// The shards of this node, or `None` if the network is not sharded.
    pub fn assigned_shards(&self) -> (r: Option<Vec<u16>>)
        ensures
            r is None <==> self.num_shards <= 1,
            r is Some ==> r->Some_0@ == self.assigned@,
    {
        if self.num_shards <= 1 {
            return None;
        }
        let copy = self.assigned.clone();
        assert(copy@ =~= self.assigned@);
        Some(copy)
    }
}

/// Whether a list holds a shard.
fn holds_shard(list: &Vec<u16>, shard: u16) -> (r: bool)
    ensures
        r == list@.contains(shard),
{
    let mut i: usize = 0;
    while i < list.len()
        invariant
            0 <= i <= list@.len(),
            forall|j: int| 0 <= j < i ==> list@[j] != shard,
        decreases list@.len() - i,
    {
        if list[i] == shard {
            assert(list@[i as int] == shard);
            return true;
        }
        i = i + 1;
    }
    false
}

impl Default for ShardFilter {
    fn default() -> (r: Self)
        ensures
            r.wf(),
            r.num_shards == 0,
            r.assigned@ == Seq::<u16>::empty(),
    {
        ShardFilter::new()
    }
}

/// The storage key of a block: its sequence number, the highest byte first.
pub open spec fn block_key(sequence: u64) -> Seq<u8> {
    be_bytes(sequence as nat, 8)
}

/// The end of a range of `count` blocks from `from`, or the last number if
/// the range reaches beyond it.
pub open spec fn range_end(from: u64, count: u64) -> u64 {
    if from + count <= u64::MAX {
        (from + count) as u64
    } else {
        u64::MAX
    }
}

/// The range of storage keys that holds the blocks from `from_seq` on, `count`
/// of them; the end of the range is not part of it.
pub fn block_range(from_seq: CommitSequence, count: u64) -> (r: (Vec<u8>, Vec<u8>))
    ensures
        r.0@ == block_key(from_seq.0),
        r.1@ == block_key(range_end(from_seq.0, count)),
{
    let end: u64 = from_seq.0.saturating_add(count);
    (to_be_bytes(from_seq.0, 8), to_be_bytes(end, 8))
}

/// A block is in the key range exactly when its sequence number is in the
/// numeric range.
pub proof fn law_key_range_is_number_range(sequence: u64, from: u64, end: u64)
    ensures
        (!lex_lt(block_key(sequence), block_key(from)) && lex_lt(block_key(sequence), block_key(end)))
            <==> from <= sequence < end,
{
    lemma_pow256_values();
    law_big_endian_keeps_order(sequence as nat, from as nat, 8);
    law_big_endian_keeps_order(sequence as nat, end as nat, 8);
}

/// Whether a stored value is the encoding of a block.
pub open spec fn is_block(value: Seq<u8>) -> bool {
    exists|b: CommittedBatch| block_fits(b) && #[trigger] block_layout(b) == value
}

/// The values of storage entries.
pub open spec fn entry_values(entries: Seq<(Vec<u8>, Vec<u8>)>) -> Seq<Seq<u8>> {
    entries.map_values(|e: (Vec<u8>, Vec<u8>)| e.1@)
}

/// The encodings of blocks.
pub open spec fn layouts(blocks: Seq<CommittedBatch>) -> Seq<Seq<u8>> {
    blocks.map_values(|b: CommittedBatch| block_layout(b))
}

/// The blocks in storage entries, in order; entries that hold none are
/// skipped.
pub fn load_committed_blocks(entries: &Vec<(Vec<u8>, Vec<u8>)>) -> (r: Vec<CommittedBatch>)
    ensures
        layouts(r@) == entry_values(entries@).filter(|v: Seq<u8>| is_block(v)),
        blocks_each_fit(r@),
{
    let ghost pred = |v: Seq<u8>| is_block(v);
    let ghost values = entry_values(entries@);
    let mut blocks: Vec<CommittedBatch> = Vec::new();
    let mut i: usize = 0;
    proof {
        reveal(Seq::filter);
        assert(layouts(blocks@) =~= values.take(0).filter(pred));
    }
    while i < entries.len()
        invariant
            0 <= i <= entries@.len(),
            values == entry_values(entries@),
            pred == (|v: Seq<u8>| is_block(v)),
            layouts(blocks@) == values.take(i as int).filter(pred),
            blocks_each_fit(blocks@),
        decreases entries@.len() - i,
    {
        proof {
            reveal(Seq::filter);
            assert(values.take(i + 1).drop_last() =~= values.take(i as int));
            assert(values.take(i + 1).last() == entries@[i as int].1@);
        }
        match decode_block(entries[i].1.as_slice()) {
            Some(block) => {
                let ghost before = blocks@;
                assert(block_layout(block) == entries@[i as int].1@);
                assert(is_block(entries@[i as int].1@));
                blocks.push(block);
                assert(layouts(blocks@) =~= layouts(before).push(block_layout(block)));
            },
            None => {
                assert(!is_block(entries@[i as int].1@));
            },
        }
        i = i + 1;
    }
    assert(values.take(i as int) =~= values);
    blocks
}

/// Whether every block is short enough to be encoded.
pub open spec fn blocks_each_fit(blocks: Seq<CommittedBatch>) -> bool {
    forall|i: int| 0 <= i < blocks.len() ==> block_fits(#[trigger] blocks[i])
}

/// Why a response was rejected.
#[derive(Clone, Copy, Debug, PartialEq, Eq, Structural)]
pub enum RejectReason {
    /// A block has no certificates.
    EmptyCertificates,
    /// The blocks do not follow each other.
    NotContiguous,
    /// A block of the range is stored already.
    Overlap,
    /// A certificate does not belong to the committee of its epoch.
    UnknownCommittee,
}

/// What to do with a response.
#[derive(Debug)]
pub enum BlockResponseOutcome {
    /// There is nothing in it.
    Empty,
    /// It is not trusted: nothing is stored.
    Rejected(RejectReason),
    /// These entries are to be stored.
    Store(Vec<(Vec<u8>, Vec<u8>)>),
}

/// Whether every block has certificates.
pub open spec fn all_certified(blocks: Seq<CommittedBatch>) -> bool {
    forall|i: int| 0 <= i < blocks.len() ==> (#[trigger] blocks[i]).certificates@.len() > 0
}

/// Whether each block has the number after its predecessor's.
pub open spec fn contiguous(blocks: Seq<CommittedBatch>) -> bool {
    forall|i: int|
        0 <= i < blocks.len() - 1 ==> (#[trigger] blocks[i]).sequence.0 + 1 == blocks[i + 1].sequence.0
}

/// Whether `accepted` is what a validator, if there is one, makes of blocks: it
/// accepts each in turn, or it refuses one after it accepted those before.
pub open spec fn blocks_judged<V: CommitteeValidator + ?Sized>(
    v: Option<&V>,
    blocks: Seq<CommittedBatch>,
    accepted: bool,
) -> bool {
    match v {
        None => accepted,
        Some(validator) => if accepted {
            accepted_until(validator, blocks, blocks.len() as int)
        } else {
            some_refused(validator, blocks)
        },
    }
}

/// Whether `v` accepts the first `n` blocks.
pub open spec fn accepted_until<V: CommitteeValidator + ?Sized>(
    v: &V,
    blocks: Seq<CommittedBatch>,
    n: int,
) -> bool {
    forall|i: int| 0 <= i < n ==> committee_judges(v, #[trigger] blocks[i], true)
}

/// Whether `v` refuses one of the blocks after it accepted those before.
pub open spec fn some_refused<V: CommitteeValidator + ?Sized>(v: &V, blocks: Seq<CommittedBatch>) -> bool {
    exists|n: int| 0 <= n < blocks.len() && #[trigger] first_refused(v, blocks, n)
}

/// Whether `v` accepts the first `n` blocks and refuses the next.
pub open spec fn first_refused<V: CommitteeValidator + ?Sized>(
    v: &V,
    blocks: Seq<CommittedBatch>,
    n: int,
) -> bool {
    accepted_until(v, blocks, n) && committee_judges(v, blocks[n], false)
}

/// Whether `entries` are what the first `n` blocks are stored as: the key and
/// the encoding of each that can be encoded.
pub open spec fn stores(
    blocks: Seq<CommittedBatch>,
    n: int,
    entries: Seq<(Vec<u8>, Vec<u8>)>,
) -> bool
    decreases n,
{
    if n <= 0 {
        entries.len() == 0
    } else if block_fits(blocks[n - 1]) {
        &&& entries.len() > 0
        &&& entries.last().0@ == block_key(blocks[n - 1].sequence.0)
        &&& entries.last().1@ == block_layout(blocks[n - 1])
        &&& stores(blocks, n - 1, entries.drop_last())
    } else {
        stores(blocks, n - 1, entries)
    }
}

/// Whether `r` is what a response calls for, given the blocks of the range
/// that are stored already.
pub open spec fn response_outcome<V: CommitteeValidator + ?Sized>(
    blocks: Seq<CommittedBatch>,
    overlap: bool,
    validator: Option<&V>,
    r: BlockResponseOutcome,
) -> bool {
    if blocks.len() == 0 {
        r is Empty
    } else if !all_certified(blocks) {
        r == BlockResponseOutcome::Rejected(RejectReason::EmptyCertificates)
    } else if !contiguous(blocks) {
        r == BlockResponseOutcome::Rejected(RejectReason::NotContiguous)
    } else if overlap {
        r == BlockResponseOutcome::Rejected(RejectReason::Overlap)
    } else {
        ||| blocks_judged(validator, blocks, false) && r == BlockResponseOutcome::Rejected(
            RejectReason::UnknownCommittee,
        )
        ||| blocks_judged(validator, blocks, true) && r is Store && stores(
            blocks,
            blocks.len() as int,
            r->Store_0@,
        )
    }
}

/// Whether every block has certificates.
fn check_certified(blocks: &Vec<CommittedBatch>) -> (r: bool)
    ensures
        r == all_certified(blocks@),
{
    let mut i: usize = 0;
    while i < blocks.len()
        invariant
            0 <= i <= blocks@.len(),
            forall|j: int| 0 <= j < i ==> (#[trigger] blocks@[j]).certificates@.len() > 0,
        decreases blocks@.len() - i,
    {
        if blocks[i].certificates.len() == 0 {
            assert(blocks@[i as int].certificates@.len() == 0);
            return false;
        }
        i = i + 1;
    }
    true
}

/// Whether each block has the number after its predecessor's.
fn check_contiguous(blocks: &Vec<CommittedBatch>) -> (r: bool)
    ensures
        r == contiguous(blocks@),
{
    let mut i: usize = 1;
    while i < blocks.len()
        invariant
            1 <= i,
            blocks@.len() > 0 ==> i <= blocks@.len(),
            forall|j: int|
                0 <= j < i - 1 ==> (#[trigger] blocks@[j]).sequence.0 + 1 == blocks@[j + 1].sequence.0,
        decreases blocks@.len() - i,
    {
        let prev: u64 = blocks[i - 1].sequence.0;
        if prev == u64::MAX || blocks[i].sequence.0 != prev + 1 {
            assert(blocks@[i - 1].sequence.0 + 1 != blocks@[i as int].sequence.0);
            return false;
        }
        i = i + 1;
    }
    true
}

/// Whether a validator accepts every block.
fn check_committee<V: CommitteeValidator + ?Sized>(blocks: &Vec<CommittedBatch>, validator: &V) -> (r: bool)
    ensures
        blocks_judged(Some(validator), blocks@, r),
{
    let mut i: usize = 0;
    while i < blocks.len()
        invariant
            0 <= i <= blocks@.len(),
            accepted_until(validator, blocks@, i as int),
        decreases blocks@.len() - i,
    {
        if !validate_block_committee(&blocks[i], validator) {
            assert(some_refused(validator, blocks@)) by {
                assert(first_refused(validator, blocks@, i as int));
            }
            return false;
        }
        i = i + 1;
    }
    true
}

/// The entries under which blocks are stored.
fn storage_entries(blocks: &Vec<CommittedBatch>) -> (r: Vec<(Vec<u8>, Vec<u8>)>)
    ensures
        stores(blocks@, blocks@.len() as int, r@),
{
    let mut entries: Vec<(Vec<u8>, Vec<u8>)> = Vec::new();
    let mut i: usize = 0;
    while i < blocks.len()
        invariant
            0 <= i <= blocks@.len(),
            stores(blocks@, i as int, entries@),
        decreases blocks@.len() - i,
    {
        let ghost before = entries@;
        match encode_block(&blocks[i]) {
            Some(value) => {
                entries.push((to_be_bytes(blocks[i].sequence.0, 8), value));
                assert(entries@.drop_last() =~= before);
            },
            None => {},
        }
        i = i + 1;
    }
    entries
}

/// Decides what to do with a response, given the entries that storage holds
/// in the range of its blocks.
pub fn judge_block_response<V: CommitteeValidator + ?Sized>(
    blocks: &Vec<CommittedBatch>,
    existing: &Vec<(Vec<u8>, Vec<u8>)>,
    validator: Option<&V>,
) -> (r: BlockResponseOutcome)
    ensures
        response_outcome(blocks@, holds_block(existing@), validator, r),
{
    if blocks.len() == 0 {
        return BlockResponseOutcome::Empty;
    }
    if !check_certified(blocks) {
        return BlockResponseOutcome::Rejected(RejectReason::EmptyCertificates);
    }
    if !check_contiguous(blocks) {
        return BlockResponseOutcome::Rejected(RejectReason::NotContiguous);
    }
    let stored = load_committed_blocks(existing);
    proof {
        lemma_any_block(existing@, layouts(stored@));
        assert(layouts(stored@).len() == stored@.len());
    }
    if stored.len() > 0 {
        return BlockResponseOutcome::Rejected(RejectReason::Overlap);
    }
    match validator {
        Some(v) => {
            if !check_committee(blocks, v) {
                return BlockResponseOutcome::Rejected(RejectReason::UnknownCommittee);
            }
        },
        None => {},
    }
    BlockResponseOutcome::Store(storage_entries(blocks))
}

/// Whether one of the entries holds a block.
pub open spec fn holds_block(entries: Seq<(Vec<u8>, Vec<u8>)>) -> bool {
    exists|i: int| 0 <= i < entries.len() && is_block((#[trigger] entries[i]).1@)
}

proof fn lemma_any_block(entries: Seq<(Vec<u8>, Vec<u8>)>, kept: Seq<Seq<u8>>)
    requires
        kept == entry_values(entries).filter(|v: Seq<u8>| is_block(v)),
    ensures
        kept.len() > 0 <==> holds_block(entries),
{
    let pred = |v: Seq<u8>| is_block(v);
    let values = entry_values(entries);
    if kept.len() > 0 {
        values.lemma_filter_pred(pred, 0);
        assert(kept.contains(kept[0]));
        values.lemma_filter_contains_rev(pred, kept[0]);
        let k = choose|k: int| 0 <= k < values.len() && values[k] == kept[0];
        assert(is_block(entries[k].1@));
    }
    if holds_block(entries) {
        let i = choose|i: int| 0 <= i < entries.len() && is_block((#[trigger] entries[i]).1@);
        assert(values[i] == entries[i].1@);
        values.lemma_filter_contains(pred, i);
        assert(kept.contains(values[i]));
    }
}

/// Whether `scan` gave `entries` for the range of `count` blocks from `from`.
pub open spec fn scanned<F: Fn(&Vec<u8>, &Vec<u8>) -> Vec<(Vec<u8>, Vec<u8>)>>(
    scan: F,
    from: u64,
    count: u64,
    entries: Vec<(Vec<u8>, Vec<u8>)>,
) -> bool {
    exists|start: Vec<u8>, end: Vec<u8>|
        {
            &&& #[trigger] scan.ensures((&start, &end), entries)
            &&& start@ == block_key(from)
            &&& end@ == block_key(range_end(from, count))
        }
}

/// Whether `r` is what the response `blocks` calls for, given what storage holds
/// in the range of the blocks.
pub open spec fn response_handled<
    V: CommitteeValidator + ?Sized,
    F: Fn(&Vec<u8>, &Vec<u8>) -> Vec<(Vec<u8>, Vec<u8>)>,
>(
    blocks: Seq<CommittedBatch>,
    scan: F,
    validator: Option<&V>,
    r: BlockResponseOutcome,
) -> bool {
    if blocks.len() == 0 {
        r is Empty
    } else {
        exists|existing: Vec<(Vec<u8>, Vec<u8>)>|
            {
                &&& #[trigger] scanned(scan, blocks[0].sequence.0, blocks.len() as u64, existing)
                &&& response_outcome(blocks, holds_block(existing@), validator, r)
            }
    }
}

/// Handles a response. `scan` gives the storage entries of a key range; it is
/// asked for the range of the blocks.
pub fn handle_block_response<V: CommitteeValidator + ?Sized, F: Fn(&Vec<u8>, &Vec<u8>) -> Vec<(Vec<u8>, Vec<u8>)>>(
    blocks: &Vec<CommittedBatch>,
    scan: &F,
    validator: Option<&V>,
) -> (r: BlockResponseOutcome)
    requires
        forall|s: &Vec<u8>, e: &Vec<u8>| scan.requires((s, e)),
    ensures
        response_handled(blocks@, *scan, validator, r),
{
    if blocks.len() == 0 {
        return BlockResponseOutcome::Empty;
    }
    let (start, end) = block_range(blocks[0].sequence, blocks.len() as u64);
    let existing = scan(&start, &end);
    assert(scanned(*scan, blocks@[0].sequence.0, blocks@.len() as u64, existing)) by {
        assert(scan.ensures((&start, &end), existing));
    }
    judge_block_response(blocks, &existing, validator)
}

/// The number of blocks that is served when `count` are asked for.
pub open spec fn capped(count: u64) -> u64 {
    if count <= MAX_BLOCKS_PER_RESPONSE {
        count
    } else {
        MAX_BLOCKS_PER_RESPONSE
    }
}

/// Whether `r` is the answer to a request whose range holds `entries`: their
/// blocks in one message, unless there are none or the message is too large.
pub open spec fn answer_outcome(entries: Seq<(Vec<u8>, Vec<u8>)>, r: Option<Vec<u8>>) -> bool {
    if !holds_block(entries) {
        r is None
    } else {
        exists|blocks: Seq<CommittedBatch>|
            {
                &&& #[trigger] layouts(blocks) == entry_values(entries).filter(
                    |v: Seq<u8>| is_block(v),
                )
                &&& r is Some <==> (blocks_fit(blocks) && response_layout(1, blocks).len()
                    <= MAX_SYNC_MESSAGE_SIZE)
                &&& r is Some ==> r->Some_0@ == response_layout(1, blocks)
            }
    }
}

/// The answer to a request, given the storage entries of its range: `None` if
/// they hold no block, or the answer is too large.
pub fn answer_from_entries(entries: &Vec<(Vec<u8>, Vec<u8>)>) -> (r: Option<Vec<u8>>)
    ensures
        answer_outcome(entries@, r),
{
    let blocks = load_committed_blocks(entries);
    let ghost list = blocks@;
    proof {
        lemma_any_block(entries@, layouts(list));
        assert(layouts(list).len() == list.len());
    }
    if blocks.len() == 0 {
        return None;
    }
    assert(layouts(list) == entry_values(entries@).filter(|v: Seq<u8>| is_block(v)));
    let message = StateSyncMessage::BlockResponse { blocks };
    match encode_message(&message) {
        Some(data) => {
            if data.len() > MAX_SYNC_MESSAGE_SIZE {
                return None;
            }
            Some(data)
        },
        None => None,
    }
}

/// Whether `r` is the answer to a request for `count` blocks from `from`: there
/// is none where the throttle does not allow it at `now_ns`.
pub open spec fn request_served<F: Fn(&Vec<u8>, &Vec<u8>) -> Vec<(Vec<u8>, Vec<u8>)>>(
    from: u64,
    count: u64,
    throttle: SyncThrottle,
    now_ns: u128,
    scan: F,
    r: Option<Vec<u8>>,
) -> bool {
    if throttle.allows(now_ns) {
        exists|entries: Vec<(Vec<u8>, Vec<u8>)>|
            {
                &&& #[trigger] scanned(scan, from, capped(count), entries)
                &&& answer_outcome(entries@, r)
            }
    } else {
        r is None
    }
}

/// Serves a request: the bytes to send to the requester, or `None` if nothing
/// is to be sent. `scan` gives the storage entries of a key range.
pub fn handle_block_request<F: Fn(&Vec<u8>, &Vec<u8>) -> Vec<(Vec<u8>, Vec<u8>)>>(
    from_seq: CommitSequence,
    count: u64,
    throttle: &mut SyncThrottle,
    now_ns: u128,
    scan: &F,
) -> (r: Option<Vec<u8>>)
    requires
        forall|s: &Vec<u8>, e: &Vec<u8>| scan.requires((s, e)),
    ensures
        *final(throttle) == old(throttle).after(now_ns),
        request_served(from_seq.0, count, *old(throttle), now_ns, *scan, r),
{
    if !throttle.try_acquire(now_ns) {
        return None;
    }
    let wanted: u64 = if count <= MAX_BLOCKS_PER_RESPONSE {
        count
    } else {
        MAX_BLOCKS_PER_RESPONSE
    };
    let (start, end) = block_range(from_seq, wanted);
    let entries = scan(&start, &end);
    assert(scanned(*scan, from_seq.0, capped(count), entries)) by {
        assert(wanted == capped(count));
        assert(scan.ensures((&start, &end), entries));
    }
    let r = answer_from_entries(&entries);
    assert(answer_outcome(entries@, r));
    r
}

/// What to do with an incoming message.
#[derive(Debug)]
pub enum SyncAction {
    /// Nothing.
    Ignore,
    /// Nothing: the node serves none of several shards.
    Filtered,
    /// Send the bytes to a peer, and to no other.
    Send(PeerId, Vec<u8>),
    /// Store the entries.
    Store(Vec<(Vec<u8>, Vec<u8>)>),
    /// Nothing: the blocks are not trusted.
    Reject(RejectReason),
    /// Warn that so many messages were missed.
    WarnLagged(u64),
    /// End the service.
    Stop,
}

/// Whether `data` is the encoding of a message.
pub open spec fn is_message(data: Seq<u8>) -> bool {
    exists|m: StateSyncMessage| message_fits(m) && #[trigger] message_layout(m) == data
}

/// Whether `action` sends the answer to `requester`, if there is an answer.
pub open spec fn answer_sent(action: SyncAction, requester: PeerId, answer: Option<Vec<u8>>) -> bool {
    match answer {
        Some(data) => action == SyncAction::Send(requester, data),
        None => action is Ignore,
    }
}

/// Whether `action` does what a response calls for.
pub open spec fn outcome_done(action: SyncAction, outcome: BlockResponseOutcome) -> bool {
    match outcome {
        BlockResponseOutcome::Empty => action is Ignore,
        BlockResponseOutcome::Rejected(reason) => action == SyncAction::Reject(reason),
        BlockResponseOutcome::Store(entries) => action == SyncAction::Store(entries),
    }
}

/// Whether `action` is what the message `m` calls for, and `after` the throttle
/// that was `before`.
pub open spec fn message_handled<
    V: CommitteeValidator + ?Sized,
    F: Fn(&Vec<u8>, &Vec<u8>) -> Vec<(Vec<u8>, Vec<u8>)>,
>(
    m: StateSyncMessage,
    before: SyncThrottle,
    after: SyncThrottle,
    now_ns: u128,
    scan: F,
    validator: Option<&V>,
    action: SyncAction,
) -> bool {
    match m {
        StateSyncMessage::BlockRequest { from_seq, count, requester } => {
            &&& after == before.after(now_ns)
            &&& exists|answer: Option<Vec<u8>>|
                {
                    &&& #[trigger] request_served(from_seq.0, count, before, now_ns, scan, answer)
                    &&& answer_sent(action, requester, answer)
                }
        },
        StateSyncMessage::BlockResponse { blocks } => {
            &&& after == before
            &&& exists|outcome: BlockResponseOutcome|
                {
                    &&& #[trigger] response_handled(blocks@, scan, validator, outcome)
                    &&& outcome_done(action, outcome)
                }
        },
    }
}

/// Whether `action` is what the bytes `data` call for: nothing where they are
/// too many or no message.
pub open spec fn data_handled<
    V: CommitteeValidator + ?Sized,
    F: Fn(&Vec<u8>, &Vec<u8>) -> Vec<(Vec<u8>, Vec<u8>)>,
>(
    data: Seq<u8>,
    before: SyncThrottle,
    after: SyncThrottle,
    now_ns: u128,
    scan: F,
    validator: Option<&V>,
    action: SyncAction,
) -> bool {
    if data.len() > MAX_SYNC_MESSAGE_SIZE || !is_message(data) {
        action is Ignore && after == before
    } else {
        exists|m: StateSyncMessage|
            {
                &&& message_fits(m)
                &&& #[trigger] message_layout(m) == data
                &&& message_handled(m, before, after, now_ns, scan, validator, action)
            }
    }
}

/// Handles an incoming message. `scan` gives the storage entries of a key
/// range.
pub fn handle_sync_message<
    V: CommitteeValidator + ?Sized,
    F: Fn(&Vec<u8>, &Vec<u8>) -> Vec<(Vec<u8>, Vec<u8>)>,
>(
    data: &[u8],
    throttle: &mut SyncThrottle,
    now_ns: u128,
    scan: &F,
    validator: Option<&V>,
) -> (r: SyncAction)
    requires
        forall|s: &Vec<u8>, e: &Vec<u8>| scan.requires((s, e)),
    ensures
        data_handled(data@, *old(throttle), *final(throttle), now_ns, *scan, validator, r),
{
    let message = match accept_message(data) {
        Some(message) => message,
        None => {
            return SyncAction::Ignore;
        },
    };
    let ghost m = message;
    assert(is_message(data@)) by {
        assert(message_layout(m) == data@);
    }
    let ghost before = *throttle;
    let action = match message {
        StateSyncMessage::BlockRequest { from_seq, count, requester } => {
            let answer = handle_block_request(from_seq, count, throttle, now_ns, scan);
            assert(request_served(from_seq.0, count, before, now_ns, *scan, answer));
            match answer {
                Some(reply) => SyncAction::Send(requester, reply),
                None => SyncAction::Ignore,
            }
        },
        StateSyncMessage::BlockResponse { blocks } => {
            let outcome = handle_block_response(&blocks, scan, validator);
            assert(response_handled(blocks@, *scan, validator, outcome));
            match outcome {
                BlockResponseOutcome::Empty => SyncAction::Ignore,
                BlockResponseOutcome::Rejected(reason) => SyncAction::Reject(reason),
                BlockResponseOutcome::Store(entries) => SyncAction::Store(entries),
            }
        },
    };
    assert(message_handled(m, before, *throttle, now_ns, *scan, validator, action));
    action
}

/// What comes in on the channel of messages.
#[derive(Debug)]
pub enum SyncInput {
    /// A message.
    Message(Vec<u8>),
    /// So many messages were missed.
    Lagged(u64),
    /// No more messages will come.
    Closed,
}

/// One step of the service: what to do with what came in. Messages are filtered
/// out where the node serves none of several shards.
pub fn sync_service_step<
    V: CommitteeValidator + ?Sized,
    F: Fn(&Vec<u8>, &Vec<u8>) -> Vec<(Vec<u8>, Vec<u8>)>,
>(
    input: SyncInput,
    shard_filter: Option<&ShardFilter>,
    throttle: &mut SyncThrottle,
    now_ns: u128,
    scan: &F,
    validator: Option<&V>,
) -> (r: SyncAction)
    requires
        forall|s: &Vec<u8>, e: &Vec<u8>| scan.requires((s, e)),
    ensures
        match input {
            SyncInput::Message(data) => if shard_filter is Some && !shard_filter->Some_0.syncs() {
                r is Filtered && *final(throttle) == *old(throttle)
            } else {
                data_handled(data@, *old(throttle), *final(throttle), now_ns, *scan, validator, r)
            },
            SyncInput::Lagged(n) => r == SyncAction::WarnLagged(n) && *final(throttle) == *old(
                throttle,
            ),
            SyncInput::Closed => r is Stop && *final(throttle) == *old(throttle),
        },
{
    match input {
        SyncInput::Message(data) => {
            if let Some(filter) = shard_filter {
                if !filter.should_sync() {
                    return SyncAction::Filtered;
                }
            }
            handle_sync_message(data.as_slice(), throttle, now_ns, scan, validator)
        },
        SyncInput::Lagged(n) => SyncAction::WarnLagged(n),
        SyncInput::Closed => SyncAction::Stop,
    }
}

/// The request for missing blocks, as the bytes to publish; `None` if the
/// shard filter holds it back.
pub fn request_blocks_filtered(
    from_seq: CommitSequence,
    count: u64,
    local_peer_id: PeerId,
    shard_filter: Option<&ShardFilter>,
) -> (r: Option<Vec<u8>>)
    ensures
        r is None <==> (shard_filter is Some && !shard_filter->Some_0.syncs()),
        r is Some ==> r->Some_0@ == request_layout(0, from_seq.0, capped(count), local_peer_id.0@),
{
    match shard_filter {
        Some(filter) => {
            if !filter.should_sync() {
                return None;
            }
        },
        None => {},
    }
    let wanted: u64 = if count <= MAX_BLOCKS_PER_RESPONSE {
        count
    } else {
        MAX_BLOCKS_PER_RESPONSE
    };
    encode_message(
        &StateSyncMessage::BlockRequest { from_seq, count: wanted, requester: local_peer_id },
    )
}

/// The request for missing blocks, as the bytes to publish.
pub fn request_blocks(from_seq: CommitSequence, count: u64, local_peer_id: PeerId) -> (r: Option<Vec<u8>>)
    ensures
        r is Some,
        r->Some_0@ == request_layout(0, from_seq.0, capped(count), local_peer_id.0@),
{
    request_blocks_filtered(from_seq, count, local_peer_id, None)
}

/// Stored blocks load back: entries that hold the encodings of blocks decode
/// to blocks of the same contents.
pub proof fn law_stored_blocks_load_back(
    blocks: Seq<CommittedBatch>,
    entries: Seq<(Vec<u8>, Vec<u8>)>,
    loaded: Seq<CommittedBatch>,
)
    requires
        blocks_each_fit(blocks),
        stores(blocks, blocks.len() as int, entries),
        layouts(loaded) == entry_values(entries).filter(|v: Seq<u8>| is_block(v)),
    ensures
        same_blocks(loaded, blocks),
{
    let pred = |v: Seq<u8>| is_block(v);
    lemma_stored_values(blocks, blocks.len() as int, entries);
    let values = entry_values(entries);
    assert(values =~= layouts(blocks)) by {
        assert(blocks.take(blocks.len() as int) =~= blocks);
    }
    assert forall|i: int| 0 <= i < values.len() implies pred(#[trigger] values[i]) by {
        assert(values[i] == block_layout(blocks[i]));
        assert(block_fits(blocks[i]));
    }
    lemma_filter_keeps_all(values, pred);
    assert(layouts(loaded) == layouts(blocks));
    assert(layouts(loaded).len() == loaded.len());
    assert(layouts(blocks).len() == blocks.len());
    assert forall|i: int| 0 <= i < loaded.len() implies same_block(#[trigger] loaded[i], blocks[i]) by {
        assert(layouts(loaded)[i] == layouts(blocks)[i]);
        law_block_layout_is_unambiguous(loaded[i], blocks[i]);
    }
}

proof fn lemma_stored_values(
    blocks: Seq<CommittedBatch>,
    n: int,
    entries: Seq<(Vec<u8>, Vec<u8>)>,
)
    requires
        0 <= n <= blocks.len(),
        blocks_each_fit(blocks),
        stores(blocks, n, entries),
    ensures
        entry_values(entries) == layouts(blocks.take(n)),
    decreases n,
{
    if n > 0 {
        assert(block_fits(blocks[n - 1]));
        lemma_stored_values(blocks, n - 1, entries.drop_last());
        assert(blocks.take(n).drop_last() =~= blocks.take(n - 1));
        assert(entry_values(entries) =~= entry_values(entries.drop_last()).push(
            entries.last().1@,
        ));
        assert(layouts(blocks.take(n)) =~= layouts(blocks.take(n - 1)).push(
            block_layout(blocks[n - 1]),
        ));
    } else {
        assert(entry_values(entries) =~= layouts(blocks.take(n)));
    }
}

proof fn lemma_filter_keeps_all(s: Seq<Seq<u8>>, pred: spec_fn(Seq<u8>) -> bool)
    requires
        forall|i: int| 0 <= i < s.len() ==> pred(#[trigger] s[i]),
    ensures
        s.filter(pred) == s,
    decreases s.len(),
{
    reveal(Seq::filter);
    if s.len() > 0 {
        lemma_filter_keeps_all(s.drop_last(), pred);
        assert(pred(s[s.len() - 1]));
        assert(s =~= s.drop_last().push(s.last()));
    }
}

} // verus!
