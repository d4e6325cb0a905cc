//! How far submitted intents have come.
//!
//! An intent is registered with the digests of its transactions. As they are
//! executed or fail, the intent becomes completed or failed. An intent that is
//! registered again starts anew. When there are too many intents, the one that
//! was registered longest ago is forgotten.

use vstd::prelude::*;
use vstd::string::*;

use crate::primitives::table::KeyTable;
use crate::primitives::text::bytes_eq;
use crate::primitives::{IntentId, TimestampMs, TxDigest};
use crate::rpc::agent::IntentStatus;

verus! {

/// Number of intents that are tracked.
pub const MAX_TRACKED_INTENTS: usize = 10_000;

/// What is known of an intent.
#[derive(Debug)]
pub struct IntentRecord {
    /// The intent.
    pub intent_id: IntentId,
    /// How far it has come.
    pub status: IntentStatus,
    /// Digests of its transactions.
    pub tx_hashes: Vec<TxDigest>,
    /// When it was submitted.
    pub submitted_at: TimestampMs,
    /// When its record last changed.
    pub updated_at: TimestampMs,
    /// Gas that its executed transactions used.
    pub gas_used: u64,
    /// Number of executions reported.
    pub confirmed_count: usize,
    /// Number of failures reported.
    pub failed_count: usize,
}

/// A tracker's contents.
#[verifier::ext_equal]
pub struct TrackedIntents {
    /// The record of each intent.
    pub intents: Map<Seq<u8>, IntentRecord>,
    /// The intent that each transaction belongs to.
    pub owners: Map<Seq<u8>, IntentId>,
    /// The registered intents, the oldest first.
    pub order: Seq<IntentId>,
}

/// `owners` with each of `hashes` given to `id`.
pub open spec fn given(
    owners: Map<Seq<u8>, IntentId>,
    hashes: Seq<TxDigest>,
    id: IntentId,
) -> Map<Seq<u8>, IntentId>
    decreases hashes.len(),
{
    if hashes.len() == 0 {
        owners
    } else {
        given(owners, hashes.drop_last(), id).insert(hashes.last()@, id)
    }
}

/// `owners` without the transactions that belong to the intent `key`.
pub open spec fn disowned(owners: Map<Seq<u8>, IntentId>, key: Seq<u8>) -> Map<Seq<u8>, IntentId> {
    Map::new(
        |tx: Seq<u8>| owners.dom().contains(tx) && owners[tx]@ != key,
        |tx: Seq<u8>| owners[tx],
    )
}

/// The record of an intent that was submitted at the time `now`.
pub open spec fn fresh_record(id: IntentId, hashes: Vec<TxDigest>, now: TimestampMs) -> IntentRecord {
    IntentRecord {
        intent_id: id,
        status: IntentStatus::Submitted { steps: hashes@.len() as usize },
        tx_hashes: hashes,
        submitted_at: now,
        updated_at: now,
        gas_used: 0,
        confirmed_count: 0,
        failed_count: 0,
    }
}

/// The record after one of the intent's transactions was executed: an intent
/// that is no longer under way stays as it is, and one whose last transaction
/// this was is completed.
pub open spec fn executed_record(record: IntentRecord, gas_used: u64, now: TimestampMs) -> IntentRecord {
    if record.status is Submitted {
        let total = (record.gas_used + gas_used) as u64;
        IntentRecord {
            confirmed_count: (record.confirmed_count + 1) as usize,
            gas_used: total,
            updated_at: now,
            status: if record.confirmed_count + 1 >= record.tx_hashes@.len() {
                IntentStatus::Completed { gas_used: total }
            } else {
                record.status
            },
            ..record
        }
    } else {
        record
    }
}

/// The record after one of the intent's transactions failed: an intent that is
/// under way has failed.
pub open spec fn failed_record(record: IntentRecord, reason: String, now: TimestampMs) -> IntentRecord {
    if record.status is Submitted {
        IntentRecord {
            failed_count: (record.failed_count + 1) as usize,
            updated_at: now,
            status: IntentStatus::Failed { reason },
            ..record
        }
    } else {
        record
    }
}

impl TrackedIntents {
    /// The contents without the intent `key` and what belongs to it.
    pub open spec fn forgotten(self, key: Seq<u8>) -> TrackedIntents {
        TrackedIntents {
            intents: self.intents.remove(key),
            owners: disowned(self.owners, key),
            order: without(self.order, key),
        }
    }

    /// The contents with an intent as the latest, which is not tracked yet.
    pub open spec fn extended(self, id: IntentId, hashes: Vec<TxDigest>, now: TimestampMs) -> TrackedIntents {
        TrackedIntents {
            intents: self.intents.insert(id@, fresh_record(id, hashes, now)),
            owners: given(self.owners, hashes@, id),
            order: self.order.push(id),
        }
    }

    /// The contents after an intent was registered: what was known of it is
    /// forgotten, and so is the oldest intent where there are too many.
    pub open spec fn registered(self, id: IntentId, hashes: Vec<TxDigest>, now: TimestampMs) -> TrackedIntents {
        let full = self.forgotten(id@).extended(id, hashes, now);
        if full.order.len() <= MAX_TRACKED_INTENTS {
            full
        } else {
            full.forgotten(full.order[0]@)
        }
    }

    /// Every intent with a record is listed once, no other is, and every
    /// transaction that has an owner is one of its owner's.
    pub open spec fn linked(self) -> bool {
        &&& listed_once(self.order)
        &&& forall|k: Seq<u8>| #[trigger] self.intents.dom().contains(k) <==> listed(self.order, k)
        &&& forall|tx: Seq<u8>| #[trigger]
            self.owners.dom().contains(tx) ==> {
                &&& self.intents.dom().contains(self.owners[tx]@)
                &&& holds(self.intents[self.owners[tx]@].tx_hashes@, tx)
            }
    }

    /// Whether the transaction belongs to an intent that is tracked.
    pub open spec fn owns(self, tx: Seq<u8>) -> bool {
        self.owners.dom().contains(tx) && self.intents.dom().contains(self.owners[tx]@)
    }

    /// The record of the intent that the transaction belongs to.
    pub open spec fn record_of(self, tx: Seq<u8>) -> IntentRecord {
        self.intents[self.owners[tx]@]
    }

    /// The contents with `record` as that of the intent that the transaction
    /// belongs to.
    pub open spec fn updated(self, tx: Seq<u8>, record: IntentRecord) -> TrackedIntents {
        TrackedIntents { intents: self.intents.insert(self.owners[tx]@, record), ..self }
    }

    /// The contents after a transaction was executed.
    pub open spec fn executed(self, tx: Seq<u8>, gas_used: u64, now: TimestampMs) -> TrackedIntents {
        if self.owns(tx) {
            self.updated(tx, executed_record(self.record_of(tx), gas_used, now))
        } else {
            self
        }
    }

    /// The contents after a transaction failed.
    pub open spec fn failed(self, tx: Seq<u8>, reason: String, now: TimestampMs) -> TrackedIntents {
        if self.owns(tx) {
            self.updated(tx, failed_record(self.record_of(tx), reason, now))
        } else {
            self
        }
    }
}

/// Whether an intent under way has fewer executions than transactions, or
/// none.
pub open spec fn plausible(record: IntentRecord) -> bool {
    record.status is Submitted ==> {
        &&& record.confirmed_count < record.tx_hashes@.len() || record.confirmed_count == 0
        &&& record.failed_count == 0
    }
}

/// Whether an intent is among those in `order`.
pub open spec fn listed(order: Seq<IntentId>, key: Seq<u8>) -> bool {
    exists|i: int| 0 <= i < order.len() && (#[trigger] order[i])@ == key
}

/// The intents that are listed, but for `key`.
pub open spec fn without(order: Seq<IntentId>, key: Seq<u8>) -> Seq<IntentId> {
    order.filter(|id: IntentId| id@ != key)
}

/// Whether no intent is listed twice.
pub open spec fn listed_once(order: Seq<IntentId>) -> bool {
    forall|i: int, j: int|
        0 <= i < j < order.len() ==> (#[trigger] order[i])@ != (#[trigger] order[j])@
}

/// Whether a transaction is among `hashes`.
pub open spec fn holds(hashes: Seq<TxDigest>, tx: Seq<u8>) -> bool {
    exists|i: int| 0 <= i < hashes.len() && (#[trigger] hashes[i])@ == tx
}

/// Whether `r` reports `record` as that of the intent `id`.
pub open spec fn reports(r: Option<(IntentId, IntentStatus)>, id: IntentId, record: IntentRecord) -> bool {
    r is Some && r->Some_0.0 == id && r->Some_0.1 == record.status
}

/// Whether `copy` says the same as `record`.
pub open spec fn same_record(copy: IntentRecord, record: IntentRecord) -> bool {
    &&& copy.intent_id == record.intent_id
    &&& copy.status == record.status
    &&& copy.tx_hashes@ == record.tx_hashes@
    &&& copy.submitted_at == record.submitted_at
    &&& copy.updated_at == record.updated_at
    &&& copy.gas_used == record.gas_used
    &&& copy.confirmed_count == record.confirmed_count
    &&& copy.failed_count == record.failed_count
}

/// Keeps track of submitted intents.
pub struct IntentTracker {
    intents: KeyTable<IntentRecord>,
    tx_to_intent: KeyTable<IntentId>,
    insertion_order: Vec<IntentId>,
}

fn copy_status(status: &IntentStatus) -> (r: IntentStatus)
    ensures
        r == *status,
{
    match status {
        IntentStatus::Pending => IntentStatus::Pending,
        IntentStatus::Submitted { steps } => IntentStatus::Submitted { steps: *steps },
        IntentStatus::Completed { gas_used } => IntentStatus::Completed { gas_used: *gas_used },
        IntentStatus::Failed { reason } => IntentStatus::Failed { reason: reason.clone() },
    }
}

fn copy_digests(digests: &Vec<TxDigest>) -> (r: Vec<TxDigest>)
    ensures
        r@ == digests@,
{
    let mut out: Vec<TxDigest> = Vec::new();
    let mut i: usize = 0;
    while i < digests.len()
        invariant
            0 <= i <= digests@.len(),
            out@ == digests@.take(i as int),
        decreases digests@.len() - i,
    {
        out.push(digests[i]);
        i = i + 1;
        assert(out@ =~= digests@.take(i as int));
    }
    assert(digests@.take(i as int) =~= digests@);
    out
}

/// Nothing is taken out for a key that is not listed.
pub proof fn lemma_all_pass(order: Seq<IntentId>, key: Seq<u8>)
    requires
        !listed(order, key),
    ensures
        without(order, key) == order,
    decreases order.len(),
{
    reveal(Seq::filter);
    if order.len() > 0 {
        let head = order.drop_last();
        if listed(head, key) {
            let i = choose|i: int| 0 <= i < head.len() && (#[trigger] head[i])@ == key;
            assert(order[i]@ == key);
        }
        lemma_all_pass(head, key);
        assert(order[order.len() - 1]@ != key);
        assert(order =~= head.push(order.last()));
    }
}

/// One entry is taken out for a key that is listed once.
pub proof fn lemma_one_dropped(order: Seq<IntentId>, at: int)
    requires
        listed_once(order),
        0 <= at < order.len(),
    ensures
        without(order, order[at]@) == order.remove(at),
        listed_once(order.remove(at)),
        forall|k: Seq<u8>| #[trigger]
            listed(order.remove(at), k) <==> listed(order, k) && k != order[at]@,
    decreases order.len(),
{
    reveal(Seq::filter);
    let key = order[at]@;
    let rest = order.remove(at);
    let head = order.drop_last();
    if at == order.len() - 1 {
        if listed(head, key) {
            let i = choose|i: int| 0 <= i < head.len() && (#[trigger] head[i])@ == key;
            assert(order[i]@ == order[at]@);
        }
        lemma_all_pass(head, key);
        assert(rest =~= head);
    } else {
        lemma_one_dropped(head, at);
        assert(order[order.len() - 1]@ != key);
        assert(rest =~= head.remove(at).push(order.last()));
    }
    assert forall|i: int, j: int| 0 <= i < j < rest.len() implies (#[trigger] rest[i])@ != (
    #[trigger] rest[j])@ by {
        let p = if i < at {
            i
        } else {
            i + 1
        };
        let q = if j < at {
            j
        } else {
            j + 1
        };
        assert(order[p]@ != order[q]@);
    }
    assert forall|k: Seq<u8>| #[trigger] listed(rest, k) <==> listed(order, k) && k != key by {
        if listed(rest, k) {
            let i = choose|i: int| 0 <= i < rest.len() && (#[trigger] rest[i])@ == k;
            let p = if i < at {
                i
            } else {
                i + 1
            };
            assert(order[p]@ == k);
            if p < at {
                assert(order[p]@ != order[at]@);
            } else {
                assert(order[at]@ != order[p]@);
            }
        }
        if listed(order, k) && k != key {
            let p = choose|p: int| 0 <= p < order.len() && (#[trigger] order[p])@ == k;
            let i = if p < at {
                p
            } else {
                p - 1
            };
            assert(rest[i]@ == k);
        }
    }
}

/// One entry is added at the end.
pub proof fn lemma_one_added(order: Seq<IntentId>, id: IntentId)
    requires
        listed_once(order),
        !listed(order, id@),
    ensures
        listed_once(order.push(id)),
        forall|k: Seq<u8>| #[trigger] listed(order.push(id), k) <==> listed(order, k) || k == id@,
{
    let longer = order.push(id);
    assert forall|k: Seq<u8>| #[trigger] listed(longer, k) <==> listed(order, k) || k == id@ by {
        if listed(order, k) {
            let i = choose|i: int| 0 <= i < order.len() && (#[trigger] order[i])@ == k;
            assert(longer[i]@ == k);
        }
        assert(longer[order.len() as int]@ == id@);
        if listed(longer, k) && k != id@ {
            let i = choose|i: int| 0 <= i < longer.len() && (#[trigger] longer[i])@ == k;
            assert(order[i]@ == k);
        }
    }
    assert forall|i: int, j: int| 0 <= i < j < longer.len() implies (#[trigger] longer[i])@ != (
    #[trigger] longer[j])@ by {
        if j == order.len() {
            assert(order[i]@ == longer[i]@);
            assert(longer[i]@ != id@);
        } else {
            assert(order[i]@ != order[j]@);
        }
    }
}

/// Who owns a transaction once `hashes` were given to `id`.
proof fn lemma_given_owners(
    owners: Map<Seq<u8>, IntentId>,
    hashes: Seq<TxDigest>,
    id: IntentId,
    tx: Seq<u8>,
)
    ensures
        given(owners, hashes, id).dom().contains(tx) <==> owners.dom().contains(tx) || holds(
            hashes,
            tx,
        ),
        holds(hashes, tx) ==> given(owners, hashes, id)[tx] == id,
        !holds(hashes, tx) && owners.dom().contains(tx) ==> given(owners, hashes, id)[tx]
            == owners[tx],
    decreases hashes.len(),
{
    if hashes.len() > 0 {
        let head = hashes.drop_last();
        lemma_given_owners(owners, head, id, tx);
        assert(holds(hashes, tx) <==> holds(head, tx) || tx == hashes.last()@) by {
            if holds(head, tx) {
                let i = choose|i: int| 0 <= i < head.len() && (#[trigger] head[i])@ == tx;
                assert(hashes[i]@ == tx);
            }
            assert(hashes[hashes.len() - 1] == hashes.last());
            if holds(hashes, tx) && tx != hashes.last()@ {
                let i = choose|i: int| 0 <= i < hashes.len() && (#[trigger] hashes[i])@ == tx;
                assert(head[i]@ == tx);
            }
        }
    }
}

/// Forgetting an intent leaves everything in its place.
proof fn lemma_forgotten_linked(known: TrackedIntents, key: Seq<u8>)
    requires
        known.linked(),
    ensures
        known.forgotten(key).linked(),
        !listed(known.forgotten(key).order, key),
        !listed(known.order, key) ==> known.forgotten(key) == known,
        listed(known.order, key) ==> known.forgotten(key).order.len() == known.order.len() - 1,
{
    let after = known.forgotten(key);
    if listed(known.order, key) {
        let at = choose|at: int| 0 <= at < known.order.len() && (#[trigger] known.order[at])@ == key;
        lemma_one_dropped(known.order, at);
        assert(after.order == known.order.remove(at));
    } else {
        lemma_all_pass(known.order, key);
        assert(!known.intents.dom().contains(key));
        assert(after.intents =~= known.intents);
        assert(after.owners =~= known.owners);
    }
    assert forall|k: Seq<u8>| #[trigger] after.intents.dom().contains(k) <==> listed(
        after.order,
        k,
    ) by {
        assert(known.intents.dom().contains(k) <==> listed(known.order, k));
    }
}

/// Registering an intent that is not tracked leaves everything in its place.
proof fn lemma_extended_linked(
    known: TrackedIntents,
    id: IntentId,
    hashes: Vec<TxDigest>,
    now: TimestampMs,
)
    requires
        known.linked(),
        !listed(known.order, id@),
    ensures
        known.extended(id, hashes, now).linked(),
{
    let after = known.extended(id, hashes, now);
    lemma_one_added(known.order, id);
    assert forall|k: Seq<u8>| #[trigger] after.intents.dom().contains(k) <==> listed(
        after.order,
        k,
    ) by {
        assert(known.intents.dom().contains(k) <==> listed(known.order, k));
    }
    assert forall|tx: Seq<u8>| #[trigger] after.owners.dom().contains(tx) implies {
        &&& after.intents.dom().contains(after.owners[tx]@)
        &&& holds(after.intents[after.owners[tx]@].tx_hashes@, tx)
    } by {
        lemma_given_owners(known.owners, hashes@, id, tx);
        if !holds(hashes@, tx) {
            assert(known.owners.dom().contains(tx));
            assert(known.intents.dom().contains(known.owners[tx]@));
            assert(listed(known.order, known.owners[tx]@));
        }
    }
}

impl View for IntentTracker {
    type V = TrackedIntents;

    closed spec fn view(&self) -> TrackedIntents {
        TrackedIntents {
            intents: self.intents@,
            owners: self.tx_to_intent@,
            order: self.insertion_order@,
        }
    }
}

impl IntentTracker {
    /// The tables are in order, what they hold belongs together, and every
    /// record is plausible.
    spec fn sound(&self) -> bool {
        &&& self.intents.wf()
        &&& self.tx_to_intent.wf()
        &&& self@.linked()
        &&& forall|k: Seq<u8>| #[trigger]
            self.intents@.dom().contains(k) ==> plausible(self.intents@[k])
    }

    /// The contents are sound, and there are not too many intents.
    pub closed spec fn wf(&self) -> bool {
        &&& self.sound()
        &&& self.insertion_order@.len() <= MAX_TRACKED_INTENTS
    }

    /// What is tracked belongs together.
    pub proof fn law_contents_belong_together(&self)
        requires
            self.wf(),
        ensures
            self@.linked(),
            self@.order.len() <= MAX_TRACKED_INTENTS,
    {
    }

    /// Of an intent that is under way, fewer transactions were executed than
    /// it has, and none failed.
    pub proof fn law_records_are_plausible(&self, key: Seq<u8>)
        requires
            self.wf(),
            self@.intents.dom().contains(key),
            self@.intents[key].status is Submitted,
        ensures
            self@.intents[key].confirmed_count == 0 || self@.intents[key].confirmed_count
                < self@.intents[key].tx_hashes@.len(),
            self@.intents[key].failed_count == 0,
            self@.intents[key].tx_hashes@.len() <= usize::MAX,
    {
        assert(plausible(self.intents@[key]));
        assert(self@.intents[key].tx_hashes.len() <= usize::MAX);
    }

    /// No more than so many intents have a record.
    pub proof fn law_tracked_intents_are_bounded(&self)
        requires
            self.wf(),
        ensures
            self@.intents.dom().finite(),
            self@.intents.dom().len() <= MAX_TRACKED_INTENTS,
    {
        self.intents.lemma_size();
        let keys = self.insertion_order@.map_values(|id: IntentId| id@);
        assert forall|k: Seq<u8>| self@.intents.dom().contains(k) implies #[trigger]
            keys.to_set().contains(k) by {
            assert(self@.intents.dom().contains(k));
            assert(listed(self@.order, k));
            let i = choose|i: int|
                0 <= i < self.insertion_order@.len() && (#[trigger] self.insertion_order@[i])@ == k;
            assert(keys[i] == k);
        }
        vstd::seq_lib::seq_to_set_is_finite(keys);
        keys.lemma_cardinality_of_set();
        vstd::set_lib::lemma_len_subset(self@.intents.dom(), keys.to_set());
    }

    /// A tracker without intents.
    pub fn new() -> (r: Self)
        ensures
            r.wf(),
            r@ == (TrackedIntents {
                intents: Map::empty(),
                owners: Map::empty(),
                order: Seq::empty(),
            }),
    {
        IntentTracker {
            intents: KeyTable::new(),
            tx_to_intent: KeyTable::new(),
            insertion_order: Vec::new(),
        }
    }

    fn give(&mut self, hashes: &Vec<TxDigest>, id: IntentId)
        requires
            old(self).tx_to_intent.wf(),
        ensures
            final(self).tx_to_intent.wf(),
            final(self).tx_to_intent@ == given(old(self).tx_to_intent@, hashes@, id),
            final(self).intents == old(self).intents,
            final(self).insertion_order == old(self).insertion_order,
    {
        let ghost before = *self;
        let mut i: usize = 0;
        assert(hashes@.take(0) =~= Seq::<TxDigest>::empty());
        while i < hashes.len()
            invariant
                0 <= i <= hashes@.len(),
                self.tx_to_intent.wf(),
                self.tx_to_intent@ == given(before.tx_to_intent@, hashes@.take(i as int), id),
                self.intents == before.intents,
                self.insertion_order == before.insertion_order,
            decreases hashes@.len() - i,
        {
            self.tx_to_intent.insert(&hashes[i].0, id);
            assert(hashes@.take(i + 1).drop_last() =~= hashes@.take(i as int));
            assert(hashes@.take(i + 1).last() == hashes@[i as int]);
            i = i + 1;
        }
        assert(hashes@.take(i as int) =~= hashes@);
    }

    fn disown(&mut self, hashes: &Vec<TxDigest>, id: IntentId)
        requires
            old(self).tx_to_intent.wf(),
            forall|tx: Seq<u8>| #[trigger]
                old(self).tx_to_intent@.dom().contains(tx) && old(self).tx_to_intent@[tx]@ == id@
                    ==> holds(hashes@, tx),
        ensures
            final(self).tx_to_intent.wf(),
            final(self).tx_to_intent@ == disowned(old(self).tx_to_intent@, id@),
            final(self).intents == old(self).intents,
            final(self).insertion_order == old(self).insertion_order,
    {
        let ghost before = *self;
        let ghost owners = self.tx_to_intent@;
        let mut i: usize = 0;
        while i < hashes.len()
            invariant
                0 <= i <= hashes@.len(),
                owners == before.tx_to_intent@,
                self.tx_to_intent.wf(),
                forall|tx: Seq<u8>| #[trigger]
                    self.tx_to_intent@.dom().contains(tx) <==> owners.dom().contains(tx) && !(
                    owners[tx]@ == id@ && holds(hashes@.take(i as int), tx)),
                forall|tx: Seq<u8>| #[trigger]
                    self.tx_to_intent@.dom().contains(tx) ==> self.tx_to_intent@[tx] == owners[tx],
                self.intents == before.intents,
                self.insertion_order == before.insertion_order,
            decreases hashes@.len() - i,
        {
            let ghost done = hashes@.take(i as int);
            let ghost next = hashes@.take(i + 1);
            let ghost tx = hashes@[i as int]@;
            assert forall|k: Seq<u8>| holds(next, k) <==> holds(done, k) || k == tx by {
                if holds(done, k) {
                    let j = choose|j: int| 0 <= j < done.len() && (#[trigger] done[j])@ == k;
                    assert(next[j]@ == k);
                }
                assert(next[i as int]@ == tx);
                if holds(next, k) && k != tx {
                    let j = choose|j: int| 0 <= j < next.len() && (#[trigger] next[j])@ == k;
                    assert(done[j]@ == k);
                }
            }
            let named = match self.tx_to_intent.get(&hashes[i].0) {
                Some(owner) => bytes_eq(owner.0.as_slice(), id.0.as_slice()),
                None => false,
            };
            if named {
                let _ = self.tx_to_intent.remove(&hashes[i].0);
            }
            i = i + 1;
        }
        assert(hashes@.take(i as int) =~= hashes@);
        assert(self.tx_to_intent@ =~= disowned(owners, id@));
    }

    fn position(&self, id: &IntentId) -> (r: usize)
        requires
            listed(self.insertion_order@, id@),
        ensures
            r < self.insertion_order@.len(),
            self.insertion_order@[r as int]@ == id@,
    {
        let mut i: usize = 0;
        while !bytes_eq(self.insertion_order[i].0.as_slice(), id.0.as_slice())
            invariant
                listed(self.insertion_order@, id@),
                i < self.insertion_order.len(),
                forall|j: int| 0 <= j < i ==> (#[trigger] self.insertion_order@[j])@ != id@,
            decreases self.insertion_order@.len() - i,
        {
            proof {
                let at = choose|at: int|
                    0 <= at < self.insertion_order@.len() && (#[trigger] self.insertion_order@[at])@
                        == id@;
                assert(at != i);
            }
            i = i + 1;
        }
        i
    }

    /// Forgets an intent and what belongs to it.
    fn forget(&mut self, id: IntentId)
        requires
            old(self).sound(),
        ensures
            final(self).sound(),
            final(self)@ == old(self)@.forgotten(id@),
    {
        let ghost before = self@;
        proof {
            lemma_forgotten_linked(before, id@);
        }
        match self.intents.remove(&id.0) {
            Some(record) => {
                assert forall|tx: Seq<u8>| #[trigger]
                    before.owners.dom().contains(tx) && before.owners[tx]@ == id@ implies holds(
                    record.tx_hashes@,
                    tx,
                ) by {}
                self.disown(&record.tx_hashes, id);
                assert(listed(before.order, id@));
                let at: usize = self.position(&id);
                proof {
                    lemma_one_dropped(before.order, at as int);
                }
                let _ = self.insertion_order.remove(at);
                assert(self@ =~= before.forgotten(id@));
            },
            None => {
                assert(!before.intents.dom().contains(id@));
                assert(self@.intents =~= before.intents);
                assert(self@ =~= before);
            },
        }
    }

    /// Registers an intent that was submitted at the time `now`, with the
    /// digests of its transactions.
    pub fn register_at(&mut self, intent_id: IntentId, tx_hashes: Vec<TxDigest>, now: TimestampMs)
        requires
            old(self).wf(),
        ensures
            final(self).wf(),
            final(self)@ == old(self)@.registered(intent_id, tx_hashes, now),
    {
        let ghost known = self@;
        proof {
            lemma_forgotten_linked(known, intent_id@);
        }
        self.forget(intent_id);
        let ghost kept = self@;
        self.give(&tx_hashes, intent_id);
        let steps: usize = tx_hashes.len();
        let record = IntentRecord {
            intent_id,
            status: IntentStatus::Submitted { steps },
            tx_hashes,
            submitted_at: now,
            updated_at: now,
            gas_used: 0,
            confirmed_count: 0,
            failed_count: 0,
        };
        self.intents.insert(&intent_id.0, record);
        self.insertion_order.push(intent_id);
        let ghost full = self@;
        proof {
            assert(full == kept.extended(intent_id, tx_hashes, now));
            lemma_extended_linked(kept, intent_id, tx_hashes, now);
        }
        if self.insertion_order.len() > MAX_TRACKED_INTENTS {
            let oldest: IntentId = self.insertion_order[0];
            proof {
                lemma_forgotten_linked(full, oldest@);
                assert(full.order[0] == oldest);
                assert(listed(full.order, oldest@));
            }
            self.forget(oldest);
        }
    }

    /// Registers an intent that was submitted just now, with the digests of
    /// its transactions.
    pub fn register(&mut self, intent_id: IntentId, tx_hashes: Vec<TxDigest>)
        requires
            old(self).wf(),
        ensures
            final(self).wf(),
            exists|now: TimestampMs|
                now.is_clock_reading() && final(self)@ == #[trigger] old(self)@.registered(intent_id, tx_hashes, now),
    {
        let now = TimestampMs::now();
        self.register_at(intent_id, tx_hashes, now);
    }

    /// Reports that a transaction was executed at the time `now` and used
    /// `gas_used` gas. Returns the intent that it belongs to and how far that
    /// has come.
    pub fn on_tx_executed_at(&mut self, tx_digest: &TxDigest, gas_used: u64, now: TimestampMs) -> (r:
        Option<(IntentId, IntentStatus)>)
        requires
            old(self).wf(),
            old(self)@.owns(tx_digest@) && old(self)@.record_of(tx_digest@).status is Submitted
                ==> old(self)@.record_of(tx_digest@).gas_used + gas_used <= u64::MAX,
        ensures
            final(self).wf(),
            final(self)@ == old(self)@.executed(tx_digest@, gas_used, now),
            if old(self)@.owns(tx_digest@) {
                reports(r, old(self)@.owners[tx_digest@], final(self)@.record_of(tx_digest@))
            } else {
                r is None
            },
    {
        let ghost before = self@;
        let intent_id: IntentId = match self.tx_to_intent.get(&tx_digest.0) {
            Some(id) => *id,
            None => {
                return None;
            },
        };
        let mut record = match self.intents.remove(&intent_id.0) {
            Some(record) => record,
            None => {
                assert(self@.intents =~= before.intents);
                return None;
            },
        };
        assert(plausible(record));
        assert(record == before.record_of(tx_digest@));
        let ghost found = record;
        if let IntentStatus::Submitted { .. } = record.status {
            let steps: usize = record.tx_hashes.len();
            record.confirmed_count = record.confirmed_count + 1;
            record.gas_used = record.gas_used + gas_used;
            record.updated_at = now;
            if record.confirmed_count >= steps {
                record.status = IntentStatus::Completed { gas_used: record.gas_used };
            }
        }
        assert(record == executed_record(found, gas_used, now));
        assert(plausible(record));
        let status = copy_status(&record.status);
        self.intents.insert(&intent_id.0, record);
        assert(self@.intents =~= before.updated(tx_digest@, record).intents);
        Some((intent_id, status))
    }

    /// Reports that a transaction was executed just now and used `gas_used`
    /// gas. Returns the intent that it belongs to and how far that has come.
    pub fn on_tx_executed(&mut self, tx_digest: &TxDigest, gas_used: u64) -> (r: Option<
        (IntentId, IntentStatus),
    >)
        requires
            old(self).wf(),
            old(self)@.owns(tx_digest@) && old(self)@.record_of(tx_digest@).status is Submitted
                ==> old(self)@.record_of(tx_digest@).gas_used + gas_used <= u64::MAX,
        ensures
            final(self).wf(),
            exists|now: TimestampMs|
                now.is_clock_reading() && final(self)@ == #[trigger] old(self)@.executed(tx_digest@, gas_used, now),
            if old(self)@.owns(tx_digest@) {
                reports(r, old(self)@.owners[tx_digest@], final(self)@.record_of(tx_digest@))
            } else {
                r is None
            },
    {
        let now = TimestampMs::now();
        self.on_tx_executed_at(tx_digest, gas_used, now)
    }

    /// Reports that a transaction failed at the time `now`. Returns the intent
    /// that it belongs to and how far that has come.
    pub fn on_tx_failed_at(&mut self, tx_digest: &TxDigest, reason: String, now: TimestampMs) -> (r:
        Option<(IntentId, IntentStatus)>)
        requires
            old(self).wf(),
        ensures
            final(self).wf(),
            final(self)@ == old(self)@.failed(tx_digest@, reason, now),
            if old(self)@.owns(tx_digest@) {
                reports(r, old(self)@.owners[tx_digest@], final(self)@.record_of(tx_digest@))
            } else {
                r is None
            },
    {
        let ghost before = self@;
        let intent_id: IntentId = match self.tx_to_intent.get(&tx_digest.0) {
            Some(id) => *id,
            None => {
                return None;
            },
        };
        let mut record = match self.intents.remove(&intent_id.0) {
            Some(record) => record,
            None => {
                assert(self@.intents =~= before.intents);
                return None;
            },
        };
        assert(plausible(record));
        let ghost found = record;
        if let IntentStatus::Submitted { .. } = record.status {
            record.failed_count = record.failed_count + 1;
            record.updated_at = now;
            record.status = IntentStatus::Failed { reason };
        }
        assert(record == failed_record(found, reason, now));
        let status = copy_status(&record.status);
        self.intents.insert(&intent_id.0, record);
        assert(self@.intents =~= before.updated(tx_digest@, record).intents);
        Some((intent_id, status))
    }

    /// Reports that a transaction failed just now. Returns the intent that it
    /// belongs to and how far that has come.
    pub fn on_tx_failed(&mut self, tx_digest: &TxDigest, reason: String) -> (r: Option<
        (IntentId, IntentStatus),
    >)
        requires
            old(self).wf(),
        ensures
            final(self).wf(),
            exists|now: TimestampMs|
                now.is_clock_reading() && final(self)@ == #[trigger] old(self)@.failed(tx_digest@, reason, now),
            if old(self)@.owns(tx_digest@) {
                reports(r, old(self)@.owners[tx_digest@], final(self)@.record_of(tx_digest@))
            } else {
                r is None
            },
    {
        let now = TimestampMs::now();
        self.on_tx_failed_at(tx_digest, reason, now)
    }

    /// What is known of an intent.
    pub fn status(&self, intent_id: &IntentId) -> (r: Option<IntentRecord>)
        requires
            self.wf(),
        ensures
            match r {
                Some(copy) => self@.intents.dom().contains(intent_id@) && same_record(
                    copy,
                    self@.intents[intent_id@],
                ),
                None => !self@.intents.dom().contains(intent_id@),
            },
    {
        match self.intents.get(&intent_id.0) {
            Some(record) => Some(
                IntentRecord {
                    intent_id: record.intent_id,
                    status: copy_status(&record.status),
                    tx_hashes: copy_digests(&record.tx_hashes),
                    submitted_at: record.submitted_at,
                    updated_at: record.updated_at,
                    gas_used: record.gas_used,
                    confirmed_count: record.confirmed_count,
                    failed_count: record.failed_count,
                },
            ),
            None => None,
        }
    }
}

impl Default for IntentTracker {
    fn default() -> (r: Self)
        ensures
            r.wf(),
            r@ == (TrackedIntents {
                intents: Map::empty(),
                owners: Map::empty(),
                order: Seq::empty(),
            }),
    {
        IntentTracker::new()
    }
}

/// The record of an intent after its transactions reported the executions
/// `reports`, each with the gas that was used and a time.
pub open spec fn after_executions(record: IntentRecord, reports: Seq<(u64, TimestampMs)>) -> IntentRecord
    decreases reports.len(),
{
    if reports.len() == 0 {
        record
    } else {
        executed_record(
            after_executions(record, reports.drop_last()),
            reports.last().0,
            reports.last().1,
        )
    }
}

/// The gas that the executions `reports` used together.
pub open spec fn total_gas(reports: Seq<(u64, TimestampMs)>) -> nat
    decreases reports.len(),
{
    if reports.len() == 0 {
        0
    } else {
        total_gas(reports.drop_last()) + reports.last().0 as nat
    }
}

/// An intent stays under way until as many executions are reported as it has
/// transactions, and is then completed with the gas that they used together.
pub proof fn law_intents_complete_with_their_transactions(
    id: IntentId,
    hashes: Vec<TxDigest>,
    now: TimestampMs,
    reports: Seq<(u64, TimestampMs)>,
)
    requires
        0 < hashes@.len() <= usize::MAX,
        reports.len() <= hashes@.len(),
        total_gas(reports) <= u64::MAX,
    ensures
        ({
            let record = after_executions(fresh_record(id, hashes, now), reports);
            &&& record.gas_used == total_gas(reports)
            &&& record.confirmed_count == reports.len()
            &&& record.tx_hashes == hashes
            &&& record.status == if reports.len() < hashes@.len() {
                IntentStatus::Submitted { steps: hashes@.len() as usize }
            } else {
                IntentStatus::Completed { gas_used: total_gas(reports) as u64 }
            }
        }),
    decreases reports.len(),
{
    if reports.len() > 0 {
        law_intents_complete_with_their_transactions(id, hashes, now, reports.drop_last());
    }
}

/// An intent that is completed or has failed stays so, whatever its
/// transactions report.
pub proof fn law_final_status_is_kept(record: IntentRecord, gas_used: u64, reason: String, now: TimestampMs)
    requires
        record.status is Completed || record.status is Failed,
    ensures
        executed_record(record, gas_used, now) == record,
        failed_record(record, reason, now) == record,
{
}

/// One failure is enough for an intent under way to fail.
pub proof fn law_one_failure_fails_the_intent(record: IntentRecord, reason: String, now: TimestampMs)
    requires
        record.status is Submitted,
    ensures
        failed_record(record, reason, now).status == (IntentStatus::Failed { reason }),
{
}

/// An intent that was just registered is tracked with its transactions, and
/// under way, whatever was tracked before.
pub proof fn law_registered_intents_are_tracked(
    known: TrackedIntents,
    id: IntentId,
    hashes: Vec<TxDigest>,
    now: TimestampMs,
)
    ensures
        ({
            let after = known.registered(id, hashes, now);
            &&& after.intents.dom().contains(id@)
            &&& after.intents[id@] == fresh_record(id, hashes, now)
            &&& forall|i: int|
                0 <= i < hashes@.len() ==> {
                    &&& after.owns((#[trigger] hashes@[i])@)
                    &&& after.owners[hashes@[i]@] == id
                }
        }),
{
    let after = known.registered(id, hashes, now);
    let kept = known.forgotten(id@);
    let full = kept.extended(id, hashes, now);
    let keep = |x: IntentId| x@ != id@;
    if full.order.len() > MAX_TRACKED_INTENTS {
        assert(full.order[0] == kept.order[0]);
        known.order.lemma_filter_pred(keep, 0);
        assert(full.order[0]@ != id@);
    }
    assert forall|i: int| 0 <= i < hashes@.len() implies {
        &&& after.owns((#[trigger] hashes@[i])@)
        &&& after.owners[hashes@[i]@] == id
    } by {
        assert(holds(hashes@, hashes@[i]@));
        lemma_given_owners(kept.owners, hashes@, id, hashes@[i]@);
    }
}

/// Registering an intent leaves every other one as it is, but for the oldest
/// of them where as many are tracked as may be.
pub proof fn law_registering_keeps_other_intents(
    known: TrackedIntents,
    id: IntentId,
    hashes: Vec<TxDigest>,
    now: TimestampMs,
    other: Seq<u8>,
)
    requires
        known.linked(),
        known.intents.dom().contains(other),
        other != id@,
    ensures
        ({
            let after = known.registered(id, hashes, now);
            let others = known.forgotten(id@).order;
            ||| after.intents.dom().contains(other) && after.intents[other] == known.intents[other]
            ||| others.len() >= MAX_TRACKED_INTENTS && others[0]@ == other
        }),
{
    lemma_forgotten_linked(known, id@);
}

/// Once an intent is forgotten, no transaction belongs to it, and those of
/// other intents belong to them as before.
pub proof fn law_forgotten_intents_own_nothing(known: TrackedIntents, key: Seq<u8>, tx: Seq<u8>)
    ensures
        ({
            let after = known.forgotten(key);
            &&& after.owns(tx) ==> after.owners[tx]@ != key
            &&& known.owns(tx) && known.owners[tx]@ != key ==> {
                &&& after.owns(tx)
                &&& after.owners[tx] == known.owners[tx]
                &&& after.record_of(tx) == known.record_of(tx)
            }
        }),
{
}

} // verus!
