//! What is told of intents and transactions after something happened to them.

use vstd::prelude::*;

use crate::primitives::{IntentId, TimestampMs, TxDigest};
use crate::rpc::agent::IntentStatus;
use crate::rpc::dto::TxLifecycleDto;
use crate::rpc::intent_tracker::{
    law_registered_intents_are_tracked, law_registering_keeps_other_intents, lemma_all_pass,
    lemma_one_added, lemma_one_dropped, listed, IntentRecord, IntentTracker,
};
use crate::rpc::tx_lifecycle::{Stage, TxLifecycleRegistry};

verus! {

/// Whether a record is that of an intent that was submitted at `now` with these
/// transactions, of which nothing has been heard yet.
pub open spec fn just_submitted(
    record: IntentRecord,
    id: IntentId,
    hashes: Seq<TxDigest>,
    now: TimestampMs,
) -> bool {
    &&& record.intent_id == id
    &&& record.status is Submitted && record.status->steps == hashes.len()
    &&& record.tx_hashes@ == hashes
    &&& record.submitted_at == now
    &&& record.updated_at == now
    &&& record.gas_used == 0
    &&& record.confirmed_count == 0
    &&& record.failed_count == 0
}

/// Whether two records say the same.
pub open spec fn equal_records(a: IntentRecord, b: IntentRecord) -> bool {
    &&& a.intent_id == b.intent_id
    &&& a.status == b.status
    &&& a.tx_hashes@ == b.tx_hashes@
    &&& a.submitted_at == b.submitted_at
    &&& a.updated_at == b.updated_at
    &&& a.gas_used == b.gas_used
    &&& a.confirmed_count == b.confirmed_count
    &&& a.failed_count == b.failed_count
}

/// An intent that was registered is shown as just submitted, whatever was known
/// of it before, and every report on one of its transactions is on it.
pub proof fn law_registered_intents_are_shown(
    tracker: &mut IntentTracker,
    id: IntentId,
    hashes: Vec<TxDigest>,
    now: TimestampMs,
    shown: Option<IntentRecord>,
    i: int,
    later: &mut IntentTracker,
    gas_used: u64,
    then: TimestampMs,
    r: Option<(IntentId, IntentStatus)>,
)
    requires
        call_ensures(IntentTracker::register_at, (tracker, id, hashes, now), ()),
        call_ensures(IntentTracker::status, (&*final(tracker), &id), shown),
        0 <= i < hashes@.len() <= usize::MAX,
        *old(later) == *final(tracker),
        call_ensures(IntentTracker::on_tx_executed_at, (later, &hashes@[i], gas_used, then), r),
    ensures
        shown is Some,
        just_submitted(shown->Some_0, id, hashes@, now),
        r is Some,
        r->Some_0.0 == id,
{
    law_registered_intents_are_tracked(old(tracker)@, id, hashes, now);
    let t = final(tracker)@;
    assert(t.owns(hashes@[i]@));
}

/// An intent that was registered is shown as just submitted, also where it has
/// no transactions.
pub proof fn law_registered_intents_are_submitted(
    tracker: &mut IntentTracker,
    id: IntentId,
    hashes: Vec<TxDigest>,
    now: TimestampMs,
    shown: Option<IntentRecord>,
)
    requires
        call_ensures(IntentTracker::register_at, (tracker, id, hashes, now), ()),
        call_ensures(IntentTracker::status, (&*final(tracker), &id), shown),
        hashes@.len() <= usize::MAX,
    ensures
        shown is Some,
        just_submitted(shown->Some_0, id, hashes@, now),
{
    law_registered_intents_are_tracked(old(tracker)@, id, hashes, now);
}

/// The same holds of an intent that was registered by the clock.
pub proof fn law_intents_registered_now_are_submitted(
    tracker: &mut IntentTracker,
    id: IntentId,
    hashes: Vec<TxDigest>,
    shown: Option<IntentRecord>,
)
    requires
        call_ensures(IntentTracker::register, (tracker, id, hashes), ()),
        call_ensures(IntentTracker::status, (&*final(tracker), &id), shown),
        hashes@.len() <= usize::MAX,
    ensures
        shown is Some,
        exists|now: TimestampMs|
            now.is_clock_reading() && #[trigger] just_submitted(shown->Some_0, id, hashes@, now),
{
    let now = choose|now: TimestampMs|
        now.is_clock_reading() && final(tracker)@ == #[trigger] old(tracker)@.registered(
            id,
            hashes,
            now,
        );
    law_registered_intents_are_tracked(old(tracker)@, id, hashes, now);
    assert(just_submitted(shown->Some_0, id, hashes@, now));
}

/// Registering an intent changes nothing that is shown of another one, unless
/// ten thousand others are tracked and it is the one that was registered
/// longest ago.
pub proof fn law_registering_shows_the_others_as_before(
    tracker: &mut IntentTracker,
    id: IntentId,
    hashes: Vec<TxDigest>,
    now: TimestampMs,
    other: IntentId,
    before: Option<IntentRecord>,
    after: Option<IntentRecord>,
)
    requires
        old(tracker).wf(),
        other@ != id@,
        call_ensures(IntentTracker::status, (&*old(tracker), &other), before),
        call_ensures(IntentTracker::register_at, (tracker, id, hashes, now), ()),
        call_ensures(IntentTracker::status, (&*final(tracker), &other), after),
    ensures
        before is None ==> after is None,
        before is Some ==> {
            ||| after is Some && equal_records(after->Some_0, before->Some_0)
            ||| {
                &&& after is None
                &&& old(tracker)@.order.len() == 10_000
                &&& old(tracker)@.order[0]@ == other@
                &&& forall|i: int|
                    0 <= i < old(tracker)@.order.len() ==> (#[trigger] old(tracker)@.order[i])@
                        != id@
            }
        },
{
    old(tracker).law_contents_belong_together();
    if before is Some {
        law_registering_keeps_other_intents(old(tracker)@, id, hashes, now, other@);
        let order = old(tracker)@.order;
        if listed(order, id@) {
            let at = choose|at: int| 0 <= at < order.len() && (#[trigger] order[at])@ == id@;
            lemma_one_dropped(order, at);
        } else {
            lemma_all_pass(order, id@);
        }
    }
}

/// Whether an intent is among those that are tracked, by the order in which
/// they were registered.
pub open spec fn stands_at(order: Seq<IntentId>, at: int, id: IntentId) -> bool {
    0 <= at < order.len() && order[at]@ == id@
}

/// An intent that was registered is the youngest. Where it was tracked before
/// it leaves its old place, and where it was not and ten thousand are tracked
/// the oldest one makes room; the others keep their order.
pub proof fn law_the_oldest_intent_makes_room(
    tracker: &mut IntentTracker,
    id: IntentId,
    hashes: Vec<TxDigest>,
    now: TimestampMs,
)
    requires
        old(tracker).wf(),
        call_ensures(IntentTracker::register_at, (tracker, id, hashes, now), ()),
    ensures
        final(tracker)@.order.len() <= 10_000,
        forall|at: int| #[trigger]
            stands_at(old(tracker)@.order, at, id) ==> final(tracker)@.order
                == old(tracker)@.order.remove(at).push(id),
        (forall|at: int| !#[trigger] stands_at(old(tracker)@.order, at, id)) ==> {
            &&& old(tracker)@.order.len() < 10_000 ==> final(tracker)@.order
                == old(tracker)@.order.push(id)
            &&& old(tracker)@.order.len() == 10_000 ==> final(tracker)@.order
                == old(tracker)@.order.drop_first().push(id)
        },
{
    old(tracker).law_contents_belong_together();
    final(tracker).law_contents_belong_together();
    let order = old(tracker)@.order;
    assert forall|at: int| #[trigger] stands_at(order, at, id) implies final(tracker)@.order
        == order.remove(at).push(id) by {
        lemma_one_dropped(order, at);
    }
    if forall|at: int| !#[trigger] stands_at(order, at, id) {
        if listed(order, id@) {
            let at = choose|at: int| 0 <= at < order.len() && (#[trigger] order[at])@ == id@;
            assert(stands_at(order, at, id));
        }
        lemma_all_pass(order, id@);
        if order.len() == 10_000 {
            lemma_one_added(order, id);
            lemma_one_dropped(order.push(id), 0);
            assert(order.push(id).remove(0) =~= order.drop_first().push(id));
        }
    }
}

/// Whether `after` shows that one more transaction was executed: it is counted
/// and its gas is added, and once as many were as there are the intent is
/// completed. An intent that is completed or failed stays as it is.
pub open spec fn one_more_executed(
    before: IntentRecord,
    after: IntentRecord,
    gas_used: u64,
    now: TimestampMs,
) -> bool {
    &&& after.intent_id == before.intent_id
    &&& after.tx_hashes@ == before.tx_hashes@
    &&& after.submitted_at == before.submitted_at
    &&& after.failed_count == before.failed_count
    &&& if before.status is Submitted {
        &&& after.confirmed_count == before.confirmed_count + 1
        &&& after.gas_used == before.gas_used + gas_used
        &&& after.updated_at == now
        &&& before.confirmed_count + 1 >= before.tx_hashes@.len() ==> after.status is Completed
            && after.status->gas_used == before.gas_used + gas_used
        &&& before.confirmed_count + 1 < before.tx_hashes@.len() ==> after.status == before.status
    } else {
        equal_records(after, before)
    }
}

/// Whether `after` shows that a transaction failed: the intent has failed for
/// that reason. An intent that is completed or failed stays as it is.
pub open spec fn one_failed(
    before: IntentRecord,
    after: IntentRecord,
    reason: Seq<char>,
    now: TimestampMs,
) -> bool {
    &&& after.intent_id == before.intent_id
    &&& after.tx_hashes@ == before.tx_hashes@
    &&& after.submitted_at == before.submitted_at
    &&& after.gas_used == before.gas_used
    &&& after.confirmed_count == before.confirmed_count
    &&& if before.status is Submitted {
        &&& after.failed_count == before.failed_count + 1
        &&& after.updated_at == now
        &&& after.status is Failed && after.status->reason@ == reason
    } else {
        equal_records(after, before)
    }
}

/// The report of an executed transaction is counted for the intent that the
/// transaction belongs to, and for no other.
pub proof fn law_executions_are_counted(
    tracker: &mut IntentTracker,
    tx: TxDigest,
    gas_used: u64,
    now: TimestampMs,
    r: Option<(IntentId, IntentStatus)>,
    id: IntentId,
    before: Option<IntentRecord>,
    after: Option<IntentRecord>,
)
    requires
        call_ensures(IntentTracker::status, (&*old(tracker), &id), before),
        old(tracker).wf(),
        before is Some ==> before->Some_0.gas_used + gas_used <= u64::MAX,
        call_ensures(IntentTracker::on_tx_executed_at, (tracker, &tx, gas_used, now), r),
        call_ensures(IntentTracker::status, (&*final(tracker), &id), after),
    ensures
        before is Some <==> after is Some,
        ({
            let mine = old(tracker)@.owners.dom().contains(tx@) && old(tracker)@.owners[tx@]@ == id@;
            &&& before is Some && mine ==> {
                &&& r is Some && r->Some_0.0@ == id@ && r->Some_0.1 == after->Some_0.status
                &&& one_more_executed(before->Some_0, after->Some_0, gas_used, now)
            }
            &&& before is Some && !mine ==> equal_records(after->Some_0, before->Some_0)
            &&& !old(tracker)@.owners.dom().contains(tx@) ==> r is None
        }),
        final(tracker)@.owners == old(tracker)@.owners,
{
    let t = old(tracker)@;
    old(tracker).law_contents_belong_together();
    if t.owners.dom().contains(tx@) {
        assert(t.intents.dom().contains(t.owners[tx@]@));
    }
    if before is Some && t.owners.dom().contains(tx@) && t.owners[tx@]@ == id@ && before->Some_0.status is Submitted {
        assert(before->Some_0.confirmed_count + 1 <= usize::MAX) by {
            old(tracker).law_records_are_plausible(id@);
        }
    }
}

/// The report of a failed transaction fails the intent that the transaction
/// belongs to, and no other.
pub proof fn law_failures_are_counted(
    tracker: &mut IntentTracker,
    tx: TxDigest,
    reason: String,
    now: TimestampMs,
    r: Option<(IntentId, IntentStatus)>,
    id: IntentId,
    before: Option<IntentRecord>,
    after: Option<IntentRecord>,
)
    requires
        call_ensures(IntentTracker::status, (&*old(tracker), &id), before),
        old(tracker).wf(),
        call_ensures(IntentTracker::on_tx_failed_at, (tracker, &tx, reason, now), r),
        call_ensures(IntentTracker::status, (&*final(tracker), &id), after),
    ensures
        before is Some <==> after is Some,
        ({
            let mine = old(tracker)@.owners.dom().contains(tx@) && old(tracker)@.owners[tx@]@ == id@;
            &&& before is Some && mine ==> {
                &&& r is Some && r->Some_0.0@ == id@ && r->Some_0.1 == after->Some_0.status
                &&& one_failed(before->Some_0, after->Some_0, reason@, now)
            }
            &&& before is Some && !mine ==> equal_records(after->Some_0, before->Some_0)
            &&& !old(tracker)@.owners.dom().contains(tx@) ==> r is None
        }),
        final(tracker)@.owners == old(tracker)@.owners,
{
    let t = old(tracker)@;
    old(tracker).law_contents_belong_together();
    if t.owners.dom().contains(tx@) {
        assert(t.intents.dom().contains(t.owners[tx@]@));
    }
    if before is Some && t.owners.dom().contains(tx@) && t.owners[tx@]@ == id@
        && before->Some_0.status is Submitted {
        old(tracker).law_records_are_plausible(id@);
    }
}

/// Reports by the clock are counted like those with a time.
pub proof fn law_reports_now_are_counted(
    tracker: &mut IntentTracker,
    failing: &mut IntentTracker,
    tx: TxDigest,
    gas_used: u64,
    reason: String,
    r: Option<(IntentId, IntentStatus)>,
    f: Option<(IntentId, IntentStatus)>,
    id: IntentId,
    before: IntentRecord,
    after: Option<IntentRecord>,
    failed: Option<IntentRecord>,
)
    requires
        call_ensures(IntentTracker::status, (&*old(tracker), &id), Some(before)),
        old(tracker).wf(),
        *old(failing) == *old(tracker),
        before.gas_used + gas_used <= u64::MAX,
        call_ensures(IntentTracker::on_tx_executed, (tracker, &tx, gas_used), r),
        call_ensures(IntentTracker::status, (&*final(tracker), &id), after),
        call_ensures(IntentTracker::on_tx_failed, (failing, &tx, reason), f),
        call_ensures(IntentTracker::status, (&*final(failing), &id), failed),
        old(tracker)@.owners.dom().contains(tx@),
        old(tracker)@.owners[tx@]@ == id@,
    ensures
        after is Some,
        r is Some && r->Some_0.0@ == id@ && r->Some_0.1 == after->Some_0.status,
        exists|now: TimestampMs|
            now.is_clock_reading() && #[trigger] one_more_executed(
                before,
                after->Some_0,
                gas_used,
                now,
            ),
        failed is Some,
        f is Some && f->Some_0.0@ == id@ && f->Some_0.1 == failed->Some_0.status,
        exists|now: TimestampMs|
            now.is_clock_reading() && #[trigger] one_failed(before, failed->Some_0, reason@, now),
{
    let t = old(tracker)@;
    old(tracker).law_contents_belong_together();
    assert(t.intents.dom().contains(t.owners[tx@]@));
    if before.status is Submitted {
        old(tracker).law_records_are_plausible(id@);
    }
    let now = choose|now: TimestampMs|
        now.is_clock_reading() && final(tracker)@ == #[trigger] t.executed(tx@, gas_used, now);
    assert(one_more_executed(before, after->Some_0, gas_used, now));
    let then = choose|then: TimestampMs|
        then.is_clock_reading() && final(failing)@ == #[trigger] t.failed(tx@, reason, then);
    assert(one_failed(before, failed->Some_0, reason@, then));
}

/// A new tracker tracks nothing.
pub proof fn law_new_trackers_show_nothing(
    tracker: IntentTracker,
    id: IntentId,
    shown: Option<IntentRecord>,
)
    requires
        call_ensures(IntentTracker::new, (), tracker),
        call_ensures(IntentTracker::status, (&tracker, &id), shown),
    ensures
        shown is None,
{
}

/// The time that is shown for a stage.
pub open spec fn shown_time(dto: TxLifecycleDto, stage: Stage) -> Option<TimestampMs> {
    match stage {
        Stage::SubmitAccepted => dto.submit_accepted_at,
        Stage::MempoolAdmitted => dto.mempool_admitted_at,
        Stage::ConsensusIncluded => dto.consensus_included_at,
        Stage::ReceiptVisible => dto.receipt_visible_at,
    }
}

/// Once a transaction was seen at a stage, that is shown with the time of the
/// first sight, and the other stages are shown as before.
pub proof fn law_first_sights_are_shown(
    registry: &mut TxLifecycleRegistry,
    tx: TxDigest,
    stage: Stage,
    now: TimestampMs,
    before: Option<TxLifecycleDto>,
    after: Option<TxLifecycleDto>,
    other: Stage,
)
    requires
        old(registry).wf(),
        call_ensures(TxLifecycleRegistry::snapshot, (&*old(registry), &tx), before),
        call_ensures(TxLifecycleRegistry::record_at, (registry, tx, stage, now), ()),
        call_ensures(TxLifecycleRegistry::snapshot, (&*final(registry), &tx), after),
    ensures
        after is Some,
        after->Some_0.tx_digest == tx,
        before is Some && shown_time(before->Some_0, stage) is Some ==> shown_time(
            after->Some_0,
            stage,
        ) == shown_time(before->Some_0, stage),
        before is None || shown_time(before->Some_0, stage) is None ==> shown_time(
            after->Some_0,
            stage,
        ) == Some(now),
        other != stage ==> shown_time(after->Some_0, other) == if before is Some {
            shown_time(before->Some_0, other)
        } else {
            None
        },
{
    old(registry).law_lifecycles_are_consistent();
    let l = old(registry)@;
    if !l.records.dom().contains(tx@) && l.order.len() >= old(registry).capacity() {
        assert(l.order.push(tx@)[0] == l.order[0]);
        assert(l.order.contains(l.order[0]));
        assert(l.records.dom().contains(l.order[0]));
    }
}

/// Seeing one transaction changes nothing that is shown of another, unless as
/// many are retained as may be and it is the oldest of them.
pub proof fn law_other_transactions_are_shown_as_before(
    registry: &mut TxLifecycleRegistry,
    tx: TxDigest,
    stage: Stage,
    now: TimestampMs,
    other: TxDigest,
    before: Option<TxLifecycleDto>,
    after: Option<TxLifecycleDto>,
)
    requires
        old(registry).wf(),
        other@ != tx@,
        call_ensures(TxLifecycleRegistry::snapshot, (&*old(registry), &other), before),
        call_ensures(TxLifecycleRegistry::record_at, (registry, tx, stage, now), ()),
        call_ensures(TxLifecycleRegistry::snapshot, (&*final(registry), &other), after),
    ensures
        after == before || {
            &&& after is None
            &&& old(registry)@.order.len() >= old(registry).capacity()
            &&& old(registry)@.order[0] == other@
        },
{
    old(registry).law_lifecycles_are_consistent();
    let l = old(registry)@;
    if l.order.len() >= old(registry).capacity() {
        assert(l.order.push(tx@)[0] == l.order[0]);
    }
}

/// What is recorded by the clock is recorded under its own stage.
pub proof fn law_stages_are_recorded_by_name(
    submitted: &mut TxLifecycleRegistry,
    admitted: &mut TxLifecycleRegistry,
    included: &mut TxLifecycleRegistry,
    visible: &mut TxLifecycleRegistry,
    tx: TxDigest,
    s: Option<TxLifecycleDto>,
    a: Option<TxLifecycleDto>,
    i: Option<TxLifecycleDto>,
    v: Option<TxLifecycleDto>,
)
    requires
        old(submitted).wf(),
        !old(submitted)@.records.dom().contains(tx@),
        *old(admitted) == *old(submitted),
        *old(included) == *old(submitted),
        *old(visible) == *old(submitted),
        call_ensures(TxLifecycleRegistry::record_submit_accepted, (submitted, tx), ()),
        call_ensures(TxLifecycleRegistry::record_mempool_admitted, (admitted, tx), ()),
        call_ensures(TxLifecycleRegistry::record_consensus_included, (included, tx), ()),
        call_ensures(TxLifecycleRegistry::record_receipt_visible, (visible, tx), ()),
        call_ensures(TxLifecycleRegistry::snapshot, (&*final(submitted), &tx), s),
        call_ensures(TxLifecycleRegistry::snapshot, (&*final(admitted), &tx), a),
        call_ensures(TxLifecycleRegistry::snapshot, (&*final(included), &tx), i),
        call_ensures(TxLifecycleRegistry::snapshot, (&*final(visible), &tx), v),
    ensures
        s is Some && s->Some_0.submit_accepted_at is Some && s->Some_0.mempool_admitted_at is None
            && s->Some_0.consensus_included_at is None && s->Some_0.receipt_visible_at is None,
        a is Some && a->Some_0.submit_accepted_at is None && a->Some_0.mempool_admitted_at is Some
            && a->Some_0.consensus_included_at is None && a->Some_0.receipt_visible_at is None,
        i is Some && i->Some_0.submit_accepted_at is None && i->Some_0.mempool_admitted_at is None
            && i->Some_0.consensus_included_at is Some && i->Some_0.receipt_visible_at is None,
        v is Some && v->Some_0.submit_accepted_at is None && v->Some_0.mempool_admitted_at is None
            && v->Some_0.consensus_included_at is None && v->Some_0.receipt_visible_at is Some,
        s->Some_0.submit_accepted_at->Some_0.is_clock_reading(),
        a->Some_0.mempool_admitted_at->Some_0.is_clock_reading(),
        i->Some_0.consensus_included_at->Some_0.is_clock_reading(),
        v->Some_0.receipt_visible_at->Some_0.is_clock_reading(),
{
    old(submitted).law_lifecycles_are_consistent();
    let l = old(submitted)@;
    if l.order.len() >= old(submitted).capacity() {
        assert(l.order.push(tx@)[0] == l.order[0]);
        assert(l.order.contains(l.order[0]));
        assert(l.records.dom().contains(l.order[0]));
    }
}

/// A new registry retains nothing, and may retain at least one transaction.
pub proof fn law_new_registries_show_nothing(
    max_entries: usize,
    registry: TxLifecycleRegistry,
    tx: TxDigest,
    shown: Option<TxLifecycleDto>,
)
    requires
        call_ensures(TxLifecycleRegistry::new, (max_entries,), registry),
        call_ensures(TxLifecycleRegistry::snapshot, (&registry, &tx), shown),
    ensures
        shown is None,
        registry.capacity() >= 1,
        max_entries >= 1 ==> registry.capacity() == max_entries,
{
}

/// Transactions are kept in the order in which they were first seen, and the
/// first one makes room where there is none left.
pub proof fn law_the_oldest_transaction_makes_room(
    registry: &mut TxLifecycleRegistry,
    tx: TxDigest,
    stage: Stage,
    now: TimestampMs,
)
    requires
        old(registry).wf(),
        call_ensures(TxLifecycleRegistry::record_at, (registry, tx, stage, now), ()),
    ensures
        final(registry).capacity() == old(registry).capacity(),
        old(registry)@.order.contains(tx@) ==> final(registry)@.order == old(registry)@.order,
        !old(registry)@.order.contains(tx@) && old(registry)@.order.len()
            < old(registry).capacity() ==> final(registry)@.order == old(registry)@.order.push(tx@),
        !old(registry)@.order.contains(tx@) && old(registry)@.order.len()
            == old(registry).capacity() ==> final(registry)@.order
            == old(registry)@.order.drop_first().push(tx@),
{
    old(registry).law_lifecycles_are_consistent();
    let order = old(registry)@.order;
    if order.len() == old(registry).capacity() {
        assert(order.push(tx@).drop_first() =~= order.drop_first().push(tx@));
    }
}

} // verus!
