//! When each transaction reached each stage of the pipeline.
//!
//! The first time at which a stage was observed counts. A bounded number of
//! transactions is retained; the oldest is dropped first.

use vstd::prelude::*;

use crate::primitives::table::KeyTable;
use crate::primitives::{TimestampMs, TxDigest};
use crate::rpc::dto::TxLifecycleDto;

verus! {

/// When a transaction reached each stage.
#[derive(Clone, Copy, Debug)]
pub struct TxLifecycleRecord {
    /// When it was accepted for submission.
    pub submit_accepted_at: Option<TimestampMs>,
    /// When it was admitted to the mempool.
    pub mempool_admitted_at: Option<TimestampMs>,
    /// When it was included in a committed batch.
    pub consensus_included_at: Option<TimestampMs>,
    /// When its receipt became visible.
    pub receipt_visible_at: Option<TimestampMs>,
}

/// A stage of the pipeline.
#[derive(Clone, Copy, Debug, PartialEq, Eq, Structural)]
pub enum Stage {
    /// Accepted for submission.
    SubmitAccepted,
    /// Admitted to the mempool.
    MempoolAdmitted,
    /// Included in a committed batch.
    ConsensusIncluded,
    /// The receipt is visible.
    ReceiptVisible,
}

/// A record without any stage.
pub open spec fn blank_record() -> TxLifecycleRecord {
    TxLifecycleRecord {
        submit_accepted_at: None,
        mempool_admitted_at: None,
        consensus_included_at: None,
        receipt_visible_at: None,
    }
}

/// The earlier time if there is one, else `now`.
pub open spec fn first_of(earlier: Option<TimestampMs>, now: TimestampMs) -> Option<TimestampMs> {
    match earlier {
        Some(t) => Some(t),
        None => Some(now),
    }
}

/// The record after a stage was observed at the time `now`.
pub open spec fn observed(record: TxLifecycleRecord, stage: Stage, now: TimestampMs) -> TxLifecycleRecord {
    match stage {
        Stage::SubmitAccepted => TxLifecycleRecord {
            submit_accepted_at: first_of(record.submit_accepted_at, now),
            ..record
        },
        Stage::MempoolAdmitted => TxLifecycleRecord {
            mempool_admitted_at: first_of(record.mempool_admitted_at, now),
            ..record
        },
        Stage::ConsensusIncluded => TxLifecycleRecord {
            consensus_included_at: first_of(record.consensus_included_at, now),
            ..record
        },
        Stage::ReceiptVisible => TxLifecycleRecord {
            receipt_visible_at: first_of(record.receipt_visible_at, now),
            ..record
        },
    }
}

/// A registry's contents.
#[verifier::ext_equal]
pub struct Lifecycles {
    /// The record of each retained transaction.
    pub records: Map<Seq<u8>, TxLifecycleRecord>,
    /// The retained transactions, the oldest first.
    pub order: Seq<Seq<u8>>,
}

impl Lifecycles {
    /// The contents after a stage of `tx` was observed, where at most
    /// `max_entries` transactions are retained.
    pub open spec fn after(self, max_entries: int, tx: Seq<u8>, stage: Stage, now: TimestampMs) -> Lifecycles {
        if self.records.dom().contains(tx) {
            Lifecycles {
                records: self.records.insert(tx, observed(self.records[tx], stage, now)),
                order: self.order,
            }
        } else {
            let records = self.records.insert(tx, observed(blank_record(), stage, now));
            if self.order.len() < max_entries {
                Lifecycles { records, order: self.order.push(tx) }
            } else {
                Lifecycles {
                    records: records.remove(self.order.push(tx)[0]),
                    order: self.order.push(tx).drop_first(),
                }
            }
        }
    }

    /// The order lists every retained transaction once, and there are at most
    /// `max_entries`.
    pub open spec fn consistent(self, max_entries: int) -> bool {
        &&& self.order.no_duplicates()
        &&& forall|k: Seq<u8>| #[trigger] self.records.dom().contains(k) <==> self.order.contains(k)
        &&& self.order.len() <= max_entries
    }
}

/// Keeps track of when transactions reached each stage.
pub struct TxLifecycleRegistry {
    max_entries: usize,
    order: Vec<TxDigest>,
    records: KeyTable<TxLifecycleRecord>,
}

impl View for TxLifecycleRegistry {
    type V = Lifecycles;

    closed spec fn view(&self) -> Lifecycles {
        Lifecycles { records: self.records@, order: self.order@.map_values(|d: TxDigest| d@) }
    }
}

fn first_time(earlier: Option<TimestampMs>, now: TimestampMs) -> (r: Option<TimestampMs>)
    ensures
        r == first_of(earlier, now),
{
    match earlier {
        Some(t) => Some(t),
        None => Some(now),
    }
}

impl TxLifecycleRegistry {
    /// The contents are consistent.
    pub closed spec fn wf(&self) -> bool {
        &&& self.records.wf()
        &&& self.max_entries >= 1
        &&& self@.consistent(self.max_entries as int)
    }

    /// The number of transactions that are retained.
    pub closed spec fn capacity(&self) -> int {
        self.max_entries as int
    }

    /// What the representation guarantees of the contents.
    pub proof fn law_lifecycles_are_consistent(&self)
        requires
            self.wf(),
        ensures
            self.capacity() >= 1,
            self@.consistent(self.capacity()),
    {
    }

    /// A registry that retains `max_entries` transactions, or one where that
    /// is zero.
    pub fn new(max_entries: usize) -> (r: Self)
        ensures
            r.wf(),
            r@ == (Lifecycles { records: Map::empty(), order: Seq::empty() }),
            r.capacity() == if max_entries >= 1 {
                max_entries as int
            } else {
                1
            },
    {
        let r = TxLifecycleRegistry {
            max_entries: if max_entries >= 1 {
                max_entries
            } else {
                1
            },
            order: Vec::new(),
            records: KeyTable::new(),
        };
        assert(r@.order =~= Seq::empty());
        r
    }

    /// Records that a stage of the transaction was observed at the time `now`.
    pub fn record_at(&mut self, digest: TxDigest, stage: Stage, now: TimestampMs)
        requires
            old(self).wf(),
        ensures
            final(self).wf(),
            final(self).capacity() == old(self).capacity(),
            final(self)@ == old(self)@.after(old(self).capacity(), digest@, stage, now),
    {
        let ghost before = self@;
        let mut is_new = false;
        let mut record: TxLifecycleRecord = match self.records.get(&digest.0) {
            Some(record) => *record,
            None => {
                is_new = true;
                TxLifecycleRecord {
                    submit_accepted_at: None,
                    mempool_admitted_at: None,
                    consensus_included_at: None,
                    receipt_visible_at: None,
                }
            },
        };
        match stage {
            Stage::SubmitAccepted => {
                record.submit_accepted_at = first_time(record.submit_accepted_at, now);
            },
            Stage::MempoolAdmitted => {
                record.mempool_admitted_at = first_time(record.mempool_admitted_at, now);
            },
            Stage::ConsensusIncluded => {
                record.consensus_included_at = first_time(record.consensus_included_at, now);
            },
            Stage::ReceiptVisible => {
                record.receipt_visible_at = first_time(record.receipt_visible_at, now);
            },
        }
        self.records.insert(&digest.0, record);
        if is_new {
            let ghost listed = self.order@;
            self.order.push(digest);
            let ghost grown = self@;
            proof {
                assert(grown.order =~= before.order.push(digest@));
                lemma_grown(before, digest@, record, self.max_entries as int);
            }
            if self.order.len() > self.max_entries {
                let oldest: TxDigest = self.order.remove(0);
                assert(oldest@ == grown.order[0]);
                let _ = self.records.remove(&oldest.0);
                proof {
                    assert(self@.order =~= grown.order.drop_first());
                    lemma_shrunk(grown);
                }
            }
        } else {
            assert(self@.order =~= before.order);
            assert forall|k: Seq<u8>| #[trigger]
                self@.records.dom().contains(k) <==> self@.order.contains(k) by {
                assert(before.records.dom().contains(k) <==> before.order.contains(k));
            }
        }
    }

    /// Records that the transaction was accepted for submission just now.
    pub fn record_submit_accepted(&mut self, digest: TxDigest)
        requires
            old(self).wf(),
        ensures
            final(self).wf(),
            final(self).capacity() == old(self).capacity(),
            exists|now: TimestampMs|
                now.is_clock_reading() && final(self)@ == #[trigger] old(self)@.after(
                    old(self).capacity(),
                    digest@,
                    Stage::SubmitAccepted,
                    now,
                ),
    {
        self.record_at(digest, Stage::SubmitAccepted, TimestampMs::now());
    }

    /// Records that the transaction was admitted to the mempool just now.
    pub fn record_mempool_admitted(&mut self, digest: TxDigest)
        requires
            old(self).wf(),
        ensures
            final(self).wf(),
            final(self).capacity() == old(self).capacity(),
            exists|now: TimestampMs|
                now.is_clock_reading() && final(self)@ == #[trigger] old(self)@.after(
                    old(self).capacity(),
                    digest@,
                    Stage::MempoolAdmitted,
                    now,
                ),
    {
        self.record_at(digest, Stage::MempoolAdmitted, TimestampMs::now());
    }

    /// Records that the transaction was included in a committed batch just
    /// now.
    pub fn record_consensus_included(&mut self, digest: TxDigest)
        requires
            old(self).wf(),
        ensures
            final(self).wf(),
            final(self).capacity() == old(self).capacity(),
            exists|now: TimestampMs|
                now.is_clock_reading() && final(self)@ == #[trigger] old(self)@.after(
                    old(self).capacity(),
                    digest@,
                    Stage::ConsensusIncluded,
                    now,
                ),
    {
        self.record_at(digest, Stage::ConsensusIncluded, TimestampMs::now());
    }

    /// Records that the receipt of the transaction became visible just now.
    pub fn record_receipt_visible(&mut self, digest: TxDigest)
        requires
            old(self).wf(),
        ensures
            final(self).wf(),
            final(self).capacity() == old(self).capacity(),
            exists|now: TimestampMs|
                now.is_clock_reading() && final(self)@ == #[trigger] old(self)@.after(
                    old(self).capacity(),
                    digest@,
                    Stage::ReceiptVisible,
                    now,
                ),
    {
        self.record_at(digest, Stage::ReceiptVisible, TimestampMs::now());
    }

    /// What is known of a transaction, if it is retained.
    pub fn snapshot(&self, digest: &TxDigest) -> (r: Option<TxLifecycleDto>)
        requires
            self.wf(),
        ensures
            if self@.records.dom().contains(digest@) {
                let record = self@.records[digest@];
                r == Some(
                    TxLifecycleDto {
                        tx_digest: *digest,
                        submit_accepted_at: record.submit_accepted_at,
                        mempool_admitted_at: record.mempool_admitted_at,
                        consensus_included_at: record.consensus_included_at,
                        receipt_visible_at: record.receipt_visible_at,
                    },
                )
            } else {
                r is None
            },
    {
        match self.records.get(&digest.0) {
            Some(record) => Some(
                TxLifecycleDto {
                    tx_digest: *digest,
                    submit_accepted_at: record.submit_accepted_at,
                    mempool_admitted_at: record.mempool_admitted_at,
                    consensus_included_at: record.consensus_included_at,
                    receipt_visible_at: record.receipt_visible_at,
                },
            ),
            None => None,
        }
    }
}

proof fn lemma_grown(before: Lifecycles, tx: Seq<u8>, record: TxLifecycleRecord, max_entries: int)
    requires
        before.consistent(max_entries),
        !before.records.dom().contains(tx),
    ensures
        (Lifecycles { records: before.records.insert(tx, record), order: before.order.push(tx) }).consistent(
            before.order.len() as int + 1,
        ),
{
    let grown = Lifecycles {
        records: before.records.insert(tx, record),
        order: before.order.push(tx),
    };
    assert(!before.order.contains(tx));
    assert forall|k: Seq<u8>| #[trigger]
        grown.records.dom().contains(k) <==> grown.order.contains(k) by {
        if k == tx {
            assert(grown.order[before.order.len() as int] == tx);
        } else {
            assert(before.records.dom().contains(k) <==> before.order.contains(k));
            if before.order.contains(k) {
                let i = choose|i: int| 0 <= i < before.order.len() && before.order[i] == k;
                assert(grown.order[i] == k);
            }
            if grown.order.contains(k) {
                let i = choose|i: int| 0 <= i < grown.order.len() && grown.order[i] == k;
                assert(before.order[i] == k);
            }
        }
    }
    assert forall|i: int, j: int|
        0 <= i < grown.order.len() && 0 <= j < grown.order.len() && i != j implies grown.order[i]
        != grown.order[j] by {
        if i == before.order.len() {
            assert(before.order.contains(before.order[j]));
        } else if j == before.order.len() {
            assert(before.order.contains(before.order[i]));
        }
    }
}

proof fn lemma_shrunk(grown: Lifecycles)
    requires
        grown.consistent(grown.order.len() as int),
        grown.order.len() > 0,
    ensures
        (Lifecycles {
            records: grown.records.remove(grown.order[0]),
            order: grown.order.drop_first(),
        }).consistent(grown.order.len() - 1),
{
    let shrunk = Lifecycles {
        records: grown.records.remove(grown.order[0]),
        order: grown.order.drop_first(),
    };
    assert forall|k: Seq<u8>| #[trigger]
        shrunk.records.dom().contains(k) <==> shrunk.order.contains(k) by {
        assert(grown.records.dom().contains(k) <==> grown.order.contains(k));
        if shrunk.order.contains(k) {
            let i = choose|i: int| 0 <= i < shrunk.order.len() && shrunk.order[i] == k;
            assert(grown.order[i + 1] == k);
        }
        if grown.order.contains(k) && k != grown.order[0] {
            let i = choose|i: int| 0 <= i < grown.order.len() && grown.order[i] == k;
            assert(shrunk.order[i - 1] == k);
        }
    }
    assert forall|i: int, j: int|
        0 <= i < shrunk.order.len() && 0 <= j < shrunk.order.len() && i != j implies shrunk.order[i]
        != shrunk.order[j] by {
        assert(grown.order[i + 1] != grown.order[j + 1]);
    }
}

/// The first time at which a stage was observed is kept, however often it is
/// observed again.
pub proof fn law_first_time_wins(record: TxLifecycleRecord, stage: Stage, first: TimestampMs, second: TimestampMs)
    ensures
        observed(observed(record, stage, first), stage, second) == observed(record, stage, first),
{
}

/// When a stage was first observed, if it was.
pub open spec fn time_of(record: TxLifecycleRecord, stage: Stage) -> Option<TimestampMs> {
    match stage {
        Stage::SubmitAccepted => record.submit_accepted_at,
        Stage::MempoolAdmitted => record.mempool_admitted_at,
        Stage::ConsensusIncluded => record.consensus_included_at,
        Stage::ReceiptVisible => record.receipt_visible_at,
    }
}

/// Observing one stage leaves the times of the others as they are, so that two
/// stages may be observed in either order.
pub proof fn law_stages_are_independent(
    record: TxLifecycleRecord,
    a: Stage,
    b: Stage,
    first: TimestampMs,
    second: TimestampMs,
)
    requires
        a != b,
    ensures
        time_of(observed(record, a, first), b) == time_of(record, b),
        observed(observed(record, a, first), b, second) == observed(
            observed(record, b, second),
            a,
            first,
        ),
{
}

/// The contents of an empty registry after the transactions `txs` were
/// observed one after the other, each at one stage.
pub open spec fn after_all(max_entries: int, txs: Seq<(Seq<u8>, Stage, TimestampMs)>) -> Lifecycles
    decreases txs.len(),
{
    if txs.len() == 0 {
        Lifecycles { records: Map::empty(), order: Seq::empty() }
    } else {
        let (tx, stage, now) = txs.last();
        after_all(max_entries, txs.drop_last()).after(max_entries, tx, stage, now)
    }
}

/// Of distinct transactions the last ones are retained, in the order in which
/// they came, and no others.
pub proof fn law_latest_are_retained(max_entries: int, txs: Seq<(Seq<u8>, Stage, TimestampMs)>)
    requires
        max_entries >= 1,
        forall|i: int, j: int|
            0 <= i < j < txs.len() ==> (#[trigger] txs[i]).0 != (#[trigger] txs[j]).0,
    ensures
        ({
            let contents = after_all(max_entries, txs);
            let dropped: int = if txs.len() <= max_entries {
                0
            } else {
                txs.len() - max_entries
            };
            &&& contents.consistent(max_entries)
            &&& contents.order.len() == txs.len() - dropped
            &&& forall|i: int|
                0 <= i < contents.order.len() ==> #[trigger] contents.order[i] == txs[dropped + i].0
        }),
    decreases txs.len(),
{
    if txs.len() > 0 {
        let earlier = txs.drop_last();
        assert forall|i: int, j: int| 0 <= i < j < earlier.len() implies (#[trigger] earlier[i]).0
            != (#[trigger] earlier[j]).0 by {
            assert(earlier[i] == txs[i] && earlier[j] == txs[j]);
        }
        law_latest_are_retained(max_entries, earlier);
        let before = after_all(max_entries, earlier);
        let (tx, stage, now) = txs.last();
        let n = txs.len() as int;
        assert(!before.records.dom().contains(tx)) by {
            if before.records.dom().contains(tx) {
                assert(before.order.contains(tx));
                let i = choose|i: int| 0 <= i < before.order.len() && before.order[i] == tx;
                let dropped: int = if earlier.len() <= max_entries {
                    0
                } else {
                    earlier.len() - max_entries
                };
                assert(earlier[dropped + i] == txs[dropped + i]);
                assert(txs[dropped + i].0 != txs[n - 1].0);
            }
        }
        lemma_grown(before, tx, observed(blank_record(), stage, now), max_entries);
        if before.order.len() >= max_entries {
            lemma_shrunk(
                Lifecycles {
                    records: before.records.insert(tx, observed(blank_record(), stage, now)),
                    order: before.order.push(tx),
                },
            );
        }
    } else {
        let empty = after_all(max_entries, txs);
        assert forall|k: Seq<u8>| #[trigger]
            empty.records.dom().contains(k) <==> empty.order.contains(k) by {}
    }
}

/// The transactions that were observed.
pub open spec fn observed_txs(txs: Seq<(Seq<u8>, Stage, TimestampMs)>) -> Set<Seq<u8>> {
    txs.map_values(|t: (Seq<u8>, Stage, TimestampMs)| t.0).to_set()
}

proof fn lemma_observed_grows(txs: Seq<(Seq<u8>, Stage, TimestampMs)>)
    requires
        txs.len() > 0,
    ensures
        observed_txs(txs) == observed_txs(txs.drop_last()).insert(txs.last().0),
{
    let all = txs.map_values(|t: (Seq<u8>, Stage, TimestampMs)| t.0);
    let earlier = txs.drop_last().map_values(|t: (Seq<u8>, Stage, TimestampMs)| t.0);
    assert(all =~= earlier.push(txs.last().0));
    assert forall|k: Seq<u8>| all.to_set().contains(k) == earlier.to_set().insert(
        txs.last().0,
    ).contains(k) by {
        if earlier.contains(k) {
            let i = choose|i: int| 0 <= i < earlier.len() && earlier[i] == k;
            assert(all[i] == k);
        }
        if all.contains(k) && k != txs.last().0 {
            let i = choose|i: int| 0 <= i < all.len() && all[i] == k;
            assert(earlier[i] == k);
        }
        assert(all[all.len() - 1] == txs.last().0);
    }
    assert(observed_txs(txs) =~= observed_txs(txs.drop_last()).insert(txs.last().0));
}

/// Whatever was observed, as many transactions are retained as were observed
/// or as there is room for, all of them were observed, and the one observed
/// last is among them.
pub proof fn law_as_many_as_fit_are_retained(
    max_entries: int,
    txs: Seq<(Seq<u8>, Stage, TimestampMs)>,
)
    requires
        max_entries >= 1,
    ensures
        ({
            let contents = after_all(max_entries, txs);
            let seen = observed_txs(txs);
            &&& contents.consistent(max_entries)
            &&& seen.finite()
            &&& contents.order.len() == if seen.len() <= max_entries {
                seen.len() as int
            } else {
                max_entries
            }
            &&& contents.records.dom().subset_of(seen)
            &&& seen.len() <= max_entries ==> contents.records.dom() == seen
            &&& txs.len() > 0 ==> contents.records.dom().contains(txs.last().0)
        }),
    decreases txs.len(),
{
    let contents = after_all(max_entries, txs);
    vstd::seq_lib::seq_to_set_is_finite(
        txs.map_values(|t: (Seq<u8>, Stage, TimestampMs)| t.0),
    );
    if txs.len() == 0 {
        assert(observed_txs(txs) =~= Set::<Seq<u8>>::empty());
        assert(contents.records.dom() =~= Set::<Seq<u8>>::empty());
        assert forall|k: Seq<u8>| #[trigger]
            contents.records.dom().contains(k) <==> contents.order.contains(k) by {}
    } else {
        let earlier = txs.drop_last();
        law_as_many_as_fit_are_retained(max_entries, earlier);
        lemma_observed_grows(txs);
        let before = after_all(max_entries, earlier);
        let seen_before = observed_txs(earlier);
        let seen = observed_txs(txs);
        let (tx, stage, now) = txs.last();
        if before.records.dom().contains(tx) {
            assert(seen =~= seen_before);
            assert(contents.records.dom() =~= before.records.dom());
            assert forall|k: Seq<u8>| #[trigger]
                contents.records.dom().contains(k) <==> contents.order.contains(k) by {
                assert(before.records.dom().contains(k) <==> before.order.contains(k));
            }
        } else {
            let record = observed(blank_record(), stage, now);
            let grown = Lifecycles {
                records: before.records.insert(tx, record),
                order: before.order.push(tx),
            };
            lemma_grown(before, tx, record, max_entries);
            if before.order.len() < max_entries {
                assert(contents.records.dom() =~= before.records.dom().insert(tx));
            } else {
                lemma_shrunk(grown);
                assert(before.order.len() >= 1);
                assert(grown.order[0] == before.order[0]);
                assert(before.order.contains(before.order[0]));
                assert(before.records.dom().contains(before.order[0]));
                assert(contents.records.dom().contains(tx));
                if seen.len() <= max_entries {
                    assert(seen_before.subset_of(seen));
                    vstd::set_lib::lemma_len_subset(seen_before, seen);
                    assert(!seen_before.contains(tx));
                }
            }
        }
    }
}

} // verus!
