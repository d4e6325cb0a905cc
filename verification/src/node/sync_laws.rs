//! What holds of the blocks that are asked for, served, checked and stored.

use vstd::prelude::*;

use crate::node::consensus_types::CommittedBatch;
use crate::node::state_sync::{
    accept_certificates, accept_message, accepted_until, answer_from_entries, answer_outcome,
    answer_sent, block_key, block_range, capped, certificates_accepted, committee_judges,
    decode_message, encode_message, entry_values, first_refused, handle_block_request,
    handle_block_response, handle_sync_message, holds_block, is_block, is_message,
    judge_block_response, law_messages_read_back, law_stored_blocks_load_back, layouts, lists,
    load_committed_blocks, message_fits, message_handled, message_layout, names_certificates,
    names_epoch, outcome_done, range_end, request_blocks, request_blocks_filtered, request_served,
    response_handled, response_outcome, scanned, stores, sync_service_step,
    validate_block_committee, BlockResponseOutcome, CommitteeValidator, PeerId, RejectReason,
    ShardFilter, StateSyncMessage, SyncAction, SyncInput, SyncThrottle, MAX_SYNC_MESSAGE_SIZE,
};
use crate::primitives::bcs_layout::{
    block_fits, block_layout, blocks_fit, blocks_layout, law_block_layout_is_unambiguous,
    request_layout, response_layout, same_block, same_blocks,
};
use crate::primitives::endian::{be_bytes, lemma_pow256_values, pow256};
use crate::primitives::{Blake3Digest, CommitSequence, EpochNumber};

verus! {

/// Whether a digest is one of a list.
pub open spec fn is_among(digest: Blake3Digest, list: Seq<Blake3Digest>) -> bool {
    exists|j: int| 0 <= j < list.len() && (#[trigger] list[j]).0@ == digest.0@
}

/// Whether every certificate of a block, at whatever position, is one of a
/// list.
pub open spec fn all_among(block: CommittedBatch, list: Seq<Blake3Digest>) -> bool {
    forall|i: int| 0 <= i < block.certificates@.len() ==> is_among(#[trigger] block.certificates@[i], list)
}

proof fn lemma_accepted_are_among(block: CommittedBatch, known: Option<Vec<Blake3Digest>>)
    ensures
        certificates_accepted(block, known) <==> (known is Some ==> all_among(block, known->Some_0@)),
{
    if known is Some {
        let list = known->Some_0@;
        assert forall|i: int| 0 <= i < block.certificates@.len() implies (is_among(
            #[trigger] block.certificates@[i],
            list,
        ) <==> lists(list, block.certificates@[i]@)) by {
            if lists(list, block.certificates@[i]@) {
                let j = choose|j: int| 0 <= j < list.len() && (#[trigger] list[j])@ == block.certificates@[i]@;
                assert(list[j].0@ == block.certificates@[i].0@);
            }
            if is_among(block.certificates@[i], list) {
                let j = choose|j: int| 0 <= j < list.len() && (#[trigger] list[j]).0@ == block.certificates@[i].0@;
                assert(list[j]@ == block.certificates@[i]@);
            }
        }
        if certificates_accepted(block, known) {
            assert forall|i: int| 0 <= i < block.certificates@.len() implies is_among(
                #[trigger] block.certificates@[i],
                list,
            ) by {
                assert(lists(list, block.certificates@[i]@));
            }
        }
        if all_among(block, list) {
            assert forall|i: int| 0 <= i < block.certificates@.len() implies lists(
                list,
                (#[trigger] block.certificates@[i])@,
            ) by {
                assert(is_among(block.certificates@[i], list));
            }
        }
    }
}

/// Where the certificates of a committee are known, a block is accepted
/// exactly if each of its certificates is one of them.
pub proof fn law_every_certificate_must_be_known(
    block: CommittedBatch,
    known: Option<Vec<Blake3Digest>>,
    r: bool,
)
    requires
        call_ensures(accept_certificates, (&block, &known), r),
    ensures
        known is None ==> r,
        known is Some ==> (r <==> forall|i: int|
            0 <= i < block.certificates@.len() ==> is_among(
                #[trigger] block.certificates@[i],
                known->Some_0@,
            )),
{
    lemma_accepted_are_among(block, known);
}

/// Whether a validator's answers lead to the verdict `verdict` on a block: it
/// is accepted where the epoch or the committee is unknown, and else exactly
/// where every certificate is one of the committee's.
pub open spec fn verdict_follows<V: CommitteeValidator + ?Sized>(
    v: &V,
    block: CommittedBatch,
    verdict: bool,
) -> bool {
    ||| verdict && call_ensures(
        V::epoch_for_sequence,
        (v, block.sequence),
        None::<EpochNumber>,
    )
    ||| exists|epoch: EpochNumber, known: Option<Vec<Blake3Digest>>|
        {
            &&& call_ensures(V::epoch_for_sequence, (v, block.sequence), Some(epoch))
            &&& #[trigger] asked(v, epoch, known)
            &&& verdict <==> (known is Some ==> all_among(block, known->Some_0@))
        }
}

/// Whether a validator gave `known` for the certificates of an epoch.
pub open spec fn asked<V: CommitteeValidator + ?Sized>(
    v: &V,
    epoch: EpochNumber,
    known: Option<Vec<Blake3Digest>>,
) -> bool {
    call_ensures(V::known_cert_digests_for_epoch, (v, epoch), known)
}

proof fn lemma_judged_follows<V: CommitteeValidator + ?Sized>(v: &V, block: CommittedBatch, verdict: bool)
    requires
        committee_judges(v, block, verdict),
    ensures
        verdict_follows(v, block, verdict),
{
    let epoch = choose|epoch: Option<EpochNumber>|
        {
            &&& #[trigger] names_epoch(v, block.sequence, epoch)
            &&& match epoch {
                None => verdict,
                Some(e) => exists|known: Option<Vec<Blake3Digest>>|
                    {
                        &&& #[trigger] names_certificates(v, e, known)
                        &&& verdict == certificates_accepted(block, known)
                    },
            }
        };
    assert(call_ensures(V::epoch_for_sequence, (v, block.sequence), epoch));
    if epoch is Some {
        let known = choose|known: Option<Vec<Blake3Digest>>|
            {
                &&& #[trigger] names_certificates(v, epoch->Some_0, known)
                &&& verdict == certificates_accepted(block, known)
            };
        lemma_accepted_are_among(block, known);
        assert(asked(v, epoch->Some_0, known));
    }
}

/// Whoever is asked for a verdict on a block gives the one that the answers of
/// the validator lead to.
pub proof fn law_verdicts_follow_the_committee<V: CommitteeValidator + ?Sized>(
    block: CommittedBatch,
    v: &V,
    r: bool,
)
    requires
        call_ensures(validate_block_committee::<V>, (&block, v), r),
    ensures
        verdict_follows(v, block, r),
{
    lemma_judged_follows(v, block, r);
}

/// A block with a certificate that is not one of its committee's is refused,
/// whatever the position of the certificate.
pub proof fn law_foreign_certificates_are_refused<V: CommitteeValidator + ?Sized>(
    block: CommittedBatch,
    v: &V,
    epoch: EpochNumber,
    list: Vec<Blake3Digest>,
    i: int,
    r: bool,
)
    requires
        call_ensures(validate_block_committee::<V>, (&block, v), r),
        forall|e: Option<EpochNumber>| #[trigger]
            call_ensures(V::epoch_for_sequence, (v, block.sequence), e) ==> e == Some(epoch),
        forall|known: Option<Vec<Blake3Digest>>| #[trigger]
            asked(v, epoch, known) ==> known == Some(list),
        0 <= i < block.certificates@.len(),
        !is_among(block.certificates@[i], list@),
    ensures
        !r,
{
    lemma_judged_follows(v, block, r);
    if r {
        if call_ensures(V::epoch_for_sequence, (v, block.sequence), None::<EpochNumber>) {
            assert(None::<EpochNumber> == Some(epoch));
        }
        let (e, known) = choose|e: EpochNumber, known: Option<Vec<Blake3Digest>>|
            {
                &&& call_ensures(V::epoch_for_sequence, (v, block.sequence), Some(e))
                &&& #[trigger] asked(v, e, known)
                &&& r <==> (known is Some ==> all_among(block, known->Some_0@))
            };
        assert(Some(e) == Some(epoch));
        assert(is_among(block.certificates@[i], list@));
    }
}

/// The number that bytes stand for, the highest first.
pub open spec fn number_of(bytes: Seq<u8>) -> nat
    decreases bytes.len(),
{
    if bytes.len() == 0 {
        0
    } else {
        number_of(bytes.drop_last()) * 256 + bytes.last() as nat
    }
}

proof fn lemma_number_of_bytes(n: nat, k: nat)
    requires
        n < pow256(k),
    ensures
        number_of(be_bytes(n, k)) == n,
        be_bytes(n, k).len() == k,
    decreases k,
{
    if k > 0 {
        lemma_number_of_bytes(n / 256, (k - 1) as nat);
        assert(be_bytes(n, k).drop_last() =~= be_bytes(n / 256, (k - 1) as nat));
    }
}

proof fn lemma_key_number(sequence: u64)
    ensures
        number_of(block_key(sequence)) == sequence,
        block_key(sequence).len() == 8,
{
    lemma_pow256_values();
    lemma_number_of_bytes(sequence as nat, 8);
}

/// Whether an entry holds a block under its sequence number.
pub open spec fn entry_holds(entry: (Vec<u8>, Vec<u8>), block: CommittedBatch) -> bool {
    &&& entry.0@.len() == 8
    &&& number_of(entry.0@) == block.sequence.0
    &&& entry.1@ == block_layout(block)
}

proof fn lemma_entries_hold(blocks: Seq<CommittedBatch>, n: int, entries: Seq<(Vec<u8>, Vec<u8>)>)
    requires
        0 <= n <= blocks.len(),
        stores(blocks, n, entries),
        forall|i: int| 0 <= i < n ==> (#[trigger] blocks[i]).certificates@.len() <= 2_147_483_647,
    ensures
        entries.len() == n,
        forall|i: int| 0 <= i < n ==> entry_holds(#[trigger] entries[i], blocks[i]),
    decreases n,
{
    if n > 0 {
        lemma_entries_hold(blocks, n - 1, entries.drop_last());
        lemma_key_number(blocks[n - 1].sequence.0);
        assert forall|i: int| 0 <= i < n implies entry_holds(#[trigger] entries[i], blocks[i]) by {
            if i < n - 1 {
                assert(entries.drop_last()[i] == entries[i]);
            } else {
                assert(entries[i] == entries.last());
            }
        }
    }
}

/// Whether a scan of the numbers from `from` up to but not including `to`, as
/// keys of eight bytes, found `entries`.
pub open spec fn scan_found<F: Fn(&Vec<u8>, &Vec<u8>) -> Vec<(Vec<u8>, Vec<u8>)>>(
    scan: F,
    from: u64,
    to: u64,
    entries: Vec<(Vec<u8>, Vec<u8>)>,
) -> bool {
    exists|start: Vec<u8>, end: Vec<u8>|
        {
            &&& #[trigger] scan.ensures((&start, &end), entries)
            &&& start@.len() == 8 && number_of(start@) == from
            &&& end@.len() == 8 && number_of(end@) == to
        }
}

/// The number behind the last of `count` numbers from `from` on, as far as
/// there is one.
pub open spec fn end_of_range(from: u64, count: u64) -> u64 {
    if from + count <= 0xffff_ffff_ffff_ffff {
        (from + count) as u64
    } else {
        0xffff_ffff_ffff_ffff
    }
}

proof fn lemma_scanned_found<F: Fn(&Vec<u8>, &Vec<u8>) -> Vec<(Vec<u8>, Vec<u8>)>>(
    scan: F,
    from: u64,
    count: u64,
    entries: Vec<(Vec<u8>, Vec<u8>)>,
)
    requires
        scanned(scan, from, count, entries),
    ensures
        scan_found(scan, from, end_of_range(from, count), entries),
{
    let (start, end) = choose|start: Vec<u8>, end: Vec<u8>|
        {
            &&& #[trigger] scan.ensures((&start, &end), entries)
            &&& start@ == block_key(from)
            &&& end@ == block_key(range_end(from, count))
        };
    lemma_key_number(from);
    lemma_key_number(range_end(from, count));
    assert(scan.ensures((&start, &end), entries));
}

/// A key range runs from the key of the first number to that of the number
/// behind the last one.
pub proof fn law_key_ranges_cover_the_numbers(
    from_seq: CommitSequence,
    count: u64,
    r: (Vec<u8>, Vec<u8>),
)
    requires
        call_ensures(block_range, (from_seq, count), r),
    ensures
        r.0@.len() == 8,
        r.1@.len() == 8,
        number_of(r.0@) == from_seq.0,
        number_of(r.1@) == end_of_range(from_seq.0, count),
{
    lemma_key_number(from_seq.0);
    lemma_key_number(range_end(from_seq.0, count));
}

/// Whether blocks may be stored: there are some, each has certificates and
/// each follows the one before it.
pub open spec fn well_linked(blocks: Seq<CommittedBatch>) -> bool {
    &&& blocks.len() > 0
    &&& forall|i: int| 0 <= i < blocks.len() ==> (#[trigger] blocks[i]).certificates@.len() > 0
    &&& forall|i: int|
        0 < i < blocks.len() ==> (#[trigger] blocks[i]).sequence.0 == blocks[i - 1].sequence.0 + 1
}

/// Whether an entry of the store is a block.
pub open spec fn is_block_entry(entry: (Vec<u8>, Vec<u8>)) -> bool {
    exists|b: CommittedBatch|
        b.certificates@.len() <= 2_147_483_647 && #[trigger] block_layout(b) == entry.1@
}

proof fn lemma_outcome_fields<V: CommitteeValidator + ?Sized>(
    blocks: Vec<CommittedBatch>,
    existing: Vec<(Vec<u8>, Vec<u8>)>,
    validator: Option<&V>,
    r: BlockResponseOutcome,
)
    requires
        response_outcome(blocks@, holds_block(existing@), validator, r),
    ensures
        response_follows(blocks@, existing@, validator, r),
{
    let overlap = exists|i: int|
        0 <= i < existing@.len() && is_block_entry(#[trigger] existing@[i]);
    assert forall|i: int| 0 <= i < existing@.len() implies (is_block_entry(#[trigger] existing@[i])
        <==> is_block(existing@[i].1@)) by {
        if is_block(existing@[i].1@) {
            let b = choose|b: CommittedBatch|
                block_fits(b) && #[trigger] block_layout(b) == existing@[i].1@;
            assert(block_layout(b) == existing@[i].1@);
        }
        if is_block_entry(existing@[i]) {
            let b = choose|b: CommittedBatch|
                b.certificates@.len() <= 2_147_483_647 && #[trigger] block_layout(b)
                    == existing@[i].1@;
            assert(block_layout(b) == existing@[i].1@);
        }
    }
    assert(overlap <==> holds_block(existing@)) by {
        if overlap {
            let i = choose|i: int| 0 <= i < existing@.len() && is_block_entry(#[trigger] existing@[i]);
            assert(is_block(existing@[i].1@));
        }
        if holds_block(existing@) {
            let i = choose|i: int| 0 <= i < existing@.len() && is_block((#[trigger] existing@[i]).1@);
            assert(is_block_entry(existing@[i]));
        }
    }
    let b = blocks@;
    if b.len() > 0 {
        assert((forall|i: int|
            0 < i < b.len() ==> (#[trigger] b[i]).sequence.0 == b[i - 1].sequence.0 + 1) <==> (
        forall|i: int|
            0 <= i < b.len() - 1 ==> (#[trigger] b[i]).sequence.0 + 1 == b[i + 1].sequence.0)) by {
            if forall|i: int|
                0 < i < b.len() ==> (#[trigger] b[i]).sequence.0 == b[i - 1].sequence.0 + 1 {
                assert forall|i: int| 0 <= i < b.len() - 1 implies (#[trigger] b[i]).sequence.0 + 1
                    == b[i + 1].sequence.0 by {
                    assert(b[i + 1].sequence.0 == b[i + 1 - 1].sequence.0 + 1);
                }
            }
            if forall|i: int|
                0 <= i < b.len() - 1 ==> (#[trigger] b[i]).sequence.0 + 1 == b[i + 1].sequence.0 {
                assert forall|i: int| 0 < i < b.len() implies (#[trigger] b[i]).sequence.0 == b[i
                    - 1].sequence.0 + 1 by {
                    assert(b[i - 1].sequence.0 + 1 == b[i - 1 + 1].sequence.0);
                }
            }
        }
    }
    if r is Store {
        if forall|i: int| 0 <= i < b.len() ==> (#[trigger] b[i]).certificates@.len() <= 2_147_483_647 {
            lemma_entries_hold(b, b.len() as int, r->Store_0@);
        }
        if validator is Some {
            assert forall|i: int| 0 <= i < b.len() implies verdict_follows(
                validator->Some_0,
                #[trigger] b[i],
                true,
            ) by {
                assert(accepted_until(validator->Some_0, b, b.len() as int));
                lemma_judged_follows(validator->Some_0, b[i], true);
            }
        }
    }
    if r == BlockResponseOutcome::Rejected(RejectReason::UnknownCommittee) {
        let v = validator->Some_0;
        let n = choose|n: int| 0 <= n < b.len() && #[trigger] first_refused(v, b, n);
        lemma_judged_follows(v, b[n], false);
        assert(verdict_follows(v, b[n], false));
    }
}

/// Whether `r` is what blocks are answered that a peer sent, where the store
/// has the entries `existing` in their range.
pub open spec fn response_follows<V: CommitteeValidator + ?Sized>(
    blocks: Seq<CommittedBatch>,
    existing: Seq<(Vec<u8>, Vec<u8>)>,
    validator: Option<&V>,
    r: BlockResponseOutcome,
) -> bool {
    let overlap = exists|i: int| 0 <= i < existing.len() && is_block_entry(#[trigger] existing[i]);
    &&& r is Empty <==> blocks.len() == 0
    &&& r == BlockResponseOutcome::Rejected(RejectReason::EmptyCertificates) <==> exists|i: int|
        0 <= i < blocks.len() && (#[trigger] blocks[i]).certificates@.len() == 0
    &&& r == BlockResponseOutcome::Rejected(RejectReason::NotContiguous) ==> exists|i: int|
        0 < i < blocks.len() && (#[trigger] blocks[i]).sequence.0 != blocks[i - 1].sequence.0 + 1
    &&& r == BlockResponseOutcome::Rejected(RejectReason::Overlap) <==> well_linked(blocks) && overlap
    &&& r == BlockResponseOutcome::Rejected(RejectReason::UnknownCommittee) ==> {
        &&& well_linked(blocks) && !overlap && validator is Some
        &&& exists|i: int|
            0 <= i < blocks.len() && verdict_follows(validator->Some_0, #[trigger] blocks[i], false)
    }
    &&& r is Store ==> {
        &&& well_linked(blocks) && !overlap
        &&& validator is Some ==> forall|i: int|
            0 <= i < blocks.len() ==> verdict_follows(validator->Some_0, #[trigger] blocks[i], true)
        &&& (forall|i: int|
            0 <= i < blocks.len() ==> (#[trigger] blocks[i]).certificates@.len() <= 2_147_483_647)
            ==> {
            &&& r->Store_0@.len() == blocks.len()
            &&& forall|i: int|
                0 <= i < blocks.len() ==> entry_holds(#[trigger] r->Store_0@[i], blocks[i])
        }
    }
}

/// Of blocks that a peer sent, only those are stored that have certificates,
/// follow each other, are not stored yet and whose certificates all belong to
/// the committee; each under its own number. Everything else is refused for
/// the first of these reasons.
pub proof fn law_only_checked_blocks_are_stored<V: CommitteeValidator + ?Sized>(
    blocks: Vec<CommittedBatch>,
    existing: Vec<(Vec<u8>, Vec<u8>)>,
    validator: Option<&V>,
    r: BlockResponseOutcome,
)
    requires
        call_ensures(judge_block_response::<V>, (&blocks, &existing, validator), r),
    ensures
        response_follows(blocks@, existing@, validator, r),
{
    lemma_outcome_fields(blocks, existing, validator, r);
}

/// Whatever comes in is held against what the store has in the range of the
/// numbers that were sent.
pub proof fn law_responses_are_held_against_the_store<
    V: CommitteeValidator + ?Sized,
    F: Fn(&Vec<u8>, &Vec<u8>) -> Vec<(Vec<u8>, Vec<u8>)>,
>(blocks: Vec<CommittedBatch>, scan: &F, validator: Option<&V>, r: BlockResponseOutcome)
    requires
        call_ensures(handle_block_response::<V, F>, (&blocks, scan, validator), r),
    ensures
        blocks@.len() == 0 ==> r is Empty,
        blocks@.len() > 0 ==> exists|existing: Vec<(Vec<u8>, Vec<u8>)>|
            {
                &&& #[trigger] scan_found(
                    *scan,
                    blocks@[0].sequence.0,
                    end_of_range(blocks@[0].sequence.0, blocks@.len() as u64),
                    existing,
                )
                &&& response_follows(blocks@, existing@, validator, r)
            },
{
    if blocks@.len() > 0 {
        let existing = choose|existing: Vec<(Vec<u8>, Vec<u8>)>|
            {
                &&& #[trigger] scanned(*scan, blocks@[0].sequence.0, blocks@.len() as u64, existing)
                &&& response_outcome(blocks@, holds_block(existing@), validator, r)
            };
        lemma_scanned_found(*scan, blocks@[0].sequence.0, blocks@.len() as u64, existing);
        lemma_outcome_fields(blocks, existing, validator, r);
    }
}

/// A block with a certificate that is not one of its committee's is never
/// stored: what is sent with it is refused as a whole.
pub proof fn law_foreign_certificates_are_never_stored<
    V: CommitteeValidator + ?Sized,
    F: Fn(&Vec<u8>, &Vec<u8>) -> Vec<(Vec<u8>, Vec<u8>)>,
>(
    blocks: Vec<CommittedBatch>,
    scan: &F,
    v: &V,
    r: BlockResponseOutcome,
    n: int,
    epoch: EpochNumber,
    list: Vec<Blake3Digest>,
    i: int,
)
    requires
        call_ensures(handle_block_response::<V, F>, (&blocks, scan, Some(v)), r),
        0 <= n < blocks@.len(),
        forall|e: Option<EpochNumber>| #[trigger]
            call_ensures(V::epoch_for_sequence, (v, blocks@[n].sequence), e) ==> e == Some(epoch),
        forall|known: Option<Vec<Blake3Digest>>| #[trigger]
            asked(v, epoch, known) ==> known == Some(list),
        0 <= i < blocks@[n].certificates@.len(),
        !is_among(blocks@[n].certificates@[i], list@),
    ensures
        r is Rejected,
{
    law_responses_are_held_against_the_store(blocks, scan, Some(v), r);
    if r is Store {
        let block = blocks@[n];
        assert(verdict_follows(v, block, true));
        if call_ensures(V::epoch_for_sequence, (v, block.sequence), None::<EpochNumber>) {
            assert(None::<EpochNumber> == Some(epoch));
        }
        let (e, known) = choose|e: EpochNumber, known: Option<Vec<Blake3Digest>>|
            {
                &&& call_ensures(V::epoch_for_sequence, (v, block.sequence), Some(e))
                &&& #[trigger] asked(v, e, known)
                &&& true <==> (known is Some ==> all_among(block, known->Some_0@))
            };
        assert(Some(e) == Some(epoch));
        assert(is_among(block.certificates@[i], list@));
    }
}

/// Whether two blocks say the same.
pub open spec fn equal_blocks(a: CommittedBatch, b: CommittedBatch) -> bool {
    &&& a.anchor.0@ == b.anchor.0@
    &&& a.certificates@.len() == b.certificates@.len()
    &&& forall|i: int|
        0 <= i < a.certificates@.len() ==> (#[trigger] a.certificates@[i]).0@ == b.certificates@[i].0@
    &&& a.sequence.0 == b.sequence.0
    &&& a.committed_at.0 == b.committed_at.0
}

/// Whether two lists hold the same blocks in the same order.
pub open spec fn equal_block_lists(a: Seq<CommittedBatch>, b: Seq<CommittedBatch>) -> bool {
    a.len() == b.len() && forall|i: int| 0 <= i < a.len() ==> equal_blocks(#[trigger] a[i], b[i])
}

proof fn lemma_same_blocks_are_equal(a: Seq<CommittedBatch>, b: Seq<CommittedBatch>)
    requires
        same_blocks(a, b),
    ensures
        equal_block_lists(a, b),
{
    assert forall|i: int| 0 <= i < a.len() implies equal_blocks(#[trigger] a[i], b[i]) by {
        assert(same_block(a[i], b[i]));
        assert forall|j: int| 0 <= j < a[i].certificates@.len() implies (
        #[trigger] a[i].certificates@[j]).0@ == b[i].certificates@[j].0@ by {
            assert(a[i].certificates@[j]@ == b[i].certificates@[j]@);
        }
    }
}

/// What is stored of a response is what is loaded afterwards.
pub proof fn law_stored_blocks_are_loaded<
    V: CommitteeValidator + ?Sized,
    F: Fn(&Vec<u8>, &Vec<u8>) -> Vec<(Vec<u8>, Vec<u8>)>,
>(
    blocks: Vec<CommittedBatch>,
    scan: &F,
    validator: Option<&V>,
    entries: Vec<(Vec<u8>, Vec<u8>)>,
    loaded: Vec<CommittedBatch>,
)
    requires
        call_ensures(
            handle_block_response::<V, F>,
            (&blocks, scan, validator),
            BlockResponseOutcome::Store(entries),
        ),
        forall|i: int|
            0 <= i < blocks@.len() ==> (#[trigger] blocks@[i]).certificates@.len() <= 2_147_483_647,
        call_ensures(load_committed_blocks, (&entries,), loaded),
    ensures
        equal_block_lists(loaded@, blocks@),
{
    let r = BlockResponseOutcome::Store(entries);
    let existing = choose|existing: Vec<(Vec<u8>, Vec<u8>)>|
        {
            &&& #[trigger] scanned(*scan, blocks@[0].sequence.0, blocks@.len() as u64, existing)
            &&& response_outcome(blocks@, holds_block(existing@), validator, r)
        };
    assert(stores(blocks@, blocks@.len() as int, entries@));
    law_stored_blocks_load_back(blocks@, entries@, loaded@);
    lemma_same_blocks_are_equal(loaded@, blocks@);
}

/// What was stored once is not stored again: where the store gives back the
/// entries of a response, the same response is refused for the overlap.
pub proof fn law_stored_blocks_are_not_stored_again<
    V: CommitteeValidator + ?Sized,
    F: Fn(&Vec<u8>, &Vec<u8>) -> Vec<(Vec<u8>, Vec<u8>)>,
>(
    blocks: Vec<CommittedBatch>,
    scan: &F,
    validator: Option<&V>,
    entries: Vec<(Vec<u8>, Vec<u8>)>,
    again: BlockResponseOutcome,
)
    requires
        call_ensures(
            handle_block_response::<V, F>,
            (&blocks, scan, validator),
            BlockResponseOutcome::Store(entries),
        ),
        blocks@[0].certificates@.len() <= 2_147_483_647,
        forall|i: int|
            0 <= i < blocks@.len() ==> (#[trigger] blocks@[i]).certificates@.len() <= 2_147_483_647,
        call_ensures(judge_block_response::<V>, (&blocks, &entries, validator), again),
    ensures
        again == BlockResponseOutcome::Rejected(RejectReason::Overlap),
{
    law_responses_are_held_against_the_store(
        blocks,
        scan,
        validator,
        BlockResponseOutcome::Store(entries),
    );
    lemma_outcome_fields(blocks, entries, validator, again);
    assert(entry_holds(entries@[0], blocks@[0]));
    assert(block_layout(blocks@[0]) == entries@[0].1@);
    assert(is_block_entry(entries@[0]));
}

/// Whether two messages say the same.
pub open spec fn equal_messages(a: StateSyncMessage, b: StateSyncMessage) -> bool {
    match a {
        StateSyncMessage::BlockRequest { from_seq, count, requester } => {
            &&& b is BlockRequest
            &&& b->from_seq.0 == from_seq.0
            &&& b->count == count
            &&& b->requester.0.0@ == requester.0.0@
        },
        StateSyncMessage::BlockResponse { blocks } => {
            &&& b is BlockResponse
            &&& equal_block_lists(blocks@, b->blocks@)
        },
    }
}

proof fn lemma_messages_equal(a: StateSyncMessage, b: StateSyncMessage)
    requires
        message_layout(a) == message_layout(b),
    ensures
        equal_messages(a, b),
{
    law_messages_read_back(a, b);
    if a is BlockResponse {
        lemma_same_blocks_are_equal(a->blocks@, b->blocks@);
    }
}

/// A message that is encoded is decoded to the same message, and its bytes are
/// those of its parts: a request is the variant zero, a response the variant
/// one. One that fits the limit is accepted as it is.
pub proof fn law_messages_are_carried(
    m: StateSyncMessage,
    data: Vec<u8>,
    bytes: &[u8],
    decoded: Option<StateSyncMessage>,
    accepted: Option<StateSyncMessage>,
)
    requires
        call_ensures(encode_message, (&m,), Some(data)),
        bytes@ == data@,
        call_ensures(decode_message, (bytes,), decoded),
        call_ensures(accept_message, (bytes,), accepted),
    ensures
        m is BlockRequest ==> data@ == request_layout(
            0,
            m->from_seq.0,
            m->count,
            m->requester.0.0@,
        ),
        m is BlockResponse ==> data@ == response_layout(1, m->blocks@),
        decoded is Some && equal_messages(m, decoded->Some_0),
        data@.len() <= 262_144 ==> accepted is Some && equal_messages(m, accepted->Some_0),
        data@.len() > 262_144 ==> accepted is None,
{
    assert(message_layout(m) == bytes@);
    if decoded is Some {
        lemma_messages_equal(m, decoded->Some_0);
    }
    if accepted is Some {
        lemma_messages_equal(m, accepted->Some_0);
    }
}

/// What each of the blocks is encoded to.
pub open spec fn block_bytes(blocks: Seq<CommittedBatch>) -> Seq<Seq<u8>> {
    blocks.map_values(|b: CommittedBatch| block_layout(b))
}

/// The values of the entries that are blocks.
pub open spec fn block_values(entries: Seq<(Vec<u8>, Vec<u8>)>) -> Seq<Seq<u8>> {
    entries.filter(|e: (Vec<u8>, Vec<u8>)| is_block_entry(e)).map_values(
        |e: (Vec<u8>, Vec<u8>)| e.1@,
    )
}

proof fn lemma_block_values(entries: Seq<(Vec<u8>, Vec<u8>)>)
    ensures
        entry_values(entries).filter(|v: Seq<u8>| is_block(v)) == block_values(entries),
    decreases entries.len(),
{
    reveal(Seq::filter);
    let good = |e: (Vec<u8>, Vec<u8>)| is_block_entry(e);
    let value = |e: (Vec<u8>, Vec<u8>)| e.1@;
    let pred = |v: Seq<u8>| is_block(v);
    if entries.len() > 0 {
        let rest = entries.drop_last();
        let last = entries.last();
        lemma_block_values(rest);
        assert(entry_values(entries).drop_last() =~= entry_values(rest));
        assert(entry_values(entries).last() == last.1@);
        assert(good(last) <==> pred(last.1@)) by {
            if is_block(last.1@) {
                let b = choose|b: CommittedBatch|
                    block_fits(b) && #[trigger] block_layout(b) == last.1@;
                assert(block_layout(b) == last.1@);
            }
            if is_block_entry(last) {
                let b = choose|b: CommittedBatch|
                    b.certificates@.len() <= 2_147_483_647 && #[trigger] block_layout(b) == last.1@;
                assert(block_layout(b) == last.1@);
            }
        }
        if good(last) {
            assert(entries.filter(good) == rest.filter(good).push(last));
            assert(rest.filter(good).push(last).map_values(value) =~= rest.filter(good).map_values(
                value,
            ).push(last.1@));
        } else {
            assert(entries.filter(good) == rest.filter(good));
        }
    } else {
        assert(entry_values(entries) =~= Seq::<Seq<u8>>::empty());
        assert(entry_values(entries).filter(pred) =~= Seq::<Seq<u8>>::empty());
        assert(entries.filter(good) =~= Seq::<(Vec<u8>, Vec<u8>)>::empty());
        assert(block_values(entries) =~= Seq::<Seq<u8>>::empty());
    }
}

/// What is loaded of entries are the blocks among them, in their order.
pub proof fn law_blocks_are_loaded_in_order(
    entries: Vec<(Vec<u8>, Vec<u8>)>,
    loaded: Vec<CommittedBatch>,
)
    requires
        call_ensures(load_committed_blocks, (&entries,), loaded),
    ensures
        block_bytes(loaded@) == block_values(entries@),
{
    lemma_block_values(entries@);
    assert(block_bytes(loaded@) =~= layouts(loaded@));
}

proof fn lemma_layouts_decide(a: Seq<CommittedBatch>, b: Seq<CommittedBatch>)
    requires
        layouts(a) == layouts(b),
    ensures
        response_layout(1, a) == response_layout(1, b),
        a.len() == b.len(),
        equal_block_lists(a, b),
        blocks_layout(a) == blocks_layout(b),
    decreases a.len(),
{
    assert(layouts(a).len() == a.len());
    assert(layouts(b).len() == b.len());
    assert forall|i: int| 0 <= i < a.len() implies equal_blocks(#[trigger] a[i], b[i]) by {
        assert(layouts(a)[i] == layouts(b)[i]);
        law_block_layout_is_unambiguous(a[i], b[i]);
        lemma_same_blocks_are_equal(seq![a[i]], seq![b[i]]);
        assert(equal_blocks(seq![a[i]][0], seq![b[i]][0]));
    }
    if a.len() > 0 {
        assert(layouts(a.drop_first()) =~= layouts(a).drop_first());
        assert(layouts(b.drop_first()) =~= layouts(b).drop_first());
        lemma_layouts_decide(a.drop_first(), b.drop_first());
        assert(layouts(a)[0] == layouts(b)[0]);
    }
}

/// Whether `r` answers a request for which the store has the entries
/// `entries`: the blocks among them as one response, where there are any and
/// the response is not too long.
pub open spec fn serves(entries: Seq<(Vec<u8>, Vec<u8>)>, r: Option<Vec<u8>>) -> bool {
    exists|blocks: Seq<CommittedBatch>|
        {
            &&& #[trigger] block_bytes(blocks) == block_values(entries)
            &&& r is Some ==> {
                &&& blocks.len() > 0
                &&& r->Some_0@ == response_layout(1, blocks)
                &&& r->Some_0@.len() <= 262_144
            }
            &&& r is None ==> {
                ||| blocks.len() == 0
                ||| response_layout(1, blocks).len() > 262_144
                ||| blocks.len() > 2_147_483_647
                ||| exists|i: int|
                    0 <= i < blocks.len() && (#[trigger] blocks[i]).certificates@.len()
                        > 2_147_483_647
            }
        }
}

proof fn lemma_answer_serves(entries: Seq<(Vec<u8>, Vec<u8>)>, r: Option<Vec<u8>>)
    requires
        answer_outcome(entries, r),
    ensures
        serves(entries, r),
{
    let good = |e: (Vec<u8>, Vec<u8>)| is_block_entry(e);
    lemma_block_values(entries);
    if holds_block(entries) {
        let blocks = choose|blocks: Seq<CommittedBatch>|
            {
                &&& #[trigger] layouts(blocks) == entry_values(entries).filter(
                    |v: Seq<u8>| is_block(v),
                )
                &&& r is Some <==> (blocks_fit(blocks) && response_layout(1, blocks).len()
                    <= MAX_SYNC_MESSAGE_SIZE)
                &&& r is Some ==> r->Some_0@ == response_layout(1, blocks)
            };
        assert(block_bytes(blocks) =~= layouts(blocks));
        let i = choose|i: int| 0 <= i < entries.len() && is_block((#[trigger] entries[i]).1@);
        let b = choose|b: CommittedBatch| block_fits(b) && #[trigger] block_layout(b) == entries[i].1@;
        assert(block_layout(b) == entries[i].1@);
        entries.lemma_filter_contains(good, i);
        assert(blocks.len() == entries.filter(good).len());
        assert(block_bytes(blocks) == block_values(entries));
    } else {
        let blocks = Seq::<CommittedBatch>::empty();
        if entries.filter(good).len() > 0 {
            entries.lemma_filter_pred(good, 0);
            entries.lemma_filter_contains_rev(good, entries.filter(good)[0]);
            let i = choose|i: int| 0 <= i < entries.len() && entries[i] == entries.filter(good)[0];
            let b = choose|b: CommittedBatch|
                b.certificates@.len() <= 2_147_483_647 && #[trigger] block_layout(b) == entries[i].1@;
            assert(is_block(entries[i].1@));
        }
        assert(block_bytes(blocks) =~= block_values(entries));
    }
}

/// An answer holds the blocks among the entries of the store, in their order.
pub proof fn law_answers_hold_the_blocks(entries: Vec<(Vec<u8>, Vec<u8>)>, r: Option<Vec<u8>>)
    requires
        call_ensures(answer_from_entries, (&entries,), r),
    ensures
        serves(entries@, r),
{
    lemma_answer_serves(entries@, r);
}

/// Whether `after` is a throttle that was asked for a permit at `now_ns`, and
/// `granted` the answer: ten permits are given in a minute.
pub open spec fn permit_asked(
    before: SyncThrottle,
    now_ns: u128,
    after: SyncThrottle,
    granted: bool,
) -> bool {
    let over = now_ns - before.window_start_ns >= 60_000_000_000;
    &&& granted <==> over || before.count < 10
    &&& over ==> after.count == 1 && after.window_start_ns == now_ns
    &&& !over && before.count < 10 ==> after.count == before.count + 1 && after.window_start_ns
        == before.window_start_ns
    &&& !over && before.count >= 10 ==> after == before
}

/// Ten permits are given in a minute; once it is over, another minute begins.
pub proof fn law_ten_permits_a_minute(throttle: &mut SyncThrottle, now_ns: u128, r: bool)
    requires
        call_ensures(SyncThrottle::try_acquire, (throttle, now_ns), r),
    ensures
        permit_asked(*old(throttle), now_ns, *final(throttle), r),
{
}

/// A number, or fifty where it is larger.
pub open spec fn at_most_fifty(count: u64) -> u64 {
    if count <= 50 {
        count
    } else {
        50
    }
}

/// Whether a request for `count` blocks from `from` on is served with `r`: at
/// most fifty blocks are looked up, and none where no permit is given.
pub open spec fn request_answered<F: Fn(&Vec<u8>, &Vec<u8>) -> Vec<(Vec<u8>, Vec<u8>)>>(
    from: u64,
    count: u64,
    granted: bool,
    scan: F,
    r: Option<Vec<u8>>,
) -> bool {
    if granted {
        exists|entries: Vec<(Vec<u8>, Vec<u8>)>|
            {
                &&& #[trigger] scan_found(
                    scan,
                    from,
                    end_of_range(from, at_most_fifty(count)),
                    entries,
                )
                &&& serves(entries@, r)
            }
    } else {
        r is None
    }
}

proof fn lemma_served_is_answered<F: Fn(&Vec<u8>, &Vec<u8>) -> Vec<(Vec<u8>, Vec<u8>)>>(
    from: u64,
    count: u64,
    throttle: SyncThrottle,
    now_ns: u128,
    scan: F,
    r: Option<Vec<u8>>,
)
    requires
        request_served(from, count, throttle, now_ns, scan, r),
    ensures
        request_answered(from, count, throttle.allows(now_ns), scan, r),
{
    if throttle.allows(now_ns) {
        let entries = choose|entries: Vec<(Vec<u8>, Vec<u8>)>|
            {
                &&& #[trigger] scanned(scan, from, capped(count), entries)
                &&& answer_outcome(entries@, r)
            };
        assert(capped(count) == at_most_fifty(count));
        lemma_scanned_found(scan, from, capped(count), entries);
        assert(scan_found(scan, from, end_of_range(from, at_most_fifty(count)), entries));
        lemma_answer_serves(entries@, r);
    }
}

/// A request is served with the blocks of the store in the range that it asks
/// for, at most fifty of them, and takes a permit.
pub proof fn law_requests_are_served_from_the_store<
    F: Fn(&Vec<u8>, &Vec<u8>) -> Vec<(Vec<u8>, Vec<u8>)>,
>(
    from_seq: CommitSequence,
    count: u64,
    throttle: &mut SyncThrottle,
    now_ns: u128,
    scan: &F,
    r: Option<Vec<u8>>,
)
    requires
        call_ensures(handle_block_request::<F>, (from_seq, count, throttle, now_ns, scan), r),
    ensures
        exists|granted: bool|
            {
                &&& #[trigger] permit_asked(*old(throttle), now_ns, *final(throttle), granted)
                &&& request_answered(from_seq.0, count, granted, *scan, r)
            },
{
    lemma_served_is_answered(from_seq.0, count, *old(throttle), now_ns, *scan, r);
    assert(permit_asked(*old(throttle), now_ns, *final(throttle), old(throttle).allows(now_ns)));
}

/// Whether `action` is what is done for the message `m`: a request is answered
/// to whoever made it, and a response is checked and stored.
pub open spec fn done_for_message<
    V: CommitteeValidator + ?Sized,
    F: Fn(&Vec<u8>, &Vec<u8>) -> Vec<(Vec<u8>, Vec<u8>)>,
>(
    m: StateSyncMessage,
    before: SyncThrottle,
    after: SyncThrottle,
    now_ns: u128,
    scan: F,
    validator: Option<&V>,
    action: SyncAction,
) -> bool {
    match m {
        StateSyncMessage::BlockRequest { from_seq, count, requester } => exists|
            granted: bool,
            answer: Option<Vec<u8>>,
        |
            {
                &&& permit_asked(before, now_ns, after, granted)
                &&& #[trigger] request_answered(from_seq.0, count, granted, scan, answer)
                &&& answer is Some ==> action is Send && action->Send_0.0.0@ == requester.0.0@
                    && action->Send_1@ == answer->Some_0@
                &&& answer is None ==> action is Ignore
            },
        StateSyncMessage::BlockResponse { blocks } => {
            &&& after == before
            &&& action is Ignore <==> blocks@.len() == 0
            &&& blocks@.len() > 0 ==> exists|
                existing: Vec<(Vec<u8>, Vec<u8>)>,
                outcome: BlockResponseOutcome,
            |
                {
                    &&& scan_found(
                        scan,
                        blocks@[0].sequence.0,
                        end_of_range(blocks@[0].sequence.0, blocks@.len() as u64),
                        existing,
                    )
                    &&& #[trigger] response_follows(blocks@, existing@, validator, outcome)
                    &&& outcome is Store ==> action is Store && action->Store_0 == outcome->Store_0
                    &&& outcome is Rejected ==> action is Reject && action->Reject_0
                        == outcome->Rejected_0
                }
        },
    }
}

proof fn lemma_handled_is_done<
    V: CommitteeValidator + ?Sized,
    F: Fn(&Vec<u8>, &Vec<u8>) -> Vec<(Vec<u8>, Vec<u8>)>,
>(
    m: StateSyncMessage,
    before: SyncThrottle,
    after: SyncThrottle,
    now_ns: u128,
    scan: F,
    validator: Option<&V>,
    action: SyncAction,
)
    requires
        message_handled(m, before, after, now_ns, scan, validator, action),
    ensures
        done_for_message(m, before, after, now_ns, scan, validator, action),
{
    match m {
        StateSyncMessage::BlockRequest { from_seq, count, requester } => {
            let answer = choose|answer: Option<Vec<u8>>|
                {
                    &&& #[trigger] request_served(from_seq.0, count, before, now_ns, scan, answer)
                    &&& answer_sent(action, requester, answer)
                };
            lemma_served_is_answered(from_seq.0, count, before, now_ns, scan, answer);
            let granted = before.allows(now_ns);
            assert(permit_asked(before, now_ns, after, granted));
            assert(request_answered(from_seq.0, count, granted, scan, answer));
        },
        StateSyncMessage::BlockResponse { blocks } => {
            let outcome = choose|outcome: BlockResponseOutcome|
                {
                    &&& #[trigger] response_handled(blocks@, scan, validator, outcome)
                    &&& outcome_done(action, outcome)
                };
            if blocks@.len() > 0 {
                let existing = choose|existing: Vec<(Vec<u8>, Vec<u8>)>|
                    {
                        &&& #[trigger] scanned(
                            scan,
                            blocks@[0].sequence.0,
                            blocks@.len() as u64,
                            existing,
                        )
                        &&& response_outcome(blocks@, holds_block(existing@), validator, outcome)
                    };
                lemma_scanned_found(scan, blocks@[0].sequence.0, blocks@.len() as u64, existing);
                lemma_outcome_fields(blocks, existing, validator, outcome);
                assert(response_follows(blocks@, existing@, validator, outcome));
            }
        },
    }
}

/// Data that encodes a message and is not too long is handled as that message;
/// anything else is ignored and takes no permit.
pub proof fn law_encoded_messages_are_handled<
    V: CommitteeValidator + ?Sized,
    F: Fn(&Vec<u8>, &Vec<u8>) -> Vec<(Vec<u8>, Vec<u8>)>,
>(
    m: StateSyncMessage,
    encoded: Vec<u8>,
    data: &[u8],
    throttle: &mut SyncThrottle,
    now_ns: u128,
    scan: &F,
    validator: Option<&V>,
    action: SyncAction,
)
    requires
        call_ensures(encode_message, (&m,), Some(encoded)),
        data@ == encoded@,
        call_ensures(handle_sync_message::<V, F>, (data, throttle, now_ns, scan, validator), action),
    ensures
        data@.len() > 262_144 ==> action is Ignore && *final(throttle) == *old(throttle),
        data@.len() <= 262_144 ==> exists|same: StateSyncMessage|
            {
                &&& #[trigger] equal_messages(m, same)
                &&& done_for_message(
                    same,
                    *old(throttle),
                    *final(throttle),
                    now_ns,
                    *scan,
                    validator,
                    action,
                )
            },
{
    assert(message_layout(m) == data@);
    if data@.len() <= 262_144 {
        let same = choose|same: StateSyncMessage|
            {
                &&& message_fits(same)
                &&& #[trigger] message_layout(same) == data@
                &&& message_handled(
                    same,
                    *old(throttle),
                    *final(throttle),
                    now_ns,
                    *scan,
                    validator,
                    action,
                )
            };
        lemma_messages_equal(m, same);
        lemma_handled_is_done(
            same,
            *old(throttle),
            *final(throttle),
            now_ns,
            *scan,
            validator,
            action,
        );
    }
}

/// A node that has no shard of several is not concerned with messages; else a
/// step of the service handles a message, warns of dropped ones and stops when
/// there will be no more.
pub proof fn law_service_steps_follow_their_input<
    V: CommitteeValidator + ?Sized,
    F: Fn(&Vec<u8>, &Vec<u8>) -> Vec<(Vec<u8>, Vec<u8>)>,
>(
    input: SyncInput,
    shard_filter: Option<&ShardFilter>,
    throttle: &mut SyncThrottle,
    now_ns: u128,
    scan: &F,
    validator: Option<&V>,
    action: SyncAction,
)
    requires
        call_ensures(
            sync_service_step::<V, F>,
            (input, shard_filter, throttle, now_ns, scan, validator),
            action,
        ),
    ensures
        input is Lagged ==> action == SyncAction::WarnLagged(input->Lagged_0) && *final(throttle)
            == *old(throttle),
        input is Closed ==> action is Stop && *final(throttle) == *old(throttle),
        ({
            let idle = shard_filter is Some && shard_filter->Some_0.num_shards >= 2
                && shard_filter->Some_0.assigned@.len() == 0;
            &&& action is Filtered <==> input is Message && idle
            &&& input is Message && idle ==> *final(throttle) == *old(throttle)
            &&& input is Message && !idle ==> {
                ||| action is Ignore && *final(throttle) == *old(throttle)
                ||| exists|m: StateSyncMessage|
                    {
                        &&& message_layout(m) == input->Message_0@
                        &&& #[trigger] done_for_message(
                            m,
                            *old(throttle),
                            *final(throttle),
                            now_ns,
                            *scan,
                            validator,
                            action,
                        )
                    }
            }
        }),
{
    if input is Message {
        let data = input->Message_0@;
        if !(shard_filter is Some && !shard_filter->Some_0.syncs()) && !(data.len()
            > MAX_SYNC_MESSAGE_SIZE || !is_message(data)) {
            let m = choose|m: StateSyncMessage|
                {
                    &&& message_fits(m)
                    &&& #[trigger] message_layout(m) == data
                    &&& message_handled(
                        m,
                        *old(throttle),
                        *final(throttle),
                        now_ns,
                        *scan,
                        validator,
                        action,
                    )
                };
            lemma_handled_is_done(
                m,
                *old(throttle),
                *final(throttle),
                now_ns,
                *scan,
                validator,
                action,
            );
        }
    }
}

/// A request asks for the blocks from the given number on, at most fifty, in
/// the name of this node, unless the node has no shard of several.
pub proof fn law_requests_ask_for_what_is_missing(
    from_seq: CommitSequence,
    count: u64,
    local_peer_id: PeerId,
    shard_filter: Option<&ShardFilter>,
    filtered: Option<Vec<u8>>,
    plain: Option<Vec<u8>>,
)
    requires
        call_ensures(
            request_blocks_filtered,
            (from_seq, count, local_peer_id, shard_filter),
            filtered,
        ),
        call_ensures(request_blocks, (from_seq, count, local_peer_id), plain),
    ensures
        filtered is None <==> shard_filter is Some && shard_filter->Some_0.num_shards >= 2
            && shard_filter->Some_0.assigned@.len() == 0,
        plain is Some,
        plain->Some_0@ == request_layout(
            0,
            from_seq.0,
            at_most_fifty(count),
            local_peer_id.0.0@,
        ),
        filtered is Some ==> filtered->Some_0@ == plain->Some_0@,
{
}

/// A shard filter holds the shards that it was last told of, each once, and
/// gives them out where there is more than one shard.
pub proof fn law_shard_filters_keep_their_shards(
    filter: &mut ShardFilter,
    num_shards: u16,
    assigned: &[u16],
    syncs: bool,
    shards: Option<Vec<u16>>,
)
    requires
        call_ensures(ShardFilter::update, (filter, num_shards, assigned), ()),
        call_ensures(ShardFilter::should_sync, (&*final(filter),), syncs),
        call_ensures(ShardFilter::assigned_shards, (&*final(filter),), shards),
    ensures
        final(filter).num_shards == num_shards,
        forall|shard: u16| #[trigger]
            final(filter).assigned@.contains(shard) <==> assigned@.contains(shard),
        forall|i: int, j: int|
            0 <= i < j < final(filter).assigned@.len() ==> final(filter).assigned@[i]
                != final(filter).assigned@[j],
        syncs <==> num_shards <= 1 || assigned@.len() > 0,
        shards is None <==> num_shards <= 1,
        shards is Some ==> shards->Some_0@ == final(filter).assigned@,
{
    let kept = final(filter).assigned@;
    assert forall|shard: u16| #[trigger] kept.contains(shard) <==> assigned@.contains(shard) by {
        assert(kept.to_set().contains(shard) <==> kept.contains(shard));
        assert(assigned@.to_set().contains(shard) <==> assigned@.contains(shard));
    }
    if assigned@.len() > 0 {
        assert(assigned@.contains(assigned@[0]));
        assert(kept.contains(assigned@[0]));
    }
    if kept.len() > 0 {
        assert(kept.contains(kept[0]));
        assert(assigned@.contains(kept[0]));
    }
}

/// A new throttle has given no permit and counts from now on, and a new filter
/// knows of no shards. A peer is known by its digest.
pub proof fn law_services_begin_with_nothing(
    now_ns: u128,
    throttle: SyncThrottle,
    filter: ShardFilter,
    digest: Blake3Digest,
    peer: PeerId,
)
    requires
        call_ensures(SyncThrottle::new, (now_ns,), throttle),
        call_ensures(ShardFilter::new, (), filter),
        call_ensures(PeerId::from_digest, (digest,), peer),
    ensures
        throttle.count == 0,
        throttle.window_start_ns == now_ns,
        filter.num_shards == 0,
        filter.assigned@.len() == 0,
        peer.0 == digest,
{
}

} // verus!
