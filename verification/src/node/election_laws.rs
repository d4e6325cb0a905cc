//! What holds of every election.

use vstd::multiset::Multiset;
use vstd::prelude::*;
use vstd::relations::{sorted_by, total_ordering};
use vstd::seq_lib::*;

use crate::node::staking_snapshot::{
    election_outcome, eligible, eligible_under, insert_ranked, ranked, ranks_before, seats,
    total_stake, CommitteeRotationPolicy, ElectedValidator, ElectionPolicy, ElectionResult,
    StakingSnapshot, StakingSnapshotError, ValidatorStakeRecord,
};
use crate::primitives::lex::{
    lemma_lex_asymmetric, lemma_lex_irreflexive, lemma_lex_total, lemma_lex_transitive, lex_lt,
};
use crate::primitives::EpochNumber;

verus! {

/// Whether no record ranks before one that stands in front of it.
pub open spec fn in_rank_order(s: Seq<ValidatorStakeRecord>) -> bool {
    forall|i: int, j: int| 0 <= i < j < s.len() ==> !ranks_before(#[trigger] s[j], #[trigger] s[i])
}

proof fn lemma_rank_transitive(a: ValidatorStakeRecord, b: ValidatorStakeRecord, c: ValidatorStakeRecord)
    requires
        ranks_before(a, b),
        !ranks_before(c, b),
    ensures
        ranks_before(a, c),
{
    if a.stake() == b.stake() && b.stake() == c.stake() {
        if b.address@ != c.address@ {
            lemma_lex_total(b.address@, c.address@);
            lemma_lex_transitive(a.address@, b.address@, c.address@);
        }
    }
}

proof fn lemma_insert_keeps_order(s: Seq<ValidatorStakeRecord>, r: ValidatorStakeRecord)
    requires
        in_rank_order(s),
    ensures
        in_rank_order(insert_ranked(s, r)),
        insert_ranked(s, r).len() == s.len() + 1,
        insert_ranked(s, r).to_multiset() == s.to_multiset().insert(r),
        forall|i: int|
            0 <= i <= s.len() ==> #[trigger] insert_ranked(s, r)[i] == r || s.contains(
                insert_ranked(s, r)[i],
            ),
    decreases s.len(),
{
    broadcast use group_to_multiset_ensures;
    broadcast use vstd::multiset::group_multiset_axioms;

    let out = insert_ranked(s, r);
    if s.len() > 0 && ranks_before(r, s.last()) {
        let rest = s.drop_last();
        let inner = insert_ranked(rest, r);
        lemma_insert_keeps_order(rest, r);
        assert(out == inner.push(s.last()));
        assert forall|i: int, j: int| 0 <= i < j < out.len() implies !ranks_before(
            #[trigger] out[j],
            #[trigger] out[i],
        ) by {
            if j == out.len() - 1 {
                if inner[i] == r {
                    if ranks_before(s.last(), r) {
                        lemma_rank_asymmetric(r, s.last());
                    }
                } else {
                    let k = choose|k: int| 0 <= k < rest.len() && rest[k] == inner[i];
                    assert(s[k] == inner[i]);
                    assert(!ranks_before(s[s.len() - 1], s[k]));
                }
            } else {
                assert(!ranks_before(inner[j], inner[i]));
            }
        }
        assert(s =~= rest.push(s.last()));
        assert(out.to_multiset() =~= s.to_multiset().insert(r));
        assert forall|i: int| 0 <= i <= s.len() implies #[trigger] out[i] == r || s.contains(
            out[i],
        ) by {
            if i < inner.len() {
                assert(out[i] == inner[i]);
                if inner[i] != r {
                    let k = choose|k: int| 0 <= k < rest.len() && rest[k] == inner[i];
                    assert(s[k] == out[i]);
                }
            } else {
                assert(s[s.len() - 1] == out[i]);
            }
        }
    } else {
        assert(out == s.push(r));
        assert forall|i: int, j: int| 0 <= i < j < out.len() implies !ranks_before(
            #[trigger] out[j],
            #[trigger] out[i],
        ) by {
            if j == s.len() {
                if ranks_before(r, s[i]) {
                    if i < s.len() - 1 {
                        assert(!ranks_before(s[s.len() - 1], s[i]));
                        lemma_rank_transitive(r, s[i], s.last());
                    }
                }
            } else {
                assert(!ranks_before(s[j], s[i]));
            }
        }
        assert forall|i: int| 0 <= i <= s.len() implies #[trigger] out[i] == r || s.contains(
            out[i],
        ) by {
            if i < s.len() {
                assert(s[i] == out[i]);
            }
        }
    }
}

proof fn lemma_rank_asymmetric(a: ValidatorStakeRecord, b: ValidatorStakeRecord)
    requires
        ranks_before(a, b),
    ensures
        !ranks_before(b, a),
{
    if a.stake() == b.stake() {
        lemma_lex_asymmetric(a.address@, b.address@);
    }
}

/// Ranking puts the records in rank order and neither adds nor drops one.
pub proof fn law_ranking_sorts(records: Seq<ValidatorStakeRecord>)
    ensures
        in_rank_order(ranked(records)),
        ranked(records).to_multiset() == records.to_multiset(),
        ranked(records).len() == records.len(),
    decreases records.len(),
{
    broadcast use group_to_multiset_ensures;
    broadcast use vstd::multiset::group_multiset_axioms;

    if records.len() > 0 {
        law_ranking_sorts(records.drop_last());
        lemma_insert_keeps_order(ranked(records.drop_last()), records.last());
        assert(records =~= records.drop_last().push(records.last()));
        assert(ranked(records).to_multiset() =~= records.to_multiset());
    }
}

/// Every record in the ranking under a policy is one of the snapshot's, active,
/// with enough stake and reputation, and not slashed if the policy leaves
/// slashed validators out.
pub proof fn law_ranked_are_eligible(snapshot: StakingSnapshot, policy: CommitteeRotationPolicy)
    ensures
        forall|i: int|
            0 <= i < snapshot.ranking_under(policy).len() ==> {
                &&& eligible_under(policy, #[trigger] snapshot.ranking_under(policy)[i])
                &&& snapshot.records@.contains(snapshot.ranking_under(policy)[i])
            },
        forall|r: ValidatorStakeRecord| #[trigger]
            snapshot.records@.contains(r) && eligible_under(policy, r)
                ==> snapshot.ranking_under(policy).contains(r),
{
    broadcast use group_to_multiset_ensures;

    let pred = |r: ValidatorStakeRecord| eligible_under(policy, r);
    let kept = snapshot.records@.filter(pred);
    let order = snapshot.ranking_under(policy);
    law_ranking_sorts(kept);
    assert forall|i: int| 0 <= i < order.len() implies eligible_under(policy, #[trigger] order[i])
        && snapshot.records@.contains(order[i]) by {
        assert(order.contains(order[i]));
        assert(order.to_multiset().count(order[i]) > 0);
        assert(kept.contains(order[i]));
        let k = choose|k: int| 0 <= k < kept.len() && kept[k] == order[i];
        snapshot.records@.lemma_filter_pred(pred, k);
        snapshot.records@.lemma_filter_contains_rev(pred, order[i]);
    }
    assert forall|r: ValidatorStakeRecord| #[trigger]
        snapshot.records@.contains(r) && eligible_under(policy, r) implies order.contains(r) by {
        let k = choose|k: int| 0 <= k < snapshot.records@.len() && snapshot.records@[k] == r;
        snapshot.records@.lemma_filter_contains(pred, k);
        assert(kept.contains(r));
        assert(kept.to_multiset().count(r) > 0);
    }
}

/// No validator left out of the committee ranks before one that was elected,
/// and the committee is within its size limit.
pub proof fn law_best_are_elected(records: Seq<ValidatorStakeRecord>, max: nat)
    ensures
        max > 0 ==> seats(ranked(records), max).len() <= max,
        forall|i: int, j: int|
            0 <= i < seats(ranked(records), max).len() <= j < ranked(records).len()
                ==> !ranks_before(
                #[trigger] ranked(records)[j],
                #[trigger] seats(ranked(records), max)[i],
            ),
{
    law_ranking_sorts(records);
    assert forall|i: int, j: int|
        0 <= i < seats(ranked(records), max).len() <= j < ranked(records).len() implies !ranks_before(
        #[trigger] ranked(records)[j],
        #[trigger] seats(ranked(records), max)[i],
    ) by {
        assert(seats(ranked(records), max)[i] == ranked(records)[i]);
    }
}

/// Whether two election outcomes say the same.
pub open spec fn same_outcome(
    a: Result<ElectionResult, StakingSnapshotError>,
    b: Result<ElectionResult, StakingSnapshotError>,
) -> bool {
    match (a, b) {
        (Ok(x), Ok(y)) => {
            &&& x.for_epoch == y.for_epoch
            &&& x.snapshot_epoch == y.snapshot_epoch
            &&& x.total_effective_stake == y.total_effective_stake
            &&& x.elected@.len() == y.elected@.len()
            &&& forall|i: int|
                0 <= i < x.elected@.len() ==> {
                    &&& (#[trigger] x.elected@[i]).address@ == y.elected@[i].address@
                    &&& x.elected@[i].effective_stake == y.elected@[i].effective_stake
                    &&& x.elected@[i].committee_index == y.elected@[i].committee_index
                }
        },
        (Err(x), Err(y)) => x == y,
        _ => false,
    }
}

/// An election is a function of the snapshot, the policy and the epoch: two
/// outcomes of the same election say the same.
pub proof fn law_election_is_deterministic(
    snapshot: StakingSnapshot,
    policy: CommitteeRotationPolicy,
    for_epoch: EpochNumber,
    a: Result<ElectionResult, StakingSnapshotError>,
    b: Result<ElectionResult, StakingSnapshotError>,
)
    requires
        election_outcome(
            seats(snapshot.ranking_under(policy), policy.election.max_committee_size as nat),
            policy.election,
            snapshot.captured_at_epoch,
            for_epoch,
            a,
        ),
        election_outcome(
            seats(snapshot.ranking_under(policy), policy.election.max_committee_size as nat),
            policy.election,
            snapshot.captured_at_epoch,
            for_epoch,
            b,
        ),
    ensures
        same_outcome(a, b),
{
}

/// What decides a record's place: its stake and its address.
pub open spec fn place(r: ValidatorStakeRecord) -> (int, Seq<u8>) {
    (r.stake(), r.address@)
}

spec fn place_leq(a: (int, Seq<u8>), b: (int, Seq<u8>)) -> bool {
    a.0 > b.0 || (a.0 == b.0 && !lex_lt(b.1, a.1))
}

proof fn lemma_place_order()
    ensures
        total_ordering(|a: (int, Seq<u8>), b: (int, Seq<u8>)| place_leq(a, b)),
{
    let leq = |a: (int, Seq<u8>), b: (int, Seq<u8>)| place_leq(a, b);
    assert forall|x: (int, Seq<u8>)| #[trigger] leq(x, x) by {
        lemma_lex_irreflexive(x.1);
    }
    assert forall|x: (int, Seq<u8>), y: (int, Seq<u8>)| #[trigger]
        leq(x, y) && #[trigger] leq(y, x) implies x == y by {
        if x.1 != y.1 {
            lemma_lex_total(x.1, y.1);
        }
    }
    assert forall|x: (int, Seq<u8>), y: (int, Seq<u8>)| #[trigger] leq(x, y) || #[trigger] leq(y, x) by {
        if x.0 == y.0 && lex_lt(y.1, x.1) {
            lemma_lex_asymmetric(y.1, x.1);
        }
    }
    assert forall|x: (int, Seq<u8>), y: (int, Seq<u8>), z: (int, Seq<u8>)| #[trigger]
        leq(x, y) && #[trigger] leq(y, z) implies leq(x, z) by {
        if x.0 == y.0 && y.0 == z.0 && lex_lt(z.1, x.1) {
            if x.1 != y.1 {
                lemma_lex_total(x.1, y.1);
                lemma_lex_transitive(z.1, x.1, y.1);
            }
        }
    }
}

proof fn lemma_filter_multiset(s: Seq<ValidatorStakeRecord>, pred: spec_fn(ValidatorStakeRecord) -> bool)
    ensures
        s.filter(pred).to_multiset() =~= s.to_multiset().filter(pred),
    decreases s.len(),
{
    broadcast use group_to_multiset_ensures;
    broadcast use vstd::multiset::group_multiset_axioms;

    reveal(Seq::filter);
    if s.len() > 0 {
        let rest = s.drop_last();
        lemma_filter_multiset(rest, pred);
        assert(s =~= rest.push(s.last()));
    } else {
        assert(s =~= Seq::empty());
        assert(s.to_multiset() =~= Multiset::empty()) by {
            assert forall|x: ValidatorStakeRecord| s.to_multiset().count(x) == 0 by {
                assert(!s.contains(x));
            }
        }
    }
}

proof fn lemma_places_multiset(s: Seq<ValidatorStakeRecord>, t: Seq<ValidatorStakeRecord>)
    requires
        s.to_multiset() == t.to_multiset(),
    ensures
        s.map_values(|r: ValidatorStakeRecord| place(r)).to_multiset() == t.map_values(
            |r: ValidatorStakeRecord| place(r),
        ).to_multiset(),
    decreases s.len(),
{
    broadcast use group_to_multiset_ensures;
    broadcast use vstd::multiset::group_multiset_axioms;

    let f = |r: ValidatorStakeRecord| place(r);
    assert(s.len() == s.to_multiset().len());
    assert(t.len() == t.to_multiset().len());
    if s.len() == 0 {
        assert(s.map_values(f) =~= t.map_values(f));
    } else {
        let x = s.last();
        assert(s.contains(x));
        assert(s.to_multiset().count(x) > 0);
        assert(t.contains(x));
        let k = choose|k: int| 0 <= k < t.len() && t[k] == x;
        let s1 = s.drop_last();
        let t1 = t.remove(k);
        assert(s =~= s1.push(x));
        assert(s1.to_multiset() =~= s.to_multiset().remove(x)) by {
            assert(s1.to_multiset().insert(x) =~= s.to_multiset());
        }
        assert(t1.to_multiset() =~= t.to_multiset().remove(x));
        lemma_places_multiset(s1, t1);
        assert(s.map_values(f) =~= s1.map_values(f).push(f(x)));
        assert(t1.map_values(f) =~= t.map_values(f).remove(k));
        assert(t.map_values(f)[k] == f(x));
        assert(t1.map_values(f).to_multiset() =~= t.map_values(f).to_multiset().remove(f(x)));
        assert(t.map_values(f).contains(f(x)));
        assert(t.map_values(f).to_multiset().count(f(x)) > 0);
        assert(s.map_values(f).to_multiset() =~= t.map_values(f).to_multiset());
    }
}

proof fn lemma_same_places_same_total(s: Seq<ValidatorStakeRecord>, t: Seq<ValidatorStakeRecord>)
    requires
        s.len() == t.len(),
        forall|i: int| 0 <= i < s.len() ==> place(#[trigger] s[i]) == place(t[i]),
    ensures
        total_stake(s) == total_stake(t),
    decreases s.len(),
{
    if s.len() > 0 {
        assert forall|i: int| 0 <= i < s.drop_last().len() implies place(#[trigger] s.drop_last()[i])
            == place(t.drop_last()[i]) by {
            assert(place(s[i]) == place(t[i]));
        }
        lemma_same_places_same_total(s.drop_last(), t.drop_last());
        assert(place(s[s.len() - 1]) == place(t[t.len() - 1]));
    }
}

proof fn lemma_rank_order_is_place_order(s: Seq<ValidatorStakeRecord>)
    requires
        in_rank_order(s),
    ensures
        sorted_by(
            s.map_values(|r: ValidatorStakeRecord| place(r)),
            |a: (int, Seq<u8>), b: (int, Seq<u8>)| place_leq(a, b),
        ),
{
    let leq = |a: (int, Seq<u8>), b: (int, Seq<u8>)| place_leq(a, b);
    let m = s.map_values(|r: ValidatorStakeRecord| place(r));
    assert forall|i: int, j: int| 0 <= i < j < m.len() implies #[trigger] leq(m[i], m[j]) by {
        assert(!ranks_before(s[j], s[i]));
    }
}

/// Two collections of the same records are ranked alike, in whatever order
/// they come: the stakes and addresses agree position by position.
pub proof fn law_ranking_ignores_input_order(s: Seq<ValidatorStakeRecord>, t: Seq<ValidatorStakeRecord>)
    requires
        s.to_multiset() == t.to_multiset(),
    ensures
        ranked(s).len() == ranked(t).len(),
        forall|i: int| 0 <= i < ranked(s).len() ==> place(#[trigger] ranked(s)[i]) == place(ranked(t)[i]),
{
    let f = |r: ValidatorStakeRecord| place(r);
    let leq = |a: (int, Seq<u8>), b: (int, Seq<u8>)| place_leq(a, b);
    law_ranking_sorts(s);
    law_ranking_sorts(t);
    lemma_rank_order_is_place_order(ranked(s));
    lemma_rank_order_is_place_order(ranked(t));
    lemma_place_order();
    lemma_places_multiset(ranked(s), ranked(t));
    lemma_sorted_unique(ranked(s).map_values(f), ranked(t).map_values(f), leq);
    assert(ranked(s).map_values(f).len() == ranked(t).map_values(f).len());
    assert forall|i: int| 0 <= i < ranked(s).len() implies place(#[trigger] ranked(s)[i]) == place(
        ranked(t)[i],
    ) by {
        assert(ranked(s).map_values(f)[i] == ranked(t).map_values(f)[i]);
    }
}

proof fn lemma_outcomes_agree(
    s: Seq<ValidatorStakeRecord>,
    t: Seq<ValidatorStakeRecord>,
    pred: spec_fn(ValidatorStakeRecord) -> bool,
    policy: ElectionPolicy,
    snapshot_epoch: EpochNumber,
    for_epoch: EpochNumber,
    a: Result<ElectionResult, StakingSnapshotError>,
    b: Result<ElectionResult, StakingSnapshotError>,
)
    requires
        s.to_multiset() == t.to_multiset(),
        election_outcome(
            seats(ranked(s.filter(pred)), policy.max_committee_size as nat),
            policy,
            snapshot_epoch,
            for_epoch,
            a,
        ),
        election_outcome(
            seats(ranked(t.filter(pred)), policy.max_committee_size as nat),
            policy,
            snapshot_epoch,
            for_epoch,
            b,
        ),
    ensures
        same_outcome(a, b),
{
    let max = policy.max_committee_size as nat;
    lemma_filter_multiset(s, pred);
    lemma_filter_multiset(t, pred);
    law_ranking_ignores_input_order(s.filter(pred), t.filter(pred));
    let x = seats(ranked(s.filter(pred)), max);
    let y = seats(ranked(t.filter(pred)), max);
    assert(x.len() == y.len());
    assert forall|i: int| 0 <= i < x.len() implies place(#[trigger] x[i]) == place(y[i]) by {
        assert(x[i] == ranked(s.filter(pred))[i]);
        assert(y[i] == ranked(t.filter(pred))[i]);
    }
    lemma_same_places_same_total(x, y);
    if a is Ok && b is Ok {
        let ra = a->Ok_0;
        let rb = b->Ok_0;
        assert forall|i: int| 0 <= i < ra.elected@.len() implies {
            &&& (#[trigger] ra.elected@[i]).address@ == rb.elected@[i].address@
            &&& ra.elected@[i].effective_stake == rb.elected@[i].effective_stake
            &&& ra.elected@[i].committee_index == rb.elected@[i].committee_index
        } by {
            assert(place(x[i]) == place(y[i]));
            assert(ra.elected@[i].address == x[i].address);
            assert(rb.elected@[i].address == y[i].address);
        }
    }
}

/// The order of the records in a snapshot does not matter: snapshots of the
/// same records elect the same committee.
pub proof fn law_election_ignores_record_order(
    s: StakingSnapshot,
    t: StakingSnapshot,
    policy: ElectionPolicy,
    for_epoch: EpochNumber,
    a: Result<ElectionResult, StakingSnapshotError>,
    b: Result<ElectionResult, StakingSnapshotError>,
)
    requires
        s.captured_at_epoch == t.captured_at_epoch,
        s.records@.to_multiset() == t.records@.to_multiset(),
        election_outcome(
            seats(s.ranking(), policy.max_committee_size as nat),
            policy,
            s.captured_at_epoch,
            for_epoch,
            a,
        ),
        election_outcome(
            seats(t.ranking(), policy.max_committee_size as nat),
            policy,
            t.captured_at_epoch,
            for_epoch,
            b,
        ),
    ensures
        same_outcome(a, b),
{
    lemma_outcomes_agree(
        s.records@,
        t.records@,
        |r: ValidatorStakeRecord| eligible(r),
        policy,
        s.captured_at_epoch,
        for_epoch,
        a,
        b,
    );
}

/// The order of the records in a snapshot does not matter under a rotation
/// policy either.
pub proof fn law_rotation_ignores_record_order(
    s: StakingSnapshot,
    t: StakingSnapshot,
    policy: CommitteeRotationPolicy,
    for_epoch: EpochNumber,
    a: Result<ElectionResult, StakingSnapshotError>,
    b: Result<ElectionResult, StakingSnapshotError>,
)
    requires
        s.captured_at_epoch == t.captured_at_epoch,
        s.records@.to_multiset() == t.records@.to_multiset(),
        election_outcome(
            seats(s.ranking_under(policy), policy.election.max_committee_size as nat),
            policy.election,
            s.captured_at_epoch,
            for_epoch,
            a,
        ),
        election_outcome(
            seats(t.ranking_under(policy), policy.election.max_committee_size as nat),
            policy.election,
            t.captured_at_epoch,
            for_epoch,
            b,
        ),
    ensures
        same_outcome(a, b),
{
    lemma_outcomes_agree(
        s.records@,
        t.records@,
        |r: ValidatorStakeRecord| eligible_under(policy, r),
        policy.election,
        s.captured_at_epoch,
        for_epoch,
        a,
        b,
    );
}

/// Whether a rotation policy lets the validator of a record stand.
pub open spec fn admitted(policy: CommitteeRotationPolicy, r: ValidatorStakeRecord) -> bool {
    &&& !(policy.exclude_slashed && r.is_slashed)
    &&& r.reputation.0 >= policy.min_reputation_score.0
}

proof fn lemma_admitted_then_eligible(s: Seq<ValidatorStakeRecord>, policy: CommitteeRotationPolicy)
    ensures
        s.filter(|r: ValidatorStakeRecord| admitted(policy, r)).filter(
            |r: ValidatorStakeRecord| eligible(r),
        ) == s.filter(|r: ValidatorStakeRecord| eligible_under(policy, r)),
    decreases s.len(),
{
    reveal(Seq::filter);
    let standing = |r: ValidatorStakeRecord| admitted(policy, r);
    if s.len() > 0 {
        let rest = s.drop_last();
        lemma_admitted_then_eligible(rest, policy);
        if standing(s.last()) {
            let kept = rest.filter(standing);
            assert(kept.push(s.last()).drop_last() =~= kept);
        }
    }
}

/// An election under a rotation policy is the plain election among the
/// validators that the policy lets stand: the same committee comes of it, and
/// the same errors.
pub proof fn law_policy_elects_among_the_admitted(
    snapshot: StakingSnapshot,
    policy: CommitteeRotationPolicy,
    remaining: StakingSnapshot,
    for_epoch: EpochNumber,
    a: Result<ElectionResult, StakingSnapshotError>,
    b: Result<ElectionResult, StakingSnapshotError>,
)
    requires
        remaining.captured_at_epoch == snapshot.captured_at_epoch,
        remaining.records@ == snapshot.records@.filter(
            |r: ValidatorStakeRecord| admitted(policy, r),
        ),
    ensures
        snapshot.ranking_under(policy) == remaining.ranking(),
        election_outcome(
            seats(snapshot.ranking_under(policy), policy.election.max_committee_size as nat),
            policy.election,
            snapshot.captured_at_epoch,
            for_epoch,
            a,
        ) <==> election_outcome(
            seats(remaining.ranking(), policy.election.max_committee_size as nat),
            policy.election,
            remaining.captured_at_epoch,
            for_epoch,
            a,
        ),
        election_outcome(
            seats(snapshot.ranking_under(policy), policy.election.max_committee_size as nat),
            policy.election,
            snapshot.captured_at_epoch,
            for_epoch,
            a,
        ) && election_outcome(
            seats(remaining.ranking(), policy.election.max_committee_size as nat),
            policy.election,
            remaining.captured_at_epoch,
            for_epoch,
            b,
        ) ==> same_outcome(a, b),
{
    lemma_admitted_then_eligible(snapshot.records@, policy);
}

/// Whether an elected validator is the one that a record tells of.
pub open spec fn elected_by(ev: ElectedValidator, r: ValidatorStakeRecord) -> bool {
    ev.address == r.address && ev.effective_stake == r.stake()
}

/// Whoever is elected under a rotation policy has a record that the policy
/// lets stand. Where it leaves slashed validators out and every validator has
/// one record, no validator with a slashed record is elected.
pub proof fn law_slashed_are_not_elected(
    snapshot: StakingSnapshot,
    policy: CommitteeRotationPolicy,
    for_epoch: EpochNumber,
    result: ElectionResult,
)
    requires
        election_outcome(
            seats(snapshot.ranking_under(policy), policy.election.max_committee_size as nat),
            policy.election,
            snapshot.captured_at_epoch,
            for_epoch,
            Ok(result),
        ),
    ensures
        forall|i: int|
            0 <= i < result.elected@.len() ==> exists|r: ValidatorStakeRecord|
                {
                    &&& #[trigger] snapshot.records@.contains(r)
                    &&& elected_by(#[trigger] result.elected@[i], r)
                    &&& admitted(policy, r)
                    &&& eligible(r)
                },
        policy.exclude_slashed ==> forall|i: int, r: ValidatorStakeRecord|
            0 <= i < result.elected@.len() && #[trigger] snapshot.records@.contains(r)
                && r.is_slashed && (forall|q: ValidatorStakeRecord| #[trigger]
                snapshot.records@.contains(q) && q.address@ == r.address@ ==> q == r)
                ==> (#[trigger] result.elected@[i]).address@ != r.address@,
{
    law_ranked_are_eligible(snapshot, policy);
    let order = snapshot.ranking_under(policy);
    let chosen = seats(order, policy.election.max_committee_size as nat);
    assert forall|i: int| 0 <= i < result.elected@.len() implies exists|r: ValidatorStakeRecord|
        {
            &&& #[trigger] snapshot.records@.contains(r)
            &&& elected_by(#[trigger] result.elected@[i], r)
            &&& admitted(policy, r)
            &&& eligible(r)
        } by {
        assert(chosen[i] == order[i]);
        assert(elected_by(result.elected@[i], chosen[i]));
        assert(snapshot.records@.contains(order[i]));
        assert(eligible_under(policy, order[i]));
    }
}

} // verus!
