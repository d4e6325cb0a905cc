//! What a committee tells of the records that it was elected from.
//!
//! Everything here is said in terms of the fields of the records, the policies
//! and the results.

use vstd::prelude::*;
use vstd::seq_lib::*;

use crate::node::consensus_types::ValidatorInfo;
use crate::node::election_laws::law_ranking_sorts;
use crate::node::staking_snapshot::{
    attempt_rotation, built_from, elect_committee, elect_committee_with_policy, election_boundary,
    election_outcome, election_to_committee, eligible, eligible_under, is_election_boundary,
    key_missing, looked_up, ranked, ranks_before, seats, targets, total_stake,
    CommitteeRotationPolicy, ElectedValidator, ElectionPolicy, ElectionResult,
    PersistedElectionResult, RotationOutcome, StakingSnapshot, StakingSnapshotError,
    ValidatorStakeRecord,
};
use crate::primitives::text::decimal_text;
use crate::primitives::lex::{lex_lt, lex_lt_at};
use crate::primitives::{AccountAddress, EpochNumber};

verus! {

/// What is left of a validator's bond after the penalties.
pub open spec fn net_stake(r: ValidatorStakeRecord) -> int {
    if r.bonded > r.penalty_total {
        r.bonded - r.penalty_total
    } else {
        0
    }
}

/// Whether a record is that of an active validator with enough left of its
/// bond.
pub open spec fn may_stand(r: ValidatorStakeRecord) -> bool {
    r.status == 0 && r.bonded - r.penalty_total >= 1_000_000_000
}

/// Whether a record may stand and a policy has nothing against it.
pub open spec fn may_stand_under(policy: CommitteeRotationPolicy, r: ValidatorStakeRecord) -> bool {
    &&& may_stand(r)
    &&& policy.exclude_slashed ==> !r.is_slashed
    &&& policy.min_reputation_score.0 <= r.reputation.0
}

/// Whether the address `a` is lower than `b`.
pub open spec fn lower_address(a: AccountAddress, b: AccountAddress) -> bool {
    exists|k: int| #[trigger] differ_first_at(a.0@, b.0@, k) && a.0@[k] < b.0@[k]
}

/// Whether two texts agree up to the position `k` and differ there.
pub open spec fn differ_first_at(a: Seq<u8>, b: Seq<u8>, k: int) -> bool {
    &&& 0 <= k < a.len()
    &&& k < b.len()
    &&& a[k] != b[k]
    &&& forall|j: int| 0 <= j < k ==> a[j] == b[j]
}

/// Whether `a` has more stake than `b`, or as much and the lower address.
pub open spec fn precedes(a: ValidatorStakeRecord, b: ValidatorStakeRecord) -> bool {
    net_stake(a) > net_stake(b) || (net_stake(a) == net_stake(b) && lower_address(a.address, b.address))
}

/// Whether `order` holds the records for which `stands` is true, each as often
/// as `records` does, and none in front of one that precedes it.
pub open spec fn is_ranking(
    records: Seq<ValidatorStakeRecord>,
    stands: spec_fn(ValidatorStakeRecord) -> bool,
    order: Seq<ValidatorStakeRecord>,
) -> bool {
    &&& order.to_multiset() == records.filter(stands).to_multiset()
    &&& forall|i: int, j: int| 0 <= i < j < order.len() ==> !precedes(#[trigger] order[j], #[trigger] order[i])
}

/// The sum of what is left of the first `n` bonds.
pub open spec fn net_total(order: Seq<ValidatorStakeRecord>, n: nat) -> int
    decreases n,
{
    if n == 0 {
        0
    } else {
        net_total(order, (n - 1) as nat) + net_stake(order[n - 1])
    }
}

/// Whether `r` is what comes of an election among `order`, of which as many
/// are taken as the policy allows.
pub open spec fn comes_of(
    order: Seq<ValidatorStakeRecord>,
    policy: ElectionPolicy,
    snapshot_epoch: EpochNumber,
    for_epoch: EpochNumber,
    r: Result<ElectionResult, StakingSnapshotError>,
) -> bool {
    let n = if policy.max_committee_size > 0 && policy.max_committee_size < order.len() {
        policy.max_committee_size as nat
    } else {
        order.len()
    };
    match r {
        Ok(result) => {
            &&& n >= policy.min_committee_size
            &&& net_total(order, n) >= policy.min_total_effective_stake
            &&& result.for_epoch.0 == for_epoch.0
            &&& result.snapshot_epoch.0 == snapshot_epoch.0
            &&& result.total_effective_stake == net_total(order, n)
            &&& result.elected@.len() == n
            &&& forall|i: int|
                0 <= i < n ==> {
                    &&& (#[trigger] result.elected@[i]).address == order[i].address
                    &&& result.elected@[i].effective_stake == net_stake(order[i])
                    &&& i <= u32::MAX ==> result.elected@[i].committee_index == i
                }
        },
        Err(StakingSnapshotError::InsufficientValidators { found, required }) => {
            &&& n < policy.min_committee_size
            &&& found == n as usize
            &&& required == policy.min_committee_size
        },
        Err(StakingSnapshotError::InsufficientTotalStake { total, required }) => {
            &&& n >= policy.min_committee_size
            &&& net_total(order, n) < policy.min_total_effective_stake
            &&& total == net_total(order, n)
            &&& required == policy.min_total_effective_stake
        },
        Err(StakingSnapshotError::CommitteeConstruction(_)) => false,
    }
}

proof fn lemma_rank_is_precedence(a: ValidatorStakeRecord, b: ValidatorStakeRecord)
    ensures
        ranks_before(a, b) <==> precedes(a, b),
        a.stake() == net_stake(a),
{
    let x = a.address@;
    let y = b.address@;
    if lex_lt(x, y) {
        let k = choose|k: int| lex_lt_at(x, y, k);
        assert(differ_first_at(a.address.0@, b.address.0@, k));
    }
    if lower_address(a.address, b.address) {
        let k = choose|k: int|
            #[trigger] differ_first_at(a.address.0@, b.address.0@, k) && a.address.0@[k] < b.address.0@[k];
        assert(lex_lt_at(x, y, k));
    }
}

proof fn lemma_ranked_is_ranking(
    records: Seq<ValidatorStakeRecord>,
    pred: spec_fn(ValidatorStakeRecord) -> bool,
    stands: spec_fn(ValidatorStakeRecord) -> bool,
)
    requires
        forall|r: ValidatorStakeRecord| #[trigger] pred(r) == stands(r),
    ensures
        is_ranking(records, stands, ranked(records.filter(pred))),
{
    assert(pred =~= stands);
    let order = ranked(records.filter(pred));
    law_ranking_sorts(records.filter(pred));
    assert forall|i: int, j: int| 0 <= i < j < order.len() implies !precedes(
        #[trigger] order[j],
        #[trigger] order[i],
    ) by {
        lemma_rank_is_precedence(order[j], order[i]);
        assert(!ranks_before(order[j], order[i]));
    }
}

proof fn lemma_total_is_net_total(order: Seq<ValidatorStakeRecord>, n: int)
    requires
        0 <= n <= order.len(),
    ensures
        total_stake(order.take(n)) == net_total(order, n as nat),
    decreases n,
{
    if n > 0 {
        lemma_total_is_net_total(order, n - 1);
        assert(order.take(n).drop_last() =~= order.take(n - 1));
        lemma_rank_is_precedence(order[n - 1], order[n - 1]);
    }
}

proof fn lemma_outcome_comes_of(
    order: Seq<ValidatorStakeRecord>,
    policy: ElectionPolicy,
    snapshot_epoch: EpochNumber,
    for_epoch: EpochNumber,
    r: Result<ElectionResult, StakingSnapshotError>,
)
    requires
        election_outcome(
            seats(order, policy.max_committee_size as nat),
            policy,
            snapshot_epoch,
            for_epoch,
            r,
        ),
    ensures
        comes_of(order, policy, snapshot_epoch, for_epoch, r),
{
    let chosen = seats(order, policy.max_committee_size as nat);
    let n = chosen.len() as int;
    assert(order.take(n) =~= chosen);
    lemma_total_is_net_total(order, n);
    assert forall|i: int| 0 <= i < n implies (#[trigger] chosen[i]).stake() == net_stake(order[i]) by {
        lemma_rank_is_precedence(order[i], order[i]);
    }
    lemma_net_total_bound(order, n as nat);
}

proof fn lemma_net_total_bound(order: Seq<ValidatorStakeRecord>, n: nat)
    ensures
        net_total(order, n) >= 0,
    decreases n,
{
    if n > 0 {
        lemma_net_total_bound(order, (n - 1) as nat);
    }
}

proof fn lemma_members(
    records: Seq<ValidatorStakeRecord>,
    stands: spec_fn(ValidatorStakeRecord) -> bool,
    order: Seq<ValidatorStakeRecord>,
)
    requires
        order.to_multiset() == records.filter(stands).to_multiset(),
    ensures
        forall|i: int| 0 <= i < order.len() ==> stands(#[trigger] order[i]) && records.contains(order[i]),
        forall|r: ValidatorStakeRecord| #[trigger] records.contains(r) && stands(r) ==> order.contains(r),
{
    broadcast use group_to_multiset_ensures;

    let kept = records.filter(stands);
    assert forall|i: int| 0 <= i < order.len() implies stands(#[trigger] order[i]) && records.contains(
        order[i],
    ) by {
        assert(order.contains(order[i]));
        assert(order.to_multiset().count(order[i]) > 0);
        assert(kept.contains(order[i]));
        let k = choose|k: int| 0 <= k < kept.len() && kept[k] == order[i];
        records.lemma_filter_pred(stands, k);
        records.lemma_filter_contains_rev(stands, order[i]);
    }
    assert forall|r: ValidatorStakeRecord| #[trigger] records.contains(r) && stands(r) implies order.contains(
        r,
    ) by {
        let k = choose|k: int| 0 <= k < records.len() && records[k] == r;
        records.lemma_filter_contains(stands, k);
        assert(kept.contains(r));
        assert(kept.to_multiset().count(r) > 0);
    }
}

/// A validator's effective stake is what is left of its bond after the
/// penalties, and nothing where they exceed it; it is active exactly where its
/// status is zero.
pub proof fn law_penalties_lower_the_stake(r: ValidatorStakeRecord, stake: u64, active: bool)
    requires
        call_ensures(ValidatorStakeRecord::effective_stake, (&r,), stake),
        call_ensures(ValidatorStakeRecord::is_active, (&r,), active),
    ensures
        r.penalty_total <= r.bonded ==> stake + r.penalty_total == r.bonded,
        r.penalty_total >= r.bonded ==> stake == 0,
        active <==> r.status == 0,
{
}

/// The candidates are the records of active validators with at least one
/// billion left of their bond after the penalties, and all of them, in the
/// order of the snapshot.
pub proof fn law_candidates_have_enough_left(
    snapshot: StakingSnapshot,
    candidates: Vec<&ValidatorStakeRecord>,
)
    requires
        call_ensures(StakingSnapshot::eligible_candidates, (&snapshot,), candidates),
    ensures
        forall|i: int|
            0 <= i < candidates@.len() ==> {
                &&& snapshot.records@.contains(*#[trigger] candidates@[i])
                &&& candidates@[i].status == 0
                &&& candidates@[i].bonded - candidates@[i].penalty_total >= 1_000_000_000
            },
        forall|r: ValidatorStakeRecord| #[trigger]
            snapshot.records@.contains(r) && r.status == 0 && r.bonded - r.penalty_total
                >= 1_000_000_000 ==> exists|i: int|
                0 <= i < candidates@.len() && *#[trigger] candidates@[i] == r,
        candidates@.map_values(|c: &ValidatorStakeRecord| *c) == snapshot.records@.filter(
            |r: ValidatorStakeRecord| may_stand(r),
        ),
{
    let stands = |r: ValidatorStakeRecord| may_stand(r);
    assert((|r: ValidatorStakeRecord| eligible(r)) =~= stands);
    let order = targets(candidates@);
    lemma_members(snapshot.records@, stands, order);
    assert forall|i: int| 0 <= i < candidates@.len() implies order[i] == *#[trigger] candidates@[i] by {}
    assert forall|r: ValidatorStakeRecord| #[trigger]
        snapshot.records@.contains(r) && r.status == 0 && r.bonded - r.penalty_total
            >= 1_000_000_000 implies exists|i: int|
        0 <= i < candidates@.len() && *#[trigger] candidates@[i] == r by {
        assert(stands(r));
        assert(order.contains(r));
        let i = choose|i: int| 0 <= i < order.len() && order[i] == r;
        assert(*candidates@[i] == r);
    }
}

/// The candidates under a policy are those of the plain election whom the
/// policy has nothing against.
pub proof fn law_policy_candidates_have_enough_left(
    snapshot: StakingSnapshot,
    policy: CommitteeRotationPolicy,
    candidates: Vec<&ValidatorStakeRecord>,
)
    requires
        call_ensures(
            StakingSnapshot::eligible_candidates_with_policy,
            (&snapshot, &policy),
            candidates,
        ),
    ensures
        forall|i: int|
            0 <= i < candidates@.len() ==> {
                &&& snapshot.records@.contains(*#[trigger] candidates@[i])
                &&& candidates@[i].status == 0
                &&& candidates@[i].bonded - candidates@[i].penalty_total >= 1_000_000_000
                &&& candidates@[i].reputation.0 >= policy.min_reputation_score.0
                &&& policy.exclude_slashed ==> !candidates@[i].is_slashed
            },
        forall|r: ValidatorStakeRecord| #[trigger]
            snapshot.records@.contains(r) && may_stand_under(policy, r) ==> exists|i: int|
                0 <= i < candidates@.len() && *#[trigger] candidates@[i] == r,
        candidates@.map_values(|c: &ValidatorStakeRecord| *c) == snapshot.records@.filter(
            |r: ValidatorStakeRecord| may_stand_under(policy, r),
        ),
{
    let stands = |r: ValidatorStakeRecord| may_stand_under(policy, r);
    assert((|r: ValidatorStakeRecord| eligible_under(policy, r)) =~= stands);
    let order = targets(candidates@);
    lemma_members(snapshot.records@, stands, order);
    assert forall|i: int| 0 <= i < candidates@.len() implies order[i] == *#[trigger] candidates@[i] by {}
    assert forall|r: ValidatorStakeRecord| #[trigger]
        snapshot.records@.contains(r) && may_stand_under(policy, r) implies exists|i: int|
        0 <= i < candidates@.len() && *#[trigger] candidates@[i] == r by {
        assert(stands(r));
        assert(order.contains(r));
        let i = choose|i: int| 0 <= i < order.len() && order[i] == r;
        assert(*candidates@[i] == r);
    }
}

/// The sorted candidates are the records that may stand, the one with the most
/// stake first and the lower address first among equals.
pub proof fn law_sorted_candidates_are_a_ranking(
    snapshot: StakingSnapshot,
    sorted: Vec<&ValidatorStakeRecord>,
)
    requires
        call_ensures(StakingSnapshot::sorted_candidates, (&snapshot,), sorted),
    ensures
        is_ranking(
            snapshot.records@,
            |r: ValidatorStakeRecord| may_stand(r),
            sorted@.map_values(|c: &ValidatorStakeRecord| *c),
        ),
{
    lemma_ranked_is_ranking(
        snapshot.records@,
        |r: ValidatorStakeRecord| eligible(r),
        |r: ValidatorStakeRecord| may_stand(r),
    );
    assert(sorted@.map_values(|c: &ValidatorStakeRecord| *c) =~= targets(sorted@));
}

/// The sorted candidates under a policy are the records that may stand under
/// it, in the same order.
pub proof fn law_sorted_policy_candidates_are_a_ranking(
    snapshot: StakingSnapshot,
    policy: CommitteeRotationPolicy,
    sorted: Vec<&ValidatorStakeRecord>,
)
    requires
        call_ensures(StakingSnapshot::sorted_candidates_with_policy, (&snapshot, &policy), sorted),
    ensures
        is_ranking(
            snapshot.records@,
            |r: ValidatorStakeRecord| may_stand_under(policy, r),
            sorted@.map_values(|c: &ValidatorStakeRecord| *c),
        ),
{
    lemma_ranked_is_ranking(
        snapshot.records@,
        |r: ValidatorStakeRecord| eligible_under(policy, r),
        |r: ValidatorStakeRecord| may_stand_under(policy, r),
    );
    assert(sorted@.map_values(|c: &ValidatorStakeRecord| *c) =~= targets(sorted@));
}

/// An election takes the first candidates of a ranking, as many as the policy
/// allows, and fails where they are too few or have too little stake.
pub proof fn law_elections_take_the_best(
    snapshot: StakingSnapshot,
    policy: ElectionPolicy,
    for_epoch: EpochNumber,
    r: Result<ElectionResult, StakingSnapshotError>,
)
    requires
        call_ensures(elect_committee, (&snapshot, &policy, for_epoch), r),
    ensures
        exists|order: Seq<ValidatorStakeRecord>|
            {
                &&& is_ranking(snapshot.records@, |r: ValidatorStakeRecord| may_stand(r), order)
                &&& #[trigger] comes_of(order, policy, snapshot.captured_at_epoch, for_epoch, r)
            },
{
    let order = snapshot.ranking();
    lemma_ranked_is_ranking(
        snapshot.records@,
        |r: ValidatorStakeRecord| eligible(r),
        |r: ValidatorStakeRecord| may_stand(r),
    );
    lemma_outcome_comes_of(order, policy, snapshot.captured_at_epoch, for_epoch, r);
    assert(comes_of(order, policy, snapshot.captured_at_epoch, for_epoch, r));
}

/// An election under a policy takes the first of those who may stand under it.
pub proof fn law_policy_elections_take_the_best(
    snapshot: StakingSnapshot,
    policy: CommitteeRotationPolicy,
    for_epoch: EpochNumber,
    r: Result<ElectionResult, StakingSnapshotError>,
)
    requires
        call_ensures(elect_committee_with_policy, (&snapshot, &policy, for_epoch), r),
    ensures
        exists|order: Seq<ValidatorStakeRecord>|
            {
                &&& is_ranking(
                    snapshot.records@,
                    |r: ValidatorStakeRecord| may_stand_under(policy, r),
                    order,
                )
                &&& #[trigger] comes_of(
                    order,
                    policy.election,
                    snapshot.captured_at_epoch,
                    for_epoch,
                    r,
                )
            },
{
    let order = snapshot.ranking_under(policy);
    lemma_ranked_is_ranking(
        snapshot.records@,
        |r: ValidatorStakeRecord| eligible_under(policy, r),
        |r: ValidatorStakeRecord| may_stand_under(policy, r),
    );
    lemma_outcome_comes_of(order, policy.election, snapshot.captured_at_epoch, for_epoch, r);
    assert(comes_of(order, policy.election, snapshot.captured_at_epoch, for_epoch, r));
}

proof fn lemma_elected_fields(
    records: Seq<ValidatorStakeRecord>,
    stands: spec_fn(ValidatorStakeRecord) -> bool,
    order: Seq<ValidatorStakeRecord>,
    policy: ElectionPolicy,
    snapshot_epoch: EpochNumber,
    for_epoch: EpochNumber,
    result: ElectionResult,
)
    requires
        is_ranking(records, stands, order),
        forall|r: ValidatorStakeRecord| #[trigger] stands(r) ==> may_stand(r),
        comes_of(order, policy, snapshot_epoch, for_epoch, Ok(result)),
    ensures
        forall|i: int|
            0 <= i < result.elected@.len() ==> {
                &&& (#[trigger] result.elected@[i]).effective_stake >= 1_000_000_000
                &&& exists|r: ValidatorStakeRecord| #[trigger]
                    records.contains(r) && stands(r) && tells_of(result.elected@[i], r)
            },
        forall|r: ValidatorStakeRecord, i: int|
            0 <= i < result.elected@.len() && #[trigger] records.contains(r) && stands(r) && (forall|
                j: int,
            |
                0 <= j < result.elected@.len() ==> !tells_of(#[trigger] result.elected@[j], r))
                ==> net_stake(r) <= (#[trigger] result.elected@[i]).effective_stake,
{
    lemma_members(records, stands, order);
    let elected = result.elected@;
    assert forall|i: int| 0 <= i < elected.len() implies {
        &&& (#[trigger] elected[i]).effective_stake >= 1_000_000_000
        &&& exists|r: ValidatorStakeRecord| #[trigger]
            records.contains(r) && stands(r) && tells_of(elected[i], r)
    } by {
        assert(stands(order[i]));
        assert(records.contains(order[i]) && tells_of(elected[i], order[i]));
    }
    assert forall|r: ValidatorStakeRecord, i: int|
        0 <= i < elected.len() && #[trigger] records.contains(r) && stands(r) && (forall|j: int|
            0 <= j < elected.len() ==> !tells_of(#[trigger] elected[j], r)) implies net_stake(r) <= (
    #[trigger] elected[i]).effective_stake by {
        assert(order.contains(r));
        let k = choose|k: int| 0 <= k < order.len() && order[k] == r;
        if k < elected.len() {
            assert(tells_of(elected[k], r));
        } else {
            assert(!precedes(order[k], order[i]));
        }
    }
}

/// Whether an elected validator is the one of a record.
pub open spec fn tells_of(ev: ElectedValidator, r: ValidatorStakeRecord) -> bool {
    ev.address == r.address && ev.effective_stake == net_stake(r)
}

/// Every elected validator has an active record in the snapshot with its
/// address and stake and at least one billion left of the bond, and whoever
/// may stand and is left out has no more stake than anyone elected.
pub proof fn law_elected_validators_have_enough_left(
    snapshot: StakingSnapshot,
    policy: ElectionPolicy,
    for_epoch: EpochNumber,
    result: ElectionResult,
)
    requires
        call_ensures(elect_committee, (&snapshot, &policy, for_epoch), Ok(result)),
    ensures
        forall|i: int|
            0 <= i < result.elected@.len() ==> {
                &&& (#[trigger] result.elected@[i]).effective_stake >= 1_000_000_000
                &&& exists|r: ValidatorStakeRecord| #[trigger]
                    snapshot.records@.contains(r) && may_stand(r) && tells_of(result.elected@[i], r)
            },
        forall|r: ValidatorStakeRecord, i: int|
            0 <= i < result.elected@.len() && #[trigger] snapshot.records@.contains(r) && may_stand(r)
                && (forall|j: int|
                0 <= j < result.elected@.len() ==> !tells_of(#[trigger] result.elected@[j], r))
                ==> net_stake(r) <= (#[trigger] result.elected@[i]).effective_stake,
{
    let stands = |r: ValidatorStakeRecord| may_stand(r);
    law_elections_take_the_best(snapshot, policy, for_epoch, Ok(result));
    let order = choose|order: Seq<ValidatorStakeRecord>|
        {
            &&& is_ranking(snapshot.records@, stands, order)
            &&& #[trigger] comes_of(
                order,
                policy,
                snapshot.captured_at_epoch,
                for_epoch,
                Ok(result),
            )
        };
    lemma_elected_fields(
        snapshot.records@,
        stands,
        order,
        policy,
        snapshot.captured_at_epoch,
        for_epoch,
        result,
    );
    assert forall|i: int| 0 <= i < result.elected@.len() implies {
        &&& (#[trigger] result.elected@[i]).effective_stake >= 1_000_000_000
        &&& exists|r: ValidatorStakeRecord| #[trigger]
            snapshot.records@.contains(r) && may_stand(r) && tells_of(result.elected@[i], r)
    } by {
        let r = choose|r: ValidatorStakeRecord| #[trigger]
            snapshot.records@.contains(r) && stands(r) && tells_of(result.elected@[i], r);
        assert(snapshot.records@.contains(r) && may_stand(r));
    }
    assert forall|r: ValidatorStakeRecord, i: int|
        0 <= i < result.elected@.len() && #[trigger] snapshot.records@.contains(r) && may_stand(r) && (
        forall|j: int| 0 <= j < result.elected@.len() ==> !tells_of(#[trigger] result.elected@[j], r)) implies net_stake(
        r,
    ) <= (#[trigger] result.elected@[i]).effective_stake by {
        assert(stands(r));
    }
}

/// An election takes place when an epoch begins whose number is a multiple of
/// the interval and not zero; an interval of zero counts as one.
pub proof fn law_elections_come_at_intervals(next_epoch: EpochNumber, interval: u64, r: bool)
    requires
        call_ensures(is_election_boundary, (next_epoch, interval), r),
    ensures
        next_epoch.0 == 0 ==> !r,
        next_epoch.0 > 0 && interval <= 1 ==> r,
        next_epoch.0 > 0 && interval > 1 ==> (r <==> next_epoch.0 % interval == 0),
{
    if interval == 1 {
        assert(next_epoch.0 % 1 == 0);
    }
}

/// The election that a rotation tells of.
pub open spec fn election_in(r: RotationOutcome) -> Result<ElectionResult, StakingSnapshotError> {
    match r {
        RotationOutcome::Elected(result) => Ok(result),
        RotationOutcome::Fallback { reason } => Err(reason),
        RotationOutcome::NotElectionEpoch => arbitrary(),
    }
}

/// A rotation is an election under the policy where one is due and there is a
/// snapshot, a fallback where the election fails or there is no snapshot, and
/// nothing where no election is due.
pub proof fn law_rotations_are_elections(
    snapshot: Option<&StakingSnapshot>,
    policy: CommitteeRotationPolicy,
    next_epoch: EpochNumber,
    r: RotationOutcome,
)
    requires
        call_ensures(attempt_rotation, (snapshot, &policy, next_epoch), r),
    ensures
        ({
            let due = next_epoch.0 > 0 && (policy.election_epoch_interval <= 1 || next_epoch.0
                % policy.election_epoch_interval == 0);
            &&& r is NotElectionEpoch <==> !due
            &&& due && snapshot is None ==> {
                &&& r is Fallback
                &&& r->reason == (StakingSnapshotError::InsufficientValidators {
                    found: 0,
                    required: policy.election.min_committee_size,
                })
            }
            &&& due && snapshot is Some ==> exists|order: Seq<ValidatorStakeRecord>|
                {
                    &&& is_ranking(
                        snapshot->Some_0.records@,
                        |r: ValidatorStakeRecord| may_stand_under(policy, r),
                        order,
                    )
                    &&& #[trigger] comes_of(
                        order,
                        policy.election,
                        snapshot->Some_0.captured_at_epoch,
                        next_epoch,
                        election_in(r),
                    )
                }
        }),
{
    let interval = policy.election_epoch_interval;
    assert(next_epoch.0 % 1 == 0);
    if election_boundary(next_epoch, interval) && snapshot is Some {
        let s = *snapshot->Some_0;
        let outcome = election_in(r);
        let order = s.ranking_under(policy);
        lemma_ranked_is_ranking(
            s.records@,
            |r: ValidatorStakeRecord| eligible_under(policy, r),
            |r: ValidatorStakeRecord| may_stand_under(policy, r),
        );
        lemma_outcome_comes_of(order, policy.election, s.captured_at_epoch, next_epoch, outcome);
        assert(comes_of(order, policy.election, s.captured_at_epoch, next_epoch, outcome));
    }
}

/// Unless it is told otherwise, a policy asks for four validators and four
/// billion of stake, sets no upper limit, elects in every epoch, asks for no
/// reputation and leaves slashed validators out.
pub proof fn law_policies_have_thresholds(
    plain: ElectionPolicy,
    rotation: CommitteeRotationPolicy,
    interval: u64,
    spaced: CommitteeRotationPolicy,
)
    requires
        call_ensures(<ElectionPolicy as Default>::default, (), plain),
        call_ensures(<CommitteeRotationPolicy as Default>::default, (), rotation),
        call_ensures(CommitteeRotationPolicy::with_interval, (interval,), spaced),
    ensures
        plain.max_committee_size == 0 && plain.min_committee_size == 4
            && plain.min_total_effective_stake == 4_000_000_000,
        rotation.election.max_committee_size == 0 && rotation.election.min_committee_size == 4
            && rotation.election.min_total_effective_stake == 4_000_000_000,
        rotation.election_epoch_interval == 1 && rotation.min_reputation_score.0 == 0
            && rotation.exclude_slashed,
        spaced.election_epoch_interval >= 1,
        interval >= 1 ==> spaced.election_epoch_interval == interval,
        interval == 0 ==> spaced.election_epoch_interval == 1,
        spaced.election.max_committee_size == 0 && spaced.election.min_committee_size == 4
            && spaced.election.min_total_effective_stake == 4_000_000_000,
        spaced.min_reputation_score.0 == 0 && spaced.exclude_slashed,
{
}

/// What is stored of an election is the election.
pub proof fn law_stored_elections_are_kept(result: ElectionResult, stored: PersistedElectionResult)
    requires
        call_ensures(PersistedElectionResult::from, (&result,), stored),
    ensures
        stored.for_epoch.0 == result.for_epoch.0,
        stored.snapshot_epoch.0 == result.snapshot_epoch.0,
        stored.total_effective_stake == result.total_effective_stake,
        stored.elected@.len() == result.elected@.len(),
        forall|i: int|
            0 <= i < stored.elected@.len() ==> #[trigger] stored.elected@[i] == result.elected@[i],
        !stored.is_fallback,
{
}

/// Whether a committee member is the elected validator with a key that was
/// found under its address.
pub open spec fn seats_validator<K: Fn(&AccountAddress) -> Option<Vec<u8>>>(
    key_lookup: K,
    ev: ElectedValidator,
    member: ValidatorInfo,
) -> bool {
    &&& exists|key: Vec<u8>| #[trigger]
        key_lookup.ensures((&ev.address,), Some(key)) && member.falcon_pub_key@ == key@
    &&& member.index.0 == ev.committee_index
    &&& member.stake.0 == ev.effective_stake
    &&& member.reputation.0 == 10_000
    &&& !member.is_slashed
    &&& member.shard_id is None
}

/// A committee is built of exactly the elected validators, in their order and
/// for the epoch of the election, each with the key found under its address.
/// Where a key is known for each of them, only the building can fail.
pub proof fn law_committees_seat_the_elected<C, K: Fn(&AccountAddress) -> Option<Vec<u8>>, B: Fn(
    EpochNumber,
    Vec<ValidatorInfo>,
) -> Result<C, String>>(
    result: ElectionResult,
    key_lookup: K,
    build: B,
    r: Result<C, StakingSnapshotError>,
)
    requires
        call_ensures(election_to_committee::<C, K, B>, (&result, key_lookup, build), r),
    ensures
        r is Ok ==> exists|members: Vec<ValidatorInfo>|
            {
                &&& #[trigger] build.ensures((result.for_epoch, members), Ok(r->Ok_0))
                &&& members@.len() == result.elected@.len()
                &&& forall|i: int|
                    0 <= i < members@.len() ==> seats_validator(
                        key_lookup,
                        result.elected@[i],
                        #[trigger] members@[i],
                    )
            },
        r is Err && (forall|i: int|
            0 <= i < result.elected@.len() ==> !key_lookup.ensures(
                (&(#[trigger] result.elected@[i]).address,),
                None,
            )) ==> exists|members: Vec<ValidatorInfo>, why: String|
            {
                &&& #[trigger] build.ensures((result.for_epoch, members), Err(why))
                &&& members@.len() == result.elected@.len()
                &&& forall|i: int|
                    0 <= i < members@.len() ==> seats_validator(
                        key_lookup,
                        result.elected@[i],
                        #[trigger] members@[i],
                    )
            },
{
    if r is Ok {
        let (members, outcome) = choose|members: Vec<ValidatorInfo>, outcome: Result<C, String>|
            {
                &&& #[trigger] built_from(key_lookup, build, result, members, outcome)
                &&& outcome is Ok
                &&& outcome->Ok_0 == r->Ok_0
            };
        assert(outcome == Ok::<C, String>(r->Ok_0));
        assert(build.ensures((result.for_epoch, members), Ok(r->Ok_0)));
        lemma_members_seated(key_lookup, build, result, members, outcome);
    } else if forall|i: int|
        0 <= i < result.elected@.len() ==> !key_lookup.ensures(
            (&(#[trigger] result.elected@[i]).address,),
            None,
        ) {
        assert forall|k: int| !key_missing(key_lookup, result, k) by {
            if 0 <= k < result.elected@.len() {
                assert(!key_lookup.ensures((&result.elected@[k].address,), None));
            }
        }
        let (members, outcome) = choose|members: Vec<ValidatorInfo>, outcome: Result<C, String>|
            {
                &&& #[trigger] built_from(key_lookup, build, result, members, outcome)
                &&& outcome is Err
            };
        assert(outcome == Err::<C, String>(outcome->Err_0));
        assert(build.ensures((result.for_epoch, members), Err(outcome->Err_0)));
        lemma_members_seated(key_lookup, build, result, members, outcome);
    }
}

proof fn lemma_members_seated<C, K: Fn(&AccountAddress) -> Option<Vec<u8>>, B: Fn(
    EpochNumber,
    Vec<ValidatorInfo>,
) -> Result<C, String>>(
    key_lookup: K,
    build: B,
    result: ElectionResult,
    members: Vec<ValidatorInfo>,
    outcome: Result<C, String>,
)
    requires
        built_from(key_lookup, build, result, members, outcome),
    ensures
        forall|i: int|
            0 <= i < members@.len() ==> seats_validator(
                key_lookup,
                result.elected@[i],
                #[trigger] members@[i],
            ),
{
    assert forall|i: int| 0 <= i < members@.len() implies seats_validator(
        key_lookup,
        result.elected@[i],
        #[trigger] members@[i],
    ) by {
        assert(looked_up(key_lookup, result.elected@[i], members@[i]));
    }
}

/// A snapshot holds its epoch and its records.
pub proof fn law_snapshots_hold_their_records(
    epoch: EpochNumber,
    records: Vec<ValidatorStakeRecord>,
    r: StakingSnapshot,
)
    requires
        call_ensures(StakingSnapshot::new, (epoch, records), r),
    ensures
        r.captured_at_epoch == epoch,
        r.records == records,
{
}

/// Why there is no committee is said in words and numbers.
pub proof fn law_failed_elections_are_told(
    found: usize,
    needed: usize,
    found_text: String,
    needed_text: String,
    few: String,
    total: u64,
    required: u64,
    total_text: String,
    required_text: String,
    poor: String,
    reason: String,
    broken: String,
)
    requires
        call_ensures(decimal_text, (total,), total_text),
        call_ensures(decimal_text, (required,), required_text),
        call_ensures(
            StakingSnapshotError::to_string,
            (&StakingSnapshotError::InsufficientTotalStake { total, required },),
            poor,
        ),
        call_ensures(decimal_text, (found as u64,), found_text),
        call_ensures(decimal_text, (needed as u64,), needed_text),
        call_ensures(
            StakingSnapshotError::to_string,
            (&StakingSnapshotError::InsufficientValidators { found, required: needed },),
            few,
        ),
        call_ensures(
            StakingSnapshotError::to_string,
            (&StakingSnapshotError::CommitteeConstruction(reason),),
            broken,
        ),
    ensures
        few@ == "insufficient validators: found "@ + found_text@ + ", need at least "@
            + needed_text@,
        poor@ == "insufficient total stake: "@ + total_text@ + " voo, need at least "@
            + required_text@ + " voo"@,
        broken@ == "committee construction failed: "@ + reason@,
{
}

} // verus!
