//! Committee election from a staking snapshot.
//!
//! At an election boundary the next committee is derived from committed state
//! alone: eligible records are ranked by effective stake, the larger first,
//! ties by address, the lower first, and the committee is taken from the top.
//! Every node that reads the same state elects the same committee.

use vstd::prelude::*;
use vstd::string::*;

use crate::node::consensus_types::{ReputationScore, ValidatorInfo};
use crate::primitives::hexadecimal::hex_encode;
use crate::primitives::lex::{lex_compare, lex_lt, Order};
use crate::primitives::text::{decimal, decimal_text, join};
use crate::primitives::{AccountAddress, Amount, EpochNumber, ValidatorIndex};

verus! {

/// Why no committee could be formed.
#[derive(Debug)]
pub enum StakingSnapshotError {
    /// Too few eligible validators.
    InsufficientValidators {
        /// Number of validators found.
        found: usize,
        /// Number required.
        required: usize,
    },
    /// The stake of the elected validators is too low.
    InsufficientTotalStake {
        /// Their total effective stake.
        total: u64,
        /// The stake required.
        required: u64,
    },
    /// The committee could not be built from the elected validators.
    CommitteeConstruction(String),
}

impl StakingSnapshotError {
    /// The message of this error.
    pub open spec fn message(&self) -> Seq<char> {
        match self {
            StakingSnapshotError::InsufficientValidators { found, required } => {
                "insufficient validators: found "@ + decimal(*found as nat) + ", need at least "@
                    + decimal(*required as nat)
            },
            StakingSnapshotError::InsufficientTotalStake { total, required } => {
                "insufficient total stake: "@ + decimal(*total as nat) + " voo, need at least "@
                    + decimal(*required as nat) + " voo"@
            },
            StakingSnapshotError::CommitteeConstruction(reason) => {
                "committee construction failed: "@ + reason@
            },
        }
    }

    /// The message of this error.
    pub fn to_string(&self) -> (r: String)
        ensures
            r@ == self.message(),
    {
        match self {
            StakingSnapshotError::InsufficientValidators { found, required } => {
                let mut out = "insufficient validators: found ".to_owned();
                out.append(decimal_text(*found as u64).as_str());
                out.append(", need at least ");
                out.append(decimal_text(*required as u64).as_str());
                out
            },
            StakingSnapshotError::InsufficientTotalStake { total, required } => {
                let mut out = "insufficient total stake: ".to_owned();
                out.append(decimal_text(*total).as_str());
                out.append(" voo, need at least ");
                out.append(decimal_text(*required).as_str());
                out.append(" voo");
                out
            },
            StakingSnapshotError::CommitteeConstruction(reason) => {
                join("committee construction failed: ", reason.as_str())
            },
        }
    }
}

/// Staking state of one validator.
#[derive(Debug, Clone, Copy)]
pub struct ValidatorStakeRecord {
    /// Account address of the validator.
    pub address: AccountAddress,
    /// Total bonded stake in voo.
    pub bonded: u64,
    /// Penalties applied so far.
    pub penalty_total: u64,
    /// Status code: 0 active, 1 unbonding, 2 withdrawn.
    pub status: u8,
    /// Epoch at which the validator registered.
    pub registered_epoch: u64,
    /// Epoch at which unbonding was requested.
    pub unbond_epoch: u64,
    /// Whether the validator is slashed in the current consensus epoch.
    pub is_slashed: bool,
    /// Reputation score from the consensus layer.
    pub reputation: ReputationScore,
}

impl ValidatorStakeRecord {
    /// Bonded stake less penalties, or zero if the penalties exceed it.
    pub open spec fn stake(&self) -> int {
        if self.bonded >= self.penalty_total {
            self.bonded - self.penalty_total
        } else {
            0
        }
    }

    /// Bonded stake less penalties, or zero if the penalties exceed it.
    pub fn effective_stake(&self) -> (r: u64)
        ensures
            r == self.stake(),
    {
        self.bonded.saturating_sub(self.penalty_total)
    }

    /// Whether the validator is active.
    pub fn is_active(&self) -> (r: bool)
        ensures
            r == (self.status == 0),
    {
        self.status == 0
    }
}

/// All staking records at one epoch boundary.
#[derive(Debug, Clone)]
pub struct StakingSnapshot {
    /// Epoch at which the records were read.
    pub captured_at_epoch: EpochNumber,
    /// The records, inactive and withdrawn ones included.
    pub records: Vec<ValidatorStakeRecord>,
}

/// Smallest safe committee.
pub const MIN_COMMITTEE_SIZE: usize = 4;

/// Smallest total effective stake of a committee, in voo.
pub const MIN_TOTAL_EFFECTIVE_STAKE: u64 = 4_000_000_000;

/// Smallest effective stake of a candidate, in voo.
pub const MIN_ELIGIBLE_STAKE: u64 = 1_000_000_000;

/// Thresholds of one election.
#[derive(Debug, Clone, Copy)]
pub struct ElectionPolicy {
    /// Largest committee, or zero for no limit.
    pub max_committee_size: usize,
    /// Smallest committee.
    pub min_committee_size: usize,
    /// Smallest total effective stake.
    pub min_total_effective_stake: u64,
}

impl Default for ElectionPolicy {
    fn default() -> (r: Self)
        ensures
            r.max_committee_size == 0,
            r.min_committee_size == MIN_COMMITTEE_SIZE,
            r.min_total_effective_stake == MIN_TOTAL_EFFECTIVE_STAKE,
    {
        ElectionPolicy {
            max_committee_size: 0,
            min_committee_size: MIN_COMMITTEE_SIZE,
            min_total_effective_stake: MIN_TOTAL_EFFECTIVE_STAKE,
        }
    }
}

/// A validator elected into the next committee.
#[derive(Debug, Clone, Copy)]
pub struct ElectedValidator {
    /// Account address.
    pub address: AccountAddress,
    /// Effective stake.
    pub effective_stake: u64,
    /// Position in the committee.
    pub committee_index: u32,
}

/// A successful election.
#[derive(Debug, Clone)]
pub struct ElectionResult {
    /// Epoch that the committee is elected for.
    pub for_epoch: EpochNumber,
    /// Epoch of the snapshot.
    pub snapshot_epoch: EpochNumber,
    /// The elected validators, in rank order.
    pub elected: Vec<ElectedValidator>,
    /// Their total effective stake.
    pub total_effective_stake: u64,
}

/// When and how the committee is rotated.
#[derive(Debug, Clone, Copy)]
pub struct CommitteeRotationPolicy {
    /// Thresholds of each election.
    pub election: ElectionPolicy,
    /// Number of epochs between elections; zero counts as one.
    pub election_epoch_interval: u64,
    /// Smallest reputation score of a candidate.
    pub min_reputation_score: ReputationScore,
    /// Whether slashed validators are left out.
    pub exclude_slashed: bool,
}

impl Default for CommitteeRotationPolicy {
    fn default() -> (r: Self)
        ensures
            r.election.max_committee_size == 0,
            r.election.min_committee_size == MIN_COMMITTEE_SIZE,
            r.election.min_total_effective_stake == MIN_TOTAL_EFFECTIVE_STAKE,
            r.election_epoch_interval == 1,
            r.min_reputation_score.0 == 0,
            r.exclude_slashed,
    {
        CommitteeRotationPolicy {
            election: ElectionPolicy::default(),
            election_epoch_interval: 1,
            min_reputation_score: ReputationScore::zero(),
            exclude_slashed: true,
        }
    }
}

impl CommitteeRotationPolicy {
    /// The default policy with another interval between elections.
    pub fn with_interval(interval: u64) -> (r: Self)
        ensures
            r.election_epoch_interval == if interval == 0 {
                1
            } else {
                interval
            },
            r.election.max_committee_size == 0,
            r.election.min_committee_size == MIN_COMMITTEE_SIZE,
            r.election.min_total_effective_stake == MIN_TOTAL_EFFECTIVE_STAKE,
            r.min_reputation_score.0 == 0,
            r.exclude_slashed,
    {
        let mut policy = CommitteeRotationPolicy::default();
        policy.election_epoch_interval = if interval == 0 {
            1
        } else {
            interval
        };
        policy
    }
}

/// Outcome of a rotation attempt at an epoch boundary.
#[derive(Debug)]
pub enum RotationOutcome {
    /// A new committee was elected.
    Elected(ElectionResult),
    /// The epoch is no election boundary: the committee stays.
    NotElectionEpoch,
    /// The election failed: the committee stays.
    Fallback {
        /// Why it failed.
        reason: StakingSnapshotError,
    },
}

/// An election result as it is kept in storage.
#[derive(Debug, Clone)]
pub struct PersistedElectionResult {
    /// Epoch that the committee is elected for.
    pub for_epoch: EpochNumber,
    /// Epoch of the snapshot.
    pub snapshot_epoch: EpochNumber,
    /// The elected validators, in rank order.
    pub elected: Vec<ElectedValidator>,
    /// Their total effective stake.
    pub total_effective_stake: u64,
    /// Whether the committee was carried forward instead of elected.
    pub is_fallback: bool,
}

impl PersistedElectionResult {
    /// The stored form of a real election.
    pub fn from(result: &ElectionResult) -> (r: Self)
        ensures
            r.for_epoch == result.for_epoch,
            r.snapshot_epoch == result.snapshot_epoch,
            r.elected@ == result.elected@,
            r.total_effective_stake == result.total_effective_stake,
            !r.is_fallback,
    {
        let elected = result.elected.clone();
        assert(elected@ =~= result.elected@);
        PersistedElectionResult {
            for_epoch: result.for_epoch,
            snapshot_epoch: result.snapshot_epoch,
            elected,
            total_effective_stake: result.total_effective_stake,
            is_fallback: false,
        }
    }
}

/// Whether an epoch opens with an election: it is not the genesis epoch, and
/// the interval divides it.
pub open spec fn election_boundary(next_epoch: EpochNumber, interval: u64) -> bool {
    next_epoch.0 != 0 && next_epoch.0 % (if interval == 0 {
        1
    } else {
        interval
    }) == 0
}

/// Whether an election takes place when `next_epoch` begins.
pub fn is_election_boundary(next_epoch: EpochNumber, interval: u64) -> (r: bool)
    ensures
        r == election_boundary(next_epoch, interval),
{
    let interval: u64 = if interval == 0 {
        1
    } else {
        interval
    };
    if next_epoch.0 == 0 {
        return false;
    }
    next_epoch.0 % interval == 0
}

/// Whether a record is a candidate: active, with enough stake.
pub open spec fn eligible(r: ValidatorStakeRecord) -> bool {
    r.status == 0 && r.stake() >= MIN_ELIGIBLE_STAKE
}

/// Whether a record is a candidate under a rotation policy, which may also
/// leave out slashed validators and those of low reputation.
pub open spec fn eligible_under(policy: CommitteeRotationPolicy, r: ValidatorStakeRecord) -> bool {
    &&& eligible(r)
    &&& !(policy.exclude_slashed && r.is_slashed)
    &&& r.reputation.0 >= policy.min_reputation_score.0
}

/// Whether `a` ranks strictly before `b`: it has more stake, or as much and
/// the lower address.
pub open spec fn ranks_before(a: ValidatorStakeRecord, b: ValidatorStakeRecord) -> bool {
    a.stake() > b.stake() || (a.stake() == b.stake() && lex_lt(a.address@, b.address@))
}

/// `sorted` with `r` put behind every record that does not rank after it.
pub open spec fn insert_ranked(
    sorted: Seq<ValidatorStakeRecord>,
    r: ValidatorStakeRecord,
) -> Seq<ValidatorStakeRecord>
    decreases sorted.len(),
{
    if sorted.len() > 0 && ranks_before(r, sorted.last()) {
        insert_ranked(sorted.drop_last(), r).push(sorted.last())
    } else {
        sorted.push(r)
    }
}

/// The records in rank order; records of equal rank keep their order.
pub open spec fn ranked(records: Seq<ValidatorStakeRecord>) -> Seq<ValidatorStakeRecord>
    decreases records.len(),
{
    if records.len() == 0 {
        records
    } else {
        insert_ranked(ranked(records.drop_last()), records.last())
    }
}

/// The first `max` records, or all if `max` is zero.
pub open spec fn seats(sorted: Seq<ValidatorStakeRecord>, max: nat) -> Seq<ValidatorStakeRecord> {
    if 0 < max < sorted.len() {
        sorted.take(max as int)
    } else {
        sorted
    }
}

/// The sum of the effective stakes.
pub open spec fn total_stake(records: Seq<ValidatorStakeRecord>) -> int
    decreases records.len(),
{
    if records.len() == 0 {
        0
    } else {
        total_stake(records.drop_last()) + records.last().stake()
    }
}

/// The records that a vector of references points to.
pub open spec fn targets(v: Seq<&ValidatorStakeRecord>) -> Seq<ValidatorStakeRecord> {
    v.map_values(|r: &ValidatorStakeRecord| *r)
}

/// What a vector of elected validators says of the records in `chosen`: their
/// addresses and stakes, numbered from zero.
pub open spec fn seated(elected: Seq<ElectedValidator>, chosen: Seq<ValidatorStakeRecord>) -> bool {
    &&& elected.len() == chosen.len()
    &&& forall|i: int|
        0 <= i < chosen.len() ==> {
            &&& (#[trigger] elected[i]).address == chosen[i].address
            &&& elected[i].effective_stake == chosen[i].stake()
            &&& elected[i].committee_index == i as u32
        }
}

/// Whether `r` is the outcome of the election among the candidates `chosen`
/// that fit the committee.
pub open spec fn election_outcome(
    chosen: Seq<ValidatorStakeRecord>,
    policy: ElectionPolicy,
    snapshot_epoch: EpochNumber,
    for_epoch: EpochNumber,
    r: Result<ElectionResult, StakingSnapshotError>,
) -> bool {
    if chosen.len() < policy.min_committee_size {
        r == Err::<ElectionResult, StakingSnapshotError>(
            StakingSnapshotError::InsufficientValidators {
                found: chosen.len() as usize,
                required: policy.min_committee_size,
            },
        )
    } else if total_stake(chosen) < policy.min_total_effective_stake {
        r == Err::<ElectionResult, StakingSnapshotError>(
            StakingSnapshotError::InsufficientTotalStake {
                total: total_stake(chosen) as u64,
                required: policy.min_total_effective_stake,
            },
        )
    } else {
        &&& r is Ok
        &&& r->Ok_0.for_epoch == for_epoch
        &&& r->Ok_0.snapshot_epoch == snapshot_epoch
        &&& r->Ok_0.total_effective_stake == total_stake(chosen)
        &&& seated(r->Ok_0.elected@, chosen)
    }
}

impl StakingSnapshot {
    /// The candidates in rank order.
    pub open spec fn ranking(&self) -> Seq<ValidatorStakeRecord> {
        ranked(self.records@.filter(|r: ValidatorStakeRecord| eligible(r)))
    }

    /// The candidates under a rotation policy, in rank order.
    pub open spec fn ranking_under(&self, policy: CommitteeRotationPolicy) -> Seq<ValidatorStakeRecord> {
        ranked(self.records@.filter(|r: ValidatorStakeRecord| eligible_under(policy, r)))
    }

    /// A snapshot of the given records.
    pub fn new(captured_at_epoch: EpochNumber, records: Vec<ValidatorStakeRecord>) -> (r: Self)
        ensures
            r.captured_at_epoch == captured_at_epoch,
            r.records == records,
    {
        StakingSnapshot { captured_at_epoch, records }
    }

    /// The candidates, in the order of the records.
    pub fn eligible_candidates(&self) -> (r: Vec<&ValidatorStakeRecord>)
        ensures
            targets(r@) == self.records@.filter(|r: ValidatorStakeRecord| eligible(r)),
    {
        let ghost pred = |r: ValidatorStakeRecord| eligible(r);
        let mut out: Vec<&ValidatorStakeRecord> = Vec::new();
        let mut i: usize = 0;
        proof {
            lemma_filter_start(self.records@, pred);
            assert(targets(out@) =~= self.records@.take(0).filter(pred));
        }
        while i < self.records.len()
            invariant
                0 <= i <= self.records@.len(),
                pred == (|r: ValidatorStakeRecord| eligible(r)),
                targets(out@) == self.records@.take(i as int).filter(pred),
            decreases self.records@.len() - i,
        {
            let record = &self.records[i];
            proof {
                lemma_filter_step(self.records@, pred, i as int);
            }
            if record.is_active() && record.effective_stake() >= MIN_ELIGIBLE_STAKE {
                let ghost before = out@;
                out.push(record);
                assert(targets(out@) =~= targets(before).push(*record));
            }
            i = i + 1;
        }
        assert(self.records@.take(i as int) =~= self.records@);
        out
    }

    /// The candidates under a rotation policy, in the order of the records.
    pub fn eligible_candidates_with_policy<'a>(&'a self, policy: &CommitteeRotationPolicy) -> (r: Vec<
        &'a ValidatorStakeRecord,
    >)
        ensures
            targets(r@) == self.records@.filter(|r: ValidatorStakeRecord| eligible_under(*policy, r)),
    {
        let ghost pred = |r: ValidatorStakeRecord| eligible_under(*policy, r);
        let mut out: Vec<&'a ValidatorStakeRecord> = Vec::new();
        let mut i: usize = 0;
        proof {
            lemma_filter_start(self.records@, pred);
            assert(targets(out@) =~= self.records@.take(0).filter(pred));
        }
        while i < self.records.len()
            invariant
                0 <= i <= self.records@.len(),
                pred == (|r: ValidatorStakeRecord| eligible_under(*policy, r)),
                targets(out@) == self.records@.take(i as int).filter(pred),
            decreases self.records@.len() - i,
        {
            let record = &self.records[i];
            proof {
                lemma_filter_step(self.records@, pred, i as int);
            }
            if record.is_active() && record.effective_stake() >= MIN_ELIGIBLE_STAKE && !(
            policy.exclude_slashed && record.is_slashed) && record.reputation.0
                >= policy.min_reputation_score.0 {
                let ghost before = out@;
                out.push(record);
                assert(targets(out@) =~= targets(before).push(*record));
            }
            i = i + 1;
        }
        assert(self.records@.take(i as int) =~= self.records@);
        out
    }

    /// The candidates under a rotation policy, in rank order.
    pub fn sorted_candidates_with_policy(&self, policy: &CommitteeRotationPolicy) -> (r: Vec<
        &ValidatorStakeRecord,
    >)
        ensures
            targets(r@) == self.ranking_under(*policy),
    {
        sort_by_rank(self.eligible_candidates_with_policy(policy))
    }

    /// The candidates, in rank order.
    pub fn sorted_candidates(&self) -> (r: Vec<&ValidatorStakeRecord>)
        ensures
            targets(r@) == self.ranking(),
    {
        sort_by_rank(self.eligible_candidates())
    }
}

proof fn lemma_filter_start(s: Seq<ValidatorStakeRecord>, pred: spec_fn(ValidatorStakeRecord) -> bool)
    ensures
        s.take(0).filter(pred) =~= Seq::<ValidatorStakeRecord>::empty(),
{
    reveal(Seq::filter);
}

proof fn lemma_filter_step(
    s: Seq<ValidatorStakeRecord>,
    pred: spec_fn(ValidatorStakeRecord) -> bool,
    i: int,
)
    requires
        0 <= i < s.len(),
    ensures
        s.take(i + 1).filter(pred) == if pred(s[i]) {
            s.take(i).filter(pred).push(s[i])
        } else {
            s.take(i).filter(pred)
        },
{
    reveal(Seq::filter);
    assert(s.take(i + 1).drop_last() =~= s.take(i));
}

/// Whether `a` ranks strictly before `b`.
fn rank_is_before(a: &ValidatorStakeRecord, b: &ValidatorStakeRecord) -> (r: bool)
    ensures
        r == ranks_before(*a, *b),
{
    let left: u64 = a.effective_stake();
    let right: u64 = b.effective_stake();
    if left != right {
        left > right
    } else {
        match lex_compare(a.address.0.as_slice(), b.address.0.as_slice()) {
            Order::Less => true,
            _ => false,
        }
    }
}

/// How `insert_ranked` splits: `k` records stay in front, none of the others
/// does not rank after `r`.
proof fn lemma_insert_position(sorted: Seq<ValidatorStakeRecord>, r: ValidatorStakeRecord, k: int)
    requires
        0 <= k <= sorted.len(),
        k == 0 || !ranks_before(r, sorted[k - 1]),
        forall|j: int| k <= j < sorted.len() ==> ranks_before(r, #[trigger] sorted[j]),
    ensures
        insert_ranked(sorted, r) == sorted.insert(k, r),
    decreases sorted.len(),
{
    if k == sorted.len() {
        assert(sorted.insert(k, r) =~= sorted.push(r));
    } else {
        let rest = sorted.drop_last();
        lemma_insert_position(rest, r, k);
        assert(sorted.insert(k, r) =~= rest.insert(k, r).push(sorted.last()));
    }
}

/// Puts references into rank order; those of equal rank keep their order.
fn sort_by_rank<'a>(candidates: Vec<&'a ValidatorStakeRecord>) -> (r: Vec<&'a ValidatorStakeRecord>)
    ensures
        targets(r@) == ranked(targets(candidates@)),
{
    let mut out: Vec<&'a ValidatorStakeRecord> = Vec::new();
    let mut i: usize = 0;
    assert(targets(candidates@).take(0) =~= Seq::<ValidatorStakeRecord>::empty());
    assert(targets(out@) =~= ranked(targets(candidates@).take(0)));
    while i < candidates.len()
        invariant
            0 <= i <= candidates@.len(),
            targets(out@) == ranked(targets(candidates@).take(i as int)),
        decreases candidates@.len() - i,
    {
        let record = candidates[i];
        let mut k: usize = out.len();
        let mut placed: bool = false;
        while k > 0 && !placed
            invariant
                0 <= k <= out@.len(),
                placed ==> k > 0 && !ranks_before(*record, *out@[k - 1]),
                forall|j: int| k <= j < out@.len() ==> ranks_before(*record, *#[trigger] out@[j]),
            decreases k + (if placed {
                0int
            } else {
                1int
            }),
        {
            if rank_is_before(record, out[k - 1]) {
                k = k - 1;
            } else {
                placed = true;
            }
        }
        let ghost before = out@;
        out.insert(k, record);
        proof {
            assert forall|j: int| k <= j < targets(before).len() implies ranks_before(
                *record,
                #[trigger] targets(before)[j],
            ) by {
                assert(ranks_before(*record, *before[j]));
            }
            lemma_insert_position(targets(before), *record, k as int);
            assert(targets(out@) =~= targets(before).insert(k as int, *record));
            assert(targets(candidates@).take(i + 1).drop_last() =~= targets(candidates@).take(
                i as int,
            ));
        }
        i = i + 1;
    }
    assert(targets(candidates@).take(i as int) =~= targets(candidates@));
    out
}

proof fn lemma_total_stake_monotone(records: Seq<ValidatorStakeRecord>, i: int)
    requires
        0 <= i <= records.len(),
    ensures
        0 <= total_stake(records.take(i)) <= total_stake(records),
    decreases records.len(),
{
    if i == records.len() {
        assert(records.take(i) =~= records);
        if i > 0 {
            lemma_total_stake_monotone(records.drop_last(), i - 1);
            assert(records.drop_last().take(i - 1) =~= records.drop_last());
        }
    } else {
        lemma_total_stake_monotone(records.drop_last(), i);
        assert(records.drop_last().take(i) =~= records.take(i));
    }
}

/// Runs the election among candidates in rank order.
fn elect_from(
    sorted: Vec<&ValidatorStakeRecord>,
    policy: &ElectionPolicy,
    snapshot_epoch: EpochNumber,
    for_epoch: EpochNumber,
) -> (r: Result<ElectionResult, StakingSnapshotError>)
    requires
        ({
            let chosen = seats(targets(sorted@), policy.max_committee_size as nat);
            chosen.len() >= policy.min_committee_size ==> total_stake(chosen) <= u64::MAX
        }),
    ensures
        election_outcome(
            seats(targets(sorted@), policy.max_committee_size as nat),
            *policy,
            snapshot_epoch,
            for_epoch,
            r,
        ),
{
    let ghost chosen = seats(targets(sorted@), policy.max_committee_size as nat);
    let count: usize = if policy.max_committee_size > 0 && policy.max_committee_size < sorted.len() {
        policy.max_committee_size
    } else {
        sorted.len()
    };
    if count < policy.min_committee_size {
        return Err(
            StakingSnapshotError::InsufficientValidators {
                found: count,
                required: policy.min_committee_size,
            },
        );
    }
    let mut total: u64 = 0;
    let mut elected: Vec<ElectedValidator> = Vec::new();
    let mut i: usize = 0;
    assert(chosen.take(0) =~= Seq::<ValidatorStakeRecord>::empty());
    while i < count
        invariant
            0 <= i <= count,
            count == chosen.len(),
            count <= sorted@.len(),
            forall|j: int| 0 <= j < count ==> chosen[j] == *sorted@[j],
            total_stake(chosen) <= u64::MAX,
            total == total_stake(chosen.take(i as int)),
            seated(elected@, chosen.take(i as int)),
        decreases count - i,
    {
        let record = sorted[i];
        let stake: u64 = record.effective_stake();
        proof {
            lemma_total_stake_monotone(chosen, i + 1);
            assert(chosen.take(i + 1).drop_last() =~= chosen.take(i as int));
        }
        total = total + stake;
        elected.push(
            ElectedValidator {
                address: record.address,
                effective_stake: stake,
                committee_index: i as u32,
            },
        );
        i = i + 1;
    }
    assert(chosen.take(i as int) =~= chosen);
    if total < policy.min_total_effective_stake {
        return Err(
            StakingSnapshotError::InsufficientTotalStake {
                total,
                required: policy.min_total_effective_stake,
            },
        );
    }
    Ok(ElectionResult { for_epoch, snapshot_epoch, elected, total_effective_stake: total })
}

/// Elects a committee from a snapshot. The stake of the committee has to fit
/// the range of an amount.
pub fn elect_committee(
    snapshot: &StakingSnapshot,
    policy: &ElectionPolicy,
    for_epoch: EpochNumber,
) -> (r: Result<ElectionResult, StakingSnapshotError>)
    requires
        ({
            let chosen = seats(snapshot.ranking(), policy.max_committee_size as nat);
            chosen.len() >= policy.min_committee_size ==> total_stake(chosen) <= u64::MAX
        }),
    ensures
        election_outcome(
            seats(snapshot.ranking(), policy.max_committee_size as nat),
            *policy,
            snapshot.captured_at_epoch,
            for_epoch,
            r,
        ),
{
    elect_from(snapshot.sorted_candidates(), policy, snapshot.captured_at_epoch, for_epoch)
}

/// Elects a committee from a snapshot under a rotation policy. The stake of
/// the committee has to fit the range of an amount.
pub fn elect_committee_with_policy(
    snapshot: &StakingSnapshot,
    policy: &CommitteeRotationPolicy,
    for_epoch: EpochNumber,
) -> (r: Result<ElectionResult, StakingSnapshotError>)
    requires
        ({
            let chosen = seats(
                snapshot.ranking_under(*policy),
                policy.election.max_committee_size as nat,
            );
            chosen.len() >= policy.election.min_committee_size ==> total_stake(chosen) <= u64::MAX
        }),
    ensures
        election_outcome(
            seats(snapshot.ranking_under(*policy), policy.election.max_committee_size as nat),
            policy.election,
            snapshot.captured_at_epoch,
            for_epoch,
            r,
        ),
{
    elect_from(
        snapshot.sorted_candidates_with_policy(policy),
        &policy.election,
        snapshot.captured_at_epoch,
        for_epoch,
    )
}

/// Rotates the committee when `next_epoch` begins: an election at a boundary,
/// a fallback where the election fails or there is no snapshot, and nothing
/// elsewhere.
pub fn attempt_rotation(
    snapshot: Option<&StakingSnapshot>,
    policy: &CommitteeRotationPolicy,
    next_epoch: EpochNumber,
) -> (r: RotationOutcome)
    requires
        election_boundary(next_epoch, policy.election_epoch_interval) && snapshot is Some ==> ({
            let chosen = seats(
                snapshot->Some_0.ranking_under(*policy),
                policy.election.max_committee_size as nat,
            );
            chosen.len() >= policy.election.min_committee_size ==> total_stake(chosen) <= u64::MAX
        }),
    ensures
        !election_boundary(next_epoch, policy.election_epoch_interval) <==> r is NotElectionEpoch,
        election_boundary(next_epoch, policy.election_epoch_interval) ==> match snapshot {
            None => r == (RotationOutcome::Fallback {
                reason: StakingSnapshotError::InsufficientValidators {
                    found: 0,
                    required: policy.election.min_committee_size,
                },
            }),
            Some(s) => election_outcome(
                seats(s.ranking_under(*policy), policy.election.max_committee_size as nat),
                policy.election,
                s.captured_at_epoch,
                next_epoch,
                match r {
                    RotationOutcome::Elected(result) => Ok(result),
                    RotationOutcome::Fallback { reason } => Err(reason),
                    RotationOutcome::NotElectionEpoch => arbitrary(),
                },
            ),
        },
{
    if !is_election_boundary(next_epoch, policy.election_epoch_interval) {
        return RotationOutcome::NotElectionEpoch;
    }
    match snapshot {
        None => RotationOutcome::Fallback {
            reason: StakingSnapshotError::InsufficientValidators {
                found: 0,
                required: policy.election.min_committee_size,
            },
        },
        Some(s) => match elect_committee_with_policy(s, policy, next_epoch) {
            Ok(result) => RotationOutcome::Elected(result),
            Err(reason) => RotationOutcome::Fallback { reason },
        },
    }
}

/// The error for a validator whose public key is not known.
pub open spec fn missing_key_text(address: Seq<u8>) -> Seq<char> {
    "missing public key for validator "@ + hex_encode(address)
}

/// Whether `info` describes the elected validator `ev` with the public key
/// `key`: no slashing, the highest reputation and no shard.
pub open spec fn info_of(ev: ElectedValidator, key: Seq<u8>, info: ValidatorInfo) -> bool {
    &&& info.index == ValidatorIndex(ev.committee_index)
    &&& info.falcon_pub_key@ == key
    &&& info.stake == Amount(ev.effective_stake)
    &&& info.reputation == ReputationScore(10_000)
    &&& !info.is_slashed
    &&& info.shard_id is None
}

/// The committee member for an elected validator with a known public key.
fn member_of(ev: &ElectedValidator, key: Vec<u8>) -> (r: ValidatorInfo)
    ensures
        info_of(*ev, key@, r),
{
    ValidatorInfo {
        index: ValidatorIndex(ev.committee_index),
        falcon_pub_key: key,
        stake: Amount(ev.effective_stake),
        reputation: ReputationScore::default(),
        is_slashed: false,
        shard_id: None,
    }
}

/// Whether `info` describes the elected validator `ev` with a key that
/// `key_lookup` gave for its address.
pub open spec fn looked_up<K: Fn(&AccountAddress) -> Option<Vec<u8>>>(
    key_lookup: K,
    ev: ElectedValidator,
    info: ValidatorInfo,
) -> bool {
    exists|key: Vec<u8>| #[trigger]
        key_lookup.ensures((&ev.address,), Some(key)) && info_of(ev, key@, info)
}

/// Whether `key_lookup` gave a key for the elected validator `ev`.
pub open spec fn key_found<K: Fn(&AccountAddress) -> Option<Vec<u8>>>(
    key_lookup: K,
    ev: ElectedValidator,
) -> bool {
    exists|key: Vec<u8>| #[trigger] key_lookup.ensures((&ev.address,), Some(key))
}

/// Whether the elected validator at position `k` is the first for whom
/// `key_lookup` gave no key.
pub open spec fn key_missing<K: Fn(&AccountAddress) -> Option<Vec<u8>>>(
    key_lookup: K,
    result: ElectionResult,
    k: int,
) -> bool {
    &&& 0 <= k < result.elected@.len()
    &&& forall|j: int| 0 <= j < k ==> key_found(key_lookup, #[trigger] result.elected@[j])
    &&& key_lookup.ensures((&result.elected@[k].address,), None)
}

/// Whether `members` describes the elected validators, each with a key that
/// `key_lookup` gave, and `build` made `outcome` of them.
pub open spec fn built_from<C, K: Fn(&AccountAddress) -> Option<Vec<u8>>, B: Fn(
    EpochNumber,
    Vec<ValidatorInfo>,
) -> Result<C, String>>(
    key_lookup: K,
    build: B,
    result: ElectionResult,
    members: Vec<ValidatorInfo>,
    outcome: Result<C, String>,
) -> bool {
    &&& members@.len() == result.elected@.len()
    &&& forall|i: int|
        0 <= i < members@.len() ==> looked_up(key_lookup, result.elected@[i], #[trigger] members@[i])
    &&& build.ensures((result.for_epoch, members), outcome)
}

/// Builds a committee from an election result. `key_lookup` finds the public
/// key of an address; `build` makes the committee of an epoch from its
/// members, or says why it cannot.
pub fn election_to_committee<C, K: Fn(&AccountAddress) -> Option<Vec<u8>>, B: Fn(
    EpochNumber,
    Vec<ValidatorInfo>,
) -> Result<C, String>>(result: &ElectionResult, key_lookup: K, build: B) -> (r: Result<
    C,
    StakingSnapshotError,
>)
    requires
        forall|a: &AccountAddress| key_lookup.requires((a,)),
        forall|e: EpochNumber, v: Vec<ValidatorInfo>| build.requires((e, v)),
    ensures
        r is Ok ==> exists|members: Vec<ValidatorInfo>, outcome: Result<C, String>|
            {
                &&& #[trigger] built_from(key_lookup, build, *result, members, outcome)
                &&& outcome is Ok
                &&& outcome->Ok_0 == r->Ok_0
            },
        r is Err ==> r->Err_0 is CommitteeConstruction && ({
            ||| exists|k: int| #[trigger]
                key_missing(key_lookup, *result, k) && r->Err_0->CommitteeConstruction_0@
                    == missing_key_text(result.elected@[k].address@)
            ||| exists|members: Vec<ValidatorInfo>, outcome: Result<C, String>|
                {
                    &&& #[trigger] built_from(key_lookup, build, *result, members, outcome)
                    &&& outcome is Err
                    &&& r->Err_0->CommitteeConstruction_0@ == "consensus error: "@
                        + outcome->Err_0@
                }
        }),
{
    let mut members: Vec<ValidatorInfo> = Vec::new();
    let mut i: usize = 0;
    while i < result.elected.len()
        invariant
            0 <= i <= result.elected@.len(),
            members@.len() == i,
            forall|a: &AccountAddress| key_lookup.requires((a,)),
            forall|j: int|
                0 <= j < i ==> looked_up(key_lookup, result.elected@[j], #[trigger] members@[j]),
        decreases result.elected@.len() - i,
    {
        let ev = &result.elected[i];
        match key_lookup(&ev.address) {
            None => {
                let text = join("missing public key for validator ", ev.address.to_hex().as_str());
                assert forall|j: int| 0 <= j < i implies key_found(
                    key_lookup,
                    #[trigger] result.elected@[j],
                ) by {
                    assert(looked_up(key_lookup, result.elected@[j], members@[j]));
                }
                assert(key_missing(key_lookup, *result, i as int));
                return Err(StakingSnapshotError::CommitteeConstruction(text));
            },
            Some(key) => {
                assert(key_lookup.ensures((&result.elected@[i as int].address,), Some(key)));
                let ghost k = key;
                members.push(member_of(ev, key));
                assert(info_of(result.elected@[i as int], k@, members@[i as int]));
            },
        }
        i = i + 1;
    }
    let ghost all = members;
    let outcome = build(result.for_epoch, members);
    assert(built_from(key_lookup, build, *result, all, outcome));
    match outcome {
        Ok(c) => Ok(c),
        Err(text) => {
            Err(
                StakingSnapshotError::CommitteeConstruction(
                    join("consensus error: ", text.as_str()),
                ),
            )
        },
    }
}

} // verus!
