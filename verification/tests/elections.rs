//! Staking snapshots, elections and committee rotation.

use nexus_node::node::consensus_types::ReputationScore;
use nexus_node::node::staking_snapshot::{
    attempt_rotation, elect_committee, elect_committee_with_policy,
    election_to_committee, is_election_boundary, CommitteeRotationPolicy, ElectedValidator,
    ElectionPolicy, ElectionResult, PersistedElectionResult, RotationOutcome, StakingSnapshot,
    StakingSnapshotError, ValidatorStakeRecord, MIN_TOTAL_EFFECTIVE_STAKE,
};
use nexus_node::primitives::address::AccountAddress;
use nexus_node::primitives::ids::EpochNumber;

fn low_reputation_record(b: u8, bonded: u64, basis_points: u16) -> ValidatorStakeRecord {
    ValidatorStakeRecord {
        address: addr(b),
        bonded,
        penalty_total: 0,
        status: 0,
        registered_epoch: 0,
        unbond_epoch: 0,
        is_slashed: false,
        reputation: ReputationScore::from_basis_points(basis_points),
    }
}

fn result_for(address: AccountAddress) -> ElectionResult {
    ElectionResult {
        for_epoch: EpochNumber(3),
        snapshot_epoch: EpochNumber(2),
        elected: vec![ElectedValidator {
            address,
            effective_stake: one_nxs(),
            committee_index: 0,
        }],
        total_effective_stake: one_nxs(),
    }
}

fn addr(b: u8) -> AccountAddress {
    AccountAddress([b; 32])
}

fn record(b: u8, bonded: u64, penalty: u64, status: u8) -> ValidatorStakeRecord {
    ValidatorStakeRecord {
        address: addr(b),
        bonded,
        penalty_total: penalty,
        status,
        registered_epoch: 0,
        unbond_epoch: 0,
        is_slashed: false,
        reputation: ReputationScore::default(),
    }
}

fn slashed_record(b: u8, bonded: u64, penalty: u64) -> ValidatorStakeRecord {
    ValidatorStakeRecord {
        address: addr(b),
        bonded,
        penalty_total: penalty,
        status: 0,
        registered_epoch: 0,
        unbond_epoch: 0,
        is_slashed: true,
        reputation: ReputationScore::default(),
    }
}

fn one_nxs() -> u64 {
    1_000_000_000
}

#[test]
fn effective_stake_calculation() {
    let r = record(1, 5 * one_nxs(), one_nxs(), 0);
    assert_eq!(r.effective_stake(), 4 * one_nxs());
}

#[test]
fn effective_stake_penalty_exceeds_bonded() {
    let r = record(1, one_nxs(), 2 * one_nxs(), 0);
    assert_eq!(r.effective_stake(), 0);
}

#[test]
fn eligible_candidates_filters_inactive() {
    let snap = StakingSnapshot::new(
        EpochNumber(5),
        vec![
            record(1, 2 * one_nxs(), 0, 0), // active, eligible
            record(2, 2 * one_nxs(), 0, 1), // unbonding — excluded
            record(3, 2 * one_nxs(), 0, 2), // withdrawn — excluded
            record(4, one_nxs() / 2, 0, 0), // active but below min — excluded
        ],
    );
    let eligible = snap.eligible_candidates();
    assert_eq!(eligible.len(), 1);
    assert_eq!(eligible[0].address, addr(1));
}

#[test]
fn sorted_candidates_deterministic_order() {
    let snap = StakingSnapshot::new(
        EpochNumber(1),
        vec![
            record(3, 5 * one_nxs(), 0, 0),
            record(1, 10 * one_nxs(), 0, 0),
            record(2, 5 * one_nxs(), 0, 0), // same stake as 3, lower address
        ],
    );

    let sorted = snap.sorted_candidates();
    assert_eq!(sorted.len(), 3);
    assert_eq!(sorted[0].address, addr(1));
    assert_eq!(sorted[1].address, addr(2));
    assert_eq!(sorted[2].address, addr(3));
}

#[test]
fn elect_committee_minimum_size_check() {
    let snap = StakingSnapshot::new(
        EpochNumber(1),
        vec![
            record(1, 2 * one_nxs(), 0, 0),
            record(2, 2 * one_nxs(), 0, 0),
        ],
    );
    let policy = ElectionPolicy::default();
    let result = elect_committee(&snap, &policy, EpochNumber(2));
    assert!(matches!(
        result,
        Err(StakingSnapshotError::InsufficientValidators { found: 2, .. })
    ));
}

#[test]
fn elect_committee_minimum_stake_check() {
    let snap = StakingSnapshot::new(
        EpochNumber(1),
        vec![
            record(1, one_nxs(), 0, 0),
            record(2, one_nxs(), 0, 0),
            record(3, one_nxs(), 0, 0),
            record(4, one_nxs(), 0, 0),
        ],
    );
    let policy = ElectionPolicy::default();
    let result = elect_committee(&snap, &policy, EpochNumber(2));
    assert!(result.is_ok());
    let er = result.unwrap();
    assert_eq!(er.elected.len(), 4);
    assert_eq!(er.total_effective_stake, 4 * one_nxs());
}

#[test]
fn elect_committee_respects_max_size() {
    let snap = StakingSnapshot::new(
        EpochNumber(1),
        vec![
            record(1, 10 * one_nxs(), 0, 0),
            record(2, 8 * one_nxs(), 0, 0),
            record(3, 6 * one_nxs(), 0, 0),
            record(4, 4 * one_nxs(), 0, 0),
            record(5, 2 * one_nxs(), 0, 0),
            record(6, one_nxs(), 0, 0),
        ],
    );
    let policy = ElectionPolicy {
        max_committee_size: 4,
        min_committee_size: 4,
        min_total_effective_stake: MIN_TOTAL_EFFECTIVE_STAKE,
    };
    let result = elect_committee(&snap, &policy, EpochNumber(2)).unwrap();
    assert_eq!(result.elected.len(), 4);
    assert_eq!(result.elected[0].address, addr(1));
    assert_eq!(result.elected[3].address, addr(4));
}

#[test]
fn elect_committee_penalty_reduces_rank() {
    let snap = StakingSnapshot::new(
        EpochNumber(1),
        vec![
            record(1, 10 * one_nxs(), 8 * one_nxs(), 0), // effective: 2 NXS
            record(2, 5 * one_nxs(), 0, 0),              // effective: 5 NXS
            record(3, 3 * one_nxs(), 0, 0),              // effective: 3 NXS
            record(4, 2 * one_nxs(), 0, 0),              // effective: 2 NXS
        ],
    );
    let policy = ElectionPolicy {
        max_committee_size: 0,
        min_committee_size: 4,
        min_total_effective_stake: 4 * one_nxs(),
    };
    let result = elect_committee(&snap, &policy, EpochNumber(2)).unwrap();

    assert_eq!(result.elected[0].address, addr(2));
    assert_eq!(result.elected[1].address, addr(3));
    assert_eq!(result.elected[2].address, addr(1));
    assert_eq!(result.elected[3].address, addr(4));
}

#[test]
fn election_result_indices_sequential() {
    let snap = StakingSnapshot::new(
        EpochNumber(0),
        vec![
            record(1, 3 * one_nxs(), 0, 0),
            record(2, 2 * one_nxs(), 0, 0),
            record(3, 4 * one_nxs(), 0, 0),
            record(4, one_nxs(), 0, 0),
        ],
    );
    let policy = ElectionPolicy::default();
    let result = elect_committee(&snap, &policy, EpochNumber(1)).unwrap();

    for (i, ev) in result.elected.iter().enumerate() {
        assert_eq!(ev.committee_index, i as u32);
    }
}

#[test]
fn is_election_boundary_interval_1() {
    assert!(!is_election_boundary(EpochNumber(0), 1));
    assert!(is_election_boundary(EpochNumber(1), 1));
    assert!(is_election_boundary(EpochNumber(2), 1));
    assert!(is_election_boundary(EpochNumber(100), 1));
}

#[test]
fn is_election_boundary_interval_3() {
    assert!(!is_election_boundary(EpochNumber(0), 3));
    assert!(!is_election_boundary(EpochNumber(1), 3));
    assert!(!is_election_boundary(EpochNumber(2), 3));
    assert!(is_election_boundary(EpochNumber(3), 3));
    assert!(!is_election_boundary(EpochNumber(4), 3));
    assert!(!is_election_boundary(EpochNumber(5), 3));
    assert!(is_election_boundary(EpochNumber(6), 3));
}

#[test]
fn is_election_boundary_interval_0_treated_as_1() {
    assert!(!is_election_boundary(EpochNumber(0), 0));
    assert!(is_election_boundary(EpochNumber(1), 0));
    assert!(is_election_boundary(EpochNumber(5), 0));
}

#[test]
fn rotation_policy_default() {
    let policy = CommitteeRotationPolicy::default();
    assert_eq!(policy.election_epoch_interval, 1);
    assert!(policy.exclude_slashed);
    assert_eq!(policy.min_reputation_score, ReputationScore::zero());
}

#[test]
fn rotation_policy_with_interval() {
    let policy = CommitteeRotationPolicy::with_interval(5);
    assert_eq!(policy.election_epoch_interval, 5);

    let policy0 = CommitteeRotationPolicy::with_interval(0);
    assert_eq!(policy0.election_epoch_interval, 1);
}

#[test]
fn attempt_rotation_not_election_epoch() {
    let policy = CommitteeRotationPolicy::with_interval(3);
    let outcome = attempt_rotation(None, &policy, EpochNumber(1));
    assert!(matches!(outcome, RotationOutcome::NotElectionEpoch));
}

#[test]
fn attempt_rotation_no_snapshot_falls_back() {
    let policy = CommitteeRotationPolicy::with_interval(1);
    let outcome = attempt_rotation(None, &policy, EpochNumber(1));
    assert!(matches!(outcome, RotationOutcome::Fallback { .. }));
}

#[test]
fn attempt_rotation_insufficient_validators_falls_back() {
    let snap = StakingSnapshot::new(
        EpochNumber(0),
        vec![
            record(1, 2 * one_nxs(), 0, 0),
            record(2, 2 * one_nxs(), 0, 0),
        ],
    );
    let policy = CommitteeRotationPolicy::default();
    let outcome = attempt_rotation(Some(&snap), &policy, EpochNumber(1));
    assert!(matches!(outcome, RotationOutcome::Fallback { .. }));
}

#[test]
fn attempt_rotation_successful_election() {
    let snap = StakingSnapshot::new(
        EpochNumber(0),
        vec![
            record(1, 3 * one_nxs(), 0, 0),
            record(2, 2 * one_nxs(), 0, 0),
            record(3, 4 * one_nxs(), 0, 0),
            record(4, one_nxs(), 0, 0),
        ],
    );
    let policy = CommitteeRotationPolicy::default();
    let outcome = attempt_rotation(Some(&snap), &policy, EpochNumber(1));
    match outcome {
        RotationOutcome::Elected(result) => {
            assert_eq!(result.for_epoch, EpochNumber(1));
            assert_eq!(result.elected.len(), 4);
            assert_eq!(result.elected[0].address, addr(3));
        }
        _ => panic!("expected Elected outcome"),
    }
}

#[test]
fn attempt_rotation_respects_interval() {
    let snap = StakingSnapshot::new(
        EpochNumber(0),
        vec![
            record(1, 3 * one_nxs(), 0, 0),
            record(2, 2 * one_nxs(), 0, 0),
            record(3, 4 * one_nxs(), 0, 0),
            record(4, one_nxs(), 0, 0),
        ],
    );
    let policy = CommitteeRotationPolicy::with_interval(5);

    for e in 1..5 {
        let outcome = attempt_rotation(Some(&snap), &policy, EpochNumber(e));
        assert!(
            matches!(outcome, RotationOutcome::NotElectionEpoch),
            "epoch {e} should not be an election boundary"
        );
    }

    let outcome = attempt_rotation(Some(&snap), &policy, EpochNumber(5));
    assert!(matches!(outcome, RotationOutcome::Elected(_)));
}

#[test]
fn slashed_validator_excluded_by_policy() {
    let snap = StakingSnapshot::new(
        EpochNumber(0),
        vec![
            record(1, 3 * one_nxs(), 0, 0),
            record(2, 2 * one_nxs(), 0, 0),
            slashed_record(3, 10 * one_nxs(), 0), // highest stake but slashed
            record(4, one_nxs(), 0, 0),
        ],
    );
    let policy = CommitteeRotationPolicy {
        exclude_slashed: true,
        ..Default::default()
    };
    let eligible = snap.eligible_candidates_with_policy(&policy);
    assert_eq!(eligible.len(), 3);
    assert!(eligible.iter().all(|r| r.address != addr(3)));
}

#[test]
fn slashed_validator_included_when_policy_allows() {
    let snap = StakingSnapshot::new(
        EpochNumber(0),
        vec![
            record(1, 3 * one_nxs(), 0, 0),
            record(2, 2 * one_nxs(), 0, 0),
            slashed_record(3, 10 * one_nxs(), 0),
            record(4, one_nxs(), 0, 0),
        ],
    );
    let policy = CommitteeRotationPolicy {
        exclude_slashed: false,
        ..Default::default()
    };
    let eligible = snap.eligible_candidates_with_policy(&policy);
    assert_eq!(eligible.len(), 4);
}

#[test]
fn low_reputation_validator_excluded_by_policy() {
    let snap = StakingSnapshot::new(
        EpochNumber(0),
        vec![
            record(1, 3 * one_nxs(), 0, 0),         // rep=MAX (default)
            record(2, 2 * one_nxs(), 0, 0),         // rep=MAX
            low_reputation_record(3, 10 * one_nxs(), 1_000), // low rep
            record(4, one_nxs(), 0, 0),
        ],
    );
    let policy = CommitteeRotationPolicy {
        min_reputation_score: ReputationScore::from_basis_points(5_000),
        ..Default::default()
    };
    let eligible = snap.eligible_candidates_with_policy(&policy);
    assert_eq!(eligible.len(), 3);
    assert!(eligible.iter().all(|r| r.address != addr(3)));
}

#[test]
fn elect_with_policy_excludes_slashed() {
    let snap = StakingSnapshot::new(
        EpochNumber(0),
        vec![
            record(1, 3 * one_nxs(), 0, 0),
            record(2, 2 * one_nxs(), 0, 0),
            slashed_record(3, 10 * one_nxs(), 0),
            record(4, one_nxs(), 0, 0),
            record(5, one_nxs(), 0, 0), // need 4 eligible after excluding 3
        ],
    );
    let policy = CommitteeRotationPolicy {
        exclude_slashed: true,
        ..Default::default()
    };
    let result = elect_committee_with_policy(&snap, &policy, EpochNumber(1)).unwrap();
    assert_eq!(result.elected.len(), 4);
    assert!(result.elected.iter().all(|e| e.address != addr(3)));
    assert_eq!(result.elected[0].address, addr(1));
}

#[test]
fn same_snapshot_same_election_result_across_calls() {
    let snap = StakingSnapshot::new(
        EpochNumber(5),
        vec![
            record(1, 3 * one_nxs(), 0, 0),
            record(2, 7 * one_nxs(), one_nxs(), 0),
            record(3, 4 * one_nxs(), 0, 0),
            record(4, one_nxs(), 0, 0),
        ],
    );
    let policy = ElectionPolicy::default();
    let r1 = elect_committee(&snap, &policy, EpochNumber(6)).unwrap();
    let r2 = elect_committee(&snap, &policy, EpochNumber(6)).unwrap();

    assert_eq!(r1.elected.len(), r2.elected.len());
    for (a, b) in r1.elected.iter().zip(r2.elected.iter()) {
        assert_eq!(a.address, b.address);
        assert_eq!(a.effective_stake, b.effective_stake);
        assert_eq!(a.committee_index, b.committee_index);
    }
    assert_eq!(r1.total_effective_stake, r2.total_effective_stake);
}

#[test]
fn tie_breaker_is_stable_across_insertion_order() {
    let records_order_a = vec![
        record(0xAA, 5 * one_nxs(), 0, 0),
        record(0xBB, 5 * one_nxs(), 0, 0),
        record(0xCC, 3 * one_nxs(), 0, 0),
        record(0xDD, 2 * one_nxs(), 0, 0),
    ];
    let records_order_b = vec![
        record(0xDD, 2 * one_nxs(), 0, 0),
        record(0xBB, 5 * one_nxs(), 0, 0),
        record(0xCC, 3 * one_nxs(), 0, 0),
        record(0xAA, 5 * one_nxs(), 0, 0),
    ];
    let snap_a = StakingSnapshot::new(EpochNumber(1), records_order_a);
    let snap_b = StakingSnapshot::new(EpochNumber(1), records_order_b);
    let policy = ElectionPolicy::default();

    let ra = elect_committee(&snap_a, &policy, EpochNumber(2)).unwrap();
    let rb = elect_committee(&snap_b, &policy, EpochNumber(2)).unwrap();

    for (a, b) in ra.elected.iter().zip(rb.elected.iter()) {
        assert_eq!(a.address, b.address, "tie-breaker must be stable");
        assert_eq!(a.committee_index, b.committee_index);
    }
}

#[test]
fn persisted_election_result_from_election() {
    let snap = StakingSnapshot::new(
        EpochNumber(0),
        vec![
            record(1, 3 * one_nxs(), 0, 0),
            record(2, 2 * one_nxs(), 0, 0),
            record(3, 4 * one_nxs(), 0, 0),
            record(4, one_nxs(), 0, 0),
        ],
    );
    let policy = ElectionPolicy::default();
    let result = elect_committee(&snap, &policy, EpochNumber(1)).unwrap();
    let persisted = PersistedElectionResult::from(&result);

    assert_eq!(persisted.for_epoch, EpochNumber(1));
    assert_eq!(persisted.snapshot_epoch, EpochNumber(0));
    assert_eq!(persisted.elected.len(), 4);
    assert_eq!(
        persisted.total_effective_stake,
        result.total_effective_stake
    );
    assert!(!persisted.is_fallback);
}

#[test]
fn is_active_returns_false_for_nonzero_status() {
    let r = record(1, one_nxs(), 0, 1); // status=1 → inactive
    assert!(!r.is_active());
}

#[test]
fn is_active_returns_true_for_zero_status() {
    let r = record(1, one_nxs(), 0, 0);
    assert!(r.is_active());
}

#[test]
fn eligible_candidates_with_policy_direct() {
    let snap = StakingSnapshot::new(
        EpochNumber(0),
        vec![
            record(1, 3 * one_nxs(), 0, 0),      // active, eligible
            slashed_record(2, 2 * one_nxs(), 0), // slashed
            record(3, 0, 0, 0),                  // zero effective stake → ineligible
        ],
    );
    let policy = CommitteeRotationPolicy {
        exclude_slashed: true,
        ..CommitteeRotationPolicy::default()
    };
    let candidates = snap.eligible_candidates_with_policy(&policy);
    assert_eq!(candidates.len(), 1);
    assert_eq!(candidates[0].address, addr(1));
}

#[test]
fn error_display_insufficient_validators() {
    let err = StakingSnapshotError::InsufficientValidators { found: 2, required: 4 };
    let msg = err.to_string();
    assert!(msg.contains("insufficient validators"), "{msg}");
    assert!(msg.contains("2"));
    assert!(msg.contains("4"));
}

#[test]
fn error_display_insufficient_total_stake() {
    let err = StakingSnapshotError::InsufficientTotalStake { total: 100, required: 1000 };
    let msg = err.to_string();
    assert!(msg.contains("insufficient total stake"), "{msg}");
    assert!(msg.contains("100"));
}

#[test]
fn error_display_committee_construction() {
    let err = StakingSnapshotError::CommitteeConstruction("test reason".to_owned());
    let msg = err.to_string();
    assert!(msg.contains("committee construction failed"), "{msg}");
    assert!(msg.contains("test reason"));
}

#[test]
fn persisted_election_is_not_fallback_by_default() {
    let snap = StakingSnapshot::new(
        EpochNumber(0),
        vec![
            record(1, 3 * one_nxs(), 0, 0),
            record(2, 2 * one_nxs(), 0, 0),
            record(3, 4 * one_nxs(), 0, 0),
            record(4, one_nxs(), 0, 0),
        ],
    );
    let policy = ElectionPolicy::default();
    let result = elect_committee(&snap, &policy, EpochNumber(1)).unwrap();
    let persisted = PersistedElectionResult::from(&result);
    assert!(!persisted.is_fallback);
}

#[test]
fn election_to_committee_success() {
    let key = vec![0x0f_u8; 897];
    let target = addr(7);
    let result = result_for(target);
    let committee = election_to_committee(
        &result,
        |a: &AccountAddress| if *a == target { Some(key.clone()) } else { None },
        |_epoch, members| Ok(members),
    )
    .expect("should build committee");
    assert_eq!(committee.len(), 1);
    assert_eq!(committee[0].falcon_pub_key, key);
    assert_eq!(committee[0].stake.0, one_nxs());
}

#[test]
fn election_to_committee_fails_on_missing_key() {
    let result = result_for(addr(9));
    let err = election_to_committee(
        &result,
        |_: &AccountAddress| None,
        |_epoch, members| Ok(members.len()),
    )
    .unwrap_err();
    assert!(
        matches!(err, StakingSnapshotError::CommitteeConstruction(_)),
        "expected CommitteeConstruction error"
    );
}

#[test]
fn election_to_committee_reports_what_the_builder_says() {
    let result = result_for(addr(9));
    let err = election_to_committee(
        &result,
        |_: &AccountAddress| Some(vec![1u8]),
        |_epoch, _members| Err::<(), String>("too small".to_owned()),
    )
    .unwrap_err();
    assert!(err.to_string().contains("too small"));
}

#[test]
fn committee_members_keep_the_order_of_the_election() {
    let mut result = result_for(addr(1));
    result.elected.push(ElectedValidator {
        address: addr(2),
        effective_stake: 5,
        committee_index: 1,
    });
    let members = election_to_committee(
        &result,
        |address: &AccountAddress| Some(vec![address.0[0]]),
        |_epoch, members| Ok(members),
    )
    .unwrap();
    assert_eq!(members.len(), 2);
    assert_eq!(members[0].index.0, 0);
    assert_eq!(members[1].index.0, 1);
    assert_eq!(members[1].falcon_pub_key, vec![2]);
    assert_eq!(members[1].stake.0, 5);
    assert!(!members[1].is_slashed);
}

#[test]
fn an_election_needs_enough_stake() {
    let snap = StakingSnapshot::new(
        EpochNumber(1),
        vec![
            record(1, one_nxs(), 0, 0),
            record(2, one_nxs(), 0, 0),
            record(3, one_nxs(), 0, 0),
            record(4, one_nxs(), 0, 0),
        ],
    );
    let policy = ElectionPolicy {
        max_committee_size: 0,
        min_committee_size: 4,
        min_total_effective_stake: 4 * one_nxs() + 1,
    };
    let err = elect_committee(&snap, &policy, EpochNumber(2)).unwrap_err();
    match err {
        StakingSnapshotError::InsufficientTotalStake { total, required } => {
            assert_eq!(total, 4 * one_nxs());
            assert_eq!(required, 4 * one_nxs() + 1);
        }
        _ => panic!("expected InsufficientTotalStake"),
    }
}

#[test]
fn rotation_ignores_the_order_of_the_records() {
    let mut records: Vec<ValidatorStakeRecord> =
        (1..=6).map(|b| record(b, (b as u64 % 3 + 1) * one_nxs(), 0, 0)).collect();
    let policy = CommitteeRotationPolicy::default();
    let elected = |records: &Vec<ValidatorStakeRecord>| {
        let snap = StakingSnapshot::new(EpochNumber(0), records.clone());
        match attempt_rotation(Some(&snap), &policy, EpochNumber(1)) {
            RotationOutcome::Elected(result) => {
                result.elected.iter().map(|e| e.address).collect::<Vec<_>>()
            }
            _ => panic!("expected an election"),
        }
    };
    let first = elected(&records);
    records.reverse();
    assert_eq!(first, elected(&records));
    assert_eq!(first[0], addr(2));
}

#[test]
fn a_policy_elects_among_those_that_it_lets_stand() {
    let all = vec![
        record(1, 3 * one_nxs(), 0, 0),
        slashed_record(3, 10 * one_nxs(), 0),
        record(2, 2 * one_nxs(), 0, 0),
        low_reputation_record(6, 9 * one_nxs(), 1_000),
        record(4, one_nxs(), 0, 0),
        record(5, one_nxs(), 0, 0),
        record(7, 4 * one_nxs(), 0, 0),
    ];
    let mut policy = CommitteeRotationPolicy {
        exclude_slashed: true,
        min_reputation_score: ReputationScore::from_basis_points(5_000),
        ..Default::default()
    };
    policy.election.max_committee_size = 4;
    let mut standing = all.clone();
    standing.retain(|r| !r.is_slashed && r.reputation.0 >= policy.min_reputation_score.0);
    assert_eq!(standing.len(), 5);
    let under_policy = elect_committee_with_policy(
        &StakingSnapshot::new(EpochNumber(2), all),
        &policy,
        EpochNumber(3),
    )
    .unwrap();
    let plain = elect_committee(
        &StakingSnapshot::new(EpochNumber(2), standing),
        &policy.election,
        EpochNumber(3),
    )
    .unwrap();
    assert_eq!(format!("{under_policy:?}"), format!("{plain:?}"));
    let elected: Vec<_> = under_policy.elected.iter().map(|e| e.address).collect();
    assert_eq!(elected, vec![addr(7), addr(1), addr(2), addr(4)]);
}
