//! Building the staking snapshot of an epoch boundary.
//!
//! Records come from the staking contract, under one storage key per
//! validator. Where the contract holds none, they are derived from the current
//! committee. Slashing and reputation come from the committee in both cases.

use vstd::prelude::*;
use vstd::string::*;

use crate::node::consensus_types::{ReputationScore, ValidatorInfo};
use crate::node::staking_snapshot::{StakingSnapshot, ValidatorStakeRecord};
use crate::node::validator_identity::{address_from_validator_index, index_address, ValidatorIdentityRegistry};
use crate::primitives::endian::{le_u64_at, le_value};
use crate::primitives::text::bytes_eq;
use crate::primitives::{AccountAddress, EpochNumber};

verus! {

/// The part of a staking resource key behind the account address: the module
/// address, then the names of the module and the struct, each behind its
/// length, and the number of type parameters.
pub open spec fn stake_resource_tag() -> Seq<u8> {
    Seq::new(30, |i: int| 0u8) + seq![0xCAu8, 0xFEu8, 7u8] + "staking".spec_bytes() + seq![14u8]
        + "ValidatorStake".spec_bytes() + seq![0u8]
}

/// The storage key of a validator's staking resource: the shard number, the
/// account address and the resource tag.
pub open spec fn stake_resource_key(addr: Seq<u8>) -> Seq<u8> {
    seq![0u8, 0u8, 0u8, 0u8] + addr + stake_resource_tag()
}

/// The storage key of a validator's staking resource.
pub fn build_staking_resource_key(addr: &AccountAddress) -> (r: Vec<u8>)
    ensures
        r@ == stake_resource_key(addr@),
{
    let mut key: Vec<u8> = vec![0u8, 0u8, 0u8, 0u8];
    key.extend_from_slice(addr.0.as_slice());
    let mut module: [u8; 32] = [0u8; 32];
    module[30] = 0xCA;
    module[31] = 0xFE;
    key.extend_from_slice(module.as_slice());
    key.push(7);
    key.extend_from_slice("staking".as_bytes());
    key.push(14);
    key.extend_from_slice("ValidatorStake".as_bytes());
    key.push(0);
    proof {
        let m = module@;
        assert(m =~= Seq::new(30, |i: int| 0u8) + seq![0xCAu8, 0xFEu8]);
        assert(key@ =~= stake_resource_key(addr@));
    }
    key
}

/// Different accounts have different staking resource keys.
pub proof fn law_resource_keys_differ(a: Seq<u8>, b: Seq<u8>)
    requires
        a.len() == 32,
        b.len() == 32,
        stake_resource_key(a) == stake_resource_key(b),
    ensures
        a == b,
{
    assert(stake_resource_key(a).subrange(4, 36) =~= a);
    assert(stake_resource_key(b).subrange(4, 36) =~= b);
}

/// Bytes of a staking resource.
pub const STAKE_RESOURCE_LEN: usize = 41;

/// The record in a staking resource of at least forty-one bytes: three
/// numbers and a status byte between them, the numbers little-endian.
pub open spec fn stake_record(addr: AccountAddress, data: Seq<u8>) -> ValidatorStakeRecord {
    ValidatorStakeRecord {
        address: addr,
        bonded: le_value(data.subrange(0, 8)) as u64,
        penalty_total: le_value(data.subrange(8, 16)) as u64,
        status: data[16],
        registered_epoch: le_value(data.subrange(17, 25)) as u64,
        unbond_epoch: le_value(data.subrange(25, 33)) as u64,
        is_slashed: false,
        reputation: ReputationScore(10_000),
    }
}

/// Reads a staking resource; `None` if it is too short.
pub fn parse_validator_stake_bcs(addr: &AccountAddress, data: &[u8]) -> (r: Option<
    ValidatorStakeRecord,
>)
    ensures
        r is Some <==> data@.len() >= STAKE_RESOURCE_LEN,
        r is Some ==> r->Some_0 == stake_record(*addr, data@),
{
    if data.len() < STAKE_RESOURCE_LEN {
        return None;
    }
    Some(
        ValidatorStakeRecord {
            address: *addr,
            bonded: le_u64_at(data, 0),
            penalty_total: le_u64_at(data, 8),
            status: data[16],
            registered_epoch: le_u64_at(data, 17),
            unbond_epoch: le_u64_at(data, 25),
            is_slashed: false,
            reputation: ReputationScore::default(),
        },
    )
}

/// The records of the first `n` accounts for which storage holds one.
pub open spec fn stored_records(
    accounts: Seq<AccountAddress>,
    values: Seq<Option<Vec<u8>>>,
    n: int,
) -> Seq<ValidatorStakeRecord>
    decreases n,
{
    if n <= 0 {
        Seq::empty()
    } else if values[n - 1] is Some && values[n - 1]->Some_0@.len() >= STAKE_RESOURCE_LEN {
        stored_records(accounts, values, n - 1).push(
            stake_record(accounts[n - 1], values[n - 1]->Some_0@),
        )
    } else {
        stored_records(accounts, values, n - 1)
    }
}

/// The snapshot of the staking contract, given what storage holds under the
/// staking key of each account; `None` if it holds no record.
pub fn try_read_on_chain_staking(
    accounts: &Vec<AccountAddress>,
    values: &Vec<Option<Vec<u8>>>,
    captured_at_epoch: EpochNumber,
) -> (r: Option<StakingSnapshot>)
    requires
        accounts@.len() == values@.len(),
    ensures
        ({
            let found = stored_records(accounts@, values@, accounts@.len() as int);
            &&& r is Some <==> found.len() > 0
            &&& r is Some ==> r->Some_0.records@ == found && r->Some_0.captured_at_epoch
                == captured_at_epoch
        }),
{
    let mut records: Vec<ValidatorStakeRecord> = Vec::new();
    let mut i: usize = 0;
    while i < accounts.len()
        invariant
            0 <= i <= accounts@.len(),
            accounts@.len() == values@.len(),
            records@ == stored_records(accounts@, values@, i as int),
        decreases accounts@.len() - i,
    {
        match &values[i] {
            Some(value) => match parse_validator_stake_bcs(&accounts[i], value.as_slice()) {
                Some(record) => {
                    records.push(record);
                },
                None => {},
            },
            None => {},
        }
        i = i + 1;
    }
    if records.len() == 0 {
        return None;
    }
    Some(StakingSnapshot::new(captured_at_epoch, records))
}

/// `r` with the slashing and reputation of the last of the first `n`
/// validators that has its address, if one has.
pub open spec fn enriched(r: ValidatorStakeRecord, validators: Seq<ValidatorInfo>, n: int) -> ValidatorStakeRecord
    decreases n,
{
    if n <= 0 {
        r
    } else if index_address(validators[n - 1].index) == r.address@ {
        ValidatorStakeRecord {
            is_slashed: validators[n - 1].is_slashed,
            reputation: validators[n - 1].reputation,
            ..r
        }
    } else {
        enriched(r, validators, n - 1)
    }
}

/// Adds the slashing and reputation of the current committee to a snapshot.
pub fn enrich_with_consensus_state(snapshot: StakingSnapshot, validators: &Vec<ValidatorInfo>) -> (r:
    StakingSnapshot)
    ensures
        r.captured_at_epoch == snapshot.captured_at_epoch,
        r.records@.len() == snapshot.records@.len(),
        forall|i: int|
            0 <= i < r.records@.len() ==> #[trigger] r.records@[i] == enriched(
                snapshot.records@[i],
                validators@,
                validators@.len() as int,
            ),
{
    let mut records: Vec<ValidatorStakeRecord> = Vec::new();
    let mut i: usize = 0;
    while i < snapshot.records.len()
        invariant
            0 <= i <= snapshot.records@.len(),
            records@.len() == i,
            forall|j: int|
                0 <= j < i ==> #[trigger] records@[j] == enriched(
                    snapshot.records@[j],
                    validators@,
                    validators@.len() as int,
                ),
        decreases snapshot.records@.len() - i,
    {
        let mut record = snapshot.records[i];
        let mut k: usize = validators.len();
        let mut done: bool = false;
        while k > 0 && !done
            invariant
                0 <= k <= validators@.len(),
                i < snapshot.records@.len(),
                !done ==> record == snapshot.records@[i as int],
                !done ==> enriched(
                    snapshot.records@[i as int],
                    validators@,
                    validators@.len() as int,
                ) == enriched(snapshot.records@[i as int], validators@, k as int),
                done ==> record == enriched(
                    snapshot.records@[i as int],
                    validators@,
                    validators@.len() as int,
                ),
            decreases k,
        {
            let v = &validators[k - 1];
            let addr = address_from_validator_index(v.index);
            if bytes_eq(addr.0.as_slice(), record.address.0.as_slice()) {
                record.is_slashed = v.is_slashed;
                record.reputation = v.reputation;
                done = true;
            }
            k = k - 1;
        }
        records.push(record);
        i = i + 1;
    }
    StakingSnapshot::new(snapshot.captured_at_epoch, records)
}

/// The record that stands in for a committee member without a staking
/// resource.
pub open spec fn committee_record(v: ValidatorInfo, r: ValidatorStakeRecord) -> bool {
    &&& r.address@ == index_address(v.index)
    &&& r.bonded == v.stake.0
    &&& r.penalty_total == 0
    &&& r.status == if v.is_slashed {
        2u8
    } else {
        0u8
    }
    &&& r.registered_epoch == 0
    &&& r.unbond_epoch == 0
    &&& r.is_slashed == v.is_slashed
    &&& r.reputation == v.reputation
}

/// The snapshot that is derived from the current committee alone.
fn snapshot_from_committee(epoch: EpochNumber, validators: &Vec<ValidatorInfo>) -> (r: StakingSnapshot)
    ensures
        r.captured_at_epoch == epoch,
        r.records@.len() == validators@.len(),
        forall|i: int|
            0 <= i < validators@.len() ==> committee_record(validators@[i], #[trigger] r.records@[i]),
{
    let mut records: Vec<ValidatorStakeRecord> = Vec::new();
    let mut i: usize = 0;
    while i < validators.len()
        invariant
            0 <= i <= validators@.len(),
            records@.len() == i,
            forall|j: int| 0 <= j < i ==> committee_record(validators@[j], #[trigger] records@[j]),
        decreases validators@.len() - i,
    {
        let v = &validators[i];
        records.push(
            ValidatorStakeRecord {
                address: address_from_validator_index(v.index),
                bonded: v.stake.0,
                penalty_total: 0,
                status: if v.is_slashed {
                    2
                } else {
                    0
                },
                registered_epoch: 0,
                unbond_epoch: 0,
                is_slashed: v.is_slashed,
                reputation: v.reputation,
            },
        );
        i = i + 1;
    }
    StakingSnapshot::new(epoch, records)
}

/// Whether `r` is the snapshot for the committee and what storage holds of the
/// accounts: none without a committee, the stored records with the committee's
/// slashing and reputation if there are any, else records of the committee.
pub open spec fn snapshot_outcome(
    epoch: EpochNumber,
    validators: Seq<ValidatorInfo>,
    accounts: Seq<AccountAddress>,
    values: Seq<Option<Vec<u8>>>,
    r: Option<StakingSnapshot>,
) -> bool {
    let found = stored_records(accounts, values, accounts.len() as int);
    if validators.len() == 0 {
        r is None
    } else if found.len() > 0 {
        &&& r is Some
        &&& r->Some_0.captured_at_epoch == epoch
        &&& r->Some_0.records@.len() == found.len()
        &&& forall|i: int|
            0 <= i < found.len() ==> #[trigger] r->Some_0.records@[i] == enriched(
                found[i],
                validators,
                validators.len() as int,
            )
    } else {
        &&& r is Some
        &&& r->Some_0.captured_at_epoch == epoch
        &&& r->Some_0.records@.len() == validators.len()
        &&& forall|i: int|
            0 <= i < validators.len() ==> committee_record(
                validators[i],
                #[trigger] r->Some_0.records@[i],
            )
    }
}

/// Builds the snapshot from the committee and the stored values of the
/// accounts.
pub fn snapshot_from_values(
    epoch: EpochNumber,
    validators: &Vec<ValidatorInfo>,
    accounts: &Vec<AccountAddress>,
    values: &Vec<Option<Vec<u8>>>,
) -> (r: Option<StakingSnapshot>)
    requires
        accounts@.len() == values@.len(),
    ensures
        snapshot_outcome(epoch, validators@, accounts@, values@, r),
{
    if validators.len() == 0 {
        return None;
    }
    match try_read_on_chain_staking(accounts, values, epoch) {
        Some(snapshot) => Some(enrich_with_consensus_state(snapshot, validators)),
        None => Some(snapshot_from_committee(epoch, validators)),
    }
}

/// Whether `values` are what `read` gave for the staking keys of the first `n`
/// accounts.
pub open spec fn read_values<F: Fn(&Vec<u8>) -> Option<Vec<u8>>>(
    read: F,
    accounts: Seq<AccountAddress>,
    values: Seq<Option<Vec<u8>>>,
) -> bool {
    &&& values.len() == accounts.len()
    &&& forall|i: int| 0 <= i < values.len() ==> read_value(read, accounts[i], #[trigger] values[i])
}

/// Whether `read` gave `value` for the staking key of an account.
pub open spec fn read_value<F: Fn(&Vec<u8>) -> Option<Vec<u8>>>(
    read: F,
    account: AccountAddress,
    value: Option<Vec<u8>>,
) -> bool {
    exists|key: Vec<u8>| #[trigger]
        read.ensures((&key,), value) && key@ == stake_resource_key(account@)
}

/// Builds the snapshot of the current epoch. `read` gives what storage holds
/// under a key; it is asked for the staking key of every registered validator.
pub fn snapshot_from_engine_and_state<F: Fn(&Vec<u8>) -> Option<Vec<u8>>>(
    epoch: EpochNumber,
    validators: &Vec<ValidatorInfo>,
    registry: &ValidatorIdentityRegistry,
    read: F,
) -> (r: Option<StakingSnapshot>)
    requires
        registry.wf(),
        forall|k: &Vec<u8>| read.requires((k,)),
    ensures
        exists|accounts: Seq<AccountAddress>, values: Seq<Option<Vec<u8>>>|
            {
                &&& accounts.len() == registry.size()
                &&& forall|i: int|
                    0 <= i < accounts.len() ==> (#[trigger] accounts[i])@ == registry.address_in_order(i)
                &&& #[trigger] read_values(read, accounts, values)
                &&& snapshot_outcome(epoch, validators@, accounts, values, r)
            },
{
    let entries = registry.all_entries();
    let mut accounts: Vec<AccountAddress> = Vec::new();
    let mut values: Vec<Option<Vec<u8>>> = Vec::new();
    let mut i: usize = 0;
    while i < entries.len()
        invariant
            0 <= i <= entries@.len(),
            entries@.len() == registry.size(),
            forall|j: int|
                0 <= j < entries@.len() ==> (#[trigger] entries@[j]).0@ == registry.address_in_order(j),
            accounts@.len() == i,
            values@.len() == i,
            forall|j: int| 0 <= j < i ==> (#[trigger] accounts@[j])@ == registry.address_in_order(j),
            forall|j: int| 0 <= j < i ==> read_value(read, accounts@[j], #[trigger] values@[j]),
            forall|k: &Vec<u8>| read.requires((k,)),
        decreases entries@.len() - i,
    {
        let addr = entries[i].0;
        let key = build_staking_resource_key(&addr);
        let value = read(&key);
        assert(read_value(read, addr, value)) by {
            assert(read.ensures((&key,), value));
        }
        accounts.push(addr);
        values.push(value);
        i = i + 1;
    }
    assert(read_values(read, accounts@, values@));
    snapshot_from_values(epoch, validators, &accounts, &values)
}

} // verus!
