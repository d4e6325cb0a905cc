//! Where staking snapshots come from, and whose manifests are believed.

use vstd::prelude::*;
use vstd::string::*;

use crate::node::consensus_types::ValidatorInfo;
use crate::node::snapshot_provider::{
    build_staking_resource_key, enrich_with_consensus_state, enriched, parse_validator_stake_bcs,
    read_value, read_values, snapshot_from_engine_and_state, snapshot_from_values, snapshot_outcome,
    stake_record, stake_resource_key, stored_records, try_read_on_chain_staking,
};
use crate::node::snapshot_signing::{
    carries, form_checked, is_payload, payload_judged, sign_manifest, signature_made,
    signature_verified, verdict_of, verify_manifest, verify_snapshot_file, SnapshotManifest,
    SnapshotSignError,
};
use crate::node::staking_snapshot::{StakingSnapshot, ValidatorStakeRecord};
use crate::node::validator_identity::{
    address_from_validator_index, index_address, ValidatorIdentityRegistry,
};
use crate::primitives::endian::{be_bytes, le_value};
use crate::primitives::{AccountAddress, EpochNumber, ValidatorIndex};

verus! {

/// The number in the eight bytes from a place on, the least significant first.
pub open spec fn number_at(data: Seq<u8>, at: int) -> int {
    data[at] + 0x100 * data[at + 1] + 0x1_0000 * data[at + 2] + 0x100_0000 * data[at + 3]
        + 0x1_0000_0000 * data[at + 4] + 0x100_0000_0000 * data[at + 5] + 0x1_0000_0000_0000
        * data[at + 6] + 0x100_0000_0000_0000 * data[at + 7]
}

proof fn lemma_number_at(data: Seq<u8>, at: int)
    requires
        0 <= at,
        at + 8 <= data.len(),
    ensures
        le_value(data.subrange(at, at + 8)) == number_at(data, at),
        0 <= number_at(data, at) <= u64::MAX,
{
    reveal_with_fuel(le_value, 9);
    let s = data.subrange(at, at + 8);
    assert(s.drop_first() =~= data.subrange(at + 1, at + 8));
    assert(data.subrange(at + 1, at + 8).drop_first() =~= data.subrange(at + 2, at + 8));
    assert(data.subrange(at + 2, at + 8).drop_first() =~= data.subrange(at + 3, at + 8));
    assert(data.subrange(at + 3, at + 8).drop_first() =~= data.subrange(at + 4, at + 8));
    assert(data.subrange(at + 4, at + 8).drop_first() =~= data.subrange(at + 5, at + 8));
    assert(data.subrange(at + 5, at + 8).drop_first() =~= data.subrange(at + 6, at + 8));
    assert(data.subrange(at + 6, at + 8).drop_first() =~= data.subrange(at + 7, at + 8));
}

/// Whether stored bytes are those of a stake: two amounts, a status, two epochs
/// and what follows them.
pub open spec fn holds_stake(value: Option<Vec<u8>>) -> bool {
    value is Some && value->Some_0@.len() >= 41
}

/// Whether a record says what the stored bytes say of an account's stake.
pub open spec fn tells_of_stake(
    record: ValidatorStakeRecord,
    account: AccountAddress,
    data: Seq<u8>,
) -> bool {
    &&& record.address == account
    &&& record.bonded == number_at(data, 0)
    &&& record.penalty_total == number_at(data, 8)
    &&& record.status == data[16]
    &&& record.registered_epoch == number_at(data, 17)
    &&& record.unbond_epoch == number_at(data, 25)
}

proof fn lemma_stake_record(account: AccountAddress, data: Seq<u8>)
    requires
        data.len() >= 41,
    ensures
        tells_of_stake(stake_record(account, data), account, data),
        !stake_record(account, data).is_slashed,
        stake_record(account, data).reputation.0 == 10_000,
{
    lemma_number_at(data, 0);
    lemma_number_at(data, 8);
    lemma_number_at(data, 17);
    lemma_number_at(data, 25);
}

/// A stake is read part by part from the bytes of the staking contract, and is
/// not read from fewer bytes than it takes.
pub proof fn law_stakes_are_read_part_by_part(
    account: AccountAddress,
    data: &[u8],
    r: Option<ValidatorStakeRecord>,
)
    requires
        call_ensures(parse_validator_stake_bcs, (&account, data), r),
    ensures
        r is Some <==> data@.len() >= 41,
        r is Some ==> tells_of_stake(r->Some_0, account, data@) && !r->Some_0.is_slashed
            && r->Some_0.reputation.0 == 10_000,
{
    if data@.len() >= 41 {
        lemma_stake_record(account, data@);
    }
}

/// The stake of an account is stored by the staking contract at that account,
/// in the first shard.
pub proof fn law_stakes_are_stored_by_account(account: AccountAddress, r: Vec<u8>)
    requires
        call_ensures(build_staking_resource_key, (&account,), r),
    ensures
        is_stake_key(r@, account),
{
}

/// Whether a storage key is that of an account's stake.
pub open spec fn is_stake_key(key: Seq<u8>, account: AccountAddress) -> bool {
    key == seq![0u8, 0u8, 0u8, 0u8] + account.0@ + (Seq::new(30, |i: int| 0u8) + seq![
        0xCAu8,
        0xFEu8,
        7u8,
    ] + "staking".spec_bytes() + seq![14u8] + "ValidatorStake".spec_bytes() + seq![0u8])
}

/// Whether the places are those of the accounts with a stored stake, each once
/// and in their order.
pub open spec fn are_places_of_stakes(places: Seq<int>, values: Seq<Option<Vec<u8>>>) -> bool {
    &&& forall|k: int|
        0 <= k < places.len() ==> 0 <= #[trigger] places[k] < values.len() && holds_stake(
            values[places[k]],
        )
    &&& forall|j: int, k: int| 0 <= j < k < places.len() ==> places[j] < places[k]
    &&& forall|i: int|
        0 <= i < values.len() && holds_stake(#[trigger] values[i]) ==> places.contains(i)
}

proof fn lemma_stored_records(
    accounts: Seq<AccountAddress>,
    values: Seq<Option<Vec<u8>>>,
    n: int,
) -> (places: Seq<int>)
    requires
        0 <= n <= values.len(),
        accounts.len() == values.len(),
    ensures
        are_places_of_stakes(places, values.take(n)),
        stored_records(accounts, values, n).len() == places.len(),
        forall|k: int|
            0 <= k < places.len() ==> #[trigger] stored_records(accounts, values, n)[k]
                == stake_record(accounts[places[k]], values[places[k]]->Some_0@),
    decreases n,
{
    if n == 0 {
        Seq::empty()
    } else {
        let earlier = lemma_stored_records(accounts, values, n - 1);
        let before = values.take(n - 1);
        let after = values.take(n);
        assert forall|i: int| 0 <= i < n - 1 implies #[trigger] before[i] == after[i] by {}
        if holds_stake(values[n - 1]) {
            let places = earlier.push(n - 1);
            assert forall|k: int| 0 <= k < places.len() implies 0 <= #[trigger] places[k]
                < after.len() && holds_stake(after[places[k]]) by {
                if k < earlier.len() {
                    assert(places[k] == earlier[k]);
                    assert(before[earlier[k]] == after[earlier[k]]);
                }
            }
            assert forall|i: int|
                0 <= i < after.len() && holds_stake(#[trigger] after[i]) implies places.contains(
                i,
            ) by {
                if i < n - 1 {
                    assert(before[i] == after[i]);
                    let k = choose|k: int| 0 <= k < earlier.len() && earlier[k] == i;
                    assert(places[k] == i);
                } else {
                    assert(places[earlier.len() as int] == i);
                }
            }
            places
        } else {
            assert forall|k: int| 0 <= k < earlier.len() implies 0 <= #[trigger] earlier[k]
                < after.len() && holds_stake(after[earlier[k]]) by {
                assert(before[earlier[k]] == after[earlier[k]]);
            }
            assert forall|i: int|
                0 <= i < after.len() && holds_stake(#[trigger] after[i]) implies earlier.contains(
                i,
            ) by {
                assert(i < n - 1);
                assert(before[i] == after[i]);
            }
            earlier
        }
    }
}

/// The stored stakes make up the snapshot: one record for every account that
/// has one, in the order of the accounts, and no snapshot where none has.
pub proof fn law_stored_stakes_make_the_snapshot(
    accounts: Vec<AccountAddress>,
    values: Vec<Option<Vec<u8>>>,
    epoch: EpochNumber,
    r: Option<StakingSnapshot>,
)
    requires
        accounts@.len() == values@.len(),
        call_ensures(try_read_on_chain_staking, (&accounts, &values, epoch), r),
    ensures
        r is Some <==> exists|i: int| 0 <= i < values@.len() && holds_stake(#[trigger] values@[i]),
        r is Some ==> r->Some_0.captured_at_epoch == epoch,
        r is Some ==> exists|places: Seq<int>|
            {
                &&& #[trigger] are_places_of_stakes(places, values@)
                &&& r->Some_0.records@.len() == places.len()
                &&& forall|k: int|
                    0 <= k < places.len() ==> tells_of_stake(
                        #[trigger] r->Some_0.records@[k],
                        accounts@[places[k]],
                        values@[places[k]]->Some_0@,
                    )
            },
{
    let places = lemma_stored_records(accounts@, values@, values@.len() as int);
    assert(values@.take(values@.len() as int) =~= values@);
    assert forall|k: int| 0 <= k < places.len() implies tells_of_stake(
        #[trigger] stored_records(accounts@, values@, values@.len() as int)[k],
        accounts@[places[k]],
        values@[places[k]]->Some_0@,
    ) by {
        lemma_stake_record(accounts@[places[k]], values@[places[k]]->Some_0@);
    }
    if r is Some {
        assert(holds_stake(values@[places[0]]));
    }
    if exists|i: int| 0 <= i < values@.len() && holds_stake(#[trigger] values@[i]) {
        let i = choose|i: int| 0 <= i < values@.len() && holds_stake(#[trigger] values@[i]);
        assert(places.contains(i));
    }
}

/// Whether an address is the one that stands for a validator index: zeros, and
/// the index in the last four bytes, the most significant first.
pub open spec fn stands_for(address: Seq<u8>, index: ValidatorIndex) -> bool {
    &&& address.len() == 32
    &&& forall|i: int| 0 <= i < 28 ==> #[trigger] address[i] == 0
    &&& index.0 == 0x100_0000 * address[28] + 0x1_0000 * address[29] + 0x100 * address[30]
        + address[31]
}

/// One address stands for an index, and no other.
pub proof fn lemma_index_address(index: ValidatorIndex)
    ensures
        stands_for(index_address(index), index),
        forall|address: Seq<u8>| #[trigger]
            stands_for(address, index) ==> address == index_address(index),
{
    reveal_with_fuel(be_bytes, 5);
    let n = index.0 as nat;
    let tail = be_bytes(n, 4);
    assert(tail.len() == 4);
    assert(tail[3] == (n % 256) as u8);
    assert(tail[2] == ((n / 256) % 256) as u8);
    assert(tail[1] == ((n / 256 / 256) % 256) as u8);
    assert(tail[0] == ((n / 256 / 256 / 256) % 256) as u8);
    let a = index_address(index);
    assert(a[28] == tail[0] && a[29] == tail[1] && a[30] == tail[2] && a[31] == tail[3]);
    assert forall|address: Seq<u8>| #[trigger] stands_for(address, index) implies address
        == index_address(index) by {
        assert(address =~= a);
    }
}

/// The address of a validator is the one that stands for its index.
pub proof fn law_addresses_stand_for_indices(index: ValidatorIndex, r: AccountAddress)
    requires
        call_ensures(address_from_validator_index, (index,), r),
    ensures
        stands_for(r.0@, index),
{
    lemma_index_address(index);
}

/// Whether a record is the earlier one with what consensus knows of the
/// validator: the last one of the committee at the record's address decides,
/// and without one the record stays as it was.
pub open spec fn is_updated(
    after: ValidatorStakeRecord,
    before: ValidatorStakeRecord,
    committee: Seq<ValidatorInfo>,
) -> bool {
    &&& after.address == before.address
    &&& after.bonded == before.bonded
    &&& after.penalty_total == before.penalty_total
    &&& after.status == before.status
    &&& after.registered_epoch == before.registered_epoch
    &&& after.unbond_epoch == before.unbond_epoch
    &&& forall|j: int|
        0 <= j < committee.len() && stands_for(
            before.address.0@,
            (#[trigger] committee[j]).index,
        ) && (forall|k: int|
            j < k < committee.len() ==> !stands_for(
                before.address.0@,
                (#[trigger] committee[k]).index,
            )) ==> after.is_slashed == committee[j].is_slashed && after.reputation
            == committee[j].reputation
    &&& (forall|k: int|
        0 <= k < committee.len() ==> !stands_for(
            before.address.0@,
            (#[trigger] committee[k]).index,
        )) ==> after.is_slashed == before.is_slashed && after.reputation == before.reputation
}

proof fn lemma_enriched(record: ValidatorStakeRecord, committee: Seq<ValidatorInfo>, n: int)
    requires
        0 <= n <= committee.len(),
    ensures
        is_updated(enriched(record, committee, n), record, committee.take(n)),
    decreases n,
{
    if n > 0 {
        lemma_enriched(record, committee, n - 1);
        let last = committee[n - 1];
        lemma_index_address(last.index);
        let earlier = committee.take(n - 1);
        let seen = committee.take(n);
        assert(seen[n - 1] == last);
        assert forall|k: int| 0 <= k < n - 1 implies #[trigger] earlier[k] == seen[k] by {}
        let after = enriched(record, committee, n);
        if stands_for(record.address.0@, last.index) {
            assert forall|j: int|
                0 <= j < seen.len() && stands_for(record.address.0@, (#[trigger] seen[j]).index) && (
                forall|k: int|
                    j < k < seen.len() ==> !stands_for(
                        record.address.0@,
                        (#[trigger] seen[k]).index,
                    )) implies after.is_slashed == seen[j].is_slashed && after.reputation
                == seen[j].reputation by {
                if j < n - 1 {
                    assert(!stands_for(record.address.0@, seen[n - 1].index));
                }
            }
        } else {
            assert forall|j: int|
                0 <= j < seen.len() && stands_for(record.address.0@, (#[trigger] seen[j]).index) && (
                forall|k: int|
                    j < k < seen.len() ==> !stands_for(
                        record.address.0@,
                        (#[trigger] seen[k]).index,
                    )) implies after.is_slashed == seen[j].is_slashed && after.reputation
                == seen[j].reputation by {
                assert(j < n - 1);
                assert(earlier[j] == seen[j]);
                assert forall|k: int| j < k < earlier.len() implies !stands_for(
                    record.address.0@,
                    (#[trigger] earlier[k]).index,
                ) by {
                    assert(earlier[k] == seen[k]);
                }
            }
            if forall|k: int|
                0 <= k < seen.len() ==> !stands_for(
                    record.address.0@,
                    (#[trigger] seen[k]).index,
                ) {
                assert forall|k: int| 0 <= k < earlier.len() implies !stands_for(
                    record.address.0@,
                    (#[trigger] earlier[k]).index,
                ) by {
                    assert(earlier[k] == seen[k]);
                }
            }
        }
    }
}

/// Slashing and reputation come from the committee, and nothing else of the
/// snapshot changes.
pub proof fn law_consensus_decides_on_slashing(
    snapshot: StakingSnapshot,
    committee: Vec<ValidatorInfo>,
    r: StakingSnapshot,
)
    requires
        call_ensures(enrich_with_consensus_state, (snapshot, &committee), r),
    ensures
        r.captured_at_epoch == snapshot.captured_at_epoch,
        r.records@.len() == snapshot.records@.len(),
        forall|i: int|
            0 <= i < r.records@.len() ==> is_updated(
                #[trigger] r.records@[i],
                snapshot.records@[i],
                committee@,
            ),
{
    assert(committee@.take(committee@.len() as int) =~= committee@);
    assert forall|i: int| 0 <= i < r.records@.len() implies is_updated(
        #[trigger] r.records@[i],
        snapshot.records@[i],
        committee@,
    ) by {
        lemma_enriched(snapshot.records@[i], committee@, committee@.len() as int);
    }
}

/// Whether a record says of a member of the committee what consensus knows:
/// its whole stake is bonded, and only a slashed member is not active.
pub open spec fn tells_of_member(record: ValidatorStakeRecord, member: ValidatorInfo) -> bool {
    &&& stands_for(record.address.0@, member.index)
    &&& record.bonded == member.stake.0
    &&& record.penalty_total == 0
    &&& record.status == 0 <==> !member.is_slashed
    &&& record.status == 2 <==> member.is_slashed
    &&& record.registered_epoch == 0
    &&& record.unbond_epoch == 0
    &&& record.is_slashed == member.is_slashed
    &&& record.reputation == member.reputation
}

/// Whether a record tells of an account's stored stake and of what consensus
/// knows of the validator.
pub open spec fn tells_of_both(
    record: ValidatorStakeRecord,
    account: AccountAddress,
    data: Seq<u8>,
    committee: Seq<ValidatorInfo>,
) -> bool {
    &&& tells_of_stake(record, account, data)
    &&& forall|j: int|
        0 <= j < committee.len() && stands_for(account.0@, (#[trigger] committee[j]).index) && (
        forall|k: int|
            j < k < committee.len() ==> !stands_for(account.0@, (#[trigger] committee[k]).index))
            ==> record.is_slashed == committee[j].is_slashed && record.reputation
            == committee[j].reputation
    &&& (forall|k: int|
        0 <= k < committee.len() ==> !stands_for(account.0@, (#[trigger] committee[k]).index))
        ==> !record.is_slashed && record.reputation.0 == 10_000
}

/// Whether a snapshot is the one of an epoch: of the stored stakes where there
/// are any, of the committee where there are none, and there is no snapshot of
/// an empty committee.
pub open spec fn is_snapshot_of(
    r: Option<StakingSnapshot>,
    epoch: EpochNumber,
    committee: Seq<ValidatorInfo>,
    accounts: Seq<AccountAddress>,
    values: Seq<Option<Vec<u8>>>,
) -> bool {
    &&& r is None <==> committee.len() == 0
    &&& r is Some ==> r->Some_0.captured_at_epoch == epoch
    &&& r is Some && (exists|i: int|
        0 <= i < values.len() && holds_stake(#[trigger] values[i])) ==> exists|places: Seq<int>|
        {
            &&& #[trigger] are_places_of_stakes(places, values)
            &&& r->Some_0.records@.len() == places.len()
            &&& forall|k: int|
                0 <= k < places.len() ==> tells_of_both(
                    #[trigger] r->Some_0.records@[k],
                    accounts[places[k]],
                    values[places[k]]->Some_0@,
                    committee,
                )
        }
    &&& r is Some && !(exists|i: int|
        0 <= i < values.len() && holds_stake(#[trigger] values[i])) ==> {
        &&& r->Some_0.records@.len() == committee.len()
        &&& forall|i: int|
            0 <= i < committee.len() ==> tells_of_member(
                #[trigger] r->Some_0.records@[i],
                committee[i],
            )
    }
}

proof fn lemma_snapshot(
    r: Option<StakingSnapshot>,
    epoch: EpochNumber,
    committee: Seq<ValidatorInfo>,
    accounts: Seq<AccountAddress>,
    values: Seq<Option<Vec<u8>>>,
)
    requires
        accounts.len() == values.len(),
        snapshot_outcome(epoch, committee, accounts, values, r),
    ensures
        is_snapshot_of(r, epoch, committee, accounts, values),
{
    let found = stored_records(accounts, values, accounts.len() as int);
    let places = lemma_stored_records(accounts, values, values.len() as int);
    assert(values.take(values.len() as int) =~= values);
    assert(committee.take(committee.len() as int) =~= committee);
    if committee.len() > 0 {
        if found.len() > 0 {
            assert(holds_stake(values[places[0]]));
            assert forall|k: int| 0 <= k < places.len() implies tells_of_both(
                #[trigger] r->Some_0.records@[k],
                accounts[places[k]],
                values[places[k]]->Some_0@,
                committee,
            ) by {
                lemma_stake_record(accounts[places[k]], values[places[k]]->Some_0@);
                lemma_enriched(found[k], committee, committee.len() as int);
            }
        } else {
            assert forall|i: int| 0 <= i < values.len() implies !holds_stake(
                #[trigger] values[i],
            ) by {
                if holds_stake(values[i]) {
                    assert(places.contains(i));
                }
            }
            assert forall|i: int| 0 <= i < committee.len() implies tells_of_member(
                #[trigger] r->Some_0.records@[i],
                committee[i],
            ) by {
                lemma_index_address(committee[i].index);
            }
        }
    }
}

/// A snapshot comes of what is stored, and else of the committee.
pub proof fn law_snapshots_come_of_storage_or_committee(
    epoch: EpochNumber,
    committee: Vec<ValidatorInfo>,
    accounts: Vec<AccountAddress>,
    values: Vec<Option<Vec<u8>>>,
    r: Option<StakingSnapshot>,
)
    requires
        accounts@.len() == values@.len(),
        call_ensures(snapshot_from_values, (epoch, &committee, &accounts, &values), r),
    ensures
        is_snapshot_of(r, epoch, committee@, accounts@, values@),
{
    lemma_snapshot(r, epoch, committee@, accounts@, values@);
}

/// Whether a value was read from storage as an account's stake.
pub open spec fn was_read<F: Fn(&Vec<u8>) -> Option<Vec<u8>>>(
    read: F,
    account: AccountAddress,
    value: Option<Vec<u8>>,
) -> bool {
    exists|key: Vec<u8>| #[trigger] read.ensures((&key,), value) && is_stake_key(key@, account)
}

/// Whether the values are the stored stakes of these accounts.
pub open spec fn were_read<F: Fn(&Vec<u8>) -> Option<Vec<u8>>>(
    read: F,
    entries: Seq<(AccountAddress, Vec<u8>)>,
    accounts: Seq<AccountAddress>,
    values: Seq<Option<Vec<u8>>>,
) -> bool {
    &&& accounts.len() == entries.len()
    &&& values.len() == entries.len()
    &&& forall|i: int|
        0 <= i < entries.len() ==> {
            &&& (#[trigger] accounts[i]).0@ == entries[i].0.0@
            &&& was_read(read, accounts[i], values[i])
        }
}

/// The stored stakes of a snapshot are those of all registered validators, read
/// from where the staking contract stores them.
pub proof fn law_snapshots_are_of_the_registered<F: Fn(&Vec<u8>) -> Option<Vec<u8>>>(
    epoch: EpochNumber,
    committee: Vec<ValidatorInfo>,
    registry: ValidatorIdentityRegistry,
    entries: Vec<(AccountAddress, Vec<u8>)>,
    read: F,
    r: Option<StakingSnapshot>,
)
    requires
        call_ensures(ValidatorIdentityRegistry::all_entries, (&registry,), entries),
        call_ensures(
            snapshot_from_engine_and_state::<F>,
            (epoch, &committee, &registry, read),
            r,
        ),
    ensures
        exists|accounts: Seq<AccountAddress>, values: Seq<Option<Vec<u8>>>|
            {
                &&& #[trigger] were_read(read, entries@, accounts, values)
                &&& is_snapshot_of(r, epoch, committee@, accounts, values)
            },
{
    let (accounts, values) = choose|
        accounts: Seq<AccountAddress>,
        values: Seq<Option<Vec<u8>>>,
    |
        {
            &&& accounts.len() == registry.size()
            &&& forall|i: int|
                0 <= i < accounts.len() ==> (#[trigger] accounts[i])@ == registry.address_in_order(i)
            &&& #[trigger] read_values(read, accounts, values)
            &&& snapshot_outcome(epoch, committee@, accounts, values, r)
        };
    lemma_snapshot(r, epoch, committee@, accounts, values);
    assert forall|i: int| 0 <= i < entries@.len() implies {
        &&& (#[trigger] accounts[i]).0@ == entries@[i].0.0@
        &&& was_read(read, accounts[i], values[i])
    } by {
        assert(accounts[i]@ == registry.address_in_order(i));
        assert(entries@[i].0@ == registry.address_in_order(i));
        assert(read_value(read, accounts[i], values[i]));
        let key = choose|key: Vec<u8>| #[trigger]
            read.ensures((&key,), values[i]) && key@
                == stake_resource_key(accounts[i]@);
        assert(read.ensures((&key,), values[i]));
        assert(is_stake_key(key@, accounts[i]));
    }
    assert(were_read(read, entries@, accounts, values));
}

/// Signing changes nothing but the signature, the signer's key and the scheme,
/// and it is the unsigned manifest that is signed.
pub proof fn law_manifests_are_signed_as_they_were<
    B: Fn(&SnapshotManifest) -> Vec<u8>,
    S: Fn(&Vec<u8>) -> Vec<u8>,
>(manifest: &mut SnapshotManifest, public_key: Vec<u8>, signable: B, sign: S)
    requires
        call_ensures(sign_manifest::<B, S>, (manifest, &public_key, &signable, &sign), ()),
    ensures
        final(manifest).version == old(manifest).version,
        final(manifest).block_height == old(manifest).block_height,
        final(manifest).entry_count == old(manifest).entry_count,
        final(manifest).total_bytes == old(manifest).total_bytes,
        final(manifest).content_hash == old(manifest).content_hash,
        final(manifest).chain_id == old(manifest).chain_id,
        final(manifest).epoch == old(manifest).epoch,
        final(manifest).created_at_ms == old(manifest).created_at_ms,
        final(manifest).previous_manifest_hash == old(manifest).previous_manifest_hash,
        final(manifest).signer_public_key is Some,
        final(manifest).signer_public_key->Some_0@ == public_key@,
        final(manifest).signature_scheme is Some,
        final(manifest).signature_scheme->Some_0@ == "falcon-512"@,
        final(manifest).signature is Some,
        exists|payload: Vec<u8>, signature: Vec<u8>|
            {
                &&& signable.ensures((&*old(manifest),), payload)
                &&& #[trigger] sign.ensures((&payload,), signature)
                &&& final(manifest).signature->Some_0@ == signature@
            },
{
    let (payload, signature) = choose|payload: Vec<u8>, signature: Vec<u8>|
        {
            &&& is_payload(signable, *old(manifest), payload)
            &&& #[trigger] signature_made(sign, payload, signature)
            &&& carries(*final(manifest), signature@, public_key@)
        };
    assert(sign.ensures((&payload,), signature));
}

/// Whether the signature of a manifest was found good.
pub open spec fn found_good<
    B: Fn(&SnapshotManifest) -> Vec<u8>,
    V: Fn(&Vec<u8>, &Vec<u8>) -> Result<(), String>,
>(manifest: SnapshotManifest, signable: B, verify: V) -> bool {
    exists|payload: Vec<u8>, outcome: Result<(), String>|
        {
            &&& signable.ensures((&manifest,), payload)
            &&& #[trigger] verify.ensures((&payload, &manifest.signature->Some_0), outcome)
            &&& outcome is Ok
        }
}

/// Whether a manifest bears all that a signature of the trusted key takes.
pub open spec fn names_trusted_signer(manifest: SnapshotManifest, trusted_key: Seq<u8>) -> bool {
    &&& manifest.signature is Some
    &&& manifest.signature_scheme is Some
    &&& manifest.signature_scheme->Some_0@ == "falcon-512"@
    &&& manifest.signer_public_key is Some
    &&& manifest.signer_public_key->Some_0@ == trusted_key
}

/// A manifest is believed only where the trusted key signed it: it names that
/// key and the scheme, and its signature is well formed and was found good.
/// What is not believed is refused for what it lacks first.
pub proof fn law_believed_manifests_are_signed<
    B: Fn(&SnapshotManifest) -> Vec<u8>,
    R: Fn(&Vec<u8>) -> Result<(), String>,
    V: Fn(&Vec<u8>, &Vec<u8>) -> Result<(), String>,
>(
    manifest: SnapshotManifest,
    trusted_key: Vec<u8>,
    signable: B,
    read: R,
    verify: V,
    r: Result<(), SnapshotSignError>,
)
    requires
        call_ensures(
            verify_manifest::<B, R, V>,
            (&manifest, &trusted_key, &signable, &read, &verify),
            r,
        ),
    ensures
        r is Ok ==> {
            &&& names_trusted_signer(manifest, trusted_key@)
            &&& read.ensures((&manifest.signature->Some_0,), Ok(()))
            &&& found_good(manifest, signable, verify)
        },
        r is Err && r->Err_0 is MissingSignature <==> manifest.signature is None,
        r is Err && r->Err_0 is MissingScheme <==> manifest.signature is Some
            && manifest.signature_scheme is None,
        r is Err && r->Err_0 is UnsupportedScheme <==> manifest.signature is Some
            && manifest.signature_scheme is Some && manifest.signature_scheme->Some_0@
            != "falcon-512"@,
        r is Err && r->Err_0 is MissingPublicKey <==> manifest.signature is Some
            && manifest.signature_scheme is Some && manifest.signature_scheme->Some_0@
            == "falcon-512"@ && manifest.signer_public_key is None,
        r is Err && r->Err_0 is UntrustedSigner <==> manifest.signature is Some
            && manifest.signature_scheme is Some && manifest.signature_scheme->Some_0@
            == "falcon-512"@ && manifest.signer_public_key is Some
            && manifest.signer_public_key->Some_0@ != trusted_key@,
        r is Err && r->Err_0 is InvalidSignature ==> names_trusted_signer(manifest, trusted_key@)
            && exists|form: Result<(), String>| #[trigger]
            read.ensures((&manifest.signature->Some_0,), form) && form is Err,
        r is Err && r->Err_0 is VerificationFailed ==> names_trusted_signer(
            manifest,
            trusted_key@,
        ) && exists|payload: Vec<u8>, outcome: Result<(), String>|
            {
                &&& signable.ensures((&manifest,), payload)
                &&& #[trigger] verify.ensures((&payload, &manifest.signature->Some_0), outcome)
                &&& outcome is Err
            },
        r is Err ==> !(r->Err_0 is IoError),
{
    if names_trusted_signer(manifest, trusted_key@) {
        let form = choose|form: Result<(), String>|
            {
                &&& #[trigger] form_checked(read, manifest.signature->Some_0, form)
                &&& match form {
                    Err(m) => r is Err && r->Err_0 is InvalidSignature,
                    Ok(()) => payload_judged(
                        r,
                        manifest,
                        signable,
                        verify,
                    ),
                }
            };
        assert(read.ensures((&manifest.signature->Some_0,), form));
        if form is Ok {
            assert(form->Ok_0 == ());
            assert(form == Ok::<(), String>(()));
            let (payload, outcome) = choose|payload: Vec<u8>, outcome: Result<(), String>|
                {
                    &&& is_payload(signable, manifest, payload)
                    &&& #[trigger] signature_verified(
                        verify,
                        payload,
                        manifest.signature->Some_0,
                        outcome,
                    )
                    &&& match outcome {
                        Err(m) => r is Err && r->Err_0 is VerificationFailed,
                        Ok(()) => r is Ok,
                    }
                };
            assert(verify.ensures((&payload, &manifest.signature->Some_0), outcome));
        }
    }
}

/// A snapshot file gives its manifest where that is believed, and a file that
/// cannot be read gives none.
pub proof fn law_believed_files_give_their_manifest<
    B: Fn(&SnapshotManifest) -> Vec<u8>,
    R: Fn(&Vec<u8>) -> Result<(), String>,
    V: Fn(&Vec<u8>, &Vec<u8>) -> Result<(), String>,
>(
    file: Result<SnapshotManifest, String>,
    trusted_key: Vec<u8>,
    signable: B,
    read: R,
    verify: V,
    r: Result<SnapshotManifest, SnapshotSignError>,
)
    requires
        call_ensures(
            verify_snapshot_file::<B, R, V>,
            (file, &trusted_key, &signable, &read, &verify),
            r,
        ),
    ensures
        file is Err <==> r is Err && r->Err_0 is IoError,
        file is Err ==> r->Err_0->IoError_0@ == file->Err_0@,
        r is Ok ==> {
            &&& file is Ok && r->Ok_0 == file->Ok_0
            &&& names_trusted_signer(r->Ok_0, trusted_key@)
            &&& found_good(r->Ok_0, signable, verify)
        },
        file is Ok && file->Ok_0.signature is None ==> r is Err && r->Err_0 is MissingSignature,
        file is Ok && file->Ok_0.signature is Some && file->Ok_0.signature_scheme is Some
            && file->Ok_0.signature_scheme->Some_0@ == "falcon-512"@
            && file->Ok_0.signer_public_key is Some && file->Ok_0.signer_public_key->Some_0@
            != trusted_key@ ==> r is Err && r->Err_0 is UntrustedSigner,
{
    if file is Ok && r is Ok {
        let manifest = file->Ok_0;
        let form = choose|form: Result<(), String>|
            {
                &&& #[trigger] form_checked(read, manifest.signature->Some_0, form)
                &&& match form {
                    Err(m) => false,
                    Ok(()) => payload_judged(
                        verdict_of(r),
                        manifest,
                        signable,
                        verify,
                    ),
                }
            };
        let (payload, outcome) = choose|payload: Vec<u8>, outcome: Result<(), String>|
            {
                &&& is_payload(signable, manifest, payload)
                &&& #[trigger] signature_verified(
                    verify,
                    payload,
                    manifest.signature->Some_0,
                    outcome,
                )
                &&& outcome is Ok
            };
        assert(verify.ensures((&payload, &manifest.signature->Some_0), outcome));
    }
}

/// Why a manifest is not believed is said in words.
pub proof fn law_refused_manifests_are_told(e: SnapshotSignError, r: String)
    requires
        call_ensures(SnapshotSignError::to_string, (&e,), r),
    ensures
        e is MissingSignature ==> r@ == "manifest has no signature"@,
        e is MissingScheme ==> r@ == "manifest has no signature scheme"@,
        e is MissingPublicKey ==> r@ == "manifest has no signer public key"@,
        e is UnsupportedScheme ==> r@ == "unsupported signature scheme: "@
            + e->UnsupportedScheme_0@,
        e is UntrustedSigner ==> r@ == "signer public key does not match any trusted key"@,
        e is InvalidSignature ==> r@ == "invalid signature encoding: "@ + e->InvalidSignature_0@,
        e is VerificationFailed ==> r@ == "signature verification failed: "@
            + e->VerificationFailed_0@,
        e is IoError ==> r@ == "failed to read snapshot: "@ + e->IoError_0@,
{
}

} // verus!
