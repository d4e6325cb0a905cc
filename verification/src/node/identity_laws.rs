//! Which key the registry gives for a validator.

use vstd::prelude::*;
use vstd::string::*;

use crate::node::consensus_types::ValidatorInfo;
use crate::node::snapshot_laws::{lemma_index_address, stands_for};
use crate::node::validator_identity::{
    address_in_key, collected, count_key, entry_accepted, identity_key, identity_prefix,
    identity_scan_range, is_identity_key, key_bytes, key_in_value, law_stored_registry_reads_back,
    lemma_prefix_bytes, load_identity_registry, persist_identity_registry, refused_at, seeded,
    stored_key, undecodable_at, IdentityLoadError, ValidatorIdentityRegistry,
};
use crate::primitives::bcs_layout::{
    identity_layout, law_identity_layout_is_unambiguous, MAX_SEQUENCE_LENGTH,
};
use crate::primitives::endian::{le_value, lemma_bytes_len};
use crate::primitives::AccountAddress;

verus! {

/// Whether two answers give the same key, or both none.
pub open spec fn same_answer(a: Option<Vec<u8>>, b: Option<Vec<u8>>) -> bool {
    &&& a is Some <==> b is Some
    &&& a is Some ==> a->Some_0@ == b->Some_0@
}

/// A key that was registered is the one that is found for the address, in place
/// of any earlier one, and nothing else changes.
pub proof fn law_registered_keys_are_found(
    registry: &mut ValidatorIdentityRegistry,
    address: AccountAddress,
    key: Vec<u8>,
    other: AccountAddress,
    found: Option<Vec<u8>>,
    before: Option<Vec<u8>>,
    after: Option<Vec<u8>>,
)
    requires
        call_ensures(ValidatorIdentityRegistry::lookup, (&*old(registry), &other), before),
        call_ensures(ValidatorIdentityRegistry::register, (registry, address, key), ()),
        call_ensures(ValidatorIdentityRegistry::lookup, (&*final(registry), &address), found),
        call_ensures(ValidatorIdentityRegistry::lookup, (&*final(registry), &other), after),
    ensures
        found is Some,
        found->Some_0@ == key@,
        other.0@ != address.0@ ==> same_answer(after, before),
{
}

/// A new registry knows nobody.
pub proof fn law_new_registries_are_empty(
    registry: ValidatorIdentityRegistry,
    standard: ValidatorIdentityRegistry,
    address: AccountAddress,
    found: Option<Vec<u8>>,
    none: Option<Vec<u8>>,
    n: usize,
    empty: bool,
)
    requires
        call_ensures(ValidatorIdentityRegistry::new, (), registry),
        call_ensures(<ValidatorIdentityRegistry as Default>::default, (), standard),
        call_ensures(ValidatorIdentityRegistry::lookup, (&registry, &address), found),
        call_ensures(ValidatorIdentityRegistry::lookup, (&standard, &address), none),
        call_ensures(ValidatorIdentityRegistry::len, (&registry,), n),
        call_ensures(ValidatorIdentityRegistry::is_empty, (&registry,), empty),
    ensures
        found is None,
        none is None,
        n == 0,
        empty,
{
    assert(registry@.dom() =~= Set::empty());
}

/// The entries are all that can be found, each once, and they are counted.
pub proof fn law_entries_are_what_is_found(
    registry: ValidatorIdentityRegistry,
    address: AccountAddress,
    found: Option<Vec<u8>>,
    entries: Vec<(AccountAddress, Vec<u8>)>,
    n: usize,
    empty: bool,
)
    requires
        call_ensures(ValidatorIdentityRegistry::lookup, (&registry, &address), found),
        call_ensures(ValidatorIdentityRegistry::all_entries, (&registry,), entries),
        call_ensures(ValidatorIdentityRegistry::len, (&registry,), n),
        call_ensures(ValidatorIdentityRegistry::is_empty, (&registry,), empty),
    ensures
        n == entries@.len(),
        empty <==> entries@.len() == 0,
        found is Some <==> exists|i: int|
            0 <= i < entries@.len() && (#[trigger] entries@[i]).0.0@ == address.0@,
        forall|i: int|
            0 <= i < entries@.len() && (#[trigger] entries@[i]).0.0@ == address.0@
                ==> found->Some_0@ == entries@[i].1@,
        forall|i: int, j: int|
            0 <= i < j < entries@.len() ==> (#[trigger] entries@[i]).0.0@ != (
            #[trigger] entries@[j]).0.0@,
{
    assert forall|i: int|
        0 <= i < entries@.len() && (#[trigger] entries@[i]).0.0@
            == address.0@ implies found is Some && found->Some_0@ == entries@[i].1@ by {
        assert(entries@[i].0@ == address@);
    }
    if found is Some {
        assert(registry@.dom().contains(address@));
        let i = choose|i: int| 0 <= i < entries@.len() && (#[trigger] entries@[i]).0@ == address@;
        assert(entries@[i].0.0@ == address.0@);
    }
    assert forall|i: int, j: int| 0 <= i < j < entries@.len() implies (#[trigger] entries@[i]).0.0@
        != (#[trigger] entries@[j]).0.0@ by {
        assert(entries@[i].0@ != entries@[j].0@);
    }
}

proof fn lemma_seeded(
    m: Map<Seq<u8>, Seq<u8>>,
    committee: Seq<ValidatorInfo>,
    n: int,
    address: Seq<u8>,
)
    requires
        0 <= n <= committee.len(),
    ensures
        forall|j: int|
            0 <= j < n && stands_for(address, (#[trigger] committee[j]).index) && (forall|k: int|
                j < k < n ==> !stands_for(address, (#[trigger] committee[k]).index)) ==> seeded(
                m,
                committee,
                n,
            ).dom().contains(address) && seeded(m, committee, n)[address]
                == committee[j].falcon_pub_key@,
        (forall|k: int| 0 <= k < n ==> !stands_for(address, (#[trigger] committee[k]).index)) ==> {
            &&& seeded(m, committee, n).dom().contains(address) <==> m.dom().contains(address)
            &&& m.dom().contains(address) ==> seeded(m, committee, n)[address] == m[address]
        },
    decreases n,
{
    if n > 0 {
        lemma_seeded(m, committee, n - 1, address);
        let last = committee[n - 1];
        lemma_index_address(last.index);
        let after = seeded(m, committee, n);
        assert forall|j: int|
            0 <= j < n && stands_for(address, (#[trigger] committee[j]).index) && (forall|k: int|
                j < k < n ==> !stands_for(
                    address,
                    (#[trigger] committee[k]).index,
                )) implies after.dom().contains(address) && after[address]
            == committee[j].falcon_pub_key@ by {
            if j < n - 1 {
                assert(!stands_for(address, committee[n - 1].index));
            }
        }
        if forall|k: int| 0 <= k < n ==> !stands_for(address, (#[trigger] committee[k]).index) {
            assert(!stands_for(address, committee[n - 1].index));
        }
    }
}

/// Seeding registers the key of every member of the committee under the address
/// that stands for its index, the later one where two have the same, and
/// changes nothing else.
pub proof fn law_seeding_registers_the_committee(
    registry: &mut ValidatorIdentityRegistry,
    committee: Vec<ValidatorInfo>,
    address: AccountAddress,
    before: Option<Vec<u8>>,
    after: Option<Vec<u8>>,
)
    requires
        call_ensures(ValidatorIdentityRegistry::lookup, (&*old(registry), &address), before),
        call_ensures(ValidatorIdentityRegistry::seed_from_committee, (registry, &committee), ()),
        call_ensures(ValidatorIdentityRegistry::lookup, (&*final(registry), &address), after),
    ensures
        forall|j: int|
            0 <= j < committee@.len() && stands_for(
                address.0@,
                (#[trigger] committee@[j]).index,
            ) && (forall|k: int|
                j < k < committee@.len() ==> !stands_for(
                    address.0@,
                    (#[trigger] committee@[k]).index,
                )) ==> after is Some && after->Some_0@ == committee@[j].falcon_pub_key@,
        (forall|k: int|
            0 <= k < committee@.len() ==> !stands_for(
                address.0@,
                (#[trigger] committee@[k]).index,
            )) ==> same_answer(after, before),
{
    let n = committee@.len() as int;
    let m = key_bytes(old(registry)@);
    lemma_seeded(m, committee@, n, address@);
    let seen = key_bytes(final(registry)@);
    assert(seen == seeded(m, committee@, n));
    assert(seen.dom().contains(address@) <==> after is Some);
    assert(after is Some ==> seen[address@] == after->Some_0@);
    assert(m.dom().contains(address@) <==> before is Some);
    assert(before is Some ==> m[address@] == before->Some_0@);
}

/// Entries are stored under a prefix and the address, beside their count.
pub proof fn law_entries_are_stored_by_address(
    address: AccountAddress,
    key: Vec<u8>,
    count: Vec<u8>,
    range: (Vec<u8>, Vec<u8>),
)
    requires
        call_ensures(identity_key, (&address,), key),
        call_ensures(count_key, (), count),
        call_ensures(identity_scan_range, (), range),
    ensures
        key@ == "__validator_identity__:".spec_bytes() + address.0@,
        count@ == "__validator_identity_count__".spec_bytes(),
        range.0@ == "__validator_identity__:".spec_bytes(),
        range.0@.len() == 23,
        range.1@.len() == 23,
        forall|i: int| 0 <= i < 22 ==> #[trigger] range.0@[i] == range.1@[i],
        range.0@[22] + 1 == range.1@[22],
{
    lemma_prefix_bytes();
}

/// Whether an entry read from storage is that of an address: its key ends in
/// the address, behind as many bytes as the prefix has.
pub open spec fn is_entry_of(pair: (Vec<u8>, Vec<u8>), address: Seq<u8>) -> bool {
    let n = "__validator_identity__:".spec_bytes().len() as int;
    &&& pair.0@.len() == n + 32
    &&& pair.0@.subrange(n, n + 32) == address
}

/// Whether a count read from storage says that there are entries.
pub open spec fn counts_entries(count: Option<Vec<u8>>) -> bool {
    &&& count is Some && count->Some_0@.len() == 4
    &&& count->Some_0@[0] != 0 || count->Some_0@[1] != 0 || count->Some_0@[2] != 0
        || count->Some_0@[3] != 0
}

proof fn lemma_counts(bytes: Seq<u8>)
    requires
        bytes.len() == 4,
    ensures
        le_value(bytes) == bytes[0] + 0x100 * bytes[1] + 0x1_0000 * bytes[2] + 0x100_0000
            * bytes[3],
{
    reveal_with_fuel(le_value, 5);
    assert(bytes.drop_first() =~= bytes.subrange(1, 4));
    assert(bytes.subrange(1, 4).drop_first() =~= bytes.subrange(2, 4));
    assert(bytes.subrange(2, 4).drop_first() =~= bytes.subrange(3, 4));
}

/// Whether the stored value of an entry is that of a key.
pub open spec fn is_value_of(value: Seq<u8>, key: Seq<u8>) -> bool {
    exists|epoch: u64| #[trigger] identity_layout(key, epoch) == value
}

proof fn lemma_value_is_of_one_key(value: Seq<u8>, key: Seq<u8>)
    requires
        stored_key(value, key),
    ensures
        key_in_value(value) == key,
        is_value_of(value, key),
{
    let other = key_in_value(value);
    assert(stored_key(value, other));
    let e1 = choose|epoch: u64| #[trigger] identity_layout(key, epoch) == value;
    let e2 = choose|epoch: u64| #[trigger] identity_layout(other, epoch) == value;
    law_identity_layout_is_unambiguous(key, e1, other, e2);
}

proof fn lemma_collected(pairs: Seq<(Vec<u8>, Vec<u8>)>, n: int, address: Seq<u8>)
    requires
        0 <= n <= pairs.len(),
        address.len() == 32,
    ensures
        forall|i: int|
            0 <= i < n && is_entry_of(#[trigger] pairs[i], address) && (forall|k: int|
                i < k < n ==> !is_entry_of(#[trigger] pairs[k], address)) ==> collected(
                pairs,
                n,
            ).dom().contains(address) && collected(pairs, n)[address] == key_in_value(pairs[i].1@),
        (forall|k: int| 0 <= k < n ==> !is_entry_of(#[trigger] pairs[k], address)) ==> !collected(
            pairs,
            n,
        ).dom().contains(address),
    decreases n,
{
    if n > 0 {
        lemma_collected(pairs, n - 1, address);
        let last = pairs[n - 1];
        assert(is_entry_of(last, address) <==> is_identity_key(last.0@) && address_in_key(last.0@)
            == address);
        let after = collected(pairs, n);
        assert forall|i: int|
            0 <= i < n && is_entry_of(#[trigger] pairs[i], address) && (forall|k: int|
                i < k < n ==> !is_entry_of(
                    #[trigger] pairs[k],
                    address,
                )) implies after.dom().contains(address) && after[address] == key_in_value(
            pairs[i].1@,
        ) by {
            if i < n - 1 {
                assert(!is_entry_of(pairs[n - 1], address));
            }
        }
        if forall|k: int| 0 <= k < n ==> !is_entry_of(#[trigger] pairs[k], address) {
            assert(!is_entry_of(pairs[n - 1], address));
        }
    }
}

/// A loaded registry gives for an address the key that is stored in its last
/// entry, and knows no address without an entry. Without a count there is
/// nothing to load.
pub proof fn law_loaded_registries_give_what_is_stored<F: Fn(&Vec<u8>) -> bool>(
    count: Option<Vec<u8>>,
    pairs: Vec<(Vec<u8>, Vec<u8>)>,
    valid_key: F,
    registry: ValidatorIdentityRegistry,
    address: AccountAddress,
    found: Option<Vec<u8>>,
)
    requires
        call_ensures(load_identity_registry::<F>, (&count, &pairs, valid_key), Ok(registry)),
        call_ensures(ValidatorIdentityRegistry::lookup, (&registry, &address), found),
    ensures
        !counts_entries(count) ==> found is None,
        counts_entries(count) ==> {
            &&& forall|i: int|
                0 <= i < pairs@.len() && is_entry_of(#[trigger] pairs@[i], address.0@) && (forall|
                    k: int,
                |
                    i < k < pairs@.len() ==> !is_entry_of(#[trigger] pairs@[k], address.0@))
                    ==> found is Some && is_value_of(pairs@[i].1@, found->Some_0@)
            &&& (forall|k: int|
                0 <= k < pairs@.len() ==> !is_entry_of(#[trigger] pairs@[k], address.0@))
                ==> found is None
        },
{
    if count is Some && count->Some_0@.len() == 4 {
        lemma_counts(count->Some_0@);
    }
    let n = pairs@.len() as int;
    lemma_collected(pairs@, n, address@);
    if counts_entries(count) {
        let seen = key_bytes(registry@);
        assert(seen == collected(pairs@, n));
        assert(seen.dom().contains(address@) <==> found is Some);
        assert(found is Some ==> seen[address@] == found->Some_0@);
        assert forall|i: int|
            0 <= i < n && is_entry_of(#[trigger] pairs@[i], address.0@) && (forall|k: int|
                i < k < n ==> !is_entry_of(
                    #[trigger] pairs@[k],
                    address.0@,
                )) implies found is Some && is_value_of(pairs@[i].1@, found->Some_0@) by {
            assert(entry_accepted(pairs@[i], valid_key));
            let key = choose|key: Vec<u8>|
                stored_key(pairs@[i].1@, key@) && #[trigger] valid_key.ensures((&key,), true);
            lemma_value_is_of_one_key(pairs@[i].1@, key@);
        }
    }
}

/// What a registry writes to storage is what a registry reads from there: every
/// lookup gives the same key, where all the keys are valid.
pub proof fn law_registries_survive_storage<F: Fn(&Vec<u8>) -> bool>(
    registry: ValidatorIdentityRegistry,
    entries: Vec<(AccountAddress, Vec<u8>)>,
    batch: Vec<(Vec<u8>, Vec<u8>)>,
    count: Vec<u8>,
    pairs: Vec<(Vec<u8>, Vec<u8>)>,
    valid_key: F,
    r: Result<ValidatorIdentityRegistry, IdentityLoadError>,
    address: AccountAddress,
    before: Option<Vec<u8>>,
    after: Option<Vec<u8>>,
)
    requires
        registry.wf(),
        call_ensures(ValidatorIdentityRegistry::all_entries, (&registry,), entries),
        call_ensures(persist_identity_registry, (&registry,), Some(batch)),
        entries@.len() < 0x1_0000_0000,
        pairs@ == batch@.drop_last(),
        count == batch@.last().1,
        forall|key: Vec<u8>, i: int|
            0 <= i < entries@.len() && key@ == (#[trigger] entries@[i]).1@ ==> !#[trigger]
                valid_key.ensures((&key,), false),
        call_ensures(load_identity_registry::<F>, (&Some(count), &pairs, valid_key), r),
        call_ensures(ValidatorIdentityRegistry::lookup, (&registry, &address), before),
        r is Ok ==> call_ensures(
            ValidatorIdentityRegistry::lookup,
            (&r->Ok_0, &address),
            after,
        ),
    ensures
        batch@.len() == entries@.len() + 1,
        r is Ok,
        same_answer(after, before),
{
    let n = registry.size() as int;
    assert forall|i: int| 0 <= i < n implies {
        &&& (#[trigger] batch@[i]).0@ == identity_prefix() + registry.address_in_order(i)
        &&& registry@.dom().contains(registry.address_in_order(i))
        &&& registry@[registry.address_in_order(i)]@.len()
            <= MAX_SEQUENCE_LENGTH
        &&& batch@[i].1@ == identity_layout(registry@[registry.address_in_order(i)]@, 0)
    } by {
        let a = registry.address_in_order(i);
        assert(batch@[i].0@ == identity_prefix() + a);
        assert(registry@.dom().contains(a));
        assert(registry@[a]@.len() <= MAX_SEQUENCE_LENGTH);
    }
    law_stored_registry_reads_back(registry, batch@);
    lemma_bytes_len(registry.size(), 4);
    lemma_counts(count@);
    lemma_collected_prefix(batch@, pairs@, n);
    if r is Err {
        assert(n > 0);
        if r->Err_0 is DecodeIdentity {
            let i = choose|i: int|
                0 <= i < pairs@.len()
                    && #[trigger] undecodable_at(
                    pairs@,
                    i,
                    valid_key,
                );
            let key = registry@[registry.address_in_order(i)]@;
            assert(pairs@[i] == batch@[i]);
            assert(identity_layout(key, 0) == pairs@[i].1@);
            assert(stored_key(pairs@[i].1@, key));
        } else {
            let i = choose|i: int|
                0 <= i < pairs@.len() && #[trigger] refused_at(
                    pairs@,
                    i,
                    valid_key,
                );
            assert(pairs@[i] == batch@[i]);
            let key = choose|key: Vec<u8>|
                stored_key(pairs@[i].1@, key@) && #[trigger] valid_key.ensures((&key,), false);
            lemma_value_is_of_one_key(pairs@[i].1@, key@);
            let stored = registry@[registry.address_in_order(i)]@;
            assert(identity_layout(stored, 0) == pairs@[i].1@);
            assert(stored_key(pairs@[i].1@, stored));
            lemma_value_is_of_one_key(pairs@[i].1@, stored);
            assert(entries@[i].0@ == registry.address_in_order(i));
            assert(entries@[i].1@ == key@);
        }
    } else {
        let a = key_bytes(registry@);
        let b = key_bytes(r->Ok_0@);
        assert(a.dom().contains(address@) <==> before is Some);
        assert(before is Some ==> a[address@] == before->Some_0@);
        assert(b.dom().contains(address@) <==> after is Some);
        assert(after is Some ==> b[address@] == after->Some_0@);
        if n == 0 {
            assert(registry@.dom().len() == 0);
            assert(a == collected(batch@, 0));
        } else {
            assert(b == a);
        }
    }
}

proof fn lemma_collected_prefix(
    batch: Seq<(Vec<u8>, Vec<u8>)>,
    pairs: Seq<(Vec<u8>, Vec<u8>)>,
    n: int,
)
    requires
        0 <= n <= pairs.len() <= batch.len(),
        forall|i: int| 0 <= i < n ==> #[trigger] pairs[i] == batch[i],
    ensures
        collected(batch, n) == collected(pairs, n),
    decreases n,
{
    if n > 0 {
        lemma_collected_prefix(batch, pairs, n - 1);
        assert(pairs[n - 1] == batch[n - 1]);
    }
}

/// Why a registry could not be loaded is said in words.
pub proof fn law_failed_loads_are_told(e: IdentityLoadError, r: String)
    requires
        call_ensures(IdentityLoadError::to_string, (&e,), r),
    ensures
        e is DecodeIdentity ==> r@ == "BCS decode identity"@,
        e is DecodeKey ==> r@ == "decode Falcon key from identity store"@,
{
}

} // verus!
