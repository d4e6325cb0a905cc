//! Registry of validator identities: which public key belongs to an address.
//!
//! The registry is kept in storage under one key per validator, made of a
//! prefix and the address, beside a count of all entries.

use vstd::prelude::*;
use vstd::string::*;

use crate::node::consensus_types::ValidatorInfo;
use crate::primitives::bcs_layout::{
    decode_identity, decode_u32, encode_identity, encode_u32, identity_layout, law_identity_layout_is_unambiguous,
    MAX_SEQUENCE_LENGTH,
};
use crate::primitives::digest::copy_32;
use crate::primitives::endian::{
    be_bytes, le_bytes, le_value, lemma_bytes_len, lemma_le_roundtrip, lemma_pow256_values, to_be_bytes,
};
use crate::primitives::lex::lemma_lex_asymmetric;
use crate::primitives::table::KeyTable;
use crate::primitives::{AccountAddress, ValidatorIndex};

verus! {

/// Bytes before the address in the storage key of an identity.
pub open spec fn identity_prefix() -> Seq<u8> {
    "__validator_identity__:".spec_bytes()
}

/// Storage key of the number of identities.
pub open spec fn identity_count_key() -> Seq<u8> {
    "__validator_identity_count__".spec_bytes()
}

/// The address of the validator with a committee index: zeros, with the index
/// in the last four bytes, the highest byte first.
pub open spec fn index_address(index: ValidatorIndex) -> Seq<u8> {
    Seq::new(28, |i: int| 0u8) + be_bytes(index.0 as nat, 4)
}

/// The address of the validator with a committee index.
pub fn address_from_validator_index(index: ValidatorIndex) -> (r: AccountAddress)
    ensures
        r@ == index_address(index),
{
    let tail = to_be_bytes(index.0 as u64, 4);
    proof {
        lemma_bytes_len(index.0 as nat, 4);
    }
    let mut bytes: [u8; 32] = [0u8; 32];
    bytes[28] = tail[0];
    bytes[29] = tail[1];
    bytes[30] = tail[2];
    bytes[31] = tail[3];
    assert(bytes@ =~= index_address(index));
    AccountAddress(bytes)
}

/// Different committee indices have different addresses.
pub proof fn law_index_addresses_differ(a: ValidatorIndex, b: ValidatorIndex)
    requires
        index_address(a) == index_address(b),
    ensures
        a == b,
{
    lemma_pow256_values();
    lemma_bytes_len(a.0 as nat, 4);
    lemma_bytes_len(b.0 as nat, 4);
    assert(index_address(a).subrange(28, 32) =~= be_bytes(a.0 as nat, 4));
    assert(index_address(b).subrange(28, 32) =~= be_bytes(b.0 as nat, 4));
    crate::primitives::endian::law_big_endian_keeps_order(a.0 as nat, b.0 as nat, 4);
}

/// The storage key of an identity.
pub fn identity_key(addr: &AccountAddress) -> (r: Vec<u8>)
    ensures
        r@ == identity_prefix() + addr@,
{
    let mut key: Vec<u8> = "__validator_identity__:".as_bytes_vec();
    key.extend_from_slice(addr.0.as_slice());
    assert(key@ =~= identity_prefix() + addr@);
    key
}

/// The storage key of the number of identities.
pub fn count_key() -> (r: Vec<u8>)
    ensures
        r@ == identity_count_key(),
{
    "__validator_identity_count__".as_bytes_vec()
}

/// An identity as it is kept in storage.
#[derive(Debug, Clone)]
pub struct PersistedValidatorIdentity {
    /// Raw bytes of the Falcon public key.
    pub falcon_key_bytes: Vec<u8>,
    /// Epoch at which the identity was registered.
    pub registered_at_epoch: u64,
}

/// The public keys of all known validators, by address.
pub struct ValidatorIdentityRegistry {
    table: KeyTable<Vec<u8>>,
}

impl View for ValidatorIdentityRegistry {
    type V = Map<Seq<u8>, Vec<u8>>;

    closed spec fn view(&self) -> Map<Seq<u8>, Vec<u8>> {
        self.table@
    }
}

/// The keys of a registry, as byte strings.
pub open spec fn key_bytes(m: Map<Seq<u8>, Vec<u8>>) -> Map<Seq<u8>, Seq<u8>> {
    Map::new(|a: Seq<u8>| m.dom().contains(a), |a: Seq<u8>| m[a]@)
}

/// `m` after the first `n` validators of a committee have been entered.
pub open spec fn seeded(m: Map<Seq<u8>, Seq<u8>>, validators: Seq<ValidatorInfo>, n: int) -> Map<
    Seq<u8>,
    Seq<u8>,
>
    decreases n,
{
    if n <= 0 {
        m
    } else {
        seeded(m, validators, n - 1).insert(
            index_address(validators[n - 1].index),
            validators[n - 1].falcon_pub_key@,
        )
    }
}

impl ValidatorIdentityRegistry {
    /// The addresses are in order and occur once.
    pub closed spec fn wf(&self) -> bool {
        self.table.wf()
    }

    /// The number of identities.
    pub closed spec fn size(&self) -> nat {
        self.table.size()
    }

    /// The address at position `i` of the address order.
    pub closed spec fn address_in_order(&self, i: int) -> Seq<u8> {
        self.table.key_in_order(i)
    }

    /// An empty registry.
    pub fn new() -> (r: Self)
        ensures
            r.wf(),
            r@ == Map::<Seq<u8>, Vec<u8>>::empty(),
    {
        ValidatorIdentityRegistry { table: KeyTable::new() }
    }

    /// Enters the members of a committee, each under the address of its
    /// index.
    pub fn seed_from_committee(&mut self, validators: &Vec<ValidatorInfo>)
        requires
            old(self).wf(),
        ensures
            final(self).wf(),
            key_bytes(final(self)@) == seeded(
                key_bytes(old(self)@),
                validators@,
                validators@.len() as int,
            ),
    {
        let ghost start = key_bytes(self@);
        let mut i: usize = 0;
        while i < validators.len()
            invariant
                0 <= i <= validators@.len(),
                self.wf(),
                key_bytes(self@) == seeded(start, validators@, i as int),
            decreases validators@.len() - i,
        {
            let v = &validators[i];
            let key = v.falcon_pub_key.clone();
            assert(key@ =~= v.falcon_pub_key@);
            self.register(address_from_validator_index(v.index), key);
            i = i + 1;
            assert(key_bytes(self@) =~= seeded(start, validators@, i as int));
        }
    }

    /// Enters an identity, in place of any earlier one for the address.
    pub fn register(&mut self, addr: AccountAddress, key: Vec<u8>)
        requires
            old(self).wf(),
        ensures
            final(self).wf(),
            final(self)@ == old(self)@.insert(addr@, key),
            key_bytes(final(self)@) == key_bytes(old(self)@).insert(addr@, key@),
    {
        let ghost before = self@;
        self.table.insert(&addr.0, key);
        assert(key_bytes(self@) =~= key_bytes(before).insert(addr@, key@));
    }

    /// The public key of an address.
    pub fn lookup(&self, addr: &AccountAddress) -> (r: Option<Vec<u8>>)
        requires
            self.wf(),
        ensures
            match r {
                Some(key) => self@.dom().contains(addr@) && key@ == self@[addr@]@,
                None => !self@.dom().contains(addr@),
            },
    {
        match self.table.get(&addr.0) {
            Some(key) => {
                let copy = key.clone();
                assert(copy@ =~= key@);
                Some(copy)
            },
            None => None,
        }
    }

    /// The number of identities.
    pub fn len(&self) -> (r: usize)
        requires
            self.wf(),
        ensures
            r == self@.dom().len(),
            r == self.size(),
    {
        self.table.len()
    }

    /// Whether there is no identity.
    pub fn is_empty(&self) -> (r: bool)
        requires
            self.wf(),
        ensures
            r == (self@.dom().len() == 0),
    {
        self.len() == 0
    }

    /// All identities, in the order of their addresses.
    pub fn all_entries(&self) -> (r: Vec<(AccountAddress, Vec<u8>)>)
        requires
            self.wf(),
        ensures
            r@.len() == self@.dom().len(),
            r@.len() == self.size(),
            forall|i: int|
                0 <= i < r@.len() ==> {
                    &&& (#[trigger] r@[i]).0@ == self.address_in_order(i)
                    &&& self@.dom().contains(r@[i].0@)
                    &&& r@[i].1@ == self@[r@[i].0@]@
                },
            forall|a: Seq<u8>| #[trigger]
                self@.dom().contains(a) ==> exists|i: int| 0 <= i < r@.len() && (#[trigger] r@[i]).0@ == a,
            forall|i: int, j: int|
                0 <= i < j < r@.len() ==> (#[trigger] r@[i]).0@ != (#[trigger] r@[j]).0@,
    {
        let mut out: Vec<(AccountAddress, Vec<u8>)> = Vec::new();
        let n: usize = self.table.len();
        let mut i: usize = 0;
        while i < n
            invariant
                0 <= i <= n,
                n == self.table.size(),
                self.wf(),
                out@.len() == i,
                forall|j: int|
                    0 <= j < i ==> {
                        &&& (#[trigger] out@[j]).0@ == self.address_in_order(j)
                        &&& self@.dom().contains(out@[j].0@)
                        &&& out@[j].1@ == self@[out@[j].0@]@
                    },
            decreases n - i,
        {
            let key = self.table.value_at(i).clone();
            let addr = self.table.key_at(i);
            assert(key@ =~= self@[addr@]@);
            out.push((AccountAddress(addr), key));
            i = i + 1;
        }
        proof {
            self.table.lemma_positions();
            assert forall|a: Seq<u8>| #[trigger] self@.dom().contains(a) implies exists|i: int|
                0 <= i < out@.len() && (#[trigger] out@[i]).0@ == a by {
                let k = choose|k: int|
                    0 <= k < self.table.size() && self.table.key_in_order(k) == a;
                assert(out@[k].0@ == a);
            }
            assert forall|i: int, j: int| 0 <= i < j < out@.len() implies (#[trigger] out@[i]).0@
                != (#[trigger] out@[j]).0@ by {
                lemma_lex_asymmetric(self.address_in_order(i), self.address_in_order(j));
            }
        }
        out
    }
}

impl Default for ValidatorIdentityRegistry {
    fn default() -> (r: Self)
        ensures
            r.wf(),
            r@ == Map::<Seq<u8>, Vec<u8>>::empty(),
    {
        ValidatorIdentityRegistry::new()
    }
}

/// The entries by which a registry is stored: one per identity, then the
/// count. `None` if a public key is too long to be encoded.
pub fn persist_identity_registry(registry: &ValidatorIdentityRegistry) -> (r: Option<
    Vec<(Vec<u8>, Vec<u8>)>,
>)
    requires
        registry.wf(),
    ensures
        r is Some <==> forall|a: Seq<u8>| #[trigger]
            registry@.dom().contains(a) ==> registry@[a]@.len() <= MAX_SEQUENCE_LENGTH,
        r is Some ==> {
            let batch = r->Some_0@;
            let n = registry.size() as int;
            &&& batch.len() == n + 1
            &&& forall|i: int|
                0 <= i < n ==> {
                    &&& (#[trigger] batch[i]).0@ == identity_prefix() + registry.address_in_order(i)
                    &&& registry@.dom().contains(registry.address_in_order(i))
                    &&& batch[i].1@ == identity_layout(registry@[registry.address_in_order(i)]@, 0)
                }
            &&& batch[n].0@ == identity_count_key()
            &&& batch[n].1@ == le_bytes((n as u32) as nat, 4)
        },
{
    let entries = registry.all_entries();
    let mut batch: Vec<(Vec<u8>, Vec<u8>)> = Vec::new();
    let mut i: usize = 0;
    while i < entries.len()
        invariant
            0 <= i <= entries@.len(),
            entries@.len() == registry.size(),
            batch@.len() == i,
            registry.wf(),
            forall|j: int|
                0 <= j < entries@.len() ==> {
                    &&& (#[trigger] entries@[j]).0@ == registry.address_in_order(j)
                    &&& registry@.dom().contains(entries@[j].0@)
                    &&& entries@[j].1@ == registry@[entries@[j].0@]@
                },
            forall|j: int|
                0 <= j < i ==> {
                    &&& (#[trigger] batch@[j]).0@ == identity_prefix() + registry.address_in_order(j)
                    &&& registry@.dom().contains(registry.address_in_order(j))
                    &&& batch@[j].1@ == identity_layout(
                        registry@[registry.address_in_order(j)]@,
                        0,
                    )
                    &&& registry@[registry.address_in_order(j)]@.len() <= MAX_SEQUENCE_LENGTH
                },
        decreases entries@.len() - i,
    {
        let entry = &entries[i];
        match encode_identity(&entry.1, 0) {
            Some(value) => {
                batch.push((identity_key(&entry.0), value));
            },
            None => {
                assert(registry@.dom().contains(entries@[i as int].0@));
                return None;
            },
        }
        i = i + 1;
    }
    match encode_u32(entries.len() as u32) {
        Some(value) => {
            batch.push((count_key(), value));
        },
        None => {
            return None;
        },
    }
    assert forall|a: Seq<u8>| #[trigger] registry@.dom().contains(a) implies registry@[a]@.len()
        <= MAX_SEQUENCE_LENGTH by {
        let k = choose|k: int| 0 <= k < entries@.len() && (#[trigger] entries@[k]).0@ == a;
        assert(batch@[k].0@ == identity_prefix() + registry.address_in_order(k));
    }
    Some(batch)
}

/// Why a registry could not be loaded.
#[derive(Debug, Clone, Copy, PartialEq, Eq, Structural)]
pub enum IdentityLoadError {
    /// A stored identity is malformed.
    DecodeIdentity,
    /// A stored public key is not a valid key.
    DecodeKey,
}

impl IdentityLoadError {
    /// The message of this error.
    pub fn to_string(&self) -> (r: String)
        ensures
            r@ == (match self {
                IdentityLoadError::DecodeIdentity => "BCS decode identity"@,
                IdentityLoadError::DecodeKey => "decode Falcon key from identity store"@,
            }),
    {
        match self {
            IdentityLoadError::DecodeIdentity => "BCS decode identity".to_owned(),
            IdentityLoadError::DecodeKey => "decode Falcon key from identity store".to_owned(),
        }
    }
}

/// The range of storage keys that holds all identities: from the prefix up to,
/// and without, the prefix with its last byte raised by one.
pub fn identity_scan_range() -> (r: (Vec<u8>, Vec<u8>))
    ensures
        r.0@ == identity_prefix(),
        r.1@ == identity_prefix().drop_last().push((identity_prefix().last() + 1) as u8),
{
    let start: Vec<u8> = "__validator_identity__:".as_bytes_vec();
    let mut end: Vec<u8> = "__validator_identity__:".as_bytes_vec();
    proof {
        lemma_prefix_bytes();
    }
    let last: usize = end.len() - 1;
    let raised: u8 = end[last] + 1;
    end.set(last, raised);
    assert(end@ =~= identity_prefix().drop_last().push((identity_prefix().last() + 1) as u8));
    (start, end)
}

/// The prefix has 23 bytes, and the last one is a colon.
pub proof fn lemma_prefix_bytes()
    ensures
        identity_prefix().len() == 23,
        identity_prefix().last() == 58,
{
    reveal_strlit("__validator_identity__:");
    let s = "__validator_identity__:";
    assert(is_ascii(s)) by {
        assert forall|i: int| 0 <= i < s@.len() implies (#[trigger] s@[i] as nat) < 128 by {
        }
    }
    is_ascii_spec_bytes(s);
    assert(s.spec_bytes() =~= Seq::new(s@.len(), |i| s@.index(i) as u8));
}

/// Whether a storage key has the length of an identity key.
pub open spec fn is_identity_key(key: Seq<u8>) -> bool {
    key.len() == identity_prefix().len() + 32
}

/// The address in an identity key.
pub open spec fn address_in_key(key: Seq<u8>) -> Seq<u8> {
    key.subrange(identity_prefix().len() as int, key.len() as int)
}

/// Whether `key` is the public key in the stored value.
pub open spec fn stored_key(value: Seq<u8>, key: Seq<u8>) -> bool {
    key.len() <= MAX_SEQUENCE_LENGTH && exists|epoch: u64| #[trigger]
        identity_layout(key, epoch) == value
}

/// The public key in a stored value that holds one.
pub open spec fn key_in_value(value: Seq<u8>) -> Seq<u8> {
    choose|key: Seq<u8>| stored_key(value, key)
}

/// A stored value holds at most one public key.
proof fn lemma_one_stored_key(value: Seq<u8>, key: Seq<u8>)
    requires
        stored_key(value, key),
    ensures
        key_in_value(value) == key,
{
    let other = key_in_value(value);
    assert(stored_key(value, other));
    let e1 = choose|e: u64| #[trigger] identity_layout(key, e) == value;
    let e2 = choose|e: u64| #[trigger] identity_layout(other, e) == value;
    law_identity_layout_is_unambiguous(key, e1, other, e2);
}

/// What the first `n` entries of a scan say: the public key of each identity
/// key, a later entry in place of an earlier one.
pub open spec fn collected(pairs: Seq<(Vec<u8>, Vec<u8>)>, n: int) -> Map<Seq<u8>, Seq<u8>>
    decreases n,
{
    if n <= 0 {
        Map::empty()
    } else if is_identity_key(pairs[n - 1].0@) {
        collected(pairs, n - 1).insert(
            address_in_key(pairs[n - 1].0@),
            key_in_value(pairs[n - 1].1@),
        )
    } else {
        collected(pairs, n - 1)
    }
}

/// Whether the stored count, if there is one, says that there are identities.
pub open spec fn counts_any(count: Option<Seq<u8>>) -> bool {
    count is Some && count->Some_0.len() == 4 && le_value(count->Some_0) != 0
}

/// Whether an entry of a scan is passed over or holds a public key that
/// `valid_key` accepts.
pub open spec fn entry_accepted<F: Fn(&Vec<u8>) -> bool>(
    pair: (Vec<u8>, Vec<u8>),
    valid_key: F,
) -> bool {
    is_identity_key(pair.0@) ==> exists|key: Vec<u8>|
        stored_key(pair.1@, key@) && #[trigger] valid_key.ensures((&key,), true)
}

/// Whether the first `n` entries of a scan are accepted.
pub open spec fn accepted_up_to<F: Fn(&Vec<u8>) -> bool>(
    pairs: Seq<(Vec<u8>, Vec<u8>)>,
    n: int,
    valid_key: F,
) -> bool {
    forall|i: int| 0 <= i < n ==> entry_accepted(#[trigger] pairs[i], valid_key)
}

/// Whether the value of the entry at `i` holds no public key, and it is the
/// first entry that is at fault.
pub open spec fn undecodable_at<F: Fn(&Vec<u8>) -> bool>(
    pairs: Seq<(Vec<u8>, Vec<u8>)>,
    i: int,
    valid_key: F,
) -> bool {
    &&& accepted_up_to(pairs, i, valid_key)
    &&& is_identity_key(pairs[i].0@)
    &&& forall|key: Seq<u8>| !stored_key(pairs[i].1@, key)
}

/// Whether the public key of the entry at `i` is refused, and it is the first
/// entry that is at fault.
pub open spec fn refused_at<F: Fn(&Vec<u8>) -> bool>(
    pairs: Seq<(Vec<u8>, Vec<u8>)>,
    i: int,
    valid_key: F,
) -> bool {
    &&& accepted_up_to(pairs, i, valid_key)
    &&& is_identity_key(pairs[i].0@)
    &&& exists|key: Vec<u8>|
        stored_key(pairs[i].1@, key@) && #[trigger] valid_key.ensures((&key,), false)
}

/// Loads a registry from the stored count and the entries of a scan over the
/// identity range. `valid_key` says whether bytes are a valid public key.
pub fn load_identity_registry<F: Fn(&Vec<u8>) -> bool>(
    count: &Option<Vec<u8>>,
    pairs: &Vec<(Vec<u8>, Vec<u8>)>,
    valid_key: F,
) -> (r: Result<ValidatorIdentityRegistry, IdentityLoadError>)
    requires
        forall|k: &Vec<u8>| valid_key.requires((k,)),
    ensures
        r is Ok ==> r->Ok_0.wf(),
        !counts_any(
            match count {
                Some(b) => Some(b@),
                None => None,
            },
        ) ==> r is Ok && r->Ok_0@ == Map::<Seq<u8>, Vec<u8>>::empty(),
        counts_any(
            match count {
                Some(b) => Some(b@),
                None => None,
            },
        ) ==> match r {
            Ok(registry) => {
                &&& key_bytes(registry@) == collected(pairs@, pairs@.len() as int)
                &&& accepted_up_to(pairs@, pairs@.len() as int, valid_key)
            },
            Err(IdentityLoadError::DecodeIdentity) => exists|i: int|
                0 <= i < pairs@.len() && #[trigger] undecodable_at(pairs@, i, valid_key),
            Err(IdentityLoadError::DecodeKey) => exists|i: int|
                0 <= i < pairs@.len() && #[trigger] refused_at(pairs@, i, valid_key),
        },
{
    let mut registry = ValidatorIdentityRegistry::new();
    let number: u32 = match count {
        None => {
            return Ok(registry);
        },
        Some(b) => match decode_u32(b.as_slice()) {
            Some(n) => n,
            None => 0,
        },
    };
    if number == 0 {
        return Ok(registry);
    }
    proof {
        lemma_prefix_bytes();
        assert(key_bytes(registry@) =~= Map::<Seq<u8>, Seq<u8>>::empty());
    }
    let mut i: usize = 0;
    while i < pairs.len()
        invariant
            0 <= i <= pairs@.len(),
            registry.wf(),
            identity_prefix().len() == 23,
            key_bytes(registry@) == collected(pairs@, i as int),
            forall|k: &Vec<u8>| valid_key.requires((k,)),
            accepted_up_to(pairs@, i as int, valid_key),
            counts_any(
                match count {
                    Some(b) => Some(b@),
                    None => None,
                },
            ),
        decreases pairs@.len() - i,
    {
        let pair = &pairs[i];
        let ghost before = key_bytes(registry@);
        if pair.0.len() == 55 {
            match decode_identity(pair.1.as_slice()) {
                None => {
                    assert forall|key: Seq<u8>| !stored_key(pairs@[i as int].1@, key) by {
                        if stored_key(pairs@[i as int].1@, key) {
                            let epoch = choose|epoch: u64| #[trigger]
                                identity_layout(key, epoch) == pairs@[i as int].1@;
                            assert(identity_layout(key, epoch) == pairs@[i as int].1@);
                        }
                    }
                    assert(undecodable_at(pairs@, i as int, valid_key));
                    return Err(IdentityLoadError::DecodeIdentity);
                },
                Some((key, epoch)) => {
                    assert(stored_key(pairs@[i as int].1@, key@)) by {
                        assert(identity_layout(key@, epoch) == pairs@[i as int].1@);
                    }
                    let ok = valid_key(&key);
                    if !ok {
                        assert(valid_key.ensures((&key,), false));
                        assert(refused_at(pairs@, i as int, valid_key));
                        return Err(IdentityLoadError::DecodeKey);
                    }
                    assert(valid_key.ensures((&key,), true));
                    assert(entry_accepted(pairs@[i as int], valid_key));
                    let addr = copy_32(vstd::slice::slice_subrange(pair.0.as_slice(), 23, 55));
                    assert(addr@ =~= address_in_key(pair.0@));
                    let ghost kb = key@;
                    registry.register(AccountAddress(addr), key);
                    proof {
                        lemma_one_stored_key(pairs@[i as int].1@, kb);
                    }
                    assert(key_bytes(registry@) == before.insert(address_in_key(pair.0@), kb));
                },
            }
        }
        i = i + 1;
    }
    Ok(registry)
}

/// A stored registry reads back: the entries that are written for a registry
/// say what the registry says, and the count tells that there are some.
pub proof fn law_stored_registry_reads_back(
    registry: ValidatorIdentityRegistry,
    batch: Seq<(Vec<u8>, Vec<u8>)>,
)
    requires
        registry.wf(),
        registry.size() < 0x1_0000_0000,
        batch.len() == registry.size() + 1,
        forall|i: int|
            0 <= i < registry.size() ==> {
                &&& (#[trigger] batch[i]).0@ == identity_prefix() + registry.address_in_order(i)
                &&& registry@.dom().contains(registry.address_in_order(i))
                &&& registry@[registry.address_in_order(i)]@.len() <= MAX_SEQUENCE_LENGTH
                &&& batch[i].1@ == identity_layout(registry@[registry.address_in_order(i)]@, 0)
            },
        batch[registry.size() as int].1@ == le_bytes((registry.size() as u32) as nat, 4),
    ensures
        collected(batch, registry.size() as int) == key_bytes(registry@),
        counts_any(Some(batch[registry.size() as int].1@)) <==> registry.size() > 0,
{
    let n = registry.size() as int;
    lemma_pow256_values();
    lemma_le_roundtrip(registry.size(), 4);
    lemma_bytes_len(registry.size(), 4);
    registry.table.lemma_positions();
    lemma_collected_prefix(registry, batch, n);
    assert(collected(batch, n) =~= key_bytes(registry@)) by {
        assert forall|a: Seq<u8>| key_bytes(registry@).dom().contains(a) implies collected(
            batch,
            n,
        ).dom().contains(a) by {
            let k = choose|k: int| 0 <= k < n && registry.table.key_in_order(k) == a;
            assert(registry.address_in_order(k) == a);
        }
    }
}

proof fn lemma_collected_prefix(
    registry: ValidatorIdentityRegistry,
    batch: Seq<(Vec<u8>, Vec<u8>)>,
    n: int,
)
    requires
        registry.wf(),
        0 <= n <= registry.size(),
        n <= batch.len(),
        forall|i: int|
            0 <= i < n ==> {
                &&& (#[trigger] batch[i]).0@ == identity_prefix() + registry.address_in_order(i)
                &&& registry@.dom().contains(registry.address_in_order(i))
                &&& registry@[registry.address_in_order(i)]@.len() <= MAX_SEQUENCE_LENGTH
                &&& batch[i].1@ == identity_layout(registry@[registry.address_in_order(i)]@, 0)
            },
    ensures
        forall|a: Seq<u8>| #[trigger]
            collected(batch, n).dom().contains(a) ==> registry@.dom().contains(a) && collected(
                batch,
                n,
            )[a] == registry@[a]@,
        forall|i: int|
            0 <= i < n ==> collected(batch, n).dom().contains(#[trigger] registry.address_in_order(i)),
    decreases n,
{
    if n > 0 {
        lemma_collected_prefix(registry, batch, n - 1);
        let addr = registry.address_in_order(n - 1);
        let key = registry@[addr]@;
        assert(batch[n - 1].0@ == identity_prefix() + addr);
        registry.table.lemma_positions();
        assert(is_identity_key(batch[n - 1].0@));
        assert(address_in_key(batch[n - 1].0@) =~= addr);
        assert(identity_layout(key, 0) == batch[n - 1].1@);
        assert(stored_key(batch[n - 1].1@, key));
        lemma_one_stored_key(batch[n - 1].1@, key);
        let rest = collected(batch, n - 1);
        assert(collected(batch, n) == rest.insert(addr, key));
        assert forall|a: Seq<u8>| #[trigger] collected(batch, n).dom().contains(a) implies registry@.dom().contains(
            a,
        ) && collected(batch, n)[a] == registry@[a]@ by {
            if a != addr {
                assert(rest.dom().contains(a));
            }
        }
        assert forall|i: int| 0 <= i < n implies collected(batch, n).dom().contains(
            #[trigger] registry.address_in_order(i),
        ) by {
            if i < n - 1 {
                assert(rest.dom().contains(registry.address_in_order(i)));
            }
        }
    }
}

} // verus!
