//! Which peers a node starts with, and whose keys it signs with.

use vstd::prelude::*;
use vstd::string::*;

use crate::node::validator_discovery::{
    address_to_string, attends_to, boot_node_added, boot_node_dialed, boot_node_from_parts,
    boot_node_outcome, extract_peer_id, first_peer, genesis_record, is_record_of, multiaddr_parts,
    peer_id_bytes, read_boot_node, register_boot_nodes, seed_genesis_validators, strip_p2p_suffix,
    viewed_boot_node, viewed_parts, without_peers, AddressPart, BootNode, GenesisValidator,
    NodeRecord, RegistrationAction,
};
use crate::node::validator_keys::{
    check_file_permissions, is_space, json_digits, key_derived, key_judged, key_read, keys_paired,
    load_or_derive_verify_key, load_validator_keys, plain_digits, public_digits, secret_digits,
    seen, trim, trimmed, verify_key_found, KeyDirectory, KeyFile, ValidatorKeyPair,
};
use crate::primitives::hexadecimal::{hex_decoded, HexError};
use crate::primitives::text::{decimal, digit_char};

verus! {

/// Whether a part of an address is the first that names a peer.
pub open spec fn names_first(parts: Seq<AddressPart>, i: int) -> bool {
    &&& 0 <= i < parts.len()
    &&& parts[i].peer is Some
    &&& forall|j: int| 0 <= j < i ==> (#[trigger] parts[j]).peer is None
}

/// Whether no part of an address names a peer.
pub open spec fn names_nobody(parts: Seq<AddressPart>) -> bool {
    forall|j: int| 0 <= j < parts.len() ==> (#[trigger] parts[j]).peer is None
}

proof fn lemma_first_peer(parts: Seq<AddressPart>)
    ensures
        first_peer(viewed_parts(parts)) is None <==> names_nobody(parts),
        forall|i: int| #[trigger]
            names_first(parts, i) ==> first_peer(viewed_parts(parts)) == Some(
                parts[i].peer->Some_0@,
            ),
        first_peer(viewed_parts(parts)) is Some ==> exists|i: int| #[trigger]
            names_first(parts, i),
    decreases parts.len(),
{
    let views = viewed_parts(parts);
    if parts.len() > 0 {
        assert(views[0] == parts[0]@);
        if parts[0].peer is Some {
            assert(names_first(parts, 0));
            assert forall|i: int| #[trigger] names_first(parts, i) implies first_peer(views)
                == Some(parts[i].peer->Some_0@) by {
                if i > 0 {
                    assert(parts[0].peer is None);
                }
            }
        } else {
            let rest = parts.drop_first();
            lemma_first_peer(rest);
            assert(viewed_parts(rest) =~= views.drop_first());
            assert forall|j: int| 0 <= j < rest.len() implies rest[j] == #[trigger] parts[
                j + 1
            ] by {}
            if names_nobody(rest) {
                assert forall|j: int| 0 <= j < parts.len() implies (
                #[trigger] parts[j]).peer is None by {
                    if j > 0 {
                        assert(rest[j - 1] == parts[j]);
                    }
                }
            }
            if names_nobody(parts) {
                assert forall|j: int| 0 <= j < rest.len() implies (
                #[trigger] rest[j]).peer is None by {
                    assert(rest[j] == parts[j + 1]);
                }
            }
            assert forall|i: int| #[trigger] names_first(parts, i) implies first_peer(views)
                == Some(parts[i].peer->Some_0@) by {
                assert(i > 0);
                assert(rest[i - 1] == parts[i]);
                assert forall|j: int| 0 <= j < i - 1 implies (
                #[trigger] rest[j]).peer is None by {
                    assert(rest[j] == parts[j + 1]);
                }
                assert(names_first(rest, i - 1));
            }
            if first_peer(views) is Some {
                let i = choose|i: int| #[trigger] names_first(rest, i);
                assert(rest[i] == parts[i + 1]);
                assert forall|j: int| 0 <= j < i + 1 implies (
                #[trigger] parts[j]).peer is None by {
                    if j > 0 {
                        assert(rest[j - 1] == parts[j]);
                    }
                }
                assert(names_first(parts, i + 1));
            }
        }
    }
}

/// The peer of an address is the first that one of its parts names.
pub proof fn law_peers_are_the_first_named(address: Vec<AddressPart>, r: Option<Vec<u8>>)
    requires
        call_ensures(extract_peer_id, (&address,), r),
    ensures
        r is None <==> names_nobody(address@),
        forall|i: int| #[trigger]
            names_first(address@, i) ==> r is Some && r->Some_0@ == address@[i].peer->Some_0@,
{
    lemma_first_peer(address@);
}

/// Whether the places are those of the parts that name no peer, each once and
/// in their order.
pub open spec fn are_places_without_peers(places: Seq<int>, parts: Seq<AddressPart>) -> bool {
    &&& forall|k: int|
        0 <= k < places.len() ==> 0 <= #[trigger] places[k] < parts.len()
            && parts[places[k]].peer is None
    &&& forall|j: int, k: int| 0 <= j < k < places.len() ==> places[j] < places[k]
    &&& forall|i: int|
        0 <= i < parts.len() && (#[trigger] parts[i]).peer is None ==> places.contains(i)
}

proof fn lemma_without_peers(parts: Seq<AddressPart>) -> (places: Seq<int>)
    ensures
        are_places_without_peers(places, parts),
        without_peers(viewed_parts(parts)).len() == places.len(),
        forall|k: int|
            0 <= k < places.len() ==> #[trigger] without_peers(viewed_parts(parts))[k]
                == parts[places[k]]@,
    decreases parts.len(),
{
    let views = viewed_parts(parts);
    if parts.len() == 0 {
        Seq::empty()
    } else {
        let earlier = parts.drop_last();
        let before = lemma_without_peers(earlier);
        assert(viewed_parts(earlier) =~= views.drop_last());
        assert(views.last() == parts.last()@);
        assert forall|i: int| 0 <= i < earlier.len() implies #[trigger] earlier[i]
            == parts[i] by {}
        let n = parts.len() - 1;
        if parts.last().peer is Some {
            assert forall|i: int|
                0 <= i < parts.len() && (
                #[trigger] parts[i]).peer is None implies before.contains(i) by {
                assert(earlier[i] == parts[i]);
            }
            before
        } else {
            let places = before.push(n);
            assert forall|i: int|
                0 <= i < parts.len() && (
                #[trigger] parts[i]).peer is None implies places.contains(i) by {
                if i < n {
                    assert(earlier[i] == parts[i]);
                    let k = choose|k: int| 0 <= k < before.len() && before[k] == i;
                    assert(places[k] == i);
                } else {
                    assert(places[before.len() as int] == i);
                }
            }
            places
        }
    }
}

/// Whether an address is another without the parts that name peers.
pub open spec fn is_stripped(stripped: Seq<AddressPart>, parts: Seq<AddressPart>) -> bool {
    exists|places: Seq<int>|
        {
            &&& #[trigger] are_places_without_peers(places, parts)
            &&& stripped.len() == places.len()
            &&& forall|k: int|
                0 <= k < places.len() ==> (#[trigger] stripped[k]).peer is None && stripped[k].text@
                    == parts[places[k]].text@
        }
}

proof fn lemma_stripped(stripped: Seq<AddressPart>, parts: Seq<AddressPart>)
    requires
        viewed_parts(stripped) == without_peers(viewed_parts(parts)),
    ensures
        is_stripped(stripped, parts),
{
    let places = lemma_without_peers(parts);
    let views = viewed_parts(stripped);
    assert(stripped.len() == views.len());
    assert forall|k: int| 0 <= k < places.len() implies (#[trigger] stripped[k]).peer is None
        && stripped[k].text@ == parts[places[k]].text@ by {
        assert(views[k] == stripped[k]@);
        assert(views[k] == parts[places[k]]@);
    }
    assert(are_places_without_peers(places, parts));
}

/// A stripped address has every part that names no peer, and no other.
pub proof fn law_stripping_takes_the_peers_out(address: Vec<AddressPart>, r: Vec<AddressPart>)
    requires
        call_ensures(strip_p2p_suffix, (&address,), r),
    ensures
        is_stripped(r@, address@),
{
    lemma_stripped(r@, address@);
}

/// An address is written as the texts of its parts, one behind the other.
pub proof fn law_addresses_are_written_part_by_part(
    address: Vec<AddressPart>,
    longer: Vec<AddressPart>,
    part: AddressPart,
    empty: Vec<AddressPart>,
    text: String,
    longer_text: String,
    empty_text: String,
)
    requires
        longer@ == address@.push(part),
        empty@.len() == 0,
        call_ensures(address_to_string, (&address,), text),
        call_ensures(address_to_string, (&longer,), longer_text),
        call_ensures(address_to_string, (&empty,), empty_text),
    ensures
        longer_text@ == text@ + part.text@,
        empty_text@.len() == 0,
{
    let views = viewed_parts(longer@);
    assert(views.drop_last() =~= viewed_parts(address@));
    assert(views.last() == part@);
}

/// A boot node is the peer that its address names first, to be dialed at the
/// rest of the address; without a peer it is none.
pub proof fn law_boot_nodes_are_named(
    i: usize,
    raw: &str,
    parts: Vec<AddressPart>,
    r: Result<BootNode, String>,
)
    requires
        call_ensures(boot_node_from_parts, (i, raw, &parts), r),
    ensures
        r is Err <==> names_nobody(parts@),
        r is Err ==> r->Err_0@ == "boot_nodes["@ + decimal(i as nat) + "]: "@ + "multiaddr '"@
            + raw@ + "' missing /p2p/<peer-id> suffix"@,
        r is Ok ==> is_stripped(r->Ok_0.dial_addr@, parts@),
        forall|k: int| #[trigger]
            names_first(parts@, k) ==> r is Ok && r->Ok_0.peer_id@ == parts@[k].peer->Some_0@,
{
    lemma_first_peer(parts@);
    if r is Ok {
        lemma_stripped(r->Ok_0.dial_addr@, parts@);
    }
}

/// Whether `r` is the boot node that a text describes: the text is an address,
/// and the boot node is the one that its parts name.
pub open spec fn is_described(r: Result<BootNode, String>, raw: Seq<char>) -> bool {
    &&& multiaddr_parts(raw) is None ==> r is Err
    &&& forall|parts: Seq<AddressPart>|
        multiaddr_parts(raw) == Some(#[trigger] viewed_parts(parts)) ==> {
            &&& r is Err <==> names_nobody(parts)
            &&& r is Ok ==> is_stripped(r->Ok_0.dial_addr@, parts)
            &&& forall|k: int| #[trigger]
                names_first(parts, k) ==> r->Ok_0.peer_id@ == parts[k].peer->Some_0@
        }
}

proof fn lemma_described(r: Result<BootNode, String>, i: usize, raw: Seq<char>)
    requires
        viewed_boot_node(r) == boot_node_outcome(i, raw),
    ensures
        is_described(r, raw),
{
    assert forall|parts: Seq<AddressPart>|
        multiaddr_parts(raw) == Some(#[trigger] viewed_parts(parts)) implies {
        &&& r is Err <==> names_nobody(parts)
        &&& r is Ok ==> is_stripped(r->Ok_0.dial_addr@, parts)
        &&& forall|k: int| #[trigger]
            names_first(parts, k) ==> r->Ok_0.peer_id@ == parts[k].peer->Some_0@
    } by {
        lemma_first_peer(parts);
        if r is Ok {
            lemma_stripped(r->Ok_0.dial_addr@, parts);
        }
    }
}

/// A boot node is read from the text that describes it.
pub proof fn law_boot_nodes_are_read(i: usize, raw: &str, r: Result<BootNode, String>)
    requires
        call_ensures(read_boot_node, (i, raw), r),
    ensures
        is_described(r, raw@),
        multiaddr_parts(raw@) is None ==> r->Err_0@ == "boot_nodes["@ + decimal(i as nat) + "]: "@
            + "invalid multiaddr '"@ + raw@ + "'"@,
{
    lemma_described(r, i, raw@);
}

/// Whether an action is the one that is due after so many boot nodes: to add
/// the next one, to stop where it cannot be read, to finish after the last.
pub open spec fn is_due(action: RegistrationAction, nodes: Seq<String>, done: int) -> bool {
    if done >= nodes.len() {
        action is Finish && action->Finish_0 is Ok && action->Finish_0->Ok_0 == nodes.len()
    } else {
        ||| action is Add && is_described(Ok(action->Add_0), nodes[done]@)
        ||| action is Finish && action->Finish_0 is Err && is_described(
            Err(action->Finish_0->Err_0),
            nodes[done]@,
        )
    }
}

proof fn lemma_due(action: RegistrationAction, nodes: Seq<String>, done: int)
    requires
        attends_to(action, nodes, done),
        0 <= done,
        nodes.len() <= usize::MAX,
    ensures
        is_due(action, nodes, done),
{
    if done < nodes.len() {
        if action is Add {
            lemma_described(Ok(action->Add_0), done as usize, nodes[done]@);
        } else {
            lemma_described(Err(action->Finish_0->Err_0), done as usize, nodes[done]@);
        }
    }
}

/// Boot nodes are added one after the other, each is dialed once it was added,
/// and the first failure ends it all.
pub proof fn law_boot_nodes_are_registered_in_order(
    nodes: Vec<String>,
    done: usize,
    first: RegistrationAction,
    outcome: Result<(), String>,
    added: RegistrationAction,
    next: (usize, RegistrationAction),
)
    requires
        nodes@.len() <= usize::MAX,
        done < nodes@.len(),
        call_ensures(register_boot_nodes, (&nodes, done), first),
        call_ensures(boot_node_added, (done, outcome), added),
        call_ensures(boot_node_dialed, (&nodes, done), next),
    ensures
        is_due(first, nodes@, done as int),
        outcome is Ok ==> added is Dial && added->Dial_0 == done,
        outcome is Err ==> added is Finish && added->Finish_0 is Err && added->Finish_0->Err_0
            == outcome->Err_0,
        next.0 == done + 1,
        is_due(next.1, nodes@, done + 1),
{
    lemma_due(first, nodes@, done as int);
    lemma_due(next.1, nodes@, done + 1);
}

/// After the last boot node there is nothing more to register.
pub proof fn law_registration_ends(nodes: Vec<String>, done: usize, r: RegistrationAction)
    requires
        nodes@.len() <= done,
        call_ensures(register_boot_nodes, (&nodes, done), r),
    ensures
        r is Finish,
        r->Finish_0 is Ok,
        r->Finish_0->Ok_0 == nodes@.len(),
{
}

/// Whether a record is that of a genesis validator with a peer identifier: its
/// key and its stake, and nothing that only contact would tell.
pub open spec fn is_record_for(
    record: NodeRecord,
    entry: GenesisValidator,
    peer: Seq<u8>,
) -> bool {
    &&& record.peer_id@ == peer
    &&& hex_decoded(entry.dilithium_verify_key_hex@) == Ok::<Seq<u8>, HexError>(
        record.dilithium_pubkey@,
    )
    &&& record.validator_stake is Some
    &&& record.validator_stake->Some_0 == entry.stake.0
    &&& record.addresses@.len() == 0
    &&& record.reputation == 0
    &&& record.last_seen == 0
}

/// A genesis validator becomes a record where its key is hexadecimal and its
/// peer identifier is one.
pub proof fn law_genesis_validators_become_records(
    i: usize,
    entry: GenesisValidator,
    peer: Option<Vec<u8>>,
    r: Result<NodeRecord, String>,
)
    requires
        call_ensures(genesis_record, (i, &entry, peer), r),
    ensures
        r is Ok <==> hex_decoded(entry.dilithium_verify_key_hex@) is Ok && peer is Some,
        r is Ok ==> is_record_for(r->Ok_0, entry, peer->Some_0@),
        hex_decoded(entry.dilithium_verify_key_hex@) is Err ==> r->Err_0@
            == "invalid dilithium hex for validator "@ + decimal(i as nat),
        hex_decoded(entry.dilithium_verify_key_hex@) is Ok && peer is None ==> r->Err_0@
            == "invalid network_peer_id for validator "@ + decimal(i as nat) + ": "@
            + entry.network_peer_id@,
{
}

/// Whether a genesis validator can become a record.
pub open spec fn is_sound(entry: GenesisValidator) -> bool {
    hex_decoded(entry.dilithium_verify_key_hex@) is Ok && peer_id_bytes(
        entry.network_peer_id@,
    ) is Some
}

/// Whether a record is that of a sound genesis validator.
pub open spec fn is_seeded(record: NodeRecord, entry: GenesisValidator) -> bool {
    is_sound(entry) && is_record_for(
        record,
        entry,
        peer_id_bytes(entry.network_peer_id@)->Some_0,
    )
}

/// The genesis validators become records one after the other, all of them
/// where all are sound and else those before the first that is not.
pub proof fn law_sound_validators_are_seeded(
    validators: Vec<GenesisValidator>,
    r: (Vec<NodeRecord>, Result<usize, String>),
)
    requires
        call_ensures(seed_genesis_validators, (&validators,), r),
    ensures
        r.1 is Ok <==> forall|i: int|
            0 <= i < validators@.len() ==> is_sound(#[trigger] validators@[i]),
        r.1 is Ok ==> r.1->Ok_0 == validators@.len() && r.0@.len() == validators@.len(),
        r.1 is Err ==> r.0@.len() < validators@.len() && !is_sound(
            validators@[r.0@.len() as int],
        ),
        forall|i: int|
            0 <= i < r.0@.len() ==> is_seeded(#[trigger] r.0@[i], validators@[i]),
{
    assert forall|i: int| 0 <= i < r.0@.len() implies is_seeded(
        #[trigger] r.0@[i],
        validators@[i],
    ) by {
        assert(is_record_of(r.0@, validators@, i));
    }
    if r.1 is Ok {
        assert forall|i: int| 0 <= i < validators@.len() implies is_sound(
            #[trigger] validators@[i],
        ) by {
            assert(is_seeded(r.0@[i], validators@[i]));
        }
    }
}

/// A key file is refused where its mode is not known or lets anyone but its
/// owner in.
pub proof fn law_only_private_files_are_accepted(
    path: &str,
    mode: Option<u32>,
    r: Result<(), String>,
)
    requires
        call_ensures(check_file_permissions, (path, mode), r),
    ensures
        r is Ok <==> mode is Some && mode->Some_0 & 0o077 == 0,
        mode is None ==> r->Err_0@ == "failed to read metadata for "@ + path@,
        mode is Some && r is Err ==> r->Err_0@ == "validator key file "@ + path@
            + " has overly permissive mode "@ + seq![
            '0',
            digit_char(((mode->Some_0 / 64) % 8) as nat),
            digit_char(((mode->Some_0 / 8) % 8) as nat),
            digit_char((mode->Some_0 % 8) as nat),
        ] + " \u{2014} expected 0600 (owner read/write only). Fix with: chmod 600 "@ + path@,
{
    if mode is Some {
        let bits = mode->Some_0;
        assert(bits & 0o077 == bits % 64) by (bit_vector);
    }
}

/// Whether a character is white space.
pub open spec fn is_blank(c: char) -> bool {
    let n = c as u32;
    ||| c == ' ' || c == '\t' || c == '\n' || c == '\r'
    ||| n == 11 || n == 12 || n == 0x85 || n == 0xa0 || n == 0x1680
    ||| 0x2000 <= n <= 0x200a
    ||| n == 0x2028 || n == 0x2029 || n == 0x202f || n == 0x205f || n == 0x3000
}

/// Whether a text consists of white space.
pub open spec fn all_blank(text: Seq<char>) -> bool {
    forall|i: int| 0 <= i < text.len() ==> is_blank(#[trigger] text[i])
}

proof fn lemma_blank(c: char)
    ensures
        is_blank(c) <==> is_space(c),
{
}

/// Whether a text is this one between white space on the left and on the right.
pub open spec fn is_between(
    inner: Seq<char>,
    left: Seq<char>,
    right: Seq<char>,
    text: Seq<char>,
) -> bool {
    &&& text == left + inner + right
    &&& all_blank(left)
    &&& all_blank(right)
}

/// Whether a text is another without the white space at both of its ends.
pub open spec fn is_trimmed(inner: Seq<char>, text: Seq<char>) -> bool {
    &&& exists|left: Seq<char>, right: Seq<char>| #[trigger]
        is_between(inner, left, right, text)
    &&& inner.len() > 0 ==> !is_blank(inner[0]) && !is_blank(inner.last())
}

proof fn lemma_trimmed(text: Seq<char>)
    ensures
        is_trimmed(trimmed(text), text),
    decreases text.len(),
{
    let inner = trimmed(text);
    let none = Seq::<char>::empty();
    if text.len() == 0 {
        assert(text =~= none + inner + none);
        assert(is_between(inner, none, none, text));
    } else {
        lemma_blank(text.last());
        lemma_blank(text[0]);
        if is_space(text.last()) {
            let shorter = text.drop_last();
            lemma_trimmed(shorter);
            let (left, right) = choose|left: Seq<char>, right: Seq<char>| #[trigger]
                is_between(inner, left, right, shorter);
            let wider = right.push(text.last());
            assert(shorter == left + inner + right);
            assert(text =~= shorter.push(text.last()));
            assert(text =~= left + inner + wider);
            assert(is_between(inner, left, wider, text));
        } else if is_space(text[0]) {
            let shorter = text.drop_first();
            lemma_trimmed(shorter);
            let (left, right) = choose|left: Seq<char>, right: Seq<char>| #[trigger]
                is_between(inner, left, right, shorter);
            let wider = seq![text[0]] + left;
            assert(shorter == left + inner + right);
            assert(text =~= seq![text[0]] + shorter);
            assert(text =~= wider + inner + right);
            assert(is_between(inner, wider, right, text));
        } else {
            assert(text =~= none + inner + none);
            assert(is_between(inner, none, none, text));
        }
    }
}

/// Trimming takes the white space off both ends, and nothing else.
pub proof fn law_trimming_takes_white_space_off(text: &str, r: String)
    requires
        call_ensures(trim, (text,), r),
    ensures
        is_trimmed(r@, text@),
{
    lemma_trimmed(text@);
}

/// Whether a key is what a file holds: the digits of its JSON record, or its
/// text without the white space round it.
pub open spec fn is_held(key: Seq<u8>, file: KeyFile, json: bool) -> bool {
    &&& file.text is Some
    &&& json ==> file.hex is Some && hex_decoded(file.hex->Some_0@) == Ok::<Seq<u8>, HexError>(
        key,
    )
    &&& !json ==> exists|digits: Seq<char>|
        is_trimmed(digits, file.text->Some_0@) && #[trigger] hex_decoded(digits) == Ok::<
            Seq<u8>,
            HexError,
        >(key)
}

/// Whether the key of a directory is held in a JSON file where there is one, and
/// else in a plain one.
pub open spec fn is_held_in(key: Seq<u8>, json: Option<KeyFile>, plain: Option<KeyFile>) -> bool {
    &&& json is Some ==> is_held(key, json->Some_0, true)
    &&& json is None ==> plain is Some && is_held(key, plain->Some_0, false)
}

/// Whether a file is its owner's alone.
pub open spec fn is_private(file: KeyFile) -> bool {
    file.mode is Some && file.mode->Some_0 & 0o077 == 0
}

/// Whether a key was accepted.
pub open spec fn was_accepted<F: Fn(&Vec<u8>) -> bool>(accept: F, key: Seq<u8>) -> bool {
    exists|arg: Vec<u8>| arg@ == key && #[trigger] accept.ensures((&arg,), true)
}

/// Whether a public key is the one of a directory: that of its public key file,
/// if it was accepted, and without one that which belongs to the secret key.
pub open spec fn is_public_key<
    V: Fn(&Vec<u8>) -> bool,
    D: Fn(&Vec<u8>) -> Option<Vec<u8>>,
>(
    key: Seq<u8>,
    dir: KeyDirectory,
    signing_key: Vec<u8>,
    accept_public: V,
    derive: D,
) -> bool {
    if dir.public_json is Some || dir.public_hex is Some {
        &&& is_held_in(key, dir.public_json, dir.public_hex)
        &&& was_accepted(accept_public, key)
    } else {
        exists|derived: Vec<u8>| #[trigger]
            derive.ensures((&signing_key,), Some(derived)) && derived@ == key
    }
}

proof fn lemma_public_key<V: Fn(&Vec<u8>) -> bool, D: Fn(&Vec<u8>) -> Option<Vec<u8>>>(
    key: Seq<u8>,
    dir: KeyDirectory,
    signing_key: Vec<u8>,
    accept_public: V,
    derive: D,
)
    requires
        verify_key_found(
            dir,
            signing_key,
            accept_public,
            derive,
            Ok::<Seq<u8>, Seq<char>>(key),
        ),
    ensures
        is_public_key(key, dir, signing_key, accept_public, derive),
{
    let r = Ok::<Seq<u8>, Seq<char>>(key);
    match public_digits(dir) {
        Some(digits) => {
            assert(key_read(digits, "falcon verify key"@, accept_public, r));
            assert(key_judged(accept_public, key, true));
            if dir.public_json is None {
                lemma_trimmed(dir.public_hex->Some_0.text->Some_0@);
            }
        },
        None => {
            let found = choose|verify_key: Option<Vec<u8>>|
                {
                    &&& #[trigger] key_derived(derive, signing_key, verify_key)
                    &&& r == match verify_key {
                        Some(key) => Ok::<Seq<u8>, Seq<char>>(key@),
                        None => Err(
                            "no Falcon public key file found in "@ + dir.path@
                                + " (expected falcon-public.json or falcon.vk)"@,
                        ),
                    }
                };
            assert(derive.ensures((&signing_key,), Some(found->Some_0)));
        },
    }
}

/// The public key is that of its file, and without one that which belongs to
/// the secret key.
pub proof fn law_public_keys_come_of_file_or_secret<
    V: Fn(&Vec<u8>) -> bool,
    D: Fn(&Vec<u8>) -> Option<Vec<u8>>,
>(
    dir: KeyDirectory,
    signing_key: Vec<u8>,
    accept_public: V,
    derive: D,
    r: Result<Vec<u8>, String>,
)
    requires
        call_ensures(
            load_or_derive_verify_key::<V, D>,
            (&dir, &signing_key, &accept_public, &derive),
            r,
        ),
    ensures
        r is Ok ==> is_public_key(r->Ok_0@, dir, signing_key, accept_public, derive),
{
    if r is Ok {
        assert(seen(r) == Ok::<Seq<u8>, Seq<char>>(r->Ok_0@));
        lemma_public_key(r->Ok_0@, dir, signing_key, accept_public, derive);
    }
}

/// Keys are loaded from a directory alone, the secret one from a file that is
/// its owner's alone and the public one as of that directory, and only such as
/// were accepted.
pub proof fn law_keys_are_those_of_the_directory<
    S: Fn(&Vec<u8>) -> bool,
    V: Fn(&Vec<u8>) -> bool,
    D: Fn(&Vec<u8>) -> Option<Vec<u8>>,
>(
    dir: KeyDirectory,
    accept_secret: S,
    accept_public: V,
    derive: D,
    keys: ValidatorKeyPair,
)
    requires
        call_ensures(
            load_validator_keys::<S, V, D>,
            (&dir, &accept_secret, &accept_public, &derive),
            Ok(keys),
        ),
    ensures
        dir.exists && dir.is_dir,
        is_held_in(keys.signing_key@, dir.secret_json, dir.secret_hex),
        dir.secret_json is Some ==> is_private(dir.secret_json->Some_0),
        dir.secret_json is None ==> is_private(dir.secret_hex->Some_0),
        was_accepted(accept_secret, keys.signing_key@),
        is_public_key(keys.verify_key@, dir, keys.signing_key, accept_public, derive),
{
    let secret = choose|secret: Result<Seq<u8>, Seq<char>>|
        {
            &&& #[trigger] key_read(secret_digits(dir), "falcon secret key"@, accept_secret, secret)
            &&& match secret {
                Err(m) => false,
                Ok(bytes) => exists|signing_key: Vec<u8>, public: Result<Seq<u8>, Seq<char>>|
                    {
                        &&& #[trigger] verify_key_found(
                            dir,
                            signing_key,
                            accept_public,
                            derive,
                            public,
                        )
                        &&& signing_key@ == bytes
                        &&& keys_paired(Ok(keys), signing_key, public)
                    },
            }
        };
    let bytes = secret->Ok_0;
    let (signing_key, public) = choose|signing_key: Vec<u8>, public: Result<Seq<u8>, Seq<char>>|
        {
            &&& #[trigger] verify_key_found(dir, signing_key, accept_public, derive, public)
            &&& signing_key@ == bytes
            &&& keys_paired(Ok(keys), signing_key, public)
        };
    assert(public == Ok::<Seq<u8>, Seq<char>>(keys.verify_key@));
    lemma_public_key(keys.verify_key@, dir, signing_key, accept_public, derive);
    assert(key_judged(accept_secret, bytes, true));
    if dir.secret_json is Some {
        let bits = dir.secret_json->Some_0.mode->Some_0;
        assert(bits & 0o077 == bits % 64) by (bit_vector);
    } else {
        let bits = dir.secret_hex->Some_0.mode->Some_0;
        assert(bits & 0o077 == bits % 64) by (bit_vector);
        lemma_trimmed(dir.secret_hex->Some_0.text->Some_0@);
    }
}

/// Whether a file can be read and holds a key that is not refused.
pub open spec fn holds_key<F: Fn(&Vec<u8>) -> bool>(
    file: KeyFile,
    json: bool,
    accept: F,
    key: Seq<u8>,
) -> bool {
    &&& is_held(key, file, json)
    &&& forall|arg: Vec<u8>| arg@ == key ==> !#[trigger] accept.ensures((&arg,), false)
}

proof fn lemma_blank_ends(left: Seq<char>, inner: Seq<char>, right: Seq<char>)
    requires
        all_blank(left),
        all_blank(right),
        inner.len() > 0,
        !is_blank(inner[0]),
        !is_blank(inner.last()),
    ensures
        trimmed(left + inner + right) == inner,
    decreases left.len() + right.len(),
{
    let text = left + inner + right;
    lemma_blank(text.last());
    lemma_blank(text[0]);
    if right.len() > 0 {
        assert(text.last() == right.last());
        assert(is_blank(right.last()));
        let shorter = right.drop_last();
        assert(text.drop_last() =~= left + inner + shorter);
        lemma_blank_ends(left, inner, shorter);
    } else {
        assert(text.last() == inner.last());
        if left.len() > 0 {
            assert(text[0] == left[0]);
            assert(is_blank(left[0]));
            let shorter = left.drop_first();
            assert(text.drop_first() =~= shorter + inner + right);
            lemma_blank_ends(shorter, inner, right);
        } else {
            assert(text =~= inner);
        }
    }
}

proof fn lemma_all_blank_trims_away(text: Seq<char>)
    requires
        all_blank(text),
    ensures
        trimmed(text).len() == 0,
    decreases text.len(),
{
    if text.len() > 0 {
        lemma_blank(text.last());
        assert(is_blank(text.last()));
        assert(all_blank(text.drop_last()));
        lemma_all_blank_trims_away(text.drop_last());
    }
}

proof fn lemma_trimming_is_unique(inner: Seq<char>, text: Seq<char>)
    requires
        is_trimmed(inner, text),
    ensures
        trimmed(text) == inner,
{
    let (left, right) = choose|left: Seq<char>, right: Seq<char>| #[trigger]
        is_between(inner, left, right, text);
    if inner.len() > 0 {
        lemma_blank_ends(left, inner, right);
    } else {
        assert(text =~= left + right);
        assert(all_blank(text));
        lemma_all_blank_trims_away(text);
        assert(inner =~= trimmed(text));
    }
}

proof fn lemma_held_digits(file: KeyFile, json: bool, key: Seq<u8>)
    requires
        is_held(key, file, json),
    ensures
        json ==> json_digits(file) is Ok && hex_decoded(json_digits(file)->Ok_0) == Ok::<
            Seq<u8>,
            HexError,
        >(key),
        !json ==> plain_digits(file) is Ok && hex_decoded(plain_digits(file)->Ok_0) == Ok::<
            Seq<u8>,
            HexError,
        >(key),
{
    if !json {
        let digits = choose|digits: Seq<char>|
            is_trimmed(digits, file.text->Some_0@) && #[trigger] hex_decoded(digits) == Ok::<
                Seq<u8>,
                HexError,
            >(key);
        lemma_trimming_is_unique(digits, file.text->Some_0@);
    }
}

/// A directory with a private secret key file gives its keys: those that its
/// files hold, if they are not refused, and in want of a public one that which
/// belongs to the secret key.
pub proof fn law_sound_directories_give_their_keys<
    S: Fn(&Vec<u8>) -> bool,
    V: Fn(&Vec<u8>) -> bool,
    D: Fn(&Vec<u8>) -> Option<Vec<u8>>,
>(
    dir: KeyDirectory,
    accept_secret: S,
    accept_public: V,
    derive: D,
    secret_file: KeyFile,
    secret_key: Seq<u8>,
    public_key: Seq<u8>,
    r: Result<ValidatorKeyPair, String>,
)
    requires
        call_ensures(
            load_validator_keys::<S, V, D>,
            (&dir, &accept_secret, &accept_public, &derive),
            r,
        ),
        dir.exists,
        dir.is_dir,
        dir.secret_json == Some(secret_file) || (dir.secret_json is None && dir.secret_hex == Some(
            secret_file,
        )),
        is_private(secret_file),
        holds_key(secret_file, dir.secret_json is Some, accept_secret, secret_key),
        dir.public_json is Some ==> holds_key(
            dir.public_json->Some_0,
            true,
            accept_public,
            public_key,
        ),
        dir.public_json is None && dir.public_hex is Some ==> holds_key(
            dir.public_hex->Some_0,
            false,
            accept_public,
            public_key,
        ),
        dir.public_json is None && dir.public_hex is None ==> forall|
            key: Vec<u8>,
            found: Option<Vec<u8>>,
        |
            key@ == secret_key && #[trigger] derive.ensures((&key,), found) ==> found is Some
                && found->Some_0@ == public_key,
    ensures
        r is Ok,
        r->Ok_0.signing_key@ == secret_key,
        r->Ok_0.verify_key@ == public_key,
{
    let bits = secret_file.mode->Some_0;
    assert(bits & 0o077 == bits % 64) by (bit_vector);
    lemma_held_digits(secret_file, dir.secret_json is Some, secret_key);
    if dir.public_json is Some {
        lemma_held_digits(dir.public_json->Some_0, true, public_key);
    } else if dir.public_hex is Some {
        lemma_held_digits(dir.public_hex->Some_0, false, public_key);
    }
    let secret = choose|secret: Result<Seq<u8>, Seq<char>>|
        {
            &&& #[trigger] key_read(secret_digits(dir), "falcon secret key"@, accept_secret, secret)
            &&& match secret {
                Err(m) => r is Err && r->Err_0@ == m,
                Ok(bytes) => exists|signing_key: Vec<u8>, public: Result<Seq<u8>, Seq<char>>|
                    {
                        &&& #[trigger] verify_key_found(
                            dir,
                            signing_key,
                            accept_public,
                            derive,
                            public,
                        )
                        &&& signing_key@ == bytes
                        &&& keys_paired(r, signing_key, public)
                    },
            }
        };
    assert(!key_judged(accept_secret, secret_key, false));
    assert(secret == Ok::<Seq<u8>, Seq<char>>(secret_key));
    let (signing_key, public) = choose|signing_key: Vec<u8>, public: Result<Seq<u8>, Seq<char>>|
        {
            &&& #[trigger] verify_key_found(dir, signing_key, accept_public, derive, public)
            &&& signing_key@ == secret_key
            &&& keys_paired(r, signing_key, public)
        };
    if public_digits(dir) is Some {
        assert(!key_judged(accept_public, public_key, false));
    } else {
        let found = choose|verify_key: Option<Vec<u8>>|
            {
                &&& #[trigger] key_derived(derive, signing_key, verify_key)
                &&& public == match verify_key {
                    Some(key) => Ok::<Seq<u8>, Seq<char>>(key@),
                    None => Err(
                        "no Falcon public key file found in "@ + dir.path@
                            + " (expected falcon-public.json or falcon.vk)"@,
                    ),
                }
            };
        assert(derive.ensures((&signing_key,), found));
    }
}

/// What is shown of two pairs of keys does not tell them apart.
pub proof fn law_keys_are_never_shown(
    a: ValidatorKeyPair,
    b: ValidatorKeyPair,
    shown_a: String,
    shown_b: String,
)
    requires
        call_ensures(ValidatorKeyPair::to_debug_string, (&a,), shown_a),
        call_ensures(ValidatorKeyPair::to_debug_string, (&b,), shown_b),
    ensures
        shown_a@ == shown_b@,
{
}

/// What keeps the keys of a directory from being loaded is said, with the path
/// of the directory.
pub proof fn law_unusable_directories_are_told<
    S: Fn(&Vec<u8>) -> bool,
    V: Fn(&Vec<u8>) -> bool,
    D: Fn(&Vec<u8>) -> Option<Vec<u8>>,
>(
    dir: KeyDirectory,
    accept_secret: S,
    accept_public: V,
    derive: D,
    r: Result<ValidatorKeyPair, String>,
)
    requires
        call_ensures(
            load_validator_keys::<S, V, D>,
            (&dir, &accept_secret, &accept_public, &derive),
            r,
        ),
    ensures
        !dir.exists ==> r is Err && r->Err_0@ == "validator key directory does not exist: "@
            + dir.path@,
        dir.exists && !dir.is_dir ==> r is Err && r->Err_0@
            == "validator key path is not a directory: "@ + dir.path@,
        dir.exists && dir.is_dir && dir.secret_json is None && dir.secret_hex is None ==> r is Err
            && r->Err_0@ == "no Falcon key file found in "@ + dir.path@
            + " (expected falcon-secret.json or falcon.sk)"@,
{
}

} // verus!
