//! Seeds the peer table from the genesis validators and reads the addresses of
//! boot nodes.

use vstd::prelude::*;
use vstd::string::*;

use crate::primitives::hexadecimal::{decode, hex_decoded, lemma_decoding_is_unique};
use crate::primitives::text::{decimal, decimal_text, join, join3};
use crate::primitives::Amount;

verus! {

/// What the discovery of validators did.
#[derive(Debug, Clone, Copy, PartialEq, Eq, Structural)]
pub struct ValidatorDiscoveryResult {
    /// Number of genesis validators seeded into the peer table.
    pub validators_seeded: usize,
    /// Number of boot nodes registered.
    pub boot_nodes_added: usize,
    /// Whether a bootstrap of the routing table was begun.
    pub bootstrap_initiated: bool,
}

/// A validator in the genesis configuration.
#[derive(Debug, Clone)]
pub struct GenesisValidator {
    /// Name of the validator.
    pub name: String,
    /// Dilithium verification key, in hexadecimal.
    pub dilithium_verify_key_hex: String,
    /// Identity on the network.
    pub network_peer_id: String,
    /// Stake of the validator.
    pub stake: Amount,
}

/// What the peer table holds of a peer.
#[derive(Debug, Clone)]
pub struct NodeRecord {
    /// Identity on the network, as bytes.
    pub peer_id: Vec<u8>,
    /// Known addresses.
    pub addresses: Vec<String>,
    /// Dilithium verification key.
    pub dilithium_pubkey: Vec<u8>,
    /// Reputation.
    pub reputation: u32,
    /// When the peer was last seen.
    pub last_seen: u64,
    /// Stake, if the peer is a validator.
    pub validator_stake: Option<u128>,
}

/// The bytes of the network identity that a text denotes, if it denotes one.
pub uninterp spec fn peer_id_bytes(text: Seq<char>) -> Option<Seq<u8>>;

/// A network identity's bytes that may be absent, by their view.
pub open spec fn optional_bytes(r: Option<Vec<u8>>) -> Option<Seq<u8>> {
    match r {
        Some(v) => Some(v@),
        None => None,
    }
}

/// `PeerId::from_str` of `libp2p`, with the identity taken as bytes: a
/// function of the text. Which texts denote an identity is not stated.
#[verifier::external_body]
fn parse_peer_id(text: &str) -> (r: Option<Vec<u8>>)
    ensures
        optional_bytes(r) == peer_id_bytes(text@),
{
    text.parse::<libp2p::PeerId>().ok().map(|peer| peer.to_bytes())
}

/// One component of a network address.
#[derive(Debug, Clone)]
pub struct AddressPart {
    /// The identity that the component names, if it is a `/p2p/` component.
    pub peer: Option<Vec<u8>>,
    /// The component as text.
    pub text: String,
}

impl View for AddressPart {
    type V = (Option<Seq<u8>>, Seq<char>);

    open spec fn view(&self) -> (Option<Seq<u8>>, Seq<char>) {
        (optional_bytes(self.peer), self.text@)
    }
}

/// The components of the network address that a text denotes, each with the
/// identity that it names, if it denotes one.
pub uninterp spec fn multiaddr_parts(text: Seq<char>) -> Option<Seq<(Option<Seq<u8>>, Seq<char>)>>;

/// Components by their views.
pub open spec fn viewed_parts(parts: Seq<AddressPart>) -> Seq<(Option<Seq<u8>>, Seq<char>)> {
    parts.map_values(|p: AddressPart| p@)
}

/// `Multiaddr::from_str` of `multiaddr`, with the components of the address
/// taken one by one: a function of the text. Which texts denote an address is
/// not stated.
#[verifier::external_body]
fn parse_multiaddr(text: &str) -> (r: Option<Vec<AddressPart>>)
    ensures
        match r {
            Some(parts) => multiaddr_parts(text@) == Some(viewed_parts(parts@)),
            None => multiaddr_parts(text@) is None,
        },
{
    let addr = text.parse::<libp2p::multiaddr::Multiaddr>().ok()?;
    Some(
        addr.iter().map(
            |part| AddressPart {
                text: part.to_string(),
                peer: match part {
                    libp2p::multiaddr::Protocol::P2p(peer) => Some(peer.to_bytes()),
                    _ => None,
                },
            },
        ).collect(),
    )
}

/// The first identity that a component names.
pub open spec fn first_peer(parts: Seq<(Option<Seq<u8>>, Seq<char>)>) -> Option<Seq<u8>>
    decreases parts.len(),
{
    if parts.len() == 0 {
        None
    } else if parts[0].0 is Some {
        parts[0].0
    } else {
        first_peer(parts.drop_first())
    }
}

/// The components that name no identity.
pub open spec fn without_peers(parts: Seq<(Option<Seq<u8>>, Seq<char>)>) -> Seq<
    (Option<Seq<u8>>, Seq<char>),
>
    decreases parts.len(),
{
    if parts.len() == 0 {
        Seq::empty()
    } else if parts.last().0 is Some {
        without_peers(parts.drop_last())
    } else {
        without_peers(parts.drop_last()).push(parts.last())
    }
}

fn copy_bytes(bytes: &Vec<u8>) -> (r: Vec<u8>)
    ensures
        r@ == bytes@,
{
    let r = bytes.clone();
    assert(r@ =~= bytes@);
    r
}

/// The identity that an address names in a `/p2p/` component.
pub fn extract_peer_id(addr: &Vec<AddressPart>) -> (r: Option<Vec<u8>>)
    ensures
        optional_bytes(r) == first_peer(viewed_parts(addr@)),
{
    let ghost all = viewed_parts(addr@);
    let mut i: usize = 0;
    assert(all.skip(0) =~= all);
    while i < addr.len()
        invariant
            0 <= i <= addr@.len(),
            all == viewed_parts(addr@),
            first_peer(all) == first_peer(all.skip(i as int)),
        decreases addr@.len() - i,
    {
        assert(all.skip(i as int)[0] == addr@[i as int]@);
        if let Some(peer) = &addr[i].peer {
            return Some(copy_bytes(peer));
        }
        assert(all.skip(i as int).drop_first() =~= all.skip(i + 1));
        i = i + 1;
    }
    assert(all.skip(i as int).len() == 0);
    None
}

/// The address without its `/p2p/` components.
pub fn strip_p2p_suffix(addr: &Vec<AddressPart>) -> (r: Vec<AddressPart>)
    ensures
        viewed_parts(r@) == without_peers(viewed_parts(addr@)),
{
    let ghost all = viewed_parts(addr@);
    let mut out: Vec<AddressPart> = Vec::new();
    let mut i: usize = 0;
    assert(viewed_parts(out@) =~= without_peers(all.take(0)));
    while i < addr.len()
        invariant
            0 <= i <= addr@.len(),
            all == viewed_parts(addr@),
            viewed_parts(out@) == without_peers(all.take(i as int)),
        decreases addr@.len() - i,
    {
        let ghost before = out@;
        assert(all.take(i + 1).drop_last() =~= all.take(i as int));
        assert(all.take(i + 1).last() == addr@[i as int]@);
        if addr[i].peer.is_none() {
            let part = AddressPart { peer: None, text: addr[i].text.clone() };
            assert(part@ == addr@[i as int]@);
            out.push(part);
            assert(viewed_parts(out@) =~= viewed_parts(before).push(addr@[i as int]@));
        }
        i = i + 1;
    }
    assert(all.take(i as int) =~= all);
    out
}

/// The text of an address: the texts of its components, one after the other.
pub open spec fn address_text(parts: Seq<(Option<Seq<u8>>, Seq<char>)>) -> Seq<char>
    decreases parts.len(),
{
    if parts.len() == 0 {
        Seq::empty()
    } else {
        address_text(parts.drop_last()) + parts.last().1
    }
}

/// Writes an address.
pub fn address_to_string(addr: &Vec<AddressPart>) -> (r: String)
    ensures
        r@ == address_text(viewed_parts(addr@)),
{
    let ghost all = viewed_parts(addr@);
    let mut out: String = "".to_owned();
    proof {
        reveal_strlit("");
        assert(out@ =~= address_text(all.take(0)));
    }
    let mut i: usize = 0;
    while i < addr.len()
        invariant
            0 <= i <= addr@.len(),
            all == viewed_parts(addr@),
            out@ == address_text(all.take(i as int)),
        decreases addr@.len() - i,
    {
        assert(all.take(i + 1).drop_last() =~= all.take(i as int));
        assert(all.take(i + 1).last() == addr@[i as int]@);
        out.append(addr[i].text.as_str());
        i = i + 1;
    }
    assert(all.take(i as int) =~= all);
    out
}

/// What is left of an address names no identity.
pub proof fn law_stripped_addresses_name_nobody(parts: Seq<(Option<Seq<u8>>, Seq<char>)>)
    ensures
        first_peer(without_peers(parts)) is None,
        forall|i: int|
            0 <= i < without_peers(parts).len() ==> (#[trigger] without_peers(parts)[i]).0 is None,
    decreases parts.len(),
{
    if parts.len() > 0 {
        law_stripped_addresses_name_nobody(parts.drop_last());
    }
    lemma_nobody(without_peers(parts));
}

proof fn lemma_nobody(parts: Seq<(Option<Seq<u8>>, Seq<char>)>)
    requires
        forall|i: int| 0 <= i < parts.len() ==> (#[trigger] parts[i]).0 is None,
    ensures
        first_peer(parts) is None,
    decreases parts.len(),
{
    if parts.len() > 0 {
        assert(parts[0].0 is None);
        assert forall|i: int| 0 <= i < parts.drop_first().len() implies (
        #[trigger] parts.drop_first()[i]).0 is None by {
            assert(parts.drop_first()[i] == parts[i + 1]);
        }
        lemma_nobody(parts.drop_first());
    }
}

/// A boot node: whom to dial and where.
#[derive(Debug, Clone)]
pub struct BootNode {
    /// Identity on the network, as bytes.
    pub peer_id: Vec<u8>,
    /// Address without the identity, for the routing table.
    pub dial_addr: Vec<AddressPart>,
}

/// How the report of a fault of the boot node with the number `i` begins.
pub open spec fn boot_node_label(i: usize) -> Seq<char> {
    "boot_nodes["@ + decimal(i as nat) + "]: "@
}

/// The identity and the address of the boot node with the number `i`, or why
/// its address is refused: it must be an address and name an identity.
pub open spec fn boot_node_outcome(i: usize, raw: Seq<char>) -> Result<
    (Seq<u8>, Seq<(Option<Seq<u8>>, Seq<char>)>),
    Seq<char>,
> {
    match multiaddr_parts(raw) {
        None => Err(boot_node_label(i) + "invalid multiaddr '"@ + raw + "'"@),
        Some(parts) => boot_node_of_parts(i, raw, parts),
    }
}

/// The part of [`boot_node_outcome`] that follows the reading of the address
/// into its components `parts`.
pub open spec fn boot_node_of_parts(
    i: usize,
    raw: Seq<char>,
    parts: Seq<(Option<Seq<u8>>, Seq<char>)>,
) -> Result<(Seq<u8>, Seq<(Option<Seq<u8>>, Seq<char>)>), Seq<char>> {
    match first_peer(parts) {
        None => Err(
            boot_node_label(i) + "multiaddr '"@ + raw + "' missing /p2p/<peer-id> suffix"@,
        ),
        Some(peer) => Ok((peer, without_peers(parts))),
    }
}

/// A boot node by its view.
pub open spec fn viewed_boot_node(r: Result<BootNode, String>) -> Result<
    (Seq<u8>, Seq<(Option<Seq<u8>>, Seq<char>)>),
    Seq<char>,
> {
    match r {
        Ok(node) => Ok((node.peer_id@, viewed_parts(node.dial_addr@))),
        Err(m) => Err(m@),
    }
}

fn label(i: usize) -> (r: String)
    ensures
        r@ == boot_node_label(i),
{
    join3("boot_nodes[", decimal_text(i as u64).as_str(), "]: ")
}

/// Takes the boot node with the number `i` from the components of its address.
pub fn boot_node_from_parts(i: usize, raw: &str, parts: &Vec<AddressPart>) -> (r: Result<
    BootNode,
    String,
>)
    ensures
        viewed_boot_node(r) == boot_node_of_parts(i, raw@, viewed_parts(parts@)),
{
    match extract_peer_id(parts) {
        Some(peer_id) => Ok(BootNode { peer_id, dial_addr: strip_p2p_suffix(parts) }),
        None => {
            let mut text = label(i);
            text.append("multiaddr '");
            text.append(raw);
            text.append("' missing /p2p/<peer-id> suffix");
            Err(text)
        },
    }
}

/// Reads the address of the boot node with the number `i`.
pub fn read_boot_node(i: usize, raw: &str) -> (r: Result<BootNode, String>)
    ensures
        viewed_boot_node(r) == boot_node_outcome(i, raw@),
{
    match parse_multiaddr(raw) {
        Some(parts) => boot_node_from_parts(i, raw, &parts),
        None => {
            let mut text = label(i);
            text.append("invalid multiaddr '");
            text.append(raw);
            text.append("'");
            Err(text)
        },
    }
}

/// The next thing to do in the registration of boot nodes.
#[derive(Debug)]
pub enum RegistrationAction {
    /// Add a node to the routing table.
    Add(BootNode),
    /// Dial the node with this number.
    Dial(usize),
    /// The registration is over: the number of nodes that were registered, or
    /// why it was given up.
    Finish(Result<usize, String>),
}

/// Whether `action` is what is due once the first `done` nodes are registered.
pub open spec fn attends_to(action: RegistrationAction, nodes: Seq<String>, done: int) -> bool {
    if done >= nodes.len() {
        action == RegistrationAction::Finish(Ok(nodes.len() as usize))
    } else {
        match boot_node_outcome(done as usize, nodes[done]@) {
            Ok(node) => {
                &&& action is Add
                &&& viewed_boot_node(Ok(action->Add_0)) == Ok::<_, Seq<char>>(node)
            },
            Err(m) => {
                &&& action is Finish
                &&& action->Finish_0 is Err
                &&& action->Finish_0->Err_0@ == m
            },
        }
    }
}

/// Registers boot nodes one after the other, where the first `done` are
/// registered: decides what comes next.
pub fn register_boot_nodes(nodes: &Vec<String>, done: usize) -> (r: RegistrationAction)
    ensures
        attends_to(r, nodes@, done as int),
{
    if done >= nodes.len() {
        return RegistrationAction::Finish(Ok(nodes.len()));
    }
    match read_boot_node(done, nodes[done].as_str()) {
        Ok(node) => RegistrationAction::Add(node),
        Err(m) => RegistrationAction::Finish(Err(m)),
    }
}

/// Decides what comes next where the node with the number `done` was added to
/// the routing table, or could not be: it is dialed, as being in the table
/// opens no connection.
pub fn boot_node_added(done: usize, outcome: Result<(), String>) -> (r: RegistrationAction)
    ensures
        r == match outcome {
            Ok(_) => RegistrationAction::Dial(done),
            Err(m) => RegistrationAction::Finish(Err(m)),
        },
{
    match outcome {
        Ok(_) => RegistrationAction::Dial(done),
        Err(m) => RegistrationAction::Finish(Err(m)),
    }
}

/// Decides what comes next once the node with the number `done` was dialed. It
/// counts as registered whether it answered or not.
pub fn boot_node_dialed(nodes: &Vec<String>, done: usize) -> (r: (
    usize,
    RegistrationAction,
))
    requires
        done < nodes@.len(),
    ensures
        r.0 == done + 1,
        attends_to(r.1, nodes@, done + 1),
{
    let next: usize = if done < nodes.len() { done + 1 } else { done };
    (next, register_boot_nodes(nodes, next))
}

/// What a genesis validator becomes in the peer table, where its network
/// identity is `peer`: the identity and the key, or why the entry is refused.
pub open spec fn record_outcome(i: usize, entry: GenesisValidator, peer: Option<Seq<u8>>) -> Result<
    (Seq<u8>, Seq<u8>),
    Seq<char>,
> {
    match hex_decoded(entry.dilithium_verify_key_hex@) {
        Err(_) => Err("invalid dilithium hex for validator "@ + decimal(i as nat)),
        Ok(key) => match peer {
            None => Err(
                "invalid network_peer_id for validator "@ + decimal(i as nat) + ": "@
                    + entry.network_peer_id@,
            ),
            Some(id) => Ok((id, key)),
        },
    }
}

/// Whether `record` is the record of the genesis validator `entry` with the
/// network identity `id` and the key `key`.
pub open spec fn is_genesis_record(
    record: NodeRecord,
    entry: GenesisValidator,
    id: Seq<u8>,
    key: Seq<u8>,
) -> bool {
    &&& record.peer_id@ == id
    &&& record.addresses@.len() == 0
    &&& record.dilithium_pubkey@ == key
    &&& record.reputation == 0
    &&& record.last_seen == 0
    &&& record.validator_stake == Some(entry.stake.0 as u128)
}

/// Whether `r` is the record of the genesis validator with the number `i`
/// whose network identity is `peer`, or why there is none.
pub open spec fn is_record_outcome(
    r: Result<NodeRecord, String>,
    i: usize,
    entry: GenesisValidator,
    peer: Option<Seq<u8>>,
) -> bool {
    match record_outcome(i, entry, peer) {
        Ok((id, key)) => r is Ok && is_genesis_record(r->Ok_0, entry, id, key),
        Err(m) => r is Err && r->Err_0@ == m,
    }
}

/// Makes the record of the genesis validator with the number `i` whose network
/// identity is `peer`.
pub fn genesis_record(i: usize, entry: &GenesisValidator, peer: Option<Vec<u8>>) -> (r: Result<
    NodeRecord,
    String,
>)
    ensures
        is_record_outcome(r, i, *entry, optional_bytes(peer)),
{
    proof {
        lemma_decoding_is_unique(entry.dilithium_verify_key_hex@);
    }
    let key = match decode(entry.dilithium_verify_key_hex.as_str()) {
        Ok(key) => key,
        Err(_) => {
            return Err(
                join("invalid dilithium hex for validator ", decimal_text(i as u64).as_str()),
            );
        },
    };
    match peer {
        Some(peer_id) => Ok(
            NodeRecord {
                peer_id,
                addresses: Vec::new(),
                dilithium_pubkey: key,
                reputation: 0,
                last_seen: 0,
                validator_stake: Some(entry.stake.0 as u128),
            },
        ),
        None => {
            let mut text = join3(
                "invalid network_peer_id for validator ",
                decimal_text(i as u64).as_str(),
                ": ",
            );
            text.append(entry.network_peer_id.as_str());
            Err(text)
        },
    }
}

/// What becomes of the genesis validator with the number `i`.
pub open spec fn entry_outcome(i: int, entry: GenesisValidator) -> Result<
    (Seq<u8>, Seq<u8>),
    Seq<char>,
> {
    record_outcome(i as usize, entry, peer_id_bytes(entry.network_peer_id@))
}

/// Whether the record with the number `j` is that of the genesis validator with
/// that number.
pub open spec fn is_record_of(
    records: Seq<NodeRecord>,
    validators: Seq<GenesisValidator>,
    j: int,
) -> bool {
    match entry_outcome(j, validators[j]) {
        Ok((id, key)) => is_genesis_record(records[j], validators[j], id, key),
        Err(_) => false,
    }
}

/// Whether `records` are those of the first genesis validators.
pub open spec fn are_first_records(
    records: Seq<NodeRecord>,
    validators: Seq<GenesisValidator>,
) -> bool {
    &&& records.len() <= validators.len()
    &&& forall|j: int| 0 <= j < records.len() ==> #[trigger] is_record_of(records, validators, j)
}

/// Makes the records of the genesis validators, in order, up to the first that
/// is refused. Returns them with their number, or with why the next one is
/// refused.
pub fn seed_genesis_validators(validators: &Vec<GenesisValidator>) -> (r: (
    Vec<NodeRecord>,
    Result<usize, String>,
))
    ensures
        are_first_records(r.0@, validators@),
        match r.1 {
            Ok(count) => count == validators@.len() && r.0@.len() == count,
            Err(m) => {
                &&& r.0@.len() < validators@.len()
                &&& entry_outcome(r.0@.len() as int, validators@[r.0@.len() as int]) == Err::<
                    (Seq<u8>, Seq<u8>),
                    Seq<char>,
                >(m@)
            },
        },
{
    let mut records: Vec<NodeRecord> = Vec::new();
    let mut i: usize = 0;
    while i < validators.len()
        invariant
            0 <= i <= validators@.len(),
            records@.len() == i,
            are_first_records(records@, validators@),
        decreases validators@.len() - i,
    {
        let peer = parse_peer_id(validators[i].network_peer_id.as_str());
        match genesis_record(i, &validators[i], peer) {
            Ok(record) => {
                let ghost before = records@;
                records.push(record);
                proof {
                    assert forall|j: int| 0 <= j < records@.len() implies #[trigger] is_record_of(
                        records@,
                        validators@,
                        j,
                    ) by {
                        if j < i {
                            assert(is_record_of(before, validators@, j));
                        }
                    }
                }
            },
            Err(m) => {
                return (records, Err(m));
            },
        }
        i = i + 1;
    }
    (records, Ok(i))
}

/// Whether a bootstrap of the routing table is due: where a boot node was
/// registered.
pub fn needs_bootstrap(boot_nodes_added: usize) -> (r: bool)
    ensures
        r == (boot_nodes_added > 0),
{
    boot_nodes_added > 0
}

/// What the discovery did, where `bootstrap` says how the bootstrap went if
/// one was due.
pub fn discover_validators(
    validators_seeded: usize,
    boot_nodes_added: usize,
    bootstrap: Option<bool>,
) -> (r: ValidatorDiscoveryResult)
    ensures
        r == (ValidatorDiscoveryResult {
            validators_seeded,
            boot_nodes_added,
            bootstrap_initiated: boot_nodes_added > 0 && bootstrap == Some(true),
        }),
{
    let succeeded = match bootstrap {
        Some(ok) => ok,
        None => false,
    };
    ValidatorDiscoveryResult {
        validators_seeded,
        boot_nodes_added,
        bootstrap_initiated: needs_bootstrap(boot_nodes_added) && succeeded,
    }
}

} // verus!
