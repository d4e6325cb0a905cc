//! Identities, keys, stake records and discovery of validators.

use nexus_node::node::consensus_types::{ReputationScore, ValidatorInfo};
use nexus_node::node::snapshot_provider::{
    build_staking_resource_key, enrich_with_consensus_state, parse_validator_stake_bcs,
    snapshot_from_engine_and_state, snapshot_from_values, try_read_on_chain_staking,
};
use nexus_node::node::staking_snapshot::{StakingSnapshot, ValidatorStakeRecord};
use nexus_node::node::validator_discovery::{
    address_to_string, boot_node_from_parts, discover_validators, extract_peer_id, needs_bootstrap,
    boot_node_added, boot_node_dialed, read_boot_node, register_boot_nodes, seed_genesis_validators,
    strip_p2p_suffix, AddressPart, GenesisValidator, RegistrationAction,
};
use nexus_node::node::validator_identity::{
    address_from_validator_index, identity_key, identity_scan_range, load_identity_registry,
    persist_identity_registry, IdentityLoadError, ValidatorIdentityRegistry,
};
use nexus_node::node::validator_keys::{
    check_file_permissions, load_or_derive_verify_key, load_validator_keys, trim, KeyDirectory, KeyFile,
};
use nexus_node::primitives::address::{AccountAddress, Amount};
use nexus_node::primitives::ids::{EpochNumber, ValidatorIndex};

fn addr(b: u8) -> AccountAddress {
    address_from_validator_index(ValidatorIndex(b as u32))
}

// ── stake records ──

#[test]
fn build_staking_resource_key_is_deterministic() {
    let addr1 = addr(0);
    let addr2 = addr(0);
    let key1 = build_staking_resource_key(&addr1);
    let key2 = build_staking_resource_key(&addr2);
    assert_eq!(key1, key2);
}

#[test]
fn build_staking_resource_key_different_addrs() {
    let key1 = build_staking_resource_key(&addr(0));
    let key2 = build_staking_resource_key(&addr(1));
    assert_ne!(key1, key2);
}

fn stake_bytes(bonded: u64, penalty_total: u64, status: u8, registered_epoch: u64) -> Vec<u8> {
    let mut data = Vec::new();
    data.extend_from_slice(&bonded.to_le_bytes());
    data.extend_from_slice(&penalty_total.to_le_bytes());
    data.push(status);
    data.extend_from_slice(&registered_epoch.to_le_bytes());
    data.extend_from_slice(&0u64.to_le_bytes());
    data.extend_from_slice(&0u64.to_le_bytes());
    data
}

#[test]
fn parse_valid_bcs() {
    let a = addr(1);
    let data = stake_bytes(2_000_000_000, 100_000_000, 0, 5);

    let record = parse_validator_stake_bcs(&a, &data).unwrap();
    assert_eq!(record.bonded, 2_000_000_000);
    assert_eq!(record.penalty_total, 100_000_000);
    assert_eq!(record.status, 0);
    assert_eq!(record.registered_epoch, 5);
    assert!(record.is_active());
    assert_eq!(record.effective_stake(), 1_900_000_000);
}

#[test]
fn parse_too_short_returns_none() {
    let a = addr(0);
    let data = vec![0u8; 20];
    assert!(parse_validator_stake_bcs(&a, &data).is_none());
}

fn info(index: u32, reputation: u16, is_slashed: bool) -> ValidatorInfo {
    ValidatorInfo {
        index: ValidatorIndex(index),
        falcon_pub_key: vec![index as u8; 897],
        stake: Amount(2_000_000_000),
        reputation: ReputationScore::from_basis_points(reputation),
        is_slashed,
        shard_id: None,
    }
}

#[test]
fn enrich_applies_slash_state() {
    let a = addr(0);
    let snapshot = StakingSnapshot::new(
        EpochNumber(5),
        vec![ValidatorStakeRecord {
            address: a,
            bonded: 2_000_000_000,
            penalty_total: 0,
            status: 0,
            registered_epoch: 0,
            unbond_epoch: 0,
            is_slashed: false,
            reputation: ReputationScore::default(),
        }],
    );

    let slashed_validators = vec![info(0, 5_000, true)];
    let enriched = enrich_with_consensus_state(snapshot, &slashed_validators);
    assert!(enriched.records[0].is_slashed);
    assert_eq!(
        enriched.records[0].reputation,
        ReputationScore::from_basis_points(5_000)
    );
}

#[test]
fn stake_is_read_from_committed_state() {
    let accounts = vec![addr(0), addr(1), addr(2)];
    let values = vec![Some(stake_bytes(10, 1, 0, 3)), None, Some(vec![1, 2, 3])];
    let snapshot = try_read_on_chain_staking(&accounts, &values, EpochNumber(9)).unwrap();
    assert_eq!(snapshot.captured_at_epoch, EpochNumber(9));
    assert_eq!(snapshot.records.len(), 1);
    assert_eq!(snapshot.records[0].address, addr(0));
    assert_eq!(snapshot.records[0].bonded, 10);
    assert!(try_read_on_chain_staking(&accounts, &vec![None, None, None], EpochNumber(9)).is_none());
}

#[test]
fn snapshots_combine_state_and_committee() {
    let validators = vec![info(0, 7_000, false), info(1, 4_000, true)];
    let accounts = vec![addr(0), addr(1)];
    let values = vec![Some(stake_bytes(10, 0, 0, 0)), Some(stake_bytes(20, 0, 0, 0))];
    let direct = snapshot_from_values(EpochNumber(2), &validators, &accounts, &values).unwrap();
    assert!(direct.records.iter().any(|r| r.address == addr(1) && r.is_slashed));

    let mut registry = ValidatorIdentityRegistry::new();
    registry.seed_from_committee(&validators);
    let key0 = build_staking_resource_key(&addr(0));
    let snapshot = snapshot_from_engine_and_state(
        EpochNumber(2),
        &validators,
        &registry,
        |key: &Vec<u8>| {
            if *key == key0 {
                Some(stake_bytes(10, 0, 0, 0))
            } else {
                Some(stake_bytes(20, 0, 0, 0))
            }
        },
    )
    .unwrap();
    assert_eq!(snapshot.records.len(), 2);
    let first = snapshot.records.iter().find(|r| r.address == addr(0)).unwrap();
    assert_eq!(first.bonded, 10);
    assert_eq!(first.reputation, ReputationScore::from_basis_points(7_000));
}

// ── identities ──

#[test]
fn address_from_index_zero() {
    let addr = address_from_validator_index(ValidatorIndex(0));
    assert_eq!(addr.0[28..32], [0, 0, 0, 0]);
    assert_eq!(addr.0[0..28], [0u8; 28]);
}

#[test]
fn address_from_index_one() {
    let addr = address_from_validator_index(ValidatorIndex(1));
    assert_eq!(addr.0[28..32], [0, 0, 0, 1]);
}

#[test]
fn address_from_index_large() {
    let addr = address_from_validator_index(ValidatorIndex(256));
    assert_eq!(addr.0[28..32], [0, 0, 1, 0]);
}

#[test]
fn registry_seed_and_lookup() {
    let mut registry = ValidatorIdentityRegistry::new();
    assert!(registry.is_empty());

    let addr = address_from_validator_index(ValidatorIndex(0));
    let dummy_key = vec![0x5a_u8; 897];
    registry.register(addr, dummy_key.clone());

    assert_eq!(registry.len(), 1);
    let found = registry.lookup(&addr).expect("should find key");
    assert_eq!(found, dummy_key);
}

#[test]
fn registry_lookup_missing() {
    let registry = ValidatorIdentityRegistry::new();
    let addr = address_from_validator_index(ValidatorIndex(42));
    assert!(registry.lookup(&addr).is_none());
}

#[test]
fn registry_update_overwrites() {
    let mut registry = ValidatorIdentityRegistry::new();
    let addr = address_from_validator_index(ValidatorIndex(0));
    let key1 = vec![1u8; 897];
    let key2 = vec![2u8; 897];

    registry.register(addr, key1.clone());
    assert_eq!(registry.lookup(&addr).unwrap(), key1);

    registry.register(addr, key2.clone());
    assert_eq!(registry.lookup(&addr).unwrap(), key2);
}

#[test]
fn all_entries_returns_all_registered_keys() {
    let mut registry = ValidatorIdentityRegistry::new();
    assert!(registry.all_entries().is_empty());

    let addr0 = address_from_validator_index(ValidatorIndex(0));
    let addr1 = address_from_validator_index(ValidatorIndex(1));

    registry.register(addr0, vec![1u8; 897]);
    registry.register(addr1, vec![2u8; 897]);

    let entries = registry.all_entries();
    assert_eq!(entries.len(), 2);
    assert!(!registry.is_empty());
}

#[test]
fn identity_key_prefix_includes_address() {
    let addr = address_from_validator_index(ValidatorIndex(0));
    let key_bytes = identity_key(&addr);
    assert!(key_bytes.starts_with(b"__validator_identity__:"));
    assert_eq!(&key_bytes[b"__validator_identity__:".len()..], &addr.0[..]);
}

#[test]
fn stored_registries_read_back() {
    let mut registry = ValidatorIdentityRegistry::new();
    registry.register(addr(1), vec![1u8; 40]);
    registry.register(addr(2), vec![2u8; 300]);
    let entries = persist_identity_registry(&registry).unwrap();

    let (start, end) = identity_scan_range();
    let count = entries
        .iter()
        .find(|(k, _)| !(*k >= start && *k < end))
        .map(|(_, v)| v.clone());
    assert_eq!(count, Some(vec![2, 0, 0, 0]));
    let pairs: Vec<(Vec<u8>, Vec<u8>)> = entries
        .into_iter()
        .filter(|(k, _)| *k >= start && *k < end)
        .collect();
    let loaded = load_identity_registry(&count, &pairs, |_: &Vec<u8>| true).unwrap();
    assert_eq!(loaded.len(), 2);
    assert_eq!(loaded.lookup(&addr(2)), Some(vec![2u8; 300]));

    let refused = load_identity_registry(&count, &pairs, |_: &Vec<u8>| false);
    assert_eq!(refused.err(), Some(IdentityLoadError::DecodeKey));
    let garbled = vec![(identity_key(&addr(3)), vec![1, 2])];
    let refused = load_identity_registry(&count, &garbled, |_: &Vec<u8>| true);
    assert_eq!(refused.err(), Some(IdentityLoadError::DecodeIdentity));
    let mut both = pairs.clone();
    both.extend(garbled);
    let first = load_identity_registry(&count, &both, |_: &Vec<u8>| false);
    assert_eq!(first.err(), Some(IdentityLoadError::DecodeKey));
    assert!(load_identity_registry(&None, &pairs, |_: &Vec<u8>| true).unwrap().is_empty());
}

// ── keys ──

fn file(name: &str, mode: u32, text: &str, hex: Option<String>) -> Option<KeyFile> {
    Some(KeyFile {
        path: format!("/keys/{name}"),
        mode: Some(mode),
        text: Some(text.to_owned()),
        hex,
    })
}

fn empty_dir() -> KeyDirectory {
    KeyDirectory {
        path: "/keys".to_owned(),
        exists: true,
        is_dir: true,
        secret_json: None,
        secret_hex: None,
        public_json: None,
        public_hex: None,
    }
}

fn any_key(_: &Vec<u8>) -> bool {
    true
}

fn no_key(_: &Vec<u8>) -> Option<Vec<u8>> {
    None
}

#[test]
fn load_json_format_keys() {
    let mut dir = empty_dir();
    dir.secret_json = file("falcon-secret.json", 0o600, "{}", Some("0102".to_owned()));
    dir.public_json = file("falcon-public.json", 0o644, "{}", Some("0a0B".to_owned()));
    let keys = load_validator_keys(&dir, &any_key, &any_key, &no_key).unwrap();
    assert_eq!(keys.signing_key, vec![1, 2]);
    assert_eq!(keys.verify_key, vec![10, 11]);
    assert!(!keys.to_debug_string().contains('1'));
}

#[test]
fn load_hex_format_keys() {
    let mut dir = empty_dir();
    dir.secret_hex = file("falcon.sk", 0o600, "0102\n", None);
    dir.public_hex = file("falcon.vk", 0o644, " 0a0b ", None);
    let keys = load_validator_keys(&dir, &any_key, &any_key, &no_key).unwrap();
    assert_eq!(keys.signing_key, vec![1, 2]);
    assert_eq!(keys.verify_key, vec![10, 11]);
}

#[test]
fn missing_dir_fails() {
    let mut dir = empty_dir();
    dir.path = "/nonexistent/keys".to_owned();
    dir.exists = false;
    let err = load_validator_keys(&dir, &any_key, &any_key, &no_key).err().unwrap();
    assert_eq!(err, "validator key directory does not exist: /nonexistent/keys");
    dir.exists = true;
    dir.is_dir = false;
    let err = load_validator_keys(&dir, &any_key, &any_key, &no_key).err().unwrap();
    assert_eq!(err, "validator key path is not a directory: /nonexistent/keys");
}

#[test]
fn missing_key_file_fails() {
    let err = load_validator_keys(&empty_dir(), &any_key, &any_key, &no_key).err().unwrap();
    assert!(err.contains("no Falcon key"));
    let mut dir = empty_dir();
    dir.secret_hex = file("falcon.sk", 0o600, "01", None);
    let err = load_validator_keys(&dir, &any_key, &any_key, &no_key).err().unwrap();
    assert!(err.contains("no Falcon public key"));
}

#[test]
fn a_missing_public_key_is_derived() {
    // A toy scheme: the public key is the secret one turned round, and a
    // signature is the message with the secret key behind it.
    let derive = |key: &Vec<u8>| Some(key.iter().rev().copied().collect::<Vec<u8>>());
    let sign = |key: &Vec<u8>, message: &Vec<u8>| [message.clone(), key.clone()].concat();
    let verify = |key: &Vec<u8>, message: &Vec<u8>, signature: &Vec<u8>| {
        let secret: Vec<u8> = key.iter().rev().copied().collect();
        *signature == [message.clone(), secret].concat()
    };
    let mut dir = empty_dir();
    dir.secret_hex = file("falcon.sk", 0o600, "0102", None);
    let keys = load_validator_keys(&dir, &any_key, &any_key, &derive).unwrap();
    assert_eq!(keys.signing_key, vec![1, 2]);
    assert_eq!(keys.verify_key, vec![2, 1]);
    let message = vec![7, 8];
    let signature = sign(&keys.signing_key, &message);
    assert!(verify(&keys.verify_key, &message, &signature));
    assert_eq!(load_or_derive_verify_key(&dir, &vec![5, 6], &any_key, &derive), Ok(vec![6, 5]));

    dir.public_hex = file("falcon.vk", 0o644, "0a0b", None);
    let keys = load_validator_keys(&dir, &any_key, &any_key, &derive).unwrap();
    assert_eq!(keys.verify_key, vec![10, 11]);
}

#[test]
fn overly_permissive_key_file_rejected() {
    let mut dir = empty_dir();
    dir.secret_json = file("falcon-secret.json", 0o100644, "{}", Some("01".to_owned()));
    let err = load_validator_keys(&dir, &any_key, &any_key, &no_key).err().unwrap();
    assert!(err.contains("overly permissive"));
    assert_eq!(
        err,
        "validator key file /keys/falcon-secret.json has overly permissive mode 0644 \u{2014} \
         expected 0600 (owner read/write only). \
         Fix with: chmod 600 /keys/falcon-secret.json"
    );
    assert!(check_file_permissions("k", Some(0o100700)).is_ok());
    assert!(check_file_permissions("k", Some(0o100601)).is_err());
    assert_eq!(
        check_file_permissions("k", None).unwrap_err(),
        "failed to read metadata for k"
    );
}

#[test]
fn unusable_key_files_are_reported() {
    let mut dir = empty_dir();
    dir.secret_hex = file("falcon.sk", 0o600, "zz", None);
    let err = load_validator_keys(&dir, &any_key, &any_key, &no_key).err().unwrap();
    assert_eq!(err, "falcon secret key: invalid hex in key file");

    dir.secret_hex = file("falcon.sk", 0o600, "01", None);
    let err = load_validator_keys(&dir, &|_: &Vec<u8>| false, &any_key, &no_key).err().unwrap();
    assert_eq!(err, "falcon secret key: invalid key bytes");

    dir.public_json = file("falcon-public.json", 0o644, "[]", None);
    let err = load_validator_keys(&dir, &any_key, &any_key, &no_key).err().unwrap();
    assert_eq!(err, "failed to parse /keys/falcon-public.json");

    dir.public_json = None;
    dir.public_hex = Some(KeyFile {
        path: "/keys/falcon.vk".to_owned(),
        mode: None,
        text: None,
        hex: None,
    });
    let err = load_validator_keys(&dir, &any_key, &any_key, &no_key).err().unwrap();
    assert_eq!(err, "failed to read /keys/falcon.vk");

    dir.public_hex = file("falcon.vk", 0o644, "0", None);
    let err = load_validator_keys(&dir, &any_key, &any_key, &no_key).err().unwrap();
    assert_eq!(err, "falcon verify key: invalid hex in key file");
}

#[test]
fn trimming_agrees_with_std() {
    for text in ["", "  ", "a", "\u{a0}a b\u{3000}\n", "\u{200b}x", "\t\r\nkey\u{85}\u{1680}"] {
        assert_eq!(trim(text), text.trim());
    }
    for code in 0..0x3100u32 {
        if let Some(c) = char::from_u32(code) {
            let text = format!("{c}");
            assert_eq!(trim(&text), text.trim());
        }
    }
}

// ── discovery ──

fn peer(b: u8) -> libp2p::PeerId {
    let mut bytes = vec![0x12, 0x20];
    bytes.extend_from_slice(&[b; 32]);
    libp2p::PeerId::from_bytes(&bytes).unwrap()
}

fn genesis() -> Vec<GenesisValidator> {
    (1..=4u8)
        .map(|b| GenesisValidator {
            name: format!("validator-{b}"),
            dilithium_verify_key_hex: "0b".repeat(b as usize),
            network_peer_id: peer(b).to_string(),
            stake: Amount(1_000 * b as u64),
        })
        .collect()
}

#[test]
fn seed_genesis_validators_populates_peer_table() {
    let validators = genesis();
    let (records, outcome) = seed_genesis_validators(&validators);
    assert_eq!(outcome.unwrap(), validators.len());
    assert_eq!(records.len(), validators.len());
    for (record, entry) in records.iter().zip(&validators) {
        let id: libp2p::PeerId = entry.network_peer_id.parse().unwrap();
        assert_eq!(record.peer_id, id.to_bytes());
        assert_eq!(
            record.dilithium_pubkey,
            hex::decode(&entry.dilithium_verify_key_hex).unwrap()
        );
        assert_eq!(record.validator_stake, Some(entry.stake.0 as u128));
    }
}

#[test]
fn seed_idempotent_no_overwrite() {
    let validators = genesis();
    let (first, c1) = seed_genesis_validators(&validators);
    let (second, c2) = seed_genesis_validators(&validators);
    assert_eq!(c1, c2);
    for (a, b) in first.iter().zip(&second) {
        assert_eq!(a.peer_id, b.peer_id);
    }
}

#[test]
fn seed_uses_network_peer_id() {
    let mut validators = genesis();
    validators[0].network_peer_id = peer(0x77).to_string();
    let (records, _) = seed_genesis_validators(&validators);
    assert_eq!(records[0].peer_id, peer(0x77).to_bytes());
}

#[test]
fn seeding_stops_at_the_first_bad_entry() {
    let mut validators = genesis();
    validators[2].network_peer_id = "nobody".to_owned();
    let (records, outcome) = seed_genesis_validators(&validators);
    assert_eq!(records.len(), 2);
    assert!(outcome.unwrap_err().contains("2"));

    let mut validators = genesis();
    validators[1].dilithium_verify_key_hex = "xyz".to_owned();
    let (records, outcome) = seed_genesis_validators(&validators);
    assert_eq!(records.len(), 1);
    assert!(outcome.is_err());
}

#[test]
fn extract_peer_id_from_multiaddr() {
    let peer = peer(0x31);
    let node = read_boot_node(0, &format!("/ip4/127.0.0.1/udp/9100/quic-v1/p2p/{peer}")).unwrap();
    assert_eq!(node.peer_id, peer.to_bytes());
}

#[test]
fn extract_peer_id_missing_returns_none() {
    assert!(read_boot_node(0, "/ip4/127.0.0.1/udp/9100/quic-v1").is_err());
    let parts = vec![AddressPart { peer: None, text: "/ip4/127.0.0.1".to_owned() }];
    assert!(extract_peer_id(&parts).is_none());
    assert!(boot_node_from_parts(0, "/ip4/127.0.0.1", &parts).is_err());
}

#[test]
fn strip_p2p_suffix_removes_peer_component() {
    let peer = peer(0x32);
    let node = read_boot_node(0, &format!("/ip4/127.0.0.1/udp/9100/quic-v1/p2p/{peer}")).unwrap();
    let stripped = address_to_string(&node.dial_addr);
    assert!(!stripped.contains("p2p"));
    assert!(stripped.contains("127.0.0.1"));
    assert_eq!(stripped, "/ip4/127.0.0.1/udp/9100/quic-v1");
    assert_eq!(address_to_string(&strip_p2p_suffix(&node.dial_addr)), stripped);
}

#[test]
fn malformed_boot_nodes_are_refused() {
    let err = read_boot_node(3, "not an address").err().unwrap();
    assert!(err.contains("3"));
}

#[test]
fn boot_nodes_are_added_and_dialed_in_order() {
    let nodes = vec![
        format!("/ip4/127.0.0.1/udp/9100/quic-v1/p2p/{}", peer(0x33)),
        format!("/ip4/127.0.0.2/udp/9100/quic-v1/p2p/{}", peer(0x34)),
    ];
    let mut done = 0;
    for expected in [0x33u8, 0x34] {
        match register_boot_nodes(&nodes, done) {
            RegistrationAction::Add(node) => assert_eq!(node.peer_id, peer(expected).to_bytes()),
            other => panic!("{other:?}"),
        }
        assert!(matches!(boot_node_added(done, Ok(())), RegistrationAction::Dial(i) if i == done));
        let (next, _) = boot_node_dialed(&nodes, done);
        assert_eq!(next, done + 1);
        done = next;
    }
    assert!(matches!(register_boot_nodes(&nodes, 2), RegistrationAction::Finish(Ok(2))));
}

#[test]
fn registration_is_given_up_at_a_fault() {
    let refused = boot_node_added(0, Err("table is closed".to_owned()));
    assert!(matches!(refused, RegistrationAction::Finish(Err(m)) if m == "table is closed"));
    let nodes = vec!["/ip4/127.0.0.1".to_owned()];
    match register_boot_nodes(&nodes, 0) {
        RegistrationAction::Finish(Err(m)) => assert_eq!(
            m,
            "boot_nodes[0]: multiaddr '/ip4/127.0.0.1' missing /p2p/<peer-id> suffix"
        ),
        other => panic!("{other:?}"),
    }
}

#[test]
fn discover_validators_with_no_boot_nodes() {
    let validators = genesis();
    let (_, seeded) = seed_genesis_validators(&validators);
    assert!(!needs_bootstrap(0));
    let result = discover_validators(seeded.unwrap(), 0, None);

    assert_eq!(result.validators_seeded, validators.len());
    assert_eq!(result.boot_nodes_added, 0);
    assert!(!result.bootstrap_initiated);
}

#[test]
fn discover_validators_with_boot_nodes() {
    assert!(needs_bootstrap(1));
    let result = discover_validators(4, 1, Some(true));
    assert_eq!(result.validators_seeded, 4);
    assert_eq!(result.boot_nodes_added, 1);
    assert!(result.bootstrap_initiated);
    assert!(!discover_validators(4, 1, Some(false)).bootstrap_initiated);
}
