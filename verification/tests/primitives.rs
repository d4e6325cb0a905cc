//! Digests, addresses, amounts and identifiers.

use nexus_node::primitives::address::{AccountAddress, Amount, ContractAddress, TokenId};
use nexus_node::primitives::digest::{
    BatchDigest, Blake3Digest, BlockDigest, CertDigest, IntentId, StateRoot, TxDigest,
};
use nexus_node::primitives::error::{DigestDecodeError, NexusPrimitivesError};
use nexus_node::primitives::ids::{
    timestamp_from_millis, CommitSequence, EpochNumber, RoundNumber, ShardId, TimestampMs,
    ValidatorIndex,
};
use nexus_node::primitives::lex::{lex_compare, Order};
use nexus_node::primitives::table::KeyTable;
use nexus_node::primitives::text::{
    bytes_eq, decimal_text, has_prefix, join, join3, signed_decimal_text, text_eq,
};
use nexus_node::primitives::traits::ProtocolId;
use std::collections::HashMap;

// ── addresses ──

#[test]
fn account_address_is_deterministic() {
    let pk = b"mock_dilithium_public_key_for_testing";
    let a1 = AccountAddress::from_dilithium_pubkey(pk);
    let a2 = AccountAddress::from_dilithium_pubkey(pk);
    assert_eq!(a1, a2);
}

#[test]
fn account_address_is_unique_per_pubkey() {
    let a1 = AccountAddress::from_dilithium_pubkey(b"pubkey_alice");
    let a2 = AccountAddress::from_dilithium_pubkey(b"pubkey_bob");
    assert_ne!(a1, a2, "different public keys must yield different addresses");
}

#[test]
fn account_address_hex_roundtrip() {
    let addr = AccountAddress::from_dilithium_pubkey(b"test_key_material");
    let hex = addr.to_hex();
    assert_eq!(hex.len(), 64);
    let addr2 = AccountAddress::from_hex(&hex).expect("valid hex");
    assert_eq!(addr, addr2);
}

#[test]
fn account_address_from_hex_rejects_invalid() {
    assert!(AccountAddress::from_hex("not_hex").is_err());
    assert!(AccountAddress::from_hex("deadbeef").is_err());
}

#[test]
fn contract_address_is_deterministic() {
    let deployer = AccountAddress::from_dilithium_pubkey(b"deployer_key");
    let bytecode_hash = [0xcc_u8; 32];
    let c1 = ContractAddress::from_deployment(&deployer, &bytecode_hash);
    let c2 = ContractAddress::from_deployment(&deployer, &bytecode_hash);
    assert_eq!(c1, c2);
}

#[test]
fn contract_address_differs_from_account_address() {
    let deployer = AccountAddress::from_dilithium_pubkey(b"deployer_key");
    let contract = ContractAddress::from_deployment(&deployer, b"bytecode");
    assert_ne!(deployer.0, contract.0);
}

#[test]
fn amount_zero_is_zero() {
    assert_eq!(Amount::zero().0, 0u64);
}

#[test]
fn amount_one_nxs_is_correct() {
    assert_eq!(Amount::one_nxs().0, 1_000_000_000u64);
}

#[test]
fn amount_one_voo_is_correct() {
    assert_eq!(Amount::one_voo().0, 1u64);
}

#[test]
fn token_id_as_hashmap_key() {
    let mut map: HashMap<TokenId, &str> = HashMap::new();
    map.insert(TokenId::Native, "NXS");
    assert_eq!(map[&TokenId::Native], "NXS");
}

#[test]
fn account_address_zero_is_all_zeros() {
    assert_eq!(AccountAddress::zero().0, [0u8; 32]);
}

#[test]
fn account_address_display_has_0x_prefix() {
    let addr = AccountAddress::zero();
    let s = addr.to_string();
    assert!(s.starts_with("0x"), "Display should start with 0x");
    assert_eq!(s.len(), 66, "0x + 64 hex chars");
}

#[test]
fn addresses_are_hashes_under_their_domains() {
    let mut hasher = blake3::Hasher::new();
    hasher.update(b"nexus::account::address::v1");
    hasher.update(b"pubkey_alice");
    assert_eq!(
        AccountAddress::from_dilithium_pubkey(b"pubkey_alice").0,
        *hasher.finalize().as_bytes()
    );

    let deployer = AccountAddress([7u8; 32]);
    let mut hasher = blake3::Hasher::new();
    hasher.update(b"nexus::contract::address::v1");
    hasher.update(&[7u8; 32]);
    hasher.update(b"code");
    assert_eq!(
        ContractAddress::from_deployment(&deployer, b"code").0,
        *hasher.finalize().as_bytes()
    );
}

#[test]
fn contract_addresses_read_back_from_their_digits() {
    let address = ContractAddress([0x5a; 32]);
    assert_eq!(ContractAddress::from_hex(&address.to_hex()).unwrap(), address);
    assert_eq!(address.to_string(), format!("0x{}", "5a".repeat(32)));
    assert_eq!(address.as_ref().len(), 32);
    assert_eq!(ContractAddress::zero().0, [0u8; 32]);
}

// ── digests ──

#[test]
fn zero_is_all_zeros() {
    assert_eq!(Blake3Digest::zero().0, [0u8; 32]);
}

#[test]
fn from_bytes_as_bytes_roundtrip() {
    let raw = [0xab_u8; 32];
    let d = Blake3Digest::from_bytes(raw);
    assert_eq!(d.as_bytes(), &raw);
}

#[test]
fn hex_roundtrip() {
    let raw = [0xde_u8; 32];
    let d = Blake3Digest::from_bytes(raw);
    let hex = d.to_hex();
    assert_eq!(hex.len(), 64, "hex string must be 64 characters");
    let d2 = Blake3Digest::from_hex(&hex).expect("valid hex");
    assert_eq!(d, d2);
}

#[test]
fn from_hex_rejects_non_hex_chars() {
    assert!(Blake3Digest::from_hex(
        "not-valid-hex-at-all-!!!!!!!!!!!!!!!!!!!!!!!!!!!!!!!!!!!!!!!!!!"
    )
    .is_err());
}

#[test]
fn from_hex_rejects_too_short() {
    assert!(Blake3Digest::from_hex("deadbeef").is_err());
}

#[test]
fn from_hex_rejects_too_long() {
    assert!(Blake3Digest::from_hex(&"aa".repeat(33)).is_err());
}

#[test]
fn debug_output_is_abbreviated() {
    let d = Blake3Digest::zero();
    let s = d.to_debug_string();
    assert!(
        s.starts_with("Blake3Digest("),
        "should start with Blake3Digest("
    );
    assert!(s.len() < 50, "debug output should be short, got: {s}");
}

#[test]
fn try_from_slice_correct_length() {
    let buf = [0x11_u8; 32];
    let d = Blake3Digest::try_from(buf.as_slice()).expect("exact 32 bytes");
    assert_eq!(d.0, buf);
}

#[test]
fn try_from_slice_wrong_length_short() {
    let buf = [0x11_u8; 16];
    assert!(Blake3Digest::try_from(buf.as_slice()).is_err());
}

#[test]
fn try_from_slice_wrong_length_long() {
    let buf = [0x11_u8; 64];
    assert!(Blake3Digest::try_from(buf.as_slice()).is_err());
}

#[test]
fn type_aliases_are_blake3_digest() {
    let d: BatchDigest = Blake3Digest::zero();
    let _: CertDigest = d;
    let _: BlockDigest = d;
    let _: StateRoot = d;
    let _: TxDigest = d;
    let _: IntentId = d;
}

#[test]
fn lower_hex_format() {
    let d = Blake3Digest::from_bytes([0xff; 32]);
    let s = d.to_hex();
    assert_eq!(s, "ff".repeat(32));
}

#[test]
fn display_is_full_hex() {
    let d = Blake3Digest::from_bytes([0x00; 32]);
    let s = d.to_string();
    assert_eq!(s, "00".repeat(32));
}

#[test]
fn as_ref_slice() {
    let d = Blake3Digest::from_bytes([0xca; 32]);
    let slice: &[u8] = d.as_ref();
    assert_eq!(slice.len(), 32);
    assert!(slice.iter().all(|&b| b == 0xca));
}

#[test]
fn digits_may_be_upper_case() {
    assert_eq!(
        Blake3Digest::from_hex(&"Ab".repeat(32)).unwrap().0,
        [0xab; 32]
    );
}

#[test]
fn decoding_errors_say_what_is_wrong() {
    let short = Blake3Digest::try_from([0u8; 3].as_slice()).unwrap_err();
    assert_eq!(short, DigestDecodeError::WrongLength { expected: 32, got: 3 });
    let text = NexusPrimitivesError::from(short).to_string();
    assert!(text.contains("32") && text.contains('3'));

    let long = Blake3Digest::from_hex(&"aa".repeat(33)).unwrap_err();
    assert!(matches!(long, DigestDecodeError::InvalidHex { .. }));

    // The position and the character that is no digit.
    let bad = format!("{}g{}", "0".repeat(10), "0".repeat(53));
    match Blake3Digest::from_hex(&bad).unwrap_err() {
        DigestDecodeError::InvalidHex { reason } => {
            assert_eq!(reason, "Invalid character 'g' at position 10");
        }
        DigestDecodeError::WrongLength { .. } => panic!("not a length error"),
    }
}

// ── identifiers ──

#[test]
fn validator_index_roundtrip() {
    let v = ValidatorIndex(42);
    assert_eq!(v.0, 42);
}

#[test]
fn epoch_number_ordering() {
    assert!(EpochNumber(1) < EpochNumber(2));
    assert!(EpochNumber(100) > EpochNumber(99));
    assert_eq!(EpochNumber(5), EpochNumber(5));
}

#[test]
fn round_number_ordering() {
    assert!(RoundNumber(0) < RoundNumber(1));
    assert!(RoundNumber(u64::MAX - 1) < RoundNumber(u64::MAX));
}

#[test]
fn commit_sequence_ordering() {
    assert!(CommitSequence(100) < CommitSequence(200));
}

#[test]
fn shard_id_as_hashmap_key() {
    let mut map = HashMap::new();
    map.insert(ShardId(0), "shard-0");
    map.insert(ShardId(1), "shard-1");
    assert_eq!(map[&ShardId(0)], "shard-0");
    assert_eq!(map[&ShardId(1)], "shard-1");
}

#[test]
fn validator_index_as_hashmap_key() {
    let mut map = HashMap::new();
    for i in 0u32..10 {
        map.insert(ValidatorIndex(i), i * 2);
    }
    assert_eq!(map[&ValidatorIndex(5)], 10);
}

#[test]
fn id_types_are_copy() {
    let a = ValidatorIndex(7);
    let b = a;
    assert_eq!(a, b);

    let e1 = EpochNumber(3);
    let e2 = e1;
    assert_eq!(e1, e2);

    let r1 = RoundNumber(1000);
    let r2 = r1;
    assert_eq!(r1, r2);
}

#[test]
fn timestamp_ms_now_is_reasonable() {
    let ts = TimestampMs::now();
    let lower_bound_ms: u64 = 1_735_689_600_000;
    let upper_bound_ms: u64 = 4_102_444_800_000;
    assert!(ts.0 >= lower_bound_ms, "timestamp too old: {} ms", ts.0);
    assert!(
        ts.0 <= upper_bound_ms,
        "timestamp too far in future: {} ms",
        ts.0
    );
}

#[test]
fn identifiers_print_their_numbers() {
    assert_eq!(timestamp_from_millis(1_700_000_000_123).0, 1_700_000_000_123);
    assert_eq!(ValidatorIndex(3).to_string(), "3");
    assert_eq!(EpochNumber(u64::MAX).to_string(), "18446744073709551615");
    assert_eq!(RoundNumber(5).to_string(), "5");
    assert_eq!(ShardId(65535).to_string(), "65535");
    assert_eq!(CommitSequence(70).to_string(), "70");
    assert_eq!(TimestampMs(0).to_string(), "0");
}

// ── traits ──

fn assert_protocol_id<T: ProtocolId>() {}

#[test]
fn all_id_types_satisfy_protocol_id() {
    assert_protocol_id::<ValidatorIndex>();
    assert_protocol_id::<EpochNumber>();
    assert_protocol_id::<RoundNumber>();
    assert_protocol_id::<ShardId>();
    assert_protocol_id::<CommitSequence>();
    assert_protocol_id::<TimestampMs>();
    assert_protocol_id::<Blake3Digest>();
}

fn assert_send_sync<T: Send + Sync>() {}

#[test]
fn id_types_are_send_sync() {
    assert_send_sync::<ValidatorIndex>();
    assert_send_sync::<EpochNumber>();
    assert_send_sync::<Blake3Digest>();
}

// ── helpers ──

#[test]
fn texts_are_joined_and_compared() {
    assert_eq!(decimal_text(0), "0");
    assert_eq!(decimal_text(u64::MAX), "18446744073709551615");
    assert_eq!(signed_decimal_text(i32::MIN), "-2147483648");
    assert_eq!(signed_decimal_text(42), "42");
    assert_eq!(join("a", "b"), "ab");
    assert_eq!(join3("a", "é", "c"), "aéc");
    assert!(text_eq("é", "é") && !text_eq("a", "ab"));
    assert!(bytes_eq(&[1, 2], &[1, 2]) && !bytes_eq(&[1, 2], &[1, 3]));
    assert!(has_prefix("0xab", "0x") && !has_prefix("0", "0x"));
}

#[test]
fn byte_strings_compare_like_std() {
    let cases: [(&[u8], &[u8]); 5] = [
        (&[], &[]),
        (&[1], &[]),
        (&[1, 2], &[1, 3]),
        (&[2], &[1, 9]),
        (&[1, 2], &[1, 2, 0]),
    ];
    for (a, b) in cases {
        let expected = if a < b {
            Order::Less
        } else if a == b {
            Order::Equal
        } else {
            Order::Greater
        };
        assert_eq!(lex_compare(a, b), expected);
    }
}

#[test]
fn tables_keep_the_latest_value_of_a_key() {
    let mut table: KeyTable<u32> = KeyTable::new();
    table.insert(&[1; 32], 10);
    table.insert(&[2; 32], 20);
    table.insert(&[1; 32], 11);
    assert_eq!(table.len(), 2);
    assert_eq!(table.get(&[1; 32]), Some(&11));
    assert_eq!(table.remove(&[1; 32]), Some(11));
    assert_eq!(table.get(&[1; 32]), None);
    assert_eq!(table.get(&[2; 32]), Some(&20));
}
