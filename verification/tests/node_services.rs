//! Startup reports, storage maintenance, cleanup and snapshot signatures.

use nexus_node::node::session_cleanup::CleanupConfig;
use nexus_node::node::snapshot_signing::{
    sign_manifest, verify_manifest, verify_snapshot_file, SnapshotManifest, SnapshotSignError,
};
use nexus_node::node::startup_report::{
    genesis_outcome_from_boot, DiscoveryOutcome, GenesisOutcome, ProofBackendStatus,
    RecoveryOutcome, StartupReport, StartupReportInputs,
};
use nexus_node::node::storage_maintenance::{
    maintenance_action, prune_retain_from, pruned_anything, MaintenanceAction, MaintenanceTick,
    PruneResult, StorageConfig, StorageMaintenanceConfig,
};
use nexus_node::node::validator_discovery::ValidatorDiscoveryResult;

const VERSION: &str = "0.1.14";

// ── startup report ──

#[test]
fn genesis_outcome_from_boot_already_applied() {
    let outcome = genesis_outcome_from_boot(true);
    assert!(matches!(outcome, GenesisOutcome::AlreadyApplied));
}

#[test]
fn genesis_outcome_from_boot_newly_applied() {
    let outcome = genesis_outcome_from_boot(false);
    assert!(matches!(outcome, GenesisOutcome::Applied));
}

#[test]
fn startup_report_from_inputs_populates_all_fields() {
    let report = StartupReport::from_inputs(StartupReportInputs {
        dev_mode: false,
        chain_id: "nexus-mainnet".to_string(),
        genesis: GenesisOutcome::AlreadyApplied,
        committee_size: 11,
        local_validator_index: 5,
        num_shards: 8,
        storage_path: "/var/lib/nexus/db".to_string(),
        session_recovery: RecoveryOutcome {
            success: true,
            count: 99,
        },
        provenance_recovery: RecoveryOutcome {
            success: true,
            count: 7,
        },
        network_discovery: None,
        readiness_status: "healthy",
        proof_backend: ProofBackendStatus {
            enabled: true,
            rpc_registered: true,
            execution_bridge_connected: true,
        },
    }, VERSION);

    assert_eq!(report.version, VERSION);
    assert!(!report.dev_mode);
    assert_eq!(report.chain_id, "nexus-mainnet");
    assert!(matches!(report.genesis, GenesisOutcome::AlreadyApplied));
    assert_eq!(report.committee_size, 11);
    assert_eq!(report.local_validator_index, 5);
    assert_eq!(report.num_shards, 8);
    assert_eq!(report.storage_path, "/var/lib/nexus/db");
    assert_eq!(report.session_recovery.count, 99);
    assert_eq!(report.provenance_recovery.count, 7);
    assert!(report.network_discovery.is_none());
    assert_eq!(report.readiness_status, "healthy");
    assert!(report.proof_backend.execution_bridge_connected);
}

#[test]
fn validator_discovery_result_maps_to_discovery_outcome() {
    let outcome = DiscoveryOutcome::from(ValidatorDiscoveryResult {
        validators_seeded: 9,
        boot_nodes_added: 2,
        bootstrap_initiated: true,
    });

    assert_eq!(outcome.validators_seeded, 9);
    assert_eq!(outcome.boot_nodes_added, 2);
    assert!(outcome.bootstrap_initiated);
}

#[test]
fn genesis_outcome_from_boot_matches_persistence_state() {
    assert!(matches!(
        genesis_outcome_from_boot(true),
        GenesisOutcome::AlreadyApplied
    ));
    assert!(matches!(
        genesis_outcome_from_boot(false),
        GenesisOutcome::Applied
    ));
}

// ── cleanup ──

#[test]
fn cleanup_config_defaults_are_sensible() {
    let cfg = CleanupConfig::default();
    assert_eq!(cfg.interval_ms, 60 * 60 * 1_000);
    assert_eq!(cfg.session_ttl_ms, 24 * 60 * 60 * 1_000);
    assert_eq!(cfg.provenance_retention_ms, 30 * 24 * 60 * 60 * 1_000);
}

#[test]
fn cleanup_config_custom_values() {
    let cfg = CleanupConfig {
        interval_ms: 5_000,
        session_ttl_ms: 60_000,
        provenance_retention_ms: 0, // disabled
    };
    assert_eq!(cfg.interval_ms, 5_000);
    assert_eq!(cfg.session_ttl_ms, 60_000);
    assert_eq!(cfg.provenance_retention_ms, 0);
}

#[test]
fn cleanup_config_clone_is_equal() {
    let cfg = CleanupConfig::default();
    let cloned = cfg.clone();
    assert_eq!(cfg.interval_ms, cloned.interval_ms);
    assert_eq!(cfg.session_ttl_ms, cloned.session_ttl_ms);
    assert_eq!(cfg.provenance_retention_ms, cloned.provenance_retention_ms);
}

#[test]
fn cleanup_deletes_what_outlived_its_lifetime() {
    let cfg = CleanupConfig {
        interval_ms: 5_000,
        session_ttl_ms: 60_000,
        provenance_retention_ms: 0,
    };
    assert_eq!(cfg.session_cutoff(100_000), Some(40_000));
    assert_eq!(cfg.session_cutoff(10), Some(0));
    assert_eq!(cfg.provenance_cutoff(100_000), None);
}

// ── storage maintenance ──

#[test]
fn storage_maintenance_config_maps_storage_config_fields() {
    let storage_cfg = StorageConfig {
        pruning_enabled: true,
        pruning_retention_blocks: 4321,
        pruning_interval_secs: 17,
    };

    let cfg = StorageMaintenanceConfig::from_storage_config(&storage_cfg);
    assert_eq!(cfg.metrics_interval_ns, 30_000_000_000);
    assert!(cfg.pruning_enabled);
    assert_eq!(cfg.pruning_retention_blocks, 4321);
    assert_eq!(cfg.pruning_interval_ns, 17_000_000_000);
}

fn retaining(pruning_retention_blocks: u64) -> StorageMaintenanceConfig {
    StorageMaintenanceConfig {
        metrics_interval_ns: 30_000_000_000,
        pruning_enabled: true,
        pruning_retention_blocks,
        pruning_interval_ns: 60_000_000_000,
    }
}

#[test]
fn prune_retain_from_respects_boundary_conditions() {
    let cfg = retaining(100);

    assert_eq!(prune_retain_from(&cfg, 0), None);
    assert_eq!(prune_retain_from(&cfg, 100), None);
    assert_eq!(prune_retain_from(&cfg, 101), Some(1));
    assert_eq!(prune_retain_from(&cfg, 250), Some(150));
}

#[test]
fn run_pruning_skips_when_chain_height_is_within_retention() {
    let action = maintenance_action(&retaining(10), MaintenanceTick::Prune, 3);
    assert_eq!(action, MaintenanceAction::Idle);
}

#[test]
fn run_pruning_removes_entries_older_than_retention_window() {
    let action = maintenance_action(&retaining(4), MaintenanceTick::Prune, 10);
    assert_eq!(action, MaintenanceAction::PruneBefore(6));
}

#[test]
fn pruning_can_be_switched_off() {
    let cfg = StorageMaintenanceConfig::default();
    assert!(!cfg.pruning_enabled);
    assert_eq!(cfg.pruning_retention_blocks, 100_000);
    assert_eq!(cfg.pruning_interval_ns, 3_600_000_000_000);
    assert_eq!(
        maintenance_action(&cfg, MaintenanceTick::Prune, u64::MAX),
        MaintenanceAction::Idle
    );
    assert_eq!(
        maintenance_action(&cfg, MaintenanceTick::Metrics, 0),
        MaintenanceAction::CollectMetrics
    );
}

#[test]
fn only_a_pruning_that_removed_something_is_reported() {
    let none = PruneResult { blocks_pruned: 0, transactions_pruned: 0, receipts_pruned: 0 };
    assert!(!pruned_anything(&none));
    assert!(pruned_anything(&PruneResult { receipts_pruned: 1, ..none }));
}

// ── snapshot signatures ──

/// Keys of a toy scheme: a signature is a keyed hash, the public key is the
/// secret one.
const KEY: [u8; 32] = [0x21; 32];
const OTHER_KEY: [u8; 32] = [0x22; 32];

fn signable(m: &SnapshotManifest) -> Vec<u8> {
    format!(
        "{} {} {} {} {:?} {:?} {:?} {:?} {:?}",
        m.version,
        m.block_height,
        m.entry_count,
        m.total_bytes,
        m.content_hash,
        m.chain_id,
        m.epoch,
        m.created_at_ms,
        m.previous_manifest_hash
    )
    .into_bytes()
}

fn sign_with(key: [u8; 32]) -> impl Fn(&Vec<u8>) -> Vec<u8> {
    move |payload: &Vec<u8>| blake3::keyed_hash(&key, payload).as_bytes().to_vec()
}

fn read(signature: &Vec<u8>) -> Result<(), String> {
    if signature.len() == 32 {
        Ok(())
    } else {
        Err("wrong length".to_owned())
    }
}

fn sign(manifest: &mut SnapshotManifest) {
    sign_manifest(manifest, &KEY.to_vec(), &signable, &sign_with(KEY));
}

fn verify(manifest: &SnapshotManifest, key: [u8; 32]) -> Result<(), SnapshotSignError> {
    let check = move |payload: &Vec<u8>, signature: &Vec<u8>| {
        if &sign_with(key)(payload) == signature {
            Ok(())
        } else {
            Err("signature mismatch".to_owned())
        }
    };
    verify_manifest(manifest, &key.to_vec(), &signable, &read, &check)
}

fn unsigned(block_height: u64, content_hash: Option<[u8; 32]>) -> SnapshotManifest {
    SnapshotManifest {
        version: 1,
        block_height,
        entry_count: 100,
        total_bytes: 5000,
        content_hash,
        signature: None,
        signer_public_key: None,
        signature_scheme: None,
        chain_id: None,
        epoch: None,
        created_at_ms: None,
        previous_manifest_hash: None,
    }
}

#[test]
fn sign_and_verify_roundtrip() {
    let mut manifest = unsigned(42, Some([0xAB; 32]));
    sign(&mut manifest);

    assert!(manifest.signature.is_some());
    assert_eq!(manifest.signature_scheme.as_deref(), Some("falcon-512"));
    assert!(manifest.signer_public_key.is_some());
    assert_eq!(manifest.block_height, 42);

    verify(&manifest, KEY).expect("verification should succeed");
}

#[test]
fn verify_fails_with_wrong_key() {
    let mut manifest = unsigned(10, Some([0xCD; 32]));
    sign(&mut manifest);
    let err = verify(&manifest, OTHER_KEY).unwrap_err();
    assert!(matches!(err, SnapshotSignError::UntrustedSigner));
}

#[test]
fn verify_fails_when_unsigned() {
    let err = verify(&unsigned(1, None), KEY).unwrap_err();
    assert!(matches!(err, SnapshotSignError::MissingSignature));
}

#[test]
fn verify_fails_on_tampered_manifest() {
    let mut manifest = unsigned(99, Some([0xFF; 32]));
    sign(&mut manifest);
    manifest.block_height = 100;
    let err = verify(&manifest, KEY).unwrap_err();
    assert!(matches!(err, SnapshotSignError::VerificationFailed(_)));
}

#[test]
fn verify_rejects_unsupported_scheme() {
    let mut manifest = unsigned(1, None);
    sign(&mut manifest);
    manifest.signature_scheme = Some("ed25519".to_string());
    let err = verify(&manifest, KEY).unwrap_err();
    assert!(matches!(err, SnapshotSignError::UnsupportedScheme(_)));
}

#[test]
fn verify_rejects_missing_public_key() {
    let mut manifest = unsigned(1, None);
    sign(&mut manifest);
    manifest.signer_public_key = None;
    let err = verify(&manifest, KEY).unwrap_err();
    assert!(matches!(err, SnapshotSignError::MissingPublicKey));
}

#[test]
fn verify_rejects_missing_scheme() {
    let mut manifest = unsigned(1, None);
    sign(&mut manifest);
    manifest.signature_scheme = None;
    let err = verify(&manifest, KEY).unwrap_err();
    assert!(matches!(err, SnapshotSignError::MissingScheme));
}

#[test]
fn verify_rejects_invalid_signature_bytes() {
    let mut manifest = unsigned(1, None);
    sign(&mut manifest);
    manifest.signature = Some(vec![0xFF; 10]);
    let err = verify(&manifest, KEY).unwrap_err();
    assert_eq!(err, SnapshotSignError::InvalidSignature("wrong length".to_owned()));
}

#[test]
fn verify_snapshot_file_errors_on_nonexistent_path() {
    let check = |_: &Vec<u8>, _: &Vec<u8>| Ok(());
    let err = verify_snapshot_file(
        Err("no such file".to_owned()),
        &KEY.to_vec(),
        &signable,
        &read,
        &check,
    )
    .unwrap_err();
    assert!(matches!(err, SnapshotSignError::IoError(_)));
}

#[test]
fn verify_snapshot_file_hands_the_manifest_out() {
    let mut manifest = unsigned(7, None);
    sign(&mut manifest);
    let check = |_: &Vec<u8>, _: &Vec<u8>| Ok(());
    let read_back =
        verify_snapshot_file(Ok(manifest), &KEY.to_vec(), &signable, &read, &check).unwrap();
    assert_eq!(read_back.block_height, 7);
}

#[test]
fn all_error_variants_display() {
    let errors = [
        SnapshotSignError::MissingSignature,
        SnapshotSignError::MissingScheme,
        SnapshotSignError::MissingPublicKey,
        SnapshotSignError::UnsupportedScheme("ed25519".into()),
        SnapshotSignError::UntrustedSigner,
        SnapshotSignError::InvalidSignature("bad".into()),
        SnapshotSignError::VerificationFailed("failed".into()),
        SnapshotSignError::IoError("io".into()),
    ];
    for e in &errors {
        let msg = e.to_string();
        assert!(!msg.is_empty());
    }
    assert_eq!(errors[3].to_string(), "unsupported signature scheme: ed25519");
}
