//! Node services: election, readiness, synchronisation and maintenance.

pub mod committee_laws;
pub mod consensus_types;
pub mod discovery_laws;
pub mod election_laws;
pub mod identity_laws;
pub mod readiness;
pub mod readiness_laws;
pub mod session_cleanup;
pub mod snapshot_laws;
pub mod snapshot_provider;
pub mod snapshot_signing;
pub mod staking_snapshot;
pub mod startup_report;
pub mod state_sync;
pub mod storage_maintenance;
pub mod sync_laws;
pub mod upkeep_laws;
pub mod validator_discovery;
pub mod validator_identity;
pub mod validator_keys;
