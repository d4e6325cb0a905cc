//! What a node reports of its start.

use vstd::prelude::*;

use crate::node::validator_discovery::ValidatorDiscoveryResult;

verus! {

/// What a node reports of its start.
#[derive(Debug, Clone)]
pub struct StartupReport {
    /// Software version.
    pub version: &'static str,
    /// Whether the node runs in development mode.
    pub dev_mode: bool,
    /// Chain identifier.
    pub chain_id: String,
    /// What became of the genesis.
    pub genesis: GenesisOutcome,
    /// Number of validators in the committee.
    pub committee_size: usize,
    /// Index of this validator in the committee.
    pub local_validator_index: u32,
    /// Number of execution shards.
    pub num_shards: u16,
    /// Where the storage lies.
    pub storage_path: String,
    /// What became of the sessions.
    pub session_recovery: RecoveryOutcome,
    /// What became of the provenance records.
    pub provenance_recovery: RecoveryOutcome,
    /// What the discovery of peers did.
    pub network_discovery: Option<DiscoveryOutcome>,
    /// Readiness at the end of the start.
    pub readiness_status: &'static str,
    /// Status of the proof backend.
    pub proof_backend: ProofBackendStatus,
}

/// What became of the genesis.
#[derive(Debug, Clone, Copy, PartialEq, Eq, Structural)]
pub enum GenesisOutcome {
    /// It was loaded and applied for the first time.
    Applied,
    /// It had been applied before.
    AlreadyApplied,
    /// There was none.
    Skipped,
}

/// What became of a recovery.
#[derive(Debug, Clone, Copy, PartialEq, Eq, Structural)]
pub struct RecoveryOutcome {
    /// Whether it succeeded.
    pub success: bool,
    /// Number of records recovered.
    pub count: u64,
}

/// What the discovery of peers did.
#[derive(Debug, Clone, Copy, PartialEq, Eq, Structural)]
pub struct DiscoveryOutcome {
    /// Number of validators seeded into the routing table.
    pub validators_seeded: usize,
    /// Number of boot nodes added.
    pub boot_nodes_added: usize,
    /// Whether the bootstrap was begun.
    pub bootstrap_initiated: bool,
}

/// Status of the proof backend.
#[derive(Debug, Clone, Copy, PartialEq, Eq, Structural)]
pub struct ProofBackendStatus {
    /// Whether the commitment tracker was created and wired.
    pub enabled: bool,
    /// Whether the proof endpoints are registered.
    pub rpc_registered: bool,
    /// Whether the commitment tracker is connected to the execution.
    pub execution_bridge_connected: bool,
}

/// What goes into a report.
#[derive(Debug, Clone)]
pub struct StartupReportInputs {
    /// Whether the node runs in development mode.
    pub dev_mode: bool,
    /// Chain identifier.
    pub chain_id: String,
    /// What became of the genesis.
    pub genesis: GenesisOutcome,
    /// Number of validators in the committee.
    pub committee_size: usize,
    /// Index of this validator in the committee.
    pub local_validator_index: u32,
    /// Number of execution shards.
    pub num_shards: u16,
    /// Where the storage lies.
    pub storage_path: String,
    /// What became of the sessions.
    pub session_recovery: RecoveryOutcome,
    /// What became of the provenance records.
    pub provenance_recovery: RecoveryOutcome,
    /// What the discovery of peers did.
    pub network_discovery: Option<DiscoveryOutcome>,
    /// Readiness at the end of the start.
    pub readiness_status: &'static str,
    /// Status of the proof backend.
    pub proof_backend: ProofBackendStatus,
}

/// What became of the genesis, where the node found whether it had been
/// applied before.
pub fn genesis_outcome_from_boot(genesis_already_applied: bool) -> (r: GenesisOutcome)
    ensures
        r == if genesis_already_applied {
            GenesisOutcome::AlreadyApplied
        } else {
            GenesisOutcome::Applied
        },
{
    if genesis_already_applied {
        GenesisOutcome::AlreadyApplied
    } else {
        GenesisOutcome::Applied
    }
}

impl From<ValidatorDiscoveryResult> for DiscoveryOutcome {
    fn from(value: ValidatorDiscoveryResult) -> (r: Self) {
        DiscoveryOutcome {
            validators_seeded: value.validators_seeded,
            boot_nodes_added: value.boot_nodes_added,
            bootstrap_initiated: value.bootstrap_initiated,
        }
    }
}

impl vstd::std_specs::convert::FromSpecImpl<ValidatorDiscoveryResult> for DiscoveryOutcome {
    open spec fn obeys_from_spec() -> bool {
        true
    }

    open spec fn from_spec(value: ValidatorDiscoveryResult) -> Self {
        DiscoveryOutcome {
            validators_seeded: value.validators_seeded,
            boot_nodes_added: value.boot_nodes_added,
            bootstrap_initiated: value.bootstrap_initiated,
        }
    }
}

impl StartupReport {
    /// The report of a node with the software version `version`.
    pub fn from_inputs(inputs: StartupReportInputs, version: &'static str) -> (r: Self)
        ensures
            r == (StartupReport {
                version,
                dev_mode: inputs.dev_mode,
                chain_id: inputs.chain_id,
                genesis: inputs.genesis,
                committee_size: inputs.committee_size,
                local_validator_index: inputs.local_validator_index,
                num_shards: inputs.num_shards,
                storage_path: inputs.storage_path,
                session_recovery: inputs.session_recovery,
                provenance_recovery: inputs.provenance_recovery,
                network_discovery: inputs.network_discovery,
                readiness_status: inputs.readiness_status,
                proof_backend: inputs.proof_backend,
            }),
    {
        StartupReport {
            version,
            dev_mode: inputs.dev_mode,
            chain_id: inputs.chain_id,
            genesis: inputs.genesis,
            committee_size: inputs.committee_size,
            local_validator_index: inputs.local_validator_index,
            num_shards: inputs.num_shards,
            storage_path: inputs.storage_path,
            session_recovery: inputs.session_recovery,
            provenance_recovery: inputs.provenance_recovery,
            network_discovery: inputs.network_discovery,
            readiness_status: inputs.readiness_status,
            proof_backend: inputs.proof_backend,
        }
    }
}

} // verus!
