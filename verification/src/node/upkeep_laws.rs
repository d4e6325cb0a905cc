//! What the node keeps, deletes and reports of itself.

use vstd::prelude::*;

use crate::node::consensus_types::ReputationScore;
use crate::node::session_cleanup::CleanupConfig;
use crate::node::startup_report::{
    genesis_outcome_from_boot, DiscoveryOutcome, GenesisOutcome, StartupReport, StartupReportInputs,
};
use crate::node::storage_maintenance::{
    maintenance_action, prune_retain_from, pruned_anything, MaintenanceAction, MaintenanceTick,
    PruneResult, StorageConfig, StorageMaintenanceConfig,
};
use crate::node::validator_discovery::{
    discover_validators, needs_bootstrap, ValidatorDiscoveryResult,
};

verus! {

/// Whether a cutoff deletes what was created at a time.
pub open spec fn deletes(cutoff: Option<u64>, created_ms: u64) -> bool {
    cutoff is Some && created_ms < cutoff->Some_0
}

/// A session is deleted exactly where it is older than sessions may become, and
/// a provenance record exactly where it is older than those may become; a time
/// of zero keeps them for ever.
pub proof fn law_old_entries_are_deleted(
    config: CleanupConfig,
    now_ms: u64,
    created_ms: u64,
    sessions: Option<u64>,
    provenance: Option<u64>,
)
    requires
        call_ensures(CleanupConfig::session_cutoff, (&config, now_ms), sessions),
        call_ensures(CleanupConfig::provenance_cutoff, (&config, now_ms), provenance),
    ensures
        deletes(sessions, created_ms) <==> config.session_ttl_ms != 0 && created_ms
            + config.session_ttl_ms < now_ms,
        deletes(provenance, created_ms) <==> config.provenance_retention_ms != 0 && created_ms
            + config.provenance_retention_ms < now_ms,
        sessions is None <==> config.session_ttl_ms == 0,
        provenance is None <==> config.provenance_retention_ms == 0,
{
}

/// Unless told otherwise the node looks for old entries every hour, keeps
/// sessions for a day and provenance records for thirty.
pub proof fn law_cleanup_defaults(config: CleanupConfig)
    requires
        call_ensures(<CleanupConfig as Default>::default, (), config),
    ensures
        config.interval_ms == 60 * 60 * 1000,
        config.session_ttl_ms == 24 * 60 * 60 * 1000,
        config.provenance_retention_ms == 30 * 24 * 60 * 60 * 1000,
{
}

/// Maintenance goes by the storage configuration, and without one prunes
/// nothing.
pub proof fn law_maintenance_goes_by_the_configuration(
    storage: StorageConfig,
    config: StorageMaintenanceConfig,
    standard: StorageMaintenanceConfig,
)
    requires
        call_ensures(StorageMaintenanceConfig::from_storage_config, (&storage,), config),
        call_ensures(<StorageMaintenanceConfig as Default>::default, (), standard),
    ensures
        config.pruning_enabled == storage.pruning_enabled,
        config.pruning_retention_blocks == storage.pruning_retention_blocks,
        config.pruning_interval_ns == storage.pruning_interval_secs * 1_000_000_000,
        config.metrics_interval_ns == 30 * 1_000_000_000,
        !standard.pruning_enabled,
        standard.pruning_retention_blocks == 100_000,
        standard.pruning_interval_ns == 60 * 60 * 1_000_000_000,
        standard.metrics_interval_ns == 30 * 1_000_000_000,
{
    assert(storage.pruning_interval_secs * 1_000_000_000 <= u128::MAX) by (nonlinear_arith)
        requires
            storage.pruning_interval_secs <= u64::MAX,
    ;
}

/// The newest blocks are retained, as many as are configured, and only where
/// there are more of them is anything pruned at all.
pub proof fn law_newest_blocks_are_retained(
    config: StorageMaintenanceConfig,
    chain_height: u64,
    r: Option<u64>,
)
    requires
        call_ensures(prune_retain_from, (&config, chain_height), r),
    ensures
        r is Some <==> chain_height > config.pruning_retention_blocks,
        r is Some ==> r->Some_0 + config.pruning_retention_blocks == chain_height,
{
}

/// Statistics are collected when their time has come; when that of pruning has
/// come, what precedes the retained blocks is pruned, if pruning is enabled.
pub proof fn law_maintenance_does_what_is_due(
    config: StorageMaintenanceConfig,
    tick: MaintenanceTick,
    chain_height: u64,
    r: MaintenanceAction,
)
    requires
        call_ensures(maintenance_action, (&config, tick, chain_height), r),
    ensures
        r is CollectMetrics <==> tick is Metrics,
        r is PruneBefore <==> tick is Prune && config.pruning_enabled && chain_height
            > config.pruning_retention_blocks,
        r is PruneBefore ==> r->PruneBefore_0 + config.pruning_retention_blocks == chain_height,
{
}

/// Something was pruned where a block, a transaction or a receipt was.
pub proof fn law_any_pruning_counts(result: PruneResult, r: bool)
    requires
        call_ensures(pruned_anything, (&result,), r),
    ensures
        !r <==> result.blocks_pruned == 0 && result.transactions_pruned == 0
            && result.receipts_pruned == 0,
{
}

/// A report shows each thing under its own name.
pub proof fn law_reports_show_what_happened(
    inputs: StartupReportInputs,
    version: &'static str,
    r: StartupReport,
)
    requires
        call_ensures(StartupReport::from_inputs, (inputs, version), r),
    ensures
        r.version == version,
        r.dev_mode == inputs.dev_mode,
        r.chain_id == inputs.chain_id,
        r.genesis == inputs.genesis,
        r.committee_size == inputs.committee_size,
        r.local_validator_index == inputs.local_validator_index,
        r.num_shards == inputs.num_shards,
        r.storage_path == inputs.storage_path,
        r.session_recovery == inputs.session_recovery,
        r.provenance_recovery == inputs.provenance_recovery,
        r.network_discovery == inputs.network_discovery,
        r.readiness_status == inputs.readiness_status,
        r.proof_backend == inputs.proof_backend,
{
}

/// Genesis is reported as applied where it had not been before.
pub proof fn law_genesis_is_applied_once(genesis_already_applied: bool, r: GenesisOutcome)
    requires
        call_ensures(genesis_outcome_from_boot, (genesis_already_applied,), r),
    ensures
        r is AlreadyApplied <==> genesis_already_applied,
        r is Applied <==> !genesis_already_applied,
{
}

/// What discovery found is counted under its own name, and reported so. The
/// network is joined where there are boot nodes and joining succeeded.
pub proof fn law_discoveries_are_counted(
    validators_seeded: usize,
    boot_nodes_added: usize,
    bootstrap: Option<bool>,
    needed: bool,
    result: ValidatorDiscoveryResult,
    outcome: DiscoveryOutcome,
)
    requires
        call_ensures(needs_bootstrap, (boot_nodes_added,), needed),
        call_ensures(discover_validators, (validators_seeded, boot_nodes_added, bootstrap), result),
        call_ensures(
            <DiscoveryOutcome as From<ValidatorDiscoveryResult>>::from,
            (result,),
            outcome,
        ),
    ensures
        needed <==> boot_nodes_added != 0,
        result.validators_seeded == validators_seeded,
        result.boot_nodes_added == boot_nodes_added,
        result.bootstrap_initiated <==> needed && bootstrap == Some(true),
        outcome.validators_seeded == validators_seeded,
        outcome.boot_nodes_added == boot_nodes_added,
        outcome.bootstrap_initiated == result.bootstrap_initiated,
{
}

/// A reputation is what it was made of, as long as that is no more than the
/// best one, with which everyone starts.
pub proof fn law_reputations_have_a_best(
    points: u16,
    score: ReputationScore,
    none: ReputationScore,
    best: ReputationScore,
)
    requires
        call_ensures(ReputationScore::from_basis_points, (points,), score),
        call_ensures(ReputationScore::zero, (), none),
        call_ensures(<ReputationScore as Default>::default, (), best),
    ensures
        none.0 == 0,
        best.0 == 10_000,
        points <= best.0 ==> score.0 == points,
        points > best.0 ==> score.0 == best.0,
{
}

} // verus!
