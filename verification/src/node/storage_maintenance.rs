//! When storage statistics are collected and history is pruned.

use vstd::prelude::*;

verus! {

/// Configuration of the storage layer.
#[derive(Debug, Clone, Copy)]
pub struct StorageConfig {
    /// Whether history is pruned.
    pub pruning_enabled: bool,
    /// Number of latest blocks to retain.
    pub pruning_retention_blocks: u64,
    /// Seconds between two prunings.
    pub pruning_interval_secs: u64,
}

/// Configuration of the maintenance of the storage.
#[derive(Debug, Clone, Copy)]
pub struct StorageMaintenanceConfig {
    /// Nanoseconds between two collections of statistics.
    pub metrics_interval_ns: u128,
    /// Whether history is pruned.
    pub pruning_enabled: bool,
    /// Number of latest blocks to retain.
    pub pruning_retention_blocks: u64,
    /// Nanoseconds between two prunings.
    pub pruning_interval_ns: u128,
}

impl StorageMaintenanceConfig {
    /// Takes the configuration from that of the storage layer. Statistics are
    /// collected every thirty seconds.
    pub fn from_storage_config(cfg: &StorageConfig) -> (r: Self)
        ensures
            r == (StorageMaintenanceConfig {
                metrics_interval_ns: 30_000_000_000,
                pruning_enabled: cfg.pruning_enabled,
                pruning_retention_blocks: cfg.pruning_retention_blocks,
                pruning_interval_ns: (cfg.pruning_interval_secs * 1_000_000_000) as u128,
            }),
    {
        StorageMaintenanceConfig {
            metrics_interval_ns: 30_000_000_000,
            pruning_enabled: cfg.pruning_enabled,
            pruning_retention_blocks: cfg.pruning_retention_blocks,
            pruning_interval_ns: cfg.pruning_interval_secs as u128 * 1_000_000_000,
        }
    }
}

impl Default for StorageMaintenanceConfig {
    fn default() -> (r: Self)
        ensures
            r == (StorageMaintenanceConfig {
                metrics_interval_ns: 30_000_000_000,
                pruning_enabled: false,
                pruning_retention_blocks: 100_000,
                pruning_interval_ns: 3_600_000_000_000,
            }),
    {
        StorageMaintenanceConfig {
            metrics_interval_ns: 30_000_000_000,
            pruning_enabled: false,
            pruning_retention_blocks: 100_000,
            pruning_interval_ns: 3_600_000_000_000,
        }
    }
}

/// The first block to retain at the height `chain_height`, where there are
/// more blocks than are retained.
pub open spec fn first_retained(config: StorageMaintenanceConfig, chain_height: u64) -> Option<u64> {
    if chain_height > config.pruning_retention_blocks {
        Some((chain_height - config.pruning_retention_blocks) as u64)
    } else {
        None
    }
}

/// The first block to retain at the height `chain_height`, where there are
/// more blocks than are retained.
pub fn prune_retain_from(config: &StorageMaintenanceConfig, chain_height: u64) -> (r: Option<u64>)
    ensures
        r == first_retained(*config, chain_height),
{
    if chain_height > config.pruning_retention_blocks {
        Some(chain_height - config.pruning_retention_blocks)
    } else {
        None
    }
}

/// Pruning at a height retains exactly the configured number of blocks below
/// it, and the first block that is retained never moves back as the chain
/// grows.
pub proof fn law_pruning_retains_the_window(
    config: StorageMaintenanceConfig,
    earlier_height: u64,
    chain_height: u64,
)
    requires
        earlier_height <= chain_height,
    ensures
        match first_retained(config, chain_height) {
            Some(first) => first > 0 && chain_height - first == config.pruning_retention_blocks,
            None => chain_height <= config.pruning_retention_blocks,
        },
        match (first_retained(config, earlier_height), first_retained(config, chain_height)) {
            (Some(earlier), Some(later)) => earlier <= later,
            (Some(_), None) => false,
            _ => true,
        },
{
}

/// What to do when a timer of the maintenance fires.
#[derive(Debug, Clone, Copy, PartialEq, Eq, Structural)]
pub enum MaintenanceAction {
    /// Collect statistics.
    CollectMetrics,
    /// Prune everything before the block with this number.
    PruneBefore(u64),
    /// Nothing.
    Idle,
}

/// A timer of the maintenance.
#[derive(Debug, Clone, Copy, PartialEq, Eq, Structural)]
pub enum MaintenanceTick {
    /// It is time to collect statistics.
    Metrics,
    /// It is time to prune.
    Prune,
}

/// Decides what to do when a timer fires at the height `chain_height`. Either
/// way progress is reported afterwards.
pub fn maintenance_action(
    config: &StorageMaintenanceConfig,
    tick: MaintenanceTick,
    chain_height: u64,
) -> (r: MaintenanceAction)
    ensures
        r == (match tick {
            MaintenanceTick::Metrics => MaintenanceAction::CollectMetrics,
            MaintenanceTick::Prune => match first_retained(*config, chain_height) {
                Some(first) if config.pruning_enabled => MaintenanceAction::PruneBefore(first),
                _ => MaintenanceAction::Idle,
            },
        }),
{
    match tick {
        MaintenanceTick::Metrics => MaintenanceAction::CollectMetrics,
        MaintenanceTick::Prune => {
            if !config.pruning_enabled {
                return MaintenanceAction::Idle;
            }
            match prune_retain_from(config, chain_height) {
                Some(first) => MaintenanceAction::PruneBefore(first),
                None => MaintenanceAction::Idle,
            }
        },
    }
}

/// How many entries a pruning removed.
#[derive(Debug, Clone, Copy, PartialEq, Eq, Structural)]
pub struct PruneResult {
    /// Blocks removed.
    pub blocks_pruned: u64,
    /// Transactions removed.
    pub transactions_pruned: u64,
    /// Receipts removed.
    pub receipts_pruned: u64,
}

/// Whether a pruning is worth reporting: whether it removed anything.
pub fn pruned_anything(result: &PruneResult) -> (r: bool)
    ensures
        r == (result.blocks_pruned > 0 || result.transactions_pruned > 0
            || result.receipts_pruned > 0),
{
    result.blocks_pruned > 0 || result.transactions_pruned > 0 || result.receipts_pruned > 0
}

} // verus!
