//! Readiness of the subsystems and of the node.

use nexus_node::node::readiness::{NodeReadiness, NodeStatus, SubsystemStatus};

const NOW: u64 = 1_700_000_000_000;

fn all_ready(stall_threshold_ms: u64) -> NodeReadiness {
    let mut nr = NodeReadiness::with_stall_threshold(stall_threshold_ms);
    nr.storage_handle().set_ready(&mut nr, NOW);
    nr.network_handle().set_ready(&mut nr, NOW);
    nr.consensus_handle().set_ready(&mut nr, NOW);
    nr.execution_handle().set_ready(&mut nr, NOW);
    nr.genesis_handle().set_ready(&mut nr, NOW);
    nr
}

#[test]
fn stall_detection_with_short_threshold() {
    let nr = all_ready(0);
    assert_eq!(nr.status(NOW + 2), NodeStatus::Halted);
}

#[test]
fn initial_status_is_bootstrapping() {
    let nr = NodeReadiness::new();
    assert_eq!(nr.status(NOW), NodeStatus::Bootstrapping);
    assert!(!nr.status(NOW).is_ready());
}

#[test]
fn all_ready_yields_healthy() {
    let mut nr = NodeReadiness::new();
    nr.storage_handle().set_ready(&mut nr, NOW);
    nr.network_handle().set_ready(&mut nr, NOW);
    nr.consensus_handle().set_ready(&mut nr, NOW);
    nr.execution_handle().set_ready(&mut nr, NOW);
    nr.genesis_handle().set_ready(&mut nr, NOW);
    assert_eq!(nr.status(NOW), NodeStatus::Healthy);
    assert!(nr.status(NOW).is_ready());
}

#[test]
fn network_down_yields_degraded() {
    let mut nr = NodeReadiness::new();
    nr.storage_handle().set_ready(&mut nr, NOW);
    nr.network_handle().set_down(&mut nr, NOW);
    nr.consensus_handle().set_ready(&mut nr, NOW);
    nr.execution_handle().set_ready(&mut nr, NOW);
    nr.genesis_handle().set_ready(&mut nr, NOW);
    assert_eq!(nr.status(NOW), NodeStatus::Degraded);
    assert!(nr.status(NOW).is_ready());
}

#[test]
fn consensus_degraded_yields_syncing() {
    let mut nr = NodeReadiness::new();
    nr.storage_handle().set_ready(&mut nr, NOW);
    nr.network_handle().set_ready(&mut nr, NOW);
    nr.consensus_handle().set_degraded(&mut nr, NOW);
    nr.execution_handle().set_ready(&mut nr, NOW);
    nr.genesis_handle().set_ready(&mut nr, NOW);
    assert_eq!(nr.status(NOW), NodeStatus::Syncing);
    assert!(!nr.status(NOW).is_ready());
}

#[test]
fn storage_down_yields_halted() {
    let mut nr = NodeReadiness::new();
    nr.storage_handle().set_down(&mut nr, NOW);
    nr.network_handle().set_ready(&mut nr, NOW);
    nr.consensus_handle().set_ready(&mut nr, NOW);
    nr.execution_handle().set_ready(&mut nr, NOW);
    nr.genesis_handle().set_ready(&mut nr, NOW);
    assert_eq!(nr.status(NOW), NodeStatus::Halted);
    assert!(!nr.status(NOW).is_ready());
}

#[test]
fn execution_down_yields_halted() {
    let mut nr = NodeReadiness::new();
    nr.storage_handle().set_ready(&mut nr, NOW);
    nr.network_handle().set_ready(&mut nr, NOW);
    nr.consensus_handle().set_ready(&mut nr, NOW);
    nr.execution_handle().set_down(&mut nr, NOW);
    nr.genesis_handle().set_ready(&mut nr, NOW);
    assert_eq!(nr.status(NOW), NodeStatus::Halted);
}

#[test]
fn genesis_down_yields_halted() {
    let mut nr = NodeReadiness::new();
    nr.storage_handle().set_ready(&mut nr, NOW);
    nr.network_handle().set_ready(&mut nr, NOW);
    nr.consensus_handle().set_ready(&mut nr, NOW);
    nr.execution_handle().set_ready(&mut nr, NOW);
    nr.genesis_handle().set_down(&mut nr, NOW);
    assert_eq!(nr.status(NOW), NodeStatus::Halted);
}

#[test]
fn subsystem_snapshot_reflects_current_state() {
    let mut nr = NodeReadiness::new();
    nr.storage_handle().set_ready(&mut nr, NOW);
    nr.network_handle().set_degraded(&mut nr, NOW);
    let snap = nr.subsystem_snapshot(NOW);
    assert_eq!(snap.len(), 5);
    assert_eq!(snap[0].name, "storage");
    assert_eq!(snap[0].status, "ready");
    assert_eq!(snap[1].name, "network");
    assert_eq!(snap[1].status, "degraded");
}

#[test]
fn handle_clone_shares_state() {
    let mut nr = NodeReadiness::new();
    let h1 = nr.storage_handle();
    let h2 = nr.storage_handle();
    h1.set_ready(&mut nr, NOW);
    assert_eq!(h2.status(&nr), SubsystemStatus::Ready);
}

#[test]
fn report_progress_updates_timestamp() {
    let mut nr = NodeReadiness::new();
    let h = nr.storage_handle();
    h.set_ready(&mut nr, NOW);
    assert!(h.ms_since_last_progress(&nr, NOW) < 1_000);
}

#[test]
fn stall_does_not_trigger_on_fresh_progress() {
    let mut nr = NodeReadiness::with_stall_threshold(60_000);
    nr.storage_handle().set_ready(&mut nr, NOW);
    nr.network_handle().set_ready(&mut nr, NOW);
    nr.consensus_handle().set_ready(&mut nr, NOW);
    nr.execution_handle().set_ready(&mut nr, NOW);
    nr.genesis_handle().set_ready(&mut nr, NOW);
    assert_eq!(nr.status(NOW), NodeStatus::Healthy);
}

#[test]
fn the_stall_threshold_is_exclusive() {
    let nr = all_ready(30_000);
    assert_eq!(nr.status(NOW + 30_000), NodeStatus::Healthy);
    assert_eq!(nr.status(NOW + 30_001), NodeStatus::Halted);
}

#[test]
fn progress_ends_a_stall() {
    let mut nr = all_ready(10);
    let later = NOW + 100;
    assert_eq!(nr.status(later), NodeStatus::Halted);
    for h in [
        nr.storage_handle(),
        nr.network_handle(),
        nr.consensus_handle(),
        nr.execution_handle(),
        nr.genesis_handle(),
    ] {
        h.report_progress(&mut nr, later);
        assert_eq!(h.status(&nr), SubsystemStatus::Ready);
    }
    assert_eq!(nr.status(later), NodeStatus::Healthy);
}

#[test]
fn snapshots_tell_how_long_ago_progress_was() {
    let nr = all_ready(30_000);
    let snap = nr.subsystem_snapshot(NOW + 250);
    let names: Vec<&str> = snap.iter().map(|s| s.name).collect();
    assert_eq!(names, ["storage", "network", "consensus", "execution", "genesis"]);
    assert!(snap.iter().all(|s| s.last_progress_ms == 250));
}

#[test]
fn statuses_have_names() {
    assert_eq!(NodeStatus::Bootstrapping.as_str(), "bootstrapping");
    assert_eq!(NodeStatus::Syncing.as_str(), "syncing");
    assert_eq!(NodeStatus::Healthy.as_str(), "healthy");
    assert_eq!(NodeStatus::Degraded.as_str(), "degraded");
    assert_eq!(NodeStatus::Halted.as_str(), "halted");
    assert_eq!(SubsystemStatus::from_u8(1), SubsystemStatus::Ready);
    assert_eq!(SubsystemStatus::from_u8(2).as_str(), "degraded");
    assert_eq!(SubsystemStatus::from_u8(3), SubsystemStatus::Down);
}
