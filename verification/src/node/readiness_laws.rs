//! What the health of the node says of its subsystems.

use vstd::prelude::*;
use vstd::string::*;

use crate::node::readiness::{
    NodeReadiness, NodeStatus, Subsystem, SubsystemHandle, SubsystemReport, SubsystemSnapshot,
    SubsystemStatus,
};

verus! {

/// Whether a subsystem is ready, once reported progress, and has not done so
/// for longer than `threshold` milliseconds.
pub open spec fn silent_too_long(report: SubsystemReport, threshold: u64, now_ms: u64) -> bool {
    &&& report.status is Ready
    &&& report.last_progress_ms > 0
    &&& now_ms - report.last_progress_ms > threshold
}

/// Whether the node cannot do without the subsystem that gave this report.
pub open spec fn failing(report: SubsystemReport, threshold: u64, now_ms: u64) -> bool {
    report.status is Down || silent_too_long(report, threshold, now_ms)
}

proof fn lemma_critical_ones(t: NodeReadiness)
    ensures
        forall|s: Subsystem| #[trigger] NodeReadiness::critical(s) <==> s is Storage || s is Consensus || s is Execution || s is Genesis,
        t.report(Subsystem::Storage) == t.storage,
        t.report(Subsystem::Network) == t.network,
        t.report(Subsystem::Consensus) == t.consensus,
        t.report(Subsystem::Execution) == t.execution,
        t.report(Subsystem::Genesis) == t.genesis,
        NodeReadiness::critical(Subsystem::Storage),
        NodeReadiness::critical(Subsystem::Consensus),
        NodeReadiness::critical(Subsystem::Execution),
        NodeReadiness::critical(Subsystem::Genesis),
{
}

/// A node is healthy exactly where storage, network, consensus and execution
/// are all ready, genesis is ready or degraded, and none but the network has
/// been silent for too long.
pub proof fn law_healthy_nodes_are_ready_throughout(t: NodeReadiness, now_ms: u64, r: NodeStatus)
    requires
        call_ensures(NodeReadiness::status, (&t, now_ms), r),
    ensures
        r is Healthy <==> {
            &&& t.storage.status is Ready
            &&& t.network.status is Ready
            &&& t.consensus.status is Ready
            &&& t.execution.status is Ready
            &&& t.genesis.status is Ready || t.genesis.status is Degraded
            &&& !silent_too_long(t.storage, t.stall_threshold_ms, now_ms)
            &&& !silent_too_long(t.consensus, t.stall_threshold_ms, now_ms)
            &&& !silent_too_long(t.execution, t.stall_threshold_ms, now_ms)
            &&& !silent_too_long(t.genesis, t.stall_threshold_ms, now_ms)
        },
{
    lemma_critical_ones(t);
}

/// A node is halted exactly where storage, consensus, execution or genesis is
/// down or has been silent for too long, whatever the others report.
pub proof fn law_halted_nodes_lack_a_subsystem(t: NodeReadiness, now_ms: u64, r: NodeStatus)
    requires
        call_ensures(NodeReadiness::status, (&t, now_ms), r),
    ensures
        r is Halted <==> {
            ||| failing(t.storage, t.stall_threshold_ms, now_ms)
            ||| failing(t.consensus, t.stall_threshold_ms, now_ms)
            ||| failing(t.execution, t.stall_threshold_ms, now_ms)
            ||| failing(t.genesis, t.stall_threshold_ms, now_ms)
        },
{
    lemma_critical_ones(t);
}

/// A node that is not halted is bootstrapping exactly while storage,
/// consensus, execution or genesis is starting; once none of them is, it is
/// syncing exactly while consensus is degraded.
pub proof fn law_nodes_come_up_step_by_step(t: NodeReadiness, now_ms: u64, r: NodeStatus)
    requires
        call_ensures(NodeReadiness::status, (&t, now_ms), r),
        !(r is Halted),
    ensures
        ({
            let starting = t.storage.status is Starting || t.consensus.status is Starting
                || t.execution.status is Starting || t.genesis.status is Starting;
            &&& r is Bootstrapping <==> starting
            &&& r is Syncing <==> !starting && t.consensus.status is Degraded
        }),
{
    lemma_critical_ones(t);
}

/// A node whose storage, consensus, execution and genesis run, none of them
/// silent for too long and consensus ready, is degraded exactly where the
/// network is not ready or execution or storage is degraded, and healthy
/// otherwise.
pub proof fn law_degraded_nodes_have_a_degraded_subsystem(t: NodeReadiness, now_ms: u64, r: NodeStatus)
    requires
        call_ensures(NodeReadiness::status, (&t, now_ms), r),
        t.consensus.status is Ready,
        t.storage.status is Ready || t.storage.status is Degraded,
        t.execution.status is Ready || t.execution.status is Degraded,
        t.genesis.status is Ready || t.genesis.status is Degraded,
        !silent_too_long(t.storage, t.stall_threshold_ms, now_ms),
        !silent_too_long(t.consensus, t.stall_threshold_ms, now_ms),
        !silent_too_long(t.execution, t.stall_threshold_ms, now_ms),
        !silent_too_long(t.genesis, t.stall_threshold_ms, now_ms),
    ensures
        r is Degraded || r is Healthy,
        r is Degraded <==> !(t.network.status is Ready) || t.execution.status is Degraded
            || t.storage.status is Degraded,
{
    lemma_critical_ones(t);
}

/// Whether only the report of `s` is another one afterwards, and is `report`.
pub open spec fn only_report_changed(
    before: NodeReadiness,
    after: NodeReadiness,
    s: Subsystem,
    report: SubsystemReport,
) -> bool {
    &&& after.storage == if s is Storage { report } else { before.storage }
    &&& after.network == if s is Network { report } else { before.network }
    &&& after.consensus == if s is Consensus { report } else { before.consensus }
    &&& after.execution == if s is Execution { report } else { before.execution }
    &&& after.genesis == if s is Genesis { report } else { before.genesis }
    &&& after.stall_threshold_ms == before.stall_threshold_ms
}

/// The report of one subsystem.
pub open spec fn report_by(t: NodeReadiness, s: Subsystem) -> SubsystemReport {
    match s {
        Subsystem::Storage => t.storage,
        Subsystem::Network => t.network,
        Subsystem::Consensus => t.consensus,
        Subsystem::Execution => t.execution,
        Subsystem::Genesis => t.genesis,
    }
}

/// A subsystem that reports itself ready is ready from then on, has just made
/// progress, and no other report changes.
pub proof fn law_set_ready_makes_ready(h: SubsystemHandle, t: &mut NodeReadiness, now_ms: u64)
    requires
        call_ensures(SubsystemHandle::set_ready, (&h, t, now_ms), ()),
    ensures
        exists|report: SubsystemReport|
            {
                &&& #[trigger] only_report_changed(*old(t), *final(t), h.subsystem, report)
                &&& report.status is Ready
                &&& report.last_progress_ms > 0
                &&& now_ms > 0 ==> report.last_progress_ms == now_ms
                &&& report.last_progress_ms <= now_ms + 1
            },
{
    assert(only_report_changed(*old(t), *final(t), h.subsystem, report_by(*final(t), h.subsystem)));
}

/// A subsystem that reports itself degraded is degraded from then on, and no
/// other report changes.
pub proof fn law_set_degraded_makes_degraded(h: SubsystemHandle, t: &mut NodeReadiness, now_ms: u64)
    requires
        call_ensures(SubsystemHandle::set_degraded, (&h, t, now_ms), ()),
    ensures
        exists|report: SubsystemReport|
            {
                &&& #[trigger] only_report_changed(*old(t), *final(t), h.subsystem, report)
                &&& report.status is Degraded
                &&& report.last_progress_ms > 0
                &&& now_ms > 0 ==> report.last_progress_ms == now_ms
                &&& report.last_progress_ms <= now_ms + 1
            },
{
    assert(only_report_changed(*old(t), *final(t), h.subsystem, report_by(*final(t), h.subsystem)));
}

/// A subsystem that reports itself down is down from then on, and no other
/// report changes.
pub proof fn law_set_down_makes_down(h: SubsystemHandle, t: &mut NodeReadiness, now_ms: u64)
    requires
        call_ensures(SubsystemHandle::set_down, (&h, t, now_ms), ()),
    ensures
        exists|report: SubsystemReport|
            {
                &&& #[trigger] only_report_changed(*old(t), *final(t), h.subsystem, report)
                &&& report.status is Down
                &&& report.last_progress_ms > 0
                &&& now_ms > 0 ==> report.last_progress_ms == now_ms
                &&& report.last_progress_ms <= now_ms + 1
            },
{
    assert(only_report_changed(*old(t), *final(t), h.subsystem, report_by(*final(t), h.subsystem)));
}

/// Progress changes no status, only when the subsystem last made some.
pub proof fn law_progress_keeps_the_status(h: SubsystemHandle, t: &mut NodeReadiness, now_ms: u64)
    requires
        call_ensures(SubsystemHandle::report_progress, (&h, t, now_ms), ()),
    ensures
        exists|report: SubsystemReport|
            {
                &&& #[trigger] only_report_changed(*old(t), *final(t), h.subsystem, report)
                &&& report.status == report_by(*old(t), h.subsystem).status
                &&& report.last_progress_ms > 0
                &&& now_ms > 0 ==> report.last_progress_ms == now_ms
                &&& report.last_progress_ms <= now_ms + 1
            },
{
    assert(only_report_changed(*old(t), *final(t), h.subsystem, report_by(*final(t), h.subsystem)));
}

/// A handle tells what its own subsystem last reported, and how long ago.
pub proof fn law_handles_tell_of_their_subsystem(
    h: SubsystemHandle,
    t: NodeReadiness,
    now_ms: u64,
    status: SubsystemStatus,
    since: u64,
)
    requires
        call_ensures(SubsystemHandle::status, (&h, &t), status),
        call_ensures(SubsystemHandle::ms_since_last_progress, (&h, &t, now_ms), since),
    ensures
        status == report_by(t, h.subsystem).status,
        report_by(t, h.subsystem).last_progress_ms <= now_ms ==> since
            + report_by(t, h.subsystem).last_progress_ms == now_ms,
        report_by(t, h.subsystem).last_progress_ms > now_ms ==> since == 0,
{
}

/// Each handle is that of the subsystem that it is named after.
pub proof fn law_handles_are_told_apart(
    t: NodeReadiness,
    storage: SubsystemHandle,
    network: SubsystemHandle,
    consensus: SubsystemHandle,
    execution: SubsystemHandle,
    genesis: SubsystemHandle,
)
    requires
        call_ensures(NodeReadiness::storage_handle, (&t,), storage),
        call_ensures(NodeReadiness::network_handle, (&t,), network),
        call_ensures(NodeReadiness::consensus_handle, (&t,), consensus),
        call_ensures(NodeReadiness::execution_handle, (&t,), execution),
        call_ensures(NodeReadiness::genesis_handle, (&t,), genesis),
    ensures
        report_by(t, storage.subsystem) == t.storage,
        report_by(t, network.subsystem) == t.network,
        report_by(t, consensus.subsystem) == t.consensus,
        report_by(t, execution.subsystem) == t.execution,
        report_by(t, genesis.subsystem) == t.genesis,
        storage.subsystem is Storage && network.subsystem is Network && consensus.subsystem is Consensus
            && execution.subsystem is Execution && genesis.subsystem is Genesis,
{
}

/// A new tracker waits for every subsystem to start, and is not ready.
pub proof fn law_new_nodes_are_bootstrapping(
    threshold: u64,
    t: NodeReadiness,
    now_ms: u64,
    r: NodeStatus,
    ready: bool,
)
    requires
        call_ensures(NodeReadiness::with_stall_threshold, (threshold,), t),
        call_ensures(NodeReadiness::status, (&t, now_ms), r),
        call_ensures(NodeStatus::is_ready, (r,), ready),
    ensures
        r is Bootstrapping,
        !ready,
        t.stall_threshold_ms == threshold,
        t.storage.status is Starting && t.network.status is Starting && t.consensus.status is Starting
            && t.execution.status is Starting && t.genesis.status is Starting,
{
    lemma_critical_ones(t);
}

/// A node is ready exactly where it is healthy or degraded.
pub proof fn law_ready_means_healthy_or_degraded(status: NodeStatus, ready: bool)
    requires
        call_ensures(NodeStatus::is_ready, (status,), ready),
    ensures
        ready <==> !(status is Bootstrapping || status is Syncing || status is Halted),
{
}

/// What a node's status is called.
pub proof fn law_statuses_have_their_names(status: NodeStatus, name: &'static str)
    requires
        call_ensures(NodeStatus::as_str, (status,), name),
    ensures
        status is Bootstrapping ==> name@ == "bootstrapping"@,
        status is Syncing ==> name@ == "syncing"@,
        status is Healthy ==> name@ == "healthy"@,
        status is Degraded ==> name@ == "degraded"@,
        status is Halted ==> name@ == "halted"@,
{
}

/// What a subsystem's status is called, and which code it has.
pub proof fn law_subsystem_statuses_have_their_names(
    code: u8,
    status: SubsystemStatus,
    name: &'static str,
)
    requires
        call_ensures(SubsystemStatus::from_u8, (code,), status),
        call_ensures(SubsystemStatus::as_str, (status,), name),
    ensures
        code == 0 <==> status is Starting,
        code == 1 <==> status is Ready,
        code == 2 <==> status is Degraded,
        code > 2 <==> status is Down,
        code == 0 ==> name@ == "starting"@,
        code == 1 ==> name@ == "ready"@,
        code == 2 ==> name@ == "degraded"@,
        code > 2 ==> name@ == "down"@,
{
}

/// Whether an entry shows a report under the name `name`.
pub open spec fn shows_report(
    entry: SubsystemSnapshot,
    name: Seq<char>,
    report: SubsystemReport,
    now_ms: u64,
) -> bool {
    &&& entry.name@ == name
    &&& report.status is Starting ==> entry.status@ == "starting"@
    &&& report.status is Ready ==> entry.status@ == "ready"@
    &&& report.status is Degraded ==> entry.status@ == "degraded"@
    &&& report.status is Down ==> entry.status@ == "down"@
    &&& 0 < report.last_progress_ms <= now_ms ==> entry.last_progress_ms + report.last_progress_ms
        == now_ms
    &&& report.last_progress_ms == 0 || report.last_progress_ms > now_ms
        ==> entry.last_progress_ms == 0
}

/// The snapshot shows the report of each subsystem under its own name.
pub proof fn law_snapshots_show_every_subsystem(
    t: NodeReadiness,
    now_ms: u64,
    r: Vec<SubsystemSnapshot>,
)
    requires
        call_ensures(NodeReadiness::subsystem_snapshot, (&t, now_ms), r),
    ensures
        r@.len() == 5,
        shows_report(r@[0], "storage"@, t.storage, now_ms),
        shows_report(r@[1], "network"@, t.network, now_ms),
        shows_report(r@[2], "consensus"@, t.consensus, now_ms),
        shows_report(r@[3], "execution"@, t.execution, now_ms),
        shows_report(r@[4], "genesis"@, t.genesis, now_ms),
{
}

/// A new node reports every subsystem as starting, and takes one for stalled
/// after half a minute unless told otherwise.
pub proof fn law_nodes_start_with_nothing_ready(
    t: NodeReadiness,
    stall_threshold_ms: u64,
    u: NodeReadiness,
)
    requires
        call_ensures(NodeReadiness::new, (), t),
        call_ensures(NodeReadiness::with_stall_threshold, (stall_threshold_ms,), u),
    ensures
        t.stall_threshold_ms == 30_000,
        u.stall_threshold_ms == stall_threshold_ms,
        starts(t.storage) && starts(t.network) && starts(t.consensus) && starts(t.execution)
            && starts(t.genesis),
        starts(u.storage) && starts(u.network) && starts(u.consensus) && starts(u.execution)
            && starts(u.genesis),
{
    lemma_critical_ones(t);
    lemma_critical_ones(u);
}

/// Whether a subsystem has reported nothing but that it starts.
pub open spec fn starts(report: SubsystemReport) -> bool {
    report.status is Starting && report.last_progress_ms == 0
}

/// Every subsystem has a name of its own.
pub proof fn law_subsystems_are_named(s: Subsystem, r: &'static str)
    requires
        call_ensures(Subsystem::name, (s,), r),
    ensures
        s is Storage ==> r@ == "storage"@,
        s is Network ==> r@ == "network"@,
        s is Consensus ==> r@ == "consensus"@,
        s is Execution ==> r@ == "execution"@,
        s is Genesis ==> r@ == "genesis"@,
{
}

} // verus!
