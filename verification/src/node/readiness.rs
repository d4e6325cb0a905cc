//! Readiness of the node.
//!
//! Each subsystem reports its own health; the health of the node is derived
//! from the five reports. Time is passed in as milliseconds since the tracker
//! was set up.

use vstd::prelude::*;

verus! {

/// Health of one subsystem.
#[derive(Debug, Clone, Copy, PartialEq, Eq, Structural)]
pub enum SubsystemStatus {
    /// Initialisation is not finished.
    Starting,
    /// Operating normally.
    Ready,
    /// Running with reduced capability.
    Degraded,
    /// Down or unreachable.
    Down,
}

impl SubsystemStatus {
    /// The status with the given code; an unknown code counts as down.
    pub open spec fn of_code(code: u8) -> SubsystemStatus {
        if code == 0 {
            SubsystemStatus::Starting
        } else if code == 1 {
            SubsystemStatus::Ready
        } else if code == 2 {
            SubsystemStatus::Degraded
        } else {
            SubsystemStatus::Down
        }
    }

    /// The label of the status.
    pub open spec fn label(self) -> Seq<char> {
        match self {
            SubsystemStatus::Starting => "starting"@,
            SubsystemStatus::Ready => "ready"@,
            SubsystemStatus::Degraded => "degraded"@,
            SubsystemStatus::Down => "down"@,
        }
    }

    /// The status with the given code; an unknown code counts as down.
    pub fn from_u8(code: u8) -> (r: Self)
        ensures
            r == SubsystemStatus::of_code(code),
    {
        match code {
            0 => SubsystemStatus::Starting,
            1 => SubsystemStatus::Ready,
            2 => SubsystemStatus::Degraded,
            _ => SubsystemStatus::Down,
        }
    }

    /// The label used in responses.
    pub fn as_str(self) -> (r: &'static str)
        ensures
            r@ == self.label(),
    {
        match self {
            SubsystemStatus::Starting => "starting",
            SubsystemStatus::Ready => "ready",
            SubsystemStatus::Degraded => "degraded",
            SubsystemStatus::Down => "down",
        }
    }
}

/// Health of the node.
#[derive(Debug, Clone, Copy, PartialEq, Eq, Structural)]
pub enum NodeStatus {
    /// A critical subsystem is still starting.
    Bootstrapping,
    /// Consensus is catching up with the network.
    Syncing,
    /// The node operates normally.
    Healthy,
    /// Capability is reduced, but the node can serve traffic.
    Degraded,
    /// A critical subsystem is down or stalled.
    Halted,
}

impl NodeStatus {
    /// The label of the status.
    pub open spec fn label(self) -> Seq<char> {
        match self {
            NodeStatus::Bootstrapping => "bootstrapping"@,
            NodeStatus::Syncing => "syncing"@,
            NodeStatus::Healthy => "healthy"@,
            NodeStatus::Degraded => "degraded"@,
            NodeStatus::Halted => "halted"@,
        }
    }

    /// The label used in health responses.
    pub fn as_str(self) -> (r: &'static str)
        ensures
            r@ == self.label(),
    {
        match self {
            NodeStatus::Bootstrapping => "bootstrapping",
            NodeStatus::Syncing => "syncing",
            NodeStatus::Healthy => "healthy",
            NodeStatus::Degraded => "degraded",
            NodeStatus::Halted => "halted",
        }
    }

    /// Whether the node should accept external traffic.
    pub fn is_ready(self) -> (r: bool)
        ensures
            r == (self is Healthy || self is Degraded),
    {
        matches!(self, NodeStatus::Healthy | NodeStatus::Degraded)
    }
}

/// The subsystems of a node.
#[derive(Debug, Clone, Copy, PartialEq, Eq, Structural)]
pub enum Subsystem {
    /// Persistent storage.
    Storage,
    /// Peer-to-peer network.
    Network,
    /// Consensus engine.
    Consensus,
    /// Execution service.
    Execution,
    /// Genesis loading.
    Genesis,
}

impl Subsystem {
    /// The name of the subsystem.
    pub open spec fn label(self) -> Seq<char> {
        match self {
            Subsystem::Storage => "storage"@,
            Subsystem::Network => "network"@,
            Subsystem::Consensus => "consensus"@,
            Subsystem::Execution => "execution"@,
            Subsystem::Genesis => "genesis"@,
        }
    }

    /// The name of the subsystem.
    pub fn name(self) -> (r: &'static str)
        ensures
            r@ == self.label(),
    {
        match self {
            Subsystem::Storage => "storage",
            Subsystem::Network => "network",
            Subsystem::Consensus => "consensus",
            Subsystem::Execution => "execution",
            Subsystem::Genesis => "genesis",
        }
    }
}

/// What one subsystem has reported.
#[derive(Debug, Clone, Copy, PartialEq, Eq, Structural)]
pub struct SubsystemReport {
    /// Its health.
    pub status: SubsystemStatus,
    /// When it last reported, or zero if it never did.
    pub last_progress_ms: u64,
}

impl SubsystemReport {
    /// The report of a subsystem that has just been set up.
    fn initial() -> (r: Self)
        ensures
            r.status is Starting,
            r.last_progress_ms == 0,
    {
        SubsystemReport { status: SubsystemStatus::Starting, last_progress_ms: 0 }
    }
}

/// Readiness tracker of the whole node.
#[derive(Debug, Clone, Copy, PartialEq, Eq, Structural)]
pub struct NodeReadiness {
    /// Report of the storage.
    pub storage: SubsystemReport,
    /// Report of the network.
    pub network: SubsystemReport,
    /// Report of the consensus engine.
    pub consensus: SubsystemReport,
    /// Report of the execution service.
    pub execution: SubsystemReport,
    /// Report of genesis loading.
    pub genesis: SubsystemReport,
    /// A ready subsystem that has not reported for longer than this many
    /// milliseconds is stalled.
    pub stall_threshold_ms: u64,
}

/// Stall threshold of a tracker that is set up without one.
pub const DEFAULT_STALL_THRESHOLD_MS: u64 = 30_000;

/// The time of a report at `now_ms`: never zero, so that zero means that no
/// report was made.
pub open spec fn report_time(now_ms: u64) -> u64 {
    if now_ms == 0 {
        1
    } else {
        now_ms
    }
}

/// Milliseconds from `last_ms` to `now_ms`, or zero if `last_ms` is later.
pub open spec fn elapsed(now_ms: u64, last_ms: u64) -> int {
    if now_ms >= last_ms {
        now_ms - last_ms
    } else {
        0
    }
}

impl NodeReadiness {
    /// The report of a subsystem.
    pub open spec fn report(&self, s: Subsystem) -> SubsystemReport {
        match s {
            Subsystem::Storage => self.storage,
            Subsystem::Network => self.network,
            Subsystem::Consensus => self.consensus,
            Subsystem::Execution => self.execution,
            Subsystem::Genesis => self.genesis,
        }
    }

    /// This tracker with another report for one subsystem.
    pub open spec fn with_report(self, s: Subsystem, r: SubsystemReport) -> NodeReadiness {
        match s {
            Subsystem::Storage => NodeReadiness { storage: r, ..self },
            Subsystem::Network => NodeReadiness { network: r, ..self },
            Subsystem::Consensus => NodeReadiness { consensus: r, ..self },
            Subsystem::Execution => NodeReadiness { execution: r, ..self },
            Subsystem::Genesis => NodeReadiness { genesis: r, ..self },
        }
    }

    /// Whether the node cannot do without the subsystem.
    pub open spec fn critical(s: Subsystem) -> bool {
        !(s is Network)
    }

    /// Whether the subsystem claims to be ready but has not reported for
    /// longer than the threshold.
    pub open spec fn stalled(&self, s: Subsystem, now_ms: u64) -> bool {
        let r = self.report(s);
        r.status is Ready && r.last_progress_ms != 0 && elapsed(now_ms, r.last_progress_ms)
            > self.stall_threshold_ms
    }

    /// The health of the node: the first of these rules that applies decides.
    pub open spec fn node_status(&self, now_ms: u64) -> NodeStatus {
        if exists|s: Subsystem| #[trigger] Self::critical(s) && self.report(s).status is Down {
            NodeStatus::Halted
        } else if exists|s: Subsystem| #[trigger] Self::critical(s) && self.stalled(s, now_ms) {
            NodeStatus::Halted
        } else if exists|s: Subsystem| #[trigger]
            Self::critical(s) && self.report(s).status is Starting {
            NodeStatus::Bootstrapping
        } else if self.consensus.status is Degraded {
            NodeStatus::Syncing
        } else if !(self.network.status is Ready) {
            NodeStatus::Degraded
        } else if self.execution.status is Degraded || self.storage.status is Degraded {
            NodeStatus::Degraded
        } else {
            NodeStatus::Healthy
        }
    }

    /// A tracker in which every subsystem is starting.
    pub fn new() -> (r: Self)
        ensures
            forall|s: Subsystem| (#[trigger] r.report(s)).status is Starting,
            forall|s: Subsystem| (#[trigger] r.report(s)).last_progress_ms == 0,
            r.stall_threshold_ms == DEFAULT_STALL_THRESHOLD_MS,
    {
        NodeReadiness {
            storage: SubsystemReport::initial(),
            network: SubsystemReport::initial(),
            consensus: SubsystemReport::initial(),
            execution: SubsystemReport::initial(),
            genesis: SubsystemReport::initial(),
            stall_threshold_ms: DEFAULT_STALL_THRESHOLD_MS,
        }
    }

    /// A tracker with another stall threshold.
    pub fn with_stall_threshold(stall_threshold_ms: u64) -> (r: Self)
        ensures
            forall|s: Subsystem| (#[trigger] r.report(s)).status is Starting,
            forall|s: Subsystem| (#[trigger] r.report(s)).last_progress_ms == 0,
            r.stall_threshold_ms == stall_threshold_ms,
    {
        let mut r = NodeReadiness::new();
        let ghost base = r;
        r.stall_threshold_ms = stall_threshold_ms;
        assert forall|s: Subsystem| (#[trigger] r.report(s)).status is Starting && r.report(
            s,
        ).last_progress_ms == 0 by {
            assert(base.report(s) == r.report(s));
        }
        r
    }

    /// The handle of the storage.
    pub fn storage_handle(&self) -> (r: SubsystemHandle)
        ensures
            r.subsystem is Storage,
    {
        SubsystemHandle { subsystem: Subsystem::Storage }
    }

    /// The handle of the network.
    pub fn network_handle(&self) -> (r: SubsystemHandle)
        ensures
            r.subsystem is Network,
    {
        SubsystemHandle { subsystem: Subsystem::Network }
    }

    /// The handle of the consensus engine.
    pub fn consensus_handle(&self) -> (r: SubsystemHandle)
        ensures
            r.subsystem is Consensus,
    {
        SubsystemHandle { subsystem: Subsystem::Consensus }
    }

    /// The handle of the execution service.
    pub fn execution_handle(&self) -> (r: SubsystemHandle)
        ensures
            r.subsystem is Execution,
    {
        SubsystemHandle { subsystem: Subsystem::Execution }
    }

    /// The handle of genesis loading.
    pub fn genesis_handle(&self) -> (r: SubsystemHandle)
        ensures
            r.subsystem is Genesis,
    {
        SubsystemHandle { subsystem: Subsystem::Genesis }
    }

    /// The report of a subsystem.
    fn read(&self, s: Subsystem) -> (r: SubsystemReport)
        ensures
            r == self.report(s),
    {
        match s {
            Subsystem::Storage => self.storage,
            Subsystem::Network => self.network,
            Subsystem::Consensus => self.consensus,
            Subsystem::Execution => self.execution,
            Subsystem::Genesis => self.genesis,
        }
    }

    /// Replaces the report of a subsystem.
    fn write(&mut self, s: Subsystem, report: SubsystemReport)
        ensures
            *final(self) == old(self).with_report(s, report),
    {
        match s {
            Subsystem::Storage => {
                self.storage = report;
            },
            Subsystem::Network => {
                self.network = report;
            },
            Subsystem::Consensus => {
                self.consensus = report;
            },
            Subsystem::Execution => {
                self.execution = report;
            },
            Subsystem::Genesis => {
                self.genesis = report;
            },
        }
    }

    /// Milliseconds since the subsystem last reported, or zero if it never
    /// did.
    fn progress_ms(&self, s: Subsystem, now_ms: u64) -> (r: u64)
        ensures
            r == if self.report(s).last_progress_ms == 0 {
                0
            } else {
                elapsed(now_ms, self.report(s).last_progress_ms)
            },
    {
        let last: u64 = self.read(s).last_progress_ms;
        if last == 0 {
            return 0;
        }
        now_ms.saturating_sub(last)
    }

    /// Whether the subsystem is stalled.
    fn is_stalled(&self, s: Subsystem, now_ms: u64) -> (r: bool)
        ensures
            r == self.stalled(s, now_ms),
    {
        let report = self.read(s);
        if report.status != SubsystemStatus::Ready {
            return false;
        }
        if report.last_progress_ms == 0 {
            return false;
        }
        now_ms.saturating_sub(report.last_progress_ms) > self.stall_threshold_ms
    }

    /// The health of the node.
    pub fn status(&self, now_ms: u64) -> (r: NodeStatus)
        ensures
            r == self.node_status(now_ms),
    {
        proof {
            assert(Self::critical(Subsystem::Storage));
            assert(Self::critical(Subsystem::Consensus));
            assert(Self::critical(Subsystem::Execution));
            assert(Self::critical(Subsystem::Genesis));
        }
        if self.storage.status == SubsystemStatus::Down || self.consensus.status
            == SubsystemStatus::Down || self.execution.status == SubsystemStatus::Down
            || self.genesis.status == SubsystemStatus::Down {
            return NodeStatus::Halted;
        }
        if self.is_stalled(Subsystem::Storage, now_ms) || self.is_stalled(
            Subsystem::Consensus,
            now_ms,
        ) || self.is_stalled(Subsystem::Execution, now_ms) || self.is_stalled(
            Subsystem::Genesis,
            now_ms,
        ) {
            return NodeStatus::Halted;
        }
        if self.storage.status == SubsystemStatus::Starting || self.consensus.status
            == SubsystemStatus::Starting || self.execution.status == SubsystemStatus::Starting
            || self.genesis.status == SubsystemStatus::Starting {
            return NodeStatus::Bootstrapping;
        }
        if self.consensus.status == SubsystemStatus::Degraded {
            return NodeStatus::Syncing;
        }
        if self.network.status != SubsystemStatus::Ready {
            return NodeStatus::Degraded;
        }
        if self.execution.status == SubsystemStatus::Degraded || self.storage.status
            == SubsystemStatus::Degraded {
            return NodeStatus::Degraded;
        }
        NodeStatus::Healthy
    }

    /// Whether `entry` describes the subsystem at `now_ms`.
    pub open spec fn describes(&self, s: Subsystem, now_ms: u64, entry: SubsystemSnapshot) -> bool {
        &&& entry.name@ == s.label()
        &&& entry.status@ == self.report(s).status.label()
        &&& entry.last_progress_ms == if self.report(s).last_progress_ms == 0 {
            0
        } else {
            elapsed(now_ms, self.report(s).last_progress_ms)
        }
    }

    /// The entry of one subsystem.
    fn entry(&self, s: Subsystem, now_ms: u64) -> (r: SubsystemSnapshot)
        ensures
            self.describes(s, now_ms, r),
    {
        SubsystemSnapshot {
            name: s.name(),
            status: self.read(s).status.as_str(),
            last_progress_ms: self.progress_ms(s, now_ms),
        }
    }

    /// The entries of all subsystems, for health responses.
    pub fn subsystem_snapshot(&self, now_ms: u64) -> (r: Vec<SubsystemSnapshot>)
        ensures
            r@.len() == 5,
            self.describes(Subsystem::Storage, now_ms, r@[0]),
            self.describes(Subsystem::Network, now_ms, r@[1]),
            self.describes(Subsystem::Consensus, now_ms, r@[2]),
            self.describes(Subsystem::Execution, now_ms, r@[3]),
            self.describes(Subsystem::Genesis, now_ms, r@[4]),
    {
        let mut out: Vec<SubsystemSnapshot> = Vec::new();
        out.push(self.entry(Subsystem::Storage, now_ms));
        out.push(self.entry(Subsystem::Network, now_ms));
        out.push(self.entry(Subsystem::Consensus, now_ms));
        out.push(self.entry(Subsystem::Execution, now_ms));
        out.push(self.entry(Subsystem::Genesis, now_ms));
        out
    }
}

impl Default for NodeReadiness {
    fn default() -> (r: Self)
        ensures
            forall|s: Subsystem| (#[trigger] r.report(s)).status is Starting,
            forall|s: Subsystem| (#[trigger] r.report(s)).last_progress_ms == 0,
            r.stall_threshold_ms == DEFAULT_STALL_THRESHOLD_MS,
    {
        NodeReadiness::new()
    }
}

/// What a subsystem holds to report its health: every copy reports for the
/// same subsystem.
#[derive(Debug, Clone, Copy, PartialEq, Eq, Structural)]
pub struct SubsystemHandle {
    /// The subsystem it reports for.
    pub subsystem: Subsystem,
}

impl SubsystemHandle {
    /// Reports normal operation.
    pub fn set_ready(&self, tracker: &mut NodeReadiness, now_ms: u64)
        ensures
            *final(tracker) == old(tracker).with_report(
                self.subsystem,
                SubsystemReport {
                    status: SubsystemStatus::Ready,
                    last_progress_ms: report_time(now_ms),
                },
            ),
    {
        tracker.write(
            self.subsystem,
            SubsystemReport { status: SubsystemStatus::Ready, last_progress_ms: touch(now_ms) },
        );
    }

    /// Reports degraded operation.
    pub fn set_degraded(&self, tracker: &mut NodeReadiness, now_ms: u64)
        ensures
            *final(tracker) == old(tracker).with_report(
                self.subsystem,
                SubsystemReport {
                    status: SubsystemStatus::Degraded,
                    last_progress_ms: report_time(now_ms),
                },
            ),
    {
        tracker.write(
            self.subsystem,
            SubsystemReport { status: SubsystemStatus::Degraded, last_progress_ms: touch(now_ms) },
        );
    }

    /// Reports that the subsystem is down.
    pub fn set_down(&self, tracker: &mut NodeReadiness, now_ms: u64)
        ensures
            *final(tracker) == old(tracker).with_report(
                self.subsystem,
                SubsystemReport {
                    status: SubsystemStatus::Down,
                    last_progress_ms: report_time(now_ms),
                },
            ),
    {
        tracker.write(
            self.subsystem,
            SubsystemReport { status: SubsystemStatus::Down, last_progress_ms: touch(now_ms) },
        );
    }

    /// Reports progress, with the health unchanged.
    pub fn report_progress(&self, tracker: &mut NodeReadiness, now_ms: u64)
        ensures
            *final(tracker) == old(tracker).with_report(
                self.subsystem,
                SubsystemReport {
                    status: old(tracker).report(self.subsystem).status,
                    last_progress_ms: report_time(now_ms),
                },
            ),
    {
        let status = tracker.read(self.subsystem).status;
        tracker.write(self.subsystem, SubsystemReport { status, last_progress_ms: touch(now_ms) });
    }

    /// The health last reported.
    pub fn status(&self, tracker: &NodeReadiness) -> (r: SubsystemStatus)
        ensures
            r == tracker.report(self.subsystem).status,
    {
        tracker.read(self.subsystem).status
    }

    /// Milliseconds since the last report, counted from the set-up of the
    /// tracker if there was none.
    pub fn ms_since_last_progress(&self, tracker: &NodeReadiness, now_ms: u64) -> (r: u64)
        ensures
            r == elapsed(now_ms, tracker.report(self.subsystem).last_progress_ms),
    {
        now_ms.saturating_sub(tracker.read(self.subsystem).last_progress_ms)
    }
}

/// The time that a report at `now_ms` carries.
fn touch(now_ms: u64) -> (r: u64)
    ensures
        r == report_time(now_ms),
{
    if now_ms == 0 {
        1
    } else {
        now_ms
    }
}

/// One subsystem in a health response.
#[derive(Debug, Clone, Copy)]
pub struct SubsystemSnapshot {
    /// Name of the subsystem.
    pub name: &'static str,
    /// Label of its status.
    pub status: &'static str,
    /// Milliseconds since it last reported; zero if it never did.
    pub last_progress_ms: u64,
}

/// A report reaches only its own subsystem: all others keep what they
/// reported.
pub proof fn law_reports_are_independent(
    tracker: NodeReadiness,
    s: Subsystem,
    t: Subsystem,
    r: SubsystemReport,
)
    ensures
        tracker.with_report(s, r).report(s) == r,
        s != t ==> tracker.with_report(s, r).report(t) == tracker.report(t),
        tracker.with_report(s, r).stall_threshold_ms == tracker.stall_threshold_ms,
{
}

/// A node that is ready to serve has no critical subsystem that is down,
/// stalled or starting, and its consensus is not behind.
pub proof fn law_ready_node_serves(tracker: NodeReadiness, now_ms: u64)
    requires
        tracker.node_status(now_ms) is Healthy || tracker.node_status(now_ms) is Degraded,
    ensures
        forall|s: Subsystem| #[trigger]
            NodeReadiness::critical(s) ==> {
                &&& !(tracker.report(s).status is Down)
                &&& !(tracker.report(s).status is Starting)
                &&& !tracker.stalled(s, now_ms)
            },
        tracker.consensus.status is Ready,
{
    assert(NodeReadiness::critical(Subsystem::Consensus));
}

/// Stalls come only with time: a node that reports in time is never halted
/// for a stall.
pub proof fn law_fresh_reports_never_stall(tracker: NodeReadiness, now_ms: u64)
    requires
        forall|s: Subsystem|
            elapsed(now_ms, (#[trigger] tracker.report(s)).last_progress_ms)
                <= tracker.stall_threshold_ms,
        forall|s: Subsystem| !((#[trigger] tracker.report(s)).status is Down),
    ensures
        !(tracker.node_status(now_ms) is Halted),
{
}

} // verus!
