//! What is counted and measured.
//!
//! Each function names the update of a metric; whoever holds the recorder
//! carries it out. Latencies are given in nanoseconds.

use vstd::prelude::*;
use vstd::string::*;

use crate::primitives::text::decimal_text;

verus! {

/// How a metric changes.
#[derive(Debug, Clone, Copy, PartialEq, Eq, Structural)]
pub enum MetricChange {
    /// A counter goes up by one.
    Count,
    /// A gauge goes up by one.
    Up,
    /// A gauge goes down by one.
    Down,
    /// A histogram gets a number.
    Sample(u64),
    /// A histogram of seconds gets a time in nanoseconds.
    SampleNanos(u128),
}

/// The update of a metric.
#[derive(Debug, Clone)]
pub struct MetricUpdate {
    /// Name of the metric.
    pub name: &'static str,
    /// Names and values of the labels.
    pub labels: Vec<(&'static str, String)>,
    /// How the metric changes.
    pub change: MetricChange,
}

/// Whether `u` is the change `change` of the metric `name` without labels.
pub open spec fn plain_update(u: MetricUpdate, name: Seq<char>, change: MetricChange) -> bool {
    u.name@ == name && u.labels@.len() == 0 && u.change == change
}

/// Whether label `i` of `u` is `name` with the value `value`.
pub open spec fn has_label(u: MetricUpdate, i: int, name: Seq<char>, value: Seq<char>) -> bool {
    0 <= i < u.labels@.len() && u.labels@[i].0@ == name && u.labels@[i].1@ == value
}

fn plain(name: &'static str, change: MetricChange) -> (r: MetricUpdate)
    ensures
        plain_update(r, name@, change),
{
    MetricUpdate { name, labels: Vec::new(), change }
}

/// A WebSocket connection was opened.
pub fn ws_connection_opened() -> (r: MetricUpdate)
    ensures
        plain_update(r, "rpc_active_connections"@, MetricChange::Up),
{
    plain("rpc_active_connections", MetricChange::Up)
}

/// A WebSocket connection was closed.
pub fn ws_connection_closed() -> (r: MetricUpdate)
    ensures
        plain_update(r, "rpc_active_connections"@, MetricChange::Down),
{
    plain("rpc_active_connections", MetricChange::Down)
}

/// A request was rejected by the rate limiter.
pub fn rate_limited() -> (r: MetricUpdate)
    ensures
        plain_update(r, "rpc_rate_limited_total"@, MetricChange::Count),
{
    plain("rpc_rate_limited_total", MetricChange::Count)
}

/// An agent session was created.
pub fn ace_session_created() -> (r: MetricUpdate)
    ensures
        plain_update(r, "ace_sessions_created_total"@, MetricChange::Count),
{
    plain("ace_sessions_created_total", MetricChange::Count)
}

/// A policy denied a capability.
pub fn ace_capability_denied() -> (r: MetricUpdate)
    ensures
        plain_update(r, "ace_capability_denied_total"@, MetricChange::Count),
{
    plain("ace_capability_denied_total", MetricChange::Count)
}

/// A negotiation between agents was begun.
pub fn ace_a2a_negotiation_started() -> (r: MetricUpdate)
    ensures
        plain_update(r, "ace_a2a_negotiations_started_total"@, MetricChange::Count),
{
    plain("ace_a2a_negotiations_started_total", MetricChange::Count)
}

/// A negotiation between agents was settled.
pub fn ace_a2a_negotiation_settled() -> (r: MetricUpdate)
    ensures
        plain_update(r, "ace_a2a_negotiations_settled_total"@, MetricChange::Count),
{
    plain("ace_a2a_negotiations_settled_total", MetricChange::Count)
}

/// A plan was executed.
pub fn ace_plan_executed() -> (r: MetricUpdate)
    ensures
        plain_update(r, "ace_plans_executed_total"@, MetricChange::Count),
{
    plain("ace_plans_executed_total", MetricChange::Count)
}

/// A provenance record was made.
pub fn ace_provenance_recorded() -> (r: MetricUpdate)
    ensures
        plain_update(r, "ace_provenance_records_total"@, MetricChange::Count),
{
    plain("ace_provenance_records_total", MetricChange::Count)
}

/// Whether `u` counts a proof request at `endpoint` that ended as `outcome`
/// says.
pub open spec fn counts_proof(u: MetricUpdate, endpoint: Seq<char>, outcome: Seq<char>) -> bool {
    &&& u.name@ == "proof_requests_total"@
    &&& u.change == MetricChange::Count
    &&& u.labels@.len() == 2
    &&& has_label(u, 0, "endpoint"@, endpoint)
    &&& has_label(u, 1, "status"@, outcome)
}

fn proof_request(endpoint: &str, outcome: &str) -> (r: MetricUpdate)
    ensures
        counts_proof(r, endpoint@, outcome@),
{
    let mut labels: Vec<(&'static str, String)> = Vec::new();
    labels.push(("endpoint", endpoint.to_owned()));
    labels.push(("status", outcome.to_owned()));
    MetricUpdate { name: "proof_requests_total", labels, change: MetricChange::Count }
}

/// A proof request succeeded.
pub fn proof_request_ok(endpoint: &str) -> (r: MetricUpdate)
    ensures
        counts_proof(r, endpoint@, "ok"@),
{
    proof_request(endpoint, "ok")
}

/// A proof request failed.
pub fn proof_request_err(endpoint: &str) -> (r: MetricUpdate)
    ensures
        counts_proof(r, endpoint@, "error"@),
{
    proof_request(endpoint, "error")
}

/// A proof request took `nanos` nanoseconds.
pub fn proof_request_duration(endpoint: &str, nanos: u128) -> (r: MetricUpdate)
    ensures
        r.name@ == "proof_request_duration_seconds"@,
        r.change == MetricChange::SampleNanos(nanos),
        r.labels@.len() == 1,
        has_label(r, 0, "endpoint"@, endpoint@),
{
    let mut labels: Vec<(&'static str, String)> = Vec::new();
    labels.push(("endpoint", endpoint.to_owned()));
    MetricUpdate {
        name: "proof_request_duration_seconds",
        labels,
        change: MetricChange::SampleNanos(nanos),
    }
}

/// A batch of `count` keys was asked for.
pub fn proof_batch_size(count: usize) -> (r: MetricUpdate)
    ensures
        plain_update(r, "proof_batch_keys"@, MetricChange::Sample(count as u64)),
{
    plain("proof_batch_keys", MetricChange::Sample(count as u64))
}

/// The state commitment was asked for.
pub fn proof_commitment_queried() -> (r: MetricUpdate)
    ensures
        plain_update(r, "proof_commitment_queries_total"@, MetricChange::Count),
{
    plain("proof_commitment_queries_total", MetricChange::Count)
}

/// The path under which a request is counted: the matched route, or `unknown`.
pub open spec fn counted_path(matched: Option<&str>) -> Seq<char> {
    match matched {
        Some(path) => path@,
        None => "unknown"@,
    }
}

/// The updates for a request: it is counted by method, path and status, and
/// its latency is measured by method and path.
pub fn request_metrics(method: &str, matched_path: Option<&str>, status: u16, nanos: u128) -> (r: (
    MetricUpdate,
    MetricUpdate,
))
    ensures
        r.0.name@ == "rpc_requests_total"@,
        r.0.change == MetricChange::Count,
        r.0.labels@.len() == 3,
        has_label(r.0, 0, "method"@, method@),
        has_label(r.0, 1, "path"@, counted_path(matched_path)),
        has_label(r.0, 2, "status"@, crate::primitives::text::decimal(status as nat)),
        r.1.name@ == "rpc_request_duration_seconds"@,
        r.1.change == MetricChange::SampleNanos(nanos),
        r.1.labels@.len() == 2,
        has_label(r.1, 0, "method"@, method@),
        has_label(r.1, 1, "path"@, counted_path(matched_path)),
{
    let path = match matched_path {
        Some(path) => path,
        None => "unknown",
    };
    let mut labels: Vec<(&'static str, String)> = Vec::new();
    labels.push(("method", method.to_owned()));
    labels.push(("path", path.to_owned()));
    labels.push(("status", decimal_text(status as u64)));
    let counted = MetricUpdate { name: "rpc_requests_total", labels, change: MetricChange::Count };
    let mut labels: Vec<(&'static str, String)> = Vec::new();
    labels.push(("method", method.to_owned()));
    labels.push(("path", path.to_owned()));
    let measured = MetricUpdate {
        name: "rpc_request_duration_seconds",
        labels,
        change: MetricChange::SampleNanos(nanos),
    };
    (counted, measured)
}

} // verus!
