//! `GET /health` and `GET /ready`: whether the node serves traffic.

use vstd::prelude::*;
use vstd::string::*;

use crate::primitives::text::text_eq;
use crate::rpc::dto::HealthResponse;
use crate::rpc::rest::backends::QueryBackend;

verus! {

/// What a readiness probe is told.
#[derive(Debug, Clone)]
pub struct ReadinessResponse {
    /// Whether the node serves traffic.
    pub ready: bool,
    /// The health status.
    pub status: &'static str,
    /// Why the node does not serve traffic.
    pub reason: Option<&'static str>,
}

/// Whether a node with the health status `status` serves traffic.
pub open spec fn serves(status: Seq<char>) -> bool {
    status == "healthy"@ || status == "degraded"@
}

/// Whether `r` is the HTTP status and the body for the health status `status`.
pub open spec fn readiness_reported(r: (u16, ReadinessResponse), status: &'static str) -> bool {
    &&& r.1.status == status
    &&& r.1.ready == serves(status@)
    &&& if serves(status@) {
        r.0 == 200 && r.1.reason is None
    } else {
        r.0 == 503 && r.1.reason == Some(status)
    }
}

/// The HTTP status and the body for a health status.
pub fn readiness_reply(status: &'static str) -> (r: (u16, ReadinessResponse))
    ensures
        readiness_reported(r, status),
{
    if text_eq(status, "healthy") || text_eq(status, "degraded") {
        (200, ReadinessResponse { ready: true, status, reason: None })
    } else {
        (503, ReadinessResponse { ready: false, status, reason: Some(status) })
    }
}

/// Whether the backend answers with `answer` when asked for its health.
pub open spec fn health_asked<Q: QueryBackend + ?Sized>(query: &Q, answer: HealthResponse) -> bool {
    call_ensures(Q::health_status, (query,), answer)
}

/// `GET /health`: the health of the node.
pub fn health_check<Q: QueryBackend + ?Sized>(query: &Q) -> (r: HealthResponse)
    ensures
        health_asked(query, r),
{
    query.health_status()
}

/// `GET /ready`: whether the node serves traffic.
pub fn readiness_check<Q: QueryBackend + ?Sized>(query: &Q) -> (r: (u16, ReadinessResponse))
    ensures
        exists|health: HealthResponse|
            {
                &&& #[trigger] health_asked(query, health)
                &&& readiness_reported(r, health.status)
            },
{
    let health = query.health_status();
    assert(health_asked(query, health));
    readiness_reply(health.status)
}

} // verus!
