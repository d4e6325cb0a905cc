//! What the service is configured with, tells of its failures and sends to
//! those who subscribed.

use vstd::prelude::*;
use vstd::string::*;

use crate::primitives::text::decimal;
use crate::rpc::error::{ErrorResponse, ExecutionError, IntentError, RpcError};
use crate::rpc::json::{JsonNumber, JsonValue};
use crate::rpc::intent_tracker::IntentTracker;
use crate::rpc::metrics::{
    ace_a2a_negotiation_settled, ace_a2a_negotiation_started, ace_capability_denied,
    ace_plan_executed, ace_provenance_recorded, ace_session_created, proof_batch_size,
    proof_commitment_queried, proof_request_duration, proof_request_err, proof_request_ok,
    rate_limited, request_metrics, ws_connection_closed, ws_connection_opened, MetricChange,
    MetricUpdate,
};
use crate::rpc::mcp::handler::MCP_CALLER_SIG_DOMAIN;
use crate::rpc::mcp::schema::MCP_PROTOCOL_VERSION;
use crate::rpc::middleware::{
    QuotaManager, Refusal, CORS_MAX_AGE_SECS, MAX_BODY_SIZE, QUOTA_MAX_ENTRIES,
};
use crate::rpc::server::{ListenAddress, RpcService, RpcServiceBuilder};
use crate::rpc::tx_lifecycle::TxLifecycleRegistry;
use crate::rpc::ws::{
    connection_closed, connection_opened, event_name, handle_ws, lag_warning, matches_filter,
    wait_for_subscribe, ws_upgrade, FirstMessage, NodeEvent, WsAction, WsInput, BROADCAST_CAPACITY,
    SUBSCRIBE_TIMEOUT_SECS,
};

verus! {

/// A service that is only told where to listen limits no peer, pays nothing
/// out, asks for no key, allows no origin and has one shard; it takes ten
/// thousand subscribers, and pays an address ten times an hour once it pays.
pub proof fn law_services_start_closed(
    listen_addr: ListenAddress,
    builder: RpcServiceBuilder,
    ready: RpcServiceBuilder,
    service: RpcService,
)
    requires
        call_ensures(RpcService::builder, (listen_addr,), builder),
        ready == (RpcServiceBuilder { query: ready.query, ..builder }),
        call_ensures(RpcServiceBuilder::build, (ready,), service),
    ensures
        service.listen_addr == listen_addr,
        service.api_keys@.len() == 0,
        service.cors_allowed_origins@.len() == 0,
        service.state.rate_limiter is None,
        service.state.quota_manager is None,
        !service.state.faucet_enabled && service.state.faucet_amount == 0,
        service.state.faucet_addr_limiter is Some
            && service.state.faucet_addr_limiter->Some_0.limit() == 10,
        service.state.max_ws_connections == 10_000 && service.state.ws_connection_count == 0,
        service.state.query_gas_budget == 10_000_000 && service.state.query_timeout_ms == 5_000,
        service.state.num_shards == 1,
        service.state.mcp_call_index == 0,
        service.state.consensus is None && service.state.network is None
            && service.state.session_provenance is None && service.state.state_proof is None
            && service.state.mcp_dispatcher is None && service.state.htlc is None
            && service.state.block is None && service.state.event_backend is None
            && service.state.intent_tracker is None && service.state.tx_lifecycle is None,
        ready.query == Some(service.state.query),
{
}

/// What a service is told it keeps to, each under its own name.
pub proof fn law_services_keep_to_their_configuration(
    b: RpcServiceBuilder,
    max_requests: u32,
    window_ns: u128,
    limited: RpcServiceBuilder,
    enabled: bool,
    amount: u64,
    paying: RpcServiceBuilder,
    per_hour: u32,
    capped: RpcServiceBuilder,
    keys: Vec<String>,
    keyed: RpcServiceBuilder,
    service: RpcService,
)
    requires
        call_ensures(RpcServiceBuilder::rate_limit, (b, max_requests, window_ns), limited),
        call_ensures(RpcServiceBuilder::faucet, (limited, enabled, amount), paying),
        call_ensures(RpcServiceBuilder::faucet_per_addr_limit, (paying, per_hour), capped),
        call_ensures(RpcServiceBuilder::api_keys, (capped, keys), keyed),
        call_ensures(RpcServiceBuilder::build, (keyed,), service),
    ensures
        service.state.rate_limiter is Some,
        service.state.rate_limiter->Some_0.limit() == max_requests,
        service.state.rate_limiter->Some_0.window() == window_ns,
        service.state.rate_limiter->Some_0.capacity() == 200_000,
        service.state.faucet_enabled == enabled,
        service.state.faucet_amount == amount,
        service.state.faucet_addr_limiter is None <==> per_hour == 0,
        service.state.faucet_addr_limiter is Some ==> {
            &&& service.state.faucet_addr_limiter->Some_0.limit() == per_hour
            &&& service.state.faucet_addr_limiter->Some_0.capacity() == 100_000
        },
        service.api_keys == keys,
        service.listen_addr == b.listen_addr,
        service.cors_allowed_origins == b.cors_allowed_origins,
        service.state.max_ws_connections == b.max_ws_connections,
        service.state.query_gas_budget == b.query_gas_budget,
        service.state.query_timeout_ms == b.query_timeout_ms,
        service.state.num_shards == b.num_shards,
        service.state.quota_manager == b.quota_manager,
        service.state.consensus == b.consensus,
        service.state.network == b.network,
        service.state.session_provenance == b.session_provenance,
        service.state.state_proof == b.state_proof,
        service.state.mcp_dispatcher == b.mcp_dispatcher,
        service.state.htlc == b.htlc,
        service.state.block == b.block,
        service.state.event_backend == b.event_backend,
        service.state.intent_tracker == b.intent_tracker,
        service.state.tx_lifecycle == b.tx_lifecycle,
{
}

/// The limits of a service are set one by one, and none touches another.
pub proof fn law_limits_are_set_one_by_one(
    b: RpcServiceBuilder,
    origins: Vec<String>,
    a: RpcServiceBuilder,
    max: usize,
    w: RpcServiceBuilder,
    budget: u64,
    g: RpcServiceBuilder,
    ms: u64,
    t: RpcServiceBuilder,
    n: u16,
    s: RpcServiceBuilder,
)
    requires
        call_ensures(RpcServiceBuilder::cors_allowed_origins, (b, origins), a),
        call_ensures(RpcServiceBuilder::max_ws_connections, (a, max), w),
        call_ensures(RpcServiceBuilder::query_gas_budget, (w, budget), g),
        call_ensures(RpcServiceBuilder::query_timeout_ms, (g, ms), t),
        call_ensures(RpcServiceBuilder::num_shards, (t, n), s),
    ensures
        s.cors_allowed_origins == origins,
        s.max_ws_connections == max,
        s.query_gas_budget == budget,
        s.query_timeout_ms == ms,
        s.num_shards == n,
        s.listen_addr == b.listen_addr && s.api_keys == b.api_keys && s.rate_limit_per_ip
            == b.rate_limit_per_ip && s.faucet_enabled == b.faucet_enabled && s.faucet_amount
            == b.faucet_amount && s.faucet_per_addr_limit_per_hour
            == b.faucet_per_addr_limit_per_hour,
{
}

/// Each kind of failure has its own status and code, and is told with its
/// message.
pub proof fn law_failures_have_their_status(
    e: RpcError,
    status: u16,
    code: &'static str,
    response: (u16, ErrorResponse),
    text: String,
)
    requires
        call_ensures(RpcError::status_code, (&e,), status),
        call_ensures(RpcError::error_code, (&e,), code),
        call_ensures(RpcError::into_response, (e,), response),
        call_ensures(RpcError::to_string, (&e,), text),
    ensures
        status == 404 <==> e is NotFound,
        status == 400 <==> e is BadRequest || e is Serialization,
        status == 422 <==> e is IntentError || e is ExecutionError || e is ConsensusError,
        status == 503 <==> e is Unavailable,
        status == 500 <==> e is Internal,
        e is NotFound ==> code@ == "NOT_FOUND"@ && text@ == "not found: "@ + e->NotFound_0@,
        e is BadRequest ==> code@ == "BAD_REQUEST"@ && text@ == "bad request: "@ + e->BadRequest_0@,
        e is Internal ==> code@ == "INTERNAL_ERROR"@ && text@ == "internal error: "@ + e->Internal_0@,
        e is Unavailable ==> code@ == "SERVICE_UNAVAILABLE"@ && text@ == "service unavailable: "@
            + e->Unavailable_0@,
        e is IntentError ==> code@ == "INTENT_ERROR"@ && text@ == "intent error: "@
            + e->IntentError_0@,
        e is ExecutionError ==> code@ == "EXECUTION_ERROR"@ && text@ == "execution error: "@
            + e->ExecutionError_0@,
        e is ConsensusError ==> code@ == "CONSENSUS_ERROR"@ && text@ == "consensus error: "@
            + e->ConsensusError_0@,
        e is Serialization ==> code@ == "SERIALIZATION_ERROR"@ && text@ == "serialization error: "@
            + e->Serialization_0@,
        response.0 == status && response.1.error@ == code@ && response.1.message@ == text@,
{
}

/// What a failure of the compiler, of the engine or of the consensus is told
/// as.
pub proof fn law_failures_are_told_by_their_cause(
    intent: IntentError,
    execution: ExecutionError,
    text: String,
    i: RpcError,
    x: RpcError,
    c: RpcError,
    s: RpcError,
)
    requires
        call_ensures(RpcError::from_intent_error, (&intent, text), i),
        call_ensures(RpcError::from_execution_error, (execution, text), x),
        call_ensures(RpcError::from_consensus_error, (text,), c),
        call_ensures(RpcError::serialization_failure, (text,), s),
    ensures
        i is NotFound <==> intent is AccountNotFound || intent is ContractNotFound,
        i is BadRequest <==> intent is InvalidSignature || intent is IntentExpired
            || intent is StaleNonce || intent is IntentTooLarge || intent is ParseError
            || intent is AgentSpecError,
        i is IntentError <==> !(i is NotFound) && !(i is BadRequest),
        i is NotFound ==> i->NotFound_0@ == text@,
        i is BadRequest ==> i->BadRequest_0@ == text@,
        i is IntentError ==> i->IntentError_0@ == text@,
        x is ExecutionError <==> execution is Other,
        x is BadRequest <==> !(execution is Other),
        x is ExecutionError ==> x->ExecutionError_0@ == text@,
        x is BadRequest ==> x->BadRequest_0@ == text@,
        c is ConsensusError && c->ConsensusError_0@ == text@,
        s is Serialization && s->Serialization_0@ == text@,
{
}

/// What an event is called.
pub open spec fn event_called(event: NodeEvent, name: Seq<char>) -> bool {
    match event {
        NodeEvent::NewCommit { .. } => name == "new_commit"@,
        NodeEvent::TransactionExecuted(_) => name == "transaction_executed"@,
        NodeEvent::IntentStatusChanged(_) => name == "intent_status"@,
        NodeEvent::ConsensusStatus(_) => name == "consensus_status"@,
    }
}

/// A client that named events wants those and no others; one that named none
/// wants all.
pub proof fn law_clients_want_what_they_named(event: NodeEvent, filters: Vec<String>, r: bool)
    requires
        call_ensures(matches_filter, (&event, &filters), r),
    ensures
        r <==> filters@.len() == 0 || exists|i: int|
            0 <= i < filters@.len() && event_called(event, (#[trigger] filters@[i])@),
{
    if r && filters@.len() > 0 {
        let i = choose|i: int|
            0 <= i < filters@.len() && (#[trigger] filters@[i])@ == event_name(event);
        assert(event_called(event, filters@[i]@));
    }
    if exists|i: int| 0 <= i < filters@.len() && event_called(event, (#[trigger] filters@[i])@) {
        let i = choose|i: int|
            0 <= i < filters@.len() && event_called(event, (#[trigger] filters@[i])@);
        assert(filters@[i]@ == event_name(event));
    }
}

/// An open connection is sent the events that its client wants, is warned of
/// those that were dropped, and ends where there will be no more, where the
/// client closes it and where sending fails.
pub proof fn law_connections_are_served(
    filters: Vec<String>,
    input: WsInput,
    r: WsAction,
    wanted: bool,
)
    requires
        call_ensures(handle_ws, (&filters, input), r),
        input is Event ==> call_ensures(matches_filter, (&input->Event_0, &filters), wanted),
    ensures
        input is Event && wanted ==> r is Send && r->Send_0 == input->Event_0,
        input is Event && !wanted ==> r is Wait,
        input is Lagged ==> r is WarnLagged && r->WarnLagged_0 == input->Lagged_0,
        input is ClientMessage ==> r is Wait,
        r is Stop <==> input is EventsClosed || input is ClientClosed || input is SendFailed,
{
}

/// A client that names events in its first message is sent those; one that
/// sends no text is sent everything; one that says nothing sensible in time,
/// or leaves, is sent nothing.
pub proof fn law_first_messages_subscribe(first: FirstMessage, r: Option<Vec<String>>)
    requires
        call_ensures(wait_for_subscribe, (first,), r),
    ensures
        r is None <==> first is Closed || first is TimedOut || (first is Text
            && first->Text_0 is None),
        first is Text && first->Text_0 is Some ==> r == Some(first->Text_0->Some_0.subscribe),
        first is Other ==> r is Some && r->Some_0@.len() == 0,
{
}

/// Another connection is accepted exactly while there are fewer than the
/// limit, and what is counted is the connections that are open.
pub proof fn law_connections_are_limited_by_count(
    count: &mut usize,
    closing: &mut usize,
    max: usize,
    before: Option<Refusal>,
    after: Option<Refusal>,
)
    requires
        *old(count) < max,
        call_ensures(ws_upgrade, (*old(count), max), before),
        call_ensures(connection_opened, (count,), ()),
        call_ensures(ws_upgrade, (*final(count), max), after),
        *old(closing) == *final(count),
        call_ensures(connection_closed, (closing,), ()),
    ensures
        before is None,
        *final(count) == *old(count) + 1,
        after is Some <==> *old(count) + 1 == max,
        after is Some ==> after->Some_0.status == 503 && after->Some_0.retry_after_secs is None,
        *final(closing) == *old(count),
{
}

/// A slow client is told how many events it missed.
pub proof fn law_slow_clients_are_told(missed: u64, r: JsonValue)
    requires
        call_ensures(lag_warning, (missed,), r),
    ensures
        r is Object,
        r->Object_0@.len() == 2,
        r->Object_0@[0].0@ == "warning"@ && r->Object_0@[0].1 is Text
            && r->Object_0@[0].1->Text_0@ == "lagged"@,
        r->Object_0@[1].0@ == "missed_events"@ && r->Object_0@[1].1 is Number
            && r->Object_0@[1].1->Number_0 == JsonNumber::Unsigned(missed),
{
}

/// A request is counted under its method, its path and its status, and timed
/// under its method and its path.
pub proof fn law_requests_are_measured(
    method: &str,
    path: Option<&str>,
    status: u16,
    nanos: u128,
    r: (MetricUpdate, MetricUpdate),
)
    requires
        call_ensures(request_metrics, (method, path, status, nanos), r),
    ensures
        r.0.name@ == "rpc_requests_total"@ && r.0.change is Count && r.0.labels@.len() == 3,
        r.0.labels@[0].0@ == "method"@ && r.0.labels@[0].1@ == method@,
        r.0.labels@[1].0@ == "path"@,
        path is Some ==> r.0.labels@[1].1@ == path->Some_0@,
        path is None ==> r.0.labels@[1].1@ == "unknown"@,
        r.0.labels@[2].0@ == "status"@ && r.0.labels@[2].1@ == decimal(status as nat),
        r.1.name@ == "rpc_request_duration_seconds"@ && r.1.change == MetricChange::SampleNanos(
            nanos,
        ) && r.1.labels@.len() == 2,
        r.1.labels@[0].0@ == "method"@ && r.1.labels@[0].1@ == method@,
        r.1.labels@[1].0@ == "path"@ && r.1.labels@[1].1@ == r.0.labels@[1].1@,
{
}

/// A request for a proof is counted as what it came to, and timed.
pub proof fn law_proof_requests_are_measured(
    endpoint: &str,
    nanos: u128,
    count: usize,
    done: MetricUpdate,
    failed: MetricUpdate,
    timed: MetricUpdate,
    batch: MetricUpdate,
)
    requires
        call_ensures(proof_request_ok, (endpoint,), done),
        call_ensures(proof_request_err, (endpoint,), failed),
        call_ensures(proof_request_duration, (endpoint, nanos), timed),
        call_ensures(proof_batch_size, (count,), batch),
    ensures
        done.name@ == "proof_requests_total"@ && done.change is Count && done.labels@.len() == 2,
        done.labels@[0].0@ == "endpoint"@ && done.labels@[0].1@ == endpoint@,
        done.labels@[1].0@ == "status"@ && done.labels@[1].1@ == "ok"@,
        failed.name@ == "proof_requests_total"@ && failed.change is Count && failed.labels@.len() == 2,
        failed.labels@[0].0@ == "endpoint"@ && failed.labels@[0].1@ == endpoint@,
        failed.labels@[1].0@ == "status"@ && failed.labels@[1].1@ == "error"@,
        timed.name@ == "proof_request_duration_seconds"@ && timed.change
            == MetricChange::SampleNanos(nanos) && timed.labels@.len() == 1,
        timed.labels@[0].0@ == "endpoint"@ && timed.labels@[0].1@ == endpoint@,
        batch.name@ == "proof_batch_keys"@ && batch.labels@.len() == 0,
        count <= u64::MAX ==> batch.change == MetricChange::Sample(count as u64),
{
}

/// Whether an update changes the metric of this name, without a label.
pub open spec fn changes(u: MetricUpdate, name: Seq<char>, change: MetricChange) -> bool {
    u.name@ == name && u.labels@.len() == 0 && u.change == change
}

/// Every event is counted under its own name; connections are counted up and
/// down again.
pub proof fn law_events_are_counted(
    opened: MetricUpdate,
    closed: MetricUpdate,
    limited: MetricUpdate,
    session: MetricUpdate,
    denied: MetricUpdate,
    started: MetricUpdate,
    settled: MetricUpdate,
    executed: MetricUpdate,
    recorded: MetricUpdate,
    queried: MetricUpdate,
)
    requires
        call_ensures(ws_connection_opened, (), opened),
        call_ensures(ws_connection_closed, (), closed),
        call_ensures(rate_limited, (), limited),
        call_ensures(ace_session_created, (), session),
        call_ensures(ace_capability_denied, (), denied),
        call_ensures(ace_a2a_negotiation_started, (), started),
        call_ensures(ace_a2a_negotiation_settled, (), settled),
        call_ensures(ace_plan_executed, (), executed),
        call_ensures(ace_provenance_recorded, (), recorded),
        call_ensures(proof_commitment_queried, (), queried),
    ensures
        changes(opened, "rpc_active_connections"@, MetricChange::Up),
        changes(closed, "rpc_active_connections"@, MetricChange::Down),
        changes(limited, "rpc_rate_limited_total"@, MetricChange::Count),
        changes(session, "ace_sessions_created_total"@, MetricChange::Count),
        changes(denied, "ace_capability_denied_total"@, MetricChange::Count),
        changes(started, "ace_a2a_negotiations_started_total"@, MetricChange::Count),
        changes(settled, "ace_a2a_negotiations_settled_total"@, MetricChange::Count),
        changes(executed, "ace_plans_executed_total"@, MetricChange::Count),
        changes(recorded, "ace_provenance_records_total"@, MetricChange::Count),
        changes(queried, "proof_commitment_queries_total"@, MetricChange::Count),
{
}

/// Trackers and quotas are set one by one, and nothing else with them.
pub proof fn law_trackers_are_set_one_by_one(
    b: RpcServiceBuilder,
    tracker: IntentTracker,
    tracking: RpcServiceBuilder,
    registry: TxLifecycleRegistry,
    following: RpcServiceBuilder,
    manager: QuotaManager,
    managed: RpcServiceBuilder,
)
    requires
        call_ensures(RpcServiceBuilder::intent_tracker, (b, tracker), tracking),
        call_ensures(RpcServiceBuilder::tx_lifecycle, (b, registry), following),
        call_ensures(RpcServiceBuilder::quota_manager, (b, manager), managed),
    ensures
        tracking == (RpcServiceBuilder { intent_tracker: Some(tracker), ..b }),
        following == (RpcServiceBuilder { tx_lifecycle: Some(registry), ..b }),
        managed == (RpcServiceBuilder { quota_manager: Some(manager), ..b }),
{
}

/// The service takes half a mebibyte in one request, and waits ten seconds for
/// a subscription; a browser may keep what it was told of origins for an hour.
pub proof fn law_fixed_limits_of_the_service()
    ensures
        MAX_BODY_SIZE == 512 * 1024,
        CORS_MAX_AGE_SECS == 60 * 60,
        SUBSCRIBE_TIMEOUT_SECS == 10,
        BROADCAST_CAPACITY == 1024,
        QUOTA_MAX_ENTRIES == 200_000,
        MCP_PROTOCOL_VERSION@ == "mcp/2025-11-05"@,
        MCP_CALLER_SIG_DOMAIN@ == "nexus::mcp::caller_auth::v1"@,
{
}

} // verus!
