//! Tools for agents: registry, schema, error codes and calls.

use nexus_node::primitives::address::{AccountAddress, ContractAddress, TokenId};
use nexus_node::primitives::digest::Blake3Digest;
use nexus_node::primitives::ids::TimestampMs;
use nexus_node::rpc::agent::{
    AgentEnvelope, AgentRequestKind, DispatchOutcome, ExecutionReceipt, ProvenanceFilter,
    QueryKind, SimulationResult, UserIntent,
};
use nexus_node::rpc::error::{IntentError, RpcError};
use nexus_node::rpc::json::{JsonNumber, JsonValue};
use nexus_node::rpc::mcp::error_map::{map_intent_error, map_rpc_error, McpErrorCode};
use nexus_node::rpc::mcp::handler::{
    compute_args_hash, handle_tool_call, outcome_to_result, verify_caller_identity, SessionKeys,
    MCP_CALLER_SIG_DOMAIN,
};
use nexus_node::rpc::mcp::registry::{
    is_forbidden_tool, lookup_tool, ForbiddenToolKind, McpToolKind,
};
use nexus_node::rpc::mcp::schema::{
    build_envelope_from_mcp, parse_digest, parse_token_id, parse_user_intent,
    translate_request_kind, ExecutePlanArgs, McpToolCall, McpToolResult, QueryBalanceArgs,
    QueryContractArgs, QueryIntentArgs, QueryProvenanceArgs, SimulateIntentArgs, ToolArguments,
    MCP_PROTOCOL_VERSION,
};
use nexus_node::rpc::rest::backends::DispatchBackend;
use nexus_node::rpc::rest::mcp::{admit_call, call_tool, list_tools};
use nexus_node::rpc::rest::parse_address;
use serde_json::Value;

fn json(text: &str) -> Value {
    serde_json::from_str(text).unwrap()
}

fn converted(value: &Value) -> JsonValue {
    match value {
        Value::Null => JsonValue::Null,
        Value::Bool(b) => JsonValue::Bool(*b),
        Value::Number(n) => JsonValue::Number(match (n.as_u64(), n.as_i64()) {
            (Some(u), _) => JsonNumber::Unsigned(u),
            (None, Some(i)) => JsonNumber::Negative(i),
            (None, None) => JsonNumber::Fraction(n.to_string()),
        }),
        Value::String(s) => JsonValue::Text(s.clone()),
        Value::Array(items) => JsonValue::Array(items.iter().map(converted).collect()),
        Value::Object(map) => {
            JsonValue::Object(map.iter().map(|(k, v)| (k.clone(), converted(v))).collect())
        }
    }
}

fn text(value: &Value, name: &str) -> Result<String, String> {
    value
        .get(name)
        .and_then(|v| v.as_str())
        .map(|s| s.to_owned())
        .ok_or(format!("missing field `{name}`"))
}

/// The text of a call's arguments, read for every tool.
fn read_arguments(text: &Vec<u8>) -> ToolArguments {
    arguments(&serde_json::from_slice(text).unwrap())
}

/// The arguments of a call, read for every tool.
fn arguments(value: &Value) -> ToolArguments {
    let pair = |a: &str, b: &str| Ok::<_, String>((text(value, a)?, text(value, b)?));
    ToolArguments {
        query_balance: text(value, "account").map(|account| QueryBalanceArgs { account }),
        query_intent: text(value, "digest").map(|digest| QueryIntentArgs { digest }),
        query_contract: pair("contract", "resource")
            .map(|(contract, resource)| QueryContractArgs { contract, resource }),
        simulate_intent: text(value, "intent_type").and_then(|intent_type| {
            let params = value.get("params").ok_or("missing field `params`".to_owned())?;
            Ok(SimulateIntentArgs { intent_type, params: converted(params) })
        }),
        execute_plan: pair("plan_hash", "confirmation_ref").map(|(plan_hash, confirmation_ref)| {
            ExecutePlanArgs { plan_hash, confirmation_ref }
        }),
        query_provenance: pair("filter", "id")
            .map(|(filter, id)| QueryProvenanceArgs { filter, id }),
    }
}

fn translate(tool: McpToolKind, args: &str) -> Result<AgentRequestKind, RpcError> {
    translate_request_kind(tool, &arguments(&json(args)))
}

// ── error codes ──

#[test]
fn intent_expired_maps_to_expired() {
    let err = IntentError::IntentExpired {
        deadline_ms: 100,
        current_ms: 200,
    };
    assert_eq!(map_intent_error(&err), McpErrorCode::Expired);
}

#[test]
fn capability_denied_maps_correctly() {
    let err = IntentError::AgentCapabilityDenied {
        reason: "test".into(),
    };
    assert_eq!(map_intent_error(&err), McpErrorCode::CapabilityDenied);
}

#[test]
fn value_limit_maps_correctly() {
    let err = IntentError::AgentValueLimitExceeded {
        value: 1000,
        limit: 500,
    };
    assert_eq!(map_intent_error(&err), McpErrorCode::ValueLimitExceeded);
}

#[test]
fn rpc_bad_request_maps_to_invalid_params() {
    let err = RpcError::BadRequest("bad".into());
    assert_eq!(map_rpc_error(&err), McpErrorCode::InvalidParams);
}

#[test]
fn rpc_unavailable_maps_correctly() {
    let err = RpcError::Unavailable("down".into());
    assert_eq!(map_rpc_error(&err), McpErrorCode::Unavailable);
}

#[test]
fn retryable_codes() {
    assert!(McpErrorCode::InternalError.is_retryable());
    assert!(McpErrorCode::Unavailable.is_retryable());
    assert!(!McpErrorCode::InvalidParams.is_retryable());
    assert!(!McpErrorCode::CapabilityDenied.is_retryable());
}

#[test]
fn error_codes_unique() {
    let codes = [
        McpErrorCode::InvalidParams,
        McpErrorCode::ToolNotFound,
        McpErrorCode::CapabilityDenied,
        McpErrorCode::Expired,
        McpErrorCode::PlanBindingError,
        McpErrorCode::ValueLimitExceeded,
        McpErrorCode::InternalError,
        McpErrorCode::Unavailable,
    ];
    let mut nums: Vec<i32> = codes.iter().map(|c| c.code()).collect();
    let original = nums.len();
    nums.sort_unstable();
    nums.dedup();
    assert_eq!(nums.len(), original, "duplicate error codes");
}

// ── registry ──

#[test]
fn all_tools_have_unique_names() {
    let tools = McpToolKind::all();
    let mut names: Vec<_> = tools.iter().map(|t| t.tool_name()).collect();
    let original_len = names.len();
    names.sort_unstable();
    names.dedup();
    assert_eq!(names.len(), original_len, "duplicate tool names detected");
}

#[test]
fn only_execute_is_mutating() {
    for tool in McpToolKind::all() {
        if tool == McpToolKind::ExecutePlan {
            assert!(tool.is_mutating());
        } else {
            assert!(!tool.is_mutating(), "{:?} should not be mutating", tool);
        }
    }
}

#[test]
fn lookup_known_tool() {
    assert_eq!(
        lookup_tool("query_balance"),
        Some(McpToolKind::QueryBalance)
    );
    assert_eq!(lookup_tool("execute_plan"), Some(McpToolKind::ExecutePlan));
    assert_eq!(
        lookup_tool("query_provenance"),
        Some(McpToolKind::QueryProvenance)
    );
}

#[test]
fn lookup_unknown_tool() {
    assert!(lookup_tool("not_a_tool").is_none());
    assert!(lookup_tool("").is_none());
}

#[test]
fn forbidden_tool_detected() {
    assert_eq!(
        is_forbidden_tool("raw_move_payload"),
        Some(ForbiddenToolKind::RawMovePayload)
    );
    assert_eq!(
        is_forbidden_tool("direct_broadcast"),
        Some(ForbiddenToolKind::DirectBroadcast)
    );
    assert_eq!(
        is_forbidden_tool("admin_override"),
        Some(ForbiddenToolKind::AdminOverride)
    );
}

#[test]
fn non_forbidden_tool_passes() {
    assert!(is_forbidden_tool("query_balance").is_none());
    assert!(is_forbidden_tool("simulate_intent").is_none());
}

#[test]
fn tool_descriptions_non_empty() {
    for tool in McpToolKind::all() {
        assert!(
            !tool.description().is_empty(),
            "{:?} has empty description",
            tool
        );
    }
}

#[test]
fn sec_forbidden_tools_not_discoverable_in_registry() {
    let forbidden_names = [
        "raw_move_payload",
        "raw_payload",
        "direct_broadcast",
        "broadcast_raw",
        "admin_override",
        "sudo",
    ];
    let all_tools: Vec<&str> = McpToolKind::all().iter().map(|t| t.tool_name()).collect();
    for name in &forbidden_names {
        assert!(
            !all_tools.contains(name),
            "forbidden tool '{}' must not appear in McpToolKind::all()",
            name
        );
        assert!(
            lookup_tool(name).is_none(),
            "forbidden tool '{}' must not be found via lookup_tool()",
            name
        );
    }
}

#[test]
fn every_registered_tool_is_found_under_its_name() {
    for tool in McpToolKind::all() {
        assert_eq!(lookup_tool(tool.tool_name()), Some(tool));
        assert!(is_forbidden_tool(tool.tool_name()).is_none());
    }
    assert!(!ForbiddenToolKind::AdminOverride.denial_reason().is_empty());
    assert_eq!(ForbiddenToolKind::AdminOverride.to_debug_string(), "AdminOverride");
}

// ── schema ──

#[test]
fn parse_valid_address() {
    let hex = "aa".repeat(32);
    let addr = parse_address(&hex).unwrap();
    assert_eq!(addr.0, [0xAA; 32]);
}

#[test]
fn parse_invalid_address_length() {
    let hex = "aa".repeat(16);
    assert!(parse_address(&hex).is_err());
}

#[test]
fn parse_invalid_hex() {
    assert!(parse_address("not_hex_at_all").is_err());
}

#[test]
fn translate_query_balance() {
    let kind = translate(
        McpToolKind::QueryBalance,
        &format!(r#"{{"account": "{}"}}"#, "bb".repeat(32)),
    )
    .unwrap();
    match kind {
        AgentRequestKind::Query {
            query_kind: QueryKind::Balance { account },
        } => {
            assert_eq!(account.0, [0xBB; 32]);
        }
        _ => panic!("unexpected kind"),
    }
}

#[test]
fn translate_execute_plan() {
    let kind = translate(
        McpToolKind::ExecutePlan,
        &format!(
            r#"{{"plan_hash": "{}", "confirmation_ref": "{}"}}"#,
            "01".repeat(32),
            "02".repeat(32)
        ),
    )
    .unwrap();
    match kind {
        AgentRequestKind::ExecutePlan {
            plan_hash,
            confirmation_ref,
        } => {
            assert_eq!(plan_hash.0, [0x01; 32]);
            assert_eq!(confirmation_ref.0, [0x02; 32]);
        }
        _ => panic!("unexpected kind"),
    }
}

fn provenance(filter: &str, id: &str) -> Result<AgentRequestKind, RpcError> {
    translate(
        McpToolKind::QueryProvenance,
        &format!(r#"{{"filter": "{filter}", "id": "{id}"}}"#),
    )
}

#[test]
fn translate_query_provenance_by_agent() {
    match provenance("agent", &"cc".repeat(32)).unwrap() {
        AgentRequestKind::QueryProvenance {
            filter: ProvenanceFilter::ByAgent { agent_id },
        } => {
            assert_eq!(agent_id.0, [0xCC; 32]);
        }
        _ => panic!("unexpected kind"),
    }
}

#[test]
fn translate_unknown_provenance_filter() {
    assert!(provenance("unknown", &"aa".repeat(32)).is_err());
}

#[test]
fn translate_simulate_intent_transfer() {
    let kind = translate(
        McpToolKind::SimulateIntent,
        &format!(
            r#"{{"intent_type": "transfer",
                 "params": {{"to": "{}", "token": "native", "amount": 1000}}}}"#,
            "bb".repeat(32)
        ),
    )
    .unwrap();
    match kind {
        AgentRequestKind::SimulateIntent { intent } => {
            assert!(matches!(intent, UserIntent::Transfer { .. }));
        }
        _ => panic!("unexpected kind"),
    }
}

#[test]
fn translate_simulate_intent_unsupported_type() {
    let args = r#"{"intent_type": "unknown", "params": {}}"#;
    assert!(translate(McpToolKind::SimulateIntent, args).is_err());
}

#[test]
fn mcp_tool_result_ok() {
    let r = McpToolResult::ok(converted(&json(r#"{"balance": 100}"#)));
    assert!(r.success);
    assert!(r.data.is_some());
    assert!(r.error.is_none());
}

#[test]
fn mcp_tool_result_err() {
    let r = McpToolResult::err("something broke".to_owned());
    assert!(!r.success);
    assert!(r.data.is_none());
    assert_eq!(r.error.as_deref(), Some("something broke"));
}

#[test]
fn translate_query_provenance_by_capability_native() {
    match provenance("capability", "native").unwrap() {
        AgentRequestKind::QueryProvenance {
            filter: ProvenanceFilter::ByCapability { token_id },
        } => {
            assert_eq!(token_id, TokenId::Native);
        }
        _ => panic!("unexpected kind"),
    }
}

#[test]
fn translate_query_provenance_by_capability_contract() {
    match provenance("capability", &"dd".repeat(32)).unwrap() {
        AgentRequestKind::QueryProvenance {
            filter: ProvenanceFilter::ByCapability { token_id },
        } => {
            assert_eq!(token_id, TokenId::Contract(ContractAddress([0xDD; 32])));
        }
        _ => panic!("unexpected kind"),
    }
}

#[test]
fn translate_query_provenance_by_capability_invalid() {
    assert!(provenance("capability", "not_valid_hex").is_err());
}

fn swap(max_slippage_bps: u64) -> Result<AgentRequestKind, RpcError> {
    translate(
        McpToolKind::SimulateIntent,
        &format!(
            r#"{{"intent_type": "swap",
                 "params": {{"from_token": "native", "to_token": "native",
                             "amount": 1000, "max_slippage_bps": {max_slippage_bps}}}}}"#
        ),
    )
}

#[test]
fn simulate_swap_rejects_slippage_over_10000() {
    assert!(swap(10001).is_err());
    match swap(10000).unwrap() {
        AgentRequestKind::SimulateIntent {
            intent: UserIntent::Swap { max_slippage_bps, .. },
        } => {
            assert_eq!(max_slippage_bps, 10000);
        }
        _ => panic!("unexpected kind"),
    }
}

#[test]
fn the_other_tools_are_translated_too() {
    match translate(
        McpToolKind::QueryIntent,
        &format!(r#"{{"digest": "{}"}}"#, "0e".repeat(32)),
    )
    .unwrap()
    {
        AgentRequestKind::Query { query_kind: QueryKind::IntentStatus { digest } } => {
            assert_eq!(digest.0, [0x0e; 32]);
        }
        _ => panic!("unexpected kind"),
    }
    match translate(
        McpToolKind::QueryContract,
        &format!(r#"{{"contract": "{}", "resource": "0x1::a::B"}}"#, "0f".repeat(32)),
    )
    .unwrap()
    {
        AgentRequestKind::Query { query_kind: QueryKind::ContractState { contract, resource } } => {
            assert_eq!(contract.0, [0x0f; 32]);
            assert_eq!(resource, "0x1::a::B");
        }
        _ => panic!("unexpected kind"),
    }
    assert!(matches!(
        provenance("session", &"01".repeat(32)).unwrap(),
        AgentRequestKind::QueryProvenance { filter: ProvenanceFilter::BySession { .. } }
    ));
    assert!(matches!(
        provenance("transaction", &"01".repeat(32)).unwrap(),
        AgentRequestKind::QueryProvenance { filter: ProvenanceFilter::ByTransaction { .. } }
    ));
}

#[test]
fn missing_arguments_are_refused() {
    match translate(McpToolKind::QueryBalance, "{}") {
        Err(RpcError::BadRequest(m)) => assert!(m.contains("account")),
        _ => panic!("expected a bad request"),
    }
}

#[test]
fn intents_are_read_from_their_parameters() {
    assert!(parse_user_intent("transfer", &JsonValue::Null).is_err());
    let params = converted(&json(&format!(r#"{{"to": "{}", "amount": 3}}"#, "ab".repeat(32))));
    match parse_user_intent("transfer", &params).unwrap() {
        UserIntent::Transfer { to, token, amount } => {
            assert_eq!(to.0, [0xab; 32]);
            assert_eq!(token, TokenId::Native);
            assert_eq!(amount.0, 3);
        }
        UserIntent::Swap { .. } => panic!("not a swap"),
    }
    assert_eq!(parse_token_id(None).unwrap(), TokenId::Native);
    assert!(parse_digest("00").is_err());
}

// ── calls ──

const PUBLIC_KEY: [u8; 32] = [0x4b; 32];

/// A toy signature: a keyed hash of the domain and the payload.
fn toy_signature(key: &[u8; 32], domain: &str, payload: &[u8]) -> Vec<u8> {
    let mut message = domain.as_bytes().to_vec();
    message.extend_from_slice(payload);
    blake3::keyed_hash(key, &message).as_bytes().to_vec()
}

fn read_bytes(bytes: &Vec<u8>) -> Result<Vec<u8>, String> {
    if bytes.len() == 32 {
        Ok(bytes.clone())
    } else {
        Err("wrong length".to_owned())
    }
}

fn verify(key: &Vec<u8>, domain: &str, payload: &Vec<u8>, signature: &Vec<u8>) -> bool {
    let mut fixed = [0u8; 32];
    fixed.copy_from_slice(key);
    toy_signature(&fixed, domain, payload) == *signature
}

/// Derives identifiers from hashes of what they are derived from.
fn derive(session: &str, call_index: u64, tool: &str, args_hash: &Blake3Digest) -> SessionKeys {
    let digest = |parts: &[&[u8]]| {
        let mut hasher = blake3::Hasher::new();
        for part in parts {
            hasher.update(part);
        }
        Blake3Digest(*hasher.finalize().as_bytes())
    };
    let session_id = digest(&[session.as_bytes()]);
    SessionKeys {
        session_id,
        request_id: digest(&[&session_id.0, &call_index.to_le_bytes()]),
        idempotency_key: digest(&[&session_id.0, tool.as_bytes(), &args_hash.0]),
    }
}

fn make_call(tool: &str, args: &str) -> McpToolCall {
    let caller = AccountAddress::from_dilithium_pubkey(&PUBLIC_KEY);
    let arguments = serde_json::to_vec(&json(args)).unwrap();
    let mut payload = Vec::new();
    payload.extend_from_slice(&caller.0);
    payload.extend_from_slice(tool.as_bytes());
    payload.extend_from_slice(&arguments);
    McpToolCall {
        tool: tool.to_string(),
        arguments,
        caller: hex::encode(caller.0),
        caller_public_key: hex::encode(PUBLIC_KEY),
        caller_signature: hex::encode(toy_signature(
            &PUBLIC_KEY,
            MCP_CALLER_SIG_DOMAIN,
            &payload,
        )),
        mcp_session_id: Some("test-session-1".to_string()),
    }
}

/// An engine that always simulates.
struct MockDispatcher;

impl DispatchBackend for MockDispatcher {
    fn dispatch(&self, _: &AgentEnvelope) -> Result<DispatchOutcome, IntentError> {
        Ok(DispatchOutcome::Simulated(SimulationResult {
            session_id: Blake3Digest([0x02; 32]),
            plan_hash: Blake3Digest([0xAA; 32]),
            estimated_gas: 10_000,
            step_count: 1,
            requires_cross_shard: false,
            simulated_at_ms: TimestampMs(1_000),
            summary: String::new(),
        }))
    }
}

/// An engine that always fails.
struct ErrorDispatcher;

impl DispatchBackend for ErrorDispatcher {
    fn dispatch(&self, _: &AgentEnvelope) -> Result<DispatchOutcome, IntentError> {
        Err(IntentError::AccountNotFound {
            account: AccountAddress([0xFF; 32]),
        })
    }
}

fn handle(call: &McpToolCall, dispatch: &dyn DispatchBackend) -> McpToolResult {
    handle_tool_call(
        call,
        0,
        TimestampMs(u64::MAX),
        &read_bytes,
        &read_bytes,
        &verify,
        &read_arguments,
        &derive,
        dispatch,
    )
}

fn balance_call(account: &str) -> McpToolCall {
    make_call(
        "query_balance",
        &format!(r#"{{"account": "{}"}}"#, account.repeat(32)),
    )
}

#[test]
fn handle_query_balance_success() {
    let result = handle(&balance_call("bb"), &MockDispatcher);
    assert!(result.success);
}

#[test]
fn handle_unknown_tool() {
    let result = handle(&make_call("nonexistent_tool", "{}"), &MockDispatcher);
    assert!(!result.success);
    assert!(result.error.as_deref().unwrap().contains("unknown tool"));
}

#[test]
fn handle_forbidden_tool() {
    let result = handle(&make_call("raw_move_payload", "{}"), &MockDispatcher);
    assert!(!result.success);
    assert!(result.error.as_deref().unwrap().contains("forbidden"));
}

#[test]
fn handle_dispatch_error_includes_mcp_code() {
    let result = handle(&balance_call("cc"), &ErrorDispatcher);
    assert!(!result.success);
    assert!(result.error.as_deref().unwrap().contains("mcp_code="));
}

#[test]
fn handle_simulate_intent_transfer() {
    let call = make_call(
        "simulate_intent",
        &format!(
            r#"{{"intent_type": "transfer",
                 "params": {{"to": "{}", "token": "native", "amount": 5000}}}}"#,
            "bb".repeat(32)
        ),
    );
    let result = handle(&call, &MockDispatcher);
    assert!(result.success);
    let data = result.data.unwrap();
    assert_eq!(data.number_member("estimated_gas"), Some(10_000));
}

#[test]
fn outcome_simulated_to_result() {
    let sim = DispatchOutcome::Simulated(SimulationResult {
        session_id: Blake3Digest([0x01; 32]),
        plan_hash: Blake3Digest([0x02; 32]),
        estimated_gas: 5_000,
        step_count: 2,
        requires_cross_shard: true,
        simulated_at_ms: TimestampMs(100),
        summary: String::new(),
    });
    let r = outcome_to_result(sim);
    assert!(r.success);
    let data = r.data.unwrap();
    assert_eq!(data.number_member("step_count"), Some(2));
    assert!(matches!(
        data.get("requires_cross_shard"),
        Some(JsonValue::Bool(true))
    ));
}

#[test]
fn outcome_executed_to_result() {
    let receipt = DispatchOutcome::Executed(ExecutionReceipt {
        session_id: Blake3Digest([0x01; 32]),
        plan_hash: Blake3Digest([0x02; 32]),
        tx_hashes: vec![Blake3Digest([0xEE; 32])],
        gas_used: 42_000,
        completed_at_ms: TimestampMs(200),
    });
    let r = outcome_to_result(receipt);
    assert!(r.success);
    let data = r.data.unwrap();
    assert_eq!(data.number_member("gas_used"), Some(42_000));
}

#[test]
fn outcome_rejected_to_result() {
    let r = outcome_to_result(DispatchOutcome::Rejected {
        reason: "bad plan".into(),
    });
    assert!(!r.success);
    assert_eq!(r.error.as_deref(), Some("bad plan"));
}

#[test]
fn idempotent_calls_produce_same_key() {
    let call = balance_call("bb");
    let args_hash = compute_args_hash(&call.arguments);
    let key1 = derive("test-session-1", 0, &call.tool, &args_hash).idempotency_key;
    let key2 = derive("test-session-1", 1, &call.tool, &args_hash).idempotency_key;
    assert_eq!(key1, key2);
    let other = compute_args_hash(&balance_call("bc").arguments);
    assert_ne!(args_hash, other);
}

#[test]
fn mcp_caller_identity_should_be_authenticated() {
    let call = balance_call("bb");
    let result = handle(&call, &MockDispatcher);
    assert!(result.success, "valid signature should succeed");

    let mut bad_call = balance_call("bb");
    let mut sig_bytes = hex::decode(&bad_call.caller_signature).unwrap();
    sig_bytes[0] ^= 0xFF;
    bad_call.caller_signature = hex::encode(&sig_bytes);
    let result = handle(&bad_call, &MockDispatcher);
    assert!(!result.success, "tampered signature must fail");
    assert!(
        result.error.as_deref().unwrap().contains("signature"),
        "error should mention signature"
    );

    let mut wrong_addr = balance_call("bb");
    wrong_addr.caller = "ff".repeat(32);
    let result = handle(&wrong_addr, &MockDispatcher);
    assert!(!result.success, "wrong caller address must fail");
    assert!(
        result.error.as_deref().unwrap().contains("does not match"),
        "error should mention address mismatch"
    );
}

#[test]
fn malformed_credentials_are_refused() {
    let identity = |call: &McpToolCall| {
        verify_caller_identity(call, &read_bytes, &read_bytes, &verify).unwrap_err()
    };
    let mut call = balance_call("bb");
    call.caller_public_key = "zz".to_owned();
    assert!(identity(&call).contains("public"));
    call.caller_public_key = "00".to_owned();
    assert!(identity(&call).contains("wrong length"));
    let mut call = balance_call("bb");
    call.caller_signature = "zz".to_owned();
    assert!(identity(&call).contains("signature"));
}

#[test]
fn envelopes_carry_the_call() {
    let call = balance_call("bb");
    let kind =
        translate_request_kind(McpToolKind::QueryBalance, &read_arguments(&call.arguments))
            .unwrap();
    let keys = derive("s", 7, &call.tool, &compute_args_hash(&call.arguments));
    let envelope = build_envelope_from_mcp(
        &call,
        kind,
        keys.session_id,
        keys.request_id,
        keys.idempotency_key,
        TimestampMs(55),
    )
    .unwrap();
    assert_eq!(envelope.protocol_version, MCP_PROTOCOL_VERSION);
    assert_eq!(envelope.session_id, keys.session_id);
    assert_eq!(envelope.request_id, keys.request_id);
    assert_eq!(envelope.idempotency_key, keys.idempotency_key);
    assert_eq!(envelope.deadline_ms, TimestampMs(55));
    assert_eq!(
        envelope.caller.address,
        AccountAddress::from_dilithium_pubkey(&PUBLIC_KEY)
    );
}

#[test]
fn list_tools_returns_registry() {
    let tools = list_tools();
    assert_eq!(tools.len(), McpToolKind::all().len());
    assert_eq!(tools[0].name, "query_balance");
    assert!(tools.iter().any(|t| t.name == "execute_plan" && t.mutating));
}

#[test]
fn call_tool_routes_to_dispatcher() {
    let call = make_call(
        "simulate_intent",
        &format!(
            r#"{{"intent_type": "transfer", "params": {{"to": "{}", "amount": 1}}}}"#,
            "11".repeat(32)
        ),
    );
    let mut call_index = 0;
    let result = call_tool(
        Some(&MockDispatcher),
        &call,
        &mut call_index,
        TimestampMs(10),
        5_000,
        &read_bytes,
        &read_bytes,
        &verify,
        &read_arguments,
        &derive,
    )
    .unwrap();
    assert!(result.success);
    assert_eq!(call_index, 1);
}

#[test]
fn call_tool_needs_a_dispatcher() {
    let mut call_index = 0;
    let result = call_tool(
        None::<&dyn DispatchBackend>,
        &balance_call("bb"),
        &mut call_index,
        TimestampMs(10),
        5_000,
        &read_bytes,
        &read_bytes,
        &verify,
        &read_arguments,
        &derive,
    );
    assert!(matches!(result, Err(RpcError::Unavailable(_))));
    assert_eq!(call_index, 0);
}

/// An engine that tells of the request that it is handed.
struct EchoDispatcher;

impl DispatchBackend for EchoDispatcher {
    fn dispatch(&self, envelope: &AgentEnvelope) -> Result<DispatchOutcome, IntentError> {
        Ok(DispatchOutcome::Rejected { reason: format!("{:?}", envelope.request_kind) })
    }
}

#[test]
fn what_is_signed_is_carried_out() {
    let call = balance_call("bb");
    let carried_out = handle(&call, &EchoDispatcher).error.unwrap();
    let signed = translate_request_kind(
        McpToolKind::QueryBalance,
        &read_arguments(&call.arguments),
    )
    .unwrap();
    assert_eq!(carried_out, format!("{signed:?}"));

    let mut changed = balance_call("bb");
    changed.arguments = balance_call("bc").arguments;
    let error = handle(&changed, &EchoDispatcher).error.unwrap();
    assert_eq!(error, "caller signature verification failed");
}

#[test]
fn admitted_calls_are_numbered() {
    let mut call_index = u64::MAX - 1;
    let mut numbers = Vec::new();
    for _ in 0..3 {
        let (_, index) = admit_call(Some(&MockDispatcher), &mut call_index).unwrap();
        numbers.push(index);
    }
    assert_eq!(numbers, vec![u64::MAX - 1, u64::MAX, 0]);
    assert!(admit_call(None::<&MockDispatcher>, &mut call_index).is_err());
    assert_eq!(call_index, 1);
}
