//! Translation of MCP tool calls into agent requests.
//!
//! The translation reshapes data only: it decides nothing about what a request
//! may do.

use vstd::prelude::*;
use vstd::string::*;

use crate::primitives::digest::copy_32;
use crate::primitives::hexadecimal::{
    decode, hex_decoded, hex_error_text, lemma_decoding_is_unique,
};
use crate::primitives::text::{decimal, decimal_text, join, join3, text_eq};
use crate::primitives::{Amount, Blake3Digest, ContractAddress, TimestampMs, TokenId};
use crate::rpc::agent::{
    AgentEnvelope, AgentExecutionConstraints, AgentPrincipal, AgentRequestKind, AgentRequestView,
    ProtocolKind, ProvenanceFilter, ProvenanceFilterView, QueryKind, QueryKindView, TokenIdView,
    UserIntent, UserIntentView,
};
use crate::rpc::error::{viewed, RpcError, RpcErrorView};
use crate::rpc::json::{member, number_of, text_of, JsonValue};
use crate::rpc::mcp::registry::{tool_name_of, McpToolKind};
use crate::rpc::rest::{address_outcome, parse_address};

verus! {

/// The protocol version that every translated request names.
pub const MCP_PROTOCOL_VERSION: &'static str = "mcp/2025-11-05";

/// Arguments of `query_balance`.
#[derive(Debug, Clone)]
pub struct QueryBalanceArgs {
    /// Account address in hexadecimal.
    pub account: String,
}

/// Arguments of `query_intent`.
#[derive(Debug, Clone)]
pub struct QueryIntentArgs {
    /// Digest in hexadecimal.
    pub digest: String,
}

/// Arguments of `query_contract`.
#[derive(Debug, Clone)]
pub struct QueryContractArgs {
    /// Contract address in hexadecimal.
    pub contract: String,
    /// Resource tag or function name.
    pub resource: String,
}

/// Arguments of `simulate_intent`.
#[derive(Debug)]
pub struct SimulateIntentArgs {
    /// Kind of intent: "transfer" or "swap".
    pub intent_type: String,
    /// Parameters of the intent.
    pub params: JsonValue,
}

/// Arguments of `execute_plan`.
#[derive(Debug, Clone)]
pub struct ExecutePlanArgs {
    /// Plan hash in hexadecimal.
    pub plan_hash: String,
    /// Confirmation reference in hexadecimal.
    pub confirmation_ref: String,
}

/// Arguments of `query_provenance`.
#[derive(Debug, Clone)]
pub struct QueryProvenanceArgs {
    /// What to filter by: "agent", "session", "capability" or "transaction".
    pub filter: String,
    /// Identifier for the filter, in hexadecimal.
    pub id: String,
}

/// What a reader makes of the arguments of a tool call under the schema of
/// each tool. Where they do not fit a schema, the reading is the decoder's
/// message.
#[derive(Debug)]
pub struct ToolArguments {
    /// The arguments as those of `query_balance`.
    pub query_balance: Result<QueryBalanceArgs, String>,
    /// The arguments as those of `query_intent`.
    pub query_intent: Result<QueryIntentArgs, String>,
    /// The arguments as those of `query_contract`.
    pub query_contract: Result<QueryContractArgs, String>,
    /// The arguments as those of `simulate_intent`.
    pub simulate_intent: Result<SimulateIntentArgs, String>,
    /// The arguments as those of `execute_plan`.
    pub execute_plan: Result<ExecutePlanArgs, String>,
    /// The arguments as those of `query_provenance`.
    pub query_provenance: Result<QueryProvenanceArgs, String>,
}

/// A tool call as a client sends it.
#[derive(Debug)]
pub struct McpToolCall {
    /// Name of the tool.
    pub tool: String,
    /// Arguments of the call, as JSON text.
    pub arguments: Vec<u8>,
    /// Address of the calling agent, in hexadecimal.
    pub caller: String,
    /// Public key of the caller, in hexadecimal.
    pub caller_public_key: String,
    /// The caller's signature over address, tool and arguments, in
    /// hexadecimal.
    pub caller_signature: String,
    /// The client's session, if it names one.
    pub mcp_session_id: Option<String>,
}

/// The reply to a tool call.
#[derive(Debug)]
pub struct McpToolResult {
    /// Whether the call succeeded.
    pub success: bool,
    /// What the tool returned, if the call succeeded.
    pub data: Option<JsonValue>,
    /// Why the call failed, if it did.
    pub error: Option<String>,
}

impl McpToolResult {
    /// The reply to a call that succeeded with `data`.
    pub fn ok(data: JsonValue) -> (r: Self)
        ensures
            r.success,
            r.data == Some(data),
            r.error is None,
    {
        McpToolResult { success: true, data: Some(data), error: None }
    }

    /// The reply to a call that failed with `message`.
    pub fn err(message: String) -> (r: Self)
        ensures
            r.failed_with(message@),
    {
        McpToolResult { success: false, data: None, error: Some(message) }
    }

    /// Whether this reply reports the failure `message`.
    pub open spec fn failed_with(&self, message: Seq<char>) -> bool {
        &&& !self.success
        &&& self.data is None
        &&& self.error is Some
        &&& self.error->Some_0@ == message
    }
}

/// What reading `text` as thirty-two hexadecimal bytes gives, where
/// `hex_fault` introduces the report of a wrong digit and `length_fault` that
/// of a wrong length.
pub open spec fn fixed_outcome(
    text: Seq<char>,
    hex_fault: Seq<char>,
    length_fault: Seq<char>,
) -> Result<Seq<u8>, RpcErrorView> {
    match hex_decoded(text) {
        Ok(bytes) => if bytes.len() == 32 {
            Ok(bytes)
        } else {
            Err(RpcErrorView::BadRequest(length_fault + decimal(bytes.len())))
        },
        Err(e) => Err(RpcErrorView::BadRequest(hex_fault + hex_error_text(e))),
    }
}

/// Reads thirty-two hexadecimal bytes.
fn parse_fixed(text: &str, hex_fault: &str, length_fault: &str) -> (r: Result<[u8; 32], RpcError>)
    ensures
        viewed(r) == fixed_outcome(text@, hex_fault@, length_fault@),
{
    proof {
        lemma_decoding_is_unique(text@);
    }
    match decode(text) {
        Ok(bytes) => {
            if bytes.len() != 32 {
                return Err(
                    RpcError::BadRequest(
                        join(length_fault, decimal_text(bytes.len() as u64).as_str()),
                    ),
                );
            }
            assert(bytes@.subrange(0, 32) =~= bytes@);
            Ok(copy_32(bytes.as_slice()))
        },
        Err(e) => Err(RpcError::BadRequest(join(hex_fault, e.to_string().as_str()))),
    }
}

/// What reading `text` as a digest gives.
pub open spec fn digest_outcome(text: Seq<char>) -> Result<Seq<u8>, RpcErrorView> {
    fixed_outcome(text, "invalid hex digest: "@, "digest must be 32 bytes, got "@)
}

/// Reads a hexadecimal 32-byte digest.
pub fn parse_digest(hex_str: &str) -> (r: Result<Blake3Digest, RpcError>)
    ensures
        viewed(r) == digest_outcome(hex_str@),
{
    match parse_fixed(hex_str, "invalid hex digest: ", "digest must be 32 bytes, got ") {
        Ok(bytes) => Ok(Blake3Digest(bytes)),
        Err(e) => Err(e),
    }
}

/// What reading `text` as a token gives: the native token where it is absent
/// or says so, else the token of the contract it names. `hex_fault`
/// introduces the report of a wrong digit.
pub open spec fn token_outcome(
    text: Option<Seq<char>>,
    hex_fault: Seq<char>,
) -> Result<TokenIdView, RpcErrorView> {
    match text {
        None => Ok(TokenIdView::Native),
        Some(t) => if t == "native"@ {
            Ok(TokenIdView::Native)
        } else {
            match fixed_outcome(t, hex_fault, "token contract address must be 32 bytes, got "@) {
                Ok(bytes) => Ok(TokenIdView::Contract(bytes)),
                Err(e) => Err(e),
            }
        },
    }
}

fn parse_token_text(text: Option<&str>, hex_fault: &str) -> (r: Result<TokenId, RpcError>)
    ensures
        viewed(r) == token_outcome(
            match text {
                Some(t) => Some(t@),
                None => None,
            },
            hex_fault@,
        ),
{
    match text {
        None => Ok(TokenId::Native),
        Some(t) => {
            if text_eq(t, "native") {
                Ok(TokenId::Native)
            } else {
                match parse_fixed(t, hex_fault, "token contract address must be 32 bytes, got ") {
                    Ok(bytes) => Ok(TokenId::Contract(ContractAddress(bytes))),
                    Err(e) => Err(e),
                }
            }
        },
    }
}

/// Reads an optional token: the native token where it is absent, is no text or
/// is "native", else the token of the contract it names.
pub fn parse_token_id(value: Option<&JsonValue>) -> (r: Result<TokenId, RpcError>)
    ensures
        viewed(r) == token_outcome(
            text_of(
                match value {
                    Some(v) => Some(*v),
                    None => None,
                },
            ),
            "invalid hex token: "@,
        ),
{
    let text = match value {
        Some(v) => v.as_str(),
        None => None,
    };
    parse_token_text(text, "invalid hex token: ")
}

/// What reading the parameters of a transfer gives. The receiver is read
/// first, then the token, then the amount.
pub open spec fn transfer_outcome(params: JsonValue) -> Result<UserIntentView, RpcErrorView> {
    match text_of(member(params, "to"@)) {
        None => Err(RpcErrorView::BadRequest("transfer requires 'to' field"@)),
        Some(text) => match address_outcome(text) {
            Err(e) => Err(e),
            Ok(to) => match token_outcome(
                text_of(member(params, "token"@)),
                "invalid hex token: "@,
            ) {
                Err(e) => Err(e),
                Ok(token) => match number_of(member(params, "amount"@)) {
                    None => Err(RpcErrorView::BadRequest("transfer requires 'amount' field"@)),
                    Some(amount) => Ok(UserIntentView::Transfer { to, token, amount }),
                },
            },
        },
    }
}

/// The slippage that the parameters of a swap allow: one percent where they
/// say nothing.
pub open spec fn slippage_of(params: JsonValue) -> u64 {
    match number_of(member(params, "max_slippage_bps"@)) {
        Some(n) => n,
        None => 100,
    }
}

/// What reading the parameters of a swap gives. The token given is read first,
/// then the token wanted, the amount and the slippage, which is at most a
/// hundred percent.
pub open spec fn swap_outcome(params: JsonValue) -> Result<UserIntentView, RpcErrorView> {
    match token_outcome(text_of(member(params, "from_token"@)), "invalid hex token: "@) {
        Err(e) => Err(e),
        Ok(from_token) => match token_outcome(
            text_of(member(params, "to_token"@)),
            "invalid hex token: "@,
        ) {
            Err(e) => Err(e),
            Ok(to_token) => match number_of(member(params, "amount"@)) {
                None => Err(RpcErrorView::BadRequest("swap requires 'amount' field"@)),
                Some(amount) => if slippage_of(params) > 10_000 {
                    Err(
                        RpcErrorView::BadRequest(
                            "max_slippage_bps must be <= 10000, got "@ + decimal(
                                slippage_of(params) as nat,
                            ),
                        ),
                    )
                } else {
                    Ok(
                        UserIntentView::Swap {
                            from_token,
                            to_token,
                            amount,
                            max_slippage_bps: slippage_of(params) as u16,
                        },
                    )
                },
            },
        },
    }
}

/// What reading an intent gives.
pub open spec fn intent_outcome(
    intent_type: Seq<char>,
    params: JsonValue,
) -> Result<UserIntentView, RpcErrorView> {
    if intent_type == "transfer"@ {
        transfer_outcome(params)
    } else if intent_type == "swap"@ {
        swap_outcome(params)
    } else {
        Err(
            RpcErrorView::BadRequest(
                "unsupported intent_type: "@ + intent_type + " (supported: transfer, swap)"@,
            ),
        )
    }
}

fn parse_transfer(params: &JsonValue) -> (r: Result<UserIntent, RpcError>)
    ensures
        viewed(r) == transfer_outcome(*params),
{
    let to = match params.text_member("to") {
        Some(text) => match parse_address(text) {
            Ok(address) => address,
            Err(e) => return Err(e),
        },
        None => return Err(RpcError::BadRequest("transfer requires 'to' field".to_owned())),
    };
    let token = match parse_token_id(params.get("token")) {
        Ok(token) => token,
        Err(e) => return Err(e),
    };
    let amount: u64 = match params.number_member("amount") {
        Some(amount) => amount,
        None => return Err(RpcError::BadRequest("transfer requires 'amount' field".to_owned())),
    };
    Ok(UserIntent::Transfer { to, token, amount: Amount(amount) })
}

fn parse_swap(params: &JsonValue) -> (r: Result<UserIntent, RpcError>)
    ensures
        viewed(r) == swap_outcome(*params),
{
    let from_token = match parse_token_id(params.get("from_token")) {
        Ok(token) => token,
        Err(e) => return Err(e),
    };
    let to_token = match parse_token_id(params.get("to_token")) {
        Ok(token) => token,
        Err(e) => return Err(e),
    };
    let amount: u64 = match params.number_member("amount") {
        Some(amount) => amount,
        None => return Err(RpcError::BadRequest("swap requires 'amount' field".to_owned())),
    };
    let raw_slippage: u64 = match params.number_member("max_slippage_bps") {
        Some(slippage) => slippage,
        None => 100,
    };
    if raw_slippage > 10_000 {
        return Err(
            RpcError::BadRequest(
                join(
                    "max_slippage_bps must be <= 10000, got ",
                    decimal_text(raw_slippage).as_str(),
                ),
            ),
        );
    }
    let max_slippage_bps: u16 = raw_slippage as u16;
    Ok(UserIntent::Swap { from_token, to_token, amount: Amount(amount), max_slippage_bps })
}

/// Reads an intent from its kind and its parameters.
pub fn parse_user_intent(intent_type: &str, params: &JsonValue) -> (r: Result<UserIntent, RpcError>)
    ensures
        viewed(r) == intent_outcome(intent_type@, *params),
{
    if text_eq(intent_type, "transfer") {
        parse_transfer(params)
    } else if text_eq(intent_type, "swap") {
        parse_swap(params)
    } else {
        Err(
            RpcError::BadRequest(
                join3("unsupported intent_type: ", intent_type, " (supported: transfer, swap)"),
            ),
        )
    }
}

/// The report of arguments that do not fit the schema of a tool.
pub open spec fn invalid_arguments(tool: McpToolKind, message: Seq<char>) -> RpcErrorView {
    RpcErrorView::BadRequest("invalid "@ + tool_name_of(tool) + " args: "@ + message)
}

/// What reading the filter of a provenance query gives.
pub open spec fn filter_outcome(
    filter: Seq<char>,
    id: Seq<char>,
) -> Result<ProvenanceFilterView, RpcErrorView> {
    if filter == "agent"@ {
        match address_outcome(id) {
            Ok(agent_id) => Ok(ProvenanceFilterView::ByAgent { agent_id }),
            Err(e) => Err(e),
        }
    } else if filter == "session"@ {
        match digest_outcome(id) {
            Ok(session_id) => Ok(ProvenanceFilterView::BySession { session_id }),
            Err(e) => Err(e),
        }
    } else if filter == "capability"@ {
        match token_outcome(Some(id), "invalid hex token id: "@) {
            Ok(token_id) => Ok(ProvenanceFilterView::ByCapability { token_id }),
            Err(e) => Err(e),
        }
    } else if filter == "transaction"@ {
        match digest_outcome(id) {
            Ok(tx_hash) => Ok(ProvenanceFilterView::ByTransaction { tx_hash }),
            Err(e) => Err(e),
        }
    } else {
        Err(RpcErrorView::BadRequest("unknown provenance filter: "@ + filter))
    }
}

/// The request that a call of `tool` with `arguments` makes, or why it makes
/// none.
pub open spec fn request_outcome(
    tool: McpToolKind,
    arguments: ToolArguments,
) -> Result<AgentRequestView, RpcErrorView> {
    match tool {
        McpToolKind::QueryBalance => match arguments.query_balance {
            Err(m) => Err(invalid_arguments(tool, m@)),
            Ok(args) => match address_outcome(args.account@) {
                Err(e) => Err(e),
                Ok(account) => Ok(
                    AgentRequestView::Query { query_kind: QueryKindView::Balance { account } },
                ),
            },
        },
        McpToolKind::QueryIntent => match arguments.query_intent {
            Err(m) => Err(invalid_arguments(tool, m@)),
            Ok(args) => match digest_outcome(args.digest@) {
                Err(e) => Err(e),
                Ok(digest) => Ok(
                    AgentRequestView::Query { query_kind: QueryKindView::IntentStatus { digest } },
                ),
            },
        },
        McpToolKind::QueryContract => match arguments.query_contract {
            Err(m) => Err(invalid_arguments(tool, m@)),
            Ok(args) => match fixed_outcome(
                args.contract@,
                "invalid hex contract: "@,
                "contract address must be 32 bytes, got "@,
            ) {
                Err(e) => Err(e),
                Ok(contract) => Ok(
                    AgentRequestView::Query {
                        query_kind: QueryKindView::ContractState {
                            contract,
                            resource: args.resource@,
                        },
                    },
                ),
            },
        },
        McpToolKind::SimulateIntent => match arguments.simulate_intent {
            Err(m) => Err(invalid_arguments(tool, m@)),
            Ok(args) => match intent_outcome(args.intent_type@, args.params) {
                Err(e) => Err(e),
                Ok(intent) => Ok(AgentRequestView::SimulateIntent { intent }),
            },
        },
        McpToolKind::ExecutePlan => match arguments.execute_plan {
            Err(m) => Err(invalid_arguments(tool, m@)),
            Ok(args) => match digest_outcome(args.plan_hash@) {
                Err(e) => Err(e),
                Ok(plan_hash) => match digest_outcome(args.confirmation_ref@) {
                    Err(e) => Err(e),
                    Ok(confirmation_ref) => Ok(
                        AgentRequestView::ExecutePlan { plan_hash, confirmation_ref },
                    ),
                },
            },
        },
        McpToolKind::QueryProvenance => match arguments.query_provenance {
            Err(m) => Err(invalid_arguments(tool, m@)),
            Ok(args) => match filter_outcome(args.filter@, args.id@) {
                Err(e) => Err(e),
                Ok(filter) => Ok(AgentRequestView::QueryProvenance { filter }),
            },
        },
    }
}

fn bad_arguments(tool: McpToolKind, message: &String) -> (r: RpcError)
    ensures
        r@ == invalid_arguments(tool, message@),
{
    let mut text = join3("invalid ", tool.tool_name(), " args: ");
    text.append(message.as_str());
    RpcError::BadRequest(text)
}

fn parse_filter(args: &QueryProvenanceArgs) -> (r: Result<ProvenanceFilter, RpcError>)
    ensures
        viewed(r) == filter_outcome(args.filter@, args.id@),
{
    let filter = args.filter.as_str();
    let id = args.id.as_str();
    if text_eq(filter, "agent") {
        match parse_address(id) {
            Ok(agent_id) => Ok(ProvenanceFilter::ByAgent { agent_id }),
            Err(e) => Err(e),
        }
    } else if text_eq(filter, "session") {
        match parse_digest(id) {
            Ok(session_id) => Ok(ProvenanceFilter::BySession { session_id }),
            Err(e) => Err(e),
        }
    } else if text_eq(filter, "capability") {
        match parse_token_text(Some(id), "invalid hex token id: ") {
            Ok(token_id) => Ok(ProvenanceFilter::ByCapability { token_id }),
            Err(e) => Err(e),
        }
    } else if text_eq(filter, "transaction") {
        match parse_digest(id) {
            Ok(tx_hash) => Ok(ProvenanceFilter::ByTransaction { tx_hash }),
            Err(e) => Err(e),
        }
    } else {
        Err(RpcError::BadRequest(join("unknown provenance filter: ", filter)))
    }
}

/// Translates the arguments of a call of `tool` into the agent request that
/// the call makes.
pub fn translate_request_kind(tool: McpToolKind, arguments: &ToolArguments) -> (r: Result<
    AgentRequestKind,
    RpcError,
>)
    ensures
        viewed(r) == request_outcome(tool, *arguments),
{
    match tool {
        McpToolKind::QueryBalance => match &arguments.query_balance {
            Err(m) => Err(bad_arguments(tool, m)),
            Ok(args) => match parse_address(args.account.as_str()) {
                Err(e) => Err(e),
                Ok(account) => Ok(
                    AgentRequestKind::Query { query_kind: QueryKind::Balance { account } },
                ),
            },
        },
        McpToolKind::QueryIntent => match &arguments.query_intent {
            Err(m) => Err(bad_arguments(tool, m)),
            Ok(args) => match parse_digest(args.digest.as_str()) {
                Err(e) => Err(e),
                Ok(digest) => Ok(
                    AgentRequestKind::Query { query_kind: QueryKind::IntentStatus { digest } },
                ),
            },
        },
        McpToolKind::QueryContract => match &arguments.query_contract {
            Err(m) => Err(bad_arguments(tool, m)),
            Ok(args) => match parse_fixed(
                args.contract.as_str(),
                "invalid hex contract: ",
                "contract address must be 32 bytes, got ",
            ) {
                Err(e) => Err(e),
                Ok(bytes) => Ok(
                    AgentRequestKind::Query {
                        query_kind: QueryKind::ContractState {
                            contract: ContractAddress(bytes),
                            resource: args.resource.clone(),
                        },
                    },
                ),
            },
        },
        McpToolKind::SimulateIntent => match &arguments.simulate_intent {
            Err(m) => Err(bad_arguments(tool, m)),
            Ok(args) => match parse_user_intent(args.intent_type.as_str(), &args.params) {
                Err(e) => Err(e),
                Ok(intent) => Ok(AgentRequestKind::SimulateIntent { intent }),
            },
        },
        McpToolKind::ExecutePlan => match &arguments.execute_plan {
            Err(m) => Err(bad_arguments(tool, m)),
            Ok(args) => match parse_digest(args.plan_hash.as_str()) {
                Err(e) => Err(e),
                Ok(plan_hash) => match parse_digest(args.confirmation_ref.as_str()) {
                    Err(e) => Err(e),
                    Ok(confirmation_ref) => Ok(
                        AgentRequestKind::ExecutePlan { plan_hash, confirmation_ref },
                    ),
                },
            },
        },
        McpToolKind::QueryProvenance => match &arguments.query_provenance {
            Err(m) => Err(bad_arguments(tool, m)),
            Ok(args) => match parse_filter(args) {
                Err(e) => Err(e),
                Ok(filter) => Ok(AgentRequestKind::QueryProvenance { filter }),
            },
        },
    }
}

/// The kind of request is decided by the tool alone: only `execute_plan` makes
/// a request that changes state.
pub proof fn law_request_kind_follows_tool(tool: McpToolKind, arguments: ToolArguments)
    requires
        request_outcome(tool, arguments) is Ok,
    ensures
        request_outcome(tool, arguments)->Ok_0 is ExecutePlan <==> tool == McpToolKind::ExecutePlan,
        request_outcome(tool, arguments)->Ok_0 is SimulateIntent <==> tool
            == McpToolKind::SimulateIntent,
        request_outcome(tool, arguments)->Ok_0 is QueryProvenance <==> tool
            == McpToolKind::QueryProvenance,
{
}

/// No accepted swap lets the price slip by more than a hundred percent.
pub proof fn law_swaps_bound_slippage(params: JsonValue)
    requires
        intent_outcome("swap"@, params) is Ok,
    ensures
        intent_outcome("swap"@, params)->Ok_0 is Swap,
        intent_outcome("swap"@, params)->Ok_0->max_slippage_bps <= 10_000,
{
    reveal_strlit("swap");
    reveal_strlit("transfer");
    assert("swap"@.len() != "transfer"@.len());
}

/// Whether `envelope` is the request that a call makes in its session.
pub open spec fn envelope_of(
    envelope: AgentEnvelope,
    caller: Seq<u8>,
    request_kind: AgentRequestKind,
    session_id: Blake3Digest,
    request_id: Blake3Digest,
    idempotency_key: Blake3Digest,
    deadline_ms: TimestampMs,
) -> bool {
    &&& envelope.protocol_kind == ProtocolKind::Mcp
    &&& envelope.protocol_version@ == MCP_PROTOCOL_VERSION@
    &&& envelope.request_id == request_id
    &&& envelope.session_id == session_id
    &&& envelope.idempotency_key == idempotency_key
    &&& envelope.caller.address@ == caller
    &&& envelope.caller.display_name is None
    &&& envelope.delegated_capability is None
    &&& envelope.request_kind == request_kind
    &&& envelope.constraints.max_gas == 1_000_000
    &&& envelope.constraints.max_total_value == Amount(1_000_000)
    &&& envelope.constraints.allowed_contracts@ == Seq::<ContractAddress>::empty()
    &&& envelope.deadline_ms == deadline_ms
    &&& envelope.parent_session_id is None
}

/// Builds the request that a call makes in its session, or reports that the
/// caller's address is malformed.
pub fn build_envelope_from_mcp(
    call: &McpToolCall,
    request_kind: AgentRequestKind,
    session_id: Blake3Digest,
    request_id: Blake3Digest,
    idempotency_key: Blake3Digest,
    deadline_ms: TimestampMs,
) -> (r: Result<AgentEnvelope, RpcError>)
    ensures
        match address_outcome(call.caller@) {
            Ok(address) => r is Ok && envelope_of(
                r->Ok_0,
                address,
                request_kind,
                session_id,
                request_id,
                idempotency_key,
                deadline_ms,
            ),
            Err(e) => r is Err && r->Err_0@ == e,
        },
{
    let address = match parse_address(call.caller.as_str()) {
        Ok(address) => address,
        Err(e) => return Err(e),
    };
    Ok(
        AgentEnvelope {
            protocol_kind: ProtocolKind::Mcp,
            protocol_version: MCP_PROTOCOL_VERSION.to_owned(),
            request_id,
            session_id,
            idempotency_key,
            caller: AgentPrincipal { address, display_name: None },
            delegated_capability: None,
            request_kind,
            constraints: AgentExecutionConstraints {
                max_gas: 1_000_000,
                max_total_value: Amount(1_000_000),
                allowed_contracts: Vec::new(),
            },
            deadline_ms,
            parent_session_id: None,
        },
    )
}

} // verus!
