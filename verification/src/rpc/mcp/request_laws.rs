//! What the requests of tool calls say, in terms of their arguments.

use vstd::prelude::*;
use vstd::string::*;
use vstd::utf8::*;

use crate::primitives::hexadecimal::{
    hex_decoded, hex_decoded_32, hex_encode, hex_error_text, lemma_decode_encode,
    lemma_decoding_is_unique, HexError,
};
use crate::primitives::text::decimal;
use crate::primitives::{Blake3Digest, TimestampMs, TokenId};
use crate::rpc::agent::{AgentEnvelope, AgentRequestKind, UserIntent};
use crate::rpc::error::RpcError;
use crate::rpc::json::{member, member_from, text_of, JsonNumber, JsonValue};
use crate::rpc::mcp::registry::McpToolKind;
use crate::rpc::mcp::schema::{
    build_envelope_from_mcp, parse_digest, parse_token_id, parse_user_intent, token_outcome,
    translate_request_kind, McpToolCall, ToolArguments,
};

verus! {

/// Whether `v` is the first member of an object under the name `key`, or
/// nothing where there is none.
pub open spec fn has_member(value: JsonValue, key: Seq<char>, v: Option<JsonValue>) -> bool {
    match v {
        Some(x) => value is Object && exists|i: int| #[trigger]
            first_under(value->Object_0@, key, i) && value->Object_0@[i].1 == x,
        None => value is Object ==> forall|i: int|
            0 <= i < value->Object_0@.len() ==> (#[trigger] value->Object_0@[i]).0@ != key,
    }
}

/// Whether the member at `i` is the first under the name `key`.
pub open spec fn first_under(members: Seq<(String, JsonValue)>, key: Seq<char>, i: int) -> bool {
    &&& 0 <= i < members.len()
    &&& members[i].0@ == key
    &&& forall|j: int| 0 <= j < i ==> (#[trigger] members[j]).0@ != key
}

proof fn lemma_member_from(members: Seq<(String, JsonValue)>, key: Seq<char>, i: int)
    requires
        0 <= i <= members.len(),
        forall|j: int| 0 <= j < i ==> (#[trigger] members[j]).0@ != key,
    ensures
        match member_from(members, key, i) {
            Some(x) => exists|k: int| #[trigger] first_under(members, key, k) && members[k].1 == x,
            None => forall|k: int| 0 <= k < members.len() ==> (#[trigger] members[k]).0@ != key,
        },
    decreases members.len() - i,
{
    if i < members.len() {
        if members[i].0@ == key {
            assert(first_under(members, key, i));
        } else {
            lemma_member_from(members, key, i + 1);
        }
    }
}

/// There is one first member under a name.
proof fn lemma_has_member(value: JsonValue, key: Seq<char>)
    ensures
        has_member(value, key, member(value, key)),
        forall|v: Option<JsonValue>| #[trigger] has_member(value, key, v) ==> v == member(value, key),
{
    if value is Object {
        let members = value->Object_0@;
        lemma_member_from(members, key, 0);
        assert forall|v: Option<JsonValue>| #[trigger] has_member(value, key, v) implies v == member(
            value,
            key,
        ) by {
            if v is Some {
                let i = choose|i: int| #[trigger] first_under(members, key, i) && members[i].1 == v->Some_0;
                if member(value, key) is Some {
                    let k = choose|k: int| #[trigger]
                        first_under(members, key, k) && members[k].1 == member(value, key)->Some_0;
                    if i < k {
                        assert(members[i].0@ != key);
                    }
                    if k < i {
                        assert(members[k].0@ != key);
                    }
                } else {
                    assert(members[i].0@ != key);
                }
            } else if member(value, key) is Some {
                let k = choose|k: int| #[trigger]
                    first_under(members, key, k) && members[k].1 == member(value, key)->Some_0;
                assert(members[k].0@ != key);
            }
        }
    }
}

/// The text that names a token: "native", or the hexadecimal form of the
/// contract's address.
pub open spec fn token_name(t: TokenId) -> Seq<char> {
    match t {
        TokenId::Native => "native"@,
        TokenId::Contract(c) => hex_encode(c.0@),
    }
}

/// Whether an optional value denotes a token: the native one where it is no
/// text or the text "native", and else the contract whose bytes the text
/// spells.
pub open spec fn denotes_token(v: Option<JsonValue>, t: TokenId) -> bool {
    match v {
        Some(JsonValue::Text(text)) => if text@ == "native"@ {
            t is Native
        } else {
            t is Contract && hex_decoded(text@) == Ok::<Seq<u8>, HexError>(
                t->Contract_0.0@,
            )
        },
        _ => t is Native,
    }
}

/// Whether `v` is the number `n`.
pub open spec fn denotes_number(v: Option<JsonValue>, n: u64) -> bool {
    v == Some(JsonValue::Number(JsonNumber::Unsigned(n)))
}

/// Whether `v` is no whole number.
pub open spec fn no_number(v: Option<JsonValue>) -> bool {
    !(v is Some && v->Some_0 is Number && v->Some_0->Number_0 is Unsigned)
}

proof fn lemma_spelled(bytes: Seq<u8>)
    ensures
        hex_decoded(hex_encode(bytes)) == Ok::<Seq<u8>, HexError>(bytes),
        bytes.len() == 32 ==> hex_decoded_32(hex_encode(bytes)) == Ok::<
            Seq<u8>,
            HexError,
        >(bytes),
        bytes.len() == 32 ==> hex_encode(bytes) != "native"@,
{
    lemma_decode_encode(bytes);
    lemma_decoding_is_unique(hex_encode(bytes));
    reveal_strlit("native");
}

/// An accepted swap gives the token that the member "from_token" names for the
/// one that "to_token" names, in the amount of "amount" and with the slippage
/// of "max_slippage_bps", which is a hundred where it is missing and never
/// above ten thousand.
pub proof fn law_swaps_go_the_way_they_name(
    kind: &str,
    params: JsonValue,
    intent: UserIntent,
    from: Option<JsonValue>,
    to: Option<JsonValue>,
    amount: Option<JsonValue>,
    slippage: Option<JsonValue>,
)
    requires
        kind@ == "swap"@,
        call_ensures(parse_user_intent, (kind, &params), Ok(intent)),
        has_member(params, "from_token"@, from),
        has_member(params, "to_token"@, to),
        has_member(params, "amount"@, amount),
        has_member(params, "max_slippage_bps"@, slippage),
    ensures
        intent is Swap,
        denotes_token(from, intent->from_token),
        denotes_token(to, intent->to_token),
        denotes_number(amount, intent->Swap_amount.0),
        no_number(slippage) ==> intent->max_slippage_bps == 100,
        !no_number(slippage) ==> denotes_number(slippage, intent->max_slippage_bps as u64),
        intent->max_slippage_bps <= 10_000,
{
    reveal_strlit("swap");
    reveal_strlit("transfer");
    assert("swap"@.len() != "transfer"@.len());
    lemma_has_member(params, "from_token"@);
    lemma_has_member(params, "to_token"@);
    lemma_has_member(params, "amount"@);
    lemma_has_member(params, "max_slippage_bps"@);
}

/// An accepted transfer goes to the account that the member "to" names, of the
/// token that "token" names and in the amount of "amount".
pub proof fn law_transfers_go_where_they_name(
    kind: &str,
    params: JsonValue,
    intent: UserIntent,
    to: Option<JsonValue>,
    token: Option<JsonValue>,
    amount: Option<JsonValue>,
)
    requires
        kind@ == "transfer"@,
        call_ensures(parse_user_intent, (kind, &params), Ok(intent)),
        has_member(params, "to"@, to),
        has_member(params, "token"@, token),
        has_member(params, "amount"@, amount),
    ensures
        intent is Transfer,
        to is Some && to->Some_0 is Text && hex_decoded_32(to->Some_0->Text_0@) == Ok::<
            Seq<u8>,
            HexError,
        >(intent->to.0@),
        denotes_token(token, intent->token),
        denotes_number(amount, intent->Transfer_amount.0),
{
    lemma_has_member(params, "to"@);
    lemma_has_member(params, "token"@);
    lemma_has_member(params, "amount"@);
}

/// Whether an object holds the text `text` under the name `key`.
pub open spec fn holds_text(params: JsonValue, key: Seq<char>, text: Seq<char>) -> bool {
    exists|v: JsonValue| #[trigger]
        has_member(params, key, Some(v)) && v is Text && v->Text_0@ == text
}

/// Whether an object holds the number `n` under the name `key`.
pub open spec fn holds_number(params: JsonValue, key: Seq<char>, n: u64) -> bool {
    exists|v: JsonValue| #[trigger] has_member(params, key, Some(v)) && denotes_number(Some(v), n)
}

/// Whether parameters write down an intent.
pub open spec fn writes(params: JsonValue, kind: Seq<char>, intent: UserIntent) -> bool {
    match intent {
        UserIntent::Swap { from_token, to_token, amount, max_slippage_bps } => {
            &&& kind == "swap"@
            &&& holds_text(params, "from_token"@, token_name(from_token))
            &&& holds_text(params, "to_token"@, token_name(to_token))
            &&& holds_number(params, "amount"@, amount.0)
            &&& holds_number(params, "max_slippage_bps"@, max_slippage_bps as u64)
            &&& max_slippage_bps <= 10_000
        },
        UserIntent::Transfer { to, token, amount } => {
            &&& kind == "transfer"@
            &&& holds_text(params, "to"@, hex_encode(to.0@))
            &&& holds_text(params, "token"@, token_name(token))
            &&& holds_number(params, "amount"@, amount.0)
        },
    }
}

/// Whether two tokens are the same.
pub open spec fn equal_tokens(a: TokenId, b: TokenId) -> bool {
    match a {
        TokenId::Native => b is Native,
        TokenId::Contract(c) => b is Contract && b->Contract_0.0@ == c.0@,
    }
}

/// Whether two intents are the same.
pub open spec fn equal_intents(a: UserIntent, b: UserIntent) -> bool {
    match a {
        UserIntent::Swap { from_token, to_token, amount, max_slippage_bps } => {
            &&& b is Swap
            &&& equal_tokens(from_token, b->from_token)
            &&& equal_tokens(to_token, b->to_token)
            &&& b->Swap_amount.0 == amount.0
            &&& b->max_slippage_bps == max_slippage_bps
        },
        UserIntent::Transfer { to, token, amount } => {
            &&& b is Transfer
            &&& b->to.0@ == to.0@
            &&& equal_tokens(token, b->token)
            &&& b->Transfer_amount.0 == amount.0
        },
    }
}

proof fn lemma_token_read(params: JsonValue, key: Seq<char>, t: TokenId)
    requires
        holds_text(params, key, token_name(t)),
    ensures
        ({
            let outcome = token_outcome(
                text_of(member(params, key)),
                "invalid hex token: "@,
            );
            outcome is Ok && outcome->Ok_0 == t@
        }),
{
    lemma_has_member(params, key);
    let v = choose|v: JsonValue| #[trigger]
        has_member(params, key, Some(v)) && v is Text && v->Text_0@ == token_name(t);
    assert(member(params, key) == Some(v));
    if t is Contract {
        lemma_spelled(t->Contract_0.0@);
    }
}

/// An intent that is written down as parameters is read back as it is.
pub proof fn law_written_intents_are_read_back(
    kind: &str,
    params: JsonValue,
    intent: UserIntent,
    r: Result<UserIntent, RpcError>,
)
    requires
        writes(params, kind@, intent),
        call_ensures(parse_user_intent, (kind, &params), r),
    ensures
        r is Ok,
        equal_intents(intent, r->Ok_0),
{
    reveal_strlit("swap");
    reveal_strlit("transfer");
    assert("swap"@.len() != "transfer"@.len());
    match intent {
        UserIntent::Swap { from_token, to_token, amount, max_slippage_bps } => {
            lemma_token_read(params, "from_token"@, from_token);
            lemma_token_read(params, "to_token"@, to_token);
            lemma_has_member(params, "amount"@);
            lemma_has_member(params, "max_slippage_bps"@);
        },
        UserIntent::Transfer { to, token, amount } => {
            lemma_spelled(to.0@);
            lemma_token_read(params, "token"@, token);
            lemma_has_member(params, "to"@);
            lemma_has_member(params, "amount"@);
        },
    }
}

/// Whether a text spells 32 bytes.
pub open spec fn spells_32(text: Seq<char>, bytes: Seq<u8>) -> bool {
    bytes.len() == 32 && hex_decoded(text) == Ok::<Seq<u8>, HexError>(bytes)
}

/// Whether a text spells 32 bytes, whichever they are.
pub open spec fn spells_some_32(text: Seq<char>) -> bool {
    hex_decoded(text) is Ok && hex_decoded(text)->Ok_0.len() == 32
}

proof fn lemma_exact_spelling(text: Seq<char>)
    ensures
        hex_decoded_32(text) is Ok <==> spells_some_32(text),
        hex_decoded_32(text) is Ok ==> hex_decoded_32(text) == hex_decoded(text),
{
}

/// A balance is asked for the account that the argument spells.
pub proof fn law_balance_queries_name_their_account(
    arguments: ToolArguments,
    r: Result<AgentRequestKind, RpcError>,
)
    requires
        call_ensures(translate_request_kind, (McpToolKind::QueryBalance, &arguments), r),
    ensures
        r is Ok <==> arguments.query_balance is Ok && spells_some_32(
            arguments.query_balance->Ok_0.account@,
        ),
        r is Ok ==> {
            &&& r->Ok_0 is Query && r->Ok_0->query_kind is Balance
            &&& spells_32(
                arguments.query_balance->Ok_0.account@,
                r->Ok_0->query_kind->account.0@,
            )
        },
        r is Err ==> r->Err_0 is BadRequest,
{
    if arguments.query_balance is Ok {
        lemma_exact_spelling(arguments.query_balance->Ok_0.account@);
    }
}

/// The status of an intent is asked for the digest that the argument spells.
pub proof fn law_intent_queries_name_their_digest(
    arguments: ToolArguments,
    r: Result<AgentRequestKind, RpcError>,
)
    requires
        call_ensures(translate_request_kind, (McpToolKind::QueryIntent, &arguments), r),
    ensures
        r is Ok <==> arguments.query_intent is Ok && spells_some_32(
            arguments.query_intent->Ok_0.digest@,
        ),
        r is Ok ==> {
            &&& r->Ok_0 is Query && r->Ok_0->query_kind is IntentStatus
            &&& spells_32(arguments.query_intent->Ok_0.digest@, r->Ok_0->query_kind->digest.0@)
        },
        r is Err ==> r->Err_0 is BadRequest,
{
}

/// The state of a contract is asked for the contract that the one argument
/// spells and the resource that the other names.
pub proof fn law_contract_queries_name_their_contract(
    arguments: ToolArguments,
    r: Result<AgentRequestKind, RpcError>,
)
    requires
        call_ensures(translate_request_kind, (McpToolKind::QueryContract, &arguments), r),
    ensures
        r is Ok <==> arguments.query_contract is Ok && spells_some_32(
            arguments.query_contract->Ok_0.contract@,
        ),
        r is Ok ==> {
            &&& r->Ok_0 is Query && r->Ok_0->query_kind is ContractState
            &&& spells_32(
                arguments.query_contract->Ok_0.contract@,
                r->Ok_0->query_kind->contract.0@,
            )
            &&& r->Ok_0->query_kind->resource@ == arguments.query_contract->Ok_0.resource@
        },
        r is Err ==> r->Err_0 is BadRequest,
{
}

/// A plan is executed by the hash that the one argument spells, and on the
/// confirmation that the other spells.
pub proof fn law_executions_name_their_plan(
    arguments: ToolArguments,
    r: Result<AgentRequestKind, RpcError>,
)
    requires
        call_ensures(translate_request_kind, (McpToolKind::ExecutePlan, &arguments), r),
    ensures
        r is Ok <==> arguments.execute_plan is Ok && spells_some_32(
            arguments.execute_plan->Ok_0.plan_hash@,
        ) && spells_some_32(arguments.execute_plan->Ok_0.confirmation_ref@),
        r is Ok ==> {
            &&& r->Ok_0 is ExecutePlan
            &&& spells_32(arguments.execute_plan->Ok_0.plan_hash@, r->Ok_0->plan_hash.0@)
            &&& spells_32(
                arguments.execute_plan->Ok_0.confirmation_ref@,
                r->Ok_0->confirmation_ref.0@,
            )
        },
        r is Err ==> r->Err_0 is BadRequest,
{
}

/// A simulation is of the intent that the arguments write down.
pub proof fn law_simulations_are_of_what_is_written(
    arguments: ToolArguments,
    intent: UserIntent,
    r: Result<AgentRequestKind, RpcError>,
)
    requires
        call_ensures(translate_request_kind, (McpToolKind::SimulateIntent, &arguments), r),
        arguments.simulate_intent is Ok,
        writes(
            arguments.simulate_intent->Ok_0.params,
            arguments.simulate_intent->Ok_0.intent_type@,
            intent,
        ),
    ensures
        r is Ok,
        r->Ok_0 is SimulateIntent,
        equal_intents(intent, r->Ok_0->intent),
{
    let params = arguments.simulate_intent->Ok_0.params;
    reveal_strlit("swap");
    reveal_strlit("transfer");
    assert("swap"@.len() != "transfer"@.len());
    match intent {
        UserIntent::Swap { from_token, to_token, amount, max_slippage_bps } => {
            lemma_token_read(params, "from_token"@, from_token);
            lemma_token_read(params, "to_token"@, to_token);
            lemma_has_member(params, "amount"@);
            lemma_has_member(params, "max_slippage_bps"@);
        },
        UserIntent::Transfer { to, token, amount } => {
            lemma_spelled(to.0@);
            lemma_token_read(params, "token"@, token);
            lemma_has_member(params, "to"@);
            lemma_has_member(params, "amount"@);
        },
    }
}

/// A simulation and the reading of the intent on its own agree.
pub proof fn law_simulations_read_the_intent(
    arguments: ToolArguments,
    kind: &str,
    parsed: Result<UserIntent, RpcError>,
    r: Result<AgentRequestKind, RpcError>,
)
    requires
        arguments.simulate_intent is Ok,
        kind@ == arguments.simulate_intent->Ok_0.intent_type@,
        call_ensures(parse_user_intent, (kind, &arguments.simulate_intent->Ok_0.params), parsed),
        call_ensures(translate_request_kind, (McpToolKind::SimulateIntent, &arguments), r),
    ensures
        r is Ok <==> parsed is Ok,
        r is Ok ==> r->Ok_0 is SimulateIntent && equal_intents(parsed->Ok_0, r->Ok_0->intent),
{
}

/// An intent of no known kind, or one whose amount is missing, is refused.
pub proof fn law_incomplete_intents_are_refused(
    kind: &str,
    params: JsonValue,
    amount: Option<JsonValue>,
    r: Result<UserIntent, RpcError>,
)
    requires
        call_ensures(parse_user_intent, (kind, &params), r),
        has_member(params, "amount"@, amount),
        no_number(amount) || (kind@ != "swap"@ && kind@ != "transfer"@),
    ensures
        r is Err,
        r->Err_0 is BadRequest,
{
    lemma_has_member(params, "amount"@);
}

/// The audit trail is searched by what the filter names, for what the
/// identifier spells.
pub proof fn law_provenance_queries_name_their_filter(
    arguments: ToolArguments,
    r: Result<AgentRequestKind, RpcError>,
)
    requires
        call_ensures(translate_request_kind, (McpToolKind::QueryProvenance, &arguments), r),
        arguments.query_provenance is Ok,
    ensures
        ({
            let by = arguments.query_provenance->Ok_0.filter@;
            let id = arguments.query_provenance->Ok_0.id@;
            &&& by == "agent"@ ==> (r is Ok <==> spells_some_32(id)) && (r is Ok
                ==> r->Ok_0 is QueryProvenance && r->Ok_0->filter is ByAgent && spells_32(
                id,
                r->Ok_0->filter->agent_id.0@,
            ))
            &&& by == "session"@ ==> (r is Ok <==> spells_some_32(id)) && (r is Ok
                ==> r->Ok_0 is QueryProvenance && r->Ok_0->filter is BySession && spells_32(
                id,
                r->Ok_0->filter->session_id.0@,
            ))
            &&& by == "transaction"@ ==> (r is Ok <==> spells_some_32(id)) && (r is Ok
                ==> r->Ok_0 is QueryProvenance && r->Ok_0->filter is ByTransaction && spells_32(
                id,
                r->Ok_0->filter->tx_hash.0@,
            ))
            &&& by == "capability"@ ==> (r is Ok <==> id == "native"@ || spells_some_32(id)) && (
            r is Ok ==> r->Ok_0 is QueryProvenance && r->Ok_0->filter is ByCapability && if id
                == "native"@ {
                r->Ok_0->filter->token_id is Native
            } else {
                r->Ok_0->filter->token_id is Contract && spells_32(
                    id,
                    r->Ok_0->filter->token_id->Contract_0.0@,
                )
            })
            &&& r is Ok ==> by == "agent"@ || by == "session"@ || by == "transaction"@ || by
                == "capability"@
            &&& r is Err ==> r->Err_0 is BadRequest
        }),
{
    reveal_strlit("agent");
    reveal_strlit("session");
    reveal_strlit("capability");
    reveal_strlit("transaction");
    assert("agent"@.len() == 5 && "session"@.len() == 7 && "capability"@.len() == 10
        && "transaction"@.len() == 11);
    lemma_exact_spelling(arguments.query_provenance->Ok_0.id@);
}

/// A token is read from the text that names it, and is the native one where
/// there is none.
pub proof fn law_tokens_are_read_by_their_names(
    value: Option<&JsonValue>,
    r: Result<TokenId, RpcError>,
)
    requires
        call_ensures(parse_token_id, (value,), r),
    ensures
        r is Ok ==> denotes_token(
            match value {
                Some(v) => Some(*v),
                None => None,
            },
            r->Ok_0,
        ),
        value is None ==> r is Ok,
        value is Some && !(*value->Some_0 is Text) ==> r is Ok,
        value is Some && *value->Some_0 is Text ==> (r is Ok <==> value->Some_0->Text_0@ == "native"@
            || spells_some_32(value->Some_0->Text_0@)),
        r is Err ==> r->Err_0 is BadRequest,
{
}

/// A digest is read from the 32 bytes that its text spells.
pub proof fn law_digests_are_read_by_their_bytes(text: &str, r: Result<Blake3Digest, RpcError>)
    requires
        call_ensures(parse_digest, (text,), r),
    ensures
        r is Ok <==> spells_some_32(text@),
        r is Ok ==> spells_32(text@, r->Ok_0.0@),
        r is Err ==> r->Err_0 is BadRequest,
{
}

/// An envelope carries the request and the keys that it is made for, in the
/// name of the account that the call spells, within fixed limits and until the
/// deadline.
pub proof fn law_envelopes_carry_the_call(
    call: McpToolCall,
    request_kind: AgentRequestKind,
    session_id: Blake3Digest,
    request_id: Blake3Digest,
    idempotency_key: Blake3Digest,
    deadline_ms: TimestampMs,
    r: Result<AgentEnvelope, RpcError>,
)
    requires
        call_ensures(
            build_envelope_from_mcp,
            (&call, request_kind, session_id, request_id, idempotency_key, deadline_ms),
            r,
        ),
    ensures
        r is Ok <==> spells_some_32(call.caller@),
        r is Ok ==> {
            let envelope = r->Ok_0;
            &&& spells_32(call.caller@, envelope.caller.address.0@)
            &&& envelope.caller.display_name is None
            &&& envelope.protocol_kind is Mcp
            &&& envelope.protocol_version@ == "mcp/2025-11-05"@
            &&& envelope.session_id == session_id
            &&& envelope.request_id == request_id
            &&& envelope.idempotency_key == idempotency_key
            &&& envelope.deadline_ms == deadline_ms
            &&& envelope.request_kind == request_kind
            &&& envelope.constraints.max_gas == 1_000_000
            &&& envelope.constraints.max_total_value.0 == 1_000_000
            &&& envelope.constraints.allowed_contracts@.len() == 0
            &&& envelope.delegated_capability is None
            &&& envelope.parent_session_id is None
        },
{
    lemma_exact_spelling(call.caller@);
}

/// Whether a request was refused for this reason.
pub open spec fn is_refused<T>(r: Result<T, RpcError>, reason: Seq<char>) -> bool {
    r is Err && r->Err_0 is BadRequest && r->Err_0->BadRequest_0@ == reason
}

/// Arguments that cannot be read are refused under the name of their tool.
pub proof fn law_unreadable_arguments_are_told(
    tool: McpToolKind,
    arguments: ToolArguments,
    r: Result<AgentRequestKind, RpcError>,
)
    requires
        call_ensures(translate_request_kind, (tool, &arguments), r),
    ensures
        tool is QueryBalance && arguments.query_balance is Err ==> is_refused(
            r,
            "invalid "@ + "query_balance"@ + " args: "@ + arguments.query_balance->Err_0@,
        ),
        tool is QueryIntent && arguments.query_intent is Err ==> is_refused(
            r,
            "invalid "@ + "query_intent"@ + " args: "@ + arguments.query_intent->Err_0@,
        ),
        tool is QueryContract && arguments.query_contract is Err ==> is_refused(
            r,
            "invalid "@ + "query_contract"@ + " args: "@ + arguments.query_contract->Err_0@,
        ),
        tool is SimulateIntent && arguments.simulate_intent is Err ==> is_refused(
            r,
            "invalid "@ + "simulate_intent"@ + " args: "@ + arguments.simulate_intent->Err_0@,
        ),
        tool is ExecutePlan && arguments.execute_plan is Err ==> is_refused(
            r,
            "invalid "@ + "execute_plan"@ + " args: "@ + arguments.execute_plan->Err_0@,
        ),
        tool is QueryProvenance && arguments.query_provenance is Err ==> is_refused(
            r,
            "invalid "@ + "query_provenance"@ + " args: "@ + arguments.query_provenance->Err_0@,
        ),
        tool is QueryProvenance && arguments.query_provenance is Ok && ({
            let filter = arguments.query_provenance->Ok_0.filter@;
            &&& filter != "agent"@ && filter != "session"@
            &&& filter != "capability"@ && filter != "transaction"@
        }) ==> is_refused(
            r,
            "unknown provenance filter: "@ + arguments.query_provenance->Ok_0.filter@,
        ),
{
}

/// A kind of intent that is not supported is named in the refusal, and so is
/// the length of what is no digest.
pub proof fn law_unsupported_texts_are_told(
    intent_type: &str,
    params: JsonValue,
    r: Result<UserIntent, RpcError>,
    text: &str,
    d: Result<Blake3Digest, RpcError>,
)
    requires
        call_ensures(parse_user_intent, (intent_type, &params), r),
        call_ensures(parse_digest, (text,), d),
    ensures
        intent_type@ != "transfer"@ && intent_type@ != "swap"@ ==> is_refused(
            r,
            "unsupported intent_type: "@ + intent_type@ + " (supported: transfer, swap)"@,
        ),
        hex_decoded(text@) is Err ==> is_refused(
            d,
            "invalid hex digest: "@ + hex_error_text(hex_decoded(text@)->Err_0),
        ),
        hex_decoded(text@) is Ok && hex_decoded(text@)->Ok_0.len() != 32 ==> is_refused(
            d,
            "digest must be 32 bytes, got "@ + decimal(hex_decoded(text@)->Ok_0.len()),
        ),
{
}

} // verus!
