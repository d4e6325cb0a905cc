//! What a tool call leads to, in terms of the call and of those who answer it.

use vstd::prelude::*;
use vstd::string::*;
use vstd::utf8::*;

use crate::primitives::digest::blake3_digest;
use crate::primitives::hexadecimal::{hex_decoded, hex_encode, HexError};
use crate::primitives::text::signed_decimal;
use crate::primitives::{Blake3Digest, TimestampMs};
use crate::rpc::agent::{AgentEnvelope, AgentRequestKind, AgentRequestView, DispatchOutcome};
use crate::rpc::error::{IntentError, RpcError, RpcErrorView, RpcResult};
use crate::rpc::json::{text_of, JsonNumber, JsonValue};
use crate::rpc::mcp::error_map::{map_intent_error, map_rpc_error, McpErrorCode};
use crate::rpc::mcp::handler::{
    answers_call, arguments_read, authenticated_reply, bound_identity_outcome, bytes_read,
    compute_args_hash, dispatch_reply, dispatched, envelope_for_call, handle_tool_call,
    identity_outcome, is_digest_array, keys_derived, outcome_to_result, replies_to_dispatch,
    replies_to_outcome, reply_to_reading, session_name_of, signature_checked,
    signed_identity_outcome, verify_caller_identity, SessionKeys,
};
use crate::rpc::mcp::registry::{
    is_forbidden_tool, law_registered_tools_are_not_forbidden, law_tools_are_found_by_name,
    lookup_tool, tool_name_of, tool_named, ForbiddenToolKind, McpToolKind,
};
use crate::rpc::mcp::request_laws::spells_32;
use crate::rpc::mcp::schema::{
    envelope_of, request_outcome, translate_request_kind, McpToolCall, McpToolResult, ToolArguments,
};
use crate::rpc::rest::address_outcome;
use crate::rpc::rest::backends::DispatchBackend;
use crate::rpc::rest::mcp::{
    admit_call, answer_admitted, call_deadline, call_tool, list_tools, McpToolDescriptor,
};

verus! {

/// Whether a tool has a name.
pub open spec fn is_called(kind: McpToolKind, name: Seq<char>) -> bool {
    match kind {
        McpToolKind::QueryBalance => name == "query_balance"@,
        McpToolKind::QueryIntent => name == "query_intent"@,
        McpToolKind::QueryContract => name == "query_contract"@,
        McpToolKind::SimulateIntent => name == "simulate_intent"@,
        McpToolKind::ExecutePlan => name == "execute_plan"@,
        McpToolKind::QueryProvenance => name == "query_provenance"@,
    }
}

/// Whether a name is that of something that must never be a tool.
pub open spec fn is_forbidden(name: Seq<char>) -> bool {
    ||| name == "raw_move_payload"@
    ||| name == "raw_payload"@
    ||| name == "direct_broadcast"@
    ||| name == "broadcast_raw"@
    ||| name == "admin_override"@
    ||| name == "sudo"@
}

/// A tool is found by its own name and by no other, and only the execution of
/// a plan changes anything or may have to be confirmed.
pub proof fn law_tools_are_known_by_name(
    kind: McpToolKind,
    name: &'static str,
    mutating: bool,
    confirmed: bool,
    asked: &str,
    found: Option<McpToolKind>,
)
    requires
        call_ensures(McpToolKind::tool_name, (kind,), name),
        call_ensures(McpToolKind::is_mutating, (kind,), mutating),
        call_ensures(McpToolKind::may_require_confirmation, (kind,), confirmed),
        call_ensures(lookup_tool, (asked,), found),
    ensures
        is_called(kind, name@),
        mutating <==> kind is ExecutePlan,
        confirmed <==> kind is ExecutePlan,
        found is Some ==> is_called(found->Some_0, asked@),
        is_called(kind, asked@) ==> found == Some(kind),
        found is None ==> !is_called(kind, asked@),
{
    law_tools_are_found_by_name(kind);
    if found is Some {
        let k = choose|k: McpToolKind| tool_name_of(k) == asked@;
        law_tools_are_found_by_name(k);
    }
}

/// Something forbidden is known by each of its names and by no other.
pub proof fn law_forbidden_tools_are_known_by_name(name: &str, found: Option<ForbiddenToolKind>)
    requires
        call_ensures(is_forbidden_tool, (name,), found),
    ensures
        found is Some <==> is_forbidden(name@),
        found is Some && found->Some_0 is RawMovePayload ==> name@ == "raw_move_payload"@ || name@
            == "raw_payload"@,
        found is Some && found->Some_0 is DirectBroadcast ==> name@ == "direct_broadcast"@ || name@
            == "broadcast_raw"@,
        found is Some && found->Some_0 is AdminOverride ==> name@ == "admin_override"@ || name@
            == "sudo"@,
{
}

/// The listing shows every tool once, under its name.
pub proof fn law_every_tool_is_listed(r: Vec<McpToolDescriptor>)
    requires
        call_ensures(list_tools, (), r),
    ensures
        r@.len() == 6,
        is_called(McpToolKind::QueryBalance, r@[0].name@),
        is_called(McpToolKind::QueryIntent, r@[1].name@),
        is_called(McpToolKind::QueryContract, r@[2].name@),
        is_called(McpToolKind::SimulateIntent, r@[3].name@),
        is_called(McpToolKind::ExecutePlan, r@[4].name@),
        is_called(McpToolKind::QueryProvenance, r@[5].name@),
        forall|i: int| 0 <= i < 6 ==> ((#[trigger] r@[i]).mutating <==> i == 4),
        forall|i: int| 0 <= i < 6 ==> ((#[trigger] r@[i]).may_require_confirmation <==> i == 4),
{
}

/// Whether the caller of `call` was found to be who they claim to be: the key
/// that they sent is that of their address, and their signature over address,
/// tool and arguments was found to be valid under it.
pub open spec fn caller_proved<
    K: Fn(&Vec<u8>) -> Result<Vec<u8>, String>,
    S: Fn(&Vec<u8>) -> Result<Vec<u8>, String>,
    V: Fn(&Vec<u8>, &str, &Vec<u8>, &Vec<u8>) -> bool,
>(call: McpToolCall, read_key: K, read_signature: S, verify: V) -> bool {
    exists|
        sent_key: Vec<u8>,
        key: Vec<u8>,
        sent_signature: Vec<u8>,
        signature: Vec<u8>,
        domain: &str,
        payload: Vec<u8>,
        k: Vec<u8>,
        s: Vec<u8>,
    |
        {
            &&& hex_decoded(call.caller_public_key@) == Ok::<Seq<u8>, HexError>(sent_key@)
            &&& #[trigger] read_key.ensures((&sent_key,), Ok(key))
            &&& spells_32(
                call.caller@,
                blake3_digest("nexus::account::address::v1".spec_bytes() + key@),
            )
            &&& hex_decoded(call.caller_signature@) == Ok::<Seq<u8>, HexError>(sent_signature@)
            &&& #[trigger] read_signature.ensures((&sent_signature,), Ok(signature))
            &&& #[trigger] verify.ensures((&k, domain, &payload, &s), true)
            &&& k@ == key@
            &&& s@ == signature@
            &&& domain@ == "nexus::mcp::caller_auth::v1"@
            &&& payload@ == blake3_digest("nexus::account::address::v1".spec_bytes() + key@)
                + encode_utf8(call.tool@) + call.arguments@
        }
}

proof fn lemma_identity_proved<
    K: Fn(&Vec<u8>) -> Result<Vec<u8>, String>,
    S: Fn(&Vec<u8>) -> Result<Vec<u8>, String>,
    V: Fn(&Vec<u8>, &str, &Vec<u8>, &Vec<u8>) -> bool,
>(call: McpToolCall, read_key: K, read_signature: S, verify: V)
    requires
        identity_outcome(call, read_key, read_signature, verify, Ok(())),
    ensures
        caller_proved(call, read_key, read_signature, verify),
{
    let key_bytes = hex_decoded(call.caller_public_key@)->Ok_0;
    let key = choose|key: Result<Seq<u8>, Seq<char>>|
        {
            &&& #[trigger] bytes_read(read_key, key_bytes, key)
            &&& key is Ok
            &&& bound_identity_outcome(call, key->Ok_0, read_signature, verify, Ok(()))
        };
    let claimed = hex_decoded(call.caller@)->Ok_0;
    let (sent_key, key_out) = choose|arg: Vec<u8>, out: Result<Vec<u8>, String>|
        {
            &&& #[trigger] read_key.ensures((&arg,), out)
            &&& arg@ == key_bytes
            &&& key == match out {
                Ok(k) => Ok::<Seq<u8>, Seq<char>>(k@),
                Err(m) => Err(m@),
            }
        };
    let key_vec = key_out->Ok_0;
    assert(key_out == Ok::<Vec<u8>, String>(key_vec));
    assert(read_key.ensures((&sent_key,), Ok(key_vec)));
    let signature_bytes = hex_decoded(call.caller_signature@)->Ok_0;
    let payload = claimed + encode_utf8(call.tool@) + call.arguments@;
    assert(signed_identity_outcome(call, key->Ok_0, claimed, read_signature, verify, Ok(())));
    let signature = choose|signature: Result<Seq<u8>, Seq<char>>|
        {
            &&& #[trigger] bytes_read(read_signature, signature_bytes, signature)
            &&& signature is Ok
            &&& signature_checked(verify, key->Ok_0, payload, signature->Ok_0, true)
        };
    let (sent_signature, signature_out) = choose|arg: Vec<u8>, out: Result<Vec<u8>, String>|
        {
            &&& #[trigger] read_signature.ensures((&arg,), out)
            &&& arg@ == signature_bytes
            &&& signature == match out {
                Ok(k) => Ok::<Seq<u8>, Seq<char>>(k@),
                Err(m) => Err(m@),
            }
        };
    let signature_vec = signature_out->Ok_0;
    assert(signature_out == Ok::<Vec<u8>, String>(signature_vec));
    assert(read_signature.ensures((&sent_signature,), Ok(signature_vec)));
    let (k, domain, p, s) = choose|k: Vec<u8>, domain: &str, p: Vec<u8>, s: Vec<u8>|
        {
            &&& #[trigger] verify.ensures((&k, domain, &p, &s), true)
            &&& k@ == key->Ok_0
            &&& domain@ == "nexus::mcp::caller_auth::v1"@
            &&& p@ == payload
            &&& s@ == signature->Ok_0
        };
    assert(verify.ensures((&k, domain, &p, &s), true));
}

/// Whoever is authenticated proved that the claimed address is theirs, by a
/// signature over this very call.
pub proof fn law_authenticated_callers_proved_themselves<
    K: Fn(&Vec<u8>) -> Result<Vec<u8>, String>,
    S: Fn(&Vec<u8>) -> Result<Vec<u8>, String>,
    V: Fn(&Vec<u8>, &str, &Vec<u8>, &Vec<u8>) -> bool,
>(call: McpToolCall, read_key: &K, read_signature: &S, verify: &V, r: Result<(), String>)
    requires
        call_ensures(
            verify_caller_identity::<K, S, V>,
            (&call, read_key, read_signature, verify),
            r,
        ),
    ensures
        r is Ok ==> caller_proved(call, *read_key, *read_signature, *verify),
{
    if r is Ok {
        lemma_identity_proved(call, *read_key, *read_signature, *verify);
    }
}

/// Whether the readers take the caller's key for `key` and the signature for
/// `signature`, the key is that of the claimed address, and every check of the
/// signature over this call gives `valid`.
pub open spec fn credentials_read<
    K: Fn(&Vec<u8>) -> Result<Vec<u8>, String>,
    S: Fn(&Vec<u8>) -> Result<Vec<u8>, String>,
    V: Fn(&Vec<u8>, &str, &Vec<u8>, &Vec<u8>) -> bool,
>(
    call: McpToolCall,
    read_key: K,
    read_signature: S,
    verify: V,
    key: Seq<u8>,
    signature: Seq<u8>,
    valid: bool,
) -> bool {
    &&& hex_decoded(call.caller_public_key@) is Ok
    &&& hex_decoded(call.caller_signature@) is Ok
    &&& forall|arg: Vec<u8>, out: Result<Vec<u8>, String>| #[trigger]
        read_key.ensures((&arg,), out) && arg@ == hex_decoded(call.caller_public_key@)->Ok_0
            ==> out is Ok && out->Ok_0@ == key
    &&& forall|arg: Vec<u8>, out: Result<Vec<u8>, String>| #[trigger]
        read_signature.ensures((&arg,), out) && arg@ == hex_decoded(call.caller_signature@)->Ok_0
            ==> out is Ok && out->Ok_0@ == signature
    &&& spells_32(
        call.caller@,
        blake3_digest("nexus::account::address::v1".spec_bytes() + key),
    )
    &&& forall|k: Vec<u8>, domain: &str, p: Vec<u8>, s: Vec<u8>, out: bool| #[trigger]
        verify.ensures((&k, domain, &p, &s), out) && k@ == key && s@ == signature && domain@
            == "nexus::mcp::caller_auth::v1"@ && p@ == blake3_digest(
            "nexus::account::address::v1".spec_bytes() + key,
        ) + encode_utf8(call.tool@) + call.arguments@ ==> out == valid
}

proof fn lemma_signature_decides<
    K: Fn(&Vec<u8>) -> Result<Vec<u8>, String>,
    S: Fn(&Vec<u8>) -> Result<Vec<u8>, String>,
    V: Fn(&Vec<u8>, &str, &Vec<u8>, &Vec<u8>) -> bool,
>(
    call: McpToolCall,
    read_key: K,
    read_signature: S,
    verify: V,
    key: Seq<u8>,
    signature: Seq<u8>,
    valid: bool,
    told: Result<(), Seq<char>>,
)
    requires
        identity_outcome(call, read_key, read_signature, verify, told),
        credentials_read(call, read_key, read_signature, verify, key, signature, valid),
    ensures
        told is Ok <==> valid,
{
    let key_bytes = hex_decoded(call.caller_public_key@)->Ok_0;
    let seen = choose|seen: Result<Seq<u8>, Seq<char>>|
        {
            &&& #[trigger] bytes_read(read_key, key_bytes, seen)
            &&& match seen {
                Err(m) => told is Err,
                Ok(k) => bound_identity_outcome(call, k, read_signature, verify, told),
            }
        };
    assert(seen == Ok::<Seq<u8>, Seq<char>>(key));
    let claimed = hex_decoded(call.caller@)->Ok_0;
    assert(signed_identity_outcome(call, key, claimed, read_signature, verify, told));
    let signature_bytes = hex_decoded(call.caller_signature@)->Ok_0;
    let payload = claimed + encode_utf8(call.tool@) + call.arguments@;
    let read = choose|read: Result<Seq<u8>, Seq<char>>|
        {
            &&& #[trigger] bytes_read(read_signature, signature_bytes, read)
            &&& match read {
                Err(m) => told is Err,
                Ok(s) => {
                    ||| signature_checked(verify, key, payload, s, true) && told is Ok
                    ||| signature_checked(verify, key, payload, s, false) && told is Err
                },
            }
        };
    assert(read == Ok::<Seq<u8>, Seq<char>>(signature));
}

/// Whoever sends the key of their address and a valid signature over the call
/// is authenticated, and whoever sends one that is not valid is not.
pub proof fn law_signatures_decide_on_the_caller<
    K: Fn(&Vec<u8>) -> Result<Vec<u8>, String>,
    S: Fn(&Vec<u8>) -> Result<Vec<u8>, String>,
    V: Fn(&Vec<u8>, &str, &Vec<u8>, &Vec<u8>) -> bool,
>(
    call: McpToolCall,
    read_key: &K,
    read_signature: &S,
    verify: &V,
    key: Seq<u8>,
    signature: Seq<u8>,
    valid: bool,
    r: Result<(), String>,
)
    requires
        call_ensures(
            verify_caller_identity::<K, S, V>,
            (&call, read_key, read_signature, verify),
            r,
        ),
        credentials_read(call, *read_key, *read_signature, *verify, key, signature, valid),
    ensures
        r is Ok <==> valid,
{
    lemma_signature_decides(
        call,
        *read_key,
        *read_signature,
        *verify,
        key,
        signature,
        valid,
        match r {
            Ok(()) => Ok(()),
            Err(m) => Err(m@),
        },
    );
}

/// Whether `keys` were derived for a call: from the name of its session, which
/// is "ephemeral" where it has none, its number, its tool and the hash of its
/// arguments.
pub open spec fn keyed<D: Fn(&str, u64, &str, &Blake3Digest) -> SessionKeys>(
    derive: D,
    call: McpToolCall,
    call_index: u64,
    keys: SessionKeys,
) -> bool {
    exists|session: &str, tool: &str, hash: Blake3Digest|
        {
            &&& #[trigger] derive.ensures((session, call_index, tool, &hash), keys)
            &&& call.mcp_session_id is Some ==> session@ == call.mcp_session_id->Some_0@
            &&& call.mcp_session_id is None ==> session@ == "ephemeral"@
            &&& tool@ == call.tool@
            &&& hash.0@ == blake3_digest(call.arguments@)
        }
}

/// Whether the engine was handed, and answered with `outcome`, the request
/// that the call makes: what the arguments are read as makes the request, the
/// envelope bears it in the name of the caller, with the keys of the call and
/// its deadline.
pub open spec fn call_dispatched<
    R: Fn(&Vec<u8>) -> ToolArguments,
    D: Fn(&str, u64, &str, &Blake3Digest) -> SessionKeys,
    B: DispatchBackend + ?Sized,
>(
    call: McpToolCall,
    call_index: u64,
    deadline_ms: TimestampMs,
    read_arguments: R,
    derive: D,
    dispatch: &B,
    outcome: Result<DispatchOutcome, IntentError>,
) -> bool {
    exists|
        kind: McpToolKind,
        text: Vec<u8>,
        arguments: ToolArguments,
        envelope: AgentEnvelope,
        keys: SessionKeys,
    |
        {
            &&& is_called(kind, call.tool@)
            &&& #[trigger] read_arguments.ensures((&text,), arguments)
            &&& text@ == call.arguments@
            &&& #[trigger] request_made(kind, arguments, envelope)
            &&& #[trigger] keyed(derive, call, call_index, keys)
            &&& envelope.session_id == keys.session_id
            &&& envelope.request_id == keys.request_id
            &&& envelope.idempotency_key == keys.idempotency_key
            &&& envelope.deadline_ms == deadline_ms
            &&& spells_32(call.caller@, envelope.caller.address.0@)
            &&& call_ensures(B::dispatch, (dispatch, &envelope), outcome)
        }
}

/// Whether an envelope bears the request that the arguments of a tool make.
pub open spec fn request_made(
    kind: McpToolKind,
    arguments: ToolArguments,
    envelope: AgentEnvelope,
) -> bool {
    request_outcome(kind, arguments) == Ok::<AgentRequestView, RpcErrorView>(envelope.request_kind@)
}

/// A call that succeeds was made by an authenticated caller, of a registered
/// tool that is not forbidden, and the reply is what the engine answered to
/// the request that the signed arguments make.
pub proof fn law_successful_calls_were_carried_out<
    K: Fn(&Vec<u8>) -> Result<Vec<u8>, String>,
    S: Fn(&Vec<u8>) -> Result<Vec<u8>, String>,
    V: Fn(&Vec<u8>, &str, &Vec<u8>, &Vec<u8>) -> bool,
    R: Fn(&Vec<u8>) -> ToolArguments,
    D: Fn(&str, u64, &str, &Blake3Digest) -> SessionKeys,
    B: DispatchBackend + ?Sized,
>(
    call: McpToolCall,
    call_index: u64,
    deadline_ms: TimestampMs,
    read_key: &K,
    read_signature: &S,
    verify: &V,
    read_arguments: &R,
    derive: &D,
    dispatch: &B,
    r: McpToolResult,
)
    requires
        call_ensures(
            handle_tool_call::<K, S, V, R, D, B>,
            (
                &call,
                call_index,
                deadline_ms,
                read_key,
                read_signature,
                verify,
                read_arguments,
                derive,
                dispatch,
            ),
            r,
        ),
        r.success,
    ensures
        caller_proved(call, *read_key, *read_signature, *verify),
        !is_forbidden(call.tool@),
        exists|outcome: DispatchOutcome|
            {
                &&& #[trigger] told_as(r, outcome)
                &&& call_dispatched(
                    call,
                    call_index,
                    deadline_ms,
                    *read_arguments,
                    *derive,
                    dispatch,
                    Ok(outcome),
                )
            },
{
    let identity = choose|identity: Result<(), Seq<char>>|
        {
            &&& #[trigger] identity_outcome(call, *read_key, *read_signature, *verify, identity)
            &&& match identity {
                Err(m) => r.failed_with(m),
                Ok(()) => authenticated_reply(
                    call,
                    call_index,
                    deadline_ms,
                    *read_arguments,
                    *derive,
                    dispatch,
                    r,
                ),
            }
        };
    assert(identity == Ok::<(), Seq<char>>(()));
    lemma_identity_proved(call, *read_key, *read_signature, *verify);
    let kind = tool_named(call.tool@)->Some_0;
    law_tools_are_found_by_name(kind);
    let arguments = choose|arguments: ToolArguments|
        {
            &&& #[trigger] arguments_read(*read_arguments, call.arguments@, arguments)
            &&& reply_to_reading(
                kind,
                arguments,
                call,
                call_index,
                deadline_ms,
                *derive,
                dispatch,
                r,
            )
        };
    let text = choose|text: Vec<u8>| #[trigger]
        read_arguments.ensures((&text,), arguments) && text@ == call.arguments@;
    let caller = address_outcome(call.caller@)->Ok_0;
    let (envelope, outcome) = choose|
        envelope: AgentEnvelope,
        outcome: Result<DispatchOutcome, IntentError>,
    |
        {
            &&& #[trigger] dispatched(dispatch, envelope, outcome)
            &&& envelope_for_call(
                envelope,
                caller,
                *derive,
                call,
                arguments,
                call_index,
                deadline_ms,
            )
            &&& replies_to_dispatch(r, outcome)
        };
    let keys = choose|keys: SessionKeys|
        {
            &&& #[trigger] keys_derived(*derive, call, call_index, keys)
            &&& envelope_of(
                envelope,
                caller,
                envelope.request_kind,
                keys.session_id,
                keys.request_id,
                keys.idempotency_key,
                deadline_ms,
            )
        };
    let (session, tool, hash) = choose|session: &str, tool: &str, hash: Blake3Digest|
        {
            &&& #[trigger] derive.ensures((session, call_index, tool, &hash), keys)
            &&& session@ == session_name_of(call)
            &&& tool@ == call.tool@
            &&& hash@ == blake3_digest(call.arguments@)
        };
    assert(derive.ensures((session, call_index, tool, &hash), keys));
    assert(keyed(*derive, call, call_index, keys));
    assert(request_made(kind, arguments, envelope));
    assert(is_called(kind, call.tool@)) by {
        let k = choose|k: McpToolKind| tool_name_of(k) == call.tool@;
        law_tools_are_found_by_name(k);
    }
    assert(outcome is Ok);
    lemma_told(r, outcome->Ok_0);
    assert(outcome == Ok::<DispatchOutcome, IntentError>(outcome->Ok_0));
    assert(call_dispatched(
        call,
        call_index,
        deadline_ms,
        *read_arguments,
        *derive,
        dispatch,
        Ok(outcome->Ok_0),
    ));
}

/// A call with a valid signature, of a registered tool and with arguments that
/// make a request, reaches the engine, and the reply tells of its answer.
pub proof fn law_valid_calls_reach_the_engine<
    K: Fn(&Vec<u8>) -> Result<Vec<u8>, String>,
    S: Fn(&Vec<u8>) -> Result<Vec<u8>, String>,
    V: Fn(&Vec<u8>, &str, &Vec<u8>, &Vec<u8>) -> bool,
    R: Fn(&Vec<u8>) -> ToolArguments,
    D: Fn(&str, u64, &str, &Blake3Digest) -> SessionKeys,
    B: DispatchBackend + ?Sized,
>(
    call: McpToolCall,
    call_index: u64,
    deadline_ms: TimestampMs,
    read_key: &K,
    read_signature: &S,
    verify: &V,
    read_arguments: &R,
    derive: &D,
    dispatch: &B,
    key: Seq<u8>,
    signature: Seq<u8>,
    kind: McpToolKind,
    arguments: ToolArguments,
    request: AgentRequestKind,
    r: McpToolResult,
)
    requires
        call_ensures(
            handle_tool_call::<K, S, V, R, D, B>,
            (
                &call,
                call_index,
                deadline_ms,
                read_key,
                read_signature,
                verify,
                read_arguments,
                derive,
                dispatch,
            ),
            r,
        ),
        credentials_read(call, *read_key, *read_signature, *verify, key, signature, true),
        is_called(kind, call.tool@),
        forall|text: Vec<u8>, read: ToolArguments| #[trigger]
            read_arguments.ensures((&text,), read) && text@ == call.arguments@ ==> read == arguments,
        call_ensures(translate_request_kind, (kind, &arguments), Ok(request)),
    ensures
        exists|envelope: AgentEnvelope, outcome: Result<DispatchOutcome, IntentError>|
            {
                &&& #[trigger] call_ensures(B::dispatch, (dispatch, &envelope), outcome)
                &&& envelope.request_kind@ == request@
                &&& outcome is Ok ==> told_as(r, outcome->Ok_0)
                &&& outcome is Err ==> !r.success
            },
{
    let identity = choose|identity: Result<(), Seq<char>>|
        {
            &&& #[trigger] identity_outcome(call, *read_key, *read_signature, *verify, identity)
            &&& match identity {
                Err(m) => r.failed_with(m),
                Ok(()) => authenticated_reply(
                    call,
                    call_index,
                    deadline_ms,
                    *read_arguments,
                    *derive,
                    dispatch,
                    r,
                ),
            }
        };
    lemma_signature_decides(
        call,
        *read_key,
        *read_signature,
        *verify,
        key,
        signature,
        true,
        identity,
    );
    law_tools_are_found_by_name(kind);
    law_registered_tools_are_not_forbidden(kind);
    let read = choose|read: ToolArguments|
        {
            &&& #[trigger] arguments_read(*read_arguments, call.arguments@, read)
            &&& reply_to_reading(
                kind,
                read,
                call,
                call_index,
                deadline_ms,
                *derive,
                dispatch,
                r,
            )
        };
    assert(read == arguments);
    let caller = address_outcome(call.caller@)->Ok_0;
    let (envelope, outcome) = choose|
        envelope: AgentEnvelope,
        outcome: Result<DispatchOutcome, IntentError>,
    |
        {
            &&& #[trigger] dispatched(dispatch, envelope, outcome)
            &&& envelope_for_call(
                envelope,
                caller,
                *derive,
                call,
                arguments,
                call_index,
                deadline_ms,
            )
            &&& replies_to_dispatch(r, outcome)
        };
    assert(call_ensures(B::dispatch, (dispatch, &envelope), outcome));
    if outcome is Ok {
        lemma_told(r, outcome->Ok_0);
    }
}

/// Whether a member holds a digest under a name.
pub open spec fn member_is_digest(m: (String, JsonValue), key: Seq<char>, digest: Blake3Digest) -> bool {
    m.0@ == key && m.1 is Text && m.1->Text_0@ == hex_encode(digest.0@)
}

/// Whether a member holds a number under a name.
pub open spec fn member_is_number(m: (String, JsonValue), key: Seq<char>, n: u64) -> bool {
    m.0@ == key && m.1 is Number && m.1->Number_0 == JsonNumber::Unsigned(n)
}

/// Whether a result tells of what the engine answered, each part under its own
/// name; a rejection is no success.
pub open spec fn told_as(r: McpToolResult, outcome: DispatchOutcome) -> bool {
    if outcome is Rejected {
        &&& !r.success
        &&& r.data is None
        &&& r.error is Some && r.error->Some_0@ == outcome->reason@
    } else {
        &&& r.success
        &&& r.error is None
        &&& r.data is Some && r.data->Some_0 is Object
        &&& {
            let data = r.data->Some_0->Object_0@;
            match outcome {
                DispatchOutcome::Simulated(sim) => {
                    &&& data.len() == 5
                    &&& member_is_digest(data[0], "session_id"@, sim.session_id)
                    &&& member_is_digest(data[1], "plan_hash"@, sim.plan_hash)
                    &&& member_is_number(data[2], "estimated_gas"@, sim.estimated_gas)
                    &&& member_is_number(data[3], "step_count"@, sim.step_count)
                    &&& data[4].0@ == "requires_cross_shard"@
                    &&& data[4].1 == JsonValue::Bool(sim.requires_cross_shard)
                },
                DispatchOutcome::Executed(receipt) => {
                    &&& data.len() == 4
                    &&& member_is_digest(data[0], "session_id"@, receipt.session_id)
                    &&& member_is_digest(data[1], "plan_hash"@, receipt.plan_hash)
                    &&& data[2].0@ == "tx_hashes"@
                    &&& data[2].1 is Array
                    &&& data[2].1->Array_0@.len() == receipt.tx_hashes@.len()
                    &&& forall|i: int|
                        0 <= i < receipt.tx_hashes@.len() ==> {
                            &&& #[trigger] data[2].1->Array_0@[i] is Text
                            &&& data[2].1->Array_0@[i]->Text_0@ == hex_encode(
                                receipt.tx_hashes@[i].0@,
                            )
                        }
                    &&& member_is_number(data[3], "gas_used"@, receipt.gas_used)
                },
                DispatchOutcome::QueryResult { payload } => {
                    &&& data.len() == 1
                    &&& data[0].0@ == "payload"@
                    &&& data[0].1 is Text && data[0].1->Text_0@ == hex_encode(payload@)
                },
                DispatchOutcome::Confirmed(conf) => {
                    &&& data.len() == 3
                    &&& member_is_digest(data[0], "session_id"@, conf.session_id)
                    &&& member_is_digest(data[1], "plan_hash"@, conf.plan_hash)
                    &&& member_is_digest(data[2], "confirmation_ref"@, conf.confirmation_ref)
                },
                DispatchOutcome::Rejected { .. } => false,
            }
        }
    }
}

proof fn lemma_told(r: McpToolResult, outcome: DispatchOutcome)
    requires
        replies_to_outcome(r, outcome),
    ensures
        told_as(r, outcome),
{
    if outcome is Executed {
        let data = r.data->Some_0->Object_0@;
        let hashes = outcome->Executed_0.tx_hashes@;
        assert(is_digest_array(data[2].1, hashes));
        assert forall|i: int| 0 <= i < hashes.len() implies {
            &&& #[trigger] data[2].1->Array_0@[i] is Text
            &&& data[2].1->Array_0@[i]->Text_0@ == hex_encode(hashes[i].0@)
        } by {
            assert(text_of(Some(data[2].1->Array_0@[i])) == Some(hex_encode(hashes[i]@)));
        }
    }
}

/// What the engine answers is told part by part, and a rejection with its
/// reason.
pub proof fn law_answers_are_told_as_they_are(outcome: DispatchOutcome, r: McpToolResult)
    requires
        call_ensures(outcome_to_result, (outcome,), r),
    ensures
        told_as(r, outcome),
{
    lemma_told(r, outcome);
}

/// Of an error, a client is told what kind it is and which number it has.
pub proof fn law_failures_are_told_by_kind(
    outcome: Result<DispatchOutcome, IntentError>,
    r: McpToolResult,
    code: McpErrorCode,
    number: i32,
)
    requires
        call_ensures(dispatch_reply, (outcome,), r),
        outcome is Err ==> call_ensures(map_intent_error, (&outcome->Err_0,), code),
        call_ensures(McpErrorCode::code, (code,), number),
    ensures
        outcome is Ok ==> told_as(r, outcome->Ok_0),
        outcome is Err ==> {
            &&& !r.success
            &&& r.data is None
            &&& r.error is Some
            &&& code is InvalidParams ==> r.error->Some_0@ == "invalid request parameters"@
                + " (mcp_code="@ + signed_decimal(number as int) + ")"@
            &&& code is CapabilityDenied ==> r.error->Some_0@ == "capability denied"@ + " (mcp_code="@
                + signed_decimal(number as int) + ")"@
            &&& code is Expired ==> r.error->Some_0@ == "request expired"@ + " (mcp_code="@
                + signed_decimal(number as int) + ")"@
            &&& code is ValueLimitExceeded ==> r.error->Some_0@ == "value limit exceeded"@
                + " (mcp_code="@ + signed_decimal(number as int) + ")"@
            &&& code is InternalError ==> r.error->Some_0@ == "internal error"@ + " (mcp_code="@
                + signed_decimal(number as int) + ")"@
        },
{
    if outcome is Ok {
        lemma_told(r, outcome->Ok_0);
    }
}

/// The kinds of errors have the numbers of the protocol, and only those of the
/// server may go away by themselves.
pub proof fn law_errors_have_their_numbers(code: McpErrorCode, number: i32, retryable: bool)
    requires
        call_ensures(McpErrorCode::code, (code,), number),
        call_ensures(McpErrorCode::is_retryable, (code,), retryable),
    ensures
        code is InvalidParams <==> number == -32602,
        code is ToolNotFound <==> number == -32601,
        code is InternalError <==> number == -32603,
        code is Unavailable <==> number == -32000,
        code is CapabilityDenied <==> number == -32001,
        code is Expired <==> number == -32002,
        code is PlanBindingError <==> number == -32003,
        code is ValueLimitExceeded <==> number == -32004,
        retryable <==> code is InternalError || code is Unavailable,
{
}

/// Which kind of error a failure of the engine, or of this service, is.
pub proof fn law_failures_are_sorted(
    err: IntentError,
    code: McpErrorCode,
    failure: RpcError,
    kind: McpErrorCode,
)
    requires
        call_ensures(map_intent_error, (&err,), code),
        call_ensures(map_rpc_error, (&failure,), kind),
    ensures
        code is Expired <==> err is IntentExpired || err is CompileTimeout,
        code is CapabilityDenied <==> err is AgentCapabilityDenied,
        code is ValueLimitExceeded <==> err is AgentValueLimitExceeded,
        code is InternalError <==> err is Codec || err is Internal || err is Storage || err is Execution
            || err is TooManySteps || err is NoRoute || err is GasBudgetExceeded,
        code is InvalidParams <==> err is InvalidSignature || err is ParseError || err is AgentSpecError
            || err is StaleNonce || err is IntentTooLarge || err is AccountNotFound
            || err is ContractNotFound || err is InsufficientBalance,
        kind is ToolNotFound <==> failure is NotFound,
        kind is InvalidParams <==> failure is BadRequest || failure is Serialization,
        kind is Unavailable <==> failure is Unavailable,
        kind is InternalError <==> failure is Internal || failure is IntentError
            || failure is ExecutionError || failure is ConsensusError,
{
}

/// Arguments are hashed as they are, and results say whether they are one.
pub proof fn law_results_say_what_they_are(
    json: &[u8],
    hash: Blake3Digest,
    data: JsonValue,
    done: McpToolResult,
    message: String,
    failed: McpToolResult,
)
    requires
        call_ensures(compute_args_hash, (json,), hash),
        call_ensures(McpToolResult::ok, (data,), done),
        call_ensures(McpToolResult::err, (message,), failed),
    ensures
        hash.0@ == blake3_digest(json@),
        done.success && done.data == Some(data) && done.error is None,
        !failed.success && failed.data is None && failed.error is Some,
        failed.error->Some_0@ == message@,
{
}

/// A call that is admitted gets the number that comes next, and is answered
/// with that number and within its time; where there is no engine none is
/// taken.
pub proof fn law_calls_are_admitted_in_order<
    K: Fn(&Vec<u8>) -> Result<Vec<u8>, String>,
    S: Fn(&Vec<u8>) -> Result<Vec<u8>, String>,
    V: Fn(&Vec<u8>, &str, &Vec<u8>, &Vec<u8>) -> bool,
    R: Fn(&Vec<u8>) -> ToolArguments,
    D: Fn(&str, u64, &str, &Blake3Digest) -> SessionKeys,
    B: DispatchBackend + ?Sized,
>(
    dispatch: Option<&B>,
    call: McpToolCall,
    call_index: &mut u64,
    now: TimestampMs,
    timeout_ms: u64,
    read_key: &K,
    read_signature: &S,
    verify: &V,
    read_arguments: &R,
    derive: &D,
    r: RpcResult<McpToolResult>,
)
    requires
        call_ensures(
            call_tool::<K, S, V, R, D, B>,
            (
                dispatch,
                &call,
                call_index,
                now,
                timeout_ms,
                read_key,
                read_signature,
                verify,
                read_arguments,
                derive,
            ),
            r,
        ),
    ensures
        dispatch is None ==> r is Err && r->Err_0 is Unavailable && *final(call_index) == *old(
            call_index,
        ),
        dispatch is Some ==> {
            &&& r is Ok
            &&& *old(call_index) < 0xffff_ffff_ffff_ffff ==> *final(call_index) == *old(call_index) + 1
            &&& *old(call_index) == 0xffff_ffff_ffff_ffff ==> *final(call_index) == 0
            &&& exists|deadline: TimestampMs|
                {
                    &&& now.0 + timeout_ms <= 0xffff_ffff_ffff_ffff ==> deadline.0 == now.0 + timeout_ms
                    &&& now.0 + timeout_ms > 0xffff_ffff_ffff_ffff ==> deadline.0
                        == 0xffff_ffff_ffff_ffff
                    &&& #[trigger] answers_call(
                        r->Ok_0,
                        call,
                        *old(call_index),
                        deadline,
                        *read_key,
                        *read_signature,
                        *verify,
                        *read_arguments,
                        *derive,
                        dispatch->Some_0,
                    )
                }
        },
{
    if dispatch is Some {
        assert(answers_call(
            r->Ok_0,
            call,
            *old(call_index),
            call_deadline(now, timeout_ms),
            *read_key,
            *read_signature,
            *verify,
            *read_arguments,
            *derive,
            dispatch->Some_0,
        ));
    }
}

/// Admitting takes the next number, and answering an admitted call sets its
/// deadline.
pub proof fn law_admitted_calls_have_a_deadline<
    K: Fn(&Vec<u8>) -> Result<Vec<u8>, String>,
    S: Fn(&Vec<u8>) -> Result<Vec<u8>, String>,
    V: Fn(&Vec<u8>, &str, &Vec<u8>, &Vec<u8>) -> bool,
    R: Fn(&Vec<u8>) -> ToolArguments,
    D: Fn(&str, u64, &str, &Blake3Digest) -> SessionKeys,
    B: DispatchBackend + ?Sized,
>(
    dispatch: &B,
    call_index: &mut u64,
    admitted: (&B, u64),
    call: McpToolCall,
    now: TimestampMs,
    timeout_ms: u64,
    read_key: &K,
    read_signature: &S,
    verify: &V,
    read_arguments: &R,
    derive: &D,
    r: McpToolResult,
)
    requires
        call_ensures(admit_call::<B>, (Some(dispatch), call_index), Ok(admitted)),
        call_ensures(
            answer_admitted::<K, S, V, R, D, B>,
            (
                admitted.0,
                &call,
                admitted.1,
                now,
                timeout_ms,
                read_key,
                read_signature,
                verify,
                read_arguments,
                derive,
            ),
            r,
        ),
    ensures
        admitted.1 == *old(call_index),
        *old(call_index) < 0xffff_ffff_ffff_ffff ==> *final(call_index) == *old(call_index) + 1,
        exists|deadline: TimestampMs|
            {
                &&& now.0 + timeout_ms <= 0xffff_ffff_ffff_ffff ==> deadline.0 == now.0 + timeout_ms
                &&& now.0 + timeout_ms > 0xffff_ffff_ffff_ffff ==> deadline.0
                    == 0xffff_ffff_ffff_ffff
                &&& #[trigger] answers_call(
                    r,
                    call,
                    *old(call_index),
                    deadline,
                    *read_key,
                    *read_signature,
                    *verify,
                    *read_arguments,
                    *derive,
                    dispatch,
                )
            },
{
    assert(answers_call(
        r,
        call,
        *old(call_index),
        call_deadline(now, timeout_ms),
        *read_key,
        *read_signature,
        *verify,
        *read_arguments,
        *derive,
        dispatch,
    ));
}

/// Every kind of tool is among the tools, once.
pub proof fn law_every_tool_is_among_the_tools(kind: McpToolKind, all: [McpToolKind; 6])
    requires
        call_ensures(McpToolKind::all, (), all),
    ensures
        all@.contains(kind),
        all@.no_duplicates(),
{
    assert(all@.len() == 6);
    assert(all@[0] is QueryBalance && all@[1] is QueryIntent && all@[2] is QueryContract);
    assert(all@[3] is SimulateIntent && all@[4] is ExecutePlan && all@[5] is QueryProvenance);
    match kind {
        McpToolKind::QueryBalance => assert(all@[0] == kind),
        McpToolKind::QueryIntent => assert(all@[1] == kind),
        McpToolKind::QueryContract => assert(all@[2] == kind),
        McpToolKind::SimulateIntent => assert(all@[3] == kind),
        McpToolKind::ExecutePlan => assert(all@[4] == kind),
        McpToolKind::QueryProvenance => assert(all@[5] == kind),
    }
}

/// Every tool is described by what it does.
pub proof fn law_tools_are_described(kind: McpToolKind, r: &'static str)
    requires
        call_ensures(McpToolKind::description, (kind,), r),
    ensures
        kind is QueryBalance ==> r@ == "Query the balance of an account for a given token."@,
        kind is QueryIntent ==> r@ == "Query the status of an intent or transaction by digest."@,
        kind is QueryContract ==> r@ == "Query contract state by address and resource tag."@,
        kind is SimulateIntent ==> r@
            == "Simulate an intent without executing it. Returns a plan_hash for later execution."@,
        kind is ExecutePlan ==> r@
            == "Execute a previously simulated and confirmed plan, bound by plan_hash."@,
        kind is QueryProvenance ==> r@
            == "Query the provenance audit trail by agent, session, capability, or transaction."@,
{
}

/// Every forbidden tool is named, and refused for what it bypasses.
pub proof fn law_forbidden_tools_are_refused_for_a_reason(
    kind: ForbiddenToolKind,
    reason: &'static str,
    name: &'static str,
)
    requires
        call_ensures(ForbiddenToolKind::denial_reason, (kind,), reason),
        call_ensures(ForbiddenToolKind::to_debug_string, (kind,), name),
    ensures
        kind is RawMovePayload ==> name@ == "RawMovePayload"@ && reason@
            == "raw Move payload passthrough bypasses intent compilation and plan binding"@,
        kind is DirectBroadcast ==> name@ == "DirectBroadcast"@ && reason@
            == "direct broadcast bypasses simulation \u{2192} confirmation \u{2192} execution pipeline"@,
        kind is AdminOverride ==> name@ == "AdminOverride"@ && reason@
            == "admin override bypasses capability token validation"@,
{
}

} // verus!
