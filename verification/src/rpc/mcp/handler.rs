//! What a tool call is answered.
//!
//! A call is authenticated, checked against the registry, translated, keyed to
//! its session and dispatched to the agent engine.

use vstd::prelude::*;
use vstd::string::*;
use vstd::utf8::*;

use crate::primitives::address::account_domain;
use crate::primitives::digest::{blake3_digest, blake3_hash};
use crate::primitives::hexadecimal::{
    decode, encode, hex_decoded, hex_encode, hex_error_text, lemma_decoding_is_unique,
};
use crate::primitives::text::{
    bytes_eq, decimal, decimal_text, join, join3, signed_decimal, signed_decimal_text,
};
use crate::primitives::{AccountAddress, Blake3Digest, TimestampMs};
use crate::rpc::agent::{AgentEnvelope, AgentRequestKind, AgentRequestView, DispatchOutcome};
use crate::rpc::error::{message_of, IntentError, RpcErrorView};
use crate::rpc::json::{text_of, JsonNumber, JsonValue};
use crate::rpc::mcp::error_map::{intent_error_code, map_intent_error, wire_code, McpErrorCode};
use crate::rpc::mcp::registry::{
    forbidden_name, forbidden_named, is_forbidden_tool, law_registered_tools_are_not_forbidden,
    lookup_tool, tool_named, McpToolKind,
};
use crate::rpc::mcp::schema::{
    build_envelope_from_mcp, envelope_of, request_outcome, translate_request_kind, McpToolCall,
    McpToolResult, ToolArguments,
};
use crate::rpc::rest::backends::DispatchBackend;
use crate::rpc::rest::address_outcome;

verus! {

/// Separates caller signatures from signatures made for other purposes.
pub const MCP_CALLER_SIG_DOMAIN: &'static str = "nexus::mcp::caller_auth::v1";

/// Whether reading the public key `bytes` gives `key`, or the message of the
/// reader.
pub open spec fn bytes_read<F: Fn(&Vec<u8>) -> Result<Vec<u8>, String>>(
    read: F,
    bytes: Seq<u8>,
    key: Result<Seq<u8>, Seq<char>>,
) -> bool {
    exists|arg: Vec<u8>, out: Result<Vec<u8>, String>|
        {
            &&& #[trigger] read.ensures((&arg,), out)
            &&& arg@ == bytes
            &&& key == match out {
                Ok(k) => Ok::<Seq<u8>, Seq<char>>(k@),
                Err(m) => Err(m@),
            }
        }
}

/// Whether checking `signature` over `payload` under `key`, for tool calls,
/// gives `valid`.
pub open spec fn signature_checked<V: Fn(&Vec<u8>, &str, &Vec<u8>, &Vec<u8>) -> bool>(
    verify: V,
    key: Seq<u8>,
    payload: Seq<u8>,
    signature: Seq<u8>,
    valid: bool,
) -> bool {
    exists|k: Vec<u8>, domain: &str, p: Vec<u8>, s: Vec<u8>|
        {
            &&& #[trigger] verify.ensures((&k, domain, &p, &s), valid)
            &&& k@ == key
            &&& domain@ == MCP_CALLER_SIG_DOMAIN@
            &&& p@ == payload
            &&& s@ == signature
        }
}

/// A check's outcome with its message as a sequence of characters.
pub open spec fn told(r: Result<(), String>) -> Result<(), Seq<char>> {
    match r {
        Ok(()) => Ok(()),
        Err(m) => Err(m@),
    }
}

/// What the caller signs: their address, the tool's name and the arguments as
/// JSON text.
pub open spec fn signed_payload(caller: Seq<u8>, call: McpToolCall) -> Seq<u8> {
    caller + encode_utf8(call.tool@) + call.arguments@
}

/// The address that belongs to a public key.
pub open spec fn address_of_key(key: Seq<u8>) -> Seq<u8> {
    blake3_digest(account_domain() + key)
}

/// Whether authenticating the caller of `call` gives `r`. In this order, the
/// public key must be readable, the claimed address be that of the key, the
/// signature be readable and the signature be the caller's over this call.
pub open spec fn identity_outcome<
    K: Fn(&Vec<u8>) -> Result<Vec<u8>, String>,
    S: Fn(&Vec<u8>) -> Result<Vec<u8>, String>,
    V: Fn(&Vec<u8>, &str, &Vec<u8>, &Vec<u8>) -> bool,
>(call: McpToolCall, read_key: K, read_signature: S, verify: V, r: Result<(), Seq<char>>) -> bool {
    match hex_decoded(call.caller_public_key@) {
        Err(e) => r == Err::<(), Seq<char>>(
            "invalid caller_public_key hex: "@ + hex_error_text(e),
        ),
        Ok(key_bytes) => exists|key: Result<Seq<u8>, Seq<char>>|
            {
                &&& #[trigger] bytes_read(read_key, key_bytes, key)
                &&& match key {
                    Err(m) => r == Err::<(), Seq<char>>("invalid caller_public_key: "@ + m),
                    Ok(k) => bound_identity_outcome(call, k, read_signature, verify, r),
                }
            },
    }
}

/// The part of [`identity_outcome`] that follows the reading of the key `key`.
pub open spec fn bound_identity_outcome<
    S: Fn(&Vec<u8>) -> Result<Vec<u8>, String>,
    V: Fn(&Vec<u8>, &str, &Vec<u8>, &Vec<u8>) -> bool,
>(
    call: McpToolCall,
    key: Seq<u8>,
    read_signature: S,
    verify: V,
    r: Result<(), Seq<char>>,
) -> bool {
    match hex_decoded(call.caller@) {
        Err(e) => r == Err::<(), Seq<char>>("invalid caller hex: "@ + hex_error_text(e)),
        Ok(claimed) => if claimed.len() != 32 {
            r == Err::<(), Seq<char>>(
                "caller address must be 32 bytes, got "@ + decimal(claimed.len()),
            )
        } else if address_of_key(key) != claimed {
            r == Err::<(), Seq<char>>("caller address does not match public key"@)
        } else {
            signed_identity_outcome(call, key, claimed, read_signature, verify, r)
        },
    }
}

/// The part of [`identity_outcome`] that follows the matching of the claimed
/// address with the key.
pub open spec fn signed_identity_outcome<
    S: Fn(&Vec<u8>) -> Result<Vec<u8>, String>,
    V: Fn(&Vec<u8>, &str, &Vec<u8>, &Vec<u8>) -> bool,
>(
    call: McpToolCall,
    key: Seq<u8>,
    claimed: Seq<u8>,
    read_signature: S,
    verify: V,
    r: Result<(), Seq<char>>,
) -> bool {
    match hex_decoded(call.caller_signature@) {
        Err(e) => r == Err::<(), Seq<char>>(
            "invalid caller_signature hex: "@ + hex_error_text(e),
        ),
        Ok(signature_bytes) => exists|signature: Result<Seq<u8>, Seq<char>>|
            {
                &&& #[trigger] bytes_read(read_signature, signature_bytes, signature)
                &&& match signature {
                    Err(m) => r == Err::<(), Seq<char>>("invalid caller_signature: "@ + m),
                    Ok(s) => {
                        let payload = signed_payload(claimed, call);
                        ||| {
                            &&& signature_checked(verify, key, payload, s, true)
                            &&& r == Ok::<(), Seq<char>>(())
                        }
                        ||| {
                            &&& signature_checked(verify, key, payload, s, false)
                            &&& r == Err::<(), Seq<char>>("caller signature verification failed"@)
                        }
                    },
                }
            },
    }
}

fn read_bytes<F: Fn(&Vec<u8>) -> Result<Vec<u8>, String>>(read: &F, bytes: &Vec<u8>) -> (r: Result<
    Vec<u8>,
    String,
>)
    requires
        forall|arg: &Vec<u8>| #[trigger] read.requires((arg,)),
    ensures
        bytes_read(
            *read,
            bytes@,
            match r {
                Ok(k) => Ok(k@),
                Err(m) => Err(m@),
            },
        ),
{
    let r = read(bytes);
    assert(read.ensures((bytes,), r));
    r
}

/// Authenticates the caller of a tool call: their public key must be that of
/// the claimed address, and the call must bear their signature. `read_key` and
/// `read_signature` check the form of keys and signatures, and `verify` checks
/// a signature.
pub fn verify_caller_identity<
    K: Fn(&Vec<u8>) -> Result<Vec<u8>, String>,
    S: Fn(&Vec<u8>) -> Result<Vec<u8>, String>,
    V: Fn(&Vec<u8>, &str, &Vec<u8>, &Vec<u8>) -> bool,
>(call: &McpToolCall, read_key: &K, read_signature: &S, verify: &V) -> (r: Result<(), String>)
    requires
        forall|arg: &Vec<u8>| #[trigger] read_key.requires((arg,)),
        forall|arg: &Vec<u8>| #[trigger] read_signature.requires((arg,)),
        forall|k: &Vec<u8>, d: &str, p: &Vec<u8>, s: &Vec<u8>| #[trigger]
            verify.requires((k, d, p, s)),
    ensures
        identity_outcome(
            *call,
            *read_key,
            *read_signature,
            *verify,
            told(r),
        ),
{
    proof {
        lemma_decoding_is_unique(call.caller_public_key@);
        lemma_decoding_is_unique(call.caller@);
        lemma_decoding_is_unique(call.caller_signature@);
    }
    let key_bytes = match decode(call.caller_public_key.as_str()) {
        Ok(bytes) => bytes,
        Err(e) => {
            return Err(join("invalid caller_public_key hex: ", e.to_string().as_str()));
        },
    };
    let key = match read_bytes(read_key, &key_bytes) {
        Ok(key) => key,
        Err(m) => {
            return Err(join("invalid caller_public_key: ", m.as_str()));
        },
    };
    assert(bytes_read(*read_key, key_bytes@, Ok(key@)));
    let derived = AccountAddress::from_dilithium_pubkey(key.as_slice());
    let claimed = match decode(call.caller.as_str()) {
        Ok(bytes) => bytes,
        Err(e) => {
            return Err(join("invalid caller hex: ", e.to_string().as_str()));
        },
    };
    if claimed.len() != 32 {
        return Err(
            join(
                "caller address must be 32 bytes, got ",
                decimal_text(claimed.len() as u64).as_str(),
            ),
        );
    }
    if !bytes_eq(derived.0.as_slice(), claimed.as_slice()) {
        return Err("caller address does not match public key".to_owned());
    }
    let signature_bytes = match decode(call.caller_signature.as_str()) {
        Ok(bytes) => bytes,
        Err(e) => {
            return Err(join("invalid caller_signature hex: ", e.to_string().as_str()));
        },
    };
    let signature = match read_bytes(read_signature, &signature_bytes) {
        Ok(signature) => signature,
        Err(m) => {
            return Err(join("invalid caller_signature: ", m.as_str()));
        },
    };
    assert(bytes_read(*read_signature, signature_bytes@, Ok(signature@)));
    let mut payload: Vec<u8> = Vec::new();
    payload.extend_from_slice(claimed.as_slice());
    payload.extend_from_slice(call.tool.as_str().as_bytes());
    payload.extend_from_slice(call.arguments.as_slice());
    assert(payload@ =~= signed_payload(claimed@, *call));
    let valid = verify(&key, MCP_CALLER_SIG_DOMAIN, &payload, &signature);
    assert(signature_checked(*verify, key@, signed_payload(claimed@, *call), signature@, valid)) by {
        assert(verify.ensures((&key, MCP_CALLER_SIG_DOMAIN, &payload, &signature), valid));
    }
    let r = if valid {
        Ok(())
    } else {
        Err("caller signature verification failed".to_owned())
    };
    r
}

/// Whoever is authenticated holds a key whose address is the one that they
/// claim, and their signature over this very call was checked under that key.
pub proof fn law_authenticated_callers_hold_their_address<
    K: Fn(&Vec<u8>) -> Result<Vec<u8>, String>,
    S: Fn(&Vec<u8>) -> Result<Vec<u8>, String>,
    V: Fn(&Vec<u8>, &str, &Vec<u8>, &Vec<u8>) -> bool,
>(call: McpToolCall, read_key: K, read_signature: S, verify: V)
    requires
        identity_outcome(call, read_key, read_signature, verify, Ok(())),
    ensures
        exists|key: Seq<u8>, signature: Seq<u8>|
            {
                &&& address_outcome(call.caller@) == Ok::<Seq<u8>, RpcErrorView>(
                    address_of_key(key),
                )
                &&& #[trigger] signature_checked(
                    verify,
                    key,
                    signed_payload(address_of_key(key), call),
                    signature,
                    true,
                )
            },
{
    let key_bytes = hex_decoded(call.caller_public_key@)->Ok_0;
    let key = choose|key: Result<Seq<u8>, Seq<char>>|
        {
            &&& #[trigger] bytes_read(read_key, key_bytes, key)
            &&& key is Ok
            &&& bound_identity_outcome(call, key->Ok_0, read_signature, verify, Ok(()))
        };
    let claimed = hex_decoded(call.caller@)->Ok_0;
    assert(claimed == address_of_key(key->Ok_0));
    assert(encode_utf8(call.caller@).len() / 2 == 32);
    let signature_bytes = hex_decoded(call.caller_signature@)->Ok_0;
    let signature = choose|signature: Result<Seq<u8>, Seq<char>>|
        {
            &&& #[trigger] bytes_read(read_signature, signature_bytes, signature)
            &&& signature is Ok
            &&& signature_checked(
                verify,
                key->Ok_0,
                signed_payload(claimed, call),
                signature->Ok_0,
                true,
            )
        };
    assert(signature_checked(
        verify,
        key->Ok_0,
        signed_payload(address_of_key(key->Ok_0), call),
        signature->Ok_0,
        true,
    ));
}

/// The BLAKE3 hash of the JSON text of a call's arguments.
pub fn compute_args_hash(json: &[u8]) -> (r: Blake3Digest)
    ensures
        r@ == blake3_digest(json@),
{
    Blake3Digest(blake3_hash(json))
}

/// Whether the member `m` of an object is the text `text` under the name `key`.
pub open spec fn is_text_member(m: (String, JsonValue), key: Seq<char>, text: Seq<char>) -> bool {
    m.0@ == key && text_of(Some(m.1)) == Some(text)
}

/// Whether the member `m` of an object is the number `n` under the name `key`.
pub open spec fn is_number_member(m: (String, JsonValue), key: Seq<char>, n: u64) -> bool {
    m.0@ == key && m.1 == JsonValue::Number(JsonNumber::Unsigned(n))
}

/// Whether `value` is the array of the hexadecimal forms of `digests`.
pub open spec fn is_digest_array(value: JsonValue, digests: Seq<Blake3Digest>) -> bool {
    match value {
        JsonValue::Array(items) => {
            &&& items@.len() == digests.len()
            &&& forall|i: int|
                0 <= i < digests.len() ==> text_of(Some(#[trigger] items@[i])) == Some(
                    hex_encode(digests[i]@),
                )
        },
        _ => false,
    }
}

/// Whether `data` holds what `outcome` reports.
pub open spec fn reports_outcome(data: Seq<(String, JsonValue)>, outcome: DispatchOutcome) -> bool {
    match outcome {
        DispatchOutcome::Simulated(sim) => {
            &&& data.len() == 5
            &&& is_text_member(data[0], "session_id"@, hex_encode(sim.session_id@))
            &&& is_text_member(data[1], "plan_hash"@, hex_encode(sim.plan_hash@))
            &&& is_number_member(data[2], "estimated_gas"@, sim.estimated_gas)
            &&& is_number_member(data[3], "step_count"@, sim.step_count)
            &&& data[4].0@ == "requires_cross_shard"@
            &&& data[4].1 == JsonValue::Bool(sim.requires_cross_shard)
        },
        DispatchOutcome::Executed(receipt) => {
            &&& data.len() == 4
            &&& is_text_member(data[0], "session_id"@, hex_encode(receipt.session_id@))
            &&& is_text_member(data[1], "plan_hash"@, hex_encode(receipt.plan_hash@))
            &&& data[2].0@ == "tx_hashes"@
            &&& is_digest_array(data[2].1, receipt.tx_hashes@)
            &&& is_number_member(data[3], "gas_used"@, receipt.gas_used)
        },
        DispatchOutcome::QueryResult { payload } => {
            &&& data.len() == 1
            &&& is_text_member(data[0], "payload"@, hex_encode(payload@))
        },
        DispatchOutcome::Confirmed(conf) => {
            &&& data.len() == 3
            &&& is_text_member(data[0], "session_id"@, hex_encode(conf.session_id@))
            &&& is_text_member(data[1], "plan_hash"@, hex_encode(conf.plan_hash@))
            &&& is_text_member(data[2], "confirmation_ref"@, hex_encode(conf.confirmation_ref@))
        },
        DispatchOutcome::Rejected { .. } => false,
    }
}

/// Whether `r` is the reply to a call that the engine answered with `outcome`.
pub open spec fn replies_to_outcome(r: McpToolResult, outcome: DispatchOutcome) -> bool {
    match outcome {
        DispatchOutcome::Rejected { reason } => r.failed_with(reason@),
        _ => {
            &&& r.success
            &&& r.error is None
            &&& r.data is Some
            &&& r.data->Some_0 is Object
            &&& reports_outcome(r.data->Some_0->Object_0@, outcome)
        },
    }
}

fn digest_member(key: &str, digest: &Blake3Digest) -> (r: (String, JsonValue))
    ensures
        is_text_member(r, key@, hex_encode(digest@)),
{
    (key.to_owned(), JsonValue::Text(digest.to_hex()))
}

fn number_member(key: &str, n: u64) -> (r: (String, JsonValue))
    ensures
        is_number_member(r, key@, n),
{
    (key.to_owned(), JsonValue::Number(JsonNumber::Unsigned(n)))
}

fn digest_array(digests: &Vec<Blake3Digest>) -> (r: JsonValue)
    ensures
        is_digest_array(r, digests@),
{
    let mut items: Vec<JsonValue> = Vec::new();
    let mut i: usize = 0;
    while i < digests.len()
        invariant
            0 <= i <= digests@.len(),
            items@.len() == i,
            forall|j: int|
                0 <= j < i ==> text_of(Some(#[trigger] items@[j])) == Some(
                    hex_encode(digests@[j]@),
                ),
        decreases digests@.len() - i,
    {
        items.push(JsonValue::Text(digests[i].to_hex()));
        i = i + 1;
    }
    JsonValue::Array(items)
}

/// The reply to a call that the engine answered with `outcome`.
pub fn outcome_to_result(outcome: DispatchOutcome) -> (r: McpToolResult)
    ensures
        replies_to_outcome(r, outcome),
{
    let mut data: Vec<(String, JsonValue)> = Vec::new();
    match &outcome {
        DispatchOutcome::Simulated(sim) => {
            data.push(digest_member("session_id", &sim.session_id));
            data.push(digest_member("plan_hash", &sim.plan_hash));
            data.push(number_member("estimated_gas", sim.estimated_gas));
            data.push(number_member("step_count", sim.step_count));
            data.push(
                ("requires_cross_shard".to_owned(), JsonValue::Bool(sim.requires_cross_shard)),
            );
        },
        DispatchOutcome::Executed(receipt) => {
            data.push(digest_member("session_id", &receipt.session_id));
            data.push(digest_member("plan_hash", &receipt.plan_hash));
            data.push(("tx_hashes".to_owned(), digest_array(&receipt.tx_hashes)));
            data.push(number_member("gas_used", receipt.gas_used));
        },
        DispatchOutcome::QueryResult { payload } => {
            data.push(("payload".to_owned(), JsonValue::Text(encode(payload.as_slice()))));
        },
        DispatchOutcome::Confirmed(conf) => {
            data.push(digest_member("session_id", &conf.session_id));
            data.push(digest_member("plan_hash", &conf.plan_hash));
            data.push(digest_member("confirmation_ref", &conf.confirmation_ref));
        },
        DispatchOutcome::Rejected { reason } => {
            return McpToolResult::err(reason.clone());
        },
    }
    McpToolResult::ok(JsonValue::Object(data))
}

/// What a client is told of an error code, without details of the error.
pub open spec fn public_message(code: McpErrorCode) -> Seq<char> {
    match code {
        McpErrorCode::InvalidParams => "invalid request parameters"@,
        McpErrorCode::ToolNotFound => "tool not found"@,
        McpErrorCode::CapabilityDenied => "capability denied"@,
        McpErrorCode::Expired => "request expired"@,
        McpErrorCode::PlanBindingError => "plan binding error"@,
        McpErrorCode::ValueLimitExceeded => "value limit exceeded"@,
        McpErrorCode::Unavailable => "service unavailable"@,
        McpErrorCode::InternalError => "internal error"@,
    }
}

/// Whether `r` is the reply to a call whose dispatch ended with `outcome`. Of
/// an error, only its category is told.
pub open spec fn replies_to_dispatch(
    r: McpToolResult,
    outcome: Result<DispatchOutcome, IntentError>,
) -> bool {
    match outcome {
        Ok(o) => replies_to_outcome(r, o),
        Err(e) => {
            let code = intent_error_code(e);
            r.failed_with(
                public_message(code) + " (mcp_code="@ + signed_decimal(wire_code(code)) + ")"@,
            )
        },
    }
}

/// The reply to a call whose dispatch ended with `outcome`.
pub fn dispatch_reply(outcome: Result<DispatchOutcome, IntentError>) -> (r: McpToolResult)
    ensures
        replies_to_dispatch(r, outcome),
{
    match outcome {
        Ok(o) => outcome_to_result(o),
        Err(e) => {
            let code = map_intent_error(&e);
            let public_msg = match code {
                McpErrorCode::InvalidParams => "invalid request parameters",
                McpErrorCode::ToolNotFound => "tool not found",
                McpErrorCode::CapabilityDenied => "capability denied",
                McpErrorCode::Expired => "request expired",
                McpErrorCode::PlanBindingError => "plan binding error",
                McpErrorCode::ValueLimitExceeded => "value limit exceeded",
                McpErrorCode::Unavailable => "service unavailable",
                McpErrorCode::InternalError => "internal error",
            };
            let mut message = join3(
                public_msg,
                " (mcp_code=",
                signed_decimal_text(code.code()).as_str(),
            );
            message.append(")");
            McpToolResult::err(message)
        },
    }
}

/// The keys by which a call is tied to its session.
#[derive(Debug, Clone, Copy)]
pub struct SessionKeys {
    /// The session.
    pub session_id: Blake3Digest,
    /// The request within the session.
    pub request_id: Blake3Digest,
    /// Equal for repetitions of one request.
    pub idempotency_key: Blake3Digest,
}

/// The session that a call belongs to: "ephemeral" where it names none.
pub open spec fn session_name_of(call: McpToolCall) -> Seq<char> {
    match call.mcp_session_id {
        Some(name) => name@,
        None => "ephemeral"@,
    }
}

/// Whether `derive` gives `keys` for the call with the number `call_index`.
/// It is told the session's name, the number, the tool and the hash of the
/// arguments.
pub open spec fn keys_derived<D: Fn(&str, u64, &str, &Blake3Digest) -> SessionKeys>(
    derive: D,
    call: McpToolCall,
    call_index: u64,
    keys: SessionKeys,
) -> bool {
    exists|session: &str, tool: &str, hash: Blake3Digest|
        {
            &&& #[trigger] derive.ensures((session, call_index, tool, &hash), keys)
            &&& session@ == session_name_of(call)
            &&& tool@ == call.tool@
            &&& hash@ == blake3_digest(call.arguments@)
        }
}

fn derive_keys<D: Fn(&str, u64, &str, &Blake3Digest) -> SessionKeys>(
    derive: &D,
    call: &McpToolCall,
    call_index: u64,
) -> (keys: SessionKeys)
    requires
        forall|s: &str, n: u64, t: &str, h: &Blake3Digest| #[trigger]
            derive.requires((s, n, t, h)),
    ensures
        keys_derived(*derive, *call, call_index, keys),
{
    let session: &str = match &call.mcp_session_id {
        Some(name) => name.as_str(),
        None => "ephemeral",
    };
    let hash = compute_args_hash(call.arguments.as_slice());
    let tool: &str = call.tool.as_str();
    let keys = derive(session, call_index, tool, &hash);
    assert(derive.ensures((session, call_index, tool, &hash), keys));
    keys
}

/// What an authenticated call is refused with before its arguments are read:
/// the tool must not be forbidden and must be registered.
pub open spec fn refusal_of(call: McpToolCall) -> Option<Seq<char>> {
    match forbidden_named(call.tool@) {
        Some(kind) => Some(
            "tool '"@ + call.tool@ + "' is forbidden: "@ + forbidden_name(kind),
        ),
        None => match tool_named(call.tool@) {
            None => Some(
                "unknown tool '"@ + call.tool@ + "' \u{2014} code "@ + signed_decimal(
                    wire_code(McpErrorCode::ToolNotFound),
                ),
            ),
            Some(_) => None,
        },
    }
}

/// Whether reading the text `text` gives `arguments`.
pub open spec fn arguments_read<R: Fn(&Vec<u8>) -> ToolArguments>(
    read_arguments: R,
    text: Seq<u8>,
    arguments: ToolArguments,
) -> bool {
    exists|arg: Vec<u8>| #[trigger] read_arguments.ensures((&arg,), arguments) && arg@ == text
}

/// The tool that an authenticated call is of, or what the call is refused
/// with before its arguments are read.
fn requested_tool(call: &McpToolCall) -> (r: Result<McpToolKind, String>)
    ensures
        match r {
            Ok(kind) => refusal_of(*call) is None && tool_named(call.tool@) == Some(kind),
            Err(m) => refusal_of(*call) == Some(m@),
        },
{
    if let Some(kind) = is_forbidden_tool(call.tool.as_str()) {
        let mut message = join3("tool '", call.tool.as_str(), "' is forbidden: ");
        message.append(kind.to_debug_string());
        return Err(message);
    }
    match lookup_tool(call.tool.as_str()) {
        Some(kind) => Ok(kind),
        None => {
            let mut message = join3("unknown tool '", call.tool.as_str(), "' \u{2014} code ");
            message.append(signed_decimal_text(McpErrorCode::ToolNotFound.code()).as_str());
            Err(message)
        },
    }
}

/// Whether the engine was handed `envelope` and answered with `outcome`.
pub open spec fn dispatched<B: DispatchBackend + ?Sized>(
    dispatch: &B,
    envelope: AgentEnvelope,
    outcome: Result<DispatchOutcome, IntentError>,
) -> bool {
    call_ensures(B::dispatch, (dispatch, &envelope), outcome)
}

/// Whether `envelope` is what the engine is handed for the call with the
/// number `call_index`, made by the holder of the address `caller`, where its
/// arguments are read as `arguments`.
pub open spec fn envelope_for_call<D: Fn(&str, u64, &str, &Blake3Digest) -> SessionKeys>(
    envelope: AgentEnvelope,
    caller: Seq<u8>,
    derive: D,
    call: McpToolCall,
    arguments: ToolArguments,
    call_index: u64,
    deadline_ms: TimestampMs,
) -> bool {
    &&& tool_named(call.tool@) is Some
    &&& request_outcome(tool_named(call.tool@)->Some_0, arguments) == Ok::<
        AgentRequestView,
        RpcErrorView,
    >(envelope.request_kind@)
    &&& exists|keys: SessionKeys|
        {
            &&& #[trigger] keys_derived(derive, call, call_index, keys)
            &&& envelope_of(
                envelope,
                caller,
                envelope.request_kind,
                keys.session_id,
                keys.request_id,
                keys.idempotency_key,
                deadline_ms,
            )
        }
}

/// Whether `r` is the reply to an authenticated call of the tool `kind` whose
/// arguments are read as `arguments`.
pub open spec fn reply_to_reading<
    D: Fn(&str, u64, &str, &Blake3Digest) -> SessionKeys,
    B: DispatchBackend + ?Sized,
>(
    kind: McpToolKind,
    arguments: ToolArguments,
    call: McpToolCall,
    call_index: u64,
    deadline_ms: TimestampMs,
    derive: D,
    dispatch: &B,
    r: McpToolResult,
) -> bool {
    match request_outcome(kind, arguments) {
        Err(e) => r.failed_with(message_of(e)),
        Ok(_) => match address_outcome(call.caller@) {
            Err(e) => r.failed_with(message_of(e)),
            Ok(caller) => exists|
                envelope: AgentEnvelope,
                outcome: Result<DispatchOutcome, IntentError>,
            |
                {
                    &&& #[trigger] dispatched(dispatch, envelope, outcome)
                    &&& envelope_for_call(
                        envelope,
                        caller,
                        derive,
                        call,
                        arguments,
                        call_index,
                        deadline_ms,
                    )
                    &&& replies_to_dispatch(r, outcome)
                },
        },
    }
}

/// Whether `r` is the reply to a call of an authenticated caller. What is
/// carried out is what `read_arguments` makes of the very text that the caller
/// signed.
pub open spec fn authenticated_reply<
    R: Fn(&Vec<u8>) -> ToolArguments,
    D: Fn(&str, u64, &str, &Blake3Digest) -> SessionKeys,
    B: DispatchBackend + ?Sized,
>(
    call: McpToolCall,
    call_index: u64,
    deadline_ms: TimestampMs,
    read_arguments: R,
    derive: D,
    dispatch: &B,
    r: McpToolResult,
) -> bool {
    match refusal_of(call) {
        Some(m) => r.failed_with(m),
        None => exists|arguments: ToolArguments|
            {
                &&& #[trigger] arguments_read(read_arguments, call.arguments@, arguments)
                &&& reply_to_reading(
                    tool_named(call.tool@)->Some_0,
                    arguments,
                    call,
                    call_index,
                    deadline_ms,
                    derive,
                    dispatch,
                    r,
                )
            },
    }
}

/// Whether `r` is the reply to a call: the report that the caller is not who
/// they claim to be, or else the reply to an authenticated call.
pub open spec fn answers_call<
    K: Fn(&Vec<u8>) -> Result<Vec<u8>, String>,
    S: Fn(&Vec<u8>) -> Result<Vec<u8>, String>,
    V: Fn(&Vec<u8>, &str, &Vec<u8>, &Vec<u8>) -> bool,
    R: Fn(&Vec<u8>) -> ToolArguments,
    D: Fn(&str, u64, &str, &Blake3Digest) -> SessionKeys,
    B: DispatchBackend + ?Sized,
>(
    r: McpToolResult,
    call: McpToolCall,
    call_index: u64,
    deadline_ms: TimestampMs,
    read_key: K,
    read_signature: S,
    verify: V,
    read_arguments: R,
    derive: D,
    dispatch: &B,
) -> bool {
    exists|identity: Result<(), Seq<char>>|
        {
            &&& #[trigger] identity_outcome(call, read_key, read_signature, verify, identity)
            &&& match identity {
                Err(m) => r.failed_with(m),
                Ok(()) => authenticated_reply(
                    call,
                    call_index,
                    deadline_ms,
                    read_arguments,
                    derive,
                    dispatch,
                    r,
                ),
            }
        }
}

/// A call of a forbidden tool fails, whoever makes it and whatever the
/// arguments, and no registered tool is forbidden.
pub proof fn law_forbidden_tools_are_refused<
    K: Fn(&Vec<u8>) -> Result<Vec<u8>, String>,
    S: Fn(&Vec<u8>) -> Result<Vec<u8>, String>,
    V: Fn(&Vec<u8>, &str, &Vec<u8>, &Vec<u8>) -> bool,
    R: Fn(&Vec<u8>) -> ToolArguments,
    D: Fn(&str, u64, &str, &Blake3Digest) -> SessionKeys,
    B: DispatchBackend + ?Sized,
>(
    r: McpToolResult,
    call: McpToolCall,
    call_index: u64,
    deadline_ms: TimestampMs,
    read_key: K,
    read_signature: S,
    verify: V,
    read_arguments: R,
    derive: D,
    dispatch: &B,
)
    requires
        answers_call(
            r,
            call,
            call_index,
            deadline_ms,
            read_key,
            read_signature,
            verify,
            read_arguments,
            derive,
            dispatch,
        ),
        forbidden_named(call.tool@) is Some,
    ensures
        !r.success,
        tool_named(call.tool@) is None,
{
    if tool_named(call.tool@) is Some {
        law_registered_tools_are_not_forbidden(tool_named(call.tool@)->Some_0);
    }
}

/// A call that succeeds was made by an authenticated caller, of a registered
/// tool, with arguments that make a request.
pub proof fn law_only_authenticated_calls_succeed<
    K: Fn(&Vec<u8>) -> Result<Vec<u8>, String>,
    S: Fn(&Vec<u8>) -> Result<Vec<u8>, String>,
    V: Fn(&Vec<u8>, &str, &Vec<u8>, &Vec<u8>) -> bool,
    R: Fn(&Vec<u8>) -> ToolArguments,
    D: Fn(&str, u64, &str, &Blake3Digest) -> SessionKeys,
    B: DispatchBackend + ?Sized,
>(
    r: McpToolResult,
    call: McpToolCall,
    call_index: u64,
    deadline_ms: TimestampMs,
    read_key: K,
    read_signature: S,
    verify: V,
    read_arguments: R,
    derive: D,
    dispatch: &B,
)
    requires
        answers_call(
            r,
            call,
            call_index,
            deadline_ms,
            read_key,
            read_signature,
            verify,
            read_arguments,
            derive,
            dispatch,
        ),
        r.success,
    ensures
        identity_outcome(call, read_key, read_signature, verify, Ok(())),
        tool_named(call.tool@) is Some,
        exists|arguments: ToolArguments|
            {
                &&& #[trigger] arguments_read(read_arguments, call.arguments@, arguments)
                &&& request_outcome(tool_named(call.tool@)->Some_0, arguments) is Ok
            },
{
    let identity = choose|identity: Result<(), Seq<char>>|
        {
            &&& #[trigger] identity_outcome(call, read_key, read_signature, verify, identity)
            &&& match identity {
                Err(m) => r.failed_with(m),
                Ok(()) => authenticated_reply(
                    call,
                    call_index,
                    deadline_ms,
                    read_arguments,
                    derive,
                    dispatch,
                    r,
                ),
            }
        };
    assert(identity == Ok::<(), Seq<char>>(()));
}

/// Whether a call was carried out with the reply `r`: under the key `key` of
/// the claimed address, `signature` over the call was found to be valid, and
/// the request that the engine was handed in `envelope` is that of
/// `arguments`, which were read from the text that is signed.
pub open spec fn carried_out<
    V: Fn(&Vec<u8>, &str, &Vec<u8>, &Vec<u8>) -> bool,
    R: Fn(&Vec<u8>) -> ToolArguments,
    B: DispatchBackend + ?Sized,
>(
    r: McpToolResult,
    call: McpToolCall,
    key: Seq<u8>,
    signature: Seq<u8>,
    arguments: ToolArguments,
    envelope: AgentEnvelope,
    outcome: Result<DispatchOutcome, IntentError>,
    verify: V,
    read_arguments: R,
    dispatch: &B,
) -> bool {
    &&& address_outcome(call.caller@) == Ok::<Seq<u8>, RpcErrorView>(address_of_key(key))
    &&& signature_checked(
        verify,
        key,
        address_of_key(key) + encode_utf8(call.tool@) + call.arguments@,
        signature,
        true,
    )
    &&& arguments_read(read_arguments, call.arguments@, arguments)
    &&& tool_named(call.tool@) is Some
    &&& request_outcome(tool_named(call.tool@)->Some_0, arguments) == Ok::<
        AgentRequestView,
        RpcErrorView,
    >(envelope.request_kind@)
    &&& envelope.caller.address@ == address_of_key(key)
    &&& dispatched(dispatch, envelope, outcome)
    &&& replies_to_dispatch(r, outcome)
}

/// Of a call that succeeds, the engine was handed what was read from the text
/// that the caller signed, in the name of that caller.
pub proof fn law_what_is_signed_is_carried_out<
    K: Fn(&Vec<u8>) -> Result<Vec<u8>, String>,
    S: Fn(&Vec<u8>) -> Result<Vec<u8>, String>,
    V: Fn(&Vec<u8>, &str, &Vec<u8>, &Vec<u8>) -> bool,
    R: Fn(&Vec<u8>) -> ToolArguments,
    D: Fn(&str, u64, &str, &Blake3Digest) -> SessionKeys,
    B: DispatchBackend + ?Sized,
>(
    r: McpToolResult,
    call: McpToolCall,
    call_index: u64,
    deadline_ms: TimestampMs,
    read_key: K,
    read_signature: S,
    verify: V,
    read_arguments: R,
    derive: D,
    dispatch: &B,
)
    requires
        answers_call(
            r,
            call,
            call_index,
            deadline_ms,
            read_key,
            read_signature,
            verify,
            read_arguments,
            derive,
            dispatch,
        ),
        r.success,
    ensures
        exists|
            key: Seq<u8>,
            signature: Seq<u8>,
            arguments: ToolArguments,
            envelope: AgentEnvelope,
            outcome: Result<DispatchOutcome, IntentError>,
        |
            carried_out(
                r,
                call,
                key,
                signature,
                arguments,
                envelope,
                outcome,
                verify,
                read_arguments,
                dispatch,
            ),
{
    law_only_authenticated_calls_succeed(
        r,
        call,
        call_index,
        deadline_ms,
        read_key,
        read_signature,
        verify,
        read_arguments,
        derive,
        dispatch,
    );
    law_authenticated_callers_hold_their_address(call, read_key, read_signature, verify);
    let (key, signature) = choose|key: Seq<u8>, signature: Seq<u8>|
        {
            &&& address_outcome(call.caller@) == Ok::<Seq<u8>, RpcErrorView>(address_of_key(key))
            &&& #[trigger] signature_checked(
                verify,
                key,
                signed_payload(address_of_key(key), call),
                signature,
                true,
            )
        };
    let kind = tool_named(call.tool@)->Some_0;
    assert(authenticated_reply(
        call,
        call_index,
        deadline_ms,
        read_arguments,
        derive,
        dispatch,
        r,
    ));
    let arguments = choose|arguments: ToolArguments|
        {
            &&& #[trigger] arguments_read(read_arguments, call.arguments@, arguments)
            &&& reply_to_reading(
                kind,
                arguments,
                call,
                call_index,
                deadline_ms,
                derive,
                dispatch,
                r,
            )
        };
    let caller = address_of_key(key);
    let (envelope, outcome) = choose|
        envelope: AgentEnvelope,
        outcome: Result<DispatchOutcome, IntentError>,
    |
        {
            &&& #[trigger] dispatched(dispatch, envelope, outcome)
            &&& envelope_for_call(
                envelope,
                caller,
                derive,
                call,
                arguments,
                call_index,
                deadline_ms,
            )
            &&& replies_to_dispatch(r, outcome)
        };
    assert(carried_out(
        r,
        call,
        key,
        signature,
        arguments,
        envelope,
        outcome,
        verify,
        read_arguments,
        dispatch,
    ));
}

/// Answers a tool call: authenticates the caller, refuses forbidden, unknown
/// and malformed calls, and hands the request that the call makes to the
/// engine.
///
/// `read_key`, `read_signature` and `verify` are the signature scheme,
/// `read_arguments` reads the text of the arguments, `derive` keys the call to
/// its session and `dispatch` is the engine.
pub fn handle_tool_call<
    K: Fn(&Vec<u8>) -> Result<Vec<u8>, String>,
    S: Fn(&Vec<u8>) -> Result<Vec<u8>, String>,
    V: Fn(&Vec<u8>, &str, &Vec<u8>, &Vec<u8>) -> bool,
    R: Fn(&Vec<u8>) -> ToolArguments,
    D: Fn(&str, u64, &str, &Blake3Digest) -> SessionKeys,
    B: DispatchBackend + ?Sized,
>(
    call: &McpToolCall,
    call_index: u64,
    deadline_ms: TimestampMs,
    read_key: &K,
    read_signature: &S,
    verify: &V,
    read_arguments: &R,
    derive: &D,
    dispatch: &B,
) -> (r: McpToolResult)
    requires
        forall|arg: &Vec<u8>| #[trigger] read_key.requires((arg,)),
        forall|arg: &Vec<u8>| #[trigger] read_signature.requires((arg,)),
        forall|k: &Vec<u8>, d: &str, p: &Vec<u8>, s: &Vec<u8>| #[trigger]
            verify.requires((k, d, p, s)),
        forall|arg: &Vec<u8>| #[trigger] read_arguments.requires((arg,)),
        forall|s: &str, n: u64, t: &str, h: &Blake3Digest| #[trigger]
            derive.requires((s, n, t, h)),
    ensures
        answers_call(
            r,
            *call,
            call_index,
            deadline_ms,
            *read_key,
            *read_signature,
            *verify,
            *read_arguments,
            *derive,
            dispatch,
        ),
{
    let identity = verify_caller_identity(call, read_key, read_signature, verify);
    let ghost seen = told(identity);
    assert(identity_outcome(*call, *read_key, *read_signature, *verify, seen));
    if let Err(m) = identity {
        return McpToolResult::err(m);
    }
    let kind = match requested_tool(call) {
        Ok(kind) => kind,
        Err(m) => {
            return McpToolResult::err(m);
        },
    };
    let arguments = read_arguments(&call.arguments);
    assert(arguments_read(*read_arguments, call.arguments@, arguments)) by {
        assert(read_arguments.ensures((&call.arguments,), arguments));
    }
    let request_kind = match translate_request_kind(kind, &arguments) {
        Ok(request_kind) => request_kind,
        Err(e) => {
            return McpToolResult::err(e.to_string());
        },
    };
    let keys = derive_keys(derive, call, call_index);
    let envelope = match build_envelope_from_mcp(
        call,
        request_kind,
        keys.session_id,
        keys.request_id,
        keys.idempotency_key,
        deadline_ms,
    ) {
        Ok(envelope) => envelope,
        Err(e) => {
            return McpToolResult::err(e.to_string());
        },
    };
    let outcome = dispatch.dispatch(&envelope);
    assert(dispatched(dispatch, envelope, outcome));
    dispatch_reply(outcome)
}

} // verus!
