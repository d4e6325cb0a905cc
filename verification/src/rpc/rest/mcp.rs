//! Tools over HTTP.

use vstd::prelude::*;
use vstd::string::*;

use crate::primitives::{Blake3Digest, TimestampMs};
use crate::rpc::error::{RpcError, RpcErrorView, RpcResult};
use crate::rpc::mcp::handler::{answers_call, handle_tool_call, SessionKeys};
use crate::rpc::mcp::registry::{all_tools, description_of, tool_name_of, McpToolKind};
use crate::rpc::mcp::schema::{McpToolCall, McpToolResult, ToolArguments};
use crate::rpc::rest::backends::DispatchBackend;

verus! {

/// What the tool listing says of a tool.
#[derive(Debug, Clone)]
pub struct McpToolDescriptor {
    /// Name of the tool.
    pub name: &'static str,
    /// What the tool does.
    pub description: &'static str,
    /// Whether a call changes the chain's state.
    pub mutating: bool,
    /// Whether a call may wait for a human's confirmation.
    pub may_require_confirmation: bool,
}

/// Whether `d` describes the tool `kind`.
pub open spec fn describes(d: McpToolDescriptor, kind: McpToolKind) -> bool {
    &&& d.name@ == tool_name_of(kind)
    &&& d.mutating == (kind == McpToolKind::ExecutePlan)
    &&& d.may_require_confirmation == (kind == McpToolKind::ExecutePlan)
    &&& d.description@ == description_of(kind)
}

/// `GET /v2/mcp/tools`: the tools that may be called.
pub fn list_tools() -> (r: Vec<McpToolDescriptor>)
    ensures
        r@.len() == all_tools().len(),
        forall|i: int| 0 <= i < r@.len() ==> describes(#[trigger] r@[i], all_tools()[i]),
{
    let tools = McpToolKind::all();
    let mut out: Vec<McpToolDescriptor> = Vec::new();
    let mut i: usize = 0;
    while i < 6
        invariant
            0 <= i <= 6,
            tools@ == all_tools(),
            out@.len() == i,
            forall|j: int| 0 <= j < i ==> describes(#[trigger] out@[j], all_tools()[j]),
        decreases 6 - i,
    {
        let kind: McpToolKind = tools[i];
        out.push(
            McpToolDescriptor {
                name: kind.tool_name(),
                description: kind.description(),
                mutating: kind.is_mutating(),
                may_require_confirmation: kind.may_require_confirmation(),
            },
        );
        i = i + 1;
    }
    out
}

/// The deadline of a call that comes in at `now` and may take `timeout_ms`
/// milliseconds.
pub open spec fn call_deadline(now: TimestampMs, timeout_ms: u64) -> TimestampMs {
    if now.0 + timeout_ms <= u64::MAX {
        TimestampMs((now.0 + timeout_ms) as u64)
    } else {
        TimestampMs(u64::MAX)
    }
}

/// The number of the call after the one with the number `index`; the numbers
/// wrap round at their limit.
pub open spec fn following_index(index: u64) -> u64 {
    if index < u64::MAX {
        (index + 1) as u64
    } else {
        0
    }
}

/// Admits a tool call: where there is an engine, the call gets the next number
/// of `call_index`.
pub fn admit_call<'a, B: DispatchBackend + ?Sized>(
    dispatch: Option<&'a B>,
    call_index: &mut u64,
) -> (r: RpcResult<(&'a B, u64)>)
    ensures
        match dispatch {
            None => {
                &&& r is Err
                &&& r->Err_0@ == RpcErrorView::Unavailable("mcp dispatcher not available"@)
                &&& *final(call_index) == *old(call_index)
            },
            Some(b) => {
                &&& r is Ok
                &&& r->Ok_0.0 == b
                &&& r->Ok_0.1 == *old(call_index)
                &&& *final(call_index) == following_index(*old(call_index))
            },
        },
{
    match dispatch {
        Some(b) => {
            let index: u64 = *call_index;
            *call_index = if index < u64::MAX {
                index + 1
            } else {
                0
            };
            Ok((b, index))
        },
        None => Err(RpcError::Unavailable("mcp dispatcher not available".to_owned())),
    }
}

/// The next number after `n` calls were admitted from the number `index` on.
pub open spec fn index_after(index: u64, n: nat) -> u64
    decreases n,
{
    if n == 0 {
        index
    } else {
        following_index(index_after(index, (n - 1) as nat))
    }
}

proof fn lemma_index_counts(index: u64, n: nat)
    ensures
        index_after(index, n) == (index + n) % 0x1_0000_0000_0000_0000,
    decreases n,
{
    if n > 0 {
        lemma_index_counts(index, (n - 1) as nat);
    }
}

/// The calls that are admitted from some time on get different numbers, as
/// long as there are enough of them.
pub proof fn law_calls_are_numbered_apart(index: u64, i: nat, j: nat)
    requires
        i < j,
        j - i <= u64::MAX,
    ensures
        index_after(index, i) != index_after(index, j),
{
    lemma_index_counts(index, i);
    lemma_index_counts(index, j);
}

/// Answers a call that was admitted with the number `index` and comes in at
/// `now`.
pub fn answer_admitted<
    K: Fn(&Vec<u8>) -> Result<Vec<u8>, String>,
    S: Fn(&Vec<u8>) -> Result<Vec<u8>, String>,
    V: Fn(&Vec<u8>, &str, &Vec<u8>, &Vec<u8>) -> bool,
    R: Fn(&Vec<u8>) -> ToolArguments,
    D: Fn(&str, u64, &str, &Blake3Digest) -> SessionKeys,
    B: DispatchBackend + ?Sized,
>(
    dispatch: &B,
    call: &McpToolCall,
    index: u64,
    now: TimestampMs,
    timeout_ms: u64,
    read_key: &K,
    read_signature: &S,
    verify: &V,
    read_arguments: &R,
    derive: &D,
) -> (r: McpToolResult)
    requires
        forall|arg: &Vec<u8>| #[trigger] read_key.requires((arg,)),
        forall|arg: &Vec<u8>| #[trigger] read_signature.requires((arg,)),
        forall|k: &Vec<u8>, d: &str, p: &Vec<u8>, s: &Vec<u8>| #[trigger]
            verify.requires((k, d, p, s)),
        forall|arg: &Vec<u8>| #[trigger] read_arguments.requires((arg,)),
        forall|s: &str, n: u64, t: &str, h: &Blake3Digest| #[trigger]
            derive.requires((s, n, t, h)),
    ensures
        answers_call(
            r,
            *call,
            index,
            call_deadline(now, timeout_ms),
            *read_key,
            *read_signature,
            *verify,
            *read_arguments,
            *derive,
            dispatch,
        ),
{
    let deadline = if timeout_ms <= u64::MAX - now.0 {
        TimestampMs(now.0 + timeout_ms)
    } else {
        TimestampMs(u64::MAX)
    };
    handle_tool_call(
        call,
        index,
        deadline,
        read_key,
        read_signature,
        verify,
        read_arguments,
        derive,
        dispatch,
    )
}

/// `POST /v2/mcp/call`: answers a tool call that comes in at `now`. Every call
/// that reaches the engine's adapter gets the next number of `call_index`.
pub fn call_tool<
    K: Fn(&Vec<u8>) -> Result<Vec<u8>, String>,
    S: Fn(&Vec<u8>) -> Result<Vec<u8>, String>,
    V: Fn(&Vec<u8>, &str, &Vec<u8>, &Vec<u8>) -> bool,
    R: Fn(&Vec<u8>) -> ToolArguments,
    D: Fn(&str, u64, &str, &Blake3Digest) -> SessionKeys,
    B: DispatchBackend + ?Sized,
>(
    dispatch: Option<&B>,
    call: &McpToolCall,
    call_index: &mut u64,
    now: TimestampMs,
    timeout_ms: u64,
    read_key: &K,
    read_signature: &S,
    verify: &V,
    read_arguments: &R,
    derive: &D,
) -> (r: RpcResult<McpToolResult>)
    requires
        forall|arg: &Vec<u8>| #[trigger] read_key.requires((arg,)),
        forall|arg: &Vec<u8>| #[trigger] read_signature.requires((arg,)),
        forall|k: &Vec<u8>, d: &str, p: &Vec<u8>, s: &Vec<u8>| #[trigger]
            verify.requires((k, d, p, s)),
        forall|arg: &Vec<u8>| #[trigger] read_arguments.requires((arg,)),
        forall|s: &str, n: u64, t: &str, h: &Blake3Digest| #[trigger]
            derive.requires((s, n, t, h)),
    ensures
        match dispatch {
            None => {
                &&& r is Err
                &&& r->Err_0@ == RpcErrorView::Unavailable("mcp dispatcher not available"@)
                &&& *final(call_index) == *old(call_index)
            },
            Some(b) => {
                &&& *final(call_index) == following_index(*old(call_index))
                &&& r is Ok
                &&& answers_call(
                    r->Ok_0,
                    *call,
                    *old(call_index),
                    call_deadline(now, timeout_ms),
                    *read_key,
                    *read_signature,
                    *verify,
                    *read_arguments,
                    *derive,
                    b,
                )
            },
        },
{
    match admit_call(dispatch, call_index) {
        Ok((b, index)) => Ok(
            answer_admitted(
                b,
                call,
                index,
                now,
                timeout_ms,
                read_key,
                read_signature,
                verify,
                read_arguments,
                derive,
            ),
        ),
        Err(e) => Err(e),
    }
}

} // verus!
