//! `GET /v2/events`: contract events.

use vstd::prelude::*;
use vstd::string::*;

use crate::primitives::hexadecimal::lemma_decoding_is_unique;
use crate::primitives::text::join;
use crate::primitives::AccountAddress;
use crate::rpc::dto::EventQueryResponse;
use crate::rpc::error::{RpcError, RpcResult};
use crate::rpc::rest::backends::{not_available, EventBackend};
use crate::rpc::rest::exact_outcome;

verus! {

/// Number of events on a page where the request does not say.
pub const DEFAULT_EVENT_LIMIT: u32 = 50;

/// Largest number of events on a page.
pub const MAX_EVENT_LIMIT: u32 = 200;

/// Which events to return.
#[derive(Debug, Clone)]
pub struct EventQueryParams {
    /// Only events of the contract with this hexadecimal address.
    pub contract: Option<String>,
    /// Only events with this type tag.
    pub event_type: Option<String>,
    /// Only events after this block.
    pub after_seq: Option<u64>,
    /// Only events before this block.
    pub before_seq: Option<u64>,
    /// Most events to return: fifty where it is absent, two hundred at most.
    pub limit: Option<u32>,
    /// Where the page begins, from an earlier response.
    pub cursor: Option<String>,
}

/// The number of events on a page.
pub open spec fn event_limit(limit: Option<u32>) -> u32 {
    match limit {
        None => DEFAULT_EVENT_LIMIT,
        Some(n) => if n <= MAX_EVENT_LIMIT {
            n
        } else {
            MAX_EVENT_LIMIT
        },
    }
}

/// A text that may be absent, by its characters.
pub open spec fn same_text(a: Option<&str>, b: Option<String>) -> bool {
    match (a, b) {
        (Some(x), Some(y)) => x@ == y@,
        (None, None) => true,
        _ => false,
    }
}

/// Whether the backend answers with `answer` when asked for the events that
/// `params` describes, of the contract `contract`.
pub open spec fn events_asked<B: EventBackend + ?Sized>(
    backend: &B,
    params: EventQueryParams,
    contract: Option<AccountAddress>,
    answer: RpcResult<EventQueryResponse>,
) -> bool {
    exists|event_type: Option<&str>, cursor: Option<&str>|
        {
            &&& #[trigger] call_ensures(
                B::query_events,
                (
                    backend,
                    contract,
                    event_type,
                    params.after_seq,
                    params.before_seq,
                    event_limit(params.limit),
                    cursor,
                ),
                answer,
            )
            &&& same_text(event_type, params.event_type)
            &&& same_text(cursor, params.cursor)
        }
}

fn optional_str(text: &Option<String>) -> (r: Option<&str>)
    ensures
        same_text(r, *text),
{
    match text {
        Some(t) => Some(t.as_str()),
        None => None,
    }
}

fn parse_contract(hex_str: &str) -> (r: Result<AccountAddress, RpcError>)
    ensures
        match exact_outcome(hex_str@, "invalid contract address: "@) {
            Ok(bytes) => r is Ok && r->Ok_0@ == bytes,
            Err(e) => r is Err && r->Err_0@ == e,
        },
{
    proof {
        lemma_decoding_is_unique(hex_str@);
    }
    match AccountAddress::from_hex(hex_str) {
        Ok(address) => Ok(address),
        Err(e) => Err(
            RpcError::BadRequest(join("invalid contract address: ", e.to_string().as_str())),
        ),
    }
}

/// The contract events that match all given filters.
pub fn query_events<B: EventBackend + ?Sized>(backend: Option<&B>, params: &EventQueryParams) -> (r: RpcResult<
    EventQueryResponse,
>)
    ensures
        match backend {
            None => not_available(r, "event queries not available"@),
            Some(b) => match params.contract {
                None => events_asked(b, *params, None, r),
                Some(text) => match exact_outcome(text@, "invalid contract address: "@) {
                    Err(e) => r is Err && r->Err_0@ == e,
                    Ok(bytes) => exists|address: AccountAddress|
                        {
                            &&& address@ == bytes
                            &&& #[trigger] events_asked(b, *params, Some(address), r)
                        },
                },
            },
        },
{
    let b = match backend {
        Some(b) => b,
        None => {
            return Err(RpcError::Unavailable("event queries not available".to_owned()));
        },
    };
    let contract: Option<AccountAddress> = match &params.contract {
        None => None,
        Some(text) => match parse_contract(text.as_str()) {
            Ok(address) => Some(address),
            Err(e) => {
                return Err(e);
            },
        },
    };
    let limit: u32 = match params.limit {
        None => DEFAULT_EVENT_LIMIT,
        Some(n) => if n <= MAX_EVENT_LIMIT {
            n
        } else {
            MAX_EVENT_LIMIT
        },
    };
    let event_type = optional_str(&params.event_type);
    let cursor = optional_str(&params.cursor);
    let r = b.query_events(
        contract,
        event_type,
        params.after_seq,
        params.before_seq,
        limit,
        cursor,
    );
    assert(events_asked(b, *params, contract, r)) by {
        assert(call_ensures(
            B::query_events,
            (
                b,
                contract,
                event_type,
                params.after_seq,
                params.before_seq,
                event_limit(params.limit),
                cursor,
            ),
            r,
        ));
    }
    r
}

} // verus!
