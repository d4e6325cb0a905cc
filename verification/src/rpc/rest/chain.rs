//! `GET /v2/chain/head`: the latest committed block.

use vstd::prelude::*;
use vstd::string::*;

use crate::rpc::dto::ChainHeadDto;
use crate::rpc::error::{message_of, RpcError, RpcErrorView, RpcResult};
use crate::rpc::rest::backends::QueryBackend;

verus! {

/// Whether the backend answers with `answer` when asked for the chain head.
pub open spec fn head_asked<Q: QueryBackend + ?Sized>(
    query: &Q,
    answer: RpcResult<Option<ChainHeadDto>>,
) -> bool {
    call_ensures(Q::chain_head, (query,), answer)
}

/// Whether `r` is the reply where the backend answered `answer`. Any failure
/// is reported as an internal one.
pub open spec fn head_reported(
    r: RpcResult<ChainHeadDto>,
    answer: RpcResult<Option<ChainHeadDto>>,
) -> bool {
    match answer {
        Err(e) => r is Err && r->Err_0@ == RpcErrorView::Internal(message_of(e@)),
        Ok(None) => r is Err && r->Err_0@ == RpcErrorView::NotFound("no committed block yet"@),
        Ok(Some(head)) => r is Ok && r->Ok_0 == head,
    }
}

/// The reply where the backend answered `answer`.
pub fn chain_head_reply(answer: RpcResult<Option<ChainHeadDto>>) -> (r: RpcResult<ChainHeadDto>)
    ensures
        head_reported(r, answer),
{
    match answer {
        Err(e) => Err(RpcError::Internal(e.to_string())),
        Ok(None) => Err(RpcError::NotFound("no committed block yet".to_owned())),
        Ok(Some(head)) => Ok(head),
    }
}

/// The latest committed block.
pub fn chain_head<Q: QueryBackend + ?Sized>(query: &Q) -> (r: RpcResult<ChainHeadDto>)
    ensures
        exists|answer: RpcResult<Option<ChainHeadDto>>|
            {
                &&& #[trigger] head_asked(query, answer)
                &&& head_reported(r, answer)
            },
{
    let answer = query.chain_head();
    assert(head_asked(query, answer));
    chain_head_reply(answer)
}

} // verus!
