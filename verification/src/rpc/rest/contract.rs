//! `POST /v2/contract/query`: executes a read-only view function.
//!
//! The query runs on another thread and is given up after a time. What it is
//! answered depends on how the run ended.

use vstd::prelude::*;
use vstd::string::*;

use crate::primitives::text::{decimal, decimal_text, join, join3};
use crate::rpc::dto::ContractQueryResponse;
use crate::rpc::error::{RpcError, RpcErrorView, RpcResult};

verus! {

/// How the run of a query ended.
#[derive(Debug)]
pub enum QueryRun {
    /// It took too long.
    TimedOut,
    /// It ended without an answer, for the reason given.
    Broken(String),
    /// It ended with an answer.
    Answered(RpcResult<ContractQueryResponse>),
}

/// Whether `r` is the reply to a query whose run ended as `run`, where a run
/// may take `timeout_ms` milliseconds and use `gas_budget` gas.
pub open spec fn query_answered(
    r: RpcResult<ContractQueryResponse>,
    run: QueryRun,
    timeout_ms: u64,
    gas_budget: u64,
) -> bool {
    match run {
        QueryRun::TimedOut => {
            &&& r is Err
            &&& r->Err_0@ == RpcErrorView::Unavailable(
                "contract query timed out after "@ + decimal(timeout_ms as nat) + " ms"@,
            )
        },
        QueryRun::Broken(reason) => {
            &&& r is Err
            &&& r->Err_0@ == RpcErrorView::Internal(
                "contract query task join failed: "@ + reason@,
            )
        },
        QueryRun::Answered(Err(e)) => r is Err && r->Err_0 == e,
        QueryRun::Answered(Ok(response)) => if response.gas_used > gas_budget {
            &&& r is Err
            &&& r->Err_0@ == RpcErrorView::BadRequest(
                "contract query exceeded gas budget: used "@ + decimal(response.gas_used as nat)
                    + " > budget "@ + decimal(gas_budget as nat),
            )
        } else {
            r is Ok && r->Ok_0 == response
        },
    }
}

/// The reply to a query whose run ended as `run`.
pub fn contract_query(run: QueryRun, timeout_ms: u64, gas_budget: u64) -> (r: RpcResult<
    ContractQueryResponse,
>)
    ensures
        query_answered(r, run, timeout_ms, gas_budget),
{
    match run {
        QueryRun::TimedOut => Err(
            RpcError::Unavailable(
                join3(
                    "contract query timed out after ",
                    decimal_text(timeout_ms).as_str(),
                    " ms",
                ),
            ),
        ),
        QueryRun::Broken(reason) => Err(
            RpcError::Internal(join("contract query task join failed: ", reason.as_str())),
        ),
        QueryRun::Answered(Err(e)) => Err(e),
        QueryRun::Answered(Ok(response)) => {
            if response.gas_used > gas_budget {
                let mut text = join3(
                    "contract query exceeded gas budget: used ",
                    decimal_text(response.gas_used).as_str(),
                    " > budget ",
                );
                text.append(decimal_text(gas_budget).as_str());
                Err(RpcError::BadRequest(text))
            } else {
                Ok(response)
            }
        },
    }
}

/// No answer that used more gas than the budget is handed out.
pub proof fn law_answers_keep_to_the_budget(
    r: RpcResult<ContractQueryResponse>,
    run: QueryRun,
    timeout_ms: u64,
    gas_budget: u64,
)
    requires
        query_answered(r, run, timeout_ms, gas_budget),
        r is Ok,
    ensures
        r->Ok_0.gas_used <= gas_budget,
{
}

} // verus!
