//! Transactions.

use vstd::prelude::*;
use vstd::string::*;

use crate::primitives::text::{join, join3};
use crate::primitives::{AccountAddress, Blake3Digest, ShardId, TxDigest};
use crate::rpc::dto::{TransactionReceiptDto, TxSubmitResponse};
use crate::rpc::error::{RpcError, RpcErrorView, RpcResult};
use crate::rpc::mcp::schema::{digest_outcome, parse_digest};
use crate::rpc::rest::backends::QueryBackend;

verus! {

/// Whether the backend answers with `answer` when asked for a receipt.
pub open spec fn receipt_asked<Q: QueryBackend + ?Sized>(
    query: &Q,
    digest: TxDigest,
    answer: RpcResult<Option<TransactionReceiptDto>>,
) -> bool {
    call_ensures(Q::transaction_receipt, (query, &digest), answer)
}

/// Whether `r` is the reply where the backend answered `answer` for the
/// transaction named `name`.
pub open spec fn receipt_reported(
    r: RpcResult<TransactionReceiptDto>,
    name: Seq<char>,
    answer: RpcResult<Option<TransactionReceiptDto>>,
) -> bool {
    match answer {
        Err(e) => r is Err && r->Err_0 == e,
        Ok(None) => r is Err && r->Err_0@ == RpcErrorView::NotFound(
            "transaction "@ + name + " not found"@,
        ),
        Ok(Some(receipt)) => r is Ok && r->Ok_0 == receipt,
    }
}

/// `GET /v2/tx/{hash}/status`: the receipt of a transaction, by its
/// hexadecimal digest.
pub fn tx_status<Q: QueryBackend + ?Sized>(query: &Q, hash_hex: &str) -> (r: RpcResult<TransactionReceiptDto>)
    ensures
        match digest_outcome(hash_hex@) {
            Err(e) => r is Err && r->Err_0@ == e,
            Ok(bytes) => exists|
                digest: Blake3Digest,
                answer: RpcResult<Option<TransactionReceiptDto>>,
            |
                {
                    &&& #[trigger] receipt_asked(query, digest, answer)
                    &&& digest@ == bytes
                    &&& receipt_reported(r, hash_hex@, answer)
                },
        },
{
    let digest = match parse_digest(hash_hex) {
        Ok(digest) => digest,
        Err(e) => {
            return Err(e);
        },
    };
    let answer = query.transaction_receipt(&digest);
    assert(receipt_asked(query, digest, answer));
    match answer {
        Ok(Some(receipt)) => Ok(receipt),
        Ok(None) => Err(RpcError::NotFound(join3("transaction ", hash_hex, " not found"))),
        Err(e) => Err(e),
    }
}

/// Whether `derive` assigns `shard` to the sender among `num_shards` shards.
pub open spec fn shard_derived<D: Fn(&AccountAddress, u16) -> ShardId>(
    derive: D,
    sender: AccountAddress,
    num_shards: u16,
    shard: ShardId,
) -> bool {
    derive.ensures((&sender, num_shards), shard)
}

/// The shard that a submitted transaction is sent to. Where the client left it
/// open and there are shards, `derive` assigns one by the sender.
pub fn resolve_target_shard<D: Fn(&AccountAddress, u16) -> ShardId>(
    has_broadcaster: bool,
    target_shard: Option<ShardId>,
    sender: &AccountAddress,
    num_shards: u16,
    derive: D,
) -> (r: RpcResult<Option<ShardId>>)
    requires
        forall|s: &AccountAddress, n: u16| n > 0 ==> #[trigger] derive.requires((s, n)),
    ensures
        if !has_broadcaster {
            r is Err && r->Err_0@ == RpcErrorView::Unavailable(
                "transaction broadcast service not available"@,
            )
        } else {
            &&& r is Ok
            &&& if target_shard is None && num_shards > 0 {
                r->Ok_0 is Some && shard_derived(derive, *sender, num_shards, r->Ok_0->Some_0)
            } else {
                r->Ok_0 == target_shard
            }
        },
{
    if !has_broadcaster {
        return Err(
            RpcError::Unavailable("transaction broadcast service not available".to_owned()),
        );
    }
    match target_shard {
        Some(shard) => Ok(Some(shard)),
        None => {
            if num_shards > 0 {
                Ok(Some(derive(sender, num_shards)))
            } else {
                Ok(None)
            }
        },
    }
}

/// How the submission of a transaction went.
#[derive(Debug)]
pub enum SubmitRun {
    /// The transaction could not be encoded, for the reason given.
    EncodeFailed(String),
    /// The transaction was handed to the broadcaster.
    Broadcast(RpcResult<()>),
}

/// Whether `r` is the reply to a submission that went as `run`.
pub open spec fn submission_reported(
    r: RpcResult<TxSubmitResponse>,
    digest: TxDigest,
    run: SubmitRun,
) -> bool {
    match run {
        SubmitRun::EncodeFailed(reason) => r is Err && r->Err_0@ == RpcErrorView::Serialization(
            "BCS encode failed: "@ + reason@,
        ),
        SubmitRun::Broadcast(Err(e)) => r is Err && r->Err_0 == e,
        SubmitRun::Broadcast(Ok(())) => r is Ok && r->Ok_0 == (TxSubmitResponse {
            tx_digest: digest,
            accepted: true,
        }),
    }
}

/// `POST /v2/tx/submit`: the reply to a submission that went as `run`.
pub fn submit_tx(digest: TxDigest, run: SubmitRun) -> (r: RpcResult<TxSubmitResponse>)
    ensures
        submission_reported(r, digest, run),
{
    match run {
        SubmitRun::EncodeFailed(reason) => Err(
            RpcError::Serialization(join("BCS encode failed: ", reason.as_str())),
        ),
        SubmitRun::Broadcast(Err(e)) => Err(e),
        SubmitRun::Broadcast(Ok(())) => Ok(TxSubmitResponse { tx_digest: digest, accepted: true }),
    }
}

} // verus!
