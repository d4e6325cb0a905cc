//! Hashed time locks.

use vstd::prelude::*;
use vstd::string::*;

use crate::primitives::text::join;
use crate::primitives::Blake3Digest;
use crate::rpc::dto::{HtlcLockDto, HtlcPendingListDto};
use crate::rpc::error::{RpcError, RpcErrorView, RpcResult};
use crate::rpc::rest::backends::{not_available, HtlcBackend};
use crate::rpc::rest::{exact_outcome, parse_exact_digest};

verus! {

/// Number of pending locks that are listed.
pub const DEFAULT_PENDING_LIMIT: u32 = 100;

/// Whether the backend answers with `answer` when asked for a lock.
pub open spec fn lock_asked<B: HtlcBackend + ?Sized>(
    backend: &B,
    digest: Blake3Digest,
    answer: RpcResult<Option<HtlcLockDto>>,
) -> bool {
    call_ensures(B::get_htlc_lock, (backend, &digest), answer)
}

/// Whether `r` is the reply where the backend answered `answer` for the lock
/// named `name`.
pub open spec fn lock_reported(
    r: RpcResult<HtlcLockDto>,
    name: Seq<char>,
    answer: RpcResult<Option<HtlcLockDto>>,
) -> bool {
    match answer {
        Err(e) => r is Err && r->Err_0 == e,
        Ok(None) => r is Err && r->Err_0@ == RpcErrorView::NotFound(
            "HTLC lock not found: "@ + name,
        ),
        Ok(Some(lock)) => r is Ok && r->Ok_0 == lock,
    }
}

/// `GET /v2/htlc/:lock_digest`: a lock, by its hexadecimal digest.
pub fn htlc_by_digest<B: HtlcBackend + ?Sized>(backend: Option<&B>, lock_digest_hex: &str) -> (r: RpcResult<
    HtlcLockDto,
>)
    ensures
        match backend {
            None => not_available(r, "HTLC backend not available"@),
            Some(b) => match exact_outcome(lock_digest_hex@, "invalid lock digest: "@) {
                Err(e) => r is Err && r->Err_0@ == e,
                Ok(bytes) => exists|digest: Blake3Digest, answer: RpcResult<Option<HtlcLockDto>>|
                    {
                        &&& #[trigger] lock_asked(b, digest, answer)
                        &&& digest@ == bytes
                        &&& lock_reported(r, lock_digest_hex@, answer)
                    },
            },
        },
{
    let b = match backend {
        Some(b) => b,
        None => {
            return Err(RpcError::Unavailable("HTLC backend not available".to_owned()));
        },
    };
    let digest = match parse_exact_digest(lock_digest_hex, "invalid lock digest: ") {
        Ok(digest) => digest,
        Err(e) => {
            return Err(e);
        },
    };
    let answer = b.get_htlc_lock(&digest);
    assert(lock_asked(b, digest, answer));
    match answer {
        Ok(Some(lock)) => Ok(lock),
        Ok(None) => Err(RpcError::NotFound(join("HTLC lock not found: ", lock_digest_hex))),
        Err(e) => Err(e),
    }
}

/// `GET /v2/htlc/pending`: the locks that are neither claimed nor refunded.
pub fn htlc_pending<B: HtlcBackend + ?Sized>(backend: Option<&B>) -> (r: RpcResult<HtlcPendingListDto>)
    ensures
        match backend {
            None => not_available(r, "HTLC backend not available"@),
            Some(b) => call_ensures(B::list_pending_htlc_locks, (b, DEFAULT_PENDING_LIMIT), r),
        },
{
    match backend {
        None => Err(RpcError::Unavailable("HTLC backend not available".to_owned())),
        Some(b) => b.list_pending_htlc_locks(DEFAULT_PENDING_LIMIT),
    }
}

} // verus!
