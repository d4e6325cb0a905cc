//! Committed blocks.

use vstd::prelude::*;

use crate::rpc::dto::{
    BlockDto, BlockHeaderDto, BlockReceiptsDto, ZkProofDto,
};
use crate::rpc::error::{RpcError, RpcErrorView, RpcResult};
use crate::rpc::rest::backends::{not_available, BlockBackend};

verus! {

fn no_backend() -> (e: RpcError)
    ensures
        e@ == RpcErrorView::Unavailable("block queries not available"@),
{
    RpcError::Unavailable("block queries not available".to_owned())
}

/// `GET /v2/block/:seq/header`: the summary of a block.
pub fn block_header<B: BlockBackend + ?Sized>(backend: Option<&B>, seq: u64) -> (r: RpcResult<BlockHeaderDto>)
    ensures
        match backend {
            None => not_available(r, "block queries not available"@),
            Some(b) => call_ensures(B::block_header, (b, seq), r),
        },
{
    match backend {
        None => Err(no_backend()),
        Some(b) => b.block_header(seq),
    }
}

/// `GET /v2/block/:seq`: a block with its transactions.
pub fn block_full<B: BlockBackend + ?Sized>(backend: Option<&B>, seq: u64) -> (r: RpcResult<BlockDto>)
    ensures
        match backend {
            None => not_available(r, "block queries not available"@),
            Some(b) => call_ensures(B::block_full, (b, seq), r),
        },
{
    match backend {
        None => Err(no_backend()),
        Some(b) => b.block_full(seq),
    }
}

/// `GET /v2/block/:seq/receipts`: the receipts of a block.
pub fn block_receipts<B: BlockBackend + ?Sized>(backend: Option<&B>, seq: u64) -> (r: RpcResult<BlockReceiptsDto>)
    ensures
        match backend {
            None => not_available(r, "block queries not available"@),
            Some(b) => call_ensures(B::block_receipts, (b, seq), r),
        },
{
    match backend {
        None => Err(no_backend()),
        Some(b) => b.block_receipts(seq),
    }
}

/// `GET /v2/block/:seq/zk-proof`: the proof of a block.
pub fn block_zk_proof<B: BlockBackend + ?Sized>(backend: Option<&B>, seq: u64) -> (r: RpcResult<ZkProofDto>)
    ensures
        match backend {
            None => not_available(r, "block queries not available"@),
            Some(b) => call_ensures(B::block_zk_proof, (b, seq), r),
        },
{
    match backend {
        None => Err(no_backend()),
        Some(b) => b.block_zk_proof(seq),
    }
}

} // verus!
