//! The shards of the network.

use vstd::prelude::*;
use vstd::string::*;

use crate::primitives::text::{decimal, decimal_text, join3};
use crate::rpc::dto::{ShardChainHeadDto, ShardInfoDto, ShardTopologyDto};
use crate::rpc::error::{RpcError, RpcErrorView, RpcResult};
use crate::rpc::rest::backends::{not_available, ConsensusBackend};

verus! {

/// Whether the backend answers with `answer` when asked for the shards.
pub open spec fn topology_asked<B: ConsensusBackend + ?Sized>(
    backend: &B,
    answer: RpcResult<ShardTopologyDto>,
) -> bool {
    call_ensures(B::shard_topology, (backend,), answer)
}

/// Whether `r` lists `num_shards` shards without validators.
pub open spec fn is_minimal_topology(r: ShardTopologyDto, num_shards: u16) -> bool {
    &&& r.num_shards == num_shards
    &&& r.shards@.len() == num_shards
    &&& forall|i: int|
        0 <= i < num_shards ==> (#[trigger] r.shards@[i]).shard_id == i
            && r.shards@[i].validators@.len() == 0
}

fn minimal_topology(num_shards: u16) -> (r: ShardTopologyDto)
    ensures
        is_minimal_topology(r, num_shards),
{
    let mut shards: Vec<ShardInfoDto> = Vec::new();
    let mut id: u16 = 0;
    while id < num_shards
        invariant
            0 <= id <= num_shards,
            shards@.len() == id,
            forall|i: int|
                0 <= i < id ==> (#[trigger] shards@[i]).shard_id == i
                    && shards@[i].validators@.len() == 0,
        decreases num_shards - id,
    {
        shards.push(ShardInfoDto { shard_id: id, validators: Vec::new() });
        id = id + 1;
    }
    ShardTopologyDto { num_shards, shards }
}

/// `GET /v2/shards`: the shards and the validators that serve them. Where the
/// backend does not know, the configured number of shards is listed without
/// validators.
pub fn shard_topology<B: ConsensusBackend + ?Sized>(backend: Option<&B>, num_shards: u16) -> (r: RpcResult<
    ShardTopologyDto,
>)
    ensures
        r is Ok,
        match backend {
            None => is_minimal_topology(r->Ok_0, num_shards),
            Some(b) => exists|answer: RpcResult<ShardTopologyDto>|
                {
                    &&& #[trigger] topology_asked(b, answer)
                    &&& match answer {
                        Ok(topology) => r->Ok_0 == topology,
                        Err(_) => is_minimal_topology(r->Ok_0, num_shards),
                    }
                },
        },
{
    if let Some(b) = backend {
        let answer = b.shard_topology();
        assert(topology_asked(b, answer));
        if let Ok(topology) = answer {
            return Ok(topology);
        }
    }
    Ok(minimal_topology(num_shards))
}

/// `GET /v2/shards/:shard_id/head`: the chain head of a shard. A shard beyond
/// the configured number is not found, unless that number is zero.
pub fn shard_chain_head<B: ConsensusBackend + ?Sized>(
    backend: Option<&B>,
    shard_id: u16,
    num_shards: u16,
) -> (r: RpcResult<ShardChainHeadDto>)
    ensures
        if shard_id >= num_shards && num_shards > 0 {
            r is Err && r->Err_0@ == RpcErrorView::NotFound(
                "shard "@ + decimal(shard_id as nat) + " does not exist (num_shards="@ + decimal(
                    num_shards as nat,
                ) + ")"@,
            )
        } else {
            match backend {
                None => not_available(r, "consensus backend not available"@),
                Some(b) => call_ensures(B::shard_chain_head, (b, shard_id), r),
            }
        },
{
    if shard_id >= num_shards && num_shards > 0 {
        let mut text = join3(
            "shard ",
            decimal_text(shard_id as u64).as_str(),
            " does not exist (num_shards=",
        );
        text.append(decimal_text(num_shards as u64).as_str());
        text.append(")");
        return Err(RpcError::NotFound(text));
    }
    match backend {
        None => Err(RpcError::Unavailable("consensus backend not available".to_owned())),
        Some(b) => b.shard_chain_head(shard_id),
    }
}

} // verus!
