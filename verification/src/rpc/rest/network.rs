//! The peer-to-peer network.

use vstd::prelude::*;

use crate::rpc::dto::{
    NetworkHealthResponse, NetworkPeersResponse, NetworkStatusResponse,
};
use crate::rpc::error::{RpcError, RpcErrorView, RpcResult};
use crate::rpc::rest::backends::{not_available, NetworkBackend};

verus! {

fn no_backend() -> (e: RpcError)
    ensures
        e@ == RpcErrorView::Unavailable("network backend not available"@),
{
    RpcError::Unavailable("network backend not available".to_owned())
}

/// `GET /v2/network/peers`: the known peers.
pub fn network_peers<B: NetworkBackend + ?Sized>(backend: Option<&B>) -> (r: RpcResult<NetworkPeersResponse>)
    ensures
        match backend {
            None => not_available(r, "network backend not available"@),
            Some(b) => call_ensures(B::network_peers, (b,), r),
        },
{
    match backend {
        None => Err(no_backend()),
        Some(b) => b.network_peers(),
    }
}

/// `GET /v2/network/status`: the health of the routing table.
pub fn network_status<B: NetworkBackend + ?Sized>(backend: Option<&B>) -> (r: RpcResult<NetworkStatusResponse>)
    ensures
        match backend {
            None => not_available(r, "network backend not available"@),
            Some(b) => call_ensures(B::network_status, (b,), r),
        },
{
    match backend {
        None => Err(no_backend()),
        Some(b) => b.network_status(),
    }
}

/// `GET /v2/network/health`: the health of the network.
pub fn network_health<B: NetworkBackend + ?Sized>(backend: Option<&B>) -> (r: RpcResult<NetworkHealthResponse>)
    ensures
        match backend {
            None => not_available(r, "network backend not available"@),
            Some(b) => call_ensures(B::network_health, (b,), r),
        },
{
    match backend {
        None => Err(no_backend()),
        Some(b) => b.network_health(),
    }
}

} // verus!
