//! The REST endpoints: what each request is answered.

pub mod account;
pub mod backends;
pub mod block;
pub mod chain;
pub mod consensus;
pub mod contract;
pub mod endpoint_laws;
pub mod events;
pub mod faucet;
pub mod htlc;
pub mod intent;
pub mod mcp;
pub mod network;
pub mod proof_laws;
pub mod proofs;
pub mod provenance;
pub mod provenance_laws;
pub mod readiness;
pub mod session;
pub mod shard;
pub mod transaction;

use vstd::prelude::*;
use vstd::string::*;

use crate::primitives::digest::copy_32;
use crate::primitives::hexadecimal::{
    decode, hex_decoded, hex_decoded_32, hex_error_text, lemma_decoding_is_unique,
};
use crate::primitives::text::join;
use crate::primitives::{AccountAddress, Blake3Digest};
use crate::rpc::error::{viewed, RpcError, RpcErrorView};

verus! {

/// What reading `text` as thirty-two bytes in sixty-four hexadecimal digits
/// gives, where `fault` introduces the report of a fault.
pub open spec fn exact_outcome(text: Seq<char>, fault: Seq<char>) -> Result<Seq<u8>, RpcErrorView> {
    match hex_decoded_32(text) {
        Ok(bytes) => Ok(bytes),
        Err(e) => Err(
            RpcErrorView::BadRequest(fault + ("invalid hex string: "@ + hex_error_text(e))),
        ),
    }
}

/// What reading `text` as an address gives.
pub open spec fn address_outcome(text: Seq<char>) -> Result<Seq<u8>, RpcErrorView> {
    exact_outcome(text, "invalid hex address: "@)
}

/// Reads a hexadecimal 32-byte address.
pub fn parse_address(hex_str: &str) -> (r: Result<AccountAddress, RpcError>)
    ensures
        viewed(r) == address_outcome(hex_str@),
{
    proof {
        lemma_decoding_is_unique(hex_str@);
    }
    match AccountAddress::from_hex(hex_str) {
        Ok(address) => Ok(address),
        Err(e) => Err(
            RpcError::BadRequest(join("invalid hex address: ", e.to_string().as_str())),
        ),
    }
}

/// Reads a hexadecimal 32-byte digest; `fault` introduces the report of a
/// fault.
pub(crate) fn parse_exact_digest(hex_str: &str, fault: &str) -> (r: Result<Blake3Digest, RpcError>)
    ensures
        viewed(r) == exact_outcome(hex_str@, fault@),
{
    proof {
        lemma_decoding_is_unique(hex_str@);
    }
    match Blake3Digest::from_hex(hex_str) {
        Ok(digest) => Ok(digest),
        Err(e) => Err(RpcError::BadRequest(join(fault, e.to_string().as_str()))),
    }
}

/// What reading `text` as thirty-two hexadecimal bytes gives, where
/// `length_fault` reports a wrong length.
pub open spec fn sized_outcome(text: Seq<char>, length_fault: Seq<char>) -> Result<
    Seq<u8>,
    RpcErrorView,
> {
    match hex_decoded(text) {
        Ok(bytes) => if bytes.len() == 32 {
            Ok(bytes)
        } else {
            Err(RpcErrorView::BadRequest(length_fault))
        },
        Err(e) => Err(RpcErrorView::BadRequest("invalid hex: "@ + hex_error_text(e))),
    }
}

/// Reads thirty-two hexadecimal bytes; `length_fault` reports a wrong length.
pub(crate) fn parse_sized(hex_str: &str, length_fault: &str) -> (r: Result<[u8; 32], RpcError>)
    ensures
        viewed(r) == sized_outcome(hex_str@, length_fault@),
{
    proof {
        lemma_decoding_is_unique(hex_str@);
    }
    match decode(hex_str) {
        Ok(bytes) => {
            if bytes.len() != 32 {
                return Err(RpcError::BadRequest(length_fault.to_owned()));
            }
            assert(bytes@.subrange(0, 32) =~= bytes@);
            Ok(copy_32(bytes.as_slice()))
        },
        Err(e) => Err(RpcError::BadRequest(join("invalid hex: ", e.to_string().as_str()))),
    }
}

} // verus!
