//! `POST /v2/faucet/mint`: test tokens on development networks.

use vstd::prelude::*;
use vstd::string::*;

use crate::primitives::digest::{blake3_digest, blake3_hash};
use crate::primitives::endian::{le_bytes, to_le_bytes};
use crate::primitives::hexadecimal::{encode, hex_encode};
use crate::primitives::AccountAddress;
use crate::rpc::buckets::{after_check, check_outcome};
use crate::rpc::error::{RpcError, RpcErrorView, RpcResult};
use crate::rpc::middleware::{FaucetAddressLimiter, HOUR_NS};
use crate::rpc::rest::backends::QueryBackend;
use crate::rpc::rest::{address_outcome, parse_address};

verus! {

/// Who asks for test tokens.
#[derive(Debug, Clone)]
pub struct FaucetRequest {
    /// Address of the receiver, in hexadecimal.
    pub recipient: String,
}

/// What was minted.
#[derive(Debug, Clone)]
pub struct FaucetResponse {
    /// Digest that stands for the transaction, in hexadecimal.
    pub tx_digest: String,
    /// Amount minted, in the smallest unit.
    pub amount: u64,
}

/// The domain tag under which the digests of faucet replies are derived.
pub open spec fn faucet_domain() -> Seq<u8> {
    "nexus::faucet::synthetic_digest::v2".spec_bytes()
}

/// The digest of a faucet reply: the BLAKE3 hash of the domain tag, the
/// receiver, the amount and the time in nanoseconds.
pub open spec fn faucet_digest(address: Seq<u8>, amount: u64, now_nanos: u128) -> Seq<u8> {
    blake3_digest(
        faucet_domain() + address + le_bytes(amount as nat, 8) + le_bytes(now_nanos as nat, 16),
    )
}

/// The digest of a faucet reply.
pub fn synthetic_digest(address: &AccountAddress, amount: u64, now_nanos: u128) -> (r: [u8; 32])
    ensures
        r@ == faucet_digest(address@, amount, now_nanos),
{
    let mut input: Vec<u8> = "nexus::faucet::synthetic_digest::v2".as_bytes_vec();
    input.extend_from_slice(address.0.as_slice());
    input.extend_from_slice(to_le_bytes(amount as u128, 8).as_slice());
    input.extend_from_slice(to_le_bytes(now_nanos, 16).as_slice());
    assert(input@ =~= faucet_domain() + address@ + le_bytes(amount as nat, 8) + le_bytes(
        now_nanos as nat,
        16,
    ));
    blake3_hash(input.as_slice())
}

/// Whether the backend answers with `answer` when told to mint.
pub open spec fn minted<Q: QueryBackend + ?Sized>(
    query: &Q,
    address: AccountAddress,
    amount: u64,
    answer: RpcResult<()>,
) -> bool {
    call_ensures(Q::faucet_mint, (query, &address, amount), answer)
}

/// Whether `r` is the reply where the backend answered `answer` when told to
/// mint for `address`.
pub open spec fn mint_reported(
    r: RpcResult<FaucetResponse>,
    address: AccountAddress,
    amount: u64,
    now_nanos: u128,
    answer: RpcResult<()>,
) -> bool {
    match answer {
        Err(e) => r is Err && r->Err_0 == e,
        Ok(()) => {
            &&& r is Ok
            &&& r->Ok_0.amount == amount
            &&& r->Ok_0.tx_digest@ == hex_encode(faucet_digest(address@, amount, now_nanos))
        },
    }
}

/// Whether the limiter lets the account with the address `address` be paid.
pub open spec fn limiter_admits(limiter: Option<FaucetAddressLimiter>, address: Seq<u8>, now_ns: u128) -> bool {
    match limiter {
        None => true,
        Some(l) => check_outcome(l@, l.capacity(), address, l.limit(), HOUR_NS, now_ns) is Ok,
    }
}

/// Whether `after` is the limiter `before` with one request of the account
/// counted.
pub open spec fn limiter_counted(
    before: Option<FaucetAddressLimiter>,
    after: Option<FaucetAddressLimiter>,
    address: Seq<u8>,
    now_ns: u128,
) -> bool {
    match (before, after) {
        (None, None) => true,
        (Some(b), Some(a)) => {
            &&& a.wf()
            &&& a.limit() == b.limit()
            &&& a.capacity() == b.capacity()
            &&& a@ == after_check(b@, b.capacity(), address, b.limit(), HOUR_NS, now_ns)
        },
        _ => false,
    }
}

/// Mints `amount` for the receiver of the request, where the faucet is enabled
/// and the receiver has not been paid too often. `now_ns` is the time by which
/// payments are counted and `now_nanos` the time that goes into the digest.
pub fn faucet_mint<Q: QueryBackend + ?Sized>(
    query: &Q,
    enabled: bool,
    amount: u64,
    limiter: &mut Option<FaucetAddressLimiter>,
    req: &FaucetRequest,
    now_ns: u128,
    now_nanos: u128,
) -> (r: RpcResult<FaucetResponse>)
    requires
        match *old(limiter) {
            Some(l) => l.wf(),
            None => true,
        },
    ensures
        if !enabled {
            &&& r is Err
            &&& r->Err_0@ == RpcErrorView::BadRequest("faucet is disabled on this node"@)
            &&& *final(limiter) == *old(limiter)
        } else {
            match address_outcome(req.recipient@) {
                Err(e) => r is Err && r->Err_0@ == e && *final(limiter) == *old(limiter),
                Ok(bytes) => {
                    &&& limiter_counted(*old(limiter), *final(limiter), bytes, now_ns)
                    &&& if limiter_admits(*old(limiter), bytes, now_ns) {
                        exists|address: AccountAddress, answer: RpcResult<()>|
                            {
                                &&& #[trigger] minted(query, address, amount, answer)
                                &&& address@ == bytes
                                &&& mint_reported(r, address, amount, now_nanos, answer)
                            }
                    } else {
                        &&& r is Err
                        &&& r->Err_0@ == RpcErrorView::BadRequest(
                            "faucet rate limit exceeded for this address"@,
                        )
                    }
                },
            }
        },
{
    if !enabled {
        return Err(RpcError::BadRequest("faucet is disabled on this node".to_owned()));
    }
    let address = match parse_address(req.recipient.as_str()) {
        Ok(address) => address,
        Err(e) => {
            return Err(e);
        },
    };
    let admitted = match limiter {
        None => true,
        Some(l) => match l.check(&address.0, now_ns) {
            Ok(_) => true,
            Err(_) => false,
        },
    };
    if !admitted {
        return Err(
            RpcError::BadRequest("faucet rate limit exceeded for this address".to_owned()),
        );
    }
    let answer = query.faucet_mint(&address, amount);
    assert(minted(query, address, amount, answer));
    match answer {
        Err(e) => Err(e),
        Ok(()) => {
            let digest = synthetic_digest(&address, amount, now_nanos);
            Ok(FaucetResponse { tx_digest: encode(digest.as_slice()), amount })
        },
    }
}

} // verus!
