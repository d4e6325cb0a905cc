//! What the endpoints ask of the node and show of its answers.

use vstd::prelude::*;
use vstd::string::*;

use crate::primitives::digest::blake3_digest;
use crate::primitives::endian::le_bytes;
use crate::primitives::hexadecimal::{hex_decoded, hex_decoded_32, hex_encode, hex_error_text};
use crate::primitives::text::decimal;
use crate::primitives::{
    AccountAddress, Amount, Blake3Digest, IntentId, ShardId, TokenId, TxDigest, ValidatorIndex,
};
use crate::rpc::agent::AgentSession;
use crate::rpc::dto::{
    AccountBalanceDto, BlockDto, BlockHeaderDto, BlockReceiptsDto, ChainHeadDto, CompiledIntentPlan,
    ContractQueryResponse, EpochAdvanceResponse, EventQueryResponse, GasEstimate, GasEstimateDto,
    HealthResponse, HtlcLockDto, HtlcPendingListDto, IntentStatusDto, SessionDto,
    SessionListResponse, ShardChainHeadDto, ShardTopologyDto, SlashValidatorResponse,
    TransactionReceiptDto, TxSubmitResponse, ValidatorInfoDto, ZkProofDto,
};
use crate::rpc::error::{RpcError, RpcResult};
use crate::rpc::intent_tracker::{IntentRecord, IntentTracker};
use crate::rpc::buckets::check_outcome;
use crate::rpc::limit_laws::{draws, lemma_check_draws};
use crate::rpc::mcp::request_laws::{spells_32, spells_some_32};
use crate::rpc::middleware::FaucetAddressLimiter;
use crate::rpc::rest::account::{account_balance, balance_asked, balance_reported};
use crate::rpc::rest::backends::{
    BlockBackend, ConsensusBackend, EventBackend, HtlcBackend, QueryBackend,
    SessionProvenanceBackend,
};
use crate::rpc::rest::block::{block_full, block_header, block_receipts, block_zk_proof};
use crate::rpc::rest::chain::{chain_head, chain_head_reply, head_asked, head_reported};
use crate::rpc::rest::consensus::{advance_epoch, get_validator, slash_validator};
use crate::rpc::rest::contract::{contract_query, QueryRun};
use crate::rpc::rest::events::{
    event_limit, events_asked, query_events, same_text, EventQueryParams,
};
use crate::rpc::rest::faucet::{
    faucet_mint, limiter_admits, mint_reported, minted, synthetic_digest, FaucetRequest,
    FaucetResponse,
};
use crate::rpc::rest::htlc::{htlc_by_digest, htlc_pending, lock_asked, lock_reported};
use crate::rpc::rest::intent::{
    estimate_gas, intent_status, submit_intent, IntentSubmission, SubmitAction, SubmitReply,
};
use crate::rpc::rest::provenance_laws::shows_optional;
use crate::rpc::rest::readiness::{
    health_asked, health_check, readiness_check, readiness_reply, readiness_reported,
    ReadinessResponse,
};
use crate::rpc::rest::session::{
    get_session, list_sessions, session_asked, session_to_dto, sessions_asked, shows_session,
    SessionListParams,
};
use crate::rpc::rest::shard::{
    is_minimal_topology, shard_chain_head, shard_topology, topology_asked,
};
use crate::rpc::rest::transaction::{
    receipt_asked, receipt_reported, resolve_target_shard, submit_tx, tx_status, SubmitRun,
};
use crate::rpc::rest::parse_address;

verus! {

proof fn lemma_exact(text: Seq<char>)
    ensures
        hex_decoded_32(text) is Ok <==> spells_some_32(text),
        hex_decoded_32(text) is Ok ==> hex_decoded_32(text) == hex_decoded(text),
{
}

/// Whether a request was refused as a bad one, for this reason.
pub open spec fn is_bad_request<T>(r: RpcResult<T>, reason: Seq<char>) -> bool {
    r is Err && r->Err_0 is BadRequest && r->Err_0->BadRequest_0@ == reason
}

/// Whether what was asked for is not there, for this reason.
pub open spec fn is_not_found<T>(r: RpcResult<T>, reason: Seq<char>) -> bool {
    r is Err && r->Err_0 is NotFound && r->Err_0->NotFound_0@ == reason
}

/// Whether the node cannot answer, for this reason.
pub open spec fn is_unavailable<T>(r: RpcResult<T>, reason: Seq<char>) -> bool {
    r is Err && r->Err_0 is Unavailable && r->Err_0->Unavailable_0@ == reason
}

/// An address is read from the 32 bytes that its text spells.
pub proof fn law_addresses_are_read_by_their_bytes(text: &str, r: Result<AccountAddress, RpcError>)
    requires
        call_ensures(parse_address, (text,), r),
    ensures
        r is Ok <==> spells_some_32(text@),
        r is Ok ==> spells_32(text@, r->Ok_0.0@),
        r is Err ==> is_bad_request(
            r,
            "invalid hex address: "@ + ("invalid hex string: "@ + hex_error_text(
                hex_decoded_32(text@)->Err_0,
            )),
        ),
{
    lemma_exact(text@);
}

/// A balance is that of the account that the text spells, in the native token.
pub proof fn law_balances_are_of_the_account<Q: QueryBackend + ?Sized>(
    query: &Q,
    text: &str,
    r: RpcResult<AccountBalanceDto>,
)
    requires
        call_ensures(account_balance::<Q>, (query, text), r),
    ensures
        !spells_some_32(text@) ==> r is Err && r->Err_0 is BadRequest,
        spells_some_32(text@) ==> exists|address: AccountAddress, answer: RpcResult<Amount>|
            {
                &&& #[trigger] balance_of(query, address, answer)
                &&& spells_32(text@, address.0@)
                &&& answer is Err ==> r is Err && r->Err_0 == answer->Err_0
                &&& answer is Ok ==> {
                    &&& r is Ok
                    &&& r->Ok_0.address.0@ == address.0@
                    &&& r->Ok_0.balances@.len() == 1
                    &&& r->Ok_0.balances@[0].token is Native
                    &&& r->Ok_0.balances@[0].amount == answer->Ok_0
                }
            },
{
    lemma_exact(text@);
    if spells_some_32(text@) {
        let bytes = hex_decoded_32(text@)->Ok_0;
        let (address, answer) = choose|address: AccountAddress, answer: RpcResult<Amount>|
            {
                &&& #[trigger] balance_asked(query, address, answer)
                &&& address@ == bytes
                &&& balance_reported(r, address, answer)
            };
        assert(balance_of(query, address, answer));
    }
}

/// Whether the node gave `answer` for the native balance of an account.
pub open spec fn balance_of<Q: QueryBackend + ?Sized>(
    query: &Q,
    address: AccountAddress,
    answer: RpcResult<Amount>,
) -> bool {
    call_ensures(Q::account_balance, (query, &address, &TokenId::Native), answer)
}

/// Blocks are those of the number that was asked for.
pub proof fn law_blocks_are_those_asked_for<B: BlockBackend + ?Sized>(
    backend: Option<&B>,
    seq: u64,
    header: RpcResult<BlockHeaderDto>,
    full: RpcResult<BlockDto>,
    receipts: RpcResult<BlockReceiptsDto>,
    zk: RpcResult<ZkProofDto>,
)
    requires
        call_ensures(block_header::<B>, (backend, seq), header),
        call_ensures(block_full::<B>, (backend, seq), full),
        call_ensures(block_receipts::<B>, (backend, seq), receipts),
        call_ensures(block_zk_proof::<B>, (backend, seq), zk),
    ensures
        backend is Some ==> {
            &&& call_ensures(B::block_header, (backend->Some_0, seq), header)
            &&& call_ensures(B::block_full, (backend->Some_0, seq), full)
            &&& call_ensures(B::block_receipts, (backend->Some_0, seq), receipts)
            &&& call_ensures(B::block_zk_proof, (backend->Some_0, seq), zk)
        },
        backend is None ==> {
            &&& is_unavailable(header, "block queries not available"@)
            &&& is_unavailable(full, "block queries not available"@)
            &&& is_unavailable(receipts, "block queries not available"@)
            &&& is_unavailable(zk, "block queries not available"@)
        },
{
}

/// The head of the chain is shown where there is one, and else the lack of it.
pub proof fn law_chain_heads_are_shown(
    answer: RpcResult<Option<ChainHeadDto>>,
    r: RpcResult<ChainHeadDto>,
)
    requires
        call_ensures(chain_head_reply, (answer,), r),
    ensures
        answer is Ok && answer->Ok_0 is Some ==> r is Ok && r->Ok_0 == answer->Ok_0->Some_0,
        answer is Ok && answer->Ok_0 is None ==> is_not_found(r, "no committed block yet"@),
        answer is Err ==> r is Err && r->Err_0 is Internal,
{
}

/// The head of the chain is what the node gives for it.
pub proof fn law_chain_heads_are_the_nodes<Q: QueryBackend + ?Sized>(
    query: &Q,
    r: RpcResult<ChainHeadDto>,
)
    requires
        call_ensures(chain_head::<Q>, (query,), r),
    ensures
        r is Ok ==> call_ensures(Q::chain_head, (query,), Ok(Some(r->Ok_0))),
        r is Err && r->Err_0 is NotFound ==> call_ensures(Q::chain_head, (query,), Ok(None)),
        r is Err ==> r->Err_0 is NotFound || r->Err_0 is Internal,
{
    let answer = choose|answer: RpcResult<Option<ChainHeadDto>>|
        {
            &&& #[trigger] head_asked(query, answer)
            &&& head_reported(r, answer)
        };
    assert(call_ensures(Q::chain_head, (query,), answer));
    if r is Ok {
        assert(answer == Ok::<Option<ChainHeadDto>, RpcError>(Some(r->Ok_0)));
    } else if r->Err_0 is NotFound {
        assert(answer == Ok::<Option<ChainHeadDto>, RpcError>(None));
    }
}

/// A validator is looked up, and slashed, by the index that was given and for
/// the reason that was given.
pub proof fn law_validators_are_addressed_by_index<B: ConsensusBackend + ?Sized>(
    backend: Option<&B>,
    index: u32,
    reason: &str,
    shown: RpcResult<ValidatorInfoDto>,
    slashed: RpcResult<SlashValidatorResponse>,
    advanced: RpcResult<EpochAdvanceResponse>,
)
    requires
        call_ensures(get_validator::<B>, (backend, index), shown),
        call_ensures(slash_validator::<B>, (backend, index, reason), slashed),
        call_ensures(advance_epoch::<B>, (backend, reason), advanced),
    ensures
        backend is Some ==> {
            &&& call_ensures(B::validator_info, (backend->Some_0, ValidatorIndex(index)), shown)
            &&& call_ensures(
                B::slash_validator,
                (backend->Some_0, ValidatorIndex(index), reason),
                slashed,
            )
            &&& call_ensures(B::advance_epoch, (backend->Some_0, reason), advanced)
        },
        backend is None ==> {
            &&& is_unavailable(shown, "consensus service not available"@)
            &&& is_unavailable(slashed, "consensus service not available"@)
            &&& is_unavailable(advanced, "consensus service not available"@)
        },
{
}

/// A query is answered with what the contract gave, as long as it kept to the
/// budget and to its time.
pub proof fn law_queries_keep_to_budget_and_time(
    run: QueryRun,
    timeout_ms: u64,
    gas_budget: u64,
    r: RpcResult<ContractQueryResponse>,
)
    requires
        call_ensures(contract_query, (run, timeout_ms, gas_budget), r),
    ensures
        r is Ok <==> run is Answered && run->Answered_0 is Ok && run->Answered_0->Ok_0.gas_used
            <= gas_budget,
        r is Ok ==> r->Ok_0 == run->Answered_0->Ok_0,
        run is TimedOut ==> is_unavailable(
            r,
            "contract query timed out after "@ + decimal(timeout_ms as nat) + " ms"@,
        ),
        run is Broken ==> r->Err_0 is Internal && r->Err_0->Internal_0@
            == "contract query task join failed: "@ + run->Broken_0@,
        run is Answered && run->Answered_0 is Err ==> r->Err_0 == run->Answered_0->Err_0,
        run is Answered && run->Answered_0 is Ok && run->Answered_0->Ok_0.gas_used > gas_budget
            ==> is_bad_request(
            r,
            "contract query exceeded gas budget: used "@ + decimal(
                run->Answered_0->Ok_0.gas_used as nat,
            ) + " > budget "@ + decimal(gas_budget as nat),
        ),
{
}

/// Whether an optional text is the one that was given.
pub open spec fn is_given(asked: Option<&str>, given: Option<String>) -> bool {
    &&& asked is Some <==> given is Some
    &&& asked is Some ==> asked->Some_0@ == given->Some_0@
}

/// Events are asked for as requested: of the contract that the text spells, of
/// the type, behind and before the numbers and from the cursor on that were
/// given, fifty where no limit is given and never more than two hundred.
pub proof fn law_events_are_those_asked_for<B: EventBackend + ?Sized>(
    backend: Option<&B>,
    params: EventQueryParams,
    r: RpcResult<EventQueryResponse>,
)
    requires
        call_ensures(query_events::<B>, (backend, &params), r),
    ensures
        backend is None ==> is_unavailable(r, "event queries not available"@),
        backend is Some && params.contract is Some && !spells_some_32(params.contract->Some_0@)
            ==> r is Err && r->Err_0 is BadRequest,
        backend is Some && (params.contract is Some ==> spells_some_32(params.contract->Some_0@))
            ==> exists|
            contract: Option<AccountAddress>,
            event_type: Option<&str>,
            limit: u32,
            cursor: Option<&str>,
        |
            {
                &&& #[trigger] call_ensures(
                    B::query_events,
                    (
                        backend->Some_0,
                        contract,
                        event_type,
                        params.after_seq,
                        params.before_seq,
                        limit,
                        cursor,
                    ),
                    r,
                )
                &&& contract is Some <==> params.contract is Some
                &&& contract is Some ==> spells_32(params.contract->Some_0@, contract->Some_0.0@)
                &&& is_given(event_type, params.event_type)
                &&& is_given(cursor, params.cursor)
                &&& params.limit is None ==> limit == 50
                &&& params.limit is Some && params.limit->Some_0 <= 200 ==> limit
                    == params.limit->Some_0
                &&& params.limit is Some && params.limit->Some_0 > 200 ==> limit == 200
            },
{
    if params.contract is Some {
        lemma_exact(params.contract->Some_0@);
    }
    if backend is Some && (params.contract is Some ==> spells_some_32(params.contract->Some_0@)) {
        let b = backend->Some_0;
        let contract: Option<AccountAddress> = if params.contract is Some {
            let bytes = hex_decoded_32(params.contract->Some_0@)->Ok_0;
            let address = choose|address: AccountAddress|
                {
                    &&& address@ == bytes
                    &&& #[trigger] events_asked(b, params, Some(address), r)
                };
            Some(address)
        } else {
            None
        };
        assert(events_asked(b, params, contract, r));
        let (event_type, cursor) = choose|event_type: Option<&str>, cursor: Option<&str>|
            {
                &&& #[trigger] call_ensures(
                    B::query_events,
                    (
                        b,
                        contract,
                        event_type,
                        params.after_seq,
                        params.before_seq,
                        event_limit(params.limit),
                        cursor,
                    ),
                    r,
                )
                &&& same_text(event_type, params.event_type)
                &&& same_text(cursor, params.cursor)
            };
        assert(call_ensures(
            B::query_events,
            (
                b,
                contract,
                event_type,
                params.after_seq,
                params.before_seq,
                event_limit(params.limit),
                cursor,
            ),
            r,
        ));
    }
}

/// A disabled faucet pays nothing; an enabled one pays the configured amount to
/// the account that the text spells, as long as that account has payments left
/// in its hour, and counts the payment.
pub proof fn law_payments_go_to_the_receiver<Q: QueryBackend + ?Sized>(
    query: &Q,
    enabled: bool,
    amount: u64,
    limiter: &mut Option<FaucetAddressLimiter>,
    req: FaucetRequest,
    now_ns: u128,
    now_nanos: u128,
    r: RpcResult<FaucetResponse>,
)
    requires
        call_ensures(
            faucet_mint::<Q>,
            (query, enabled, amount, limiter, &req, now_ns, now_nanos),
            r,
        ),
    ensures
        !enabled || !spells_some_32(req.recipient@) ==> r is Err && r->Err_0 is BadRequest
            && *final(limiter) == *old(limiter),
        !enabled ==> is_bad_request(r, "faucet is disabled on this node"@),
        enabled && spells_some_32(req.recipient@) ==> {
            &&& *old(limiter) is None ==> *final(limiter) is None && paid(
                query,
                req.recipient@,
                amount,
                now_nanos,
                r,
            )
            &&& *old(limiter) is Some ==> *final(limiter) is Some && exists|
                admitted: Result<u32, u128>,
            |
                {
                    &&& #[trigger] draws(
                        (*old(limiter))->Some_0@,
                        (*old(limiter))->Some_0.capacity(),
                        hex_decoded(req.recipient@)->Ok_0,
                        (*old(limiter))->Some_0.limit(),
                        3_600_000_000_000,
                        now_ns,
                        (*final(limiter))->Some_0@,
                        admitted,
                    )
                    &&& (*final(limiter))->Some_0.limit() == (*old(limiter))->Some_0.limit()
                    &&& (*final(limiter))->Some_0.capacity() == (*old(
                        limiter,
                    ))->Some_0.capacity()
                    &&& admitted is Err ==> is_bad_request(
                        r,
                        "faucet rate limit exceeded for this address"@,
                    )
                    &&& admitted is Ok ==> paid(query, req.recipient@, amount, now_nanos, r)
                }
        },
{
    lemma_exact(req.recipient@);
    if enabled && spells_some_32(req.recipient@) {
        let bytes = hex_decoded_32(req.recipient@)->Ok_0;
        if limiter_admits(*old(limiter), bytes, now_ns) {
            let (address, answer) = choose|address: AccountAddress, answer: RpcResult<()>|
                {
                    &&& #[trigger] minted(query, address, amount, answer)
                    &&& address@ == bytes
                    &&& mint_reported(r, address, amount, now_nanos, answer)
                };
            assert(call_ensures(Q::faucet_mint, (query, &address, amount), answer));
            assert(paid(query, req.recipient@, amount, now_nanos, r));
        }
        if *old(limiter) is Some {
            let before = (*old(limiter))->Some_0;
            lemma_check_draws(
                before@,
                before.capacity(),
                bytes,
                before.limit(),
                3_600_000_000_000,
                now_ns,
            );
            let admitted = check_outcome(
                before@,
                before.capacity(),
                bytes,
                before.limit(),
                3_600_000_000_000,
                now_ns,
            );
            assert(draws(
                before@,
                before.capacity(),
                bytes,
                before.limit(),
                3_600_000_000_000,
                now_ns,
                (*final(limiter))->Some_0@,
                admitted,
            ));
        }
    }
}

/// Whether `r` tells of a payment of `amount` to the account that the text
/// spells.
pub open spec fn paid<Q: QueryBackend + ?Sized>(
    query: &Q,
    recipient: Seq<char>,
    amount: u64,
    now_nanos: u128,
    r: RpcResult<FaucetResponse>,
) -> bool {
    exists|address: AccountAddress, answer: RpcResult<()>|
        {
            &&& #[trigger] call_ensures(Q::faucet_mint, (query, &address, amount), answer)
            &&& spells_32(recipient, address.0@)
            &&& answer is Err ==> r is Err && r->Err_0 == answer->Err_0
            &&& answer is Ok ==> {
                &&& r is Ok
                &&& r->Ok_0.amount == amount
                &&& r->Ok_0.tx_digest@ == hex_encode(
                    blake3_digest(
                        "nexus::faucet::synthetic_digest::v2".spec_bytes() + address.0@ + le_bytes(
                            amount as nat,
                            8,
                        ) + le_bytes(now_nanos as nat, 16),
                    ),
                )
            }
        }
}

/// A payment is identified by the receiver, the amount and the time.
pub proof fn law_payments_are_identified(
    address: AccountAddress,
    amount: u64,
    now_nanos: u128,
    r: [u8; 32],
)
    requires
        call_ensures(synthetic_digest, (&address, amount, now_nanos), r),
    ensures
        r@ == blake3_digest(
            "nexus::faucet::synthetic_digest::v2".spec_bytes() + address.0@ + le_bytes(
                amount as nat,
                8,
            ) + le_bytes(now_nanos as nat, 16),
        ),
{
}

/// A lock is looked up by the digest that the text spells, and a hundred
/// pending ones are asked for.
pub proof fn law_locks_are_found_by_digest<B: HtlcBackend + ?Sized>(
    backend: Option<&B>,
    text: &str,
    r: RpcResult<HtlcLockDto>,
    pending: RpcResult<HtlcPendingListDto>,
)
    requires
        call_ensures(htlc_by_digest::<B>, (backend, text), r),
        call_ensures(htlc_pending::<B>, (backend,), pending),
    ensures
        backend is None ==> is_unavailable(r, "HTLC backend not available"@) && is_unavailable(
            pending,
            "HTLC backend not available"@,
        ),
        backend is Some ==> call_ensures(
            B::list_pending_htlc_locks,
            (backend->Some_0, 100),
            pending,
        ),
        backend is Some && !spells_some_32(text@) ==> r is Err && r->Err_0 is BadRequest,
        backend is Some && spells_some_32(text@) ==> exists|
            digest: Blake3Digest,
            answer: RpcResult<Option<HtlcLockDto>>,
        |
            {
                &&& #[trigger] call_ensures(B::get_htlc_lock, (backend->Some_0, &digest), answer)
                &&& spells_32(text@, digest.0@)
                &&& answer is Err ==> r is Err && r->Err_0 == answer->Err_0
                &&& answer is Ok && answer->Ok_0 is None ==> is_not_found(
                    r,
                    "HTLC lock not found: "@ + text@,
                )
                &&& answer is Ok && answer->Ok_0 is Some ==> r is Ok && r->Ok_0
                    == answer->Ok_0->Some_0
            },
{
    lemma_exact(text@);
    if backend is Some && spells_some_32(text@) {
        let b = backend->Some_0;
        let bytes = hex_decoded_32(text@)->Ok_0;
        let (digest, answer) = choose|digest: Blake3Digest, answer: RpcResult<Option<HtlcLockDto>>|
            {
                &&& #[trigger] lock_asked(b, digest, answer)
                &&& digest@ == bytes
                &&& lock_reported(r, text@, answer)
            };
        assert(call_ensures(B::get_htlc_lock, (b, &digest), answer));
    }
}

/// A node that is healthy or degraded serves traffic, and no other does.
pub proof fn law_ready_nodes_say_so(status: &'static str, r: (u16, ReadinessResponse))
    requires
        call_ensures(readiness_reply, (status,), r),
    ensures
        r.1.ready <==> status@ == "healthy"@ || status@ == "degraded"@,
        r.1.status == status,
        r.1.ready ==> r.0 == 200 && r.1.reason is None,
        !r.1.ready ==> r.0 == 503 && r.1.reason == Some(status),
{
}

/// Readiness goes by the health that the node reports.
pub proof fn law_readiness_follows_health<Q: QueryBackend + ?Sized>(
    query: &Q,
    health: HealthResponse,
    r: (u16, ReadinessResponse),
)
    requires
        call_ensures(health_check::<Q>, (query,), health),
        call_ensures(readiness_check::<Q>, (query,), r),
    ensures
        call_ensures(Q::health_status, (query,), health),
        exists|seen: HealthResponse|
            {
                &&& #[trigger] call_ensures(Q::health_status, (query,), seen)
                &&& r.1.status == seen.status
                &&& r.0 == 200 <==> seen.status@ == "healthy"@ || seen.status@ == "degraded"@
                &&& r.0 == 200 || r.0 == 503
                &&& r.1.ready <==> r.0 == 200
            },
{
    let seen = choose|seen: HealthResponse|
        {
            &&& #[trigger] health_asked(query, seen)
            &&& readiness_reported(r, seen.status)
        };
    assert(call_ensures(Q::health_status, (query,), seen));
}

/// Where the node knows nothing of its shards, they are numbered from zero, as
/// many as are configured and without validators.
pub proof fn law_shards_are_numbered<B: ConsensusBackend + ?Sized>(
    backend: Option<&B>,
    num_shards: u16,
    r: RpcResult<ShardTopologyDto>,
)
    requires
        call_ensures(shard_topology::<B>, (backend, num_shards), r),
    ensures
        r is Ok,
        (backend is Some && call_ensures(B::shard_topology, (backend->Some_0,), Ok(r->Ok_0))) || {
            &&& r->Ok_0.num_shards == num_shards
            &&& r->Ok_0.shards@.len() == num_shards
            &&& forall|i: int|
                0 <= i < num_shards ==> (#[trigger] r->Ok_0.shards@[i]).shard_id == i
                    && r->Ok_0.shards@[i].validators@.len() == 0
        },
{
    if backend is Some {
        let b = backend->Some_0;
        let answer = choose|answer: RpcResult<ShardTopologyDto>|
            {
                &&& #[trigger] topology_asked(b, answer)
                &&& match answer {
                    Ok(topology) => r->Ok_0 == topology,
                    Err(_) => is_minimal_topology(r->Ok_0, num_shards),
                }
            };
        if answer is Ok {
            assert(answer == Ok::<ShardTopologyDto, RpcError>(r->Ok_0));
        }
    }
}

/// The head of a shard is asked for where there is such a shard.
pub proof fn law_shards_out_of_range_are_unknown<B: ConsensusBackend + ?Sized>(
    backend: Option<&B>,
    shard_id: u16,
    num_shards: u16,
    r: RpcResult<ShardChainHeadDto>,
)
    requires
        call_ensures(shard_chain_head::<B>, (backend, shard_id, num_shards), r),
    ensures
        num_shards > 0 && shard_id >= num_shards ==> is_not_found(
            r,
            "shard "@ + decimal(shard_id as nat) + " does not exist (num_shards="@ + decimal(
                num_shards as nat,
            ) + ")"@,
        ),
        (num_shards == 0 || shard_id < num_shards) && backend is None ==> is_unavailable(
            r,
            "consensus backend not available"@,
        ),
        (num_shards == 0 || shard_id < num_shards) && backend is Some ==> call_ensures(
            B::shard_chain_head,
            (backend->Some_0, shard_id),
            r,
        ),
{
}

/// The receipt of a transaction is looked up by the digest that the text
/// spells.
pub proof fn law_receipts_are_those_of_the_transaction<Q: QueryBackend + ?Sized>(
    query: &Q,
    text: &str,
    r: RpcResult<TransactionReceiptDto>,
)
    requires
        call_ensures(tx_status::<Q>, (query, text), r),
    ensures
        !spells_some_32(text@) ==> r is Err && r->Err_0 is BadRequest,
        spells_some_32(text@) ==> exists|
            digest: Blake3Digest,
            answer: RpcResult<Option<TransactionReceiptDto>>,
        |
            {
                &&& #[trigger] call_ensures(Q::transaction_receipt, (query, &digest), answer)
                &&& spells_32(text@, digest.0@)
                &&& answer is Err ==> r is Err && r->Err_0 == answer->Err_0
                &&& answer is Ok && answer->Ok_0 is None ==> is_not_found(
                    r,
                    "transaction "@ + text@ + " not found"@,
                )
                &&& answer is Ok && answer->Ok_0 is Some ==> r is Ok && r->Ok_0
                    == answer->Ok_0->Some_0
            },
{
    if spells_some_32(text@) {
        let bytes = hex_decoded(text@)->Ok_0;
        let (digest, answer) = choose|
            digest: Blake3Digest,
            answer: RpcResult<Option<TransactionReceiptDto>>,
        |
            {
                &&& #[trigger] receipt_asked(query, digest, answer)
                &&& digest@ == bytes
                &&& receipt_reported(r, text@, answer)
            };
        assert(call_ensures(Q::transaction_receipt, (query, &digest), answer));
    }
}

/// A transaction goes to the shard that it names, and else to that of its
/// sender, where there are shards at all.
pub proof fn law_transactions_go_to_their_shard<D: Fn(&AccountAddress, u16) -> ShardId>(
    has_broadcaster: bool,
    target: Option<ShardId>,
    sender: AccountAddress,
    num_shards: u16,
    derive: D,
    r: RpcResult<Option<ShardId>>,
)
    requires
        call_ensures(
            resolve_target_shard::<D>,
            (has_broadcaster, target, &sender, num_shards, derive),
            r,
        ),
    ensures
        r is Ok <==> has_broadcaster,
        r is Err ==> is_unavailable(r, "transaction broadcast service not available"@),
        r is Ok && target is Some ==> r->Ok_0 == target,
        r is Ok && target is None && num_shards == 0 ==> r->Ok_0 is None,
        r is Ok && target is None && num_shards > 0 ==> r->Ok_0 is Some && derive.ensures(
            (&sender, num_shards),
            r->Ok_0->Some_0,
        ),
{
}

/// A transaction is accepted exactly where it was broadcast.
pub proof fn law_broadcast_transactions_are_accepted(
    digest: TxDigest,
    run: SubmitRun,
    r: RpcResult<TxSubmitResponse>,
)
    requires
        call_ensures(submit_tx, (digest, run), r),
    ensures
        r is Ok <==> run is Broadcast && run->Broadcast_0 is Ok,
        r is Ok ==> r->Ok_0.tx_digest == digest && r->Ok_0.accepted,
        run is EncodeFailed ==> r->Err_0 is Serialization && r->Err_0->Serialization_0@
            == "BCS encode failed: "@ + run->EncodeFailed_0@,
        run is Broadcast && run->Broadcast_0 is Err ==> r->Err_0 == run->Broadcast_0->Err_0,
{
}

/// Whether what is shown tells of a session, each part under its own name.
pub open spec fn tells_of_session(dto: SessionDto, s: AgentSession) -> bool {
    &&& dto.session_id@ == hex_encode(s.session_id.0@)
    &&& dto.state@ == s.current_state.name@
    &&& dto.created_at_ms == s.created_at_ms.0
    &&& shows_optional(dto.plan_hash, s.plan_hash)
    &&& shows_optional(dto.confirmation_ref, s.confirmation_ref)
}

/// A session is looked up by the identifier that the text spells, and what is
/// shown is what was found.
pub proof fn law_sessions_are_found_by_identifier<B: SessionProvenanceBackend + ?Sized>(
    backend: Option<&B>,
    text: &str,
    r: RpcResult<SessionDto>,
    s: AgentSession,
    dto: SessionDto,
)
    requires
        call_ensures(get_session::<B>, (backend, text), r),
        call_ensures(session_to_dto, (&s,), dto),
    ensures
        tells_of_session(dto, s),
        backend is None ==> is_unavailable(r, "session store not available"@),
        backend is Some && !spells_some_32(text@) ==> r is Err && r->Err_0 is BadRequest,
        backend is Some && spells_some_32(text@) ==> exists|
            id: Blake3Digest,
            answer: Option<AgentSession>,
        |
            {
                &&& #[trigger] call_ensures(B::get_session, (backend->Some_0, &id), answer)
                &&& spells_32(text@, id.0@)
                &&& answer is Some ==> r is Ok && tells_of_session(r->Ok_0, answer->Some_0)
                &&& answer is None ==> is_not_found(r, "session "@ + text@ + " not found"@)
            },
{
    if backend is Some && spells_some_32(text@) {
        let b = backend->Some_0;
        let bytes = hex_decoded(text@)->Ok_0;
        let (id, answer) = choose|id: Blake3Digest, answer: Option<AgentSession>|
            {
                &&& #[trigger] session_asked(b, id, answer)
                &&& id@ == bytes
                &&& match answer {
                    Some(s) => r is Ok && shows_session(r->Ok_0, s),
                    None => is_not_found(r, "session "@ + text@ + " not found"@),
                }
            };
        assert(call_ensures(B::get_session, (b, &id), answer));
    }
}

/// The active sessions are listed where only they are asked for, and else all
/// of them, each as it is and in their order.
pub proof fn law_sessions_are_listed_as_asked<B: SessionProvenanceBackend + ?Sized>(
    backend: Option<&B>,
    params: SessionListParams,
    r: RpcResult<SessionListResponse>,
)
    requires
        call_ensures(list_sessions::<B>, (backend, &params), r),
    ensures
        backend is None ==> r is Err && r->Err_0 is Unavailable,
        backend is Some ==> r is Ok && exists|sessions: Vec<AgentSession>|
            {
                &&& params.active ==> call_ensures(B::active_sessions, (backend->Some_0,), sessions)
                &&& !params.active ==> call_ensures(B::all_sessions, (backend->Some_0,), sessions)
                &&& #[trigger] lists_sessions(r->Ok_0, sessions@)
            },
{
    if backend is Some {
        let b = backend->Some_0;
        let sessions = choose|sessions: Vec<AgentSession>|
            {
                &&& #[trigger] sessions_asked(b, params.active, sessions)
                &&& r->Ok_0.total == sessions@.len()
                &&& r->Ok_0.sessions@.len() == sessions@.len()
                &&& forall|i: int|
                    0 <= i < sessions@.len() ==> shows_session(
                        #[trigger] r->Ok_0.sessions@[i],
                        sessions@[i],
                    )
            };
        assert(lists_sessions(r->Ok_0, sessions@));
    }
}

/// Whether a listing shows these sessions.
pub open spec fn lists_sessions(r: SessionListResponse, sessions: Seq<AgentSession>) -> bool {
    &&& r.total == sessions.len()
    &&& r.sessions@.len() == sessions.len()
    &&& forall|i: int| 0 <= i < sessions.len() ==> tells_of_session(#[trigger] r.sessions@[i], sessions[i])
}

/// Whether `finish` announces that a plan was submitted: the sender is told of
/// it, its transactions are registered and its submission is announced.
pub open spec fn announces(finish: SubmitReply, plan: CompiledIntentPlan) -> bool {
    &&& finish.reply is Ok
    &&& finish.reply->Ok_0.intent_id == plan.intent_id
    &&& finish.reply->Ok_0.steps == plan.steps@.len()
    &&& finish.reply->Ok_0.requires_htlc == plan.requires_htlc
    &&& finish.reply->Ok_0.estimated_gas == plan.estimated_gas
    &&& finish.reply->Ok_0.tx_hashes@.len() == plan.steps@.len()
    &&& forall|i: int|
        0 <= i < plan.steps@.len() ==> #[trigger] finish.reply->Ok_0.tx_hashes@[i]
            == plan.steps@[i].digest
    &&& finish.register is Some && finish.register->Some_0.0 == plan.intent_id
    &&& finish.register->Some_0.1@ == finish.reply->Ok_0.tx_hashes@
    &&& finish.event is Some && finish.event->Some_0.intent_id == plan.intent_id
    &&& finish.event->Some_0.status is Submitted
    &&& plan.steps@.len() <= usize::MAX ==> finish.event->Some_0.status->steps == plan.steps@.len()
}

/// A plan is broadcast step by step from the first one on; a plan without steps
/// is announced at once. What could not be compiled is announced as failed,
/// and what cannot be broadcast is refused without a trace.
pub proof fn law_compiled_plans_are_broadcast(
    intent_id: IntentId,
    outcome: RpcResult<CompiledIntentPlan>,
    has_broadcaster: bool,
    r: (Option<IntentSubmission>, SubmitAction),
)
    requires
        call_ensures(IntentSubmission::compiled, (intent_id, outcome, has_broadcaster), r),
    ensures
        outcome is Ok && has_broadcaster ==> {
            &&& r.0 is Some && r.0->Some_0.plan == outcome->Ok_0 && r.0->Some_0.sent == 0
            &&& outcome->Ok_0.steps@.len() > 0 ==> r.1 is Broadcast && r.1->Broadcast_0 == 0
            &&& outcome->Ok_0.steps@.len() == 0 ==> r.1 is Finish && announces(
                r.1->Finish_0,
                outcome->Ok_0,
            )
        },
        outcome is Ok && !has_broadcaster ==> {
            &&& r.0 is None && r.1 is Finish
            &&& r.1->Finish_0.reply is Err && r.1->Finish_0.reply->Err_0 is Unavailable
            &&& r.1->Finish_0.register is None && r.1->Finish_0.event is None
        },
        outcome is Err ==> {
            &&& r.0 is None && r.1 is Finish
            &&& r.1->Finish_0.reply is Err && r.1->Finish_0.reply->Err_0 == outcome->Err_0
            &&& r.1->Finish_0.register is None
            &&& r.1->Finish_0.event is Some && r.1->Finish_0.event->Some_0.intent_id == intent_id
            &&& r.1->Finish_0.event->Some_0.status is Failed
        },
{
}

/// After a step was broadcast comes the next one, and after the last the
/// announcement; where a step fails nothing is registered or announced.
pub proof fn law_plans_are_broadcast_step_by_step(
    submission: &mut IntentSubmission,
    outcome: RpcResult<()>,
    r: SubmitAction,
)
    requires
        call_ensures(IntentSubmission::broadcast, (submission, outcome), r),
    ensures
        final(submission).plan == old(submission).plan,
        outcome is Ok ==> {
            &&& final(submission).sent == old(submission).sent + 1
            &&& old(submission).sent + 1 < old(submission).plan.steps@.len() ==> r is Broadcast
                && r->Broadcast_0 == old(submission).sent + 1
            &&& old(submission).sent + 1 >= old(submission).plan.steps@.len() ==> r is Finish
                && announces(r->Finish_0, old(submission).plan)
        },
        outcome is Err ==> {
            &&& final(submission).sent == old(submission).sent
            &&& r is Finish
            &&& r->Finish_0.reply is Err && r->Finish_0.reply->Err_0 == outcome->Err_0
            &&& r->Finish_0.register is None && r->Finish_0.event is None
        },
{
}

/// An estimate is shown part by part, and intents are taken where there is a
/// compiler.
pub proof fn law_estimates_are_shown(
    estimate: Option<RpcResult<GasEstimate>>,
    r: RpcResult<GasEstimateDto>,
    has_backend: bool,
    taken: RpcResult<()>,
)
    requires
        call_ensures(estimate_gas, (estimate,), r),
        call_ensures(submit_intent, (has_backend,), taken),
    ensures
        estimate is None ==> r is Err && r->Err_0 is Unavailable,
        estimate is Some && estimate->Some_0 is Err ==> r is Err && r->Err_0
            == estimate->Some_0->Err_0,
        estimate is Some && estimate->Some_0 is Ok ==> {
            &&& r is Ok
            &&& r->Ok_0.gas_units == estimate->Some_0->Ok_0.gas_units
            &&& r->Ok_0.shards_touched == estimate->Some_0->Ok_0.shards_touched
            &&& r->Ok_0.requires_cross_shard == estimate->Some_0->Ok_0.requires_cross_shard
        },
        taken is Ok <==> has_backend,
        taken is Err ==> taken->Err_0 is Unavailable,
{
}

/// The status of an intent is that of the record which the tracker shows for
/// the identifier that the text spells.
pub proof fn law_intent_statuses_are_the_trackers(
    tracker: IntentTracker,
    text: &str,
    id: IntentId,
    shown: Option<IntentRecord>,
    r: RpcResult<IntentStatusDto>,
    unknown: RpcResult<IntentStatusDto>,
)
    requires
        spells_32(text@, id.0@),
        call_ensures(IntentTracker::status, (&tracker, &id), shown),
        call_ensures(intent_status, (Some(&tracker), text), r),
        call_ensures(intent_status, (None, text), unknown),
    ensures
        shown is Some ==> r is Ok && r->Ok_0.intent_id == shown->Some_0.intent_id && r->Ok_0.status
            == shown->Some_0.status,
        shown is None ==> is_not_found(r, "intent "@ + text@ + " not tracked"@),
        unknown is Err && unknown->Err_0 is Unavailable,
{
    lemma_exact(text@);
}

} // verus!
