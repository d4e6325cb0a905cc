//! What a look at the audit trail shows, in terms of what was asked for.

use vstd::prelude::*;
use vstd::string::*;

use crate::primitives::hexadecimal::{hex_decoded, hex_encode};
use crate::primitives::{AccountAddress, Blake3Digest};
use crate::rpc::agent::{
    AnchorReceipt, ProvenanceQueryParams, ProvenanceQueryResult, ProvenanceRecord, ProvenanceStatus,
};
use crate::rpc::dto::{
    AnchorReceiptDto, AnchorReceiptListResponse, ProvenanceQueryResponse, ProvenanceRecordDto,
};
use crate::rpc::error::{RpcError, RpcResult};
use crate::rpc::mcp::request_laws::{spells_32, spells_some_32};
use crate::rpc::rest::backends::SessionProvenanceBackend;
use crate::rpc::rest::endpoint_laws::{is_bad_request, is_not_found, is_unavailable};
use crate::rpc::rest::provenance::{
    cursor_outcome, feed_asked, feed_outcome, feed_reported, get_anchor_receipt, get_provenance,
    is_page, list_anchor_receipts, page_limit, page_to_dto, parse_provenance_status,
    query_provenance, receipt_asked, receipt_to_dto, receipts_asked, record_asked, record_to_dto,
    shows_page, shows_receipt, shows_record, AnchorListParams, FeedView, ProvenanceFeedParams,
};

verus! {

/// Whether a page is the one that was asked for: no records before the lower
/// bound of the request, none behind the upper one, from the cursor on that it
/// spells, and fifty of them where it sets no limit.
pub open spec fn page_is_requested(page: ProvenanceQueryParams, params: ProvenanceFeedParams) -> bool {
    &&& page.after_ms is Some <==> params.after_ms is Some
    &&& page.after_ms is Some ==> page.after_ms->Some_0.0 == params.after_ms->Some_0
    &&& page.before_ms is Some <==> params.before_ms is Some
    &&& page.before_ms is Some ==> page.before_ms->Some_0.0 == params.before_ms->Some_0
    &&& page.cursor is Some <==> params.cursor is Some
    &&& page.cursor is Some ==> spells_32(params.cursor->Some_0@, page.cursor->Some_0.0@)
    &&& params.limit is Some ==> page.limit == params.limit->Some_0
    &&& params.limit is None ==> page.limit == 50
}

/// Whether a name is that of a status.
pub open spec fn names_status(name: Seq<char>, s: ProvenanceStatus) -> bool {
    match s {
        ProvenanceStatus::Pending => name == "Pending"@,
        ProvenanceStatus::Committed => name == "Committed"@,
        ProvenanceStatus::Failed => name == "Failed"@,
        ProvenanceStatus::Aborted => name == "Aborted"@,
        ProvenanceStatus::Expired => name == "Expired"@,
    }
}

/// Whether a store was asked for what the request names and gave `answer`: the
/// records of the agent, else of the session, else of the transaction, else of
/// the status, else of everything.
pub open spec fn store_was_asked<B: SessionProvenanceBackend + ?Sized>(
    b: &B,
    params: ProvenanceFeedParams,
    page: ProvenanceQueryParams,
    answer: ProvenanceQueryResult,
) -> bool {
    if params.agent is Some {
        exists|agent: AccountAddress| #[trigger]
            call_ensures(B::query_provenance_by_agent, (b, &agent, &page), answer) && spells_32(
                params.agent->Some_0@,
                agent.0@,
            )
    } else if params.session is Some {
        exists|id: Blake3Digest| #[trigger]
            call_ensures(B::query_provenance_by_session, (b, &id, &page), answer) && spells_32(
                params.session->Some_0@,
                id.0@,
            )
    } else if params.tx_hash is Some {
        exists|tx: Blake3Digest| #[trigger]
            call_ensures(B::query_provenance_by_tx_hash, (b, &tx, &page), answer) && spells_32(
                params.tx_hash->Some_0@,
                tx.0@,
            )
    } else if params.status is Some {
        exists|s: ProvenanceStatus| #[trigger]
            call_ensures(B::query_provenance_by_status, (b, s, &page), answer) && names_status(
                params.status->Some_0@,
                s,
            )
    } else {
        call_ensures(B::provenance_activity_feed, (b, &page), answer)
    }
}

/// Whether an optional text spells an optional digest.
pub open spec fn shows_optional(text: Option<String>, digest: Option<Blake3Digest>) -> bool {
    match digest {
        Some(d) => text is Some && text->Some_0@ == hex_encode(d.0@),
        None => text is None,
    }
}

/// Whether what is shown tells of a record, each part under its own name.
pub open spec fn tells_of_record(dto: ProvenanceRecordDto, record: ProvenanceRecord) -> bool {
    &&& dto.provenance_id@ == hex_encode(record.provenance_id.0@)
    &&& dto.session_id@ == hex_encode(record.session_id.0@)
    &&& dto.agent_id@ == hex_encode(record.agent_id.0@)
    &&& match record.parent_agent_id {
        Some(a) => dto.parent_agent_id is Some && dto.parent_agent_id->Some_0@ == hex_encode(a.0@),
        None => dto.parent_agent_id is None,
    }
    &&& dto.intent_hash@ == hex_encode(record.intent_hash.0@)
    &&& dto.plan_hash@ == hex_encode(record.plan_hash.0@)
    &&& shows_optional(dto.tx_hash, record.tx_hash)
    &&& names_status(dto.status@, record.status)
    &&& dto.created_at_ms == record.created_at_ms.0
}

/// Whether what is shown tells of an answer of the store, record by record.
pub open spec fn tells_of_answer(r: ProvenanceQueryResponse, answer: ProvenanceQueryResult) -> bool {
    &&& r.records@.len() == answer.records@.len()
    &&& forall|i: int|
        0 <= i < r.records@.len() ==> tells_of_record(#[trigger] r.records@[i], answer.records@[i])
    &&& r.total_count == answer.total_count
    &&& shows_optional(r.cursor, answer.cursor)
}

proof fn lemma_page_told(r: ProvenanceQueryResponse, answer: ProvenanceQueryResult)
    requires
        shows_page(r, answer),
    ensures
        tells_of_answer(r, answer),
{
    assert forall|i: int| 0 <= i < r.records@.len() implies tells_of_record(
        #[trigger] r.records@[i],
        answer.records@[i],
    ) by {
        assert(shows_record(r.records@[i], answer.records@[i]));
    }
}

/// Where a search succeeds, the store was asked for exactly the page that the
/// request names, of what the request names, and what is shown is its answer.
pub proof fn law_searches_ask_for_what_is_requested<B: SessionProvenanceBackend + ?Sized>(
    b: &B,
    params: ProvenanceFeedParams,
    r: ProvenanceQueryResponse,
)
    requires
        call_ensures(query_provenance::<B>, (Some(b), &params), Ok(r)),
    ensures
        exists|page: ProvenanceQueryParams, answer: ProvenanceQueryResult|
            {
                &&& page_is_requested(page, params)
                &&& #[trigger] store_was_asked(b, params, page, answer)
                &&& tells_of_answer(r, answer)
            },
{
    let cursor = cursor_outcome(params.cursor)->Ok_0;
    let feed = feed_outcome(params)->Ok_0;
    let out: RpcResult<ProvenanceQueryResponse> = Ok(r);
    let page = choose|page: ProvenanceQueryParams|
        {
            &&& is_page(page, params, cursor)
            &&& #[trigger] feed_reported(out, b, feed, page)
        };
    let answer = choose|answer: ProvenanceQueryResult|
        {
            &&& #[trigger] feed_asked(b, feed, page, answer)
            &&& shows_page(r, answer)
        };
    lemma_page_told(r, answer);
    assert(page_is_requested(page, params));
    match feed {
        FeedView::ByAgent(bytes) => {
            let agent = choose|agent: AccountAddress|
                agent@ == bytes && #[trigger] call_ensures(
                    B::query_provenance_by_agent,
                    (b, &agent, &page),
                    answer,
                );
            assert(call_ensures(B::query_provenance_by_agent, (b, &agent, &page), answer));
        },
        FeedView::BySession(bytes) => {
            let id = choose|id: Blake3Digest|
                id@ == bytes && #[trigger] call_ensures(
                    B::query_provenance_by_session,
                    (b, &id, &page),
                    answer,
                );
            assert(call_ensures(B::query_provenance_by_session, (b, &id, &page), answer));
        },
        FeedView::ByTransaction(bytes) => {
            let tx = choose|tx: Blake3Digest|
                tx@ == bytes && #[trigger] call_ensures(
                    B::query_provenance_by_tx_hash,
                    (b, &tx, &page),
                    answer,
                );
            assert(call_ensures(B::query_provenance_by_tx_hash, (b, &tx, &page), answer));
        },
        FeedView::ByStatus(status) => {
            assert(call_ensures(B::query_provenance_by_status, (b, status, &page), answer));
            assert(names_status(params.status->Some_0@, status));
        },
        FeedView::All => {},
    }
    assert(store_was_asked(b, params, page, answer));
}

/// A search fails exactly where there is no store, the cursor does not spell
/// 32 bytes, or the first thing that it names is not spelled or unknown.
pub proof fn law_searches_fail_on_malformed_requests<B: SessionProvenanceBackend + ?Sized>(
    backend: Option<&B>,
    params: ProvenanceFeedParams,
    r: RpcResult<ProvenanceQueryResponse>,
)
    requires
        call_ensures(query_provenance::<B>, (backend, &params), r),
    ensures
        backend is None ==> is_unavailable(r, "provenance store not available"@),
        backend is Some ==> (r is Ok <==> {
            &&& params.cursor is Some ==> spells_some_32(params.cursor->Some_0@)
            &&& if params.agent is Some {
                spells_some_32(params.agent->Some_0@)
            } else if params.session is Some {
                spells_some_32(params.session->Some_0@)
            } else if params.tx_hash is Some {
                spells_some_32(params.tx_hash->Some_0@)
            } else if params.status is Some {
                exists|s: ProvenanceStatus| #[trigger] names_status(params.status->Some_0@, s)
            } else {
                true
            }
        }),
        backend is Some && r is Err ==> r->Err_0 is BadRequest,
{
    if params.status is Some {
        let name = params.status->Some_0@;
        assert(names_status(name, ProvenanceStatus::Pending) <==> name == "Pending"@);
        assert(names_status(name, ProvenanceStatus::Committed) <==> name == "Committed"@);
        assert(names_status(name, ProvenanceStatus::Failed) <==> name == "Failed"@);
        assert(names_status(name, ProvenanceStatus::Aborted) <==> name == "Aborted"@);
        assert(names_status(name, ProvenanceStatus::Expired) <==> name == "Expired"@);
    }
}

/// Whether a store keeps to the bounds of a page, where `late` and `early` say
/// which times are behind a lower bound and before an upper one.
pub open spec fn keeps_bounds<B: SessionProvenanceBackend + ?Sized>(
    b: &B,
    late: spec_fn(u64, u64) -> bool,
    early: spec_fn(u64, u64) -> bool,
) -> bool {
    forall|params: ProvenanceFeedParams, page: ProvenanceQueryParams, answer: ProvenanceQueryResult, i: int|
        #[trigger] store_was_asked(b, params, page, answer) && 0 <= i < answer.records@.len() ==> {
            let created = (#[trigger] answer.records@[i]).created_at_ms.0;
            &&& page.after_ms is Some ==> late(page.after_ms->Some_0.0, created)
            &&& page.before_ms is Some ==> early(page.before_ms->Some_0.0, created)
        }
}

/// Over a store that keeps to its bounds, every record that is shown was
/// created behind the request's `after_ms` and before its `before_ms`.
pub proof fn law_shown_records_are_within_the_bounds<B: SessionProvenanceBackend + ?Sized>(
    b: &B,
    params: ProvenanceFeedParams,
    r: ProvenanceQueryResponse,
    late: spec_fn(u64, u64) -> bool,
    early: spec_fn(u64, u64) -> bool,
)
    requires
        call_ensures(query_provenance::<B>, (Some(b), &params), Ok(r)),
        keeps_bounds(b, late, early),
    ensures
        forall|i: int|
            0 <= i < r.records@.len() ==> {
                &&& params.after_ms is Some ==> late(
                    params.after_ms->Some_0,
                    (#[trigger] r.records@[i]).created_at_ms,
                )
                &&& params.before_ms is Some ==> early(
                    params.before_ms->Some_0,
                    r.records@[i].created_at_ms,
                )
            },
{
    law_searches_ask_for_what_is_requested(b, params, r);
    let (page, answer) = choose|page: ProvenanceQueryParams, answer: ProvenanceQueryResult|
        {
            &&& page_is_requested(page, params)
            &&& #[trigger] store_was_asked(b, params, page, answer)
            &&& tells_of_answer(r, answer)
        };
    assert forall|i: int| 0 <= i < r.records@.len() implies {
        &&& params.after_ms is Some ==> late(
            params.after_ms->Some_0,
            (#[trigger] r.records@[i]).created_at_ms,
        )
        &&& params.before_ms is Some ==> early(
            params.before_ms->Some_0,
            r.records@[i].created_at_ms,
        )
    } by {
        assert(tells_of_record(r.records@[i], answer.records@[i]));
    }
}

/// A status is read from its own name, and from no other text.
pub proof fn law_statuses_are_read_by_name(name: &str, r: Result<ProvenanceStatus, RpcError>)
    requires
        call_ensures(parse_provenance_status, (name,), r),
    ensures
        r is Ok ==> names_status(name@, r->Ok_0),
        r is Err ==> is_bad_request(r, "unknown provenance status: "@ + name@) && forall|
            s: ProvenanceStatus,
        | !names_status(name@, s),
{
}

/// A record, a page and a receipt are shown part by part.
pub proof fn law_records_are_shown_as_they_are(
    record: ProvenanceRecord,
    dto: ProvenanceRecordDto,
    answer: ProvenanceQueryResult,
    page: ProvenanceQueryResponse,
)
    requires
        call_ensures(record_to_dto, (&record,), dto),
        call_ensures(page_to_dto, (&answer,), page),
    ensures
        tells_of_record(dto, record),
        tells_of_answer(page, answer),
{
    lemma_page_told(page, answer);
}

/// A record is looked up by the identifier that the text spells, and what is
/// shown is what was found.
pub proof fn law_records_are_found_by_identifier<B: SessionProvenanceBackend + ?Sized>(
    backend: Option<&B>,
    text: &str,
    r: RpcResult<ProvenanceRecordDto>,
)
    requires
        call_ensures(get_provenance::<B>, (backend, text), r),
    ensures
        backend is None ==> is_unavailable(r, "provenance store not available"@),
        backend is Some && !spells_some_32(text@) ==> r is Err && r->Err_0 is BadRequest,
        backend is Some && spells_some_32(text@) ==> exists|
            id: Blake3Digest,
            answer: Option<ProvenanceRecord>,
        |
            {
                &&& #[trigger] call_ensures(B::get_provenance, (backend->Some_0, &id), answer)
                &&& spells_32(text@, id.0@)
                &&& answer is Some ==> r is Ok && tells_of_record(r->Ok_0, answer->Some_0)
                &&& answer is None ==> is_not_found(r, "provenance "@ + text@ + " not found"@)
            },
{
    if backend is Some && spells_some_32(text@) {
        let b = backend->Some_0;
        let (id, answer) = choose|id: Blake3Digest, answer: Option<ProvenanceRecord>|
            {
                &&& #[trigger] record_asked(b, id, answer)
                &&& id@ == hex_decoded(text@)->Ok_0
                &&& match answer {
                    Some(record) => r is Ok && shows_record(r->Ok_0, record),
                    None => is_not_found(r, "provenance "@ + text@ + " not found"@),
                }
            };
        assert(call_ensures(B::get_provenance, (b, &id), answer));
    }
}

/// Whether what is shown tells of a receipt, each part under its own name.
pub open spec fn tells_of_receipt(dto: AnchorReceiptDto, receipt: AnchorReceipt) -> bool {
    &&& dto.batch_seq == receipt.batch_seq
    &&& dto.anchor_digest@ == hex_encode(receipt.anchor_digest.0@)
    &&& dto.tx_hash@ == hex_encode(receipt.tx_hash.0@)
    &&& dto.block_height == receipt.block_height
    &&& dto.anchored_at_ms == receipt.anchored_at_ms.0
}

/// A receipt is shown part by part.
pub proof fn law_receipts_are_shown_as_they_are(receipt: AnchorReceipt, dto: AnchorReceiptDto)
    requires
        call_ensures(receipt_to_dto, (&receipt,), dto),
    ensures
        tells_of_receipt(dto, receipt),
{
}

/// A receipt is looked up by the digest that the text spells, and what is
/// shown is what was found.
pub proof fn law_receipts_are_found_by_digest<B: SessionProvenanceBackend + ?Sized>(
    backend: Option<&B>,
    text: &str,
    r: RpcResult<AnchorReceiptDto>,
)
    requires
        call_ensures(get_anchor_receipt::<B>, (backend, text), r),
    ensures
        backend is None ==> is_unavailable(r, "provenance store not available"@),
        backend is Some && !spells_some_32(text@) ==> r is Err && r->Err_0 is BadRequest,
        backend is Some && spells_some_32(text@) ==> exists|
            digest: Blake3Digest,
            answer: Option<AnchorReceipt>,
        |
            {
                &&& #[trigger] call_ensures(B::get_anchor_receipt, (backend->Some_0, &digest), answer)
                &&& spells_32(text@, digest.0@)
                &&& answer is Some ==> r is Ok && tells_of_receipt(r->Ok_0, answer->Some_0)
                &&& answer is None ==> is_not_found(r, "anchor receipt "@ + text@ + " not found"@)
            },
{
    if backend is Some && spells_some_32(text@) {
        let b = backend->Some_0;
        let (digest, answer) = choose|digest: Blake3Digest, answer: Option<AnchorReceipt>|
            {
                &&& #[trigger] receipt_asked(b, digest, answer)
                &&& digest@ == hex_decoded(text@)->Ok_0
                &&& match answer {
                    Some(receipt) => r is Ok && shows_receipt(r->Ok_0, receipt),
                    None => is_not_found(r, "anchor receipt "@ + text@ + " not found"@),
                }
            };
        assert(call_ensures(B::get_anchor_receipt, (b, &digest), answer));
    }
}

/// As many receipts are asked for as the request says, fifty where it says
/// nothing, and all that came are shown, in their order.
pub proof fn law_receipts_are_listed_as_they_come<B: SessionProvenanceBackend + ?Sized>(
    backend: Option<&B>,
    params: AnchorListParams,
    r: RpcResult<AnchorReceiptListResponse>,
)
    requires
        call_ensures(list_anchor_receipts::<B>, (backend, &params), r),
    ensures
        backend is None ==> is_unavailable(r, "provenance store not available"@),
        backend is Some ==> r is Ok && exists|limit: u32, receipts: Vec<AnchorReceipt>|
            {
                &&& #[trigger] call_ensures(
                    B::list_anchor_receipts,
                    (backend->Some_0, limit),
                    receipts,
                )
                &&& params.limit is Some ==> limit == params.limit->Some_0
                &&& params.limit is None ==> limit == 50
                &&& r->Ok_0.receipts@.len() == receipts@.len()
                &&& forall|i: int|
                    0 <= i < receipts@.len() ==> tells_of_receipt(
                        #[trigger] r->Ok_0.receipts@[i],
                        receipts@[i],
                    )
            },
{
    if backend is Some {
        let b = backend->Some_0;
        let receipts = choose|receipts: Vec<AnchorReceipt>|
            {
                &&& #[trigger] receipts_asked(b, page_limit(params.limit), receipts)
                &&& r->Ok_0.receipts@.len() == receipts@.len()
                &&& forall|i: int|
                    0 <= i < receipts@.len() ==> shows_receipt(
                        #[trigger] r->Ok_0.receipts@[i],
                        receipts@[i],
                    )
            };
        assert(call_ensures(B::list_anchor_receipts, (b, page_limit(params.limit)), receipts));
    }
}

} // verus!
