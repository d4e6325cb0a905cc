//! The audit trail.

use vstd::prelude::*;
use vstd::string::*;

use crate::primitives::hexadecimal::hex_encode;
use crate::primitives::text::{join, join3, text_eq};
use crate::primitives::{AccountAddress, Blake3Digest, TimestampMs};
use crate::rpc::agent::{
    AnchorReceipt, ProvenanceQueryParams, ProvenanceQueryResult, ProvenanceRecord, ProvenanceStatus,
};
use crate::rpc::dto::{
    AnchorReceiptDto, AnchorReceiptListResponse, ProvenanceQueryResponse, ProvenanceRecordDto,
};
use crate::rpc::error::{viewed, RpcError, RpcErrorView, RpcResult};
use crate::rpc::rest::backends::{not_available, SessionProvenanceBackend};
use crate::rpc::rest::session::{optional_hex, optional_hex_text, optional_text};
use crate::rpc::rest::{parse_sized, sized_outcome};

verus! {

/// Number of records or receipts on a page where the request does not say.
pub const DEFAULT_PAGE_LIMIT: u32 = 50;

/// The number of records or receipts on a page.
pub open spec fn page_limit(limit: Option<u32>) -> u32 {
    match limit {
        Some(n) => n,
        None => DEFAULT_PAGE_LIMIT,
    }
}

/// Which provenance records to return. Of agent, session, transaction and
/// status the first that is given counts.
#[derive(Debug, Clone)]
pub struct ProvenanceFeedParams {
    /// Only records of the agent with this hexadecimal address.
    pub agent: Option<String>,
    /// Only records of the session with this hexadecimal identifier.
    pub session: Option<String>,
    /// Only records of the transaction with this hexadecimal digest.
    pub tx_hash: Option<String>,
    /// Only records with this status.
    pub status: Option<String>,
    /// Most records to return: fifty where it is absent.
    pub limit: Option<u32>,
    /// Where the page begins, in hexadecimal, from an earlier response.
    pub cursor: Option<String>,
    /// Only records after this time.
    pub after_ms: Option<u64>,
    /// Only records before this time.
    pub before_ms: Option<u64>,
}

/// Which anchor receipts to return.
#[derive(Debug, Clone)]
pub struct AnchorListParams {
    /// Most receipts to return: fifty where it is absent.
    pub limit: Option<u32>,
}

/// What reading `text` as a digest gives.
pub open spec fn digest_outcome(text: Seq<char>) -> Result<Seq<u8>, RpcErrorView> {
    sized_outcome(text, "digest must be 32 bytes"@)
}

/// Reads a hexadecimal digest.
pub fn parse_digest(hex_str: &str) -> (r: Result<Blake3Digest, RpcError>)
    ensures
        viewed(r) == digest_outcome(hex_str@),
{
    match parse_sized(hex_str, "digest must be 32 bytes") {
        Ok(bytes) => Ok(Blake3Digest(bytes)),
        Err(e) => Err(e),
    }
}

/// Reads a hexadecimal address.
pub fn parse_address(hex_str: &str) -> (r: Result<AccountAddress, RpcError>)
    ensures
        viewed(r) == sized_outcome(hex_str@, "address must be 32 bytes"@),
{
    match parse_sized(hex_str, "address must be 32 bytes") {
        Ok(bytes) => Ok(AccountAddress(bytes)),
        Err(e) => Err(e),
    }
}

/// The name of a status.
pub open spec fn status_name(s: ProvenanceStatus) -> Seq<char> {
    match s {
        ProvenanceStatus::Pending => "Pending"@,
        ProvenanceStatus::Committed => "Committed"@,
        ProvenanceStatus::Failed => "Failed"@,
        ProvenanceStatus::Aborted => "Aborted"@,
        ProvenanceStatus::Expired => "Expired"@,
    }
}

fn status_text(s: ProvenanceStatus) -> (r: &'static str)
    ensures
        r@ == status_name(s),
{
    match s {
        ProvenanceStatus::Pending => "Pending",
        ProvenanceStatus::Committed => "Committed",
        ProvenanceStatus::Failed => "Failed",
        ProvenanceStatus::Aborted => "Aborted",
        ProvenanceStatus::Expired => "Expired",
    }
}

/// The status with the name `name`, or the report that there is none.
pub open spec fn status_outcome(name: Seq<char>) -> Result<ProvenanceStatus, RpcErrorView> {
    if name == "Pending"@ {
        Ok(ProvenanceStatus::Pending)
    } else if name == "Committed"@ {
        Ok(ProvenanceStatus::Committed)
    } else if name == "Failed"@ {
        Ok(ProvenanceStatus::Failed)
    } else if name == "Aborted"@ {
        Ok(ProvenanceStatus::Aborted)
    } else if name == "Expired"@ {
        Ok(ProvenanceStatus::Expired)
    } else {
        Err(RpcErrorView::BadRequest("unknown provenance status: "@ + name))
    }
}

/// Reads the name of a status.
pub fn parse_provenance_status(s: &str) -> (r: Result<ProvenanceStatus, RpcError>)
    ensures
        match status_outcome(s@) {
            Ok(status) => r is Ok && r->Ok_0 == status,
            Err(e) => r is Err && r->Err_0@ == e,
        },
{
    if text_eq(s, "Pending") {
        Ok(ProvenanceStatus::Pending)
    } else if text_eq(s, "Committed") {
        Ok(ProvenanceStatus::Committed)
    } else if text_eq(s, "Failed") {
        Ok(ProvenanceStatus::Failed)
    } else if text_eq(s, "Aborted") {
        Ok(ProvenanceStatus::Aborted)
    } else if text_eq(s, "Expired") {
        Ok(ProvenanceStatus::Expired)
    } else {
        Err(RpcError::BadRequest(join("unknown provenance status: ", s)))
    }
}

/// Reading the name of a status gives the status.
pub proof fn law_status_names_read_back(s: ProvenanceStatus)
    ensures
        status_outcome(status_name(s)) == Ok::<ProvenanceStatus, RpcErrorView>(s),
{
    reveal_strlit("Pending");
    reveal_strlit("Committed");
    reveal_strlit("Failed");
    reveal_strlit("Aborted");
    reveal_strlit("Expired");
    let name = status_name(s);
    assert(name[0] == 'P' || name[0] == 'C' || name[0] == 'F' || name[0] == 'A' || name[0] == 'E');
    assert("Pending"@[0] == 'P' && "Committed"@[0] == 'C' && "Failed"@[0] == 'F' && "Aborted"@[0]
        == 'A' && "Expired"@[0] == 'E');
}

/// The hexadecimal form of an address that may be absent.
pub open spec fn optional_address_hex(address: Option<AccountAddress>) -> Option<Seq<char>> {
    match address {
        Some(a) => Some(hex_encode(a@)),
        None => None,
    }
}

/// Whether `dto` shows the record `record`.
pub open spec fn shows_record(dto: ProvenanceRecordDto, record: ProvenanceRecord) -> bool {
    &&& dto.provenance_id@ == hex_encode(record.provenance_id@)
    &&& dto.session_id@ == hex_encode(record.session_id@)
    &&& dto.agent_id@ == hex_encode(record.agent_id@)
    &&& optional_text(dto.parent_agent_id) == optional_address_hex(record.parent_agent_id)
    &&& dto.intent_hash@ == hex_encode(record.intent_hash@)
    &&& dto.plan_hash@ == hex_encode(record.plan_hash@)
    &&& optional_text(dto.tx_hash) == optional_hex(record.tx_hash)
    &&& dto.status@ == status_name(record.status)
    &&& dto.created_at_ms == record.created_at_ms.0
}

/// What is public of a provenance record.
pub fn record_to_dto(record: &ProvenanceRecord) -> (r: ProvenanceRecordDto)
    ensures
        shows_record(r, *record),
{
    ProvenanceRecordDto {
        provenance_id: record.provenance_id.to_hex(),
        session_id: record.session_id.to_hex(),
        agent_id: record.agent_id.to_hex(),
        parent_agent_id: match record.parent_agent_id {
            Some(a) => Some(a.to_hex()),
            None => None,
        },
        intent_hash: record.intent_hash.to_hex(),
        plan_hash: record.plan_hash.to_hex(),
        tx_hash: optional_hex_text(record.tx_hash),
        status: status_text(record.status).to_owned(),
        created_at_ms: record.created_at_ms.0,
    }
}

/// Whether `dto` shows the receipt `receipt`.
pub open spec fn shows_receipt(dto: AnchorReceiptDto, receipt: AnchorReceipt) -> bool {
    &&& dto.batch_seq == receipt.batch_seq
    &&& dto.anchor_digest@ == hex_encode(receipt.anchor_digest@)
    &&& dto.tx_hash@ == hex_encode(receipt.tx_hash@)
    &&& dto.block_height == receipt.block_height
    &&& dto.anchored_at_ms == receipt.anchored_at_ms.0
}

/// What is public of an anchor receipt.
pub fn receipt_to_dto(receipt: &AnchorReceipt) -> (r: AnchorReceiptDto)
    ensures
        shows_receipt(r, *receipt),
{
    AnchorReceiptDto {
        batch_seq: receipt.batch_seq,
        anchor_digest: receipt.anchor_digest.to_hex(),
        tx_hash: receipt.tx_hash.to_hex(),
        block_height: receipt.block_height,
        anchored_at_ms: receipt.anchored_at_ms.0,
    }
}

/// Whether the backend answers with `answer` when asked for a record.
pub open spec fn record_asked<B: SessionProvenanceBackend + ?Sized>(
    backend: &B,
    id: Blake3Digest,
    answer: Option<ProvenanceRecord>,
) -> bool {
    call_ensures(B::get_provenance, (backend, &id), answer)
}

/// `GET /v2/provenance/:digest`: a record, by its hexadecimal identifier.
pub fn get_provenance<B: SessionProvenanceBackend + ?Sized>(backend: Option<&B>, id_hex: &str) -> (r: RpcResult<
    ProvenanceRecordDto,
>)
    ensures
        match backend {
            None => not_available(r, "provenance store not available"@),
            Some(b) => match digest_outcome(id_hex@) {
                Err(e) => r is Err && r->Err_0@ == e,
                Ok(bytes) => exists|id: Blake3Digest, answer: Option<ProvenanceRecord>|
                    {
                        &&& #[trigger] record_asked(b, id, answer)
                        &&& id@ == bytes
                        &&& match answer {
                            Some(record) => r is Ok && shows_record(r->Ok_0, record),
                            None => r is Err && r->Err_0@ == RpcErrorView::NotFound(
                                "provenance "@ + id_hex@ + " not found"@,
                            ),
                        }
                    },
            },
        },
{
    let b = match backend {
        Some(b) => b,
        None => {
            return Err(RpcError::Unavailable("provenance store not available".to_owned()));
        },
    };
    let id = match parse_digest(id_hex) {
        Ok(id) => id,
        Err(e) => {
            return Err(e);
        },
    };
    let answer = b.get_provenance(&id);
    assert(record_asked(b, id, answer));
    match &answer {
        Some(record) => Ok(record_to_dto(record)),
        None => Err(RpcError::NotFound(join3("provenance ", id_hex, " not found"))),
    }
}

/// What a request asks of the audit trail.
pub enum FeedView {
    /// The records of an agent.
    ByAgent(Seq<u8>),
    /// The records of a session.
    BySession(Seq<u8>),
    /// The records of a transaction.
    ByTransaction(Seq<u8>),
    /// The records with a status.
    ByStatus(ProvenanceStatus),
    /// All records.
    All,
}

/// What the filters of a request ask for, or why they are refused.
pub open spec fn feed_outcome(params: ProvenanceFeedParams) -> Result<FeedView, RpcErrorView> {
    if params.agent is Some {
        match sized_outcome(params.agent->Some_0@, "address must be 32 bytes"@) {
            Ok(bytes) => Ok(FeedView::ByAgent(bytes)),
            Err(e) => Err(e),
        }
    } else if params.session is Some {
        match digest_outcome(params.session->Some_0@) {
            Ok(bytes) => Ok(FeedView::BySession(bytes)),
            Err(e) => Err(e),
        }
    } else if params.tx_hash is Some {
        match digest_outcome(params.tx_hash->Some_0@) {
            Ok(bytes) => Ok(FeedView::ByTransaction(bytes)),
            Err(e) => Err(e),
        }
    } else if params.status is Some {
        match status_outcome(params.status->Some_0@) {
            Ok(status) => Ok(FeedView::ByStatus(status)),
            Err(e) => Err(e),
        }
    } else {
        Ok(FeedView::All)
    }
}

/// What the cursor of a request says, or why it is refused.
pub open spec fn cursor_outcome(cursor: Option<String>) -> Result<Option<Seq<u8>>, RpcErrorView> {
    match cursor {
        None => Ok(None),
        Some(text) => match digest_outcome(text@) {
            Ok(bytes) => Ok(Some(bytes)),
            Err(e) => Err(e),
        },
    }
}

/// A time that may be absent, as a timestamp.
pub open spec fn optional_time(ms: Option<u64>) -> Option<TimestampMs> {
    match ms {
        Some(t) => Some(TimestampMs(t)),
        None => None,
    }
}

/// Whether `page` is the page that a request asks for.
pub open spec fn is_page(
    page: ProvenanceQueryParams,
    params: ProvenanceFeedParams,
    cursor: Option<Seq<u8>>,
) -> bool {
    &&& page.limit == page_limit(params.limit)
    &&& match (page.cursor, cursor) {
        (Some(d), Some(bytes)) => d@ == bytes,
        (None, None) => true,
        _ => false,
    }
    &&& page.after_ms == optional_time(params.after_ms)
    &&& page.before_ms == optional_time(params.before_ms)
}

/// Whether the backend answers with `answer` when asked for a page of `feed`.
pub open spec fn feed_asked<B: SessionProvenanceBackend + ?Sized>(
    backend: &B,
    feed: FeedView,
    page: ProvenanceQueryParams,
    answer: ProvenanceQueryResult,
) -> bool {
    match feed {
        FeedView::ByAgent(bytes) => exists|agent: AccountAddress|
            agent@ == bytes && #[trigger] call_ensures(
                B::query_provenance_by_agent,
                (backend, &agent, &page),
                answer,
            ),
        FeedView::BySession(bytes) => exists|id: Blake3Digest|
            id@ == bytes && #[trigger] call_ensures(
                B::query_provenance_by_session,
                (backend, &id, &page),
                answer,
            ),
        FeedView::ByTransaction(bytes) => exists|tx: Blake3Digest|
            tx@ == bytes && #[trigger] call_ensures(
                B::query_provenance_by_tx_hash,
                (backend, &tx, &page),
                answer,
            ),
        FeedView::ByStatus(status) => call_ensures(
            B::query_provenance_by_status,
            (backend, status, &page),
            answer,
        ),
        FeedView::All => call_ensures(B::provenance_activity_feed, (backend, &page), answer),
    }
}

/// Whether `r` shows the page `answer`.
pub open spec fn shows_page(r: ProvenanceQueryResponse, answer: ProvenanceQueryResult) -> bool {
    &&& r.records@.len() == answer.records@.len()
    &&& forall|i: int|
        0 <= i < answer.records@.len() ==> shows_record(
            #[trigger] r.records@[i],
            answer.records@[i],
        )
    &&& r.total_count == answer.total_count
    &&& optional_text(r.cursor) == optional_hex(answer.cursor)
}

/// What is public of a page of provenance records.
pub fn page_to_dto(answer: &ProvenanceQueryResult) -> (r: ProvenanceQueryResponse)
    ensures
        shows_page(r, *answer),
{
    let mut records: Vec<ProvenanceRecordDto> = Vec::new();
    let mut i: usize = 0;
    while i < answer.records.len()
        invariant
            0 <= i <= answer.records@.len(),
            records@.len() == i,
            forall|j: int| 0 <= j < i ==> shows_record(#[trigger] records@[j], answer.records@[j]),
        decreases answer.records@.len() - i,
    {
        records.push(record_to_dto(&answer.records[i]));
        i = i + 1;
    }
    ProvenanceQueryResponse {
        records,
        total_count: answer.total_count,
        cursor: optional_hex_text(answer.cursor),
    }
}

fn requested_page(params: &ProvenanceFeedParams) -> (r: Result<ProvenanceQueryParams, RpcError>)
    ensures
        match cursor_outcome(params.cursor) {
            Ok(cursor) => r is Ok && is_page(r->Ok_0, *params, cursor),
            Err(e) => r is Err && r->Err_0@ == e,
        },
{
    let limit: u32 = match params.limit {
        Some(n) => n,
        None => DEFAULT_PAGE_LIMIT,
    };
    let cursor: Option<Blake3Digest> = match &params.cursor {
        None => None,
        Some(text) => match parse_digest(text.as_str()) {
            Ok(digest) => Some(digest),
            Err(e) => {
                return Err(e);
            },
        },
    };
    let after_ms = match params.after_ms {
        Some(t) => Some(TimestampMs(t)),
        None => None,
    };
    let before_ms = match params.before_ms {
        Some(t) => Some(TimestampMs(t)),
        None => None,
    };
    Ok(ProvenanceQueryParams { limit, cursor, after_ms, before_ms })
}

fn ask_feed<B: SessionProvenanceBackend + ?Sized>(
    b: &B,
    params: &ProvenanceFeedParams,
    page: &ProvenanceQueryParams,
) -> (r: Result<ProvenanceQueryResult, RpcError>)
    ensures
        match feed_outcome(*params) {
            Ok(feed) => r is Ok && feed_asked(b, feed, *page, r->Ok_0),
            Err(e) => r is Err && r->Err_0@ == e,
        },
{
    if let Some(text) = &params.agent {
        match parse_address(text.as_str()) {
            Ok(agent) => {
                let answer = b.query_provenance_by_agent(&agent, page);
                assert(call_ensures(B::query_provenance_by_agent, (b, &agent, page), answer));
                Ok(answer)
            },
            Err(e) => Err(e),
        }
    } else if let Some(text) = &params.session {
        match parse_digest(text.as_str()) {
            Ok(id) => {
                let answer = b.query_provenance_by_session(&id, page);
                assert(call_ensures(B::query_provenance_by_session, (b, &id, page), answer));
                Ok(answer)
            },
            Err(e) => Err(e),
        }
    } else if let Some(text) = &params.tx_hash {
        match parse_digest(text.as_str()) {
            Ok(tx) => {
                let answer = b.query_provenance_by_tx_hash(&tx, page);
                assert(call_ensures(B::query_provenance_by_tx_hash, (b, &tx, page), answer));
                Ok(answer)
            },
            Err(e) => Err(e),
        }
    } else if let Some(text) = &params.status {
        match parse_provenance_status(text.as_str()) {
            Ok(status) => Ok(b.query_provenance_by_status(status, page)),
            Err(e) => Err(e),
        }
    } else {
        Ok(b.provenance_activity_feed(page))
    }
}

/// Whether `r` is the reply to a request whose page is `page` and whose feed
/// is `feed`.
pub open spec fn feed_reported<B: SessionProvenanceBackend + ?Sized>(
    r: RpcResult<ProvenanceQueryResponse>,
    backend: &B,
    feed: FeedView,
    page: ProvenanceQueryParams,
) -> bool {
    r is Ok && exists|answer: ProvenanceQueryResult|
        {
            &&& #[trigger] feed_asked(backend, feed, page, answer)
            &&& shows_page(r->Ok_0, answer)
        }
}

/// `GET /v2/provenance`: a page of records. The cursor is read first, then the
/// filters.
pub fn query_provenance<B: SessionProvenanceBackend + ?Sized>(
    backend: Option<&B>,
    params: &ProvenanceFeedParams,
) -> (r: RpcResult<ProvenanceQueryResponse>)
    ensures
        match backend {
            None => not_available(r, "provenance store not available"@),
            Some(b) => match cursor_outcome(params.cursor) {
                Err(e) => r is Err && r->Err_0@ == e,
                Ok(cursor) => match feed_outcome(*params) {
                    Err(e) => r is Err && r->Err_0@ == e,
                    Ok(feed) => exists|page: ProvenanceQueryParams|
                        {
                            &&& is_page(page, *params, cursor)
                            &&& page.after_ms is Some <==> params.after_ms is Some
                            &&& page.after_ms is Some ==> page.after_ms->Some_0.0
                                == params.after_ms->Some_0
                            &&& page.before_ms is Some <==> params.before_ms is Some
                            &&& page.before_ms is Some ==> page.before_ms->Some_0.0
                                == params.before_ms->Some_0
                            &&& #[trigger] feed_reported(r, b, feed, page)
                        },
                },
            },
        },
{
    let b = match backend {
        Some(b) => b,
        None => {
            return Err(RpcError::Unavailable("provenance store not available".to_owned()));
        },
    };
    let page = match requested_page(params) {
        Ok(page) => page,
        Err(e) => {
            return Err(e);
        },
    };
    let answer = match ask_feed(b, params, &page) {
        Ok(answer) => answer,
        Err(e) => {
            return Err(e);
        },
    };
    let r = Ok(page_to_dto(&answer));
    proof {
        let feed = feed_outcome(*params)->Ok_0;
        assert(feed_asked(b, feed, page, answer));
        assert(feed_reported(r, b, feed, page));
    }
    r
}

/// Whether the backend answers with `answer` when asked for a receipt.
pub open spec fn receipt_asked<B: SessionProvenanceBackend + ?Sized>(
    backend: &B,
    digest: Blake3Digest,
    answer: Option<AnchorReceipt>,
) -> bool {
    call_ensures(B::get_anchor_receipt, (backend, &digest), answer)
}

/// `GET /v2/provenance/anchor/:digest`: a receipt, by its hexadecimal digest.
pub fn get_anchor_receipt<B: SessionProvenanceBackend + ?Sized>(backend: Option<&B>, digest_hex: &str) -> (r:
    RpcResult<AnchorReceiptDto>)
    ensures
        match backend {
            None => not_available(r, "provenance store not available"@),
            Some(b) => match digest_outcome(digest_hex@) {
                Err(e) => r is Err && r->Err_0@ == e,
                Ok(bytes) => exists|digest: Blake3Digest, answer: Option<AnchorReceipt>|
                    {
                        &&& #[trigger] receipt_asked(b, digest, answer)
                        &&& digest@ == bytes
                        &&& match answer {
                            Some(receipt) => r is Ok && shows_receipt(r->Ok_0, receipt),
                            None => r is Err && r->Err_0@ == RpcErrorView::NotFound(
                                "anchor receipt "@ + digest_hex@ + " not found"@,
                            ),
                        }
                    },
            },
        },
{
    let b = match backend {
        Some(b) => b,
        None => {
            return Err(RpcError::Unavailable("provenance store not available".to_owned()));
        },
    };
    let digest = match parse_digest(digest_hex) {
        Ok(digest) => digest,
        Err(e) => {
            return Err(e);
        },
    };
    let answer = b.get_anchor_receipt(&digest);
    assert(receipt_asked(b, digest, answer));
    match &answer {
        Some(receipt) => Ok(receipt_to_dto(receipt)),
        None => Err(RpcError::NotFound(join3("anchor receipt ", digest_hex, " not found"))),
    }
}

/// Whether the backend lists `receipts` when asked for up to `limit`.
pub open spec fn receipts_asked<B: SessionProvenanceBackend + ?Sized>(
    backend: &B,
    limit: u32,
    receipts: Vec<AnchorReceipt>,
) -> bool {
    call_ensures(B::list_anchor_receipts, (backend, limit), receipts)
}

/// `GET /v2/provenance/anchors`: the receipts in batch order.
pub fn list_anchor_receipts<B: SessionProvenanceBackend + ?Sized>(
    backend: Option<&B>,
    params: &AnchorListParams,
) -> (r: RpcResult<AnchorReceiptListResponse>)
    ensures
        match backend {
            None => not_available(r, "provenance store not available"@),
            Some(b) => r is Ok && exists|receipts: Vec<AnchorReceipt>|
                {
                    &&& #[trigger] receipts_asked(b, page_limit(params.limit), receipts)
                    &&& r->Ok_0.receipts@.len() == receipts@.len()
                    &&& forall|i: int|
                        0 <= i < receipts@.len() ==> shows_receipt(
                            #[trigger] r->Ok_0.receipts@[i],
                            receipts@[i],
                        )
                },
        },
{
    let b = match backend {
        Some(b) => b,
        None => {
            return Err(RpcError::Unavailable("provenance store not available".to_owned()));
        },
    };
    let limit: u32 = match params.limit {
        Some(n) => n,
        None => DEFAULT_PAGE_LIMIT,
    };
    let listed = b.list_anchor_receipts(limit);
    assert(receipts_asked(b, page_limit(params.limit), listed));
    let mut receipts: Vec<AnchorReceiptDto> = Vec::new();
    let mut i: usize = 0;
    while i < listed.len()
        invariant
            0 <= i <= listed@.len(),
            receipts@.len() == i,
            forall|j: int| 0 <= j < i ==> shows_receipt(#[trigger] receipts@[j], listed@[j]),
        decreases listed@.len() - i,
    {
        receipts.push(receipt_to_dto(&listed[i]));
        i = i + 1;
    }
    Ok(AnchorReceiptListResponse { receipts })
}

} // verus!
