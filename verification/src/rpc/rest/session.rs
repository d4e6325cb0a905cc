//! Sessions of agents.

use vstd::prelude::*;
use vstd::string::*;

use crate::primitives::hexadecimal::hex_encode;
use crate::primitives::text::join3;
use crate::primitives::Blake3Digest;
use crate::rpc::agent::AgentSession;
use crate::rpc::dto::{SessionDto, SessionListResponse};
use crate::rpc::error::{RpcError, RpcErrorView, RpcResult};
use crate::rpc::rest::backends::{not_available, SessionProvenanceBackend};
use crate::rpc::rest::{parse_sized, sized_outcome};

verus! {

/// Which sessions to list.
#[derive(Debug, Clone)]
pub struct SessionListParams {
    /// Whether to leave out sessions that have ended.
    pub active: bool,
}

/// The hexadecimal form of a digest that may be absent.
pub open spec fn optional_hex(digest: Option<Blake3Digest>) -> Option<Seq<char>> {
    match digest {
        Some(d) => Some(hex_encode(d@)),
        None => None,
    }
}

/// The characters of a text that may be absent.
pub open spec fn optional_text(text: Option<String>) -> Option<Seq<char>> {
    match text {
        Some(t) => Some(t@),
        None => None,
    }
}

pub(crate) fn optional_hex_text(digest: Option<Blake3Digest>) -> (r: Option<String>)
    ensures
        optional_text(r) == optional_hex(digest),
{
    match digest {
        Some(d) => Some(d.to_hex()),
        None => None,
    }
}

/// Whether `dto` shows the session `s`.
pub open spec fn shows_session(dto: SessionDto, s: AgentSession) -> bool {
    &&& dto.session_id@ == hex_encode(s.session_id@)
    &&& dto.state@ == s.current_state.name@
    &&& dto.created_at_ms == s.created_at_ms.0
    &&& optional_text(dto.plan_hash) == optional_hex(s.plan_hash)
    &&& optional_text(dto.confirmation_ref) == optional_hex(s.confirmation_ref)
}

/// What is public of a session.
pub fn session_to_dto(s: &AgentSession) -> (r: SessionDto)
    ensures
        shows_session(r, *s),
{
    SessionDto {
        session_id: s.session_id.to_hex(),
        state: s.current_state.name.clone(),
        created_at_ms: s.created_at_ms.0,
        plan_hash: optional_hex_text(s.plan_hash),
        confirmation_ref: optional_hex_text(s.confirmation_ref),
    }
}

/// Whether the backend answers with `answer` when asked for a session.
pub open spec fn session_asked<B: SessionProvenanceBackend + ?Sized>(
    backend: &B,
    id: Blake3Digest,
    answer: Option<AgentSession>,
) -> bool {
    call_ensures(B::get_session, (backend, &id), answer)
}

/// `GET /v2/sessions/:id`: a session, by its hexadecimal identifier.
pub fn get_session<B: SessionProvenanceBackend + ?Sized>(backend: Option<&B>, id_hex: &str) -> (r: RpcResult<
    SessionDto,
>)
    ensures
        match backend {
            None => not_available(r, "session store not available"@),
            Some(b) => match sized_outcome(id_hex@, "session id must be 32 bytes"@) {
                Err(e) => r is Err && r->Err_0@ == e,
                Ok(bytes) => exists|id: Blake3Digest, answer: Option<AgentSession>|
                    {
                        &&& #[trigger] session_asked(b, id, answer)
                        &&& id@ == bytes
                        &&& match answer {
                            Some(s) => r is Ok && shows_session(r->Ok_0, s),
                            None => r is Err && r->Err_0@ == RpcErrorView::NotFound(
                                "session "@ + id_hex@ + " not found"@,
                            ),
                        }
                    },
            },
        },
{
    let b = match backend {
        Some(b) => b,
        None => {
            return Err(RpcError::Unavailable("session store not available".to_owned()));
        },
    };
    let id = match parse_sized(id_hex, "session id must be 32 bytes") {
        Ok(bytes) => Blake3Digest(bytes),
        Err(e) => {
            return Err(e);
        },
    };
    let answer = b.get_session(&id);
    assert(session_asked(b, id, answer));
    match &answer {
        Some(s) => Ok(session_to_dto(s)),
        None => Err(RpcError::NotFound(join3("session ", id_hex, " not found"))),
    }
}

/// Whether the backend lists `sessions`, where `active` leaves out those that
/// have ended.
pub open spec fn sessions_asked<B: SessionProvenanceBackend + ?Sized>(
    backend: &B,
    active: bool,
    sessions: Vec<AgentSession>,
) -> bool {
    if active {
        call_ensures(B::active_sessions, (backend,), sessions)
    } else {
        call_ensures(B::all_sessions, (backend,), sessions)
    }
}

/// `GET /v2/sessions`: the sessions, or those that have not ended.
pub fn list_sessions<B: SessionProvenanceBackend + ?Sized>(
    backend: Option<&B>,
    params: &SessionListParams,
) -> (r: RpcResult<SessionListResponse>)
    ensures
        match backend {
            None => not_available(r, "session store not available"@),
            Some(b) => r is Ok && exists|sessions: Vec<AgentSession>|
                {
                    &&& #[trigger] sessions_asked(b, params.active, sessions)
                    &&& r->Ok_0.total == sessions@.len()
                    &&& r->Ok_0.sessions@.len() == sessions@.len()
                    &&& forall|i: int|
                        0 <= i < sessions@.len() ==> shows_session(
                            #[trigger] r->Ok_0.sessions@[i],
                            sessions@[i],
                        )
                },
        },
{
    let b = match backend {
        Some(b) => b,
        None => {
            return Err(RpcError::Unavailable("session store not available".to_owned()));
        },
    };
    let listed: Vec<AgentSession> = if params.active {
        b.active_sessions()
    } else {
        b.all_sessions()
    };
    assert(sessions_asked(b, params.active, listed));
    let mut sessions: Vec<SessionDto> = Vec::new();
    let mut i: usize = 0;
    while i < listed.len()
        invariant
            0 <= i <= listed@.len(),
            sessions@.len() == i,
            forall|j: int| 0 <= j < i ==> shows_session(#[trigger] sessions@[j], listed@[j]),
        decreases listed@.len() - i,
    {
        sessions.push(session_to_dto(&listed[i]));
        i = i + 1;
    }
    let total: usize = sessions.len();
    Ok(SessionListResponse { sessions, total })
}

} // verus!
