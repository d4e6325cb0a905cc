//! Errors of the RPC layer.
//!
//! Failures of the intent compiler, the execution engine and the consensus
//! engine are mapped to one error type, and that to an HTTP status.

use vstd::prelude::*;
use vstd::string::*;

use crate::primitives::text::join;
use crate::primitives::AccountAddress;

verus! {

/// Any failure that the RPC layer reports to a client.
#[derive(Debug, Clone)]
pub enum RpcError {
    /// A resource was not found.
    NotFound(String),
    /// The request was malformed or invalid.
    BadRequest(String),
    /// Internal server error.
    Internal(String),
    /// The service is temporarily unavailable.
    Unavailable(String),
    /// An intent could not be compiled or processed.
    IntentError(String),
    /// The execution layer failed.
    ExecutionError(String),
    /// The consensus layer failed.
    ConsensusError(String),
    /// JSON could not be written or read.
    Serialization(String),
}

/// What an RPC function returns.
pub type RpcResult<T> = Result<T, RpcError>;

/// An [`RpcError`] with its text as a sequence of characters.
pub enum RpcErrorView {
    /// See [`RpcError::NotFound`].
    NotFound(Seq<char>),
    /// See [`RpcError::BadRequest`].
    BadRequest(Seq<char>),
    /// See [`RpcError::Internal`].
    Internal(Seq<char>),
    /// See [`RpcError::Unavailable`].
    Unavailable(Seq<char>),
    /// See [`RpcError::IntentError`].
    IntentError(Seq<char>),
    /// See [`RpcError::ExecutionError`].
    ExecutionError(Seq<char>),
    /// See [`RpcError::ConsensusError`].
    ConsensusError(Seq<char>),
    /// See [`RpcError::Serialization`].
    Serialization(Seq<char>),
}

impl View for RpcError {
    type V = RpcErrorView;

    open spec fn view(&self) -> RpcErrorView {
        match self {
            RpcError::NotFound(m) => RpcErrorView::NotFound(m@),
            RpcError::BadRequest(m) => RpcErrorView::BadRequest(m@),
            RpcError::Internal(m) => RpcErrorView::Internal(m@),
            RpcError::Unavailable(m) => RpcErrorView::Unavailable(m@),
            RpcError::IntentError(m) => RpcErrorView::IntentError(m@),
            RpcError::ExecutionError(m) => RpcErrorView::ExecutionError(m@),
            RpcError::ConsensusError(m) => RpcErrorView::ConsensusError(m@),
            RpcError::Serialization(m) => RpcErrorView::Serialization(m@),
        }
    }
}

/// A result with its value and its error taken by their views.
pub open spec fn viewed<T: View>(r: Result<T, RpcError>) -> Result<T::V, RpcErrorView> {
    match r {
        Ok(value) => Ok(value@),
        Err(e) => Err(e@),
    }
}

/// The HTTP status that reports an error.
pub open spec fn status_of(e: RpcErrorView) -> u16 {
    match e {
        RpcErrorView::NotFound(_) => 404,
        RpcErrorView::BadRequest(_) | RpcErrorView::Serialization(_) => 400,
        RpcErrorView::IntentError(_) | RpcErrorView::ExecutionError(_)
        | RpcErrorView::ConsensusError(_) => 422,
        RpcErrorView::Unavailable(_) => 503,
        RpcErrorView::Internal(_) => 500,
    }
}

/// The machine-readable code of an error.
pub open spec fn code_of(e: RpcErrorView) -> Seq<char> {
    match e {
        RpcErrorView::NotFound(_) => "NOT_FOUND"@,
        RpcErrorView::BadRequest(_) => "BAD_REQUEST"@,
        RpcErrorView::Internal(_) => "INTERNAL_ERROR"@,
        RpcErrorView::Unavailable(_) => "SERVICE_UNAVAILABLE"@,
        RpcErrorView::IntentError(_) => "INTENT_ERROR"@,
        RpcErrorView::ExecutionError(_) => "EXECUTION_ERROR"@,
        RpcErrorView::ConsensusError(_) => "CONSENSUS_ERROR"@,
        RpcErrorView::Serialization(_) => "SERIALIZATION_ERROR"@,
    }
}

/// The message of an error: its kind, a colon and its text.
pub open spec fn message_of(e: RpcErrorView) -> Seq<char> {
    match e {
        RpcErrorView::NotFound(m) => "not found: "@ + m,
        RpcErrorView::BadRequest(m) => "bad request: "@ + m,
        RpcErrorView::Internal(m) => "internal error: "@ + m,
        RpcErrorView::Unavailable(m) => "service unavailable: "@ + m,
        RpcErrorView::IntentError(m) => "intent error: "@ + m,
        RpcErrorView::ExecutionError(m) => "execution error: "@ + m,
        RpcErrorView::ConsensusError(m) => "consensus error: "@ + m,
        RpcErrorView::Serialization(m) => "serialization error: "@ + m,
    }
}

/// The body of an error reply.
#[derive(Debug)]
pub struct ErrorResponse {
    /// Machine-readable error code.
    pub error: &'static str,
    /// Human-readable error message.
    pub message: String,
}

impl RpcError {
    /// The HTTP status that reports this error.
    pub fn status_code(&self) -> (r: u16)
        ensures
            r == status_of(self@),
    {
        match self {
            RpcError::NotFound(_) => 404,
            RpcError::BadRequest(_) | RpcError::Serialization(_) => 400,
            RpcError::IntentError(_) | RpcError::ExecutionError(_) | RpcError::ConsensusError(
                _,
            ) => 422,
            RpcError::Unavailable(_) => 503,
            RpcError::Internal(_) => 500,
        }
    }

    /// The machine-readable code of this error.
    pub fn error_code(&self) -> (r: &'static str)
        ensures
            r@ == code_of(self@),
    {
        match self {
            RpcError::NotFound(_) => "NOT_FOUND",
            RpcError::BadRequest(_) => "BAD_REQUEST",
            RpcError::Internal(_) => "INTERNAL_ERROR",
            RpcError::Unavailable(_) => "SERVICE_UNAVAILABLE",
            RpcError::IntentError(_) => "INTENT_ERROR",
            RpcError::ExecutionError(_) => "EXECUTION_ERROR",
            RpcError::ConsensusError(_) => "CONSENSUS_ERROR",
            RpcError::Serialization(_) => "SERIALIZATION_ERROR",
        }
    }

    /// The message of this error.
    pub fn to_string(&self) -> (r: String)
        ensures
            r@ == message_of(self@),
    {
        match self {
            RpcError::NotFound(m) => join("not found: ", m.as_str()),
            RpcError::BadRequest(m) => join("bad request: ", m.as_str()),
            RpcError::Internal(m) => join("internal error: ", m.as_str()),
            RpcError::Unavailable(m) => join("service unavailable: ", m.as_str()),
            RpcError::IntentError(m) => join("intent error: ", m.as_str()),
            RpcError::ExecutionError(m) => join("execution error: ", m.as_str()),
            RpcError::ConsensusError(m) => join("consensus error: ", m.as_str()),
            RpcError::Serialization(m) => join("serialization error: ", m.as_str()),
        }
    }

    /// The status and the body with which this error is answered.
    pub fn into_response(self) -> (r: (u16, ErrorResponse))
        ensures
            r.0 == status_of(self@),
            r.1.error@ == code_of(self@),
            r.1.message@ == message_of(self@),
    {
        let status: u16 = self.status_code();
        (status, ErrorResponse { error: self.error_code(), message: self.to_string() })
    }
}

/// Every error is answered with a client error or a server error, and only an
/// unavailable service or an internal fault is a server error.
pub proof fn law_errors_have_error_status(e: RpcErrorView)
    ensures
        400 <= status_of(e) < 600,
        status_of(e) >= 500 <==> e is Unavailable || e is Internal,
{
}

/// A failure of the intent compiler.
#[derive(Debug, Clone)]
pub enum IntentError {
    /// The account does not exist.
    AccountNotFound {
        /// The account that was asked for.
        account: AccountAddress,
    },
    /// The contract does not exist.
    ContractNotFound,
    /// The signature does not verify.
    InvalidSignature,
    /// The deadline of the intent has passed.
    IntentExpired {
        /// Deadline in milliseconds.
        deadline_ms: u64,
        /// Time of the check in milliseconds.
        current_ms: u64,
    },
    /// The nonce was used before.
    StaleNonce,
    /// The intent is too large.
    IntentTooLarge,
    /// The intent could not be parsed.
    ParseError,
    /// The agent specification is invalid.
    AgentSpecError,
    /// The balance does not cover the intent.
    InsufficientBalance,
    /// Compilation took too long.
    CompileTimeout,
    /// The agent lacks a capability.
    AgentCapabilityDenied {
        /// Why it was denied.
        reason: String,
    },
    /// The agent asked for more than its limit.
    AgentValueLimitExceeded {
        /// The value asked for.
        value: u64,
        /// The limit.
        limit: u64,
    },
    /// The intent compiles to too many steps.
    TooManySteps,
    /// No route leads to the intent's goal.
    NoRoute,
    /// The plan needs more gas than was budgeted.
    GasBudgetExceeded,
    /// A value could not be encoded or decoded.
    Codec(String),
    /// Internal fault of the compiler.
    Internal(String),
    /// The storage layer failed.
    Storage(String),
    /// The execution layer failed.
    Execution(String),
}

/// A failure of the execution engine.
#[derive(Debug, Clone, Copy, PartialEq, Eq, Structural)]
pub enum ExecutionError {
    /// The signature does not verify.
    InvalidSignature,
    /// The sequence number is not the next one.
    SequenceNumberMismatch,
    /// The transaction has expired.
    TransactionExpired,
    /// The payload is too large.
    PayloadTooLarge,
    /// The gas limit is below the minimum.
    GasLimitTooLow,
    /// The transaction is for another chain.
    ChainIdMismatch,
    /// Any other failure.
    Other,
}

/// The RPC error that reports an intent error with the given text: not found
/// for a missing account or contract, bad request for what the sender can
/// mend, and an intent error otherwise.
pub open spec fn intent_failure(e: IntentError, text: Seq<char>) -> RpcErrorView {
    match e {
        IntentError::AccountNotFound { .. } | IntentError::ContractNotFound => {
            RpcErrorView::NotFound(text)
        },
        IntentError::InvalidSignature | IntentError::IntentExpired { .. } | IntentError::StaleNonce
        | IntentError::IntentTooLarge | IntentError::ParseError | IntentError::AgentSpecError => {
            RpcErrorView::BadRequest(text)
        },
        _ => RpcErrorView::IntentError(text),
    }
}

/// The RPC error that reports an execution error with the given text.
pub open spec fn execution_failure(e: ExecutionError, text: Seq<char>) -> RpcErrorView {
    match e {
        ExecutionError::Other => RpcErrorView::ExecutionError(text),
        _ => RpcErrorView::BadRequest(text),
    }
}

/// `serde_json::Error`: why a JSON text could not be written or read.
#[verifier::external_type_specification]
#[verifier::external_body]
pub struct ExJsonError(serde_json::Error);

/// `Display` of `serde_json::Error`: the message of the error. Nothing is
/// stated of the text, which may come from the machine.
#[verifier::external_body]
fn json_error_text(e: &serde_json::Error) -> (r: String) {
    e.to_string()
}

/// Whether the JSON library gives `text` as the message of `err`.
pub closed spec fn json_error_told(err: &serde_json::Error, text: String) -> bool {
    call_ensures(json_error_text, (err,), text)
}

impl RpcError {
    /// Reports a failure of the intent compiler whose text is `text`.
    pub fn from_intent_error(err: &IntentError, text: String) -> (r: Self)
        ensures
            r@ == intent_failure(*err, text@),
    {
        match err {
            IntentError::AccountNotFound { .. } | IntentError::ContractNotFound => {
                RpcError::NotFound(text)
            },
            IntentError::InvalidSignature | IntentError::IntentExpired { .. }
            | IntentError::StaleNonce | IntentError::IntentTooLarge | IntentError::ParseError
            | IntentError::AgentSpecError => RpcError::BadRequest(text),
            _ => RpcError::IntentError(text),
        }
    }

    /// Reports a failure of the execution engine whose text is `text`.
    pub fn from_execution_error(err: ExecutionError, text: String) -> (r: Self)
        ensures
            r@ == execution_failure(err, text@),
    {
        match err {
            ExecutionError::Other => RpcError::ExecutionError(text),
            _ => RpcError::BadRequest(text),
        }
    }

    /// Reports a failure of the consensus engine whose text is `text`.
    pub fn from_consensus_error(text: String) -> (r: Self)
        ensures
            r@ == RpcErrorView::ConsensusError(text@),
    {
        RpcError::ConsensusError(text)
    }

    /// Reports a JSON text that could not be written or read, for the reason
    /// `text`.
    pub fn serialization_failure(text: String) -> (r: Self)
        ensures
            r@ == RpcErrorView::Serialization(text@),
    {
        RpcError::Serialization(text)
    }

    /// Reports a JSON text that could not be written or read, with the text of
    /// the JSON library.
    pub fn from_json_error(err: &serde_json::Error) -> (r: Self)
        ensures
            exists|text: String| #[trigger]
                json_error_told(err, text) && r@ == RpcErrorView::Serialization(text@),
            status_of(r@) == 400,
    {
        let text = json_error_text(err);
        assert(json_error_told(err, text));
        RpcError::serialization_failure(text)
    }
}

} // verus!
