//! How errors are reported to MCP clients.

use vstd::prelude::*;

use crate::rpc::error::{IntentError, RpcError};

verus! {

/// The code of a failed tool call, by which a client decides whether to retry.
#[derive(Debug, Clone, Copy, PartialEq, Eq, Structural)]
pub enum McpErrorCode {
    /// The request was malformed.
    InvalidParams,
    /// The tool is not registered.
    ToolNotFound,
    /// The agent's capabilities are insufficient.
    CapabilityDenied,
    /// The request expired before it was processed.
    Expired,
    /// The plan hash does not match, or the confirmation is missing.
    PlanBindingError,
    /// The value limit was exceeded.
    ValueLimitExceeded,
    /// Internal server error.
    InternalError,
    /// The service is temporarily unavailable.
    Unavailable,
}

/// The number of a code on the wire.
pub open spec fn wire_code(code: McpErrorCode) -> int {
    match code {
        McpErrorCode::InvalidParams => -32602,
        McpErrorCode::ToolNotFound => -32601,
        McpErrorCode::CapabilityDenied => -32001,
        McpErrorCode::Expired => -32002,
        McpErrorCode::PlanBindingError => -32003,
        McpErrorCode::ValueLimitExceeded => -32004,
        McpErrorCode::InternalError => -32603,
        McpErrorCode::Unavailable => -32000,
    }
}

impl McpErrorCode {
    /// The number of this code on the wire.
    pub fn code(self) -> (r: i32)
        ensures
            r == wire_code(self),
    {
        match self {
            McpErrorCode::InvalidParams => -32602,
            McpErrorCode::ToolNotFound => -32601,
            McpErrorCode::CapabilityDenied => -32001,
            McpErrorCode::Expired => -32002,
            McpErrorCode::PlanBindingError => -32003,
            McpErrorCode::ValueLimitExceeded => -32004,
            McpErrorCode::InternalError => -32603,
            McpErrorCode::Unavailable => -32000,
        }
    }

    /// Whether the client should retry.
    pub fn is_retryable(self) -> (r: bool)
        ensures
            r == (self == McpErrorCode::InternalError || self == McpErrorCode::Unavailable),
    {
        matches!(self, McpErrorCode::InternalError | McpErrorCode::Unavailable)
    }
}

/// No two codes have the same number.
pub proof fn law_wire_codes_are_distinct(a: McpErrorCode, b: McpErrorCode)
    requires
        wire_code(a) == wire_code(b),
    ensures
        a == b,
{
}

/// The code that reports an intent error.
pub open spec fn intent_error_code(err: IntentError) -> McpErrorCode {
    match err {
        IntentError::InvalidSignature | IntentError::ParseError | IntentError::AgentSpecError
        | IntentError::StaleNonce | IntentError::IntentTooLarge
        | IntentError::AccountNotFound { .. } | IntentError::ContractNotFound
        | IntentError::InsufficientBalance => McpErrorCode::InvalidParams,
        IntentError::IntentExpired { .. } | IntentError::CompileTimeout => McpErrorCode::Expired,
        IntentError::AgentCapabilityDenied { .. } => McpErrorCode::CapabilityDenied,
        IntentError::AgentValueLimitExceeded { .. } => McpErrorCode::ValueLimitExceeded,
        IntentError::Codec(_) | IntentError::Internal(_) | IntentError::Storage(_)
        | IntentError::Execution(_) | IntentError::TooManySteps | IntentError::NoRoute
        | IntentError::GasBudgetExceeded => McpErrorCode::InternalError,
    }
}

/// The code that reports an intent error.
pub fn map_intent_error(err: &IntentError) -> (r: McpErrorCode)
    ensures
        r == intent_error_code(*err),
{
    match err {
        IntentError::InvalidSignature | IntentError::ParseError | IntentError::AgentSpecError
        | IntentError::StaleNonce | IntentError::IntentTooLarge => McpErrorCode::InvalidParams,
        IntentError::IntentExpired { .. } | IntentError::CompileTimeout => McpErrorCode::Expired,
        IntentError::AgentCapabilityDenied { .. } => McpErrorCode::CapabilityDenied,
        IntentError::AgentValueLimitExceeded { .. } => McpErrorCode::ValueLimitExceeded,
        IntentError::AccountNotFound { .. } | IntentError::ContractNotFound
        | IntentError::InsufficientBalance => McpErrorCode::InvalidParams,
        IntentError::Codec(_) | IntentError::Internal(_) | IntentError::Storage(_)
        | IntentError::Execution(_) | IntentError::TooManySteps | IntentError::NoRoute
        | IntentError::GasBudgetExceeded => McpErrorCode::InternalError,
    }
}

/// The code that reports an RPC error.
pub fn map_rpc_error(err: &RpcError) -> (r: McpErrorCode)
    ensures
        r == (match err {
            RpcError::NotFound(_) => McpErrorCode::ToolNotFound,
            RpcError::BadRequest(_) | RpcError::Serialization(_) => McpErrorCode::InvalidParams,
            RpcError::Unavailable(_) => McpErrorCode::Unavailable,
            _ => McpErrorCode::InternalError,
        }),
{
    match err {
        RpcError::NotFound(_) => McpErrorCode::ToolNotFound,
        RpcError::BadRequest(_) | RpcError::Serialization(_) => McpErrorCode::InvalidParams,
        RpcError::Unavailable(_) => McpErrorCode::Unavailable,
        RpcError::IntentError(_) | RpcError::ExecutionError(_) | RpcError::ConsensusError(_) => {
            McpErrorCode::InternalError
        },
        RpcError::Internal(_) => McpErrorCode::InternalError,
    }
}

} // verus!
