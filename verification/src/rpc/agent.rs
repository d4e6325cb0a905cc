//! Requests to the agent engine, and what it answers.

use vstd::prelude::*;

use crate::primitives::{AccountAddress, Amount, Blake3Digest, ContractAddress, TimestampMs, TokenId};

verus! {

/// A [`TokenId`] with the contract's address as a sequence of bytes.
pub enum TokenIdView {
    /// See [`TokenId::Native`].
    Native,
    /// See [`TokenId::Contract`].
    Contract(Seq<u8>),
}

impl View for TokenId {
    type V = TokenIdView;

    open spec fn view(&self) -> TokenIdView {
        match self {
            TokenId::Native => TokenIdView::Native,
            TokenId::Contract(c) => TokenIdView::Contract(c@),
        }
    }
}

/// What a user wants to happen.
#[derive(Debug, Clone)]
pub enum UserIntent {
    /// Move tokens to another account.
    Transfer {
        /// The receiver.
        to: AccountAddress,
        /// Which token.
        token: TokenId,
        /// How much.
        amount: Amount,
    },
    /// Exchange one token for another.
    Swap {
        /// The token given.
        from_token: TokenId,
        /// The token wanted.
        to_token: TokenId,
        /// How much is given.
        amount: Amount,
        /// By how much the price may slip, in hundredths of a percent.
        max_slippage_bps: u16,
    },
}

/// A [`UserIntent`] with its addresses as sequences of bytes.
pub enum UserIntentView {
    /// See [`UserIntent::Transfer`].
    Transfer { to: Seq<u8>, token: TokenIdView, amount: u64 },
    /// See [`UserIntent::Swap`].
    Swap { from_token: TokenIdView, to_token: TokenIdView, amount: u64, max_slippage_bps: u16 },
}

impl View for UserIntent {
    type V = UserIntentView;

    open spec fn view(&self) -> UserIntentView {
        match self {
            UserIntent::Transfer { to, token, amount } => UserIntentView::Transfer {
                to: to@,
                token: token@,
                amount: amount.0,
            },
            UserIntent::Swap { from_token, to_token, amount, max_slippage_bps } => {
                UserIntentView::Swap {
                    from_token: from_token@,
                    to_token: to_token@,
                    amount: amount.0,
                    max_slippage_bps: *max_slippage_bps,
                }
            },
        }
    }
}

/// How far an intent has come.
#[derive(Debug, Clone, PartialEq, Eq)]
pub enum IntentStatus {
    /// Not compiled yet.
    Pending,
    /// Compiled and broadcast; not all of its transactions are executed.
    Submitted {
        /// Number of transactions of the intent.
        steps: usize,
    },
    /// All of its transactions are executed.
    Completed {
        /// Gas that they used together.
        gas_used: u64,
    },
    /// One of its transactions failed.
    Failed {
        /// Why.
        reason: String,
    },
}

/// What a query asks for.
#[derive(Debug, Clone)]
pub enum QueryKind {
    /// The balance of an account.
    Balance {
        /// The account.
        account: AccountAddress,
    },
    /// The status of an intent or a transaction.
    IntentStatus {
        /// Its digest.
        digest: Blake3Digest,
    },
    /// A part of a contract's state.
    ContractState {
        /// The contract.
        contract: ContractAddress,
        /// Resource tag or function name.
        resource: String,
    },
}

/// Which provenance records a query asks for.
#[derive(Debug, Clone)]
pub enum ProvenanceFilter {
    /// Those of an agent.
    ByAgent {
        /// The agent's address.
        agent_id: AccountAddress,
    },
    /// Those of a session.
    BySession {
        /// The session.
        session_id: Blake3Digest,
    },
    /// Those under a capability.
    ByCapability {
        /// The token of the capability.
        token_id: TokenId,
    },
    /// Those of a transaction.
    ByTransaction {
        /// The transaction's digest.
        tx_hash: Blake3Digest,
    },
}

/// What an agent requests.
#[derive(Debug, Clone)]
pub enum AgentRequestKind {
    /// To read the chain.
    Query {
        /// What to read.
        query_kind: QueryKind,
    },
    /// To compile an intent without executing it.
    SimulateIntent {
        /// The intent.
        intent: UserIntent,
    },
    /// To execute a simulated and confirmed plan.
    ExecutePlan {
        /// The plan.
        plan_hash: Blake3Digest,
        /// The confirmation.
        confirmation_ref: Blake3Digest,
    },
    /// To read the audit trail.
    QueryProvenance {
        /// Which records.
        filter: ProvenanceFilter,
    },
}

/// A [`QueryKind`] with its addresses, digests and texts as sequences.
pub enum QueryKindView {
    /// See [`QueryKind::Balance`].
    Balance { account: Seq<u8> },
    /// See [`QueryKind::IntentStatus`].
    IntentStatus { digest: Seq<u8> },
    /// See [`QueryKind::ContractState`].
    ContractState { contract: Seq<u8>, resource: Seq<char> },
}

/// A [`ProvenanceFilter`] with its addresses and digests as sequences.
pub enum ProvenanceFilterView {
    /// See [`ProvenanceFilter::ByAgent`].
    ByAgent { agent_id: Seq<u8> },
    /// See [`ProvenanceFilter::BySession`].
    BySession { session_id: Seq<u8> },
    /// See [`ProvenanceFilter::ByCapability`].
    ByCapability { token_id: TokenIdView },
    /// See [`ProvenanceFilter::ByTransaction`].
    ByTransaction { tx_hash: Seq<u8> },
}

/// An [`AgentRequestKind`] with its parts taken by their views.
pub enum AgentRequestView {
    /// See [`AgentRequestKind::Query`].
    Query { query_kind: QueryKindView },
    /// See [`AgentRequestKind::SimulateIntent`].
    SimulateIntent { intent: UserIntentView },
    /// See [`AgentRequestKind::ExecutePlan`].
    ExecutePlan { plan_hash: Seq<u8>, confirmation_ref: Seq<u8> },
    /// See [`AgentRequestKind::QueryProvenance`].
    QueryProvenance { filter: ProvenanceFilterView },
}

impl View for QueryKind {
    type V = QueryKindView;

    open spec fn view(&self) -> QueryKindView {
        match self {
            QueryKind::Balance { account } => QueryKindView::Balance { account: account@ },
            QueryKind::IntentStatus { digest } => QueryKindView::IntentStatus { digest: digest@ },
            QueryKind::ContractState { contract, resource } => QueryKindView::ContractState {
                contract: contract@,
                resource: resource@,
            },
        }
    }
}

impl View for ProvenanceFilter {
    type V = ProvenanceFilterView;

    open spec fn view(&self) -> ProvenanceFilterView {
        match self {
            ProvenanceFilter::ByAgent { agent_id } => ProvenanceFilterView::ByAgent {
                agent_id: agent_id@,
            },
            ProvenanceFilter::BySession { session_id } => ProvenanceFilterView::BySession {
                session_id: session_id@,
            },
            ProvenanceFilter::ByCapability { token_id } => ProvenanceFilterView::ByCapability {
                token_id: token_id@,
            },
            ProvenanceFilter::ByTransaction { tx_hash } => ProvenanceFilterView::ByTransaction {
                tx_hash: tx_hash@,
            },
        }
    }
}

impl View for AgentRequestKind {
    type V = AgentRequestView;

    open spec fn view(&self) -> AgentRequestView {
        match self {
            AgentRequestKind::Query { query_kind } => AgentRequestView::Query {
                query_kind: query_kind@,
            },
            AgentRequestKind::SimulateIntent { intent } => AgentRequestView::SimulateIntent {
                intent: intent@,
            },
            AgentRequestKind::ExecutePlan { plan_hash, confirmation_ref } => {
                AgentRequestView::ExecutePlan {
                    plan_hash: plan_hash@,
                    confirmation_ref: confirmation_ref@,
                }
            },
            AgentRequestKind::QueryProvenance { filter } => AgentRequestView::QueryProvenance {
                filter: filter@,
            },
        }
    }
}

/// The protocol by which a request came in.
#[derive(Debug, Clone, Copy, PartialEq, Eq, Structural)]
pub enum ProtocolKind {
    /// Model Context Protocol.
    Mcp,
}

/// Who makes a request.
#[derive(Debug, Clone)]
pub struct AgentPrincipal {
    /// The account of the agent.
    pub address: AccountAddress,
    /// Its name, for display.
    pub display_name: Option<String>,
}

/// The bounds within which a request is executed.
#[derive(Debug, Clone)]
pub struct AgentExecutionConstraints {
    /// Most gas that may be used.
    pub max_gas: u64,
    /// Most value that may be moved.
    pub max_total_value: Amount,
    /// The contracts that may be called.
    pub allowed_contracts: Vec<ContractAddress>,
}

/// A request to the agent engine with everything it is judged by.
#[derive(Debug, Clone)]
pub struct AgentEnvelope {
    /// The protocol by which the request came in.
    pub protocol_kind: ProtocolKind,
    /// The version of that protocol.
    pub protocol_version: String,
    /// Identifies the request.
    pub request_id: Blake3Digest,
    /// The session it belongs to.
    pub session_id: Blake3Digest,
    /// Equal for repetitions of one request.
    pub idempotency_key: Blake3Digest,
    /// Who makes the request.
    pub caller: AgentPrincipal,
    /// The capability under which it is made, by its digest.
    pub delegated_capability: Option<Blake3Digest>,
    /// What is requested.
    pub request_kind: AgentRequestKind,
    /// The bounds within which it is executed.
    pub constraints: AgentExecutionConstraints,
    /// When the request expires.
    pub deadline_ms: TimestampMs,
    /// The session that this session belongs to.
    pub parent_session_id: Option<Blake3Digest>,
}

/// What a simulation found.
#[derive(Debug, Clone)]
pub struct SimulationResult {
    /// The session.
    pub session_id: Blake3Digest,
    /// The plan that may now be confirmed.
    pub plan_hash: Blake3Digest,
    /// Gas that the plan is expected to use.
    pub estimated_gas: u64,
    /// Number of steps of the plan.
    pub step_count: u64,
    /// Whether the plan touches more than one shard.
    pub requires_cross_shard: bool,
    /// When the simulation was made.
    pub simulated_at_ms: TimestampMs,
    /// What the plan does, in words.
    pub summary: String,
}

/// What an execution did.
#[derive(Debug, Clone)]
pub struct ExecutionReceipt {
    /// The session.
    pub session_id: Blake3Digest,
    /// The plan that was executed.
    pub plan_hash: Blake3Digest,
    /// The transactions that it became.
    pub tx_hashes: Vec<Blake3Digest>,
    /// Gas that was used.
    pub gas_used: u64,
    /// When the execution was complete.
    pub completed_at_ms: TimestampMs,
}

/// A confirmation of a plan.
#[derive(Debug, Clone)]
pub struct PlanConfirmation {
    /// The session.
    pub session_id: Blake3Digest,
    /// The plan that was confirmed.
    pub plan_hash: Blake3Digest,
    /// Refers to the confirmation.
    pub confirmation_ref: Blake3Digest,
}

/// How the agent engine answers a request.
#[derive(Debug, Clone)]
pub enum DispatchOutcome {
    /// An intent was simulated.
    Simulated(SimulationResult),
    /// A plan was executed.
    Executed(ExecutionReceipt),
    /// A query was answered.
    QueryResult {
        /// The answer.
        payload: Vec<u8>,
    },
    /// A plan was confirmed.
    Confirmed(PlanConfirmation),
    /// The request was rejected.
    Rejected {
        /// Why.
        reason: String,
    },
}

/// The lifecycle state of a session, by its name.
#[derive(Debug, Clone, PartialEq, Eq)]
pub struct SessionState {
    /// Name of the state.
    pub name: String,
}

/// A session of an agent.
#[derive(Debug, Clone)]
pub struct AgentSession {
    /// The session.
    pub session_id: Blake3Digest,
    /// When it was created.
    pub created_at_ms: TimestampMs,
    /// How long requests of the session are guarded against repetition.
    pub replay_window_ms: u64,
    /// How far it has come.
    pub current_state: SessionState,
    /// The plan that it is bound to.
    pub plan_hash: Option<Blake3Digest>,
    /// The confirmation of that plan.
    pub confirmation_ref: Option<Blake3Digest>,
}

/// How the action that a provenance record is about ended.
#[derive(Debug, Clone, Copy, PartialEq, Eq, Structural)]
pub enum ProvenanceStatus {
    /// It has not ended.
    Pending,
    /// It was committed.
    Committed,
    /// It failed.
    Failed,
    /// It was aborted.
    Aborted,
    /// It expired.
    Expired,
}

/// A record of the audit trail.
#[derive(Debug, Clone)]
pub struct ProvenanceRecord {
    /// The record.
    pub provenance_id: Blake3Digest,
    /// The session of the action.
    pub session_id: Blake3Digest,
    /// The request that led to the action.
    pub request_id: Blake3Digest,
    /// The agent that acted.
    pub agent_id: AccountAddress,
    /// The agent that delegated, if any.
    pub parent_agent_id: Option<AccountAddress>,
    /// The capability that was used, if any.
    pub capability_token_id: Option<TokenId>,
    /// The intent.
    pub intent_hash: Blake3Digest,
    /// The plan.
    pub plan_hash: Blake3Digest,
    /// The confirmation, if there was one.
    pub confirmation_ref: Option<Blake3Digest>,
    /// The transaction, if there was one.
    pub tx_hash: Option<Blake3Digest>,
    /// How the action ended.
    pub status: ProvenanceStatus,
    /// When the record was made.
    pub created_at_ms: TimestampMs,
}

/// Which page of provenance records to return.
#[derive(Debug, Clone)]
pub struct ProvenanceQueryParams {
    /// Most records to return.
    pub limit: u32,
    /// Where the page begins.
    pub cursor: Option<Blake3Digest>,
    /// Only records after this time.
    pub after_ms: Option<TimestampMs>,
    /// Only records before this time.
    pub before_ms: Option<TimestampMs>,
}

/// A page of provenance records.
#[derive(Debug, Clone)]
pub struct ProvenanceQueryResult {
    /// The records.
    pub records: Vec<ProvenanceRecord>,
    /// Number of records on all pages.
    pub total_count: u64,
    /// Where the next page begins, if there is one.
    pub cursor: Option<Blake3Digest>,
}

/// Where a batch of provenance records was anchored on the chain.
#[derive(Debug, Clone)]
pub struct AnchorReceipt {
    /// Number of the batch.
    pub batch_seq: u64,
    /// Digest of the batch.
    pub anchor_digest: Blake3Digest,
    /// Transaction that anchored it.
    pub tx_hash: Blake3Digest,
    /// Height of the block that holds the transaction.
    pub block_height: u64,
    /// When it was anchored.
    pub anchored_at_ms: TimestampMs,
}

} // verus!
