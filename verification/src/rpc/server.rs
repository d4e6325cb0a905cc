//! The configuration of the RPC service.

use std::sync::Arc;
use vstd::prelude::*;

use crate::rpc::buckets::Bucket;
use crate::rpc::intent_tracker::IntentTracker;
use crate::rpc::middleware::{
    FaucetAddressLimiter, IpAddress, QuotaManager, RateLimiter, FAUCET_LIMITER_MAX_ENTRIES,
    RATE_LIMITER_MAX_ENTRIES,
};
use crate::rpc::rest::backends::{
    BlockBackend, ConsensusBackend, DispatchBackend, EventBackend, HtlcBackend, NetworkBackend,
    QueryBackend, SessionProvenanceBackend, StateProofBackend,
};
use crate::rpc::tx_lifecycle::TxLifecycleRegistry;

verus! {

/// Where the service listens.
#[derive(Debug, Clone, Copy)]
pub struct ListenAddress {
    /// Address of the machine.
    pub ip: IpAddress,
    /// Port.
    pub port: u16,
}

/// How a service is to be set up.
pub struct RpcServiceBuilder {
    /// Where the service listens.
    pub listen_addr: ListenAddress,
    /// What answers queries.
    pub query: Option<Arc<dyn QueryBackend>>,
    /// What tells of consensus, if anything does.
    pub consensus: Option<Arc<dyn ConsensusBackend>>,
    /// What tells of the network, if anything does.
    pub network: Option<Arc<dyn NetworkBackend>>,
    /// What tells of sessions and provenance, if anything does.
    pub session_provenance: Option<Arc<dyn SessionProvenanceBackend>>,
    /// What proves the state, if anything does.
    pub state_proof: Option<Arc<dyn StateProofBackend>>,
    /// What carries out the requests of agents, if anything does.
    pub mcp_dispatcher: Option<Arc<dyn DispatchBackend>>,
    /// What tells of hash time locks, if anything does.
    pub htlc: Option<Arc<dyn HtlcBackend>>,
    /// What tells of blocks, if anything does.
    pub block: Option<Arc<dyn BlockBackend>>,
    /// What tells of contract events, if anything does.
    pub event_backend: Option<Arc<dyn EventBackend>>,
    /// The progress of intents, if it is followed.
    pub intent_tracker: Option<IntentTracker>,
    /// The progress of transactions, if it is followed.
    pub tx_lifecycle: Option<TxLifecycleRegistry>,
    /// How many requests a peer may make within how many nanoseconds.
    pub rate_limit_per_ip: Option<(u32, u128)>,
    /// Whether the faucet is enabled.
    pub faucet_enabled: bool,
    /// Amount that the faucet pays.
    pub faucet_amount: u64,
    /// The accepted API keys.
    pub api_keys: Vec<String>,
    /// How often the faucet pays an account within an hour; zero for no limit.
    pub faucet_per_addr_limit_per_hour: u32,
    /// The origins from which browsers may make requests.
    pub cors_allowed_origins: Vec<String>,
    /// Most WebSocket connections at a time.
    pub max_ws_connections: usize,
    /// The quotas, if there are any.
    pub quota_manager: Option<QuotaManager>,
    /// Gas that a view query may use.
    pub query_gas_budget: u64,
    /// Milliseconds that a view query may take.
    pub query_timeout_ms: u64,
    /// Number of shards.
    pub num_shards: u16,
}

/// What the endpoints share. `Q` answers queries.
pub struct AppState<Q: ?Sized> {
    /// What answers queries.
    pub query: Arc<Q>,
    /// What tells of consensus, if anything does.
    pub consensus: Option<Arc<dyn ConsensusBackend>>,
    /// What tells of the network, if anything does.
    pub network: Option<Arc<dyn NetworkBackend>>,
    /// What tells of sessions and provenance, if anything does.
    pub session_provenance: Option<Arc<dyn SessionProvenanceBackend>>,
    /// What proves the state, if anything does.
    pub state_proof: Option<Arc<dyn StateProofBackend>>,
    /// What carries out the requests of agents, if anything does.
    pub mcp_dispatcher: Option<Arc<dyn DispatchBackend>>,
    /// What tells of hash time locks, if anything does.
    pub htlc: Option<Arc<dyn HtlcBackend>>,
    /// What tells of blocks, if anything does.
    pub block: Option<Arc<dyn BlockBackend>>,
    /// What tells of contract events, if anything does.
    pub event_backend: Option<Arc<dyn EventBackend>>,
    /// The progress of intents, if it is followed.
    pub intent_tracker: Option<IntentTracker>,
    /// The progress of transactions, if it is followed.
    pub tx_lifecycle: Option<TxLifecycleRegistry>,
    /// Limits the requests of a peer.
    pub rate_limiter: Option<RateLimiter>,
    /// Limits the payments to an account.
    pub faucet_addr_limiter: Option<FaucetAddressLimiter>,
    /// Whether the faucet is enabled.
    pub faucet_enabled: bool,
    /// Amount that the faucet pays.
    pub faucet_amount: u64,
    /// Most WebSocket connections at a time.
    pub max_ws_connections: usize,
    /// WebSocket connections that are open.
    pub ws_connection_count: usize,
    /// Number of the next tool call.
    pub mcp_call_index: u64,
    /// The quotas, if there are any.
    pub quota_manager: Option<QuotaManager>,
    /// Gas that a view query may use.
    pub query_gas_budget: u64,
    /// Milliseconds that a view query may take.
    pub query_timeout_ms: u64,
    /// Number of shards.
    pub num_shards: u16,
}

/// A service that is set up.
pub struct RpcService {
    /// Where the service listens.
    pub listen_addr: ListenAddress,
    /// What the endpoints share.
    pub state: AppState<dyn QueryBackend>,
    /// The accepted API keys.
    pub api_keys: Vec<String>,
    /// The origins from which browsers may make requests.
    pub cors_allowed_origins: Vec<String>,
}

fn present<T>(x: T) -> (r: Option<T>)
    ensures
        r == Some(x),
{
    Some(x)
}

impl RpcServiceBuilder {
    /// Whether nothing but the address was set.
    pub open spec fn is_default(self) -> bool {
        &&& self.query is None
        &&& self.consensus is None
        &&& self.network is None
        &&& self.session_provenance is None
        &&& self.state_proof is None
        &&& self.mcp_dispatcher is None
        &&& self.htlc is None
        &&& self.block is None
        &&& self.event_backend is None
        &&& self.intent_tracker is None
        &&& self.tx_lifecycle is None
        &&& self.rate_limit_per_ip is None
        &&& !self.faucet_enabled
        &&& self.faucet_amount == 0
        &&& self.api_keys@.len() == 0
        &&& self.faucet_per_addr_limit_per_hour == 10
        &&& self.cors_allowed_origins@.len() == 0
        &&& self.max_ws_connections == 10_000
        &&& self.quota_manager is None
        &&& self.query_gas_budget == 10_000_000
        &&& self.query_timeout_ms == 5_000
        &&& self.num_shards == 1
    }

    /// A service at `listen_addr` with the default configuration.
    pub fn new(listen_addr: ListenAddress) -> (r: Self)
        ensures
            r.listen_addr == listen_addr,
            r.is_default(),
    {
        RpcServiceBuilder {
            listen_addr,
            query: None,
            consensus: None,
            network: None,
            session_provenance: None,
            state_proof: None,
            mcp_dispatcher: None,
            htlc: None,
            block: None,
            event_backend: None,
            intent_tracker: None,
            tx_lifecycle: None,
            rate_limit_per_ip: None,
            faucet_enabled: false,
            faucet_amount: 0,
            api_keys: Vec::new(),
            faucet_per_addr_limit_per_hour: 10,
            cors_allowed_origins: Vec::new(),
            max_ws_connections: 10_000,
            quota_manager: None,
            query_gas_budget: 10_000_000,
            query_timeout_ms: 5_000,
            num_shards: 1,
        }
    }

    /// Sets what answers queries.
    pub fn query_backend(self, backend: Arc<dyn QueryBackend>) -> (r: Self)
        ensures
            r.query == Some(backend),
            r == (RpcServiceBuilder { query: r.query, ..self }),
    {
        let backend = present(backend);
        RpcServiceBuilder { query: backend, ..self }
    }

    /// Sets what tells of consensus.
    pub fn consensus_backend(self, backend: Arc<dyn ConsensusBackend>) -> (r: Self)
        ensures
            r.consensus == Some(backend),
            r == (RpcServiceBuilder { consensus: r.consensus, ..self }),
    {
        let backend = present(backend);
        RpcServiceBuilder { consensus: backend, ..self }
    }

    /// Sets what tells of the network.
    pub fn network_backend(self, backend: Arc<dyn NetworkBackend>) -> (r: Self)
        ensures
            r.network == Some(backend),
            r == (RpcServiceBuilder { network: r.network, ..self }),
    {
        let backend = present(backend);
        RpcServiceBuilder { network: backend, ..self }
    }

    /// Sets what tells of sessions and provenance.
    pub fn session_provenance(self, backend: Arc<dyn SessionProvenanceBackend>) -> (r: Self)
        ensures
            r.session_provenance == Some(backend),
            r == (RpcServiceBuilder { session_provenance: r.session_provenance, ..self }),
    {
        let backend = present(backend);
        RpcServiceBuilder { session_provenance: backend, ..self }
    }

    /// Sets what proves the state.
    pub fn state_proof(self, backend: Arc<dyn StateProofBackend>) -> (r: Self)
        ensures
            r.state_proof == Some(backend),
            r == (RpcServiceBuilder { state_proof: r.state_proof, ..self }),
    {
        let backend = present(backend);
        RpcServiceBuilder { state_proof: backend, ..self }
    }

    /// Sets what carries out the requests of agents.
    pub fn mcp_dispatcher(self, backend: Arc<dyn DispatchBackend>) -> (r: Self)
        ensures
            r.mcp_dispatcher == Some(backend),
            r == (RpcServiceBuilder { mcp_dispatcher: r.mcp_dispatcher, ..self }),
    {
        let backend = present(backend);
        RpcServiceBuilder { mcp_dispatcher: backend, ..self }
    }

    /// Sets what tells of hash time locks.
    pub fn htlc_backend(self, backend: Arc<dyn HtlcBackend>) -> (r: Self)
        ensures
            r.htlc == Some(backend),
            r == (RpcServiceBuilder { htlc: r.htlc, ..self }),
    {
        let backend = present(backend);
        RpcServiceBuilder { htlc: backend, ..self }
    }

    /// Sets what tells of blocks.
    pub fn block_backend(self, backend: Arc<dyn BlockBackend>) -> (r: Self)
        ensures
            r.block == Some(backend),
            r == (RpcServiceBuilder { block: r.block, ..self }),
    {
        let backend = present(backend);
        RpcServiceBuilder { block: backend, ..self }
    }

    /// Sets what tells of contract events.
    pub fn event_backend(self, backend: Arc<dyn EventBackend>) -> (r: Self)
        ensures
            r.event_backend == Some(backend),
            r == (RpcServiceBuilder { event_backend: r.event_backend, ..self }),
    {
        let backend = present(backend);
        RpcServiceBuilder { event_backend: backend, ..self }
    }

    /// Sets where the progress of intents is followed.
    pub fn intent_tracker(self, tracker: IntentTracker) -> (r: Self)
        ensures
            r == (RpcServiceBuilder { intent_tracker: Some(tracker), ..self }),
    {
        RpcServiceBuilder { intent_tracker: Some(tracker), ..self }
    }

    /// Sets where the progress of transactions is followed.
    pub fn tx_lifecycle(self, tracker: TxLifecycleRegistry) -> (r: Self)
        ensures
            r == (RpcServiceBuilder { tx_lifecycle: Some(tracker), ..self }),
    {
        RpcServiceBuilder { tx_lifecycle: Some(tracker), ..self }
    }

    /// Lets a peer make `max_requests` requests within `window_ns` nanoseconds.
    pub fn rate_limit(self, max_requests: u32, window_ns: u128) -> (r: Self)
        ensures
            r == (RpcServiceBuilder { rate_limit_per_ip: Some((max_requests, window_ns)), ..self }),
    {
        RpcServiceBuilder { rate_limit_per_ip: Some((max_requests, window_ns)), ..self }
    }

    /// Sets whether the faucet is enabled and how much it pays.
    pub fn faucet(self, enabled: bool, amount: u64) -> (r: Self)
        ensures
            r == (RpcServiceBuilder { faucet_enabled: enabled, faucet_amount: amount, ..self }),
    {
        RpcServiceBuilder { faucet_enabled: enabled, faucet_amount: amount, ..self }
    }

    /// Sets the accepted API keys.
    pub fn api_keys(self, keys: Vec<String>) -> (r: Self)
        ensures
            r == (RpcServiceBuilder { api_keys: keys, ..self }),
    {
        RpcServiceBuilder { api_keys: keys, ..self }
    }

    /// Sets how often the faucet pays an account within an hour.
    pub fn faucet_per_addr_limit(self, limit: u32) -> (r: Self)
        ensures
            r == (RpcServiceBuilder { faucet_per_addr_limit_per_hour: limit, ..self }),
    {
        RpcServiceBuilder { faucet_per_addr_limit_per_hour: limit, ..self }
    }

    /// Sets the origins from which browsers may make requests.
    pub fn cors_allowed_origins(self, origins: Vec<String>) -> (r: Self)
        ensures
            r == (RpcServiceBuilder { cors_allowed_origins: origins, ..self }),
    {
        RpcServiceBuilder { cors_allowed_origins: origins, ..self }
    }

    /// Sets how many WebSocket connections there may be at a time.
    pub fn max_ws_connections(self, max: usize) -> (r: Self)
        ensures
            r == (RpcServiceBuilder { max_ws_connections: max, ..self }),
    {
        RpcServiceBuilder { max_ws_connections: max, ..self }
    }

    /// Sets the quotas.
    pub fn quota_manager(self, manager: QuotaManager) -> (r: Self)
        ensures
            r == (RpcServiceBuilder { quota_manager: Some(manager), ..self }),
    {
        RpcServiceBuilder { quota_manager: Some(manager), ..self }
    }

    /// Sets the gas that a view query may use.
    pub fn query_gas_budget(self, budget: u64) -> (r: Self)
        ensures
            r == (RpcServiceBuilder { query_gas_budget: budget, ..self }),
    {
        RpcServiceBuilder { query_gas_budget: budget, ..self }
    }

    /// Sets the milliseconds that a view query may take.
    pub fn query_timeout_ms(self, ms: u64) -> (r: Self)
        ensures
            r == (RpcServiceBuilder { query_timeout_ms: ms, ..self }),
    {
        RpcServiceBuilder { query_timeout_ms: ms, ..self }
    }

    /// Sets the number of shards.
    pub fn num_shards(self, n: u16) -> (r: Self)
        ensures
            r == (RpcServiceBuilder { num_shards: n, ..self }),
    {
        RpcServiceBuilder { num_shards: n, ..self }
    }

    /// Sets the service up. A faucet limit of zero means that there is none.
    pub fn build(self) -> (r: RpcService)
        requires
            self.query is Some,
        ensures
            r.listen_addr == self.listen_addr,
            r.api_keys == self.api_keys,
            r.cors_allowed_origins == self.cors_allowed_origins,
            self.query == Some(r.state.query),
            r.state.consensus == self.consensus,
            r.state.network == self.network,
            r.state.session_provenance == self.session_provenance,
            r.state.state_proof == self.state_proof,
            r.state.mcp_dispatcher == self.mcp_dispatcher,
            r.state.htlc == self.htlc,
            r.state.block == self.block,
            r.state.event_backend == self.event_backend,
            r.state.intent_tracker == self.intent_tracker,
            r.state.tx_lifecycle == self.tx_lifecycle,
            match (self.rate_limit_per_ip, r.state.rate_limiter) {
                (None, None) => true,
                (Some((max_requests, window_ns)), Some(limiter)) => {
                    &&& limiter.wf()
                    &&& limiter@ == Map::<Seq<u8>, Bucket>::empty()
                    &&& limiter.limit() == max_requests
                    &&& limiter.window() == window_ns
                    &&& limiter.capacity() == RATE_LIMITER_MAX_ENTRIES
                },
                _ => false,
            },
            match r.state.faucet_addr_limiter {
                None => self.faucet_per_addr_limit_per_hour == 0,
                Some(limiter) => {
                    &&& self.faucet_per_addr_limit_per_hour > 0
                    &&& limiter.wf()
                    &&& limiter@ == Map::<Seq<u8>, Bucket>::empty()
                    &&& limiter.limit() == self.faucet_per_addr_limit_per_hour
                    &&& limiter.capacity() == FAUCET_LIMITER_MAX_ENTRIES
                },
            },
            r.state.faucet_enabled == self.faucet_enabled,
            r.state.faucet_amount == self.faucet_amount,
            r.state.max_ws_connections == self.max_ws_connections,
            r.state.ws_connection_count == 0,
            r.state.mcp_call_index == 0,
            r.state.quota_manager == self.quota_manager,
            r.state.query_gas_budget == self.query_gas_budget,
            r.state.query_timeout_ms == self.query_timeout_ms,
            r.state.num_shards == self.num_shards,
    {
        let rate_limiter = match self.rate_limit_per_ip {
            Some((max_requests, window_ns)) => Some(RateLimiter::new(max_requests, window_ns)),
            None => None,
        };
        let faucet_addr_limiter = if self.faucet_per_addr_limit_per_hour > 0 {
            Some(FaucetAddressLimiter::new(self.faucet_per_addr_limit_per_hour))
        } else {
            None
        };
        let query = self.query.unwrap();
        let state = AppState {
            query,
            consensus: self.consensus,
            network: self.network,
            session_provenance: self.session_provenance,
            state_proof: self.state_proof,
            mcp_dispatcher: self.mcp_dispatcher,
            htlc: self.htlc,
            block: self.block,
            event_backend: self.event_backend,
            intent_tracker: self.intent_tracker,
            tx_lifecycle: self.tx_lifecycle,
            rate_limiter,
            faucet_addr_limiter,
            faucet_enabled: self.faucet_enabled,
            faucet_amount: self.faucet_amount,
            max_ws_connections: self.max_ws_connections,
            ws_connection_count: 0,
            mcp_call_index: 0,
            quota_manager: self.quota_manager,
            query_gas_budget: self.query_gas_budget,
            query_timeout_ms: self.query_timeout_ms,
            num_shards: self.num_shards,
        };
        RpcService {
            listen_addr: self.listen_addr,
            state,
            api_keys: self.api_keys,
            cors_allowed_origins: self.cors_allowed_origins,
        }
    }
}

impl RpcService {
    /// A service at `listen_addr` with the default configuration.
    pub fn builder(listen_addr: ListenAddress) -> (r: RpcServiceBuilder)
        ensures
            r.listen_addr == listen_addr,
            r.is_default(),
    {
        RpcServiceBuilder::new(listen_addr)
    }

    /// What the endpoints share.
    pub fn state(&self) -> (r: &AppState<dyn QueryBackend>)
        ensures
            *r == self.state,
    {
        &self.state
    }
}

} // verus!
