//! Verified core of a Nexus validator node: primitive types, committee
//! election, state synchronisation, readiness tracking and the decision logic
//! of the RPC layer.

pub mod node;
pub mod primitives;
pub mod rpc;
