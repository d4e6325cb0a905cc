//! The RPC layer: what requests mean and how they are answered.

pub mod agent;
pub mod bucket_laws;
pub mod buckets;
pub mod dto;
pub mod error;
pub mod intent_tracker;
pub mod json;
pub mod mcp;
pub mod limit_laws;
pub mod metrics;
pub mod middleware;
pub mod rest;
pub mod server;
pub mod service_laws;
pub mod tracking_laws;
pub mod tx_lifecycle;
pub mod ws;
