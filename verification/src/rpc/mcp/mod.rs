//! The adapter between the Model Context Protocol (MCP) and the agent engine.
//!
//! The adapter lists the tools that clients may call, translates calls into
//! agent requests and maps errors to MCP codes. It decides no permissions and
//! executes nothing itself.

pub mod call_laws;
pub mod error_map;
pub mod registry;
pub mod request_laws;
pub mod schema;
pub mod handler;
