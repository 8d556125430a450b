//! Interactive GitHub personal access token dispenser: the verified core.
//!
//! The library models the authorization-code capture-and-exchange flow: the
//! permission-scope catalog and its wire format, the authorization URL
//! builder, query-string handling for the loopback redirect, the one-shot
//! callback server state machine, token-exchange classification, and the
//! flow orchestrator's decision logic.

pub mod opts;
pub mod scope;
pub mod authorize;
pub mod query;
pub mod exchange;
pub mod errors;
pub mod server;
pub mod flow;
