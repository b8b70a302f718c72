//! Supervision of a single external node process: lifecycle control
//! (start, poll, graceful stop with forced-kill escalation), log retrieval
//! support, and a JSON-RPC forwarding bridge.
//!
//! The supervisor's state machine, the env/arg specification parsing, and
//! the RPC response decoding are verified; the operating-system and network
//! effects are reached through small trusted wrappers over the `subprocess`,
//! `reqwest`, `jsonrpc-core` and `serde_json` crates.

pub mod errors;
pub mod parsing;
pub mod supervisor;
pub mod rpc;
