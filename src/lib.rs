//! Session bridge between a locally served agent and an out-of-process
//! fulfiller: a table of pending tool calls, the fulfilment and settlement
//! rules around it, the readiness poll of the agent server, and the relay
//! that forwards a remote event stream to a sink.

pub mod pending;
pub mod bridge;
pub mod deps;
pub mod readiness;
pub mod relay;
pub mod address;
pub mod models;
pub mod session;
