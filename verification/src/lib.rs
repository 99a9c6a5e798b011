//! A secure messaging layer for WebSocket peers: connection supervision,
//! an authenticated-encryption envelope with a freshness window, a registry
//! of server-side connections and the decisions of the accept and reconnect
//! loops. Transport, sockets and timers stay with the caller, which performs
//! the actions that the functions here decide on.

pub mod config;
pub mod foreign;
pub mod replay;
pub mod envelope;
pub mod registry;
pub mod state;
pub mod pipeline;
pub mod logging;
pub mod events;
pub mod supervisor;
pub mod listener;
pub mod reconnect;
pub mod api;
