//! The state of one process: configuration, keys, the freshness record, the
//! server's registry and the client's single connection slot.

use crate::config::WsConfig;
use crate::registry::ConnectionRegistry;
use crate::replay::ReplayState;
use std::collections::VecDeque;
use vstd::prelude::*;

verus! {

/// Which side of a connection this process plays.
#[derive(Clone, Copy, Debug, PartialEq, Eq, Structural)]
pub enum Role {
    Server,
    Client,
}

/// The most verbose log level; levels above it are clamped to it.
pub const MAX_LOG_LEVEL: u8 = 3;

/// The log level a process starts with.
pub const DEFAULT_LOG_LEVEL: u8 = 2;

/// The client role's single connection: whether it is up, what is queued for
/// its writer, and where and whether to connect again.
pub struct ClientSlot {
    pub connected: bool,
    pub outbound: Option<VecDeque<String>>,
    pub url: Option<String>,
    pub reconnect: bool,
}

impl ClientSlot {
    /// The texts queued for the writer, oldest first; none without a queue.
    pub open spec fn queued(self) -> Seq<Seq<char>> {
        match self.outbound {
            Some(queue) => Seq::new(queue@.len(), |i: int| queue@[i]@),
            None => Seq::empty(),
        }
    }
}

/// Everything the components share, built once and handed to each of them.
pub struct WsState {
    pub config: WsConfig,
    pub log_level: u8,
    pub server_key: Option<[u8; 32]>,
    pub client_key: Option<[u8; 32]>,
    pub replay: ReplayState,
    pub clients: ConnectionRegistry,
    pub next_client_id: u64,
    pub client: ClientSlot,
}

impl WsState {
    /// The state of a process that has configured and connected nothing.
    pub fn new() -> (state: WsState)
        ensures
            state.config == WsConfig::initial(),
            state.log_level == DEFAULT_LOG_LEVEL,
            state.server_key is None,
            state.client_key is None,
            state.replay@ == Map::<Seq<char>, i64>::empty(),
            state.clients@.len() == 0,
            state.next_client_id == 1,
            !state.client.connected,
            state.client.outbound is None,
            state.client.url is None,
            !state.client.reconnect,
    {
        WsState {
            config: WsConfig::new(),
            log_level: DEFAULT_LOG_LEVEL,
            server_key: None,
            client_key: None,
            replay: ReplayState::new(),
            clients: ConnectionRegistry::new(),
            next_client_id: 1,
            client: ClientSlot { connected: false, outbound: None, url: None, reconnect: false },
        }
    }

    /// The key of a role, if one is set.
    pub open spec fn key_for(self, role: Role) -> Option<[u8; 32]> {
        match role {
            Role::Server => self.server_key,
            Role::Client => self.client_key,
        }
    }
}

} // verus!
