//! Runtime configuration: six independent scalars with safe defaults.

use vstd::prelude::*;

verus! {

/// Default ceiling on concurrent server-side connections.
pub const DEFAULT_MAX_CLIENTS: usize = 1000;

/// Default seconds between two heartbeat pings.
pub const DEFAULT_HEARTBEAT_INTERVAL: u64 = 30;

/// Default seconds without any inbound frame after which a connection is dropped.
pub const DEFAULT_READ_TIMEOUT: u64 = 60;

/// Default half-width, in seconds, of the freshness window.
pub const DEFAULT_REPLAY_WINDOW: i64 = 300;

/// The numeric and boolean knobs that every component reads afresh on each use.
#[derive(Debug)]
pub struct WsConfig {
    pub max_clients: usize,
    pub heartbeat_interval: u64,
    pub read_timeout: u64,
    pub replay_window: i64,
    pub skip_cert_verify: bool,
    pub encryption_enabled: bool,
}

impl WsConfig {
    /// The configuration a process starts with.
    pub open spec fn initial() -> WsConfig {
        WsConfig {
            max_clients: DEFAULT_MAX_CLIENTS,
            heartbeat_interval: DEFAULT_HEARTBEAT_INTERVAL,
            read_timeout: DEFAULT_READ_TIMEOUT,
            replay_window: DEFAULT_REPLAY_WINDOW,
            skip_cert_verify: false,
            encryption_enabled: false,
        }
    }

    pub fn new() -> (config: WsConfig)
        ensures
            config == WsConfig::initial(),
    {
        WsConfig {
            max_clients: DEFAULT_MAX_CLIENTS,
            heartbeat_interval: DEFAULT_HEARTBEAT_INTERVAL,
            read_timeout: DEFAULT_READ_TIMEOUT,
            replay_window: DEFAULT_REPLAY_WINDOW,
            skip_cert_verify: false,
            encryption_enabled: false,
        }
    }

    pub fn get_max_clients(&self) -> (limit: usize)
        ensures
            limit == self.max_clients,
    {
        self.max_clients
    }

    pub fn set_max_clients(&mut self, limit: usize)
        ensures
            *final(self) == (WsConfig { max_clients: limit, ..*old(self) }),
    {
        self.max_clients = limit;
    }

    pub fn get_heartbeat_interval(&self) -> (seconds: u64)
        ensures
            seconds == self.heartbeat_interval,
    {
        self.heartbeat_interval
    }

    pub fn set_heartbeat_interval(&mut self, seconds: u64)
        ensures
            *final(self) == (WsConfig { heartbeat_interval: seconds, ..*old(self) }),
    {
        self.heartbeat_interval = seconds;
    }

    pub fn get_read_timeout(&self) -> (seconds: u64)
        ensures
            seconds == self.read_timeout,
    {
        self.read_timeout
    }

    pub fn set_read_timeout(&mut self, seconds: u64)
        ensures
            *final(self) == (WsConfig { read_timeout: seconds, ..*old(self) }),
    {
        self.read_timeout = seconds;
    }

    pub fn get_replay_window(&self) -> (seconds: i64)
        ensures
            seconds == self.replay_window,
    {
        self.replay_window
    }

    pub fn set_replay_window(&mut self, seconds: i64)
        ensures
            *final(self) == (WsConfig { replay_window: seconds, ..*old(self) }),
    {
        self.replay_window = seconds;
    }

    pub fn get_skip_cert_verify(&self) -> (skip: bool)
        ensures
            skip == self.skip_cert_verify,
    {
        self.skip_cert_verify
    }

    pub fn set_skip_cert_verify(&mut self, skip: bool)
        ensures
            *final(self) == (WsConfig { skip_cert_verify: skip, ..*old(self) }),
    {
        self.skip_cert_verify = skip;
    }

    pub fn get_encryption_enabled(&self) -> (enabled: bool)
        ensures
            enabled == self.encryption_enabled,
    {
        self.encryption_enabled
    }

    pub fn set_encryption_enabled(&mut self, enabled: bool)
        ensures
            *final(self) == (WsConfig { encryption_enabled: enabled, ..*old(self) }),
    {
        self.encryption_enabled = enabled;
    }
}

} // verus!
