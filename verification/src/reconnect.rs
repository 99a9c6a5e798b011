//! The client's connect loop, as far as it decides: whether a target is
//! acceptable, how to connect to it, and whether to try again.

use crate::envelope::{borrowed_text, text_of};
use crate::events::{connection_event, EventType, Notification, NotificationView};
use crate::foreign::{url_scheme, url_scheme_of};
use crate::state::{Role, WsState};
use std::collections::VecDeque;
use vstd::prelude::*;

verus! {

/// Seconds to wait before every further connection attempt.
pub const RECONNECT_BACKOFF_SECONDS: u64 = 5;

/// Remembers the target and the reconnect switch for the connect loop.
/// A missing target, or one that does not parse as a URL, is refused and
/// leaves everything as it was.
pub fn connect_ws_client(
    state: &mut WsState,
    server_url: Option<&str>,
    enable_reconnect: bool,
) -> (accepted: bool)
    ensures
        accepted <==> (server_url is Some && url_scheme_of(server_url.unwrap()@) is Some),
        !accepted ==> *final(state) == *old(state),
        accepted ==> {
            &&& final(state).client.reconnect == enable_reconnect
            &&& text_of(final(state).client.url) == borrowed_text(server_url)
            &&& final(state).client.connected == old(state).client.connected
            &&& final(state).client.outbound == old(state).client.outbound
            &&& final(state).config == old(state).config
            &&& final(state).server_key == old(state).server_key
            &&& final(state).client_key == old(state).client_key
            &&& final(state).replay == old(state).replay
            &&& final(state).clients == old(state).clients
            &&& final(state).next_client_id == old(state).next_client_id
            &&& final(state).log_level == old(state).log_level
        },
{
    match server_url {
        None => false,
        Some(url) => match url_scheme(url) {
            None => false,
            Some(_) => {
                state.client.url = Some(url.to_owned());
                state.client.reconnect = enable_reconnect;
                true
            },
        },
    }
}

/// How one connection attempt is to be made.
pub enum Attempt {
    /// Connect to `url`; over TLS where `secure` holds, and then without
    /// verifying the server's certificate where `accept_invalid_certs` holds.
    Connect { url: String, secure: bool, accept_invalid_certs: bool },
    /// There is no target, or it no longer parses: leave the loop.
    GiveUp,
}

/// Whether a scheme asks for TLS.
pub open spec fn is_secure_scheme(scheme: Seq<char>) -> bool {
    scheme == "wss"@
}

/// Plans the next attempt: the target is parsed afresh; its scheme decides
/// on TLS, and the configuration on certificate verification.
pub fn next_attempt(state: &WsState) -> (attempt: Attempt)
    ensures
        match attempt {
            Attempt::Connect { url, secure, accept_invalid_certs } => {
                &&& text_of(state.client.url) == Some(url@)
                &&& url_scheme_of(url@) is Some
                &&& secure == is_secure_scheme(url_scheme_of(url@).unwrap())
                &&& accept_invalid_certs == (secure && state.config.skip_cert_verify)
            },
            Attempt::GiveUp => state.client.url matches Some(target) ==> url_scheme_of(target@)
                is None,
        },
{
    match &state.client.url {
        None => Attempt::GiveUp,
        Some(target) => match url_scheme(target.as_str()) {
            None => Attempt::GiveUp,
            Some(scheme) => {
                let secure = scheme == "wss".to_owned();
                Attempt::Connect {
                    url: target.clone(),
                    secure,
                    accept_invalid_certs: secure && state.config.get_skip_cert_verify(),
                }
            },
        },
    }
}

/// What the loop does after an attempt failed or a connection closed.
#[derive(Clone, Copy, Debug, PartialEq, Eq, Structural)]
pub enum AfterAttempt {
    /// Wait this many seconds, then attempt again.
    RetryAfter(u64),
    /// Leave the loop.
    Stop,
}

/// Decides what follows a failed attempt or a closed connection: with the
/// reconnect switch on, another attempt after the fixed backoff, every time;
/// with it off, nothing more.
pub fn after_attempt(state: &WsState) -> (next: AfterAttempt)
    ensures
        next == (if state.client.reconnect {
            AfterAttempt::RetryAfter(RECONNECT_BACKOFF_SECONDS)
        } else {
            AfterAttempt::Stop
        }),
{
    if state.client.reconnect {
        AfterAttempt::RetryAfter(RECONNECT_BACKOFF_SECONDS)
    } else {
        AfterAttempt::Stop
    }
}

/// Marks the client's connection as up, with an empty queue for its writer,
/// and yields the connect event for the sink.
pub fn client_connected(state: &mut WsState) -> (event: Notification)
    ensures
        event@ == (NotificationView {
            event_type: EventType::Connect,
            source: Role::Client,
            client_id: Seq::<char>::empty(),
            message: "connected"@,
        }),
        final(state).client.connected,
        final(state).client.outbound is Some,
        final(state).client.queued() == Seq::<Seq<char>>::empty(),
        final(state).client.url == old(state).client.url,
        final(state).client.reconnect == old(state).client.reconnect,
        final(state).config == old(state).config,
        final(state).server_key == old(state).server_key,
        final(state).client_key == old(state).client_key,
        final(state).replay == old(state).replay,
        final(state).clients == old(state).clients,
        final(state).next_client_id == old(state).next_client_id,
        final(state).log_level == old(state).log_level,
{
    state.client.connected = true;
    state.client.outbound = Some(VecDeque::new());
    proof {
        reveal_strlit("");
        assert(""@ =~= Seq::<char>::empty());
        assert(state.client.queued() =~= Seq::<Seq<char>>::empty());
    }
    connection_event(Role::Client, "", true)
}

} // verus!
