//! The operations a host calls: knobs, keys, sending, and encryption outside
//! a session. Each works on the process state it is handed.

use crate::config::WsConfig;
use crate::envelope::{envelope_bound, is_fresh, key_of, sealable, text_of, NONCE_LEN};
use crate::foreign::{decimal_u64, fresh_nonce, parse_u64, unix_millis};
use crate::pipeline::{
    carries,
    handed_on,
    incoming,
    is_wire_for,
    is_wrapping,
    manual_source,
    process_outgoing_for_client,
    process_outgoing_for_server,
    recorded_after,
    unwrap_at,
    wrap_at,
    Inbound,
    WireForm,
};
use crate::registry::{position_of, unix_seconds, whole_seconds};
use crate::state::{Role, WsState, MAX_LOG_LEVEL};
use vstd::prelude::*;

verus! {

// ---------------------------------------------------------------------------
// Configuration
// ---------------------------------------------------------------------------
/// Sets the ceiling on concurrent server-side connections.
pub fn set_max_clients(state: &mut WsState, limit: usize)
    ensures
        *final(state) == (WsState {
            config: WsConfig { max_clients: limit, ..old(state).config },
            ..*old(state)
        }),
{
    state.config.set_max_clients(limit);
}

pub fn get_max_clients(state: &WsState) -> (limit: usize)
    ensures
        limit == state.config.max_clients,
{
    state.config.get_max_clients()
}

/// Sets the seconds between two heartbeat pings.
pub fn set_heartbeat_interval(state: &mut WsState, seconds: u64)
    ensures
        *final(state) == (WsState {
            config: WsConfig { heartbeat_interval: seconds, ..old(state).config },
            ..*old(state)
        }),
{
    state.config.set_heartbeat_interval(seconds);
}

pub fn get_heartbeat_interval(state: &WsState) -> (seconds: u64)
    ensures
        seconds == state.config.heartbeat_interval,
{
    state.config.get_heartbeat_interval()
}

/// Sets the seconds without any inbound frame after which a connection is dropped.
pub fn set_read_timeout(state: &mut WsState, seconds: u64)
    ensures
        *final(state) == (WsState {
            config: WsConfig { read_timeout: seconds, ..old(state).config },
            ..*old(state)
        }),
{
    state.config.set_read_timeout(seconds);
}

pub fn get_read_timeout(state: &WsState) -> (seconds: u64)
    ensures
        seconds == state.config.read_timeout,
{
    state.config.get_read_timeout()
}

/// Sets the half-width, in seconds, of the freshness window.
pub fn set_replay_window(state: &mut WsState, seconds: i64)
    ensures
        *final(state) == (WsState {
            config: WsConfig { replay_window: seconds, ..old(state).config },
            ..*old(state)
        }),
{
    state.config.set_replay_window(seconds);
}

pub fn get_replay_window(state: &WsState) -> (seconds: i64)
    ensures
        seconds == state.config.replay_window,
{
    state.config.get_replay_window()
}

/// Switches the encryption envelope on or off.
pub fn enable_encryption(state: &mut WsState, enable: bool)
    ensures
        *final(state) == (WsState {
            config: WsConfig { encryption_enabled: enable, ..old(state).config },
            ..*old(state)
        }),
{
    state.config.set_encryption_enabled(enable);
}

pub fn is_encryption_enabled(state: &WsState) -> (enabled: bool)
    ensures
        enabled == state.config.encryption_enabled,
{
    state.config.get_encryption_enabled()
}

/// Switches certificate verification of the client's TLS connections off or
/// back on.
pub fn set_skip_cert_verify(state: &mut WsState, skip: bool)
    ensures
        *final(state) == (WsState {
            config: WsConfig { skip_cert_verify: skip, ..old(state).config },
            ..*old(state)
        }),
{
    state.config.set_skip_cert_verify(skip);
}

/// Sets the log threshold; a level above the most verbose one means the most
/// verbose one.
pub fn set_log_level(state: &mut WsState, level: u8)
    ensures
        final(state).log_level == (if level > MAX_LOG_LEVEL {
            MAX_LOG_LEVEL
        } else {
            level
        }),
        *final(state) == (WsState { log_level: final(state).log_level, ..*old(state) }),
{
    state.log_level = if level > MAX_LOG_LEVEL {
        MAX_LOG_LEVEL
    } else {
        level
    };
}

// ---------------------------------------------------------------------------
// Keys
// ---------------------------------------------------------------------------
/// Reads a key: exactly 32 bytes, taken as they are.
pub fn parse_key(bytes: &[u8]) -> (key: Option<[u8; 32]>)
    ensures
        key is Some <==> bytes@.len() == 32,
        key matches Some(k) ==> k@ == bytes@,
{
    if bytes.len() != 32 {
        return None;
    }
    let mut key = [0u8; 32];
    let mut i: usize = 0;
    while i < 32
        invariant
            i <= 32,
            bytes@.len() == 32,
            forall|j: int| 0 <= j < i ==> key@[j] == bytes@[j],
        decreases 32 - i,
    {
        key[i] = bytes[i];
        i += 1;
    }
    assert(key@ =~= bytes@);
    Some(key)
}

/// Sets the key of the server role. Only a key of 32 bytes is taken; any
/// other leaves the state as it was.
pub fn set_server_encryption_key(state: &mut WsState, key: &[u8]) -> (accepted: bool)
    ensures
        accepted <==> key@.len() == 32,
        accepted ==> key_of(final(state).server_key) == Some(key@),
        !accepted ==> final(state).server_key == old(state).server_key,
        *final(state) == (WsState { server_key: final(state).server_key, ..*old(state) }),
{
    match parse_key(key) {
        Some(k) => {
            state.server_key = Some(k);
            true
        },
        None => false,
    }
}

/// Sets the key of the client role. Only a key of 32 bytes is taken; any
/// other leaves the state as it was.
pub fn set_client_encryption_key(state: &mut WsState, key: &[u8]) -> (accepted: bool)
    ensures
        accepted <==> key@.len() == 32,
        accepted ==> key_of(final(state).client_key) == Some(key@),
        !accepted ==> final(state).client_key == old(state).client_key,
        *final(state) == (WsState { client_key: final(state).client_key, ..*old(state) }),
{
    match parse_key(key) {
        Some(k) => {
            state.client_key = Some(k);
            true
        },
        None => false,
    }
}

// ---------------------------------------------------------------------------
// Sending
// ---------------------------------------------------------------------------
/// Whether `after` is `before` with one wire text for `text`, wrapped under
/// the server key, queued behind the rest.
pub open spec fn server_wire_queued(
    state: WsState,
    text: Seq<char>,
    before: Seq<Seq<char>>,
    after: Seq<Seq<char>>,
) -> bool {
    &&& after.len() == before.len() + 1
    &&& after.drop_last() == before
    &&& is_wire_for(state.config.encryption_enabled, key_of(state.server_key), text, after.last())
}

/// Queues `message` for every registered client, each with a wrapping of
/// its own, in order of arrival. Always succeeds.
pub fn broadcast_to_clients(state: &mut WsState, message: &str) -> (sent: bool)
    ensures
        sent,
        final(state).clients@.len() == old(state).clients@.len(),
        forall|i: int|
            #![trigger final(state).clients@[i]]
            0 <= i < old(state).clients@.len() ==> {
                &&& final(state).clients@[i].id == old(state).clients@[i].id
                &&& final(state).clients@[i].connected_at == old(state).clients@[i].connected_at
                &&& final(state).clients@[i].last_active == old(state).clients@[i].last_active
                &&& server_wire_queued(
                    *old(state),
                    message@,
                    old(state).clients@[i].queued(),
                    final(state).clients@[i].queued(),
                )
            },
        final(state).config == old(state).config,
        final(state).server_key == old(state).server_key,
        final(state).client_key == old(state).client_key,
        final(state).replay == old(state).replay,
        final(state).next_client_id == old(state).next_client_id,
        final(state).client == old(state).client,
        final(state).log_level == old(state).log_level,
{
    let count = state.clients.count();
    let mut i: usize = 0;
    while i < count
        invariant
            i <= count,
            count == old(state).clients@.len(),
            state.clients@.len() == count,
            state.config == old(state).config,
            state.server_key == old(state).server_key,
            state.client_key == old(state).client_key,
            state.replay == old(state).replay,
            state.next_client_id == old(state).next_client_id,
            state.client == old(state).client,
            state.log_level == old(state).log_level,
            forall|j: int| i <= j < count ==> state.clients@[j] == old(state).clients@[j],
            forall|j: int|
                #![trigger state.clients@[j]]
                0 <= j < i ==> {
                    &&& state.clients@[j].id == old(state).clients@[j].id
                    &&& state.clients@[j].connected_at == old(state).clients@[j].connected_at
                    &&& state.clients@[j].last_active == old(state).clients@[j].last_active
                    &&& server_wire_queued(
                        *old(state),
                        message@,
                        old(state).clients@[j].queued(),
                        state.clients@[j].queued(),
                    )
                },
        decreases count - i,
    {
        let wire = process_outgoing_for_server(state, message);
        let ghost before = state.clients@[i as int].queued();
        state.clients.send_at(i, wire, false, 0);
        proof {
            let after = state.clients@[i as int].queued();
            assert(after.drop_last() =~= before);
        }
        i += 1;
    }
    true
}

/// Queues `message`, wrapped under the server key, for the client whose
/// identifier `client_id` spells in decimal, and notes the client's activity:
/// its time of last activity becomes the whole seconds of what the clock
/// reads.
/// Fails, changing nothing, where the text is no identifier or no such
/// client is registered.
pub fn send_to_client_by_id(state: &mut WsState, client_id: &str, message: &str) -> (sent: bool)
    ensures
        sent <==> (decimal_u64(client_id@) is Some && old(state).clients.has(
            decimal_u64(client_id@).unwrap(),
        )),
        !sent ==> *final(state) == *old(state),
        sent ==> {
            let at = position_of(old(state).clients@, decimal_u64(client_id@).unwrap()).unwrap();
            &&& final(state).clients@.len() == old(state).clients@.len()
            &&& forall|i: int|
                0 <= i < old(state).clients@.len() && i != at ==> final(state).clients@[i]
                    == old(state).clients@[i]
            &&& final(state).clients@[at].id == old(state).clients@[at].id
            &&& final(state).clients@[at].connected_at == old(state).clients@[at].connected_at
            &&& exists|millis: i64|
                final(state).clients@[at].last_active == #[trigger] whole_seconds(millis)
            &&& server_wire_queued(
                *old(state),
                message@,
                old(state).clients@[at].queued(),
                final(state).clients@[at].queued(),
            )
        },
        final(state).config == old(state).config,
        final(state).server_key == old(state).server_key,
        final(state).client_key == old(state).client_key,
        final(state).replay == old(state).replay,
        final(state).next_client_id == old(state).next_client_id,
        final(state).client == old(state).client,
        final(state).log_level == old(state).log_level,
{
    match parse_u64(client_id) {
        None => false,
        Some(id) => {
            if !state.clients.contains(id) {
                return false;
            }
            let wire = process_outgoing_for_server(state, message);
            let ghost at = position_of(state.clients@, id).unwrap();
            let ghost before = state.clients@[at].queued();
            let sent = state.clients.send_to(id, wire, true, unix_seconds());
            proof {
                let after = state.clients@[at].queued();
                assert(after.drop_last() =~= before);
            }
            sent
        },
    }
}

/// Queues `message`, wrapped under the client key, for the server. Fails,
/// changing nothing, while the client is not connected.
pub fn send_to_server(state: &mut WsState, message: &str) -> (sent: bool)
    ensures
        sent <==> (old(state).client.connected && old(state).client.outbound is Some),
        !sent ==> *final(state) == *old(state),
        sent ==> {
            &&& final(state).client.outbound is Some
            &&& final(state).client.queued().len() == old(state).client.queued().len() + 1
            &&& final(state).client.queued().drop_last() == old(state).client.queued()
            &&& is_wire_for(
                old(state).config.encryption_enabled,
                key_of(old(state).client_key),
                message@,
                final(state).client.queued().last(),
            )
        },
        final(state).client.connected == old(state).client.connected,
        final(state).client.url == old(state).client.url,
        final(state).client.reconnect == old(state).client.reconnect,
        final(state).config == old(state).config,
        final(state).server_key == old(state).server_key,
        final(state).client_key == old(state).client_key,
        final(state).replay == old(state).replay,
        final(state).clients == old(state).clients,
        final(state).next_client_id == old(state).next_client_id,
        final(state).log_level == old(state).log_level,
{
    if !state.client.connected {
        return false;
    }
    if state.client.outbound.is_none() {
        return false;
    }
    let wire = process_outgoing_for_client(state, message);
    let taken = state.client.outbound.take();
    match taken {
        Some(mut queue) => {
            queue.push_back(wire);
            state.client.outbound = Some(queue);
            proof {
                assert(state.client.queued().drop_last() =~= old(state).client.queued());
            }
            true
        },
        None => false,
    }
}

pub fn is_client_connected(state: &WsState) -> (connected: bool)
    ensures
        connected == state.client.connected,
{
    state.client.connected
}

/// The number of registered clients, in 32 bits.
pub fn get_server_client_count(state: &WsState) -> (count: u32)
    ensures
        count == state.clients@.len() as u32,
{
    #[verifier::truncate]
    (state.clients.count() as u32)
}

/// Whether `after` is the queue `before` without its oldest text and `wire`
/// a wrapping of that text; or the queue is empty and stays so, and nothing
/// came out.
pub open spec fn is_drained(
    enabled: bool,
    key: Option<Seq<u8>>,
    before: Seq<Seq<char>>,
    after: Seq<Seq<char>>,
    wire: Option<Seq<char>>,
) -> bool {
    match wire {
        Some(w) => before.len() > 0 && after == before.drop_first() && is_wire_for(
            enabled,
            key,
            before[0],
            w,
        ),
        None => before.len() == 0 && after == before,
    }
}

/// Takes the oldest text queued for a connection and wraps it for the
/// transport under the role's key, as the writer does with every item it
/// drains; what the sending operations queued was wrapped once already.
/// Nothing comes out, and nothing changes, where the connection is not open
/// or nothing is queued.
pub fn next_outbound_wire(state: &mut WsState, role: Role, connection_id: u64) -> (wire: Option<
    String,
>)
    ensures
        final(state).config == old(state).config,
        final(state).server_key == old(state).server_key,
        final(state).client_key == old(state).client_key,
        final(state).replay == old(state).replay,
        final(state).next_client_id == old(state).next_client_id,
        final(state).log_level == old(state).log_level,
        final(state).client.connected == old(state).client.connected,
        final(state).client.url == old(state).client.url,
        final(state).client.reconnect == old(state).client.reconnect,
        final(state).client.outbound is Some <==> old(state).client.outbound is Some,
        final(state).clients@.len() == old(state).clients@.len(),
        match role {
            Role::Server => final(state).client == old(state).client && match position_of(
                old(state).clients@,
                connection_id,
            ) {
                None => wire is None && final(state).clients@ == old(state).clients@,
                Some(at) => {
                    let before = old(state).clients@[at];
                    let after = final(state).clients@[at];
                    &&& forall|i: int|
                        0 <= i < old(state).clients@.len() && i != at ==> final(state).clients@[i]
                            == old(state).clients@[i]
                    &&& after.id == connection_id
                    &&& after.connected_at == before.connected_at
                    &&& after.last_active == before.last_active
                    &&& is_drained(
                        old(state).config.encryption_enabled,
                        key_of(old(state).server_key),
                        before.queued(),
                        after.queued(),
                        text_of(wire),
                    )
                },
            },
            Role::Client => final(state).clients == old(state).clients && is_drained(
                old(state).config.encryption_enabled,
                key_of(old(state).client_key),
                old(state).client.queued(),
                final(state).client.queued(),
                text_of(wire),
            ),
        },
{
    match role {
        Role::Server => match state.clients.next_outbound(connection_id) {
            Some(text) => Some(process_outgoing_for_server(state, text.as_str())),
            None => None,
        },
        Role::Client => {
            let taken = state.client.outbound.take();
            match taken {
                Some(mut queue) => {
                    let text = queue.pop_front();
                    state.client.outbound = Some(queue);
                    proof {
                        if text is Some {
                            assert(state.client.queued() =~= old(
                                state,
                            ).client.queued().drop_first());
                        } else {
                            assert(state.client.queued() =~= old(state).client.queued());
                        }
                    }
                    match text {
                        Some(text) => Some(process_outgoing_for_client(state, text.as_str())),
                        None => None,
                    }
                },
                None => None,
            }
        },
    }
}

// ---------------------------------------------------------------------------
// Encryption outside a session
// ---------------------------------------------------------------------------
/// A text sealed outside a session: the wire text, its form, and the role
/// whose key sealed it.
pub struct ManualSeal {
    pub wire: String,
    pub form: WireForm,
    pub key_role: Role,
}

/// Whether sealing `text` under an optional key is impossible at `now_ms`
/// with `nonce`: there is no key, or the cipher cannot take the envelope.
pub open spec fn cannot_seal(
    key: Option<Seq<u8>>,
    text: Seq<char>,
    now_ms: i64,
    nonce: Seq<u8>,
) -> bool {
    key is None || is_wrapping(true, key, text, now_ms, nonce, text, WireForm::Plain)
}

/// Whether `wire`, in form `form` under the key of `key_role`, is what
/// encryption outside a session yields for `text` at `now_ms` with `nonce`.
/// With encryption off the text comes back as it is. With it on, the
/// envelope of the text is sealed under the client key where there is one
/// that can seal it, and else under the server key; the wire carries the
/// text under the key of the role named. Nothing comes back where neither
/// key can seal the envelope, and then `form` and `key_role` say nothing.
pub open spec fn is_manual_seal(
    state: WsState,
    text: Seq<char>,
    now_ms: i64,
    nonce: Seq<u8>,
    wire: Option<Seq<char>>,
    form: WireForm,
    key_role: Role,
) -> bool {
    if !state.config.encryption_enabled {
        wire == Some(text) && form == WireForm::Plain
    } else {
        match wire {
            Some(w) => {
                let key = key_of(state.key_for(key_role));
                &&& form == WireForm::SealedEnvelope
                &&& key is Some
                &&& is_wrapping(true, key, text, now_ms, nonce, w, form)
                &&& carries(w, key.unwrap(), text, now_ms)
                &&& key_role == Role::Server ==> cannot_seal(
                    key_of(state.client_key),
                    text,
                    now_ms,
                    nonce,
                )
            },
            None => cannot_seal(key_of(state.client_key), text, now_ms, nonce) && cannot_seal(
                key_of(state.server_key),
                text,
                now_ms,
                nonce,
            ),
        }
    }
}

/// With encryption on and a text whose envelope the cipher can take:
/// encryption outside a session yields a wire as soon as one key is set,
/// under the client key whenever that is set; and decryption outside a
/// session, at a reading of the clock within the window around the time of
/// sealing, gives the text back and records that time.
pub proof fn manual_seal_opens(
    state: WsState,
    text: Seq<char>,
    ts: i64,
    nonce: Seq<u8>,
    wire: Option<Seq<char>>,
    form: WireForm,
    key_role: Role,
    now_ms: i64,
    window_seconds: i64,
)
    requires
        state.config.encryption_enabled,
        state.client_key is Some || state.server_key is Some,
        sealable(envelope_bound(text)),
        is_manual_seal(state, text, ts, nonce, wire, form, key_role),
    ensures
        wire is Some,
        state.client_key is Some ==> key_role == Role::Client,
        carries(wire.unwrap(), key_of(state.key_for(key_role)).unwrap(), text, ts),
        is_fresh(now_ms, ts, window_seconds) ==> manual_incoming(
            true,
            key_of(state.client_key),
            key_of(state.server_key),
            window_seconds,
            wire.unwrap(),
            now_ms,
        ) == Some(Inbound { text, recorded: Some(ts) }),
{
}

/// Encrypts `message` at time `now_ms` with the given nonce, under the
/// client key where that succeeds and else under the server key.
pub fn encrypt_message_at(state: &WsState, message: &str, now_ms: i64, nonce: &[u8; 12]) -> (sealed:
    Option<ManualSeal>)
    ensures
        match sealed {
            Some(s) => is_manual_seal(
                *state,
                message@,
                now_ms,
                nonce@,
                Some(s.wire@),
                s.form,
                s.key_role,
            ),
            None => is_manual_seal(
                *state,
                message@,
                now_ms,
                nonce@,
                None,
                WireForm::Plain,
                Role::Client,
            ),
        },
{
    if !state.config.encryption_enabled {
        return Some(
            ManualSeal { wire: message.to_owned(), form: WireForm::Plain, key_role: Role::Client },
        );
    }
    if state.client_key.is_some() {
        let out = wrap_at(&state.config, &state.client_key, message, now_ms, nonce);
        match out.form {
            WireForm::Plain => {},
            _ => {
                return Some(ManualSeal { wire: out.wire, form: out.form, key_role: Role::Client });
            },
        }
    }
    if state.server_key.is_some() {
        let out = wrap_at(&state.config, &state.server_key, message, now_ms, nonce);
        match out.form {
            WireForm::Plain => {},
            _ => {
                return Some(ManualSeal { wire: out.wire, form: out.form, key_role: Role::Server });
            },
        }
    }
    None
}

/// Encrypts `message` with the system clock and a fresh nonce, under the
/// client key where that succeeds and else under the server key.
pub fn encrypt_message(state: &WsState, message: &str) -> (wire: Option<String>)
    ensures
        exists|now_ms: i64, nonce: Seq<u8>, form: WireForm, key_role: Role|
            nonce.len() == NONCE_LEN && #[trigger] is_manual_seal(
                *state,
                message@,
                now_ms,
                nonce,
                text_of(wire),
                form,
                key_role,
            ),
        !state.config.encryption_enabled ==> text_of(wire) == Some(message@),
        state.config.encryption_enabled && state.client_key is None && state.server_key is None
            ==> wire is None,
        state.config.encryption_enabled && sealable(envelope_bound(message@))
            && state.client_key is Some ==> wire is Some && exists|ts: i64| #[trigger]
            carries(wire.unwrap()@, key_of(state.client_key).unwrap(), message@, ts),
        state.config.encryption_enabled && sealable(envelope_bound(message@))
            && state.client_key is None && state.server_key is Some ==> wire is Some && exists|
            ts: i64,
        | #[trigger] carries(wire.unwrap()@, key_of(state.server_key).unwrap(), message@, ts),
{
    let now_ms = unix_millis();
    let nonce = fresh_nonce();
    match encrypt_message_at(state, message, now_ms, &nonce) {
        Some(sealed) => {
            assert(is_manual_seal(
                *state,
                message@,
                now_ms,
                nonce@,
                Some(sealed.wire@),
                sealed.form,
                sealed.key_role,
            ));
            Some(sealed.wire)
        },
        None => {
            assert(is_manual_seal(
                *state,
                message@,
                now_ms,
                nonce@,
                None,
                WireForm::Plain,
                Role::Client,
            ));
            None
        },
    }
}

/// What ad-hoc decryption yields at `now_ms`: with encryption off the text
/// as it is; else what unwrapping yields under the client key or, failing
/// that, under the server key.
pub open spec fn manual_incoming(
    enabled: bool,
    client_key: Option<Seq<u8>>,
    server_key: Option<Seq<u8>>,
    window_seconds: i64,
    wire: Seq<char>,
    now_ms: i64,
) -> Option<Inbound> {
    if !enabled {
        Some(Inbound { text: wire, recorded: None })
    } else {
        match incoming(true, client_key, window_seconds, wire, now_ms) {
            Some(inbound) => Some(inbound),
            None => incoming(true, server_key, window_seconds, wire, now_ms),
        }
    }
}

/// Decrypts `encrypted_message` at time `now_ms`, under the client key
/// where that yields a text and else under the server key. An accepted
/// envelope's timestamp is recorded under the ad-hoc source.
pub fn decrypt_message_at(state: &mut WsState, encrypted_message: &str, now_ms: i64) -> (text:
    Option<String>)
    ensures
        text_of(text) == handed_on(
            manual_incoming(
                old(state).config.encryption_enabled,
                key_of(old(state).client_key),
                key_of(old(state).server_key),
                old(state).config.replay_window,
                encrypted_message@,
                now_ms,
            ),
        ),
        final(state).replay@ == recorded_after(
            old(state).replay@,
            manual_source(),
            manual_incoming(
                old(state).config.encryption_enabled,
                key_of(old(state).client_key),
                key_of(old(state).server_key),
                old(state).config.replay_window,
                encrypted_message@,
                now_ms,
            ),
        ),
        *final(state) == (WsState { replay: final(state).replay, ..*old(state) }),
{
    if !state.config.encryption_enabled {
        return Some(encrypted_message.to_owned());
    }
    let first = unwrap_at(
        &state.config,
        &state.client_key,
        &mut state.replay,
        encrypted_message,
        "manual_decrypt",
        now_ms,
    );
    match first {
        Some(text) => Some(text),
        None => unwrap_at(
            &state.config,
            &state.server_key,
            &mut state.replay,
            encrypted_message,
            "manual_decrypt",
            now_ms,
        ),
    }
}

/// Decrypts `encrypted_message`, judged by the system clock.
pub fn decrypt_message(state: &mut WsState, encrypted_message: &str) -> (text: Option<String>)
    ensures
        exists|now_ms: i64|
            {
                let inbound = #[trigger] manual_incoming(
                    old(state).config.encryption_enabled,
                    key_of(old(state).client_key),
                    key_of(old(state).server_key),
                    old(state).config.replay_window,
                    encrypted_message@,
                    now_ms,
                );
                text_of(text) == handed_on(inbound) && final(state).replay@ == recorded_after(
                    old(state).replay@,
                    manual_source(),
                    inbound,
                )
            },
        !old(state).config.encryption_enabled ==> text_of(text) == Some(encrypted_message@),
        *final(state) == (WsState { replay: final(state).replay, ..*old(state) }),
{
    let now_ms = unix_millis();
    decrypt_message_at(state, encrypted_message, now_ms)
}

} // verus!
