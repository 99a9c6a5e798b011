//! The life of one connection: what its reader, its heartbeat and its writer
//! do on each event, and how it is torn down exactly once.
//!
//! The caller owns the transport and the timers. It reports each event and
//! performs the action that comes back.

use crate::envelope::key_of;
use crate::events::{
    connection_event,
    connection_name,
    message_event,
    name_connection,
    EventType,
    Notification,
    NotificationView,
};
use crate::foreign::unix_millis;
use crate::pipeline::{
    handed_on,
    incoming,
    is_wire_for,
    recorded_after,
    server_source,
    unwrap_at,
};
use crate::registry::{position_is_unique, position_of, to_seconds, whole_seconds};
use crate::state::{Role, WsState};
use vstd::prelude::*;

verus! {

/// Where a connection stands in its life.
#[derive(Clone, Copy, Debug, PartialEq, Eq, Structural)]
pub enum ConnectionState {
    Handshaking,
    Active,
    Closing,
    Closed,
}

/// What the reader duty can observe while it waits: a frame, the end of the
/// stream, a transport error, the read timeout or the heartbeat tick.
pub enum ReaderEvent {
    Text(String),
    Ping(Vec<u8>),
    Close,
    OtherFrame,
    StreamEnded,
    TransportError,
    ReadTimeout,
    HeartbeatTick,
}

/// What the caller is to do after an event.
pub enum ReaderAction {
    /// Hand the event to the notification sink.
    Deliver(Notification),
    /// Nothing; keep waiting.
    Ignore,
    /// Answer a ping with a pong that carries the same bytes.
    ReplyPong(Vec<u8>),
    /// Send a heartbeat ping without payload.
    SendPing,
    /// Stop both duties and tear the connection down.
    Close,
}

/// The state after an event, and what to do.
pub struct Step {
    pub next: ConnectionState,
    pub action: ReaderAction,
}

impl ReaderEvent {
    /// Whether the event ends the connection: a close frame, the end of the
    /// stream, a transport error or a read that timed out.
    pub open spec fn is_fatal(self) -> bool {
        self is Close || self is StreamEnded || self is TransportError || self is ReadTimeout
    }
}

/// The source under which a role records what it accepts on a connection.
pub open spec fn source_name(role: Role, connection_id: u64) -> Seq<char> {
    match role {
        Role::Server => connection_name(role, connection_id),
        Role::Client => server_source(),
    }
}

/// Whether a connection is open: registered, for a server's client;
/// connected, for the client's own.
pub open spec fn is_open(state: WsState, role: Role, connection_id: u64) -> bool {
    match role {
        Role::Server => state.clients.has(connection_id),
        Role::Client => state.client.connected,
    }
}

/// Whether a connection has been idle for the read timeout at `now_ms`: no
/// frame of any kind has come in since `last_frame_ms`, for at least
/// `read_timeout_seconds`. Heartbeat ticks in between change nothing of it.
pub open spec fn is_idle(last_frame_ms: i64, now_ms: i64, read_timeout_seconds: u64) -> bool {
    now_ms as int - last_frame_ms as int >= read_timeout_seconds as int * 1000
}

/// The milliseconds that a connection may stay without a frame from
/// `now_ms` on before it has been idle for the read timeout; as many as the
/// result can hold where there are more.
pub open spec fn idle_left(last_frame_ms: i64, now_ms: i64, read_timeout_seconds: u64) -> int {
    let left = read_timeout_seconds as int * 1000 - (now_ms as int - last_frame_ms as int);
    if left < 0 {
        0
    } else if left > u64::MAX {
        u64::MAX as int
    } else {
        left
    }
}

/// Decides whether the read timeout has run out since the last frame.
pub fn idle_expired(last_frame_ms: i64, now_ms: i64, read_timeout_seconds: u64) -> (expired: bool)
    ensures
        expired == (now_ms as int - last_frame_ms as int >= read_timeout_seconds as int * 1000),
        expired == is_idle(last_frame_ms, now_ms, read_timeout_seconds),
{
    let idle: i128 = now_ms as i128 - last_frame_ms as i128;
    let limit: i128 = read_timeout_seconds as i128 * 1000;
    idle >= limit
}

/// How long the reader may still wait for a frame, in milliseconds.
pub fn idle_remaining_ms(last_frame_ms: i64, now_ms: i64, read_timeout_seconds: u64) -> (left: u64)
    ensures
        left == idle_left(last_frame_ms, now_ms, read_timeout_seconds),
        left == 0 <==> is_idle(last_frame_ms, now_ms, read_timeout_seconds),
{
    let idle: i128 = now_ms as i128 - last_frame_ms as i128;
    let limit: i128 = read_timeout_seconds as i128 * 1000;
    let left: i128 = limit - idle;
    if left < 0 {
        0
    } else if left > u64::MAX as i128 {
        u64::MAX
    } else {
        left as u64
    }
}

/// What a heartbeat tick at `now_ms` means for the reader: the read timeout
/// where the connection has been idle for it, else the tick itself.
pub fn tick_event(last_frame_ms: i64, now_ms: i64, read_timeout_seconds: u64) -> (event:
    ReaderEvent)
    ensures
        is_idle(last_frame_ms, now_ms, read_timeout_seconds) ==> event is ReadTimeout,
        !is_idle(last_frame_ms, now_ms, read_timeout_seconds) ==> event is HeartbeatTick,
{
    if idle_expired(last_frame_ms, now_ms, read_timeout_seconds) {
        ReaderEvent::ReadTimeout
    } else {
        ReaderEvent::HeartbeatTick
    }
}

/// Tells whether a connection is open.
pub fn is_connection_open(state: &WsState, role: Role, connection_id: u64) -> (open: bool)
    ensures
        open == is_open(*state, role, connection_id),
{
    match role {
        Role::Server => state.clients.contains(connection_id),
        Role::Client => state.client.connected,
    }
}

/// Whether `after` and `step` are what one event of the reader and
/// heartbeat duties leaves of `before` at time `now_ms`.
///
/// Only an active connection reacts. A text frame is unwrapped under the
/// role's key: what comes out is delivered as a message event and counts as
/// activity of a server's client; a frame that does not unwrap is dropped
/// and the connection stays open. A ping is answered with its own bytes, a
/// tick sends a ping, other frames are ignored, and every fatal event starts
/// the teardown. Nothing but a text frame changes the state.
pub open spec fn is_reader_step(
    before: WsState,
    role: Role,
    connection_id: u64,
    current: ConnectionState,
    event: ReaderEvent,
    now_ms: i64,
    after: WsState,
    step: Step,
) -> bool {
    if current != ConnectionState::Active {
        step.next == current && step.action is Ignore && after == before
    } else {
        match event {
            ReaderEvent::Close
            | ReaderEvent::StreamEnded
            | ReaderEvent::TransportError
            | ReaderEvent::ReadTimeout => step.next == ConnectionState::Closing
                && step.action is Close && after == before,
            ReaderEvent::HeartbeatTick => step.next == ConnectionState::Active
                && step.action is SendPing && after == before,
            ReaderEvent::Ping(data) => step.next == ConnectionState::Active && step.action
                == ReaderAction::ReplyPong(data) && after == before,
            ReaderEvent::OtherFrame => step.next == ConnectionState::Active
                && step.action is Ignore && after == before,
            ReaderEvent::Text(wire) => {
                let inbound = incoming(
                    before.config.encryption_enabled,
                    key_of(before.key_for(role)),
                    before.config.replay_window,
                    wire@,
                    now_ms,
                );
                &&& step.next == ConnectionState::Active
                &&& after.replay@ == recorded_after(
                    before.replay@,
                    source_name(role, connection_id),
                    inbound,
                )
                &&& match handed_on(inbound) {
                    Some(text) => step.action matches ReaderAction::Deliver(notice) && notice@ == (
                    NotificationView {
                        event_type: EventType::Message,
                        source: role,
                        client_id: connection_name(role, connection_id),
                        message: text,
                    }),
                    None => step.action is Ignore,
                }
                &&& after.config == before.config
                &&& after.server_key == before.server_key
                &&& after.client_key == before.client_key
                &&& after.next_client_id == before.next_client_id
                &&& after.client == before.client
                &&& after.log_level == before.log_level
                &&& after.clients@.len() == before.clients@.len()
                &&& forall|id: u64| after.clients.has(id) == before.clients.has(id)
                &&& forall|i: int|
                    #![trigger after.clients@[i]]
                    0 <= i < before.clients@.len() ==> {
                        let earlier = before.clients@[i];
                        let later = after.clients@[i];
                        &&& later.id == earlier.id
                        &&& later.connected_at == earlier.connected_at
                        &&& later.outbound == earlier.outbound
                        &&& later.last_active == (if role == Role::Server && earlier.id
                            == connection_id && handed_on(inbound) is Some {
                            whole_seconds(now_ms)
                        } else {
                            earlier.last_active
                        })
                    }
            },
        }
    }
}

/// Heartbeat: on an active connection every tick sends a ping, keeps the
/// connection active and changes nothing.
pub proof fn tick_sends_ping(
    before: WsState,
    role: Role,
    connection_id: u64,
    event: ReaderEvent,
    now_ms: i64,
    after: WsState,
    step: Step,
)
    requires
        event is HeartbeatTick,
        is_reader_step(
            before,
            role,
            connection_id,
            ConnectionState::Active,
            event,
            now_ms,
            after,
            step,
        ),
    ensures
        step.action is SendPing,
        step.next == ConnectionState::Active,
        after == before,
{
}

/// Read timeout: on an active connection the timeout starts the teardown
/// and changes nothing else; what is emitted is left to the teardown, which
/// emits once.
pub proof fn timeout_closes(
    before: WsState,
    role: Role,
    connection_id: u64,
    event: ReaderEvent,
    now_ms: i64,
    after: WsState,
    step: Step,
)
    requires
        event is ReadTimeout,
        is_reader_step(
            before,
            role,
            connection_id,
            ConnectionState::Active,
            event,
            now_ms,
            after,
            step,
        ),
    ensures
        step.action is Close,
        step.next == ConnectionState::Closing,
        after == before,
{
}

/// With encryption off on both sides, a text that a peer queued and its
/// writer drained reaches the sink of the receiving role as a message event
/// with that text as payload, named after the connection.
pub proof fn plain_text_is_delivered(
    text: Seq<char>,
    sender_key: Option<Seq<u8>>,
    queued: Seq<char>,
    frame: Seq<char>,
    before: WsState,
    role: Role,
    connection_id: u64,
    event: ReaderEvent,
    now_ms: i64,
    after: WsState,
    step: Step,
)
    requires
        is_wire_for(false, sender_key, text, queued),
        is_wire_for(false, sender_key, queued, frame),
        !before.config.encryption_enabled,
        event matches ReaderEvent::Text(wire) && wire@ == frame,
        is_reader_step(
            before,
            role,
            connection_id,
            ConnectionState::Active,
            event,
            now_ms,
            after,
            step,
        ),
    ensures
        step.next == ConnectionState::Active,
        step.action matches ReaderAction::Deliver(notice) && notice@ == (NotificationView {
            event_type: EventType::Message,
            source: role,
            client_id: connection_name(role, connection_id),
            message: text,
        }),
{
}

/// Handles one event of the reader and heartbeat duties at time `now_ms`.
pub fn on_reader_event_at(
    state: &mut WsState,
    role: Role,
    connection_id: u64,
    current: ConnectionState,
    event: ReaderEvent,
    now_ms: i64,
) -> (step: Step)
    ensures
        is_reader_step(
            *old(state),
            role,
            connection_id,
            current,
            event,
            now_ms,
            *final(state),
            step,
        ),
{
    if current != ConnectionState::Active {
        return Step { next: current, action: ReaderAction::Ignore };
    }
    match event {
        ReaderEvent::Close | ReaderEvent::StreamEnded | ReaderEvent::TransportError
        | ReaderEvent::ReadTimeout => Step {
            next: ConnectionState::Closing,
            action: ReaderAction::Close,
        },
        ReaderEvent::HeartbeatTick => Step {
            next: ConnectionState::Active,
            action: ReaderAction::SendPing,
        },
        ReaderEvent::Ping(data) => Step {
            next: ConnectionState::Active,
            action: ReaderAction::ReplyPong(data),
        },
        ReaderEvent::OtherFrame => Step {
            next: ConnectionState::Active,
            action: ReaderAction::Ignore,
        },
        ReaderEvent::Text(wire) => {
            let name = name_connection(role, connection_id);
            let unwrapped = match role {
                Role::Server => unwrap_at(
                    &state.config,
                    &state.server_key,
                    &mut state.replay,
                    wire.as_str(),
                    name.as_str(),
                    now_ms,
                ),
                Role::Client => unwrap_at(
                    &state.config,
                    &state.client_key,
                    &mut state.replay,
                    wire.as_str(),
                    "server",
                    now_ms,
                ),
            };
            match unwrapped {
                Some(text) => {
                    let ghost before = state.clients@;
                    match role {
                        Role::Server => {
                            state.clients.touch(connection_id, to_seconds(now_ms));
                        },
                        Role::Client => {},
                    }
                    proof {
                        let after = state.clients@;
                        assert forall|i: int| 0 <= i < before.len() && before[i].id
                            == connection_id && role == Role::Server implies position_of(
                            before,
                            connection_id,
                        ) == Some(i) by {
                            position_is_unique(before, i);
                        }
                        assert forall|id: u64| position_of(after, id) is Some <==> position_of(
                            before,
                            id,
                        ) is Some by {
                            if position_of(before, id) is Some {
                                let i = position_of(before, id).unwrap();
                                assert(after[i].id == id);
                            }
                            if position_of(after, id) is Some {
                                let i = position_of(after, id).unwrap();
                                assert(before[i].id == id);
                            }
                        }
                    }
                    Step {
                        next: ConnectionState::Active,
                        action: ReaderAction::Deliver(
                            message_event(role, name.as_str(), text.as_str()),
                        ),
                    }
                },
                None => Step { next: ConnectionState::Active, action: ReaderAction::Ignore },
            }
        },
    }
}

/// Handles one event of the reader and heartbeat duties, judged by the
/// system clock.
pub fn on_reader_event(
    state: &mut WsState,
    role: Role,
    connection_id: u64,
    current: ConnectionState,
    event: ReaderEvent,
) -> (step: Step)
    ensures
        exists|now_ms: i64| #[trigger]
            is_reader_step(
                *old(state),
                role,
                connection_id,
                current,
                event,
                now_ms,
                *final(state),
                step,
            ),
        current == ConnectionState::Active && event.is_fatal() ==> step.next
            == ConnectionState::Closing && step.action is Close && *final(state) == *old(state),
        current == ConnectionState::Active && event is HeartbeatTick ==> step.next
            == ConnectionState::Active && step.action is SendPing && *final(state) == *old(state),
{
    let now_ms = unix_millis();
    on_reader_event_at(state, role, connection_id, current, event, now_ms)
}

/// Whether `after` is what a teardown of the connection leaves of `before`,
/// and `emitted` whether that teardown was the first: the connection is
/// closed afterwards, a server's client has left the registry, the client's
/// own connection has lost its queue, and nothing else has changed.
pub open spec fn is_teardown(
    before: WsState,
    role: Role,
    connection_id: u64,
    after: WsState,
    emitted: bool,
) -> bool {
    &&& emitted == is_open(before, role, connection_id)
    &&& !is_open(after, role, connection_id)
    &&& after.config == before.config
    &&& after.server_key == before.server_key
    &&& after.client_key == before.client_key
    &&& after.replay == before.replay
    &&& after.next_client_id == before.next_client_id
    &&& after.log_level == before.log_level
    &&& match role {
        Role::Server => after.client == before.client && match position_of(
            before.clients@,
            connection_id,
        ) {
            Some(at) => after.clients@ == before.clients@.remove(at),
            None => after.clients@ == before.clients@,
        },
        Role::Client => {
            &&& after.clients == before.clients
            &&& after.client.url == before.client.url
            &&& after.client.reconnect == before.client.reconnect
            &&& before.client.connected ==> after.client.outbound is None
            &&& !before.client.connected ==> after.client.outbound == before.client.outbound
        },
    }
}

/// A connection is torn down once: after one teardown, a second emits
/// nothing and leaves the registry and the client's slot as they were.
pub proof fn teardown_emits_once(
    before: WsState,
    between: WsState,
    after: WsState,
    role: Role,
    connection_id: u64,
    first: bool,
    second: bool,
)
    requires
        is_teardown(before, role, connection_id, between, first),
        is_teardown(between, role, connection_id, after, second),
    ensures
        !second,
        after.clients@ == between.clients@,
        after.client.connected == between.client.connected,
        after.client.outbound == between.client.outbound,
{
}

/// Starts the teardown of a connection and tells whether this call was the
/// first to do so: only then is there a disconnect event to emit. A server's
/// client leaves the registry; the client's own connection clears its flag
/// and drops its queue.
pub fn close_connection(state: &mut WsState, role: Role, connection_id: u64) -> (event: Option<
    Notification,
>)
    ensures
        is_teardown(*old(state), role, connection_id, *final(state), event is Some),
        event matches Some(notice) ==> notice@ == (NotificationView {
            event_type: EventType::Disconnect,
            source: role,
            client_id: connection_name(role, connection_id),
            message: "disconnected"@,
        }),
{
    match role {
        Role::Server => match state.clients.remove(connection_id) {
            Some(_) => {
                let name = name_connection(role, connection_id);
                Some(connection_event(role, name.as_str(), false))
            },
            None => None,
        },
        Role::Client => {
            if state.client.connected {
                state.client.connected = false;
                state.client.outbound = None;
                proof {
                    reveal_strlit("");
                    assert(""@ =~= Seq::<char>::empty());
                }
                Some(connection_event(role, "", false))
            } else {
                None
            }
        },
    }
}

/// The state of a connection once its teardown has been carried out.
pub fn finish_close(current: ConnectionState) -> (next: ConnectionState)
    ensures
        next == (if current == ConnectionState::Closing {
            ConnectionState::Closed
        } else {
            current
        }),
{
    match current {
        ConnectionState::Closing => ConnectionState::Closed,
        other => other,
    }
}

/// The state of a connection after its writer tried to send: a failed send
/// on an active connection starts the teardown; nothing else changes.
pub fn on_send_result(current: ConnectionState, sent: bool) -> (next: ConnectionState)
    ensures
        next == (if current == ConnectionState::Active && !sent {
            ConnectionState::Closing
        } else {
            current
        }),
{
    if !sent {
        match current {
            ConnectionState::Active => ConnectionState::Closing,
            other => other,
        }
    } else {
        current
    }
}

} // verus!
