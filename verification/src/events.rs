//! What the notification sink is told: one structured event per message,
//! connect and disconnect.

use crate::foreign::{decimal_of, decimal_string, decimal_u64};
use crate::state::Role;
use vstd::prelude::*;

verus! {

/// The kind of an event.
#[derive(Clone, Copy, Debug, PartialEq, Eq, Structural)]
pub enum EventType {
    Message,
    Connect,
    Disconnect,
}

/// One event for the sink: its kind, the role that observed it, the
/// connection it belongs to (empty for the client role) and its payload.
pub struct Notification {
    pub event_type: EventType,
    pub source: Role,
    pub client_id: String,
    pub message: String,
}

/// What a notification holds.
pub ghost struct NotificationView {
    pub event_type: EventType,
    pub source: Role,
    pub client_id: Seq<char>,
    pub message: Seq<char>,
}

impl View for Notification {
    type V = NotificationView;

    open spec fn view(&self) -> NotificationView {
        NotificationView {
            event_type: self.event_type,
            source: self.source,
            client_id: self.client_id@,
            message: self.message@,
        }
    }
}

/// The name under which a connection appears in events and in the freshness
/// record: the identifier in decimal for a server's client, empty for the
/// client's own connection.
pub open spec fn connection_name(role: Role, connection_id: u64) -> Seq<char> {
    match role {
        Role::Server => decimal_of(connection_id),
        Role::Client => Seq::empty(),
    }
}

/// The payload of a connect or disconnect event.
pub open spec fn connection_payload(connected: bool) -> Seq<char> {
    if connected {
        "connected"@
    } else {
        "disconnected"@
    }
}

/// Writes the name of a connection. The name of a server's client reads
/// back as its identifier.
pub fn name_connection(role: Role, connection_id: u64) -> (name: String)
    ensures
        name@ == connection_name(role, connection_id),
        role == Role::Server ==> decimal_u64(name@) == Some(connection_id),
{
    match role {
        Role::Server => decimal_string(connection_id),
        Role::Client => String::new(),
    }
}

/// The event for a message received on a connection.
pub fn message_event(source: Role, client_id: &str, message: &str) -> (event: Notification)
    ensures
        event@ == (NotificationView {
            event_type: EventType::Message,
            source,
            client_id: client_id@,
            message: message@,
        }),
{
    Notification {
        event_type: EventType::Message,
        source,
        client_id: client_id.to_owned(),
        message: message.to_owned(),
    }
}

/// The event for a connection that came up or went down.
pub fn connection_event(source: Role, client_id: &str, connected: bool) -> (event: Notification)
    ensures
        event@ == (NotificationView {
            event_type: if connected {
                EventType::Connect
            } else {
                EventType::Disconnect
            },
            source,
            client_id: client_id@,
            message: connection_payload(connected),
        }),
{
    Notification {
        event_type: if connected {
            EventType::Connect
        } else {
            EventType::Disconnect
        },
        source,
        client_id: client_id.to_owned(),
        message: if connected {
            "connected".to_owned()
        } else {
            "disconnected".to_owned()
        },
    }
}

} // verus!
