//! The server's accept loop, as far as it decides: where to listen, whom to
//! admit, and how an admitted client enters the registry.

use crate::envelope::{borrowed_text, text_of};
use crate::events::{
    connection_event,
    connection_name,
    name_connection,
    EventType,
    Notification,
    NotificationView,
};
use crate::registry::{position_of, unix_seconds, ClientConnection};
use crate::state::{Role, WsState};
use vstd::prelude::*;

verus! {

/// Where and how a server listens.
pub struct ServerPlan {
    pub bind_addr: String,
    pub use_wss: bool,
    pub cert_pem_path: Option<String>,
    pub key_pem_path: Option<String>,
}

/// The address a server binds where the caller names none.
pub open spec fn default_bind_addr() -> Seq<char> {
    "0.0.0.0:8765"@
}

/// Validates the arguments of a server start. The secure variant needs both
/// the certificate's and the private key's path; the plain variant ignores
/// them. A missing address means the default one. The accept loop that runs
/// on the plan asks `decide_admission` for every connection it accepts.
pub fn start_ws_server(
    bind_addr: Option<&str>,
    use_wss: bool,
    cert_pem_path: Option<&str>,
    key_pem_path: Option<&str>,
) -> (plan: Option<ServerPlan>)
    ensures
        plan is Some <==> (use_wss ==> cert_pem_path is Some && key_pem_path is Some),
        plan matches Some(p) ==> {
            &&& p.use_wss == use_wss
            &&& p.bind_addr@ == (match bind_addr {
                Some(addr) => addr@,
                None => default_bind_addr(),
            })
            &&& text_of(p.cert_pem_path) == (if use_wss {
                borrowed_text(cert_pem_path)
            } else {
                None
            })
            &&& text_of(p.key_pem_path) == (if use_wss {
                borrowed_text(key_pem_path)
            } else {
                None
            })
        },
{
    let addr = match bind_addr {
        Some(addr) => addr.to_owned(),
        None => "0.0.0.0:8765".to_owned(),
    };
    if !use_wss {
        return Some(
            ServerPlan { bind_addr: addr, use_wss, cert_pem_path: None, key_pem_path: None },
        );
    }
    match (cert_pem_path, key_pem_path) {
        (Some(cert), Some(key)) => Some(
            ServerPlan {
                bind_addr: addr,
                use_wss,
                cert_pem_path: Some(cert.to_owned()),
                key_pem_path: Some(key.to_owned()),
            },
        ),
        _ => None,
    }
}

/// What becomes of a transport connection that was just accepted.
#[derive(Clone, Copy, Debug, PartialEq, Eq, Structural)]
pub enum Admission {
    /// Go on with the handshake under this fresh identifier.
    Accepted(u64),
    /// Close it at once, without a handshake.
    Refused,
}

/// What becomes of a connection accepted in `state`: refused at or above the
/// ceiling, and where the identifiers have run out; else given the next one.
pub open spec fn admission_of(state: WsState) -> Admission {
    if state.clients@.len() >= state.config.max_clients || state.next_client_id == u64::MAX {
        Admission::Refused
    } else {
        Admission::Accepted(state.next_client_id)
    }
}

/// Identifiers are unique: once one is given out, every later admission
/// gives a greater one.
pub proof fn identifiers_never_repeat(earlier: WsState, later: WsState)
    requires
        admission_of(earlier) is Accepted,
        later.next_client_id > earlier.next_client_id,
        admission_of(later) is Accepted,
    ensures
        admission_of(later)->Accepted_0 > admission_of(earlier)->Accepted_0,
{
}

/// Decides on an accepted transport connection. With as many clients
/// registered as the ceiling allows, or more, it is refused and nothing
/// changes. Otherwise it gets the next identifier, which no connection had
/// before; identifiers start at one and only grow. The ceiling is soft: the
/// client is registered later, once its handshake is through.
pub fn decide_admission(state: &mut WsState) -> (admission: Admission)
    ensures
        admission == admission_of(*old(state)),
        admission is Refused ==> *final(state) == *old(state),
        admission is Accepted ==> *final(state) == (WsState {
            next_client_id: (old(state).next_client_id + 1) as u64,
            ..*old(state)
        }),
{
    if state.clients.count() >= state.config.get_max_clients() {
        return Admission::Refused;
    }
    if state.next_client_id == u64::MAX {
        return Admission::Refused;
    }
    let id = state.next_client_id;
    state.next_client_id = id + 1;
    Admission::Accepted(id)
}

/// Where the handle of `client_id` stands once it is registered: where it
/// stood before, or behind all others.
pub open spec fn place_of(clients: Seq<ClientConnection>, client_id: u64) -> int {
    match position_of(clients, client_id) {
        Some(at) => at,
        None => clients.len() as int,
    }
}

/// Whether `after` is `before` with a handle for `client_id`, made at
/// `now_seconds` with nothing queued, registered.
pub open spec fn is_registration(
    before: Seq<ClientConnection>,
    client_id: u64,
    now_seconds: i64,
    after: Seq<ClientConnection>,
) -> bool {
    let at = place_of(before, client_id);
    &&& after.len() == (if position_of(before, client_id) is Some {
        before.len()
    } else {
        before.len() + 1
    })
    &&& forall|i: int| 0 <= i < before.len() && i != at ==> after[i] == before[i]
    &&& after[at].id == client_id
    &&& after[at].queued() == Seq::<Seq<char>>::empty()
    &&& after[at].connected_at == now_seconds
    &&& after[at].last_active == now_seconds
}

/// Registers, at `now_seconds`, a client whose handshake is through, with
/// nothing queued, and yields the connect event for the sink.
pub fn register_client_at(state: &mut WsState, client_id: u64, now_seconds: i64) -> (event:
    Notification)
    ensures
        event@ == (NotificationView {
            event_type: EventType::Connect,
            source: Role::Server,
            client_id: connection_name(Role::Server, client_id),
            message: "connected"@,
        }),
        final(state).clients.has(client_id),
        is_registration(old(state).clients@, client_id, now_seconds, final(state).clients@),
        final(state).config == old(state).config,
        final(state).server_key == old(state).server_key,
        final(state).client_key == old(state).client_key,
        final(state).replay == old(state).replay,
        final(state).next_client_id == old(state).next_client_id,
        final(state).client == old(state).client,
        final(state).log_level == old(state).log_level,
{
    let connection = ClientConnection::new_at(client_id, now_seconds);
    let ghost at = place_of(state.clients@, client_id);
    state.clients.insert(connection);
    assert(state.clients@[at].id == client_id);
    let name = name_connection(Role::Server, client_id);
    connection_event(Role::Server, name.as_str(), true)
}

/// Registers a client whose handshake is through, as of now.
pub fn register_client(state: &mut WsState, client_id: u64) -> (event: Notification)
    ensures
        event@ == (NotificationView {
            event_type: EventType::Connect,
            source: Role::Server,
            client_id: connection_name(Role::Server, client_id),
            message: "connected"@,
        }),
        final(state).clients.has(client_id),
        exists|now_seconds: i64| #[trigger]
            is_registration(old(state).clients@, client_id, now_seconds, final(state).clients@),
        final(state).config == old(state).config,
        final(state).server_key == old(state).server_key,
        final(state).client_key == old(state).client_key,
        final(state).replay == old(state).replay,
        final(state).next_client_id == old(state).next_client_id,
        final(state).client == old(state).client,
        final(state).log_level == old(state).log_level,
{
    register_client_at(state, client_id, unix_seconds())
}

} // verus!
