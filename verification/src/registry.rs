//! Server-side bookkeeping: one handle per connected client, found by its
//! identifier, kept in the order in which the clients arrived. The handles
//! stand in a vector, because a broadcast walks all of them and changes the
//! queue of each in place.

use crate::foreign::unix_millis;
use std::collections::VecDeque;
use vstd::prelude::*;

verus! {

/// The handle of one client connection: its identifier, the messages queued
/// for its writer, and when it connected and was last active, in seconds
/// since the Unix epoch.
pub struct ClientConnection {
    pub id: u64,
    pub outbound: VecDeque<String>,
    pub connected_at: i64,
    pub last_active: i64,
}

/// The whole seconds in a number of milliseconds, rounded towards zero.
pub open spec fn whole_seconds(millis: i64) -> i64 {
    if millis >= 0 {
        (millis / 1000) as i64
    } else {
        (-((-millis) / 1000)) as i64
    }
}

/// Converts milliseconds to whole seconds.
pub fn to_seconds(millis: i64) -> (seconds: i64)
    ensures
        seconds == whole_seconds(millis),
{
    millis / 1000
}

/// The system clock in whole seconds since the Unix epoch: the whole
/// seconds of what the clock reads in milliseconds.
pub(crate) fn unix_seconds() -> (seconds: i64)
    ensures
        exists|millis: i64| seconds == #[trigger] whole_seconds(millis),
{
    to_seconds(unix_millis())
}

impl ClientConnection {
    /// The texts queued for the writer, oldest first.
    pub open spec fn queued(self) -> Seq<Seq<char>> {
        Seq::new(self.outbound@.len(), |i: int| self.outbound@[i]@)
    }

    /// A handle for a connection made at `now_seconds`, with nothing queued.
    pub fn new_at(id: u64, now_seconds: i64) -> (connection: ClientConnection)
        ensures
            connection.id == id,
            connection.queued() == Seq::<Seq<char>>::empty(),
            connection.connected_at == now_seconds,
            connection.last_active == now_seconds,
    {
        let connection = ClientConnection {
            id,
            outbound: VecDeque::new(),
            connected_at: now_seconds,
            last_active: now_seconds,
        };
        assert(connection.queued() =~= Seq::<Seq<char>>::empty());
        connection
    }

    /// A handle for a connection made now, with nothing queued.
    pub fn new(id: u64) -> (connection: ClientConnection)
        ensures
            connection.id == id,
            connection.queued() == Seq::<Seq<char>>::empty(),
            connection.last_active == connection.connected_at,
    {
        ClientConnection::new_at(id, unix_seconds())
    }

    /// Notes activity at `now_seconds`.
    pub fn update_activity_at(&mut self, now_seconds: i64)
        ensures
            final(self).last_active == now_seconds,
            final(self).id == old(self).id,
            final(self).outbound == old(self).outbound,
            final(self).connected_at == old(self).connected_at,
    {
        self.last_active = now_seconds;
    }

    /// Notes activity now: the time of last activity becomes the whole
    /// seconds of what the clock reads in milliseconds.
    pub fn update_activity(&mut self)
        ensures
            exists|millis: i64| final(self).last_active == #[trigger] whole_seconds(millis),
            final(self).id == old(self).id,
            final(self).outbound == old(self).outbound,
            final(self).connected_at == old(self).connected_at,
    {
        self.update_activity_at(unix_seconds());
    }

    pub fn get_connected_at(&self) -> (seconds: i64)
        ensures
            seconds == self.connected_at,
    {
        self.connected_at
    }

    pub fn get_last_active(&self) -> (seconds: i64)
        ensures
            seconds == self.last_active,
    {
        self.last_active
    }

    pub fn get_id(&self) -> (id: u64)
        ensures
            id == self.id,
    {
        self.id
    }

    /// Queues a wire text behind those already waiting for the writer.
    pub fn send(&mut self, wire: String)
        ensures
            final(self).queued() == old(self).queued().push(wire@),
            final(self).id == old(self).id,
            final(self).connected_at == old(self).connected_at,
            final(self).last_active == old(self).last_active,
    {
        self.outbound.push_back(wire);
        assert(self.queued() =~= old(self).queued().push(wire@));
    }

    /// Takes the oldest queued wire text, if any is waiting.
    pub fn next_outbound(&mut self) -> (wire: Option<String>)
        ensures
            final(self).id == old(self).id,
            final(self).connected_at == old(self).connected_at,
            final(self).last_active == old(self).last_active,
            match wire {
                Some(w) => old(self).queued().len() > 0 && w@ == old(self).queued()[0]
                    && final(self).queued() == old(self).queued().drop_first(),
                None => old(self).queued().len() == 0 && final(self).queued() == old(
                    self,
                ).queued(),
            },
    {
        let wire = self.outbound.pop_front();
        assert(wire is Some ==> self.queued() =~= old(self).queued().drop_first());
        assert(wire is None ==> self.queued() =~= old(self).queued());
        wire
    }
}

/// Where the handle of `id` stands in a sequence of handles, if it does.
pub open spec fn position_of(connections: Seq<ClientConnection>, id: u64) -> Option<int> {
    if exists|i: int| 0 <= i < connections.len() && connections[i].id == id {
        Some(choose|i: int| 0 <= i < connections.len() && connections[i].id == id)
    } else {
        None
    }
}

/// No identifier occurs twice.
pub open spec fn distinct_ids(connections: Seq<ClientConnection>) -> bool {
    forall|i: int, j: int|
        0 <= i < j < connections.len() ==> connections[i].id != connections[j].id
}

/// In a sequence without repeated identifiers, the handle at `i` is the one
/// that `position_of` finds for its identifier.
pub proof fn position_is_unique(connections: Seq<ClientConnection>, i: int)
    requires
        distinct_ids(connections),
        0 <= i < connections.len(),
    ensures
        position_of(connections, connections[i].id) == Some(i),
{
    let id = connections[i].id;
    let chosen = choose|c: int| 0 <= c < connections.len() && connections[c].id == id;
    assert(chosen == i) by {
        if chosen < i {
            assert(connections[chosen].id != connections[i].id);
        }
        if i < chosen {
            assert(connections[i].id != connections[chosen].id);
        }
    }
}

/// The connections of a server, by identifier.
pub struct ConnectionRegistry {
    connections: Vec<ClientConnection>,
}

impl View for ConnectionRegistry {
    type V = Seq<ClientConnection>;

    /// The handles in order of arrival.
    closed spec fn view(&self) -> Seq<ClientConnection> {
        self.connections@
    }
}

impl ConnectionRegistry {
    #[verifier::type_invariant]
    spec fn well_formed(self) -> bool {
        distinct_ids(self.connections@)
    }

    /// Whether a connection with this identifier is registered.
    pub open spec fn has(self, id: u64) -> bool {
        position_of(self@, id) is Some
    }

    /// A registry without connections.
    pub fn new() -> (registry: ConnectionRegistry)
        ensures
            registry@ == Seq::<ClientConnection>::empty(),
    {
        ConnectionRegistry { connections: Vec::new() }
    }

    /// How many connections are registered. No identifier is registered twice.
    pub fn count(&self) -> (n: usize)
        ensures
            n == self@.len(),
            distinct_ids(self@),
    {
        proof {
            use_type_invariant(self);
        }
        self.connections.len()
    }

    /// The index of the handle of `id`, or the number of handles where there is none.
    fn find(&self, id: u64) -> (at: usize)
        ensures
            at <= self@.len(),
            at < self@.len() ==> position_of(self@, id) == Some(at as int) && self@[at as int].id
                == id,
            at == self@.len() ==> position_of(self@, id) is None,
    {
        proof {
            use_type_invariant(self);
        }
        let mut i: usize = 0;
        while i < self.connections.len()
            invariant
                i <= self.connections@.len(),
                distinct_ids(self.connections@),
                forall|j: int| 0 <= j < i ==> self.connections@[j].id != id,
            decreases self.connections@.len() - i,
        {
            if self.connections[i].id == id {
                proof {
                    position_is_unique(self.connections@, i as int);
                }
                return i;
            }
            i += 1;
        }
        i
    }

    /// Whether a connection with this identifier is registered.
    pub fn contains(&self, id: u64) -> (present: bool)
        ensures
            present == self.has(id),
    {
        self.find(id) < self.connections.len()
    }

    /// The handle of `id`, if it is registered.
    pub fn get(&self, id: u64) -> (connection: Option<&ClientConnection>)
        ensures
            match connection {
                Some(c) => position_of(self@, id) matches Some(i) && self@[i] == *c && c.id == id,
                None => !self.has(id),
            },
    {
        let at = self.find(id);
        if at < self.connections.len() {
            Some(&self.connections[at])
        } else {
            None
        }
    }

    /// The identifiers of all connections, in order of arrival.
    pub fn ids(&self) -> (ids: Vec<u64>)
        ensures
            ids@.len() == self@.len(),
            forall|i: int| 0 <= i < self@.len() ==> ids@[i] == self@[i].id,
    {
        let mut ids: Vec<u64> = Vec::new();
        let mut i: usize = 0;
        while i < self.connections.len()
            invariant
                i <= self.connections@.len(),
                ids@.len() == i,
                forall|j: int| 0 <= j < i ==> ids@[j] == self.connections@[j].id,
            decreases self.connections@.len() - i,
        {
            ids.push(self.connections[i].id);
            i += 1;
        }
        ids
    }

    /// Registers a handle. One already registered under the same identifier
    /// is replaced where it stands; a new one goes to the end.
    pub fn insert(&mut self, connection: ClientConnection)
        ensures
            match position_of(old(self)@, connection.id) {
                Some(i) => final(self)@ == old(self)@.update(i, connection),
                None => final(self)@ == old(self)@.push(connection),
            },
    {
        let at = self.find(connection.id);
        proof {
            use_type_invariant(&*self);
        }
        let mut connections: Vec<ClientConnection> = Vec::new();
        core::mem::swap(&mut self.connections, &mut connections);
        if at < connections.len() {
            connections.set(at, connection);
        } else {
            connections.push(connection);
        }
        core::mem::swap(&mut self.connections, &mut connections);
    }

    /// Removes the handle of `id` and hands it out. Nothing changes where
    /// the identifier is not registered.
    pub fn remove(&mut self, id: u64) -> (removed: Option<ClientConnection>)
        ensures
            match position_of(old(self)@, id) {
                Some(i) => removed == Some(old(self)@[i]) && final(self)@ == old(self)@.remove(i),
                None => removed is None && final(self)@ == old(self)@,
            },
            !final(self).has(id),
    {
        let at = self.find(id);
        proof {
            use_type_invariant(&*self);
        }
        if at >= self.connections.len() {
            return None;
        }
        let mut connections: Vec<ClientConnection> = Vec::new();
        core::mem::swap(&mut self.connections, &mut connections);
        let removed = connections.remove(at);
        core::mem::swap(&mut self.connections, &mut connections);
        assert(position_of(self@, id) is None) by {
            if exists|i: int| 0 <= i < self@.len() && self@[i].id == id {
                let i = choose|i: int| 0 <= i < self@.len() && self@[i].id == id;
                if i < at {
                    assert(old(self)@[i].id == id);
                } else {
                    assert(old(self)@[i + 1].id == id);
                }
            }
        }
        Some(removed)
    }

    /// Queues `wire` for the `index`-th connection and, where `touch` holds,
    /// notes its activity at `now_seconds`.
    pub(crate) fn send_at(&mut self, index: usize, wire: String, touch: bool, now_seconds: i64)
        requires
            index < old(self)@.len(),
        ensures
            final(self)@.len() == old(self)@.len(),
            forall|i: int|
                0 <= i < old(self)@.len() && i != index ==> final(self)@[i] == old(self)@[i],
            final(self)@[index as int].id == old(self)@[index as int].id,
            final(self)@[index as int].connected_at == old(self)@[index as int].connected_at,
            final(self)@[index as int].queued() == old(self)@[index as int].queued().push(wire@),
            final(self)@[index as int].last_active == (if touch {
                now_seconds
            } else {
                old(self)@[index as int].last_active
            }),
    {
        proof {
            use_type_invariant(&*self);
        }
        let mut connections: Vec<ClientConnection> = Vec::new();
        core::mem::swap(&mut self.connections, &mut connections);
        let mut connection = connections.remove(index);
        connection.send(wire);
        if touch {
            connection.update_activity_at(now_seconds);
        }
        connections.insert(index, connection);
        assert(connections@.len() == old(self)@.len());
        assert forall|i: int| 0 <= i < connections@.len() implies connections@[i].id == old(
            self,
        )@[i].id by {}
        core::mem::swap(&mut self.connections, &mut connections);
    }

    /// Queues `wire` for the connection `id` and, where `touch` holds, notes
    /// its activity at `now_seconds`. Nothing changes, and the answer is no,
    /// where the identifier is not registered.
    pub fn send_to(&mut self, id: u64, wire: String, touch: bool, now_seconds: i64) -> (sent: bool)
        ensures
            sent == old(self).has(id),
            final(self)@.len() == old(self)@.len(),
            match position_of(old(self)@, id) {
                None => final(self)@ == old(self)@,
                Some(at) => {
                    &&& forall|i: int|
                        0 <= i < old(self)@.len() && i != at ==> final(self)@[i] == old(self)@[i]
                    &&& final(self)@[at].id == id
                    &&& final(self)@[at].connected_at == old(self)@[at].connected_at
                    &&& final(self)@[at].queued() == old(self)@[at].queued().push(wire@)
                    &&& final(self)@[at].last_active == (if touch {
                        now_seconds
                    } else {
                        old(self)@[at].last_active
                    })
                },
            },
    {
        let at = self.find(id);
        if at >= self.connections.len() {
            return false;
        }
        self.send_at(at, wire, touch, now_seconds);
        true
    }

    /// Notes activity of the connection `id` at `now_seconds`. Nothing
    /// changes, and the answer is no, where the identifier is not registered.
    pub fn touch(&mut self, id: u64, now_seconds: i64) -> (touched: bool)
        ensures
            touched == old(self).has(id),
            distinct_ids(old(self)@),
            final(self)@.len() == old(self)@.len(),
            match position_of(old(self)@, id) {
                None => final(self)@ == old(self)@,
                Some(at) => {
                    &&& forall|i: int|
                        0 <= i < old(self)@.len() && i != at ==> final(self)@[i] == old(self)@[i]
                    &&& final(self)@[at].id == id
                    &&& final(self)@[at].connected_at == old(self)@[at].connected_at
                    &&& final(self)@[at].outbound == old(self)@[at].outbound
                    &&& final(self)@[at].last_active == now_seconds
                },
            },
    {
        let at = self.find(id);
        proof {
            use_type_invariant(&*self);
        }
        if at >= self.connections.len() {
            return false;
        }
        let mut connections: Vec<ClientConnection> = Vec::new();
        core::mem::swap(&mut self.connections, &mut connections);
        let mut connection = connections.remove(at);
        connection.update_activity_at(now_seconds);
        connections.insert(at, connection);
        assert(connections@.len() == old(self)@.len());
        assert forall|i: int| 0 <= i < connections@.len() implies connections@[i].id == old(
            self,
        )@[i].id by {}
        core::mem::swap(&mut self.connections, &mut connections);
        true
    }

    /// Takes the oldest wire text queued for `id`, if the connection is
    /// registered and has one waiting.
    pub fn next_outbound(&mut self, id: u64) -> (wire: Option<String>)
        ensures
            final(self)@.len() == old(self)@.len(),
            match position_of(old(self)@, id) {
                None => wire is None && final(self)@ == old(self)@,
                Some(at) => {
                    &&& forall|i: int|
                        0 <= i < old(self)@.len() && i != at ==> final(self)@[i] == old(self)@[i]
                    &&& final(self)@[at].id == id
                    &&& final(self)@[at].connected_at == old(self)@[at].connected_at
                    &&& final(self)@[at].last_active == old(self)@[at].last_active
                    &&& match wire {
                        Some(w) => old(self)@[at].queued().len() > 0 && w@ == old(
                            self,
                        )@[at].queued()[0] && final(self)@[at].queued() == old(
                            self,
                        )@[at].queued().drop_first(),
                        None => old(self)@[at].queued().len() == 0 && final(self)@[at].queued()
                            == old(self)@[at].queued(),
                    }
                },
            },
    {
        let at = self.find(id);
        proof {
            use_type_invariant(&*self);
        }
        if at >= self.connections.len() {
            return None;
        }
        let mut connections: Vec<ClientConnection> = Vec::new();
        core::mem::swap(&mut self.connections, &mut connections);
        let mut connection = connections.remove(at);
        let wire = connection.next_outbound();
        connections.insert(at, connection);
        assert(connections@.len() == old(self)@.len());
        assert forall|i: int| 0 <= i < connections@.len() implies connections@[i].id == old(
            self,
        )@[i].id by {}
        core::mem::swap(&mut self.connections, &mut connections);
        wire
    }
}

} // verus!
