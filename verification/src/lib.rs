//! Signaling core of a peer-to-peer call-matching service.
//!
//! The crate pairs two endpoints (a caller and a callee) into a shared room
//! and routes session-negotiation messages between them.  This module holds
//! the data model and the room registry: sessions, rooms, and the process-wide
//! directory that maps room identifiers to rooms.  The signaling state machine
//! that classifies and routes messages lives in `messages`; the wire document
//! model lives in `json`.
//!
//! The registry is a process-scoped context passed by reference, never
//! ambient global state: every mutation happens under one exclusive borrow,
//! which plays the part of the registry's lock, and the host adapter feeds
//! the engine from a single ordered queue so that engine logic never runs
//! concurrently with itself.

use vstd::prelude::*;

pub mod json;
pub mod messages;

verus! {

use std::collections::HashMap;

broadcast use vstd::std_specs::hash::group_hash_axioms;

/// Identifier of a room, chosen by the joining client, compared by value.
#[derive(Debug, Clone, Copy, PartialEq, Eq, Hash, Structural)]
pub struct RoomId(pub u64);

/// Stable identity of one connected endpoint.  The registry hands these out
/// and never reuses one, so a stale identifier held inside a room resolves to
/// "peer gone" rather than to a newer session.
#[derive(Debug, Clone, Copy, PartialEq, Eq, Hash, Structural)]
pub struct SessionId(pub u64);

/// Mutable negotiation state of one session.  Each field transitions at most
/// once from unset to set; a repeated assignment is ignored (first join wins).
#[derive(Debug, Clone, Copy)]
pub struct SessionState {
    pub room_id: Option<RoomId>,
    pub initiator: Option<bool>,
}

/// A matched (or matching) pair: at most one caller and one callee.  The
/// slots hold session identifiers, not the sessions themselves; ownership of
/// a session stays with the registry, so a room never keeps a session alive.
#[derive(Debug, Clone, Copy)]
pub struct Room {
    pub id: RoomId,
    pub caller: Option<SessionId>,
    pub callee: Option<SessionId>,
}

/// The role under which a session enters a room.
#[derive(Debug, Clone, Copy)]
pub enum RoomMember {
    Caller(SessionId),
    Callee(SessionId),
}

impl Room {
    /// A fresh room with both slots unset.
    pub fn new(id: RoomId) -> (r: Room)
        ensures
            r == (Room { id, caller: None, callee: None }),
    {
        Room { id, callee: None, caller: None }
    }

    /// A room is empty when neither slot is set; an empty room must not stay
    /// in the registry.
    pub fn is_empty(&self) -> (r: bool)
        ensures
            r == room_is_empty(*self),
    {
        self.caller.is_none() && self.callee.is_none()
    }

    /// Puts the member into the slot that matches its role, displacing any
    /// previous occupant (last writer wins).
    pub fn add_member(&mut self, member: RoomMember)
        ensures
            *final(self) == spec_add_member(*old(self), member),
    {
        match member {
            RoomMember::Caller(s) => {
                self.caller = Some(s);
            }
            RoomMember::Callee(s) => {
                self.callee = Some(s);
            }
        }
    }
}

pub open spec fn room_is_empty(r: Room) -> bool {
    r.caller is None && r.callee is None
}

pub open spec fn spec_add_member(r: Room, member: RoomMember) -> Room {
    match member {
        RoomMember::Caller(s) => Room { caller: Some(s), ..r },
        RoomMember::Callee(s) => Room { callee: Some(s), ..r },
    }
}

/// Mathematical model of the registry: the session directory, the room
/// directory, and the next identifier to hand out.
pub struct RegModel {
    pub sessions: Map<u64, SessionState>,
    pub rooms: Map<u64, Room>,
    pub next_id: u64,
}

/// Every identifier inside `r` is below `bound` (identifiers are handed out
/// from a counter, so live and stale ones alike stay under it).
pub open spec fn room_bounded(r: Room, bound: u64) -> bool {
    &&& (r.caller matches Some(p) ==> p.0 < bound)
    &&& (r.callee matches Some(p) ==> p.0 < bound)
}

/// Well-formedness of the registry:
/// - each room sits under its own identifier, so one identifier never maps
///   to two distinct rooms;
/// - no stored room is empty (an emptied room is removed at once);
/// - session identifiers and the identifiers held in room slots all come
///   from the counter, so a fresh identifier is never already in use.
pub open spec fn reg_wf(rv: RegModel) -> bool {
    &&& forall|k: u64| #[trigger] rv.rooms.contains_key(k) ==> rv.rooms[k].id.0 == k
    &&& forall|k: u64| #[trigger] rv.rooms.contains_key(k) ==> !room_is_empty(rv.rooms[k])
    &&& forall|k: u64| #[trigger] rv.rooms.contains_key(k) ==> room_bounded(rv.rooms[k], rv.next_id)
    &&& forall|k: u64| #[trigger] rv.sessions.contains_key(k) ==> k < rv.next_id
}

/// The process-scoped registry: the single shared source of truth for
/// sessions and rooms, passed by reference to the signaling engine and the
/// teardown handler.
pub struct Registry {
    sessions: HashMap<u64, SessionState>,
    rooms: HashMap<u64, Room>,
    next_id: u64,
}

impl View for Registry {
    type V = RegModel;

    closed spec fn view(&self) -> RegModel {
        RegModel { sessions: self.sessions@, rooms: self.rooms@, next_id: self.next_id }
    }
}

/// The state of the registry after a session joins a room.  The session's
/// own fields are set only if still unset (first join wins), while the room
/// side always uses the event's values: the member enters the slot named by
/// the event's role, displacing any previous occupant, and the room is
/// created first when absent.
pub open spec fn spec_join(rv: RegModel, sid: u64, rid: RoomId, initiator: bool) -> RegModel {
    let st = rv.sessions[sid];
    let st2 = SessionState {
        room_id: if st.room_id is Some { st.room_id } else { Some(rid) },
        initiator: if st.initiator is Some { st.initiator } else { Some(initiator) },
    };
    let room0 = if rv.rooms.contains_key(rid.0) {
        rv.rooms[rid.0]
    } else {
        Room { id: rid, caller: None, callee: None }
    };
    let room1 = if initiator {
        Room { caller: Some(SessionId(sid)), ..room0 }
    } else {
        Room { callee: Some(SessionId(sid)), ..room0 }
    };
    RegModel {
        sessions: rv.sessions.insert(sid, st2),
        rooms: rv.rooms.insert(rid.0, room1),
        next_id: rv.next_id,
    }
}

/// The state of the registry after a session is torn down.  The session
/// leaves the session directory; if it had a room and that room is still
/// present, the slot matching the session's recorded role is cleared (the
/// caller slot when it joined as initiator, the callee slot otherwise), and
/// the room is removed when that leaves it empty.
pub open spec fn spec_destroy(rv: RegModel, sid: u64) -> RegModel {
    if !rv.sessions.contains_key(sid) {
        rv
    } else {
        let st = rv.sessions[sid];
        let sessions2 = rv.sessions.remove(sid);
        match st.room_id {
            None => RegModel { sessions: sessions2, ..rv },
            Some(rid) => {
                if !rv.rooms.contains_key(rid.0) {
                    RegModel { sessions: sessions2, ..rv }
                } else {
                    let room = rv.rooms[rid.0];
                    let room2 = if st.initiator == Some(true) {
                        Room { caller: None, ..room }
                    } else {
                        Room { callee: None, ..room }
                    };
                    let rooms2 = if room_is_empty(room2) {
                        rv.rooms.remove(rid.0)
                    } else {
                        rv.rooms.insert(rid.0, room2)
                    };
                    RegModel { sessions: sessions2, rooms: rooms2, ..rv }
                }
            }
        }
    }
}

impl Registry {
    pub open spec fn wf(&self) -> bool {
        reg_wf(self@)
    }

    /// An empty registry: no sessions, no rooms.
    pub fn new() -> (r: Registry)
        ensures
            r.wf(),
            r@.sessions == Map::<u64, SessionState>::empty(),
            r@.rooms == Map::<u64, Room>::empty(),
            r@.next_id == 0,
    {
        Registry { sessions: HashMap::new(), rooms: HashMap::new(), next_id: 0 }
    }

    /// Registers a new connection: a fresh session with unset negotiation
    /// state, under an identifier never handed out before.
    pub fn create_session(&mut self) -> (sid: SessionId)
        requires
            old(self).wf(),
            old(self)@.next_id < u64::MAX,
        ensures
            final(self).wf(),
            sid.0 == old(self)@.next_id,
            !old(self)@.sessions.contains_key(sid.0),
            final(self)@.sessions == old(self)@.sessions.insert(
                sid.0,
                SessionState { room_id: None, initiator: None },
            ),
            final(self)@.rooms == old(self)@.rooms,
            final(self)@.next_id == old(self)@.next_id + 1,
    {
        let sid = SessionId(self.next_id);
        let state = SessionState { room_id: None, initiator: None };
        self.sessions.insert(sid.0, state);
        self.next_id = self.next_id + 1;
        proof {
            assert(self@.sessions == old(self)@.sessions.insert(sid.0, state));
        }
        sid
    }

    /// Whether the identifier counter is exhausted; no further session can
    /// be registered once it is.
    pub fn at_capacity(&self) -> (r: bool)
        ensures
            r == (self@.next_id == u64::MAX),
    {
        self.next_id == u64::MAX
    }

    /// Whether the identifier still resolves to a live session.
    pub fn is_session(&self, sid: SessionId) -> (r: bool)
        ensures
            r == self@.sessions.contains_key(sid.0),
    {
        self.sessions.contains_key(&sid.0)
    }

    /// Shared read access to a session's negotiation state.
    pub fn session_state(&self, sid: SessionId) -> (r: Option<SessionState>)
        ensures
            self@.sessions.contains_key(sid.0) ==> r == Some(self@.sessions[sid.0]),
            !self@.sessions.contains_key(sid.0) ==> r is None,
    {
        match self.sessions.get(&sid.0) {
            Some(st) => Some(*st),
            None => None,
        }
    }

    /// True iff no room exists yet for this identifier.
    pub fn is_new(&self, id: RoomId) -> (r: bool)
        ensures
            r == !self@.rooms.contains_key(id.0),
    {
        !self.rooms.contains_key(&id.0)
    }

    /// Looks a room up by identifier.
    pub fn room(&self, id: RoomId) -> (r: Option<Room>)
        ensures
            self@.rooms.contains_key(id.0) ==> r == Some(self@.rooms[id.0]),
            !self@.rooms.contains_key(id.0) ==> r is None,
    {
        match self.rooms.get(&id.0) {
            Some(room) => Some(*room),
            None => None,
        }
    }

    /// Inserts a room under its own identifier; an existing room under that
    /// identifier is displaced (last writer wins).
    pub fn create(&mut self, room: Room)
        requires
            old(self).wf(),
            !room_is_empty(room),
            room_bounded(room, old(self)@.next_id),
        ensures
            final(self).wf(),
            final(self)@.rooms == old(self)@.rooms.insert(room.id.0, room),
            final(self)@.sessions == old(self)@.sessions,
            final(self)@.next_id == old(self)@.next_id,
    {
        self.rooms.insert(room.id.0, room);
        proof {
            assert(self@.rooms == old(self)@.rooms.insert(room.id.0, room));
            assert(self@.sessions == old(self)@.sessions);
        }
    }

    /// Removes the room iff both of its member slots are unset; otherwise
    /// leaves it.  This is the only path that deletes a room.
    pub fn remove_if_empty(&mut self, id: RoomId)
        requires
            old(self).wf(),
        ensures
            final(self).wf(),
            final(self)@.rooms == if old(self)@.rooms.contains_key(id.0) && room_is_empty(
                old(self)@.rooms[id.0],
            ) {
                old(self)@.rooms.remove(id.0)
            } else {
                old(self)@.rooms
            },
            final(self)@.sessions == old(self)@.sessions,
            final(self)@.next_id == old(self)@.next_id,
    {
        let remove = match self.rooms.get(&id.0) {
            Some(room) => room.caller.is_none() && room.callee.is_none(),
            None => false,
        };
        if remove {
            self.rooms.remove(&id.0);
        }
        proof {
            if !(old(self)@.rooms.contains_key(id.0) && room_is_empty(old(self)@.rooms[id.0])) {
                assert(final(self)@.rooms =~= old(self)@.rooms);
            }
        }
    }

    /// Applies a join to the registry: sets the session's fields if still
    /// unset, creates the room when absent, and puts the session into the
    /// slot named by the event's role.
    pub fn join(&mut self, sid: SessionId, rid: RoomId, initiator: bool)
        requires
            old(self).wf(),
            old(self)@.sessions.contains_key(sid.0),
        ensures
            final(self).wf(),
            final(self)@ == spec_join(old(self)@, sid.0, rid, initiator),
    {
        let st = match self.sessions.get(&sid.0) {
            Some(st) => *st,
            None => SessionState { room_id: None, initiator: None },
        };
        let st2 = SessionState {
            room_id: if st.room_id.is_some() { st.room_id } else { Some(rid) },
            initiator: if st.initiator.is_some() { st.initiator } else { Some(initiator) },
        };
        self.sessions.insert(sid.0, st2);
        let room0 = match self.rooms.get(&rid.0) {
            Some(room) => *room,
            None => Room { id: rid, caller: None, callee: None },
        };
        let room1 = if initiator {
            Room { caller: Some(sid), ..room0 }
        } else {
            Room { callee: Some(sid), ..room0 }
        };
        self.rooms.insert(rid.0, room1);
    }

    /// Tears a session down: removes it from the session directory, clears
    /// the room slot matching its recorded role, and removes the room when
    /// that leaves it empty.  All of it happens under the one exclusive
    /// borrow of the registry, so no half-updated room is ever visible.
    pub fn destroy_session(&mut self, sid: SessionId)
        requires
            old(self).wf(),
        ensures
            final(self).wf(),
            final(self)@ == spec_destroy(old(self)@, sid.0),
    {
        let st = match self.sessions.get(&sid.0) {
            Some(st) => *st,
            None => {
                return ;
            }
        };
        self.sessions.remove(&sid.0);
        proof {
            assert(self@.sessions == old(self)@.sessions.remove(sid.0));
        }
        let rid = match st.room_id {
            Some(rid) => rid,
            None => {
                return ;
            }
        };
        let room = match self.rooms.get(&rid.0) {
            Some(room) => *room,
            None => {
                return ;
            }
        };
        let room2 = if st.initiator == Some(true) {
            Room { caller: None, ..room }
        } else {
            Room { callee: None, ..room }
        };
        if room2.caller.is_none() && room2.callee.is_none() {
            self.rooms.remove(&rid.0);
            proof {
                assert(self@.rooms == old(self)@.rooms.remove(rid.0));
            }
        } else {
            self.rooms.insert(rid.0, room2);
            proof {
                assert(self@.rooms == old(self)@.rooms.insert(rid.0, room2));
            }
        }
    }
}

/// Tearing a session down preserves the registry's well-formedness, so
/// every state the library can reach is well-formed.
pub proof fn lemma_destroy_preserves_wf(rv: RegModel, sid: u64)
    requires
        reg_wf(rv),
    ensures
        reg_wf(spec_destroy(rv, sid)),
{
}

/// The registry holds at most one room per identifier at any instant: two
/// keys whose rooms carry the same identifier are the same key.
pub proof fn lemma_room_unique(rv: RegModel, k1: u64, k2: u64)
    requires
        reg_wf(rv),
        rv.rooms.contains_key(k1),
        rv.rooms.contains_key(k2),
        rv.rooms[k1].id == rv.rooms[k2].id,
    ensures
        k1 == k2,
{
}

/// Destroying the only remaining member of a room removes that room from
/// the registry.
pub proof fn lemma_destroy_last_removes_room(rv: RegModel, sid: u64, rid: RoomId)
    requires
        reg_wf(rv),
        rv.sessions.contains_key(sid),
        rv.sessions[sid].room_id == Some(rid),
        rv.rooms.contains_key(rid.0),
        rv.sessions[sid].initiator == Some(true) ==> rv.rooms[rid.0] == (Room {
            id: rid,
            caller: Some(SessionId(sid)),
            callee: None,
        }),
        rv.sessions[sid].initiator != Some(true) ==> rv.rooms[rid.0] == (Room {
            id: rid,
            caller: None,
            callee: Some(SessionId(sid)),
        }),
    ensures
        !spec_destroy(rv, sid).rooms.contains_key(rid.0),
        !spec_destroy(rv, sid).sessions.contains_key(sid),
{
}

/// Destroying one of two members leaves the room present, with the
/// departed member's slot cleared and the other member still in place.
pub proof fn lemma_destroy_one_of_two_keeps_room(rv: RegModel, sid: u64, rid: RoomId, peer: u64)
    requires
        reg_wf(rv),
        rv.sessions.contains_key(sid),
        rv.sessions[sid].room_id == Some(rid),
        rv.rooms.contains_key(rid.0),
        rv.sessions[sid].initiator == Some(true) && rv.rooms[rid.0] == (Room {
            id: rid,
            caller: Some(SessionId(sid)),
            callee: Some(SessionId(peer)),
        }) || rv.sessions[sid].initiator != Some(true) && rv.rooms[rid.0] == (Room {
            id: rid,
            caller: Some(SessionId(peer)),
            callee: Some(SessionId(sid)),
        }),
    ensures
        spec_destroy(rv, sid).rooms.contains_key(rid.0),
        rv.sessions[sid].initiator == Some(true) ==> spec_destroy(rv, sid).rooms[rid.0] == (Room {
            id: rid,
            caller: None,
            callee: Some(SessionId(peer)),
        }),
        rv.sessions[sid].initiator != Some(true) ==> spec_destroy(rv, sid).rooms[rid.0] == (Room {
            id: rid,
            caller: Some(SessionId(peer)),
            callee: None,
        }),
        !spec_destroy(rv, sid).sessions.contains_key(sid),
{
}

} // verus!
