//! The event model and the signaling engine.
//!
//! Inbound documents decode into one of four event kinds (join, call,
//! accept, candidate); the engine consumes a session identifier and an event,
//! mutates the registry as the event requires, and produces either a relay
//! instruction (the peer to deliver to, with the payload) or a structured
//! failure.  Join is the only event that mutates the registry; the other
//! three only read it and route.

use vstd::prelude::*;

verus! {

broadcast use vstd::string::group_string_axioms;

use crate::json::{
    JsonVal,
    JsonModel,
    field_of,
    lookup,
    pairs_model,
    lemma_pairs_model,
};
use crate::{
    Registry,
    RegModel,
    RoomId,
    SessionId,
    SessionState,
    Room,
    reg_wf,
    spec_join,
};

/// The session-description envelope carried by call and accept events.
#[derive(Debug)]
pub enum JsepKind {
    Offer { sdp: String },
    Answer { sdp: String },
}

/// One proposed network path for the eventual direct media connection.
#[derive(Debug)]
pub struct IceCandidate {
    pub candidate: String,
    pub sdp_mid: String,
    pub sdp_m_line_index: u16,
}

/// The four inbound event kinds.
#[derive(Debug)]
pub enum Event {
    Join { room_id: RoomId, initiator: bool },
    Call { jsep: JsepKind },
    Accept { jsep: JsepKind },
    Candidate { candidate: IceCandidate },
}

/// The structured failures of decoding and routing.  A failure never tears
/// the connection down: the message is reported and dropped.
#[derive(Debug, Clone, Copy, PartialEq, Eq, Structural)]
pub enum Error {
    /// The document was malformed or of an unknown shape.
    Decode,
    /// The room member the event must relay to has not joined yet.
    EmptyPeer,
    /// The room member the event must relay to has gone away.
    PeerHasGone,
    /// The session has no room yet, or its room is no longer present.
    NoRoom,
}

impl Error {
    /// A short description of the failure.
    pub fn message(&self) -> (r: &'static str)
        ensures
            r@ == spec_error_message(*self),
    {
        match self {
            Error::Decode => "Cannot decode message",
            Error::EmptyPeer => "Peer is empty",
            Error::PeerHasGone => "Peer has gone",
            Error::NoRoom => "No room",
        }
    }
}

pub open spec fn spec_error_message(e: Error) -> Seq<char> {
    match e {
        Error::Decode => "Cannot decode message"@,
        Error::EmptyPeer => "Peer is empty"@,
        Error::PeerHasGone => "Peer has gone"@,
        Error::NoRoom => "No room"@,
    }
}

/// A relay instruction: the peer to deliver to and the payload to encode.
#[derive(Debug)]
pub enum Response {
    Join { peer: SessionId, payload: JsonVal },
    Call { peer: SessionId, payload: JsonVal },
    Accept { peer: SessionId, payload: JsonVal },
    Candidate { peer: SessionId, payload: JsonVal },
}

/// Model of a session-description envelope.
pub enum JsepModel {
    Offer { sdp: Seq<char> },
    Answer { sdp: Seq<char> },
}

/// Model of a candidate.
pub struct IceModel {
    pub candidate: Seq<char>,
    pub sdp_mid: Seq<char>,
    pub sdp_m_line_index: u16,
}

/// Model of an event.
pub enum EventModel {
    Join { room_id: RoomId, initiator: bool },
    Call { jsep: JsepModel },
    Accept { jsep: JsepModel },
    Candidate { candidate: IceModel },
}

/// Model of a relay instruction.
pub enum ResponseModel {
    Join { peer: SessionId, payload: JsonModel },
    Call { peer: SessionId, payload: JsonModel },
    Accept { peer: SessionId, payload: JsonModel },
    Candidate { peer: SessionId, payload: JsonModel },
}

impl View for JsepKind {
    type V = JsepModel;

    open spec fn view(&self) -> JsepModel {
        match self {
            JsepKind::Offer { sdp } => JsepModel::Offer { sdp: sdp@ },
            JsepKind::Answer { sdp } => JsepModel::Answer { sdp: sdp@ },
        }
    }
}

impl View for IceCandidate {
    type V = IceModel;

    open spec fn view(&self) -> IceModel {
        IceModel {
            candidate: self.candidate@,
            sdp_mid: self.sdp_mid@,
            sdp_m_line_index: self.sdp_m_line_index,
        }
    }
}

impl View for Event {
    type V = EventModel;

    open spec fn view(&self) -> EventModel {
        match self {
            Event::Join { room_id, initiator } => EventModel::Join {
                room_id: *room_id,
                initiator: *initiator,
            },
            Event::Call { jsep } => EventModel::Call { jsep: jsep@ },
            Event::Accept { jsep } => EventModel::Accept { jsep: jsep@ },
            Event::Candidate { candidate } => EventModel::Candidate { candidate: candidate@ },
        }
    }
}

impl View for Response {
    type V = ResponseModel;

    open spec fn view(&self) -> ResponseModel {
        match self {
            Response::Join { peer, payload } => ResponseModel::Join {
                peer: *peer,
                payload: payload@,
            },
            Response::Call { peer, payload } => ResponseModel::Call {
                peer: *peer,
                payload: payload@,
            },
            Response::Accept { peer, payload } => ResponseModel::Accept {
                peer: *peer,
                payload: payload@,
            },
            Response::Candidate { peer, payload } => ResponseModel::Candidate {
                peer: *peer,
                payload: payload@,
            },
        }
    }
}

/// Model of a decode result.
pub open spec fn event_result_model(r: Result<Event, Error>) -> Result<EventModel, Error> {
    match r {
        Ok(e) => Ok(e@),
        Err(er) => Err(er),
    }
}

/// Model of an engine result.
pub open spec fn response_result_model(r: Result<Response, Error>) -> Result<
    ResponseModel,
    Error,
> {
    match r {
        Ok(resp) => Ok(resp@),
        Err(er) => Err(er),
    }
}

} // verus!

verus! {

/// The document shape of a session-description envelope.
pub open spec fn spec_encode_jsep(k: JsepModel) -> JsonModel {
    match k {
        JsepModel::Offer { sdp } => JsonModel::Obj(
            seq![("type"@, JsonModel::Str("offer"@)), ("sdp"@, JsonModel::Str(sdp))],
        ),
        JsepModel::Answer { sdp } => JsonModel::Obj(
            seq![("type"@, JsonModel::Str("answer"@)), ("sdp"@, JsonModel::Str(sdp))],
        ),
    }
}

/// The document shape of a candidate.
pub open spec fn spec_encode_ice(c: IceModel) -> JsonModel {
    JsonModel::Obj(
        seq![
            ("candidate"@, JsonModel::Str(c.candidate)),
            ("sdpMid"@, JsonModel::Str(c.sdp_mid)),
            ("sdpMLineIndex"@, JsonModel::UInt(c.sdp_m_line_index as u64)),
        ],
    )
}

/// The wire document of an event: the `event` discriminator first, then the
/// kind's own fields, in the protocol's written order.
pub open spec fn spec_encode(e: EventModel) -> JsonModel {
    match e {
        EventModel::Join { room_id, initiator } => JsonModel::Obj(
            seq![
                ("event"@, JsonModel::Str("join"@)),
                ("room_id"@, JsonModel::UInt(room_id.0)),
                ("initiator"@, JsonModel::Bool(initiator)),
            ],
        ),
        EventModel::Call { jsep } => JsonModel::Obj(
            seq![("event"@, JsonModel::Str("call"@)), ("jsep"@, spec_encode_jsep(jsep))],
        ),
        EventModel::Accept { jsep } => JsonModel::Obj(
            seq![("event"@, JsonModel::Str("accept"@)), ("jsep"@, spec_encode_jsep(jsep))],
        ),
        EventModel::Candidate { candidate } => JsonModel::Obj(
            seq![
                ("event"@, JsonModel::Str("candidate"@)),
                ("candidate"@, spec_encode_ice(candidate)),
            ],
        ),
    }
}

/// Encodes a session-description envelope.
fn encode_jsep(k: &JsepKind) -> (r: JsonVal)
    ensures
        r@ == spec_encode_jsep(k@),
{
    match k {
        JsepKind::Offer { sdp } => {
            let mut pairs: Vec<(String, JsonVal)> = Vec::new();
            pairs.push(("type".to_owned(), JsonVal::Str("offer".to_owned())));
            pairs.push(("sdp".to_owned(), JsonVal::Str(sdp.clone())));
            let ghost ps = pairs@;
            let r = JsonVal::Obj(pairs);
            proof {
                lemma_pairs_model(ps);
                assert(pairs_model(ps) =~= spec_encode_jsep(k@)->Obj_0);
            }
            r
        }
        JsepKind::Answer { sdp } => {
            let mut pairs: Vec<(String, JsonVal)> = Vec::new();
            pairs.push(("type".to_owned(), JsonVal::Str("answer".to_owned())));
            pairs.push(("sdp".to_owned(), JsonVal::Str(sdp.clone())));
            let ghost ps = pairs@;
            let r = JsonVal::Obj(pairs);
            proof {
                lemma_pairs_model(ps);
                assert(pairs_model(ps) =~= spec_encode_jsep(k@)->Obj_0);
            }
            r
        }
    }
}

/// Encodes a candidate.
fn encode_ice(c: &IceCandidate) -> (r: JsonVal)
    ensures
        r@ == spec_encode_ice(c@),
{
    let mut pairs: Vec<(String, JsonVal)> = Vec::new();
    pairs.push(("candidate".to_owned(), JsonVal::Str(c.candidate.clone())));
    pairs.push(("sdpMid".to_owned(), JsonVal::Str(c.sdp_mid.clone())));
    pairs.push(("sdpMLineIndex".to_owned(), JsonVal::UInt(c.sdp_m_line_index as u64)));
    let ghost ps = pairs@;
    let r = JsonVal::Obj(pairs);
    proof {
        lemma_pairs_model(ps);
        assert(pairs_model(ps) =~= spec_encode_ice(c@)->Obj_0);
    }
    r
}

/// Encodes an event into its wire document.
pub fn encode(e: &Event) -> (r: JsonVal)
    ensures
        r@ == spec_encode(e@),
{
    match e {
        Event::Join { room_id, initiator } => {
            let mut pairs: Vec<(String, JsonVal)> = Vec::new();
            pairs.push(("event".to_owned(), JsonVal::Str("join".to_owned())));
            pairs.push(("room_id".to_owned(), JsonVal::UInt(room_id.0)));
            pairs.push(("initiator".to_owned(), JsonVal::Bool(*initiator)));
            let ghost ps = pairs@;
            let r = JsonVal::Obj(pairs);
            proof {
                lemma_pairs_model(ps);
                assert(pairs_model(ps) =~= spec_encode(e@)->Obj_0);
            }
            r
        }
        Event::Call { jsep } => {
            let mut pairs: Vec<(String, JsonVal)> = Vec::new();
            pairs.push(("event".to_owned(), JsonVal::Str("call".to_owned())));
            pairs.push(("jsep".to_owned(), encode_jsep(jsep)));
            let ghost ps = pairs@;
            let r = JsonVal::Obj(pairs);
            proof {
                lemma_pairs_model(ps);
                assert(pairs_model(ps) =~= spec_encode(e@)->Obj_0);
            }
            r
        }
        Event::Accept { jsep } => {
            let mut pairs: Vec<(String, JsonVal)> = Vec::new();
            pairs.push(("event".to_owned(), JsonVal::Str("accept".to_owned())));
            pairs.push(("jsep".to_owned(), encode_jsep(jsep)));
            let ghost ps = pairs@;
            let r = JsonVal::Obj(pairs);
            proof {
                lemma_pairs_model(ps);
                assert(pairs_model(ps) =~= spec_encode(e@)->Obj_0);
            }
            r
        }
        Event::Candidate { candidate } => {
            let mut pairs: Vec<(String, JsonVal)> = Vec::new();
            pairs.push(("event".to_owned(), JsonVal::Str("candidate".to_owned())));
            pairs.push(("candidate".to_owned(), encode_ice(candidate)));
            let ghost ps = pairs@;
            let r = JsonVal::Obj(pairs);
            proof {
                lemma_pairs_model(ps);
                assert(pairs_model(ps) =~= spec_encode(e@)->Obj_0);
            }
            r
        }
    }
}

} // verus!

verus! {

use crate::json::str_matches;

/// Decoding a session-description envelope: a `type` discriminator of
/// `offer` or `answer`, and an `sdp` string; anything else is a failure.
pub open spec fn spec_jsep_from_json(v: JsonModel) -> Result<JsepModel, Error> {
    match field_of(v, "type"@) {
        Some(JsonModel::Str(t)) => if t == "offer"@ {
            match field_of(v, "sdp"@) {
                Some(JsonModel::Str(s)) => Ok(JsepModel::Offer { sdp: s }),
                _ => Err(Error::Decode),
            }
        } else if t == "answer"@ {
            match field_of(v, "sdp"@) {
                Some(JsonModel::Str(s)) => Ok(JsepModel::Answer { sdp: s }),
                _ => Err(Error::Decode),
            }
        } else {
            Err(Error::Decode)
        },
        _ => Err(Error::Decode),
    }
}

/// Decoding a candidate: `candidate` and `sdpMid` strings and an
/// `sdpMLineIndex` that fits in sixteen bits; anything else is a failure.
pub open spec fn spec_ice_from_json(v: JsonModel) -> Result<IceModel, Error> {
    match (field_of(v, "candidate"@), field_of(v, "sdpMid"@), field_of(v, "sdpMLineIndex"@)) {
        (Some(JsonModel::Str(c)), Some(JsonModel::Str(m)), Some(JsonModel::UInt(n))) => if n
            <= u16::MAX as u64 {
            Ok(IceModel { candidate: c, sdp_mid: m, sdp_m_line_index: n as u16 })
        } else {
            Err(Error::Decode)
        },
        _ => Err(Error::Decode),
    }
}

/// Decoding an event document.  Decoding is strict: an unrecognized
/// `event` discriminator or a missing or mistyped required field is a
/// failure, never a default.  Fields beyond the required ones are ignored.
pub open spec fn spec_event_from_json(j: JsonModel) -> Result<EventModel, Error> {
    match field_of(j, "event"@) {
        Some(JsonModel::Str(tag)) => if tag == "join"@ {
            match (field_of(j, "room_id"@), field_of(j, "initiator"@)) {
                (Some(JsonModel::UInt(n)), Some(JsonModel::Bool(b))) => Ok(
                    EventModel::Join { room_id: RoomId(n), initiator: b },
                ),
                _ => Err(Error::Decode),
            }
        } else if tag == "call"@ {
            match field_of(j, "jsep"@) {
                Some(v) => match spec_jsep_from_json(v) {
                    Ok(k) => Ok(EventModel::Call { jsep: k }),
                    Err(er) => Err(er),
                },
                None => Err(Error::Decode),
            }
        } else if tag == "accept"@ {
            match field_of(j, "jsep"@) {
                Some(v) => match spec_jsep_from_json(v) {
                    Ok(k) => Ok(EventModel::Accept { jsep: k }),
                    Err(er) => Err(er),
                },
                None => Err(Error::Decode),
            }
        } else if tag == "candidate"@ {
            match field_of(j, "candidate"@) {
                Some(v) => match spec_ice_from_json(v) {
                    Ok(c) => Ok(EventModel::Candidate { candidate: c }),
                    Err(er) => Err(er),
                },
                None => Err(Error::Decode),
            }
        } else {
            Err(Error::Decode)
        },
        _ => Err(Error::Decode),
    }
}

/// Decodes a session-description envelope from a document.
fn jsep_from_json(v: &JsonVal) -> (r: Result<JsepKind, Error>)
    ensures
        (match r {
            Ok(k) => spec_jsep_from_json(v@) == Ok::<JsepModel, Error>(k@),
            Err(er) => spec_jsep_from_json(v@) == Err::<JsepModel, Error>(er),
        }),
{
    let t = match v.get_field("type") {
        Some(JsonVal::Str(t)) => t,
        _ => {
            return Err(Error::Decode);
        }
    };
    let sdp = match v.get_field("sdp") {
        Some(JsonVal::Str(s)) => s.clone(),
        _ => {
            return Err(Error::Decode);
        }
    };
    if str_matches(t, "offer") {
        Ok(JsepKind::Offer { sdp })
    } else if str_matches(t, "answer") {
        Ok(JsepKind::Answer { sdp })
    } else {
        Err(Error::Decode)
    }
}

/// Decodes a candidate from a document.
fn ice_from_json(v: &JsonVal) -> (r: Result<IceCandidate, Error>)
    ensures
        (match r {
            Ok(c) => spec_ice_from_json(v@) == Ok::<IceModel, Error>(c@),
            Err(er) => spec_ice_from_json(v@) == Err::<IceModel, Error>(er),
        }),
{
    let c = match v.get_field("candidate") {
        Some(JsonVal::Str(s)) => s.clone(),
        _ => {
            return Err(Error::Decode);
        }
    };
    let m = match v.get_field("sdpMid") {
        Some(JsonVal::Str(s)) => s.clone(),
        _ => {
            return Err(Error::Decode);
        }
    };
    let n = match v.get_field("sdpMLineIndex") {
        Some(JsonVal::UInt(n)) => *n,
        _ => {
            return Err(Error::Decode);
        }
    };
    if n > 65535 {
        return Err(Error::Decode);
    }
    Ok(IceCandidate { candidate: c, sdp_mid: m, sdp_m_line_index: n as u16 })
}

/// Decodes an event from its wire document.  Strict: an unrecognized
/// discriminator or a missing or mistyped required field fails; extra
/// fields are ignored.
pub fn event_from_json(j: &JsonVal) -> (r: Result<Event, Error>)
    ensures
        event_result_model(r) == spec_event_from_json(j@),
{
    let tag = match j.get_field("event") {
        Some(JsonVal::Str(t)) => t,
        _ => {
            return Err(Error::Decode);
        }
    };
    if str_matches(tag, "join") {
        let n = match j.get_field("room_id") {
            Some(JsonVal::UInt(n)) => *n,
            _ => {
                return Err(Error::Decode);
            }
        };
        let b = match j.get_field("initiator") {
            Some(JsonVal::Bool(b)) => *b,
            _ => {
                return Err(Error::Decode);
            }
        };
        Ok(Event::Join { room_id: RoomId(n), initiator: b })
    } else if str_matches(tag, "call") {
        let v = match j.get_field("jsep") {
            Some(v) => v,
            None => {
                return Err(Error::Decode);
            }
        };
        match jsep_from_json(v) {
            Ok(k) => Ok(Event::Call { jsep: k }),
            Err(er) => Err(er),
        }
    } else if str_matches(tag, "accept") {
        let v = match j.get_field("jsep") {
            Some(v) => v,
            None => {
                return Err(Error::Decode);
            }
        };
        match jsep_from_json(v) {
            Ok(k) => Ok(Event::Accept { jsep: k }),
            Err(er) => Err(er),
        }
    } else if str_matches(tag, "candidate") {
        let v = match j.get_field("candidate") {
            Some(v) => v,
            None => {
                return Err(Error::Decode);
            }
        };
        match ice_from_json(v) {
            Ok(c) => Ok(Event::Candidate { candidate: c }),
            Err(er) => Err(er),
        }
    } else {
        Err(Error::Decode)
    }
}

} // verus!

verus! {

/// The acknowledgment payload sent back to a joining session: which role it
/// was given, and that the room is not reported full.
pub open spec fn spec_join_payload(initiator: bool) -> JsonModel {
    JsonModel::Obj(
        seq![
            ("result"@, JsonModel::Str("join"@)),
            ("full"@, JsonModel::Bool(false)),
            ("you"@, JsonModel::Str(if initiator { "caller"@ } else { "callee"@ })),
        ],
    )
}

/// Builds the join acknowledgment payload.
fn join_payload(initiator: bool) -> (r: JsonVal)
    ensures
        r@ == spec_join_payload(initiator),
{
    let mut pairs: Vec<(String, JsonVal)> = Vec::new();
    pairs.push(("result".to_owned(), JsonVal::Str("join".to_owned())));
    pairs.push(("full".to_owned(), JsonVal::Bool(false)));
    let you: String = if initiator {
        "caller".to_owned()
    } else {
        "callee".to_owned()
    };
    pairs.push(("you".to_owned(), JsonVal::Str(you)));
    let ghost ps = pairs@;
    let r = JsonVal::Obj(pairs);
    proof {
        lemma_pairs_model(ps);
        assert(pairs_model(ps) =~= spec_join_payload(initiator)->Obj_0);
    }
    r
}

/// The room slot an event relays to: call goes to the callee, accept to the
/// caller, and a candidate to the side opposite the sender's recorded role
/// (to the caller when the role is unset).
pub open spec fn spec_slot(st: SessionState, room: Room, ev: EventModel) -> Option<SessionId> {
    match ev {
        EventModel::Call { .. } => room.callee,
        EventModel::Accept { .. } => room.caller,
        EventModel::Candidate { .. } => if st.initiator == Some(true) {
            room.callee
        } else {
            room.caller
        },
        EventModel::Join { .. } => None,
    }
}

/// The relay instruction for a routed event: the resolved peer and the
/// event's own wire document as payload.
pub open spec fn spec_relay_response(ev: EventModel, p: SessionId) -> ResponseModel {
    match ev {
        EventModel::Accept { .. } => ResponseModel::Accept { peer: p, payload: spec_encode(ev) },
        EventModel::Candidate { .. } => ResponseModel::Candidate {
            peer: p,
            payload: spec_encode(ev),
        },
        _ => ResponseModel::Call { peer: p, payload: spec_encode(ev) },
    }
}

/// Routing of a read-only event (call, accept, candidate): the sender must
/// have a room that is still present (`NoRoom` otherwise); the slot the
/// event relays to must be occupied (`EmptyPeer`) by a session that is still
/// alive (`PeerHasGone`); then the event's document relays to that peer.
pub open spec fn spec_route(rv: RegModel, sid: u64, ev: EventModel) -> Result<
    ResponseModel,
    Error,
> {
    let st = rv.sessions[sid];
    match st.room_id {
        None => Err(Error::NoRoom),
        Some(rid) => if !rv.rooms.contains_key(rid.0) {
            Err(Error::NoRoom)
        } else {
            match spec_slot(st, rv.rooms[rid.0], ev) {
                None => Err(Error::EmptyPeer),
                Some(p) => if !rv.sessions.contains_key(p.0) {
                    Err(Error::PeerHasGone)
                } else {
                    Ok(spec_relay_response(ev, p))
                },
            }
        },
    }
}

/// The engine's transition function: what one event does to the registry,
/// and what it returns.  A join mutates the registry and acknowledges the
/// joining session its role; the other three kinds leave the registry
/// unchanged and route.
pub open spec fn spec_step(rv: RegModel, sid: u64, ev: EventModel) -> (RegModel, Result<
    ResponseModel,
    Error,
>) {
    match ev {
        EventModel::Join { room_id, initiator } => (
            spec_join(rv, sid, room_id, initiator),
            Ok(
                ResponseModel::Join {
                    peer: SessionId(sid),
                    payload: spec_join_payload(initiator),
                },
            ),
        ),
        _ => (rv, spec_route(rv, sid, ev)),
    }
}

/// The room slot an event relays to.
fn peer_slot(st: SessionState, room: Room, event: &Event) -> (p: Option<SessionId>)
    ensures
        p == spec_slot(st, room, event@),
{
    match event {
        Event::Call { .. } => room.callee,
        Event::Accept { .. } => room.caller,
        Event::Candidate { .. } => {
            if st.initiator == Some(true) {
                room.callee
            } else {
                room.caller
            }
        }
        Event::Join { .. } => None,
    }
}

/// Runs one event through the engine: mutates the registry as the event
/// requires and produces a relay instruction or a structured failure.
/// The whole effect is `spec_step` of the previous state.
pub fn handle_event(reg: &mut Registry, sid: SessionId, event: Event) -> (r: Result<
    Response,
    Error,
>)
    requires
        old(reg).wf(),
        old(reg)@.sessions.contains_key(sid.0),
    ensures
        final(reg).wf(),
        final(reg)@ == spec_step(old(reg)@, sid.0, event@).0,
        response_result_model(r) == spec_step(old(reg)@, sid.0, event@).1,
{
    match &event {
        Event::Join { room_id, initiator } => {
            reg.join(sid, *room_id, *initiator);
            Ok(Response::Join { peer: sid, payload: join_payload(*initiator) })
        }
        _ => {
            let st = match reg.session_state(sid) {
                Some(st) => st,
                // The caller owes a registered session, so this arm is
                // unreachable.
                None => unreached(),
            };
            let rid = match st.room_id {
                Some(rid) => rid,
                None => {
                    return Err(Error::NoRoom);
                }
            };
            let room = match reg.room(rid) {
                Some(room) => room,
                None => {
                    return Err(Error::NoRoom);
                }
            };
            let p = match peer_slot(st, room, &event) {
                Some(p) => p,
                None => {
                    return Err(Error::EmptyPeer);
                }
            };
            if !reg.is_session(p) {
                return Err(Error::PeerHasGone);
            }
            let payload = encode(&event);
            match &event {
                Event::Accept { .. } => Ok(Response::Accept { peer: p, payload }),
                Event::Candidate { .. } => Ok(Response::Candidate { peer: p, payload }),
                _ => Ok(Response::Call { peer: p, payload }),
            }
        }
    }
}

} // verus!

verus! {

use crate::json::spec_with_result;
use crate::spec_destroy;

/// One engine step preserves the registry's well-formedness: together with
/// `lemma_destroy_preserves_wf` and `Registry::new`, every state the library
/// can reach is well-formed, and well-formedness keeps one room per
/// identifier.
pub proof fn lemma_step_preserves_wf(rv: RegModel, sid: u64, ev: EventModel)
    requires
        reg_wf(rv),
        rv.sessions.contains_key(sid),
    ensures
        reg_wf(spec_step(rv, sid, ev).0),
{
}

/// A session's negotiation state is immutable once set: no event changes a
/// set `room_id` or a set `initiator`, and each session keeps at most one
/// role across its lifetime.
pub proof fn lemma_role_immutable(rv: RegModel, sid: u64, ev: EventModel, h: u64)
    requires
        rv.sessions.contains_key(h),
    ensures
        spec_step(rv, sid, ev).0.sessions.contains_key(h),
        rv.sessions[h].initiator is Some ==> spec_step(rv, sid, ev).0.sessions[h].initiator
            == rv.sessions[h].initiator,
        rv.sessions[h].room_id is Some ==> spec_step(rv, sid, ev).0.sessions[h].room_id
            == rv.sessions[h].room_id,
{
}

/// Tearing one session down never touches another session's state.
pub proof fn lemma_destroy_preserves_others(rv: RegModel, sid: u64, h: u64)
    requires
        h != sid,
        rv.sessions.contains_key(h),
    ensures
        spec_destroy(rv, sid).sessions.contains_key(h),
        spec_destroy(rv, sid).sessions[h] == rv.sessions[h],
{
}

/// Two fresh sessions joining the same new room, the first as initiator and
/// the second not, yield a room with the caller and callee slots populated;
/// a subsequent call from the caller resolves and relays to the callee.
pub proof fn lemma_pair_up_then_call(rv: RegModel, a: u64, b: u64, rid: RoomId, offer: JsepModel)
    requires
        reg_wf(rv),
        rv.sessions.contains_key(a),
        rv.sessions.contains_key(b),
        a != b,
        rv.sessions[a].room_id is None,
        rv.sessions[a].initiator is None,
        rv.sessions[b].room_id is None,
        rv.sessions[b].initiator is None,
    ensures
        ({
            let rv1 = spec_step(rv, a, EventModel::Join { room_id: rid, initiator: true }).0;
            let rv2 = spec_step(rv1, b, EventModel::Join { room_id: rid, initiator: false }).0;
            let call = EventModel::Call { jsep: offer };
            &&& rv2.rooms.contains_key(rid.0)
            &&& rv2.rooms[rid.0].caller == Some(SessionId(a))
            &&& rv2.rooms[rid.0].callee == Some(SessionId(b))
            &&& spec_step(rv2, a, call).0 == rv2
            &&& spec_step(rv2, a, call).1 == Ok::<ResponseModel, Error>(
                ResponseModel::Call { peer: SessionId(b), payload: spec_encode(call) },
            )
        }),
{
}

/// A call made before any callee has joined the room fails with
/// `EmptyPeer` and leaves the registry unchanged: no relay is produced.
pub proof fn lemma_call_before_callee(rv: RegModel, sid: u64, rid: RoomId, jsep: JsepModel)
    requires
        rv.sessions.contains_key(sid),
        rv.sessions[sid].room_id == Some(rid),
        rv.rooms.contains_key(rid.0),
        rv.rooms[rid.0].callee is None,
    ensures
        spec_step(rv, sid, EventModel::Call { jsep }).0 == rv,
        spec_step(rv, sid, EventModel::Call { jsep }).1 == Err::<ResponseModel, Error>(
            Error::EmptyPeer,
        ),
{
}

/// Candidate routing: with the sender's role set to initiator the candidate
/// relays to the callee, otherwise (role unset included) to the caller; an
/// unset target slot fails with `EmptyPeer`, and a stale target with
/// `PeerHasGone`.  The registry is never changed.
pub proof fn lemma_candidate_routing(rv: RegModel, sid: u64, rid: RoomId, c: IceModel)
    requires
        rv.sessions.contains_key(sid),
        rv.sessions[sid].room_id == Some(rid),
        rv.rooms.contains_key(rid.0),
    ensures
        ({
            let ev = EventModel::Candidate { candidate: c };
            let room = rv.rooms[rid.0];
            let target = if rv.sessions[sid].initiator == Some(true) {
                room.callee
            } else {
                room.caller
            };
            &&& spec_step(rv, sid, ev).0 == rv
            &&& (target is None ==> spec_step(rv, sid, ev).1 == Err::<ResponseModel, Error>(
                Error::EmptyPeer,
            ))
            &&& (target is Some && rv.sessions.contains_key((target->0).0) ==> spec_step(
                rv,
                sid,
                ev,
            ).1 == Ok::<ResponseModel, Error>(
                ResponseModel::Candidate { peer: target->0, payload: spec_encode(ev) },
            ))
            &&& (target is Some && !rv.sessions.contains_key((target->0).0) ==> spec_step(
                rv,
                sid,
                ev,
            ).1 == Err::<ResponseModel, Error>(Error::PeerHasGone))
        }),
{
}

} // verus!

verus! {

/// The wire keys and discriminators are pairwise distinct where decoding
/// compares them.
proof fn lemma_wire_keys()
    ensures
        "event"@ != "room_id"@,
        "event"@ != "initiator"@,
        "event"@ != "jsep"@,
        "event"@ != "candidate"@,
        "event"@ != "result"@,
        "room_id"@ != "initiator"@,
        "room_id"@ != "result"@,
        "initiator"@ != "result"@,
        "jsep"@ != "result"@,
        "candidate"@ != "result"@,
        "call"@ != "join"@,
        "accept"@ != "join"@,
        "accept"@ != "call"@,
        "candidate"@ != "join"@,
        "candidate"@ != "call"@,
        "candidate"@ != "accept"@,
        "type"@ != "sdp"@,
        "answer"@ != "offer"@,
        "candidate"@ != "sdpMid"@,
        "candidate"@ != "sdpMLineIndex"@,
        "sdpMid"@ != "sdpMLineIndex"@,
{
    reveal_strlit("event");
    reveal_strlit("join");
    reveal_strlit("call");
    reveal_strlit("accept");
    reveal_strlit("candidate");
    reveal_strlit("room_id");
    reveal_strlit("initiator");
    reveal_strlit("jsep");
    reveal_strlit("type");
    reveal_strlit("offer");
    reveal_strlit("answer");
    reveal_strlit("sdp");
    reveal_strlit("sdpMid");
    reveal_strlit("sdpMLineIndex");
    reveal_strlit("result");
    assert("event"@.len() == 5);
    assert("join"@.len() == 4);
    assert("call"@.len() == 4);
    assert("accept"@.len() == 6);
    assert("candidate"@.len() == 9);
    assert("room_id"@.len() == 7);
    assert("initiator"@.len() == 9);
    assert("jsep"@.len() == 4);
    assert("type"@.len() == 4);
    assert("offer"@.len() == 5);
    assert("answer"@.len() == 6);
    assert("sdp"@.len() == 3);
    assert("sdpMid"@.len() == 6);
    assert("sdpMLineIndex"@.len() == 13);
    assert("result"@.len() == 6);
    assert("call"@[0] == 'c');
    assert("join"@[0] == 'j');
}

/// Decoding inverts encoding: the wire document of any event decodes back
/// to that same event.
pub proof fn lemma_decode_encode(e: EventModel)
    ensures
        spec_event_from_json(spec_encode(e)) == Ok::<EventModel, Error>(e),
{
    lemma_wire_keys();
    reveal_with_fuel(lookup, 6);
    match e {
        EventModel::Join { room_id, initiator } => {
            let pairs = spec_encode(e)->Obj_0;
            assert(lookup(pairs, "event"@) == Some(JsonModel::Str("join"@)));
            assert(lookup(pairs, "room_id"@) == Some(JsonModel::UInt(room_id.0)));
            assert(lookup(pairs, "initiator"@) == Some(JsonModel::Bool(initiator)));
        }
        EventModel::Call { jsep } => {
            let pairs = spec_encode(e)->Obj_0;
            assert(lookup(pairs, "event"@) == Some(JsonModel::Str("call"@)));
            assert(lookup(pairs, "jsep"@) == Some(spec_encode_jsep(jsep)));
            assert(spec_jsep_from_json(spec_encode_jsep(jsep)) == Ok::<JsepModel, Error>(jsep));
        }
        EventModel::Accept { jsep } => {
            let pairs = spec_encode(e)->Obj_0;
            assert(lookup(pairs, "event"@) == Some(JsonModel::Str("accept"@)));
            assert(lookup(pairs, "jsep"@) == Some(spec_encode_jsep(jsep)));
            assert(spec_jsep_from_json(spec_encode_jsep(jsep)) == Ok::<JsepModel, Error>(jsep));
        }
        EventModel::Candidate { candidate } => {
            let pairs = spec_encode(e)->Obj_0;
            assert(lookup(pairs, "event"@) == Some(JsonModel::Str("candidate"@)));
            assert(lookup(pairs, "candidate"@) == Some(spec_encode_ice(candidate)));
            assert(spec_ice_from_json(spec_encode_ice(candidate)) == Ok::<IceModel, Error>(
                candidate,
            ));
        }
    }
}

/// A valid join document, decoded and encoded again with the `result`
/// injection applied, carries the same `room_id` and `initiator` fields as
/// the document it came from.
pub proof fn lemma_join_document_round_trip(j: JsonModel)
    requires
        spec_event_from_json(j) matches Ok(e) && e matches EventModel::Join { .. },
    ensures
        ({
            let out = spec_with_result(spec_encode(spec_event_from_json(j)->Ok_0));
            &&& field_of(out, "room_id"@) == field_of(j, "room_id"@)
            &&& field_of(out, "initiator"@) == field_of(j, "initiator"@)
        }),
{
    lemma_wire_keys();
    reveal_with_fuel(lookup, 6);
    let e = spec_event_from_json(j)->Ok_0;
    let enc = spec_encode(e);
    let out = spec_with_result(enc);
    assert(e matches EventModel::Join { room_id, initiator } && field_of(j, "room_id"@) == Some(
        JsonModel::UInt(room_id.0),
    ) && field_of(j, "initiator"@) == Some(JsonModel::Bool(initiator)));
    assert(lookup(out->Obj_0, "room_id"@) == lookup(enc->Obj_0, "room_id"@));
    assert(lookup(out->Obj_0, "initiator"@) == lookup(enc->Obj_0, "initiator"@));
}

} // verus!

verus! {

use crate::json::{json_parse, parse_json, with_result_ok, to_text, spec_text};

/// What decoding a raw message text yields: a text that does not parse (or
/// holds a number outside the wire's integer range) is a decode failure;
/// a parsed document decodes strictly.
pub open spec fn spec_decode(s: Seq<char>) -> Result<EventModel, Error> {
    match json_parse(s) {
        Some(j) => spec_event_from_json(j),
        None => Err(Error::Decode),
    }
}

/// Decodes a raw message text into an event.
pub fn decode(msg: &str) -> (r: Result<Event, Error>)
    ensures
        event_result_model(r) == spec_decode(msg@),
{
    match parse_json(msg) {
        Some(j) => event_from_json(&j),
        None => Err(Error::Decode),
    }
}

/// Builds the deliverable form of an event: its wire document with
/// `"result": "ok"` injected when absent.
pub fn prepare_response(event: &Event) -> (r: JsonVal)
    ensures
        r@ == spec_with_result(spec_encode(event@)),
{
    with_result_ok(encode(event))
}

/// Serializes the deliverable form of an event: what the host hands the
/// peer once a relay instruction resolves.
pub fn render_response(event: &Event) -> (r: String)
    ensures
        r@ == spec_text(spec_with_result(spec_encode(event@))),
{
    let payload = prepare_response(event);
    to_text(&payload)
}

/// Processes one raw message for a session: decodes it and runs the engine.
/// A message that does not decode leaves the registry unchanged and reports
/// the decode failure; a decoded event takes one `spec_step`.
pub fn process(reg: &mut Registry, sid: SessionId, msg: &str) -> (r: Result<Response, Error>)
    requires
        old(reg).wf(),
        old(reg)@.sessions.contains_key(sid.0),
    ensures
        final(reg).wf(),
        (match spec_decode(msg@) {
            Ok(ev) => final(reg)@ == spec_step(old(reg)@, sid.0, ev).0 && response_result_model(r)
                == spec_step(old(reg)@, sid.0, ev).1,
            Err(er) => final(reg)@ == old(reg)@ && r == Err::<Response, Error>(er),
        }),
{
    match decode(msg) {
        Ok(ev) => handle_event(reg, sid, ev),
        Err(er) => Err(er),
    }
}

} // verus!
