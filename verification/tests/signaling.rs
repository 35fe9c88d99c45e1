//! Scenario tests for the room registry and the signaling engine.

use p2p_signal::messages::{handle_event, process, Error, Event, JsepKind, IceCandidate, Response};
use p2p_signal::json::{to_text, with_result_ok};
use p2p_signal::{Registry, Room, RoomId, RoomMember, SessionId};

fn offer(sdp: &str) -> Event {
    Event::Call { jsep: JsepKind::Offer { sdp: sdp.to_owned() } }
}

fn answer(sdp: &str) -> Event {
    Event::Accept { jsep: JsepKind::Answer { sdp: sdp.to_owned() } }
}

fn ice() -> Event {
    Event::Candidate {
        candidate: IceCandidate {
            candidate: "candidate:1 1 UDP 2122252543 192.0.2.1 54321 typ host".to_owned(),
            sdp_mid: "0".to_owned(),
            sdp_m_line_index: 0,
        },
    }
}

fn join(room: u64, initiator: bool) -> Event {
    Event::Join { room_id: RoomId(room), initiator }
}

#[test]
fn create_session_hands_out_fresh_ids() {
    let mut reg = Registry::new();
    let a = reg.create_session();
    let b = reg.create_session();
    assert_ne!(a, b);
    assert!(reg.is_session(a));
    assert!(reg.is_session(b));
    assert!(!reg.is_session(SessionId(999)));
}

#[test]
fn join_sets_state_once() {
    let mut reg = Registry::new();
    let a = reg.create_session();
    handle_event(&mut reg, a, join(7, true)).unwrap();
    let st = reg.session_state(a).unwrap();
    assert_eq!(st.room_id, Some(RoomId(7)));
    assert_eq!(st.initiator, Some(true));
    // A second join is ignored for the session's own fields: first join wins.
    handle_event(&mut reg, a, join(9, false)).unwrap();
    let st = reg.session_state(a).unwrap();
    assert_eq!(st.room_id, Some(RoomId(7)));
    assert_eq!(st.initiator, Some(true));
}

#[test]
fn join_acknowledges_role() {
    let mut reg = Registry::new();
    let a = reg.create_session();
    let resp = handle_event(&mut reg, a, join(7, true)).unwrap();
    match resp {
        Response::Join { peer, payload } => {
            assert_eq!(peer, a);
            assert_eq!(
                to_text(&payload),
                "{\"result\":\"join\",\"full\":false,\"you\":\"caller\"}"
            );
        }
        _ => panic!("join must produce a join acknowledgment"),
    }
    let b = reg.create_session();
    let resp = handle_event(&mut reg, b, join(7, false)).unwrap();
    match resp {
        Response::Join { peer, payload } => {
            assert_eq!(peer, b);
            assert_eq!(
                to_text(&payload),
                "{\"result\":\"join\",\"full\":false,\"you\":\"callee\"}"
            );
        }
        _ => panic!("join must produce a join acknowledgment"),
    }
}

#[test]
fn pair_up_populates_both_slots() {
    let mut reg = Registry::new();
    let a = reg.create_session();
    let b = reg.create_session();
    assert!(reg.is_new(RoomId(42)));
    handle_event(&mut reg, a, join(42, true)).unwrap();
    assert!(!reg.is_new(RoomId(42)));
    handle_event(&mut reg, b, join(42, false)).unwrap();
    let room = reg.room(RoomId(42)).unwrap();
    assert_eq!(room.caller, Some(a));
    assert_eq!(room.callee, Some(b));
}

#[test]
fn call_relays_to_callee_with_ok_result() {
    let mut reg = Registry::new();
    let a = reg.create_session();
    let b = reg.create_session();
    handle_event(&mut reg, a, join(42, true)).unwrap();
    handle_event(&mut reg, b, join(42, false)).unwrap();
    let resp = handle_event(&mut reg, a, offer("v=0...")).unwrap();
    match resp {
        Response::Call { peer, payload } => {
            assert_eq!(peer, b);
            assert_eq!(
                to_text(&with_result_ok(payload)),
                "{\"event\":\"call\",\"jsep\":{\"type\":\"offer\",\"sdp\":\"v=0...\"},\"result\":\"ok\"}"
            );
        }
        _ => panic!("call must relay to the callee"),
    }
}

#[test]
fn accept_relays_to_caller() {
    let mut reg = Registry::new();
    let a = reg.create_session();
    let b = reg.create_session();
    handle_event(&mut reg, a, join(42, true)).unwrap();
    handle_event(&mut reg, b, join(42, false)).unwrap();
    let resp = handle_event(&mut reg, b, answer("v=0...")).unwrap();
    match resp {
        Response::Accept { peer, .. } => assert_eq!(peer, a),
        _ => panic!("accept must relay to the caller"),
    }
}

#[test]
fn call_before_callee_fails_empty_peer() {
    let mut reg = Registry::new();
    let a = reg.create_session();
    handle_event(&mut reg, a, join(42, true)).unwrap();
    let r = handle_event(&mut reg, a, offer("v=0..."));
    assert_eq!(r.unwrap_err(), Error::EmptyPeer);
    // No relay was produced and the room is untouched.
    let room = reg.room(RoomId(42)).unwrap();
    assert_eq!(room.caller, Some(a));
    assert_eq!(room.callee, None);
}

#[test]
fn accept_before_caller_fails_empty_peer() {
    let mut reg = Registry::new();
    let b = reg.create_session();
    handle_event(&mut reg, b, join(42, false)).unwrap();
    let r = handle_event(&mut reg, b, answer("v=0..."));
    assert_eq!(r.unwrap_err(), Error::EmptyPeer);
}

#[test]
fn event_without_room_fails_no_room() {
    let mut reg = Registry::new();
    let a = reg.create_session();
    let r = handle_event(&mut reg, a, offer("v=0..."));
    assert_eq!(r.unwrap_err(), Error::NoRoom);
}

#[test]
fn candidate_routes_by_role() {
    let mut reg = Registry::new();
    let a = reg.create_session();
    let b = reg.create_session();
    handle_event(&mut reg, a, join(42, true)).unwrap();
    handle_event(&mut reg, b, join(42, false)).unwrap();
    match handle_event(&mut reg, a, ice()).unwrap() {
        Response::Candidate { peer, .. } => assert_eq!(peer, b),
        _ => panic!("initiator candidate must go to the callee"),
    }
    match handle_event(&mut reg, b, ice()).unwrap() {
        Response::Candidate { peer, .. } => assert_eq!(peer, a),
        _ => panic!("non-initiator candidate must go to the caller"),
    }
}

#[test]
fn candidate_with_empty_target_fails_empty_peer() {
    let mut reg = Registry::new();
    let a = reg.create_session();
    handle_event(&mut reg, a, join(42, true)).unwrap();
    let r = handle_event(&mut reg, a, ice());
    assert_eq!(r.unwrap_err(), Error::EmptyPeer);
}

#[test]
fn destroying_last_member_removes_room() {
    let mut reg = Registry::new();
    let a = reg.create_session();
    handle_event(&mut reg, a, join(42, true)).unwrap();
    reg.destroy_session(a);
    assert!(!reg.is_session(a));
    assert!(reg.is_new(RoomId(42)));
}

#[test]
fn destroying_one_of_two_clears_one_slot() {
    let mut reg = Registry::new();
    let a = reg.create_session();
    let b = reg.create_session();
    handle_event(&mut reg, a, join(42, true)).unwrap();
    handle_event(&mut reg, b, join(42, false)).unwrap();
    reg.destroy_session(a);
    let room = reg.room(RoomId(42)).unwrap();
    assert_eq!(room.caller, None);
    assert_eq!(room.callee, Some(b));
    reg.destroy_session(b);
    assert!(reg.is_new(RoomId(42)));
}

#[test]
fn destroying_unknown_session_is_a_no_op() {
    let mut reg = Registry::new();
    let a = reg.create_session();
    handle_event(&mut reg, a, join(42, true)).unwrap();
    reg.destroy_session(SessionId(999));
    assert!(reg.is_session(a));
    assert!(!reg.is_new(RoomId(42)));
}

#[test]
fn stale_slot_resolves_to_peer_has_gone() {
    let mut reg = Registry::new();
    // `s` joins room 5 as callee, then sends a join for room 7 as initiator.
    // Its own fields keep their first values (room 5, not initiator), but the
    // caller slot of room 7 now holds `s`.
    let s = reg.create_session();
    handle_event(&mut reg, s, join(5, false)).unwrap();
    handle_event(&mut reg, s, join(7, true)).unwrap();
    assert_eq!(reg.room(RoomId(7)).unwrap().caller, Some(s));
    // Tearing `s` down clears its recorded slot (callee of room 5), so the
    // caller slot of room 7 is left holding a stale identifier.
    reg.destroy_session(s);
    assert!(reg.is_new(RoomId(5)));
    assert_eq!(reg.room(RoomId(7)).unwrap().caller, Some(s));
    // A callee joining room 7 and answering now finds the peer gone.
    let t = reg.create_session();
    handle_event(&mut reg, t, join(7, false)).unwrap();
    let r = handle_event(&mut reg, t, answer("v=0..."));
    assert_eq!(r.unwrap_err(), Error::PeerHasGone);
}

#[test]
fn process_runs_decode_then_engine() {
    let mut reg = Registry::new();
    let a = reg.create_session();
    let b = reg.create_session();
    process(&mut reg, a, "{\"event\":\"join\",\"room_id\":42,\"initiator\":true}").unwrap();
    process(&mut reg, b, "{\"event\":\"join\",\"room_id\":42,\"initiator\":false}").unwrap();
    let resp = process(
        &mut reg,
        a,
        "{\"event\":\"call\",\"jsep\":{\"type\":\"offer\",\"sdp\":\"v=0...\"}}",
    )
    .unwrap();
    match resp {
        Response::Call { peer, payload } => {
            assert_eq!(peer, b);
            assert_eq!(
                to_text(&with_result_ok(payload)),
                "{\"event\":\"call\",\"jsep\":{\"type\":\"offer\",\"sdp\":\"v=0...\"},\"result\":\"ok\"}"
            );
        }
        _ => panic!("call must relay to the callee"),
    }
}

#[test]
fn process_reports_decode_failure_and_changes_nothing() {
    let mut reg = Registry::new();
    let a = reg.create_session();
    let r = process(&mut reg, a, "not json at all");
    assert_eq!(r.unwrap_err(), Error::Decode);
    assert_eq!(reg.session_state(a).unwrap().room_id, None);
}

#[test]
fn error_messages() {
    assert_eq!(Error::Decode.message(), "Cannot decode message");
    assert_eq!(Error::EmptyPeer.message(), "Peer is empty");
    assert_eq!(Error::PeerHasGone.message(), "Peer has gone");
    assert_eq!(Error::NoRoom.message(), "No room");
}

#[test]
fn room_member_slots() {
    let mut room = Room::new(RoomId(1));
    assert!(room.is_empty());
    room.add_member(RoomMember::Caller(SessionId(0)));
    assert!(!room.is_empty());
    room.add_member(RoomMember::Callee(SessionId(1)));
    assert_eq!(room.caller, Some(SessionId(0)));
    assert_eq!(room.callee, Some(SessionId(1)));
}

#[test]
fn registry_keeps_occupied_rooms() {
    let mut reg = Registry::new();
    let a = reg.create_session();
    let mut room = Room::new(RoomId(9));
    room.add_member(RoomMember::Caller(a));
    reg.create(room);
    assert!(!reg.is_new(RoomId(9)));
    // Removal is reserved for empty rooms: an occupied room stays.
    reg.remove_if_empty(RoomId(9));
    assert!(!reg.is_new(RoomId(9)));
}
