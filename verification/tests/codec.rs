//! Tests for the wire codec: decoding raw documents, encoding events, the
//! `result: "ok"` injection, and the exact serialized text.

use p2p_signal::json::{to_text, with_result_ok, JsonVal};
use p2p_signal::messages::{
    decode, encode, prepare_response, render_response, Error, Event, IceCandidate, JsepKind,
};
use p2p_signal::RoomId;

#[test]
fn decode_join() {
    let e = decode("{\"event\":\"join\",\"room_id\":42,\"initiator\":true}").unwrap();
    match e {
        Event::Join { room_id, initiator } => {
            assert_eq!(room_id, RoomId(42));
            assert!(initiator);
        }
        _ => panic!("expected a join event"),
    }
}

#[test]
fn decode_call_offer() {
    let e = decode("{\"event\":\"call\",\"jsep\":{\"type\":\"offer\",\"sdp\":\"v=0\"}}").unwrap();
    match e {
        Event::Call { jsep: JsepKind::Offer { sdp } } => assert_eq!(sdp, "v=0"),
        _ => panic!("expected a call event carrying an offer"),
    }
}

#[test]
fn decode_accept_answer() {
    let e =
        decode("{\"event\":\"accept\",\"jsep\":{\"type\":\"answer\",\"sdp\":\"v=0\"}}").unwrap();
    match e {
        Event::Accept { jsep: JsepKind::Answer { sdp } } => assert_eq!(sdp, "v=0"),
        _ => panic!("expected an accept event carrying an answer"),
    }
}

#[test]
fn decode_candidate() {
    let e = decode(
        "{\"event\":\"candidate\",\"candidate\":{\"candidate\":\"candidate:0\",\"sdpMid\":\"audio\",\"sdpMLineIndex\":3}}",
    )
    .unwrap();
    match e {
        Event::Candidate { candidate } => {
            assert_eq!(candidate.candidate, "candidate:0");
            assert_eq!(candidate.sdp_mid, "audio");
            assert_eq!(candidate.sdp_m_line_index, 3);
        }
        _ => panic!("expected a candidate event"),
    }
}

#[test]
fn decode_ignores_extra_fields() {
    let e = decode("{\"event\":\"join\",\"room_id\":1,\"initiator\":false,\"extra\":null}")
        .unwrap();
    match e {
        Event::Join { room_id, initiator } => {
            assert_eq!(room_id, RoomId(1));
            assert!(!initiator);
        }
        _ => panic!("expected a join event"),
    }
}

#[test]
fn decode_is_strict() {
    // Not JSON at all.
    assert_eq!(decode("").unwrap_err(), Error::Decode);
    assert_eq!(decode("not json").unwrap_err(), Error::Decode);
    // No discriminator, or an unknown one.
    assert_eq!(decode("{}").unwrap_err(), Error::Decode);
    assert_eq!(decode("{\"event\":\"leave\"}").unwrap_err(), Error::Decode);
    // A mistyped discriminator.
    assert_eq!(decode("{\"event\":7}").unwrap_err(), Error::Decode);
    // Missing required fields.
    assert_eq!(
        decode("{\"event\":\"join\",\"room_id\":42}").unwrap_err(),
        Error::Decode
    );
    assert_eq!(
        decode("{\"event\":\"join\",\"initiator\":true}").unwrap_err(),
        Error::Decode
    );
    assert_eq!(decode("{\"event\":\"call\"}").unwrap_err(), Error::Decode);
    // Mistyped required fields.
    assert_eq!(
        decode("{\"event\":\"join\",\"room_id\":\"42\",\"initiator\":true}").unwrap_err(),
        Error::Decode
    );
    assert_eq!(
        decode("{\"event\":\"join\",\"room_id\":-1,\"initiator\":true}").unwrap_err(),
        Error::Decode
    );
    assert_eq!(
        decode("{\"event\":\"join\",\"room_id\":4.5,\"initiator\":true}").unwrap_err(),
        Error::Decode
    );
    // An unknown jsep discriminator.
    assert_eq!(
        decode("{\"event\":\"call\",\"jsep\":{\"type\":\"rollback\",\"sdp\":\"v=0\"}}")
            .unwrap_err(),
        Error::Decode
    );
    // A candidate line index that does not fit in sixteen bits.
    assert_eq!(
        decode(
            "{\"event\":\"candidate\",\"candidate\":{\"candidate\":\"c\",\"sdpMid\":\"0\",\"sdpMLineIndex\":65536}}"
        )
        .unwrap_err(),
        Error::Decode
    );
}

#[test]
fn encode_join_exact_text() {
    let e = Event::Join { room_id: RoomId(42), initiator: true };
    assert_eq!(
        to_text(&encode(&e)),
        "{\"event\":\"join\",\"room_id\":42,\"initiator\":true}"
    );
}

#[test]
fn round_trip_join_document() {
    let text = "{\"event\":\"join\",\"room_id\":42,\"initiator\":true}";
    let e = decode(text).unwrap();
    // Re-encoding the decoded event, with the delivery injection applied,
    // keeps the semantic fields and adds only `result`.
    assert_eq!(
        render_response(&e),
        "{\"event\":\"join\",\"room_id\":42,\"initiator\":true,\"result\":\"ok\"}"
    );
    // Without the injection the round trip reproduces the document exactly.
    assert_eq!(to_text(&encode(&e)), text);
}

#[test]
fn round_trip_every_event_kind() {
    let texts = [
        "{\"event\":\"join\",\"room_id\":0,\"initiator\":false}",
        "{\"event\":\"call\",\"jsep\":{\"type\":\"offer\",\"sdp\":\"v=0\"}}",
        "{\"event\":\"accept\",\"jsep\":{\"type\":\"answer\",\"sdp\":\"v=0\"}}",
        "{\"event\":\"candidate\",\"candidate\":{\"candidate\":\"c\",\"sdpMid\":\"0\",\"sdpMLineIndex\":9}}",
    ];
    for text in texts {
        let e = decode(text).unwrap();
        assert_eq!(to_text(&encode(&e)), text);
    }
}

#[test]
fn prepare_response_injects_result_once() {
    let e = Event::Call { jsep: JsepKind::Offer { sdp: "v=0...".to_owned() } };
    assert_eq!(
        to_text(&prepare_response(&e)),
        "{\"event\":\"call\",\"jsep\":{\"type\":\"offer\",\"sdp\":\"v=0...\"},\"result\":\"ok\"}"
    );
    // A document that already carries `result` is left unchanged.
    let mut pairs: Vec<(String, JsonVal)> = Vec::new();
    pairs.push(("result".to_owned(), JsonVal::Str("join".to_owned())));
    let doc = JsonVal::Obj(pairs);
    assert_eq!(to_text(&with_result_ok(doc)), "{\"result\":\"join\"}");
}

#[test]
fn serializer_handles_every_value_form() {
    let mut items: Vec<JsonVal> = Vec::new();
    items.push(JsonVal::Null);
    items.push(JsonVal::Bool(false));
    items.push(JsonVal::UInt(0));
    items.push(JsonVal::UInt(18446744073709551615));
    items.push(JsonVal::Str(String::new()));
    items.push(JsonVal::Arr(Vec::new()));
    items.push(JsonVal::Obj(Vec::new()));
    assert_eq!(
        to_text(&JsonVal::Arr(items)),
        "[null,false,0,18446744073709551615,\"\",[],{}]"
    );
}

#[test]
fn serializer_escapes_strings() {
    let sdp = "a\"b\\c\nd\re\tf\u{1}g";
    let e = Event::Call { jsep: JsepKind::Offer { sdp: sdp.to_owned() } };
    assert_eq!(
        to_text(&encode(&e)),
        "{\"event\":\"call\",\"jsep\":{\"type\":\"offer\",\"sdp\":\"a\\\"b\\\\c\\nd\\re\\tf\\u0001g\"}}"
    );
}

#[test]
fn serialized_text_is_json_serde_agrees() {
    // The verified serializer's output parses back, through serde_json, to
    // the same value the text came from.
    let candidate = IceCandidate {
        candidate: "candidate:1 1 UDP 2122252543 192.0.2.1 54321 typ host".to_owned(),
        sdp_mid: "a\"b\\c\nd".to_owned(),
        sdp_m_line_index: 65535,
    };
    let e = Event::Candidate { candidate };
    let text = render_response(&e);
    let reparsed: serde_json::Value = serde_json::from_str(&text).unwrap();
    let expected: serde_json::Value = serde_json::from_str(
        "{\"event\":\"candidate\",\"candidate\":{\"candidate\":\"candidate:1 1 UDP 2122252543 192.0.2.1 54321 typ host\",\"sdpMid\":\"a\\\"b\\\\c\\nd\",\"sdpMLineIndex\":65535},\"result\":\"ok\"}",
    )
    .unwrap();
    assert_eq!(reparsed, expected);
}

#[test]
fn decode_duplicate_keys_last_wins() {
    // The parser collapses duplicate keys to the last occurrence.
    let e = decode("{\"event\":\"join\",\"room_id\":1,\"room_id\":2,\"initiator\":true}")
        .unwrap();
    match e {
        Event::Join { room_id, .. } => assert_eq!(room_id, RoomId(2)),
        _ => panic!("expected a join event"),
    }
}

#[test]
fn decode_largest_room_id() {
    let e = decode("{\"event\":\"join\",\"room_id\":18446744073709551615,\"initiator\":false}")
        .unwrap();
    match e {
        Event::Join { room_id, .. } => assert_eq!(room_id, RoomId(18446744073709551615)),
        _ => panic!("expected a join event"),
    }
    // One past the largest unsigned 64-bit integer no longer decodes.
    assert_eq!(
        decode("{\"event\":\"join\",\"room_id\":18446744073709551616,\"initiator\":false}")
            .unwrap_err(),
        Error::Decode
    );
}
