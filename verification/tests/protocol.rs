use socket_protocol::channel::{
    encode_message, two_frame_fifo, two_message_fifo, wire_round_trip, Channel, ChannelError,
    ReadEvent, ReceiveStep,
};
use socket_protocol::codec::{decode, encode, CodecError};

fn sample_object() -> serde_json::Value {
    let mut map = serde_json::Map::new();
    map.insert(
        String::from("kind"),
        serde_json::Value::String(String::from("health")),
    );
    map.insert(
        String::from("count"),
        serde_json::Value::Number(serde_json::Number::from(3)),
    );
    map.insert(
        String::from("tags"),
        serde_json::Value::Array(vec![
            serde_json::Value::Bool(true),
            serde_json::Value::Null,
        ]),
    );
    serde_json::Value::Object(map)
}

#[test]
fn codec_round_trips_an_object() {
    let v = sample_object();
    let text = encode(&v).unwrap();
    let back = decode(text).unwrap();
    assert_eq!(back, v);
}

#[test]
fn encode_escapes_embedded_newlines() {
    let v = serde_json::Value::String(String::from("line one\nline two"));
    let text = encode(&v).unwrap();
    assert!(!text.contains('\n'));
    let back = decode(text).unwrap();
    assert_eq!(back, v);
}

#[test]
fn decode_failure_carries_the_exact_text() {
    let r = decode(String::from("this is not json"));
    match r {
        Err(CodecError::DecodingError { raw }) => assert_eq!(raw, "this is not json"),
        _ => panic!("expected a decoding failure"),
    }
}

#[test]
fn wire_round_trip_returns_the_message() {
    match wire_round_trip(sample_object()) {
        ReceiveStep::Received(w) => assert_eq!(w, sample_object()),
        _ => panic!("expected the message back"),
    }
}

#[test]
fn encode_message_appends_one_terminator() {
    let line = encode_message(&serde_json::Value::Bool(true)).unwrap();
    assert_eq!(line, "true\n");
}

#[test]
fn two_messages_arrive_in_send_order() {
    let v1 = serde_json::Value::String(String::from("first"));
    let v2 = serde_json::Value::String(String::from("second"));
    let (r1, r2) = two_message_fifo(v1.clone(), v2.clone());
    match r1 {
        ReceiveStep::Received(w) => assert_eq!(w, v1),
        _ => panic!("expected the first message"),
    }
    match r2 {
        ReceiveStep::Received(w) => assert_eq!(w, v2),
        _ => panic!("expected the second message"),
    }
}

#[test]
fn two_frames_arrive_in_send_order() {
    let (f1, f2) = two_frame_fifo("alpha", "beta");
    assert_eq!(f1.unwrap(), "alpha");
    assert_eq!(f2.unwrap(), "beta");
}

#[test]
fn empty_peer_fails_with_empty_message() {
    let mut ch = Channel::new();
    match ch.receive_step(ReadEvent::Eof) {
        ReceiveStep::Fail(ChannelError::EmptyMessage) => (),
        _ => panic!("expected EmptyMessage"),
    }
}

#[test]
fn truncated_frame_fails_with_truncated_message() {
    let mut ch = Channel::new();
    match ch.receive_step(ReadEvent::Chunk(String::from("{\"partial\":"))) {
        ReceiveStep::NeedMore => (),
        _ => panic!("expected to be asked for more input"),
    }
    match ch.receive_step(ReadEvent::Eof) {
        ReceiveStep::Fail(ChannelError::TruncatedMessage) => (),
        _ => panic!("expected TruncatedMessage"),
    }
}

#[test]
fn malformed_line_fails_and_channel_stays_usable() {
    let mut ch = Channel::new();
    match ch.receive_step(ReadEvent::Chunk(String::from("not json\ntrue\n"))) {
        ReceiveStep::Fail(ChannelError::DecodingError { raw }) => assert_eq!(raw, "not json"),
        _ => panic!("expected a decoding failure with the exact text"),
    }
    match ch.receive_step(ReadEvent::Chunk(String::new())) {
        ReceiveStep::Received(w) => assert_eq!(w, serde_json::Value::Bool(true)),
        _ => panic!("expected the next line to still decode"),
    }
}

#[test]
fn read_failure_surfaces_as_read_error() {
    let mut ch = Channel::new();
    match ch.receive_step(ReadEvent::Failed(String::from("connection reset"))) {
        ReceiveStep::Fail(ChannelError::ReadError { detail }) => {
            assert_eq!(detail, "connection reset")
        }
        _ => panic!("expected ReadError"),
    }
}

#[test]
fn frames_split_only_at_terminators() {
    let mut ch = Channel::new();
    ch.feed("{\"a\":");
    assert!(ch.take_frame().is_none());
    ch.feed("1}\n");
    assert_eq!(ch.take_frame().unwrap(), "{\"a\":1}");
    assert!(ch.take_frame().is_none());
}
