use gateway_client::add;
use gateway_client::codec::{decode, encode, DecodeError};
use gateway_client::event::{
    ConnectionProperties, EventData, GatewayEvent, UnavailableGuild, User,
};
use gateway_client::json::Json;
use gateway_client::opcode::OpCode;

fn text(s: &str) -> Json {
    Json::Str(s.to_string())
}

fn object(members: Vec<(&str, Json)>) -> Json {
    Json::Object(members.into_iter().map(|(k, v)| (k.to_string(), v)).collect())
}

fn frame(op: u64, d: Json, s: Option<u32>, t: Option<&str>) -> Json {
    object(vec![
        ("op", Json::UInt(op)),
        ("d", d),
        ("s", s.map(|n| Json::UInt(n as u64)).unwrap_or(Json::Null)),
        ("t", t.map(text).unwrap_or(Json::Null)),
    ])
}

fn properties() -> ConnectionProperties {
    ConnectionProperties {
        os: "linux".to_string(),
        browser: "lib".to_string(),
        device: "lib".to_string(),
    }
}

fn ready_event() -> GatewayEvent {
    GatewayEvent {
        op: OpCode::Dispatch,
        event_data: Some(EventData::Ready {
            v: 10,
            user: User {
                id: "1".to_string(),
                username: "bot".to_string(),
                discriminator: "0001".to_string(),
                avatar: "none".to_string(),
            },
            guilds: vec![
                UnavailableGuild { id: "7".to_string(), unavailable: true },
                UnavailableGuild { id: "8".to_string(), unavailable: false },
            ],
            session_id: "abc".to_string(),
            resume_gateway_url: "wss://x".to_string(),
        }),
        seq: Some(1),
        event_name: Some("READY".to_string()),
    }
}

fn same_after_round_trip(make: fn() -> GatewayEvent) {
    let decoded = decode(encode(make())).unwrap();
    assert_eq!(decoded, make());
}

#[test]
fn it_works() {
    let result = add(2, 2);
    assert_eq!(result, 4);
}

#[test]
fn opcode_tags_are_fixed() {
    let pairs = [
        (OpCode::Dispatch, 0),
        (OpCode::Heartbeat, 1),
        (OpCode::Identify, 2),
        (OpCode::PresenceUpdate, 3),
        (OpCode::VoiceStateUpdate, 4),
        (OpCode::Resume, 6),
        (OpCode::Reconnect, 7),
        (OpCode::RequestGuildMembers, 8),
        (OpCode::InvalidSession, 9),
        (OpCode::Hello, 10),
        (OpCode::HeartbeatACK, 11),
    ];
    for (op, code) in pairs {
        assert_eq!(op.code(), code);
        assert_eq!(OpCode::from_code(code), op);
    }
    assert_eq!(OpCode::from_code(5), OpCode::Unknown(5));
    assert_eq!(OpCode::from_code(42).code(), 42);
}

#[test]
fn heartbeat_is_written_with_its_sequence_number() {
    let j = encode(GatewayEvent::heartbeat(42));
    assert_eq!(j, frame(1, Json::UInt(42), None, None));
}

#[test]
fn identify_is_written_in_wire_shape() {
    let j = encode(GatewayEvent::identify("tok".to_string(), properties(), 513));
    let expected = frame(
        2,
        object(vec![
            ("token", text("tok")),
            (
                "properties",
                object(vec![("os", text("linux")), ("browser", text("lib")), ("device", text("lib"))]),
            ),
            ("intents", Json::UInt(513)),
        ]),
        None,
        None,
    );
    assert_eq!(j, expected);
}

#[test]
fn round_trip_heartbeat() {
    same_after_round_trip(|| GatewayEvent::heartbeat(7));
}

#[test]
fn round_trip_identify() {
    same_after_round_trip(|| GatewayEvent::identify("tok".to_string(), properties(), 1));
}

#[test]
fn round_trip_resume() {
    same_after_round_trip(|| GatewayEvent::resume(99, "tok".to_string(), "abc".to_string()));
}

#[test]
fn round_trip_hello() {
    same_after_round_trip(|| GatewayEvent {
        op: OpCode::Hello,
        event_data: Some(EventData::Hello { heartbeat_interval: 41250 }),
        seq: None,
        event_name: None,
    });
}

#[test]
fn round_trip_ready() {
    same_after_round_trip(ready_event);
}

#[test]
fn round_trip_invalid_session() {
    same_after_round_trip(|| GatewayEvent {
        op: OpCode::InvalidSession,
        event_data: Some(EventData::InvalidSession(false)),
        seq: None,
        event_name: None,
    });
}

#[test]
fn round_trip_dispatch_with_other_payload() {
    same_after_round_trip(|| GatewayEvent {
        op: OpCode::Dispatch,
        event_data: Some(EventData::Other(Json::Object(vec![
            ("content".to_string(), Json::Str("hi".to_string())),
            ("n".to_string(), Json::NumberText("-1.5".to_string())),
        ]))),
        seq: Some(12),
        event_name: Some("MESSAGE_CREATE".to_string()),
    });
}

#[test]
fn round_trip_ack_without_payload() {
    same_after_round_trip(|| GatewayEvent {
        op: OpCode::HeartbeatACK,
        event_data: None,
        seq: None,
        event_name: None,
    });
}

#[test]
fn unknown_opcode_decodes_to_catch_all() {
    let e = decode(frame(42, object(vec![("x", Json::Bool(true))]), Some(3), None)).unwrap();
    assert_eq!(e.op, OpCode::Unknown(42));
    assert_eq!(e.event_data, Some(EventData::Other(object(vec![("x", Json::Bool(true))]))));
    assert_eq!(e.seq, Some(3));
}

#[test]
fn missing_members_read_as_absent() {
    let e = decode(object(vec![("op", Json::UInt(11))])).unwrap();
    assert_eq!(e, GatewayEvent { op: OpCode::HeartbeatACK, event_data: None, seq: None, event_name: None });
}

#[test]
fn first_of_duplicate_keys_is_read() {
    let e = decode(object(vec![("op", Json::UInt(11)), ("op", Json::UInt(10))])).unwrap();
    assert_eq!(e.op, OpCode::HeartbeatACK);
}

#[test]
fn decode_rejects_non_object() {
    assert_eq!(decode(Json::Array(vec![])), Err(DecodeError::NotAnObject));
}

#[test]
fn decode_rejects_bad_opcode() {
    assert_eq!(decode(object(vec![("op", text("1"))])), Err(DecodeError::InvalidOpcode));
    assert_eq!(decode(object(vec![("d", Json::Null)])), Err(DecodeError::InvalidOpcode));
}

#[test]
fn decode_rejects_bad_sequence() {
    let j = object(vec![("op", Json::UInt(0)), ("s", Json::UInt(1u64 << 32))]);
    assert_eq!(decode(j), Err(DecodeError::InvalidSequence));
}

#[test]
fn decode_rejects_bad_event_name() {
    let j = object(vec![("op", Json::UInt(0)), ("t", Json::UInt(1))]);
    assert_eq!(decode(j), Err(DecodeError::InvalidEventName));
}

#[test]
fn decode_rejects_payload_of_wrong_shape() {
    assert_eq!(decode(frame(10, Json::UInt(5), None, None)), Err(DecodeError::InvalidPayload));
    assert_eq!(decode(frame(9, Json::UInt(1), None, None)), Err(DecodeError::InvalidPayload));
    assert_eq!(decode(frame(1, text("x"), None, None)), Err(DecodeError::InvalidPayload));
    let ready_without_user = object(vec![("v", Json::UInt(10)), ("session_id", text("abc"))]);
    assert_eq!(
        decode(frame(0, ready_without_user, Some(1), Some("READY"))),
        Err(DecodeError::InvalidPayload)
    );
}
