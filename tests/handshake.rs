use gateway_client::event::{ConnectionProperties, EventData, GatewayEvent};
use gateway_client::handshake::{GatewayInit, Handshake, HandshakeStep};
use gateway_client::json::Json;
use gateway_client::opcode::OpCode;
use gateway_client::session::{GatewayConfig, GatewayError, Session, Violation};

fn text(s: &str) -> Json {
    Json::Str(s.to_string())
}

fn object(members: Vec<(&str, Json)>) -> Json {
    Json::Object(members.into_iter().map(|(k, v)| (k.to_string(), v)).collect())
}

fn frame(op: u64, d: Json, s: Option<u32>, t: Option<&str>) -> Json {
    object(vec![
        ("op", Json::UInt(op)),
        ("d", d),
        ("s", s.map(|n| Json::UInt(n as u64)).unwrap_or(Json::Null)),
        ("t", t.map(text).unwrap_or(Json::Null)),
    ])
}

fn hello(interval: u64) -> Json {
    frame(10, object(vec![("heartbeat_interval", Json::UInt(interval))]), None, None)
}

fn ack() -> Json {
    frame(11, Json::Null, None, None)
}

fn ready(session_id: &str, resume_url: &str, seq: u32) -> Json {
    let user = object(vec![
        ("id", text("1")),
        ("username", text("bot")),
        ("discriminator", text("0001")),
        ("avatar", text("none")),
    ]);
    let d = object(vec![
        ("v", Json::UInt(10)),
        ("user", user),
        ("guilds", Json::Array(vec![])),
        ("session_id", text(session_id)),
        ("resume_gateway_url", text(resume_url)),
    ]);
    frame(0, d, Some(seq), Some("READY"))
}

fn init() -> GatewayInit {
    GatewayInit {
        token: "tok".to_string(),
        bot: false,
        intents: 0,
        conn_properties: ConnectionProperties {
            os: "linux".to_string(),
            browser: "lib".to_string(),
            device: "lib".to_string(),
        },
    }
}

fn fresh() -> Handshake {
    Handshake::new(init(), &GatewayConfig::standard())
}

fn expect_continue(r: Result<HandshakeStep, GatewayError>) -> (Handshake, u64, GatewayEvent) {
    match r {
        Ok(HandshakeStep::Continue { next, delay_ms, frame }) => (next, delay_ms, frame),
        other => panic!("expected the handshake to continue, got {:?}", other),
    }
}

#[test]
fn happy_path_reaches_established() {
    let (h, delay, first) = expect_continue(fresh().on_frame(hello(1000)));
    assert_eq!(delay, 50);
    assert_eq!(first, GatewayEvent::heartbeat(0));
    let (h, delay, identify) = expect_continue(h.on_frame(ack()));
    assert_eq!(delay, 0);
    assert_eq!(identify.op, OpCode::Identify);
    match &identify.event_data {
        Some(EventData::Identify { token, intents, .. }) => {
            assert_eq!(token, "tok");
            assert_eq!(*intents, 0);
        }
        other => panic!("expected an Identify payload, got {:?}", other),
    }
    match h.on_frame(ready("abc", "wss://x", 1)) {
        Ok(HandshakeStep::Established { session, frame }) => {
            assert_eq!(session.session_id, "abc");
            assert_eq!(session.resume_url, "wss://x");
            assert_eq!(session.last_seq, 1);
            assert_eq!(session.heartbeat_interval, 1000);
            assert!(frame.is_none());
        }
        other => panic!("expected an established session, got {:?}", other),
    }
}

#[test]
fn first_frame_must_be_hello() {
    let r = fresh().on_frame(ack());
    assert_eq!(r, Err(GatewayError::ProtocolViolation(Violation::ExpectedHello)));
    let r = fresh().on_frame(ready("abc", "wss://x", 1));
    assert_eq!(r, Err(GatewayError::ProtocolViolation(Violation::ExpectedHello)));
}

#[test]
fn heartbeat_must_be_acknowledged_before_identify() {
    let (h, _, _) = expect_continue(fresh().on_frame(hello(1000)));
    let r = h.on_frame(frame(0, Json::Null, Some(1), Some("MESSAGE_CREATE")));
    assert_eq!(r, Err(GatewayError::ProtocolViolation(Violation::NoHeartbeatAck)));
    let (h, _, _) = expect_continue(fresh().on_frame(hello(1000)));
    let r = h.on_frame(hello(1000));
    assert_eq!(r, Err(GatewayError::ProtocolViolation(Violation::NoHeartbeatAck)));
}

#[test]
fn invalid_session_instead_of_ready_fails() {
    let (h, _, _) = expect_continue(fresh().on_frame(hello(1000)));
    let (h, _, _) = expect_continue(h.on_frame(ack()));
    let r = h.on_frame(frame(9, Json::Bool(false), None, None));
    assert_eq!(r, Err(GatewayError::Invalidated));
}

#[test]
fn other_frame_instead_of_ready_fails() {
    let (h, _, _) = expect_continue(fresh().on_frame(hello(1000)));
    let (h, _, _) = expect_continue(h.on_frame(ack()));
    let r = h.on_frame(ack());
    assert_eq!(r, Err(GatewayError::ProtocolViolation(Violation::ExpectedReady)));
}

#[test]
fn malformed_frame_is_a_decode_error() {
    let r = fresh().on_frame(Json::Null);
    assert!(matches!(r, Err(GatewayError::Decode(_))));
}

#[test]
fn jitter_divisor_is_configurable() {
    let config = GatewayConfig { api_version: 10, jitter_divisor: 4, max_missed_acks: 2 };
    let (_, delay, _) = expect_continue(Handshake::new(init(), &config).on_frame(hello(41250)));
    assert_eq!(delay, 10312);
}

#[test]
fn resume_sends_resume_and_establishes() {
    let old = Session {
        session_id: "abc".to_string(),
        resume_url: "wss://x".to_string(),
        last_seq: 17,
        heartbeat_interval: 1000,
    };
    let h = Handshake::resume("tok".to_string(), old, &GatewayConfig::standard());
    let (h, delay, first) = expect_continue(h.on_frame(hello(2000)));
    assert_eq!(delay, 100);
    assert_eq!(first, GatewayEvent::heartbeat(0));
    match h.on_frame(ack()) {
        Ok(HandshakeStep::Established { session, frame }) => {
            assert_eq!(session.session_id, "abc");
            assert_eq!(session.last_seq, 17);
            assert_eq!(session.heartbeat_interval, 2000);
            assert_eq!(frame, Some(GatewayEvent::resume(17, "tok".to_string(), "abc".to_string())));
        }
        other => panic!("expected an established session, got {:?}", other),
    }
}

#[test]
fn short_interval_still_delays_first_heartbeat() {
    let (_, delay, _) = expect_continue(fresh().on_frame(hello(10)));
    assert_eq!(delay, 1);
    let (_, delay, _) = expect_continue(fresh().on_frame(hello(2)));
    assert_eq!(delay, 1);
    let (_, delay, _) = expect_continue(fresh().on_frame(hello(40)));
    assert_eq!(delay, 2);
}
