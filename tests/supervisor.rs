use gateway_client::codec::DecodeError;
use gateway_client::event::{ConnectionProperties, GatewayEvent};
use gateway_client::handshake::Login;
use gateway_client::json::Json;
use gateway_client::opcode::OpCode;
use gateway_client::session::{GatewayConfig, Session, Violation};
use gateway_client::supervisor::{next_login, Outcome, Supervisor, SupervisorAction, SupervisorInput};

fn text(s: &str) -> Json {
    Json::Str(s.to_string())
}

fn frame(op: u64, d: Json, s: Option<u32>, t: Option<&str>) -> SupervisorInput {
    SupervisorInput::Frame(Json::Object(vec![
        ("op".to_string(), Json::UInt(op)),
        ("d".to_string(), d),
        ("s".to_string(), s.map(|n| Json::UInt(n as u64)).unwrap_or(Json::Null)),
        ("t".to_string(), t.map(text).unwrap_or(Json::Null)),
    ]))
}

fn session(last_seq: u32) -> Session {
    Session {
        session_id: "abc".to_string(),
        resume_url: "wss://x".to_string(),
        last_seq,
        heartbeat_interval: 1000,
    }
}

fn dispatch(seq: u32) -> SupervisorInput {
    frame(0, Json::Object(vec![("k".to_string(), Json::UInt(1))]), Some(seq), Some("MESSAGE_CREATE"))
}

fn properties() -> ConnectionProperties {
    ConnectionProperties { os: "linux".to_string(), browser: "lib".to_string(), device: "lib".to_string() }
}

#[test]
fn timer_heartbeat_carries_last_seq() {
    let mut s = Supervisor::new(session(5), &GatewayConfig::standard());
    assert_eq!(s.on_input(SupervisorInput::HeartbeatDue), SupervisorAction::SendHeartbeat(GatewayEvent::heartbeat(5)));
    assert_eq!(s.session.last_seq, 5);
}

#[test]
fn server_heartbeat_request_is_answered_at_once() {
    let mut s = Supervisor::new(session(1), &GatewayConfig::standard());
    let a = s.on_input(frame(1, Json::UInt(42), Some(42), None));
    assert_eq!(a, SupervisorAction::SendHeartbeat(GatewayEvent::heartbeat(42)));
    assert!(s.is_running());
}

#[test]
fn acknowledgement_asks_for_nothing() {
    let mut s = Supervisor::new(session(3), &GatewayConfig::standard());
    assert_eq!(s.on_input(frame(11, Json::Null, None, None)), SupervisorAction::Idle);
    assert!(s.is_running());
}

#[test]
fn dispatch_is_forwarded_whole() {
    let mut s = Supervisor::new(session(0), &GatewayConfig::standard());
    match s.on_input(dispatch(8)) {
        SupervisorAction::Forward(e) => {
            assert_eq!(e.op, OpCode::Dispatch);
            assert_eq!(e.seq, Some(8));
            assert_eq!(e.event_name, Some("MESSAGE_CREATE".to_string()));
        }
        other => panic!("expected a forwarded dispatch, got {:?}", other),
    }
}

#[test]
fn last_seq_is_the_maximum_seen() {
    let mut s = Supervisor::new(session(2), &GatewayConfig::standard());
    for n in [5u32, 3, 9, 7] {
        s.on_input(dispatch(n));
    }
    s.on_input(frame(11, Json::Null, None, None));
    assert_eq!(s.session.last_seq, 9);
    assert_eq!(s.on_input(SupervisorInput::HeartbeatDue), SupervisorAction::SendHeartbeat(GatewayEvent::heartbeat(9)));
}

#[test]
fn heartbeat_after_each_frame_carries_that_frames_maximum() {
    let mut s = Supervisor::new(session(0), &GatewayConfig::standard());
    s.on_input(dispatch(4));
    assert_eq!(s.on_input(SupervisorInput::HeartbeatDue), SupervisorAction::SendHeartbeat(GatewayEvent::heartbeat(4)));
    s.on_input(dispatch(6));
    assert_eq!(s.on_input(SupervisorInput::HeartbeatDue), SupervisorAction::SendHeartbeat(GatewayEvent::heartbeat(6)));
}

#[test]
fn resumable_invalid_session_requests_resume() {
    let mut s = Supervisor::new(session(0), &GatewayConfig::standard());
    s.on_input(dispatch(11));
    let a = s.on_input(frame(9, Json::Bool(true), None, None));
    assert_eq!(a, SupervisorAction::Stop(Outcome::ResumeRequested { seq: 11 }));
    assert!(!s.is_running());
    assert_eq!(s.on_input(dispatch(12)), SupervisorAction::Idle);
    assert_eq!(s.session.last_seq, 11);
}

#[test]
fn non_resumable_invalid_session_invalidates() {
    let mut s = Supervisor::new(session(4), &GatewayConfig::standard());
    let a = s.on_input(frame(9, Json::Bool(false), None, None));
    assert_eq!(a, SupervisorAction::Stop(Outcome::Invalidated));
    let next = next_login(Outcome::Invalidated, s.session.clone(), "tok".to_string(), properties(), 0);
    match next {
        Some(Login::Identify { token, .. }) => assert_eq!(token, "tok"),
        other => panic!("expected a fresh Identify, got {:?}", other),
    }
}

#[test]
fn reconnect_requests_resume() {
    let mut s = Supervisor::new(session(6), &GatewayConfig::standard());
    let a = s.on_input(frame(7, Json::Null, None, None));
    assert_eq!(a, SupervisorAction::Stop(Outcome::ResumeRequested { seq: 6 }));
}

#[test]
fn resume_requested_resumes_from_its_sequence_number() {
    let next = next_login(Outcome::ResumeRequested { seq: 30 }, session(6), "tok".to_string(), properties(), 0);
    match next {
        Some(Login::Resume { token, session }) => {
            assert_eq!(token, "tok");
            assert_eq!(session.session_id, "abc");
            assert_eq!(session.last_seq, 30);
        }
        other => panic!("expected a Resume, got {:?}", other),
    }
    assert_eq!(next_login(Outcome::GracefulStop, session(6), "tok".to_string(), properties(), 0), None);
}

#[test]
fn unexpected_opcode_is_a_protocol_error() {
    let mut s = Supervisor::new(session(0), &GatewayConfig::standard());
    let a = s.on_input(frame(2, Json::Null, None, None));
    assert_eq!(a, SupervisorAction::Stop(Outcome::ProtocolError(Violation::UnexpectedOpcode(OpCode::Identify))));
}

#[test]
fn malformed_frame_is_a_protocol_error() {
    let mut s = Supervisor::new(session(0), &GatewayConfig::standard());
    let a = s.on_input(SupervisorInput::Frame(Json::Str("x".to_string())));
    assert!(matches!(a, SupervisorAction::Stop(Outcome::ProtocolError(Violation::Malformed(_)))));
}

#[test]
fn shutdown_after_end_is_a_no_op() {
    let mut s = Supervisor::new(session(0), &GatewayConfig::standard());
    assert_eq!(s.on_input(SupervisorInput::Cancel), SupervisorAction::Stop(Outcome::GracefulStop));
    assert_eq!(s.on_input(SupervisorInput::Cancel), SupervisorAction::Idle);
    assert_eq!(s.outcome, Some(Outcome::GracefulStop));
    let mut t = Supervisor::new(session(0), &GatewayConfig::standard());
    t.on_input(SupervisorInput::TransportFailed);
    assert_eq!(t.on_input(SupervisorInput::Cancel), SupervisorAction::Idle);
    assert_eq!(t.outcome, Some(Outcome::TransportError));
}

#[test]
fn closed_channel_stops_the_loop() {
    let mut s = Supervisor::new(session(0), &GatewayConfig::standard());
    assert_eq!(s.on_input(SupervisorInput::ChannelClosed), SupervisorAction::Stop(Outcome::ChannelClosed));
}

#[test]
fn outbound_envelope_is_transmitted_while_running() {
    let mut s = Supervisor::new(session(0), &GatewayConfig::standard());
    let a = s.on_input(SupervisorInput::Outbound(GatewayEvent::heartbeat(3)));
    assert_eq!(a, SupervisorAction::Transmit(GatewayEvent::heartbeat(3)));
    s.on_input(SupervisorInput::Cancel);
    assert_eq!(s.on_input(SupervisorInput::Outbound(GatewayEvent::heartbeat(3))), SupervisorAction::Idle);
}

#[test]
fn unreadable_frame_is_a_protocol_error() {
    let mut s = Supervisor::new(session(0), &GatewayConfig::standard());
    let a = s.on_input(SupervisorInput::Unreadable);
    assert_eq!(a, SupervisorAction::Stop(Outcome::ProtocolError(Violation::Malformed(DecodeError::NotJson))));
}

#[test]
fn missed_acknowledgements_end_the_connection() {
    let mut s = Supervisor::new(session(0), &GatewayConfig::standard());
    assert!(matches!(s.on_input(SupervisorInput::HeartbeatDue), SupervisorAction::SendHeartbeat(_)));
    assert!(matches!(s.on_input(SupervisorInput::HeartbeatDue), SupervisorAction::SendHeartbeat(_)));
    assert_eq!(s.unacked, 2);
    assert_eq!(s.on_input(SupervisorInput::HeartbeatDue), SupervisorAction::Stop(Outcome::TransportError));
}

#[test]
fn acknowledgement_resets_the_missed_count() {
    let mut s = Supervisor::new(session(0), &GatewayConfig::standard());
    s.on_input(SupervisorInput::HeartbeatDue);
    s.on_input(SupervisorInput::HeartbeatDue);
    s.on_input(frame(11, Json::Null, None, None));
    assert_eq!(s.unacked, 0);
    assert!(matches!(s.on_input(SupervisorInput::HeartbeatDue), SupervisorAction::SendHeartbeat(_)));
    assert!(s.is_running());
}
