//! The ordered bootstrap of a connection: await Hello, send the first heartbeat
//! after a short delay, await its acknowledgement, then identify (and await
//! Ready) or resume.
use vstd::prelude::*;
use crate::json::Json;
use crate::opcode::OpCode;
use crate::codec::{decode, decode_spec};
use crate::event::{
    ConnectionProperties, PropertiesView, EventData, EventDataView, GatewayEvent,
    GatewayEventView, heartbeat_view, identify_view, resume_view,
};
use crate::session::{GatewayConfig, GatewayError, Session, SessionView, Violation};

verus! {

/// What the application supplies to open a session: its credentials, whether
/// it connects as a bot (which selects the endpoint lookup), the intents it
/// subscribes to, and the client properties it reports.
#[derive(Debug, Clone, PartialEq)]
pub struct GatewayInit {
    pub token: String,
    pub bot: bool,
    pub intents: u32,
    pub conn_properties: ConnectionProperties,
}

/// What a new connection was opened for.
#[derive(Debug, PartialEq)]
pub enum Login {
    /// Start a fresh session.
    Identify { token: String, properties: ConnectionProperties, intents: u32 },
    /// Continue `session` from its last sequence number.
    Resume { token: String, session: Session },
}

pub enum LoginView {
    Identify { token: Seq<char>, properties: PropertiesView, intents: u32 },
    Resume { token: Seq<char>, session: SessionView },
}

impl View for Login {
    type V = LoginView;

    open spec fn view(&self) -> LoginView {
        match self {
            Login::Identify { token, properties, intents } => LoginView::Identify {
                token: token@,
                properties: properties@,
                intents: *intents,
            },
            Login::Resume { token, session } => LoginView::Resume {
                token: token@,
                session: session@,
            },
        }
    }
}

/// Where the handshake stands; each state names the frame it waits for.
#[derive(Debug, PartialEq)]
pub enum HandshakeState {
    AwaitHello(Login),
    AwaitAck { login: Login, heartbeat_interval: u64 },
    AwaitReady { heartbeat_interval: u64 },
}

pub enum HandshakeStateView {
    AwaitHello(LoginView),
    AwaitAck { login: LoginView, heartbeat_interval: u64 },
    AwaitReady { heartbeat_interval: u64 },
}

/// The handshake of one connection, fed one inbound frame at a time.
#[derive(Debug, PartialEq)]
pub struct Handshake {
    pub state: HandshakeState,
    pub jitter_divisor: u64,
}

pub struct HandshakeView {
    pub state: HandshakeStateView,
    pub jitter_divisor: u64,
}

impl View for Handshake {
    type V = HandshakeView;

    open spec fn view(&self) -> HandshakeView {
        HandshakeView {
            state: match self.state {
                HandshakeState::AwaitHello(login) => HandshakeStateView::AwaitHello(login@),
                HandshakeState::AwaitAck { login, heartbeat_interval } => HandshakeStateView::AwaitAck {
                    login: login@,
                    heartbeat_interval,
                },
                HandshakeState::AwaitReady { heartbeat_interval } => HandshakeStateView::AwaitReady {
                    heartbeat_interval,
                },
            },
            jitter_divisor: self.jitter_divisor,
        }
    }
}

/// What to do after a frame that the handshake accepted.
#[derive(Debug, PartialEq)]
pub enum HandshakeStep {
    /// Wait `delay_ms` milliseconds, send `frame`, then feed the next inbound frame to `next`.
    Continue { next: Handshake, delay_ms: u64, frame: GatewayEvent },
    /// The session is established; `frame`, if any, is sent before the supervisor takes over.
    Established { session: Session, frame: Option<GatewayEvent> },
}

pub enum HandshakeStepView {
    Continue { next: HandshakeView, delay_ms: u64, frame: GatewayEventView },
    Established { session: SessionView, frame: Option<GatewayEventView> },
}

pub open spec fn step_view(r: Result<HandshakeStep, GatewayError>) -> Result<HandshakeStepView, GatewayError> {
    match r {
        Ok(HandshakeStep::Continue { next, delay_ms, frame }) => Ok(
            HandshakeStepView::Continue { next: next@, delay_ms, frame: frame@ },
        ),
        Ok(HandshakeStep::Established { session, frame }) => Ok(
            HandshakeStepView::Established {
                session: session@,
                frame: match frame {
                    Some(f) => Some(f@),
                    None => None,
                },
            },
        ),
        Err(e) => Err(e),
    }
}

impl HandshakeView {
    pub open spec fn wf(self) -> bool {
        self.jitter_divisor >= 2
    }
}

/// How long to wait after Hello before the first heartbeat: the interval divided
/// by the jitter divisor, raised to one millisecond where that quotient is zero.
/// An interval of 0 or 1 ms leaves no whole number of milliseconds strictly
/// between zero and the interval; there the quotient (zero) is kept.
pub open spec fn first_heartbeat_delay(interval: u64, divisor: u64) -> u64 {
    if interval / divisor == 0 && interval >= 2 {
        1
    } else {
        (interval / divisor) as u64
    }
}

/// With a divisor of at least two, an interval of at least two milliseconds puts
/// the first heartbeat strictly after a non-zero delay and strictly before a full interval.
pub proof fn lemma_first_heartbeat_delay(interval: u64, divisor: u64)
    requires
        divisor >= 2,
        interval >= 2,
    ensures
        0 < first_heartbeat_delay(interval, divisor) < interval,
{
    assert(interval / divisor <= interval / 2) by (nonlinear_arith)
        requires
            divisor >= 2,
            interval >= 2,
    {
        vstd::arithmetic::div_mod::lemma_div_is_ordered_by_denominator(interval as int, 2, divisor as int);
    }
}

/// The heartbeat interval that a Hello envelope announces.
pub open spec fn hello_interval(f: GatewayEventView) -> u64 {
    match f.event_data {
        Some(EventDataView::Hello { heartbeat_interval }) => heartbeat_interval,
        _ => 0,
    }
}

/// The handshake's reaction to one decoded frame.
pub open spec fn handshake_event_step(h: HandshakeView, f: GatewayEventView) -> Result<HandshakeStepView, GatewayError> {
    match h.state {
        HandshakeStateView::AwaitHello(login) => match f.event_data {
            Some(EventDataView::Hello { heartbeat_interval }) => if f.op == OpCode::Hello {
                Ok(
                    HandshakeStepView::Continue {
                        next: HandshakeView {
                            state: HandshakeStateView::AwaitAck { login, heartbeat_interval },
                            jitter_divisor: h.jitter_divisor,
                        },
                        delay_ms: first_heartbeat_delay(heartbeat_interval, h.jitter_divisor),
                        frame: heartbeat_view(0),
                    },
                )
            } else {
                Err(GatewayError::ProtocolViolation(Violation::ExpectedHello))
            },
            _ => Err(GatewayError::ProtocolViolation(Violation::ExpectedHello)),
        },
        HandshakeStateView::AwaitAck { login, heartbeat_interval } => if f.op == OpCode::HeartbeatACK {
            match login {
                LoginView::Identify { token, properties, intents } => Ok(
                    HandshakeStepView::Continue {
                        next: HandshakeView {
                            state: HandshakeStateView::AwaitReady { heartbeat_interval },
                            jitter_divisor: h.jitter_divisor,
                        },
                        delay_ms: 0,
                        frame: identify_view(token, properties, intents),
                    },
                ),
                LoginView::Resume { token, session } => Ok(
                    HandshakeStepView::Established {
                        session: SessionView { heartbeat_interval, ..session },
                        frame: Some(resume_view(token, session.session_id, session.last_seq)),
                    },
                ),
            }
        } else {
            Err(GatewayError::ProtocolViolation(Violation::NoHeartbeatAck))
        },
        HandshakeStateView::AwaitReady { heartbeat_interval } => match f.event_data {
            Some(EventDataView::Ready { session_id, resume_gateway_url, .. }) => if f.op == OpCode::Dispatch {
                Ok(
                    HandshakeStepView::Established {
                        session: SessionView {
                            session_id,
                            resume_url: resume_gateway_url,
                            last_seq: match f.seq {
                                Some(n) => n,
                                None => 0,
                            },
                            heartbeat_interval,
                        },
                        frame: None,
                    },
                )
            } else {
                Err(GatewayError::ProtocolViolation(Violation::ExpectedReady))
            },
            _ => if f.op == OpCode::InvalidSession {
                Err(GatewayError::Invalidated)
            } else {
                Err(GatewayError::ProtocolViolation(Violation::ExpectedReady))
            },
        },
    }
}

/// The handshake's reaction to one inbound frame.
pub open spec fn handshake_step(h: HandshakeView, frame: Json) -> Result<HandshakeStepView, GatewayError> {
    match decode_spec(frame) {
        Ok(f) => handshake_event_step(h, f),
        Err(e) => Err(GatewayError::Decode(e)),
    }
}

/// Where a handshake fed a sequence of frames ends, with the frames it sent on the way.
pub enum HandshakeRun {
    /// The frames ran out before the handshake ended.
    Pending(HandshakeView, Seq<GatewayEventView>),
    Established(SessionView, Seq<GatewayEventView>),
    Failed(GatewayError, Seq<GatewayEventView>),
}

/// `r` with `f` sent before everything that `r` sent.
pub open spec fn sent_before(f: GatewayEventView, r: HandshakeRun) -> HandshakeRun {
    match r {
        HandshakeRun::Pending(h, sent) => HandshakeRun::Pending(h, seq![f] + sent),
        HandshakeRun::Established(s, sent) => HandshakeRun::Established(s, seq![f] + sent),
        HandshakeRun::Failed(e, sent) => HandshakeRun::Failed(e, seq![f] + sent),
    }
}

/// Feeds `frames` in order to handshake `h`; frames after the end are not read.
pub open spec fn handshake_run(h: HandshakeView, frames: Seq<Json>) -> HandshakeRun
    decreases frames.len(),
{
    if frames.len() == 0 {
        HandshakeRun::Pending(h, seq![])
    } else {
        match handshake_step(h, frames[0]) {
            Err(e) => HandshakeRun::Failed(e, seq![]),
            Ok(HandshakeStepView::Continue { next, frame, .. }) => sent_before(
                frame,
                handshake_run(next, frames.drop_first()),
            ),
            Ok(HandshakeStepView::Established { session, frame }) => HandshakeRun::Established(
                session,
                match frame {
                    Some(f) => seq![f],
                    None => seq![],
                },
            ),
        }
    }
}

pub open spec fn is_hello(f: GatewayEventView) -> bool {
    f.op == OpCode::Hello && f.event_data matches Some(EventDataView::Hello { .. })
}

/// A handshake rejects as a protocol violation a first frame that is not Hello,
/// having sent nothing; and, after Hello, a frame that is not the acknowledgement
/// of the first heartbeat, having sent that heartbeat alone (so never Identify).
pub proof fn lemma_handshake_ordering(h: HandshakeView, frames: Seq<Json>)
    requires
        h.state is AwaitHello,
        frames.len() >= 1,
        decode_spec(frames[0]) is Ok,
    ensures
        !is_hello(decode_spec(frames[0])->Ok_0) ==> handshake_run(h, frames) == HandshakeRun::Failed(
            GatewayError::ProtocolViolation(Violation::ExpectedHello),
            seq![],
        ),
        is_hello(decode_spec(frames[0])->Ok_0) && frames.len() >= 2 && decode_spec(frames[1]) is Ok
            && decode_spec(frames[1])->Ok_0.op != OpCode::HeartbeatACK ==> handshake_run(h, frames)
            == HandshakeRun::Failed(
            GatewayError::ProtocolViolation(Violation::NoHeartbeatAck),
            seq![heartbeat_view(0)],
        ),
{
    if frames.len() >= 2 {
        let rest = frames.drop_first();
        assert(rest[0] == frames[1]);
        reveal_with_fuel(handshake_run, 2);
        if is_hello(decode_spec(frames[0])->Ok_0) {
            assert(seq![heartbeat_view(0)] + Seq::<GatewayEventView>::empty() =~= seq![heartbeat_view(0)]);
        }
    }
}

/// The frames that a run sent.
pub open spec fn run_sent(r: HandshakeRun) -> Seq<GatewayEventView> {
    match r {
        HandshakeRun::Pending(_, sent) => sent,
        HandshakeRun::Established(_, sent) => sent,
        HandshakeRun::Failed(_, sent) => sent,
    }
}

/// A handshake that opens a fresh session rather than resuming one.
pub open spec fn opens_fresh(h: HandshakeView) -> bool {
    match h.state {
        HandshakeStateView::AwaitHello(login) => login is Identify,
        HandshakeStateView::AwaitAck { login, .. } => login is Identify,
        HandshakeStateView::AwaitReady { .. } => true,
    }
}

/// A handshake that identifies sends no Resume frame, whatever frames arrive:
/// after an invalidated session the old session identifier is never offered.
pub proof fn lemma_fresh_never_resumes(h: HandshakeView, frames: Seq<Json>)
    requires
        opens_fresh(h),
    ensures
        forall|i: int|
            0 <= i < run_sent(handshake_run(h, frames)).len() ==> (#[trigger] run_sent(
                handshake_run(h, frames),
            )[i]).op != OpCode::Resume,
    decreases frames.len(),
{
    if frames.len() > 0 {
        if let Ok(HandshakeStepView::Continue { next, frame, .. }) = handshake_step(h, frames[0]) {
            lemma_fresh_never_resumes(next, frames.drop_first());
            let rest = run_sent(handshake_run(next, frames.drop_first()));
            assert(run_sent(handshake_run(h, frames)) =~= seq![frame] + rest);
        }
    }
}

impl Handshake {
    /// A handshake that identifies with the credentials of `init` and opens a fresh session.
    pub fn new(init: GatewayInit, config: &GatewayConfig) -> (r: Handshake)
        requires
            config.wf(),
        ensures
            r@.wf(),
            r@.jitter_divisor == config.jitter_divisor,
            r@.state == HandshakeStateView::AwaitHello(
                LoginView::Identify {
                    token: init.token@,
                    properties: init.conn_properties@,
                    intents: init.intents,
                },
            ),
    {
        let login = Login::Identify {
            token: init.token,
            properties: init.conn_properties,
            intents: init.intents,
        };
        Handshake { state: HandshakeState::AwaitHello(login), jitter_divisor: config.jitter_divisor }
    }

    /// A handshake that will resume `session` from its last sequence number.
    pub fn resume(token: String, session: Session, config: &GatewayConfig) -> (r: Handshake)
        requires
            config.wf(),
        ensures
            r@.wf(),
            r@.jitter_divisor == config.jitter_divisor,
            r@.state == HandshakeStateView::AwaitHello(
                LoginView::Resume { token: token@, session: session@ },
            ),
    {
        Handshake {
            state: HandshakeState::AwaitHello(Login::Resume { token, session }),
            jitter_divisor: config.jitter_divisor,
        }
    }

    /// Feeds the next inbound frame to the handshake.
    pub fn on_frame(self, frame: Json) -> (r: Result<HandshakeStep, GatewayError>)
        requires
            self@.wf(),
        ensures
            step_view(r) == handshake_step(self@, frame),
            r matches Ok(HandshakeStep::Continue { next, .. }) ==> next@.wf(),
            self@.state is AwaitHello && decode_spec(frame) is Ok && is_hello(decode_spec(frame)->Ok_0)
                && hello_interval(decode_spec(frame)->Ok_0) >= 2 ==> (r matches Ok(
                HandshakeStep::Continue { delay_ms, .. },
            ) && 0 < delay_ms < hello_interval(decode_spec(frame)->Ok_0)),
    {
        let f = match decode(frame) {
            Ok(f) => f,
            Err(e) => return Err(GatewayError::Decode(e)),
        };
        let jitter_divisor = self.jitter_divisor;
        match self.state {
            HandshakeState::AwaitHello(login) => match f.event_data {
                Some(EventData::Hello { heartbeat_interval }) => if f.op == OpCode::Hello {
                    let quotient = heartbeat_interval / jitter_divisor;
                    let delay_ms = if quotient == 0 && heartbeat_interval >= 2 {
                        1
                    } else {
                        quotient
                    };
                    proof {
                        if heartbeat_interval >= 2 {
                            lemma_first_heartbeat_delay(heartbeat_interval, jitter_divisor);
                        }
                    }
                    Ok(
                        HandshakeStep::Continue {
                            next: Handshake {
                                state: HandshakeState::AwaitAck { login, heartbeat_interval },
                                jitter_divisor,
                            },
                            delay_ms,
                            frame: GatewayEvent::heartbeat(0),
                        },
                    )
                } else {
                    Err(GatewayError::ProtocolViolation(Violation::ExpectedHello))
                },
                _ => Err(GatewayError::ProtocolViolation(Violation::ExpectedHello)),
            },
            HandshakeState::AwaitAck { login, heartbeat_interval } => if f.op == OpCode::HeartbeatACK {
                match login {
                    Login::Identify { token, properties, intents } => Ok(
                        HandshakeStep::Continue {
                            next: Handshake {
                                state: HandshakeState::AwaitReady { heartbeat_interval },
                                jitter_divisor,
                            },
                            delay_ms: 0,
                            frame: GatewayEvent::identify(token, properties, intents),
                        },
                    ),
                    Login::Resume { token, session } => {
                        let frame = GatewayEvent::resume(
                            session.last_seq,
                            token,
                            session.session_id.clone(),
                        );
                        Ok(
                            HandshakeStep::Established {
                                session: Session { heartbeat_interval, ..session },
                                frame: Some(frame),
                            },
                        )
                    },
                }
            } else {
                Err(GatewayError::ProtocolViolation(Violation::NoHeartbeatAck))
            },
            HandshakeState::AwaitReady { heartbeat_interval } => match f.event_data {
                Some(EventData::Ready { session_id, resume_gateway_url, .. }) => if f.op == OpCode::Dispatch {
                    let last_seq = match f.seq {
                        Some(n) => n,
                        None => 0,
                    };
                    Ok(
                        HandshakeStep::Established {
                            session: Session {
                                session_id,
                                resume_url: resume_gateway_url,
                                last_seq,
                                heartbeat_interval,
                            },
                            frame: None,
                        },
                    )
                } else {
                    Err(GatewayError::ProtocolViolation(Violation::ExpectedReady))
                },
                _ => if f.op == OpCode::InvalidSession {
                    Err(GatewayError::Invalidated)
                } else {
                    Err(GatewayError::ProtocolViolation(Violation::ExpectedReady))
                },
            },
        }
    }
}

} // verus!
