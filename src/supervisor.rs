//! The decisions of the supervisor loop: once a session is established, each
//! event (heartbeat timer, inbound frame, cancellation, stream or channel
//! failure) is turned into one action, and the highest sequence number seen is
//! tracked. The embedding program waits for events and performs the actions.
use vstd::prelude::*;
use crate::json::Json;
use crate::opcode::OpCode;
use crate::codec::{decode, decode_spec, DecodeError};
use crate::event::{
    ConnectionProperties, EventData, EventDataView, GatewayEvent, GatewayEventView, PropertiesView,
    heartbeat_view,
};
use crate::handshake::{
    Login, LoginView, HandshakeView, HandshakeStateView, handshake_run, run_sent,
    lemma_fresh_never_resumes,
};
use crate::session::{GatewayConfig, Session, SessionView, Violation};

verus! {

/// One event that the supervisor reacts to.
#[derive(Debug, PartialEq)]
pub enum SupervisorInput {
    /// The heartbeat timer elapsed.
    HeartbeatDue,
    /// An inbound frame, in arrival order.
    Frame(Json),
    /// An inbound frame whose text is not JSON.
    Unreadable,
    /// An envelope that the application wants sent to the server.
    Outbound(GatewayEvent),
    /// The embedding program asked the loop to stop.
    Cancel,
    /// Receiving or sending on the stream failed.
    TransportFailed,
    /// The application's end of the event channel is gone.
    ChannelClosed,
}

/// How the loop ended.
#[derive(Debug, Clone, Copy, PartialEq, Eq, Structural)]
pub enum Outcome {
    /// Stopped on request.
    GracefulStop,
    /// The server asked for a reconnect; resume from sequence number `seq`.
    ResumeRequested { seq: u32 },
    /// The server revoked the session; it must not be resumed.
    Invalidated,
    ProtocolError(Violation),
    TransportError,
    ChannelClosed,
}

/// What the embedding program is to do after an event.
#[derive(Debug, PartialEq)]
pub enum SupervisorAction {
    /// Send this heartbeat now and re-arm the timer for a full interval.
    SendHeartbeat(GatewayEvent),
    /// Deliver this Dispatch envelope to the application.
    Forward(GatewayEvent),
    /// Send this envelope of the application's to the server.
    Transmit(GatewayEvent),
    /// Nothing to do.
    Idle,
    /// Close both halves of the stream and report the outcome; read no more frames.
    Stop(Outcome),
}

pub enum ActionView {
    SendHeartbeat(GatewayEventView),
    Forward(GatewayEventView),
    Transmit(GatewayEventView),
    Idle,
    Stop(Outcome),
}

impl View for SupervisorAction {
    type V = ActionView;

    open spec fn view(&self) -> ActionView {
        match self {
            SupervisorAction::SendHeartbeat(e) => ActionView::SendHeartbeat(e@),
            SupervisorAction::Forward(e) => ActionView::Forward(e@),
            SupervisorAction::Transmit(e) => ActionView::Transmit(e@),
            SupervisorAction::Idle => ActionView::Idle,
            SupervisorAction::Stop(o) => ActionView::Stop(*o),
        }
    }
}

/// The supervisor of one established session.
#[derive(Debug, PartialEq)]
pub struct Supervisor {
    pub session: Session,
    /// `None` while the loop runs.
    pub outcome: Option<Outcome>,
    /// Heartbeats sent since the last acknowledgement.
    pub unacked: u32,
    /// When the timer finds this many heartbeats unacknowledged, the connection is dead.
    pub max_missed_acks: u32,
}

pub struct SupervisorView {
    pub session: SessionView,
    pub outcome: Option<Outcome>,
    pub unacked: u32,
    pub max_missed_acks: u32,
}

impl View for Supervisor {
    type V = SupervisorView;

    open spec fn view(&self) -> SupervisorView {
        SupervisorView {
            session: self.session@,
            outcome: self.outcome,
            unacked: self.unacked,
            max_missed_acks: self.max_missed_acks,
        }
    }
}

/// The highest of the last sequence number and the one a frame carries.
pub open spec fn next_seq(last: u32, s: Option<u32>) -> u32 {
    match s {
        Some(n) => if n > last { n } else { last },
        None => last,
    }
}

pub open spec fn with_last_seq(s: SupervisorView, n: u32) -> SupervisorView {
    SupervisorView { session: SessionView { last_seq: n, ..s.session }, ..s }
}

/// `s` after one more heartbeat went out; the count stops at its largest value.
pub open spec fn sent_heartbeat(s: SupervisorView) -> SupervisorView {
    SupervisorView { unacked: if s.unacked < u32::MAX { (s.unacked + 1) as u32 } else { s.unacked }, ..s }
}

pub open spec fn stop(s: SupervisorView, o: Outcome) -> (SupervisorView, ActionView) {
    (SupervisorView { outcome: Some(o), ..s }, ActionView::Stop(o))
}

/// The reaction to a decoded frame, once its sequence number is recorded in `s`.
pub open spec fn frame_step(s: SupervisorView, f: GatewayEventView) -> (SupervisorView, ActionView) {
    match f.op {
        OpCode::HeartbeatACK => (SupervisorView { unacked: 0, ..s }, ActionView::Idle),
        OpCode::Dispatch => (s, ActionView::Forward(f)),
        OpCode::Heartbeat => (
            sent_heartbeat(s),
            ActionView::SendHeartbeat(heartbeat_view(s.session.last_seq)),
        ),
        OpCode::InvalidSession => match f.event_data {
            Some(EventDataView::InvalidSession(true)) => stop(
                s,
                Outcome::ResumeRequested { seq: s.session.last_seq },
            ),
            _ => stop(s, Outcome::Invalidated),
        },
        OpCode::Reconnect => stop(s, Outcome::ResumeRequested { seq: s.session.last_seq }),
        other => stop(s, Outcome::ProtocolError(Violation::UnexpectedOpcode(other))),
    }
}

/// The supervisor's reaction to one event: the next state and the action.
pub open spec fn supervisor_step(s: SupervisorView, input: SupervisorInput) -> (SupervisorView, ActionView) {
    if s.outcome is Some {
        (s, ActionView::Idle)
    } else {
        match input {
            SupervisorInput::HeartbeatDue => if s.unacked >= s.max_missed_acks {
                stop(s, Outcome::TransportError)
            } else {
                (sent_heartbeat(s), ActionView::SendHeartbeat(heartbeat_view(s.session.last_seq)))
            },
            SupervisorInput::Cancel => stop(s, Outcome::GracefulStop),
            SupervisorInput::TransportFailed => stop(s, Outcome::TransportError),
            SupervisorInput::ChannelClosed => stop(s, Outcome::ChannelClosed),
            SupervisorInput::Outbound(e) => (s, ActionView::Transmit(e@)),
            SupervisorInput::Unreadable => stop(
                s,
                Outcome::ProtocolError(Violation::Malformed(DecodeError::NotJson)),
            ),
            SupervisorInput::Frame(j) => match decode_spec(j) {
                Err(e) => stop(s, Outcome::ProtocolError(Violation::Malformed(e))),
                Ok(f) => frame_step(with_last_seq(s, next_seq(s.session.last_seq, f.seq)), f),
            },
        }
    }
}

/// Feeds `inputs` in order to supervisor `s`: the final state and one action per input.
pub open spec fn supervise(s: SupervisorView, inputs: Seq<SupervisorInput>) -> (SupervisorView, Seq<ActionView>)
    decreases inputs.len(),
{
    if inputs.len() == 0 {
        (s, seq![])
    } else {
        let (t, acts) = supervise(s, inputs.drop_last());
        let (u, a) = supervisor_step(t, inputs.last());
        (u, acts.push(a))
    }
}

/// The sequence number that an input carries, if it is a frame that carries one.
pub open spec fn input_seq(input: SupervisorInput) -> Option<u32> {
    match input {
        SupervisorInput::Frame(j) => match decode_spec(j) {
            Ok(f) => f.seq,
            Err(_) => None,
        },
        _ => None,
    }
}

/// The maximum of `init` and of every sequence number that `inputs` carry.
pub open spec fn highest_seq(init: u32, inputs: Seq<SupervisorInput>) -> u32
    decreases inputs.len(),
{
    if inputs.len() == 0 {
        init
    } else {
        next_seq(highest_seq(init, inputs.drop_last()), input_seq(inputs.last()))
    }
}

/// While the loop runs, its last sequence number is the maximum seen so far; it
/// never decreases; and every heartbeat sent in reaction to input `i` carries
/// the maximum as of input `i`, neither a stale nor a later value.
pub proof fn lemma_sequence_tracking(s: SupervisorView, inputs: Seq<SupervisorInput>)
    requires
        s.outcome is None,
    ensures
        supervise(s, inputs).1.len() == inputs.len(),
        supervise(s, inputs).0.session.last_seq >= s.session.last_seq,
        supervise(s, inputs).0.outcome is None ==> supervise(s, inputs).0.session.last_seq
            == highest_seq(s.session.last_seq, inputs),
        forall|i: int|
            0 <= i < inputs.len() ==> (#[trigger] supervise(s, inputs).1[i] matches ActionView::SendHeartbeat(h)
                ==> h == heartbeat_view(highest_seq(s.session.last_seq, inputs.take(i + 1)))),
    decreases inputs.len(),
{
    if inputs.len() > 0 {
        let prefix = inputs.drop_last();
        lemma_sequence_tracking(s, prefix);
        let (t, acts) = supervise(s, prefix);
        let (u, acts2) = supervise(s, inputs);
        let n = inputs.len() - 1;
        assert(inputs.take(n + 1) =~= inputs);
        assert forall|i: int| 0 <= i < inputs.len() implies (#[trigger] acts2[i] matches ActionView::SendHeartbeat(h)
            ==> h == heartbeat_view(highest_seq(s.session.last_seq, inputs.take(i + 1)))) by {
            if i < n {
                assert(inputs.take(i + 1) =~= prefix.take(i + 1));
                assert(acts2[i] == acts[i]);
            }
        }
    }
}

/// Once the loop has ended, every further input (a second shutdown included)
/// leaves the supervisor as it is and asks for nothing.
pub proof fn lemma_shutdown_idempotent(s: SupervisorView, inputs: Seq<SupervisorInput>)
    requires
        s.outcome is Some,
    ensures
        supervise(s, inputs).0 == s,
        supervise(s, inputs).1.len() == inputs.len(),
        forall|i: int| 0 <= i < inputs.len() ==> #[trigger] supervise(s, inputs).1[i] == ActionView::Idle,
    decreases inputs.len(),
{
    if inputs.len() > 0 {
        lemma_shutdown_idempotent(s, inputs.drop_last());
    }
}

/// An InvalidSession frame ends a running loop: with `ResumeRequested` carrying
/// the last sequence number once the frame's own is recorded (the last one held
/// before, where the frame carries none or no larger) when resuming is allowed,
/// else with `Invalidated`; no later input is processed.
pub proof fn lemma_invalid_session_ends_loop(
    s: SupervisorView,
    j: Json,
    resumable: bool,
    later: Seq<SupervisorInput>,
)
    requires
        s.outcome is None,
        decode_spec(j) is Ok,
        decode_spec(j)->Ok_0.op == OpCode::InvalidSession,
        decode_spec(j)->Ok_0.event_data == Some(EventDataView::InvalidSession(resumable)),
    ensures
        ({
            let f = decode_spec(j)->Ok_0;
            let (t, a) = supervisor_step(s, SupervisorInput::Frame(j));
            &&& resumable ==> a == ActionView::Stop(
                Outcome::ResumeRequested { seq: next_seq(s.session.last_seq, f.seq) },
            )
            &&& resumable && (f.seq is None || f.seq->0 <= s.session.last_seq) ==> a
                == ActionView::Stop(Outcome::ResumeRequested { seq: s.session.last_seq })
            &&& !resumable ==> a == ActionView::Stop(Outcome::Invalidated)
            &&& supervise(t, later).0 == t
            &&& forall|i: int| 0 <= i < later.len() ==> #[trigger] supervise(t, later).1[i] == ActionView::Idle
        }),
{
    let (t, a) = supervisor_step(s, SupervisorInput::Frame(j));
    lemma_shutdown_idempotent(t, later);
}

/// How to open the next connection after the loop ended: resume only where the
/// server asked for it, start a fresh session after any other failure, and
/// open none after a requested stop or once the application is gone.
pub open spec fn next_login_spec(
    outcome: Outcome,
    session: SessionView,
    token: Seq<char>,
    properties: PropertiesView,
    intents: u32,
) -> Option<LoginView> {
    match outcome {
        Outcome::ResumeRequested { seq } => Some(
            LoginView::Resume { token, session: SessionView { last_seq: seq, ..session } },
        ),
        Outcome::GracefulStop | Outcome::ChannelClosed => None,
        _ => Some(LoginView::Identify { token, properties, intents }),
    }
}

/// After a session was invalidated, the next connection identifies afresh and
/// its handshake sends no Resume frame, whatever frames arrive.
pub proof fn lemma_invalidated_is_not_resumed(
    session: SessionView,
    token: Seq<char>,
    properties: PropertiesView,
    intents: u32,
    jitter_divisor: u64,
    frames: Seq<Json>,
)
    ensures
        next_login_spec(Outcome::Invalidated, session, token, properties, intents) == Some(
            LoginView::Identify { token, properties, intents },
        ),
        ({
            let h = HandshakeView {
                state: HandshakeStateView::AwaitHello(LoginView::Identify { token, properties, intents }),
                jitter_divisor,
            };
            forall|i: int|
                0 <= i < run_sent(handshake_run(h, frames)).len() ==> (#[trigger] run_sent(
                    handshake_run(h, frames),
                )[i]).op != OpCode::Resume
        }),
{
    let h = HandshakeView {
        state: HandshakeStateView::AwaitHello(LoginView::Identify { token, properties, intents }),
        jitter_divisor,
    };
    lemma_fresh_never_resumes(h, frames);
}

pub fn next_login(
    outcome: Outcome,
    session: Session,
    token: String,
    properties: ConnectionProperties,
    intents: u32,
) -> (r: Option<Login>)
    ensures
        match r {
            Some(l) => next_login_spec(outcome, session@, token@, properties@, intents) == Some(l@),
            None => next_login_spec(outcome, session@, token@, properties@, intents) is None,
        },
{
    match outcome {
        Outcome::ResumeRequested { seq } => Some(
            Login::Resume { token, session: Session { last_seq: seq, ..session } },
        ),
        Outcome::GracefulStop | Outcome::ChannelClosed => None,
        _ => Some(Login::Identify { token, properties, intents }),
    }
}

impl Supervisor {
    /// A running supervisor for an established session.
    pub fn new(session: Session, config: &GatewayConfig) -> (r: Supervisor)
        requires
            config.wf(),
        ensures
            r@ == (SupervisorView {
                session: session@,
                outcome: None,
                unacked: 0,
                max_missed_acks: config.max_missed_acks,
            }),
    {
        Supervisor { session, outcome: None, unacked: 0, max_missed_acks: config.max_missed_acks }
    }

    fn heartbeat(&mut self) -> (a: SupervisorAction)
        ensures
            final(self)@ == sent_heartbeat(old(self)@),
            a@ == ActionView::SendHeartbeat(heartbeat_view(old(self)@.session.last_seq)),
    {
        if self.unacked < u32::MAX {
            self.unacked = self.unacked + 1;
        }
        SupervisorAction::SendHeartbeat(GatewayEvent::heartbeat(self.session.last_seq))
    }

    pub fn is_running(&self) -> (r: bool)
        ensures
            r == (self@.outcome is None),
    {
        self.outcome.is_none()
    }

    fn finish(&mut self, o: Outcome) -> (a: SupervisorAction)
        ensures
            (final(self)@, a@) == stop(old(self)@, o),
    {
        self.outcome = Some(o);
        SupervisorAction::Stop(o)
    }

    /// Reacts to one event. After the loop has ended every event, a second
    /// cancellation included, is ignored.
    pub fn on_input(&mut self, input: SupervisorInput) -> (a: SupervisorAction)
        ensures
            (final(self)@, a@) == supervisor_step(old(self)@, input),
    {
        if self.outcome.is_some() {
            return SupervisorAction::Idle;
        }
        match input {
            SupervisorInput::HeartbeatDue => if self.unacked >= self.max_missed_acks {
                self.finish(Outcome::TransportError)
            } else {
                self.heartbeat()
            },
            SupervisorInput::Cancel => self.finish(Outcome::GracefulStop),
            SupervisorInput::TransportFailed => self.finish(Outcome::TransportError),
            SupervisorInput::ChannelClosed => self.finish(Outcome::ChannelClosed),
            SupervisorInput::Outbound(e) => SupervisorAction::Transmit(e),
            SupervisorInput::Unreadable => self.finish(
                Outcome::ProtocolError(Violation::Malformed(DecodeError::NotJson)),
            ),
            SupervisorInput::Frame(j) => match decode(j) {
                Err(e) => self.finish(Outcome::ProtocolError(Violation::Malformed(e))),
                Ok(f) => {
                    if let Some(n) = f.seq {
                        if n > self.session.last_seq {
                            self.session.last_seq = n;
                        }
                    }
                    match f.op {
                        OpCode::HeartbeatACK => {
                            self.unacked = 0;
                            SupervisorAction::Idle
                        },
                        OpCode::Dispatch => SupervisorAction::Forward(f),
                        OpCode::Heartbeat => self.heartbeat(),
                        OpCode::InvalidSession => match f.event_data {
                            Some(EventData::InvalidSession(true)) => {
                                let seq = self.session.last_seq;
                                self.finish(Outcome::ResumeRequested { seq })
                            },
                            _ => self.finish(Outcome::Invalidated),
                        },
                        OpCode::Reconnect => {
                            let seq = self.session.last_seq;
                            self.finish(Outcome::ResumeRequested { seq })
                        },
                        other => self.finish(Outcome::ProtocolError(Violation::UnexpectedOpcode(other))),
                    }
                },
            },
        }
    }
}

} // verus!
