//! Session state, configuration and the error taxonomy shared by the handshake
//! and the supervisor.
use vstd::prelude::*;
use crate::codec::DecodeError;
use crate::opcode::OpCode;

verus! {

/// Protocol version selected when connecting.
pub const API_VERSION: u8 = 10;

/// The first heartbeat waits the heartbeat interval divided by this.
pub const JITTER_DIVISOR: u64 = 20;

/// Heartbeats that may go unacknowledged before the connection counts as dead.
pub const MAX_MISSED_ACKS: u32 = 2;

/// Constants that shape the protocol's cadence, injected so that tests can vary them.
#[derive(Debug, Clone, Copy, PartialEq, Eq, Structural)]
pub struct GatewayConfig {
    pub api_version: u8,
    pub jitter_divisor: u64,
    pub max_missed_acks: u32,
}

impl GatewayConfig {
    /// A divisor of at least two puts the first heartbeat strictly before a full
    /// interval; a limit of at least one lets the timer send a heartbeat before it
    /// counts any as missed.
    pub open spec fn wf(self) -> bool {
        self.jitter_divisor >= 2 && self.max_missed_acks >= 1
    }

    pub fn standard() -> (r: GatewayConfig)
        ensures
            r.api_version == API_VERSION,
            r.jitter_divisor == JITTER_DIVISOR,
            r.max_missed_acks == MAX_MISSED_ACKS,
            r.wf(),
    {
        GatewayConfig {
            api_version: API_VERSION,
            jitter_divisor: JITTER_DIVISOR,
            max_missed_acks: MAX_MISSED_ACKS,
        }
    }
}

/// What a live session holds: the identifiers the server issued, where to resume,
/// the highest sequence number seen, and the heartbeat cadence of the connection.
#[derive(Debug, Clone, PartialEq)]
pub struct Session {
    pub session_id: String,
    pub resume_url: String,
    pub last_seq: u32,
    pub heartbeat_interval: u64,
}

pub struct SessionView {
    pub session_id: Seq<char>,
    pub resume_url: Seq<char>,
    pub last_seq: u32,
    pub heartbeat_interval: u64,
}

impl View for Session {
    type V = SessionView;

    open spec fn view(&self) -> SessionView {
        SessionView {
            session_id: self.session_id@,
            resume_url: self.resume_url@,
            last_seq: self.last_seq,
            heartbeat_interval: self.heartbeat_interval,
        }
    }
}

/// How a frame broke the protocol.
#[derive(Debug, Clone, Copy, PartialEq, Eq, Structural)]
pub enum Violation {
    /// The first frame of a connection was not Hello.
    ExpectedHello,
    /// The first heartbeat was not acknowledged by the next frame.
    NoHeartbeatAck,
    /// The frame after Identify was neither Ready nor InvalidSession.
    ExpectedReady,
    /// An opcode that the supervisor does not accept from the server.
    UnexpectedOpcode(OpCode),
    /// A frame that is not an envelope.
    Malformed(DecodeError),
}

/// Why a connection attempt or a session failed.
#[derive(Debug, Clone, Copy, PartialEq, Eq, Structural)]
pub enum GatewayError {
    /// The bootstrap lookup of the endpoint failed.
    Resolution,
    /// Connecting, sending or receiving failed at the stream layer.
    Transport,
    /// A frame is not an envelope.
    Decode(DecodeError),
    /// An envelope could not be written as JSON text.
    Encode,
    /// A frame came that the current state does not allow.
    ProtocolViolation(Violation),
    /// The server revoked the session and does not allow resuming it.
    Invalidated,
    /// An internal message channel was dropped.
    ChannelClosed,
}

} // verus!
