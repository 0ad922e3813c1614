//! The integer tag that selects an envelope's role.
use vstd::prelude::*;

verus! {

/// What an envelope is for. `Unknown` keeps a tag this client does not know,
/// so that additions to the protocol still decode.
#[derive(PartialEq, Eq, Structural, Clone, Copy, Debug)]
pub enum OpCode {
    Dispatch,
    Heartbeat,
    Identify,
    PresenceUpdate,
    VoiceStateUpdate,
    Resume,
    Reconnect,
    RequestGuildMembers,
    InvalidSession,
    Hello,
    HeartbeatACK,
    Unknown(u64),
}

/// The wire tag of each opcode; 5 is reserved and names none.
pub open spec fn code_of(op: OpCode) -> u64 {
    match op {
        OpCode::Dispatch => 0,
        OpCode::Heartbeat => 1,
        OpCode::Identify => 2,
        OpCode::PresenceUpdate => 3,
        OpCode::VoiceStateUpdate => 4,
        OpCode::Resume => 6,
        OpCode::Reconnect => 7,
        OpCode::RequestGuildMembers => 8,
        OpCode::InvalidSession => 9,
        OpCode::Hello => 10,
        OpCode::HeartbeatACK => 11,
        OpCode::Unknown(n) => n,
    }
}

/// Tags that name a known opcode.
pub open spec fn is_known_code(n: u64) -> bool {
    n <= 11 && n != 5
}

/// The opcode that a wire tag stands for.
pub open spec fn op_of(n: u64) -> OpCode {
    if n == 0 {
        OpCode::Dispatch
    } else if n == 1 {
        OpCode::Heartbeat
    } else if n == 2 {
        OpCode::Identify
    } else if n == 3 {
        OpCode::PresenceUpdate
    } else if n == 4 {
        OpCode::VoiceStateUpdate
    } else if n == 6 {
        OpCode::Resume
    } else if n == 7 {
        OpCode::Reconnect
    } else if n == 8 {
        OpCode::RequestGuildMembers
    } else if n == 9 {
        OpCode::InvalidSession
    } else if n == 10 {
        OpCode::Hello
    } else if n == 11 {
        OpCode::HeartbeatACK
    } else {
        OpCode::Unknown(n)
    }
}

impl OpCode {
    /// An opcode that some wire tag decodes to: `Unknown` never holds a known tag.
    pub open spec fn wf(self) -> bool {
        match self {
            OpCode::Unknown(n) => !is_known_code(n),
            _ => true,
        }
    }

    pub fn code(&self) -> (r: u64)
        ensures
            r == code_of(*self),
    {
        match self {
            OpCode::Dispatch => 0,
            OpCode::Heartbeat => 1,
            OpCode::Identify => 2,
            OpCode::PresenceUpdate => 3,
            OpCode::VoiceStateUpdate => 4,
            OpCode::Resume => 6,
            OpCode::Reconnect => 7,
            OpCode::RequestGuildMembers => 8,
            OpCode::InvalidSession => 9,
            OpCode::Hello => 10,
            OpCode::HeartbeatACK => 11,
            OpCode::Unknown(n) => *n,
        }
    }

    pub fn from_code(n: u64) -> (r: OpCode)
        ensures
            r == op_of(n),
            r.wf(),
    {
        match n {
            0 => OpCode::Dispatch,
            1 => OpCode::Heartbeat,
            2 => OpCode::Identify,
            3 => OpCode::PresenceUpdate,
            4 => OpCode::VoiceStateUpdate,
            6 => OpCode::Resume,
            7 => OpCode::Reconnect,
            8 => OpCode::RequestGuildMembers,
            9 => OpCode::InvalidSession,
            10 => OpCode::Hello,
            11 => OpCode::HeartbeatACK,
            _ => OpCode::Unknown(n),
        }
    }
}

/// Every well-formed opcode survives the trip through its wire tag.
pub proof fn lemma_code_round_trip(op: OpCode)
    requires
        op.wf(),
    ensures
        op_of(code_of(op)) == op,
{
}

} // verus!
