//! Client side of a push-based real-time gateway protocol: the envelope codec,
//! the connection handshake, and the supervisor that keeps an established
//! session alive. Each is a pure state machine; the embedding program owns the
//! stream, the timers and the channels, and performs the actions they return.
use vstd::prelude::*;

pub mod json;
pub mod opcode;
pub mod event;
pub mod codec;
pub mod session;
pub mod handshake;
pub mod supervisor;
pub mod endpoint;

verus! {

pub fn add(left: usize, right: usize) -> (r: usize)
    requires
        left + right <= usize::MAX,
    ensures
        r == left + right,
{
    left + right
}

} // verus!
