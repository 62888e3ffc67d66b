//! What ends a run early.

use crate::frame::FrameDecodeError;
use vstd::prelude::*;

verus! {

/// The peer sent a well-formed frame that the exchange does not allow.
#[derive(Clone, Copy, Debug, PartialEq, Eq, Structural)]
pub enum ProtocolError {
    /// A frame of this kind is not expected now.
    UnexpectedFrameKind(u8),
    /// An echo came back with a payload of this length, not the length sent.
    UnexpectedPayloadSize(usize),
}

/// Why a state machine gave up. Every one of these ends the run: nothing is
/// retried and no counters are reported.
#[derive(Clone, Copy, Debug, PartialEq, Eq, Structural)]
pub enum RunError {
    /// The peer closed the connection: a receive returned no bytes.
    UnexpectedEof,
    /// What was received is not a frame.
    Decode(FrameDecodeError),
    /// What was received is a frame, but not one the exchange allows.
    Protocol(ProtocolError),
}

} // verus!
