//! From the bytes of one receive to a frame.

use crate::error::RunError;
use crate::frame::{decode_frame, decoded};
use vstd::prelude::*;

verus! {

/// What one receive yields: the frame's kind and payload, or the reason why
/// there is none. A receive of no bytes means that the peer is gone.
pub open spec fn received_frame(received: Seq<u8>) -> Result<(u8, Seq<u8>), RunError> {
    if received.len() == 0 {
        Err(RunError::UnexpectedEof)
    } else {
        match decoded(received) {
            Ok(frame) => Ok(frame),
            Err(e) => Err(RunError::Decode(e)),
        }
    }
}

/// Reads the frame out of the bytes of one receive. The payload is borrowed
/// from them.
pub fn receive_frame(received: &[u8]) -> (r: Result<(u8, &[u8]), RunError>)
    ensures
        match r {
            Ok((kind, payload)) => received_frame(received@) == Ok::<(u8, Seq<u8>), RunError>(
                (kind, payload@),
            ),
            Err(e) => received_frame(received@) == Err::<(u8, Seq<u8>), RunError>(e),
        },
{
    if received.len() == 0 {
        return Err(RunError::UnexpectedEof);
    }
    match decode_frame(received) {
        Ok(frame) => Ok(frame),
        Err(e) => Err(RunError::Decode(e)),
    }
}

/// Reads the frame out of the bytes of one receive and gives its kind and
/// the length of its payload.
pub fn recv_user_frame(received: &[u8]) -> (r: Result<(u8, usize), RunError>)
    ensures
        match r {
            Ok((kind, len)) => received_frame(received@) matches Ok((k, payload)) && k == kind
                && payload.len() == len,
            Err(e) => received_frame(received@) == Err::<(u8, Seq<u8>), RunError>(e),
        },
{
    match receive_frame(received) {
        Ok((kind, payload)) => Ok((kind, payload.len())),
        Err(e) => Err(e),
    }
}

} // verus!
