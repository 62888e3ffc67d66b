//! What the transport attaches to each message.

use vstd::prelude::*;

verus! {

/// The payload protocol identifier under which frames are sent: `PRF1`.
pub const DEFAULT_PPID: u32 = 0x5052_4631;

/// The transport's tags on one message. They are never interpreted here: a
/// reply that carries the tags of the message it answers travels on the
/// same stream of the same association.
#[derive(Clone, Copy, Debug, PartialEq, Eq, Structural)]
pub struct TransportMetadata {
    pub stream_id: u16,
    pub protocol_id: u32,
    pub association_id: i32,
}

impl TransportMetadata {
    /// The tags of a message that starts an exchange: stream 0 of the
    /// connection's own association, under `DEFAULT_PPID`.
    pub open spec fn spec_initial() -> TransportMetadata {
        TransportMetadata { stream_id: 0, protocol_id: DEFAULT_PPID, association_id: 0 }
    }

    /// The tags of a message that starts an exchange: stream 0 of the
    /// connection's own association, under `DEFAULT_PPID`.
    #[verifier::when_used_as_spec(spec_initial)]
    pub fn initial() -> (r: TransportMetadata)
        ensures
            r == Self::spec_initial(),
    {
        TransportMetadata { stream_id: 0, protocol_id: DEFAULT_PPID, association_id: 0 }
    }
}

} // verus!
