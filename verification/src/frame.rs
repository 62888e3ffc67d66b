//! The wire format: one kind byte, the payload length as four bytes with the
//! most significant first, then exactly that many bytes of payload.

use vstd::prelude::*;

verus! {

/// Kind of a frame that carries benchmark payload.
pub const FRAME_DATA: u8 = 1;

/// Kind of the frame that ends a burst.
pub const FRAME_STOP: u8 = 2;

/// Kind of the frame in which the server reports its counters.
pub const FRAME_RESULT: u8 = 3;

/// Length of the kind byte and the length field together.
pub const HEADER_LEN: usize = 5;

/// Why a byte sequence is not a frame.
#[derive(Clone, Copy, Debug, PartialEq, Eq, Structural)]
pub enum FrameDecodeError {
    /// Fewer bytes than a header.
    TooShort,
    /// The length field differs from the number of bytes after the header.
    LengthMismatch,
}

/// The four bytes of `n`, most significant first.
pub open spec fn be32(n: u32) -> Seq<u8> {
    seq![
        (n / 0x100_0000) as u8,
        (n / 0x1_0000 % 0x100) as u8,
        (n / 0x100 % 0x100) as u8,
        (n % 0x100) as u8,
    ]
}

/// The number that four bytes denote, most significant first.
pub open spec fn be32_value(b: Seq<u8>) -> nat
    recommends
        b.len() == 4,
{
    (b[0] * 0x100_0000 + b[1] * 0x1_0000 + b[2] * 0x100 + b[3]) as nat
}

/// What the length field holds for a payload of `len` bytes: the length
/// itself while it fits in 32 bits, its low 32 bits beyond that.
pub open spec fn length_field(len: nat) -> u32 {
    (len % 0x1_0000_0000) as u32
}

/// The frame of the given kind and payload, as bytes.
pub open spec fn encoded(kind: u8, payload: Seq<u8>) -> Seq<u8> {
    seq![kind] + be32(length_field(payload.len())) + payload
}

/// What a byte sequence decodes to: its kind and payload, or the reason why
/// it is not a frame.
pub open spec fn decoded(bytes: Seq<u8>) -> Result<(u8, Seq<u8>), FrameDecodeError> {
    if bytes.len() < HEADER_LEN {
        Err(FrameDecodeError::TooShort)
    } else if be32_value(bytes.subrange(1, 5)) != bytes.len() - HEADER_LEN {
        Err(FrameDecodeError::LengthMismatch)
    } else {
        Ok((bytes[0], bytes.subrange(5, bytes.len() as int)))
    }
}

/// Encodes one frame. The result is `HEADER_LEN` bytes longer than the
/// payload, and decodes to the kind and the payload where the payload's
/// length fits the length field.
pub fn encode_frame(kind: u8, payload: &[u8]) -> (out: Vec<u8>)
    ensures
        out@ == encoded(kind, payload@),
        out@.len() == HEADER_LEN + payload@.len(),
        payload@.len() <= u32::MAX ==> decoded(out@) == Ok::<(u8, Seq<u8>), FrameDecodeError>(
            (kind, payload@),
        ),
{
    proof {
        if payload@.len() <= u32::MAX {
            lemma_decode_encoded(kind, payload@);
        }
    }
    let declared: u32 = ((payload.len() as u64) % 0x1_0000_0000) as u32;
    let mut out: Vec<u8> = Vec::with_capacity(payload.len().saturating_add(HEADER_LEN));
    out.push(kind);
    out.push((declared / 0x100_0000) as u8);
    out.push((declared / 0x1_0000 % 0x100) as u8);
    out.push((declared / 0x100 % 0x100) as u8);
    out.push((declared % 0x100) as u8);
    out.extend_from_slice(payload);
    assert(out@ =~= encoded(kind, payload@));
    out
}

/// Decodes one frame. The payload is borrowed from the input.
pub fn decode_frame(frame: &[u8]) -> (r: Result<(u8, &[u8]), FrameDecodeError>)
    ensures
        match r {
            Ok((kind, payload)) => decoded(frame@) == Ok::<(u8, Seq<u8>), FrameDecodeError>(
                (kind, payload@),
            ),
            Err(e) => decoded(frame@) == Err::<(u8, Seq<u8>), FrameDecodeError>(e),
        },
        r matches Err(FrameDecodeError::TooShort) <==> frame@.len() < HEADER_LEN,
        r matches Err(FrameDecodeError::LengthMismatch) <==> frame@.len() >= HEADER_LEN
            && be32_value(frame@.subrange(1, 5)) != frame@.len() - HEADER_LEN,
        r matches Ok((kind, payload)) ==> kind == frame@[0] && payload@ == frame@.subrange(
            5,
            frame@.len() as int,
        ),
{
    if frame.len() < HEADER_LEN {
        return Err(FrameDecodeError::TooShort);
    }
    let declared: u64 = (frame[1] as u64) * 0x100_0000 + (frame[2] as u64) * 0x1_0000
        + (frame[3] as u64) * 0x100 + (frame[4] as u64);
    if (frame.len() - HEADER_LEN) as u64 != declared {
        return Err(FrameDecodeError::LengthMismatch);
    }
    Ok((frame[0], &frame[5..frame.len()]))
}

/// Four bytes are the bytes of the number they denote.
pub proof fn lemma_be32_bytes(b: Seq<u8>)
    requires
        b.len() == 4,
    ensures
        be32_value(b) <= u32::MAX,
        be32(be32_value(b) as u32) == b,
{
    let (b0, b1, b2, b3) = (b[0], b[1], b[2], b[3]);
    let n: u32 = be32_value(b) as u32;
    assert(n == b0 * 0x100_0000 + b1 * 0x1_0000 + b2 * 0x100 + b3);
    assert(n / 0x100_0000 == b0 && n / 0x1_0000 % 0x100 == b1 && n / 0x100 % 0x100 == b2 && n
        % 0x100 == b3) by (bit_vector)
        requires
            n == b0 * 0x100_0000 + b1 * 0x1_0000 + b2 * 0x100 + b3,
    ;
    assert(be32(n) =~= b);
}

/// Round trip: a frame whose payload length fits the length field decodes
/// to the kind and payload it was encoded from.
pub proof fn lemma_decode_encoded(kind: u8, payload: Seq<u8>)
    requires
        payload.len() <= u32::MAX,
    ensures
        decoded(encoded(kind, payload)) == Ok::<(u8, Seq<u8>), FrameDecodeError>((kind, payload)),
{
    let bytes = encoded(kind, payload);
    assert(bytes.subrange(1, 5) =~= be32(length_field(payload.len())));
    assert(bytes.subrange(5, bytes.len() as int) =~= payload);
}

/// A frame whose payload is too long for the length field does not come
/// back: its length field holds less than follows the header.
pub proof fn lemma_oversized_is_rejected(kind: u8, payload: Seq<u8>)
    requires
        payload.len() > u32::MAX,
    ensures
        decoded(encoded(kind, payload)) == Err::<(u8, Seq<u8>), FrameDecodeError>(
            FrameDecodeError::LengthMismatch,
        ),
{
    let bytes = encoded(kind, payload);
    assert(bytes.subrange(1, 5) =~= be32(length_field(payload.len())));
}

/// No two frames share their bytes: what decodes to a kind and a payload is
/// the encoding of that kind and payload.
pub proof fn lemma_encode_decoded(bytes: Seq<u8>)
    requires
        decoded(bytes) is Ok,
    ensures
        encoded(decoded(bytes)->Ok_0.0, decoded(bytes)->Ok_0.1) == bytes,
        decoded(bytes)->Ok_0.1.len() == bytes.len() - HEADER_LEN,
        decoded(bytes)->Ok_0.1.len() <= u32::MAX,
{
    let (kind, payload) = decoded(bytes)->Ok_0;
    lemma_be32_bytes(bytes.subrange(1, 5));
    assert(encoded(kind, payload) =~= bytes);
}

} // verus!
