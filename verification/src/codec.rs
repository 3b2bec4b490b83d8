//! Wire framing: each frame is a 4-byte little-endian length followed by
//! exactly that many payload bytes. Declared lengths above a fixed ceiling
//! are rejected before any payload is read or allocated.

use vstd::prelude::*;
use vstd::bytes::{spec_u32_from_le_bytes, spec_u32_to_le_bytes, u32_from_le_bytes,
    u32_to_le_bytes, lemma_auto_spec_u32_to_from_le_bytes};

verus! {

/// Largest payload length a frame may declare (10 MiB).
pub const MAX_FRAME_LEN: u32 = 10 * 1024 * 1024;

/// Failure while framing or unframing bytes.
#[derive(Debug, Clone, Copy, PartialEq, Eq, Structural)]
pub enum FrameError {
    /// The declared length exceeds the ceiling.
    Oversized,
    /// The buffer ends before the header or the declared payload does.
    Truncated,
    /// The payload is not a well-formed JSON envelope.
    Malformed,
}

/// The bytes of one frame carrying `payload`.
pub open spec fn spec_encode(payload: Seq<u8>) -> Seq<u8> {
    spec_u32_to_le_bytes(payload.len() as u32) + payload
}

/// The length a 4-byte header declares.
pub open spec fn spec_header_len(header: Seq<u8>) -> u32 {
    spec_u32_from_le_bytes(header)
}

/// What decoding a buffer that starts with a frame yields: the payload,
/// or the error mandated by the framing rules.
pub open spec fn spec_decode(buf: Seq<u8>) -> Result<Seq<u8>, FrameError> {
    if buf.len() < 4 {
        Err(FrameError::Truncated)
    } else {
        let len = spec_header_len(buf.subrange(0, 4));
        if len > MAX_FRAME_LEN {
            Err(FrameError::Oversized)
        } else if buf.len() < 4 + len {
            Err(FrameError::Truncated)
        } else {
            Ok(buf.subrange(4, 4 + len))
        }
    }
}

/// Encode one payload as a frame.
pub fn encode_frame(payload: &Vec<u8>) -> (frame: Vec<u8>)
    requires
        payload@.len() <= MAX_FRAME_LEN,
    ensures
        frame@ == spec_encode(payload@),
{
    proof {
        lemma_auto_spec_u32_to_from_le_bytes();
    }
    let mut frame = u32_to_le_bytes(payload.len() as u32);
    let mut i: usize = 0;
    while i < payload.len()
        invariant
            i <= payload@.len(),
            payload@.len() <= MAX_FRAME_LEN,
            frame@ == spec_u32_to_le_bytes(payload@.len() as u32) + payload@.subrange(0, i as int),
        decreases payload@.len() - i,
    {
        frame.push(payload[i]);
        i = i + 1;
        proof {
            assert(payload@.subrange(0, i as int)
                == payload@.subrange(0, i - 1).push(payload@[i - 1]));
        }
    }
    proof {
        assert(payload@.subrange(0, payload@.len() as int) == payload@);
    }
    frame
}

/// Interpret a 4-byte length header, enforcing the ceiling. No payload
/// buffer exists yet when this runs, so an oversized declaration is
/// rejected before any allocation.
pub fn decode_header(header: &[u8]) -> (r: Result<u32, FrameError>)
    requires
        header@.len() == 4,
    ensures
        match r {
            Ok(len) => len == spec_header_len(header@) && len <= MAX_FRAME_LEN,
            Err(e) => e == FrameError::Oversized && spec_header_len(header@) > MAX_FRAME_LEN,
        },
{
    let len = u32_from_le_bytes(header);
    if len > MAX_FRAME_LEN {
        Err(FrameError::Oversized)
    } else {
        Ok(len)
    }
}

/// Decode the frame at the start of `buf`, returning its payload and how
/// many bytes the frame occupies.
pub fn decode_frame(buf: &Vec<u8>) -> (r: Result<(Vec<u8>, usize), FrameError>)
    ensures
        match r {
            Ok((payload, consumed)) => {
                &&& spec_decode(buf@) == Ok::<Seq<u8>, FrameError>(payload@)
                &&& consumed == 4 + payload@.len()
                &&& payload@.len() <= MAX_FRAME_LEN
            },
            Err(e) => spec_decode(buf@) == Err::<Seq<u8>, FrameError>(e),
        },
{
    if buf.len() < 4 {
        return Err(FrameError::Truncated);
    }
    let mut header: Vec<u8> = Vec::new();
    header.push(buf[0]);
    header.push(buf[1]);
    header.push(buf[2]);
    header.push(buf[3]);
    proof {
        assert(header@ =~= buf@.subrange(0, 4));
    }
    let len = match decode_header(header.as_slice()) {
        Ok(len) => len,
        Err(e) => {
            return Err(e);
        },
    };
    let len = len as usize;
    if buf.len() - 4 < len {
        return Err(FrameError::Truncated);
    }
    let mut payload: Vec<u8> = Vec::new();
    let mut i: usize = 0;
    while i < len
        invariant
            i <= len,
            4 + len <= buf@.len(),
            4 + len <= usize::MAX,
            payload@ == buf@.subrange(4, 4 + i),
        decreases len - i,
    {
        payload.push(buf[4 + i]);
        i = i + 1;
        proof {
            assert(buf@.subrange(4, 4 + i as int)
                == buf@.subrange(4, 4 + (i - 1)).push(buf@[4 + (i - 1)]));
        }
    }
    Ok((payload, 4 + len))
}

/// Law: decoding an encoded payload gives the payload back.
pub proof fn lemma_decode_encode(payload: Seq<u8>)
    requires
        payload.len() <= MAX_FRAME_LEN,
    ensures
        spec_decode(spec_encode(payload)) == Ok::<Seq<u8>, FrameError>(payload),
{
    lemma_auto_spec_u32_to_from_le_bytes();
    let frame = spec_encode(payload);
    assert(frame.subrange(0, 4) =~= spec_u32_to_le_bytes(payload.len() as u32));
    assert(frame.subrange(4, frame.len() as int) =~= payload);
}

/// Law: re-encoding the payload of a whole valid frame gives the frame back.
pub proof fn lemma_encode_decode(frame: Seq<u8>, payload: Seq<u8>)
    requires
        spec_decode(frame) == Ok::<Seq<u8>, FrameError>(payload),
        frame.len() == 4 + spec_header_len(frame.subrange(0, 4)),
    ensures
        spec_encode(payload) == frame,
{
    lemma_auto_spec_u32_to_from_le_bytes();
    assert(payload =~= frame.subrange(4, frame.len() as int));
    assert(spec_encode(payload) =~= frame);
}

} // verus!
