//! Length-prefix framing: a frame is a little-endian `u32` body length
//! followed by a nonempty body, at most `MAX_ENCODED_FRAME` bytes in all.
use vstd::bytes::{spec_u32_from_le_bytes, u32_from_le_bytes, u32_to_le_bytes};
use vstd::prelude::*;

use crate::codec_laws::lemma_le_bytes;
use crate::message::{ProtocolError, MAX_BODY, MAX_ENCODED_FRAME};
use crate::wire::{le32, saturate_u32};

verus! {

/// The body length announced by a frame prefix, or why it is refused.
pub open spec fn spec_frame_body_length(prefix: Seq<u8>) -> Result<usize, ProtocolError> {
    let length = spec_u32_from_le_bytes(prefix);
    if length == 0 {
        Err(ProtocolError::ZeroLength)
    } else if length + 4 > MAX_ENCODED_FRAME {
        Err(ProtocolError::FrameTooLarge(length))
    } else {
        Ok(length as usize)
    }
}

/// The prefix announcing a body of `length` bytes, or why it is refused.
pub open spec fn spec_frame_prefix(length: int) -> Result<Seq<u8>, ProtocolError> {
    if length == 0 {
        Err(ProtocolError::ZeroLength)
    } else if length + 4 > MAX_ENCODED_FRAME {
        Err(ProtocolError::FrameTooLarge(saturate_u32(length)))
    } else {
        Ok(le32(length as u32))
    }
}

/// Checks the length prefix read from a stream before its body is read.
pub fn frame_body_length(prefix: &[u8]) -> (r: Result<usize, ProtocolError>)
    requires
        prefix@.len() == 4,
    ensures
        match spec_frame_body_length(prefix@) {
            Ok(n) => r == Ok::<usize, ProtocolError>(n),
            Err(e) => r == Err::<usize, ProtocolError>(e),
        },
{
    let body_length = u32_from_le_bytes(prefix);
    if body_length == 0 {
        return Err(ProtocolError::ZeroLength);
    }
    if body_length as usize > MAX_ENCODED_FRAME - 4 {
        return Err(ProtocolError::FrameTooLarge(body_length));
    }
    Ok(body_length as usize)
}

/// The length prefix to write before `body`.
pub fn frame_prefix(body: &[u8]) -> (r: Result<Vec<u8>, ProtocolError>)
    ensures
        match spec_frame_prefix(body@.len() as int) {
            Ok(p) => r matches Ok(v) && v@ == p,
            Err(e) => r matches Err(x) && x == e,
        },
{
    if body.len() == 0 {
        return Err(ProtocolError::ZeroLength);
    }
    if body.len() > MAX_ENCODED_FRAME - 4 {
        let length = if body.len() <= 0xFFFF_FFFF {
            body.len() as u32
        } else {
            0xFFFF_FFFF
        };
        return Err(ProtocolError::FrameTooLarge(length));
    }
    Ok(u32_to_le_bytes(body.len() as u32))
}

/// A frame written for a nonempty body of at most `MAX_BODY` bytes is read
/// back with that body's length.
pub proof fn lemma_frame_roundtrip(length: int)
    requires
        1 <= length <= MAX_BODY,
    ensures
        spec_frame_prefix(length) is Ok,
        spec_frame_body_length(spec_frame_prefix(length).unwrap()) == Ok::<usize, ProtocolError>(
            length as usize,
        ),
{
    lemma_le_bytes();
    let x = length as u32;
    assert(le32(x).len() == 4);
    assert(spec_u32_from_le_bytes(le32(x)) == x);
    assert(spec_frame_prefix(length).unwrap() == le32(x));
}

} // verus!
