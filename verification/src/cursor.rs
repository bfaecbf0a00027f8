//! A forward reader over a message payload.
use vstd::bytes::{
    spec_u16_from_le_bytes, spec_u32_from_le_bytes, spec_u64_from_le_bytes, u16_from_le_bytes,
    u32_from_le_bytes, u64_from_le_bytes,
};
use vstd::prelude::*;
use vstd::slice::{slice_subrange, slice_to_vec};
use vstd::utf8::{decode_utf8, valid_utf8};

use crate::message::{ProtocolError, MAX_CAPTURE_TEXT_BYTES, MAX_VERSION_BYTES};
use crate::wire::{bounded_bytes_at, optional_text_at, short_text_at};

verus! {

/// `Ok` with the view of the value and the cursor position after it.
pub open spec fn bytes_at_view(r: Result<Vec<u8>, ProtocolError>, end: usize) -> Result<
    (Seq<u8>, int),
    ProtocolError,
> {
    match r {
        Ok(v) => Ok((v@, end as int)),
        Err(e) => Err(e),
    }
}

pub open spec fn text_at_view(r: Result<String, ProtocolError>, end: usize) -> Result<
    (Seq<char>, int),
    ProtocolError,
> {
    match r {
        Ok(s) => Ok((s@, end as int)),
        Err(e) => Err(e),
    }
}

pub open spec fn optional_text_at_view(r: Result<Option<String>, ProtocolError>, end: usize) -> Result<
    (Option<Seq<char>>, int),
    ProtocolError,
> {
    match r {
        Ok(Some(s)) => Ok((Some(s@), end as int)),
        Ok(None) => Ok((None, end as int)),
        Err(e) => Err(e),
    }
}

/// The string whose UTF-8 encoding is `bytes`, if `bytes` is valid UTF-8.
///
/// Calls `std::str::from_utf8` and copies the result: `Some` exactly when
/// the bytes are valid UTF-8, holding the characters they decode to.
#[verifier::external_body]
pub(crate) fn string_from_utf8(bytes: &[u8]) -> (r: Option<String>)
    ensures
        r is Some <==> valid_utf8(bytes@),
        r matches Some(s) ==> s@ == decode_utf8(bytes@),
{
    match std::str::from_utf8(bytes) {
        Ok(text) => Some(text.to_owned()),
        Err(_) => None,
    }
}

pub struct Cursor<'a> {
    pub bytes: &'a [u8],
    pub position: usize,
}

impl<'a> Cursor<'a> {
    pub open spec fn wf(&self) -> bool {
        self.position <= self.bytes@.len()
    }

    pub fn new(bytes: &'a [u8]) -> (c: Self)
        ensures
            c.bytes@ == bytes@,
            c.position == 0,
            c.wf(),
    {
        Cursor { bytes, position: 0 }
    }

    /// The next `n` bytes.
    pub fn take(&mut self, n: usize) -> (r: Result<&'a [u8], ProtocolError>)
        requires
            old(self).wf(),
        ensures
            final(self).wf(),
            final(self).bytes@ == old(self).bytes@,
            old(self).position + n <= old(self).bytes@.len() ==> {
                &&& r matches Ok(s)
                &&& s@ == old(self).bytes@.subrange(
                    old(self).position as int,
                    old(self).position + n,
                )
                &&& final(self).position == old(self).position + n
            },
            old(self).position + n > old(self).bytes@.len() ==> r matches Err(
                ProtocolError::InvalidMessage,
            ),
    {
        if n > self.bytes.len() - self.position {
            return Err(ProtocolError::InvalidMessage);
        }
        let end = self.position + n;
        let bytes = slice_subrange(self.bytes, self.position, end);
        self.position = end;
        Ok(bytes)
    }

    pub fn u8(&mut self) -> (r: Result<u8, ProtocolError>)
        requires
            old(self).wf(),
        ensures
            final(self).wf(),
            final(self).bytes@ == old(self).bytes@,
            old(self).position + 1 <= old(self).bytes@.len() ==> {
                &&& r == Ok::<u8, ProtocolError>(old(self).bytes@[old(self).position as int])
                &&& final(self).position == old(self).position + 1
            },
            old(self).position + 1 > old(self).bytes@.len() ==> r matches Err(
                ProtocolError::InvalidMessage,
            ),
    {
        let bytes = self.take(1)?;
        Ok(bytes[0])
    }

    pub fn u16(&mut self) -> (r: Result<u16, ProtocolError>)
        requires
            old(self).wf(),
        ensures
            final(self).wf(),
            final(self).bytes@ == old(self).bytes@,
            old(self).position + 2 <= old(self).bytes@.len() ==> {
                &&& r == Ok::<u16, ProtocolError>(
                    spec_u16_from_le_bytes(
                        old(self).bytes@.subrange(
                            old(self).position as int,
                            old(self).position + 2,
                        ),
                    ),
                )
                &&& final(self).position == old(self).position + 2
            },
            old(self).position + 2 > old(self).bytes@.len() ==> r matches Err(
                ProtocolError::InvalidMessage,
            ),
    {
        let bytes = self.take(2)?;
        Ok(u16_from_le_bytes(bytes))
    }

    pub fn u32(&mut self) -> (r: Result<u32, ProtocolError>)
        requires
            old(self).wf(),
        ensures
            final(self).wf(),
            final(self).bytes@ == old(self).bytes@,
            old(self).position + 4 <= old(self).bytes@.len() ==> {
                &&& r == Ok::<u32, ProtocolError>(
                    spec_u32_from_le_bytes(
                        old(self).bytes@.subrange(
                            old(self).position as int,
                            old(self).position + 4,
                        ),
                    ),
                )
                &&& final(self).position == old(self).position + 4
            },
            old(self).position + 4 > old(self).bytes@.len() ==> r matches Err(
                ProtocolError::InvalidMessage,
            ),
    {
        let bytes = self.take(4)?;
        Ok(u32_from_le_bytes(bytes))
    }

    pub fn u64(&mut self) -> (r: Result<u64, ProtocolError>)
        requires
            old(self).wf(),
        ensures
            final(self).wf(),
            final(self).bytes@ == old(self).bytes@,
            old(self).position + 8 <= old(self).bytes@.len() ==> {
                &&& r == Ok::<u64, ProtocolError>(
                    spec_u64_from_le_bytes(
                        old(self).bytes@.subrange(
                            old(self).position as int,
                            old(self).position + 8,
                        ),
                    ),
                )
                &&& final(self).position == old(self).position + 8
            },
            old(self).position + 8 > old(self).bytes@.len() ==> r matches Err(
                ProtocolError::InvalidMessage,
            ),
    {
        let bytes = self.take(8)?;
        Ok(u64_from_le_bytes(bytes))
    }

    /// A byte that must be 0 (`false`) or 1 (`true`).
    pub fn boolean(&mut self) -> (r: Result<bool, ProtocolError>)
        requires
            old(self).wf(),
        ensures
            final(self).wf(),
            final(self).bytes@ == old(self).bytes@,
            old(self).position + 1 <= old(self).bytes@.len() && old(self).bytes@[old(
                self,
            ).position as int] <= 1 ==> {
                &&& r == Ok::<bool, ProtocolError>(
                    old(self).bytes@[old(self).position as int] == 1,
                )
                &&& final(self).position == old(self).position + 1
            },
            !(old(self).position + 1 <= old(self).bytes@.len() && old(self).bytes@[old(
                self,
            ).position as int] <= 1) ==> r matches Err(ProtocolError::InvalidMessage),
    {
        let byte = self.u8()?;
        if byte == 0 {
            Ok(false)
        } else if byte == 1 {
            Ok(true)
        } else {
            Err(ProtocolError::InvalidMessage)
        }
    }

    /// A 32-bit length followed by that many bytes, at most `maximum`.
    pub fn bounded_bytes(&mut self, maximum: usize) -> (r: Result<Vec<u8>, ProtocolError>)
        requires
            old(self).wf(),
        ensures
            final(self).wf(),
            final(self).bytes@ == old(self).bytes@,
            bytes_at_view(r, final(self).position) == bounded_bytes_at(
                old(self).bytes@,
                old(self).position as int,
                maximum as int,
            ),
    {
        let length = self.u32()?;
        if length as usize > maximum {
            return Err(ProtocolError::InvalidMessage);
        }
        let bytes = self.take(length as usize)?;
        Ok(slice_to_vec(bytes))
    }

    /// A short string: one length byte, then that many UTF-8 bytes.
    pub fn string(&mut self) -> (r: Result<String, ProtocolError>)
        requires
            old(self).wf(),
        ensures
            final(self).wf(),
            final(self).bytes@ == old(self).bytes@,
            text_at_view(r, final(self).position) == short_text_at(
                old(self).bytes@,
                old(self).position as int,
            ),
    {
        let length = self.u8()?;
        if length as usize > MAX_VERSION_BYTES {
            return Err(ProtocolError::VersionTooLong);
        }
        let bytes = self.take(length as usize)?;
        match string_from_utf8(bytes) {
            Some(text) => Ok(text),
            None => Err(ProtocolError::InvalidUtf8),
        }
    }

    /// An optional capture text: a 16-bit length, `0xFFFF` for none.
    pub fn optional_capture_text(&mut self) -> (r: Result<Option<String>, ProtocolError>)
        requires
            old(self).wf(),
        ensures
            final(self).wf(),
            final(self).bytes@ == old(self).bytes@,
            optional_text_at_view(r, final(self).position) == optional_text_at(
                old(self).bytes@,
                old(self).position as int,
            ),
    {
        let length = self.u16()?;
        if length == 0xFFFF {
            return Ok(None);
        }
        if length as usize > MAX_CAPTURE_TEXT_BYTES {
            return Err(ProtocolError::InvalidMessage);
        }
        let bytes = self.take(length as usize)?;
        match string_from_utf8(bytes) {
            Some(text) => Ok(Some(text)),
            None => Err(ProtocolError::InvalidUtf8),
        }
    }

    /// Succeeds only when every byte has been read.
    pub fn finish(self) -> (r: Result<(), ProtocolError>)
        ensures
            r is Ok <==> self.position == self.bytes@.len(),
            r is Err ==> r matches Err(ProtocolError::InvalidMessage),
    {
        if self.position == self.bytes.len() {
            Ok(())
        } else {
            Err(ProtocolError::InvalidMessage)
        }
    }
}

} // verus!
