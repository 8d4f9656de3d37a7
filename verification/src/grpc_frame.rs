//! The five-byte gRPC message framing: a compression flag (always zero here)
//! followed by the big-endian length of the message.

use vstd::prelude::*;
use crate::be32::{be32, be32_value, lemma_be32_roundtrip, push_be32, read_be32};
use vstd::slice::{slice_subrange, slice_to_vec};

verus! {

/// A framed message: flag byte 0, the length (truncated to 32 bits), the bytes.
pub open spec fn frame_of(data: Seq<u8>) -> Seq<u8> {
    seq![0u8] + be32(data.len() as u32) + data
}

/// Wraps raw message bytes in an uncompressed gRPC frame.
pub fn grpc_frame(data: &[u8]) -> (r: Vec<u8>)
    ensures
        r@ == frame_of(data@),
{
    let mut buf: Vec<u8> = Vec::new();
    buf.push(0u8);
    #[verifier::truncate]
    let len: u32 = data.len() as u32;
    push_be32(&mut buf, len);
    let mut i: usize = 0;
    while i < data.len()
        invariant
            i <= data@.len(),
            buf@ == seq![0u8] + be32(len) + data@.subrange(0, i as int),
            len == data@.len() as u32,
        decreases data@.len() - i,
    {
        buf.push(data[i]);
        i = i + 1;
        assert(data@.subrange(0, i as int) =~= data@.subrange(0, i - 1).push(data@[i - 1]));
    }
    assert(data@.subrange(0, i as int) =~= data@);
    buf
}

/// Why a received frame could not be unwrapped.
#[derive(Debug, PartialEq, Eq)]
pub enum FrameError {
    /// Fewer than the five header bytes arrived.
    TooShort,
    /// The header announces more bytes than the buffer holds.
    Truncated,
}

impl FrameError {
    /// The human-readable description of the error.
    pub fn to_string(&self) -> (r: String)
        ensures
            r@ == self.describe(),
    {
        match self {
            FrameError::TooShort => String::from_str("gRPC response frame too short"),
            FrameError::Truncated => String::from_str("gRPC response truncated"),
        }
    }

    pub open spec fn describe(&self) -> Seq<char> {
        match self {
            FrameError::TooShort => "gRPC response frame too short"@,
            FrameError::Truncated => "gRPC response truncated"@,
        }
    }
}

/// The length announced by the header of `data` (which holds at least five bytes).
pub open spec fn announced_len(data: Seq<u8>) -> u32 {
    be32_value(data[1], data[2], data[3], data[4])
}

/// What unwrapping `data` yields: the message the header announces, or why not.
pub open spec fn unframe_of(data: Seq<u8>) -> Result<Seq<u8>, FrameError> {
    if data.len() < 5 {
        Err(FrameError::TooShort)
    } else if 5 + announced_len(data) <= data.len() {
        Ok(data.subrange(5, 5 + announced_len(data)))
    } else {
        Err(FrameError::Truncated)
    }
}

/// Unwraps a gRPC frame, returning the message it announces. Bytes after the
/// announced message are ignored.
pub fn grpc_unframe(data: &[u8]) -> (r: Result<Vec<u8>, FrameError>)
    ensures
        match r {
            Ok(v) => unframe_of(data@) == Ok::<Seq<u8>, FrameError>(v@),
            Err(e) => unframe_of(data@) == Err::<Seq<u8>, FrameError>(e),
        },
{
    if data.len() < 5 {
        return Err(FrameError::TooShort);
    }
    let msg_len = read_be32(data, 1) as usize;
    if msg_len <= data.len() - 5 {
        Ok(slice_to_vec(slice_subrange(data, 5, 5 + msg_len)))
    } else {
        Err(FrameError::Truncated)
    }
}

/// Unwrapping a frame gives back the framed message.
pub proof fn lemma_unframe_frame(data: Seq<u8>)
    requires
        data.len() <= u32::MAX,
    ensures
        unframe_of(frame_of(data)) == Ok::<Seq<u8>, FrameError>(data),
{
    let f = frame_of(data);
    lemma_be32_roundtrip(data.len() as u32);
    assert(f[1] == be32(data.len() as u32)[0]);
    assert(f[2] == be32(data.len() as u32)[1]);
    assert(f[3] == be32(data.len() as u32)[2]);
    assert(f[4] == be32(data.len() as u32)[3]);
    assert(announced_len(f) == data.len());
    assert(f.subrange(5, 5 + data.len() as int) =~= data);
}

} // verus!
