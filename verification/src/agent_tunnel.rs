//! The plain agent tunnel: requests and responses are both
//! `[string method][bytes data]`, the method travels without its leading
//! slashes, and every answer is an OK gRPC response.

use vstd::prelude::*;
use vstd::utf8::encode_utf8;
use vstd::slice::{slice_subrange, slice_to_vec};
use crate::be32::{be32, be32_value, push_be32, read_be32};
use crate::grpc_frame::{frame_of, lemma_unframe_frame};
use crate::text::{string_bytes, trim_leading_slashes, trim_slashes, utf8_string};
use crate::tunnel_ext::{field_of, parse_request, request_wire};

verus! {

/// Name of the SSH-agent extension that carries the tunnel.
pub const EXT_AUTHENTIK_AGENT_TUNNEL: &'static str = "agent-tunnel@goauthentik.io";

/// Payload sent to the SSH agent via the tunnel extension, and read back from
/// its answer. `method` is the gRPC path; `data` the raw serialized proto.
#[derive(Debug)]
pub struct ExtAuthentikAgentTunnelData {
    pub method: String,
    pub data: Vec<u8>,
}

impl View for ExtAuthentikAgentTunnelData {
    type V = (Seq<char>, Seq<u8>);

    open spec fn view(&self) -> (Seq<char>, Seq<u8>) {
        (self.method@, self.data@)
    }
}

/// Appends `data[from..to]` to `buf`.
fn push_range(buf: &mut Vec<u8>, data: &[u8], from: usize, to: usize)
    requires
        from <= to <= data@.len(),
    ensures
        final(buf)@ == old(buf)@ + data@.subrange(from as int, to as int),
{
    let ghost start = buf@;
    let mut i: usize = from;
    while i < to
        invariant
            from <= i <= to,
            to <= data@.len(),
            buf@ == start + data@.subrange(from as int, i as int),
        decreases to - i,
    {
        buf.push(data[i]);
        i = i + 1;
        assert(data@.subrange(from as int, i as int) =~= data@.subrange(from as int, i - 1).push(
            data@[i - 1],
        ));
    }
}

impl ExtAuthentikAgentTunnelData {
    pub fn serialize(&self) -> (r: Vec<u8>)
        ensures
            r@ == request_wire(self.method@, self.data@),
    {
        let method = string_bytes(&self.method);
        let mut buf: Vec<u8> = Vec::new();
        #[verifier::truncate]
        let method_len: u32 = method.len() as u32;
        push_be32(&mut buf, method_len);
        push_range(&mut buf, method.as_slice(), 0, method.len());
        #[verifier::truncate]
        let data_len: u32 = self.data.len() as u32;
        push_be32(&mut buf, data_len);
        push_range(&mut buf, self.data.as_slice(), 0, self.data.len());
        assert(method@.subrange(0, method@.len() as int) =~= method@);
        assert(self.data@.subrange(0, self.data@.len() as int) =~= self.data@);
        assert(buf@ =~= request_wire(self.method@, self.data@));
        buf
    }

    pub fn deserialize(buf: &[u8]) -> (r: Option<Self>)
        ensures
            match r {
                Some(d) => parse_request(buf@) == Some(d@),
                None => parse_request(buf@) is None,
            },
    {
        if buf.len() < 4 {
            return None;
        }
        let method_len = read_be32(buf, 0) as usize;
        let method_start: usize = 4;
        if buf.len() - method_start < method_len || buf.len() - method_start - method_len < 4 {
            return None;
        }
        let method_end = method_start + method_len;
        let method = match utf8_string(slice_to_vec(slice_subrange(buf, method_start, method_end))) {
            Some(m) => m,
            None => return None,
        };
        let data_len = read_be32(buf, method_end) as usize;
        let data_start = method_end + 4;
        if buf.len() - data_start < data_len {
            return None;
        }
        let data_end = data_start + data_len;
        let data = slice_to_vec(slice_subrange(buf, data_start, data_end));
        Some(ExtAuthentikAgentTunnelData { method, data })
    }
}

/// Why a request body could not be stripped of its gRPC frame.
#[derive(Debug, PartialEq, Eq)]
pub enum StripError {
    /// Fewer than the five header bytes arrived.
    TooShort,
    /// The header announces more bytes than the body holds.
    LengthExceedsBuffer,
}

impl StripError {
    pub fn to_string(&self) -> (r: String)
        ensures
            r@ == self.describe(),
    {
        match self {
            StripError::TooShort => String::from_str("gRPC frame too short"),
            StripError::LengthExceedsBuffer => String::from_str("gRPC frame length exceeds buffer"),
        }
    }

    pub open spec fn describe(&self) -> Seq<char> {
        match self {
            StripError::TooShort => "gRPC frame too short"@,
            StripError::LengthExceedsBuffer => "gRPC frame length exceeds buffer"@,
        }
    }
}

/// The message a framed request body carries, or why it cannot be read.
pub open spec fn strip_of(data: Seq<u8>) -> Result<Seq<u8>, StripError> {
    if data.len() < 5 {
        Err(StripError::TooShort)
    } else if 5 + be32_value(data[1], data[2], data[3], data[4]) <= data.len() {
        Ok(data.subrange(5, 5 + be32_value(data[1], data[2], data[3], data[4])))
    } else {
        Err(StripError::LengthExceedsBuffer)
    }
}

/// Stripping the frame off a framed message gives back the message.
pub proof fn lemma_strip_add(proto: Seq<u8>)
    requires
        proto.len() <= u32::MAX,
    ensures
        strip_of(frame_of(proto)) == Ok::<Seq<u8>, StripError>(proto),
{
    lemma_unframe_frame(proto);
}

/// Strips the 5-byte gRPC framing from a request body to get the raw proto bytes.
pub fn strip_grpc_frame(data: &[u8]) -> (r: Result<Vec<u8>, StripError>)
    ensures
        match r {
            Ok(v) => strip_of(data@) == Ok::<Seq<u8>, StripError>(v@),
            Err(e) => strip_of(data@) == Err::<Seq<u8>, StripError>(e),
        },
{
    if data.len() < 5 {
        return Err(StripError::TooShort);
    }
    let msg_len = read_be32(data, 1) as usize;
    if msg_len <= data.len() - 5 {
        Ok(slice_to_vec(slice_subrange(data, 5, 5 + msg_len)))
    } else {
        Err(StripError::LengthExceedsBuffer)
    }
}

/// Wraps raw proto bytes in a gRPC frame (5-byte uncompressed header).
pub fn add_grpc_frame(proto: &[u8]) -> (r: Vec<u8>)
    ensures
        r@ == frame_of(proto@),
{
    let mut buf: Vec<u8> = Vec::new();
    buf.push(0u8);
    #[verifier::truncate]
    let len: u32 = proto.len() as u32;
    push_be32(&mut buf, len);
    push_range(&mut buf, proto, 0, proto.len());
    assert(proto@.subrange(0, proto@.len() as int) =~= proto@);
    assert(buf@ =~= frame_of(proto@));
    buf
}

/// The tunnel payload for a gRPC call to `path` whose framed request body is
/// `body`: the method without its leading slashes and the unframed request.
pub fn tunnel_request_payload(path: &str, body: &[u8]) -> (r: Result<Vec<u8>, StripError>)
    ensures
        match strip_of(body@) {
            Ok(d) => r is Ok && r->Ok_0@ == request_wire(trim_leading_slashes(path@), d),
            Err(e) => r == Err::<Vec<u8>, StripError>(e),
        },
{
    let data = strip_grpc_frame(body)?;
    let payload = ExtAuthentikAgentTunnelData { method: trim_slashes(path), data };
    Ok(payload.serialize())
}

/// The gRPC response body for the agent's raw answer: the answer's data in a
/// frame, or `None` when the answer cannot be decoded.
pub fn tunnel_reply_body(raw: &[u8]) -> (r: Option<Vec<u8>>)
    ensures
        match parse_request(raw@) {
            Some((_, d)) => r is Some && r->0@ == frame_of(d),
            None => r is None,
        },
{
    match ExtAuthentikAgentTunnelData::deserialize(raw) {
        Some(d) => Some(add_grpc_frame(d.data.as_slice())),
        None => None,
    }
}

} // verus!
