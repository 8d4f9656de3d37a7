//! The payloads carried through the `agent-tunnel@goauthentik.io` SSH-agent
//! extension: a gRPC request going to the agent, and the agent's answer.
//!
//! Both are built from `u32`-length-prefixed fields in the SSH encoding:
//! request `[string method][bytes data]`, response
//! `[u8 type][string method][bytes data][u32 grpc-status][string grpc-message]`.
//! The two status fields of the response are optional on the way in: a payload
//! that stops after `data` reads back as status 0 with an empty message.

use vstd::prelude::*;
use vstd::utf8::{decode_utf8, encode_utf8, valid_utf8};
use vstd::slice::{slice_subrange, slice_to_vec};
use crate::be32::{be32, be32_value, lemma_be32_roundtrip, push_be32, read_be32};
use crate::text::{string_bytes, utf8_string};
use vstd::utf8::{encode_utf8_decode_utf8, encode_utf8_valid_utf8};

verus! {

/// Name of the SSH-agent extension that carries the tunnel.
pub const EXT_AUTHENTIK_AGENT_TUNNEL: &'static str = "agent-tunnel@goauthentik.io";

/// Type tag the agent prepends to its tunnel response.
pub const SSH_AGENT_EXT_RESPONSE_TYPE: u8 = 29;

/// A length-prefixed field holding `b` (the length truncated to 32 bits).
pub open spec fn field_of(b: Seq<u8>) -> Seq<u8> {
    be32(b.len() as u32) + b
}

/// The `u32` stored at `buf[pos..pos + 4]` and the position after it.
pub open spec fn parse_u32_at(buf: Seq<u8>, pos: int) -> Option<(u32, int)> {
    if 0 <= pos && pos + 4 <= buf.len() {
        Some((be32_value(buf[pos], buf[pos + 1], buf[pos + 2], buf[pos + 3]), pos + 4))
    } else {
        None
    }
}

/// The length-prefixed field starting at `pos` and the position after it.
pub open spec fn parse_field_at(buf: Seq<u8>, pos: int) -> Option<(Seq<u8>, int)> {
    match parse_u32_at(buf, pos) {
        Some((n, p)) => if p + n <= buf.len() {
            Some((buf.subrange(p, p + n), p + n))
        } else {
            None
        },
        None => None,
    }
}

/// The length-prefixed UTF-8 text starting at `pos` and the position after it.
pub open spec fn parse_text_at(buf: Seq<u8>, pos: int) -> Option<(Seq<char>, int)> {
    match parse_field_at(buf, pos) {
        Some((b, p)) => if valid_utf8(b) {
            Some((decode_utf8(b), p))
        } else {
            None
        },
        None => None,
    }
}

/// Appends `data` as a length-prefixed field.
pub fn push_field(buf: &mut Vec<u8>, data: &[u8])
    ensures
        final(buf)@ == old(buf)@ + field_of(data@),
{
    #[verifier::truncate]
    let len: u32 = data.len() as u32;
    push_be32(buf, len);
    let ghost start = buf@;
    let mut i: usize = 0;
    while i < data.len()
        invariant
            i <= data@.len(),
            buf@ == start + data@.subrange(0, i as int),
        decreases data@.len() - i,
    {
        buf.push(data[i]);
        i = i + 1;
        assert(data@.subrange(0, i as int) =~= data@.subrange(0, i - 1).push(data@[i - 1]));
    }
    assert(data@.subrange(0, i as int) =~= data@);
    assert(buf@ =~= old(buf)@ + field_of(data@));
}

/// Cursor over the length-prefixed fields of a payload.
struct Fields<'a> {
    buf: &'a [u8],
    pos: usize,
}

impl<'a> Fields<'a> {
    fn new(buf: &'a [u8]) -> (r: Self)
        ensures
            r.buf@ == buf@,
            r.pos == 0,
    {
        Fields { buf, pos: 0 }
    }

    fn is_empty(&self) -> (r: bool)
        ensures
            r == (self.pos >= self.buf@.len()),
    {
        self.pos >= self.buf.len()
    }

    fn u32(&mut self) -> (r: Option<u32>)
        requires
            old(self).pos <= old(self).buf@.len(),
        ensures
            final(self).buf@ == old(self).buf@,
            final(self).pos <= final(self).buf@.len(),
            match r {
                Some(v) => parse_u32_at(old(self).buf@, old(self).pos as int) == Some(
                    (v, final(self).pos as int),
                ),
                None => parse_u32_at(old(self).buf@, old(self).pos as int) is None,
            },
    {
        if self.buf.len() - self.pos < 4 {
            return None;
        }
        let v = read_be32(self.buf, self.pos);
        self.pos = self.pos + 4;
        Some(v)
    }

    fn field(&mut self) -> (r: Option<&'a [u8]>)
        requires
            old(self).pos <= old(self).buf@.len(),
        ensures
            final(self).buf@ == old(self).buf@,
            final(self).pos <= final(self).buf@.len(),
            match r {
                Some(b) => parse_field_at(old(self).buf@, old(self).pos as int) == Some(
                    (b@, final(self).pos as int),
                ),
                None => parse_field_at(old(self).buf@, old(self).pos as int) is None,
            },
    {
        let len = match self.u32() {
            Some(n) => n as usize,
            None => return None,
        };
        if len > self.buf.len() - self.pos {
            return None;
        }
        let raw = slice_subrange(self.buf, self.pos, self.pos + len);
        self.pos = self.pos + len;
        Some(raw)
    }

    fn string(&mut self) -> (r: Option<String>)
        requires
            old(self).pos <= old(self).buf@.len(),
        ensures
            final(self).buf@ == old(self).buf@,
            final(self).pos <= final(self).buf@.len(),
            match r {
                Some(s) => parse_text_at(old(self).buf@, old(self).pos as int) == Some(
                    (s@, final(self).pos as int),
                ),
                None => parse_text_at(old(self).buf@, old(self).pos as int) is None,
            },
    {
        match self.field() {
            Some(b) => utf8_string(slice_to_vec(b)),
            None => None,
        }
    }
}

/// Payload sent to the SSH agent through the tunnel extension.
/// `method` is the full gRPC path (e.g. `/package.Service/Method`); `data` is
/// the raw serialized proto request, without gRPC framing.
#[derive(Debug)]
pub struct ExtAuthentikAgentTunnelData {
    pub method: String,
    pub data: Vec<u8>,
}

impl View for ExtAuthentikAgentTunnelData {
    type V = (Seq<char>, Seq<u8>);

    open spec fn view(&self) -> (Seq<char>, Seq<u8>) {
        (self.method@, self.data@)
    }
}

/// The encoding of a request: `[string method][bytes data]`.
pub open spec fn request_wire(method: Seq<char>, data: Seq<u8>) -> Seq<u8> {
    field_of(encode_utf8(method)) + field_of(data)
}

/// The request a payload decodes to; bytes after the data field are ignored.
pub open spec fn parse_request(buf: Seq<u8>) -> Option<(Seq<char>, Seq<u8>)> {
    match parse_text_at(buf, 0) {
        Some((m, p)) => match parse_field_at(buf, p) {
            Some((d, _)) => Some((m, d)),
            None => None,
        },
        None => None,
    }
}

impl ExtAuthentikAgentTunnelData {
    pub fn serialize(&self) -> (r: Vec<u8>)
        ensures
            r@ == request_wire(self.method@, self.data@),
    {
        let mut buf: Vec<u8> = Vec::new();
        let method = string_bytes(&self.method);
        push_field(&mut buf, method.as_slice());
        push_field(&mut buf, self.data.as_slice());
        assert(buf@ =~= request_wire(self.method@, self.data@));
        buf
    }

    pub fn deserialize(buf: &[u8]) -> (r: Option<Self>)
        ensures
            match r {
                Some(d) => parse_request(buf@) == Some(d@),
                None => parse_request(buf@) is None,
            },
    {
        let mut fields = Fields::new(buf);
        let method = match fields.string() {
            Some(m) => m,
            None => return None,
        };
        let data = match fields.field() {
            Some(d) => slice_to_vec(d),
            None => return None,
        };
        Some(ExtAuthentikAgentTunnelData { method, data })
    }
}

/// Payload the SSH agent sends back through the tunnel extension.
/// `status` is a gRPC status code (zero means OK).
#[derive(Debug)]
pub struct ExtAuthentikAgentTunnelResponse {
    pub method: String,
    pub data: Vec<u8>,
    pub status: i32,
    pub message: String,
}

impl View for ExtAuthentikAgentTunnelResponse {
    type V = (Seq<char>, Seq<u8>, i32, Seq<char>);

    open spec fn view(&self) -> (Seq<char>, Seq<u8>, i32, Seq<char>) {
        (self.method@, self.data@, self.status, self.message@)
    }
}

/// The encoding of a response:
/// `[u8 29][string method][bytes data][u32 status][string message]`.
pub open spec fn response_wire(method: Seq<char>, data: Seq<u8>, status: i32, message: Seq<char>) -> Seq<u8> {
    seq![SSH_AGENT_EXT_RESPONSE_TYPE] + field_of(encode_utf8(method)) + field_of(data) + be32(
        status as u32,
    ) + field_of(encode_utf8(message))
}

/// The response a payload decodes to. A payload that ends right after the
/// data field is an OK response with an empty message.
pub open spec fn parse_response(buf: Seq<u8>) -> Option<(Seq<char>, Seq<u8>, i32, Seq<char>)> {
    if buf.len() == 0 || buf[0] != SSH_AGENT_EXT_RESPONSE_TYPE {
        None
    } else {
        let rest = buf.subrange(1, buf.len() as int);
        match parse_text_at(rest, 0) {
            None => None,
            Some((m, p1)) => match parse_field_at(rest, p1) {
                None => None,
                Some((d, p2)) => if p2 >= rest.len() {
                    Some((m, d, 0i32, Seq::<char>::empty()))
                } else {
                    match parse_u32_at(rest, p2) {
                        None => None,
                        Some((s, p3)) => match parse_text_at(rest, p3) {
                            None => None,
                            Some((msg, _)) => Some((m, d, s as i32, msg)),
                        },
                    }
                },
            },
        }
    }
}

impl ExtAuthentikAgentTunnelResponse {
    /// A successful response carrying `data`.
    pub fn ok(method: String, data: Vec<u8>) -> (r: Self)
        ensures
            r@ == (method@, data@, 0i32, Seq::<char>::empty()),
    {
        ExtAuthentikAgentTunnelResponse { method, data, status: 0, message: String::new() }
    }

    /// A failure with no response body. `method` may be empty when the request
    /// could not be decoded far enough to know it.
    pub fn error(method: String, status: i32, message: String) -> (r: Self)
        ensures
            r@ == (method@, Seq::<u8>::empty(), status, message@),
    {
        ExtAuthentikAgentTunnelResponse { method, data: Vec::new(), status, message }
    }

    pub fn serialize(&self) -> (r: Vec<u8>)
        ensures
            r@ == response_wire(self.method@, self.data@, self.status, self.message@),
    {
        let mut buf: Vec<u8> = Vec::new();
        buf.push(SSH_AGENT_EXT_RESPONSE_TYPE);
        let method = string_bytes(&self.method);
        push_field(&mut buf, method.as_slice());
        push_field(&mut buf, self.data.as_slice());
        #[verifier::truncate]
        let status: u32 = self.status as u32;
        push_be32(&mut buf, status);
        let message = string_bytes(&self.message);
        push_field(&mut buf, message.as_slice());
        assert(buf@ =~= response_wire(self.method@, self.data@, self.status, self.message@));
        buf
    }

    pub fn deserialize(buf: &[u8]) -> (r: Option<Self>)
        ensures
            match r {
                Some(d) => parse_response(buf@) == Some(d@),
                None => parse_response(buf@) is None,
            },
    {
        if buf.len() == 0 || buf[0] != SSH_AGENT_EXT_RESPONSE_TYPE {
            return None;
        }
        let rest = slice_subrange(buf, 1, buf.len());
        let mut fields = Fields::new(rest);
        let method = match fields.string() {
            Some(m) => m,
            None => return None,
        };
        let data = match fields.field() {
            Some(d) => slice_to_vec(d),
            None => return None,
        };
        if fields.is_empty() {
            return Some(ExtAuthentikAgentTunnelResponse { method, data, status: 0, message: String::new() });
        }
        let raw_status = match fields.u32() {
            Some(s) => s,
            None => return None,
        };
        let message = match fields.string() {
            Some(m) => m,
            None => return None,
        };
        #[verifier::truncate]
        let status: i32 = raw_status as i32;
        Some(ExtAuthentikAgentTunnelResponse { method, data, status, message })
    }
}

/// A field written at `pos` reads back as the same bytes.
proof fn lemma_parse_field_of(buf: Seq<u8>, pos: int, b: Seq<u8>)
    requires
        0 <= pos,
        b.len() <= u32::MAX,
        pos + 4 + b.len() <= buf.len(),
        buf.subrange(pos, pos + 4 + b.len()) == field_of(b),
    ensures
        parse_field_at(buf, pos) == Some((b, pos + 4 + b.len())),
{
    let n = b.len() as u32;
    lemma_be32_roundtrip(n);
    let f = field_of(b);
    assert(buf[pos] == f[0]);
    assert(buf[pos + 1] == f[1]);
    assert(buf[pos + 2] == f[2]);
    assert(buf[pos + 3] == f[3]);
    assert(buf.subrange(pos + 4, pos + 4 + b.len()) =~= b) by {
        assert forall|i: int| 0 <= i < b.len() implies buf.subrange(pos + 4, pos + 4 + b.len())[i]
            == b[i] by {
            assert(buf[pos + 4 + i] == f[4 + i]);
        }
    }
}

/// A text field written at `pos` reads back as the same text.
proof fn lemma_parse_text_of(buf: Seq<u8>, pos: int, t: Seq<char>)
    requires
        0 <= pos,
        encode_utf8(t).len() <= u32::MAX,
        pos + 4 + encode_utf8(t).len() <= buf.len(),
        buf.subrange(pos, pos + 4 + encode_utf8(t).len()) == field_of(encode_utf8(t)),
    ensures
        parse_text_at(buf, pos) == Some((t, pos + 4 + encode_utf8(t).len())),
{
    lemma_parse_field_of(buf, pos, encode_utf8(t));
    encode_utf8_valid_utf8(t);
    encode_utf8_decode_utf8(t);
}

/// A `u32` written at `pos` reads back as the same value.
proof fn lemma_parse_u32_of(buf: Seq<u8>, pos: int, v: u32)
    requires
        0 <= pos,
        pos + 4 <= buf.len(),
        buf.subrange(pos, pos + 4) == be32(v),
    ensures
        parse_u32_at(buf, pos) == Some((v, pos + 4)),
{
    lemma_be32_roundtrip(v);
    assert(buf[pos] == be32(v)[0]);
    assert(buf[pos + 1] == be32(v)[1]);
    assert(buf[pos + 2] == be32(v)[2]);
    assert(buf[pos + 3] == be32(v)[3]);
}

/// Decoding an encoded request gives back the request.
pub proof fn lemma_request_roundtrip(method: Seq<char>, data: Seq<u8>)
    requires
        encode_utf8(method).len() <= u32::MAX,
        data.len() <= u32::MAX,
    ensures
        parse_request(request_wire(method, data)) == Some((method, data)),
{
    let m = encode_utf8(method);
    let ml = m.len() as int;
    let dl = data.len() as int;
    let w = request_wire(method, data);
    assert(w.subrange(0, 4 + ml) =~= field_of(m));
    lemma_parse_text_of(w, 0, method);
    assert(w.subrange(4 + ml, 4 + ml + 4 + dl) =~= field_of(data));
    lemma_parse_field_of(w, 4 + ml, data);
}

/// Bytes after the data field of a request are ignored: decoding an encoded
/// request followed by any bytes gives back the request.
pub proof fn lemma_request_ignores_trailing_bytes(method: Seq<char>, data: Seq<u8>, extra: Seq<u8>)
    requires
        encode_utf8(method).len() <= u32::MAX,
        data.len() <= u32::MAX,
    ensures
        parse_request(request_wire(method, data) + extra) == Some((method, data)),
{
    let m = encode_utf8(method);
    let ml = m.len() as int;
    let dl = data.len() as int;
    let w0 = request_wire(method, data);
    let w = w0 + extra;
    assert(w.subrange(0, 4 + ml) =~= w0.subrange(0, 4 + ml));
    assert(w0.subrange(0, 4 + ml) =~= field_of(m));
    lemma_parse_text_of(w, 0, method);
    assert(w.subrange(4 + ml, 4 + ml + 4 + dl) =~= w0.subrange(4 + ml, 4 + ml + 4 + dl));
    assert(w0.subrange(4 + ml, 4 + ml + 4 + dl) =~= field_of(data));
    lemma_parse_field_of(w, 4 + ml, data);
}

/// The part of a response before the status fields: tag, method and data.
pub open spec fn response_head(method: Seq<char>, data: Seq<u8>) -> Seq<u8> {
    seq![SSH_AGENT_EXT_RESPONSE_TYPE] + field_of(encode_utf8(method)) + field_of(data)
}

/// Decoding an encoded response gives back the response.
#[verifier::spinoff_prover]
#[verifier::rlimit(40)]
pub proof fn lemma_response_roundtrip(method: Seq<char>, data: Seq<u8>, status: i32, message: Seq<char>)
    requires
        encode_utf8(method).len() <= u32::MAX,
        data.len() <= u32::MAX,
        encode_utf8(message).len() <= u32::MAX,
    ensures
        parse_response(response_wire(method, data, status, message)) == Some(
            (method, data, status, message),
        ),
{
    let m = encode_utf8(method);
    let ml = m.len() as int;
    let dl = data.len() as int;
    let g = encode_utf8(message);
    let gl = g.len() as int;
    let w = response_wire(method, data, status, message);
    let rest = w.subrange(1, w.len() as int);
    assert(rest =~= field_of(m) + field_of(data) + be32(status as u32) + field_of(g));
    assert(rest.subrange(0, 4 + ml) =~= field_of(m));
    lemma_parse_text_of(rest, 0, method);
    let p1 = 4 + ml;
    assert(rest.subrange(p1, p1 + 4 + dl) =~= field_of(data));
    lemma_parse_field_of(rest, p1, data);
    let p2 = p1 + 4 + dl;
    assert(rest.subrange(p2, p2 + 4) =~= be32(status as u32));
    lemma_parse_u32_of(rest, p2, status as u32);
    let p3 = p2 + 4;
    assert(rest.subrange(p3, p3 + 4 + gl) =~= field_of(g));
    lemma_parse_text_of(rest, p3, message);
    assert(((status as u32) as i32) == status) by (bit_vector);
}

/// A response that stops after its data field reads back as OK with an
/// empty message.
pub proof fn lemma_response_without_status_is_ok(method: Seq<char>, data: Seq<u8>)
    requires
        encode_utf8(method).len() <= u32::MAX,
        data.len() <= u32::MAX,
    ensures
        parse_response(response_head(method, data)) == Some(
            (method, data, 0i32, Seq::<char>::empty()),
        ),
{
    let m = encode_utf8(method);
    let ml = m.len() as int;
    let dl = data.len() as int;
    let w = response_head(method, data);
    let rest = w.subrange(1, w.len() as int);
    assert(rest =~= field_of(m) + field_of(data));
    assert(rest.subrange(0, 4 + ml) =~= field_of(m));
    lemma_parse_text_of(rest, 0, method);
    let p1 = 4 + ml;
    assert(rest.subrange(p1, p1 + 4 + dl) =~= field_of(data));
    lemma_parse_field_of(rest, p1, data);
}

/// A response cut short never decodes, except when it stops right after its
/// data field, which reads as an OK response: of the proper prefixes of an
/// encoded response, only the head is accepted.
#[verifier::spinoff_prover]
#[verifier::rlimit(60)]
pub proof fn lemma_truncated_response_rejected(method: Seq<char>, data: Seq<u8>, status: i32, message: Seq<char>, n: int)
    requires
        encode_utf8(method).len() <= u32::MAX,
        data.len() <= u32::MAX,
        encode_utf8(message).len() <= u32::MAX,
        0 <= n < response_wire(method, data, status, message).len(),
        n != response_head(method, data).len(),
    ensures
        parse_response(response_wire(method, data, status, message).take(n)) is None,
{
    let m = encode_utf8(method);
    let ml = m.len() as int;
    let dl = data.len() as int;
    let g = encode_utf8(message);
    let gl = g.len() as int;
    let w = response_wire(method, data, status, message);
    let full = w.subrange(1, w.len() as int);
    assert(full =~= field_of(m) + field_of(data) + be32(status as u32) + field_of(g));
    let p = w.take(n);
    if n == 0 {
        return;
    }
    let rest = p.subrange(1, n);
    assert(rest =~= full.take(n - 1));
    let len = n - 1;
    let p1 = 4 + ml;
    let p2 = p1 + 4 + dl;
    let p3 = p2 + 4;
    if len < 4 {
        return;
    }
    assert(rest.subrange(0, 4) =~= be32(ml as u32));
    lemma_parse_u32_of(rest, 0, ml as u32);
    if len < p1 {
        return;
    }
    assert(rest.subrange(0, p1) =~= field_of(m));
    lemma_parse_text_of(rest, 0, method);
    if len < p1 + 4 {
        return;
    }
    assert(rest.subrange(p1, p1 + 4) =~= be32(dl as u32));
    lemma_parse_u32_of(rest, p1, dl as u32);
    if len < p2 {
        return;
    }
    assert(rest.subrange(p1, p2) =~= field_of(data));
    lemma_parse_field_of(rest, p1, data);
    assert(len > p2);
    if len < p3 {
        return;
    }
    assert(rest.subrange(p2, p3) =~= be32(status as u32));
    lemma_parse_u32_of(rest, p2, status as u32);
    if len < p3 + 4 {
        return;
    }
    assert(rest.subrange(p3, p3 + 4) =~= be32(gl as u32));
    lemma_parse_u32_of(rest, p3, gl as u32);
}

/// A payload whose first byte is not the response tag is never a response.
pub proof fn lemma_response_rejects_mistagged(buf: Seq<u8>)
    requires
        buf.len() > 0,
        buf[0] != SSH_AGENT_EXT_RESPONSE_TYPE,
    ensures
        parse_response(buf) is None,
{
}

} // verus!
