//! The decisions on both ends of the agent tunnel: what the agent answers for a
//! raw request, what goes over the wire for an outgoing gRPC call, and what a
//! raw answer becomes on the calling side. The transports around them (the
//! SSH-agent connection, the gRPC service registry) perform the I/O.

use vstd::prelude::*;
use crate::method_caller::CallError;
use crate::grpc_frame::{frame_of, grpc_frame, grpc_unframe, unframe_of, FrameError};
use crate::tunnel_ext::{
    parse_request, parse_response, request_wire, ExtAuthentikAgentTunnelData,
    ExtAuthentikAgentTunnelResponse,
};

verus! {

/// gRPC status code `INTERNAL`.
pub const STATUS_INTERNAL: i32 = 13;

/// What the agent makes of a raw tunnel request: the decoded request, or the
/// response to send back at once because it could not be decoded.
pub fn tunnel_request_from_raw(raw: &[u8]) -> (r: Result<
    ExtAuthentikAgentTunnelData,
    ExtAuthentikAgentTunnelResponse,
>)
    ensures
        match r {
            Ok(d) => parse_request(raw@) == Some(d@),
            Err(e) => parse_request(raw@) is None && e@ == (
                Seq::<char>::empty(),
                Seq::<u8>::empty(),
                STATUS_INTERNAL,
                "failed to decode tunnel request"@,
            ),
        },
{
    match ExtAuthentikAgentTunnelData::deserialize(raw) {
        Some(req) => Ok(req),
        None => Err(
            ExtAuthentikAgentTunnelResponse::error(
                String::new(),
                STATUS_INTERNAL,
                String::from_str("failed to decode tunnel request"),
            ),
        ),
    }
}

/// What a registered gRPC handler produced for a tunnelled call: the response
/// message, or the status that replaced it.
#[derive(Debug)]
pub struct CallReply {
    pub data: Vec<u8>,
    pub status: i32,
    pub message: String,
}

/// What a call made for the tunnel amounts to: its response message with an
/// OK status, or the non-OK status and message the handler answered with; a
/// call that never reached a handler is an error with its description.
pub fn call_reply_of(outcome: Result<Vec<u8>, CallError>) -> (r: Result<CallReply, String>)
    ensures
        match outcome {
            Ok(d) => r matches Ok(c) && c.data@ == d@ && c.status == 0 && c.message@ == Seq::<char>::empty(),
            Err(CallError::Status(code, m)) => r matches Ok(c) && c.data@ == Seq::<u8>::empty() && c.status == code
                && c.message@ == m@,
            Err(e) => r matches Err(t) && t@ == e.describe(),
        },
{
    match outcome {
        Ok(d) => Ok(CallReply { data: d, status: 0, message: String::new() }),
        Err(CallError::Status(code, m)) => Ok(CallReply { data: Vec::new(), status: code, message: m }),
        Err(e) => Err(e.to_string()),
    }
}

/// The response the agent sends for `method` once the call has run: the
/// handler's reply, or an `INTERNAL` failure carrying the description of the
/// error that kept the call from reaching a handler.
pub fn tunnel_response_for(method: String, outcome: Result<CallReply, String>) -> (r:
    ExtAuthentikAgentTunnelResponse)
    ensures
        match outcome {
            Ok(c) => r@ == (method@, c.data@, c.status, c.message@),
            Err(e) => r@ == (method@, Seq::<u8>::empty(), STATUS_INTERNAL, e@),
        },
{
    match outcome {
        Ok(reply) => ExtAuthentikAgentTunnelResponse {
            method,
            data: reply.data,
            status: reply.status,
            message: reply.message,
        },
        Err(e) => ExtAuthentikAgentTunnelResponse::error(method, STATUS_INTERNAL, e),
    }
}

/// The tunnel payload for a gRPC call to `method` whose framed request body is
/// `body`: the request with the frame removed.
pub fn tunnel_request_payload(method: String, body: &[u8]) -> (r: Result<Vec<u8>, FrameError>)
    ensures
        match unframe_of(body@) {
            Ok(d) => r is Ok && r->Ok_0@ == request_wire(method@, d),
            Err(e) => r == Err::<Vec<u8>, FrameError>(e),
        },
{
    let data = grpc_unframe(body)?;
    let payload = ExtAuthentikAgentTunnelData { method, data };
    Ok(payload.serialize())
}

/// Why a tunnel answer could not be turned into a gRPC response.
#[derive(Debug, PartialEq, Eq)]
pub enum TunnelReplyError {
    /// The agent sent nothing at all.
    EmptyResponse,
    /// The answer is not a well-formed tunnel response.
    Unparseable,
}

impl TunnelReplyError {
    pub fn to_string(&self) -> (r: String)
        ensures
            r@ == self.describe(),
    {
        match self {
            TunnelReplyError::EmptyResponse => String::from_str("empty tunnel response"),
            TunnelReplyError::Unparseable => String::from_str("failed to parse response"),
        }
    }

    pub open spec fn describe(&self) -> Seq<char> {
        match self {
            TunnelReplyError::EmptyResponse => "empty tunnel response"@,
            TunnelReplyError::Unparseable => "failed to parse response"@,
        }
    }
}

/// The gRPC response a tunnel answer stands for: its status, message and body.
/// A non-OK status carries no message frame (a trailers-only response).
#[derive(Debug)]
pub struct TunnelReply {
    pub status: i32,
    pub message: String,
    pub body: Vec<u8>,
}

/// Turns the agent's raw answer into the gRPC response to hand to the caller.
pub fn tunnel_reply(raw: &[u8]) -> (r: Result<TunnelReply, TunnelReplyError>)
    ensures
        raw@.len() == 0 ==> r == Err::<TunnelReply, TunnelReplyError>(TunnelReplyError::EmptyResponse),
        raw@.len() > 0 ==> match parse_response(raw@) {
            None => r == Err::<TunnelReply, TunnelReplyError>(TunnelReplyError::Unparseable),
            Some((m, d, s, msg)) => r is Ok && r->Ok_0.status == s && r->Ok_0.message@ == msg
                && r->Ok_0.body@ == (if s == 0 {
                frame_of(d)
            } else {
                Seq::<u8>::empty()
            }),
        },
{
    if raw.len() == 0 {
        return Err(TunnelReplyError::EmptyResponse);
    }
    let res = match ExtAuthentikAgentTunnelResponse::deserialize(raw) {
        Some(d) => d,
        None => return Err(TunnelReplyError::Unparseable),
    };
    let body = if res.status == 0 {
        grpc_frame(res.data.as_slice())
    } else {
        Vec::new()
    };
    Ok(TunnelReply { status: res.status, message: res.message, body })
}

} // verus!
