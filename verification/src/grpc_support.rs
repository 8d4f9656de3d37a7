//! What the gRPC clients share: the check of a response header, the base64
//! text form of encoded protobuf messages, the errors of a call, and the
//! choice of transport a client is built on.

use vstd::prelude::*;
use crate::encoding::{base64_standard, base64_standard_decode, base64_standard_encode};

verus! {

#[verifier::external_type_specification]
#[verifier::external_body]
pub struct ExStatus(tonic::Status);

#[verifier::external_type_specification]
#[verifier::external_body]
pub struct ExTransportError(tonic::transport::Error);

/// The header that the daemon's responses carry.
#[derive(Clone, Copy, Debug, PartialEq, Eq, Structural)]
pub struct ResponseHeader {
    pub successful: bool,
}

/// A response whose header reports that the request failed.
#[derive(Debug, PartialEq, Eq, Structural)]
pub struct UnsuccessfulRequest;

impl UnsuccessfulRequest {
    /// The message of the error.
    pub fn to_string(&self) -> (r: String)
        ensures
            r@ == "unsuccessful request"@,
    {
        String::from_str("unsuccessful request")
    }
}

/// Checks a response header: a response without one, or whose header reports
/// success, is valid; one whose header reports failure is not.
pub fn assert_response_valid(header: Option<ResponseHeader>) -> (r: Result<(), UnsuccessfulRequest>)
    ensures
        r is Err <==> (header matches Some(h) && !h.successful),
{
    match header {
        Some(h) if !h.successful => Err(UnsuccessfulRequest),
        _ => Ok(()),
    }
}

/// The text form of an encoded protobuf message: its bytes in standard base64.
pub fn encode_pb_bytes(raw: &[u8]) -> (r: String)
    ensures
        r@ == base64_standard(raw@),
{
    base64_standard_encode(raw)
}

/// A token that is not the standard base64 text of any bytes.
#[derive(Debug, PartialEq, Eq, Structural)]
pub struct InvalidToken;

/// The encoded protobuf message that a token holds: the bytes whose standard
/// base64 text the token is. The token of a message's bytes (what
/// [`encode_pb_bytes`] gives) decodes to those bytes.
pub fn decode_pb_bytes(token: &str) -> (r: Result<Vec<u8>, InvalidToken>)
    ensures
        r is Ok <==> exists|v: Seq<u8>| base64_standard(v) == token@,
        r matches Ok(v) ==> base64_standard(v@) == token@,
        forall|raw: Seq<u8>| base64_standard(raw) == token@ ==> (r matches Ok(v) && v@ == raw),
{
    match base64_standard_decode(token) {
        Some(v) => Ok(v),
        None => Err(InvalidToken),
    }
}

/// Why a gRPC call failed.
#[derive(Debug)]
pub enum GrpcError {
    /// The server answered with a non-OK status.
    Status(tonic::Status),
    /// The connection to the socket at the given path failed.
    Transport(tonic::transport::Error, String),
    /// There is no socket at the path that was dialled.
    SocketNotFound(),
    /// Anything else; the text describes it.
    Other(String),
}

/// `<tonic::Status as Display>::fmt`, through `to_string`. Nothing is stated
/// of the text.
#[verifier::external_body]
fn status_text(s: &tonic::Status) -> String {
    s.to_string()
}

/// `<tonic::transport::Error as Debug>::fmt`, through `format!`. Nothing is
/// stated of the text.
#[verifier::external_body]
fn transport_error_text(e: &tonic::transport::Error) -> String {
    format!("{:?}", e)
}

impl GrpcError {
    /// The error for a dial of the socket at `path` that failed with `e`:
    /// `SocketNotFound` when the failure is that no socket exists there
    /// (`socket_missing`), else the transport error with the path.
    pub fn from_dial(e: tonic::transport::Error, path: String, socket_missing: bool) -> (r: GrpcError)
        ensures
            socket_missing ==> r is SocketNotFound,
            !socket_missing ==> (r matches GrpcError::Transport(_, p) && p@ == path@),
    {
        if socket_missing {
            GrpcError::SocketNotFound()
        } else {
            GrpcError::Transport(e, path)
        }
    }

    /// The message of the error. The text of a status and of a transport error
    /// comes from tonic.
    pub fn to_string(&self) -> (r: String)
        ensures
            self is SocketNotFound ==> r@ == "socket not found"@,
            self matches GrpcError::Other(m) ==> r@ == m@,
            self matches GrpcError::Transport(_, p) ==> exists|d: Seq<char>| r@ == "error connecting to "@ + p@ + ": "@ + d,
    {
        match self {
            GrpcError::Status(s) => status_text(s),
            GrpcError::Transport(e, path) => {
                let mut r = String::from_str("error connecting to ");
                r.append(path.as_str());
                r.append(": ");
                let d = transport_error_text(e);
                let ghost head = r@;
                r.append(d.as_str());
                assert(r@ == head + d@);
                r
            },
            GrpcError::SocketNotFound() => String::from_str("socket not found"),
            GrpcError::Other(m) => m.clone(),
        }
    }
}

/// How a client that was asked for `path` reaches the agent, given how the
/// dial of the socket went.
#[derive(Clone, Copy, Debug, PartialEq, Eq, Structural)]
pub enum Transport {
    /// Through the socket that was dialled.
    Socket,
    /// Through the SSH agent tunnel.
    SshTunnel,
    /// Not at all: the dial's error is returned.
    Fail,
}

/// The outcome of dialling the agent's socket.
#[derive(Clone, Copy, Debug, PartialEq, Eq, Structural)]
pub enum DialOutcome {
    Connected,
    SocketNotFound,
    OtherError,
}

/// How a client reaches the agent. A socket that was dialled successfully is
/// used. When no socket exists at the default path (the caller asked for no
/// path) and an SSH agent is reachable (`SSH_AUTH_SOCK` is set), the agent is
/// reached through the SSH tunnel instead. A path the caller asked for is
/// taken at face value: its errors are returned.
pub fn client_transport(path_given: bool, dial: DialOutcome, ssh_agent_available: bool) -> (r: Transport)
    ensures
        r == (match dial {
            DialOutcome::Connected => Transport::Socket,
            DialOutcome::SocketNotFound => if !path_given && ssh_agent_available {
                Transport::SshTunnel
            } else {
                Transport::Fail
            },
            DialOutcome::OtherError => Transport::Fail,
        }),
{
    match dial {
        DialOutcome::Connected => Transport::Socket,
        DialOutcome::SocketNotFound => {
            if !path_given && ssh_agent_available {
                Transport::SshTunnel
            } else {
                Transport::Fail
            }
        },
        DialOutcome::OtherError => Transport::Fail,
    }
}

/// A tower layer that logs a line when each gRPC call starts and one when it
/// finishes, with the service, the method, the status and the peer.
#[derive(Clone, Copy, Debug, Default)]
pub struct TraceLayer;

impl TraceLayer {
    pub fn new() -> (r: Self) {
        TraceLayer
    }

    /// The service that `layer` wraps around `inner`.
    pub fn layer<S>(&self, inner: S) -> (r: TraceService<S>)
        ensures
            r.inner == inner,
    {
        TraceService { inner }
    }
}

/// A service wrapped by [`TraceLayer`].
#[derive(Clone)]
pub struct TraceService<S> {
    pub inner: S,
}

} // verus!
