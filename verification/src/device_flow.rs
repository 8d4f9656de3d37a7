//! The decisions of an RFC 8628 OAuth 2.0 Device Authorization Grant client:
//! the form bodies it posts, the polling interval, and what each answer of
//! the token endpoint means. The HTTP requests, the waits and the JSON
//! parsing are done by the caller, which hands the answers in here.

use vstd::prelude::*;
use crate::encoding::{form_urlencode, form_urlencoded, pairs_view};
use crate::text::{join_strings, join_with};

verus! {

/// The interval between polls when the server names none: five seconds.
pub const DEFAULT_POLL_INTERVAL_SECS: u64 = 5;

/// How much longer the interval gets when the server asks to slow down: five seconds.
pub const SLOW_DOWN_INCREMENT_NANOS: u128 = 5_000_000_000;

/// The longest interval a `Duration` can hold, in nanoseconds.
pub const MAX_INTERVAL_NANOS: u128 = 18_446_744_073_709_551_615_999_999_999;

/// The grant type of a device-code token request.
pub const DEVICE_CODE_GRANT_TYPE: &'static str = "urn:ietf:params:oauth:grant-type:device_code";

/// The name/value pairs of the device authorization request: the client, the
/// scopes joined with spaces, and the DPoP key thumbprint when there is one.
pub open spec fn authorization_pairs(client_id: Seq<char>, scopes: Seq<Seq<char>>, dpop_jkt: Option<Seq<char>>) -> Seq<(Seq<char>, Seq<char>)> {
    let base = seq![("client_id"@, client_id), ("scope"@, join_with(scopes, " "@))];
    match dpop_jkt {
        Some(j) => base.push(("dpop_jkt"@, j)),
        None => base,
    }
}

/// The name/value pairs of a token poll for `device_code`.
pub open spec fn token_poll_pairs(device_code: Seq<char>, client_id: Seq<char>) -> Seq<(Seq<char>, Seq<char>)> {
    seq![
        ("grant_type"@, DEVICE_CODE_GRANT_TYPE@),
        ("device_code"@, device_code),
        ("client_id"@, client_id),
    ]
}

/// The form body of the device authorization request (RFC 8628 section 3.1).
pub fn device_authorization_form(client_id: &str, scopes: &Vec<String>, dpop_jkt: Option<&str>) -> (r: String)
    ensures
        r@ == form_urlencoded(authorization_pairs(
            client_id@,
            scopes@.map_values(|s: String| s@),
            match dpop_jkt {
                Some(j) => Some(j@),
                None => None,
            },
        )),
{
    let mut pairs: Vec<(String, String)> = Vec::new();
    pairs.push((String::from_str("client_id"), String::from_str(client_id)));
    pairs.push((String::from_str("scope"), join_strings(scopes, " ")));
    if let Some(j) = dpop_jkt {
        pairs.push((String::from_str("dpop_jkt"), String::from_str(j)));
    }
    proof {
        reveal_strlit("client_id");
        reveal_strlit("scope");
        reveal_strlit("dpop_jkt");
        reveal_strlit(" ");
        let jv = match dpop_jkt {
            Some(j) => Some(j@),
            None => None::<Seq<char>>,
        };
        assert(pairs_view(pairs@) =~= authorization_pairs(client_id@, scopes@.map_values(|s: String| s@), jv));
    }
    form_urlencode(&pairs)
}

/// The form body of a token poll for `device_code` (RFC 8628 section 3.4).
pub fn token_poll_form(device_code: &str, client_id: &str) -> (r: String)
    ensures
        r@ == form_urlencoded(token_poll_pairs(device_code@, client_id@)),
{
    let mut pairs: Vec<(String, String)> = Vec::new();
    pairs.push((String::from_str("grant_type"), String::from_str(DEVICE_CODE_GRANT_TYPE)));
    pairs.push((String::from_str("device_code"), String::from_str(device_code)));
    pairs.push((String::from_str("client_id"), String::from_str(client_id)));
    proof {
        reveal_strlit("grant_type");
        reveal_strlit("device_code");
        reveal_strlit("client_id");
        assert(pairs_view(pairs@) =~= token_poll_pairs(device_code@, client_id@));
    }
    form_urlencode(&pairs)
}

/// The interval between polls, in nanoseconds: the one the server named, in
/// seconds, or five seconds.
pub fn initial_interval_nanos(interval_secs: Option<u64>) -> (r: u128)
    ensures
        r == (match interval_secs {
            Some(s) => s as int * 1_000_000_000,
            None => DEFAULT_POLL_INTERVAL_SECS as int * 1_000_000_000,
        }),
{
    match interval_secs {
        Some(s) => s as u128 * 1_000_000_000,
        None => DEFAULT_POLL_INTERVAL_SECS as u128 * 1_000_000_000,
    }
}

/// The tokens of a completed grant.
#[derive(Debug)]
pub struct DeviceTokenResult {
    pub access_token: String,
    pub refresh_token: Option<String>,
    pub expires_in: Option<i64>,
}

/// What the token endpoint answered a poll with.
#[derive(Debug)]
pub enum PollReply {
    /// A success status whose body parsed as a token response.
    Token(DeviceTokenResult),
    /// A success status whose body did not parse; the texts are the parse
    /// error and the body.
    MalformedToken(String, String),
    /// An error status whose body parsed as an OAuth error with this code.
    ErrorCode(String),
    /// An error status whose body did not parse; the texts are the status and
    /// the body.
    Unrecognized(String, String),
}

/// Why the grant failed.
#[derive(Debug)]
pub enum PollError {
    /// The device code expired before the user completed authorization.
    Expired,
    /// The user denied the authorization.
    Denied,
    /// The server answered with another OAuth error code.
    Failed(String),
    /// The token response could not be parsed.
    MalformedToken(String, String),
    /// The server answered with an error that could not be parsed.
    Unrecognized(String, String),
}

impl PollError {
    /// The message of the error.
    pub open spec fn describe(&self) -> Seq<char> {
        match self {
            PollError::Expired => "device code expired before authorization was completed"@,
            PollError::Denied => "authorization was denied"@,
            PollError::Failed(code) => "device token poll failed: "@ + code@,
            PollError::MalformedToken(e, body) => "malformed token response: "@ + e@ + ": "@ + body@,
            PollError::Unrecognized(status, body) => "device token poll failed with status "@ + status@ + ": "@
                + body@,
        }
    }

    /// The message of the error.
    pub fn to_string(&self) -> (r: String)
        ensures
            r@ == self.describe(),
    {
        match self {
            PollError::Expired => String::from_str("device code expired before authorization was completed"),
            PollError::Denied => String::from_str("authorization was denied"),
            PollError::Failed(code) => {
                let mut r = String::from_str("device token poll failed: ");
                r.append(code.as_str());
                r
            },
            PollError::MalformedToken(e, body) => {
                let mut r = String::from_str("malformed token response: ");
                r.append(e.as_str());
                r.append(": ");
                r.append(body.as_str());
                r
            },
            PollError::Unrecognized(status, body) => {
                let mut r = String::from_str("device token poll failed with status ");
                r.append(status.as_str());
                r.append(": ");
                r.append(body.as_str());
                r
            },
        }
    }
}

/// What the client does after a poll.
#[derive(Debug)]
pub enum PollStep {
    /// The grant completed with these tokens.
    Done(DeviceTokenResult),
    /// Poll again after waiting this many nanoseconds.
    Wait(u128),
    /// Give up with this error.
    Fail(PollError),
}

/// Whether a poll may still be made: the device code must not have expired.
pub fn check_deadline(deadline_passed: bool) -> (r: Result<(), PollError>)
    ensures
        r is Err <==> deadline_passed,
        r matches Err(e) ==> e is Expired,
{
    if deadline_passed {
        Err(PollError::Expired)
    } else {
        Ok(())
    }
}

/// The step after a poll answered with `reply`, polling every `interval`
/// nanoseconds: tokens end the grant; `authorization_pending` waits the same
/// interval again and `slow_down` five seconds longer (RFC 8628 section 3.5);
/// `access_denied`, `expired_token`, any other code and unparsable answers
/// fail.
pub fn next_poll(interval: u128, reply: PollReply) -> (r: PollStep)
    requires
        (reply matches PollReply::ErrorCode(c) && c@ == "slow_down"@) ==> interval + SLOW_DOWN_INCREMENT_NANOS
            <= MAX_INTERVAL_NANOS,
    ensures
        match reply {
            PollReply::Token(t) => r == PollStep::Done(t),
            PollReply::MalformedToken(e, b) => r == PollStep::Fail(PollError::MalformedToken(e, b)),
            PollReply::Unrecognized(s, b) => r == PollStep::Fail(PollError::Unrecognized(s, b)),
            PollReply::ErrorCode(code) => if code@ == "authorization_pending"@ {
                r == PollStep::Wait(interval)
            } else if code@ == "slow_down"@ {
                r == PollStep::Wait((interval + SLOW_DOWN_INCREMENT_NANOS) as u128)
            } else if code@ == "access_denied"@ {
                r matches PollStep::Fail(PollError::Denied)
            } else if code@ == "expired_token"@ {
                r matches PollStep::Fail(PollError::Expired)
            } else {
                r matches PollStep::Fail(PollError::Failed(c)) && c@ == code@
            },
        },
{
    match reply {
        PollReply::Token(t) => PollStep::Done(t),
        PollReply::MalformedToken(e, b) => PollStep::Fail(PollError::MalformedToken(e, b)),
        PollReply::Unrecognized(s, b) => PollStep::Fail(PollError::Unrecognized(s, b)),
        PollReply::ErrorCode(code) => {
            if code == String::from_str("authorization_pending") {
                PollStep::Wait(interval)
            } else if code == String::from_str("slow_down") {
                proof {
                    reveal_strlit("slow_down");
                }
                PollStep::Wait(interval + SLOW_DOWN_INCREMENT_NANOS)
            } else if code == String::from_str("access_denied") {
                PollStep::Fail(PollError::Denied)
            } else if code == String::from_str("expired_token") {
                PollStep::Fail(PollError::Expired)
            } else {
                PollStep::Fail(PollError::Failed(code))
            }
        },
    }
}

} // verus!
