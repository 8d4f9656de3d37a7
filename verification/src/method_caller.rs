//! Routing of raw gRPC calls by method path: the registry of service names,
//! the resolution of `/<package.Service>/<Method>` paths, and what a finished
//! call amounts to. The registered services themselves run outside.

use vstd::prelude::*;
use crate::decimal::{decimal_i32, decimal_text, i32_to_decimal, parse_i32};
use crate::grpc_frame::{grpc_unframe, unframe_of, FrameError};
use crate::text::{chars_of, string_of, trim_leading_slashes, trim_slashes};
use vstd::slice::slice_subrange;

verus! {

/// The index of the first `x` in `s`.
pub open spec fn position<T>(s: Seq<T>, x: T) -> Option<int>
    decreases s.len(),
{
    if s.len() == 0 {
        None
    } else {
        match position(s.drop_last(), x) {
            Some(i) => Some(i),
            None => if s.last() == x {
                Some(s.len() - 1)
            } else {
                None
            },
        }
    }
}

/// The index of the last `c` in `s`.
pub open spec fn last_index_of(s: Seq<char>, c: char) -> Option<int>
    decreases s.len(),
{
    if s.len() == 0 {
        None
    } else if s.last() == c {
        Some(s.len() - 1)
    } else {
        last_index_of(s.drop_last(), c)
    }
}

proof fn lemma_position_bounds<T>(s: Seq<T>, x: T)
    ensures
        position(s, x) matches Some(i) ==> 0 <= i < s.len() && s[i] == x,
        position(s, x) is None ==> forall|i: int| 0 <= i < s.len() ==> s[i] != x,
    decreases s.len(),
{
    if s.len() > 0 {
        lemma_position_bounds(s.drop_last(), x);
        if position(s, x) is None {
            assert forall|i: int| 0 <= i < s.len() implies s[i] != x by {
                if i < s.len() - 1 {
                    assert(s.drop_last()[i] == s[i]);
                }
            }
        }
    }
}

/// A first occurrence within a prefix is the first occurrence overall.
proof fn lemma_position_extend<T>(s: Seq<T>, n: int, x: T)
    requires
        0 <= n <= s.len(),
        position(s.subrange(0, n), x) is Some,
    ensures
        position(s, x) == position(s.subrange(0, n), x),
    decreases s.len() - n,
{
    if n < s.len() {
        let p = s.subrange(0, n + 1);
        assert(p.drop_last() =~= s.subrange(0, n));
        lemma_position_extend(s, n + 1, x);
    } else {
        assert(s.subrange(0, n) =~= s);
    }
}

proof fn lemma_position_push<T>(s: Seq<T>, y: T, x: T)
    ensures
        position(s.push(y), x) == (match position(s, x) {
            Some(i) => Some(i),
            None => if y == x {
                Some(s.len() as int)
            } else {
                None
            },
        }),
{
    assert(s.push(y).drop_last() =~= s);
}

/// The registered service names, in registration order; no name occurs twice.
pub struct ServiceTable {
    names: Vec<String>,
}

impl View for ServiceTable {
    type V = Seq<Seq<char>>;

    closed spec fn view(&self) -> Seq<Seq<char>> {
        self.names@.map_values(|s: String| s@)
    }
}

impl ServiceTable {
    /// An empty registry.
    pub fn new() -> (r: Self)
        ensures
            r@ == Seq::<Seq<char>>::empty(),
            r.names_distinct(),
    {
        let r = ServiceTable { names: Vec::new() };
        assert(r@ =~= Seq::<Seq<char>>::empty());
        r
    }

    #[verifier::type_invariant]
    closed spec fn inv(self) -> bool {
        self.names_distinct()
    }

    /// Whether no name occurs twice.
    pub open spec fn names_distinct(&self) -> bool {
        forall|i: int, j: int| 0 <= i < j < self@.len() ==> #[trigger] self@[i] != #[trigger] self@[j]
    }

    /// The slot of `name`: the one it already has, or a new one at the end.
    /// Registering a name again replaces the service in its slot.
    pub fn add(&mut self, name: String) -> (idx: usize)
        ensures
            match position(old(self)@, name@) {
                Some(i) => idx == i && final(self)@ == old(self)@,
                None => idx == old(self)@.len() && final(self)@ == old(self)@.push(name@),
            },
            final(self).names_distinct(),
            position(final(self)@, name@) == Some(idx as int),
    {
        proof {
            use_type_invariant(&*self);
        }
        match self.find(name.as_str()) {
            Some(i) => {
                assert(self.names_distinct());
                i
            },
            None => {
                let idx = self.names.len();
                proof {
                    lemma_position_bounds(self@, name@);
                }
                let mut names: Vec<String> = Vec::new();
                std::mem::swap(&mut names, &mut self.names);
                names.push(name);
                let ghost v = names@.map_values(|s: String| s@);
                assert(v =~= old(self)@.push(name@));
                assert(forall|i: int, j: int| 0 <= i < j < v.len() ==> #[trigger] v[i] != #[trigger] v[j]) by {
                    assert forall|i: int, j: int| 0 <= i < j < v.len() implies #[trigger] v[i] != #[trigger] v[j] by {
                        if j == v.len() - 1 {
                            assert(old(self)@[i] != name@);
                        } else {
                            assert(old(self)@[i] != old(self)@[j]);
                        }
                    }
                }
                self.names = names;
                assert(self@ =~= old(self)@.push(name@));
                proof {
                    lemma_position_push(old(self)@, name@, name@);
                }
                idx
            },
        }
    }

    /// The slot of `name`, if it is registered.
    pub fn find(&self, name: &str) -> (r: Option<usize>)
        ensures
            r matches Some(i) ==> position(self@, name@) == Some(i as int),
            r is None ==> position(self@, name@) is None,
    {
        let target = string_of(chars_of(name).as_slice());
        let mut i: usize = 0;
        while i < self.names.len()
            invariant
                i <= self.names@.len(),
                target@ == name@,
                position(self@.subrange(0, i as int), name@) is None,
            decreases self.names@.len() - i,
        {
            let ghost prefix = self@.subrange(0, i as int);
            assert(self@.subrange(0, i + 1) =~= prefix.push(self@[i as int]));
            proof {
                lemma_position_push(prefix, self@[i as int], name@);
            }
            if self.names[i] == target {
                proof {
                    lemma_position_extend(self@, i + 1, name@);
                }
                return Some(i);
            }
            i = i + 1;
        }
        assert(self@.subrange(0, i as int) =~= self@);
        None
    }

    /// The registered names.
    pub fn service_names(&self) -> (r: Vec<String>)
        ensures
            r@.map_values(|s: String| s@) == self@,
    {
        let r = self.names.clone();
        assert(r@.map_values(|s: String| s@) =~= self@);
        r
    }
}

/// Why a call could not be made or did not succeed.
#[derive(Debug)]
pub enum CallError {
    /// The method path has no `/` separating service and method.
    InvalidMethodPath(String),
    /// No service is registered under the path's service name.
    UnknownService(String),
    /// The handler answered with a non-OK gRPC status and message.
    Status(i32, String),
    /// The response body is not a well-formed gRPC frame.
    Frame(FrameError),
    /// The request could not be built or the response body not read; the
    /// text describes why.
    Other(String),
}

impl CallError {
    pub open spec fn describe(&self) -> Seq<char> {
        match self {
            CallError::InvalidMethodPath(m) => "invalid method path: "@ + m@,
            CallError::UnknownService(s) => "unknown service: "@ + s@,
            CallError::Status(c, m) => "gRPC status "@ + decimal_text(*c as int) + ": "@ + m@,
            CallError::Frame(f) => f.describe(),
            CallError::Other(m) => m@,
        }
    }

    /// The human-readable description of the error.
    pub fn to_string(&self) -> (r: String)
        ensures
            r@ == self.describe(),
    {
        match self {
            CallError::InvalidMethodPath(m) => {
                let mut r = String::from_str("invalid method path: ");
                r.append(m.as_str());
                r
            },
            CallError::UnknownService(s) => {
                let mut r = String::from_str("unknown service: ");
                r.append(s.as_str());
                r
            },
            CallError::Status(c, m) => {
                let mut r = String::from_str("gRPC status ");
                let code = i32_to_decimal(*c);
                r.append(code.as_str());
                r.append(": ");
                r.append(m.as_str());
                r
            },
            CallError::Frame(f) => f.to_string(),
            CallError::Other(m) => m.clone(),
        }
    }
}

/// The service part of a method path: everything before the last `/`, once
/// leading slashes are removed.
pub open spec fn service_name_of(method: Seq<char>) -> Option<Seq<char>> {
    match last_index_of(trim_leading_slashes(method), '/') {
        Some(end) => Some(trim_leading_slashes(method).subrange(0, end)),
        None => None,
    }
}

/// Extracts the service name from a method path such as `/ping.Ping/Ping`.
pub fn parse_service_name(method: &str) -> (r: Result<String, CallError>)
    ensures
        match service_name_of(method@) {
            Some(name) => r is Ok && r->Ok_0@ == name,
            None => r matches Err(CallError::InvalidMethodPath(m)) && m@ == method@,
        },
{
    let path = chars_of(trim_slashes(method).as_str());
    let mut end: usize = path.len();
    assert(path@.subrange(0, path@.len() as int) =~= path@);
    // Scan backwards for the last separator.
    while end > 0 && path[end - 1] != '/'
        invariant
            end <= path@.len(),
            path@ == trim_leading_slashes(method@),
            last_index_of(path@, '/') == last_index_of(path@.subrange(0, end as int), '/'),
        decreases end,
    {
        let ghost p = path@.subrange(0, end as int);
        assert(p.drop_last() =~= path@.subrange(0, end - 1));
        end = end - 1;
    }
    proof {
        assert(path@.subrange(0, path@.len() as int) =~= path@);
    }
    if end == 0 {
        assert(path@.subrange(0, 0) =~= Seq::<char>::empty());
        return Err(CallError::InvalidMethodPath(string_of(chars_of(method).as_slice())));
    }
    let ghost p = path@.subrange(0, end as int);
    assert(p.last() == '/');
    Ok(string_of(slice_subrange(path.as_slice(), 0, end - 1)))
}

/// The `(service, method)` halves of a request path `/<package.Service>/<Method>`:
/// split at the first `/` after the leading slashes; with no such `/`, the
/// whole path is the service and the method is empty.
pub open spec fn split_path_of(path: Seq<char>) -> (Seq<char>, Seq<char>) {
    let t = trim_leading_slashes(path);
    match position(t, '/') {
        Some(i) => (t.subrange(0, i), t.subrange(i + 1, t.len() as int)),
        None => (t, Seq::<char>::empty()),
    }
}

/// Splits a gRPC request path into its service and method names.
pub fn split_grpc_path(path: &str) -> (r: (String, String))
    ensures
        (r.0@, r.1@) == split_path_of(path@),
{
    let t = chars_of(trim_slashes(path).as_str());
    let mut i: usize = 0;
    while i < t.len()
        invariant
            i <= t@.len(),
            t@ == trim_leading_slashes(path@),
            position(t@.subrange(0, i as int), '/') is None,
        decreases t@.len() - i,
    {
        let ghost prefix = t@.subrange(0, i as int);
        assert(t@.subrange(0, i + 1) =~= prefix.push(t@[i as int]));
        proof {
            lemma_position_push(prefix, t@[i as int], '/');
        }
        if t[i] == '/' {
            proof {
                lemma_position_prefix(t@, i as int);
            }
            let service = string_of(slice_subrange(t.as_slice(), 0, i));
            let method = string_of(slice_subrange(t.as_slice(), i + 1, t.len()));
            return (service, method);
        }
        i = i + 1;
    }
    assert(t@.subrange(0, i as int) =~= t@);
    (string_of(t.as_slice()), String::new())
}

/// The first `/` of `s` is at `i` when none comes before it.
proof fn lemma_position_prefix(s: Seq<char>, i: int)
    requires
        0 <= i < s.len(),
        s[i] == '/',
        position(s.subrange(0, i), '/') is None,
    ensures
        position(s, '/') == Some(i),
    decreases s.len(),
{
    if s.len() - 1 > i {
        assert(s.drop_last().subrange(0, i) =~= s.subrange(0, i));
        lemma_position_prefix(s.drop_last(), i);
    } else {
        assert(s.drop_last() =~= s.subrange(0, i));
    }
}

/// The status a call ended with: the announced `grpc-status`, or OK when it
/// is absent or not a number.
pub open spec fn status_of(status_text: Option<String>) -> i32 {
    match status_text {
        Some(t) => match decimal_i32(t@) {
            Some(v) => v,
            None => 0,
        },
        None => 0,
    }
}

/// Parses an optional `grpc-status` value; absent or malformed means OK.
pub fn grpc_status(status_text: &Option<String>) -> (r: i32)
    ensures
        r == status_of(*status_text),
{
    match status_text {
        Some(t) => match parse_i32(t.as_str()) {
            Some(v) => v,
            None => 0,
        },
        None => 0,
    }
}

/// The largest gRPC status code with a name of its own (`UNAUTHENTICATED`).
pub const MAX_KNOWN_STATUS: i32 = 16;

/// gRPC status code `UNKNOWN`, which stands for any number without a name.
pub const STATUS_UNKNOWN: i32 = 2;

/// The status code a response header announces, as logged: absent or
/// malformed is OK, a number without a name is `UNKNOWN`.
pub fn grpc_code_from_status(status_text: &Option<String>) -> (r: i32)
    ensures
        r == (if 0 <= status_of(*status_text) <= MAX_KNOWN_STATUS {
            status_of(*status_text)
        } else {
            STATUS_UNKNOWN
        }),
{
    let v = grpc_status(status_text);
    if 0 <= v && v <= MAX_KNOWN_STATUS {
        v
    } else {
        STATUS_UNKNOWN
    }
}

/// What a finished call amounts to, given the `grpc-status` and
/// `grpc-message` values that came back (trailers first, then headers) and
/// the response body: the unframed response message, or why not.
pub fn call_outcome(status_text: &Option<String>, message_text: &Option<String>, body: &[u8]) -> (r:
    Result<Vec<u8>, CallError>)
    ensures
        status_of(*status_text) != 0 ==> (r matches Err(CallError::Status(c, m)) && c == status_of(
            *status_text,
        ) && m@ == (match *message_text {
            Some(t) => t@,
            None => "gRPC call failed"@,
        })),
        status_of(*status_text) == 0 ==> match unframe_of(body@) {
            Ok(d) => r is Ok && r->Ok_0@ == d,
            Err(e) => r matches Err(CallError::Frame(f)) && f == e,
        },
{
    let status = grpc_status(status_text);
    if status != 0 {
        let msg = match message_text {
            Some(t) => t.clone(),
            None => String::from_str("gRPC call failed"),
        };
        return Err(CallError::Status(status, msg));
    }
    match grpc_unframe(body) {
        Ok(d) => Ok(d),
        Err(e) => Err(CallError::Frame(e)),
    }
}

/// The registry slot that serves `method`, or why there is none.
pub fn resolve_call(table: &ServiceTable, method: &str) -> (r: Result<usize, CallError>)
    ensures
        match service_name_of(method@) {
            None => r matches Err(CallError::InvalidMethodPath(m)) && m@ == method@,
            Some(name) => match position(table@, name) {
                Some(i) => r == Ok::<usize, CallError>(i as usize),
                None => r matches Err(CallError::UnknownService(s)) && s@ == name,
            },
        },
{
    let name = parse_service_name(method)?;
    match table.find(name.as_str()) {
        Some(i) => Ok(i),
        None => Err(CallError::UnknownService(name)),
    }
}

} // verus!
