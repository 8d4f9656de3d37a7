//! The decisions of the local transports: the file mode a listening socket
//! gets, the names the privileged relay is reached by, the one-time
//! registration of the macOS relay daemon, and the reassembly of XPC
//! messages into a byte stream. Sockets, pipes and XPC connections are
//! handled by the caller.

use vstd::prelude::*;
use crate::paths::SYSD_CTRL_RELAY_MACH_SERVICE;

verus! {

/// Who may connect to a listening socket.
#[derive(Clone, Copy, Debug, PartialEq, Eq, Structural)]
pub enum SocketPermMode {
    /// Only the owner.
    Owner,
    /// Everybody.
    Everyone,
    /// The owner and its group (the administrators).
    Admin,
}

/// The file mode of a socket listening with `perm`.
pub open spec fn mode_of(perm: SocketPermMode) -> u32 {
    match perm {
        SocketPermMode::Owner => 0o600,
        SocketPermMode::Everyone => 0o666,
        SocketPermMode::Admin => 0o660,
    }
}

/// The file mode of a socket listening with `perm`: read and write for the
/// owner, and for the group (`Admin`) or everybody (`Everyone`).
pub fn socket_mode(perm: SocketPermMode) -> (r: u32)
    ensures
        r == mode_of(perm),
{
    match perm {
        SocketPermMode::Owner => 0o600,
        SocketPermMode::Everyone => 0o666,
        SocketPermMode::Admin => 0o660,
    }
}

/// The umask in force while the socket is created, so that it never exists
/// with more permissions than `mode`: every permission bit outside `mode`.
/// It and `mode` share no bit, and together they cover all permission bits.
pub fn creation_umask(mode: u32) -> (r: u32)
    ensures
        r == 0o777 & !mode,
        r & mode == 0,
        r | mode == 0o777 | mode,
{
    let r = 0o777 & !mode;
    assert(r & mode == 0 && r | mode == 0o777 | mode) by (bit_vector)
        requires
            r == 0o777 & !mode,
    ;
    r
}

/// The name of the property list that declares the relay daemon on macOS:
/// the relay's Mach service name with `.plist` appended.
pub fn relay_plist_name() -> (r: String)
    ensures
        r@ == SYSD_CTRL_RELAY_MACH_SERVICE@ + ".plist"@,
{
    let mut r = String::from_str(SYSD_CTRL_RELAY_MACH_SERVICE);
    r.append(".plist");
    r
}

/// The pipe the relay is reached by on Windows, named by a fresh identifier.
pub fn relay_pipe_name(id: &str) -> (r: String)
    ensures
        r@ == "\\\\.\\pipe\\ak-sysd-ctrl-relay-"@ + id@,
{
    let mut r = String::from_str("\\\\.\\pipe\\ak-sysd-ctrl-relay-");
    r.append(id);
    r
}

/// The outcome of registering the relay daemon, kept for the life of the
/// process: registration is attempted once, and every later request gets the
/// first outcome.
pub struct RegistrationMemo {
    outcome: Option<Result<(), String>>,
}

impl View for RegistrationMemo {
    type V = Option<Result<(), Seq<char>>>;

    closed spec fn view(&self) -> Option<Result<(), Seq<char>>> {
        match self.outcome {
            None => None,
            Some(Ok(())) => Some(Ok(())),
            Some(Err(e)) => Some(Err(e@)),
        }
    }
}

impl RegistrationMemo {
    /// A memo of a registration not attempted yet.
    pub fn new() -> (r: Self)
        ensures
            r@ is None,
    {
        RegistrationMemo { outcome: None }
    }

    /// Whether registration still has to be attempted.
    pub fn needs_registration(&self) -> (r: bool)
        ensures
            r == self@ is None,
    {
        self.outcome.is_none()
    }

    /// Records the outcome of an attempt. Only the first outcome is kept.
    pub fn record(&mut self, outcome: Result<(), String>)
        ensures
            old(self)@ is None ==> final(self)@ == (match outcome {
                Ok(()) => Some(Ok::<(), Seq<char>>(())),
                Err(e) => Some(Err(e@)),
            }),
            old(self)@ is Some ==> final(self)@ == old(self)@,
    {
        if self.outcome.is_none() {
            self.outcome = Some(outcome);
        }
    }

    /// The outcome to report: the recorded one, when there is one.
    pub fn outcome(&self) -> (r: Option<Result<(), String>>)
        ensures
            match r {
                None => self@ is None,
                Some(Ok(())) => self@ == Some(Ok::<(), Seq<char>>(())),
                Some(Err(e)) => self@ == Some(Err::<(), Seq<char>>(e@)),
            },
    {
        match &self.outcome {
            None => None,
            Some(Ok(())) => Some(Ok(())),
            Some(Err(e)) => Some(Err(e.clone())),
        }
    }
}

/// The view of a registration outcome.
pub open spec fn outcome_view(o: Result<(), String>) -> Result<(), Seq<char>> {
    match o {
        Ok(()) => Ok(()),
        Err(e) => Err(e@),
    }
}

/// One request for registration, as the memo sees it: with an outcome
/// recorded (`before`), the memo is kept and the recorded outcome is
/// reported; with none, the outcome `r` of the registration made is recorded.
pub open spec fn registration_step(
    before: Option<Result<(), Seq<char>>>,
    after: Option<Result<(), Seq<char>>>,
    r: Result<(), Seq<char>>,
) -> bool {
    match before {
        Some(o) => after == before && r == o,
        None => after == Some(r),
    }
}

/// However many times registration is requested through one memo, only the
/// first request finds no outcome recorded (so only it registers, since
/// [`ensure_registered`] calls `register` only then), and every request
/// reports the first one's outcome. `memos[k]` is the memo before request
/// `k`, `outcomes[k]` what request `k` reported.
pub proof fn lemma_registered_once(memos: Seq<Option<Result<(), Seq<char>>>>, outcomes: Seq<Result<(), Seq<char>>>)
    requires
        memos.len() == outcomes.len() + 1,
        forall|k: int|
            #![trigger outcomes[k]]
            0 <= k < outcomes.len() ==> registration_step(memos[k], memos[k + 1], outcomes[k]),
    ensures
        forall|k: int| 0 < k <= outcomes.len() ==> memos[k] is Some,
        forall|k: int| 0 <= k < outcomes.len() ==> #[trigger] outcomes[k] == outcomes[0],
        forall|k: int| 0 < k <= outcomes.len() ==> #[trigger] memos[k] == Some(outcomes[0]),
    decreases outcomes.len(),
{
    if outcomes.len() > 1 {
        let ms = memos.drop_last();
        let os = outcomes.drop_last();
        assert forall|k: int|
            #![trigger os[k]]
            0 <= k < os.len() implies registration_step(ms[k], ms[k + 1], os[k]) by {
            assert(registration_step(memos[k], memos[k + 1], outcomes[k]));
        }
        lemma_registered_once(ms, os);
        let last = outcomes.len() - 1;
        assert(registration_step(memos[last], memos[last + 1], outcomes[last]));
        assert(memos[last] == ms[last]);
        assert forall|k: int| 0 <= k < outcomes.len() implies #[trigger] outcomes[k] == outcomes[0] by {
            if k < last {
                assert(outcomes[k] == os[k]);
            }
        }
        assert forall|k: int| 0 < k <= outcomes.len() implies #[trigger] memos[k] == Some(outcomes[0]) by {
            if k <= last {
                assert(memos[k] == ms[k]);
            }
        }
    } else if outcomes.len() == 1 {
        assert(registration_step(memos[0], memos[1], outcomes[0]));
    }
}

/// Registers the relay daemon with `register` unless that was done already,
/// and reports the outcome of the one registration attempt: the outcome
/// `register` gives the first time, the recorded one afterwards. Once an
/// outcome is recorded, `register` is not called again: its precondition is
/// asked for only while none is.
pub fn ensure_registered<F: FnOnce() -> Result<(), String>>(memo: &mut RegistrationMemo, register: F) -> (r:
    Result<(), String>)
    requires
        old(memo)@ is None ==> register.requires(()),
    ensures
        registration_step(old(memo)@, final(memo)@, outcome_view(r)),
        old(memo)@ matches Some(o) ==> final(memo)@ == old(memo)@ && outcome_view(r) == o,
        old(memo)@ is None ==> register.ensures((), r) && final(memo)@ == Some(outcome_view(r)),
{
    match memo.outcome() {
        Some(o) => o,
        None => {
            let o = register();
            let copy = match &o {
                Ok(()) => Ok(()),
                Err(e) => Err(e.clone()),
            };
            memo.record(copy);
            o
        },
    }
}

/// The bytes of received messages not read yet, as a byte stream.
pub struct MessageReader {
    pending: Vec<u8>,
    offset: usize,
}

impl View for MessageReader {
    type V = Seq<u8>;

    /// The bytes received and not read yet.
    closed spec fn view(&self) -> Seq<u8> {
        self.pending@.subrange(self.offset as int, self.pending@.len() as int)
    }
}

impl MessageReader {
    #[verifier::type_invariant]
    closed spec fn inv(self) -> bool {
        self.offset <= self.pending@.len()
    }

    /// A reader with nothing received.
    pub fn new() -> (r: Self)
        ensures
            r@ == Seq::<u8>::empty(),
    {
        MessageReader { pending: Vec::new(), offset: 0 }
    }

    /// Whether every received byte has been read, so that the next message is needed.
    pub fn is_drained(&self) -> (r: bool)
        ensures
            r == (self@.len() == 0),
    {
        proof {
            use_type_invariant(self);
        }
        self.offset >= self.pending.len()
    }

    /// Takes in the next received message.
    pub fn receive(&mut self, message: Vec<u8>)
        requires
            old(self)@.len() == 0,
        ensures
            final(self)@ == message@,
    {
        proof {
            use_type_invariant(&*self);
        }
        *self = MessageReader { pending: message, offset: 0 };
        assert(self.pending@.subrange(0, self.pending@.len() as int) =~= self.pending@);
    }

    /// Reads at most `max` bytes: the next unread ones, in order.
    pub fn read(&mut self, max: usize) -> (r: Vec<u8>)
        ensures
            r@.len() == (if max < old(self)@.len() { max as int } else { old(self)@.len() as int }),
            old(self)@ == r@ + final(self)@,
    {
        proof {
            use_type_invariant(&*self);
        }
        let len = self.pending.len();
        let off = self.offset;
        let remaining = len - off;
        let n = if max < remaining { max } else { remaining };
        let mut out: Vec<u8> = Vec::new();
        let mut i: usize = 0;
        while i < n
            invariant
                i <= n,
                off + n <= len,
                len == self.pending@.len(),
                off == self.offset,
                out@ == self.pending@.subrange(off as int, off + i),
            decreases n - i,
        {
            out.push(self.pending[off + i]);
            i = i + 1;
            assert(out@ =~= self.pending@.subrange(off as int, off + i));
        }
        let ghost before = self.pending@.subrange(self.offset as int, self.pending@.len() as int);
        self.offset = off + n;
        assert(before =~= out@ + self.pending@.subrange(self.offset as int, self.pending@.len() as int));
        out
    }
}

} // verus!
