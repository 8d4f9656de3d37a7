//! What the daemon knows of the process on the other end of a connection:
//! its executable and command line, and those of its parent. The process
//! table is scanned by the caller; this module assembles what the scans show.

use vstd::prelude::*;
use crate::decimal::{digits_of, u64_to_decimal};
use crate::text::{join_strings, join_with};

verus! {

/// A process: its id, executable path and command line, and its parent
/// (whose own parent is not looked up).
#[derive(Debug)]
pub struct ProcInfo {
    pub pid: u32,
    pub exe: String,
    pub cmdline: String,
    pub parent: Option<Box<ProcInfo>>,
}

/// Why nothing of a process's parent can be given.
#[derive(Debug, PartialEq, Eq, Structural)]
pub enum ParentError {
    /// The process has no (readable) parent, so it has no parent command line.
    NoParentProcess,
    /// The process has no (readable) parent, so no identifier can be made.
    ParentNotFound,
}

impl ParentError {
    /// The message of the error.
    pub open spec fn describe(&self) -> Seq<char> {
        match self {
            ParentError::NoParentProcess => "Process has no parent process"@,
            ParentError::ParentNotFound => "failed to get parent process"@,
        }
    }

    /// The message of the error.
    pub fn to_string(&self) -> (r: String)
        ensures
            r@ == self.describe(),
    {
        match self {
            ParentError::NoParentProcess => String::from_str("Process has no parent process"),
            ParentError::ParentNotFound => String::from_str("failed to get parent process"),
        }
    }
}

/// Why a process could not be described.
#[derive(Debug, PartialEq, Eq, Structural)]
pub enum ProcInfoError {
    /// No process has this id.
    ProcessNotFound(u32),
    /// The process exists but its executable path cannot be read.
    ExeNotAvailable(u32),
}

impl ProcInfoError {
    /// The message of the error.
    pub open spec fn describe(&self) -> Seq<char> {
        match self {
            ProcInfoError::ProcessNotFound(pid) => "process "@ + digits_of(*pid as nat) + " not found"@,
            ProcInfoError::ExeNotAvailable(pid) => "exe path not available for process "@ + digits_of(
                *pid as nat,
            ),
        }
    }

    /// The message of the error.
    pub fn to_string(&self) -> (r: String)
        ensures
            r@ == self.describe(),
    {
        match self {
            ProcInfoError::ProcessNotFound(pid) => {
                let mut r = String::from_str("process ");
                r.append(u64_to_decimal(*pid as u64).as_str());
                r.append(" not found");
                r
            },
            ProcInfoError::ExeNotAvailable(pid) => {
                let mut r = String::from_str("exe path not available for process ");
                r.append(u64_to_decimal(*pid as u64).as_str());
                r
            },
        }
    }
}

/// What one scan of the process table shows of one process: its id, its
/// parent's id, its executable path when readable, and its arguments.
pub struct ProcessSnapshot {
    pub pid: u32,
    pub parent: Option<u32>,
    pub exe: Option<String>,
    pub cmd: Vec<String>,
}

/// The command line of a process: its arguments joined with single spaces.
pub open spec fn cmdline_of(cmd: Seq<String>) -> Seq<char> {
    join_with(cmd.map_values(|s: String| s@), " "@)
}

/// The text before the first space of `s` (all of `s` when it has none).
pub open spec fn first_word(s: Seq<char>) -> Seq<char> {
    if exists|i: int| 0 <= i < s.len() && s[i] == ' ' {
        s.take(choose|i: int| 0 <= i < s.len() && s[i] == ' ' && forall|j: int| 0 <= j < i ==> s[j] != ' ')
    } else {
        s
    }
}

/// `s` has no space before position `i`.
pub open spec fn no_space_before(s: Seq<char>, i: int) -> bool {
    forall|j: int| 0 <= j < i ==> s[j] != ' '
}

proof fn lemma_first_word_at(s: Seq<char>, i: int)
    requires
        0 <= i <= s.len(),
        no_space_before(s, i),
        i == s.len() || s[i] == ' ',
    ensures
        first_word(s) == s.take(i),
{
    if i < s.len() {
        let k = choose|k: int| 0 <= k < s.len() && s[k] == ' ' && forall|j: int| 0 <= j < k ==> s[j] != ' ';
        assert(0 <= k < s.len() && s[k] == ' ' && forall|j: int| 0 <= j < k ==> s[j] != ' ');
        assert(k == i) by {
            if k < i {
                assert(s[k] != ' ');
            }
            if i < k {
                assert(s[i] != ' ');
            }
        }
    } else {
        assert(s.take(i) =~= s);
    }
}

/// The parent a [`ProcInfo`] holds, given what the scan showed of the parent:
/// kept, without its own parent, when its executable path was readable.
pub open spec fn parent_kept(held: Option<Box<ProcInfo>>, seen: Option<ProcessSnapshot>) -> bool {
    match seen {
        Some(p) if p.exe is Some => held matches Some(pi) && pi.pid == p.pid && pi.exe@ == p.exe.unwrap()@
            && pi.cmdline@ == cmdline_of(p.cmd@) && pi.parent is None,
        _ => held is None,
    }
}

impl ProcInfo {
    /// The ids the second scan has to cover: the process itself and, when the
    /// first scan found one, its parent. A process the first scan did not find
    /// is reported as not found.
    pub fn pids_to_scan(pid: u32, first: &Option<ProcessSnapshot>) -> (r: Result<Vec<u32>, ProcInfoError>)
        ensures
            first is None ==> r == Err::<Vec<u32>, ProcInfoError>(ProcInfoError::ProcessNotFound(pid)),
            first matches Some(s) ==> r matches Ok(v) && v@ == (match s.parent {
                Some(pp) => seq![pid, pp],
                None => seq![pid],
            }),
    {
        match first {
            None => Err(ProcInfoError::ProcessNotFound(pid)),
            Some(s) => {
                let mut v: Vec<u32> = Vec::new();
                v.push(pid);
                if let Some(pp) = s.parent {
                    v.push(pp);
                }
                Ok(v)
            },
        }
    }

    /// The process `pid` as the second scan shows it: `target` is what it shows
    /// of the process, `parent` what it shows of the parent the first scan
    /// named. The parent is kept only when its executable path is readable.
    pub fn from_snapshots(pid: u32, target: Option<ProcessSnapshot>, parent: Option<ProcessSnapshot>) -> (r: Result<
        ProcInfo,
        ProcInfoError,
    >)
        ensures
            match target {
                None => r == Err::<ProcInfo, ProcInfoError>(ProcInfoError::ProcessNotFound(pid)),
                Some(t) => match t.exe {
                    None => r == Err::<ProcInfo, ProcInfoError>(ProcInfoError::ExeNotAvailable(pid)),
                    Some(e) => r matches Ok(info) && info.pid == pid && info.exe@ == e@
                        && info.cmdline@ == cmdline_of(t.cmd@) && parent_kept(info.parent, parent),
                },
            },
    {
        let t = match target {
            None => {
                return Err(ProcInfoError::ProcessNotFound(pid));
            },
            Some(t) => t,
        };
        let exe = match t.exe {
            None => {
                return Err(ProcInfoError::ExeNotAvailable(pid));
            },
            Some(e) => e,
        };
        let cmdline = join_strings(&t.cmd, " ");
        let parent_info = match parent {
            Some(p) => match p.exe {
                Some(pexe) => {
                    let pcmd = join_strings(&p.cmd, " ");
                    Some(Box::new(ProcInfo { pid: p.pid, exe: pexe, cmdline: pcmd, parent: None }))
                },
                None => None,
            },
            None => None,
        };
        Ok(ProcInfo { pid, exe, cmdline, parent: parent_info })
    }

    /// The command line of the parent process; an error when there is none.
    pub fn parent_cmdline(&self) -> (r: Result<String, ParentError>)
        ensures
            match self.parent {
                Some(p) => r matches Ok(c) && c@ == p.cmdline@,
                None => r == Err::<String, ParentError>(ParentError::NoParentProcess),
            },
    {
        match &self.parent {
            Some(p) => Ok(p.cmdline.clone()),
            None => Err(ParentError::NoParentProcess),
        }
    }

    /// An identifier of the program that started this process: the parent's
    /// executable path and the first word of the parent's command line,
    /// separated by `:`. It is an error when the process has no parent.
    pub fn unique_process_id(&self) -> (r: Result<String, ParentError>)
        ensures
            match self.parent {
                Some(p) => r matches Ok(id) && id@ == p.exe@ + ":"@ + first_word(p.cmdline@),
                None => r == Err::<String, ParentError>(ParentError::ParentNotFound),
            },
    {
        match &self.parent {
            None => Err(ParentError::ParentNotFound),
            Some(p) => {
                let cs = crate::text::chars_of(p.cmdline.as_str());
                let mut i: usize = 0;
                while i < cs.len() && cs[i] != ' '
                    invariant
                        i <= cs@.len(),
                        no_space_before(cs@, i as int),
                    decreases cs@.len() - i,
                {
                    i = i + 1;
                }
                proof {
                    lemma_first_word_at(cs@, i as int);
                }
                let word = crate::text::string_of(&cs.as_slice()[0..i]);
                let mut id = p.exe.clone();
                id.append(":");
                id.append(word.as_str());
                proof {
                    reveal_strlit(":");
                }
                Ok(id)
            },
        }
    }

    /// The one-line description of the process:
    /// `Process <id=PID, exe=EXE, cmdline=CMDLINE>`.
    pub fn display_text(&self) -> (r: String)
        ensures
            r@ == "Process <id="@ + digits_of(self.pid as nat) + ", exe="@ + self.exe@ + ", cmdline="@
                + self.cmdline@ + ">"@,
    {
        let mut r = String::from_str("Process <id=");
        r.append(u64_to_decimal(self.pid as u64).as_str());
        r.append(", exe=");
        r.append(self.exe.as_str());
        r.append(", cmdline=");
        r.append(self.cmdline.as_str());
        r.append(">");
        r
    }
}

/// The credentials of the peer of a local connection: its process id, when
/// the operating system reported one.
#[derive(Clone, Copy, Debug)]
pub struct ProcCredentials {
    pid: Option<i64>,
}

impl ProcCredentials {
    /// The process id, or `-1` when it is unknown.
    pub closed spec fn pid_value(&self) -> i64 {
        match self.pid {
            Some(p) => p,
            None => -1i64,
        }
    }

    pub fn new(pid: Option<i64>) -> (r: ProcCredentials)
        ensures
            r.pid_value() == (match pid {
                Some(p) => p,
                None => -1i64,
            }),
    {
        ProcCredentials { pid }
    }

    /// The credentials of the calling process itself, whose id is not recorded.
    pub fn current() -> (r: ProcCredentials)
        ensures
            r.pid_value() == -1,
    {
        ProcCredentials { pid: None }
    }

    /// The process id, or `-1` when it is unknown.
    pub fn pid(&self) -> (r: i64)
        ensures
            r == self.pid_value(),
    {
        match self.pid {
            Some(p) => p,
            None => -1,
        }
    }

    /// The process id to look up in the process table: none when the id is
    /// negative (unknown or invalid), else the id as a `u32`, truncated as a
    /// cast does.
    pub fn lookup_pid(&self) -> (r: Option<u32>)
        ensures
            self.pid_value() < 0 ==> r is None,
            self.pid_value() >= 0 ==> r == Some(self.pid_value() as u32),
    {
        let pid = self.pid();
        if pid < 0 {
            None
        } else {
            Some(pid as u32)
        }
    }
}

} // verus!
