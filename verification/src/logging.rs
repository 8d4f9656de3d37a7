//! The logger configuration: a default level, per-module level overrides and
//! the choice of where the log lines go (the terminal, the platform's system
//! log, or nowhere).

use vstd::prelude::*;
use crate::platform_string::{PlatformString, PlatformView, TargetOs};

verus! {

/// A maximum log level, from `Off` (nothing is logged) to `Trace` (everything is).
#[derive(Clone, Copy, Debug, PartialEq, Eq, Structural)]
pub enum LevelFilter {
    Off,
    Error,
    Warn,
    Info,
    Debug,
    Trace,
}

/// The position of a level in the order `Off < Error < Warn < Info < Debug < Trace`.
pub open spec fn rank(l: LevelFilter) -> int {
    match l {
        LevelFilter::Off => 0,
        LevelFilter::Error => 1,
        LevelFilter::Warn => 2,
        LevelFilter::Info => 3,
        LevelFilter::Debug => 4,
        LevelFilter::Trace => 5,
    }
}

/// The more verbose of two levels.
pub open spec fn more_verbose(a: LevelFilter, b: LevelFilter) -> LevelFilter {
    if rank(a) >= rank(b) { a } else { b }
}

/// The most verbose of `start` and every level in `filters`.
pub open spec fn max_level_of(start: LevelFilter, filters: Seq<(Seq<char>, LevelFilter)>) -> LevelFilter
    decreases filters.len(),
{
    if filters.len() == 0 {
        start
    } else {
        more_verbose(max_level_of(start, filters.drop_last()), filters.last().1)
    }
}

/// The maximum level is at least as verbose as the default level and as
/// every override, and it is one of them.
pub proof fn lemma_max_level_bounds(start: LevelFilter, filters: Seq<(Seq<char>, LevelFilter)>)
    ensures
        rank(max_level_of(start, filters)) >= rank(start),
        forall|i: int| 0 <= i < filters.len() ==> rank(max_level_of(start, filters)) >= rank(#[trigger] filters[i].1),
        max_level_of(start, filters) == start || exists|i: int|
            0 <= i < filters.len() && max_level_of(start, filters) == #[trigger] filters[i].1,
    decreases filters.len(),
{
    if filters.len() > 0 {
        let p = filters.drop_last();
        lemma_max_level_bounds(start, p);
        assert forall|i: int| 0 <= i < filters.len() implies rank(max_level_of(start, filters)) >= rank(
            #[trigger] filters[i].1,
        ) by {
            if i < filters.len() - 1 {
                assert(filters[i] == p[i]);
            }
        }
        let m = max_level_of(start, filters);
        if m != start && m != filters.last().1 {
            let i = choose|i: int| 0 <= i < p.len() && max_level_of(start, p) == #[trigger] p[i].1;
            assert(filters[i] == p[i]);
        }
        if m == filters.last().1 {
            assert(filters[filters.len() - 1] == filters.last());
        }
    }
}

/// The position of `l` in the level order.
pub fn level_rank(l: LevelFilter) -> (r: u8)
    ensures
        r == rank(l),
{
    match l {
        LevelFilter::Off => 0,
        LevelFilter::Error => 1,
        LevelFilter::Warn => 2,
        LevelFilter::Info => 3,
        LevelFilter::Debug => 4,
        LevelFilter::Trace => 5,
    }
}

/// Where the log lines are written.
#[derive(Clone, Copy, Debug, PartialEq, Eq, Structural)]
pub enum LogSink {
    /// The terminal (standard error).
    Stdout,
    /// The platform's system log (syslog, the unified log, the event log).
    Platform,
    /// Nowhere: every line is dropped.
    Void,
}

/// The abstract value of a [`LogBuilder`].
pub struct LogBuilderView {
    pub name: PlatformView,
    pub filter: Seq<(Seq<char>, LevelFilter)>,
    pub allow_platform: bool,
    pub allow_stdout: bool,
    pub force_stdout: bool,
    pub default_level: LevelFilter,
}

/// A logger configuration, built up by chained calls.
pub struct LogBuilder {
    name: PlatformString,
    filter: Vec<(String, LevelFilter)>,
    allow_platform: bool,
    allow_stdout: bool,
    force_stdout: bool,
    default_level: LevelFilter,
}

pub open spec fn filters_view(v: Seq<(String, LevelFilter)>) -> Seq<(Seq<char>, LevelFilter)> {
    v.map_values(|p: (String, LevelFilter)| (p.0@, p.1))
}

/// The overrides that [`LogBuilder::with_default_filters`] adds: the chatty
/// transport crates are held to warnings.
pub open spec fn default_filters() -> Seq<(Seq<char>, LevelFilter)> {
    seq![
        ("h2"@, LevelFilter::Warn),
        ("tonic"@, LevelFilter::Warn),
        ("hyper_util"@, LevelFilter::Warn),
        ("reqwest"@, LevelFilter::Warn),
        ("tracing::span"@, LevelFilter::Warn),
    ]
}

impl View for LogBuilder {
    type V = LogBuilderView;

    closed spec fn view(&self) -> LogBuilderView {
        LogBuilderView {
            name: self.name@,
            filter: filters_view(self.filter@),
            allow_platform: self.allow_platform,
            allow_stdout: self.allow_stdout,
            force_stdout: self.force_stdout,
            default_level: self.default_level,
        }
    }
}

fn push_filter(filter: &mut Vec<(String, LevelFilter)>, module: &str, level: LevelFilter)
    ensures
        filters_view(final(filter)@) == filters_view(old(filter)@).push((module@, level)),
{
    let ghost before = filter@;
    filter.push((String::from_str(module), level));
    proof {
        assert(filters_view(filter@) =~= filters_view(before).push((module@, level)));
    }
}

impl LogBuilder {
    /// A configuration logging everything (`Trace`) under `name`, to the
    /// terminal or the platform log, with no module overrides.
    pub fn new(name: PlatformString) -> (r: Self)
        ensures
            r@.name == name@,
            r@.filter == Seq::<(Seq<char>, LevelFilter)>::empty(),
            r@.allow_platform,
            r@.allow_stdout,
            !r@.force_stdout,
            r@.default_level == LevelFilter::Trace,
    {
        let r = LogBuilder {
            name,
            filter: Vec::new(),
            allow_platform: true,
            allow_stdout: true,
            force_stdout: false,
            default_level: LevelFilter::Trace,
        };
        proof {
            assert(filters_view(r.filter@) =~= Seq::<(Seq<char>, LevelFilter)>::empty());
        }
        r
    }

    /// Sets whether the platform log may be used.
    pub fn allow_platform(self, allow_platform: bool) -> (r: Self)
        ensures
            r@ == (LogBuilderView { allow_platform, ..self@ }),
    {
        let mut s = self;
        s.allow_platform = allow_platform;
        s
    }

    /// Sets whether the terminal may be used.
    pub fn allow_stdout(self, allow_stdout: bool) -> (r: Self)
        ensures
            r@ == (LogBuilderView { allow_stdout, ..self@ }),
    {
        let mut s = self;
        s.allow_stdout = allow_stdout;
        s
    }

    /// Sets whether the terminal is used even when the process is not interactive.
    pub fn force_stdout(self, force_stdout: bool) -> (r: Self)
        ensures
            r@ == (LogBuilderView { force_stdout, ..self@ }),
    {
        let mut s = self;
        s.force_stdout = force_stdout;
        s
    }

    /// Appends the overrides that hold the transport crates to warnings.
    pub fn with_default_filters(self) -> (r: Self)
        ensures
            r@ == (LogBuilderView { filter: self@.filter + default_filters(), ..self@ }),
    {
        let mut s = self;
        let ghost before = filters_view(s.filter@);
        push_filter(&mut s.filter, "h2", LevelFilter::Warn);
        push_filter(&mut s.filter, "tonic", LevelFilter::Warn);
        push_filter(&mut s.filter, "hyper_util", LevelFilter::Warn);
        push_filter(&mut s.filter, "reqwest", LevelFilter::Warn);
        push_filter(&mut s.filter, "tracing::span", LevelFilter::Warn);
        proof {
            reveal_strlit("h2");
            reveal_strlit("tonic");
            reveal_strlit("hyper_util");
            reveal_strlit("reqwest");
            reveal_strlit("tracing::span");
            assert(filters_view(s.filter@) =~= before + default_filters());
        }
        s
    }

    /// Appends an override: records from `module` are logged up to `level`.
    pub fn with_filter(self, module: &str, level: LevelFilter) -> (r: Self)
        ensures
            r@ == (LogBuilderView { filter: self@.filter.push((module@, level)), ..self@ }),
    {
        let mut s = self;
        push_filter(&mut s.filter, module, level);
        s
    }

    /// Sets the level of the records that no override speaks of.
    pub fn default_level(self, level: LevelFilter) -> (r: Self)
        ensures
            r@ == (LogBuilderView { default_level: level, ..self@ }),
    {
        let mut s = self;
        s.default_level = level;
        s
    }

    /// The most verbose level any record can be logged at: the default level or
    /// the most verbose override, whichever is more verbose.
    pub fn max_level(&self) -> (r: LevelFilter)
        ensures
            r == max_level_of(self@.default_level, self@.filter),
    {
        let mut acc = self.default_level;
        let mut i: usize = 0;
        while i < self.filter.len()
            invariant
                i <= self.filter.len(),
                acc == max_level_of(self.default_level, filters_view(self.filter@).take(i as int)),
            decreases self.filter.len() - i,
        {
            let level = self.filter[i].1;
            proof {
                let fv = filters_view(self.filter@);
                assert(fv.take(i as int + 1).drop_last() =~= fv.take(i as int));
            }
            if level_rank(level) > level_rank(acc) {
                acc = level;
            }
            i = i + 1;
        }
        proof {
            assert(filters_view(self.filter@).take(i as int) =~= filters_view(self.filter@));
        }
        acc
    }

    /// The level of the records that no override speaks of.
    pub fn level(&self) -> (r: LevelFilter)
        ensures
            r == self@.default_level,
    {
        self.default_level
    }

    /// The module overrides, in the order they were added.
    pub fn filters(&self) -> (r: Vec<(String, LevelFilter)>)
        ensures
            filters_view(r@) == self@.filter,
    {
        let mut out: Vec<(String, LevelFilter)> = Vec::new();
        let mut i: usize = 0;
        while i < self.filter.len()
            invariant
                i <= self.filter.len(),
                filters_view(out@) == filters_view(self.filter@).take(i as int),
            decreases self.filter.len() - i,
        {
            let ghost before = out@;
            out.push((self.filter[i].0.clone(), self.filter[i].1));
            proof {
                assert(filters_view(out@) =~= filters_view(before).push((self.filter@[i as int].0@, self.filter@[i as int].1)));
                assert(filters_view(self.filter@).take(i as int + 1) =~= filters_view(self.filter@).take(i as int).push((self.filter@[i as int].0@, self.filter@[i as int].1)));
            }
            i = i + 1;
        }
        proof {
            assert(filters_view(self.filter@).take(i as int) =~= filters_view(self.filter@));
        }
        out
    }

    /// The name the platform log records the process under on `os`.
    pub fn platform_name(&self, os: TargetOs) -> (r: String)
        ensures
            r@ == self@.name.for_os(os),
    {
        self.name.for_os(os)
    }

    /// Whether the terminal is used straight away: it is allowed, and the
    /// process is interactive or the terminal is forced.
    pub fn wants_stdout(&self, interactive: bool) -> (r: bool)
        ensures
            r == (self@.allow_stdout && (interactive || self@.force_stdout)),
    {
        self.allow_stdout && (interactive || self.force_stdout)
    }

    /// Where the lines go when the platform log could not be opened.
    pub fn fallback_sink(&self) -> (r: LogSink)
        ensures
            r == (if self@.allow_stdout { LogSink::Stdout } else { LogSink::Void }),
    {
        if self.allow_stdout { LogSink::Stdout } else { LogSink::Void }
    }

    /// Where the lines go, given whether the process is interactive and whether
    /// the platform log can be opened: the terminal when it is wanted straight
    /// away, else the platform log, else the fallback.
    pub fn select_sink(&self, interactive: bool, platform_available: bool) -> (r: LogSink)
        ensures
            r == (if self@.allow_stdout && (interactive || self@.force_stdout) {
                LogSink::Stdout
            } else if platform_available {
                LogSink::Platform
            } else if self@.allow_stdout {
                LogSink::Stdout
            } else {
                LogSink::Void
            }),
    {
        if self.wants_stdout(interactive) {
            LogSink::Stdout
        } else if platform_available {
            LogSink::Platform
        } else {
            self.fallback_sink()
        }
    }
}

/// Sets the maximum level of the process-wide `log` facade, by a call of
/// `log::set_max_level`. Nothing is stated of it: it only changes that global
/// setting, which the installed logger consults.
#[verifier::external_body]
pub fn set_log_level(level: LevelFilter) {
    log::set_max_level(match level {
        LevelFilter::Off => log::LevelFilter::Off,
        LevelFilter::Error => log::LevelFilter::Error,
        LevelFilter::Warn => log::LevelFilter::Warn,
        LevelFilter::Info => log::LevelFilter::Info,
        LevelFilter::Debug => log::LevelFilter::Debug,
        LevelFilter::Trace => log::LevelFilter::Trace,
    });
}

/// A logger that drops every record.
pub struct VoidLogger {}

impl VoidLogger {
    pub fn new() -> (r: Box<VoidLogger>) {
        Box::new(VoidLogger {})
    }

    /// No record is ever enabled.
    pub fn enabled(&self) -> (r: bool)
        ensures
            !r,
    {
        false
    }
}

} // verus!
