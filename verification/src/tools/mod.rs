//! What a wait ends with, how long it took, and how a polling loop goes on.

pub mod command;
pub mod docker;
pub mod file;
pub mod ghrun;
pub mod params;
pub mod pid;
pub mod stop;
pub mod port;
pub mod url;
pub mod watch;

use vstd::prelude::*;

verus! {

/// A length of time: whole seconds and the nanoseconds beyond them.
#[derive(Clone, Copy, PartialEq, Eq, Structural, Debug)]
pub struct Span {
    pub secs: u64,
    pub nanos: u32,
}

impl Span {
    /// The nanoseconds part stays below one second.
    pub open spec fn wf(self) -> bool {
        self.nanos < 1_000_000_000
    }

    /// The whole length in nanoseconds.
    pub open spec fn total_nanos(self) -> int {
        self.secs * 1_000_000_000 + self.nanos
    }

    /// Whether this much time is at least `secs` seconds.
    pub open spec fn at_least_secs(self, secs: u64) -> bool {
        self.total_nanos() >= secs * 1_000_000_000
    }

    /// No time at all.
    pub fn zero() -> (s: Span)
        ensures
            s == (Span { secs: 0, nanos: 0 }),
    {
        Span { secs: 0, nanos: 0 }
    }

    /// Whole seconds.
    pub fn from_secs(secs: u64) -> (s: Span)
        ensures
            s == (Span { secs: secs, nanos: 0 }),
    {
        Span { secs, nanos: 0 }
    }

    /// Milliseconds, split into seconds and the nanoseconds beyond them.
    pub fn from_millis(millis: u64) -> (s: Span)
        ensures
            s.wf(),
            s.total_nanos() == millis * 1_000_000,
    {
        let secs = millis / 1000;
        let rest = millis % 1000;
        let nanos: u32 = (rest as u32) * 1_000_000;
        assert(secs * 1_000_000_000 + rest * 1_000_000 == millis * 1_000_000) by (nonlinear_arith)
            requires
                secs == millis / 1000,
                rest == millis % 1000,
        ;
        Span { secs, nanos }
    }

    /// Whether this much time has reached a limit of `secs` whole seconds
    /// (the `elapsed >= timeout` test of every polling loop).
    pub fn reached(&self, secs: u64) -> (b: bool)
        requires
            self.wf(),
        ensures
            b == self.at_least_secs(secs),
    {
        let b = self.secs >= secs;
        assert(b == self.at_least_secs(secs)) by (nonlinear_arith)
            requires
                b == (self.secs >= secs),
                self.nanos < 1_000_000_000,
        ;
        b
    }
}

/// How a wait ended.
#[derive(Clone, Copy, PartialEq, Eq, Structural, Debug)]
pub enum WaitStatus {
    /// The condition was met.
    Success,
    /// The time limit passed first.
    Timeout,
    /// The wait could not go on (bad input, a failed tool, cancellation).
    Error,
}

/// The text of an optional string.
pub open spec fn opt_text(o: Option<String>) -> Option<Seq<char>> {
    match o {
        Some(s) => Some(s@),
        None => None,
    }
}

/// What a wait reports: its outcome, the time it took and a human-readable detail.
#[derive(Debug)]
pub struct WaitResult {
    pub status: WaitStatus,
    pub elapsed: Span,
    pub detail: Option<String>,
}

/// The mathematical content of a [`WaitResult`].
pub struct WaitResultView {
    pub status: WaitStatus,
    pub elapsed: Span,
    pub detail: Option<Seq<char>>,
}

impl View for WaitResult {
    type V = WaitResultView;

    open spec fn view(&self) -> WaitResultView {
        WaitResultView { status: self.status, elapsed: self.elapsed, detail: opt_text(self.detail) }
    }
}

/// A result with the given parts.
pub open spec fn result_view(
    status: WaitStatus,
    elapsed: Span,
    detail: Option<Seq<char>>,
) -> WaitResultView {
    WaitResultView { status, elapsed, detail }
}

/// The detail given when a wait is cancelled.
pub open spec fn cancelled_text() -> Seq<char> {
    "cancelled"@
}

/// The process exit status that reports each outcome (0, 1 or 2).
pub open spec fn exit_code_of(status: WaitStatus) -> i32 {
    match status {
        WaitStatus::Success => 0,
        WaitStatus::Timeout => 1,
        WaitStatus::Error => 2,
    }
}

impl WaitResult {
    /// The condition was met after `elapsed`.
    pub fn success(elapsed: Span, detail: Option<String>) -> (r: WaitResult)
        ensures
            r@ == result_view(WaitStatus::Success, elapsed, opt_text(detail)),
    {
        WaitResult { status: WaitStatus::Success, elapsed, detail }
    }

    /// The time limit passed after `elapsed`.
    pub fn timeout(elapsed: Span, detail: Option<String>) -> (r: WaitResult)
        ensures
            r@ == result_view(WaitStatus::Timeout, elapsed, opt_text(detail)),
    {
        WaitResult { status: WaitStatus::Timeout, elapsed, detail }
    }

    /// The wait failed after `elapsed`.
    pub fn error(elapsed: Span, detail: Option<String>) -> (r: WaitResult)
        ensures
            r@ == result_view(WaitStatus::Error, elapsed, opt_text(detail)),
    {
        WaitResult { status: WaitStatus::Error, elapsed, detail }
    }

    /// The wait was cancelled after `elapsed`: an error whose detail is `cancelled`.
    pub fn cancelled(elapsed: Span) -> (r: WaitResult)
        ensures
            r@ == result_view(WaitStatus::Error, elapsed, Some(cancelled_text())),
    {
        WaitResult::error(elapsed, Some(String::from_str("cancelled")))
    }

    /// Whether a tool call that returns this result is flagged as failed:
    /// exactly the errors.
    pub fn is_error(&self) -> (b: bool)
        ensures
            b == (self.status == WaitStatus::Error),
    {
        self.status == WaitStatus::Error
    }

    /// The exit status of the command line for this result: 0 on success,
    /// 1 on timeout, 2 on error.
    pub fn exit_code(&self) -> (code: i32)
        ensures
            code == exit_code_of(self.status),
    {
        match self.status {
            WaitStatus::Success => 0,
            WaitStatus::Timeout => 1,
            WaitStatus::Error => 2,
        }
    }
}

/// What a polling loop does after a look at its condition.
#[derive(Debug)]
pub enum PollStep {
    /// Stop and report.
    Done(WaitResult),
    /// Sleep this long (unless cancelled meanwhile), then look again.
    Sleep(Span),
}

/// The mathematical content of a [`PollStep`].
pub enum PollStepView {
    Done(WaitResultView),
    Sleep(Span),
}

impl View for PollStep {
    type V = PollStepView;

    open spec fn view(&self) -> PollStepView {
        match self {
            PollStep::Done(r) => PollStepView::Done(r@),
            PollStep::Sleep(p) => PollStepView::Sleep(*p),
        }
    }
}


/// How the wait for a long-running helper process (`docker wait`,
/// `gh run watch`) ended.
#[derive(Debug)]
pub enum ChildEnd {
    /// The wait was cancelled; the helper was killed.
    Cancelled,
    /// The time limit passed; the helper was killed.
    TimedOut,
    /// The helper exited.
    Exited {
        /// Whether it exited with code 0.
        success: bool,
        /// What it printed on standard output.
        stdout: String,
        /// What it printed on standard error.
        stderr: String,
    },
    /// Waiting for the helper failed; the text says why.
    WaitFailed(String),
}

/// The mathematical content of a [`ChildEnd`].
pub enum ChildEndView {
    Cancelled,
    TimedOut,
    Exited { success: bool, stdout: Seq<char>, stderr: Seq<char> },
    WaitFailed(Seq<char>),
}

impl View for ChildEnd {
    type V = ChildEndView;

    open spec fn view(&self) -> ChildEndView {
        match self {
            ChildEnd::Cancelled => ChildEndView::Cancelled,
            ChildEnd::TimedOut => ChildEndView::TimedOut,
            ChildEnd::Exited { success, stdout, stderr } => ChildEndView::Exited {
                success: *success,
                stdout: stdout@,
                stderr: stderr@,
            },
            ChildEnd::WaitFailed(e) => ChildEndView::WaitFailed(e@),
        }
    }
}


/// A span reaches a limit of whole seconds exactly when its whole seconds
/// do; the nanoseconds beyond never make up a second.
pub proof fn law_span_reaches_whole_seconds(s: Span, secs: u64)
    requires
        s.wf(),
    ensures
        s.at_least_secs(secs) <==> s.secs >= secs,
{
    assert(s.at_least_secs(secs) <==> s.secs >= secs) by (nonlinear_arith)
        requires
            s.nanos < 1_000_000_000,
    ;
}

/// Each outcome has its own exit status: 0 for success, 1 for a timeout,
/// 2 for an error, and only errors flag a tool call as failed.
pub proof fn law_exit_codes(status: WaitStatus)
    ensures
        exit_code_of(WaitStatus::Success) == 0,
        exit_code_of(WaitStatus::Timeout) == 1,
        exit_code_of(WaitStatus::Error) == 2,
        exit_code_of(status) == 0 <==> status == WaitStatus::Success,
        cancelled_text() == "cancelled"@,
{
}

} // verus!

pub use params::{
    CancelWatchParams, CommandParams, DockerParams, FileParams, GhRunParams, PidParams, PortParams,
    UrlParams,
};
pub use watch::{NotifyServer, Watch, WatchStatus};
