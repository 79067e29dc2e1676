//! Waiting until a shell command exits with code 0, re-running it at an
//! interval, and giving up early when its output shows an abort pattern.

use vstd::prelude::*;
use crate::text::{contains, contains_text, owned, push_char, signed_decimal, signed_decimal_string, texts, trim, trimmed};
use crate::tools::{PollStep, PollStepView, Span, WaitResult, WaitStatus, result_view};

verus! {

/// What one run of the command gave.
#[derive(Debug)]
pub enum RunOutcome {
    /// The command ran to its end.
    Exited {
        /// Whether it exited with code 0.
        success: bool,
        /// Its exit code, when it has one (not when a signal ended it).
        code: Option<i32>,
        /// What it printed on standard output.
        stdout: String,
        /// What it printed on standard error.
        stderr: String,
    },
    /// The shell could not be started; the text says why.
    SpawnFailed(String),
}

/// The mathematical content of a [`RunOutcome`].
pub enum RunOutcomeView {
    Exited { success: bool, code: Option<i32>, stdout: Seq<char>, stderr: Seq<char> },
    SpawnFailed(Seq<char>),
}

impl View for RunOutcome {
    type V = RunOutcomeView;

    open spec fn view(&self) -> RunOutcomeView {
        match self {
            RunOutcome::Exited { success, code, stdout, stderr } => RunOutcomeView::Exited {
                success: *success,
                code: *code,
                stdout: stdout@,
                stderr: stderr@,
            },
            RunOutcome::SpawnFailed(e) => RunOutcomeView::SpawnFailed(e@),
        }
    }
}

/// The arguments of `sh` that run `command`.
pub open spec fn shell_args_text(command: Seq<char>) -> Seq<Seq<char>> {
    seq!["-c"@, command]
}

/// What the last failure is reported as before any run: `(no output)`.
pub open spec fn no_output_text() -> Seq<char> {
    "(no output)"@
}

/// The detail of a timeout, quoting the last failure.
pub open spec fn timeout_text(last: Seq<char>) -> Seq<char> {
    "Command did not exit 0 within timeout. Last: "@ + last
}

/// The detail of a successful run: its trimmed standard output, or a
/// fixed sentence when that is empty.
pub open spec fn success_text(stdout: Seq<char>) -> Seq<char> {
    if trim(stdout).len() == 0 {
        "Command exited with code 0"@
    } else {
        trim(stdout)
    }
}

/// How a failed run is remembered: `exit <code>`, followed by the trimmed
/// standard error, or else the trimmed standard output, when not empty.
/// A run without exit code counts as code -1.
pub open spec fn failure_text(code: Option<i32>, stdout: Seq<char>, stderr: Seq<char>) -> Seq<char> {
    let c = match code {
        Some(c) => c,
        None => -1i32,
    };
    let head = "exit "@ + signed_decimal(c as int);
    if trim(stderr).len() > 0 {
        head + ": "@ + trim(stderr)
    } else if trim(stdout).len() > 0 {
        head + ": "@ + trim(stdout)
    } else {
        head
    }
}

/// Whether the abort pattern occurs in the trimmed output and error of a
/// failed run, joined by a line break.
pub open spec fn aborts(pattern: Option<Seq<char>>, stdout: Seq<char>, stderr: Seq<char>) -> bool {
    pattern matches Some(p) && contains_text(trim(stdout) + seq!['\n'] + trim(stderr), p)
}

/// The detail when the abort pattern matched.
pub open spec fn abort_text(pattern: Seq<char>, last: Seq<char>) -> Seq<char> {
    "Abort pattern '"@ + pattern + "' matched: "@ + last
}

/// The detail when the shell could not be started.
pub open spec fn spawn_failed_text(reason: Seq<char>) -> Seq<char> {
    "Failed to execute command: "@ + reason
}

/// What follows one run: the step, and what is remembered as the last
/// failure afterwards.
pub open spec fn step_after_run(
    last: Seq<char>,
    outcome: RunOutcomeView,
    pattern: Option<Seq<char>>,
    elapsed: Span,
    interval_secs: u64,
) -> (PollStepView, Seq<char>) {
    match outcome {
        RunOutcomeView::Exited { success, code, stdout, stderr } => {
            if success {
                (PollStepView::Done(result_view(WaitStatus::Success, elapsed, Some(success_text(stdout)))), last)
            } else {
                let now = failure_text(code, stdout, stderr);
                if aborts(pattern, stdout, stderr) {
                    (PollStepView::Done(result_view(WaitStatus::Error, elapsed, Some(abort_text(pattern->0, now)))), now)
                } else {
                    (PollStepView::Sleep(Span { secs: interval_secs, nanos: 0 }), now)
                }
            }
        },
        RunOutcomeView::SpawnFailed(reason) => {
            (PollStepView::Done(result_view(WaitStatus::Error, elapsed, Some(spawn_failed_text(reason)))), last)
        },
    }
}

/// The arguments that `sh` is run with.
pub fn shell_args(command: &str) -> (args: Vec<String>)
    ensures
        texts(args@) == shell_args_text(command@),
{
    let mut args: Vec<String> = Vec::new();
    args.push(owned("-c"));
    args.push(owned(command));
    assert(texts(args@) =~= shell_args_text(command@));
    args
}

fn failure_line(code: Option<i32>, stdout: &str, stderr: &str) -> (s: String)
    ensures
        s@ == failure_text(code, stdout@, stderr@),
{
    let c: i32 = match code {
        Some(c) => c,
        None => -1,
    };
    let mut s = owned("exit ");
    let digits = signed_decimal_string(c);
    s.append(digits.as_str());
    let err = trimmed(stderr);
    let out = trimmed(stdout);
    if err.as_str().unicode_len() > 0 {
        s.append(": ");
        s.append(err.as_str());
    } else if out.as_str().unicode_len() > 0 {
        s.append(": ");
        s.append(out.as_str());
    }
    s
}

fn matches_abort(pattern: Option<&str>, stdout: &str, stderr: &str) -> (b: bool)
    ensures
        b == aborts(match pattern { Some(p) => Some(p@), None => None }, stdout@, stderr@),
{
    match pattern {
        Some(p) => {
            let mut combined = trimmed(stdout);
            push_char(&mut combined, '\n');
            let err = trimmed(stderr);
            combined.append(err.as_str());
            assert(combined@ =~= trim(stdout@) + seq!['\n'] + trim(stderr@));
            contains(combined.as_str(), p)
        },
        None => false,
    }
}

/// The progress of a command wait: what the last failed run showed.
#[derive(Debug)]
pub struct CommandPoll {
    pub last_output: String,
}

impl CommandPoll {
    /// A wait that has not run the command yet.
    pub fn new() -> (p: CommandPoll)
        ensures
            p.last_output@ == no_output_text(),
    {
        CommandPoll { last_output: owned("(no output)") }
    }

    /// The look at the clock before each run: once `elapsed` has reached
    /// `timeout_secs` seconds, the wait ends with a timeout that quotes the
    /// last failure.
    pub fn before_run(&self, elapsed: Span, timeout_secs: u64) -> (r: Option<WaitResult>)
        requires
            elapsed.wf(),
        ensures
            r is Some <==> elapsed.at_least_secs(timeout_secs),
            r matches Some(res) ==> res@ == result_view(WaitStatus::Timeout, elapsed, Some(timeout_text(self.last_output@))),
    {
        if elapsed.reached(timeout_secs) {
            let mut d = owned("Command did not exit 0 within timeout. Last: ");
            d.append(self.last_output.as_str());
            Some(WaitResult::timeout(elapsed, Some(d)))
        } else {
            None
        }
    }

    /// Decides what follows one run of the command, made `elapsed` after the
    /// wait began, and remembers a failure for a later timeout.
    pub fn after_run(
        &mut self,
        outcome: &RunOutcome,
        abort_pattern: Option<&str>,
        elapsed: Span,
        interval_secs: u64,
    ) -> (step: PollStep)
        ensures
            ({
                let (s, last) = step_after_run(
                    old(self).last_output@,
                    outcome@,
                    match abort_pattern { Some(p) => Some(p@), None => None },
                    elapsed,
                    interval_secs,
                );
                step@ == s && final(self).last_output@ == last
            }),
    {
        match outcome {
            RunOutcome::Exited { success, code, stdout, stderr } => {
                if *success {
                    let out = trimmed(stdout.as_str());
                    let d = if out.as_str().unicode_len() == 0 {
                        owned("Command exited with code 0")
                    } else {
                        out
                    };
                    PollStep::Done(WaitResult::success(elapsed, Some(d)))
                } else {
                    let now = failure_line(*code, stdout.as_str(), stderr.as_str());
                    let abort = matches_abort(abort_pattern, stdout.as_str(), stderr.as_str());
                    self.last_output = now;
                    if abort {
                        let p = abort_pattern.unwrap();
                        let mut d = owned("Abort pattern '");
                        d.append(p);
                        d.append("' matched: ");
                        d.append(self.last_output.as_str());
                        PollStep::Done(WaitResult::error(elapsed, Some(d)))
                    } else {
                        PollStep::Sleep(Span { secs: interval_secs, nanos: 0 })
                    }
                }
            },
            RunOutcome::SpawnFailed(reason) => {
                let mut d = owned("Failed to execute command: ");
                d.append(reason.as_str());
                PollStep::Done(WaitResult::error(elapsed, Some(d)))
            },
        }
    }
}


/// A failed run that does not abort the wait is remembered, so that a
/// timeout that follows quotes it: `... Last: exit <code>[: <output>]`.
pub proof fn law_timeout_quotes_last_failure(
    last: Seq<char>,
    code: Option<i32>,
    stdout: Seq<char>,
    stderr: Seq<char>,
    pattern: Option<Seq<char>>,
    elapsed: Span,
    interval_secs: u64,
)
    requires
        !aborts(pattern, stdout, stderr),
    ensures
        ({
            let (step, now) = step_after_run(
                last,
                RunOutcomeView::Exited { success: false, code, stdout, stderr },
                pattern,
                elapsed,
                interval_secs,
            );
            &&& step == PollStepView::Sleep(Span { secs: interval_secs, nanos: 0 })
            &&& now == failure_text(code, stdout, stderr)
            &&& timeout_text(now) == "Command did not exit 0 within timeout. Last: "@ + failure_text(code, stdout, stderr)
        }),
{
}


/// A run that exits with code 0 ends the wait with success, whatever the
/// abort pattern and whatever it printed: the detail is its trimmed
/// standard output, or `Command exited with code 0` when that is empty, and
/// the last failure remembered is unchanged.
pub proof fn law_exit_zero_is_success(
    last: Seq<char>,
    code: Option<i32>,
    stdout: Seq<char>,
    stderr: Seq<char>,
    pattern: Option<Seq<char>>,
    elapsed: Span,
    interval_secs: u64,
)
    ensures
        ({
            let (step, now) = step_after_run(
                last,
                RunOutcomeView::Exited { success: true, code, stdout, stderr },
                pattern,
                elapsed,
                interval_secs,
            );
            &&& step == PollStepView::Done(result_view(
                WaitStatus::Success,
                elapsed,
                Some(if trim(stdout).len() == 0 { "Command exited with code 0"@ } else { trim(stdout) }),
            ))
            &&& now == last
        }),
{
}

/// A run ends the wait with an error only when the shell could not start,
/// or when the run failed and the abort pattern occurs in its trimmed output
/// and error joined by a line break; a failed run without such a match
/// waits the interval.
pub proof fn law_abort_only_on_failed_runs(
    last: Seq<char>,
    outcome: RunOutcomeView,
    pattern: Option<Seq<char>>,
    elapsed: Span,
    interval_secs: u64,
)
    ensures
        ({
            let (step, now) = step_after_run(last, outcome, pattern, elapsed, interval_secs);
            &&& (outcome is Exited && step is Done && step->Done_0.status == WaitStatus::Error) ==> {
                &&& !outcome->Exited_success
                &&& pattern is Some
                &&& contains_text(trim(outcome->Exited_stdout) + seq!['\n'] + trim(outcome->Exited_stderr), pattern->0)
            }
            &&& (outcome is Exited && !outcome->Exited_success && !(pattern is Some
                && contains_text(trim(outcome->Exited_stdout) + seq!['\n'] + trim(outcome->Exited_stderr), pattern->0)))
                ==> step == PollStepView::Sleep(Span { secs: interval_secs, nanos: 0 })
            &&& outcome is SpawnFailed ==> step == PollStepView::Done(result_view(
                WaitStatus::Error,
                elapsed,
                Some("Failed to execute command: "@ + outcome->SpawnFailed_0),
            ))
        }),
{
}


/// A failed run is remembered as `exit <code>` (code -1 when it has none),
/// followed by `: ` and the trimmed standard error when that is not empty,
/// or else by `: ` and the trimmed standard output when that is not empty.
pub proof fn law_failure_text_prefers_stderr(code: Option<i32>, stdout: Seq<char>, stderr: Seq<char>)
    ensures
        ({
            let head = "exit "@ + signed_decimal(if code is Some { code->0 as int } else { -1 });
            &&& trim(stderr).len() > 0 ==> failure_text(code, stdout, stderr) == head + ": "@ + trim(stderr)
            &&& (trim(stderr).len() == 0 && trim(stdout).len() > 0)
                ==> failure_text(code, stdout, stderr) == head + ": "@ + trim(stdout)
            &&& (trim(stderr).len() == 0 && trim(stdout).len() == 0) ==> failure_text(code, stdout, stderr) == head
        }),
{
}


/// Before any run the last failure reads `(no output)`; a timeout quotes
/// whatever failure is remembered; the command runs as `sh -c <command>`;
/// an abort quotes the pattern and the failure.
pub proof fn law_command_messages(command: Seq<char>, last: Seq<char>, pattern: Seq<char>)
    ensures
        no_output_text() == "(no output)"@,
        timeout_text(last) == "Command did not exit 0 within timeout. Last: "@ + last,
        shell_args_text(command) == seq!["-c"@, command],
        abort_text(pattern, last) == "Abort pattern '"@ + pattern + "' matched: "@ + last,
{
}

} // verus!
