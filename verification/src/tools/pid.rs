//! Waiting until a process exits.

use vstd::prelude::*;
use crate::text::{decimal, decimal_string};
use crate::tools::{PollStep, PollStepView, Span, WaitResult, WaitStatus, result_view};

verus! {

/// `/proc/<pid>`, the entry that exists while the process runs.
pub open spec fn proc_path_text(pid: u32) -> Seq<char> {
    "/proc/"@ + decimal(pid as nat)
}

/// The detail when the process was gone before the wait began.
pub open spec fn already_exited_text(pid: u32) -> Seq<char> {
    "Process "@ + decimal(pid as nat) + " already exited"@
}

/// The detail when the process went away during the wait.
pub open spec fn exited_text(pid: u32) -> Seq<char> {
    "Process "@ + decimal(pid as nat) + " has exited"@
}

/// The detail when the time limit passed with the process still there.
pub open spec fn still_running_text(pid: u32) -> Seq<char> {
    "Process "@ + decimal(pid as nat) + " still running"@
}

/// The pause between two looks at the process: half a second.
pub open spec fn retry_pause() -> Span {
    Span { secs: 0, nanos: 500_000_000 }
}

/// What follows a look at the process table during the wait.
pub open spec fn step_after_check(pid: u32, running: bool, elapsed: Span, timeout_secs: u64) -> PollStepView {
    if !running {
        PollStepView::Done(result_view(WaitStatus::Success, elapsed, Some(exited_text(pid))))
    } else if elapsed.at_least_secs(timeout_secs) {
        PollStepView::Done(result_view(WaitStatus::Timeout, elapsed, Some(still_running_text(pid))))
    } else {
        PollStepView::Sleep(retry_pause())
    }
}

fn process_text(pid: u32, tail: &str) -> (s: String)
    ensures
        s@ == "Process "@ + decimal(pid as nat) + tail@,
{
    let mut s = String::from_str("Process ");
    let digits = decimal_string(pid as u64);
    s.append(digits.as_str());
    s.append(tail);
    s
}

/// The `/proc` entry of a process.
pub fn proc_path(pid: u32) -> (p: String)
    ensures
        p@ == proc_path_text(pid),
{
    let mut p = String::from_str("/proc/");
    let digits = decimal_string(pid as u64);
    p.append(digits.as_str());
    p
}

/// The look before the wait begins: a process that is not running has
/// already exited, and the wait ends at once with success.
pub fn initial_check(pid: u32, running: bool, elapsed: Span) -> (r: Option<WaitResult>)
    ensures
        r is None <==> running,
        r matches Some(res) ==> res@ == result_view(WaitStatus::Success, elapsed, Some(already_exited_text(pid))),
{
    if running {
        None
    } else {
        Some(WaitResult::success(elapsed, Some(process_text(pid, " already exited"))))
    }
}

/// Decides what follows one look at the process table made `elapsed` after
/// the wait began, with a limit of `timeout_secs` seconds.
pub fn after_check(pid: u32, running: bool, elapsed: Span, timeout_secs: u64) -> (step: PollStep)
    requires
        elapsed.wf(),
    ensures
        step@ == step_after_check(pid, running, elapsed, timeout_secs),
{
    if !running {
        return PollStep::Done(WaitResult::success(elapsed, Some(process_text(pid, " has exited"))));
    }
    if elapsed.reached(timeout_secs) {
        return PollStep::Done(WaitResult::timeout(elapsed, Some(process_text(pid, " still running"))));
    }
    PollStep::Sleep(Span { secs: 0, nanos: 500_000_000 })
}


/// A process wait ends with success exactly when the process is gone, even
/// past the limit; while it runs, the wait looks again half a second later
/// until the limit is reached, and then times out. A process already gone
/// before the wait gives success at once.
pub proof fn law_pid_success_exactly_when_gone(pid: u32, running: bool, elapsed: Span, timeout_secs: u64)
    ensures
        ({
            let step = step_after_check(pid, running, elapsed, timeout_secs);
            let name = "Process "@ + decimal(pid as nat);
            &&& (step is Done && step->Done_0.status == WaitStatus::Success) <==> !running
            &&& !running ==> step == PollStepView::Done(
                result_view(WaitStatus::Success, elapsed, Some(name + " has exited"@)),
            )
            &&& (running && elapsed.at_least_secs(timeout_secs)) ==> step == PollStepView::Done(
                result_view(WaitStatus::Timeout, elapsed, Some(name + " still running"@)),
            )
            &&& (running && !elapsed.at_least_secs(timeout_secs))
                ==> step == PollStepView::Sleep(Span { secs: 0, nanos: 500_000_000 })
            &&& already_exited_text(pid) == name + " already exited"@
            &&& proc_path_text(pid) == "/proc/"@ + decimal(pid as nat)
        }),
{
}

} // verus!
