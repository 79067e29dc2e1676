//! Waiting until a Docker container exits, by running `docker wait`.

use vstd::prelude::*;
use crate::text::{owned, texts, trim, trimmed};
use crate::tools::{ChildEnd, ChildEndView, Span, WaitResult, WaitResultView, WaitStatus, cancelled_text, result_view};

verus! {

/// The arguments of `docker`.
pub open spec fn docker_args_text(container: Seq<char>) -> Seq<Seq<char>> {
    seq!["wait"@, container]
}

/// The detail when `docker` could not be started.
pub open spec fn spawn_failed_text(reason: Seq<char>) -> Seq<char> {
    "Failed to run docker: "@ + reason
}

/// How the wait is reported: killed helpers give the cancellation error or
/// a timeout; a helper that exited with 0 gives success with the exit code
/// of the container, which it printed; any other exit gives an error with
/// what it printed on standard error.
pub open spec fn result_of(container: Seq<char>, end: ChildEndView, elapsed: Span) -> WaitResultView {
    match end {
        ChildEndView::Cancelled => result_view(WaitStatus::Error, elapsed, Some(cancelled_text())),
        ChildEndView::TimedOut => result_view(
            WaitStatus::Timeout,
            elapsed,
            Some("Container "@ + container + " did not exit within timeout"@),
        ),
        ChildEndView::Exited { success, stdout, stderr } => if success {
            result_view(
                WaitStatus::Success,
                elapsed,
                Some("Container "@ + container + " exited with code "@ + trim(stdout)),
            )
        } else {
            result_view(WaitStatus::Error, elapsed, Some("docker wait failed: "@ + trim(stderr)))
        },
        ChildEndView::WaitFailed(reason) => result_view(
            WaitStatus::Error,
            elapsed,
            Some("docker wait error: "@ + reason),
        ),
    }
}

/// The arguments that `docker` is run with.
pub fn docker_args(container: &str) -> (args: Vec<String>)
    ensures
        texts(args@) == docker_args_text(container@),
{
    let mut args: Vec<String> = Vec::new();
    args.push(owned("wait"));
    args.push(owned(container));
    assert(texts(args@) =~= docker_args_text(container@));
    args
}

/// The result when `docker` could not be started.
pub fn spawn_failed(reason: &str, elapsed: Span) -> (r: WaitResult)
    ensures
        r@ == result_view(WaitStatus::Error, elapsed, Some(spawn_failed_text(reason@))),
{
    let mut d = owned("Failed to run docker: ");
    d.append(reason);
    WaitResult::error(elapsed, Some(d))
}

/// The result of a wait for `container` that ended as `end` after `elapsed`.
pub fn finish(container: &str, end: &ChildEnd, elapsed: Span) -> (r: WaitResult)
    ensures
        r@ == result_of(container@, end@, elapsed),
{
    match end {
        ChildEnd::Cancelled => WaitResult::cancelled(elapsed),
        ChildEnd::TimedOut => {
            let mut d = owned("Container ");
            d.append(container);
            d.append(" did not exit within timeout");
            WaitResult::timeout(elapsed, Some(d))
        },
        ChildEnd::Exited { success, stdout, stderr } => {
            if *success {
                let code = trimmed(stdout.as_str());
                let mut d = owned("Container ");
                d.append(container);
                d.append(" exited with code ");
                d.append(code.as_str());
                WaitResult::success(elapsed, Some(d))
            } else {
                let err = trimmed(stderr.as_str());
                let mut d = owned("docker wait failed: ");
                d.append(err.as_str());
                WaitResult::error(elapsed, Some(d))
            }
        },
        ChildEnd::WaitFailed(reason) => {
            let mut d = owned("docker wait error: ");
            d.append(reason.as_str());
            WaitResult::error(elapsed, Some(d))
        },
    }
}


/// When `docker wait` exits with 0 the container has exited and the wait
/// succeeds, naming the exit code that it printed, whatever that code is;
/// any other exit of `docker wait` is an error quoting its standard error.
/// A timeout, a cancellation and a failure to wait give a timeout and two
/// errors.
pub proof fn law_docker_exit_zero_reports_code(
    container: Seq<char>,
    stdout: Seq<char>,
    stderr: Seq<char>,
    reason: Seq<char>,
    elapsed: Span,
)
    ensures
        result_of(container, ChildEndView::Exited { success: true, stdout, stderr }, elapsed) == result_view(
            WaitStatus::Success,
            elapsed,
            Some("Container "@ + container + " exited with code "@ + trim(stdout)),
        ),
        result_of(container, ChildEndView::Exited { success: false, stdout, stderr }, elapsed) == result_view(
            WaitStatus::Error,
            elapsed,
            Some("docker wait failed: "@ + trim(stderr)),
        ),
        result_of(container, ChildEndView::TimedOut, elapsed) == result_view(
            WaitStatus::Timeout,
            elapsed,
            Some("Container "@ + container + " did not exit within timeout"@),
        ),
        result_of(container, ChildEndView::Cancelled, elapsed) == result_view(WaitStatus::Error, elapsed, Some("cancelled"@)),
        result_of(container, ChildEndView::WaitFailed(reason), elapsed) == result_view(
            WaitStatus::Error,
            elapsed,
            Some("docker wait error: "@ + reason),
        ),
{
}

} // verus!
