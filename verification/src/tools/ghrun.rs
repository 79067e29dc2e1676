//! Waiting until a GitHub Actions run completes, by running `gh run watch`.

use vstd::prelude::*;
use crate::text::{owned, texts, trim, trimmed};
use crate::tools::{ChildEnd, ChildEndView, Span, WaitResult, WaitResultView, WaitStatus, cancelled_text, result_view};

verus! {

/// The arguments of `gh`: watch the run, exit non-zero when it failed, and
/// name the repository when one is given.
pub open spec fn gh_args_text(run_id: Seq<char>, repo: Option<Seq<char>>) -> Seq<Seq<char>> {
    let base = seq!["run"@, "watch"@, run_id, "--exit-status"@];
    match repo {
        Some(r) => base + seq!["--repo"@, r],
        None => base,
    }
}

/// The detail when `gh` could not be started.
pub open spec fn spawn_failed_text(reason: Seq<char>) -> Seq<char> {
    "Failed to run gh: "@ + reason
}

/// What `gh` printed: its trimmed standard output, or its trimmed standard
/// error when the output is empty.
pub open spec fn report_text(stdout: Seq<char>, stderr: Seq<char>) -> Seq<char> {
    if trim(stdout).len() == 0 {
        trim(stderr)
    } else {
        trim(stdout)
    }
}

/// How the wait is reported. A run that completed counts as a successful
/// wait whether the run itself passed or failed; the detail tells which.
pub open spec fn result_of(run_id: Seq<char>, end: ChildEndView, elapsed: Span) -> WaitResultView {
    match end {
        ChildEndView::Cancelled => result_view(WaitStatus::Error, elapsed, Some(cancelled_text())),
        ChildEndView::TimedOut => result_view(
            WaitStatus::Timeout,
            elapsed,
            Some("Run "@ + run_id + " did not complete within timeout"@),
        ),
        ChildEndView::Exited { success, stdout, stderr } => if success {
            result_view(
                WaitStatus::Success,
                elapsed,
                Some("Run "@ + run_id + " completed successfully. "@ + report_text(stdout, stderr)),
            )
        } else {
            result_view(
                WaitStatus::Success,
                elapsed,
                Some("Run "@ + run_id + " completed with failure. "@ + report_text(stdout, stderr)),
            )
        },
        ChildEndView::WaitFailed(reason) => result_view(
            WaitStatus::Error,
            elapsed,
            Some("gh run watch error: "@ + reason),
        ),
    }
}

/// The arguments that `gh` is run with.
pub fn gh_args(run_id: &str, repo: Option<&str>) -> (args: Vec<String>)
    ensures
        texts(args@) == gh_args_text(run_id@, match repo { Some(r) => Some(r@), None => None }),
{
    let mut args: Vec<String> = Vec::new();
    args.push(owned("run"));
    args.push(owned("watch"));
    args.push(owned(run_id));
    args.push(owned("--exit-status"));
    match repo {
        Some(r) => {
            args.push(owned("--repo"));
            args.push(owned(r));
        },
        None => {},
    }
    assert(texts(args@) =~= gh_args_text(run_id@, match repo { Some(r) => Some(r@), None => None }));
    args
}

/// The result when `gh` could not be started.
pub fn spawn_failed(reason: &str, elapsed: Span) -> (r: WaitResult)
    ensures
        r@ == result_view(WaitStatus::Error, elapsed, Some(spawn_failed_text(reason@))),
{
    let mut d = owned("Failed to run gh: ");
    d.append(reason);
    WaitResult::error(elapsed, Some(d))
}

/// The result of a wait for run `run_id` that ended as `end` after `elapsed`.
pub fn finish(run_id: &str, end: &ChildEnd, elapsed: Span) -> (r: WaitResult)
    ensures
        r@ == result_of(run_id@, end@, elapsed),
{
    match end {
        ChildEnd::Cancelled => WaitResult::cancelled(elapsed),
        ChildEnd::TimedOut => {
            let mut d = owned("Run ");
            d.append(run_id);
            d.append(" did not complete within timeout");
            WaitResult::timeout(elapsed, Some(d))
        },
        ChildEnd::Exited { success, stdout, stderr } => {
            let out = trimmed(stdout.as_str());
            let report = if out.as_str().unicode_len() == 0 {
                trimmed(stderr.as_str())
            } else {
                out
            };
            let mut d = owned("Run ");
            d.append(run_id);
            if *success {
                d.append(" completed successfully. ");
            } else {
                d.append(" completed with failure. ");
            }
            d.append(report.as_str());
            WaitResult::success(elapsed, Some(d))
        },
        ChildEnd::WaitFailed(reason) => {
            let mut d = owned("gh run watch error: ");
            d.append(reason.as_str());
            WaitResult::error(elapsed, Some(d))
        },
    }
}


/// A run that completed is a successful wait whether the run passed or
/// failed; only a timeout, a cancellation or a failure to watch is not.
pub proof fn law_completed_run_is_success(
    run_id: Seq<char>,
    passed: bool,
    stdout: Seq<char>,
    stderr: Seq<char>,
    elapsed: Span,
)
    ensures
        result_of(run_id, ChildEndView::Exited { success: passed, stdout, stderr }, elapsed).status
            == WaitStatus::Success,
        result_of(run_id, ChildEndView::TimedOut, elapsed).status == WaitStatus::Timeout,
        result_of(run_id, ChildEndView::Cancelled, elapsed).status == WaitStatus::Error,
{
}


/// A run that completed is reported as passed (`completed successfully`)
/// exactly when `gh` exited with 0, and as failed (`completed with
/// failure`) otherwise, followed by what `gh` printed: its trimmed standard
/// output, or its trimmed standard error when the output is empty.
pub proof fn law_run_detail_tells_pass_or_fail(
    run_id: Seq<char>,
    passed: bool,
    stdout: Seq<char>,
    stderr: Seq<char>,
    elapsed: Span,
)
    ensures
        result_of(run_id, ChildEndView::Exited { success: passed, stdout, stderr }, elapsed) == result_view(
            WaitStatus::Success,
            elapsed,
            Some(
                "Run "@ + run_id + (if passed { " completed successfully. "@ } else { " completed with failure. "@ })
                    + (if trim(stdout).len() == 0 { trim(stderr) } else { trim(stdout) }),
            ),
        ),
{
}


/// A run that did not complete is reported as such: a timeout naming the
/// run, the cancellation error, or an error quoting why watching failed;
/// `gh` watches the run with `--exit-status`, in the named repository when
/// one is given.
pub proof fn law_run_not_completed(run_id: Seq<char>, reason: Seq<char>, repo: Seq<char>, elapsed: Span)
    ensures
        result_of(run_id, ChildEndView::TimedOut, elapsed) == result_view(
            WaitStatus::Timeout,
            elapsed,
            Some("Run "@ + run_id + " did not complete within timeout"@),
        ),
        result_of(run_id, ChildEndView::Cancelled, elapsed) == result_view(WaitStatus::Error, elapsed, Some("cancelled"@)),
        result_of(run_id, ChildEndView::WaitFailed(reason), elapsed) == result_view(
            WaitStatus::Error,
            elapsed,
            Some("gh run watch error: "@ + reason),
        ),
        gh_args_text(run_id, None) == seq!["run"@, "watch"@, run_id, "--exit-status"@],
        gh_args_text(run_id, Some(repo)) == seq!["run"@, "watch"@, run_id, "--exit-status"@, "--repo"@, repo],
        spawn_failed_text(reason) == "Failed to run gh: "@ + reason,
{
}

} // verus!
