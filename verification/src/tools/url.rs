//! Waiting until a URL answers with an expected HTTP status, asking `curl`.

use vstd::prelude::*;
use crate::text::{decimal, decimal_string, owned, parse_u16, parse_u16_text, texts, trim, trimmed};
use crate::tools::{PollStep, PollStepView, Span, WaitResult, WaitStatus, result_view};

verus! {

/// What one run of `curl` gave.
#[derive(Debug)]
pub enum CurlOutcome {
    /// `curl` could not be found.
    NotInstalled,
    /// `curl` ran and printed this (the status code, if any).
    Finished(String),
    /// `curl` could not be run for another reason.
    Failed,
}

/// The mathematical content of a [`CurlOutcome`].
pub enum CurlOutcomeView {
    NotInstalled,
    Finished(Seq<char>),
    Failed,
}

impl View for CurlOutcome {
    type V = CurlOutcomeView;

    open spec fn view(&self) -> CurlOutcomeView {
        match self {
            CurlOutcome::NotInstalled => CurlOutcomeView::NotInstalled,
            CurlOutcome::Finished(s) => CurlOutcomeView::Finished(s@),
            CurlOutcome::Failed => CurlOutcomeView::Failed,
        }
    }
}

/// The arguments of `curl`: silent, body discarded, only the status code
/// printed, at most ten seconds per request.
pub open spec fn curl_args_text(url: Seq<char>) -> Seq<Seq<char>> {
    seq!["-s"@, "-o"@, "/dev/null"@, "-w"@, "%{http_code}"@, "--max-time"@, "10"@, url]
}

/// The detail when `curl` is missing.
pub open spec fn no_curl_text() -> Seq<char> {
    "curl is not installed \u{2014} wait_for_url requires curl"@
}

/// The detail of a successful wait.
pub open spec fn answered_text(url: Seq<char>, code: u16) -> Seq<char> {
    url + " returned status "@ + decimal(code as nat)
}

/// The detail of a wait that timed out.
pub open spec fn unanswered_text(url: Seq<char>, expected: u16) -> Seq<char> {
    url + " did not return status "@ + decimal(expected as nat)
}

/// The pause between two requests: two seconds.
pub open spec fn retry_pause() -> Span {
    Span { secs: 2, nanos: 0 }
}

/// Whether `curl` printed the expected status code (surrounding white
/// space aside).
pub open spec fn got_status(outcome: CurlOutcomeView, expected: u16) -> bool {
    outcome matches CurlOutcomeView::Finished(out) && parse_u16_text(trim(out)) == Some(expected)
}

/// What follows one run of `curl`.
pub open spec fn step_after_request(
    url: Seq<char>,
    expected: u16,
    outcome: CurlOutcomeView,
    elapsed: Span,
    timeout_secs: u64,
) -> PollStepView {
    if outcome is NotInstalled {
        PollStepView::Done(result_view(WaitStatus::Error, elapsed, Some(no_curl_text())))
    } else if got_status(outcome, expected) {
        PollStepView::Done(result_view(WaitStatus::Success, elapsed, Some(answered_text(url, expected))))
    } else if elapsed.at_least_secs(timeout_secs) {
        PollStepView::Done(result_view(WaitStatus::Timeout, elapsed, Some(unanswered_text(url, expected))))
    } else {
        PollStepView::Sleep(retry_pause())
    }
}

/// The arguments that `curl` is run with for `url`.
pub fn curl_args(url: &str) -> (args: Vec<String>)
    ensures
        texts(args@) == curl_args_text(url@),
{
    let mut args: Vec<String> = Vec::new();
    args.push(owned("-s"));
    args.push(owned("-o"));
    args.push(owned("/dev/null"));
    args.push(owned("-w"));
    args.push(owned("%{http_code}"));
    args.push(owned("--max-time"));
    args.push(owned("10"));
    args.push(owned(url));
    assert(texts(args@) =~= curl_args_text(url@));
    args
}

fn url_text(url: &str, middle: &str, code: u16) -> (s: String)
    ensures
        s@ == url@ + middle@ + decimal(code as nat),
{
    let mut s = owned(url);
    s.append(middle);
    let digits = decimal_string(code as u64);
    s.append(digits.as_str());
    s
}

/// Decides what follows one run of `curl` made `elapsed` after the wait
/// began, with a limit of `timeout_secs` seconds.
pub fn after_request(
    url: &str,
    expected: u16,
    outcome: &CurlOutcome,
    elapsed: Span,
    timeout_secs: u64,
) -> (step: PollStep)
    requires
        elapsed.wf(),
    ensures
        step@ == step_after_request(url@, expected, outcome@, elapsed, timeout_secs),
{
    match outcome {
        CurlOutcome::NotInstalled => {
            let d = owned("curl is not installed \u{2014} wait_for_url requires curl");
            return PollStep::Done(WaitResult::error(elapsed, Some(d)));
        },
        CurlOutcome::Finished(out) => {
            let t = trimmed(out.as_str());
            if let Some(code) = parse_u16(t.as_str()) {
                if code == expected {
                    let d = url_text(url, " returned status ", code);
                    return PollStep::Done(WaitResult::success(elapsed, Some(d)));
                }
            }
        },
        CurlOutcome::Failed => {},
    }
    if elapsed.reached(timeout_secs) {
        let d = url_text(url, " did not return status ", expected);
        return PollStep::Done(WaitResult::timeout(elapsed, Some(d)));
    }
    PollStep::Sleep(Span { secs: 2, nanos: 0 })
}


/// A URL wait succeeds only when `curl` printed exactly the expected status
/// (white space aside), and then reports that status. Any other status, or a
/// failed run, means another request two seconds later while the limit is
/// not reached, and a timeout naming the expected status once it is; a
/// missing `curl` is an error at once.
pub proof fn law_url_success_only_on_expected_status(
    url: Seq<char>,
    expected: u16,
    outcome: CurlOutcomeView,
    elapsed: Span,
    timeout_secs: u64,
)
    ensures
        ({
            let step = step_after_request(url, expected, outcome, elapsed, timeout_secs);
            let matched = outcome is Finished && parse_u16_text(trim(outcome->Finished_0)) == Some(expected);
            &&& (step is Done && step->Done_0.status == WaitStatus::Success) ==> matched
            &&& matched ==> step == PollStepView::Done(
                result_view(WaitStatus::Success, elapsed, Some(url + " returned status "@ + decimal(expected as nat))),
            )
            &&& (!(outcome is NotInstalled) && !matched && !elapsed.at_least_secs(timeout_secs))
                ==> step == PollStepView::Sleep(Span { secs: 2, nanos: 0 })
            &&& (!(outcome is NotInstalled) && !matched && elapsed.at_least_secs(timeout_secs))
                ==> step == PollStepView::Done(
                result_view(WaitStatus::Timeout, elapsed, Some(url + " did not return status "@ + decimal(expected as nat))),
            )
            &&& outcome is NotInstalled ==> (step is Done && step->Done_0.status == WaitStatus::Error)
        }),
{
}


/// The messages of a URL wait: a missing `curl` is named as such, and
/// `curl` is asked for the status code only, within ten seconds.
pub proof fn law_url_messages(url: Seq<char>)
    ensures
        no_curl_text() == "curl is not installed \u{2014} wait_for_url requires curl"@,
        curl_args_text(url) == seq!["-s"@, "-o"@, "/dev/null"@, "-w"@, "%{http_code}"@, "--max-time"@, "10"@, url],
{
}

} // verus!
