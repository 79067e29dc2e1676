//! Waiting until a TCP port accepts connections.

use vstd::prelude::*;
use crate::text::{decimal, decimal_string, push_char};
use crate::tools::{PollStep, PollStepView, Span, WaitResult, WaitStatus, result_view};

verus! {

/// `host:port`, the address that is dialled.
pub open spec fn address_text(host: Seq<char>, port: u16) -> Seq<char> {
    host + seq![':'] + decimal(port as nat)
}

/// The detail of a successful wait.
pub open spec fn ready_text(host: Seq<char>, port: u16) -> Seq<char> {
    address_text(host, port) + " is accepting connections"@
}

/// The detail of a wait that timed out.
pub open spec fn refused_text(host: Seq<char>, port: u16) -> Seq<char> {
    address_text(host, port) + " did not accept connections"@
}

/// The pause between two connection attempts: half a second.
pub open spec fn retry_pause() -> Span {
    Span { secs: 0, nanos: 500_000_000 }
}

/// What follows a connection attempt: success when it connected, else a
/// timeout once the limit is reached, else another attempt after a pause.
pub open spec fn step_after_attempt(
    host: Seq<char>,
    port: u16,
    connected: bool,
    elapsed: Span,
    timeout_secs: u64,
) -> PollStepView {
    if connected {
        PollStepView::Done(result_view(WaitStatus::Success, elapsed, Some(ready_text(host, port))))
    } else if elapsed.at_least_secs(timeout_secs) {
        PollStepView::Done(result_view(WaitStatus::Timeout, elapsed, Some(refused_text(host, port))))
    } else {
        PollStepView::Sleep(retry_pause())
    }
}

/// The address `host:port` that a connection attempt dials.
pub fn address(host: &str, port: u16) -> (a: String)
    ensures
        a@ == address_text(host@, port),
{
    let mut a = String::from_str(host);
    push_char(&mut a, ':');
    let digits = decimal_string(port as u64);
    a.append(digits.as_str());
    a
}

/// Decides what follows one connection attempt made `elapsed` after the
/// wait began, with a limit of `timeout_secs` seconds.
pub fn after_attempt(host: &str, port: u16, connected: bool, elapsed: Span, timeout_secs: u64) -> (step: PollStep)
    requires
        elapsed.wf(),
    ensures
        step@ == step_after_attempt(host@, port, connected, elapsed, timeout_secs),
{
    if connected {
        let mut d = address(host, port);
        d.append(" is accepting connections");
        return PollStep::Done(WaitResult::success(elapsed, Some(d)));
    }
    if elapsed.reached(timeout_secs) {
        let mut d = address(host, port);
        d.append(" did not accept connections");
        return PollStep::Done(WaitResult::timeout(elapsed, Some(d)));
    }
    PollStep::Sleep(Span { secs: 0, nanos: 500_000_000 })
}


/// A port wait ends with success exactly when the attempt connected, even
/// past the limit, naming `host:port`; an attempt that did not connect
/// leads to another one half a second later until the limit is reached, and
/// to a timeout once it is.
pub proof fn law_port_success_exactly_when_connected(
    host: Seq<char>,
    port: u16,
    connected: bool,
    elapsed: Span,
    timeout_secs: u64,
)
    ensures
        ({
            let step = step_after_attempt(host, port, connected, elapsed, timeout_secs);
            let at = host + seq![':'] + decimal(port as nat);
            &&& (step is Done && step->Done_0.status == WaitStatus::Success) <==> connected
            &&& connected ==> step == PollStepView::Done(
                result_view(WaitStatus::Success, elapsed, Some(at + " is accepting connections"@)),
            )
            &&& (!connected && elapsed.at_least_secs(timeout_secs)) ==> step == PollStepView::Done(
                result_view(WaitStatus::Timeout, elapsed, Some(at + " did not accept connections"@)),
            )
            &&& (!connected && !elapsed.at_least_secs(timeout_secs))
                ==> step == PollStepView::Sleep(Span { secs: 0, nanos: 500_000_000 })
        }),
{
}

} // verus!
