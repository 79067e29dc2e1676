use mcp_await::tools::{PollStep, Span, WaitResult, WaitStatus};

fn seconds(s: Span) -> f64 {
    s.secs as f64 + s.nanos as f64 / 1e9
}

#[test]
fn wait_result_success_fields() {
    let r = WaitResult::success(Span::from_secs(1), Some("ok".to_string()));
    assert_eq!(r.status, WaitStatus::Success);
    assert!((seconds(r.elapsed) - 1.0).abs() < 0.01);
    assert_eq!(r.detail.as_deref(), Some("ok"));
}

#[test]
fn wait_result_timeout_fields() {
    let r = WaitResult::timeout(Span::from_millis(2500), None);
    assert_eq!(r.status, WaitStatus::Timeout);
    assert!((seconds(r.elapsed) - 2.5).abs() < 0.01);
    assert!(r.detail.is_none());
}

#[test]
fn wait_result_error_fields() {
    let r = WaitResult::error(Span::zero(), Some("boom".to_string()));
    assert_eq!(r.status, WaitStatus::Error);
    assert_eq!(r.detail.as_deref(), Some("boom"));
}

#[test]
fn into_call_tool_result_success_vs_error() {
    let success = WaitResult::success(Span::zero(), None);
    assert!(!success.is_error());

    let error = WaitResult::error(Span::zero(), Some("fail".to_string()));
    assert!(error.is_error());

    let timeout = WaitResult::timeout(Span::zero(), None);
    assert!(!timeout.is_error());
}

#[test]
fn exit_codes_follow_status() {
    assert_eq!(WaitResult::success(Span::zero(), None).exit_code(), 0);
    assert_eq!(WaitResult::timeout(Span::zero(), None).exit_code(), 1);
    assert_eq!(WaitResult::error(Span::zero(), None).exit_code(), 2);
    assert_eq!(WaitResult::cancelled(Span::zero()).exit_code(), 2);
}

#[test]
fn cancelled_is_an_error_saying_cancelled() {
    let r = WaitResult::cancelled(Span::from_millis(200));
    assert_eq!(r.status, WaitStatus::Error);
    assert_eq!(r.detail.as_deref(), Some("cancelled"));
    assert_eq!(r.elapsed, Span { secs: 0, nanos: 200_000_000 });
}

#[test]
fn span_reaches_whole_seconds() {
    assert!(!Span { secs: 0, nanos: 999_999_999 }.reached(1));
    assert!(Span { secs: 1, nanos: 0 }.reached(1));
    assert!(Span { secs: 7, nanos: 5 }.reached(3));
    assert!(Span::zero().reached(0));
    assert_eq!(Span::from_millis(1_234), Span { secs: 1, nanos: 234_000_000 });
}

#[test]
fn poll_step_sleep_is_distinct_from_done() {
    let s = PollStep::Sleep(Span::from_millis(500));
    assert!(matches!(s, PollStep::Sleep(Span { secs: 0, nanos: 500_000_000 })));
}
