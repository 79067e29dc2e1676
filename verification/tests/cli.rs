// The command-line scenarios, with what each probe reported fed to the
// library's decisions; the exit status is the one the command line ends with.

use mcp_await::tools::command::{CommandPoll, RunOutcome};
use mcp_await::tools::file::{already_satisfied, check_event, missing_directory};
use mcp_await::tools::pid::{after_check, initial_check};
use mcp_await::tools::port::after_attempt;
use mcp_await::tools::url::{after_request, CurlOutcome};
use mcp_await::tools::{PollStep, Span, WaitResult, WaitStatus};

fn run_command(run: RunOutcome, pattern: Option<&str>, interval: u64, timeout: u64) -> WaitResult {
    let mut poll = CommandPoll::new();
    let mut clock = 0u64;
    loop {
        if let Some(r) = poll.before_run(Span::from_secs(clock), timeout) {
            return r;
        }
        match poll.after_run(&run, pattern, Span::from_secs(clock), interval) {
            PollStep::Done(r) => return r,
            PollStep::Sleep(p) => clock += p.secs,
        }
    }
}

fn exited(code: i32, stdout: &str, stderr: &str) -> RunOutcome {
    RunOutcome::Exited { success: code == 0, code: Some(code), stdout: stdout.to_string(), stderr: stderr.to_string() }
}

fn done(step: PollStep) -> WaitResult {
    match step {
        PollStep::Done(r) => r,
        PollStep::Sleep(_) => panic!("expected the wait to end"),
    }
}

#[test]
fn cli_port_success() {
    let r = done(after_attempt("127.0.0.1", 41000, true, Span::zero(), 5));
    assert_eq!(r.exit_code(), 0);
    assert_eq!(r.status, WaitStatus::Success);
}

#[test]
fn cli_port_timeout() {
    let r = done(after_attempt("127.0.0.1", 19333, false, Span::from_secs(1), 1));
    assert_eq!(r.exit_code(), 1);
    assert_eq!(r.status, WaitStatus::Timeout);
}

#[test]
fn cli_cmd_success() {
    let r = run_command(exited(0, "", ""), None, 5, 5);
    assert_eq!(r.exit_code(), 0);
}

#[test]
fn cli_cmd_timeout() {
    let r = run_command(exited(1, "", ""), None, 1, 2);
    assert_eq!(r.exit_code(), 1);
    assert_eq!(r.status, WaitStatus::Timeout);
}

#[test]
fn cli_cmd_timeout_shows_last_output() {
    let r = run_command(exited(1, "", "db not ready\n"), None, 1, 2);
    assert_eq!(r.exit_code(), 1);
    assert!(r.detail.as_deref().unwrap().contains("db not ready"));
}

#[test]
fn cli_cmd_abort_pattern_triggers() {
    let r = run_command(exited(1, "conclusion: failed\n", ""), Some("failed"), 1, 30);
    assert_eq!(r.exit_code(), 2);
    assert!(r.detail.as_deref().unwrap().contains("Abort pattern"));
}

#[test]
fn cli_cmd_abort_pattern_stderr() {
    let r = run_command(exited(1, "", "FATAL: broken\n"), Some("FATAL"), 1, 30);
    assert_eq!(r.exit_code(), 2);
    assert!(r.detail.as_deref().unwrap().contains("FATAL"));
}

#[test]
fn cli_cmd_abort_pattern_no_match_still_succeeds() {
    let r = run_command(exited(0, "ok\n", ""), Some("fatal"), 1, 5);
    assert_eq!(r.exit_code(), 0);
    assert_eq!(r.status, WaitStatus::Success);
}

#[test]
fn cli_cmd_captures_stdout() {
    let r = run_command(exited(0, "hello_from_cmd\n", ""), None, 5, 5);
    assert_eq!(r.exit_code(), 0);
    assert!(r.detail.as_deref().unwrap().contains("hello_from_cmd"));
}

#[test]
fn cli_file_already_exists() {
    let e = check_event("create", Span::zero()).unwrap();
    let r = already_satisfied("/tmp/t/existing.txt", e, true, Span::zero()).unwrap();
    assert_eq!(r.exit_code(), 0);
}

#[test]
fn cli_file_already_absent() {
    let e = check_event("delete", Span::zero()).unwrap();
    let r = already_satisfied("/tmp/t/nonexistent.txt", e, false, Span::zero()).unwrap();
    assert_eq!(r.exit_code(), 0);
}

#[test]
fn cli_file_invalid_event() {
    let r = check_event("explode", Span::zero()).unwrap_err();
    assert_eq!(r.exit_code(), 2);
    assert_eq!(r.status, WaitStatus::Error);
}

#[test]
fn cli_file_parent_dir_missing() {
    let e = check_event("create", Span::zero()).unwrap();
    assert!(already_satisfied("/nonexistent_dir_12345/file.txt", e, false, Span::zero()).is_none());
    let r = missing_directory("/nonexistent_dir_12345", Span::zero());
    assert_eq!(r.exit_code(), 2);
}

#[test]
fn cli_pid_already_exited() {
    let r = initial_check(4999999, false, Span::zero()).unwrap();
    assert_eq!(r.exit_code(), 0);
}

#[test]
fn cli_pid_current_process_timeout() {
    assert!(initial_check(1, true, Span::zero()).is_none());
    let r = done(after_check(1, true, Span::from_secs(1), 1));
    assert_eq!(r.exit_code(), 1);
}

#[test]
fn cli_url_timeout_no_server() {
    let r = done(after_request("http://127.0.0.1:19444/health", 200, &CurlOutcome::Finished("000".to_string()), Span::from_secs(2), 2));
    assert_eq!(r.exit_code(), 1);
}

#[test]
fn cli_url_success_with_listener() {
    let r = done(after_request("http://127.0.0.1:41001/", 200, &CurlOutcome::Finished("200".to_string()), Span::zero(), 10));
    assert_eq!(r.exit_code(), 0);
}
