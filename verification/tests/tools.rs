// Each wait below is driven through the library's decision functions with
// what the probe (a dial, a look at /proc, curl, sh, docker, gh, the file
// watcher) reported in the scenario, and what the loop does next is checked.

use mcp_await::tools::command::{shell_args, CommandPoll, RunOutcome};
use mcp_await::tools::docker::{docker_args, finish as docker_finish, spawn_failed as docker_spawn_failed};
use mcp_await::tools::file::{
    already_satisfied, check_event, missing_directory, on_change, precheck, timed_out, watch_failed,
    watcher_failed, ChangeKind, FileEvent,
};
use mcp_await::tools::ghrun::{finish as gh_finish, gh_args, spawn_failed as gh_spawn_failed};
use mcp_await::tools::pid::{after_check, initial_check, proc_path};
use mcp_await::tools::port::{address, after_attempt};
use mcp_await::tools::url::{after_request, curl_args, CurlOutcome};
use mcp_await::tools::{ChildEnd, PollStep, Span, WaitResult, WaitStatus};

fn secs(s: u64) -> Span {
    Span::from_secs(s)
}

fn ms(m: u64) -> Span {
    Span::from_millis(m)
}

fn seconds(s: Span) -> f64 {
    s.secs as f64 + s.nanos as f64 / 1e9
}

fn done(step: PollStep) -> WaitResult {
    match step {
        PollStep::Done(r) => r,
        PollStep::Sleep(_) => panic!("expected the wait to end"),
    }
}

fn pause(step: PollStep) -> Span {
    match step {
        PollStep::Sleep(p) => p,
        PollStep::Done(r) => panic!("expected another attempt, got {:?}", r.detail),
    }
}

fn exited(code: i32, stdout: &str, stderr: &str) -> RunOutcome {
    RunOutcome::Exited {
        success: code == 0,
        code: Some(code),
        stdout: stdout.to_string(),
        stderr: stderr.to_string(),
    }
}

// --- command ---

/// Runs the command loop over the outcomes of successive runs, one second
/// apart, until it ends or the clock reaches the timeout.
fn run_command(outcomes: &[RunOutcome], pattern: Option<&str>, interval: u64, timeout: u64) -> WaitResult {
    let mut poll = CommandPoll::new();
    let mut clock = 0u64;
    let mut k = 0usize;
    loop {
        if let Some(r) = poll.before_run(secs(clock), timeout) {
            return r;
        }
        let outcome = &outcomes[k.min(outcomes.len() - 1)];
        k += 1;
        match poll.after_run(outcome, pattern, secs(clock), interval) {
            PollStep::Done(r) => return r,
            PollStep::Sleep(p) => clock += p.secs,
        }
    }
}

#[test]
fn command_immediate_success() {
    let r = run_command(&[exited(0, "", "")], None, 1, 5);
    assert_eq!(r.status, WaitStatus::Success);
    assert!(seconds(r.elapsed) < 1.0);
    assert_eq!(r.detail.as_deref(), Some("Command exited with code 0"));
}

#[test]
fn command_timeout_on_failure() {
    let r = run_command(&[exited(1, "", "")], None, 1, 2);
    assert_eq!(r.status, WaitStatus::Timeout);
    assert!(r.detail.as_deref().unwrap().contains("Last: exit 1"));
    assert_eq!(r.detail.as_deref(), Some("Command did not exit 0 within timeout. Last: exit 1"));
}

#[test]
fn command_timeout_includes_last_stderr() {
    let r = run_command(&[exited(1, "", "something went wrong\n")], None, 1, 2);
    assert_eq!(r.status, WaitStatus::Timeout);
    let detail = r.detail.as_deref().unwrap();
    assert!(detail.contains("something went wrong"), "got: {}", detail);
    assert_eq!(detail, "Command did not exit 0 within timeout. Last: exit 1: something went wrong");
}

#[test]
fn command_stdout_captured() {
    let r = run_command(&[exited(0, "hello_world\n", "")], None, 1, 5);
    assert_eq!(r.status, WaitStatus::Success);
    assert!(r.detail.as_deref().unwrap().contains("hello_world"));
    assert_eq!(r.detail.as_deref(), Some("hello_world"));
}

#[test]
fn command_abort_pattern_triggers() {
    let r = run_command(&[exited(1, "status: failed\n", "")], Some("failed"), 1, 30);
    assert_eq!(r.status, WaitStatus::Error);
    let detail = r.detail.as_deref().unwrap();
    assert!(detail.contains("Abort pattern"), "got: {}", detail);
    assert!(detail.contains("failed"), "got: {}", detail);
    assert_eq!(detail, "Abort pattern 'failed' matched: exit 1: status: failed");
}

#[test]
fn command_abort_pattern_no_match_continues() {
    let r = run_command(&[exited(0, "ok\n", "")], Some("fatal"), 1, 5);
    assert_eq!(r.status, WaitStatus::Success);
}

#[test]
fn command_abort_pattern_matches_stderr() {
    let r = run_command(&[exited(1, "", "FATAL: pipeline broken\n")], Some("FATAL"), 1, 30);
    assert_eq!(r.status, WaitStatus::Error);
    let detail = r.detail.as_deref().unwrap();
    assert!(detail.contains("FATAL"), "got: {}", detail);
}

#[test]
fn command_cancellation() {
    let mut poll = CommandPoll::new();
    assert!(poll.before_run(secs(0), 300).is_none());
    let p = pause(poll.after_run(&exited(1, "", ""), None, secs(0), 60));
    assert_eq!(p, secs(60));
    let r = WaitResult::cancelled(ms(200));
    assert_eq!(r.status, WaitStatus::Error);
    assert!(r.detail.as_deref().unwrap().contains("cancelled"));
}

#[test]
fn command_abort_pattern_miss_keeps_waiting() {
    let mut poll = CommandPoll::new();
    let p = pause(poll.after_run(&exited(3, "still booting\n", ""), Some("fatal"), secs(0), 2));
    assert_eq!(p, secs(2));
    assert_eq!(poll.last_output, "exit 3: still booting");
}

#[test]
fn command_without_exit_code_counts_as_minus_one() {
    let mut poll = CommandPoll::new();
    let killed = RunOutcome::Exited { success: false, code: None, stdout: String::new(), stderr: String::new() };
    pause(poll.after_run(&killed, None, secs(0), 1));
    assert_eq!(poll.last_output, "exit -1");
}

#[test]
fn command_spawn_failure_is_an_error() {
    let mut poll = CommandPoll::new();
    let r = done(poll.after_run(&RunOutcome::SpawnFailed("No such file".to_string()), None, secs(0), 1));
    assert_eq!(r.status, WaitStatus::Error);
    assert_eq!(r.detail.as_deref(), Some("Failed to execute command: No such file"));
    assert_eq!(poll.last_output, "(no output)");
}

#[test]
fn command_timeout_before_any_run_says_no_output() {
    let poll = CommandPoll::new();
    let r = poll.before_run(secs(0), 0).unwrap();
    assert_eq!(r.status, WaitStatus::Timeout);
    assert_eq!(r.detail.as_deref(), Some("Command did not exit 0 within timeout. Last: (no output)"));
}

#[test]
fn command_runs_through_sh() {
    assert_eq!(shell_args("test -f /tmp/ready"), vec!["-c".to_string(), "test -f /tmp/ready".to_string()]);
}

// --- file ---

#[test]
fn file_already_exists() {
    let path = "/tmp/dir/existing.txt";
    let e = check_event("create", secs(0)).unwrap();
    let r = already_satisfied(path, e, true, secs(0)).unwrap();
    assert_eq!(r.status, WaitStatus::Success);
    assert!(r.detail.as_deref().unwrap().contains("already exists"));
}

#[test]
fn file_already_absent() {
    let path = "/tmp/dir/nonexistent.txt";
    let e = check_event("delete", secs(0)).unwrap();
    let r = already_satisfied(path, e, false, secs(0)).unwrap();
    assert_eq!(r.status, WaitStatus::Success);
    assert!(r.detail.as_deref().unwrap().contains("already absent"));
}

#[test]
fn file_create_event() {
    let path = "/tmp/dir/new_file.txt";
    let e = check_event("create", secs(0)).unwrap();
    assert!(already_satisfied(path, e, false, secs(0)).is_none());
    assert!(on_change(path, e, ChangeKind::Created, false, ms(300)).is_none());
    let r = on_change(path, e, ChangeKind::Created, true, ms(300)).unwrap();
    assert_eq!(r.status, WaitStatus::Success);
    assert_eq!(r.detail.as_deref(), Some("create event detected on /tmp/dir/new_file.txt"));
}

#[test]
fn file_modify_event() {
    let path = "/tmp/dir/mod_file.txt";
    let e = check_event("modify", secs(0)).unwrap();
    assert!(already_satisfied(path, e, true, secs(0)).is_none());
    assert!(on_change(path, e, ChangeKind::Other, true, ms(300)).is_none());
    let r = on_change(path, e, ChangeKind::Modified, true, ms(300)).unwrap();
    assert_eq!(r.status, WaitStatus::Success);
}

#[test]
fn file_invalid_event() {
    let r = check_event("foobar", secs(0)).unwrap_err();
    assert_eq!(r.status, WaitStatus::Error);
    assert!(r.detail.as_deref().unwrap().contains("Invalid event type"));
    assert_eq!(r.detail.as_deref(), Some("Invalid event type 'foobar'. Must be create, modify, or delete"));
}

#[test]
fn file_parent_dir_missing() {
    let r = missing_directory("/no/such/dir", secs(0));
    assert_eq!(r.status, WaitStatus::Error);
    assert!(r.detail.as_deref().unwrap().contains("does not exist"));
}

#[test]
fn file_event_names_and_timeouts() {
    assert_eq!(check_event("delete", secs(0)).unwrap(), FileEvent::Delete);
    let r = timed_out("/tmp/x", FileEvent::Delete, secs(5));
    assert_eq!(r.status, WaitStatus::Timeout);
    assert_eq!(r.detail.as_deref(), Some("No delete event on /tmp/x within timeout"));
    assert!(on_change("/tmp/x", FileEvent::Delete, ChangeKind::Modified, true, secs(1)).is_none());
    assert!(on_change("/tmp/x", FileEvent::Delete, ChangeKind::Removed, true, secs(1)).is_some());
    assert_eq!(watcher_failed("inotify limit", secs(0)).detail.as_deref(), Some("Failed to create file watcher: inotify limit"));
    assert_eq!(watch_failed("/tmp", "denied", secs(0)).detail.as_deref(), Some("Failed to watch /tmp: denied"));
}

// --- pid ---

#[test]
fn pid_already_exited() {
    assert_eq!(proc_path(u32::MAX), "/proc/4294967295");
    let r = initial_check(u32::MAX, false, secs(0)).unwrap();
    assert_eq!(r.status, WaitStatus::Success);
    assert!(r.detail.as_deref().unwrap().contains("already exited"));
}

#[test]
fn pid_current_process_timeout() {
    assert!(initial_check(1234, true, secs(0)).is_none());
    assert_eq!(pause(after_check(1234, true, ms(500), 1)), ms(500));
    let r = done(after_check(1234, true, secs(1), 1));
    assert_eq!(r.status, WaitStatus::Timeout);
    assert_eq!(r.detail.as_deref(), Some("Process 1234 still running"));
}

#[test]
fn pid_cancellation() {
    assert_eq!(pause(after_check(1234, true, ms(100), 30)), ms(500));
    let r = WaitResult::cancelled(ms(200));
    assert_eq!(r.status, WaitStatus::Error);
    assert!(r.detail.as_deref().unwrap().contains("cancelled"));
}

#[test]
fn pid_exit_during_wait() {
    let r = done(after_check(42, false, secs(3), 1));
    assert_eq!(r.status, WaitStatus::Success);
    assert_eq!(r.detail.as_deref(), Some("Process 42 has exited"));
}

// --- port ---

#[test]
fn port_already_listening() {
    let r = done(after_attempt("127.0.0.1", 8080, true, ms(3), 5));
    assert_eq!(r.status, WaitStatus::Success);
    assert!(seconds(r.elapsed) < 2.0);
    assert_eq!(r.detail.as_deref(), Some("127.0.0.1:8080 is accepting connections"));
}

#[test]
fn port_timeout_no_listener() {
    assert_eq!(address("127.0.0.1", 19111), "127.0.0.1:19111");
    assert_eq!(pause(after_attempt("127.0.0.1", 19111, false, secs(0), 1)), ms(500));
    let r = done(after_attempt("127.0.0.1", 19111, false, ms(1001), 1));
    assert_eq!(r.status, WaitStatus::Timeout);
    assert_eq!(r.detail.as_deref(), Some("127.0.0.1:19111 did not accept connections"));
}

#[test]
fn port_delayed_listen() {
    pause(after_attempt("127.0.0.1", 40000, false, secs(0), 5));
    let r = done(after_attempt("127.0.0.1", 40000, true, ms(600), 5));
    assert_eq!(r.status, WaitStatus::Success);
    assert!(seconds(r.elapsed) >= 0.5);
}

#[test]
fn port_cancellation() {
    pause(after_attempt("127.0.0.1", 19112, false, secs(0), 30));
    let r = WaitResult::cancelled(ms(200));
    assert_eq!(r.status, WaitStatus::Error);
    assert!(r.detail.as_deref().unwrap().contains("cancelled"));
}

#[test]
fn port_connect_wins_over_timeout() {
    let r = done(after_attempt("db", 5432, true, secs(100), 30));
    assert_eq!(r.status, WaitStatus::Success);
}

// --- url ---

#[test]
fn url_success_localhost() {
    let url = "http://127.0.0.1:40001";
    let r = done(after_request(url, 200, &CurlOutcome::Finished("200".to_string()), ms(20), 10));
    assert_eq!(r.status, WaitStatus::Success);
    assert_eq!(r.detail.as_deref(), Some("http://127.0.0.1:40001 returned status 200"));
}

#[test]
fn url_timeout_bad_port() {
    let url = "http://127.0.0.1:19222";
    assert_eq!(pause(after_request(url, 200, &CurlOutcome::Finished("000".to_string()), secs(0), 3)), secs(2));
    let r = done(after_request(url, 200, &CurlOutcome::Finished("000".to_string()), secs(4), 3));
    assert_eq!(r.status, WaitStatus::Timeout);
    assert_eq!(r.detail.as_deref(), Some("http://127.0.0.1:19222 did not return status 200"));
}

#[test]
fn url_missing_curl_and_other_statuses() {
    let r = done(after_request("http://x", 200, &CurlOutcome::NotInstalled, secs(0), 3));
    assert_eq!(r.status, WaitStatus::Error);
    assert_eq!(r.detail.as_deref(), Some("curl is not installed \u{2014} wait_for_url requires curl"));
    let r = done(after_request("http://x", 404, &CurlOutcome::Finished(" 404\n".to_string()), secs(0), 3));
    assert_eq!(r.detail.as_deref(), Some("http://x returned status 404"));
    pause(after_request("http://x", 200, &CurlOutcome::Finished("503".to_string()), secs(0), 3));
    pause(after_request("http://x", 200, &CurlOutcome::Failed, secs(0), 3));
    assert_eq!(curl_args("http://x").len(), 8);
    assert_eq!(curl_args("http://x")[4], "%{http_code}");
    assert_eq!(curl_args("http://x")[7], "http://x");
}

// --- docker ---

#[test]
fn docker_outcomes() {
    assert_eq!(docker_args("web"), vec!["wait".to_string(), "web".to_string()]);
    let ok = ChildEnd::Exited { success: true, stdout: "0\n".to_string(), stderr: String::new() };
    let r = docker_finish("web", &ok, secs(3));
    assert_eq!(r.status, WaitStatus::Success);
    assert_eq!(r.detail.as_deref(), Some("Container web exited with code 0"));
    let bad = ChildEnd::Exited { success: false, stdout: String::new(), stderr: "Error: No such container: web\n".to_string() };
    let r = docker_finish("web", &bad, secs(0));
    assert_eq!(r.status, WaitStatus::Error);
    assert_eq!(r.detail.as_deref(), Some("docker wait failed: Error: No such container: web"));
    let r = docker_finish("web", &ChildEnd::TimedOut, secs(600));
    assert_eq!(r.status, WaitStatus::Timeout);
    assert_eq!(r.detail.as_deref(), Some("Container web did not exit within timeout"));
    assert_eq!(docker_finish("web", &ChildEnd::Cancelled, secs(1)).detail.as_deref(), Some("cancelled"));
    assert_eq!(docker_finish("web", &ChildEnd::WaitFailed("io".to_string()), secs(1)).detail.as_deref(), Some("docker wait error: io"));
    assert_eq!(docker_spawn_failed("not found", secs(0)).detail.as_deref(), Some("Failed to run docker: not found"));
}

// --- gh run ---

#[test]
fn gh_run_outcomes() {
    assert_eq!(gh_args("12345678", None), vec!["run", "watch", "12345678", "--exit-status"]);
    assert_eq!(
        gh_args("12345678", Some("owner/repo")),
        vec!["run", "watch", "12345678", "--exit-status", "--repo", "owner/repo"]
    );
    let passed = ChildEnd::Exited { success: true, stdout: "done\n".to_string(), stderr: String::new() };
    let r = gh_finish("1", &passed, secs(9));
    assert_eq!(r.status, WaitStatus::Success);
    assert_eq!(r.detail.as_deref(), Some("Run 1 completed successfully. done"));
    let failed = ChildEnd::Exited { success: false, stdout: " \n".to_string(), stderr: "run failed\n".to_string() };
    let r = gh_finish("1", &failed, secs(9));
    assert_eq!(r.status, WaitStatus::Success);
    assert_eq!(r.detail.as_deref(), Some("Run 1 completed with failure. run failed"));
    let r = gh_finish("1", &ChildEnd::TimedOut, secs(1800));
    assert_eq!(r.status, WaitStatus::Timeout);
    assert_eq!(r.detail.as_deref(), Some("Run 1 did not complete within timeout"));
    assert_eq!(gh_spawn_failed("missing", secs(0)).detail.as_deref(), Some("Failed to run gh: missing"));
    assert_eq!(gh_finish("1", &ChildEnd::WaitFailed("io".to_string()), secs(0)).detail.as_deref(), Some("gh run watch error: io"));
}

#[test]
fn file_precheck_order() {
    // A bad event name is reported before anything else.
    let r = precheck("/no/dir/x", "explode", false, "/no/dir", false, secs(0)).unwrap_err();
    assert_eq!(r.status, WaitStatus::Error);
    assert!(r.detail.as_deref().unwrap().contains("Invalid event type"));
    // An already absent file satisfies a delete wait even without its directory.
    let r = precheck("/no/dir/x", "delete", false, "/no/dir", false, secs(0)).unwrap_err();
    assert_eq!(r.status, WaitStatus::Success);
    assert_eq!(r.detail.as_deref(), Some("/no/dir/x already absent"));
    // Otherwise a missing directory ends the wait.
    let r = precheck("/no/dir/x", "create", false, "/no/dir", false, secs(0)).unwrap_err();
    assert_eq!(r.status, WaitStatus::Error);
    assert_eq!(r.detail.as_deref(), Some("Watch directory /no/dir does not exist"));
    assert_eq!(precheck("/tmp/x", "modify", true, "/tmp", true, secs(0)).unwrap(), FileEvent::Modify);
}
