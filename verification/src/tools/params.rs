//! The parameters of each tool call, with the defaults that fill in what a
//! caller leaves out.

use vstd::prelude::*;
use crate::text::owned;

verus! {

/// The time limit, in seconds, of a wait whose caller names none.
pub const DEFAULT_TIMEOUT: u64 = 300;

/// The pause, in seconds, between two runs of a command when none is named.
pub const DEFAULT_INTERVAL: u64 = 5;

/// The HTTP status that a URL wait expects when none is named.
pub const DEFAULT_STATUS: u16 = 200;

/// A time limit as given, or the default one.
pub open spec fn timeout_or_default(t: Option<u64>) -> u64 {
    match t {
        Some(t) => t,
        None => DEFAULT_TIMEOUT,
    }
}

/// Whether a call blocks: as given, blocking when not given.
pub open spec fn blocking_or_default(b: Option<bool>) -> bool {
    match b {
        Some(b) => b,
        None => true,
    }
}

fn timeout_of(t: Option<u64>) -> (r: u64)
    ensures
        r == timeout_or_default(t),
{
    match t {
        Some(t) => t,
        None => DEFAULT_TIMEOUT,
    }
}

fn blocking_of(b: Option<bool>) -> (r: bool)
    ensures
        r == blocking_or_default(b),
{
    match b {
        Some(b) => b,
        None => true,
    }
}

/// Waiting for a TCP port.
pub struct PortParams {
    pub host: String,
    pub port: u16,
    pub timeout_seconds: Option<u64>,
    pub blocking: Option<bool>,
}

/// Waiting for a filesystem event.
pub struct FileParams {
    pub path: String,
    pub event: String,
    pub timeout_seconds: Option<u64>,
    pub blocking: Option<bool>,
}

/// Waiting for an HTTP status.
pub struct UrlParams {
    pub url: String,
    pub expected_status: Option<u16>,
    pub timeout_seconds: Option<u64>,
    pub blocking: Option<bool>,
}

/// Waiting for a process to exit.
pub struct PidParams {
    pub pid: u32,
    pub timeout_seconds: Option<u64>,
    pub blocking: Option<bool>,
}

/// Waiting for a container to exit.
pub struct DockerParams {
    pub container: String,
    pub timeout_seconds: Option<u64>,
    pub blocking: Option<bool>,
}

/// Waiting for a GitHub Actions run.
pub struct GhRunParams {
    pub run_id: String,
    pub repo: Option<String>,
    pub timeout_seconds: Option<u64>,
    pub blocking: Option<bool>,
}

/// Waiting for a command to succeed.
pub struct CommandParams {
    pub command: String,
    pub interval_seconds: Option<u64>,
    pub timeout_seconds: Option<u64>,
    pub blocking: Option<bool>,
}

/// Cancelling a non-blocking watch.
pub struct CancelWatchParams {
    pub watch_id: String,
}

impl PortParams {
    /// The time limit in seconds.
    pub fn timeout_secs(&self) -> (t: u64)
        ensures
            t == timeout_or_default(self.timeout_seconds),
    {
        timeout_of(self.timeout_seconds)
    }

    /// Whether the call waits before answering.
    pub fn is_blocking(&self) -> (b: bool)
        ensures
            b == blocking_or_default(self.blocking),
    {
        blocking_of(self.blocking)
    }

    /// The tool name that prefixes watch ids: `port`.
    pub fn tool_name(&self) -> (n: String)
        ensures
            n@ == "port"@,
    {
        owned("port")
    }
}

impl FileParams {
    /// The time limit in seconds.
    pub fn timeout_secs(&self) -> (t: u64)
        ensures
            t == timeout_or_default(self.timeout_seconds),
    {
        timeout_of(self.timeout_seconds)
    }

    /// Whether the call waits before answering.
    pub fn is_blocking(&self) -> (b: bool)
        ensures
            b == blocking_or_default(self.blocking),
    {
        blocking_of(self.blocking)
    }

    /// The tool name that prefixes watch ids: `file`.
    pub fn tool_name(&self) -> (n: String)
        ensures
            n@ == "file"@,
    {
        owned("file")
    }
}

impl UrlParams {
    /// The time limit in seconds.
    pub fn timeout_secs(&self) -> (t: u64)
        ensures
            t == timeout_or_default(self.timeout_seconds),
    {
        timeout_of(self.timeout_seconds)
    }

    /// Whether the call waits before answering.
    pub fn is_blocking(&self) -> (b: bool)
        ensures
            b == blocking_or_default(self.blocking),
    {
        blocking_of(self.blocking)
    }

    /// The awaited HTTP status: as given, 200 otherwise.
    pub fn status(&self) -> (s: u16)
        ensures
            s == match self.expected_status {
                Some(s) => s,
                None => DEFAULT_STATUS,
            },
    {
        match self.expected_status {
            Some(s) => s,
            None => DEFAULT_STATUS,
        }
    }

    /// The tool name that prefixes watch ids: `url`.
    pub fn tool_name(&self) -> (n: String)
        ensures
            n@ == "url"@,
    {
        owned("url")
    }
}

impl PidParams {
    /// The time limit in seconds.
    pub fn timeout_secs(&self) -> (t: u64)
        ensures
            t == timeout_or_default(self.timeout_seconds),
    {
        timeout_of(self.timeout_seconds)
    }

    /// Whether the call waits before answering.
    pub fn is_blocking(&self) -> (b: bool)
        ensures
            b == blocking_or_default(self.blocking),
    {
        blocking_of(self.blocking)
    }

    /// The tool name that prefixes watch ids: `pid`.
    pub fn tool_name(&self) -> (n: String)
        ensures
            n@ == "pid"@,
    {
        owned("pid")
    }
}

impl DockerParams {
    /// The time limit in seconds.
    pub fn timeout_secs(&self) -> (t: u64)
        ensures
            t == timeout_or_default(self.timeout_seconds),
    {
        timeout_of(self.timeout_seconds)
    }

    /// Whether the call waits before answering.
    pub fn is_blocking(&self) -> (b: bool)
        ensures
            b == blocking_or_default(self.blocking),
    {
        blocking_of(self.blocking)
    }

    /// The tool name that prefixes watch ids: `docker`.
    pub fn tool_name(&self) -> (n: String)
        ensures
            n@ == "docker"@,
    {
        owned("docker")
    }
}

impl GhRunParams {
    /// The time limit in seconds.
    pub fn timeout_secs(&self) -> (t: u64)
        ensures
            t == timeout_or_default(self.timeout_seconds),
    {
        timeout_of(self.timeout_seconds)
    }

    /// Whether the call waits before answering.
    pub fn is_blocking(&self) -> (b: bool)
        ensures
            b == blocking_or_default(self.blocking),
    {
        blocking_of(self.blocking)
    }

    /// The tool name that prefixes watch ids: `ghrun`.
    pub fn tool_name(&self) -> (n: String)
        ensures
            n@ == "ghrun"@,
    {
        owned("ghrun")
    }
}

impl CommandParams {
    /// The time limit in seconds.
    pub fn timeout_secs(&self) -> (t: u64)
        ensures
            t == timeout_or_default(self.timeout_seconds),
    {
        timeout_of(self.timeout_seconds)
    }

    /// Whether the call waits before answering.
    pub fn is_blocking(&self) -> (b: bool)
        ensures
            b == blocking_or_default(self.blocking),
    {
        blocking_of(self.blocking)
    }

    /// The pause between runs in seconds: as given, 5 otherwise.
    pub fn interval_secs(&self) -> (i: u64)
        ensures
            i == match self.interval_seconds {
                Some(i) => i,
                None => DEFAULT_INTERVAL,
            },
    {
        match self.interval_seconds {
            Some(i) => i,
            None => DEFAULT_INTERVAL,
        }
    }

    /// The tool name that prefixes watch ids: `command`.
    pub fn tool_name(&self) -> (n: String)
        ensures
            n@ == "command"@,
    {
        owned("command")
    }
}


/// What a caller leaves out is filled in: a limit of 300 seconds, a
/// blocking call, status 200, five seconds between runs; what a caller gives
/// is kept.
pub proof fn law_defaults(t: u64, b: bool)
    ensures
        timeout_or_default(None) == 300,
        timeout_or_default(Some(t)) == t,
        blocking_or_default(None),
        blocking_or_default(Some(b)) == b,
        DEFAULT_STATUS == 200,
        DEFAULT_INTERVAL == 5,
{
}

} // verus!
