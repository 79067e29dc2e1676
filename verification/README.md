# mcp-await

A condition watcher for AI command-line assistants, usable as an MCP stdio
server or as a command line: it blocks until a TCP port accepts connections,
a file is created, modified or deleted, a URL answers with a given HTTP
status, a process exits, a Docker container exits, a GitHub Actions run
completes, or a shell command exits with code 0. Each wait ends in
`success`, `timeout` or `error` (exit codes 0, 1 and 2 on the command line).
Non-blocking calls return a watch id at once, expose the watch as the
resource `watch://<id>` and notify the client when it ends; `cancel_watch`
stops one.

## Layout

- `src/` is the verified library (Verus).
  - `text.rs`: decimal rendering, white-space trimming, substring search,
    prefix stripping and `u16` parsing, each proved against a specification
    over characters.
  - `tools/mod.rs`: wait results, time spans, exit codes and the steps of a
    polling loop.
  - `tools/{port,pid,url,command,docker,ghrun,file}.rs`: what each kind of
    wait decides from what its probe saw, and the messages it reports.
  - `tools/stop.rs`: handles on cancellation tokens, with the identity of
    the token each shares and whether it has been fired.
  - `tools/watch.rs`: the non-blocking watches (ids, states, cancellation,
    resources) as a state machine over a mathematical model, with its laws.
  - `tools/params.rs`: tool parameters and their defaults.
- `app/` is the program: argument parsing, the MCP server, the probes
  (sockets, `/proc`, child processes, file notifications), timers and JSON.
- `tests/` runs the library on the scenarios of the command line and the
  tools.
