//! Condition watching: the decisions, messages and watch bookkeeping of a
//! tool that blocks until a port opens, a file changes, a URL answers, a
//! process exits, a container stops, a workflow run ends or a command
//! succeeds.

pub mod text;
pub mod tools;
