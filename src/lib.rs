//! Subprocess execution: a reusable `Runner` configuration, the per-stream
//! line drains that dispatch output to observers and optionally capture it,
//! and the rules that turn the outcome of one execution into an `Output` or
//! an `Error`. Around them: the invocations of common command-line tools, the
//! choice of a shell, and delay sequences for retrying.
//!
//! Spawning processes, reading pipes and waiting are left to the caller,
//! which hands each line and each outcome to the types of this crate.

pub mod backoff;
pub mod decimal;
pub mod drain;
pub mod error;
pub mod invocation;
pub mod output;
pub mod progs;
pub mod runner;
pub mod shell;
