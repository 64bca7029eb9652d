use vstd::prelude::*;
use crate::decimal::{signed_decimal, signed_decimal_of};

verus! {

/// `std::io::Error` is carried through unchanged: an execution reports the
/// operating system's own error for a failed spawn, read or wait.
#[verifier::external_type_specification]
#[verifier::external_body]
pub struct ExIoError(std::io::Error);

/// One of the two output pipes of a child process.
#[derive(Clone, Copy, Debug, PartialEq, Eq, Structural)]
pub enum Stream {
    Stdout,
    Stderr,
}

/// One of the three concurrent activities of an execution.
#[derive(Clone, Copy, Debug, PartialEq, Eq, Structural)]
pub enum Activity {
    Stdout,
    Stderr,
    Wait,
}

/// Why one execution failed. Every error ends that execution; nothing is
/// retried and no partial output is kept.
#[derive(Debug)]
pub enum Error {
    /// The operating system refused to create the process.
    Spawn(std::io::Error),
    /// A pipe read-end could not be taken after the spawn.
    StdioHandleMissing(Stream),
    /// Waiting for the process failed.
    Wait(std::io::Error),
    /// The process ended without an exit code (a signal ended it).
    ExitCodeMissing,
    /// The process exited with a code other than the enforced one.
    UnexpectedExitCode(i32),
    /// A pipe could not be read or decoded as text.
    Drain(Stream, std::io::Error),
    /// A concurrent activity could not be joined.
    Join(Activity),
    /// The runtime that drives a non-blocking execution could not be built.
    Runtime(std::io::Error),
    /// The operation driven by the runtime bridge panicked.
    Bridge,
    /// No command-line interpreter was found.
    ShellMissing,
    /// The output of a run that was expected to be captured was not.
    StdoutMissing,
}

/// The one-line description of an error.
pub open spec fn message_of(e: Error) -> Seq<char> {
    match e {
        Error::Spawn(_) => "failed to spawn the child process"@,
        Error::StdioHandleMissing(Stream::Stdout) => "child process missing stdio file handle: `stdout`"@,
        Error::StdioHandleMissing(Stream::Stderr) => "child process missing stdio file handle: `stderr`"@,
        Error::Wait(_) => "failed to wait for the child process"@,
        Error::ExitCodeMissing => "child process returned no exit code"@,
        Error::UnexpectedExitCode(code) => "command exited with unexpected status code `"@ + signed_decimal_of(
            code as int,
        ) + "`"@,
        Error::Drain(Stream::Stdout, _) => "failed to read stdout of the child process"@,
        Error::Drain(Stream::Stderr, _) => "failed to read stderr of the child process"@,
        Error::Join(Activity::Stdout) => "failed to join stdio worker: `stdout`"@,
        Error::Join(Activity::Stderr) => "failed to join stdio worker: `stderr`"@,
        Error::Join(Activity::Wait) => "failed to join the exit-status worker"@,
        Error::Runtime(_) => "failed to build the runtime"@,
        Error::Bridge => "the operation run to completion panicked"@,
        Error::ShellMissing => "bash nor sh were found in $PATH"@,
        Error::StdoutMissing => "runner did not capture stdout"@,
    }
}

impl Error {
    /// A one-line description of the error.
    pub fn message(&self) -> (r: String)
        ensures
            r@ == message_of(*self),
    {
        match self {
            Error::Spawn(_) => String::from_str("failed to spawn the child process"),
            Error::StdioHandleMissing(Stream::Stdout) => String::from_str("child process missing stdio file handle: `stdout`"),
            Error::StdioHandleMissing(Stream::Stderr) => String::from_str("child process missing stdio file handle: `stderr`"),
            Error::Wait(_) => String::from_str("failed to wait for the child process"),
            Error::ExitCodeMissing => String::from_str("child process returned no exit code"),
            Error::UnexpectedExitCode(code) => {
                let r = String::from_str("command exited with unexpected status code `");
                let digits = signed_decimal(*code);
                r.concat(digits.as_str()).concat("`")
            },
            Error::Drain(Stream::Stdout, _) => String::from_str("failed to read stdout of the child process"),
            Error::Drain(Stream::Stderr, _) => String::from_str("failed to read stderr of the child process"),
            Error::Join(Activity::Stdout) => String::from_str("failed to join stdio worker: `stdout`"),
            Error::Join(Activity::Stderr) => String::from_str("failed to join stdio worker: `stderr`"),
            Error::Join(Activity::Wait) => String::from_str("failed to join the exit-status worker"),
            Error::Runtime(_) => String::from_str("failed to build the runtime"),
            Error::Bridge => String::from_str("the operation run to completion panicked"),
            Error::ShellMissing => String::from_str("bash nor sh were found in $PATH"),
            Error::StdoutMissing => String::from_str("runner did not capture stdout"),
        }
    }
}

} // verus!
