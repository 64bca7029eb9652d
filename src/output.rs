use vstd::prelude::*;
use crate::error::Error;

verus! {

/// The model of an `Output`: exit code and the captured text of each stream.
pub struct OutputView {
    pub code: i32,
    pub stdout: Option<Seq<char>>,
    pub stderr: Option<Seq<char>>,
}

/// The result of one execution. The text of a stream is present only when
/// the runner captured it.
#[derive(Clone, Debug)]
pub struct Output {
    code: i32,
    pub stdout: Option<String>,
    pub stderr: Option<String>,
}

impl View for Output {
    type V = OutputView;

    closed spec fn view(&self) -> OutputView {
        OutputView {
            code: self.code,
            stdout: self.stdout.deep_view(),
            stderr: self.stderr.deep_view(),
        }
    }
}

impl Output {
    pub fn new(code: i32, stdout: Option<String>, stderr: Option<String>) -> (r: Self)
        ensures
            r@ == (OutputView { code, stdout: stdout.deep_view(), stderr: stderr.deep_view() }),
    {
        Output { code, stdout, stderr }
    }

    pub fn code(&self) -> (r: i32)
        ensures
            r == self@.code,
    {
        self.code
    }

    pub fn zero(&self) -> (r: bool)
        ensures
            r == (self@.code == 0),
    {
        self.code == 0
    }

    pub fn stdout(&self) -> (r: Option<&str>)
        ensures
            r.deep_view() == self@.stdout,
    {
        match &self.stdout {
            Some(s) => Some(s.as_str()),
            None => None,
        }
    }

    /// The captured stdout text of a run that was meant to capture it, or
    /// `StdoutMissing`.
    pub fn captured_stdout(self) -> (r: Result<String, Error>)
        ensures
            match self@.stdout {
                Some(text) => r is Ok && r->Ok_0@ == text,
                None => r is Err && r->Err_0 is StdoutMissing,
            },
    {
        match self.stdout {
            Some(text) => Ok(text),
            None => Err(Error::StdoutMissing),
        }
    }

    pub fn stderr(&self) -> (r: Option<&str>)
        ensures
            r.deep_view() == self@.stderr,
    {
        match &self.stderr {
            Some(s) => Some(s.as_str()),
            None => None,
        }
    }
}

} // verus!
