use vstd::prelude::*;
use crate::drain::{
    captured_text, each_line_to_each_observer, lemma_calls_in_order, Call, Drain, DrainView,
    Observer,
};
use crate::error::{Error, Stream};
use crate::output::{Output, OutputView};

verus! {

/// The environment that a sequence of name/value assignments leaves when
/// applied to `m` in order: a later assignment to a name overrides an
/// earlier one.
pub open spec fn apply_vars(
    m: Map<Seq<char>, Seq<char>>,
    vars: Seq<(Seq<char>, Seq<char>)>,
) -> Map<Seq<char>, Seq<char>>
    decreases vars.len(),
{
    if vars.len() == 0 {
        m
    } else {
        apply_vars(m, vars.drop_last()).insert(vars.last().0, vars.last().1)
    }
}

/// The environment described by a list of name/value pairs.
pub open spec fn env_of(vars: Seq<(Seq<char>, Seq<char>)>) -> Map<Seq<char>, Seq<char>> {
    apply_vars(Map::empty(), vars)
}

/// The model of a `Runner`.
pub struct RunnerView {
    pub cwd: Option<Seq<char>>,
    pub env_clear: bool,
    pub env_remove: Seq<Seq<char>>,
    pub env: Map<Seq<char>, Seq<char>>,
    pub stdout_observers: Seq<Observer>,
    pub stderr_observers: Seq<Observer>,
    pub enforce_code: Option<i32>,
    pub capture: bool,
}

impl RunnerView {
    /// The configuration of a new runner.
    pub open spec fn initial() -> RunnerView {
        RunnerView {
            cwd: None,
            env_clear: false,
            env_remove: Seq::empty(),
            env: Map::empty(),
            stdout_observers: Seq::empty(),
            stderr_observers: Seq::empty(),
            enforce_code: None,
            capture: false,
        }
    }

    /// The environment a child starts with, given the parent's: inherit
    /// (unless cleared), then prune the removed names, then set the
    /// configured variables.
    pub open spec fn child_environment(self, parent: Map<Seq<char>, Seq<char>>) -> Map<
        Seq<char>,
        Seq<char>,
    > {
        let base = if self.env_clear {
            Map::empty()
        } else {
            parent.remove_keys(self.env_remove.to_set())
        };
        base.union_prefer_right(self.env)
    }

    /// The model of the drain that this configuration gives `stream` once it
    /// has read `lines`.
    pub open spec fn drain_view(self, stream: Stream, lines: Seq<Seq<char>>) -> DrainView {
        DrainView {
            stream,
            capture: self.capture,
            observers: match stream {
                Stream::Stdout => self.stdout_observers.len(),
                Stream::Stderr => self.stderr_observers.len(),
            },
            lines,
        }
    }
}

/// The `Output` of an execution that exited with `code` and whose streams
/// were drained by `stdout` and `stderr`.
pub open spec fn output_of(code: i32, stdout: DrainView, stderr: DrainView) -> OutputView {
    OutputView { code, stdout: stdout.captured(), stderr: stderr.captured() }
}

/// How an execution ends, given the outcome of waiting for the process and
/// of each drain: a failed or code-less wait first, then a failed drain
/// (stdout before stderr), then a code other than the enforced one;
/// otherwise the output.
pub open spec fn concluded(
    enforce_code: Option<i32>,
    exit: Result<Option<i32>, Error>,
    stdout: Result<DrainView, Error>,
    stderr: Result<DrainView, Error>,
) -> Result<OutputView, Error> {
    match exit {
        Err(e) => Err(e),
        Ok(None) => Err(Error::ExitCodeMissing),
        Ok(Some(code)) => match stdout {
            Err(e) => Err(e),
            Ok(out) => match stderr {
                Err(e) => Err(e),
                Ok(err) => if enforce_code is Some && enforce_code->Some_0 != code {
                    Err(Error::UnexpectedExitCode(code))
                } else {
                    Ok(output_of(code, out, err))
                },
            },
        },
    }
}

pub open spec fn drain_result(r: Result<Drain, Error>) -> Result<DrainView, Error> {
    match r {
        Ok(d) => Ok(d@),
        Err(e) => Err(e),
    }
}

pub open spec fn output_result(r: Result<Output, Error>) -> Result<OutputView, Error> {
    match r {
        Ok(o) => Ok(o@),
        Err(e) => Err(e),
    }
}

/// A reusable configuration for running programs: working directory,
/// environment edits, line observers for each stream, the exit code to
/// enforce and whether to capture the output text.
pub struct Runner {
    cwd: Option<String>,
    env_clear: bool,
    env_remove: Vec<String>,
    env: Vec<(String, String)>,
    receive_stdout: Vec<Observer>,
    receive_stderr: Vec<Observer>,
    enforce_code: Option<i32>,
    capture: bool,
}

impl View for Runner {
    type V = RunnerView;

    closed spec fn view(&self) -> RunnerView {
        RunnerView {
            cwd: self.cwd.deep_view(),
            env_clear: self.env_clear,
            env_remove: self.env_remove.deep_view(),
            env: env_of(self.env.deep_view()),
            stdout_observers: self.receive_stdout@,
            stderr_observers: self.receive_stderr@,
            enforce_code: self.enforce_code,
            capture: self.capture,
        }
    }
}

impl Runner {
    /// A runner with no working directory, the inherited environment, no
    /// observers, no enforced exit code and no capture.
    pub fn new() -> (r: Self)
        ensures
            r@ == RunnerView::initial(),
    {
        let r = Runner {
            cwd: None,
            env_clear: false,
            env_remove: Vec::new(),
            env: Vec::new(),
            receive_stdout: Vec::new(),
            receive_stderr: Vec::new(),
            enforce_code: None,
            capture: false,
        };
        proof {
            assert(r.env_remove.deep_view() =~= Seq::empty());
            assert(r.env.deep_view() =~= Seq::empty());
        }
        r
    }

    /// Sets (or, with `None`, unsets) the working directory of the child.
    pub fn cwd(&mut self, cwd: Option<&str>) -> (r: &mut Self)
        ensures
            r@ == (RunnerView { cwd: cwd.deep_view(), ..old(self)@ }),
            *final(self) == *final(r),
    {
        self.cwd = match cwd {
            Some(dir) => Some(String::from_str(dir)),
            None => None,
        };
        self
    }

    /// Starts the child from an empty environment instead of the inherited
    /// one.
    pub fn env_clear(&mut self) -> (r: &mut Self)
        ensures
            r@ == (RunnerView { env_clear: true, ..old(self)@ }),
            *final(self) == *final(r),
    {
        self.env_clear = true;
        self
    }

    /// Removes `name` from the inherited environment.
    pub fn env_remove(&mut self, name: &str)
        ensures
            final(self)@ == (RunnerView { env_remove: old(self)@.env_remove.push(name@), ..old(self)@ }),
    {
        self.env_remove.push(String::from_str(name));
        proof {
            assert(self.env_remove.deep_view() =~= old(self).env_remove.deep_view().push(name@));
        }
    }

    /// Sets each variable of `vars`, in order; a later value of a name
    /// overrides an earlier one.
    pub fn env(&mut self, vars: Vec<(String, String)>) -> (r: &mut Self)
        ensures
            r@ == (RunnerView { env: apply_vars(old(self)@.env, vars.deep_view()), ..old(self)@ }),
            *final(self) == *final(r),
    {
        let ghost start = self.env.deep_view();
        let mut vars = vars;
        let ghost all = vars.deep_view();
        self.env.append(&mut vars);
        proof {
            assert(self.env.deep_view() =~= start + all);
            lemma_apply_vars_append(Map::empty(), start, all);
        }
        self
    }

    /// Adds an observer of the lines of stdout, after those already added.
    pub fn receive_stdout(&mut self, observer: Observer) -> (r: &mut Self)
        ensures
            r@ == (RunnerView { stdout_observers: old(self)@.stdout_observers.push(observer), ..old(self)@ }),
            *final(self) == *final(r),
    {
        self.receive_stdout.push(observer);
        self
    }

    /// Adds an observer of the lines of stderr, after those already added.
    pub fn receive_stderr(&mut self, observer: Observer) -> (r: &mut Self)
        ensures
            r@ == (RunnerView { stderr_observers: old(self)@.stderr_observers.push(observer), ..old(self)@ }),
            *final(self) == *final(r),
    {
        self.receive_stderr.push(observer);
        self
    }

    /// Makes an exit code other than `code` an error; `None` enforces nothing.
    pub fn enforce_code(&mut self, code: Option<i32>) -> (r: &mut Self)
        ensures
            r@ == (RunnerView { enforce_code: code, ..old(self)@ }),
            *final(self) == *final(r),
    {
        self.enforce_code = code;
        self
    }

    /// Enforces the exit code 0, or nothing.
    pub fn enforce(&mut self, value: bool) -> (r: &mut Self)
        ensures
            r@ == (RunnerView { enforce_code: if value { Some(0i32) } else { None }, ..old(self)@ }),
            *final(self) == *final(r),
    {
        self.enforce_code = if value {
            Some(0i32)
        } else {
            None
        };
        self
    }

    /// Whether the text of both streams is kept in the `Output`.
    pub fn capture(&mut self, value: bool) -> (r: &mut Self)
        ensures
            r@ == (RunnerView { capture: value, ..old(self)@ }),
            *final(self) == *final(r),
    {
        self.capture = value;
        self
    }

    /// The working directory of the child, if one is set.
    pub fn working_directory(&self) -> (r: Option<&str>)
        ensures
            r.deep_view() == self@.cwd,
    {
        match &self.cwd {
            Some(dir) => Some(dir.as_str()),
            None => None,
        }
    }

    /// A drain for `stream` with this runner's capture flag.
    pub fn drain(&self, stream: Stream) -> (r: Drain)
        ensures
            r.wf(),
            r@ == self@.drain_view(stream, Seq::empty()),
    {
        let observers = match stream {
            Stream::Stdout => self.receive_stdout.len(),
            Stream::Stderr => self.receive_stderr.len(),
        };
        Drain::new(stream, self.capture, observers)
    }

    /// The observers of stdout and of stderr, for the two drains of an
    /// execution to dispatch lines to while it runs.
    pub fn observers_mut(&mut self) -> (r: (&mut Vec<Observer>, &mut Vec<Observer>))
        ensures
            r.0@ == old(self)@.stdout_observers,
            r.1@ == old(self)@.stderr_observers,
            final(self)@ == (RunnerView {
                stdout_observers: final(r.0)@,
                stderr_observers: final(r.1)@,
                ..old(self)@
            }),
    {
        (&mut self.receive_stdout, &mut self.receive_stderr)
    }

    /// Whether the child starts from the environment of the parent at all.
    pub fn inherits_environment(&self) -> (r: bool)
        ensures
            r == !self@.env_clear,
    {
        !self.env_clear
    }

    /// Whether the child keeps the parent's variable `name` as it is: the
    /// environment is inherited, `name` is not removed and not set.
    pub fn inherits_variable(&self, name: &str) -> (r: bool)
        ensures
            r == (!self@.env_clear && !self@.env_remove.contains(name@) && !self@.env.dom().contains(name@)),
    {
        if self.env_clear {
            return false;
        }
        let owned = String::from_str(name);
        if contains_name(&self.env_remove, &owned) {
            return false;
        }
        let mut i: usize = 0;
        while i < self.env.len()
            invariant
                0 <= i <= self.env.len(),
                owned@ == name@,
                forall|k: int| 0 <= k < i ==> #[trigger] self.env.deep_view()[k].0 != name@,
            decreases self.env.len() - i,
        {
            let key: &String = &self.env[i].0;
            assert(self.env.deep_view()[i as int].0 == key@);
            if *key == owned {
                proof {
                    lemma_env_of_contains(self.env.deep_view(), i as int);
                }
                return false;
            }
            i = i + 1;
        }
        proof {
            lemma_env_of_absent(self.env.deep_view(), name@);
        }
        true
    }

    /// Ends an execution once the wait for the process and both drains have
    /// been joined: reports the first failure, in the order the execution
    /// meets them, or the `Output` with the text the drains captured.
    pub fn conclude(
        &self,
        exit: Result<Option<i32>, Error>,
        stdout: Result<Drain, Error>,
        stderr: Result<Drain, Error>,
    ) -> (r: Result<Output, Error>)
        requires
            stdout is Ok ==> stdout->Ok_0.wf() && stdout->Ok_0@ == self@.drain_view(
                Stream::Stdout,
                stdout->Ok_0@.lines,
            ),
            stderr is Ok ==> stderr->Ok_0.wf() && stderr->Ok_0@ == self@.drain_view(
                Stream::Stderr,
                stderr->Ok_0@.lines,
            ),
        ensures
            output_result(r) == concluded(
                self@.enforce_code,
                exit,
                drain_result(stdout),
                drain_result(stderr),
            ),
    {
        let code = match exit {
            Err(e) => {
                return Err(e);
            },
            Ok(None) => {
                return Err(Error::ExitCodeMissing);
            },
            Ok(Some(code)) => code,
        };
        let out = match stdout {
            Err(e) => {
                return Err(e);
            },
            Ok(drain) => drain,
        };
        let err = match stderr {
            Err(e) => {
                return Err(e);
            },
            Ok(drain) => drain,
        };
        if let Some(expected) = self.enforce_code {
            if expected != code {
                return Err(Error::UnexpectedExitCode(code));
            }
        }
        Ok(Output::new(code, out.finish(), err.finish()))
    }

    /// The environment of the child, as name/value pairs in which a later
    /// pair overrides an earlier one, given the environment of the parent.
    pub fn environment(&self, parent: &Vec<(String, String)>) -> (r: Vec<(String, String)>)
        ensures
            env_of(r.deep_view()) == self@.child_environment(env_of(parent.deep_view())),
    {
        let ghost removed = self.env_remove.deep_view().to_set();
        let mut r: Vec<(String, String)> = Vec::new();
        proof {
            assert(r.deep_view() =~= Seq::empty());
            assert(env_of(Seq::empty()).remove_keys(removed) =~= Map::empty());
        }
        if !self.env_clear {
            let mut i: usize = 0;
            while i < parent.len()
                invariant
                    0 <= i <= parent.len(),
                    removed == self.env_remove.deep_view().to_set(),
                    env_of(r.deep_view()) == env_of(parent.deep_view().subrange(0, i as int)).remove_keys(removed),
                decreases parent.len() - i,
            {
                let name = &parent[i].0;
                let value = &parent[i].1;
                let ghost before = env_of(parent.deep_view().subrange(0, i as int));
                proof {
                    assert(parent.deep_view().subrange(0, i + 1).drop_last() =~= parent.deep_view().subrange(0, i as int));
                }
                if !contains_name(&self.env_remove, name) {
                    let ghost old_r = r.deep_view();
                    r.push((name.clone(), value.clone()));
                    proof {
                        assert(r.deep_view().drop_last() =~= old_r);
                        assert(before.remove_keys(removed).insert(name@, value@) =~= before.insert(name@, value@).remove_keys(removed));
                    }
                } else {
                    proof {
                        assert(before.remove_keys(removed) =~= before.insert(name@, value@).remove_keys(removed));
                    }
                }
                i = i + 1;
            }
            proof {
                assert(parent.deep_view().subrange(0, parent.len() as int) =~= parent.deep_view());
            }
        }
        let ghost base = env_of(r.deep_view());
        proof {
            assert(base.union_prefer_right(env_of(self.env.deep_view().subrange(0, 0))) =~= base);
        }
        let mut j: usize = 0;
        while j < self.env.len()
            invariant
                0 <= j <= self.env.len(),
                env_of(r.deep_view()) == base.union_prefer_right(env_of(self.env.deep_view().subrange(0, j as int))),
            decreases self.env.len() - j,
        {
            let name = &self.env[j].0;
            let value = &self.env[j].1;
            let ghost old_r = r.deep_view();
            let ghost before = env_of(self.env.deep_view().subrange(0, j as int));
            r.push((name.clone(), value.clone()));
            proof {
                assert(self.env.deep_view().subrange(0, j + 1).drop_last() =~= self.env.deep_view().subrange(0, j as int));
                assert(r.deep_view().drop_last() =~= old_r);
                assert(base.union_prefer_right(before).insert(name@, value@) =~= base.union_prefer_right(before.insert(name@, value@)));
            }
            j = j + 1;
        }
        proof {
            assert(self.env.deep_view().subrange(0, self.env.len() as int) =~= self.env.deep_view());
        }
        r
    }
}

/// A runner that enforces the exit code 0 and hands the lines of stdout
/// and of stderr to one observer each (a log, typically).
pub fn runner(stdout_observer: Observer, stderr_observer: Observer) -> (r: Runner)
    ensures
        r@ == (RunnerView {
            enforce_code: Some(0i32),
            stdout_observers: seq![stdout_observer],
            stderr_observers: seq![stderr_observer],
            ..RunnerView::initial()
        }),
{
    let mut receive_stdout: Vec<Observer> = Vec::new();
    receive_stdout.push(stdout_observer);
    let mut receive_stderr: Vec<Observer> = Vec::new();
    receive_stderr.push(stderr_observer);
    let r = Runner {
        cwd: None,
        env_clear: false,
        env_remove: Vec::new(),
        env: Vec::new(),
        receive_stdout,
        receive_stderr,
        enforce_code: Some(0i32),
        capture: false,
    };
    proof {
        assert(r.env_remove.deep_view() =~= Seq::<Seq<char>>::empty());
        assert(r.env.deep_view() =~= Seq::<(Seq<char>, Seq<char>)>::empty());
        assert(r.receive_stdout@ =~= seq![stdout_observer]);
        assert(r.receive_stderr@ =~= seq![stderr_observer]);
    }
    r
}

/// The runner of `run` and `sh`: as `runner`, and it captures the output.
pub fn defaults(stdout_observer: Observer, stderr_observer: Observer) -> (r: Runner)
    ensures
        r@ == (RunnerView {
            enforce_code: Some(0i32),
            capture: true,
            stdout_observers: seq![stdout_observer],
            stderr_observers: seq![stderr_observer],
            ..RunnerView::initial()
        }),
{
    let mut receive_stdout: Vec<Observer> = Vec::new();
    receive_stdout.push(stdout_observer);
    let mut receive_stderr: Vec<Observer> = Vec::new();
    receive_stderr.push(stderr_observer);
    let r = Runner {
        cwd: None,
        env_clear: false,
        env_remove: Vec::new(),
        env: Vec::new(),
        receive_stdout,
        receive_stderr,
        enforce_code: Some(0i32),
        capture: true,
    };
    proof {
        assert(r.env_remove.deep_view() =~= Seq::<Seq<char>>::empty());
        assert(r.env.deep_view() =~= Seq::<(Seq<char>, Seq<char>)>::empty());
        assert(r.receive_stdout@ =~= seq![stdout_observer]);
        assert(r.receive_stderr@ =~= seq![stderr_observer]);
    }
    r
}

/// Whether `name` is one of `names`.
fn contains_name(names: &Vec<String>, name: &String) -> (r: bool)
    ensures
        r == names.deep_view().contains(name@),
{
    let mut i: usize = 0;
    while i < names.len()
        invariant
            0 <= i <= names.len(),
            forall|k: int| 0 <= k < i ==> names.deep_view()[k] != name@,
        decreases names.len() - i,
    {
        if names[i] == *name {
            assert(names.deep_view()[i as int] == name@);
            return true;
        }
        i = i + 1;
    }
    false
}

/// A name assigned somewhere in `vars` is in their environment.
proof fn lemma_env_of_contains(vars: Seq<(Seq<char>, Seq<char>)>, i: int)
    requires
        0 <= i < vars.len(),
    ensures
        env_of(vars).dom().contains(vars[i].0),
    decreases vars.len(),
{
    if i < vars.len() - 1 {
        lemma_env_of_contains(vars.drop_last(), i);
    }
}

/// A name assigned nowhere in `vars` is not in their environment.
proof fn lemma_env_of_absent(vars: Seq<(Seq<char>, Seq<char>)>, name: Seq<char>)
    requires
        forall|k: int| 0 <= k < vars.len() ==> #[trigger] vars[k].0 != name,
    ensures
        !env_of(vars).dom().contains(name),
    decreases vars.len(),
{
    if vars.len() > 0 {
        assert(forall|k: int| 0 <= k < vars.drop_last().len() ==> #[trigger] vars.drop_last()[k] == vars[k]);
        lemma_env_of_absent(vars.drop_last(), name);
    }
}

/// Applying two lists of assignments one after the other is applying their
/// concatenation.
proof fn lemma_apply_vars_append(
    m: Map<Seq<char>, Seq<char>>,
    a: Seq<(Seq<char>, Seq<char>)>,
    b: Seq<(Seq<char>, Seq<char>)>,
)
    ensures
        apply_vars(m, a + b) == apply_vars(apply_vars(m, a), b),
    decreases b.len(),
{
    if b.len() == 0 {
        assert(a + b =~= a);
    } else {
        assert((a + b).drop_last() =~= a + b.drop_last());
        lemma_apply_vars_append(m, a, b.drop_last());
    }
}


/// With capture off, an execution that succeeds carries no text for either
/// stream, and still every line of each stream reached each observer of
/// that stream once, in registration order.
pub proof fn lemma_capture_off_keeps_no_text(
    r: RunnerView,
    code: i32,
    out_lines: Seq<Seq<char>>,
    err_lines: Seq<Seq<char>>,
)
    requires
        !r.capture,
    ensures
        match concluded(
            r.enforce_code,
            Ok(Some(code)),
            Ok(r.drain_view(Stream::Stdout, out_lines)),
            Ok(r.drain_view(Stream::Stderr, err_lines)),
        ) {
            Ok(o) => o.stdout is None && o.stderr is None,
            Err(e) => e == Error::UnexpectedExitCode(code),
        },
        each_line_to_each_observer(
            r.stdout_observers.len(),
            out_lines,
            r.drain_view(Stream::Stdout, out_lines).calls(),
        ),
        each_line_to_each_observer(
            r.stderr_observers.len(),
            err_lines,
            r.drain_view(Stream::Stderr, err_lines).calls(),
        ),
{
    lemma_calls_in_order(r.stdout_observers.len(), out_lines);
    lemma_calls_in_order(r.stderr_observers.len(), err_lines);
}

/// A process that writes only to stderr: no stdout observer is called,
/// each stderr observer gets each line once, in order, and a successful
/// execution carries the stderr text and an empty stdout text (when
/// capturing).
pub proof fn lemma_stderr_only(r: RunnerView, code: i32, err_lines: Seq<Seq<char>>)
    ensures
        r.drain_view(Stream::Stdout, Seq::empty()).calls() == Seq::<Call>::empty(),
        each_line_to_each_observer(
            r.stderr_observers.len(),
            err_lines,
            r.drain_view(Stream::Stderr, err_lines).calls(),
        ),
        match concluded(
            r.enforce_code,
            Ok(Some(code)),
            Ok(r.drain_view(Stream::Stdout, Seq::empty())),
            Ok(r.drain_view(Stream::Stderr, err_lines)),
        ) {
            Ok(o) => o.stdout == (if r.capture {
                Some(Seq::<char>::empty())
            } else {
                None
            }) && o.stderr == (if r.capture {
                Some(captured_text(err_lines))
            } else {
                None
            }),
            Err(e) => e == Error::UnexpectedExitCode(code),
        },
{
    lemma_calls_in_order(r.stderr_observers.len(), err_lines);
}

/// A runner is reusable: two executions concluded by the same runner each
/// yield the exit code and text of their own process, under the one
/// configuration set before both.
pub proof fn lemma_runner_reusable(
    r: RunnerView,
    code_a: i32,
    out_a: Seq<Seq<char>>,
    err_a: Seq<Seq<char>>,
    code_b: i32,
    out_b: Seq<Seq<char>>,
    err_b: Seq<Seq<char>>,
)
    ensures
        concluded(
            r.enforce_code,
            Ok(Some(code_a)),
            Ok(r.drain_view(Stream::Stdout, out_a)),
            Ok(r.drain_view(Stream::Stderr, err_a)),
        ) == run_result(r, code_a, out_a, err_a),
        concluded(
            r.enforce_code,
            Ok(Some(code_b)),
            Ok(r.drain_view(Stream::Stdout, out_b)),
            Ok(r.drain_view(Stream::Stderr, err_b)),
        ) == run_result(r, code_b, out_b, err_b),
{
}

/// What an execution under `r` whose process exited with `code` and wrote
/// `out` and `err` yields.
pub open spec fn run_result(
    r: RunnerView,
    code: i32,
    out: Seq<Seq<char>>,
    err: Seq<Seq<char>>,
) -> Result<OutputView, Error> {
    if r.enforce_code is Some && r.enforce_code->Some_0 != code {
        Err(Error::UnexpectedExitCode(code))
    } else {
        Ok(
            OutputView {
                code,
                stdout: if r.capture {
                    Some(captured_text(out))
                } else {
                    None
                },
                stderr: if r.capture {
                    Some(captured_text(err))
                } else {
                    None
                },
            },
        )
    }
}

} // verus!
