use std::sync::{Arc, Mutex};

use lura::drain::{LineObserver, Observer};
use lura::error::{Activity, Error, Stream};
use lura::output::Output;
use lura::runner::{defaults, runner, Runner};

struct Recorder(Arc<Mutex<Vec<String>>>);

impl LineObserver for Recorder {
    fn on_line(&mut self, line: &str) {
        self.0.lock().unwrap().push(line.to_string());
    }
}

fn recorder() -> (Observer, Arc<Mutex<Vec<String>>>) {
    let seen = Arc::new(Mutex::new(Vec::new()));
    (Box::new(Recorder(seen.clone())), seen)
}

fn io_error(text: &str) -> std::io::Error {
    std::io::Error::new(std::io::ErrorKind::Other, text.to_string())
}

fn execute(runner: &mut Runner, code: Option<i32>, out: &[&str], err: &[&str]) -> Result<Output, Error> {
    let mut stdout = runner.drain(Stream::Stdout);
    let mut stderr = runner.drain(Stream::Stderr);
    let (out_observers, err_observers) = runner.observers_mut();
    for line in out {
        stdout.line(out_observers, line);
    }
    for line in err {
        stderr.line(err_observers, line);
    }
    runner.conclude(Ok(code), Ok(stdout), Ok(stderr))
}

#[test]
fn hello_test_is_captured() {
    let mut r = Runner::new();
    r.capture(true);
    let o = execute(&mut r, Some(0), &["hello test"], &[]).unwrap();
    assert_eq!(o.code(), 0);
    assert!(o.zero());
    assert_eq!(o.stdout(), Some("hello test\n"));
    assert_eq!(o.stderr(), Some(""));
}

#[test]
fn stdout_observer_sees_the_line_once() {
    let (observer, seen) = recorder();
    let mut r = Runner::new();
    r.capture(true).receive_stdout(observer);
    execute(&mut r, Some(0), &["hello test"], &[]).unwrap();
    assert_eq!(*seen.lock().unwrap(), vec!["hello test".to_string()]);
}

#[test]
fn stderr_only_program() {
    let (out_observer, out_seen) = recorder();
    let (err_observer, err_seen) = recorder();
    let mut r = Runner::new();
    r.capture(true).receive_stdout(out_observer).receive_stderr(err_observer);
    let o = execute(&mut r, Some(0), &[], &["oops", "again"]).unwrap();
    assert_eq!(o.stderr(), Some("oops\nagain\n"));
    assert_eq!(o.stdout(), Some(""));
    assert!(out_seen.lock().unwrap().is_empty());
    assert_eq!(*err_seen.lock().unwrap(), vec!["oops".to_string(), "again".to_string()]);
}

#[test]
fn enforced_code_mismatch_is_an_error() {
    let mut r = Runner::new();
    r.capture(true).enforce_code(Some(0));
    match execute(&mut r, Some(1), &["some text"], &[]) {
        Err(Error::UnexpectedExitCode(1)) => {},
        other => panic!("unexpected result: {:?}", other),
    }
}

#[test]
fn enforced_code_match_succeeds() {
    let mut r = Runner::new();
    r.enforce_code(Some(3));
    let o = execute(&mut r, Some(3), &[], &[]).unwrap();
    assert_eq!(o.code(), 3);
    assert!(!o.zero());
}

#[test]
fn enforce_flag_sets_and_clears_zero() {
    let mut r = Runner::new();
    r.enforce(true);
    assert!(matches!(execute(&mut r, Some(2), &[], &[]), Err(Error::UnexpectedExitCode(2))));
    r.enforce(false);
    assert_eq!(execute(&mut r, Some(2), &[], &[]).unwrap().code(), 2);
    r.enforce_code(Some(2)).enforce_code(None);
    assert_eq!(execute(&mut r, Some(5), &[], &[]).unwrap().code(), 5);
}

#[test]
fn runner_is_reusable() {
    let (observer, seen) = recorder();
    let mut r = Runner::new();
    r.capture(true).receive_stdout(observer);
    let a = execute(&mut r, Some(0), &["first"], &[]).unwrap();
    let b = execute(&mut r, Some(4), &["second", "third"], &["warn"]).unwrap();
    assert_eq!(a.stdout(), Some("first\n"));
    assert_eq!(a.stderr(), Some(""));
    assert_eq!(a.code(), 0);
    assert_eq!(b.stdout(), Some("second\nthird\n"));
    assert_eq!(b.stderr(), Some("warn\n"));
    assert_eq!(b.code(), 4);
    assert_eq!(seen.lock().unwrap().len(), 3);
}

#[test]
fn no_capture_yields_no_text() {
    let (out_observer, out_seen) = recorder();
    let (err_observer, err_seen) = recorder();
    let mut r = Runner::new();
    r.receive_stdout(out_observer).receive_stderr(err_observer);
    let o = execute(&mut r, Some(0), &["a", "b"], &["c"]).unwrap();
    assert_eq!(o.stdout(), None);
    assert_eq!(o.stderr(), None);
    assert_eq!(*out_seen.lock().unwrap(), vec!["a".to_string(), "b".to_string()]);
    assert_eq!(*err_seen.lock().unwrap(), vec!["c".to_string()]);
}

#[test]
fn observers_are_called_in_registration_order() {
    let order = Arc::new(Mutex::new(Vec::new()));
    struct Tagged(&'static str, Arc<Mutex<Vec<String>>>);
    impl LineObserver for Tagged {
        fn on_line(&mut self, line: &str) {
            self.1.lock().unwrap().push(format!("{}:{}", self.0, line));
        }
    }
    let mut r = Runner::new();
    r.receive_stdout(Box::new(Tagged("one", order.clone())));
    r.receive_stdout(Box::new(Tagged("two", order.clone())));
    execute(&mut r, Some(0), &["x", "y"], &[]).unwrap();
    assert_eq!(*order.lock().unwrap(), vec!["one:x", "two:x", "one:y", "two:y"]);
}

#[test]
fn large_output_is_captured_whole() {
    let mut r = Runner::new();
    r.capture(true);
    let line = "x".repeat(1000);
    let lines: Vec<&str> = (0..200).map(|_| line.as_str()).collect();
    let o = execute(&mut r, Some(0), &lines, &lines).unwrap();
    assert_eq!(o.stdout().unwrap().len(), 200 * 1001);
    assert_eq!(o.stderr().unwrap().len(), 200 * 1001);
}

#[test]
fn drain_without_capture_returns_nothing() {
    let mut r = Runner::new();
    let mut d = r.drain(Stream::Stderr);
    assert_eq!(d.stream(), Stream::Stderr);
    d.line(r.observers_mut().1, "ignored");
    assert_eq!(d.finish(), None);
}

#[test]
fn drain_keeps_empty_lines() {
    let mut r = Runner::new();
    r.capture(true);
    let mut d = r.drain(Stream::Stdout);
    let (observers, _) = r.observers_mut();
    d.line(observers, "");
    d.line(observers, "b");
    assert_eq!(d.finish(), Some("\nb\n".to_string()));
}

#[test]
fn wait_failure_comes_first() {
    let r = Runner::new();
    let res = r.conclude(
        Err(Error::Wait(io_error("wait"))),
        Err(Error::Drain(Stream::Stdout, io_error("out"))),
        Ok(r.drain(Stream::Stderr)),
    );
    assert!(matches!(res, Err(Error::Wait(_))));
}

#[test]
fn missing_exit_code_is_an_error() {
    let mut r = Runner::new();
    r.capture(true);
    let res = r.conclude(Ok(None), Ok(r.drain(Stream::Stdout)), Ok(r.drain(Stream::Stderr)));
    assert!(matches!(res, Err(Error::ExitCodeMissing)));
}

#[test]
fn stdout_drain_failure_before_stderr() {
    let mut r = Runner::new();
    r.enforce(true);
    let res = r.conclude(
        Ok(Some(1)),
        Err(Error::Drain(Stream::Stdout, io_error("out"))),
        Err(Error::Drain(Stream::Stderr, io_error("err"))),
    );
    assert!(matches!(res, Err(Error::Drain(Stream::Stdout, _))));
}

#[test]
fn stderr_drain_failure_discards_stdout() {
    let mut r = Runner::new();
    r.capture(true);
    let mut out = r.drain(Stream::Stdout);
    out.line(r.observers_mut().0, "kept nowhere");
    let res = r.conclude(Ok(Some(0)), Ok(out), Err(Error::Join(Activity::Stderr)));
    assert!(matches!(res, Err(Error::Join(Activity::Stderr))));
}

#[test]
fn drain_failure_before_enforcement() {
    let mut r = Runner::new();
    r.enforce(true);
    let res = r.conclude(Ok(Some(9)), Ok(r.drain(Stream::Stdout)), Err(Error::Drain(Stream::Stderr, io_error("bad"))));
    assert!(matches!(res, Err(Error::Drain(Stream::Stderr, _))));
}

#[test]
fn default_runners() {
    let (out_observer, out_seen) = recorder();
    let (err_observer, err_seen) = recorder();
    let mut r = runner(out_observer, err_observer);
    assert!(matches!(execute(&mut r, Some(1), &[], &[]), Err(Error::UnexpectedExitCode(1))));
    let o = execute(&mut r, Some(0), &["x"], &["y"]).unwrap();
    assert_eq!(o.stdout(), None);
    assert_eq!(*out_seen.lock().unwrap(), vec!["x".to_string()]);
    assert_eq!(*err_seen.lock().unwrap(), vec!["y".to_string()]);
    let (out_observer, out_seen) = recorder();
    let (err_observer, _) = recorder();
    let mut d = defaults(out_observer, err_observer);
    assert!(matches!(execute(&mut d, Some(1), &[], &[]), Err(Error::UnexpectedExitCode(1))));
    let o = execute(&mut d, Some(0), &["x"], &[]).unwrap();
    assert_eq!(o.stdout(), Some("x\n"));
    assert_eq!(*out_seen.lock().unwrap(), vec!["x".to_string()]);
}

#[test]
fn output_accessors() {
    let o = Output::new(7, Some("out".to_string()), None);
    assert_eq!(o.code(), 7);
    assert!(!o.zero());
    assert_eq!(o.stdout(), Some("out"));
    assert_eq!(o.stderr(), None);
    assert_eq!(o.captured_stdout().unwrap(), "out");
    assert!(matches!(Output::new(0, None, None).captured_stdout(), Err(Error::StdoutMissing)));
}

fn pairs(items: &[(&str, &str)]) -> Vec<(String, String)> {
    items.iter().map(|(k, v)| (k.to_string(), v.to_string())).collect()
}

fn lookup(env: &[(String, String)], name: &str) -> Option<String> {
    env.iter().rev().find(|(k, _)| k == name).map(|(_, v)| v.clone())
}

#[test]
fn environment_inherits_prunes_then_sets() {
    let parent = pairs(&[("HOME", "/root"), ("PATH", "/bin"), ("LANG", "C")]);
    let mut r = Runner::new();
    r.env_remove("PATH");
    r.env(pairs(&[("LANG", "en"), ("EXTRA", "1"), ("EXTRA", "2")]));
    let env = r.environment(&parent);
    assert_eq!(lookup(&env, "HOME"), Some("/root".to_string()));
    assert_eq!(lookup(&env, "PATH"), None);
    assert_eq!(lookup(&env, "LANG"), Some("en".to_string()));
    assert_eq!(lookup(&env, "EXTRA"), Some("2".to_string()));
}

#[test]
fn environment_clear_keeps_only_set_variables() {
    let parent = pairs(&[("HOME", "/root"), ("PATH", "/bin")]);
    let mut r = Runner::new();
    r.env_clear().env(pairs(&[("PATH", "/usr/bin")]));
    r.env_remove("PATH");
    let env = r.environment(&parent);
    assert_eq!(env, pairs(&[("PATH", "/usr/bin")]));
}

#[test]
fn environment_later_call_overrides() {
    let mut r = Runner::new();
    r.env_clear();
    r.env(pairs(&[("A", "1")]));
    r.env(pairs(&[("A", "2"), ("B", "3")]));
    let env = r.environment(&Vec::new());
    assert_eq!(lookup(&env, "A"), Some("2".to_string()));
    assert_eq!(lookup(&env, "B"), Some("3".to_string()));
}

#[test]
fn inherited_variables() {
    let mut r = Runner::new();
    assert!(r.inherits_environment());
    assert!(r.inherits_variable("HOME"));
    r.env_remove("HOME");
    r.env(pairs(&[("LANG", "C")]));
    assert!(!r.inherits_variable("HOME"));
    assert!(!r.inherits_variable("LANG"));
    assert!(r.inherits_variable("PATH"));
    r.env_clear();
    assert!(!r.inherits_environment());
    assert!(!r.inherits_variable("PATH"));
}

#[test]
fn every_error_has_its_message() {
    assert_eq!(Error::Spawn(io_error("x")).message(), "failed to spawn the child process");
    assert_eq!(Error::Drain(Stream::Stdout, io_error("x")).message(), "failed to read stdout of the child process");
    assert_eq!(Error::Join(Activity::Wait).message(), "failed to join the exit-status worker");
    assert_eq!(Error::Bridge.message(), "the operation run to completion panicked");
    assert_eq!(Error::StdoutMissing.message(), "runner did not capture stdout");
}

#[test]
fn working_directory_is_set_and_unset() {
    let mut r = Runner::new();
    assert_eq!(r.working_directory(), None);
    r.cwd(Some("/tmp"));
    assert_eq!(r.working_directory(), Some("/tmp"));
    r.cwd(None);
    assert_eq!(r.working_directory(), None);
}

#[test]
fn error_messages() {
    assert_eq!(Error::ExitCodeMissing.message(), "child process returned no exit code");
    assert_eq!(Error::ShellMissing.message(), "bash nor sh were found in $PATH");
    assert_eq!(Error::StdioHandleMissing(Stream::Stderr).message(), "child process missing stdio file handle: `stderr`");
    assert_eq!(Error::UnexpectedExitCode(1).message(), "command exited with unexpected status code `1`");
    assert_eq!(Error::UnexpectedExitCode(-2147483648).message(), "command exited with unexpected status code `-2147483648`");
}
