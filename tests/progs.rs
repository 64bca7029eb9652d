use lura::decimal::decimal;
use lura::invocation::Invocation;
use lura::output::Output;
use lura::progs::docker;
use lura::progs::git;
use lura::progs::kubectl::{Application, Apply, Delete, Get, Manifest};
use lura::runner::Runner;
use lura::progs::systemd::Service;
use lura::error::Error;

fn args(inv: &Invocation) -> Vec<&str> {
    inv.args.iter().map(|a| a.as_str()).collect()
}

#[test]
fn docker_build_with_and_without_tag() {
    let inv = docker::build(".", Some("app:1"));
    assert_eq!(inv.program, "docker");
    assert_eq!(args(&inv), vec!["build", "-t", "app:1", "."]);
    let inv = docker::build("ctx", None);
    assert_eq!(args(&inv), vec!["build", "ctx"]);
}

#[test]
fn docker_tag_and_push() {
    assert_eq!(args(&docker::tag("a", "b")), vec!["tag", "a", "b"]);
    let inv = docker::push("registry/app");
    assert_eq!(inv.program, "docker");
    assert_eq!(args(&inv), vec!["push", "registry/app"]);
}

#[test]
fn git_clone_plain() {
    let c = git::Clone::new("https://example.org/repo.git");
    assert_eq!(c.run_args(), vec!["clone".to_string(), "https://example.org/repo.git".to_string()]);
}

#[test]
fn git_clone_with_options() {
    let mut c = git::Clone::new("url");
    c.branch("main").single_branch(true).path("dir");
    let inv = c.invocation();
    assert_eq!(inv.program, "git");
    assert_eq!(args(&inv), vec!["clone", "-b", "main", "--single-branch", "url", "dir"]);
    c.single_branch(false);
    assert_eq!(c.run_args()[3], "--no-single-branch");
}

#[test]
fn kubectl_apply_args() {
    let mut a = Apply::new();
    assert_eq!(args(&a.apply("m.yaml")), vec!["apply", "m.yaml"]);
    a.recursive(true).wait(false).timeout(Some(30)).dry_run(true);
    assert_eq!(a.timeout, Some(30));
    let inv = a.apply("m.yaml");
    assert_eq!(inv.program, "kubectl");
    assert_eq!(args(&inv), vec!["apply", "m.yaml", "--recursive=true", "--wait=false", "--dry-run=true"]);
}

#[test]
fn kubectl_delete_args() {
    let mut d = Delete::new();
    d.recursive(false).wait(true).timeout(None);
    assert_eq!(args(&d.delete("dir")), vec!["delete", "dir", "--recursive=false", "--wait=true"]);
}

#[test]
fn kubectl_get_args() {
    let mut g = Get::new();
    assert_eq!(args(&g.get()), vec!["get", "--output=json"]);
    g.resource("pods").filename("f.yaml").recursive(true).namespace("ns").all_namespaces(false).selector("app=x");
    assert_eq!(
        args(&g.get()),
        vec![
            "get",
            "--output=json",
            "pods",
            "--filename=f.yaml",
            "--recursive=true",
            "--namespace=ns",
            "--all-namespaces=false",
            "--selector=app=x",
        ]
    );
}

#[test]
fn kubectl_manifest_options() {
    let mut m = Manifest::new("web", "kind: Service");
    assert!(!m.wait);
    assert_eq!(m.timeout, None);
    m.wait(true).timeout(Some(60));
    assert_eq!(args(&m.applier().apply("p")), vec!["apply", "p", "--wait=true"]);
    assert_eq!(m.applier().timeout, Some(60));
    assert_eq!(args(&m.deleter().delete("p")), vec!["delete", "p", "--wait=true"]);
    assert_eq!(m.name, "web");
    assert_eq!(m.body, "kind: Service");
}

#[test]
fn systemd_commands() {
    let s = Service::new("nginx");
    for (inv, verb) in [(s.start(), "start"), (s.stop(), "stop"), (s.restart(), "restart"), (s.reload(), "reload"), (s.status(), "status")] {
        assert_eq!(inv.program, "systemctl");
        assert_eq!(args(&inv), vec![verb, "nginx"]);
    }
}

#[test]
fn systemd_status_codes() {
    let running = Output::new(0, None, None);
    let dead = Output::new(3, None, None);
    assert!(Service::started(&running));
    assert!(!Service::stopped(&running));
    assert!(!Service::started(&dead));
    assert!(Service::stopped(&dead));
}

#[test]
fn systemd_journal() {
    let s = Service::new("sshd");
    let inv = s.journal(250);
    assert_eq!(inv.program, "journalctl");
    assert_eq!(args(&inv), vec!["-u", "sshd", "-n", "250"]);
    let text = Service::journal_text(Output::new(0, Some("log\n".to_string()), Some(String::new()))).unwrap();
    assert_eq!(text, "log\n");
    assert!(matches!(Service::journal_text(Output::new(0, None, None)), Err(Error::StdoutMissing)));
}

#[test]
fn decimal_notation() {
    assert_eq!(decimal(0), "0");
    assert_eq!(decimal(7), "7");
    assert_eq!(decimal(10), "10");
    assert_eq!(decimal(1234567890), "1234567890");
    assert_eq!(decimal(usize::MAX), usize::MAX.to_string());
}

#[test]
fn kubectl_application_options() {
    let manifests = vec![Manifest::new("a", "x"), Manifest::new("b", "y")];
    let mut app = Application::new("shop", Runner::new(), manifests);
    app.wait(true).timeout(Some(5));
    assert_eq!(app.name(), "shop");
    assert_eq!(app.manifests().len(), 2);
    for m in app.manifests() {
        assert!(m.wait);
        assert_eq!(m.timeout, Some(5));
    }
    assert_eq!(app.manifests()[1].name, "b");
    assert_eq!(app.manifests()[1].body, "y");
}

#[test]
fn signed_decimal_notation() {
    assert_eq!(lura::decimal::signed_decimal(-45), "-45");
    assert_eq!(lura::decimal::signed_decimal(0), "0");
    assert_eq!(lura::decimal::signed_decimal(i32::MAX), "2147483647");
}
