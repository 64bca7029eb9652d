use lura::error::Error;
use lura::output::Output;
use lura::progs::ansible::Ansible;
use lura::runner::Runner;

fn args(v: &[String]) -> Vec<&str> {
    v.iter().map(|a| a.as_str()).collect()
}

#[test]
fn no_options_no_args() {
    let a = Ansible::new(Runner::new());
    assert!(a.get_args().is_empty());
}

#[test]
fn all_options_in_order() {
    let mut a = Ansible::new(Runner::new());
    a.check(true)
        .diff(true)
        .user(Some("deploy".to_string()))
        .escalate(true)
        .inventory(Some("hosts".to_string()))
        .timeout(Some(30))
        .password(Some("pw".to_string()))
        .escalate_password(Some("root".to_string()));
    assert_eq!(
        args(&a.get_args()),
        vec![
            "--check",
            "--diff",
            "-u",
            "deploy",
            "-b",
            "-i",
            "hosts",
            "-T",
            "30",
            "-e",
            "ansible_password=pw",
            "-e",
            "ansible_become_password=root",
        ]
    );
}

#[test]
fn false_switches_are_left_out() {
    let mut a = Ansible::new(Runner::new());
    a.check(false).diff(false).escalate(false);
    assert!(a.get_args().is_empty());
}

#[test]
fn extra_vars_sorted_by_name_and_overridden() {
    let mut a = Ansible::new(Runner::new());
    a.extra_var("zeta", "1").extra_var("alpha", "2").extra_var("mid", "3").extra_var("alpha", "4");
    assert_eq!(args(&a.get_args()), vec!["-e", "alpha=4", "-e", "mid=3", "-e", "zeta=1"]);
    a.extra_var("al", "5").extra_var("B", "6");
    assert_eq!(
        args(&a.get_args()),
        vec!["-e", "B=6", "-e", "al=5", "-e", "alpha=4", "-e", "mid=3", "-e", "zeta=1"]
    );
    a.clear_extra_vars();
    assert!(a.get_args().is_empty());
}

#[test]
fn playbook_and_module_invocations() {
    let mut a = Ansible::new(Runner::new());
    a.diff(true);
    let p = a.playbook("site.yml");
    assert_eq!(p.program, "ansible-playbook");
    assert_eq!(args(&p.args), vec!["site.yml", "--diff"]);
    let m = a.module("ping", "");
    assert_eq!(m.program, "ansible");
    assert_eq!(args(&m.args), vec!["ansible", "-m", "ping", "-a", "", "--diff"]);
}

#[test]
fn outcome_needs_zero() {
    assert!(Ansible::outcome(&Output::new(0, None, None)).is_ok());
    assert!(matches!(Ansible::outcome(&Output::new(2, None, None)), Err(Error::UnexpectedExitCode(2))));
}
