use lura::error::Error;
use lura::shell::{find_shell, select_shell, sh_invocation, shell_invocation};

#[test]
fn bash_is_preferred() {
    assert_eq!(select_shell(true, true), Some("bash"));
    assert_eq!(select_shell(true, false), Some("bash"));
    assert_eq!(select_shell(false, true), Some("sh"));
    assert_eq!(select_shell(false, false), None);
}

#[test]
fn shell_runs_command_line() {
    let inv = shell_invocation("sh", "echo hi");
    assert_eq!(inv.program, "sh");
    assert_eq!(inv.args, vec!["-c".to_string(), "echo hi".to_string()]);
}

#[test]
fn echo_hi_finds_an_interpreter() {
    let shell = find_shell();
    match sh_invocation("echo hi") {
        Ok(inv) => {
            assert!(inv.program == "bash" || inv.program == "sh");
            assert_eq!(Some(inv.program.as_str()), shell);
            assert_eq!(inv.args, vec!["-c".to_string(), "echo hi".to_string()]);
        },
        Err(e) => {
            assert!(matches!(e, Error::ShellMissing));
            assert_eq!(shell, None);
        },
    }
}
