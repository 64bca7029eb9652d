use vstd::prelude::*;
use crate::error::Error;
use crate::invocation::Invocation;

verus! {

/// The interpreters that `sh_invocation` looks for, in order of preference.
pub const BASH: &'static str = "bash";

pub const SH: &'static str = "sh";

/// Relies on `which::which`: whether an executable file named `name` is found
/// on the search path. The answer depends on the machine, so nothing is
/// promised of it.
#[verifier::external_body]
fn on_path(name: &str) -> (r: bool) {
    which::which(name).is_ok()
}

/// The interpreter to use, given which of them were found: bash is
/// preferred over sh.
pub fn select_shell(bash_found: bool, sh_found: bool) -> (r: Option<&'static str>)
    ensures
        r.deep_view() == if bash_found {
            Some(BASH@)
        } else if sh_found {
            Some(SH@)
        } else {
            None
        },
{
    if bash_found {
        Some(BASH)
    } else if sh_found {
        Some(SH)
    } else {
        None
    }
}

/// The first interpreter of the preference list found on this machine.
pub fn find_shell() -> (r: Option<&'static str>)
    ensures
        r is Some ==> r->Some_0@ == BASH@ || r->Some_0@ == SH@,
{
    let bash_found = on_path(BASH);
    let sh_found = if bash_found {
        false
    } else {
        on_path(SH)
    };
    select_shell(bash_found, sh_found)
}

/// The invocation that has `shell` run the command line `contents`.
pub fn shell_invocation(shell: &str, contents: &str) -> (r: Invocation)
    ensures
        r.program@ == shell@,
        r.args.deep_view() == seq!["-c"@, contents@],
{
    let mut r = Invocation::new(shell);
    r.arg("-c");
    r.arg(contents);
    proof {
        assert(r.args.deep_view() =~= seq!["-c"@, contents@]);
    }
    r
}

/// The invocation that runs the command line `contents` through the
/// preferred interpreter of this machine, or `ShellMissing` when none is
/// found.
pub fn sh_invocation(contents: &str) -> (r: Result<Invocation, Error>)
    ensures
        r is Ok ==> (r->Ok_0.program@ == BASH@ || r->Ok_0.program@ == SH@) && r->Ok_0.args.deep_view()
            == seq!["-c"@, contents@],
        r is Err ==> r->Err_0 is ShellMissing,
{
    match find_shell() {
        Some(shell) => Ok(shell_invocation(shell, contents)),
        None => Err(Error::ShellMissing),
    }
}

} // verus!
