use vstd::prelude::*;
use crate::error::Error;
use crate::invocation::Invocation;
use crate::decimal::{decimal, decimal_of};
use crate::output::Output;

verus! {

/// A systemd unit, controlled through `systemctl`.
pub struct Service(String);

impl View for Service {
    type V = Seq<char>;

    closed spec fn view(&self) -> Seq<char> {
        self.0@
    }
}

impl Service {
    pub fn new(name: &str) -> (r: Self)
        ensures
            r@ == name@,
    {
        Service(String::from_str(name))
    }

    /// `systemctl <command> <unit>`
    fn systemctl(&self, command: &str) -> (r: Invocation)
        ensures
            r.program@ == "systemctl"@,
            r.args.deep_view() == seq![command@, self@],
    {
        let mut r = Invocation::new("systemctl");
        r.arg(command);
        r.arg(self.0.as_str());
        proof {
            assert(r.args.deep_view() =~= seq![command@, self@]);
        }
        r
    }

    /// `systemctl start <unit>`
    pub fn start(&self) -> (r: Invocation)
        ensures
            r.program@ == "systemctl"@,
            r.args.deep_view() == seq!["start"@, self@],
    {
        self.systemctl("start")
    }

    /// `systemctl stop <unit>`
    pub fn stop(&self) -> (r: Invocation)
        ensures
            r.program@ == "systemctl"@,
            r.args.deep_view() == seq!["stop"@, self@],
    {
        self.systemctl("stop")
    }

    /// `systemctl restart <unit>`
    pub fn restart(&self) -> (r: Invocation)
        ensures
            r.program@ == "systemctl"@,
            r.args.deep_view() == seq!["restart"@, self@],
    {
        self.systemctl("restart")
    }

    /// `systemctl reload <unit>`
    pub fn reload(&self) -> (r: Invocation)
        ensures
            r.program@ == "systemctl"@,
            r.args.deep_view() == seq!["reload"@, self@],
    {
        self.systemctl("reload")
    }

    /// `systemctl status <unit>`, whose exit code tells whether the unit runs.
    pub fn status(&self) -> (r: Invocation)
        ensures
            r.program@ == "systemctl"@,
            r.args.deep_view() == seq!["status"@, self@],
    {
        self.systemctl("status")
    }

    /// Whether the unit runs, according to the output of `status`.
    pub fn started(status: &Output) -> (r: bool)
        ensures
            r == (status@.code == 0),
    {
        status.code() == 0
    }

    /// Whether the unit is stopped, according to the output of `status`.
    pub fn stopped(status: &Output) -> (r: bool)
        ensures
            r == (status@.code != 0),
    {
        status.code() != 0
    }

    /// `journalctl -u <unit> -n <lines>`
    pub fn journal(&self, lines: usize) -> (r: Invocation)
        ensures
            r.program@ == "journalctl"@,
            r.args.deep_view() == seq!["-u"@, self@, "-n"@, decimal_of(lines as nat)],
    {
        let mut r = Invocation::new("journalctl");
        r.arg("-u");
        r.arg(self.0.as_str());
        r.arg("-n");
        let count = decimal(lines);
        r.arg(count.as_str());
        proof {
            assert(r.args.deep_view() =~= seq!["-u"@, self@, "-n"@, decimal_of(lines as nat)]);
        }
        r
    }

    /// The journal text of a run of `journal`, which must have been
    /// captured.
    pub fn journal_text(output: Output) -> (r: Result<String, Error>)
        ensures
            match output@.stdout {
                Some(text) => r is Ok && r->Ok_0@ == text,
                None => r is Err && r->Err_0 is StdoutMissing,
            },
    {
        output.captured_stdout()
    }
}

} // verus!
