use vstd::prelude::*;
use crate::decimal::{decimal, decimal_of};
use crate::error::Error;
use crate::invocation::Invocation;
use crate::output::Output;
use crate::runner::{Runner, RunnerView};

verus! {

/// The order of names: by character code, a proper prefix first (the order
/// of `String`).
pub open spec fn key_less(a: Seq<char>, b: Seq<char>) -> bool
    decreases a.len(),
{
    if a.len() == 0 {
        b.len() > 0
    } else if b.len() == 0 {
        false
    } else if a[0] != b[0] {
        (a[0] as int) < (b[0] as int)
    } else {
        key_less(a.drop_first(), b.drop_first())
    }
}

/// The names of `vars` are in strictly increasing order.
pub open spec fn sorted_keys(vars: Seq<(Seq<char>, Seq<char>)>) -> bool {
    forall|i: int, j: int| 0 <= i < j < vars.len() ==> key_less(#[trigger] vars[i].0, #[trigger] vars[j].0)
}

/// `vars` with `name` set to `value`, keeping the names in order.
pub open spec fn insert_sorted(
    vars: Seq<(Seq<char>, Seq<char>)>,
    name: Seq<char>,
    value: Seq<char>,
) -> Seq<(Seq<char>, Seq<char>)>
    decreases vars.len(),
{
    if vars.len() == 0 {
        seq![(name, value)]
    } else if vars[0].0 == name {
        vars.update(0, (name, value))
    } else if key_less(name, vars[0].0) {
        seq![(name, value)] + vars
    } else {
        seq![vars[0]] + insert_sorted(vars.drop_first(), name, value)
    }
}

proof fn lemma_key_less_irreflexive(a: Seq<char>)
    ensures
        !key_less(a, a),
    decreases a.len(),
{
    if a.len() > 0 {
        lemma_key_less_irreflexive(a.drop_first());
    }
}

proof fn lemma_key_less_total(a: Seq<char>, b: Seq<char>)
    ensures
        a != b ==> key_less(a, b) || key_less(b, a),
    decreases a.len(),
{
    if a.len() > 0 && b.len() > 0 && a[0] == b[0] {
        lemma_key_less_total(a.drop_first(), b.drop_first());
        if a.drop_first() == b.drop_first() {
            assert(a =~= seq![a[0]] + a.drop_first());
            assert(b =~= seq![b[0]] + b.drop_first());
        }
    } else if a.len() == 0 && b.len() == 0 {
        assert(a =~= b);
    } else if a.len() > 0 && b.len() > 0 {
        assert((a[0] as int) != (b[0] as int));
    }
}

proof fn lemma_key_less_transitive(a: Seq<char>, b: Seq<char>, c: Seq<char>)
    ensures
        key_less(a, b) && key_less(b, c) ==> key_less(a, c),
    decreases a.len(),
{
    if a.len() > 0 && b.len() > 0 && c.len() > 0 {
        lemma_key_less_transitive(a.drop_first(), b.drop_first(), c.drop_first());
    }
}

/// Every name of `insert_sorted(vars, name, value)` is `name` or a name of
/// `vars`.
proof fn lemma_insert_sorted_keys(
    vars: Seq<(Seq<char>, Seq<char>)>,
    name: Seq<char>,
    value: Seq<char>,
    i: int,
)
    requires
        0 <= i < insert_sorted(vars, name, value).len(),
    ensures
        insert_sorted(vars, name, value)[i].0 == name || exists|j: int|
            0 <= j < vars.len() && vars[j].0 == insert_sorted(vars, name, value)[i].0,
    decreases vars.len(),
{
    if vars.len() > 0 && vars[0].0 != name && !key_less(name, vars[0].0) && i > 0 {
        lemma_insert_sorted_keys(vars.drop_first(), name, value, i - 1);
        let r = insert_sorted(vars.drop_first(), name, value);
        if r[i - 1].0 != name {
            let j = choose|j: int| 0 <= j < vars.drop_first().len() && vars.drop_first()[j].0 == r[i - 1].0;
            assert(vars[j + 1].0 == r[i - 1].0);
        }
    }
}

proof fn lemma_insert_sorted_sorted(vars: Seq<(Seq<char>, Seq<char>)>, name: Seq<char>, value: Seq<char>)
    requires
        sorted_keys(vars),
    ensures
        sorted_keys(insert_sorted(vars, name, value)),
    decreases vars.len(),
{
    let r = insert_sorted(vars, name, value);
    if vars.len() == 0 {
    } else if vars[0].0 == name {
    } else if key_less(name, vars[0].0) {
        assert forall|i: int, j: int| 0 <= i < j < r.len() implies key_less(#[trigger] r[i].0, #[trigger] r[j].0) by {
            if i == 0 && j > 1 {
                lemma_key_less_transitive(name, vars[0].0, vars[j - 1].0);
            }
        }
    } else {
        let rest = vars.drop_first();
        lemma_insert_sorted_sorted(rest, name, value);
        lemma_key_less_total(vars[0].0, name);
        assert forall|i: int, j: int| 0 <= i < j < r.len() implies key_less(#[trigger] r[i].0, #[trigger] r[j].0) by {
            if i == 0 {
                lemma_insert_sorted_keys(rest, name, value, j - 1);
                let t = insert_sorted(rest, name, value);
                if t[j - 1].0 != name {
                    let k = choose|k: int| 0 <= k < rest.len() && rest[k].0 == t[j - 1].0;
                    assert(vars[k + 1].0 == t[j - 1].0);
                }
            }
        }
    }
}

/// Inserting at the place the first `p` names are all below `name` leaves
/// them in front.
proof fn lemma_insert_sorted_skip(vars: Seq<(Seq<char>, Seq<char>)>, name: Seq<char>, value: Seq<char>, p: int)
    requires
        0 <= p <= vars.len(),
        forall|i: int| 0 <= i < p ==> key_less(#[trigger] vars[i].0, name),
    ensures
        insert_sorted(vars, name, value) == vars.subrange(0, p) + insert_sorted(vars.subrange(p, vars.len() as int), name, value),
    decreases p,
{
    if p == 0 {
        assert(vars.subrange(0, vars.len() as int) =~= vars);
        assert(vars.subrange(0, 0) + insert_sorted(vars, name, value) =~= insert_sorted(vars, name, value));
    } else {
        let rest = vars.drop_first();
        lemma_key_less_irreflexive(name);
        lemma_key_less_transitive(name, vars[0].0, name);
        assert forall|i: int| 0 <= i < p - 1 implies key_less(#[trigger] rest[i].0, name) by {
            assert(rest[i] == vars[i + 1]);
        }
        lemma_insert_sorted_skip(rest, name, value, p - 1);
        assert(rest.subrange(p - 1, rest.len() as int) =~= vars.subrange(p, vars.len() as int));
        assert(seq![vars[0]] + rest.subrange(0, p - 1) =~= vars.subrange(0, p));
        assert(vars[0].0 != name);
    }
}

/// Whether `a` comes before `b` in the order of names.
fn less(a: &str, b: &str) -> (r: bool)
    ensures
        r == key_less(a@, b@),
{
    let la = a.unicode_len();
    let lb = b.unicode_len();
    let mut i: usize = 0;
    proof {
        assert(a@.skip(0) =~= a@);
        assert(b@.skip(0) =~= b@);
    }
    while i < la && i < lb
        invariant
            0 <= i <= la,
            i <= lb,
            la == a@.len(),
            lb == b@.len(),
            key_less(a@, b@) == key_less(a@.skip(i as int), b@.skip(i as int)),
        decreases la - i,
    {
        let ca = a.get_char(i);
        let cb = b.get_char(i);
        if ca != cb {
            return (ca as u32) < (cb as u32);
        }
        proof {
            assert(a@.skip(i as int).drop_first() =~= a@.skip(i + 1));
            assert(b@.skip(i as int).drop_first() =~= b@.skip(i + 1));
        }
        i = i + 1;
    }
    i == la && i < lb
}

/// The arguments of an optional value: `flag` then the value.
pub open spec fn flagged(flag: Seq<char>, value: Option<Seq<char>>) -> Seq<Seq<char>> {
    match value {
        Some(v) => seq![flag, v],
        None => Seq::empty(),
    }
}

/// The argument `flag` when `value` is `Some(true)`.
pub open spec fn when_set(flag: Seq<char>, value: Option<bool>) -> Seq<Seq<char>> {
    if value == Some(true) {
        seq![flag]
    } else {
        Seq::empty()
    }
}

/// `-e name=value` for each extra variable, in order.
pub open spec fn extra_args(vars: Seq<(Seq<char>, Seq<char>)>) -> Seq<Seq<char>>
    decreases vars.len(),
{
    if vars.len() == 0 {
        Seq::empty()
    } else {
        extra_args(vars.drop_last()) + seq!["-e"@, vars.last().0 + "="@ + vars.last().1]
    }
}

/// The model of an `Ansible`.
pub struct AnsibleView {
    pub runner: RunnerView,
    pub user: Option<Seq<char>>,
    pub password: Option<Seq<char>>,
    pub escalate: Option<bool>,
    pub escalate_password: Option<Seq<char>>,
    pub inventory: Option<Seq<char>>,
    pub extra_vars: Seq<(Seq<char>, Seq<char>)>,
    pub timeout: Option<usize>,
    pub check: Option<bool>,
    pub diff: Option<bool>,
}

/// The options that every `ansible` and `ansible-playbook` run gets.
pub open spec fn common_args(v: AnsibleView) -> Seq<Seq<char>> {
    when_set("--check"@, v.check) + when_set("--diff"@, v.diff) + flagged("-u"@, v.user) + when_set(
        "-b"@,
        v.escalate,
    ) + flagged("-i"@, v.inventory) + match v.timeout {
        Some(t) => seq!["-T"@, decimal_of(t as nat)],
        None => Seq::empty(),
    } + match v.password {
        Some(p) => seq!["-e"@, "ansible_password="@ + p],
        None => Seq::empty(),
    } + match v.escalate_password {
        Some(p) => seq!["-e"@, "ansible_become_password="@ + p],
        None => Seq::empty(),
    } + extra_args(v.extra_vars)
}

/// Runs of `ansible` and `ansible-playbook` with shared options.
pub struct Ansible {
    runner: Runner,
    user: Option<String>,
    password: Option<String>,
    escalate: Option<bool>,
    escalate_password: Option<String>,
    inventory: Option<String>,
    extra_vars: Vec<(String, String)>,
    timeout: Option<usize>,
    check: Option<bool>,
    diff: Option<bool>,
}

impl View for Ansible {
    type V = AnsibleView;

    closed spec fn view(&self) -> AnsibleView {
        AnsibleView {
            runner: self.runner@,
            user: self.user.deep_view(),
            password: self.password.deep_view(),
            escalate: self.escalate,
            escalate_password: self.escalate_password.deep_view(),
            inventory: self.inventory.deep_view(),
            extra_vars: self.extra_vars.deep_view(),
            timeout: self.timeout,
            check: self.check,
            diff: self.diff,
        }
    }
}

/// Appends `flag` and `value`, when there is a value.
fn push_flagged(r: &mut Vec<String>, flag: &str, value: &Option<String>)
    ensures
        final(r).deep_view() == old(r).deep_view() + flagged(flag@, value.deep_view()),
{
    if let Some(v) = value {
        r.push(String::from_str(flag));
        r.push(v.clone());
    }
    proof {
        assert(final(r).deep_view() =~= old(r).deep_view() + flagged(flag@, value.deep_view()));
    }
}

/// Appends `flag` when `value` is `Some(true)`.
fn push_when_set(r: &mut Vec<String>, flag: &str, value: Option<bool>)
    ensures
        final(r).deep_view() == old(r).deep_view() + when_set(flag@, value),
{
    if value == Some(true) {
        r.push(String::from_str(flag));
    }
    proof {
        assert(final(r).deep_view() =~= old(r).deep_view() + when_set(flag@, value));
    }
}

/// Appends `-e` and `prefix` followed by the value, when there is a value.
fn push_assignment(r: &mut Vec<String>, prefix: &str, value: &Option<String>)
    ensures
        final(r).deep_view() == old(r).deep_view() + match value.deep_view() {
            Some(p) => seq!["-e"@, prefix@ + p],
            None => Seq::empty(),
        },
{
    if let Some(v) = value {
        r.push(String::from_str("-e"));
        r.push(String::from_str(prefix).concat(v.as_str()));
    }
    proof {
        assert(final(r).deep_view() =~= old(r).deep_view() + match value.deep_view() {
            Some(p) => seq!["-e"@, prefix@ + p],
            None => Seq::empty(),
        });
    }
}

impl Ansible {
    /// Runs through `runner`, with no options set.
    pub fn new(runner: Runner) -> (r: Self)
        ensures
            r@ == (AnsibleView {
                runner: runner@,
                user: None,
                password: None,
                escalate: None,
                escalate_password: None,
                inventory: None,
                extra_vars: Seq::empty(),
                timeout: None,
                check: None,
                diff: None,
            }),
    {
        let r = Ansible {
            runner,
            user: None,
            password: None,
            escalate: None,
            escalate_password: None,
            inventory: None,
            extra_vars: Vec::new(),
            timeout: None,
            check: None,
            diff: None,
        };
        proof {
            assert(r.extra_vars.deep_view() =~= Seq::empty());
        }
        r
    }

    /// The runner of the runs.
    pub fn runner(&self) -> (r: &Runner)
        ensures
            r@ == self@.runner,
    {
        &self.runner
    }

    /// The runner of the runs, for a run to dispatch lines to its
    /// observers.
    pub fn runner_mut(&mut self) -> (r: &mut Runner)
        ensures
            r@ == old(self)@.runner,
            final(self)@ == (AnsibleView { runner: final(r)@, ..old(self)@ }),
    {
        &mut self.runner
    }

    pub fn user(&mut self, user: Option<String>) -> (r: &mut Self)
        ensures
            r@ == (AnsibleView { user: user.deep_view(), ..old(self)@ }),
            *final(self) == *final(r),
    {
        self.user = user;
        self
    }

    pub fn password(&mut self, password: Option<String>) -> (r: &mut Self)
        ensures
            r@ == (AnsibleView { password: password.deep_view(), ..old(self)@ }),
            *final(self) == *final(r),
    {
        self.password = password;
        self
    }

    pub fn escalate(&mut self, value: bool) -> (r: &mut Self)
        ensures
            r@ == (AnsibleView { escalate: Some(value), ..old(self)@ }),
            *final(self) == *final(r),
    {
        self.escalate = Some(value);
        self
    }

    pub fn escalate_password(&mut self, escalate_password: Option<String>) -> (r: &mut Self)
        ensures
            r@ == (AnsibleView { escalate_password: escalate_password.deep_view(), ..old(self)@ }),
            *final(self) == *final(r),
    {
        self.escalate_password = escalate_password;
        self
    }

    pub fn inventory(&mut self, path: Option<String>) -> (r: &mut Self)
        ensures
            r@ == (AnsibleView { inventory: path.deep_view(), ..old(self)@ }),
            *final(self) == *final(r),
    {
        self.inventory = path;
        self
    }

    pub fn clear_extra_vars(&mut self) -> (r: &mut Self)
        ensures
            r@ == (AnsibleView { extra_vars: Seq::empty(), ..old(self)@ }),
            *final(self) == *final(r),
    {
        self.extra_vars = Vec::new();
        proof {
            assert(self.extra_vars.deep_view() =~= Seq::empty());
        }
        self
    }

    /// Sets the extra variable `k` to `v`; the variables are passed in the
    /// order of their names.
    pub fn extra_var(&mut self, k: &str, v: &str) -> (r: &mut Self)
        requires
            sorted_keys(old(self)@.extra_vars),
        ensures
            r@ == (AnsibleView { extra_vars: insert_sorted(old(self)@.extra_vars, k@, v@), ..old(self)@ }),
            sorted_keys(r@.extra_vars),
            *final(self) == *final(r),
    {
        let ghost vars = self.extra_vars.deep_view();
        let n = self.extra_vars.len();
        let mut p: usize = 0;
        while p < n
            invariant
                0 <= p <= n,
                n == self.extra_vars.len(),
                vars == self.extra_vars.deep_view(),
                forall|i: int| 0 <= i < p ==> key_less(#[trigger] vars[i].0, k@),
            ensures
                0 <= p <= n,
                forall|i: int| 0 <= i < p ==> key_less(#[trigger] vars[i].0, k@),
                p == n || !key_less(vars[p as int].0, k@),
            decreases n - p,
        {
            if !less(self.extra_vars[p].0.as_str(), k) {
                break;
            }
            p = p + 1;
        }
        proof {
            lemma_insert_sorted_skip(vars, k@, v@, p as int);
            lemma_insert_sorted_sorted(vars, k@, v@);
        }
        let key = String::from_str(k);
        let found = p < n && self.extra_vars[p].0 == key;
        let entry = (key, String::from_str(v));
        let ghost tail = vars.subrange(p as int, n as int);
        if found {
            self.extra_vars.set(p, entry);
            proof {
                assert(tail[0] == vars[p as int]);
                assert(insert_sorted(tail, k@, v@) == tail.update(0, (k@, v@)));
                assert(self.extra_vars.deep_view() =~= vars.subrange(0, p as int) + tail.update(0, (k@, v@)));
            }
        } else {
            self.extra_vars.insert(p, entry);
            proof {
                if p < n {
                    lemma_key_less_total(vars[p as int].0, k@);
                    assert(tail[0] == vars[p as int]);
                    assert(insert_sorted(tail, k@, v@) == seq![(k@, v@)] + tail);
                } else {
                    assert(insert_sorted(tail, k@, v@) == seq![(k@, v@)]);
                }
                assert(self.extra_vars.deep_view() =~= vars.subrange(0, p as int) + insert_sorted(tail, k@, v@));
            }
        }
        self
    }

    pub fn timeout(&mut self, timeout: Option<usize>) -> (r: &mut Self)
        ensures
            r@ == (AnsibleView { timeout, ..old(self)@ }),
            *final(self) == *final(r),
    {
        self.timeout = timeout;
        self
    }

    pub fn check(&mut self, value: bool) -> (r: &mut Self)
        ensures
            r@ == (AnsibleView { check: Some(value), ..old(self)@ }),
            *final(self) == *final(r),
    {
        self.check = Some(value);
        self
    }

    pub fn diff(&mut self, value: bool) -> (r: &mut Self)
        ensures
            r@ == (AnsibleView { diff: Some(value), ..old(self)@ }),
            *final(self) == *final(r),
    {
        self.diff = Some(value);
        self
    }

    /// The options shared by every run.
    pub fn get_args(&self) -> (r: Vec<String>)
        ensures
            r.deep_view() == common_args(self@),
    {
        let mut r: Vec<String> = Vec::new();
        let ghost start = r.deep_view();
        push_when_set(&mut r, "--check", self.check);
        push_when_set(&mut r, "--diff", self.diff);
        push_flagged(&mut r, "-u", &self.user);
        push_when_set(&mut r, "-b", self.escalate);
        push_flagged(&mut r, "-i", &self.inventory);
        if let Some(timeout) = self.timeout {
            r.push(String::from_str("-T"));
            r.push(decimal(timeout));
        }
        let ghost before_timeout = r.deep_view();
        push_assignment(&mut r, "ansible_password=", &self.password);
        push_assignment(&mut r, "ansible_become_password=", &self.escalate_password);
        let ghost head = r.deep_view();
        let mut i: usize = 0;
        while i < self.extra_vars.len()
            invariant
                0 <= i <= self.extra_vars.len(),
                r.deep_view() == head + extra_args(self.extra_vars.deep_view().subrange(0, i as int)),
            decreases self.extra_vars.len() - i,
        {
            let name = &self.extra_vars[i].0;
            let value = &self.extra_vars[i].1;
            assert(self.extra_vars.deep_view()[i as int] == (name@, value@));
            let assignment = name.clone().concat("=").concat(value.as_str());
            let ghost old_r = r.deep_view();
            r.push(String::from_str("-e"));
            r.push(assignment);
            proof {
                let s = self.extra_vars.deep_view().subrange(0, i + 1);
                assert(s.last() == (name@, value@));
                assert(r.deep_view() =~= old_r + seq!["-e"@, name@ + "="@ + value@]);
                assert(s.drop_last() =~= self.extra_vars.deep_view().subrange(0, i as int));
                assert(r.deep_view() =~= head + extra_args(s));
            }
            i = i + 1;
        }
        proof {
            assert(self.extra_vars.deep_view().subrange(0, self.extra_vars.len() as int) =~= self.extra_vars.deep_view());
            assert(r.deep_view() =~= common_args(self@));
        }
        r
    }

    /// `ansible-playbook <playbook> <options>`
    pub fn playbook(&self, playbook_path: &str) -> (r: Invocation)
        ensures
            r.program@ == "ansible-playbook"@,
            r.args.deep_view() == seq![playbook_path@] + common_args(self@),
    {
        let mut args = self.get_args();
        args.insert(0, String::from_str(playbook_path));
        proof {
            assert(args.deep_view() =~= seq![playbook_path@] + common_args(self@));
        }
        Invocation { program: String::from_str("ansible-playbook"), args }
    }

    /// `ansible ansible -m <module> -a <module_args> <options>`
    pub fn module(&self, module: &str, module_args: &str) -> (r: Invocation)
        ensures
            r.program@ == "ansible"@,
            r.args.deep_view() == seq!["ansible"@, "-m"@, module@, "-a"@, module_args@] + common_args(
                self@,
            ),
    {
        let mut args = Invocation::new("ansible");
        args.arg("ansible");
        args.arg("-m");
        args.arg(module);
        args.arg("-a");
        args.arg(module_args);
        let mut options = self.get_args();
        let ghost front = args.args.deep_view();
        let ghost back = options.deep_view();
        args.args.append(&mut options);
        proof {
            assert(args.args.deep_view() =~= front + back);
            assert(args.args.deep_view() =~= seq!["ansible"@, "-m"@, module@, "-a"@, module_args@]
                + common_args(self@));
        }
        args
    }

    /// How a run ends: an exit code other than 0 is an error.
    pub fn outcome(output: &Output) -> (r: Result<(), Error>)
        ensures
            output@.code == 0 ==> r is Ok,
            output@.code != 0 ==> r == Err::<(), Error>(Error::UnexpectedExitCode(output@.code)),
    {
        let code = output.code();
        if code == 0 {
            Ok(())
        } else {
            Err(Error::UnexpectedExitCode(code))
        }
    }
}

} // verus!
