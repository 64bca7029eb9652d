use vstd::prelude::*;
use crate::error::Error;
use crate::invocation::Invocation;
use crate::output::Output;
use crate::runner::{Runner, RunnerView};

verus! {

/// The argument that sets a boolean option: `on` for true, `off` for false,
/// nothing when the option is unset.
pub open spec fn switch(on: Seq<char>, off: Seq<char>, value: Option<bool>) -> Seq<Seq<char>> {
    match value {
        Some(true) => seq![on],
        Some(false) => seq![off],
        None => Seq::empty(),
    }
}

/// The argument `prefix` followed by `value`, when there is a value.
pub open spec fn valued(prefix: Seq<char>, value: Option<Seq<char>>) -> Seq<Seq<char>> {
    match value {
        Some(v) => seq![prefix + v],
        None => Seq::empty(),
    }
}

/// Appends the argument of a boolean option.
fn push_switch(r: &mut Invocation, on: &str, off: &str, value: Option<bool>)
    ensures
        final(r).program == old(r).program,
        final(r).args.deep_view() == old(r).args.deep_view() + switch(on@, off@, value),
{
    match value {
        Some(true) => r.arg(on),
        Some(false) => r.arg(off),
        None => {},
    }
    proof {
        assert(final(r).args.deep_view() =~= old(r).args.deep_view() + switch(on@, off@, value));
    }
}

/// Appends `prefix` followed by `value`, when there is a value.
fn push_valued(r: &mut Invocation, prefix: &str, value: &Option<String>)
    ensures
        final(r).program == old(r).program,
        final(r).args.deep_view() == old(r).args.deep_view() + valued(prefix@, value.deep_view()),
{
    if let Some(v) = value {
        let arg = String::from_str(prefix).concat(v.as_str());
        r.arg(arg.as_str());
    }
    proof {
        assert(final(r).args.deep_view() =~= old(r).args.deep_view() + valued(prefix@, value.deep_view()));
    }
}

/// The arguments of `kubectl` that apply the resources at `path`.
pub open spec fn apply_args(a: Apply, path: Seq<char>) -> Seq<Seq<char>> {
    seq!["apply"@, path] + switch("--recursive=true"@, "--recursive=false"@, a.recursive) + switch(
        "--wait=true"@,
        "--wait=false"@,
        a.wait,
    ) + switch("--dry-run=true"@, "--dry-run=false"@, a.dry_run)
}

/// The arguments of `kubectl` that delete the resources at `path`.
pub open spec fn delete_args(d: Delete, path: Seq<char>) -> Seq<Seq<char>> {
    seq!["delete"@, path] + switch("--recursive=true"@, "--recursive=false"@, d.recursive) + switch(
        "--wait=true"@,
        "--wait=false"@,
        d.wait,
    )
}

/// The arguments of `kubectl` that print the selected resources as JSON.
pub open spec fn get_args(g: GetView) -> Seq<Seq<char>> {
    seq!["get"@, "--output=json"@] + match g.resource {
        Some(r) => seq![r],
        None => Seq::empty(),
    } + valued("--filename="@, g.filename) + switch(
        "--recursive=true"@,
        "--recursive=false"@,
        g.recursive,
    ) + valued("--namespace="@, g.namespace) + switch(
        "--all-namespaces=true"@,
        "--all-namespaces=false"@,
        g.all_namespaces,
    ) + valued("--selector="@, g.selector)
}

/// Options of `kubectl apply`.
#[derive(Clone, Copy, Debug)]
pub struct Apply {
    pub recursive: Option<bool>,
    pub wait: Option<bool>,
    pub timeout: Option<usize>,
    pub dry_run: Option<bool>,
}

impl Apply {
    pub fn new() -> (r: Self)
        ensures
            r == (Apply { recursive: None, wait: None, timeout: None, dry_run: None }),
    {
        Apply { recursive: None, wait: None, timeout: None, dry_run: None }
    }

    pub fn recursive(&mut self, value: bool) -> (r: &mut Self)
        ensures
            *r == (Apply { recursive: Some(value), ..*old(self) }),
            *final(self) == *final(r),
    {
        self.recursive = Some(value);
        self
    }

    pub fn wait(&mut self, value: bool) -> (r: &mut Self)
        ensures
            *r == (Apply { wait: Some(value), ..*old(self) }),
            *final(self) == *final(r),
    {
        self.wait = Some(value);
        self
    }

    pub fn timeout(&mut self, value: Option<usize>) -> (r: &mut Self)
        ensures
            *r == (Apply { timeout: value, ..*old(self) }),
            *final(self) == *final(r),
    {
        self.timeout = value;
        self
    }

    pub fn dry_run(&mut self, value: bool) -> (r: &mut Self)
        ensures
            *r == (Apply { dry_run: Some(value), ..*old(self) }),
            *final(self) == *final(r),
    {
        self.dry_run = Some(value);
        self
    }

    /// The `kubectl` invocation that applies the resources at `path`.
    pub fn apply(&self, path: &str) -> (r: Invocation)
        ensures
            r.program@ == "kubectl"@,
            r.args.deep_view() == apply_args(*self, path@),
    {
        let mut r = Invocation::new("kubectl");
        r.arg("apply");
        r.arg(path);
        push_switch(&mut r, "--recursive=true", "--recursive=false", self.recursive);
        push_switch(&mut r, "--wait=true", "--wait=false", self.wait);
        push_switch(&mut r, "--dry-run=true", "--dry-run=false", self.dry_run);
        proof {
            assert(r.args.deep_view() =~= apply_args(*self, path@));
        }
        r
    }
}

/// Options of `kubectl delete`.
#[derive(Clone, Copy, Debug)]
pub struct Delete {
    pub recursive: Option<bool>,
    pub wait: Option<bool>,
    pub timeout: Option<usize>,
}

impl Delete {
    pub fn new() -> (r: Self)
        ensures
            r == (Delete { recursive: None, wait: None, timeout: None }),
    {
        Delete { recursive: None, wait: None, timeout: None }
    }

    pub fn recursive(&mut self, value: bool) -> (r: &mut Self)
        ensures
            *r == (Delete { recursive: Some(value), ..*old(self) }),
            *final(self) == *final(r),
    {
        self.recursive = Some(value);
        self
    }

    pub fn wait(&mut self, value: bool) -> (r: &mut Self)
        ensures
            *r == (Delete { wait: Some(value), ..*old(self) }),
            *final(self) == *final(r),
    {
        self.wait = Some(value);
        self
    }

    pub fn timeout(&mut self, value: Option<usize>) -> (r: &mut Self)
        ensures
            *r == (Delete { timeout: value, ..*old(self) }),
            *final(self) == *final(r),
    {
        self.timeout = value;
        self
    }

    /// The `kubectl` invocation that deletes the resources at `path`.
    pub fn delete(&self, path: &str) -> (r: Invocation)
        ensures
            r.program@ == "kubectl"@,
            r.args.deep_view() == delete_args(*self, path@),
    {
        let mut r = Invocation::new("kubectl");
        r.arg("delete");
        r.arg(path);
        push_switch(&mut r, "--recursive=true", "--recursive=false", self.recursive);
        push_switch(&mut r, "--wait=true", "--wait=false", self.wait);
        proof {
            assert(r.args.deep_view() =~= delete_args(*self, path@));
        }
        r
    }
}

/// The model of a `Get`.
pub struct GetView {
    pub resource: Option<Seq<char>>,
    pub filename: Option<Seq<char>>,
    pub recursive: Option<bool>,
    pub namespace: Option<Seq<char>>,
    pub all_namespaces: Option<bool>,
    pub selector: Option<Seq<char>>,
}

/// Options of `kubectl get`.
#[derive(Clone, Debug)]
pub struct Get {
    pub resource: Option<String>,
    pub filename: Option<String>,
    pub recursive: Option<bool>,
    pub namespace: Option<String>,
    pub all_namespaces: Option<bool>,
    pub selector: Option<String>,
}

impl View for Get {
    type V = GetView;

    open spec fn view(&self) -> GetView {
        GetView {
            resource: self.resource.deep_view(),
            filename: self.filename.deep_view(),
            recursive: self.recursive,
            namespace: self.namespace.deep_view(),
            all_namespaces: self.all_namespaces,
            selector: self.selector.deep_view(),
        }
    }
}

impl Get {
    pub fn new() -> (r: Self)
        ensures
            r@ == (GetView {
                resource: None,
                filename: None,
                recursive: None,
                namespace: None,
                all_namespaces: None,
                selector: None,
            }),
    {
        Get {
            resource: None,
            filename: None,
            recursive: None,
            namespace: None,
            all_namespaces: None,
            selector: None,
        }
    }

    pub fn resource(&mut self, resource: &str) -> (r: &mut Self)
        ensures
            r@ == (GetView { resource: Some(resource@), ..old(self)@ }),
            *final(self) == *final(r),
    {
        self.resource = Some(String::from_str(resource));
        self
    }

    pub fn filename(&mut self, filename: &str) -> (r: &mut Self)
        ensures
            r@ == (GetView { filename: Some(filename@), ..old(self)@ }),
            *final(self) == *final(r),
    {
        self.filename = Some(String::from_str(filename));
        self
    }

    pub fn recursive(&mut self, value: bool) -> (r: &mut Self)
        ensures
            r@ == (GetView { recursive: Some(value), ..old(self)@ }),
            *final(self) == *final(r),
    {
        self.recursive = Some(value);
        self
    }

    pub fn namespace(&mut self, namespace: &str) -> (r: &mut Self)
        ensures
            r@ == (GetView { namespace: Some(namespace@), ..old(self)@ }),
            *final(self) == *final(r),
    {
        self.namespace = Some(String::from_str(namespace));
        self
    }

    pub fn all_namespaces(&mut self, value: bool) -> (r: &mut Self)
        ensures
            r@ == (GetView { all_namespaces: Some(value), ..old(self)@ }),
            *final(self) == *final(r),
    {
        self.all_namespaces = Some(value);
        self
    }

    pub fn selector(&mut self, selector: &str) -> (r: &mut Self)
        ensures
            r@ == (GetView { selector: Some(selector@), ..old(self)@ }),
            *final(self) == *final(r),
    {
        self.selector = Some(String::from_str(selector));
        self
    }

    /// The `kubectl` invocation that prints the selected resources as JSON.
    pub fn get(&self) -> (r: Invocation)
        ensures
            r.program@ == "kubectl"@,
            r.args.deep_view() == get_args(self@),
    {
        let mut r = Invocation::new("kubectl");
        r.arg("get");
        r.arg("--output=json");
        if let Some(resource) = &self.resource {
            r.arg(resource.as_str());
        }
        push_valued(&mut r, "--filename=", &self.filename);
        push_switch(&mut r, "--recursive=true", "--recursive=false", self.recursive);
        push_valued(&mut r, "--namespace=", &self.namespace);
        push_switch(&mut r, "--all-namespaces=true", "--all-namespaces=false", self.all_namespaces);
        push_valued(&mut r, "--selector=", &self.selector);
        proof {
            assert(r.args.deep_view() =~= get_args(self@));
        }
        r
    }

    /// The JSON text that a run of `get` printed, which must have been
    /// captured.
    pub fn json_text(output: Output) -> (r: Result<String, Error>)
        ensures
            match output@.stdout {
                Some(text) => r is Ok && r->Ok_0@ == text,
                None => r is Err && r->Err_0 is StdoutMissing,
            },
    {
        output.captured_stdout()
    }
}

/// A resource manifest held in memory.
#[derive(Clone, Debug)]
pub struct Manifest {
    pub name: String,
    pub body: String,
    pub wait: bool,
    pub timeout: Option<usize>,
}

impl Manifest {
    pub fn new(name: &str, body: &str) -> (r: Self)
        ensures
            r.name@ == name@,
            r.body@ == body@,
            !r.wait,
            r.timeout is None,
    {
        Manifest { name: String::from_str(name), body: String::from_str(body), wait: false, timeout: None }
    }

    pub fn wait(&mut self, value: bool) -> (r: &mut Self)
        ensures
            r.wait == value,
            r.timeout == old(self).timeout,
            r.name == old(self).name,
            r.body == old(self).body,
            *final(self) == *final(r),
    {
        self.wait = value;
        self
    }

    pub fn timeout(&mut self, value: Option<usize>) -> (r: &mut Self)
        ensures
            r.timeout == value,
            r.wait == old(self).wait,
            r.name == old(self).name,
            r.body == old(self).body,
            *final(self) == *final(r),
    {
        self.timeout = value;
        self
    }

    /// The options under which the manifest is applied.
    pub fn applier(&self) -> (r: Apply)
        ensures
            r == (Apply { recursive: None, wait: Some(self.wait), timeout: self.timeout, dry_run: None }),
    {
        let mut r = Apply::new();
        r.wait(self.wait).timeout(self.timeout);
        r
    }

    /// The options under which the manifest is deleted.
    pub fn deleter(&self) -> (r: Delete)
        ensures
            r == (Delete { recursive: None, wait: Some(self.wait), timeout: self.timeout }),
    {
        let mut r = Delete::new();
        r.wait(self.wait).timeout(self.timeout);
        r
    }
}

/// The manifest `m` with `wait` and `timeout` as given.
pub open spec fn with_options(m: Manifest, wait: bool, timeout: Option<usize>) -> Manifest {
    Manifest { wait, timeout, ..m }
}

/// A named set of manifests, applied and deleted together through one
/// runner.
pub struct Application {
    name: String,
    runner: Runner,
    manifests: Vec<Manifest>,
}

impl Application {
    pub fn new(name: &str, runner: Runner, manifests: Vec<Manifest>) -> (r: Self)
        ensures
            r.name_view() == name@,
            r.runner_view() == runner@,
            r.manifests_view() == manifests@,
    {
        Application { name: String::from_str(name), runner, manifests }
    }

    pub closed spec fn name_view(&self) -> Seq<char> {
        self.name@
    }

    pub fn name(&self) -> (r: &str)
        ensures
            r@ == self.name_view(),
    {
        self.name.as_str()
    }

    pub closed spec fn runner_view(&self) -> RunnerView {
        self.runner@
    }

    pub closed spec fn manifests_view(&self) -> Seq<Manifest> {
        self.manifests@
    }

    pub fn runner(&self) -> (r: &Runner)
        ensures
            r@ == self.runner_view(),
    {
        &self.runner
    }

    pub fn manifests(&self) -> (r: &Vec<Manifest>)
        ensures
            r@ == self.manifests_view(),
    {
        &self.manifests
    }

    /// The manifests and the runner, for running each manifest through the
    /// runner.
    pub fn parts_mut(&mut self) -> (r: (&Vec<Manifest>, &mut Runner))
        ensures
            r.0@ == old(self).manifests_view(),
            r.1@ == old(self).runner_view(),
            final(self).name_view() == old(self).name_view(),
            final(self).manifests_view() == old(self).manifests_view(),
            final(self).runner_view() == final(r.1)@,
    {
        (&self.manifests, &mut self.runner)
    }

    /// Sets `wait` on every manifest.
    pub fn wait(&mut self, value: bool) -> (r: &mut Self)
        ensures
            r.name_view() == old(self).name_view(),
            r.runner_view() == old(self).runner_view(),
            r.manifests_view().len() == old(self).manifests_view().len(),
            forall|i: int| 0 <= i < r.manifests_view().len() ==> #[trigger] r.manifests_view()[i] == with_options(
                old(self).manifests_view()[i],
                value,
                old(self).manifests_view()[i].timeout,
            ),
            *final(self) == *final(r),
    {
        let mut i: usize = 0;
        while i < self.manifests.len()
            invariant
                0 <= i <= self.manifests.len(),
                self.name == old(self).name,
                self.runner == old(self).runner,
                self.manifests@.len() == old(self).manifests@.len(),
                forall|k: int| 0 <= k < i ==> #[trigger] self.manifests@[k] == with_options(
                    old(self).manifests@[k],
                    value,
                    old(self).manifests@[k].timeout,
                ),
                forall|k: int| i <= k < self.manifests@.len() ==> #[trigger] self.manifests@[k] == old(self).manifests@[k],
            decreases self.manifests.len() - i,
        {
            let m = Manifest {
                name: self.manifests[i].name.clone(),
                body: self.manifests[i].body.clone(),
                wait: value,
                timeout: self.manifests[i].timeout,
            };
            self.manifests.set(i, m);
            i = i + 1;
        }
        self
    }

    /// Sets `timeout` on every manifest.
    pub fn timeout(&mut self, value: Option<usize>) -> (r: &mut Self)
        ensures
            r.name_view() == old(self).name_view(),
            r.runner_view() == old(self).runner_view(),
            r.manifests_view().len() == old(self).manifests_view().len(),
            forall|i: int| 0 <= i < r.manifests_view().len() ==> #[trigger] r.manifests_view()[i] == with_options(
                old(self).manifests_view()[i],
                old(self).manifests_view()[i].wait,
                value,
            ),
            *final(self) == *final(r),
    {
        let mut i: usize = 0;
        while i < self.manifests.len()
            invariant
                0 <= i <= self.manifests.len(),
                self.name == old(self).name,
                self.runner == old(self).runner,
                self.manifests@.len() == old(self).manifests@.len(),
                forall|k: int| 0 <= k < i ==> #[trigger] self.manifests@[k] == with_options(
                    old(self).manifests@[k],
                    old(self).manifests@[k].wait,
                    value,
                ),
                forall|k: int| i <= k < self.manifests@.len() ==> #[trigger] self.manifests@[k] == old(self).manifests@[k],
            decreases self.manifests.len() - i,
        {
            let m = Manifest {
                name: self.manifests[i].name.clone(),
                body: self.manifests[i].body.clone(),
                wait: self.manifests[i].wait,
                timeout: value,
            };
            self.manifests.set(i, m);
            i = i + 1;
        }
        self
    }
}

} // verus!
