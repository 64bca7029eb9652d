use vstd::prelude::*;
use crate::invocation::Invocation;

verus! {

/// The model of a `Clone`.
pub struct CloneView {
    pub url: Seq<char>,
    pub branch: Option<Seq<char>>,
    pub single_branch: Option<bool>,
    pub path: Option<Seq<char>>,
}

/// The arguments of `git` for the clone `c`:
/// `clone [-b <branch>] [--single-branch | --no-single-branch] <url> [<path>]`.
pub open spec fn clone_args(c: CloneView) -> Seq<Seq<char>> {
    seq!["clone"@] + match c.branch {
        Some(b) => seq!["-b"@, b],
        None => Seq::empty(),
    } + match c.single_branch {
        Some(true) => seq!["--single-branch"@],
        Some(false) => seq!["--no-single-branch"@],
        None => Seq::empty(),
    } + seq![c.url] + match c.path {
        Some(p) => seq![p],
        None => Seq::empty(),
    }
}

/// A `git clone` of one repository.
#[derive(Debug)]
pub struct Clone {
    url: String,
    branch: Option<String>,
    single_branch: Option<bool>,
    path: Option<String>,
}

impl View for Clone {
    type V = CloneView;

    closed spec fn view(&self) -> CloneView {
        CloneView {
            url: self.url@,
            branch: self.branch.deep_view(),
            single_branch: self.single_branch,
            path: self.path.deep_view(),
        }
    }
}

impl Clone {
    pub fn new(repo_url: &str) -> (r: Self)
        ensures
            r@ == (CloneView { url: repo_url@, branch: None, single_branch: None, path: None }),
    {
        Clone { url: String::from_str(repo_url), branch: None, single_branch: None, path: None }
    }

    /// The branch to check out.
    pub fn branch(&mut self, branch: &str) -> (r: &mut Self)
        ensures
            r@ == (CloneView { branch: Some(branch@), ..old(self)@ }),
            *final(self) == *final(r),
    {
        self.branch = Some(String::from_str(branch));
        self
    }

    /// Whether to fetch only the history of that branch.
    pub fn single_branch(&mut self, single_branch: bool) -> (r: &mut Self)
        ensures
            r@ == (CloneView { single_branch: Some(single_branch), ..old(self)@ }),
            *final(self) == *final(r),
    {
        self.single_branch = Some(single_branch);
        self
    }

    /// The directory to clone into.
    pub fn path(&mut self, path: &str) -> (r: &mut Self)
        ensures
            r@ == (CloneView { path: Some(path@), ..old(self)@ }),
            *final(self) == *final(r),
    {
        self.path = Some(String::from_str(path));
        self
    }

    /// The arguments of `git` for this clone.
    pub fn run_args(&self) -> (r: Vec<String>)
        ensures
            r.deep_view() == clone_args(self@),
    {
        let mut r = Invocation::new("git");
        r.arg("clone");
        if let Some(branch) = &self.branch {
            r.arg("-b");
            r.arg(branch.as_str());
        }
        if let Some(single_branch) = self.single_branch {
            if single_branch {
                r.arg("--single-branch");
            } else {
                r.arg("--no-single-branch");
            }
        }
        r.arg(self.url.as_str());
        if let Some(path) = &self.path {
            r.arg(path.as_str());
        }
        proof {
            assert(r.args.deep_view() =~= clone_args(self@));
        }
        r.args
    }

    /// The `git` invocation of this clone.
    pub fn invocation(&self) -> (r: Invocation)
        ensures
            r.program@ == "git"@,
            r.args.deep_view() == clone_args(self@),
    {
        Invocation { program: String::from_str("git"), args: self.run_args() }
    }
}

} // verus!
