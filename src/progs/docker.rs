use vstd::prelude::*;
use crate::invocation::Invocation;

verus! {

/// `docker build [-t <tag>] <target>`
pub fn build(target: &str, tag: Option<&str>) -> (r: Invocation)
    ensures
        r.program@ == "docker"@,
        r.args.deep_view() == match tag {
            Some(t) => seq!["build"@, "-t"@, t@, target@],
            None => seq!["build"@, target@],
        },
{
    let mut r = Invocation::new("docker");
    r.arg("build");
    if let Some(t) = tag {
        r.arg("-t");
        r.arg(t);
    }
    r.arg(target);
    proof {
        assert(r.args.deep_view() =~= match tag {
            Some(t) => seq!["build"@, "-t"@, t@, target@],
            None => seq!["build"@, target@],
        });
    }
    r
}

/// `docker tag <src> <dst>`
pub fn tag(src: &str, dst: &str) -> (r: Invocation)
    ensures
        r.program@ == "docker"@,
        r.args.deep_view() == seq!["tag"@, src@, dst@],
{
    let mut r = Invocation::new("docker");
    r.arg("tag");
    r.arg(src);
    r.arg(dst);
    proof {
        assert(r.args.deep_view() =~= seq!["tag"@, src@, dst@]);
    }
    r
}

/// `docker push <target>`
pub fn push(target: &str) -> (r: Invocation)
    ensures
        r.program@ == "docker"@,
        r.args.deep_view() == seq!["push"@, target@],
{
    let mut r = Invocation::new("docker");
    r.arg("push");
    r.arg(target);
    proof {
        assert(r.args.deep_view() =~= seq!["push"@, target@]);
    }
    r
}

} // verus!
