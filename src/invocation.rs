use vstd::prelude::*;

verus! {

/// A program and the arguments to run it with.
pub struct Invocation {
    pub program: String,
    pub args: Vec<String>,
}

impl Invocation {
    /// An invocation of `program` with no arguments yet.
    pub fn new(program: &str) -> (r: Invocation)
        ensures
            r.program@ == program@,
            r.args.deep_view() == Seq::<Seq<char>>::empty(),
    {
        let r = Invocation { program: String::from_str(program), args: Vec::new() };
        proof {
            assert(r.args.deep_view() =~= Seq::<Seq<char>>::empty());
        }
        r
    }

    /// Appends one argument.
    pub fn arg(&mut self, arg: &str)
        ensures
            final(self).program == old(self).program,
            final(self).args.deep_view() == old(self).args.deep_view().push(arg@),
    {
        self.args.push(String::from_str(arg));
        proof {
            assert(self.args.deep_view() =~= old(self).args.deep_view().push(arg@));
        }
    }
}

} // verus!
