use vstd::prelude::*;

verus! {

/// A named solution reference: a component whose own checkout may declare
/// further children through a nested configuration file.
#[derive(Debug)]
pub struct Solution {
    pub name: String,
    pub src: String,
    pub deps_file: Option<String>,
}

impl Default for Solution {
    fn default() -> (r: Self)
        ensures
            r.name@ == Seq::<char>::empty(),
            r.src@ == Seq::<char>::empty(),
            r.deps_file is None,
    {
        Solution { name: String::new(), src: String::new(), deps_file: None }
    }
}

} // verus!
