use vstd::prelude::*;

use crate::utils::fs::path_join;
use crate::utils::fs::path_join_spec;

verus! {

/// Unit strategy object of the plain synchronization walk: its solution
/// visit expands a declared nested configuration and then reports the
/// solution done.
pub struct ComponentSyncVisitor {}

impl ComponentSyncVisitor {
    pub fn new() -> (r: Self)
        ensures
            r == (ComponentSyncVisitor {  }),
    {
        ComponentSyncVisitor {  }
    }

    /// The location this solution visit hands to the configuration
    /// collaborator: the declared nested-configuration path resolved under
    /// the solution's directory, or nothing when none is declared.
    pub fn deps_to_parse(&self, root_dir: &str, deps_file: &Option<String>) -> (r: Option<String>)
        ensures
            r is Some <==> deps_file is Some,
            deps_file matches Some(f) ==> (r matches Some(p) && p@ == path_join_spec(
                root_dir@,
                f@,
            )),
    {
        match deps_file {
            Some(f) => Some(path_join(root_dir, f.as_str())),
            None => None,
        }
    }

    /// The completion line printed for a finished solution.
    pub fn solution_done_message(&self, solution_name: &str) -> (r: String)
        ensures
            r@ == "Solution "@ + solution_name@ + " is done"@,
    {
        let mut m = String::new();
        m.append("Solution ");
        m.append(solution_name);
        m.append(" is done");
        proof {
            assert(m@ =~= "Solution "@ + solution_name@ + " is done"@);
        }
        m
    }
}

} // verus!
