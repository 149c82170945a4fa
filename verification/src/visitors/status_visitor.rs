use vstd::prelude::*;

use crate::utils::fs::path_join;
use crate::utils::fs::path_join_spec;

verus! {

/// Unit strategy object whose visit collects read-only status per node; a
/// solution visit is the same read-only collection.
pub struct StatusVisitor {}

impl StatusVisitor {
    pub fn new() -> (r: Self)
        ensures
            r == (StatusVisitor {  }),
    {
        StatusVisitor {  }
    }

    /// Where the status of one node is collected: the node's target
    /// directory resolved under the traversal root.
    pub fn repo_dir(&self, root_dir: &str, target_dir: &str) -> (r: String)
        ensures
            r@ == path_join_spec(root_dir@, target_dir@),
    {
        path_join(root_dir, target_dir)
    }
}

} // verus!
