use vstd::prelude::*;

use crate::errors::Error;

verus! {

/// Expansion gate for solution nodes: children are discovered only once the
/// node's own version-control visit has succeeded, and only when the node
/// declares a nested-configuration path that exists under its synced
/// directory.  The returned path is the one to hand to the configuration
/// collaborator; `None` means nothing is expanded.
pub fn plan_solution_expansion(
    git_ok: bool,
    deps_file: Option<String>,
    deps_file_exists: bool,
) -> (r: Option<String>)
    ensures
        r is Some <==> git_ok && deps_file is Some && deps_file_exists,
        r is Some ==> r == deps_file,
{
    if git_ok && deps_file_exists {
        deps_file
    } else {
        None
    }
}

/// The rejection for a declared nested-configuration path that does not
/// exist at the resolved location.
pub fn missing_config_error(config_path: &str) -> (r: Error)
    ensures
        r.message@ == "Can not find a valid config file in path "@ + config_path@,
{
    let mut m = String::new();
    m.append("Can not find a valid config file in path ");
    m.append(config_path);
    proof {
        assert(m@ =~= "Can not find a valid config file in path "@ + config_path@);
    }
    Error::new(m)
}

} // verus!
