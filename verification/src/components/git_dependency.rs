use vstd::prelude::*;

verus! {

/// Version-control attributes of one component: the remote URL, an optional
/// branch, an optional commit, the optional path of this component's own
/// nested configuration file, and an optional path-scoping list.
///
/// Both component kinds carry these attributes: a solution is always also a
/// version-control reference.
#[derive(Debug)]
pub struct GitDependency {
    pub paths: Option<Vec<String>>,
    pub url: String,
    pub commit: Option<String>,
    pub branch: Option<String>,
    pub deps_file: Option<String>,
}

impl Default for GitDependency {
    fn default() -> (r: Self)
        ensures
            r.paths is None,
            r.url@ == Seq::<char>::empty(),
            r.commit is None,
            r.branch is None,
            r.deps_file is None,
    {
        GitDependency {
            paths: None,
            url: String::new(),
            commit: None,
            branch: None,
            deps_file: None,
        }
    }
}

} // verus!
