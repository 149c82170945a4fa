use vstd::prelude::*;

use crate::components::git_dependency::GitDependency;
use crate::errors::Error;

verus! {

/// The states of the per-node synchronization protocol, in the order the
/// protocol walks them.  `CheckedOut` and `Failed` are terminal.
#[derive(Clone, Copy, PartialEq, Eq, Structural, Debug)]
pub enum SyncState {
    Uninitialized,
    CacheFetched,
    TargetLinked,
    TargetFetched,
    CheckedOut,
    Failed,
}

/// The outside work that brings the protocol one state further: fetch the
/// ref into the cache repository, register the cache as an object-store
/// alternate of the target, fetch into the target, check the working tree
/// out.  `Done` and `Abort` mean no work is left.
#[derive(Clone, Copy, PartialEq, Eq, Structural, Debug)]
pub enum SyncAction {
    FetchCache,
    LinkAlternate,
    FetchTarget,
    Checkout,
    Done,
    Abort,
}

/// What to do next in each protocol state.
pub fn next_action(state: SyncState) -> (r: SyncAction)
    ensures
        state is Uninitialized ==> r is FetchCache,
        state is CacheFetched ==> r is LinkAlternate,
        state is TargetLinked ==> r is FetchTarget,
        state is TargetFetched ==> r is Checkout,
        state is CheckedOut ==> r is Done,
        state is Failed ==> r is Abort,
{
    match state {
        SyncState::Uninitialized => SyncAction::FetchCache,
        SyncState::CacheFetched => SyncAction::LinkAlternate,
        SyncState::TargetLinked => SyncAction::FetchTarget,
        SyncState::TargetFetched => SyncAction::Checkout,
        SyncState::CheckedOut => SyncAction::Done,
        SyncState::Failed => SyncAction::Abort,
    }
}

/// One transition of the protocol: a failed step moves any live state to
/// `Failed`, a successful step moves to the next state in the chain, and the
/// two terminal states absorb every further step.
pub fn advance(state: SyncState, ok: bool) -> (r: SyncState)
    ensures
        state is CheckedOut ==> r is CheckedOut,
        state is Failed ==> r is Failed,
        !(state is CheckedOut) && !(state is Failed) && !ok ==> r is Failed,
        state is Uninitialized && ok ==> r is CacheFetched,
        state is CacheFetched && ok ==> r is TargetLinked,
        state is TargetLinked && ok ==> r is TargetFetched,
        state is TargetFetched && ok ==> r is CheckedOut,
{
    match state {
        SyncState::CheckedOut => SyncState::CheckedOut,
        SyncState::Failed => SyncState::Failed,
        _ => {
            if !ok {
                SyncState::Failed
            } else {
                match state {
                    SyncState::Uninitialized => SyncState::CacheFetched,
                    SyncState::CacheFetched => SyncState::TargetLinked,
                    SyncState::TargetLinked => SyncState::TargetFetched,
                    _ => SyncState::CheckedOut,
                }
            }
        },
    }
}

/// The ref- and checkout-level decisions of one version-control visit, made
/// once the fetch head is known: which local reference to update and to what,
/// what to check the working tree out to, and what HEAD is set to afterwards.
#[derive(Debug)]
pub struct GitVisitPlan {
    /// The local reference updated for a branch visit, `refs/for/<branch>`;
    /// none for a bare commit visit.
    pub refname: Option<String>,
    /// The commit the reference and the working tree end at.
    pub target: String,
    /// What HEAD is set to: the updated reference for a branch visit, the
    /// bare commit otherwise.
    pub head: String,
}

/// The refspec one visit fetches: the branch when one is requested,
/// otherwise the commit; a dependency with neither is rejected.
pub fn fetch_refspec(dep: &GitDependency) -> (r: Result<&String, Error>)
    ensures
        dep.branch matches Some(b) ==> (r matches Ok(s) && s == b),
        dep.branch is None && dep.commit is Some ==> (r matches Ok(s) && Some(*s) == dep.commit),
        dep.branch is None && dep.commit is None ==> (r matches Err(e) && e.message@
            == "neither branch nor commit is specified"@),
{
    match &dep.branch {
        Some(b) => Ok(b),
        None => match &dep.commit {
            Some(c) => Ok(c),
            None => Err(Error::new("neither branch nor commit is specified".to_owned())),
        },
    }
}

/// Unit strategy object whose visit performs the synchronization protocol on
/// each node.
pub struct ComponentSyncVisitor {}

impl ComponentSyncVisitor {
    pub fn new() -> (r: Self)
        ensures
            r == (ComponentSyncVisitor {  }),
    {
        ComponentSyncVisitor {  }
    }

    /// Decision core of one version-control visit, once the requested ref has
    /// been fetched and its head commit is known.  A requested branch pins
    /// the reference `refs/for/<branch>` — at the requested commit when one
    /// is given, else at the fetch head — and HEAD attaches to that
    /// reference.  Without a branch, the requested commit is checked out with
    /// HEAD at the bare commit.  With neither, the visit is rejected.
    pub fn plan_visit_git(&self, dep: &GitDependency, fetch_head: &str) -> (r: Result<
        GitVisitPlan,
        Error,
    >)
        ensures
            dep.branch matches Some(b) ==> (r matches Ok(p) && p.refname matches Some(rn) && rn@
                == "refs/for/"@ + b@ && p.head@ == rn@ && p.target@ == (match dep.commit {
                Some(c) => c@,
                None => fetch_head@,
            })),
            dep.branch is None && dep.commit is Some ==> (r matches Ok(p) && p.refname is None
                && Some(p.target) == dep.commit && Some(p.head) == dep.commit),
            dep.branch is None && dep.commit is None ==> (r matches Err(e) && e.message@
                == "neither branch nor commit is specified"@),
    {
        if let Some(b) = &dep.branch {
            let mut rn = String::new();
            rn.append("refs/for/");
            rn.append(b.as_str());
            proof {
                assert(rn@ =~= "refs/for/"@ + b@);
            }
            let target = match &dep.commit {
                Some(c) => c.clone(),
                None => fetch_head.to_owned(),
            };
            let head = rn.clone();
            Ok(GitVisitPlan { refname: Some(rn), target, head })
        } else if let Some(c) = &dep.commit {
            Ok(GitVisitPlan { refname: None, target: c.clone(), head: c.clone() })
        } else {
            Err(Error::new("neither branch nor commit is specified".to_owned()))
        }
    }
}

} // verus!
