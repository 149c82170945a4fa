use vstd::prelude::*;

use crate::errors::Error;
use crate::utils::fs::path_join;
use crate::utils::fs::path_join_spec;
use crate::utils::git_utils::get_repo_name;
use crate::utils::git_utils::repo_name_spec;
use crate::utils::text::clone_opt_string;

verus! {

/// The arguments of the synchronization command: an optional root directory,
/// and the optional remote URL, branch, commit and remote name.
pub struct CommandArgs {
    pub dir: Option<String>,
    pub url: Option<String>,
    pub branch: Option<String>,
    pub commit: Option<String>,
    pub remote: Option<String>,
}

/// What the surroundings of the requested root look like: the current
/// working directory, whether the requested directory already exists, and —
/// for an existing checkout — its configured remote URL, the branch and
/// commit HEAD points at, and the remote's advertised default branch.
pub struct RootProbe {
    pub cwd: String,
    pub dir_exists: bool,
    pub origin_url: Option<String>,
    pub head_branch: Option<String>,
    pub head_commit: Option<String>,
    pub default_branch: Option<String>,
}

/// Everything the root synchronization needs once the sources of truth are
/// reconciled: where the root checkout lives, which remote serves it, and
/// the requested ref state.
#[derive(Debug)]
pub struct SyncPlan {
    pub root_dir: String,
    pub url: String,
    pub branch: Option<String>,
    pub commit: Option<String>,
    pub remote: String,
}

pub open spec fn remote_ok(requested: Option<String>, chosen: String) -> bool {
    match requested {
        Some(n) => chosen == n,
        None => chosen@ == "origin"@,
    }
}

/// Exactly how the command arguments and the probed surroundings determine
/// the root synchronization, arm by arm: a URL with an explicit directory
/// refuses an existing directory; a URL alone derives the directory from the
/// repository name and falls back to the remote's default branch; without a
/// URL, the existing checkout supplies the remote URL, and — when no branch
/// is requested or checked out — the commit HEAD points at.
pub open spec fn sync_plan_ok(
    args: CommandArgs,
    probe: RootProbe,
    r: Result<SyncPlan, Error>,
) -> bool {
    if args.url is Some && args.dir is Some {
        if probe.dir_exists {
            r matches Err(e) && e.message@ == "The directory "@ + args.dir->0@ + " exists"@
        } else {
            r matches Ok(p) && p.root_dir@ == path_join_spec(probe.cwd@, args.dir->0@) && p.url
                == args.url->0 && p.branch == args.branch && p.commit == args.commit && remote_ok(
                args.remote,
                p.remote,
            )
        }
    } else if args.url is Some {
        match repo_name_spec(args.url->0@) {
            None => r matches Err(e) && e.message@ == "Failed to get repo name from url "@
                + args.url->0@,
            Some(name) => r matches Ok(p) && p.root_dir@ == path_join_spec(probe.cwd@, name)
                && p.url == args.url->0 && p.branch == (if args.branch is Some {
                args.branch
            } else {
                probe.default_branch
            }) && p.commit == args.commit && remote_ok(args.remote, p.remote),
        }
    } else {
        let root = if args.dir is Some {
            path_join_spec(probe.cwd@, args.dir->0@)
        } else {
            probe.cwd@
        };
        if probe.origin_url is None {
            r matches Err(e) && e.message@ == "Remote url is not set"@
        } else {
            r matches Ok(p) && p.root_dir@ == root && Some(p.url) == probe.origin_url && p.branch
                == (if args.branch is Some {
                args.branch
            } else {
                probe.head_branch
            }) && p.commit == (if args.branch is None && probe.head_branch is None {
                if args.commit is Some {
                    args.commit
                } else {
                    probe.head_commit
                }
            } else {
                args.commit
            }) && remote_ok(args.remote, p.remote)
        }
    }
}

/// Reconciles the command arguments with the probed surroundings into the
/// plan of the root synchronization, or the error that rules it out.
pub fn plan_sync(args: CommandArgs, probe: &RootProbe) -> (r: Result<SyncPlan, Error>)
    ensures
        sync_plan_ok(args, *probe, r),
{
    let CommandArgs { dir, url, branch, commit, remote } = args;
    let remote_name = match remote {
        Some(n) => n,
        None => "origin".to_owned(),
    };
    match (url, dir) {
        (Some(u), Some(d)) => {
            if probe.dir_exists {
                let mut m = String::new();
                m.append("The directory ");
                m.append(d.as_str());
                m.append(" exists");
                proof {
                    assert(m@ =~= "The directory "@ + d@ + " exists"@);
                }
                Err(Error::new(m))
            } else {
                let root_dir = path_join(probe.cwd.as_str(), d.as_str());
                Ok(SyncPlan { root_dir, url: u, branch, commit, remote: remote_name })
            }
        },
        (Some(u), None) => {
            match get_repo_name(u.as_str()) {
                None => {
                    let mut m = String::new();
                    m.append("Failed to get repo name from url ");
                    m.append(u.as_str());
                    proof {
                        assert(m@ =~= "Failed to get repo name from url "@ + u@);
                    }
                    Err(Error::new(m))
                },
                Some(name) => {
                    let root_dir = path_join(probe.cwd.as_str(), name.as_str());
                    let target_branch = match branch {
                        Some(b) => Some(b),
                        None => clone_opt_string(&probe.default_branch),
                    };
                    Ok(
                        SyncPlan {
                            root_dir,
                            url: u,
                            branch: target_branch,
                            commit,
                            remote: remote_name,
                        },
                    )
                },
            }
        },
        (None, dir_opt) => {
            let root_dir = match dir_opt {
                Some(d) => path_join(probe.cwd.as_str(), d.as_str()),
                None => probe.cwd.clone(),
            };
            let u = match &probe.origin_url {
                Some(u) => u.clone(),
                None => {
                    return Err(Error::new("Remote url is not set".to_owned()));
                },
            };
            let target_branch;
            let target_commit;
            if branch.is_none() {
                match clone_opt_string(&probe.head_branch) {
                    Some(hb) => {
                        target_branch = Some(hb);
                        target_commit = commit;
                    },
                    None => {
                        target_branch = None;
                        target_commit = match commit {
                            Some(c) => Some(c),
                            None => clone_opt_string(&probe.head_commit),
                        };
                    },
                }
            } else {
                target_branch = branch;
                target_commit = commit;
            }
            Ok(
                SyncPlan {
                    root_dir,
                    url: u,
                    branch: target_branch,
                    commit: target_commit,
                    remote: remote_name,
                },
            )
        },
    }
}

} // verus!
