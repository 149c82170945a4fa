use vstd::prelude::*;

use crate::errors::Error;
use crate::utils::text::ends_with_spec;
use crate::utils::text::push_char;
use crate::utils::text::starts_with_spec;
use crate::utils::text::str_ends_with;
use crate::utils::text::str_eq;
use crate::utils::text::str_starts_with;
use crate::utils::text::str_trim;
use crate::utils::text::trim_spec;

verus! {

/// Whether a string parses as a URL whose path splits into segments, and
/// what those slash-separated segments are: a function of the string alone.
pub uninterp spec fn url_segments_of(s: Seq<char>) -> Option<Seq<Seq<char>>>;

pub open spec fn opt_segments_view(r: Option<Vec<String>>) -> Option<Seq<Seq<char>>> {
    match r {
        Some(v) => Some(v@.map_values(|s: String| s@)),
        None => None,
    }
}

/// Relies on url::Url::parse and url::Url::path_segments: whether the string
/// parses, and what the path segments are, depend on the string alone.
#[verifier::external_body]
fn url_path_segments(s: &str) -> (r: Option<Vec<String>>)
    ensures
        opt_segments_view(r) == url_segments_of(s@),
{
    let url = match url::Url::parse(s) {
        Ok(u) => u,
        Err(_) => return None,
    };
    let segments = match url.path_segments() {
        Some(it) => it,
        None => return None,
    };
    Some(segments.map(|seg| seg.to_string()).collect())
}

/// The scheme under which a string parses as a URL: a function of the string
/// alone.
pub uninterp spec fn url_scheme_of(s: Seq<char>) -> Option<Seq<char>>;

/// Relies on url::Url::parse and url::Url::scheme: the scheme depends on the
/// string alone, and is documented to be a lower-cased ASCII string.
#[verifier::external_body]
fn url_scheme(s: &str) -> (r: Option<String>)
    ensures
        match r {
            Some(scheme) => url_scheme_of(s@) == Some(scheme@) && vstd::string::string_is_ascii(
                &scheme,
            ),
            None => url_scheme_of(s@) is None,
        },
{
    match url::Url::parse(s) {
        Ok(u) => Some(u.scheme().to_string()),
        Err(_) => None,
    }
}

/// `':'` replaced by `'/'` throughout.
pub open spec fn colon_to_slash(s: Seq<char>) -> Seq<char> {
    s.map_values(
        |c: char|
            if c == ':' {
                '/'
            } else {
                c
            },
    )
}

/// An SSH-style `git@host:path` reference rewritten to an `https` URL, so
/// that it parses; anything else is taken as it stands.
pub open spec fn normalized_url(s: Seq<char>) -> Seq<char> {
    if starts_with_spec(s, "git@"@) {
        "https://"@ + colon_to_slash(s.skip(4))
    } else {
        s
    }
}

/// A trailing `.git` dropped from a repository name.
pub open spec fn strip_git_suffix(s: Seq<char>) -> Seq<char> {
    if ends_with_spec(s, ".git"@) {
        s.take(s.len() - 4)
    } else {
        s
    }
}

/// Path segments that contribute to the repository name: neither empty nor a
/// bare `.git`.
pub open spec fn seg_keep(s: Seq<char>) -> bool {
    s != ".git"@ && s != ""@
}

/// The repository name carried by a remote URL: the last contributing path
/// segment, with a trailing `.git` dropped; nothing for a string that does
/// not parse as a URL or whose path has no contributing segment.
pub open spec fn repo_name_spec(u: Seq<char>) -> Option<Seq<char>> {
    match url_segments_of(normalized_url(u)) {
        None => None,
        Some(segs) => {
            let kept = segs.filter(|s: Seq<char>| seg_keep(s));
            if kept.len() == 0 {
                None
            } else {
                Some(strip_git_suffix(kept.last()))
            }
        },
    }
}

pub open spec fn opt_string_view(r: Option<String>) -> Option<Seq<char>> {
    match r {
        Some(s) => Some(s@),
        None => None,
    }
}

/// Extracts the repository name from a remote URL.
pub fn get_repo_name(repo_url: &str) -> (r: Option<String>)
    ensures
        opt_string_view(r) == repo_name_spec(repo_url@),
{
    let normalized: String = if str_starts_with(repo_url, "git@") {
        let len = repo_url.unicode_len();
        let mut n = String::new();
        n.append("https://");
        proof {
            reveal_strlit("git@");
            assert(repo_url@.len() >= 4);
            assert(n@ =~= "https://"@ + colon_to_slash(repo_url@.subrange(4, 4)));
        }
        let mut i: usize = 4;
        while i < len
            invariant
                4 <= i <= len,
                len == repo_url@.len(),
                n@ == "https://"@ + colon_to_slash(repo_url@.subrange(4, i as int)),
            decreases len - i,
        {
            let c = repo_url.get_char(i);
            if c == ':' {
                push_char(&mut n, '/');
            } else {
                push_char(&mut n, c);
            }
            proof {
                let ghost ci = repo_url@[i as int];
                assert(repo_url@.subrange(4, i + 1 as int) =~= repo_url@.subrange(
                    4,
                    i as int,
                ).push(ci));
                assert(colon_to_slash(repo_url@.subrange(4, i + 1 as int)) =~= colon_to_slash(
                    repo_url@.subrange(4, i as int),
                ).push(
                    if ci == ':' {
                        '/'
                    } else {
                        ci
                    },
                ));
            }
            i += 1;
        }
        proof {
            assert(repo_url@.subrange(4, len as int) =~= repo_url@.skip(4));
        }
        n
    } else {
        repo_url.to_owned()
    };
    let segments = match url_path_segments(normalized.as_str()) {
        None => {
            return None;
        },
        Some(v) => v,
    };
    let ghost segsm = segments@.map_values(|s: String| s@);
    let mut kept: Vec<String> = Vec::new();
    let mut i: usize = 0;
    while i < segments.len()
        invariant
            i <= segments@.len(),
            segsm == segments@.map_values(|s: String| s@),
            kept@.map_values(|s: String| s@) == segsm.take(i as int).filter(
                |s: Seq<char>| seg_keep(s),
            ),
        decreases segments@.len() - i,
    {
        let keep = {
            let s = &segments[i];
            !(str_eq(s.as_str(), ".git") || str_eq(s.as_str(), ""))
        };
        proof {
            reveal(Seq::filter);
            assert(segsm.take(i + 1 as int).drop_last() =~= segsm.take(i as int));
            assert(segsm.take(i + 1 as int).last() == segsm[i as int]);
        }
        if keep {
            let ghost pre = kept@;
            kept.push(segments[i].clone());
            proof {
                assert(kept@.map_values(|s: String| s@) =~= pre.map_values(|s: String| s@).push(
                    segsm[i as int],
                ));
            }
        }
        i += 1;
    }
    proof {
        assert(segsm.take(segments@.len() as int) =~= segsm);
    }
    if kept.len() == 0 {
        return None;
    }
    let last = &kept[kept.len() - 1];
    let name: String = if str_ends_with(last.as_str(), ".git") {
        proof {
            reveal_strlit(".git");
        }
        let ln = last.as_str().unicode_len();
        last.as_str().substring_char(0, ln - 4).to_owned()
    } else {
        last.clone()
    };
    proof {
        let ghost keptm = kept@.map_values(|s: String| s@);
        assert(keptm.last() == last@);
        assert(name@ == strip_git_suffix(keptm.last()));
    }
    Some(name)
}

/// The ref or branch handed to the checkout step, in the order of
/// precedence: an explicit commit detaches HEAD at that commit; otherwise a
/// branch (explicit, already checked out, or the remote's default) attaches
/// HEAD to that branch.
pub enum CheckoutTarget {
    Commit(String),
    Branch(String),
}

/// Exactly the checkout-target resolution precedence: explicit commit over
/// explicit branch over the existing checked-out branch over the remote's
/// advertised default branch; nothing available is an error.
pub open spec fn checkout_resolution_ok(
    commit: Option<String>,
    branch: Option<String>,
    existing_branch: Option<String>,
    default_branch: Option<String>,
    r: Result<CheckoutTarget, Error>,
) -> bool {
    if commit is Some {
        r matches Ok(t) && t matches CheckoutTarget::Commit(c) && Some(c) == commit
    } else if branch is Some {
        r matches Ok(t) && t matches CheckoutTarget::Branch(b) && Some(b) == branch
    } else if existing_branch is Some {
        r matches Ok(t) && t matches CheckoutTarget::Branch(b) && Some(b) == existing_branch
    } else if default_branch is Some {
        r matches Ok(t) && t matches CheckoutTarget::Branch(b) && Some(b) == default_branch
    } else {
        r matches Err(e) && e.message@ == "neither branch nor commit is specified"@
    }
}

/// Resolves what the checkout step should point HEAD at, given the requested
/// ref state and what the existing checkout and the remote offer.
pub fn resolve_checkout_target(
    commit: Option<String>,
    branch: Option<String>,
    existing_branch: Option<String>,
    default_branch: Option<String>,
) -> (r: Result<CheckoutTarget, Error>)
    ensures
        checkout_resolution_ok(commit, branch, existing_branch, default_branch, r),
{
    if let Some(c) = commit {
        Ok(CheckoutTarget::Commit(c))
    } else if let Some(b) = branch {
        Ok(CheckoutTarget::Branch(b))
    } else if let Some(b) = existing_branch {
        Ok(CheckoutTarget::Branch(b))
    } else if let Some(b) = default_branch {
        Ok(CheckoutTarget::Branch(b))
    } else {
        Err(Error::new("neither branch nor commit is specified".to_owned()))
    }
}

/// Commit precedence: whenever a commit is requested, any resolution obeying
/// the precedence leaves HEAD detached at that commit — never at a branch
/// tip, whatever branches are requested or present.
pub proof fn lemma_commit_precedes_branch(
    commit: Option<String>,
    branch: Option<String>,
    existing_branch: Option<String>,
    default_branch: Option<String>,
    r: Result<CheckoutTarget, Error>,
)
    requires
        commit is Some,
        checkout_resolution_ok(commit, branch, existing_branch, default_branch, r),
    ensures
        r matches Ok(t) && t matches CheckoutTarget::Commit(c) && Some(c) == commit,
        !(r matches Ok(t) && t matches CheckoutTarget::Branch(b)),
{
}

/// How the working tree is attached once a checkout target is known: HEAD on
/// a local branch, or detached at a commit.
pub enum CheckoutAction {
    AttachBranch(String),
    DetachCommit(String),
}

/// Decision core of checking out a target: a name recognized as a local
/// branch attaches HEAD to that branch; otherwise a well-formed object id is
/// checked out detached; anything else is rejected.
pub fn plan_checkout(target: &str, is_local_branch: bool, is_valid_oid: bool) -> (r: Result<
    CheckoutAction,
    Error,
>)
    ensures
        is_local_branch ==> (r matches Ok(a) && a matches CheckoutAction::AttachBranch(b) && b@
            == target@),
        !is_local_branch && is_valid_oid ==> (r matches Ok(a) && a
            matches CheckoutAction::DetachCommit(c) && c@ == target@),
        !is_local_branch && !is_valid_oid ==> (r matches Err(e) && e.message@
            == "Invalid target: must be a branch name or commit id, got "@ + target@),
{
    if is_local_branch {
        Ok(CheckoutAction::AttachBranch(target.to_owned()))
    } else if is_valid_oid {
        Ok(CheckoutAction::DetachCommit(target.to_owned()))
    } else {
        let mut m = String::new();
        m.append("Invalid target: must be a branch name or commit id, got ");
        m.append(target);
        proof {
            assert(m@ =~= "Invalid target: must be a branch name or commit id, got "@ + target@);
        }
        Err(Error::new(m))
    }
}

/// An ASCII lower-case letter raised to upper case; anything else unchanged.
pub open spec fn upper_char(c: char) -> char {
    if 'a' <= c && c <= 'z' {
        ((c as u8) - 32) as char
    } else {
        c
    }
}

pub open spec fn ascii_upper(s: Seq<char>) -> Seq<char> {
    s.map_values(|c: char| upper_char(c))
}

/// The two environment variables consulted for a proxy serving the given URL
/// scheme: the lower-case `<scheme>_proxy`, then the upper-case
/// `<SCHEME>_PROXY`.
pub fn proxy_env_names(scheme: &str) -> (r: (String, String))
    requires
        scheme.is_ascii(),
    ensures
        r.0@ == scheme@ + "_proxy"@,
        r.1@ == ascii_upper(scheme@) + "_PROXY"@,
{
    let mut lo = scheme.to_owned();
    lo.append("_proxy");
    let n = scheme.unicode_len();
    let mut up = String::new();
    let mut i: usize = 0;
    while i < n
        invariant
            i <= n,
            n == scheme@.len(),
            scheme.is_ascii(),
            up@ == ascii_upper(scheme@.take(i as int)),
        decreases n - i,
    {
        let c = scheme.get_char(i);
        let u = if 'a' <= c && c <= 'z' {
            (((c as u8) - 32) as u8) as char
        } else {
            c
        };
        push_char(&mut up, u);
        proof {
            let ghost ci = scheme@[i as int];
            assert(scheme@.take(i + 1 as int) =~= scheme@.take(i as int).push(ci));
            assert(ascii_upper(scheme@.take(i + 1 as int)) =~= ascii_upper(
                scheme@.take(i as int),
            ).push(upper_char(ci)));
        }
        i += 1;
    }
    proof {
        assert(scheme@.take(n as int) =~= scheme@);
    }
    up.append("_PROXY");
    (lo, up)
}

/// Reads the pointer that a worktree's `.git` file carries: the line
/// `gitdir: <path>`, with the path trimmed of surrounding whitespace.
/// Anything else is not a valid pointer file.
pub fn parse_gitdir_file(content: &str) -> (r: Result<String, Error>)
    ensures
        starts_with_spec(content@, "gitdir: "@) ==> (r matches Ok(p) && p@ == trim_spec(
            content@.skip(8),
        )),
        !starts_with_spec(content@, "gitdir: "@) ==> (r matches Err(e) && e.message@
            == "Invalid .git file"@),
{
    if str_starts_with(content, "gitdir: ") {
        proof {
            reveal_strlit("gitdir: ");
        }
        let n = content.unicode_len();
        let rest = content.substring_char(8, n);
        proof {
            assert(content@.subrange(8, n as int) =~= content@.skip(8));
        }
        Ok(str_trim(rest))
    } else {
        Err(Error::new("Invalid .git file".to_owned()))
    }
}

/// What the fetch step needs to know before it touches the network: the
/// proxy environment variables for the remote's scheme.  A remote URL that
/// does not parse is rejected before any network work.
pub fn plan_fetch_proxy(url: &str) -> (r: Result<(String, String), Error>)
    ensures
        url_scheme_of(url@) is None ==> (r matches Err(e) && e.message@ == "invalid remote url "@
            + url@),
        url_scheme_of(url@) matches Some(scheme) ==> (r matches Ok(names) && names.0@ == scheme
            + "_proxy"@ && names.1@ == ascii_upper(scheme) + "_PROXY"@),
{
    match url_scheme(url) {
        Some(scheme) => Ok(proxy_env_names(scheme.as_str())),
        None => {
            let mut m = String::new();
            m.append("invalid remote url ");
            m.append(url);
            proof {
                assert(m@ =~= "invalid remote url "@ + url@);
            }
            Err(Error::new(m))
        },
    }
}

} // verus!
