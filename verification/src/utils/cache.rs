use vstd::prelude::*;

use crate::utils::encode::base64_of;
use crate::utils::encode::string_to_base64;
use crate::utils::fs::path_join;
use crate::utils::fs::path_join_spec;

verus! {

/// Where the cache repository serving one remote URL lives under a given
/// cache root: `git/<content-derived encoding of the URL>` below the root.
/// The encoding, not the URL text, keeps the path filesystem-safe.
pub open spec fn cache_repo_path_spec(cache_root: Seq<char>, url: Seq<char>) -> Seq<char> {
    path_join_spec(path_join_spec(cache_root, "git"@), base64_of(url))
}

/// Derives the stable cache-repository path for `url` under `cache_root`.
pub fn cache_repo_path(cache_root: &str, url: &String) -> (r: String)
    requires
        url@.len() <= usize::MAX / 16,
    ensures
        r@ == cache_repo_path_spec(cache_root@, url@),
{
    let enc = string_to_base64(url);
    let base = path_join(cache_root, "git");
    path_join(base.as_str(), enc.as_str())
}

/// Cache reuse: two descriptor entries carrying the same remote URL resolve
/// to the same cache-repository path, wherever in the tree they appear, so
/// the object-store work for that remote is shared rather than repeated.
pub proof fn lemma_cache_path_dedup(cache_root: Seq<char>, url_a: Seq<char>, url_b: Seq<char>)
    requires
        url_a == url_b,
    ensures
        cache_repo_path_spec(cache_root, url_a) == cache_repo_path_spec(cache_root, url_b),
{
}

} // verus!
