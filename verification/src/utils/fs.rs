use vstd::prelude::*;

verus! {

/// The library's model of joining two path components, mirroring how a path
/// join treats an absolute right-hand side: an absolute `path` replaces
/// `base`, otherwise the two are joined with a single separator.
pub open spec fn path_join_spec(base: Seq<char>, path: Seq<char>) -> Seq<char> {
    if path.len() > 0 && path[0] == '/' {
        path
    } else if base.len() == 0 {
        path
    } else if base.last() == '/' {
        base + path
    } else {
        base + seq!['/'] + path
    }
}

pub fn path_join(base: &str, path: &str) -> (r: String)
    ensures
        r@ == path_join_spec(base@, path@),
{
    let bn = base.unicode_len();
    let pn = path.unicode_len();
    if pn > 0 && path.get_char(0) == '/' {
        return path.to_owned();
    }
    if bn == 0 {
        return path.to_owned();
    }
    let mut r = base.to_owned();
    if base.get_char(bn - 1) != '/' {
        r.append("/");
        proof {
            reveal_strlit("/");
            assert(r@ =~= base@ + seq!['/']);
        }
    }
    r.append(path);
    proof {
        if base@.last() == '/' {
            assert(r@ =~= base@ + path@);
        } else {
            assert(r@ =~= base@ + seq!['/'] + path@);
        }
    }
    r
}

} // verus!
