//! Translation of local absolute paths into remote absolute paths.
//!
//! The mapping is pure relative-path substitution: the local root prefix is
//! stripped from the local path and the remainder (which keeps its leading
//! separator) is appended to the remote root. Roots are written without a
//! trailing separator, so a path lies under a root exactly when the root is a
//! proper prefix of the path and a `/` follows it.

use vstd::prelude::*;

verus! {

/// Whether `p` names an entry strictly below the directory `root`
/// (`root` written without a trailing separator).
pub open spec fn path_under_root(root: Seq<char>, p: Seq<char>) -> bool {
    &&& p.len() > root.len()
    &&& p.subrange(0, root.len() as int) == root
    &&& p[root.len() as int] == '/'
}

/// The remote counterpart of `p`: `remote + (p - root)`, where the relative
/// remainder keeps its leading `/`. Meaningful when `path_under_root(root, p)`
/// holds.
pub open spec fn mapped_path(root: Seq<char>, remote: Seq<char>, p: Seq<char>) -> Seq<char> {
    remote + p.subrange(root.len() as int, p.len() as int)
}

/// Maps the local path `p` to its remote counterpart.
///
/// Returns the remote path `remote_root + (p - local_root)` exactly when `p`
/// lies under `local_root`, and `None` otherwise.
pub fn map_path(local_root: &str, remote_root: &str, p: &str) -> (r: Option<String>)
    ensures
        r is Some <==> path_under_root(local_root@, p@),
        r is Some ==> r->0@ == mapped_path(local_root@, remote_root@, p@),
{
    let rl = local_root.unicode_len();
    let pl = p.unicode_len();
    if pl <= rl {
        return None;
    }
    let mut i: usize = 0;
    while i < rl
        invariant
            i <= rl,
            rl == local_root@.len(),
            pl == p@.len(),
            rl < pl,
            forall|j: int| 0 <= j < i ==> p@[j] == local_root@[j],
        decreases rl - i,
    {
        if p.get_char(i) != local_root.get_char(i) {
            proof {
                assert(p@.subrange(0, rl as int)[i as int] == p@[i as int]);
            }
            return None;
        }
        i += 1;
    }
    if p.get_char(rl) != '/' {
        return None;
    }
    proof {
        assert(p@.subrange(0, rl as int) =~= local_root@);
    }
    let rel = p.substring_char(rl, pl);
    let mapped = String::from_str(remote_root).concat(rel);
    Some(mapped)
}

} // verus!
