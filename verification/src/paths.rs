//! Target-name derivation.
//!
//! A file is uploaded under the part of its source path after the last
//! `/`; a path without a separator is used whole.

use vstd::prelude::*;

verus! {

/// The suffix of `p` after its last `/`: the whole of `p` when it holds no
/// `/`, and empty when `p` ends in `/`.
pub open spec fn base_name_spec(p: Seq<char>) -> Seq<char>
    decreases p.len(),
{
    if p.len() == 0 {
        Seq::empty()
    } else if p[p.len() - 1] == '/' {
        Seq::empty()
    } else {
        base_name_spec(p.drop_last()).push(p[p.len() - 1])
    }
}

/// When no `/` occurs at or after `cut`, and `cut` is 0 or sits just after
/// a `/`, the base name is exactly the suffix from `cut`.
proof fn lemma_base_name_suffix(p: Seq<char>, cut: int)
    requires
        0 <= cut <= p.len(),
        forall|j: int| cut <= j < p.len() ==> p[j] != '/',
        cut > 0 ==> p[cut - 1] == '/',
    ensures
        base_name_spec(p) == p.subrange(cut, p.len() as int),
    decreases p.len(),
{
    if p.len() == 0 {
        assert(base_name_spec(p) =~= p.subrange(cut, p.len() as int));
    } else if cut == p.len() {
        assert(p[p.len() - 1] == '/');
        assert(base_name_spec(p) =~= p.subrange(cut, p.len() as int));
    } else {
        assert(p[p.len() - 1] != '/');
        lemma_base_name_suffix(p.drop_last(), cut);
        assert(base_name_spec(p.drop_last()).push(p[p.len() - 1]) =~= p.subrange(
            cut,
            p.len() as int,
        ));
    }
}

/// The name a file at source path `path` is stored under on the target:
/// the part of `path` after the last `/`, or all of `path` when it holds
/// no `/`.
pub fn base_name(path: &str) -> (r: String)
    ensures
        r@ == base_name_spec(path@),
{
    let n = path.unicode_len();
    let mut cut: usize = n;
    let mut found: bool = false;
    while cut > 0 && !found
        invariant
            cut <= n,
            n == path@.len(),
            forall|j: int| cut <= j < path@.len() ==> path@[j] != '/',
            found ==> cut > 0 && path@[cut - 1] == '/',
        decreases 2 * cut + (if found {
            0int
        } else {
            1int
        }),
    {
        if path.get_char(cut - 1) == '/' {
            found = true;
        } else {
            cut = cut - 1;
        }
    }
    proof {
        lemma_base_name_suffix(path@, cut as int);
    }
    let tail = path.substring_char(cut, n);
    proof {
        assert(tail@ == path@.subrange(cut as int, path@.len() as int));
    }
    tail.to_owned()
}

} // verus!
