//! Deriving what a tab displays: the base name of a file path, and the label
//! text with its dirty marker.

use vstd::prelude::*;
use vstd::string::StrSliceExecFns;

verus! {

/// The base name of a path: the characters after the last `/`, or the whole
/// path when it holds none. A path that ends in `/` has an empty base name.
pub open spec fn base_name_of(path: Seq<char>) -> Seq<char>
    decreases path.len(),
{
    if path.len() == 0 {
        path
    } else if path.last() == '/' {
        Seq::<char>::empty()
    } else {
        base_name_of(path.drop_last()).push(path.last())
    }
}

/// The label a tab renders: the raw label when the tab is saved, the label
/// followed by `" *"` when it is dirty.
pub open spec fn rendered_label_of(label: Seq<char>, is_saved: bool) -> Seq<char> {
    if is_saved {
        label
    } else {
        label + " *"@
    }
}

/// The suffix of `path` that starts at `k` is the base name whenever no `/`
/// occurs at or after `k` and `k` sits right after a `/` (or at the start).
proof fn lemma_base_name_suffix(path: Seq<char>, k: int)
    requires
        0 <= k <= path.len(),
        forall|m: int| k <= m < path.len() ==> path[m] != '/',
        k == 0 || path[k - 1] == '/',
    ensures
        base_name_of(path) == path.subrange(k, path.len() as int),
    decreases path.len(),
{
    if k == path.len() {
        if path.len() == 0 {
            assert(base_name_of(path) =~= path.subrange(k, path.len() as int));
        } else {
            assert(path.last() == '/');
            assert(base_name_of(path) =~= path.subrange(k, path.len() as int));
        }
    } else {
        assert(path.last() != '/');
        let shorter = path.drop_last();
        assert(forall|m: int| k <= m < shorter.len() ==> shorter[m] != '/');
        lemma_base_name_suffix(shorter, k);
        assert(base_name_of(path) =~= path.subrange(k, path.len() as int));
    }
}

/// Returns the base name of `path`: what follows its last `/`.
pub fn base_name(path: &str) -> (r: String)
    ensures
        r@ == base_name_of(path@),
{
    let n = path.unicode_len();
    let mut start: usize = 0;
    let mut i: usize = 0;
    while i < n
        invariant
            n == path@.len(),
            start <= i <= n,
            forall|m: int| start <= m < i ==> path@[m] != '/',
            start == 0 || path@[start - 1] == '/',
        decreases n - i,
    {
        if path.get_char(i) == '/' {
            start = i + 1;
        }
        i = i + 1;
    }
    proof {
        lemma_base_name_suffix(path@, start as int);
    }
    let tail = path.substring_char(start, n);
    tail.to_owned()
}

} // verus!
