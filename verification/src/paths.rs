use vstd::prelude::*;
use vstd::string::StrSliceExecFns;

verus! {

/// Position of the last `/` in `s`, or `-1` when `s` holds none.
pub open spec fn last_sep(s: Seq<char>) -> int
    decreases s.len(),
{
    if s.len() == 0 {
        -1
    } else if s[s.len() - 1] == '/' {
        s.len() - 1
    } else {
        last_sep(s.drop_last())
    }
}

/// The parent of a `/`-separated path, under this library's convention
/// for absolute paths: the prefix up to (and excluding) the last
/// separator, except that the parent of a top-level name such as `/a`
/// is the root `/` itself. The root and any string without a separator
/// have no parent.
pub open spec fn parent_of_spec(s: Seq<char>) -> Option<Seq<char>> {
    if s.len() <= 1 || last_sep(s) < 0 {
        None
    } else if last_sep(s) == 0 {
        Some(s.subrange(0, 1))
    } else {
        Some(s.subrange(0, last_sep(s)))
    }
}

/// `last_sep` points at a separator and nothing after it is one; when
/// it is negative, the whole string is free of separators.
pub proof fn lemma_last_sep(s: Seq<char>)
    ensures
        last_sep(s) < 0 ==> forall|j: int| 0 <= j < s.len() ==> s[j] != '/',
        last_sep(s) >= 0 ==> 0 <= last_sep(s) < s.len(),
        last_sep(s) >= 0 ==> s[last_sep(s)] == '/',
        last_sep(s) >= 0 ==> forall|j: int| last_sep(s) < j < s.len() ==> s[j] != '/',
    decreases s.len(),
{
    if s.len() == 0 {
    } else if s[s.len() - 1] == '/' {
    } else {
        lemma_last_sep(s.drop_last());
        assert(forall|j: int| 0 <= j < s.len() - 1 ==> s.drop_last()[j] == s[j]);
    }
}

/// Computes the parent directory of `path` under the library's path
/// convention; `None` at the filesystem root (and on any path without
/// a separator).
pub fn parent_of(path: &str) -> (r: Option<String>)
    ensures
        match r {
            Some(p) => parent_of_spec(path@) == Some(p@),
            None => parent_of_spec(path@) is None,
        },
{
    let n: usize = path.unicode_len();
    if n <= 1 {
        return None;
    }
    let mut j: usize = n;
    while j > 0
        invariant
            0 <= j <= n,
            1 < n,
            n == path@.len(),
            forall|k: int| j <= k < n ==> path@[k] != '/',
        decreases j,
    {
        if path.get_char(j - 1) == '/' {
            proof {
                lemma_last_sep(path@);
                assert(last_sep(path@) == j - 1);
            }
            if j - 1 == 0 {
                return Some(path.substring_char(0, 1).to_owned());
            } else {
                return Some(path.substring_char(0, j - 1).to_owned());
            }
        }
        j = j - 1;
    }
    proof {
        lemma_last_sep(path@);
    }
    None
}

} // verus!
