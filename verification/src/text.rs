//! Verified substring search over `&str`, the foundation of the log-line
//! classifier. All results are characterized by the spec functions
//! `match_at` and `first_match_from`.

use vstd::prelude::*;

verus! {

/// `pat` occurs in `s` starting at character index `i`.
pub open spec fn match_at(s: Seq<char>, pat: Seq<char>, i: int) -> bool {
    0 <= i && i + pat.len() <= s.len() && s.subrange(i, i + pat.len() as int) == pat
}

/// Character index of the first occurrence of `pat` in `s` at or after
/// `from`, if any. The empty pattern never matches.
pub open spec fn first_match_from(s: Seq<char>, pat: Seq<char>, from: int) -> Option<int>
    decreases s.len() - from,
{
    if from < 0 || from + pat.len() > s.len() || pat.len() == 0 {
        None
    } else if match_at(s, pat, from) {
        Some(from)
    } else {
        first_match_from(s, pat, from + 1)
    }
}

/// `pat` occurs somewhere in `s`.
pub open spec fn contains_pat(s: Seq<char>, pat: Seq<char>) -> bool {
    first_match_from(s, pat, 0) is Some
}

/// A found index is a match, lies at or after `from`, and is the first:
/// nothing matches before it.
pub proof fn lemma_first_match_some(s: Seq<char>, pat: Seq<char>, from: int, i: int)
    requires
        first_match_from(s, pat, from) == Some(i),
    ensures
        match_at(s, pat, i),
        from <= i,
        forall|j: int| from <= j < i ==> !match_at(s, pat, j),
    decreases s.len() - from,
{
    if !(from < 0 || from + pat.len() > s.len() || pat.len() == 0) && !match_at(s, pat, from) {
        lemma_first_match_some(s, pat, from + 1, i);
    }
}

/// Whether `pat` occurs at index `i` of `s`, by character comparison.
pub(crate) fn match_here(s: &str, pat: &str, i: usize) -> (r: bool)
    requires
        i + pat@.len() <= s@.len(),
        s@.len() <= usize::MAX,
    ensures
        r == match_at(s@, pat@, i as int),
{
    let m = pat.unicode_len();
    let mut j: usize = 0;
    while j < m
        invariant
            j <= m,
            m == pat@.len(),
            i + m <= s@.len(),
            s@.len() <= usize::MAX,
            forall|k: int| 0 <= k < j ==> s@[i + k] == pat@[k],
        decreases m - j,
    {
        if s.get_char(i + j) != pat.get_char(j) {
            proof {
                if match_at(s@, pat@, i as int) {
                    assert(s@.subrange(i as int, i + m as int)[j as int] == pat@[j as int]);
                }
            }
            return false;
        }
        j += 1;
    }
    proof {
        assert(s@.subrange(i as int, i + m as int) =~= pat@);
    }
    true
}

/// First occurrence of `pat` in `s` at or after character index `from`.
pub fn find_from(s: &str, pat: &str, from: usize) -> (r: Option<usize>)
    ensures
        match r {
            Some(i) => from <= i && first_match_from(s@, pat@, from as int) == Some(i as int)
                && match_at(s@, pat@, i as int) && 1 <= pat@.len() && i + pat@.len() <= s@.len()
                && s@.len() <= usize::MAX,
            None => first_match_from(s@, pat@, from as int) is None,
        },
{
    let n = s.unicode_len();
    let m = pat.unicode_len();
    if m == 0 || from > n || m > n - from {
        return None;
    }
    let mut i: usize = from;
    while i <= n - m
        invariant
            1 <= m <= n,
            from <= i <= n - m + 1,
            n == s@.len(),
            m == pat@.len(),
            first_match_from(s@, pat@, from as int) == first_match_from(s@, pat@, i as int),
        decreases n - i,
    {
        if match_here(s, pat, i) {
            proof {
                lemma_first_match_some(s@, pat@, i as int, i as int);
            }
            return Some(i);
        }
        i += 1;
    }
    None
}

/// `pat` occurs somewhere in `s`.
pub fn contains_sub(s: &str, pat: &str) -> (r: bool)
    ensures
        r == contains_pat(s@, pat@),
{
    find_from(s, pat, 0).is_some()
}

/// Character-for-character equality of two string slices.
pub fn str_eq(a: &str, b: &str) -> (r: bool)
    ensures
        r == (a@ == b@),
{
    let n = a.unicode_len();
    if n != b.unicode_len() {
        return false;
    }
    let mut i: usize = 0;
    while i < n
        invariant
            i <= n,
            n == a@.len(),
            n == b@.len(),
            forall|k: int| 0 <= k < i ==> a@[k] == b@[k],
        decreases n - i,
    {
        if a.get_char(i) != b.get_char(i) {
            return false;
        }
        i += 1;
    }
    proof {
        assert(a@ =~= b@);
    }
    true
}

/// `s` ends with `suffix`.
pub open spec fn ends_with_spec(s: Seq<char>, suffix: Seq<char>) -> bool {
    s.len() >= suffix.len() && s.subrange(s.len() - suffix.len(), s.len() as int) == suffix
}

/// Whether `s` ends with `suffix`, by character comparison.
pub fn ends_with(s: &str, suffix: &str) -> (r: bool)
    ensures
        r == ends_with_spec(s@, suffix@),
{
    let n = s.unicode_len();
    let m = suffix.unicode_len();
    if m > n {
        return false;
    }
    match_here(s, suffix, n - m)
}

} // verus!
