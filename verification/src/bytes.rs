//! Byte-string searching: substring occurrence, prefix tests, and scans for a
//! single byte, with the specification functions the URL rules are stated over.

use vstd::prelude::*;

verus! {

/// `pat` occurs in `s` starting at index `i`.
pub open spec fn match_at(s: Seq<u8>, pat: Seq<u8>, i: int) -> bool {
    &&& 0 <= i
    &&& i + pat.len() <= s.len()
    &&& forall|k: int| 0 <= k < pat.len() ==> s[i + k] == pat[k]
}

/// `pat` occurs somewhere in `s`.
pub open spec fn contains_seq(s: Seq<u8>, pat: Seq<u8>) -> bool {
    exists|i: int| match_at(s, pat, i)
}

/// The byte `b` occurs in `s`.
pub open spec fn contains_byte(s: Seq<u8>, b: u8) -> bool {
    exists|i: int| 0 <= i < s.len() && s[i] == b
}

/// `p` is a prefix of `s`.
pub open spec fn is_prefix(p: Seq<u8>, s: Seq<u8>) -> bool {
    p.len() <= s.len() && forall|i: int| 0 <= i < p.len() ==> s[i] == p[i]
}

/// `i` is the start of the last occurrence of `pat` in `s`.
pub open spec fn is_last_match(s: Seq<u8>, pat: Seq<u8>, i: int) -> bool {
    match_at(s, pat, i) && forall|j: int| j > i ==> !match_at(s, pat, j)
}

/// Two last occurrences are the same occurrence.
pub proof fn lemma_last_match_unique(s: Seq<u8>, pat: Seq<u8>, i: int, j: int)
    requires
        is_last_match(s, pat, i),
        is_last_match(s, pat, j),
    ensures
        i == j,
{
}

/// `pat` occurs in `s` at index `i`, decided by comparing the bytes.
pub(crate) fn matches_at(s: &[u8], pat: &[u8], i: usize) -> (r: bool)
    requires
        i + pat@.len() <= s@.len(),
    ensures
        r == match_at(s@, pat@, i as int),
{
    let n = s.len();
    let plen = pat.len();
    let mut k: usize = 0;
    while k < plen
        invariant
            n == s@.len(),
            plen == pat@.len(),
            i + plen <= n,
            k <= plen,
            forall|m: int| 0 <= m < k ==> s@[i + m] == pat@[m],
        decreases plen - k,
    {
        if s[i + k] != pat[k] {
            return false;
        }
        k += 1;
    }
    true
}

/// `p` is a prefix of `s`, decided by comparing the bytes.
pub(crate) fn starts_with(s: &[u8], p: &[u8]) -> (r: bool)
    ensures
        r == is_prefix(p@, s@),
{
    if p.len() > s.len() {
        return false;
    }
    let plen = p.len();
    let mut i: usize = 0;
    while i < plen
        invariant
            plen == p@.len(),
            p@.len() <= s@.len(),
            i <= plen,
            forall|m: int| 0 <= m < i ==> s@[m] == p@[m],
        decreases plen - i,
    {
        if s[i] != p[i] {
            return false;
        }
        i += 1;
    }
    true
}

/// The start of the last occurrence of `pat` in `s`, or `None` when `pat`
/// does not occur. An empty `pat` occurs at every index, last at `s.len()`.
pub(crate) fn find_last(s: &[u8], pat: &[u8]) -> (r: Option<usize>)
    ensures
        match r {
            Some(i) => is_last_match(s@, pat@, i as int),
            None => !contains_seq(s@, pat@),
        },
{
    if pat.len() == 0 {
        let n = s.len();
        assert(match_at(s@, pat@, n as int));
        return Some(n);
    }
    if pat.len() > s.len() {
        assert(forall|j: int| !match_at(s@, pat@, j));
        return None;
    }
    let mut i: usize = s.len() - pat.len() + 1;
    while i > 0
        invariant
            pat@.len() >= 1,
            i + pat@.len() <= s@.len() + 1,
            forall|j: int| j >= i ==> !match_at(s@, pat@, j),
        decreases i,
    {
        i = i - 1;
        if matches_at(s, pat, i) {
            return Some(i);
        }
    }
    None
}

/// The byte `b` occurs in `s` at or after index `from`.
pub(crate) fn contains_byte_from(s: &[u8], from: usize, b: u8) -> (r: bool)
    requires
        from <= s@.len(),
    ensures
        r == exists|i: int| from <= i < s@.len() && s@[i] == b,
{
    let n = s.len();
    let mut i: usize = from;
    while i < n
        invariant
            n == s@.len(),
            from <= i <= n,
            forall|m: int| from <= m < i ==> s@[m] != b,
        decreases n - i,
    {
        if s[i] == b {
            return true;
        }
        i += 1;
    }
    false
}

} // verus!
