//! Target-URL validation and normalization.
//!
//! A target string is rejected when it carries a scheme other than `http` or
//! `https`, or when the part after the last `"://"` (the whole string when
//! there is none) contains no `.`. An accepted target without an allowed
//! scheme is normalized by prepending `https://`; one with an allowed scheme
//! passes through unchanged.

use vstd::prelude::*;

use crate::bytes::contains_byte;
use crate::bytes::contains_byte_from;
use crate::bytes::contains_seq;
use crate::bytes::find_last;
use crate::bytes::is_last_match;
use crate::bytes::is_prefix;
use crate::bytes::lemma_last_match_unique;
use crate::bytes::match_at;
use crate::bytes::starts_with;

verus! {

/// The bytes of `"://"`.
pub open spec fn scheme_sep() -> Seq<u8> {
    seq![58u8, 47u8, 47u8]
}

/// The bytes of `"http://"`.
pub open spec fn http_prefix() -> Seq<u8> {
    seq![104u8, 116u8, 116u8, 112u8, 58u8, 47u8, 47u8]
}

/// The bytes of `"https://"`.
pub open spec fn https_prefix() -> Seq<u8> {
    seq![104u8, 116u8, 116u8, 112u8, 115u8, 58u8, 47u8, 47u8]
}

/// The byte of `'.'`.
pub open spec fn dot() -> u8 {
    46u8
}

/// The target begins with one of the two allowed schemes.
pub open spec fn has_allowed_scheme(s: Seq<u8>) -> bool {
    is_prefix(http_prefix(), s) || is_prefix(https_prefix(), s)
}

/// The target names a scheme, but not an allowed one: it contains `"://"`
/// without beginning with `http://` or `https://`.
pub open spec fn bad_protocol(s: Seq<u8>) -> bool {
    contains_seq(s, scheme_sep()) && !has_allowed_scheme(s)
}

/// The start of the last `"://"` in the target.
pub open spec fn last_sep_start(s: Seq<u8>) -> int {
    choose|i: int| is_last_match(s, scheme_sep(), i)
}

/// The domain portion: everything after the last `"://"`, or the whole
/// target when there is none.
pub open spec fn domain_of(s: Seq<u8>) -> Seq<u8> {
    if contains_seq(s, scheme_sep()) {
        s.subrange(last_sep_start(s) + scheme_sep().len(), s.len() as int)
    } else {
        s
    }
}

/// The domain portion contains no dot.
pub open spec fn bad_domain(s: Seq<u8>) -> bool {
    !contains_byte(domain_of(s), dot())
}

/// The URL the request is forwarded to: the target itself when it already
/// carries an allowed scheme, otherwise `https://` + target.
pub open spec fn normalized(s: Seq<u8>) -> Seq<u8> {
    if has_allowed_scheme(s) {
        s
    } else {
        https_prefix() + s
    }
}

/// Why a target string was rejected.
#[derive(Clone, Copy, Debug, PartialEq, Eq, Structural)]
pub enum UrlError {
    /// The target names a scheme other than `http` or `https`.
    UnsupportedProtocol,
    /// The domain portion of the target contains no dot.
    InvalidDomain,
}

/// `domain_of` in terms of a known last occurrence of `"://"`.
pub proof fn lemma_domain_of_from_last(s: Seq<u8>, i: int)
    requires
        is_last_match(s, scheme_sep(), i),
    ensures
        domain_of(s) == s.subrange(i + 3, s.len() as int),
{
    assert(contains_seq(s, scheme_sep()));
    assert(exists|j: int| is_last_match(s, scheme_sep(), j));
    let c = last_sep_start(s);
    assert(is_last_match(s, scheme_sep(), c));
    lemma_last_match_unique(s, scheme_sep(), i, c);
}

/// The bytes of `"://"` as a vector.
fn scheme_sep_bytes() -> (v: Vec<u8>)
    ensures
        v@ == scheme_sep(),
{
    let mut v: Vec<u8> = Vec::new();
    v.push(58);
    v.push(47);
    v.push(47);
    proof {
        assert(v@ =~= scheme_sep());
    }
    v
}

/// The bytes of `"http://"` as a vector.
fn http_prefix_bytes() -> (v: Vec<u8>)
    ensures
        v@ == http_prefix(),
{
    let mut v: Vec<u8> = Vec::new();
    v.push(104);
    v.push(116);
    v.push(116);
    v.push(112);
    v.push(58);
    v.push(47);
    v.push(47);
    proof {
        assert(v@ =~= http_prefix());
    }
    v
}

/// The bytes of `"https://"` as a vector.
fn https_prefix_bytes() -> (v: Vec<u8>)
    ensures
        v@ == https_prefix(),
{
    let mut v: Vec<u8> = Vec::new();
    v.push(104);
    v.push(116);
    v.push(116);
    v.push(112);
    v.push(115);
    v.push(58);
    v.push(47);
    v.push(47);
    proof {
        assert(v@ =~= https_prefix());
    }
    v
}

/// Validates the target string and returns the URL to forward to.
///
/// A target with a scheme outside `{http, https}` is refused as
/// `UnsupportedProtocol`; otherwise a target whose domain portion has no dot
/// is refused as `InvalidDomain`; every other target is accepted and
/// normalized.
pub fn validate_url(s: &[u8]) -> (r: Result<Vec<u8>, UrlError>)
    ensures
        bad_protocol(s@) ==> r == Err::<Vec<u8>, UrlError>(UrlError::UnsupportedProtocol),
        !bad_protocol(s@) && bad_domain(s@) ==> r == Err::<Vec<u8>, UrlError>(
            UrlError::InvalidDomain,
        ),
        r is Ok <==> !bad_protocol(s@) && !bad_domain(s@),
        r matches Ok(u) ==> u@ == normalized(s@),
{
    let n = s.len();
    let sep = scheme_sep_bytes();
    let http = http_prefix_bytes();
    let https = https_prefix_bytes();
    let scheme_ok = starts_with(s, http.as_slice()) || starts_with(s, https.as_slice());
    let domain_start: usize = match find_last(s, sep.as_slice()) {
        Some(i) => {
            if !scheme_ok {
                return Err(UrlError::UnsupportedProtocol);
            }
            proof {
                lemma_domain_of_from_last(s@, i as int);
            }
            i + 3
        },
        None => 0,
    };
    assert(domain_of(s@) == s@.subrange(domain_start as int, s@.len() as int));
    let has_dot = contains_byte_from(s, domain_start, 46);
    proof {
        let d = domain_of(s@);
        if contains_byte(d, dot()) {
            let i = choose|i: int| 0 <= i < d.len() && d[i] == dot();
            assert(s@[domain_start + i] == dot());
        }
        if exists|k: int| domain_start <= k < s@.len() && s@[k] == dot() {
            let k = choose|k: int| domain_start <= k < s@.len() && s@[k] == dot();
            assert(d[k - domain_start] == dot());
        }
    }
    if !has_dot {
        return Err(UrlError::InvalidDomain);
    }
    if scheme_ok {
        Ok(vstd::slice::slice_to_vec(s))
    } else {
        let mut v = https_prefix_bytes();
        let mut tail = vstd::slice::slice_to_vec(s);
        v.append(&mut tail);
        Ok(v)
    }
}

/// A target without an allowed scheme is forwarded to `https://` + target.
pub proof fn lemma_normalized_prepends_https(s: Seq<u8>)
    requires
        !has_allowed_scheme(s),
    ensures
        normalized(s) == https_prefix() + s,
{
}

/// Normalization is idempotent on every accepted target: the normalized URL
/// carries an allowed scheme, passes validation again, and normalizing it a
/// second time leaves it unchanged.
pub proof fn lemma_normalization_idempotent(s: Seq<u8>)
    requires
        !bad_protocol(s),
        !bad_domain(s),
    ensures
        has_allowed_scheme(normalized(s)),
        normalized(normalized(s)) == normalized(s),
        !bad_protocol(normalized(s)),
        !bad_domain(normalized(s)),
{
    if !has_allowed_scheme(s) {
        let u = https_prefix() + s;
        assert(!contains_seq(s, scheme_sep()));
        assert(is_prefix(https_prefix(), u)) by {
            assert(forall|i: int| 0 <= i < https_prefix().len() ==> u[i] == https_prefix()[i]);
        }
        assert(normalized(s) == u);
        assert(match_at(u, scheme_sep(), 5)) by {
            assert(u[5] == 58u8 && u[6] == 47u8 && u[7] == 47u8);
        }
        assert forall|j: int| j > 5 implies !match_at(u, scheme_sep(), j) by {
            if match_at(u, scheme_sep(), j) {
                if j == 6 || j == 7 {
                    assert(u[j] == 58u8);
                    assert(false);
                } else {
                    assert(j >= 8);
                    assert(match_at(s, scheme_sep(), j - 8)) by {
                        assert forall|k: int| 0 <= k < 3 implies s[j - 8 + k] == scheme_sep()[k] by {
                            assert(u[j + k] == scheme_sep()[k]);
                            assert(s[j - 8 + k] == u[j + k]);
                        }
                    }
                    assert(contains_seq(s, scheme_sep()));
                    assert(false);
                }
            }
        }
        assert(is_last_match(u, scheme_sep(), 5));
        lemma_domain_of_from_last(u, 5);
        assert(domain_of(u) =~= s);
        assert(domain_of(s) == s);
        assert(!bad_domain(u));
    }
}

} // verus!
