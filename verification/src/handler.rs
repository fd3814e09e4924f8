//! Per-request dispatch: from the inbound verb and the path-captured target
//! to either an immediate reply or a forwarding order.
//!
//! The verb is checked before the target: the serving layer only routes the
//! allowed verbs to the handler, so any other verb is refused up front,
//! whatever its target looks like. The caller performs the forwarding that a
//! `Forward` plan orders and hands the outcome to
//! [`crate::response::build_upstream_response`].

use vstd::prelude::*;

use crate::method::Method;
use crate::method::method_of;
use crate::method::parse_method;
use crate::response::ProxyResponse;
use crate::response::Rejection;
use crate::response::invalid_domain_msg;
use crate::response::is_rejection_response;
use crate::response::rejection_response;
use crate::response::unsupported_protocol_msg;
use crate::url::UrlError;
use crate::url::bad_domain;
use crate::url::bad_protocol;
use crate::url::has_allowed_scheme;
use crate::url::lemma_normalization_idempotent;
use crate::url::normalized;
use crate::url::validate_url;

verus! {

/// What the handler decided for one request: answer at once, or forward to
/// the normalized URL with the mapped method and await the outcome.
pub enum Plan {
    Respond(ProxyResponse),
    Forward { url: Vec<u8>, method: Method },
}

/// The view of an optional path capture.
pub open spec fn target_view(target: Option<&[u8]>) -> Option<Seq<u8>> {
    match target {
        Some(s) => Some(s@),
        None => None,
    }
}

/// `p` is the decision the proxy owes for verb `m` and target `target`:
/// 405 for a verb outside the allowlist; 400 for a missing target, a
/// disallowed scheme or a dotless domain; otherwise a forward of the
/// normalized URL with the mapped method.
pub open spec fn plan_ok(m: Seq<u8>, target: Option<Seq<u8>>, p: Plan) -> bool {
    match method_of(m) {
        None => p matches Plan::Respond(r) && is_rejection_response(
            r,
            Rejection::MethodNotAllowed,
        ),
        Some(meth) => match target {
            None => p matches Plan::Respond(r) && is_rejection_response(r, Rejection::MissingUrl),
            Some(s) => if bad_protocol(s) {
                p matches Plan::Respond(r) && is_rejection_response(
                    r,
                    Rejection::UnsupportedProtocol,
                )
            } else if bad_domain(s) {
                p matches Plan::Respond(r) && is_rejection_response(r, Rejection::InvalidDomain)
            } else {
                p matches Plan::Forward { url, method } && url@ == normalized(s) && method == meth
            },
        },
    }
}

/// Decides one request from its verb name and its path-captured target.
pub fn plan_request(method_name: &[u8], target: Option<&[u8]>) -> (p: Plan)
    ensures
        plan_ok(method_name@, target_view(target), p),
{
    let meth = match parse_method(method_name) {
        Some(m) => m,
        None => {
            return Plan::Respond(rejection_response(Rejection::MethodNotAllowed));
        },
    };
    let s = match target {
        Some(s) => s,
        None => {
            return Plan::Respond(rejection_response(Rejection::MissingUrl));
        },
    };
    match validate_url(s) {
        Ok(u) => Plan::Forward { url: u, method: meth },
        Err(UrlError::UnsupportedProtocol) => Plan::Respond(
            rejection_response(Rejection::UnsupportedProtocol),
        ),
        Err(UrlError::InvalidDomain) => Plan::Respond(
            rejection_response(Rejection::InvalidDomain),
        ),
    }
}

/// Every target that names a scheme outside `{http, https}` is refused with
/// 400 and the unsupported-protocol message, for every allowed method, before
/// anything is forwarded.
pub proof fn lemma_unsupported_protocol_rejected(m: Seq<u8>, s: Seq<u8>, p: Plan)
    requires
        method_of(m) is Some,
        bad_protocol(s),
        plan_ok(m, Some(s), p),
    ensures
        p matches Plan::Respond(r) && r.status == 400 && r.body@ == unsupported_protocol_msg(),
{
}

/// Every target whose domain portion has no dot — and which does not already
/// fall to the scheme check — is refused with 400 and the invalid-domain
/// message, for every allowed method.
pub proof fn lemma_invalid_domain_rejected(m: Seq<u8>, s: Seq<u8>, p: Plan)
    requires
        method_of(m) is Some,
        !bad_protocol(s),
        bad_domain(s),
        plan_ok(m, Some(s), p),
    ensures
        p matches Plan::Respond(r) && r.status == 400 && r.body@ == invalid_domain_msg(),
{
}

/// Every URL the handler orders forwarded carries an allowed scheme: a
/// target naming any other scheme was refused before any network I/O.
pub proof fn lemma_forwarded_url_has_allowed_scheme(m: Seq<u8>, target: Option<Seq<u8>>, p: Plan)
    requires
        plan_ok(m, target, p),
    ensures
        p matches Plan::Forward { url, method } ==> has_allowed_scheme(url@),
{
    if p is Forward {
        let s = target->0;
        lemma_normalization_idempotent(s);
    }
}

/// A verb outside the allowlist is refused with 405 and an empty body
/// whatever the target holds, and the plan never orders a forward: no
/// outbound call is made for such a request.
pub proof fn lemma_disallowed_method_never_forwards(m: Seq<u8>, target: Option<Seq<u8>>, p: Plan)
    requires
        method_of(m) is None,
        plan_ok(m, target, p),
    ensures
        p matches Plan::Respond(r) && r.status == 405 && r.body@ == Seq::<u8>::empty(),
        !(p is Forward),
{
}

} // verus!
