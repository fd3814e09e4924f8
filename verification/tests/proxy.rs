//! End-to-end checks of the request-handling core on concrete requests.

use cors_proxy::handler::{plan_request, Plan};
use cors_proxy::method::Method;
use cors_proxy::response::{build_upstream_response, ProxyResponse, UpstreamOutcome};

fn expect_respond(p: Plan) -> ProxyResponse {
    match p {
        Plan::Respond(r) => r,
        Plan::Forward { .. } => panic!("expected an immediate reply, got a forward"),
    }
}

fn expect_forward(p: Plan) -> (Vec<u8>, Method) {
    match p {
        Plan::Forward { url, method } => (url, method),
        Plan::Respond(r) => panic!("expected a forward, got status {}", r.status),
    }
}

fn header<'a>(r: &'a ProxyResponse, name: &str) -> Option<&'a [u8]> {
    r.headers
        .iter()
        .find(|(n, _)| n.as_slice() == name.as_bytes())
        .map(|(_, v)| v.as_slice())
}

#[test]
fn get_bare_host_is_forwarded_to_https() {
    let (url, method) = expect_forward(plan_request(b"GET", Some(b"example.com/api")));
    assert_eq!(url, b"https://example.com/api".to_vec());
    assert_eq!(method, Method::Get);

    let reply = build_upstream_response(UpstreamOutcome::Delivered {
        content_type: Some(b"application/json".to_vec()),
        body: b"{\"ok\":true}".to_vec(),
    });
    assert_eq!(reply.status, 200);
    assert_eq!(reply.body, b"{\"ok\":true}".to_vec());
    assert_eq!(
        header(&reply, "Access-Control-Allow-Origin"),
        Some(b"*".as_slice())
    );
    assert_eq!(
        header(&reply, "Content-Type"),
        Some(b"application/json".as_slice())
    );
}

#[test]
fn ftp_scheme_is_refused() {
    let r = expect_respond(plan_request(b"POST", Some(b"ftp://example.com/x")));
    assert_eq!(r.status, 400);
    assert_eq!(
        r.body,
        b"Unsupported protocol. Only HTTP and HTTPS are allowed.".to_vec()
    );
    assert!(r.headers.is_empty());
}

#[test]
fn dotless_host_is_refused() {
    let r = expect_respond(plan_request(b"GET", Some(b"localhost")));
    assert_eq!(r.status, 400);
    assert_eq!(r.body, b"Invalid domain name".to_vec());
    assert!(r.headers.is_empty());
}

#[test]
fn patch_is_refused_with_405() {
    let r = expect_respond(plan_request(b"PATCH", Some(b"example.com")));
    assert_eq!(r.status, 405);
    assert!(r.body.is_empty());
    assert!(r.headers.is_empty());
}

#[test]
fn unreachable_upstream_becomes_502() {
    let (url, method) = expect_forward(plan_request(b"PUT", Some(b"example.com/update")));
    assert_eq!(url, b"https://example.com/update".to_vec());
    assert_eq!(method, Method::Put);

    let reply = build_upstream_response(UpstreamOutcome::SendFailed {
        error: b"connection refused".to_vec(),
    });
    assert_eq!(reply.status, 502);
    assert!(reply.body.starts_with(b"Failed to forward request: "));
    assert_eq!(
        reply.body,
        b"Failed to forward request: connection refused".to_vec()
    );
    assert!(reply.headers.is_empty());
}

#[test]
fn unreadable_upstream_body_becomes_502() {
    let reply = build_upstream_response(UpstreamOutcome::BodyReadFailed {
        error: b"connection reset".to_vec(),
    });
    assert_eq!(reply.status, 502);
    assert_eq!(
        reply.body,
        b"Failed to read response body: connection reset".to_vec()
    );
    assert!(reply.headers.is_empty());
}

#[test]
fn missing_target_is_refused() {
    let r = expect_respond(plan_request(b"GET", None));
    assert_eq!(r.status, 400);
    assert_eq!(r.body, b"No URL specified".to_vec());
}

#[test]
fn disallowed_method_wins_over_bad_target() {
    let r = expect_respond(plan_request(b"OPTIONS", Some(b"ftp://example.com")));
    assert_eq!(r.status, 405);
    assert!(r.body.is_empty());

    let r = expect_respond(plan_request(b"HEAD", None));
    assert_eq!(r.status, 405);
}

#[test]
fn success_headers_are_the_five_cors_headers_in_order() {
    let reply = build_upstream_response(UpstreamOutcome::Delivered {
        content_type: None,
        body: Vec::new(),
    });
    let names: Vec<&[u8]> = reply.headers.iter().map(|(n, _)| n.as_slice()).collect();
    assert_eq!(
        names,
        vec![
            b"Access-Control-Allow-Origin".as_slice(),
            b"Access-Control-Allow-Methods".as_slice(),
            b"Access-Control-Allow-Headers".as_slice(),
            b"Access-Control-Max-Age".as_slice(),
            b"Content-Type".as_slice(),
        ]
    );
    assert_eq!(header(&reply, "Access-Control-Allow-Origin"), Some(b"*".as_slice()));
    assert_eq!(
        header(&reply, "Access-Control-Allow-Methods"),
        Some(b"GET, POST, PUT, DELETE, OPTIONS".as_slice())
    );
    assert_eq!(
        header(&reply, "Access-Control-Allow-Headers"),
        Some(b"Content-Type".as_slice())
    );
    assert_eq!(header(&reply, "Access-Control-Max-Age"), Some(b"3600".as_slice()));
}

#[test]
fn absent_content_type_defaults_to_json() {
    let reply = build_upstream_response(UpstreamOutcome::Delivered {
        content_type: None,
        body: b"x".to_vec(),
    });
    assert_eq!(header(&reply, "Content-Type"), Some(b"application/json".as_slice()));
    assert_eq!(reply.status, 200);
    assert_eq!(reply.body, b"x".to_vec());
}

#[test]
fn invalid_content_type_bytes_default_to_json() {
    let reply = build_upstream_response(UpstreamOutcome::Delivered {
        content_type: Some(b"text/\nplain".to_vec()),
        body: Vec::new(),
    });
    assert_eq!(header(&reply, "Content-Type"), Some(b"application/json".as_slice()));
}

#[test]
fn upstream_content_type_is_relayed() {
    let reply = build_upstream_response(UpstreamOutcome::Delivered {
        content_type: Some(b"text/html; charset=utf-8".to_vec()),
        body: Vec::new(),
    });
    assert_eq!(
        header(&reply, "Content-Type"),
        Some(b"text/html; charset=utf-8".as_slice())
    );
}

#[test]
fn upstream_status_is_not_inspected_reply_is_always_200() {
    // The outcome of a delivered exchange carries no status at all: whatever
    // the upstream answered, the relay is a 200.
    let reply = build_upstream_response(UpstreamOutcome::Delivered {
        content_type: None,
        body: b"not found".to_vec(),
    });
    assert_eq!(reply.status, 200);
    assert_eq!(reply.body, b"not found".to_vec());
}
