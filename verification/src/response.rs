//! Assembly of the proxy's own HTTP responses: the fixed rejection replies,
//! the gateway-error replies, and the successful relay of an upstream body
//! under permissive CORS headers.

use vstd::prelude::*;
use vstd::string::StrSliceExecFns;
use vstd::string::StringSliceAdditionalSpecFns;

verus! {

/// A response the proxy sends back: a status code, a body, and the extra
/// headers beyond what the serving layer adds on its own.
pub struct ProxyResponse {
    pub status: u16,
    pub body: Vec<u8>,
    pub headers: Vec<(Vec<u8>, Vec<u8>)>,
}

/// The bytes of the missing-target message.
pub open spec fn no_url_msg() -> Seq<u8> {
    "No URL specified".spec_bytes()
}

/// The bytes of the unsupported-protocol message.
pub open spec fn unsupported_protocol_msg() -> Seq<u8> {
    "Unsupported protocol. Only HTTP and HTTPS are allowed.".spec_bytes()
}

/// The bytes of the invalid-domain message.
pub open spec fn invalid_domain_msg() -> Seq<u8> {
    "Invalid domain name".spec_bytes()
}

/// The prefix of the body sent when the upstream could not be reached.
pub open spec fn forward_failed_prefix() -> Seq<u8> {
    "Failed to forward request: ".spec_bytes()
}

/// The prefix of the body sent when the upstream body could not be read.
pub open spec fn body_read_failed_prefix() -> Seq<u8> {
    "Failed to read response body: ".spec_bytes()
}

/// The content type used when the upstream names none.
pub open spec fn default_content_type() -> Seq<u8> {
    "application/json".spec_bytes()
}

/// The five headers attached to every successful forward: the four fixed
/// CORS headers, then the derived content type.
pub open spec fn success_headers(ct: Seq<u8>) -> Seq<(Seq<u8>, Seq<u8>)> {
    seq![
        ("Access-Control-Allow-Origin".spec_bytes(), "*".spec_bytes()),
        (
            "Access-Control-Allow-Methods".spec_bytes(),
            "GET, POST, PUT, DELETE, OPTIONS".spec_bytes(),
        ),
        ("Access-Control-Allow-Headers".spec_bytes(), "Content-Type".spec_bytes()),
        ("Access-Control-Max-Age".spec_bytes(), "3600".spec_bytes()),
        ("Content-Type".spec_bytes(), ct),
    ]
}

/// Why a request was refused before any forwarding.
#[derive(Clone, Copy, Debug, PartialEq, Eq, Structural)]
pub enum Rejection {
    /// No target string was captured from the path.
    MissingUrl,
    /// The target names a scheme other than `http` or `https`.
    UnsupportedProtocol,
    /// The domain portion of the target contains no dot.
    InvalidDomain,
    /// The inbound verb is outside the allowlist.
    MethodNotAllowed,
}

/// The status code of a rejection: 405 for a disallowed method, 400 for the
/// three client-input errors.
pub open spec fn rejection_status(rej: Rejection) -> int {
    match rej {
        Rejection::MethodNotAllowed => 405,
        _ => 400,
    }
}

/// The body of a rejection: a fixed diagnostic text, empty for a disallowed
/// method.
pub open spec fn rejection_body(rej: Rejection) -> Seq<u8> {
    match rej {
        Rejection::MissingUrl => no_url_msg(),
        Rejection::UnsupportedProtocol => unsupported_protocol_msg(),
        Rejection::InvalidDomain => invalid_domain_msg(),
        Rejection::MethodNotAllowed => Seq::empty(),
    }
}

/// `r` is the rejection reply for `rej`: the fixed status and body, and no
/// extra headers.
pub open spec fn is_rejection_response(r: ProxyResponse, rej: Rejection) -> bool {
    &&& r.status == rejection_status(rej)
    &&& r.body@ == rejection_body(rej)
    &&& r.headers@.len() == 0
}

/// `r` relays a delivered upstream body: status 200 whatever the upstream
/// status was, the body verbatim, and exactly the five success headers.
pub open spec fn is_success_response(r: ProxyResponse, ct: Seq<u8>, body: Seq<u8>) -> bool {
    &&& r.status == 200
    &&& r.body@ == body
    &&& r.headers.deep_view() == success_headers(ct)
}

/// `r` reports that the forward could not be sent: 502 with the diagnostic
/// prefix and the transport error's text.
pub open spec fn is_send_failed_response(r: ProxyResponse, err: Seq<u8>) -> bool {
    &&& r.status == 502
    &&& r.body@ == forward_failed_prefix() + err
    &&& r.headers@.len() == 0
}

/// `r` reports that the upstream body could not be read: 502 with the
/// diagnostic prefix and the read error's text.
pub open spec fn is_body_read_failed_response(r: ProxyResponse, err: Seq<u8>) -> bool {
    &&& r.status == 502
    &&& r.body@ == body_read_failed_prefix() + err
    &&& r.headers@.len() == 0
}

/// Builds the reply for a refused request.
pub fn rejection_response(rej: Rejection) -> (r: ProxyResponse)
    ensures
        is_rejection_response(r, rej),
{
    match rej {
        Rejection::MissingUrl => ProxyResponse {
            status: 400,
            body: "No URL specified".as_bytes_vec(),
            headers: Vec::new(),
        },
        Rejection::UnsupportedProtocol => ProxyResponse {
            status: 400,
            body: "Unsupported protocol. Only HTTP and HTTPS are allowed.".as_bytes_vec(),
            headers: Vec::new(),
        },
        Rejection::InvalidDomain => ProxyResponse {
            status: 400,
            body: "Invalid domain name".as_bytes_vec(),
            headers: Vec::new(),
        },
        Rejection::MethodNotAllowed => ProxyResponse {
            status: 405,
            body: Vec::new(),
            headers: Vec::new(),
        },
    }
}

/// A header value every byte of which is visible ASCII or space, the only
/// values passed through as a content type.
pub open spec fn valid_header_value(v: Seq<u8>) -> bool {
    forall|i: int| 0 <= i < v.len() ==> 32 <= #[trigger] v[i] <= 126
}

/// The content type relayed to the client: the upstream's value when it is
/// present and a valid header value, else `application/json`.
pub open spec fn derived_content_type(ct: Option<Seq<u8>>) -> Seq<u8> {
    match ct {
        Some(v) => if valid_header_value(v) {
            v
        } else {
            default_content_type()
        },
        None => default_content_type(),
    }
}

/// Derives the relayed content type from the upstream's header, if any.
pub fn derive_content_type(ct: Option<Vec<u8>>) -> (r: Vec<u8>)
    ensures
        r@ == derived_content_type(ct.deep_view()),
{
    match ct {
        Some(v) => {
            proof {
                assert(v.deep_view() =~= v@);
            }
            let n = v.len();
            let mut i: usize = 0;
            let mut ok = true;
            while i < n
                invariant
                    n == v@.len(),
                    i <= n,
                    ok == forall|m: int| 0 <= m < i ==> 32 <= #[trigger] v@[m] <= 126,
                decreases n - i,
            {
                if v[i] < 32 || v[i] > 126 {
                    ok = false;
                }
                i += 1;
            }
            if ok {
                v
            } else {
                "application/json".as_bytes_vec()
            }
        },
        None => "application/json".as_bytes_vec(),
    }
}

/// Builds the five success headers around the derived content type.
pub fn success_header_list(ct: Vec<u8>) -> (h: Vec<(Vec<u8>, Vec<u8>)>)
    ensures
        h.deep_view() == success_headers(ct@),
{
    let mut h: Vec<(Vec<u8>, Vec<u8>)> = Vec::new();
    h.push(("Access-Control-Allow-Origin".as_bytes_vec(), "*".as_bytes_vec()));
    h.push((
        "Access-Control-Allow-Methods".as_bytes_vec(),
        "GET, POST, PUT, DELETE, OPTIONS".as_bytes_vec(),
    ));
    h.push(("Access-Control-Allow-Headers".as_bytes_vec(), "Content-Type".as_bytes_vec()));
    h.push(("Access-Control-Max-Age".as_bytes_vec(), "3600".as_bytes_vec()));
    h.push(("Content-Type".as_bytes_vec(), ct));
    proof {
        assert(h.deep_view() =~~= success_headers(h@[4].1@));
    }
    h
}

/// What came of one forwarding attempt, as the unverified transport hands
/// it back: the upstream's content-type header and body when the exchange
/// completed, or the text of the error that stopped it.
pub enum UpstreamOutcome {
    /// The upstream answered and its body was fully read. Its status code is
    /// not recorded: the proxy discards it.
    Delivered { content_type: Option<Vec<u8>>, body: Vec<u8> },
    /// The request could not be sent (DNS, connection, TLS, timeout).
    SendFailed { error: Vec<u8> },
    /// The upstream answered but its body could not be fully read.
    BodyReadFailed { error: Vec<u8> },
}

/// Builds the proxy's reply from the outcome of the forwarding attempt: a
/// delivered body is relayed under status 200 and the success headers, and
/// either failure becomes a 502 with its diagnostic text.
pub fn build_upstream_response(outcome: UpstreamOutcome) -> (r: ProxyResponse)
    ensures
        outcome matches UpstreamOutcome::Delivered { content_type, body } ==> is_success_response(
            r,
            derived_content_type(content_type.deep_view()),
            body@,
        ),
        outcome matches UpstreamOutcome::SendFailed { error } ==> is_send_failed_response(
            r,
            error@,
        ),
        outcome matches UpstreamOutcome::BodyReadFailed { error } ==> is_body_read_failed_response(
            r,
            error@,
        ),
{
    match outcome {
        UpstreamOutcome::Delivered { content_type, body } => {
            let ct = derive_content_type(content_type);
            ProxyResponse { status: 200, body, headers: success_header_list(ct) }
        },
        UpstreamOutcome::SendFailed { error } => {
            let mut b = "Failed to forward request: ".as_bytes_vec();
            let mut tail = error;
            b.append(&mut tail);
            ProxyResponse { status: 502, body: b, headers: Vec::new() }
        },
        UpstreamOutcome::BodyReadFailed { error } => {
            let mut b = "Failed to read response body: ".as_bytes_vec();
            let mut tail = error;
            b.append(&mut tail);
            ProxyResponse { status: 502, body: b, headers: Vec::new() }
        },
    }
}

/// On every successful forward the reply has status 200 and carries
/// `Access-Control-Allow-Origin: *`, whatever body, content type and status
/// the upstream produced.
pub proof fn lemma_success_response_cors(r: ProxyResponse, ct: Seq<u8>, body: Seq<u8>)
    requires
        is_success_response(r, ct, body),
    ensures
        r.status == 200,
        r.headers.deep_view().len() == 5,
        r.headers.deep_view()[0] == (
            "Access-Control-Allow-Origin".spec_bytes(),
            "*".spec_bytes(),
        ),
{
}

/// When the upstream names no content type, the reply's content type is
/// exactly `application/json`.
pub proof fn lemma_absent_content_type_defaults()
    ensures
        derived_content_type(None) == default_content_type(),
{
}

} // verus!
