//! A CORS forwarding proxy's request-handling core.
//!
//! The proxy accepts a request whose path names a target URL, validates and
//! normalizes that URL, maps the HTTP method through a closed allowlist,
//! forwards the request, and relays the upstream body back under permissive
//! CORS headers. Everything here is a pure function of the request data and
//! the upstream outcome; the serving and client I/O live outside the library.

pub mod bytes;
pub mod handler;
pub mod method;
pub mod response;
pub mod url;
