//! The upstream forwarder: a fixed base URI, validated once at
//! construction, and the capability "take a parsed request plus body
//! bytes, return a complete response buffer or fail".
//!
//! Building the outgoing request is pure: the method is copied verbatim,
//! the URI is the base URI with the request's path appended, and the body
//! passes through untouched. Issuing the request over the network is the
//! unverified half of the capability and lives outside this crate; any
//! implementation of `UpstreamTrait` is held to the same contract.

use vstd::prelude::*;

use crate::error::ProxyError;
use crate::parse::{append_bytes, copy_bytes, ParsedRequest, COLON};
use crate::response::ResponseBuffer;

verus! {

/// A byte that may open a URI scheme: a letter.
pub open spec fn is_scheme_first_byte(b: u8) -> bool {
    (65 <= b && b <= 90) || (97 <= b && b <= 122)
}

/// A byte that may continue a URI scheme: a letter, digit, `+`, `-`, `.`.
pub open spec fn is_scheme_byte(b: u8) -> bool {
    (48 <= b && b <= 57) || (65 <= b && b <= 90) || (97 <= b && b <= 122) || b == 43 || b == 45
        || b == 46
}

/// Whether the bytes open with a URI scheme followed by a colon — the
/// shape an absolute base URI must have. A string with no scheme (or an
/// empty string) is not an acceptable upstream target.
pub open spec fn scheme_present(s: Seq<u8>) -> bool {
    exists|i: int|
        0 < i < s.len() && #[trigger] s[i] == COLON && is_scheme_first_byte(s[0]) && (forall|
        k: int,
        | 1 <= k < i ==> is_scheme_byte(#[trigger] s[k]))
}

/// Whether the bytes, read as UTF-8, parse as a URI under the HTTP URI
/// grammar. The result is a function of the bytes alone.
pub uninterp spec fn uri_accepted(s: Seq<u8>) -> bool;

/// Relies on http::Uri::from_str (reached through str::parse): it decides
/// whether a string is a syntactically valid URI, returning Err otherwise;
/// bytes that are not UTF-8 are no valid URI string at all.
#[verifier::external_body]
fn parse_uri_ok(s: &Vec<u8>) -> (r: bool)
    ensures
        r == uri_accepted(s@),
{
    match std::str::from_utf8(s) {
        Ok(t) => t.parse::<http::Uri>().is_ok(),
        Err(_) => false,
    }
}

fn byte_is_scheme_first(b: u8) -> (r: bool)
    ensures
        r == is_scheme_first_byte(b),
{
    (65 <= b && b <= 90) || (97 <= b && b <= 122)
}

fn byte_is_scheme(b: u8) -> (r: bool)
    ensures
        r == is_scheme_byte(b),
{
    (48 <= b && b <= 57) || (65 <= b && b <= 90) || (97 <= b && b <= 122) || b == 43 || b == 45
        || b == 46
}

/// Decides `scheme_present`.
fn has_scheme(s: &Vec<u8>) -> (r: bool)
    ensures
        r == scheme_present(s@),
{
    if s.len() == 0 {
        assert(!scheme_present(s@));
        return false;
    }
    if !byte_is_scheme_first(s[0]) {
        assert(!scheme_present(s@));
        return false;
    }
    let mut j: usize = 1;
    while j < s.len() && byte_is_scheme(s[j])
        invariant
            1 <= j <= s@.len(),
            is_scheme_first_byte(s@[0]),
            forall|k: int| 1 <= k < j ==> is_scheme_byte(s@[k]),
        decreases s@.len() - j,
    {
        j = j + 1;
    }
    if j < s.len() && s[j] == COLON {
        assert(scheme_present(s@)) by {
            assert(0 < j < s@.len() && s@[j as int] == COLON && is_scheme_first_byte(s@[0]) && (
            forall|k: int| 1 <= k < j ==> is_scheme_byte(s@[k])));
        }
        true
    } else {
        assert(!scheme_present(s@)) by {
            assert forall|i: int|
                !(0 < i < s@.len() && #[trigger] s@[i] == COLON && is_scheme_first_byte(s@[0]) && (
                forall|k: int| 1 <= k < i ==> is_scheme_byte(#[trigger] s@[k]))) by {
                if 0 < i < s@.len() && s@[i] == COLON && (forall|k: int|
                    1 <= k < i ==> is_scheme_byte(s@[k])) {
                    if i < j {
                        assert(is_scheme_byte(s@[i]));
                    } else if i == j {
                        assert(false);
                    } else {
                        assert(is_scheme_byte(s@[j as int]));
                    }
                }
            }
        }
        false
    }
}

/// The outgoing upstream request assembled from a parsed request: its
/// method and URI are handed to the HTTP client as they stand, and its
/// body is sent verbatim.
pub struct OutgoingRequest {
    pub method: Vec<u8>,
    pub uri: Vec<u8>,
    pub body: Vec<u8>,
}

/// What the forwarder builds from a base URI and a parsed request's
/// method, path and body: the method verbatim, the base URI with the path
/// appended, the body untouched — or `InvalidRequest` when method or path
/// is missing.
pub open spec fn spec_outgoing(
    base: Seq<u8>,
    method: Option<Seq<u8>>,
    path: Option<Seq<u8>>,
    body: Seq<u8>,
) -> Result<(Seq<u8>, Seq<u8>, Seq<u8>), ProxyError> {
    match (method, path) {
        (Some(m), Some(p)) => Ok((m, base + p, body)),
        _ => Err(ProxyError::InvalidRequest),
    }
}

/// How a built request relates to `spec_outgoing`'s answer.
pub open spec fn outgoing_matches(
    r: Result<OutgoingRequest, ProxyError>,
    sp: Result<(Seq<u8>, Seq<u8>, Seq<u8>), ProxyError>,
) -> bool {
    match (r, sp) {
        (Ok(out), Ok(t)) => out.method@ == t.0 && out.uri@ == t.1 && out.body@ == t.2,
        (Err(e1), Err(e2)) => e1 == e2,
        _ => false,
    }
}

/// The upstream forwarder's immutable state: the base URI all requests are
/// forwarded to. Validated once at construction and read-only afterwards,
/// so it can be shared by any number of concurrent stream handlers without
/// locks.
pub struct Upstream {
    uri: Vec<u8>,
}

impl Upstream {
    /// The configured base URI.
    pub closed spec fn base_uri(self) -> Seq<u8> {
        self.uri@
    }

    /// Validates the base URI and constructs the forwarder. Construction
    /// succeeds exactly when the bytes open with a scheme and parse as a
    /// URI; otherwise the configuration is rejected before any request
    /// could be forwarded. Success is a function of the URI bytes alone,
    /// so repeated construction from the same bytes behaves the same.
    pub fn new(uri: Vec<u8>) -> (r: Result<Upstream, ProxyError>)
        ensures
            (r is Ok) <==> (scheme_present(uri@) && uri_accepted(uri@)),
            r matches Ok(u) ==> u.base_uri() == uri@,
            r matches Err(e) ==> e == ProxyError::ConfigurationError,
    {
        if !has_scheme(&uri) {
            return Err(ProxyError::ConfigurationError);
        }
        if !parse_uri_ok(&uri) {
            return Err(ProxyError::ConfigurationError);
        }
        Ok(Upstream { uri })
    }

    /// Builds the request to send upstream from an incoming parsed request:
    /// exactly `spec_outgoing` of the base URI and the request's parts.
    pub fn build_upstream_request(&self, request: &ParsedRequest, body: &Vec<u8>) -> (r: Result<
        OutgoingRequest,
        ProxyError,
    >)
        ensures
            outgoing_matches(
                r,
                spec_outgoing(self.base_uri(), request.method_view(), request.path_view(), body@),
            ),
    {
        let path = match &request.path {
            Some(p) => p,
            None => {
                return Err(ProxyError::InvalidRequest);
            },
        };
        let method = match &request.method {
            Some(m) => m,
            None => {
                return Err(ProxyError::InvalidRequest);
            },
        };
        let mut uri = copy_bytes(&self.uri);
        append_bytes(&mut uri, path);
        Ok(OutgoingRequest { method: copy_bytes(method), uri, body: copy_bytes(body) })
    }
}

/// Idempotent construction: by `new`'s contract, whether construction
/// succeeds depends on the URI bytes alone, so two constructions from the
/// same bytes both succeed or both fail; this lemma adds that two
/// forwarders holding the same base URI build identical outgoing requests
/// from any parsed request and body.
pub proof fn lemma_idempotent_construction(
    u1: Upstream,
    u2: Upstream,
    method: Option<Seq<u8>>,
    path: Option<Seq<u8>>,
    body: Seq<u8>,
)
    requires
        u1.base_uri() == u2.base_uri(),
    ensures
        spec_outgoing(u1.base_uri(), method, path, body) == spec_outgoing(
            u2.base_uri(),
            method,
            path,
            body,
        ),
{
}

/// How an implementation's answer relates to the response it owes.
pub open spec fn response_matches(
    r: Result<ResponseBuffer, ProxyError>,
    sp: Result<Seq<u8>, ProxyError>,
) -> bool {
    match (r, sp) {
        (Ok(buf), Ok(bytes)) => buf@ == bytes,
        (Err(e1), Err(e2)) => e1 == e2,
        _ => false,
    }
}

/// The one capability the stream handler needs of an upstream: process a
/// parsed request plus body bytes into a complete response buffer, or
/// fail. Each implementation fixes, as `response_of`, which answer it owes
/// to each request, and `process_request` must return exactly that — so
/// alternative upstream strategies can be substituted under the stream
/// handler without changing it.
pub trait UpstreamTrait {
    /// The answer this upstream owes to a request with the given method,
    /// path, headers and body.
    spec fn response_of(
        &self,
        method: Option<Seq<u8>>,
        path: Option<Seq<u8>>,
        headers: Seq<(Seq<u8>, Seq<u8>)>,
        body: Seq<u8>,
    ) -> Result<Seq<u8>, ProxyError>;

    /// Processes one request; at most one upstream exchange, no retries.
    fn process_request(&self, request: &ParsedRequest, body: &Vec<u8>) -> (r: Result<
        ResponseBuffer,
        ProxyError,
    >)
        ensures
            response_matches(
                r,
                self.response_of(
                    request.method_view(),
                    request.path_view(),
                    request.headers_view(),
                    body@,
                ),
            ),
    ;
}

/// An upstream strategy that answers every request with one fixed
/// response buffer, whatever the request: the simplest substitutable
/// stand-in for the real forwarder.
pub struct FixedResponder {
    pub response: Vec<u8>,
}

impl UpstreamTrait for FixedResponder {
    open spec fn response_of(
        &self,
        method: Option<Seq<u8>>,
        path: Option<Seq<u8>>,
        headers: Seq<(Seq<u8>, Seq<u8>)>,
        body: Seq<u8>,
    ) -> Result<Seq<u8>, ProxyError> {
        Ok(self.response@)
    }

    fn process_request(&self, request: &ParsedRequest, body: &Vec<u8>) -> (r: Result<
        ResponseBuffer,
        ProxyError,
    >) {
        let mut buf = ResponseBuffer::new();
        buf.write_bytes(&self.response);
        Ok(buf)
    }
}

/// An upstream strategy that fails every request with one fixed error —
/// an unreachable upstream, for exercising failure isolation.
pub struct FailingResponder {
    pub error: ProxyError,
}

impl UpstreamTrait for FailingResponder {
    open spec fn response_of(
        &self,
        method: Option<Seq<u8>>,
        path: Option<Seq<u8>>,
        headers: Seq<(Seq<u8>, Seq<u8>)>,
        body: Seq<u8>,
    ) -> Result<Seq<u8>, ProxyError> {
        Err(self.error)
    }

    fn process_request(&self, request: &ParsedRequest, body: &Vec<u8>) -> (r: Result<
        ResponseBuffer,
        ProxyError,
    >) {
        Err(self.error)
    }
}

} // verus!
