use qproxy::error::ProxyError;
use qproxy::parse::{parse_request, ParseOutcome, ParsedRequest};
use qproxy::upstream::Upstream;

fn parsed(payload: &[u8]) -> ParsedRequest {
    match parse_request(&payload.to_vec()) {
        ParseOutcome::Complete { request, .. } => request,
        _ => panic!("payload did not parse"),
    }
}

#[test]
fn empty_base_uri_is_a_configuration_error() {
    let r = Upstream::new(b"".to_vec());
    assert!(matches!(r, Err(ProxyError::ConfigurationError)));
}

#[test]
fn base_uri_without_scheme_is_a_configuration_error() {
    let r = Upstream::new(b"localhost".to_vec());
    assert!(matches!(r, Err(ProxyError::ConfigurationError)));
    let r = Upstream::new(b"//up:9000/".to_vec());
    assert!(matches!(r, Err(ProxyError::ConfigurationError)));
}

#[test]
fn base_uri_rejected_by_the_uri_grammar_is_a_configuration_error() {
    // The scheme is present, so rejection can only come from the URI
    // parser itself.
    let r = Upstream::new(b"http://exa mple.com/".to_vec());
    assert!(matches!(r, Err(ProxyError::ConfigurationError)));
}

#[test]
fn valid_base_uri_is_accepted() {
    assert!(Upstream::new(b"http://localhost:5000".to_vec()).is_ok());
    assert!(Upstream::new(b"https://origin.example/api".to_vec()).is_ok());
}

#[test]
fn forwarding_concatenates_base_uri_and_path() {
    let upstream = Upstream::new(b"http://up:9000".to_vec()).unwrap();
    let request = parsed(b"GET /items/42 HTTP/1.1\r\n\r\n");
    let out = upstream.build_upstream_request(&request, &b"".to_vec()).unwrap();
    assert_eq!(out.method, b"GET".to_vec());
    assert_eq!(out.uri, b"http://up:9000/items/42".to_vec());
    assert_eq!(out.body, b"".to_vec());
}

#[test]
fn forwarding_passes_the_body_through_verbatim() {
    let upstream = Upstream::new(b"http://up:9000".to_vec()).unwrap();
    let request = parsed(b"POST /submit HTTP/1.1\r\n\r\n");
    let body = b"a=1&b=2".to_vec();
    let out = upstream.build_upstream_request(&request, &body).unwrap();
    assert_eq!(out.method, b"POST".to_vec());
    assert_eq!(out.uri, b"http://up:9000/submit".to_vec());
    assert_eq!(out.body, body);
}

#[test]
fn missing_method_fails_before_any_forwarding() {
    let upstream = Upstream::new(b"http://up:9000".to_vec()).unwrap();
    let request = ParsedRequest { method: None, path: Some(b"/".to_vec()), minor: Some(1), headers: Vec::new() };
    let r = upstream.build_upstream_request(&request, &b"".to_vec());
    assert!(matches!(r, Err(ProxyError::InvalidRequest)));
}

#[test]
fn missing_path_fails_before_any_forwarding() {
    let upstream = Upstream::new(b"http://up:9000".to_vec()).unwrap();
    let request = ParsedRequest { method: Some(b"GET".to_vec()), path: None, minor: Some(1), headers: Vec::new() };
    let r = upstream.build_upstream_request(&request, &b"".to_vec());
    assert!(matches!(r, Err(ProxyError::InvalidRequest)));
}

#[test]
fn construction_is_idempotent() {
    let u1 = Upstream::new(b"http://up:9000".to_vec()).unwrap();
    let u2 = Upstream::new(b"http://up:9000".to_vec()).unwrap();
    let request = parsed(b"GET /items/42 HTTP/1.1\r\nhost: up\r\n\r\n");
    let body = b"payload".to_vec();
    let o1 = u1.build_upstream_request(&request, &body).unwrap();
    let o2 = u2.build_upstream_request(&request, &body).unwrap();
    assert_eq!(o1.method, o2.method);
    assert_eq!(o1.uri, o2.uri);
    assert_eq!(o1.body, o2.body);
}
