use qproxy::parse::{parse_request, ParseOutcome, MAX_HEADERS};

fn complete(payload: &[u8]) -> (qproxy::parse::ParsedRequest, usize) {
    match parse_request(&payload.to_vec()) {
        ParseOutcome::Complete { request, head_len } => (request, head_len),
        ParseOutcome::Partial => panic!("unexpectedly partial"),
        ParseOutcome::Malformed => panic!("unexpectedly malformed"),
    }
}

fn is_partial(payload: &[u8]) -> bool {
    matches!(parse_request(&payload.to_vec()), ParseOutcome::Partial)
}

fn is_malformed(payload: &[u8]) -> bool {
    matches!(parse_request(&payload.to_vec()), ParseOutcome::Malformed)
}

#[test]
fn parses_complete_request_with_headers_and_body() {
    let payload = b"GET /items/42 HTTP/1.1\r\nhost: up\r\naccept: */*\r\n\r\nBODY";
    let (request, head_len) = complete(payload);
    assert_eq!(request.method, Some(b"GET".to_vec()));
    assert_eq!(request.path, Some(b"/items/42".to_vec()));
    assert_eq!(request.minor, Some(1));
    assert_eq!(request.headers.len(), 2);
    assert_eq!(request.headers[0].name, b"host".to_vec());
    assert_eq!(request.headers[0].value, b"up".to_vec());
    assert_eq!(request.headers[1].name, b"accept".to_vec());
    assert_eq!(request.headers[1].value, b"*/*".to_vec());
    assert_eq!(&payload[head_len..], b"BODY");
}

#[test]
fn parses_request_without_headers() {
    let payload = b"POST / HTTP/1.0\r\n\r\n";
    let (request, head_len) = complete(payload);
    assert_eq!(request.method, Some(b"POST".to_vec()));
    assert_eq!(request.path, Some(b"/".to_vec()));
    assert_eq!(request.minor, Some(0));
    assert_eq!(request.headers.len(), 0);
    assert_eq!(head_len, payload.len());
}

#[test]
fn skips_whitespace_before_header_value() {
    let payload = b"GET / HTTP/1.1\r\nname: \t  spaced value \r\n\r\n";
    let (request, _) = complete(payload);
    assert_eq!(request.headers[0].name, b"name".to_vec());
    assert_eq!(request.headers[0].value, b"spaced value ".to_vec());
}

#[test]
fn allows_empty_header_value() {
    let payload = b"GET / HTTP/1.1\r\nempty:\r\n\r\n";
    let (request, _) = complete(payload);
    assert_eq!(request.headers[0].name, b"empty".to_vec());
    assert_eq!(request.headers[0].value, b"".to_vec());
}

#[test]
fn empty_payload_is_partial() {
    assert!(is_partial(b""));
}

#[test]
fn truncated_request_line_is_partial() {
    assert!(is_partial(b"GET /items/4"));
    assert!(is_partial(b"GET /items/42 HTTP/1."));
    assert!(is_partial(b"GET /items/42 HTTP/1.1\r"));
}

#[test]
fn head_split_before_end_is_partial() {
    // Request line and headers split so that the head cannot complete
    // within the bytes received before the stream ended.
    assert!(is_partial(b"GET / HTTP/1.1\r\nhost: u"));
    assert!(is_partial(b"GET / HTTP/1.1\r\nhost: up\r\n"));
}

#[test]
fn missing_method_is_malformed() {
    assert!(is_malformed(b" / HTTP/1.1\r\n\r\n"));
}

#[test]
fn missing_path_is_malformed() {
    assert!(is_malformed(b"GET  HTTP/1.1\r\n\r\n"));
}

#[test]
fn wrong_protocol_name_is_malformed() {
    assert!(is_malformed(b"GET / HTTX/1.1\r\n\r\n"));
}

#[test]
fn bare_lf_after_version_is_malformed() {
    assert!(is_malformed(b"GET / HTTP/1.1\nhost: up\r\n\r\n"));
}

#[test]
fn header_without_colon_is_malformed() {
    assert!(is_malformed(b"GET / HTTP/1.1\r\nhost up\r\n\r\n"));
}

#[test]
fn header_table_holds_exactly_the_bound() {
    let mut payload = b"GET / HTTP/1.1\r\n".to_vec();
    for i in 0..MAX_HEADERS {
        payload.extend_from_slice(format!("h{}: v\r\n", i).as_bytes());
    }
    payload.extend_from_slice(b"\r\n");
    let (request, _) = complete(&payload);
    assert_eq!(request.headers.len(), MAX_HEADERS);
}

#[test]
fn excess_headers_are_malformed() {
    let mut payload = b"GET / HTTP/1.1\r\n".to_vec();
    for i in 0..(MAX_HEADERS + 1) {
        payload.extend_from_slice(format!("h{}: v\r\n", i).as_bytes());
    }
    payload.extend_from_slice(b"\r\n");
    assert!(is_malformed(&payload));
}
