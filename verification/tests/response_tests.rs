use qproxy::parse::Header;
use qproxy::response::{build_response_head, ResponseBuffer};

fn header(name: &[u8], value: &[u8]) -> Header {
    Header { name: name.to_vec(), value: value.to_vec() }
}

#[test]
fn buffer_accumulates_chunks_in_order() {
    let mut buf = ResponseBuffer::new();
    assert_eq!(buf.len(), 0);
    buf.write_bytes(&b"abc".to_vec());
    buf.write_bytes(&b"".to_vec());
    buf.write_bytes(&b"defg".to_vec());
    assert_eq!(buf.to_bytes(), b"abcdefg".to_vec());
    assert_eq!(buf.len(), 7);
}

#[test]
fn head_serializes_status_line_headers_and_blank_line() {
    let headers = vec![header(b"content-type", b"text/plain"), header(b"content-length", b"2")];
    let buf = build_response_head(200, &b"OK".to_vec(), &headers);
    assert_eq!(
        buf.to_bytes(),
        b"HTTP/1.1 200 OK\r\ncontent-type: text/plain\r\ncontent-length: 2\r\n\r\n".to_vec()
    );
}

#[test]
fn head_serializes_any_status_number() {
    let buf = build_response_head(7, &b"odd".to_vec(), &Vec::new());
    assert_eq!(buf.to_bytes(), b"HTTP/1.1 7 odd\r\n\r\n".to_vec());
    let buf = build_response_head(65535, &b"max".to_vec(), &Vec::new());
    assert_eq!(buf.to_bytes(), b"HTTP/1.1 65535 max\r\n\r\n".to_vec());
}

#[test]
fn chunked_body_round_trips_untruncated() {
    // An upstream returning status 200 with a fixed header set and a body
    // delivered in several chunks: the bytes written back must be the
    // exact serialized response, head then body, with no truncation.
    let headers = vec![header(b"content-type", b"application/octet-stream")];
    let body: Vec<u8> = (0u16..600).map(|i| (i % 251) as u8).collect();
    let mut buf = build_response_head(200, &b"OK".to_vec(), &headers);
    let chunks: Vec<Vec<u8>> = vec![
        body[0..1].to_vec(),
        body[1..250].to_vec(),
        body[250..250].to_vec(),
        body[250..600].to_vec(),
    ];
    buf.write_chunks(&chunks);
    let mut expected =
        b"HTTP/1.1 200 OK\r\ncontent-type: application/octet-stream\r\n\r\n".to_vec();
    expected.extend_from_slice(&body);
    assert_eq!(buf.to_bytes(), expected);
}

#[test]
fn chunk_boundaries_do_not_matter() {
    let body = b"the same body either way".to_vec();
    let mut one = ResponseBuffer::new();
    one.write_chunks(&vec![body.clone()]);
    let mut many = ResponseBuffer::new();
    many.write_chunks(&vec![
        body[0..3].to_vec(),
        body[3..4].to_vec(),
        body[4..24].to_vec(),
    ]);
    assert_eq!(one.to_bytes(), many.to_bytes());
}
