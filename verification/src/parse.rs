//! Wire-format parser for the request head carried on each stream.
//!
//! Each stream carries, in order: a request line (method, path, version) and
//! a bounded header block in a plaintext HTTP/1.x-like encoding, optionally
//! followed immediately by a raw body. The parser consumes the leading bytes
//! of the payload and either completes at the byte offset where the header
//! block ends, reports that more bytes would be needed, or rejects the
//! payload as malformed. The grammar is specified by `spec_parse` below and
//! the executable parser is proved to decide it exactly.

use vstd::prelude::*;

verus! {

pub const CR: u8 = 13;

pub const LF: u8 = 10;

pub const SP: u8 = 32;

pub const HT: u8 = 9;

pub const COLON: u8 = 58;

/// Capacity of the fixed header table: a request with more header lines
/// than this is rejected rather than silently truncated.
pub const MAX_HEADERS: usize = 16;

/// Bytes allowed in a method or header name: the HTTP token characters
/// (digits, letters, and `! # $ % & ' * + - . ^ _ ` | ~`).
pub open spec fn is_token_byte(b: u8) -> bool {
    (48 <= b && b <= 57) || (65 <= b && b <= 90) || (97 <= b && b <= 122) || b == 33 || b == 35
        || b == 36 || b == 37 || b == 38 || b == 39 || b == 42 || b == 43 || b == 45 || b == 46
        || b == 94 || b == 95 || b == 96 || b == 124 || b == 126
}

/// Bytes allowed in a request path: anything but controls, space, and
/// delete.
pub open spec fn is_path_byte(b: u8) -> bool {
    b > 32 && b != 127
}

/// Bytes allowed in a header value: anything that does not end the line.
pub open spec fn is_value_byte(b: u8) -> bool {
    b != CR && b != LF
}

/// Optional whitespace between a header's colon and its value.
pub open spec fn is_ows_byte(b: u8) -> bool {
    b == SP || b == HT
}

/// The first index at or after `i` whose byte is not a token byte (or the
/// end of the sequence).
pub open spec fn token_end(s: Seq<u8>, i: int) -> int
    decreases s.len() - i,
{
    if i < 0 || i >= s.len() {
        i
    } else if is_token_byte(s[i]) {
        token_end(s, i + 1)
    } else {
        i
    }
}

/// The first index at or after `i` whose byte is not a path byte (or the
/// end of the sequence).
pub open spec fn path_end(s: Seq<u8>, i: int) -> int
    decreases s.len() - i,
{
    if i < 0 || i >= s.len() {
        i
    } else if is_path_byte(s[i]) {
        path_end(s, i + 1)
    } else {
        i
    }
}

/// The first index at or after `i` whose byte is not a value byte (or the
/// end of the sequence).
pub open spec fn value_end(s: Seq<u8>, i: int) -> int
    decreases s.len() - i,
{
    if i < 0 || i >= s.len() {
        i
    } else if is_value_byte(s[i]) {
        value_end(s, i + 1)
    } else {
        i
    }
}

/// The first index at or after `i` whose byte is not optional whitespace
/// (or the end of the sequence).
pub open spec fn ows_end(s: Seq<u8>, i: int) -> int
    decreases s.len() - i,
{
    if i < 0 || i >= s.len() {
        i
    } else if is_ows_byte(s[i]) {
        ows_end(s, i + 1)
    } else {
        i
    }
}

fn byte_is_token(b: u8) -> (r: bool)
    ensures
        r == is_token_byte(b),
{
    (48 <= b && b <= 57) || (65 <= b && b <= 90) || (97 <= b && b <= 122) || b == 33 || b == 35
        || b == 36 || b == 37 || b == 38 || b == 39 || b == 42 || b == 43 || b == 45 || b == 46
        || b == 94 || b == 95 || b == 96 || b == 124 || b == 126
}

fn byte_is_path(b: u8) -> (r: bool)
    ensures
        r == is_path_byte(b),
{
    b > 32 && b != 127
}

fn byte_is_value(b: u8) -> (r: bool)
    ensures
        r == is_value_byte(b),
{
    b != CR && b != LF
}

fn byte_is_ows(b: u8) -> (r: bool)
    ensures
        r == is_ows_byte(b),
{
    b == SP || b == HT
}

fn scan_token(s: &Vec<u8>, from: usize) -> (r: usize)
    requires
        from <= s@.len(),
    ensures
        from <= r <= s@.len(),
        r == token_end(s@, from as int),
{
    let mut j = from;
    while j < s.len() && byte_is_token(s[j])
        invariant
            from <= j <= s@.len(),
            token_end(s@, from as int) == token_end(s@, j as int),
        decreases s@.len() - j,
    {
        j = j + 1;
    }
    assert(token_end(s@, j as int) == j);
    j
}

fn scan_path(s: &Vec<u8>, from: usize) -> (r: usize)
    requires
        from <= s@.len(),
    ensures
        from <= r <= s@.len(),
        r == path_end(s@, from as int),
{
    let mut j = from;
    while j < s.len() && byte_is_path(s[j])
        invariant
            from <= j <= s@.len(),
            path_end(s@, from as int) == path_end(s@, j as int),
        decreases s@.len() - j,
    {
        j = j + 1;
    }
    assert(path_end(s@, j as int) == j);
    j
}

fn scan_value(s: &Vec<u8>, from: usize) -> (r: usize)
    requires
        from <= s@.len(),
    ensures
        from <= r <= s@.len(),
        r == value_end(s@, from as int),
{
    let mut j = from;
    while j < s.len() && byte_is_value(s[j])
        invariant
            from <= j <= s@.len(),
            value_end(s@, from as int) == value_end(s@, j as int),
        decreases s@.len() - j,
    {
        j = j + 1;
    }
    assert(value_end(s@, j as int) == j);
    j
}

fn scan_ows(s: &Vec<u8>, from: usize) -> (r: usize)
    requires
        from <= s@.len(),
    ensures
        from <= r <= s@.len(),
        r == ows_end(s@, from as int),
{
    let mut j = from;
    while j < s.len() && byte_is_ows(s[j])
        invariant
            from <= j <= s@.len(),
            ows_end(s@, from as int) == ows_end(s@, j as int),
        decreases s@.len() - j,
    {
        j = j + 1;
    }
    assert(ows_end(s@, j as int) == j);
    j
}

pub(crate) fn copy_bytes(src: &Vec<u8>) -> (r: Vec<u8>)
    ensures
        r@ == src@,
{
    let r = copy_range(src, 0, src.len());
    assert(src@.subrange(0, src@.len() as int) =~= src@);
    r
}

pub(crate) fn append_bytes(dst: &mut Vec<u8>, src: &Vec<u8>)
    ensures
        final(dst)@ == old(dst)@ + src@,
{
    let mut j: usize = 0;
    while j < src.len()
        invariant
            j <= src@.len(),
            dst@ == old(dst)@ + src@.subrange(0, j as int),
        decreases src@.len() - j,
    {
        dst.push(src[j]);
        assert(src@.subrange(0, j + 1 as int) =~= src@.subrange(0, j as int) + seq![
            src@[j as int],
        ]);
        j = j + 1;
    }
    assert(src@.subrange(0, src@.len() as int) =~= src@);
}

/// Outcome of reading the protocol version, the end of the request line.
pub enum SpecVersion {
    Done { minor: u8, next: int },
    Incomplete,
    Bad,
}

/// Outcome of reading the request line.
pub enum SpecLine {
    Done { method: Seq<u8>, path: Seq<u8>, minor: u8, next: int },
    Incomplete,
    Bad,
}

/// Outcome of reading the header block.
pub enum SpecHeaders {
    Done { headers: Seq<(Seq<u8>, Seq<u8>)>, end: int },
    Incomplete,
    Bad,
}

/// Outcome of parsing a whole request head: either complete at byte offset
/// `end` (everything from `end` on is body), in need of more bytes than the
/// payload holds, or malformed.
pub enum SpecParse {
    Complete { method: Seq<u8>, path: Seq<u8>, minor: u8, headers: Seq<(Seq<u8>, Seq<u8>)>, end: int },
    Incomplete,
    Bad,
}

/// Reads the literal `HTTP/1.`, a single digit, and the line's CRLF,
/// starting at `v`. Running out of bytes while everything so far matches is
/// `Incomplete`; a byte that cannot match is `Bad`.
pub open spec fn spec_version(s: Seq<u8>, v: int) -> SpecVersion {
    if v >= s.len() {
        SpecVersion::Incomplete
    } else if s[v] != 72 {
        SpecVersion::Bad
    } else if v + 1 >= s.len() {
        SpecVersion::Incomplete
    } else if s[v + 1] != 84 {
        SpecVersion::Bad
    } else if v + 2 >= s.len() {
        SpecVersion::Incomplete
    } else if s[v + 2] != 84 {
        SpecVersion::Bad
    } else if v + 3 >= s.len() {
        SpecVersion::Incomplete
    } else if s[v + 3] != 80 {
        SpecVersion::Bad
    } else if v + 4 >= s.len() {
        SpecVersion::Incomplete
    } else if s[v + 4] != 47 {
        SpecVersion::Bad
    } else if v + 5 >= s.len() {
        SpecVersion::Incomplete
    } else if s[v + 5] != 49 {
        SpecVersion::Bad
    } else if v + 6 >= s.len() {
        SpecVersion::Incomplete
    } else if s[v + 6] != 46 {
        SpecVersion::Bad
    } else if v + 7 >= s.len() {
        SpecVersion::Incomplete
    } else if !(48 <= s[v + 7] && s[v + 7] <= 57) {
        SpecVersion::Bad
    } else if v + 8 >= s.len() {
        SpecVersion::Incomplete
    } else if s[v + 8] != CR {
        SpecVersion::Bad
    } else if v + 9 >= s.len() {
        SpecVersion::Incomplete
    } else if s[v + 9] != LF {
        SpecVersion::Bad
    } else {
        SpecVersion::Done { minor: (s[v + 7] - 48) as u8, next: v + 10 }
    }
}

/// Reads the request line `method SP path SP version CRLF` from the start
/// of the payload. The method must be a nonempty run of token bytes and the
/// path a nonempty run of path bytes.
pub open spec fn spec_request_line(s: Seq<u8>) -> SpecLine {
    let me = token_end(s, 0);
    if me >= s.len() {
        SpecLine::Incomplete
    } else if me == 0 || s[me] != SP {
        SpecLine::Bad
    } else {
        let ps = me + 1;
        let pe = path_end(s, ps);
        if pe >= s.len() {
            SpecLine::Incomplete
        } else if pe == ps || s[pe] != SP {
            SpecLine::Bad
        } else {
            match spec_version(s, pe + 1) {
                SpecVersion::Incomplete => SpecLine::Incomplete,
                SpecVersion::Bad => SpecLine::Bad,
                SpecVersion::Done { minor, next } => SpecLine::Done {
                    method: s.subrange(0, me),
                    path: s.subrange(ps, pe),
                    minor,
                    next,
                },
            }
        }
    }
}

/// Reads header lines `name COLON OWS value CRLF` starting at `i`, up to
/// `slots` of them, until the empty line that closes the head. A line that
/// would exceed the slots is `Bad` (the table never silently truncates).
pub open spec fn spec_headers(s: Seq<u8>, i: int, slots: nat) -> SpecHeaders
    decreases slots,
{
    if i < 0 || i >= s.len() {
        SpecHeaders::Incomplete
    } else if s[i] == CR {
        if i + 1 >= s.len() {
            SpecHeaders::Incomplete
        } else if s[i + 1] == LF {
            SpecHeaders::Done { headers: seq![], end: i + 2 }
        } else {
            SpecHeaders::Bad
        }
    } else {
        let ne = token_end(s, i);
        if ne >= s.len() {
            SpecHeaders::Incomplete
        } else if ne == i || s[ne] != COLON {
            SpecHeaders::Bad
        } else {
            let vs = ows_end(s, ne + 1);
            let ve = value_end(s, vs);
            if ve >= s.len() {
                SpecHeaders::Incomplete
            } else if s[ve] != CR {
                SpecHeaders::Bad
            } else if ve + 1 >= s.len() {
                SpecHeaders::Incomplete
            } else if s[ve + 1] != LF {
                SpecHeaders::Bad
            } else if slots == 0 {
                SpecHeaders::Bad
            } else {
                match spec_headers(s, ve + 2, (slots - 1) as nat) {
                    SpecHeaders::Done { headers, end } => SpecHeaders::Done {
                        headers: seq![(s.subrange(i, ne), s.subrange(vs, ve))] + headers,
                        end,
                    },
                    o => o,
                }
            }
        }
    }
}

/// The request-head grammar: a request line followed by at most
/// `MAX_HEADERS` header lines and the closing empty line.
pub open spec fn spec_parse(s: Seq<u8>) -> SpecParse {
    match spec_request_line(s) {
        SpecLine::Incomplete => SpecParse::Incomplete,
        SpecLine::Bad => SpecParse::Bad,
        SpecLine::Done { method, path, minor, next } => match spec_headers(
            s,
            next,
            MAX_HEADERS as nat,
        ) {
            SpecHeaders::Incomplete => SpecParse::Incomplete,
            SpecHeaders::Bad => SpecParse::Bad,
            SpecHeaders::Done { headers, end } => SpecParse::Complete {
                method,
                path,
                minor,
                headers,
                end,
            },
        },
    }
}

pub(crate) fn copy_range(s: &Vec<u8>, a: usize, b: usize) -> (r: Vec<u8>)
    requires
        a <= b <= s@.len(),
    ensures
        r@ == s@.subrange(a as int, b as int),
{
    let mut r: Vec<u8> = Vec::new();
    let mut j = a;
    while j < b
        invariant
            a <= j <= b <= s@.len(),
            r@ == s@.subrange(a as int, j as int),
        decreases b - j,
    {
        r.push(s[j]);
        assert(s@.subrange(a as int, j + 1 as int) =~= s@.subrange(a as int, j as int) + seq![
            s@[j as int],
        ]);
        j = j + 1;
    }
    r
}

/// One parsed header: a name and a value, copied out of the payload.
pub struct Header {
    pub name: Vec<u8>,
    pub value: Vec<u8>,
}

/// A parsed request head. Parsing fills every field; the fields are
/// optional because a request is only usable for forwarding once its
/// method and path are both present, and the forwarder re-checks that.
pub struct ParsedRequest {
    pub method: Option<Vec<u8>>,
    pub path: Option<Vec<u8>>,
    pub minor: Option<u8>,
    pub headers: Vec<Header>,
}

/// The name/value views of a sequence of parsed headers.
pub open spec fn headers_seq_view(hs: Seq<Header>) -> Seq<(Seq<u8>, Seq<u8>)> {
    Seq::new(hs.len(), |i: int| (hs[i].name@, hs[i].value@))
}

impl ParsedRequest {
    pub open spec fn method_view(self) -> Option<Seq<u8>> {
        match self.method {
            Some(m) => Some(m@),
            None => None,
        }
    }

    pub open spec fn path_view(self) -> Option<Seq<u8>> {
        match self.path {
            Some(p) => Some(p@),
            None => None,
        }
    }

    pub open spec fn headers_view(self) -> Seq<(Seq<u8>, Seq<u8>)> {
        headers_seq_view(self.headers@)
    }
}

enum VersionResult {
    Done { minor: u8, next: usize },
    Incomplete,
    Bad,
}

enum LineResult {
    Done { method: Vec<u8>, path: Vec<u8>, minor: u8, next: usize },
    Incomplete,
    Bad,
}

enum HeadersResult {
    Done { headers: Vec<Header>, end: usize },
    Incomplete,
    Bad,
}

spec fn version_matches(r: VersionResult, sp: SpecVersion) -> bool {
    match r {
        VersionResult::Done { minor, next } => (sp matches SpecVersion::Done {
            minor: m2,
            next: n2,
        } && minor == m2 && next as int == n2),
        VersionResult::Incomplete => sp is Incomplete,
        VersionResult::Bad => sp is Bad,
    }
}

spec fn line_matches(r: LineResult, sp: SpecLine) -> bool {
    match r {
        LineResult::Done { method, path, minor, next } => (sp matches SpecLine::Done {
            method: m2,
            path: p2,
            minor: mi2,
            next: n2,
        } && method@ == m2 && path@ == p2 && minor == mi2 && next as int == n2),
        LineResult::Incomplete => sp is Incomplete,
        LineResult::Bad => sp is Bad,
    }
}

spec fn headers_matches(r: HeadersResult, sp: SpecHeaders) -> bool {
    match r {
        HeadersResult::Done { headers, end } => (sp matches SpecHeaders::Done {
            headers: h2,
            end: e2,
        } && headers_seq_view(headers@) == h2 && end as int == e2),
        HeadersResult::Incomplete => sp is Incomplete,
        HeadersResult::Bad => sp is Bad,
    }
}

/// How the result of the executable parser relates to the grammar.
pub open spec fn parse_outcome_matches(r: ParseOutcome, sp: SpecParse) -> bool {
    match r {
        ParseOutcome::Complete { request, head_len } => (sp matches SpecParse::Complete {
            method,
            path,
            minor,
            headers,
            end,
        } && request.method_view() == Some(method) && request.path_view() == Some(path)
            && request.minor == Some(minor) && request.headers_view() == headers && head_len as int
            == end),
        ParseOutcome::Partial => sp is Incomplete,
        ParseOutcome::Malformed => sp is Bad,
    }
}

/// Result of parsing a payload's request head.
pub enum ParseOutcome {
    Complete { request: ParsedRequest, head_len: usize },
    Partial,
    Malformed,
}

fn check_version(s: &Vec<u8>, v: usize) -> (r: VersionResult)
    requires
        v <= s@.len(),
    ensures
        version_matches(r, spec_version(s@, v as int)),
        r matches VersionResult::Done { next, .. } ==> next <= s@.len(),
{
    let n = s.len();
    if v >= n {
        VersionResult::Incomplete
    } else if s[v] != 72 {
        VersionResult::Bad
    } else if v + 1 >= n {
        VersionResult::Incomplete
    } else if s[v + 1] != 84 {
        VersionResult::Bad
    } else if v + 2 >= n {
        VersionResult::Incomplete
    } else if s[v + 2] != 84 {
        VersionResult::Bad
    } else if v + 3 >= n {
        VersionResult::Incomplete
    } else if s[v + 3] != 80 {
        VersionResult::Bad
    } else if v + 4 >= n {
        VersionResult::Incomplete
    } else if s[v + 4] != 47 {
        VersionResult::Bad
    } else if v + 5 >= n {
        VersionResult::Incomplete
    } else if s[v + 5] != 49 {
        VersionResult::Bad
    } else if v + 6 >= n {
        VersionResult::Incomplete
    } else if s[v + 6] != 46 {
        VersionResult::Bad
    } else if v + 7 >= n {
        VersionResult::Incomplete
    } else if !(48 <= s[v + 7] && s[v + 7] <= 57) {
        VersionResult::Bad
    } else if v + 8 >= n {
        VersionResult::Incomplete
    } else if s[v + 8] != CR {
        VersionResult::Bad
    } else if v + 9 >= n {
        VersionResult::Incomplete
    } else if s[v + 9] != LF {
        VersionResult::Bad
    } else {
        VersionResult::Done { minor: s[v + 7] - 48, next: v + 10 }
    }
}

fn parse_request_line(s: &Vec<u8>) -> (r: LineResult)
    ensures
        line_matches(r, spec_request_line(s@)),
        r matches LineResult::Done { next, .. } ==> next <= s@.len(),
{
    let me = scan_token(s, 0);
    if me >= s.len() {
        return LineResult::Incomplete;
    }
    if me == 0 || s[me] != SP {
        return LineResult::Bad;
    }
    let ps = me + 1;
    let pe = scan_path(s, ps);
    if pe >= s.len() {
        return LineResult::Incomplete;
    }
    if pe == ps || s[pe] != SP {
        return LineResult::Bad;
    }
    match check_version(s, pe + 1) {
        VersionResult::Incomplete => LineResult::Incomplete,
        VersionResult::Bad => LineResult::Bad,
        VersionResult::Done { minor, next } => {
            let method = copy_range(s, 0, me);
            let path = copy_range(s, ps, pe);
            LineResult::Done { method, path, minor, next }
        },
    }
}

fn parse_headers(s: &Vec<u8>, i: usize, slots: usize) -> (r: HeadersResult)
    requires
        i <= s@.len(),
    ensures
        headers_matches(r, spec_headers(s@, i as int, slots as nat)),
        r matches HeadersResult::Done { end, .. } ==> i <= end <= s@.len(),
    decreases slots,
{
    if i >= s.len() {
        return HeadersResult::Incomplete;
    }
    if s[i] == CR {
        if i + 1 >= s.len() {
            return HeadersResult::Incomplete;
        }
        if s[i + 1] == LF {
            let hs: Vec<Header> = Vec::new();
            assert(headers_seq_view(hs@) =~= Seq::<(Seq<u8>, Seq<u8>)>::empty());
            return HeadersResult::Done { headers: hs, end: i + 2 };
        }
        return HeadersResult::Bad;
    }
    let ne = scan_token(s, i);
    if ne >= s.len() {
        return HeadersResult::Incomplete;
    }
    if ne == i || s[ne] != COLON {
        return HeadersResult::Bad;
    }
    let vs = scan_ows(s, ne + 1);
    let ve = scan_value(s, vs);
    if ve >= s.len() {
        return HeadersResult::Incomplete;
    }
    if s[ve] != CR {
        return HeadersResult::Bad;
    }
    if ve + 1 >= s.len() {
        return HeadersResult::Incomplete;
    }
    if s[ve + 1] != LF {
        return HeadersResult::Bad;
    }
    if slots == 0 {
        return HeadersResult::Bad;
    }
    let rest = parse_headers(s, ve + 2, slots - 1);
    match rest {
        HeadersResult::Done { headers, end } => {
            let ghost prev = headers@;
            let mut headers = headers;
            let name = copy_range(s, i, ne);
            let value = copy_range(s, vs, ve);
            headers.insert(0, Header { name, value });
            assert(headers_seq_view(headers@) =~= seq![
                (s@.subrange(i as int, ne as int), s@.subrange(vs as int, ve as int)),
            ] + headers_seq_view(prev));
            HeadersResult::Done { headers, end }
        },
        o => o,
    }
}

/// Parses the leading bytes of a stream's payload as a request head.
///
/// The result decides the grammar `spec_parse` exactly: `Complete` holds
/// the parsed method, path, version and headers together with the byte
/// offset where the head ends (the body is everything after it);
/// `Partial` means the payload ended before the head could complete;
/// `Malformed` means no extension of the consumed bytes could parse.
pub fn parse_request(s: &Vec<u8>) -> (r: ParseOutcome)
    ensures
        parse_outcome_matches(r, spec_parse(s@)),
        r matches ParseOutcome::Complete { head_len, .. } ==> head_len <= s@.len(),
{
    match parse_request_line(s) {
        LineResult::Incomplete => ParseOutcome::Partial,
        LineResult::Bad => ParseOutcome::Malformed,
        LineResult::Done { method, path, minor, next } => {
            match parse_headers(s, next, MAX_HEADERS) {
                HeadersResult::Incomplete => ParseOutcome::Partial,
                HeadersResult::Bad => ParseOutcome::Malformed,
                HeadersResult::Done { headers, end } => ParseOutcome::Complete {
                    request: ParsedRequest {
                        method: Some(method),
                        path: Some(path),
                        minor: Some(minor),
                        headers,
                    },
                    head_len: end,
                },
            }
        },
    }
}

} // verus!
