//! The response buffer and the serialized HTTP response wire form.
//!
//! The forwarder accumulates the upstream response incrementally — the body
//! may arrive in any number of chunks — and the complete buffer is written
//! back to the stream verbatim. `spec_response_wire` is the exact byte
//! sequence owed to the client: status line, header lines, an empty line,
//! and the body.

use vstd::prelude::*;

use crate::parse::{Header, headers_seq_view, CR, LF, SP, COLON};

verus! {

/// The decimal digits of `n`, most significant first.
pub open spec fn dec_digits(n: nat) -> Seq<u8>
    decreases n,
{
    if n < 10 {
        seq![(48 + n) as u8]
    } else {
        dec_digits(n / 10) + seq![(48 + n % 10) as u8]
    }
}

/// The status line `HTTP/1.1 <status> <reason>` followed by CRLF.
pub open spec fn spec_status_line(status: u16, reason: Seq<u8>) -> Seq<u8> {
    seq![72u8, 84u8, 84u8, 80u8, 47u8, 49u8, 46u8, 49u8, SP] + dec_digits(status as nat) + seq![SP]
        + reason + seq![CR, LF]
}

/// One serialized header line `name: value` followed by CRLF.
pub open spec fn spec_header_line(name: Seq<u8>, value: Seq<u8>) -> Seq<u8> {
    name + seq![COLON, SP] + value + seq![CR, LF]
}

/// All header lines, in order.
pub open spec fn spec_header_lines(hs: Seq<(Seq<u8>, Seq<u8>)>) -> Seq<u8>
    decreases hs.len(),
{
    if hs.len() == 0 {
        seq![]
    } else {
        spec_header_lines(hs.drop_last()) + spec_header_line(hs.last().0, hs.last().1)
    }
}

/// The serialized response head: status line, header lines, empty line.
pub open spec fn spec_response_head(status: u16, reason: Seq<u8>, hs: Seq<(Seq<u8>, Seq<u8>)>) -> Seq<
    u8,
> {
    spec_status_line(status, reason) + spec_header_lines(hs) + seq![CR, LF]
}

/// A body delivered in chunks, concatenated in arrival order.
pub open spec fn flatten_chunks(cs: Seq<Seq<u8>>) -> Seq<u8>
    decreases cs.len(),
{
    if cs.len() == 0 {
        seq![]
    } else {
        flatten_chunks(cs.drop_last()) + cs.last()
    }
}

/// The complete response wire form: head followed by body.
pub open spec fn spec_response_wire(
    status: u16,
    reason: Seq<u8>,
    hs: Seq<(Seq<u8>, Seq<u8>)>,
    body: Seq<u8>,
) -> Seq<u8> {
    spec_response_head(status, reason, hs) + body
}

/// An accumulated byte sequence holding a complete serialized response to
/// be written back verbatim to the stream's send half. Each stream's
/// buffer is exclusively owned by that stream's handler.
pub struct ResponseBuffer {
    data: Vec<u8>,
}

impl View for ResponseBuffer {
    type V = Seq<u8>;

    closed spec fn view(&self) -> Seq<u8> {
        self.data@
    }
}

impl ResponseBuffer {
    /// An empty buffer.
    pub fn new() -> (r: ResponseBuffer)
        ensures
            r@ == Seq::<u8>::empty(),
    {
        let r = ResponseBuffer { data: Vec::new() };
        proof {
            assert(r@ =~= Seq::<u8>::empty());
        }
        r
    }

    /// Appends one chunk to the buffer; nothing already accumulated is
    /// disturbed or reordered.
    pub fn write_bytes(&mut self, chunk: &Vec<u8>)
        ensures
            final(self)@ == old(self)@ + chunk@,
    {
        let mut j: usize = 0;
        while j < chunk.len()
            invariant
                j <= chunk@.len(),
                self.data@ == old(self).data@ + chunk@.subrange(0, j as int),
            decreases chunk@.len() - j,
        {
            self.data.push(chunk[j]);
            assert(chunk@.subrange(0, j + 1 as int) =~= chunk@.subrange(0, j as int) + seq![
                chunk@[j as int],
            ]);
            j = j + 1;
        }
        assert(chunk@.subrange(0, chunk@.len() as int) =~= chunk@);
    }

    /// Appends a body delivered as a sequence of chunks, in order.
    pub fn write_chunks(&mut self, chunks: &Vec<Vec<u8>>)
        ensures
            final(self)@ == old(self)@ + flatten_chunks(chunks.deep_view()),
    {
        let ghost all = chunks.deep_view();
        let mut k: usize = 0;
        while k < chunks.len()
            invariant
                k <= chunks@.len(),
                all == chunks.deep_view(),
                all.len() == chunks@.len(),
                forall|i: int| 0 <= i < all.len() ==> all[i] == chunks@[i]@,
                self@ == old(self)@ + flatten_chunks(all.take(k as int)),
            decreases chunks@.len() - k,
        {
            self.write_bytes(&chunks[k]);
            proof {
                assert(all.take(k + 1 as int).drop_last() =~= all.take(k as int));
                assert(all.take(k + 1 as int).last() == all[k as int]);
            }
            k = k + 1;
        }
        proof {
            assert(all.take(chunks@.len() as int) =~= all);
        }
    }

    /// The accumulated bytes, in the order they were written.
    pub fn to_bytes(&self) -> (r: Vec<u8>)
        ensures
            r@ == self@,
    {
        let mut r: Vec<u8> = Vec::new();
        let mut j: usize = 0;
        while j < self.data.len()
            invariant
                j <= self.data@.len(),
                r@ == self.data@.subrange(0, j as int),
            decreases self.data@.len() - j,
        {
            r.push(self.data[j]);
            assert(self.data@.subrange(0, j + 1 as int) =~= self.data@.subrange(0, j as int)
                + seq![self.data@[j as int]]);
            j = j + 1;
        }
        assert(self.data@.subrange(0, self.data@.len() as int) =~= self.data@);
        r
    }

    /// The number of bytes accumulated so far.
    pub fn len(&self) -> (r: usize)
        ensures
            r == self@.len(),
    {
        self.data.len()
    }
}

/// The decimal digits of a number, most significant first.
fn u16_dec(n: u16) -> (r: Vec<u8>)
    ensures
        r@ == dec_digits(n as nat),
    decreases n,
{
    if n < 10 {
        let mut r: Vec<u8> = Vec::new();
        r.push(48 + (n as u8));
        assert(r@ =~= dec_digits(n as nat));
        r
    } else {
        let mut r = u16_dec(n / 10);
        r.push(48 + ((n % 10) as u8));
        assert(r@ =~= dec_digits((n / 10) as nat) + seq![(48 + (n as nat) % 10) as u8]);
        r
    }
}

/// Builds a buffer holding the serialized response head for the given
/// status, reason phrase, and headers: the exact bytes of
/// `spec_response_head`. Body chunks are then appended with `write_bytes`
/// or `write_chunks` as they arrive.
pub fn build_response_head(status: u16, reason: &Vec<u8>, headers: &Vec<Header>) -> (r:
    ResponseBuffer)
    ensures
        r@ == spec_response_head(status, reason@, headers_seq_view(headers@)),
{
    let mut buf = ResponseBuffer::new();
    let mut line: Vec<u8> = Vec::new();
    line.push(72);
    line.push(84);
    line.push(84);
    line.push(80);
    line.push(47);
    line.push(49);
    line.push(46);
    line.push(49);
    line.push(SP);
    let digits = u16_dec(status);
    let mut j: usize = 0;
    while j < digits.len()
        invariant
            j <= digits@.len(),
            line@ == seq![72u8, 84u8, 84u8, 80u8, 47u8, 49u8, 46u8, 49u8, SP] + digits@.subrange(
                0,
                j as int,
            ),
        decreases digits@.len() - j,
    {
        line.push(digits[j]);
        assert(digits@.subrange(0, j + 1 as int) =~= digits@.subrange(0, j as int) + seq![
            digits@[j as int],
        ]);
        j = j + 1;
    }
    assert(digits@.subrange(0, digits@.len() as int) =~= digits@);
    line.push(SP);
    let mut k: usize = 0;
    while k < reason.len()
        invariant
            k <= reason@.len(),
            line@ == seq![72u8, 84u8, 84u8, 80u8, 47u8, 49u8, 46u8, 49u8, SP] + dec_digits(
                status as nat,
            ) + seq![SP] + reason@.subrange(0, k as int),
        decreases reason@.len() - k,
    {
        line.push(reason[k]);
        assert(reason@.subrange(0, k + 1 as int) =~= reason@.subrange(0, k as int) + seq![
            reason@[k as int],
        ]);
        k = k + 1;
    }
    assert(reason@.subrange(0, reason@.len() as int) =~= reason@);
    line.push(CR);
    line.push(LF);
    assert(line@ =~= spec_status_line(status, reason@));
    buf.write_bytes(&line);
    assert(buf@ =~= spec_status_line(status, reason@));

    let ghost hv = headers_seq_view(headers@);
    let mut h: usize = 0;
    while h < headers.len()
        invariant
            h <= headers@.len(),
            hv == headers_seq_view(headers@),
            hv.len() == headers@.len(),
            forall|i: int|
                0 <= i < hv.len() ==> hv[i] == (headers@[i].name@, headers@[i].value@),
            buf@ == spec_status_line(status, reason@) + spec_header_lines(hv.take(h as int)),
        decreases headers@.len() - h,
    {
        let mut hl: Vec<u8> = Vec::new();
        let mut a: usize = 0;
        while a < headers[h].name.len()
            invariant
                h < headers@.len(),
                a <= headers@[h as int].name@.len(),
                hl@ == headers@[h as int].name@.subrange(0, a as int),
            decreases headers@[h as int].name@.len() - a,
        {
            hl.push(headers[h].name[a]);
            assert(headers@[h as int].name@.subrange(0, a + 1 as int) =~= headers@[
                h as int
            ].name@.subrange(0, a as int) + seq![headers@[h as int].name@[a as int]]);
            a = a + 1;
        }
        assert(headers@[h as int].name@.subrange(0, headers@[h as int].name@.len() as int)
            =~= headers@[h as int].name@);
        hl.push(COLON);
        hl.push(SP);
        let mut b: usize = 0;
        while b < headers[h].value.len()
            invariant
                h < headers@.len(),
                b <= headers@[h as int].value@.len(),
                hl@ == headers@[h as int].name@ + seq![COLON, SP] + headers@[
                    h as int
                ].value@.subrange(0, b as int),
            decreases headers@[h as int].value@.len() - b,
        {
            hl.push(headers[h].value[b]);
            assert(headers@[h as int].value@.subrange(0, b + 1 as int) =~= headers@[
                h as int
            ].value@.subrange(0, b as int) + seq![headers@[h as int].value@[b as int]]);
            b = b + 1;
        }
        assert(headers@[h as int].value@.subrange(0, headers@[h as int].value@.len() as int)
            =~= headers@[h as int].value@);
        hl.push(CR);
        hl.push(LF);
        assert(hl@ =~= spec_header_line(hv[h as int].0, hv[h as int].1));
        buf.write_bytes(&hl);
        proof {
            assert(hv.take(h + 1 as int).drop_last() =~= hv.take(h as int));
            assert(hv.take(h + 1 as int).last() == hv[h as int]);
        }
        h = h + 1;
    }
    proof {
        assert(hv.take(headers@.len() as int) =~= hv);
    }
    let mut blank: Vec<u8> = Vec::new();
    blank.push(CR);
    blank.push(LF);
    buf.write_bytes(&blank);
    assert(buf@ =~= spec_response_head(status, reason@, hv));
    buf
}

/// Chunk boundaries are irrelevant to the accumulated body: a body
/// delivered in two batches of chunks accumulates to the same bytes as the
/// batches' chunks delivered in one run. With `write_chunks`'s contract
/// this gives the response round trip: however the upstream splits the
/// body, the buffer written back is exactly head-then-body, untruncated.
pub proof fn lemma_flatten_chunks_append(cs1: Seq<Seq<u8>>, cs2: Seq<Seq<u8>>)
    ensures
        flatten_chunks(cs1 + cs2) == flatten_chunks(cs1) + flatten_chunks(cs2),
    decreases cs2.len(),
{
    if cs2.len() == 0 {
        assert(cs1 + cs2 =~= cs1);
        assert(flatten_chunks(cs1) + flatten_chunks(cs2) =~= flatten_chunks(cs1));
    } else {
        lemma_flatten_chunks_append(cs1, cs2.drop_last());
        assert((cs1 + cs2).drop_last() =~= cs1 + cs2.drop_last());
        assert((cs1 + cs2).last() == cs2.last());
        assert(flatten_chunks(cs1) + flatten_chunks(cs2.drop_last()) + cs2.last()
            =~= flatten_chunks(cs1) + (flatten_chunks(cs2.drop_last()) + cs2.last()));
    }
}

} // verus!
