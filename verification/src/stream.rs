//! The stream handler: one bidirectional stream carries exactly one
//! request and one response. The handler reads a bounded payload, parses
//! it, delegates to the upstream capability, writes the response back, and
//! finishes the stream. The pure steps are verified here; the waits
//! between them (reading, the upstream exchange, writing, finishing) are
//! driven outside, one event per completed wait, through `stream_step`.

use vstd::prelude::*;

use crate::error::ProxyError;
use crate::parse::{
    copy_range, parse_request, spec_parse, ParsedRequest, ParseOutcome, SpecParse,
};
use crate::response::ResponseBuffer;
use crate::upstream::{response_matches, UpstreamTrait};

verus! {

/// Whether a prepared request/body pair is what the grammar yields on the
/// payload: parsing completed, every part was carried over, and the body
/// is everything after the head.
pub open spec fn prepared_matches(request: ParsedRequest, body: Seq<u8>, s: Seq<u8>) -> bool {
    spec_parse(s) matches SpecParse::Complete { method, path, minor, headers, end }
        && request.method_view() == Some(method) && request.path_view() == Some(path)
        && request.minor == Some(minor) && request.headers_view() == headers && body == s.subrange(
        end,
        s.len() as int,
    )
}

/// Reads a stream's payload into a parsed request and its body.
///
/// A payload over the size bound fails with the read-side error — never a
/// parse error — before any parsing. A payload within the bound parses
/// completely or fails with `InvalidRequest`: a head that is malformed, or
/// that would need more bytes than the stream carried, is rejected rather
/// than waited on.
pub fn prepare_request(payload: &Vec<u8>, max_size: usize) -> (r: Result<
    (ParsedRequest, Vec<u8>),
    ProxyError,
>)
    ensures
        (r is Ok) <==> (payload@.len() <= max_size && spec_parse(payload@) is Complete),
        r matches Ok(p) ==> prepared_matches(p.0, p.1@, payload@),
        payload@.len() > max_size ==> (r matches Err(e) && e == ProxyError::ReadError),
        payload@.len() <= max_size ==> (r matches Err(e) ==> e == ProxyError::InvalidRequest),
{
    if payload.len() > max_size {
        return Err(ProxyError::ReadError);
    }
    match parse_request(payload) {
        ParseOutcome::Partial => Err(ProxyError::InvalidRequest),
        ParseOutcome::Malformed => Err(ProxyError::InvalidRequest),
        ParseOutcome::Complete { request, head_len } => {
            let body = copy_range(payload, head_len, payload.len());
            Ok((request, body))
        },
    }
}

/// The whole per-stream pipeline on a fully read payload: size gate,
/// parse, and one delegation to the upstream capability. The result is
/// the response buffer to write back, or the error that abandons the
/// stream — the upstream's own error passes through unchanged.
pub fn handle_stream_payload<U: UpstreamTrait>(
    upstream: &U,
    payload: &Vec<u8>,
    max_size: usize,
) -> (r: Result<ResponseBuffer, ProxyError>)
    ensures
        payload@.len() > max_size ==> (r matches Err(e) && e == ProxyError::ReadError),
        payload@.len() <= max_size && !(spec_parse(payload@) is Complete) ==> (r matches Err(e)
            && e == ProxyError::InvalidRequest),
        payload@.len() <= max_size ==> (spec_parse(payload@) matches SpecParse::Complete {
            method,
            path,
            minor,
            headers,
            end,
        } ==> response_matches(
            r,
            upstream.response_of(
                Some(method),
                Some(path),
                headers,
                payload@.subrange(end, payload@.len() as int),
            ),
        )),
{
    let (request, body) = match prepare_request(payload, max_size) {
        Ok(p) => p,
        Err(e) => {
            return Err(e);
        },
    };
    upstream.process_request(&request, &body)
}

/// The states of one stream's exchange, in the order they are passed:
/// reading the request, parsing it, forwarding to the upstream, writing
/// the response, finishing the send half, and the two terminal states.
#[derive(Clone, Copy, Debug, PartialEq, Eq, Structural)]
pub enum StreamState {
    Reading,
    Parsing,
    Forwarding,
    Writing,
    Finishing,
    Complete,
    Failed(ProxyError),
}

/// What the outside drive reports back to the stream's state machine:
/// each step either completed or failed.
#[derive(Clone, Copy, Debug, PartialEq, Eq, Structural)]
pub enum StreamEvent {
    ReadDone,
    ReadFailed,
    ParseDone,
    ParseFailed,
    ForwardDone,
    ForwardFailed(ProxyError),
    WriteDone,
    WriteFailed,
    FinishDone,
    FinishFailed,
}

/// The transition relation of one stream: the five steps run strictly in
/// sequence — a later step never starts before the prior one completes —
/// and any failure moves to the terminal `Failed` state carrying the kind
/// owed to the operation that failed. An event that cannot occur in a
/// state changes nothing. Both terminal states are absorbing: a stream
/// carries exactly one request and one response and is never reused.
pub open spec fn spec_stream_step(s: StreamState, e: StreamEvent) -> StreamState {
    match (s, e) {
        (StreamState::Reading, StreamEvent::ReadDone) => StreamState::Parsing,
        (StreamState::Reading, StreamEvent::ReadFailed) => StreamState::Failed(
            ProxyError::ReadError,
        ),
        (StreamState::Parsing, StreamEvent::ParseDone) => StreamState::Forwarding,
        (StreamState::Parsing, StreamEvent::ParseFailed) => StreamState::Failed(
            ProxyError::InvalidRequest,
        ),
        (StreamState::Forwarding, StreamEvent::ForwardDone) => StreamState::Writing,
        (StreamState::Forwarding, StreamEvent::ForwardFailed(err)) => StreamState::Failed(err),
        (StreamState::Writing, StreamEvent::WriteDone) => StreamState::Finishing,
        (StreamState::Writing, StreamEvent::WriteFailed) => StreamState::Failed(
            ProxyError::WriteError,
        ),
        (StreamState::Finishing, StreamEvent::FinishDone) => StreamState::Complete,
        (StreamState::Finishing, StreamEvent::FinishFailed) => StreamState::Failed(
            ProxyError::WriteError,
        ),
        _ => s,
    }
}

/// Advances one stream's state by one completed or failed step.
pub fn stream_step(s: StreamState, e: StreamEvent) -> (r: StreamState)
    ensures
        r == spec_stream_step(s, e),
{
    match (s, e) {
        (StreamState::Reading, StreamEvent::ReadDone) => StreamState::Parsing,
        (StreamState::Reading, StreamEvent::ReadFailed) => StreamState::Failed(
            ProxyError::ReadError,
        ),
        (StreamState::Parsing, StreamEvent::ParseDone) => StreamState::Forwarding,
        (StreamState::Parsing, StreamEvent::ParseFailed) => StreamState::Failed(
            ProxyError::InvalidRequest,
        ),
        (StreamState::Forwarding, StreamEvent::ForwardDone) => StreamState::Writing,
        (StreamState::Forwarding, StreamEvent::ForwardFailed(err)) => StreamState::Failed(err),
        (StreamState::Writing, StreamEvent::WriteDone) => StreamState::Finishing,
        (StreamState::Writing, StreamEvent::WriteFailed) => StreamState::Failed(
            ProxyError::WriteError,
        ),
        (StreamState::Finishing, StreamEvent::FinishDone) => StreamState::Complete,
        (StreamState::Finishing, StreamEvent::FinishFailed) => StreamState::Failed(
            ProxyError::WriteError,
        ),
        _ => s,
    }
}

/// A stream completes only through finishing its send half, and it starts
/// finishing only once the response write has completed: partial writes
/// without a finish never count as completion, and a finished stream was
/// always written first.
pub proof fn lemma_finish_after_write(s: StreamState, e: StreamEvent)
    ensures
        spec_stream_step(s, e) == StreamState::Complete ==> (s == StreamState::Complete || (s
            == StreamState::Finishing && e == StreamEvent::FinishDone)),
        spec_stream_step(s, e) == StreamState::Finishing ==> (s == StreamState::Finishing || (s
            == StreamState::Writing && e == StreamEvent::WriteDone)),
{
}

/// Terminal states are absorbing: once a stream completed or failed, no
/// further event revives it — a stream is never reused.
pub proof fn lemma_stream_terminal(s: StreamState, e: StreamEvent)
    requires
        s == StreamState::Complete || s matches StreamState::Failed(_),
    ensures
        spec_stream_step(s, e) == s,
{
}

} // verus!
