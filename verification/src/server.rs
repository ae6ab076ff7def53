//! The connection handler and the listener, as decision state machines.
//!
//! The listener accepts incoming connections forever and hands each to an
//! independent connection handler; each connection handler drives its
//! handshake, then accepts bidirectional streams and hands each to an
//! independent stream handler. Neither loop ever waits for a child: a
//! child's outcome is only logged. The waits themselves (handshake,
//! accept, the background driver) happen outside; each completed wait is
//! reported here as one event, and the verified transition functions
//! decide the next state and the action to take.

use vstd::prelude::*;

use crate::error::ProxyError;

verus! {

/// The states of one connection: handshaking, open and accepting streams,
/// closed cleanly by the peer, or failed.
#[derive(Clone, Copy, Debug, PartialEq, Eq, Structural)]
pub enum ConnState {
    Handshaking,
    Open,
    Closed,
    Failed(ProxyError),
}

/// What the transport reports to a connection handler: the handshake's
/// outcome, a stream opened by the peer, the outcome of one of its own
/// stream handlers, an application-level close, or any other
/// stream-accept failure.
#[derive(Clone, Copy, Debug, PartialEq, Eq, Structural)]
pub enum ConnEvent {
    HandshakeDone,
    HandshakeFailed,
    StreamOpened,
    StreamDone,
    StreamFailed(ProxyError),
    PeerClosed,
    AcceptFailed,
}

/// What the connection handler does next: record the established
/// connection, spawn an independent stream handler, log a stream's
/// outcome without touching the accept loop, finish cleanly, finish with
/// a connection failure, or nothing.
#[derive(Clone, Copy, Debug, PartialEq, Eq, Structural)]
pub enum ConnAction {
    LogEstablished,
    SpawnStreamHandler,
    LogStreamOutcome,
    FinishClean,
    FinishFailed,
    Ignore,
}

/// The transition relation of one connection. Handshake failure fails the
/// connection; an open connection spawns one independent handler per
/// accepted stream and keeps accepting; a stream's outcome — success or
/// failure — is logged and changes nothing else; an application-level
/// close by the peer ends the loop cleanly; any other accept failure
/// fails this connection only, classified as a connection error. An event
/// that cannot occur in a state changes nothing.
pub open spec fn spec_connection_step(s: ConnState, e: ConnEvent) -> (ConnState, ConnAction) {
    match (s, e) {
        (ConnState::Handshaking, ConnEvent::HandshakeDone) => (
            ConnState::Open,
            ConnAction::LogEstablished,
        ),
        (ConnState::Handshaking, ConnEvent::HandshakeFailed) => (
            ConnState::Failed(ProxyError::ConnectionError),
            ConnAction::FinishFailed,
        ),
        (ConnState::Open, ConnEvent::StreamOpened) => (
            ConnState::Open,
            ConnAction::SpawnStreamHandler,
        ),
        (ConnState::Open, ConnEvent::StreamDone) => (ConnState::Open, ConnAction::LogStreamOutcome),
        (ConnState::Open, ConnEvent::StreamFailed(_)) => (
            ConnState::Open,
            ConnAction::LogStreamOutcome,
        ),
        (ConnState::Open, ConnEvent::PeerClosed) => (ConnState::Closed, ConnAction::FinishClean),
        (ConnState::Open, ConnEvent::AcceptFailed) => (
            ConnState::Failed(ProxyError::ConnectionError),
            ConnAction::FinishFailed,
        ),
        _ => (s, ConnAction::Ignore),
    }
}

/// Advances one connection's state by one reported event.
pub fn connection_step(s: ConnState, e: ConnEvent) -> (r: (ConnState, ConnAction))
    ensures
        r == spec_connection_step(s, e),
{
    match (s, e) {
        (ConnState::Handshaking, ConnEvent::HandshakeDone) => (
            ConnState::Open,
            ConnAction::LogEstablished,
        ),
        (ConnState::Handshaking, ConnEvent::HandshakeFailed) => (
            ConnState::Failed(ProxyError::ConnectionError),
            ConnAction::FinishFailed,
        ),
        (ConnState::Open, ConnEvent::StreamOpened) => (
            ConnState::Open,
            ConnAction::SpawnStreamHandler,
        ),
        (ConnState::Open, ConnEvent::StreamDone) => (ConnState::Open, ConnAction::LogStreamOutcome),
        (ConnState::Open, ConnEvent::StreamFailed(_)) => (
            ConnState::Open,
            ConnAction::LogStreamOutcome,
        ),
        (ConnState::Open, ConnEvent::PeerClosed) => (ConnState::Closed, ConnAction::FinishClean),
        (ConnState::Open, ConnEvent::AcceptFailed) => (
            ConnState::Failed(ProxyError::ConnectionError),
            ConnAction::FinishFailed,
        ),
        _ => (s, ConnAction::Ignore),
    }
}

/// The states of the listening endpoint: accepting connections forever,
/// or stopped by a fatal failure.
#[derive(Clone, Copy, Debug, PartialEq, Eq, Structural)]
pub enum EndpointState {
    Accepting,
    Stopped(ProxyError),
}

/// What the transport reports to the listener: an incoming connection,
/// the outcome of one of its own connection handlers, or the failure of
/// the endpoint's background driver.
#[derive(Clone, Copy, Debug, PartialEq, Eq, Structural)]
pub enum EndpointEvent {
    ConnIncoming,
    ConnDone,
    ConnFailed(ProxyError),
    DriverFailed,
}

/// What the listener does next: spawn an independent connection handler,
/// log a connection's outcome without touching the accept loop, stop the
/// whole process, or nothing.
#[derive(Clone, Copy, Debug, PartialEq, Eq, Structural)]
pub enum EndpointAction {
    SpawnConnectionHandler,
    LogConnOutcome,
    FatalStop,
    Ignore,
}

/// The transition relation of the listener. Acceptance never blocks on a
/// child: each incoming connection spawns one independent handler, a
/// connection's outcome is only logged, and only the background driver's
/// failure is fatal to the endpoint. An event that cannot occur in a
/// state changes nothing.
pub open spec fn spec_endpoint_step(s: EndpointState, e: EndpointEvent) -> (
    EndpointState,
    EndpointAction,
) {
    match (s, e) {
        (EndpointState::Accepting, EndpointEvent::ConnIncoming) => (
            EndpointState::Accepting,
            EndpointAction::SpawnConnectionHandler,
        ),
        (EndpointState::Accepting, EndpointEvent::ConnDone) => (
            EndpointState::Accepting,
            EndpointAction::LogConnOutcome,
        ),
        (EndpointState::Accepting, EndpointEvent::ConnFailed(_)) => (
            EndpointState::Accepting,
            EndpointAction::LogConnOutcome,
        ),
        (EndpointState::Accepting, EndpointEvent::DriverFailed) => (
            EndpointState::Stopped(ProxyError::EndpointError),
            EndpointAction::FatalStop,
        ),
        _ => (s, EndpointAction::Ignore),
    }
}

/// Advances the listener's state by one reported event.
pub fn endpoint_step(s: EndpointState, e: EndpointEvent) -> (r: (EndpointState, EndpointAction))
    ensures
        r == spec_endpoint_step(s, e),
{
    match (s, e) {
        (EndpointState::Accepting, EndpointEvent::ConnIncoming) => (
            EndpointState::Accepting,
            EndpointAction::SpawnConnectionHandler,
        ),
        (EndpointState::Accepting, EndpointEvent::ConnDone) => (
            EndpointState::Accepting,
            EndpointAction::LogConnOutcome,
        ),
        (EndpointState::Accepting, EndpointEvent::ConnFailed(_)) => (
            EndpointState::Accepting,
            EndpointAction::LogConnOutcome,
        ),
        (EndpointState::Accepting, EndpointEvent::DriverFailed) => (
            EndpointState::Stopped(ProxyError::EndpointError),
            EndpointAction::FatalStop,
        ),
        _ => (s, EndpointAction::Ignore),
    }
}

/// Failure isolation: whatever state a connection is in, the outcome of
/// one of its streams — completion or deliberate failure of any kind —
/// never changes the connection's state and never finishes its accept
/// loop; and whatever state the endpoint is in, a connection's outcome
/// never changes the endpoint's state and never stops it. A failing
/// stream is thus invisible to its siblings at every level of the model.
pub proof fn lemma_failure_isolation(cs: ConnState, es: EndpointState, err: ProxyError)
    ensures
        spec_connection_step(cs, ConnEvent::StreamDone).0 == cs,
        spec_connection_step(cs, ConnEvent::StreamFailed(err)).0 == cs,
        spec_connection_step(cs, ConnEvent::StreamDone).1 != ConnAction::FinishFailed,
        spec_connection_step(cs, ConnEvent::StreamFailed(err)).1 != ConnAction::FinishFailed,
        spec_endpoint_step(es, EndpointEvent::ConnDone).0 == es,
        spec_endpoint_step(es, EndpointEvent::ConnFailed(err)).0 == es,
        spec_endpoint_step(es, EndpointEvent::ConnDone).1 != EndpointAction::FatalStop,
        spec_endpoint_step(es, EndpointEvent::ConnFailed(err)).1 != EndpointAction::FatalStop,
{
}

/// Connection close semantics: from an open connection, an
/// application-level close by the peer ends the accept loop cleanly —
/// the connection is closed, not failed — while any other stream-accept
/// failure fails this connection only, classified as a connection error.
pub proof fn lemma_connection_close(err: ProxyError)
    ensures
        spec_connection_step(ConnState::Open, ConnEvent::PeerClosed) == (
            ConnState::Closed,
            ConnAction::FinishClean,
        ),
        spec_connection_step(ConnState::Open, ConnEvent::AcceptFailed) == (
            ConnState::Failed(ProxyError::ConnectionError),
            ConnAction::FinishFailed,
        ),
        spec_connection_step(ConnState::Open, ConnEvent::PeerClosed).0 != ConnState::Failed(err),
{
}

} // verus!
