use qproxy::error::ProxyError;
use qproxy::server::{
    connection_step, endpoint_step, ConnAction, ConnEvent, ConnState, EndpointAction,
    EndpointEvent, EndpointState,
};

#[test]
fn handshake_outcome_decides_the_connection() {
    assert_eq!(
        connection_step(ConnState::Handshaking, ConnEvent::HandshakeDone),
        (ConnState::Open, ConnAction::LogEstablished)
    );
    assert_eq!(
        connection_step(ConnState::Handshaking, ConnEvent::HandshakeFailed),
        (ConnState::Failed(ProxyError::ConnectionError), ConnAction::FinishFailed)
    );
}

#[test]
fn each_accepted_stream_spawns_an_independent_handler() {
    assert_eq!(
        connection_step(ConnState::Open, ConnEvent::StreamOpened),
        (ConnState::Open, ConnAction::SpawnStreamHandler)
    );
}

#[test]
fn stream_outcomes_are_only_logged() {
    // A deliberately failing stream must not close, fail, or otherwise
    // disturb the connection that accepted it.
    assert_eq!(
        connection_step(ConnState::Open, ConnEvent::StreamFailed(ProxyError::InvalidRequest)),
        (ConnState::Open, ConnAction::LogStreamOutcome)
    );
    assert_eq!(
        connection_step(ConnState::Open, ConnEvent::StreamFailed(ProxyError::RequestFailure)),
        (ConnState::Open, ConnAction::LogStreamOutcome)
    );
    assert_eq!(
        connection_step(ConnState::Open, ConnEvent::StreamDone),
        (ConnState::Open, ConnAction::LogStreamOutcome)
    );
}

#[test]
fn peer_close_ends_the_connection_cleanly() {
    // An application-level close terminates the accept loop without an
    // error; any other accept failure is a connection failure.
    assert_eq!(
        connection_step(ConnState::Open, ConnEvent::PeerClosed),
        (ConnState::Closed, ConnAction::FinishClean)
    );
    assert_eq!(
        connection_step(ConnState::Open, ConnEvent::AcceptFailed),
        (ConnState::Failed(ProxyError::ConnectionError), ConnAction::FinishFailed)
    );
}

#[test]
fn listener_spawns_a_handler_per_connection() {
    assert_eq!(
        endpoint_step(EndpointState::Accepting, EndpointEvent::ConnIncoming),
        (EndpointState::Accepting, EndpointAction::SpawnConnectionHandler)
    );
}

#[test]
fn connection_outcomes_never_stop_the_listener() {
    assert_eq!(
        endpoint_step(EndpointState::Accepting, EndpointEvent::ConnDone),
        (EndpointState::Accepting, EndpointAction::LogConnOutcome)
    );
    assert_eq!(
        endpoint_step(EndpointState::Accepting, EndpointEvent::ConnFailed(ProxyError::ConnectionError)),
        (EndpointState::Accepting, EndpointAction::LogConnOutcome)
    );
}

#[test]
fn driver_failure_is_fatal_to_the_endpoint() {
    assert_eq!(
        endpoint_step(EndpointState::Accepting, EndpointEvent::DriverFailed),
        (EndpointState::Stopped(ProxyError::EndpointError), EndpointAction::FatalStop)
    );
}

#[test]
fn fatal_error_kinds_are_exactly_the_process_level_ones() {
    assert!(ProxyError::ConfigurationError.is_fatal());
    assert!(ProxyError::EndpointError.is_fatal());
    assert!(!ProxyError::InvalidRequest.is_fatal());
    assert!(!ProxyError::RequestFailure.is_fatal());
    assert!(!ProxyError::ConnectionError.is_fatal());
    assert!(!ProxyError::ReadError.is_fatal());
    assert!(!ProxyError::WriteError.is_fatal());
}
