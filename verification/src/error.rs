//! The closed set of proxy-level error kinds. Every component of the core
//! signals failure through one of these; lower-layer transport and HTTP
//! errors are classified into the kind naming the operation that produced
//! them before they enter the verified logic.

use vstd::prelude::*;

verus! {

/// Proxy error taxonomy.
///
/// - `ConfigurationError`: invalid or unusable server configuration or
///   upstream base URI; fatal at the point of occurrence.
/// - `InvalidRequest`: malformed or incomplete client request, or one whose
///   parse is missing method or path; local to one stream.
/// - `RequestFailure`: any failure while forwarding to or reading from the
///   upstream; local to one stream.
/// - `ConnectionError`: transport-level connection failure (handshake
///   failure, protocol violation, stream-accept failure other than a clean
///   application close); local to one connection.
/// - `ReadError`: failure while reading a stream's receive half, including
///   a request payload over the configured size bound; local to one stream.
/// - `WriteError`: failure while writing a stream's send half or finishing
///   it; local to one stream.
/// - `EndpointError`: failure to bind the endpoint or a fatal failure of its
///   background driver; fatal to the whole process.
#[derive(Clone, Copy, Debug, PartialEq, Eq, Structural)]
pub enum ProxyError {
    ConfigurationError,
    InvalidRequest,
    RequestFailure,
    ConnectionError,
    ReadError,
    WriteError,
    EndpointError,
}

impl ProxyError {
    /// True of the kinds that are fatal to the whole process; all other
    /// kinds are local to one connection or one stream.
    pub open spec fn spec_is_fatal(self) -> bool {
        self == ProxyError::ConfigurationError || self == ProxyError::EndpointError
    }

    /// Whether this error kind terminates the whole process rather than a
    /// single connection or stream.
    pub fn is_fatal(&self) -> (r: bool)
        ensures
            r == self.spec_is_fatal(),
    {
        match self {
            ProxyError::ConfigurationError => true,
            ProxyError::EndpointError => true,
            _ => false,
        }
    }
}

} // verus!
