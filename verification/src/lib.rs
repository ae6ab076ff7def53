//! A reverse proxy core: it terminates a multiplexed transport, reads one
//! HTTP/1.x-style request per bidirectional stream, forwards it to a single
//! configured upstream, and writes the complete response back on the same
//! stream. This crate holds the verified logic: the wire-format parser, the
//! upstream request builder, the response serializer, and the decision state
//! machines for streams, connections, and the listening endpoint. The
//! asynchronous transport and HTTP I/O around it is ordinary unverified code.

pub mod error;
pub mod parse;
pub mod response;
pub mod server;
pub mod stream;
pub mod upstream;
