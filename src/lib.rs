//! Server side of HTTP/3: the wire codec of frames and settings, the connection's admission
//! and shutdown state machine, the completion bookkeeping of request streams, and the
//! establishment and routing of a WebTransport session.

pub mod config;
pub mod connection;
pub mod error;
pub mod frame;
pub mod request;
pub mod settings;
pub mod varint;
pub mod webtransport;
