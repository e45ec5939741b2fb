//! Client side of a length-prefixed remote-procedure-call protocol:
//! varint framing, the connection handshake and typed call invocation.

pub mod buffer;
pub mod codec;
pub mod connection;
pub mod schema;
pub mod server;
pub mod varint;
