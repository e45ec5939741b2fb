//! The decisions of the connection handshake. The program that owns the
//! transport sends the request built here, reads one frame back, decodes
//! it, and hands the outcome to `finish_handshake`.

use vstd::prelude::*;

use crate::schema::{self, connection_request};

verus! {

/// Why a handshake failed; the connection is not established.
#[derive(Debug)]
pub enum HandshakeError {
    /// The channel closed before the server answered.
    NoResponse,
    /// The server's answer did not decode as a connection response.
    Decode(prost::DecodeError),
}

/// Where a connection stands in its handshake.
#[derive(Debug)]
pub enum HandshakeState {
    Handshaking,
    Established(schema::ConnectionResponse),
    Failed(HandshakeError),
}

/// The request that opens a remote-procedure-call connection.
pub fn handshake_request(client_name: String, client_identifier: Vec<u8>) -> (r:
    schema::ConnectionRequest)
    ensures
        r.type_ == connection_request::Type::Rpc.wire_value(),
        r.client_name == client_name,
        r.client_identifier == client_identifier,
{
    schema::ConnectionRequest {
        type_: connection_request::Type::Rpc.value(),
        client_name,
        client_identifier,
    }
}

/// No reply is a failure; a reply that did not decode is a failure that
/// carries the decode error; a decoded reply establishes the connection.
pub open spec fn finish_handshake_spec(
    reply: Option<Result<schema::ConnectionResponse, prost::DecodeError>>,
) -> Result<schema::ConnectionResponse, HandshakeError> {
    match reply {
        None => Err(HandshakeError::NoResponse),
        Some(Err(e)) => Err(HandshakeError::Decode(e)),
        Some(Ok(response)) => Ok(response),
    }
}

/// The handshake's outcome from the one reply it waits for: `None` when the
/// channel closed first, else the result of decoding the reply.
pub fn finish_handshake(
    reply: Option<Result<schema::ConnectionResponse, prost::DecodeError>>,
) -> (r: Result<schema::ConnectionResponse, HandshakeError>)
    ensures
        r == finish_handshake_spec(reply),
{
    match reply {
        None => Err(HandshakeError::NoResponse),
        Some(Err(e)) => Err(HandshakeError::Decode(e)),
        Some(Ok(response)) => Ok(response),
    }
}

impl HandshakeState {
    /// The state after the reply arrives; a handshake that has already
    /// ended stays as it is.
    pub fn on_reply(
        self,
        reply: Option<Result<schema::ConnectionResponse, prost::DecodeError>>,
    ) -> (r: HandshakeState)
        ensures
            match self {
                HandshakeState::Handshaking => match finish_handshake_spec(reply) {
                    Ok(c) => r == HandshakeState::Established(c),
                    Err(e) => r == HandshakeState::Failed(e),
                },
                _ => r == self,
            },
    {
        match self {
            HandshakeState::Handshaking => match finish_handshake(reply) {
                Ok(c) => HandshakeState::Established(c),
                Err(e) => HandshakeState::Failed(e),
            },
            other => other,
        }
    }
}

} // verus!
