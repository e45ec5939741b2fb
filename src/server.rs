//! Typed invocation of remote procedures over a request/response connection.

use vstd::prelude::*;

use crate::schema;

verus! {

#[verifier::external_type_specification]
#[verifier::external_body]
pub struct ExIoError(std::io::Error);

#[verifier::external_type_specification]
#[verifier::external_body]
pub struct ExDecodeError(prost::DecodeError);

/// A connection that carries one request to the server and hands back the
/// server's response together with the connection itself. A failure means
/// the transport is lost.
pub trait RpcConnection: Sized {
    fn call(self, request: schema::Request) -> Result<(schema::Response, Self), std::io::Error>;
}

/// A typed return value that can be read from a result's encoded bytes.
pub trait FromProcedureResult: Sized {
    type Error: std::fmt::Debug;

    fn try_from(value: Vec<u8>) -> Result<Self, Self::Error>;
}

/// A typed remote call: it turns into a call descriptor, and names the type
/// its result decodes to and the error type that a remote failure becomes.
pub trait ProcedureCall: Into<schema::ProcedureCall> {
    type Result: FromProcedureResult;

    type Error: From<schema::Error> + From<<Self::Result as FromProcedureResult>::Error>
        + std::fmt::Debug;
}

/// The value that prost's `UInt32Value` message decoding gives for the bytes.
pub uninterp spec fn uint32_message_value(b: Seq<u8>) -> Option<u32>;

/// Relies on prost's `Message::decode` for `u32`, which reads the bytes as
/// the `UInt32Value` wrapper message.
#[verifier::external_body]
fn decode_uint32(value: &[u8]) -> (r: Result<u32, prost::DecodeError>)
    ensures
        r is Ok <==> uint32_message_value(value@) is Some,
        r matches Ok(v) ==> uint32_message_value(value@) == Some(v),
{
    <u32 as prost::Message>::decode(value)
}

/// Reads a `u32` result from its encoded bytes.
pub fn decode_u32_result(value: Vec<u8>) -> (r: Result<u32, prost::DecodeError>)
    ensures
        r is Ok <==> uint32_message_value(value@) is Some,
        r matches Ok(v) ==> uint32_message_value(value@) == Some(v),
{
    decode_uint32(value.as_slice())
}

impl FromProcedureResult for u32 {
    type Error = prost::DecodeError;

    fn try_from(value: Vec<u8>) -> Result<u32, prost::DecodeError> {
        decode_u32_result(value)
    }
}

/// The error of a call whose result is a plain message.
#[derive(Debug)]
pub enum SimpleResultError {
    /// The server reported an error for the call.
    Server(schema::Error),
    /// The result's bytes did not decode.
    Decode(prost::DecodeError),
}

impl From<schema::Error> for SimpleResultError {
    fn from(err: schema::Error) -> (r: SimpleResultError)
        ensures
            r == SimpleResultError::Server(err),
    {
        SimpleResultError::Server(err)
    }
}

impl vstd::std_specs::convert::FromSpecImpl<schema::Error> for SimpleResultError {
    open spec fn obeys_from_spec() -> bool {
        true
    }

    open spec fn from_spec(v: schema::Error) -> SimpleResultError {
        SimpleResultError::Server(v)
    }
}

impl From<prost::DecodeError> for SimpleResultError {
    fn from(e: prost::DecodeError) -> (r: SimpleResultError)
        ensures
            r == SimpleResultError::Decode(e),
    {
        SimpleResultError::Decode(e)
    }
}

impl vstd::std_specs::convert::FromSpecImpl<prost::DecodeError> for SimpleResultError {
    open spec fn obeys_from_spec() -> bool {
        true
    }

    open spec fn from_spec(v: prost::DecodeError) -> SimpleResultError {
        SimpleResultError::Decode(v)
    }
}

/// The server's status call: service `KRPC`, procedure `GetStatus`, no arguments.
pub fn get_status_call() -> (r: schema::ProcedureCall)
    ensures
        r.service@ == "KRPC"@,
        r.procedure@ == "GetStatus"@,
        r.service_id == 0,
        r.procedure_id == 0,
        r.arguments@.len() == 0,
{
    schema::ProcedureCall {
        service: "KRPC".to_owned(),
        procedure: "GetStatus".to_owned(),
        service_id: 0,
        procedure_id: 0,
        arguments: Vec::new(),
    }
}

/// A batch that holds the one call `call`.
pub fn single_call_request(call: schema::ProcedureCall) -> (r: schema::Request)
    ensures
        r.calls@ == seq![call],
{
    let mut calls: Vec<schema::ProcedureCall> = Vec::new();
    calls.push(call);
    proof {
        assert(calls@ =~= seq![call]);
    }
    schema::Request { calls }
}

/// What a response says about the single call of its request.
#[derive(Debug)]
pub enum ResponseOutcome {
    /// The call succeeded; these are its encoded result bytes.
    Value(Vec<u8>),
    /// The server rejected the whole batch.
    RequestError(schema::Error),
    /// The response holds no result for the call.
    NoResult,
    /// The server reported an error for the call.
    ProcedureError(schema::Error),
}

/// The batch-level error wins; then a missing result; then the first
/// result's own error; else the first result's bytes.
pub open spec fn outcome_spec(response: schema::Response) -> ResponseOutcome {
    match response.error {
        Some(e) => ResponseOutcome::RequestError(e),
        None => if response.results@.len() == 0 {
            ResponseOutcome::NoResult
        } else {
            match response.results@[0].error {
                Some(e) => ResponseOutcome::ProcedureError(e),
                None => ResponseOutcome::Value(response.results@[0].value),
            }
        },
    }
}

/// Reads what a response says about the single call of its request.
pub fn classify_response(response: schema::Response) -> (r: ResponseOutcome)
    ensures
        r == outcome_spec(response),
{
    let schema::Response { error, results } = response;
    match error {
        Some(e) => ResponseOutcome::RequestError(e),
        None => {
            let mut results = results;
            if results.len() == 0 {
                ResponseOutcome::NoResult
            } else {
                let first = results.remove(0);
                match first.error {
                    Some(e) => ResponseOutcome::ProcedureError(e),
                    None => ResponseOutcome::Value(first.value),
                }
            }
        },
    }
}

/// The kinds of failure of an invocation.
#[derive(Debug, Clone, Copy, PartialEq, Eq, Structural)]
pub enum ErrorKind {
    Connection,
    Procedure,
    NoResult,
    Request,
    Decode,
}

/// Why an invocation failed. Every kind but `Connection` hands the server
/// back, so the caller can go on with the same connection.
#[derive(Debug)]
pub enum ProcedureCallError<P: ProcedureCall, C> {
    /// The transport failed; the connection is lost.
    Connection(std::io::Error),
    /// The server reported an error for the call.
    Procedure(P::Error, Server<C>),
    /// The response held no result for the call.
    NoResult(Server<C>),
    /// The server rejected the whole request.
    Request(schema::Error, Server<C>),
    /// The result's bytes did not decode as the call's result type.
    Decode(<P::Result as FromProcedureResult>::Error, Server<C>),
}

impl<P: ProcedureCall, C> ProcedureCallError<P, C> {
    pub open spec fn kind_spec(&self) -> ErrorKind {
        match self {
            ProcedureCallError::Connection(_) => ErrorKind::Connection,
            ProcedureCallError::Procedure(..) => ErrorKind::Procedure,
            ProcedureCallError::NoResult(_) => ErrorKind::NoResult,
            ProcedureCallError::Request(..) => ErrorKind::Request,
            ProcedureCallError::Decode(..) => ErrorKind::Decode,
        }
    }

    pub open spec fn server_spec(&self) -> Option<Server<C>> {
        match self {
            ProcedureCallError::Connection(_) => None,
            ProcedureCallError::Procedure(_, s) => Some(*s),
            ProcedureCallError::NoResult(s) => Some(*s),
            ProcedureCallError::Request(_, s) => Some(*s),
            ProcedureCallError::Decode(_, s) => Some(*s),
        }
    }

    /// Which kind of failure this is.
    pub fn kind(&self) -> (r: ErrorKind)
        ensures
            r == self.kind_spec(),
    {
        match self {
            ProcedureCallError::Connection(_) => ErrorKind::Connection,
            ProcedureCallError::Procedure(..) => ErrorKind::Procedure,
            ProcedureCallError::NoResult(_) => ErrorKind::NoResult,
            ProcedureCallError::Request(..) => ErrorKind::Request,
            ProcedureCallError::Decode(..) => ErrorKind::Decode,
        }
    }

    /// The server handed back with the failure; none after a transport failure.
    pub fn into_server(self) -> (r: Option<Server<C>>)
        ensures
            r == self.server_spec(),
    {
        match self {
            ProcedureCallError::Connection(_) => None,
            ProcedureCallError::Procedure(_, s) => Some(s),
            ProcedureCallError::NoResult(s) => Some(s),
            ProcedureCallError::Request(_, s) => Some(s),
            ProcedureCallError::Decode(_, s) => Some(s),
        }
    }

    /// The remote error that this failure wraps, if it wraps one.
    pub fn remote_error(&self) -> (r: Option<&schema::Error>)
        ensures
            r == match self {
                ProcedureCallError::Request(e, _) => Some(e),
                _ => None::<&schema::Error>,
            },
    {
        match self {
            ProcedureCallError::Request(e, _) => Some(e),
            _ => None,
        }
    }
}

/// The client side of a connection on which procedures are invoked, one
/// at a time. Each invocation takes the server by value and hands it back.
#[derive(Debug)]
pub struct Server<C> {
    connection: C,
}

impl<C> Server<C> {
    pub closed spec fn connection_spec(&self) -> C {
        self.connection
    }

    pub fn new(connection: C) -> (r: Self)
        ensures
            r.connection_spec() == connection,
    {
        Server { connection }
    }

    pub fn into_inner(self) -> (r: C)
        ensures
            r == self.connection_spec(),
    {
        self.connection
    }
}

impl<C: RpcConnection> Server<C> {
    /// Sends `p` as a one-call request and turns the response into its
    /// typed result. Every failure but a transport failure hands the
    /// server back.
    pub fn invoke<P: ProcedureCall>(self, p: P) -> (r: Result<(P::Result, Self), ProcedureCallError<P, C>>)
        ensures
            r matches Err(e) ==> (e.kind_spec() == ErrorKind::Connection <==> e.server_spec() is None),
    {
        let call: schema::ProcedureCall = p.into();
        let request = single_call_request(call);
        match self.connection.call(request) {
            Err(e) => Err(ProcedureCallError::Connection(e)),
            Ok((response, connection)) => Self::conclude(response, connection),
        }
    }

    /// Turns the response to a one-call request into the call's typed
    /// result, or into the failure that the response reports, handing back
    /// a server over `connection` in every case.
    pub fn conclude<P: ProcedureCall>(response: schema::Response, connection: C) -> (r: Result<
        (P::Result, Self),
        ProcedureCallError<P, C>,
    >)
        ensures
            match r {
                Ok((_, s)) => s.connection_spec() == connection,
                Err(e) => e.server_spec() matches Some(s) && s.connection_spec() == connection,
            },
            match outcome_spec(response) {
                ResponseOutcome::RequestError(e) => r matches Err(
                    ProcedureCallError::Request(re, _),
                ) && re == e,
                ResponseOutcome::NoResult => r matches Err(ProcedureCallError::NoResult(_)),
                ResponseOutcome::ProcedureError(e) => r matches Err(
                    ProcedureCallError::Procedure(pe, _),
                ) && (<P::Error as vstd::std_specs::convert::FromSpec<schema::Error>>::obeys_from_spec()
                    ==> pe == <P::Error as vstd::std_specs::convert::FromSpec<schema::Error>>::from_spec(e)),
                ResponseOutcome::Value(bytes) => match r {
                    Ok((v, _)) => call_ensures(
                        <P::Result as FromProcedureResult>::try_from,
                        (bytes,),
                        Ok(v),
                    ),
                    Err(ProcedureCallError::Decode(de, _)) => call_ensures(
                        <P::Result as FromProcedureResult>::try_from,
                        (bytes,),
                        Err(de),
                    ),
                    _ => false,
                },
            },
    {
        let server = Server::new(connection);
        match classify_response(response) {
            ResponseOutcome::RequestError(e) => Err(ProcedureCallError::Request(e, server)),
            ResponseOutcome::NoResult => Err(ProcedureCallError::NoResult(server)),
            ResponseOutcome::ProcedureError(e) => {
                let pe = <P::Error as From<schema::Error>>::from(e);
                Err(ProcedureCallError::Procedure(pe, server))
            },
            ResponseOutcome::Value(bytes) => match <P::Result as FromProcedureResult>::try_from(
                bytes,
            ) {
                Ok(v) => Ok((v, server)),
                Err(de) => Err(ProcedureCallError::Decode(de, server)),
            },
        }
    }
}

} // verus!
