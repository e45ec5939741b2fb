//! The protocol's messages, as plain values. Their byte-level serialization
//! belongs to the program that drives a connection.

use vstd::prelude::*;

pub mod connection_request;
pub mod connection_response;
pub mod type_;

verus! {

// Messages for connecting to the server

/// The first message a client sends: which kind of connection it opens.
#[derive(Clone, Debug, PartialEq, Default)]
pub struct ConnectionRequest {
    /// A `connection_request::Type`, as its wire number.
    pub type_: i32,
    pub client_name: String,
    pub client_identifier: Vec<u8>,
}

/// The server's answer to a `ConnectionRequest`.
#[derive(Clone, Debug, PartialEq, Default)]
pub struct ConnectionResponse {
    /// A `connection_response::Status`, as its wire number.
    pub status: i32,
    pub message: String,
    pub client_identifier: Vec<u8>,
}

// Messages for calling remote procedures

/// A batch of procedure calls sent as one message.
#[derive(Clone, Debug, PartialEq, Default)]
pub struct Request {
    pub calls: Vec<ProcedureCall>,
}

/// One remote invocation: which procedure, and its encoded arguments.
#[derive(Clone, Debug, PartialEq, Default)]
pub struct ProcedureCall {
    pub service: String,
    pub procedure: String,
    pub service_id: u32,
    pub procedure_id: u32,
    pub arguments: Vec<Argument>,
}

/// One encoded argument and the position of the parameter it fills.
#[derive(Clone, Debug, PartialEq, Default)]
pub struct Argument {
    pub position: u32,
    pub value: Vec<u8>,
}

/// The server's answer to a `Request`: a batch-level error, or one result per call.
#[derive(Clone, Debug, PartialEq, Default)]
pub struct Response {
    pub error: Option<Error>,
    pub results: Vec<ProcedureResult>,
}

/// The outcome of one call: an error, or the encoded return value.
#[derive(Clone, Debug, PartialEq, Default)]
pub struct ProcedureResult {
    pub error: Option<Error>,
    pub value: Vec<u8>,
}

/// An error that the server reports, for a batch or for one call.
#[derive(Clone, Debug, PartialEq, Default)]
pub struct Error {
    pub service: String,
    pub name: String,
    pub description: String,
    pub stack_trace: String,
}

// Messages for receiving stream updates

#[derive(Clone, Debug, PartialEq, Default)]
pub struct StreamUpdate {
    pub results: Vec<StreamResult>,
}

#[derive(Clone, Debug, PartialEq, Default)]
pub struct StreamResult {
    pub id: u64,
    pub result: Option<ProcedureResult>,
}

// Messages for receiving information about the server

#[derive(Debug, PartialEq, Default)]
pub struct Services {
    pub services: Vec<Service>,
}

#[derive(Debug, PartialEq, Default)]
pub struct Service {
    pub name: String,
    pub procedures: Vec<Procedure>,
    pub classes: Vec<Class>,
    pub enumerations: Vec<Enumeration>,
    pub exceptions: Vec<Exception>,
    pub documentation: String,
}

#[derive(Debug, PartialEq, Default)]
pub struct Procedure {
    pub name: String,
    pub parameters: Vec<Parameter>,
    pub return_type: Option<Type>,
    pub return_is_nullable: bool,
    pub documentation: String,
}

#[derive(Debug, PartialEq, Default)]
pub struct Parameter {
    pub name: String,
    pub type_: Option<Type>,
    pub default_value: Vec<u8>,
}

#[derive(Clone, Debug, PartialEq, Default)]
pub struct Class {
    pub name: String,
    pub documentation: String,
}

#[derive(Clone, Debug, PartialEq, Default)]
pub struct Enumeration {
    pub name: String,
    pub values: Vec<EnumerationValue>,
    pub documentation: String,
}

#[derive(Clone, Debug, PartialEq, Default)]
pub struct EnumerationValue {
    pub name: String,
    pub value: i32,
    pub documentation: String,
}

#[derive(Clone, Debug, PartialEq, Default)]
pub struct Exception {
    pub name: String,
    pub documentation: String,
}

/// A type that a procedure takes or returns.
#[derive(Debug, PartialEq, Default)]
pub struct Type {
    /// A `type_::TypeCode`, as its wire number.
    pub code: i32,
    pub service: String,
    pub name: String,
    pub types: Vec<Type>,
}

// Collection data structures

#[derive(Clone, Debug, PartialEq, Default)]
pub struct Tuple {
    pub items: Vec<Vec<u8>>,
}

#[derive(Clone, Debug, PartialEq, Default)]
pub struct List {
    pub items: Vec<Vec<u8>>,
}

/// An unordered collection of encoded values.
#[derive(Clone, Debug, PartialEq, Default)]
pub struct SetValue {
    pub items: Vec<Vec<u8>>,
}

#[derive(Clone, Debug, PartialEq, Default)]
pub struct Dictionary {
    pub entries: Vec<DictionaryEntry>,
}

#[derive(Clone, Debug, PartialEq, Default)]
pub struct DictionaryEntry {
    pub key: Vec<u8>,
    pub value: Vec<u8>,
}

// Aggregate data structures

#[derive(Clone, Debug, PartialEq, Default)]
pub struct Stream {
    pub id: u64,
}

#[derive(Clone, Debug, PartialEq, Default)]
pub struct Event {
    pub stream: Option<Stream>,
}

// Multiplexed request messages

#[derive(Clone, Debug, PartialEq, Default)]
pub struct MultiplexedRequest {
    pub connection_request: Option<ConnectionRequest>,
    pub request: Option<Request>,
}

#[derive(Clone, Debug, PartialEq, Default)]
pub struct MultiplexedResponse {
    pub response: Option<Response>,
    pub stream_update: Option<StreamUpdate>,
}

} // verus!
