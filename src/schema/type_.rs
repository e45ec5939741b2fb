use vstd::prelude::*;

verus! {

/// The kinds of value that a procedure's parameters and results can have.
#[derive(Clone, Copy, Debug, PartialEq, Eq, Structural)]
pub enum TypeCode {
    NoneType,
    // Values
    Double,
    Float,
    Sint32,
    Sint64,
    Uint32,
    Uint64,
    Bool,
    String,
    Bytes,
    // Objects
    Class,
    Enumeration,
    // Messages
    Event,
    ProcedureCall,
    Stream,
    Status,
    Services,
    // Collections
    Tuple,
    List,
    SetType,
    Dictionary,
}

impl TypeCode {
    pub open spec fn wire_value(self) -> i32 {
        match self {
            TypeCode::NoneType => 0,
            TypeCode::Double => 1,
            TypeCode::Float => 2,
            TypeCode::Sint32 => 3,
            TypeCode::Sint64 => 4,
            TypeCode::Uint32 => 5,
            TypeCode::Uint64 => 6,
            TypeCode::Bool => 7,
            TypeCode::String => 8,
            TypeCode::Bytes => 9,
            TypeCode::Class => 100,
            TypeCode::Enumeration => 101,
            TypeCode::Event => 200,
            TypeCode::ProcedureCall => 201,
            TypeCode::Stream => 202,
            TypeCode::Status => 203,
            TypeCode::Services => 204,
            TypeCode::Tuple => 300,
            TypeCode::List => 301,
            TypeCode::SetType => 302,
            TypeCode::Dictionary => 303,
        }
    }

    /// The number that stands for this type code on the wire.
    pub fn value(self) -> (r: i32)
        ensures
            r == self.wire_value(),
    {
        match self {
            TypeCode::NoneType => 0,
            TypeCode::Double => 1,
            TypeCode::Float => 2,
            TypeCode::Sint32 => 3,
            TypeCode::Sint64 => 4,
            TypeCode::Uint32 => 5,
            TypeCode::Uint64 => 6,
            TypeCode::Bool => 7,
            TypeCode::String => 8,
            TypeCode::Bytes => 9,
            TypeCode::Class => 100,
            TypeCode::Enumeration => 101,
            TypeCode::Event => 200,
            TypeCode::ProcedureCall => 201,
            TypeCode::Stream => 202,
            TypeCode::Status => 203,
            TypeCode::Services => 204,
            TypeCode::Tuple => 300,
            TypeCode::List => 301,
            TypeCode::SetType => 302,
            TypeCode::Dictionary => 303,
        }
    }
}

} // verus!
