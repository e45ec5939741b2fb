use vstd::prelude::*;

verus! {

/// The kind of connection a client opens.
#[derive(Clone, Copy, Debug, PartialEq, Eq, Structural)]
pub enum Type {
    Rpc,
    Stream,
}

impl Type {
    pub open spec fn wire_value(self) -> i32 {
        match self {
            Type::Rpc => 0,
            Type::Stream => 1,
        }
    }

    /// The number that stands for this kind on the wire.
    pub fn value(self) -> (r: i32)
        ensures
            r == self.wire_value(),
    {
        match self {
            Type::Rpc => 0,
            Type::Stream => 1,
        }
    }
}

} // verus!
