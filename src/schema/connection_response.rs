use vstd::prelude::*;

verus! {

/// How the server answered a connection request.
#[derive(Clone, Copy, Debug, PartialEq, Eq, Structural)]
pub enum Status {
    Okay,
    MalformedMessage,
    Timeout,
    WrongType,
}

impl Status {
    pub open spec fn wire_value(self) -> i32 {
        match self {
            Status::Okay => 0,
            Status::MalformedMessage => 1,
            Status::Timeout => 2,
            Status::WrongType => 3,
        }
    }

    /// The number that stands for this status on the wire.
    pub fn value(self) -> (r: i32)
        ensures
            r == self.wire_value(),
    {
        match self {
            Status::Okay => 0,
            Status::MalformedMessage => 1,
            Status::Timeout => 2,
            Status::WrongType => 3,
        }
    }

    /// The status that a wire number stands for, if any.
    pub fn from_i32(v: i32) -> (r: Option<Status>)
        ensures
            r matches Some(s) ==> s.wire_value() == v,
            r is None <==> !(0 <= v <= 3),
    {
        if v == 0 {
            Some(Status::Okay)
        } else if v == 1 {
            Some(Status::MalformedMessage)
        } else if v == 2 {
            Some(Status::Timeout)
        } else if v == 3 {
            Some(Status::WrongType)
        } else {
            None
        }
    }
}

} // verus!
