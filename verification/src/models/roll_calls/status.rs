//! The status of a roll call.

use crate::util::text::{concatenate, str_eq};
use vstd::prelude::*;

verus! {

/// Whether a roll call still takes responses.
#[derive(Hash, Debug, PartialEq, Eq, Copy, Clone, Structural)]
pub enum CallStatus {
    Open,
    Closed,
}

impl CallStatus {
    /// The name under which the status is stored.
    pub open spec fn name(self) -> Seq<char> {
        match self {
            CallStatus::Open => "OPEN"@,
            CallStatus::Closed => "CLOSED"@,
        }
    }

    /// The stored name of the status.
    pub fn to_string(&self) -> (s: String)
        ensures
            s@ == self.name(),
    {
        match self {
            CallStatus::Open => "OPEN".to_owned(),
            CallStatus::Closed => "CLOSED".to_owned(),
        }
    }

    /// Reads a stored name back. Any other text is refused, and the message
    /// quotes it.
    pub fn parse(s: &str) -> (r: Result<CallStatus, String>)
        ensures
            match r {
                Ok(status) => s@ == status.name(),
                Err(msg) => {
                    &&& s@ != CallStatus::Open.name()
                    &&& s@ != CallStatus::Closed.name()
                    &&& msg@ == "Unrecognized variant "@ + s@
                },
            },
    {
        if str_eq(s, "OPEN") {
            Ok(CallStatus::Open)
        } else if str_eq(s, "CLOSED") {
            Ok(CallStatus::Closed)
        } else {
            Err(concatenate("Unrecognized variant ", s))
        }
    }
}

impl std::str::FromStr for CallStatus {
    type Err = String;

    fn from_str(s: &str) -> (r: Result<Self, Self::Err>)
        ensures
            match r {
                Ok(status) => s@ == status.name(),
                Err(msg) => {
                    &&& s@ != CallStatus::Open.name()
                    &&& s@ != CallStatus::Closed.name()
                    &&& msg@ == "Unrecognized variant "@ + s@
                },
            },
    {
        CallStatus::parse(s)
    }
}

} // verus!
