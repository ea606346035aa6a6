//! What a participant answers.

use crate::util::text::{concatenate, str_eq};
use vstd::prelude::*;

verus! {

/// What a participant answers: a status and a free-text reason.
#[derive(Debug, PartialEq, Eq)]
pub struct Attendance {
    pub status: AttendanceStatus,
    pub reason: String,
}

impl Attendance {
    pub fn new(status: AttendanceStatus, reason: String) -> (attendance: Attendance)
        ensures
            attendance.status == status,
            attendance.reason == reason,
    {
        Attendance { status, reason }
    }
}

impl Clone for Attendance {
    fn clone(&self) -> (copy: Self)
        ensures
            copy == *self,
    {
        Attendance { status: self.status, reason: self.reason.clone() }
    }
}

/// Whether a participant comes.
#[derive(Hash, Debug, PartialEq, Eq, Copy, Clone, Structural)]
pub enum AttendanceStatus {
    In,
    Out,
    Maybe,
}

impl AttendanceStatus {
    /// The name under which the status is stored.
    pub open spec fn name(self) -> Seq<char> {
        match self {
            AttendanceStatus::In => "IN"@,
            AttendanceStatus::Out => "OUT"@,
            AttendanceStatus::Maybe => "MAYBE"@,
        }
    }

    /// The stored name of the status.
    pub fn to_string(&self) -> (s: String)
        ensures
            s@ == self.name(),
    {
        match self {
            AttendanceStatus::In => "IN".to_owned(),
            AttendanceStatus::Out => "OUT".to_owned(),
            AttendanceStatus::Maybe => "MAYBE".to_owned(),
        }
    }

    /// Reads a stored name back. Any other text is refused, and the message
    /// quotes it.
    pub fn parse(s: &str) -> (r: Result<AttendanceStatus, String>)
        ensures
            match r {
                Ok(status) => s@ == status.name(),
                Err(msg) => {
                    &&& s@ != AttendanceStatus::In.name()
                    &&& s@ != AttendanceStatus::Out.name()
                    &&& s@ != AttendanceStatus::Maybe.name()
                    &&& msg@ == "Unrecognized variant "@ + s@
                },
            },
    {
        if str_eq(s, "IN") {
            Ok(AttendanceStatus::In)
        } else if str_eq(s, "OUT") {
            Ok(AttendanceStatus::Out)
        } else if str_eq(s, "MAYBE") {
            Ok(AttendanceStatus::Maybe)
        } else {
            Err(concatenate("Unrecognized variant ", s))
        }
    }
}

impl std::str::FromStr for AttendanceStatus {
    type Err = String;

    fn from_str(s: &str) -> (r: Result<Self, Self::Err>)
        ensures
            match r {
                Ok(status) => s@ == status.name(),
                Err(msg) => {
                    &&& s@ != AttendanceStatus::In.name()
                    &&& s@ != AttendanceStatus::Out.name()
                    &&& s@ != AttendanceStatus::Maybe.name()
                    &&& msg@ == "Unrecognized variant "@ + s@
                },
            },
    {
        AttendanceStatus::parse(s)
    }
}

} // verus!
