//! The rows of the store and the values that are written to them.

pub mod roll_call_responses;
pub mod roll_calls;
pub mod type_aliases;

pub use roll_call_responses::{
    Attendance, AttendanceStatus, InvalidInput, NewRollCallResponse, ResponseData, RollCallResponse,
    UpdateRollCallResponse,
};
pub use roll_calls::{CallStatus, NewRollCall, RollCall, RollCallData, UpdateRollCall};
pub use type_aliases::{CallId, CallWithResponses, ChatId, ResponseId, Timestamp, UserId};
