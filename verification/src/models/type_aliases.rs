//! The identifiers and times of the rows.

use super::roll_call_responses::RollCallResponse;
use super::roll_calls::RollCall;
use vstd::prelude::*;

verus! {

pub type CallId = i64;

pub type ResponseId = i64;

pub type ChatId = i64;

pub type UserId = i64;

/// A point in time, in microseconds since 1970-01-01 00:00:00.
pub type Timestamp = i64;

/// A roll call together with the responses recorded against it.
pub type CallWithResponses = (RollCall, Vec<RollCallResponse>);

} // verus!
