//! Sample rows for trying things out.

use crate::models::roll_call_responses::{
    responses_data, AttendanceStatus, ResponseData, RollCallResponse,
};
use crate::models::roll_calls::{CallStatus, RollCall, RollCallData};
use crate::models::type_aliases::Timestamp;
use crate::util::clock::now;
use vstd::prelude::*;

verus! {

/// The sample call as it is when created at `at`: open and not quiet.
pub open spec fn sample_call(at: Timestamp) -> RollCallData {
    RollCallData {
        id: 1,
        chat_id: 2,
        status: CallStatus::Open,
        title: "call title"@,
        quiet: false,
        created_at: at,
        updated_at: at,
    }
}

/// An open call, created now.
pub fn create_call() -> (call: RollCall)
    ensures
        call@ == sample_call(call.created_at),
{
    let now = now();
    RollCall {
        id: 1,
        chat_id: 2,
        status: CallStatus::Open,
        title: "call title".to_owned(),
        quiet: false,
        created_at: now,
        updated_at: now,
    }
}

/// An open call that asks for condensed summaries, created now.
pub fn create_quiet_call() -> (call: RollCall)
    ensures
        call@ == (RollCallData { quiet: true, ..sample_call(call.created_at) }),
{
    let call = create_call();
    RollCall {
        id: call.id,
        chat_id: call.chat_id,
        status: call.status,
        title: call.title,
        quiet: true,
        created_at: call.created_at,
        updated_at: call.updated_at,
    }
}

/// One sample response to the sample call, given at `at`.
pub open spec fn sample_response(
    id: i64,
    unique_token: Seq<char>,
    user_id: Option<i64>,
    user_name: Seq<char>,
    status: AttendanceStatus,
    reason: Seq<char>,
    at: Timestamp,
) -> ResponseData {
    ResponseData {
        id,
        roll_call_id: 1,
        unique_token,
        user_id,
        user_name: Some(user_name),
        status,
        reason: Some(reason),
        created_at: at,
        updated_at: at,
    }
}

/// The sample responses as they are when given at `at`: David and Henry
/// are in, Daniel is out, Albert may come.
pub open spec fn sample_responses(at: Timestamp) -> Seq<ResponseData> {
    seq![
        sample_response(
            1,
            "self:0001"@,
            Some(1),
            "David"@,
            AttendanceStatus::In,
            "will come"@,
            at,
        ),
        sample_response(2, "for:0002"@, None, "Daniel"@, AttendanceStatus::Out, "won't come"@, at),
        sample_response(
            3,
            "self:0003"@,
            Some(2),
            "Henry"@,
            AttendanceStatus::In,
            "also will come"@,
            at,
        ),
        sample_response(
            4,
            "for:0004"@,
            None,
            "Albert"@,
            AttendanceStatus::Maybe,
            "might come"@,
            at,
        ),
    ]
}

fn create_response(
    id: i64,
    unique_token: &str,
    user_id: Option<i64>,
    user_name: &str,
    status: AttendanceStatus,
    reason: &str,
    at: Timestamp,
) -> (response: RollCallResponse)
    ensures
        response@ == sample_response(id, unique_token@, user_id, user_name@, status, reason@, at),
{
    RollCallResponse {
        id,
        roll_call_id: 1,
        unique_token: unique_token.to_owned(),
        user_id,
        user_name: Some(user_name.to_owned()),
        status,
        reason: Some(reason.to_owned()),
        created_at: at,
        updated_at: at,
    }
}

/// Four responses to the sample call, all given now.
pub fn create_responses() -> (responses: Vec<RollCallResponse>)
    ensures
        exists|at: Timestamp| responses_data(responses@) == #[trigger] sample_responses(at),
{
    let now = now();
    let responses = vec![
        create_response(1, "self:0001", Some(1), "David", AttendanceStatus::In, "will come", now),
        create_response(2, "for:0002", None, "Daniel", AttendanceStatus::Out, "won't come", now),
        create_response(
            3,
            "self:0003",
            Some(2),
            "Henry",
            AttendanceStatus::In,
            "also will come",
            now,
        ),
        create_response(4, "for:0004", None, "Albert", AttendanceStatus::Maybe, "might come", now),
    ];
    assert(responses_data(responses@) == sample_responses(now));
    responses
}

} // verus!
