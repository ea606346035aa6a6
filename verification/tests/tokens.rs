use whosinbot::models::roll_call_responses::{token_for_named, token_for_self};
use whosinbot::models::{
    Attendance, AttendanceStatus, CallStatus, InvalidInput, NewRollCall, NewRollCallResponse,
    UpdateRollCall, UpdateRollCallResponse,
};

#[test]
fn token_for_self_is_prefix_and_digest_of_the_numeral() {
    assert_eq!(
        Ok("self:7902699be42c8a8e46fbbb4501726517e86b22c56a189f7625a6da49081b2451".to_string()),
        token_for_self(7)
    );
    assert_eq!(
        Ok("self:6b86b273ff34fce19d6b804eff5a3f5747ada4eaa22f1d49c01e52ddb7875b4b".to_string()),
        token_for_self(1)
    );
    assert_eq!(
        Ok("self:b34a1c30a715f6bf8b7243afa7fab883ce3612b7231716bdcbbdc1982e1aed29".to_string()),
        token_for_self(i64::MAX)
    );
}

#[test]
fn token_for_named_is_prefix_and_digest_of_the_lower_case_name() {
    let expected =
        Ok("for:61ea0803f8853523b777d414ace3130cd4d3f92de2cd7ff8695c337d79c2eeee".to_string());
    assert_eq!(expected, token_for_named("dave"));
    assert_eq!(expected, token_for_named("Dave"));
    assert_eq!(expected, token_for_named("DAVE"));
    assert_eq!(
        Ok("for:bb8f447c5dbab1d290f0065ccdae238800cf6b28bf0375435b3d4e94b1d207ec".to_string()),
        token_for_named("Пётр")
    );
}

#[test]
fn tokens_of_a_user_and_of_a_name_differ() {
    assert_ne!(token_for_self(7), token_for_named("7"));
    assert_ne!(token_for_self(7), token_for_named("Dave"));
    assert_ne!(token_for_self(7), token_for_self(8));
    assert_ne!(token_for_named("Dave"), token_for_named("Davе"));
}

#[test]
fn token_needs_a_positive_user_and_a_name() {
    assert_eq!(Err(InvalidInput::UserId), token_for_self(0));
    assert_eq!(Err(InvalidInput::UserId), token_for_self(-7));
    assert_eq!(Err(InvalidInput::UserId), token_for_self(i64::MIN));
    assert_eq!(Err(InvalidInput::UserName), token_for_named(""));
    assert!(token_for_named(" ").is_ok());
}

#[test]
fn new_response_for_oneself() {
    let attendance = Attendance::new(AttendanceStatus::In, "will come".to_string());
    let response = NewRollCallResponse::self_at(3, 7, "Dave", &attendance, 1000);
    assert_eq!(3, response.roll_call_id);
    assert_eq!(
        "self:7902699be42c8a8e46fbbb4501726517e86b22c56a189f7625a6da49081b2451",
        response.unique_token
    );
    assert_eq!(Some(7), response.user_id);
    assert_eq!("Dave", response.user_name);
    assert_eq!(AttendanceStatus::In, response.status);
    assert_eq!("will come", response.reason);
    assert_eq!((1000, 1000), (response.created_at, response.updated_at));

    let row = response.into_row(12);
    assert_eq!((12, 3), (row.id, row.roll_call_id));
    assert_eq!(Some("Dave".to_string()), row.user_name);
    assert_eq!(Some("will come".to_string()), row.reason);
}

#[test]
fn new_response_for_somebody_else() {
    let attendance = Attendance::new(AttendanceStatus::Out, String::new());
    let response = NewRollCallResponse::for_at(3, "Dave", &attendance, 1000);
    assert_eq!(
        "for:61ea0803f8853523b777d414ace3130cd4d3f92de2cd7ff8695c337d79c2eeee",
        response.unique_token
    );
    assert_eq!(None, response.user_id);
    assert_eq!("Dave", response.user_name);
    assert_eq!(AttendanceStatus::Out, response.status);
    assert_eq!("", response.reason);
}

const YEAR_2020: i64 = 1_577_836_800_000_000;
const YEAR_2200: i64 = 7_258_118_400_000_000;

#[test]
fn new_rows_are_stamped_with_the_time_of_day() {
    let attendance = Attendance::new(AttendanceStatus::Maybe, String::new());
    let first = NewRollCallResponse::new_self(1, 7, "Dave", &attendance);
    assert!(YEAR_2020 < first.created_at && first.created_at < YEAR_2200);
    assert_eq!(first.created_at, first.updated_at);
    let second = NewRollCallResponse::new_for(1, "Dave", &attendance);
    assert!(YEAR_2020 < second.created_at && second.created_at < YEAR_2200);
    assert_eq!(second.created_at, second.updated_at);

    let call = NewRollCall::new(2, "title");
    assert!(YEAR_2020 < call.created_at && call.created_at < YEAR_2200);
    assert_eq!(call.created_at, call.updated_at);
    assert_eq!((2, "title", CallStatus::Open, false), (call.chat_id, call.title, call.status, call.quiet));

    let update = UpdateRollCall::new();
    assert!(update.updated_at.unwrap() > YEAR_2020);
    assert_eq!((None, None, None), (update.status, update.title, update.quiet));

    let update = UpdateRollCallResponse::new("Dave", AttendanceStatus::In, "ok");
    assert!(update.updated_at.unwrap() > YEAR_2020);
    assert_eq!(
        (Some("Dave"), Some(AttendanceStatus::In), Some("ok")),
        (update.user_name, update.status, update.reason)
    );
}

#[test]
fn update_of_a_call_writes_only_what_it_names() {
    let call = NewRollCall::at(2, "title", 10).into_row(5);
    let closed = UpdateRollCall::at(20)
        .with_status(CallStatus::Closed)
        .apply_to(&call);
    assert_eq!(
        (5, 2, CallStatus::Closed, "title", false, 10, 20),
        (
            closed.id,
            closed.chat_id,
            closed.status,
            closed.title.as_str(),
            closed.quiet,
            closed.created_at,
            closed.updated_at
        )
    );
    let changed = UpdateRollCall::at(30)
        .with_title("other")
        .with_quiet(true)
        .apply_to(&closed);
    assert_eq!(
        (CallStatus::Closed, "other", true, 10, 30),
        (
            changed.status,
            changed.title.as_str(),
            changed.quiet,
            changed.created_at,
            changed.updated_at
        )
    );
}
