use whosinbot::models::AttendanceStatus::{In, Maybe, Out};
use whosinbot::models::{AttendanceStatus, RollCallResponse};
use whosinbot::telegram::views::{
    group_by_status, render_announcement, render_available_commands, render_responses,
    render_responses_full, render_responses_short, short_summary, StatusCounts,
};
use whosinbot::util::testutil::factories::{create_call, create_quiet_call, create_responses};

#[test]
fn test_cached_available_commands_contains_all_commands() {
    let actual = render_available_commands();
    let cmds = vec![
        "/start_roll_call",
        "/end_roll_call",
        "/set_title",
        "/shh",
        "/louder",
        "/in",
        "/out",
        "/maybe",
        "/set_in_for",
        "/set_out_for",
        "/set_maybe_for",
        "/whos_in",
        "/available_commands",
    ];

    for cmd in cmds.iter() {
        assert!(actual.contains(cmd));
    }
}

#[test]
fn test_render_available_commands_shows_some_beers() {
    let actual = render_available_commands();
    assert!(actual.contains('🍺'));
}

#[test]
fn available_commands_in_full() {
    let expected = "Available commands:\n 🍺 /start_roll_call\n 🍺 /end_roll_call\n 🍺 /set_title\n 🍺 /shh\n 🍺 /louder\n 🍺 /in\n 🍺 /out\n 🍺 /maybe\n 🍺 /set_in_for\n 🍺 /set_out_for\n 🍺 /set_maybe_for\n 🍺 /whos_in\n 🍺 /available_commands";
    assert_eq!(expected, render_available_commands());
}

#[test]
fn test_render_announcement() {
    assert!(render_announcement("Henry", In).contains("Henry is in!"));
    assert!(render_announcement("David", Out).contains("David is out!"));
    assert!(render_announcement("Daniel", Maybe).contains("Daniel might come!"));
}

#[test]
fn announcement_in_full() {
    assert_eq!("Henry is in!", render_announcement("Henry", In));
    assert_eq!("David is out!", render_announcement("David", Out));
    assert_eq!("Daniel might come!", render_announcement("Daniel", Maybe));
}

#[test]
fn test_render_responses_short() {
    let expected = "Total: 2 in, 1 out, 1 might come.";
    let actual = render_responses_short(&create_responses());

    assert_eq!(expected, actual);
}

#[test]
fn test_render_responses_full() {
    let actual = render_responses_full(&create_responses());
    let without_space = actual.replace(char::is_whitespace, "");

    let expected = "In(2)-David(willcome)-Henry(alsowillcome)Out(1)-Daniel(won'tcome)Maybe(1)-Albert(mightcome)";
    assert_eq!(expected, without_space);
}

#[test]
fn test_render_responses_for_quiet_call() {
    let call_with_response = (create_quiet_call(), create_responses());
    let actual = render_responses(&call_with_response);
    let expected = "Total: 2 in, 1 out, 1 might come.";

    assert_eq!(expected, actual);
}

#[test]
fn test_render_responses_for_non_quiet_call() {
    let call_with_response = (create_call(), create_responses());
    let actual = render_responses(&call_with_response);
    let without_space = actual.replace(char::is_whitespace, "");

    let expected = "In(2)-David(willcome)-Henry(alsowillcome)Out(1)-Daniel(won'tcome)Maybe(1)-Albert(mightcome)";
    assert_eq!(expected, without_space);
}

fn response(id: i64, name: Option<&str>, status: AttendanceStatus, reason: Option<&str>, at: i64) -> RollCallResponse {
    RollCallResponse {
        id,
        roll_call_id: 1,
        unique_token: format!("for:{}", id),
        user_id: None,
        user_name: name.map(|n| n.to_string()),
        status,
        reason: reason.map(|r| r.to_string()),
        created_at: at,
        updated_at: at,
    }
}

#[test]
fn full_summary_in_full() {
    let expected = "In (2)\n - David (will come)\n - Henry (also will come)\n\nOut (1)\n - Daniel (won't come)\n\nMaybe (1)\n - Albert (might come)";
    assert_eq!(expected, render_responses_full(&create_responses()));
}

#[test]
fn full_summary_without_responses() {
    assert_eq!("No responses yet. 😢", render_responses_full(&[]));
    assert_eq!("Total: 0 in, 0 out, 0 might come.", render_responses_short(&[]));
}

#[test]
fn full_summary_leaves_empty_sections_out() {
    let responses = vec![response(1, Some("Eve"), Maybe, Some(""), 5)];
    assert_eq!("Maybe (1)\n - Eve", render_responses_full(&responses));
    let responses = vec![
        response(1, Some("Eve"), Out, None, 5),
        response(2, None, In, Some("x"), 5),
    ];
    assert_eq!("In (1)\n -  (x)\n\nOut (1)\n - Eve", render_responses_full(&responses));
}

#[test]
fn full_summary_lists_first_answer_first() {
    let responses = vec![
        response(1, Some("late"), In, None, 30),
        response(2, Some("early"), In, None, 10),
        response(3, Some("middle"), In, None, 20),
        response(4, Some("middle too"), In, None, 20),
        response(5, Some("out late"), Out, None, 9),
        response(6, Some("out early"), Out, None, 8),
    ];
    assert_eq!(
        "In (4)\n - early\n - middle\n - middle too\n - late\n\nOut (2)\n - out early\n - out late",
        render_responses_full(&responses)
    );
}

#[test]
fn short_summary_counts_each_status() {
    let counts = short_summary(&create_responses());
    assert_eq!(
        StatusCounts {
            in_count: 2,
            out_count: 1,
            maybe_count: 1
        },
        counts
    );
    let mut many = Vec::new();
    for i in 0..12 {
        many.push(response(i, Some("x"), Out, None, i));
    }
    assert_eq!("Total: 0 in, 12 out, 0 might come.", render_responses_short(&many));
}

#[test]
fn groups_keep_the_order_of_the_list() {
    let groups = group_by_status(&create_responses());
    let ids = |responses: &Vec<RollCallResponse>| responses.iter().map(|r| r.id).collect::<Vec<_>>();
    assert_eq!(vec![1, 3], ids(&groups.in_responses));
    assert_eq!(vec![2], ids(&groups.out_responses));
    assert_eq!(vec![4], ids(&groups.maybe_responses));
}
