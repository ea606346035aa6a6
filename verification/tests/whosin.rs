use std::cell::Cell;
use std::rc::Rc;

use whosinbot::db::{DatabaseError, DatabaseResult, Repository};
use whosinbot::models::{
    Attendance, AttendanceStatus, CallStatus, CallWithResponses, ChatId, InvalidInput, RollCall,
    UserId,
};
use whosinbot::telegram::base_bot::ChatCommand;
use whosinbot::telegram::commands::{Command, CommandParseError};
use whosinbot::telegram::views::{render_available_commands, render_responses_full};
use whosinbot::telegram::whosin::{render_reply, HandleError, WhosInBot};
use whosinbot::util::testutil::factories::{create_call, create_quiet_call, create_responses};

/// What a test expects the bot to ask of the repository, and what the
/// repository then answers.
enum Expected {
    Nothing,
    CreateCall(ChatId, &'static str, DatabaseResult<RollCall>),
    EndCall(ChatId, DatabaseResult<Option<RollCall>>),
    UpdateTitle(ChatId, &'static str, DatabaseResult<Option<RollCall>>),
    UpdateQuiet(ChatId, bool, DatabaseResult<Option<CallWithResponses>>),
    SetResponse(
        ChatId,
        UserId,
        &'static str,
        Attendance,
        DatabaseResult<Option<CallWithResponses>>,
    ),
    SetResponseFor(
        ChatId,
        &'static str,
        Attendance,
        DatabaseResult<Option<CallWithResponses>>,
    ),
    GetCallWithResponses(ChatId, DatabaseResult<Option<CallWithResponses>>),
}

struct MockRepository {
    expected: Expected,
    calls: Rc<Cell<usize>>,
}

impl MockRepository {
    fn take(&mut self) -> Expected {
        self.calls.set(self.calls.get() + 1);
        std::mem::replace(&mut self.expected, Expected::Nothing)
    }
}

impl Repository for MockRepository {
    fn create_call(&mut self, chat_id: ChatId, title: &str) -> DatabaseResult<RollCall> {
        match self.take() {
            Expected::CreateCall(chat, text, result) => {
                assert_eq!((chat, text), (chat_id, title));
                result
            }
            _ => panic!("unexpected create_call"),
        }
    }

    fn end_call(&mut self, chat_id: ChatId) -> DatabaseResult<Option<RollCall>> {
        match self.take() {
            Expected::EndCall(chat, result) => {
                assert_eq!(chat, chat_id);
                result
            }
            _ => panic!("unexpected end_call"),
        }
    }

    fn update_title(&mut self, chat_id: ChatId, new_title: &str) -> DatabaseResult<Option<RollCall>> {
        match self.take() {
            Expected::UpdateTitle(chat, text, result) => {
                assert_eq!((chat, text), (chat_id, new_title));
                result
            }
            _ => panic!("unexpected update_title"),
        }
    }

    fn update_quiet(
        &mut self,
        chat_id: ChatId,
        quiet: bool,
    ) -> DatabaseResult<Option<CallWithResponses>> {
        match self.take() {
            Expected::UpdateQuiet(chat, flag, result) => {
                assert_eq!((chat, flag), (chat_id, quiet));
                result
            }
            _ => panic!("unexpected update_quiet"),
        }
    }

    fn set_response(
        &mut self,
        chat_id: ChatId,
        user_id: UserId,
        user_name: &str,
        attendance: &Attendance,
    ) -> DatabaseResult<Option<CallWithResponses>> {
        match self.take() {
            Expected::SetResponse(chat, user, name, answer, result) => {
                assert_eq!((chat, user, name), (chat_id, user_id, user_name));
                assert_eq!(&answer, attendance);
                result
            }
            _ => panic!("unexpected set_response"),
        }
    }

    fn set_response_for(
        &mut self,
        chat_id: ChatId,
        user_name: &str,
        attendance: &Attendance,
    ) -> DatabaseResult<Option<CallWithResponses>> {
        match self.take() {
            Expected::SetResponseFor(chat, name, answer, result) => {
                assert_eq!((chat, name), (chat_id, user_name));
                assert_eq!(&answer, attendance);
                result
            }
            _ => panic!("unexpected set_response_for"),
        }
    }

    fn get_call_with_responses(
        &mut self,
        chat_id: ChatId,
    ) -> DatabaseResult<Option<CallWithResponses>> {
        match self.take() {
            Expected::GetCallWithResponses(chat, result) => {
                assert_eq!(chat, chat_id);
                result
            }
            _ => panic!("unexpected get_call_with_responses"),
        }
    }
}

/// Hands the command to a bot whose repository expects `expected`, and
/// checks that the repository was asked as often as `asked` says.
fn handle_with(
    expected: Expected,
    asked: usize,
    command: ChatCommand,
) -> Result<Option<String>, HandleError> {
    let calls = Rc::new(Cell::new(0));
    let repo = MockRepository {
        expected,
        calls: calls.clone(),
    };
    let mut bot = WhosInBot::new("", Box::new(repo));
    let result = bot.handle(command);
    assert_eq!(asked, calls.get());
    result
}

fn chat(username: &str, command: &str, params: &str) -> ChatCommand {
    ChatCommand {
        chat_id: 2,
        user_id: 1,
        username: username.to_string(),
        command: command.to_string(),
        command_params: params.to_string(),
    }
}

fn answer(status: AttendanceStatus, reason: &str) -> Attendance {
    Attendance::new(status, reason.to_string())
}

#[test]
fn handle_start_roll_call() {
    let call = create_call();
    let expected = Expected::CreateCall(2, "call title", Ok(call));

    let command = ChatCommand {
        chat_id: 2,
        user_id: 1,
        username: "User 1".to_string(),
        command: "/start_roll_call".to_string(),
        command_params: "call title".to_string(),
    };

    let result = handle_with(expected, 1, command);
    assert_eq!(Some("Roll call started.".to_string()), result.unwrap());
}

#[test]
fn handle_end_roll_call() {
    let call = RollCall {
        status: CallStatus::Closed,
        ..create_call()
    };

    let expected = Expected::EndCall(2, Ok(Some(call)));

    let command = ChatCommand {
        chat_id: 2,
        user_id: 1,
        username: "User 1".to_string(),
        command: "/end_roll_call".to_string(),
        command_params: String::new(),
    };

    let result = handle_with(expected, 1, command);
    assert_eq!(Some("Roll call ended.".to_string()), result.unwrap());
}

#[test]
fn handle_end_roll_call_no_in_progress() {
    let expected = Expected::EndCall(2, Ok(None));

    let command = ChatCommand {
        chat_id: 2,
        user_id: 1,
        username: "User 1".to_string(),
        command: "/end_roll_call".to_string(),
        command_params: String::new(),
    };

    let result = handle_with(expected, 1, command);
    assert_eq!(
        Some("No roll call in progress.".to_string()),
        result.unwrap()
    );
}

#[test]
fn handle_update_title() {
    let call = RollCall {
        title: "new title".to_string(),
        ..create_call()
    };

    let expected = Expected::UpdateTitle(2, "new title", Ok(Some(call)));

    let command = ChatCommand {
        chat_id: 2,
        user_id: 1,
        username: "User 1".to_string(),
        command: "/set_title".to_string(),
        command_params: "new title".to_string(),
    };

    let result = handle_with(expected, 1, command);
    assert_eq!(Some("Roll call title set.".to_string()), result.unwrap());
}

#[test]
fn handle_update_title_empty_title() {
    let command = ChatCommand {
        chat_id: 2,
        user_id: 1,
        username: "User 1".to_string(),
        command: "/set_title".to_string(),
        command_params: String::new(),
    };

    let result = handle_with(Expected::Nothing, 0, command);
    assert_eq!(Some("Please provide a title.".to_string()), result.unwrap());
}

#[test]
fn handle_update_title_no_in_progress() {
    let expected = Expected::UpdateTitle(2, "new title", Ok(None));

    let command = ChatCommand {
        chat_id: 2,
        user_id: 1,
        username: "User 1".to_string(),
        command: "/set_title".to_string(),
        command_params: "new title".to_string(),
    };

    let result = handle_with(expected, 1, command);
    assert_eq!(
        Some("No roll call in progress.".to_string()),
        result.unwrap()
    );
}

#[test]
fn handle_set_quiet() {
    let call = RollCall {
        quiet: true,
        ..create_call()
    };

    let responses = create_responses();

    let expected = Expected::UpdateQuiet(2, true, Ok(Some((call, responses))));

    let command = ChatCommand {
        chat_id: 2,
        user_id: 1,
        username: "User 1".to_string(),
        command: "/shh".to_string(),
        command_params: String::new(),
    };

    let result = handle_with(expected, 1, command);
    assert_eq!(
        Some("Ok fine, I\'ll be quiet. 🤐".to_string()),
        result.unwrap()
    );
}

#[test]
fn handle_set_loud() {
    let call = create_call();
    let responses = create_responses();

    let expected = Expected::UpdateQuiet(2, false, Ok(Some((call, responses.clone()))));

    let command = ChatCommand {
        chat_id: 2,
        user_id: 1,
        username: "User 1".to_string(),
        command: "/louder".to_string(),
        command_params: String::new(),
    };

    let result: String = handle_with(expected, 1, command).unwrap().unwrap();
    assert!(result.contains(&render_responses_full(&responses)));
}

#[test]
fn handle_update_quiet_no_in_progress() {
    let expected = Expected::UpdateQuiet(2, true, Ok(None));

    let command = ChatCommand {
        chat_id: 2,
        user_id: 1,
        username: "User 1".to_string(),
        command: "/shh".to_string(),
        command_params: String::new(),
    };

    let result = handle_with(expected, 1, command);
    assert_eq!(
        Some("No roll call in progress.".to_string()),
        result.unwrap()
    );
}

#[test]
fn handle_set_attendance_in() {
    let call = create_call();
    let responses = create_responses();

    let expected = Expected::SetResponse(
        2,
        1,
        "David",
        answer(AttendanceStatus::In, "will come"),
        Ok(Some((call, responses.clone()))),
    );

    let command = ChatCommand {
        chat_id: 2,
        user_id: 1,
        username: "David".to_string(),
        command: "/in".to_string(),
        command_params: "will come".to_string(),
    };

    let result: String = handle_with(expected, 1, command).unwrap().unwrap();
    assert!(result.contains("David (will come)"));
    assert!(result.contains(&render_responses_full(&responses)));
}

#[test]
fn handle_set_attendance_out() {
    let call = create_call();
    let responses = create_responses();

    let expected = Expected::SetResponse(
        2,
        1,
        "Daniel",
        answer(AttendanceStatus::Out, "won't come"),
        Ok(Some((call, responses.clone()))),
    );

    let command = ChatCommand {
        chat_id: 2,
        user_id: 1,
        username: "Daniel".to_string(),
        command: "/out".to_string(),
        command_params: "won't come".to_string(),
    };

    let result: String = handle_with(expected, 1, command).unwrap().unwrap();
    assert!(result.contains("Daniel (won't come)"));
    assert!(result.contains(&render_responses_full(&responses)));
}

#[test]
fn handle_set_attendance_maybe() {
    let call = create_call();
    let responses = create_responses();

    let expected = Expected::SetResponse(
        2,
        1,
        "Albert",
        answer(AttendanceStatus::Maybe, "might come"),
        Ok(Some((call, responses.clone()))),
    );

    let command = ChatCommand {
        chat_id: 2,
        user_id: 1,
        username: "Albert".to_string(),
        command: "/maybe".to_string(),
        command_params: "might come".to_string(),
    };

    let result: String = handle_with(expected, 1, command).unwrap().unwrap();
    assert!(result.contains("David (will come)"));
    assert!(result.contains(&render_responses_full(&responses)));
}

#[test]
fn handle_set_attendance_no_in_progress() {
    let expected = Expected::SetResponse(
        2,
        1,
        "User 1",
        answer(AttendanceStatus::In, "will come"),
        Ok(None),
    );

    let command = ChatCommand {
        chat_id: 2,
        user_id: 1,
        username: "User 1".to_string(),
        command: "/in".to_string(),
        command_params: "will come".to_string(),
    };

    let result = handle_with(expected, 1, command);
    assert_eq!(
        Some("No roll call in progress.".to_string()),
        result.unwrap()
    );
}

#[test]
fn handle_set_attendance_for_in() {
    let call = create_call();
    let responses = create_responses();

    let expected = Expected::SetResponseFor(
        2,
        "David",
        answer(AttendanceStatus::In, "will come"),
        Ok(Some((call, responses.clone()))),
    );

    let command = ChatCommand {
        chat_id: 2,
        user_id: 1,
        username: "User 1".to_string(),
        command: "/set_in_for".to_string(),
        command_params: "David will come".to_string(),
    };

    let result: String = handle_with(expected, 1, command).unwrap().unwrap();
    assert!(result.contains("David (will come)"));
    assert!(result.contains(&render_responses_full(&responses)));
}

#[test]
fn handle_set_attendance_for_out() {
    let call = create_call();
    let responses = create_responses();

    let expected = Expected::SetResponseFor(
        2,
        "Daniel",
        answer(AttendanceStatus::Out, "won't come"),
        Ok(Some((call, responses.clone()))),
    );

    let command = ChatCommand {
        chat_id: 2,
        user_id: 1,
        username: "User 1".to_string(),
        command: "/set_out_for".to_string(),
        command_params: "Daniel won't come".to_string(),
    };

    let result: String = handle_with(expected, 1, command).unwrap().unwrap();
    assert!(result.contains("Daniel (won't come)"));
    assert!(result.contains(&render_responses_full(&responses)));
}

#[test]
fn handle_set_attendance_for_maybe() {
    let call = create_call();
    let responses = create_responses();

    let expected = Expected::SetResponseFor(
        2,
        "Albert",
        answer(AttendanceStatus::Maybe, "might come"),
        Ok(Some((call, responses.clone()))),
    );

    let command = ChatCommand {
        chat_id: 2,
        user_id: 1,
        username: "User 1".to_string(),
        command: "/set_maybe_for".to_string(),
        command_params: "Albert might come".to_string(),
    };

    let result: String = handle_with(expected, 1, command).unwrap().unwrap();
    assert!(result.contains("Albert (might come)"));
    assert!(result.contains(&render_responses_full(&responses)));
}

#[test]
fn handle_set_attendance_for_empty() {
    let command = ChatCommand {
        chat_id: 2,
        user_id: 1,
        username: "User 1".to_string(),
        command: "/set_maybe_for".to_string(),
        command_params: String::new(),
    };

    let result = handle_with(Expected::Nothing, 0, command);
    assert_eq!(
        Some("Please provide the person's name.".to_string()),
        result.unwrap()
    );
}

#[test]
fn handle_get_all_attendances() {
    let call = create_call();
    let responses = create_responses();

    let expected = Expected::GetCallWithResponses(2, Ok(Some((call, responses.clone()))));

    let command = ChatCommand {
        chat_id: 2,
        user_id: 1,
        username: "User 1".to_string(),
        command: "/whos_in".to_string(),
        command_params: String::new(),
    };

    let result: String = handle_with(expected, 1, command).unwrap().unwrap();
    assert!(result.contains(&render_responses_full(&responses)));
}

#[test]
fn handle_get_all_attendances_no_in_progress() {
    let expected = Expected::GetCallWithResponses(2, Ok(None));

    let command = ChatCommand {
        chat_id: 2,
        user_id: 1,
        username: "User 1".to_string(),
        command: "/whos_in".to_string(),
        command_params: String::new(),
    };

    let result = handle_with(expected, 1, command);
    assert_eq!(
        Some("No roll call in progress.".to_string()),
        result.unwrap()
    );
}

const FULL: &str = "In (2)\n - David (will come)\n - Henry (also will come)\n\nOut (1)\n - Daniel (won't come)\n\nMaybe (1)\n - Albert (might come)";

#[test]
fn replies_in_full() {
    let expected = Expected::UpdateQuiet(2, false, Ok(Some((create_call(), create_responses()))));
    assert_eq!(
        Some(format!("Sure. 😃\n\n{}", FULL)),
        handle_with(expected, 1, chat("User 1", "/louder", "")).unwrap()
    );

    let expected = Expected::SetResponse(
        2,
        1,
        "Henry",
        answer(AttendanceStatus::In, "also will come"),
        Ok(Some((create_call(), create_responses()))),
    );
    assert_eq!(
        Some(format!("Henry is in!\n\n{}", FULL)),
        handle_with(expected, 1, chat("Henry", "/in", "also will come")).unwrap()
    );

    let expected = Expected::GetCallWithResponses(2, Ok(Some((create_call(), create_responses()))));
    assert_eq!(
        Some(format!("call title\n\n{}", FULL)),
        handle_with(expected, 1, chat("User 1", "/whos_in", "")).unwrap()
    );
}

#[test]
fn quiet_call_gets_the_condensed_summary_after_an_answer() {
    let expected = Expected::SetResponseFor(
        2,
        "Daniel",
        answer(AttendanceStatus::Out, ""),
        Ok(Some((create_quiet_call(), create_responses()))),
    );
    assert_eq!(
        Some("Daniel is out!\n\nTotal: 2 in, 1 out, 1 might come.".to_string()),
        handle_with(expected, 1, chat("User 1", "/set_out_for", "Daniel")).unwrap()
    );
}

#[test]
fn who_is_in_is_always_detailed() {
    let expected =
        Expected::GetCallWithResponses(2, Ok(Some((create_quiet_call(), create_responses()))));
    assert_eq!(
        Some(format!("call title\n\n{}", FULL)),
        handle_with(expected, 1, chat("User 1", "/whos_in", "")).unwrap()
    );
}

#[test]
fn available_commands_ask_nothing_of_the_repository() {
    for command in ["/start", "/available_commands"] {
        assert_eq!(
            Some(render_available_commands()),
            handle_with(Expected::Nothing, 0, chat("User 1", command, "")).unwrap()
        );
    }
}

#[test]
fn unknown_command_gets_a_hint() {
    assert_eq!(
        Some("I don't understand that.".to_string()),
        handle_with(Expected::Nothing, 0, chat("User 1", "/dance", "")).unwrap()
    );
}

#[test]
fn failure_of_the_repository_is_handed_on() {
    let failure = || DatabaseError::QueryError("lost".to_string());
    assert_eq!(
        Err(HandleError::Database(failure())),
        handle_with(
            Expected::CreateCall(2, "t", Err(failure())),
            1,
            chat("User 1", "/start_roll_call", "t")
        )
    );
    assert_eq!(
        Err(HandleError::Database(failure())),
        handle_with(
            Expected::EndCall(2, Err(failure())),
            1,
            chat("User 1", "/end_roll_call", "")
        )
    );
    assert_eq!(
        Err(HandleError::Database(failure())),
        handle_with(
            Expected::GetCallWithResponses(2, Err(failure())),
            1,
            chat("User 1", "/whos_in", "")
        )
    );
}

#[test]
fn answer_without_a_valid_user_is_refused() {
    let command = ChatCommand {
        chat_id: 2,
        user_id: 0,
        username: "Nobody".to_string(),
        command: "/in".to_string(),
        command_params: String::new(),
    };
    assert_eq!(
        Err(HandleError::InvalidInput(InvalidInput::UserId)),
        handle_with(Expected::Nothing, 0, command)
    );
}

#[test]
fn answer_for_an_empty_name_is_refused() {
    let calls = Rc::new(Cell::new(0));
    let repo = MockRepository {
        expected: Expected::Nothing,
        calls: calls.clone(),
    };
    let mut bot = WhosInBot::new("token", Box::new(repo));
    let command = Command::UpdateAttendanceFor {
        chat_id: 2,
        username: String::new(),
        status: AttendanceStatus::In,
        reason: String::new(),
    };
    assert_eq!(
        Err(HandleError::InvalidInput(InvalidInput::UserName)),
        bot.handle_command(command)
    );
    assert_eq!(0, calls.get());
    assert_eq!("token", bot.token());
    assert_eq!(
        Ok("Please provide a title.".to_string()),
        bot.handle_parse_error(CommandParseError::MissingTitle)
    );
}

#[test]
fn reply_depends_on_what_was_found() {
    let end = Command::EndRollCall { chat_id: 2 };
    assert_eq!("Roll call ended.", render_reply(&end, true, &None));
    assert_eq!("No roll call in progress.", render_reply(&end, false, &None));
    let shh = Command::UpdateQuiet {
        chat_id: 2,
        quiet: true,
    };
    assert_eq!("No roll call in progress.", render_reply(&shh, true, &None));
    assert_eq!(
        "Ok fine, I'll be quiet. 🤐",
        render_reply(&shh, false, &Some((create_quiet_call(), Vec::new())))
    );
    let louder = Command::UpdateQuiet {
        chat_id: 2,
        quiet: false,
    };
    assert_eq!(
        "Sure. 😃\n\nNo responses yet. 😢",
        render_reply(&louder, false, &Some((create_call(), Vec::new())))
    );
}
