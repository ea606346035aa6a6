use regex::Regex;
use whosinbot::models::AttendanceStatus::{In, Maybe, Out};
use whosinbot::telegram::base_bot::ChatCommand;
use whosinbot::telegram::commands::Command::{
    EndRollCall, GetAllAttendances, ListAvailableCommands, StartRollCall, UpdateAttendanceFor,
    UpdateAttendanceSelf, UpdateQuiet, UpdateTitle,
};
use whosinbot::telegram::commands::{Command, CommandParseError, NameAndReason};

#[test]
fn test_from_start_roll_calll_command() {
    let input = ChatCommand {
        chat_id: 1,
        user_id: 2,
        username: "Peter".to_string(),
        command: "/start_roll_call".to_string(),
        command_params: "some title".to_string(),
    };

    let expected = Ok(StartRollCall {
        chat_id: 1,
        title: "some title".to_string(),
    });

    let actual = Command::from_chat(input);
    assert_eq!(expected, actual);
}

#[test]
fn test_from_end_roll_call_command() {
    let input = ChatCommand {
        chat_id: 1,
        user_id: 2,
        username: "Peter".to_string(),
        command: "/end_roll_call".to_string(),
        command_params: "whatever".to_string(),
    };

    let expected = Ok(EndRollCall { chat_id: 1 });

    let actual = Command::from_chat(input);
    assert_eq!(expected, actual);
}

#[test]
fn test_from_set_title_command() {
    let input = ChatCommand {
        chat_id: 1,
        user_id: 2,
        username: "Peter".to_string(),
        command: "/set_title".to_string(),
        command_params: "new title".to_string(),
    };

    let expected = Ok(UpdateTitle {
        chat_id: 1,
        title: "new title".to_string(),
    });

    let actual = Command::from_chat(input);
    assert_eq!(expected, actual);
}

#[test]
fn test_from_shh_command() {
    let input = ChatCommand {
        chat_id: 1,
        user_id: 2,
        username: "Peter".to_string(),
        command: "/shh".to_string(),
        command_params: "whatever".to_string(),
    };

    let expected = Ok(UpdateQuiet {
        chat_id: 1,
        quiet: true,
    });

    let actual = Command::from_chat(input);
    assert_eq!(expected, actual);
}

#[test]
fn test_from_louder_command() {
    let input = ChatCommand {
        chat_id: 1,
        user_id: 2,
        username: "Peter".to_string(),
        command: "/louder".to_string(),
        command_params: "whatever".to_string(),
    };

    let expected = Ok(UpdateQuiet {
        chat_id: 1,
        quiet: false,
    });

    let actual = Command::from_chat(input);
    assert_eq!(expected, actual);
}

#[test]
fn test_from_self_attendance_command() {
    let input = vec!["/in", "/out", "/maybe"];
    let expected_status = vec![In, Out, Maybe];

    for (i, cmd) in input.into_iter().enumerate() {
        let input = ChatCommand {
            chat_id: 1,
            user_id: 2,
            username: "Peter".to_string(),
            command: cmd.to_string(),
            command_params: "my reason".to_string(),
        };

        let expected = Ok(UpdateAttendanceSelf {
            chat_id: 1,
            user_id: 2,
            username: "Peter".to_string(),
            status: expected_status[i],
            reason: "my reason".to_string(),
        });

        let actual = Command::from_chat(input);
        assert_eq!(expected, actual);
    }
}

#[test]
fn test_from_attendance_for_command() {
    let input = vec!["/set_in_for", "/set_out_for", "/set_maybe_for"];
    let expected_status = vec![In, Out, Maybe];

    for (i, cmd) in input.into_iter().enumerate() {
        let input = ChatCommand {
            chat_id: 1,
            user_id: 2,
            username: "User 1".to_string(),
            command: cmd.to_string(),
            command_params: "Peter some reason".to_string(),
        };

        let expected = Ok(UpdateAttendanceFor {
            chat_id: 1,
            username: "Peter".to_string(),
            status: expected_status[i],
            reason: "some reason".to_string(),
        });

        let actual = Command::from_chat(input);
        assert_eq!(expected, actual);
    }
}

#[test]
fn test_from_whosin_command() {
    let input = ChatCommand {
        chat_id: 1,
        user_id: 2,
        username: "Peter".to_string(),
        command: "/whos_in".to_string(),
        command_params: "whatever".to_string(),
    };

    let expected = Ok(GetAllAttendances { chat_id: 1 });
    let actual = Command::from_chat(input);

    assert_eq!(expected, actual);
}

#[test]
fn test_from_start_command() {
    let input = ChatCommand {
        chat_id: 1,
        user_id: 2,
        username: "Peter".to_string(),
        command: "/start".to_string(),
        command_params: "whatever".to_string(),
    };

    let expected = Ok(ListAvailableCommands);
    let actual = Command::from_chat(input);

    assert_eq!(expected, actual);
}

#[test]
fn test_from_available_command() {
    let input = ChatCommand {
        chat_id: 1,
        user_id: 2,
        username: "Peter".to_string(),
        command: "/available_commands".to_string(),
        command_params: "whatever".to_string(),
    };

    let expected = Ok(ListAvailableCommands);
    let actual = Command::from_chat(input);

    assert_eq!(expected, actual);
}

#[test]
fn test_parse_from_valid_string() {
    let input = "Peter will come";
    let expected = Ok(NameAndReason("Peter".to_string(), "will come".to_string()));
    let actual = input.parse::<NameAndReason>();

    assert_eq!(expected, actual);
}

#[test]
fn test_parse_from_valid_string_without_reason() {
    let input = "Peter  ";
    let expected = Ok(NameAndReason("Peter".to_owned(), "".to_owned()));
    let actual = input.parse::<NameAndReason>();

    assert_eq!(expected, actual);
}

#[test]
fn test_parse_from_invalid_string() {
    let input = "   ";
    let expected = Err(CommandParseError::MissingUsername);
    let actual = input.parse::<NameAndReason>();

    assert_eq!(expected, actual);
}

fn chat(command: &str, params: &str) -> ChatCommand {
    ChatCommand {
        chat_id: 1,
        user_id: 2,
        username: "Peter".to_string(),
        command: command.to_string(),
        command_params: params.to_string(),
    }
}

#[test]
fn set_title_without_title_is_refused() {
    assert_eq!(
        Err(CommandParseError::MissingTitle),
        Command::from_chat(chat("/set_title", ""))
    );
}

#[test]
fn answer_for_nobody_is_refused() {
    for cmd in ["/set_in_for", "/set_out_for", "/set_maybe_for"] {
        assert_eq!(
            Err(CommandParseError::MissingUsername),
            Command::from_chat(chat(cmd, ""))
        );
        assert_eq!(
            Err(CommandParseError::MissingUsername),
            Command::from_chat(chat(cmd, " Peter"))
        );
    }
}

#[test]
fn unknown_command_is_refused_with_its_word() {
    assert_eq!(
        Err(CommandParseError::InvalidCommand("/dance".to_string())),
        Command::from_chat(chat("/dance", "now"))
    );
    assert_eq!(
        Err(CommandParseError::InvalidCommand("/IN".to_string())),
        Command::from_chat(chat("/IN", ""))
    );
}

#[test]
fn parse_errors_in_words() {
    assert_eq!("missing title", CommandParseError::MissingTitle.to_string());
    assert_eq!(
        "missing username",
        CommandParseError::MissingUsername.to_string()
    );
    assert_eq!(
        "Invalid command (/dance)",
        CommandParseError::InvalidCommand("/dance".to_string()).to_string()
    );
}

#[test]
fn empty_text_holds_no_name() {
    assert_eq!(
        Err(CommandParseError::MissingUsername),
        NameAndReason::parse("")
    );
}

#[test]
fn reason_with_line_feed_is_refused() {
    assert_eq!(
        Err(CommandParseError::MissingUsername),
        NameAndReason::parse("Peter will\ncome")
    );
    assert_eq!(
        Ok(NameAndReason("Peter".to_string(), "will come".to_string())),
        NameAndReason::parse("Peter \n will come")
    );
}

fn by_pattern(text: &str) -> Option<(String, String)> {
    let pattern = Regex::new(r"^(\S+)\s*(.*)$").unwrap();
    pattern
        .captures(text)
        .map(|captures| (captures[1].to_owned(), captures[2].to_owned()))
}

#[test]
fn name_and_reason_agree_with_the_pattern() {
    let inputs = [
        "",
        " ",
        "Peter",
        "Peter ",
        "Peter will come",
        "Peter\twill come ",
        "  Peter will come",
        "Peter\n",
        "Peter\nwill come",
        "Peter will\ncome",
        "Peter \n\n will come",
        "Peter will come\n",
        "Peter\u{a0}will come",
        "Peter\u{2003}\u{3000}will",
        "\u{a0}Peter",
        "Пётр придёт",
        "Peter\rwill\r",
        "a b c d",
        "\n",
        "x\u{85}y\u{85}",
    ];
    for input in inputs {
        let expected = by_pattern(input);
        let actual = NameAndReason::parse(input)
            .ok()
            .map(|NameAndReason(name, reason)| (name, reason));
        assert_eq!(expected, actual, "for {:?}", input);
    }
}
