use regex::Regex;
use whosinbot::telegram::base_bot::{handle_message, parse_message, ChatCommand, Message};

fn build_message(text: &str) -> Message {
    Message {
        chat_id: 123,
        user_id: 12345,
        first_name: "User 1".to_string(),
        text: Some(text.to_string()),
    }
}

#[test]
fn test_parse_valid_command() {
    let message = build_message("/some_command command params ");
    let actual = parse_message(&message);
    let expected = Some(ChatCommand {
        chat_id: 123,
        user_id: 12345,
        username: "User 1".to_string(),
        command: "/some_command".to_string(),
        command_params: "command params".to_string(),
    });

    assert_eq!(expected, actual);
}

#[test]
fn test_parse_valid_command_with_mention() {
    let message = build_message("/some_command@bot command params ");
    let actual = parse_message(&message);
    let expected = Some(ChatCommand {
        chat_id: 123,
        user_id: 12345,
        username: "User 1".to_string(),
        command: "/some_command".to_string(),
        command_params: "command params".to_string(),
    });

    assert_eq!(expected, actual);
}

#[test]
fn test_parse_invalid_commands() {
    assert_eq!(None, parse_message(&build_message("")));
    assert_eq!(None, parse_message(&build_message("  ")));
    assert_eq!(None, parse_message(&build_message("invalid")));
    assert_eq!(
        None,
        parse_message(&build_message("invalid /invalid command params"))
    );
}

#[test]
fn test_handle_message_with_success_result() {
    let message = build_message("/command params");
    let handler = |command: ChatCommand| -> Result<Option<String>, String> {
        Ok(Some(format!(
            "response to {} {} from {} in chat {}",
            command.command, command.command_params, command.user_id, command.chat_id
        )))
    };

    let result = handle_message(&handler, &message);

    assert_eq!(
        Some("response to /command params from 12345 in chat 123".to_string()),
        result
    );
}

#[test]
fn test_handle_message_with_empty_result() {
    let message = build_message("/command params");
    let handler = |_: ChatCommand| -> Result<Option<String>, String> { Ok(None) };

    let result = handle_message(&handler, &message);

    assert_eq!(None, result);
}

#[test]
fn test_handle_message_with_error_result() {
    let message = build_message("/command params");
    let handler =
        |_: ChatCommand| -> Result<Option<String>, String> { Err("mock error".to_string()) };

    let result = handle_message(&handler, &message);

    assert_eq!(Some("An error has occurred.".to_string()), result);
}

#[test]
fn message_without_text_is_no_command() {
    let message = Message {
        chat_id: 123,
        user_id: 12345,
        first_name: "User 1".to_string(),
        text: None,
    };
    assert_eq!(None, parse_message(&message));
    let handler = |_: ChatCommand| -> Result<Option<String>, String> {
        Ok(Some("never".to_string()))
    };
    assert_eq!(None, handle_message(&handler, &message));
}

#[test]
fn message_that_is_no_command_gets_no_reply() {
    let handler = |_: ChatCommand| -> Result<Option<String>, String> {
        Ok(Some("never".to_string()))
    };
    assert_eq!(None, handle_message(&handler, &build_message("hello")));
    assert_eq!(None, handle_message(&handler, &build_message("/")));
}

#[test]
fn clone_of_a_command_is_equal() {
    let command = parse_message(&build_message("/in ok")).unwrap();
    assert_eq!(command, command.clone());
}

fn by_pattern(text: &str) -> Option<(String, String)> {
    let pattern = Regex::new(r"^(/[^@[:space:]]+)(@\S*)?\s*(.*)$").unwrap();
    pattern
        .captures(text)
        .map(|captures| (captures[1].to_owned(), captures[3].trim_end().to_owned()))
}

#[test]
fn commands_agree_with_the_pattern() {
    let inputs = [
        "",
        "/",
        "//",
        "/a",
        "/in",
        "/in ",
        " /in",
        "/in because",
        "/in   because of this  ",
        "/in@bot",
        "/in@bot because",
        "/in@",
        "/in@ because",
        "/@bot",
        "/in@bot@other x",
        "/in\nbecause",
        "/in because\nof this",
        "/in \n because",
        "/in because\n",
        "/in@bot\nx",
        "/in\u{a0}x y",
        "/in\u{a0}",
        "/in\u{a0}\nx",
        "/in\u{2003}x\u{2003}",
        "/in\tx\t",
        "/in@bot\u{a0}x",
        "/in@b\u{a0}t x",
        "/set_in_for Peter will come",
        "/кто тут",
        "/in x\r",
        "/in\r\nx",
        "/in x\u{85}",
        "/a@b c@d",
    ];
    for input in inputs {
        let expected = by_pattern(input);
        let actual = parse_message(&build_message(input))
            .map(|command| (command.command, command.command_params));
        assert_eq!(expected, actual, "for {:?}", input);
    }
}
