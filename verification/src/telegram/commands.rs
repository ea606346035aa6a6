//! The commands of the bot, and how a typed command becomes one of them.

use super::base_bot::{
    find_line_feed, has_line_feed, run_end, skip_run, ChatCommand, ChatCommandData, Run,
};
use crate::models::roll_call_responses::AttendanceStatus;
use crate::models::type_aliases::{ChatId, UserId};
use crate::util::text::{chars_of, concatenate, str_eq, string_of};
use vstd::prelude::*;
use vstd::string::*;

verus! {

/// What a participant asks the bot to do.
#[derive(Debug, PartialEq, Eq)]
pub enum Command {
    StartRollCall { chat_id: ChatId, title: String },
    EndRollCall { chat_id: ChatId },
    UpdateTitle { chat_id: ChatId, title: String },
    UpdateQuiet { chat_id: ChatId, quiet: bool },
    UpdateAttendanceSelf {
        chat_id: ChatId,
        user_id: UserId,
        username: String,
        status: AttendanceStatus,
        reason: String,
    },
    UpdateAttendanceFor {
        chat_id: ChatId,
        username: String,
        status: AttendanceStatus,
        reason: String,
    },
    GetAllAttendances { chat_id: ChatId },
    ListAvailableCommands,
}

/// What a `Command` holds, with its texts as sequences of characters.
pub enum CommandData {
    StartRollCall { chat_id: ChatId, title: Seq<char> },
    EndRollCall { chat_id: ChatId },
    UpdateTitle { chat_id: ChatId, title: Seq<char> },
    UpdateQuiet { chat_id: ChatId, quiet: bool },
    UpdateAttendanceSelf {
        chat_id: ChatId,
        user_id: UserId,
        username: Seq<char>,
        status: AttendanceStatus,
        reason: Seq<char>,
    },
    UpdateAttendanceFor {
        chat_id: ChatId,
        username: Seq<char>,
        status: AttendanceStatus,
        reason: Seq<char>,
    },
    GetAllAttendances { chat_id: ChatId },
    ListAvailableCommands,
}

impl View for Command {
    type V = CommandData;

    open spec fn view(&self) -> CommandData {
        match *self {
            Command::StartRollCall { chat_id, title } => CommandData::StartRollCall {
                chat_id,
                title: title@,
            },
            Command::EndRollCall { chat_id } => CommandData::EndRollCall { chat_id },
            Command::UpdateTitle { chat_id, title } => CommandData::UpdateTitle {
                chat_id,
                title: title@,
            },
            Command::UpdateQuiet { chat_id, quiet } => CommandData::UpdateQuiet { chat_id, quiet },
            Command::UpdateAttendanceSelf {
                chat_id,
                user_id,
                username,
                status,
                reason,
            } => CommandData::UpdateAttendanceSelf {
                chat_id,
                user_id,
                username: username@,
                status,
                reason: reason@,
            },
            Command::UpdateAttendanceFor {
                chat_id,
                username,
                status,
                reason,
            } => CommandData::UpdateAttendanceFor {
                chat_id,
                username: username@,
                status,
                reason: reason@,
            },
            Command::GetAllAttendances { chat_id } => CommandData::GetAllAttendances { chat_id },
            Command::ListAvailableCommands => CommandData::ListAvailableCommands,
        }
    }
}

/// Why a typed command is none of the bot's commands.
#[derive(Debug, PartialEq, Eq)]
pub enum CommandParseError {
    MissingTitle,
    MissingUsername,
    InvalidCommand(String),
}

/// What a `CommandParseError` holds.
pub enum CommandParseErrorData {
    MissingTitle,
    MissingUsername,
    InvalidCommand(Seq<char>),
}

impl View for CommandParseError {
    type V = CommandParseErrorData;

    open spec fn view(&self) -> CommandParseErrorData {
        match *self {
            CommandParseError::MissingTitle => CommandParseErrorData::MissingTitle,
            CommandParseError::MissingUsername => CommandParseErrorData::MissingUsername,
            CommandParseError::InvalidCommand(command) => CommandParseErrorData::InvalidCommand(
                command@,
            ),
        }
    }
}

impl CommandParseError {
    /// The error in words.
    pub open spec fn message(self) -> Seq<char> {
        match self {
            CommandParseError::MissingTitle => "missing title"@,
            CommandParseError::MissingUsername => "missing username"@,
            CommandParseError::InvalidCommand(command) => "Invalid command ("@ + command@ + ")"@,
        }
    }

    /// The error in words.
    pub fn to_string(&self) -> (text: String)
        ensures
            text@ == self.message(),
    {
        match self {
            CommandParseError::MissingTitle => "missing title".to_owned(),
            CommandParseError::MissingUsername => "missing username".to_owned(),
            CommandParseError::InvalidCommand(command) => {
                let mut text = concatenate("Invalid command (", command.as_str());
                text.append(")");
                text
            },
        }
    }
}

/// A name and the reason that follows it.
#[derive(Debug, PartialEq, Eq)]
pub struct NameAndReason(pub String, pub String);

/// The name and the reason in the parameters of a command given for
/// somebody else: the name is the first word, the reason what follows the
/// white space behind it. There is none where the text starts with white
/// space or is empty, or where the reason would hold a line feed.
pub open spec fn name_and_reason(text: Seq<char>) -> Option<(Seq<char>, Seq<char>)> {
    let name = run_end(text, 0, Run::Word);
    let reason = run_end(text, name, Run::Space);
    if name == 0 || has_line_feed(text, reason) {
        None
    } else {
        Some((text.take(name), text.skip(reason)))
    }
}

impl NameAndReason {
    /// Cuts `text` into a name and a reason.
    pub fn parse(text: &str) -> (parsed: Result<NameAndReason, CommandParseError>)
        ensures
            match parsed {
                Ok(found) => name_and_reason(text@) == Some((found.0@, found.1@)),
                Err(e) => name_and_reason(text@) is None && e == CommandParseError::MissingUsername,
            },
    {
        let chars = chars_of(text);
        let name = skip_run(&chars, 0, Run::Word);
        if name == 0 {
            return Err(CommandParseError::MissingUsername);
        }
        let reason = skip_run(&chars, name, Run::Space);
        if find_line_feed(&chars, reason) {
            return Err(CommandParseError::MissingUsername);
        }
        assert(chars@.take(name as int) == chars@.subrange(0, name as int));
        assert(chars@.skip(reason as int) == chars@.subrange(reason as int, chars.len() as int));
        Ok(NameAndReason(string_of(&chars, 0, name), string_of(&chars, reason, chars.len())))
    }
}

impl std::str::FromStr for NameAndReason {
    type Err = CommandParseError;

    fn from_str(text: &str) -> (parsed: Result<NameAndReason, CommandParseError>)
        ensures
            match parsed {
                Ok(found) => name_and_reason(text@) == Some((found.0@, found.1@)),
                Err(e) => name_and_reason(text@) is None && e == CommandParseError::MissingUsername,
            },
    {
        NameAndReason::parse(text)
    }
}

/// The answer for somebody else that the parameters `params` ask for.
pub open spec fn attendance_for(chat_id: ChatId, params: Seq<char>, status: AttendanceStatus)
    -> Result<CommandData, CommandParseErrorData> {
    match name_and_reason(params) {
        Some((username, reason)) => Ok(
            CommandData::UpdateAttendanceFor { chat_id, username, status, reason },
        ),
        None => Err(CommandParseErrorData::MissingUsername),
    }
}

/// The sender's own answer that a command asks for.
pub open spec fn attendance_self(chat: ChatCommandData, status: AttendanceStatus) -> Result<
    CommandData,
    CommandParseErrorData,
> {
    Ok(
        CommandData::UpdateAttendanceSelf {
            chat_id: chat.chat_id,
            user_id: chat.user_id,
            username: chat.username,
            status,
            reason: chat.command_params,
        },
    )
}

/// The command that a typed command stands for, or why it stands for none.
pub open spec fn command_for(chat: ChatCommandData) -> Result<CommandData, CommandParseErrorData> {
    let chat_id = chat.chat_id;
    let params = chat.command_params;
    if chat.command == "/start_roll_call"@ {
        Ok(CommandData::StartRollCall { chat_id, title: params })
    } else if chat.command == "/end_roll_call"@ {
        Ok(CommandData::EndRollCall { chat_id })
    } else if chat.command == "/set_title"@ {
        if params.len() == 0 {
            Err(CommandParseErrorData::MissingTitle)
        } else {
            Ok(CommandData::UpdateTitle { chat_id, title: params })
        }
    } else if chat.command == "/shh"@ {
        Ok(CommandData::UpdateQuiet { chat_id, quiet: true })
    } else if chat.command == "/louder"@ {
        Ok(CommandData::UpdateQuiet { chat_id, quiet: false })
    } else if chat.command == "/in"@ {
        attendance_self(chat, AttendanceStatus::In)
    } else if chat.command == "/out"@ {
        attendance_self(chat, AttendanceStatus::Out)
    } else if chat.command == "/maybe"@ {
        attendance_self(chat, AttendanceStatus::Maybe)
    } else if chat.command == "/set_in_for"@ {
        attendance_for(chat_id, params, AttendanceStatus::In)
    } else if chat.command == "/set_out_for"@ {
        attendance_for(chat_id, params, AttendanceStatus::Out)
    } else if chat.command == "/set_maybe_for"@ {
        attendance_for(chat_id, params, AttendanceStatus::Maybe)
    } else if chat.command == "/whos_in"@ {
        Ok(CommandData::GetAllAttendances { chat_id })
    } else if chat.command == "/available_commands"@ || chat.command == "/start"@ {
        Ok(CommandData::ListAvailableCommands)
    } else {
        Err(CommandParseErrorData::InvalidCommand(chat.command))
    }
}

/// Whether `parsed` is what `expected` says, variant by variant and text by
/// text.
pub open spec fn parsed_as(
    parsed: Result<Command, CommandParseError>,
    expected: Result<CommandData, CommandParseErrorData>,
) -> bool {
    match parsed {
        Ok(command) => expected == Ok::<CommandData, CommandParseErrorData>(command@),
        Err(e) => expected == Err::<CommandData, CommandParseErrorData>(e@),
    }
}

fn update_attendance_self(chat_command: ChatCommand, status: AttendanceStatus) -> (parsed: Result<
    Command,
    CommandParseError,
>)
    ensures
        parsed_as(parsed, attendance_self(chat_command@, status)),
{
    Ok(
        Command::UpdateAttendanceSelf {
            chat_id: chat_command.chat_id,
            user_id: chat_command.user_id,
            username: chat_command.username,
            status,
            reason: chat_command.command_params,
        },
    )
}

fn update_attendance_for(chat_id: ChatId, params: &str, status: AttendanceStatus) -> (parsed:
    Result<Command, CommandParseError>)
    ensures
        parsed_as(parsed, attendance_for(chat_id, params@, status)),
{
    match NameAndReason::parse(params) {
        Ok(NameAndReason(username, reason)) => Ok(
            Command::UpdateAttendanceFor { chat_id, username, status, reason },
        ),
        Err(e) => Err(e),
    }
}

impl Command {
    /// Reads a typed command. The command word decides; `/set_title` needs a
    /// title, the commands that answer for somebody else need a name, and a
    /// word that is no command is refused with the word quoted.
    pub fn from_chat(chat_command: ChatCommand) -> (parsed: Result<Self, CommandParseError>)
        ensures
            parsed_as(parsed, command_for(chat_command@)),
    {
        let chat_id = chat_command.chat_id;
        let command = chat_command.command.as_str();
        if str_eq(command, "/start_roll_call") {
            Ok(Command::StartRollCall { chat_id, title: chat_command.command_params })
        } else if str_eq(command, "/end_roll_call") {
            Ok(Command::EndRollCall { chat_id })
        } else if str_eq(command, "/set_title") {
            if chat_command.command_params.as_str().is_empty() {
                Err(CommandParseError::MissingTitle)
            } else {
                Ok(Command::UpdateTitle { chat_id, title: chat_command.command_params })
            }
        } else if str_eq(command, "/shh") {
            Ok(Command::UpdateQuiet { chat_id, quiet: true })
        } else if str_eq(command, "/louder") {
            Ok(Command::UpdateQuiet { chat_id, quiet: false })
        } else if str_eq(command, "/in") {
            update_attendance_self(chat_command, AttendanceStatus::In)
        } else if str_eq(command, "/out") {
            update_attendance_self(chat_command, AttendanceStatus::Out)
        } else if str_eq(command, "/maybe") {
            update_attendance_self(chat_command, AttendanceStatus::Maybe)
        } else if str_eq(command, "/set_in_for") {
            update_attendance_for(
                chat_id,
                chat_command.command_params.as_str(),
                AttendanceStatus::In,
            )
        } else if str_eq(command, "/set_out_for") {
            update_attendance_for(
                chat_id,
                chat_command.command_params.as_str(),
                AttendanceStatus::Out,
            )
        } else if str_eq(command, "/set_maybe_for") {
            update_attendance_for(
                chat_id,
                chat_command.command_params.as_str(),
                AttendanceStatus::Maybe,
            )
        } else if str_eq(command, "/whos_in") {
            Ok(Command::GetAllAttendances { chat_id })
        } else if str_eq(command, "/available_commands") || str_eq(command, "/start") {
            Ok(Command::ListAvailableCommands)
        } else {
            Err(CommandParseError::InvalidCommand(chat_command.command))
        }
    }
}

} // verus!
