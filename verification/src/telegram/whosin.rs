//! The bot: what it does for each command and what it says back.

use super::base_bot::ChatCommand;
use super::commands::{command_for, Command, CommandData, CommandParseError, CommandParseErrorData};
use super::views::{
    announcement, available_commands, full_summary_text, render_announcement,
    render_available_commands, render_responses, render_responses_full, summary_text,
};
use crate::db::repo::{DatabaseError, Repository};
use crate::models::roll_call_responses::{
    responses_data, Attendance, AttendanceStatus, InvalidInput, ResponseData,
};
use crate::models::roll_calls::RollCallData;
use crate::models::type_aliases::CallWithResponses;
use crate::util::text::concatenate;
use vstd::prelude::*;
use vstd::string::*;

verus! {

/// Why a command could not be handled.
#[derive(Debug, PartialEq, Eq)]
pub enum HandleError {
    /// The command names nobody whose answer could be recorded.
    InvalidInput(InvalidInput),
    /// The repository failed.
    Database(DatabaseError),
}

/// What a call with its responses holds, if there is one.
pub open spec fn snapshot_data(found: Option<CallWithResponses>) -> Option<
    (RollCallData, Seq<ResponseData>),
> {
    match found {
        Some(found) => Some((found.0@, responses_data(found.1@))),
        None => None,
    }
}

/// What the bot says where a conversation has no open call.
pub open spec fn no_call_reply() -> Seq<char> {
    "No roll call in progress."@
}

/// What the bot says after a call was looked for and, if found, changed.
pub open spec fn changed_reply(found: bool, done: Seq<char>) -> Seq<char> {
    if found {
        done
    } else {
        no_call_reply()
    }
}

/// What the bot says after the summaries were switched to condensed or
/// back to detailed: back to detailed, it shows the summary at once.
pub open spec fn quiet_reply(quiet: bool, found: Option<(RollCallData, Seq<ResponseData>)>) -> Seq<
    char,
> {
    match found {
        Some((call, responses)) => if quiet {
            "Ok fine, I'll be quiet. 🤐"@
        } else {
            "Sure. 😃\n\n"@ + summary_text(call, responses)
        },
        None => no_call_reply(),
    }
}

/// What the bot says after an answer was recorded: the announcement, then
/// the summary that the call asks for.
pub open spec fn attendance_reply(
    username: Seq<char>,
    status: AttendanceStatus,
    found: Option<(RollCallData, Seq<ResponseData>)>,
) -> Seq<char> {
    match found {
        Some((call, responses)) => announcement(username, status) + "\n\n"@ + summary_text(
            call,
            responses,
        ),
        None => no_call_reply(),
    }
}

/// What the bot says when asked who is in: the title of the call, then the
/// detailed summary, whether the call is quiet or not.
pub open spec fn attendances_reply(found: Option<(RollCallData, Seq<ResponseData>)>) -> Seq<char> {
    match found {
        Some((call, responses)) => call.title + "\n\n"@ + full_summary_text(responses),
        None => no_call_reply(),
    }
}

/// What the bot says to a command, given what the repository found: whether
/// there was an open call to change, and the call with its responses where
/// the command reads them.
pub open spec fn reply_to(
    command: CommandData,
    call_found: bool,
    found: Option<(RollCallData, Seq<ResponseData>)>,
) -> Seq<char> {
    match command {
        CommandData::StartRollCall { .. } => "Roll call started."@,
        CommandData::EndRollCall { .. } => changed_reply(call_found, "Roll call ended."@),
        CommandData::UpdateTitle { .. } => changed_reply(call_found, "Roll call title set."@),
        CommandData::UpdateQuiet { quiet, .. } => quiet_reply(quiet, found),
        CommandData::UpdateAttendanceSelf { username, status, .. } => attendance_reply(
            username,
            status,
            found,
        ),
        CommandData::UpdateAttendanceFor { username, status, .. } => attendance_reply(
            username,
            status,
            found,
        ),
        CommandData::GetAllAttendances { .. } => attendances_reply(found),
        CommandData::ListAvailableCommands => available_commands(),
    }
}

/// What the bot says to a typed command that is none of its commands.
pub open spec fn parse_error_reply(error: CommandParseErrorData) -> Seq<char> {
    match error {
        CommandParseErrorData::MissingTitle => "Please provide a title."@,
        CommandParseErrorData::MissingUsername => "Please provide the person's name."@,
        CommandParseErrorData::InvalidCommand(_) => "I don't understand that."@,
    }
}

/// Why the answer that a command carries cannot be recorded, if it cannot:
/// a user's own answer needs a positive user identifier, an answer for
/// somebody else needs a name.
pub open spec fn invalid_input(command: CommandData) -> Option<InvalidInput> {
    match command {
        CommandData::UpdateAttendanceSelf { user_id, .. } => if user_id > 0 {
            None
        } else {
            Some(InvalidInput::UserId)
        },
        CommandData::UpdateAttendanceFor { username, .. } => if username.len() > 0 {
            None
        } else {
            Some(InvalidInput::UserName)
        },
        _ => None,
    }
}

fn changed(found: bool, done: &str) -> (text: String)
    ensures
        text@ == changed_reply(found, done@),
{
    if found {
        done.to_owned()
    } else {
        "No roll call in progress.".to_owned()
    }
}

fn quiet_changed(quiet: bool, found: &Option<CallWithResponses>) -> (text: String)
    ensures
        text@ == quiet_reply(quiet, snapshot_data(*found)),
{
    match found {
        None => "No roll call in progress.".to_owned(),
        Some(call_with_responses) => {
            if quiet {
                "Ok fine, I'll be quiet. 🤐".to_owned()
            } else {
                concatenate("Sure. 😃\n\n", render_responses(call_with_responses).as_str())
            }
        },
    }
}

fn attendance_set(
    username: &str,
    status: AttendanceStatus,
    found: &Option<CallWithResponses>,
) -> (text: String)
    ensures
        text@ == attendance_reply(username@, status, snapshot_data(*found)),
{
    match found {
        None => "No roll call in progress.".to_owned(),
        Some(call_with_responses) => {
            let mut text = render_announcement(username, status);
            text.append("\n\n");
            text.append(render_responses(call_with_responses).as_str());
            text
        },
    }
}

fn attendances(found: &Option<CallWithResponses>) -> (text: String)
    ensures
        text@ == attendances_reply(snapshot_data(*found)),
{
    match found {
        None => "No roll call in progress.".to_owned(),
        Some(call_with_responses) => {
            let mut text = call_with_responses.0.title.clone();
            text.append("\n\n");
            text.append(render_responses_full(call_with_responses.1.as_slice()).as_str());
            text
        },
    }
}

/// The reply to a command, given what the repository found for it.
pub fn render_reply(
    command: &Command,
    call_found: bool,
    found: &Option<CallWithResponses>,
) -> (text: String)
    ensures
        text@ == reply_to(command@, call_found, snapshot_data(*found)),
{
    match command {
        Command::StartRollCall { .. } => "Roll call started.".to_owned(),
        Command::EndRollCall { .. } => changed(call_found, "Roll call ended."),
        Command::UpdateTitle { .. } => changed(call_found, "Roll call title set."),
        Command::UpdateQuiet { quiet, .. } => quiet_changed(*quiet, found),
        Command::UpdateAttendanceSelf { username, status, .. } => attendance_set(
            username.as_str(),
            *status,
            found,
        ),
        Command::UpdateAttendanceFor { username, status, .. } => attendance_set(
            username.as_str(),
            *status,
            found,
        ),
        Command::GetAllAttendances { .. } => attendances(found),
        Command::ListAvailableCommands => render_available_commands(),
    }
}

/// Whether `result` is what handling `command` may give: an error where
/// the command names nobody to answer for; else the reply to what the
/// repository found, or the repository's failure.
pub open spec fn handled(command: CommandData, result: Result<String, HandleError>) -> bool {
    match result {
        Ok(text) => {
            &&& invalid_input(command) is None
            &&& exists|call_found: bool, found: Option<(RollCallData, Seq<ResponseData>)>|
                text@ == #[trigger] reply_to(command, call_found, found)
        },
        Err(HandleError::InvalidInput(e)) => invalid_input(command) == Some(e),
        Err(HandleError::Database(_)) => invalid_input(command) is None,
    }
}

/// The bot of one chat account, with the repository it keeps its roll calls
/// in.
pub struct WhosInBot<'a> {
    token: &'a str,
    repository: Box<dyn Repository>,
}

impl<'a> WhosInBot<'a> {
    /// The token of the chat account.
    pub closed spec fn spec_token(&self) -> &'a str {
        self.token
    }

    pub fn new(token: &'a str, repository: Box<dyn Repository>) -> (bot: WhosInBot<'a>)
        ensures
            bot.spec_token() == token,
    {
        WhosInBot { token, repository }
    }

    /// The token of the chat account.
    pub fn token(&self) -> (token: &'a str)
        ensures
            token == self.spec_token(),
    {
        self.token
    }

    /// Handles a typed command: a command of the bot is carried out and
    /// answered, anything else is answered with a hint.
    pub fn handle(&mut self, chat_command: ChatCommand) -> (result: Result<
        Option<String>,
        HandleError,
    >)
        ensures
            final(self).spec_token() == old(self).spec_token(),
            match command_for(chat_command@) {
                Ok(command) => match result {
                    Ok(Some(text)) => handled(command, Ok(text)),
                    Ok(None) => false,
                    Err(e) => handled(command, Err(e)),
                },
                Err(e) => result matches Ok(Some(text)) && text@ == parse_error_reply(e),
            },
    {
        match Command::from_chat(chat_command) {
            Ok(command) => match self.handle_command(command) {
                Ok(text) => Ok(Some(text)),
                Err(e) => Err(e),
            },
            Err(parse_error) => match self.handle_parse_error(parse_error) {
                Ok(text) => Ok(Some(text)),
                Err(e) => Err(e),
            },
        }
    }

    /// Carries a command out on the repository and answers it.
    pub fn handle_command(&mut self, command: Command) -> (result: Result<String, HandleError>)
        ensures
            final(self).spec_token() == old(self).spec_token(),
            handled(command@, result),
    {
        let mut call_found = false;
        let mut found: Option<CallWithResponses> = None;
        match &command {
            Command::StartRollCall { chat_id, title } => {
                match self.repository.create_call(*chat_id, title.as_str()) {
                    Ok(_) => {},
                    Err(e) => {
                        return Err(HandleError::Database(e));
                    },
                }
            },
            Command::EndRollCall { chat_id } => {
                match self.repository.end_call(*chat_id) {
                    Ok(call) => {
                        call_found = call.is_some();
                    },
                    Err(e) => {
                        return Err(HandleError::Database(e));
                    },
                }
            },
            Command::UpdateTitle { chat_id, title } => {
                match self.repository.update_title(*chat_id, title.as_str()) {
                    Ok(call) => {
                        call_found = call.is_some();
                    },
                    Err(e) => {
                        return Err(HandleError::Database(e));
                    },
                }
            },
            Command::UpdateQuiet { chat_id, quiet } => {
                match self.repository.update_quiet(*chat_id, *quiet) {
                    Ok(call_with_responses) => {
                        found = call_with_responses;
                    },
                    Err(e) => {
                        return Err(HandleError::Database(e));
                    },
                }
            },
            Command::UpdateAttendanceSelf { chat_id, user_id, username, status, reason } => {
                if *user_id <= 0 {
                    return Err(HandleError::InvalidInput(InvalidInput::UserId));
                }
                let attendance = Attendance::new(*status, reason.clone());
                match self.repository.set_response(
                    *chat_id,
                    *user_id,
                    username.as_str(),
                    &attendance,
                ) {
                    Ok(call_with_responses) => {
                        found = call_with_responses;
                    },
                    Err(e) => {
                        return Err(HandleError::Database(e));
                    },
                }
            },
            Command::UpdateAttendanceFor { chat_id, username, status, reason } => {
                if username.as_str().is_empty() {
                    return Err(HandleError::InvalidInput(InvalidInput::UserName));
                }
                let attendance = Attendance::new(*status, reason.clone());
                match self.repository.set_response_for(*chat_id, username.as_str(), &attendance) {
                    Ok(call_with_responses) => {
                        found = call_with_responses;
                    },
                    Err(e) => {
                        return Err(HandleError::Database(e));
                    },
                }
            },
            Command::GetAllAttendances { chat_id } => {
                match self.repository.get_call_with_responses(*chat_id) {
                    Ok(call_with_responses) => {
                        found = call_with_responses;
                    },
                    Err(e) => {
                        return Err(HandleError::Database(e));
                    },
                }
            },
            Command::ListAvailableCommands => {},
        }
        let text = render_reply(&command, call_found, &found);
        assert(text@ == reply_to(command@, call_found, snapshot_data(found)));
        Ok(text)
    }

    /// Answers a typed command that is none of the bot's commands.
    pub fn handle_parse_error(&self, parse_error: CommandParseError) -> (result: Result<
        String,
        HandleError,
    >)
        ensures
            result matches Ok(text) && text@ == parse_error_reply(parse_error@),
    {
        let response = match parse_error {
            CommandParseError::MissingTitle => "Please provide a title.",
            CommandParseError::MissingUsername => "Please provide the person's name.",
            CommandParseError::InvalidCommand(_command) => "I don't understand that.",
        };
        Ok(response.to_owned())
    }
}

} // verus!
