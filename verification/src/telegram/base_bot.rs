//! Chat messages as the bot sees them, and how a message is read as a
//! command.

use crate::util::text::{chars_of, is_white_space, string_of, white_space};
use vstd::prelude::*;

verus! {

/// A command as a participant typed it: who sent it, in which conversation,
/// the command word and what followed it.
#[derive(Debug, PartialEq, Eq)]
pub struct ChatCommand {
    pub chat_id: i64,
    pub user_id: i64,
    pub username: String,
    pub command: String,
    pub command_params: String,
}

/// What a `ChatCommand` holds, with its texts as sequences of characters.
pub struct ChatCommandData {
    pub chat_id: i64,
    pub user_id: i64,
    pub username: Seq<char>,
    pub command: Seq<char>,
    pub command_params: Seq<char>,
}

impl View for ChatCommand {
    type V = ChatCommandData;

    open spec fn view(&self) -> ChatCommandData {
        ChatCommandData {
            chat_id: self.chat_id,
            user_id: self.user_id,
            username: self.username@,
            command: self.command@,
            command_params: self.command_params@,
        }
    }
}

impl Clone for ChatCommand {
    fn clone(&self) -> (copy: Self)
        ensures
            copy == *self,
    {
        ChatCommand {
            chat_id: self.chat_id,
            user_id: self.user_id,
            username: self.username.clone(),
            command: self.command.clone(),
            command_params: self.command_params.clone(),
        }
    }
}

/// A message of a conversation: where it was posted, who posted it, and its
/// text if it is a text message.
#[derive(Debug)]
pub struct Message {
    pub chat_id: i64,
    pub user_id: i64,
    pub first_name: String,
    pub text: Option<String>,
}

/// The characters that a command word is made of after its slash: anything
/// but `@` and the six ASCII white-space characters.
pub open spec fn is_command_char(c: char) -> bool {
    let n = c as u32;
    c != '@' && !(0x09 <= n <= 0x0D) && n != 0x20
}

/// The three kinds of runs that a command text is cut into.
#[derive(Debug, PartialEq, Eq, Copy, Clone, Structural)]
pub enum Run {
    /// Characters of a command word.
    Command,
    /// Characters that are not white space.
    Word,
    /// White space.
    Space,
}

impl Run {
    /// Whether `c` belongs to a run of this kind.
    pub open spec fn holds(self, c: char) -> bool {
        match self {
            Run::Command => is_command_char(c),
            Run::Word => !is_white_space(c),
            Run::Space => is_white_space(c),
        }
    }

    fn has(self, c: char) -> (inside: bool)
        ensures
            inside == self.holds(c),
    {
        match self {
            Run::Command => {
                let n: u32 = c as u32;
                c != '@' && !(0x09 <= n && n <= 0x0D) && n != 0x20
            },
            Run::Word => !white_space(c),
            Run::Space => white_space(c),
        }
    }
}

/// Where the longest run of the given kind that starts at `from` ends.
pub open spec fn run_end(text: Seq<char>, from: int, run: Run) -> int
    decreases text.len() - from,
{
    if from < 0 || from >= text.len() || !run.holds(text[from]) {
        from
    } else {
        run_end(text, from + 1, run)
    }
}

/// The run from `from` to `run_end` holds only characters of its kind, and
/// the character behind it, if there is one, is of another kind.
pub proof fn lemma_run_end(text: Seq<char>, from: int, run: Run)
    requires
        0 <= from <= text.len(),
    ensures
        from <= run_end(text, from, run) <= text.len(),
        forall|k: int| from <= k < run_end(text, from, run) ==> run.holds(#[trigger] text[k]),
        run_end(text, from, run) < text.len() ==> !run.holds(text[run_end(text, from, run)]),
    decreases text.len() - from,
{
    if from < text.len() && run.holds(text[from]) {
        lemma_run_end(text, from + 1, run);
    }
}

/// Finds the end of the longest run of the given kind that starts at `from`.
pub fn skip_run(text: &Vec<char>, from: usize, run: Run) -> (end: usize)
    requires
        from <= text.len(),
    ensures
        end == run_end(text@, from as int, run),
        from <= end <= text.len(),
{
    let mut end: usize = from;
    while end < text.len() && run.has(text[end])
        invariant
            from <= end <= text.len(),
            run_end(text@, from as int, run) == run_end(text@, end as int, run),
        decreases text.len() - end,
    {
        end += 1;
    }
    end
}

/// Whether a line feed stands at or behind `from`.
pub open spec fn has_line_feed(text: Seq<char>, from: int) -> bool {
    exists|k: int| from <= k < text.len() && text[k] == '\n'
}

/// Looks for a line feed at or behind `from`.
pub fn find_line_feed(text: &Vec<char>, from: usize) -> (found: bool)
    requires
        from <= text.len(),
    ensures
        found == has_line_feed(text@, from as int),
{
    let mut i: usize = from;
    while i < text.len()
        invariant
            from <= i <= text.len(),
            forall|k: int| from <= k < i ==> text@[k] != '\n',
        decreases text.len() - i,
    {
        if text[i] == '\n' {
            return true;
        }
        i += 1;
    }
    false
}

/// Where `text` ends once the white space at its end is cut off, looking no
/// further back than `from`.
pub open spec fn trimmed_end(text: Seq<char>, from: int) -> int
    decreases text.len(),
{
    if text.len() <= from || text.len() == 0 || !is_white_space(text.last()) {
        text.len() as int
    } else {
        trimmed_end(text.drop_last(), from)
    }
}

/// Finds the end of `text` without the white space at its end.
pub fn trim_end(text: &Vec<char>, from: usize) -> (end: usize)
    requires
        from <= text.len(),
    ensures
        end == trimmed_end(text@, from as int),
        from <= end <= text.len(),
{
    let mut end: usize = text.len();
    assert(text@.take(text.len() as int) == text@);
    while end > from && white_space(text[end - 1])
        invariant
            from <= end <= text.len(),
            trimmed_end(text@, from as int) == trimmed_end(text@.take(end as int), from as int),
        decreases end,
    {
        assert(text@.take(end as int).drop_last() == text@.take(end - 1));
        end -= 1;
    }
    end
}

/// The command word and the parameters of a message text, if it is a
/// command: a slash and a word without `@`, then perhaps `@` and the name of
/// the bot addressed, then white space, then the parameters, which hold no
/// line feed and lose the white space at their end.
pub open spec fn command_of(text: Seq<char>) -> Option<(Seq<char>, Seq<char>)> {
    let word = run_end(text, 1, Run::Command);
    let mention = if word < text.len() && text[word] == '@' {
        run_end(text, word + 1, Run::Word)
    } else {
        word
    };
    let params = run_end(text, mention, Run::Space);
    if text.len() == 0 || text[0] != '/' || word < 2 || has_line_feed(text, params) {
        None
    } else {
        Some((text.take(word), text.subrange(params, trimmed_end(text, params))))
    }
}

/// The command that a message holds, if any.
pub open spec fn parsed_message(message: Message) -> Option<ChatCommandData> {
    match message.text {
        Some(text) => match command_of(text@) {
            Some((command, command_params)) => Some(
                ChatCommandData {
                    chat_id: message.chat_id,
                    user_id: message.user_id,
                    username: message.first_name@,
                    command,
                    command_params,
                },
            ),
            None => None,
        },
        None => None,
    }
}

/// Reads a message as a command. A message that is no text, or whose text
/// does not start with a command word, is none.
pub fn parse_message(message: &Message) -> (parsed: Option<ChatCommand>)
    ensures
        match parsed {
            Some(command) => parsed_message(*message) == Some(command@),
            None => parsed_message(*message) is None,
        },
{
    let data = match &message.text {
        Some(data) => data,
        None => {
            return None;
        },
    };
    let text = chars_of(data.as_str());
    if text.len() == 0 || text[0] != '/' {
        return None;
    }
    let word = skip_run(&text, 1, Run::Command);
    if word < 2 {
        return None;
    }
    let mention = if word < text.len() && text[word] == '@' {
        skip_run(&text, word + 1, Run::Word)
    } else {
        word
    };
    let params = skip_run(&text, mention, Run::Space);
    if find_line_feed(&text, params) {
        return None;
    }
    let end = trim_end(&text, params);
    let command = string_of(&text, 0, word);
    let command_params = string_of(&text, params, end);
    assert(text@.take(word as int) == text@.subrange(0, word as int));
    Some(
        ChatCommand {
            chat_id: message.chat_id,
            user_id: message.user_id,
            username: message.first_name.clone(),
            command,
            command_params,
        },
    )
}

/// What is sent back to the conversation for what a handler made of a
/// command: its reply if it has one, and an apology if it failed.
pub open spec fn reply_of<E>(outcome: Result<Option<String>, E>) -> Option<Seq<char>> {
    match outcome {
        Ok(Some(reply)) => Some(reply@),
        Ok(None) => None,
        Err(_) => Some("An error has occurred."@),
    }
}

/// Turns what a handler made of a command into what is sent back.
pub fn reply_for<E>(outcome: Result<Option<String>, E>) -> (reply: Option<String>)
    ensures
        match reply {
            Some(text) => reply_of(outcome) == Some(text@),
            None => reply_of(outcome) is None,
        },
{
    match outcome {
        Ok(Some(reply)) => Some(reply),
        Ok(None) => None,
        Err(_) => Some("An error has occurred.".to_owned()),
    }
}

/// Handles one message: a message that is no command gets no reply; a
/// command is given to `handler`, and what the handler made of it decides
/// the reply.
pub fn handle_message<E, F: Fn(ChatCommand) -> Result<Option<String>, E>>(
    handler: &F,
    message: &Message,
) -> (reply: Option<String>)
    requires
        forall|command: ChatCommand| handler.requires((command,)),
    ensures
        parsed_message(*message) is None ==> reply is None,
        parsed_message(*message) is Some ==> exists|
            command: ChatCommand,
            outcome: Result<Option<String>, E>,
        |
            {
                &&& parsed_message(*message) == Some(command@)
                &&& handler.ensures((command,), outcome)
                &&& match reply {
                    Some(text) => reply_of(outcome) == Some(text@),
                    None => reply_of(outcome) is None,
                }
            },
{
    match parse_message(message) {
        Some(command) => {
            let ghost asked = command;
            let outcome = handler(command);
            let reply = reply_for(outcome);
            assert(handler.ensures((asked,), outcome));
            reply
        },
        None => None,
    }
}

} // verus!
