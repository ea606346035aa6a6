//! The texts that the bot shows: announcements and summaries of responses.

use crate::models::roll_call_responses::{
    responses_data, AttendanceStatus, ResponseData, RollCallResponse,
};
use crate::models::roll_calls::RollCallData;
use crate::models::type_aliases::CallWithResponses;
use crate::util::sequences::lemma_filter_next;
use crate::util::sorting::{lemma_sorted_by_time, sort_by_time, sorted_by_time};
use crate::util::text::{concatenate, decimal, decimal_string, join, joined, texts};
use vstd::prelude::*;
use vstd::string::*;

verus! {

/// The names of the commands, in the order in which the help lists them.
pub open spec fn command_names() -> Seq<Seq<char>> {
    seq![
        "start_roll_call"@,
        "end_roll_call"@,
        "set_title"@,
        "shh"@,
        "louder"@,
        "in"@,
        "out"@,
        "maybe"@,
        "set_in_for"@,
        "set_out_for"@,
        "set_maybe_for"@,
        "whos_in"@,
        "available_commands"@,
    ]
}

/// The help line of one command.
pub open spec fn command_line(name: Seq<char>) -> Seq<char> {
    " 🍺 /"@ + name
}

/// The help text: a heading, then one line for each command.
pub open spec fn available_commands() -> Seq<char> {
    "Available commands:\n"@ + joined(
        command_names().map_values(|name: Seq<char>| command_line(name)),
        "\n"@,
    )
}

/// The help text that lists every command.
pub fn render_available_commands() -> (text: String)
    ensures
        text@ == available_commands(),
{
    let cmds: Vec<&str> = vec![
        "start_roll_call",
        "end_roll_call",
        "set_title",
        "shh",
        "louder",
        "in",
        "out",
        "maybe",
        "set_in_for",
        "set_out_for",
        "set_maybe_for",
        "whos_in",
        "available_commands",
    ];
    let ghost names = command_names();
    assert(cmds@.len() == names.len());
    assert(forall|k: int| 0 <= k < cmds@.len() ==> (#[trigger] cmds@[k])@ == names[k]);
    let mut lines: Vec<String> = Vec::new();
    let mut i: usize = 0;
    while i < cmds.len()
        invariant
            i <= cmds.len(),
            cmds@.len() == names.len(),
            forall|k: int| 0 <= k < cmds@.len() ==> (#[trigger] cmds@[k])@ == names[k],
            lines@.len() == i,
            forall|k: int| 0 <= k < i ==> (#[trigger] lines@[k])@ == command_line(names[k]),
        decreases cmds.len() - i,
    {
        lines.push(concatenate(" 🍺 /", cmds[i]));
        i += 1;
    }
    let list = join(&lines, "\n");
    assert(texts(lines@) == names.map_values(|name: Seq<char>| command_line(name)));
    concatenate("Available commands:\n", list.as_str())
}

/// What is announced when `username` has answered with `status`.
pub open spec fn announcement(username: Seq<char>, status: AttendanceStatus) -> Seq<char> {
    match status {
        AttendanceStatus::In => username + " is in!"@,
        AttendanceStatus::Out => username + " is out!"@,
        AttendanceStatus::Maybe => username + " might come!"@,
    }
}

/// The announcement of an answer.
pub fn render_announcement(username: &str, status: AttendanceStatus) -> (text: String)
    ensures
        text@ == announcement(username@, status),
{
    match status {
        AttendanceStatus::In => concatenate(username, " is in!"),
        AttendanceStatus::Out => concatenate(username, " is out!"),
        AttendanceStatus::Maybe => concatenate(username, " might come!"),
    }
}

/// The test for a given status.
pub open spec fn has_status(status: AttendanceStatus) -> spec_fn(ResponseData) -> bool {
    |response: ResponseData| response.status == status
}

/// The responses with the given status, in the order of the list.
pub open spec fn with_status(responses: Seq<ResponseData>, status: AttendanceStatus) -> Seq<
    ResponseData,
> {
    responses.filter(has_status(status))
}

/// How many responses there are of each status.
#[derive(Debug, PartialEq, Eq, Copy, Clone, Structural)]
pub struct StatusCounts {
    pub in_count: usize,
    pub out_count: usize,
    pub maybe_count: usize,
}

/// The responses of a list by status, each group in the order of the list.
#[derive(Debug)]
pub struct StatusGroups {
    pub in_responses: Vec<RollCallResponse>,
    pub out_responses: Vec<RollCallResponse>,
    pub maybe_responses: Vec<RollCallResponse>,
}

/// The three groups hold every response of the list, each exactly once.
pub proof fn lemma_groups_are_total(responses: Seq<ResponseData>)
    ensures
        with_status(responses, AttendanceStatus::In).len() + with_status(
            responses,
            AttendanceStatus::Out,
        ).len() + with_status(responses, AttendanceStatus::Maybe).len() == responses.len(),
        with_status(responses, AttendanceStatus::In).to_multiset().add(
            with_status(responses, AttendanceStatus::Out).to_multiset(),
        ).add(with_status(responses, AttendanceStatus::Maybe).to_multiset())
            == responses.to_multiset(),
    decreases responses.len(),
{
    broadcast use vstd::seq_lib::group_to_multiset_ensures;

    reveal(Seq::filter);
    if responses.len() == 0 {
        assert(responses == Seq::<ResponseData>::empty());
    } else {
        let rest = responses.drop_last();
        lemma_groups_are_total(rest);
        assert(responses == rest.push(responses.last()));
        let a = with_status(rest, AttendanceStatus::In).to_multiset();
        let b = with_status(rest, AttendanceStatus::Out).to_multiset();
        let c = with_status(rest, AttendanceStatus::Maybe).to_multiset();
        let last = responses.last();
        assert(a.insert(last).add(b).add(c) == a.add(b).add(c).insert(last));
        assert(a.add(b.insert(last)).add(c) == a.add(b).add(c).insert(last));
        assert(a.add(b).add(c.insert(last)) == a.add(b).add(c).insert(last));
    }
}

fn group(responses: &[RollCallResponse], status: AttendanceStatus) -> (kept: Vec<RollCallResponse>)
    ensures
        responses_data(kept@) == with_status(responses_data(responses@), status),
{
    let mut kept: Vec<RollCallResponse> = Vec::new();
    let mut i: usize = 0;
    while i < responses.len()
        invariant
            i <= responses.len(),
            responses_data(kept@) == with_status(
                responses_data(responses@).take(i as int),
                status,
            ),
        decreases responses.len() - i,
    {
        proof {
            lemma_filter_next(responses_data(responses@), i as int, has_status(status));
        }
        if responses[i].status == status {
            let response = responses[i].clone();
            assert(responses_data(kept@.push(response)) == responses_data(kept@).push(
                response@,
            ));
            kept.push(response);
        }
        i += 1;
    }
    proof {
        assert(responses_data(responses@).take(responses.len() as int) == responses_data(
            responses@,
        ));
    }
    kept
}

/// Groups responses by status. Each group keeps the order of the list, and
/// each response is in the group of its status.
pub fn group_by_status(responses: &[RollCallResponse]) -> (groups: StatusGroups)
    ensures
        responses_data(groups.in_responses@) == with_status(
            responses_data(responses@),
            AttendanceStatus::In,
        ),
        responses_data(groups.out_responses@) == with_status(
            responses_data(responses@),
            AttendanceStatus::Out,
        ),
        responses_data(groups.maybe_responses@) == with_status(
            responses_data(responses@),
            AttendanceStatus::Maybe,
        ),
{
    StatusGroups {
        in_responses: group(responses, AttendanceStatus::In),
        out_responses: group(responses, AttendanceStatus::Out),
        maybe_responses: group(responses, AttendanceStatus::Maybe),
    }
}

/// Counts the responses of each status.
pub fn short_summary(responses: &[RollCallResponse]) -> (counts: StatusCounts)
    ensures
        counts.in_count == with_status(responses_data(responses@), AttendanceStatus::In).len(),
        counts.out_count == with_status(responses_data(responses@), AttendanceStatus::Out).len(),
        counts.maybe_count == with_status(
            responses_data(responses@),
            AttendanceStatus::Maybe,
        ).len(),
{
    let groups = group_by_status(responses);
    StatusCounts {
        in_count: groups.in_responses.len(),
        out_count: groups.out_responses.len(),
        maybe_count: groups.maybe_responses.len(),
    }
}

/// The one-line summary for the given counts.
pub open spec fn short_text(in_count: nat, out_count: nat, maybe_count: nat) -> Seq<char> {
    "Total: "@ + decimal(in_count) + " in, "@ + decimal(out_count) + " out, "@ + decimal(
        maybe_count,
    ) + " might come."@
}

/// The condensed summary of a list of responses: how many of each status.
pub open spec fn short_summary_text(responses: Seq<ResponseData>) -> Seq<char> {
    short_text(
        with_status(responses, AttendanceStatus::In).len(),
        with_status(responses, AttendanceStatus::Out).len(),
        with_status(responses, AttendanceStatus::Maybe).len(),
    )
}

/// The condensed summary: one line with the number of responses of each
/// status.
pub fn render_responses_short(responses: &[RollCallResponse]) -> (text: String)
    ensures
        text@ == short_summary_text(responses_data(responses@)),
{
    let counts = short_summary(responses);
    let mut text = "Total: ".to_owned();
    text.append(decimal_string(counts.in_count as u64).as_str());
    text.append(" in, ");
    text.append(decimal_string(counts.out_count as u64).as_str());
    text.append(" out, ");
    text.append(decimal_string(counts.maybe_count as u64).as_str());
    text.append(" might come.");
    text
}

/// The line of one response: the name and, where there is one, the reason.
pub open spec fn response_line(response: ResponseData) -> Seq<char> {
    let name = match response.user_name {
        Some(name) => name,
        None => Seq::empty(),
    };
    match response.reason {
        Some(reason) => if reason.len() > 0 {
            " - "@ + name + " ("@ + reason + ")"@
        } else {
            " - "@ + name
        },
        None => " - "@ + name,
    }
}

/// The heading of a section.
pub open spec fn status_line(status: AttendanceStatus, count: nat) -> Seq<char> {
    match status {
        AttendanceStatus::In => "In ("@ + decimal(count) + ")"@,
        AttendanceStatus::Out => "Out ("@ + decimal(count) + ")"@,
        AttendanceStatus::Maybe => "Maybe ("@ + decimal(count) + ")"@,
    }
}

/// The responses of a status, first answer first.
pub open spec fn section_responses(responses: Seq<ResponseData>, status: AttendanceStatus) -> Seq<
    ResponseData,
> {
    sorted_by_time(with_status(responses, status), false)
}

/// The section of a status: its heading, then one line for each response.
pub open spec fn section(responses: Seq<ResponseData>, status: AttendanceStatus) -> Seq<char> {
    let members = section_responses(responses, status);
    status_line(status, members.len()) + "\n"@ + joined(
        members.map_values(|response: ResponseData| response_line(response)),
        "\n"@,
    )
}

/// The section of a status if any response has it, else nothing.
pub open spec fn section_if_any(responses: Seq<ResponseData>, status: AttendanceStatus) -> Seq<
    Seq<char>,
> {
    if with_status(responses, status).len() > 0 {
        seq![section(responses, status)]
    } else {
        Seq::empty()
    }
}

/// The sections for In, Out and Maybe, in that order, without the empty
/// ones.
pub open spec fn sections(responses: Seq<ResponseData>) -> Seq<Seq<char>> {
    section_if_any(responses, AttendanceStatus::In) + section_if_any(
        responses,
        AttendanceStatus::Out,
    ) + section_if_any(responses, AttendanceStatus::Maybe)
}

/// The detailed summary of a list of responses.
pub open spec fn full_summary_text(responses: Seq<ResponseData>) -> Seq<char> {
    if sections(responses).len() == 0 {
        "No responses yet. 😢"@
    } else {
        joined(sections(responses), "\n\n"@)
    }
}

fn get_response_line(response: &RollCallResponse) -> (line: String)
    ensures
        line@ == response_line(response@),
{
    let mut line = " - ".to_owned();
    match &response.user_name {
        Some(name) => {
            line.append(name.as_str());
        },
        None => {
            assert(line@ + Seq::<char>::empty() == line@);
        },
    }
    match &response.reason {
        Some(reason) => {
            if !reason.as_str().is_empty() {
                line.append(" (");
                line.append(reason.as_str());
                line.append(")");
            }
        },
        None => {},
    }
    line
}

fn get_status_line(status: AttendanceStatus, count: usize) -> (line: String)
    ensures
        line@ == status_line(status, count as nat),
{
    let mut line = match status {
        AttendanceStatus::In => "In (".to_owned(),
        AttendanceStatus::Out => "Out (".to_owned(),
        AttendanceStatus::Maybe => "Maybe (".to_owned(),
    };
    line.append(decimal_string(count as u64).as_str());
    line.append(")");
    line
}

fn render_section(members: &Vec<RollCallResponse>, status: AttendanceStatus) -> (text: String)
    ensures
        text@ == status_line(status, members@.len()) + "\n"@ + joined(
            responses_data(members@).map_values(|response: ResponseData| response_line(response)),
            "\n"@,
        ),
{
    let mut lines: Vec<String> = Vec::new();
    let mut i: usize = 0;
    while i < members.len()
        invariant
            i <= members.len(),
            lines@.len() == i,
            forall|k: int| 0 <= k < i ==> (#[trigger] lines@[k])@ == response_line(members@[k]@),
        decreases members.len() - i,
    {
        lines.push(get_response_line(&members[i]));
        i += 1;
    }
    assert(texts(lines@) == responses_data(members@).map_values(
        |response: ResponseData| response_line(response),
    ));
    let mut text = get_status_line(status, members.len());
    text.append("\n");
    text.append(join(&lines, "\n").as_str());
    text
}

/// Adds the section of a status to `result` if any response has the status.
fn add_section(result: &mut Vec<String>, responses: &[RollCallResponse], status: AttendanceStatus)
    ensures
        texts(final(result)@) == texts(old(result)@) + section_if_any(
            responses_data(responses@),
            status,
        ),
{
    let ghost data = responses_data(responses@);
    let members = group(responses, status);
    if members.len() > 0 {
        let members = sort_by_time(&members, false);
        proof {
            lemma_sorted_by_time(with_status(data, status), false);
        }
        let text = render_section(&members, status);
        assert(texts(result@.push(text)) == texts(result@) + seq![text@]);
        result.push(text);
    } else {
        assert(texts(result@) + Seq::<Seq<char>>::empty() == texts(result@));
    }
}

/// The detailed summary: a section for each status that has responses, in
/// the order In, Out, Maybe, each listing its responses from the first
/// answer to the last; or a line that says so where nobody has answered.
pub fn render_responses_full(responses: &[RollCallResponse]) -> (text: String)
    ensures
        text@ == full_summary_text(responses_data(responses@)),
{
    let mut result: Vec<String> = Vec::new();
    assert(Seq::<Seq<char>>::empty() + section_if_any(
        responses_data(responses@),
        AttendanceStatus::In,
    ) == section_if_any(responses_data(responses@), AttendanceStatus::In));
    add_section(&mut result, responses, AttendanceStatus::In);
    add_section(&mut result, responses, AttendanceStatus::Out);
    add_section(&mut result, responses, AttendanceStatus::Maybe);
    if result.len() == 0 {
        return "No responses yet. 😢".to_owned();
    }
    join(&result, "\n\n")
}

/// The summary that a roll call asks for: condensed where the call is
/// quiet, detailed where it is not.
pub open spec fn summary_text(call: RollCallData, responses: Seq<ResponseData>) -> Seq<char> {
    if call.quiet {
        short_summary_text(responses)
    } else {
        full_summary_text(responses)
    }
}

/// The summary of a roll call's responses: condensed for a quiet call,
/// detailed for any other.
pub fn render_responses(call_with_responses: &CallWithResponses) -> (text: String)
    ensures
        text@ == summary_text(call_with_responses.0@, responses_data(call_with_responses.1@)),
{
    if call_with_responses.0.quiet {
        render_responses_short(call_with_responses.1.as_slice())
    } else {
        render_responses_full(call_with_responses.1.as_slice())
    }
}

} // verus!
