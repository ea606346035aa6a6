//! The two tables of the store as mathematical sequences of rows, and what
//! each statement makes of them.

use crate::models::roll_call_responses::ResponseData;
use crate::models::roll_calls::{CallStatus, RollCallData, UpdateRollCall};
use crate::models::type_aliases::{CallId, ChatId, ResponseId, Timestamp};
use crate::util::sorting::sorted_by_time;
use vstd::prelude::*;

verus! {

/// How many closed roll calls a conversation keeps.
pub const RETENTION_LIMIT: usize = 10;

/// The rows of the store and the identifiers that the next rows get.
pub struct TablesData {
    pub calls: Seq<RollCallData>,
    pub responses: Seq<ResponseData>,
    pub next_call_id: CallId,
    pub next_response_id: ResponseId,
}

/// The store without any row.
pub open spec fn empty_tables() -> TablesData {
    TablesData {
        calls: Seq::empty(),
        responses: Seq::empty(),
        next_call_id: 1,
        next_response_id: 1,
    }
}

/// Whether a call with the identifier `id` is stored.
pub open spec fn has_call(calls: Seq<RollCallData>, id: CallId) -> bool {
    exists|i: int| 0 <= i < calls.len() && (#[trigger] calls[i]).id == id
}

/// Whether two responses are filed under the same call and token.
pub open spec fn same_key(a: ResponseData, b: ResponseData) -> bool {
    a.roll_call_id == b.roll_call_id && a.unique_token == b.unique_token
}

/// What holds of the rows of every store: no identifier is stored twice,
/// the identifiers that the next rows get are greater than all that are
/// stored, a call holds at most one response for each token, and every
/// response belongs to a stored call.
pub open spec fn well_formed(tables: TablesData) -> bool {
    &&& forall|i: int|
        0 <= i < tables.calls.len() ==> (#[trigger] tables.calls[i]).id < tables.next_call_id
    &&& forall|i: int, j: int|
        0 <= i < j < tables.calls.len() ==> (#[trigger] tables.calls[i]).id != (
        #[trigger] tables.calls[j]).id
    &&& forall|i: int|
        0 <= i < tables.responses.len() ==> (#[trigger] tables.responses[i]).id
            < tables.next_response_id
    &&& forall|i: int, j: int|
        0 <= i < j < tables.responses.len() ==> (#[trigger] tables.responses[i]).id != (
        #[trigger] tables.responses[j]).id
    &&& forall|i: int, j: int|
        0 <= i < j < tables.responses.len() ==> !same_key(
            #[trigger] tables.responses[i],
            #[trigger] tables.responses[j],
        )
    &&& forall|i: int|
        0 <= i < tables.responses.len() ==> has_call(
            tables.calls,
            (#[trigger] tables.responses[i]).roll_call_id,
        )
}

/// Whether `call` is an open call of the conversation `chat_id`.
pub open spec fn is_open_in(call: RollCallData, chat_id: ChatId) -> bool {
    call.chat_id == chat_id && call.status == CallStatus::Open
}

/// Whether `call` is a closed call of the conversation `chat_id`.
pub open spec fn is_closed_in(call: RollCallData, chat_id: ChatId) -> bool {
    call.chat_id == chat_id && call.status == CallStatus::Closed
}

/// The test for an open call of a conversation.
pub open spec fn open_in(chat_id: ChatId) -> spec_fn(RollCallData) -> bool {
    |call: RollCallData| is_open_in(call, chat_id)
}

/// The test for a closed call of a conversation.
pub open spec fn closed_in(chat_id: ChatId) -> spec_fn(RollCallData) -> bool {
    |call: RollCallData| is_closed_in(call, chat_id)
}

/// The open calls of a conversation.
pub open spec fn open_calls(calls: Seq<RollCallData>, chat_id: ChatId) -> Seq<RollCallData> {
    calls.filter(open_in(chat_id))
}

/// The closed calls of a conversation.
pub open spec fn closed_calls(calls: Seq<RollCallData>, chat_id: ChatId) -> Seq<RollCallData> {
    calls.filter(closed_in(chat_id))
}

/// `call` closed at `at`, if it is an open call of the conversation.
pub open spec fn closed_at(call: RollCallData, chat_id: ChatId, at: Timestamp) -> RollCallData {
    if is_open_in(call, chat_id) {
        RollCallData { status: CallStatus::Closed, updated_at: at, ..call }
    } else {
        call
    }
}

/// The calls after every open call of the conversation was closed at `at`.
pub open spec fn all_closed(calls: Seq<RollCallData>, chat_id: ChatId, at: Timestamp) -> Seq<
    RollCallData,
> {
    calls.map_values(|call: RollCallData| closed_at(call, chat_id, at))
}

/// The test for a closed call of a conversation that was created after
/// `at`.
pub open spec fn newer_closed_in(chat_id: ChatId, at: Timestamp) -> spec_fn(RollCallData) -> bool {
    |call: RollCallData| is_closed_in(call, chat_id) && call.created_at > at
}

/// The closed calls of a conversation that were created after `at`.
pub open spec fn newer_closed_calls(calls: Seq<RollCallData>, chat_id: ChatId, at: Timestamp)
    -> Seq<RollCallData> {
    calls.filter(newer_closed_in(chat_id, at))
}

/// Whether retention drops `call`: it is a closed call of the conversation,
/// and at least `RETENTION_LIMIT` closed calls of the conversation were
/// created after it.
pub open spec fn is_pruned(calls: Seq<RollCallData>, chat_id: ChatId, call: RollCallData) -> bool {
    is_closed_in(call, chat_id) && newer_closed_calls(calls, chat_id, call.created_at).len()
        >= RETENTION_LIMIT
}

/// The test for a call that retention keeps.
pub open spec fn is_kept(calls: Seq<RollCallData>, chat_id: ChatId) -> spec_fn(
    RollCallData,
) -> bool {
    |call: RollCallData| !is_pruned(calls, chat_id, call)
}

/// The calls that retention keeps.
pub open spec fn pruned(calls: Seq<RollCallData>, chat_id: ChatId) -> Seq<RollCallData> {
    calls.filter(is_kept(calls, chat_id))
}

/// The test for a response whose call is stored.
pub open spec fn belongs_to(calls: Seq<RollCallData>) -> spec_fn(ResponseData) -> bool {
    |response: ResponseData| has_call(calls, response.roll_call_id)
}

/// The responses whose call is stored.
pub open spec fn with_calls(responses: Seq<ResponseData>, calls: Seq<RollCallData>) -> Seq<
    ResponseData,
> {
    responses.filter(belongs_to(calls))
}

/// The store after a call was started in the conversation `chat_id` at the
/// time `at`: the open calls of the conversation are closed, retention
/// drops the oldest closed calls with their responses, and the new call is
/// stored, open and not quiet.
pub open spec fn created(tables: TablesData, chat_id: ChatId, title: Seq<char>, at: Timestamp)
    -> TablesData {
    let kept = pruned(all_closed(tables.calls, chat_id, at), chat_id);
    TablesData {
        calls: kept.push(
            RollCallData {
                id: tables.next_call_id,
                chat_id,
                status: CallStatus::Open,
                title,
                quiet: false,
                created_at: at,
                updated_at: at,
            },
        ),
        responses: with_calls(tables.responses, kept),
        next_call_id: (tables.next_call_id + 1) as CallId,
        next_response_id: tables.next_response_id,
    }
}

/// Whether the call at `i` is the current open call of the conversation:
/// it is open, no open call of the conversation was changed later, and of
/// those changed at the same time it stands first.
pub open spec fn is_current(calls: Seq<RollCallData>, chat_id: ChatId, i: int) -> bool {
    &&& 0 <= i < calls.len()
    &&& is_open_in(calls[i], chat_id)
    &&& forall|j: int|
        0 <= j < calls.len() && is_open_in(#[trigger] calls[j], chat_id) ==> {
            ||| calls[j].updated_at < calls[i].updated_at
            ||| (calls[j].updated_at == calls[i].updated_at && i <= j)
        }
}

/// Where the current open call of the conversation stands, if it has one.
pub open spec fn current_call(calls: Seq<RollCallData>, chat_id: ChatId) -> Option<int> {
    if exists|i: int| is_current(calls, chat_id, i) {
        Some(choose|i: int| is_current(calls, chat_id, i))
    } else {
        None
    }
}

/// The store after `update` was written to the current open call of the
/// conversation; unchanged where the conversation has no open call.
pub open spec fn updated(tables: TablesData, chat_id: ChatId, update: UpdateRollCall)
    -> TablesData {
    match current_call(tables.calls, chat_id) {
        Some(i) => TablesData {
            calls: tables.calls.update(i, update.apply(tables.calls[i])),
            ..tables
        },
        None => tables,
    }
}

/// The test for a response to the call `call_id`.
pub open spec fn answers(call_id: CallId) -> spec_fn(ResponseData) -> bool {
    |response: ResponseData| response.roll_call_id == call_id
}

/// The responses to a call, the one changed last first.
pub open spec fn responses_of(responses: Seq<ResponseData>, call_id: CallId) -> Seq<ResponseData> {
    sorted_by_time(responses.filter(answers(call_id)), true)
}

/// Whether the response at `i` is the first one filed under the key of
/// `record`.
pub open spec fn is_filed(responses: Seq<ResponseData>, record: ResponseData, i: int) -> bool {
    &&& 0 <= i < responses.len()
    &&& same_key(responses[i], record)
    &&& forall|j: int| 0 <= j < i ==> !same_key(#[trigger] responses[j], record)
}

/// Where the response filed under the key of `record` stands, if there is
/// one.
pub open spec fn filed_at(responses: Seq<ResponseData>, record: ResponseData) -> Option<int> {
    if exists|i: int| is_filed(responses, record, i) {
        Some(choose|i: int| is_filed(responses, record, i))
    } else {
        None
    }
}

/// A stored response after the same identity has answered again: name,
/// status, reason and the time of change are those of the new answer.
pub open spec fn overwritten(stored: ResponseData, record: ResponseData) -> ResponseData {
    ResponseData {
        user_name: record.user_name,
        status: record.status,
        reason: record.reason,
        updated_at: record.updated_at,
        ..stored
    }
}

/// The responses after `record` was filed: written over the response with
/// the same call and token if there is one, and added under the identifier
/// `id` if there is none.
pub open spec fn filed(responses: Seq<ResponseData>, record: ResponseData, id: ResponseId) -> Seq<
    ResponseData,
> {
    match filed_at(responses, record) {
        Some(i) => responses.update(i, overwritten(responses[i], record)),
        None => responses.push(ResponseData { id, ..record }),
    }
}

/// Whether recording `record` needs an identifier that is not left: the
/// conversation has an open call, the call has no response under the token
/// of `record`, and the identifiers are used up.
pub open spec fn lacks_response_id(tables: TablesData, chat_id: ChatId, record: ResponseData)
    -> bool {
    match current_call(tables.calls, chat_id) {
        Some(i) => {
            &&& filed_at(
                tables.responses,
                ResponseData { roll_call_id: tables.calls[i].id, ..record },
            ) is None
            &&& tables.next_response_id == i64::MAX
        },
        None => false,
    }
}

/// The store after an answer was recorded in the conversation `chat_id`.
/// `record` holds the answer; the call it goes to is the current open call
/// of the conversation. The store is unchanged where there is none.
pub open spec fn answered(tables: TablesData, chat_id: ChatId, record: ResponseData) -> TablesData {
    match current_call(tables.calls, chat_id) {
        Some(i) => {
            let record = ResponseData { roll_call_id: tables.calls[i].id, ..record };
            TablesData {
                responses: filed(tables.responses, record, tables.next_response_id),
                next_response_id: if filed_at(tables.responses, record) is None {
                    (tables.next_response_id + 1) as ResponseId
                } else {
                    tables.next_response_id
                },
                ..tables
            }
        },
        None => tables,
    }
}

/// The current open call of a conversation with its responses, the one
/// changed last first.
pub open spec fn snapshot(tables: TablesData, chat_id: ChatId) -> Option<
    (RollCallData, Seq<ResponseData>),
> {
    match current_call(tables.calls, chat_id) {
        Some(i) => Some((tables.calls[i], responses_of(tables.responses, tables.calls[i].id))),
        None => None,
    }
}

} // verus!
