//! Every statement keeps a well-formed store well-formed.

use super::tables::{
    all_closed, answered, belongs_to, created, current_call, filed, filed_at, has_call, is_current,
    is_filed, is_kept, lacks_response_id, pruned, same_key, updated, well_formed, with_calls,
    TablesData,
};
use crate::models::roll_call_responses::ResponseData;
use crate::models::roll_calls::{RollCallData, UpdateRollCall};
use crate::models::type_aliases::{ChatId, Timestamp};
use crate::util::sequences::{all_apart, lemma_filter_all_apart};
use vstd::prelude::*;

verus! {

/// The clash of two calls with the same identifier.
pub open spec fn same_call_id() -> spec_fn(RollCallData, RollCallData) -> bool {
    |a: RollCallData, b: RollCallData| a.id == b.id
}

/// The clash of two responses with the same identifier.
pub open spec fn same_response_id() -> spec_fn(ResponseData, ResponseData) -> bool {
    |a: ResponseData, b: ResponseData| a.id == b.id
}

/// The clash of two responses filed under the same call and token.
pub open spec fn same_filing() -> spec_fn(ResponseData, ResponseData) -> bool {
    |a: ResponseData, b: ResponseData| same_key(a, b)
}

/// Starting a call keeps the store well-formed, as long as an identifier is
/// left for the new call.
pub proof fn lemma_created_well_formed(
    tables: TablesData,
    chat_id: ChatId,
    title: Seq<char>,
    at: Timestamp,
)
    requires
        well_formed(tables),
        tables.next_call_id < i64::MAX,
    ensures
        well_formed(created(tables, chat_id, title, at)),
{
    let closed = all_closed(tables.calls, chat_id, at);
    let kept = pruned(closed, chat_id);
    let after = created(tables, chat_id, title, at);
    let responses = with_calls(tables.responses, kept);
    assert(all_apart(closed, same_call_id()));
    lemma_filter_all_apart(closed, is_kept(closed, chat_id), same_call_id());
    assert(all_apart(tables.responses, same_response_id()));
    lemma_filter_all_apart(tables.responses, belongs_to(kept), same_response_id());
    assert(all_apart(tables.responses, same_filing()));
    lemma_filter_all_apart(tables.responses, belongs_to(kept), same_filing());
    assert forall|i: int| 0 <= i < kept.len() implies (#[trigger] kept[i]).id
        < tables.next_call_id by {
        assert(kept.contains(kept[i]));
        closed.lemma_filter_contains_rev(is_kept(closed, chat_id), kept[i]);
        let k = choose|k: int| 0 <= k < closed.len() && closed[k] == kept[i];
        assert(closed[k].id == tables.calls[k].id);
    }
    assert forall|i: int| 0 <= i < responses.len() implies (#[trigger] responses[i]).id
        < tables.next_response_id && has_call(after.calls, responses[i].roll_call_id) by {
        assert(responses.contains(responses[i]));
        tables.responses.lemma_filter_contains_rev(belongs_to(kept), responses[i]);
        tables.responses.lemma_filter_pred(belongs_to(kept), i);
        let c = choose|c: int|
            0 <= c < kept.len() && (#[trigger] kept[c]).id == responses[i].roll_call_id;
        assert(after.calls[c] == kept[c]);
    }
    assert forall|i: int, j: int| 0 <= i < j < after.calls.len() implies (
    #[trigger] after.calls[i]).id != (#[trigger] after.calls[j]).id by {
        if j < kept.len() {
            assert(after.calls[i] == kept[i] && after.calls[j] == kept[j]);
        } else {
            assert(after.calls[i] == kept[i]);
        }
    }
    assert forall|i: int| 0 <= i < after.calls.len() implies (#[trigger] after.calls[i]).id
        < after.next_call_id by {
        if i < kept.len() {
            assert(after.calls[i] == kept[i]);
        }
    }
}

/// There is at most one current open call.
pub proof fn lemma_current_is_unique(calls: Seq<RollCallData>, chat_id: ChatId, i: int, j: int)
    requires
        is_current(calls, chat_id, i),
        is_current(calls, chat_id, j),
    ensures
        i == j,
{
}

/// Where a call is current, it is the one that `current_call` names.
pub proof fn lemma_current_call(calls: Seq<RollCallData>, chat_id: ChatId, i: int)
    requires
        is_current(calls, chat_id, i),
    ensures
        current_call(calls, chat_id) == Some(i),
{
    let chosen = choose|k: int| is_current(calls, chat_id, k);
    lemma_current_is_unique(calls, chat_id, i, chosen);
}

/// Changing the current open call keeps the store well-formed.
pub proof fn lemma_updated_well_formed(tables: TablesData, chat_id: ChatId, update: UpdateRollCall)
    requires
        well_formed(tables),
    ensures
        well_formed(updated(tables, chat_id, update)),
{
    let after = updated(tables, chat_id, update);
    match current_call(tables.calls, chat_id) {
        Some(at) => {
            assert(is_current(tables.calls, chat_id, at));
            assert forall|i: int| 0 <= i < after.calls.len() implies (
            #[trigger] after.calls[i]).id == tables.calls[i].id by {}
            assert forall|i: int| 0 <= i < after.responses.len() implies has_call(
                after.calls,
                (#[trigger] after.responses[i]).roll_call_id,
            ) by {
                let c = choose|c: int|
                    0 <= c < tables.calls.len() && (#[trigger] tables.calls[c]).id
                        == tables.responses[i].roll_call_id;
                assert(after.calls[c].id == tables.calls[c].id);
            }
        },
        None => {},
    }
}

/// Where a response is filed under a key, one is filed first.
pub proof fn lemma_first_filed(responses: Seq<ResponseData>, record: ResponseData, at: int)
    requires
        0 <= at < responses.len(),
        same_key(responses[at], record),
    ensures
        exists|i: int| is_filed(responses, record, i),
    decreases at,
{
    if exists|k: int| 0 <= k < at && same_key(#[trigger] responses[k], record) {
        let k = choose|k: int| 0 <= k < at && same_key(#[trigger] responses[k], record);
        lemma_first_filed(responses, record, k);
    } else {
        assert(is_filed(responses, record, at));
    }
}

/// The response that is filed first under a key is the one that `filed_at`
/// names.
pub proof fn lemma_filed_at(responses: Seq<ResponseData>, record: ResponseData, at: int)
    requires
        is_filed(responses, record, at),
    ensures
        filed_at(responses, record) == Some(at),
{
    let chosen = choose|i: int| is_filed(responses, record, i);
    assert(is_filed(responses, record, chosen));
    if chosen < at {
        assert(!same_key(responses[chosen], record));
    }
    if at < chosen {
        assert(!same_key(responses[at], record));
    }
}

/// Recording an answer keeps the store well-formed, as long as an
/// identifier is left where a new response needs one.
pub proof fn lemma_answered_well_formed(tables: TablesData, chat_id: ChatId, record: ResponseData)
    requires
        well_formed(tables),
        !lacks_response_id(tables, chat_id, record),
    ensures
        well_formed(answered(tables, chat_id, record)),
{
    let after = answered(tables, chat_id, record);
    match current_call(tables.calls, chat_id) {
        Some(c) => {
            assert(is_current(tables.calls, chat_id, c));
            let record = ResponseData { roll_call_id: tables.calls[c].id, ..record };
            assert(after.responses == filed(tables.responses, record, tables.next_response_id));
            match filed_at(tables.responses, record) {
                Some(at) => {
                    assert(is_filed(tables.responses, record, at));
                    assert forall|i: int| 0 <= i < after.responses.len() implies {
                        &&& (#[trigger] after.responses[i]).id == tables.responses[i].id
                        &&& after.responses[i].roll_call_id == tables.responses[i].roll_call_id
                        &&& after.responses[i].unique_token == tables.responses[i].unique_token
                    } by {}
                    assert forall|i: int| 0 <= i < after.responses.len() implies has_call(
                        after.calls,
                        (#[trigger] after.responses[i]).roll_call_id,
                    ) by {
                        assert(has_call(tables.calls, tables.responses[i].roll_call_id));
                    }
                },
                None => {
                    assert forall|i: int| 0 <= i < tables.responses.len() implies !same_key(
                        #[trigger] tables.responses[i],
                        record,
                    ) by {
                        if same_key(tables.responses[i], record) {
                            lemma_first_filed(tables.responses, record, i);
                        }
                    }
                    assert forall|i: int| 0 <= i < after.responses.len() implies has_call(
                        after.calls,
                        (#[trigger] after.responses[i]).roll_call_id,
                    ) by {
                        if i < tables.responses.len() {
                            assert(after.responses[i] == tables.responses[i]);
                        }
                    }
                    assert forall|i: int, j: int|
                        0 <= i < j < after.responses.len() implies (
                    #[trigger] after.responses[i]).id != (#[trigger] after.responses[j]).id
                        && !same_key(after.responses[i], after.responses[j]) by {
                        assert(after.responses[i] == tables.responses[i]);
                        if j < tables.responses.len() {
                            assert(after.responses[j] == tables.responses[j]);
                        }
                    }
                    assert forall|i: int| 0 <= i < after.responses.len() implies (
                    #[trigger] after.responses[i]).id < after.next_response_id by {
                        if i < tables.responses.len() {
                            assert(after.responses[i] == tables.responses[i]);
                        }
                    }
                },
            }
        },
        None => {},
    }
}

} // verus!
