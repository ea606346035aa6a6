//! What holds of the store after its operations, whatever was stored
//! before.

use super::helpers::{call_created, Connection, QueryError, QueryResult};
use super::invariants::{lemma_answered_well_formed, lemma_filed_at, lemma_first_filed};
use super::tables::{
    all_closed, answered, closed_calls, closed_in, created, current_call, filed_at, is_closed_in,
    is_current, is_filed, is_kept, is_open_in, lacks_response_id, newer_closed_calls,
    newer_closed_in, open_calls, open_in, pruned, same_key, snapshot, updated, well_formed,
    TablesData, RETENTION_LIMIT,
};
use crate::models::roll_call_responses::ResponseData;
use crate::models::roll_calls::{RollCall, RollCallData, UpdateRollCall};
use crate::models::type_aliases::{ChatId, Timestamp};
use crate::util::sequences::{
    all_apart, both, lemma_filter_all_apart, lemma_filter_all_but_one, lemma_filter_members,
    lemma_filter_narrower, lemma_filter_none, lemma_filter_push, lemma_filter_twice,
};
use vstd::prelude::*;

verus! {

/// After a call was started in a conversation, the conversation has
/// exactly one open call, whatever was stored before.
pub proof fn lemma_single_open_call(
    tables: TablesData,
    chat_id: ChatId,
    title: Seq<char>,
    at: Timestamp,
)
    ensures
        open_calls(created(tables, chat_id, title, at).calls, chat_id).len() == 1,
{
    let closed = all_closed(tables.calls, chat_id, at);
    let kept = pruned(closed, chat_id);
    lemma_filter_members(closed, is_kept(closed, chat_id));
    assert forall|i: int| 0 <= i < kept.len() implies !open_in(chat_id)(#[trigger] kept[i]) by {
        assert(closed.contains(kept[i]));
        let k = choose|k: int| 0 <= k < closed.len() && closed[k] == kept[i];
        assert(!is_open_in(closed[k], chat_id));
    }
    lemma_filter_none(kept, open_in(chat_id));
    lemma_filter_push(kept, created(tables, chat_id, title, at).calls.last(), open_in(chat_id));
}

/// The clash of two calls of a conversation that were created at the same
/// time.
pub open spec fn same_time_in(chat_id: ChatId) -> spec_fn(RollCallData, RollCallData) -> bool {
    |a: RollCallData, b: RollCallData|
        a.chat_id == chat_id && b.chat_id == chat_id && a.created_at == b.created_at
}

/// Whether no two calls of the conversation were created at the same time.
pub open spec fn created_apart(calls: Seq<RollCallData>, chat_id: ChatId) -> bool {
    all_apart(calls, same_time_in(chat_id))
}

/// A sequence of calls that is not empty has an oldest call.
pub proof fn lemma_oldest(calls: Seq<RollCallData>) -> (oldest: int)
    requires
        calls.len() > 0,
    ensures
        0 <= oldest < calls.len(),
        forall|j: int| 0 <= j < calls.len() ==> calls[oldest].created_at <= (
        #[trigger] calls[j]).created_at,
    decreases calls.len(),
{
    if calls.len() == 1 {
        0
    } else {
        let rest = calls.drop_last();
        let before = lemma_oldest(rest);
        assert forall|j: int| 0 <= j < rest.len() implies rest[before].created_at <= (
        #[trigger] calls[j]).created_at by {
            assert(rest[j] == calls[j]);
        }
        if calls.last().created_at < rest[before].created_at {
            calls.len() - 1
        } else {
            before
        }
    }
}

/// The test for a call created after `at`.
pub open spec fn newer_than(at: Timestamp) -> spec_fn(RollCallData) -> bool {
    |call: RollCallData| call.created_at > at
}

/// After a call was started in a conversation, the conversation has at
/// most `RETENTION_LIMIT` closed calls, provided that no two of its calls
/// were created at the same time. Calls created at the same time are all
/// as old as each other, so retention keeps them all or drops them all.
pub proof fn lemma_retention_bound(
    tables: TablesData,
    chat_id: ChatId,
    title: Seq<char>,
    at: Timestamp,
)
    requires
        created_apart(tables.calls, chat_id),
    ensures
        closed_calls(created(tables, chat_id, title, at).calls, chat_id).len() <= RETENTION_LIMIT,
{
    let closed = all_closed(tables.calls, chat_id, at);
    let kept = pruned(closed, chat_id);
    let after = created(tables, chat_id, title, at).calls;
    let survivors = closed_calls(kept, chat_id);
    lemma_filter_push(kept, after.last(), closed_in(chat_id));
    assert(closed_calls(after, chat_id) == survivors);
    if survivors.len() > 0 {
        assert(created_apart(closed, chat_id));
        lemma_filter_all_apart(closed, is_kept(closed, chat_id), same_time_in(chat_id));
        lemma_filter_all_apart(kept, closed_in(chat_id), same_time_in(chat_id));
        lemma_filter_members(kept, closed_in(chat_id));
        lemma_filter_members(closed, is_kept(closed, chat_id));
        let oldest = lemma_oldest(survivors);
        let cutoff = survivors[oldest].created_at;
        // Every survivor but the oldest was created after it.
        assert forall|i: int, j: int| 0 <= i < j < survivors.len() implies newer_than(cutoff)(
            #[trigger] survivors[i],
        ) || newer_than(cutoff)(#[trigger] survivors[j]) by {
            assert(is_closed_in(survivors[i], chat_id));
            assert(is_closed_in(survivors[j], chat_id));
            assert(is_closed_in(survivors[oldest], chat_id));
            if i != oldest && survivors[i].created_at <= cutoff {
                if i < oldest {
                    assert(!same_time_in(chat_id)(survivors[i], survivors[oldest]));
                } else {
                    assert(!same_time_in(chat_id)(survivors[oldest], survivors[i]));
                }
            }
            if j != oldest && survivors[j].created_at <= cutoff {
                if j < oldest {
                    assert(!same_time_in(chat_id)(survivors[j], survivors[oldest]));
                } else {
                    assert(!same_time_in(chat_id)(survivors[oldest], survivors[j]));
                }
            }
        }
        lemma_filter_all_but_one(survivors, newer_than(cutoff));
        // Those are among the closed calls created after the oldest survivor.
        lemma_filter_twice(kept, closed_in(chat_id), newer_than(cutoff));
        lemma_filter_twice(
            closed,
            is_kept(closed, chat_id),
            both(closed_in(chat_id), newer_than(cutoff)),
        );
        lemma_filter_narrower(
            closed,
            both(is_kept(closed, chat_id), both(closed_in(chat_id), newer_than(cutoff))),
            newer_closed_in(chat_id, cutoff),
        );
        // The oldest survivor was kept, so fewer than the limit are newer.
        assert(kept.contains(survivors[oldest]));
        assert(is_kept(closed, chat_id)(survivors[oldest]));
        assert(newer_closed_calls(closed, chat_id, cutoff).len() < RETENTION_LIMIT);
    }
}

/// Starting a call at a time at which no call of the conversation was
/// created keeps the times of creation apart.
pub proof fn lemma_created_apart(
    tables: TablesData,
    chat_id: ChatId,
    title: Seq<char>,
    at: Timestamp,
)
    requires
        created_apart(tables.calls, chat_id),
        forall|i: int|
            0 <= i < tables.calls.len() && (#[trigger] tables.calls[i]).chat_id == chat_id
                ==> tables.calls[i].created_at != at,
    ensures
        created_apart(created(tables, chat_id, title, at).calls, chat_id),
{
    let closed = all_closed(tables.calls, chat_id, at);
    let kept = pruned(closed, chat_id);
    let after = created(tables, chat_id, title, at).calls;
    assert(created_apart(closed, chat_id));
    lemma_filter_all_apart(closed, is_kept(closed, chat_id), same_time_in(chat_id));
    lemma_filter_members(closed, is_kept(closed, chat_id));
    assert forall|i: int, j: int| 0 <= i < j < after.len() implies !same_time_in(chat_id)(
        #[trigger] after[i],
        #[trigger] after[j],
    ) by {
        assert(after[i] == kept[i]);
        if j < kept.len() {
            assert(after[j] == kept[j]);
        } else {
            assert(closed.contains(kept[i]));
            let k = choose|k: int| 0 <= k < closed.len() && closed[k] == kept[i];
            assert(closed[k].created_at == tables.calls[k].created_at);
        }
    }
}

/// A start of a call: its title and its time.
pub type Start = (Seq<char>, Timestamp);

/// The store after calls were started in a conversation one after the
/// other.
pub open spec fn created_in_turn(tables: TablesData, chat_id: ChatId, starts: Seq<Start>)
    -> TablesData
    decreases starts.len(),
{
    if starts.len() == 0 {
        tables
    } else {
        created(
            created_in_turn(tables, chat_id, starts.drop_last()),
            chat_id,
            starts.last().0,
            starts.last().1,
        )
    }
}

/// Whether every call of the conversation was created before `at`.
pub open spec fn created_before(calls: Seq<RollCallData>, chat_id: ChatId, at: Timestamp) -> bool {
    forall|i: int|
        0 <= i < calls.len() && (#[trigger] calls[i]).chat_id == chat_id ==> calls[i].created_at
            < at
}

/// Whether each start is later than the one before it.
pub open spec fn in_rising_time(starts: Seq<Start>) -> bool {
    forall|i: int, j: int| 0 <= i < j < starts.len() ==> (#[trigger] starts[i]).1 < (
    #[trigger] starts[j]).1
}

/// However many calls are started in a conversation one after the other,
/// the conversation then has exactly one open call.
pub proof fn lemma_single_open_call_always(tables: TablesData, chat_id: ChatId, starts: Seq<Start>)
    requires
        starts.len() > 0,
    ensures
        open_calls(created_in_turn(tables, chat_id, starts).calls, chat_id).len() == 1,
{
    lemma_single_open_call(
        created_in_turn(tables, chat_id, starts.drop_last()),
        chat_id,
        starts.last().0,
        starts.last().1,
    );
}

/// Calls started one after the other at rising times keep the times of
/// creation in the conversation apart, and all of them lie at or before the
/// last start.
pub proof fn lemma_created_in_turn_apart(tables: TablesData, chat_id: ChatId, starts: Seq<Start>)
    requires
        created_apart(tables.calls, chat_id),
        in_rising_time(starts),
        starts.len() > 0 ==> created_before(tables.calls, chat_id, starts[0].1),
    ensures
        created_apart(created_in_turn(tables, chat_id, starts).calls, chat_id),
        starts.len() > 0 ==> forall|i: int|
            0 <= i < created_in_turn(tables, chat_id, starts).calls.len() && (
            #[trigger] created_in_turn(tables, chat_id, starts).calls[i]).chat_id == chat_id
                ==> created_in_turn(tables, chat_id, starts).calls[i].created_at
                <= starts.last().1,
    decreases starts.len(),
{
    if starts.len() > 0 {
        let earlier = starts.drop_last();
        let before = created_in_turn(tables, chat_id, earlier);
        let at = starts.last().1;
        assert(in_rising_time(earlier)) by {
            assert forall|i: int, j: int| 0 <= i < j < earlier.len() implies (
            #[trigger] earlier[i]).1 < (#[trigger] earlier[j]).1 by {
                assert(earlier[i] == starts[i] && earlier[j] == starts[j]);
            }
        }
        if earlier.len() > 0 {
            assert(earlier[0] == starts[0]);
            assert(earlier.last() == starts[starts.len() - 2]);
        }
        lemma_created_in_turn_apart(tables, chat_id, earlier);
        assert(created_before(before.calls, chat_id, at)) by {
            if earlier.len() > 0 {
                assert(starts[starts.len() - 2].1 < starts[starts.len() - 1].1);
            }
        }
        lemma_created_apart(before, chat_id, starts.last().0, at);
        let closed = all_closed(before.calls, chat_id, at);
        let kept = pruned(closed, chat_id);
        let after = created(before, chat_id, starts.last().0, at).calls;
        lemma_filter_members(closed, is_kept(closed, chat_id));
        assert forall|i: int| 0 <= i < after.len() && (#[trigger] after[i]).chat_id
            == chat_id implies after[i].created_at <= at by {
            if i < kept.len() {
                assert(after[i] == kept[i]);
                assert(closed.contains(kept[i]));
                let k = choose|k: int| 0 <= k < closed.len() && closed[k] == kept[i];
                assert(closed[k].created_at == before.calls[k].created_at);
                assert(before.calls[k].chat_id == chat_id);
            }
        }
    }
}

/// However many calls are started in a conversation one after the other,
/// the conversation then has at most `RETENTION_LIMIT` closed calls,
/// provided that no two of its calls were created at the same time and
/// that each start is later than every call before it.
pub proof fn lemma_retention_bound_always(tables: TablesData, chat_id: ChatId, starts: Seq<Start>)
    requires
        starts.len() > 0,
        created_apart(tables.calls, chat_id),
        created_before(tables.calls, chat_id, starts[0].1),
        in_rising_time(starts),
    ensures
        closed_calls(created_in_turn(tables, chat_id, starts).calls, chat_id).len()
            <= RETENTION_LIMIT,
{
    let earlier = starts.drop_last();
    assert(in_rising_time(earlier)) by {
        assert forall|i: int, j: int| 0 <= i < j < earlier.len() implies (#[trigger] earlier[i]).1
            < (#[trigger] earlier[j]).1 by {
            assert(earlier[i] == starts[i] && earlier[j] == starts[j]);
        }
    }
    if earlier.len() > 0 {
        assert(earlier[0] == starts[0]);
    }
    lemma_created_in_turn_apart(tables, chat_id, earlier);
    lemma_retention_bound(
        created_in_turn(tables, chat_id, earlier),
        chat_id,
        starts.last().0,
        starts.last().1,
    );
}

/// In a conversation without an open call, closing, retitling, muting and
/// answering change nothing and find nothing, and no identifier is needed.
pub proof fn lemma_no_open_call(
    tables: TablesData,
    chat_id: ChatId,
    update: UpdateRollCall,
    record: ResponseData,
)
    requires
        forall|i: int|
            0 <= i < tables.calls.len() ==> !is_open_in(#[trigger] tables.calls[i], chat_id),
    ensures
        current_call(tables.calls, chat_id) is None,
        updated(tables, chat_id, update) == tables,
        answered(tables, chat_id, record) == tables,
        snapshot(tables, chat_id) is None,
        !lacks_response_id(tables, chat_id, record),
{
    assert forall|i: int| !is_current(tables.calls, chat_id, i) by {
        if is_current(tables.calls, chat_id, i) {
            assert(is_open_in(tables.calls[i], chat_id));
        }
    }
}

/// Whether the response at `i` is the only one filed under the key of
/// `record`, and holds the name, the status and the reason of `record`.
pub open spec fn holds_answer(responses: Seq<ResponseData>, record: ResponseData, i: int) -> bool {
    &&& 0 <= i < responses.len()
    &&& same_key(responses[i], record)
    &&& responses[i].user_name == record.user_name
    &&& responses[i].status == record.status
    &&& responses[i].reason == record.reason
    &&& responses[i].updated_at == record.updated_at
    &&& forall|j: int|
        0 <= j < responses.len() && same_key(#[trigger] responses[j], record) ==> j == i
}

/// After an answer was recorded for an open call, exactly one response is
/// filed under its call and token, and it holds that answer.
pub proof fn lemma_answer_filed(tables: TablesData, chat_id: ChatId, record: ResponseData) -> (at:
    int)
    requires
        well_formed(tables),
        current_call(tables.calls, chat_id) is Some,
    ensures
        holds_answer(
            answered(tables, chat_id, record).responses,
            ResponseData {
                roll_call_id: tables.calls[current_call(tables.calls, chat_id)->0].id,
                ..record
            },
            at,
        ),
        filed_at(tables.responses, ResponseData {
            roll_call_id: tables.calls[current_call(tables.calls, chat_id)->0].id,
            ..record
        }) == if at < tables.responses.len() { Some(at) } else { None::<int> },
        answered(tables, chat_id, record).responses.len() == if at < tables.responses.len() {
            tables.responses.len()
        } else {
            tables.responses.len() + 1
        },
{
    let c = current_call(tables.calls, chat_id)->0;
    let record = ResponseData { roll_call_id: tables.calls[c].id, ..record };
    let after = answered(tables, chat_id, record).responses;
    match filed_at(tables.responses, record) {
        Some(at) => {
            assert(is_filed(tables.responses, record, at));
            assert forall|j: int| 0 <= j < after.len() && same_key(
                #[trigger] after[j],
                record,
            ) implies j == at by {
                if j != at {
                    assert(after[j] == tables.responses[j]);
                    if j < at {
                        assert(!same_key(tables.responses[j], tables.responses[at]));
                    } else {
                        assert(!same_key(tables.responses[at], tables.responses[j]));
                    }
                }
            }
            at
        },
        None => {
            assert forall|j: int| 0 <= j < tables.responses.len() implies !same_key(
                #[trigger] tables.responses[j],
                record,
            ) by {
                if same_key(tables.responses[j], record) {
                    lemma_first_filed(tables.responses, record, j);
                }
            }
            assert forall|j: int| 0 <= j < after.len() && same_key(
                #[trigger] after[j],
                record,
            ) implies j == tables.responses.len() by {
                if j < tables.responses.len() {
                    assert(after[j] == tables.responses[j]);
                }
            }
            tables.responses.len() as int
        },
    }
}

/// Answering twice under the same token leaves one response: the second
/// answer is written over the first and no response is added.
pub proof fn lemma_answer_twice(
    tables: TablesData,
    chat_id: ChatId,
    first: ResponseData,
    second: ResponseData,
)
    requires
        well_formed(tables),
        current_call(tables.calls, chat_id) is Some,
        !lacks_response_id(tables, chat_id, first),
        first.unique_token == second.unique_token,
    ensures
        answered(answered(tables, chat_id, first), chat_id, second).responses.len() == answered(
            tables,
            chat_id,
            first,
        ).responses.len(),
        exists|at: int|
            holds_answer(
                answered(answered(tables, chat_id, first), chat_id, second).responses,
                ResponseData {
                    roll_call_id: tables.calls[current_call(tables.calls, chat_id)->0].id,
                    ..second
                },
                at,
            ),
{
    let once = answered(tables, chat_id, first);
    lemma_answered_well_formed(tables, chat_id, first);
    let at = lemma_answer_filed(tables, chat_id, first);
    let c = current_call(tables.calls, chat_id)->0;
    let filed_first = ResponseData { roll_call_id: tables.calls[c].id, ..first };
    let filed_second = ResponseData { roll_call_id: tables.calls[c].id, ..second };
    assert(once.calls == tables.calls);
    assert(is_filed(once.responses, filed_second, at)) by {
        assert(same_key(once.responses[at], filed_second));
        assert forall|j: int| 0 <= j < at implies !same_key(
            #[trigger] once.responses[j],
            filed_second,
        ) by {
            if same_key(once.responses[j], filed_second) {
                assert(same_key(once.responses[j], filed_first));
            }
        }
    }
    lemma_filed_at(once.responses, filed_second, at);
    let again = lemma_answer_filed(once, chat_id, second);
}

/// Where the connection gives out while a call is started, be it at the
/// closing, at the pruning or at the storing, the store is as it was
/// before: no call was closed, none dropped, none added.
pub proof fn lemma_failed_create_changes_nothing(
    before: &Connection,
    after: &Connection,
    chat_id: ChatId,
    title: Seq<char>,
    now: Timestamp,
    result: QueryResult<RollCall>,
)
    requires
        call_created(before, after, chat_id, title, now, result),
        before.statements_left() matches Some(left) && left < 3,
    ensures
        result == Err::<RollCall, QueryError>(QueryError::Timeout),
        after@ == before@,
        after.statements_left() == Some(0u64),
{
}

} // verus!
