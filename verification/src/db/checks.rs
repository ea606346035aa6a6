//! Testing whether given rows can be the rows of a store.

use super::tables::{has_call, same_key, well_formed, TablesData};
use crate::models::roll_call_responses::{responses_data, ResponseData, RollCallResponse};
use crate::models::roll_calls::{calls_data, RollCall, RollCallData};
use vstd::prelude::*;

verus! {

/// The identifier that follows `id`; the greatest one is followed by
/// itself.
pub open spec fn following(id: i64) -> i64 {
    if id < i64::MAX {
        (id + 1) as i64
    } else {
        id
    }
}

/// The identifier that the next call gets in a store with these calls: the
/// one that follows the greatest, or 1 if that is more.
pub open spec fn next_call_id(calls: Seq<RollCallData>) -> i64
    decreases calls.len(),
{
    if calls.len() == 0 {
        1
    } else {
        let rest = next_call_id(calls.drop_last());
        if calls.last().id >= rest {
            following(calls.last().id)
        } else {
            rest
        }
    }
}

/// The identifier that the next response gets in a store with these
/// responses: the one that follows the greatest, or 1 if that is more.
pub open spec fn next_response_id(responses: Seq<ResponseData>) -> i64
    decreases responses.len(),
{
    if responses.len() == 0 {
        1
    } else {
        let rest = next_response_id(responses.drop_last());
        if responses.last().id >= rest {
            following(responses.last().id)
        } else {
            rest
        }
    }
}

/// The store that holds the given rows and hands out the identifiers
/// behind them.
pub open spec fn restored(calls: Seq<RollCallData>, responses: Seq<ResponseData>) -> TablesData {
    TablesData {
        calls,
        responses,
        next_call_id: next_call_id(calls),
        next_response_id: next_response_id(responses),
    }
}

fn follow(id: i64) -> (next: i64)
    ensures
        next == following(id),
{
    if id < i64::MAX {
        id + 1
    } else {
        id
    }
}

/// The identifier for the next call behind the given calls.
pub fn call_id_after(calls: &Vec<RollCall>) -> (next: i64)
    ensures
        next == next_call_id(calls_data(calls@)),
{
    let ghost data = calls_data(calls@);
    let mut next: i64 = 1;
    let mut i: usize = 0;
    while i < calls.len()
        invariant
            i <= calls.len(),
            data == calls_data(calls@),
            next == next_call_id(data.take(i as int)),
        decreases calls.len() - i,
    {
        assert(data.take(i + 1).drop_last() == data.take(i as int));
        if calls[i].id >= next {
            next = follow(calls[i].id);
        }
        i += 1;
    }
    assert(data.take(calls.len() as int) == data);
    next
}

/// The identifier for the next response behind the given responses.
pub fn response_id_after(responses: &Vec<RollCallResponse>) -> (next: i64)
    ensures
        next == next_response_id(responses_data(responses@)),
{
    let ghost data = responses_data(responses@);
    let mut next: i64 = 1;
    let mut i: usize = 0;
    while i < responses.len()
        invariant
            i <= responses.len(),
            data == responses_data(responses@),
            next == next_response_id(data.take(i as int)),
        decreases responses.len() - i,
    {
        assert(data.take(i + 1).drop_last() == data.take(i as int));
        if responses[i].id >= next {
            next = follow(responses[i].id);
        }
        i += 1;
    }
    assert(data.take(responses.len() as int) == data);
    next
}

fn calls_are_apart(calls: &Vec<RollCall>, next: i64) -> (ok: bool)
    ensures
        ok == {
            &&& forall|i: int|
                0 <= i < calls@.len() ==> (#[trigger] calls_data(calls@)[i]).id < next
            &&& forall|i: int, j: int|
                0 <= i < j < calls@.len() ==> (#[trigger] calls_data(calls@)[i]).id != (
                #[trigger] calls_data(calls@)[j]).id
        },
{
    let ghost data = calls_data(calls@);
    let mut i: usize = 0;
    while i < calls.len()
        invariant
            i <= calls.len(),
            data == calls_data(calls@),
            forall|a: int| 0 <= a < i ==> (#[trigger] data[a]).id < next,
            forall|a: int, b: int|
                0 <= a < i && a < b < data.len() ==> (#[trigger] data[a]).id != (
                #[trigger] data[b]).id,
        decreases calls.len() - i,
    {
        if calls[i].id >= next {
            assert(!(data[i as int].id < next));
            return false;
        }
        let mut j: usize = i + 1;
        while j < calls.len()
            invariant
                i < j <= calls.len(),
                data == calls_data(calls@),
                forall|b: int| i < b < j ==> data[i as int].id != (#[trigger] data[b]).id,
            decreases calls.len() - j,
        {
            if calls[i].id == calls[j].id {
                assert(data[i as int].id == data[j as int].id);
                return false;
            }
            j += 1;
        }
        i += 1;
    }
    true
}

fn responses_are_apart(responses: &Vec<RollCallResponse>, next: i64) -> (ok: bool)
    ensures
        ok == {
            &&& forall|i: int|
                0 <= i < responses@.len() ==> (#[trigger] responses_data(responses@)[i]).id < next
            &&& forall|i: int, j: int|
                0 <= i < j < responses@.len() ==> (#[trigger] responses_data(responses@)[i]).id
                    != (#[trigger] responses_data(responses@)[j]).id
            &&& forall|i: int, j: int|
                0 <= i < j < responses@.len() ==> !same_key(
                    #[trigger] responses_data(responses@)[i],
                    #[trigger] responses_data(responses@)[j],
                )
        },
{
    let ghost data = responses_data(responses@);
    let mut i: usize = 0;
    while i < responses.len()
        invariant
            i <= responses.len(),
            data == responses_data(responses@),
            forall|a: int| 0 <= a < i ==> (#[trigger] data[a]).id < next,
            forall|a: int, b: int|
                0 <= a < i && a < b < data.len() ==> (#[trigger] data[a]).id != (
                #[trigger] data[b]).id,
            forall|a: int, b: int|
                0 <= a < i && a < b < data.len() ==> !same_key(
                    #[trigger] data[a],
                    #[trigger] data[b],
                ),
        decreases responses.len() - i,
    {
        if responses[i].id >= next {
            assert(!(data[i as int].id < next));
            return false;
        }
        let mut j: usize = i + 1;
        while j < responses.len()
            invariant
                i < j <= responses.len(),
                data == responses_data(responses@),
                forall|b: int| i < b < j ==> data[i as int].id != (#[trigger] data[b]).id,
                forall|b: int| i < b < j ==> !same_key(data[i as int], #[trigger] data[b]),
            decreases responses.len() - j,
        {
            if responses[i].id == responses[j].id {
                assert(data[i as int].id == data[j as int].id);
                return false;
            }
            if responses[i].roll_call_id == responses[j].roll_call_id
                && responses[i].unique_token == responses[j].unique_token {
                assert(same_key(data[i as int], data[j as int]));
                return false;
            }
            j += 1;
        }
        i += 1;
    }
    true
}

/// Whether a call with the identifier `id` is among `calls`.
pub fn find_call(calls: &Vec<RollCall>, id: i64) -> (found: bool)
    ensures
        found == has_call(calls_data(calls@), id),
{
    let mut i: usize = 0;
    while i < calls.len()
        invariant
            i <= calls.len(),
            forall|k: int| 0 <= k < i ==> (#[trigger] calls_data(calls@)[k]).id != id,
        decreases calls.len() - i,
    {
        if calls[i].id == id {
            assert(calls_data(calls@)[i as int].id == id);
            return true;
        }
        i += 1;
    }
    false
}

fn responses_belong(responses: &Vec<RollCallResponse>, calls: &Vec<RollCall>) -> (ok: bool)
    ensures
        ok == forall|i: int|
            0 <= i < responses@.len() ==> has_call(
                calls_data(calls@),
                (#[trigger] responses_data(responses@)[i]).roll_call_id,
            ),
{
    let ghost data = responses_data(responses@);
    let mut i: usize = 0;
    while i < responses.len()
        invariant
            i <= responses.len(),
            data == responses_data(responses@),
            forall|a: int|
                0 <= a < i ==> has_call(calls_data(calls@), (#[trigger] data[a]).roll_call_id),
        decreases responses.len() - i,
    {
        if !find_call(calls, responses[i].roll_call_id) {
            assert(!has_call(calls_data(calls@), data[i as int].roll_call_id));
            return false;
        }
        i += 1;
    }
    true
}

/// Whether the given rows can be the rows of a store: no identifier comes
/// twice or is the greatest there is, no call holds two responses for one
/// token, and every response belongs to one of the calls.
pub fn rows_are_well_formed(calls: &Vec<RollCall>, responses: &Vec<RollCallResponse>) -> (ok: bool)
    ensures
        ok == well_formed(restored(calls_data(calls@), responses_data(responses@))),
{
    let next_call = call_id_after(calls);
    let next_response = response_id_after(responses);
    calls_are_apart(calls, next_call) && responses_are_apart(responses, next_response)
        && responses_belong(responses, calls)
}

} // verus!
