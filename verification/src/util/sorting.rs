//! Responses in the order of their last change.

use crate::models::roll_call_responses::{responses_data, ResponseData, RollCallResponse};
use crate::models::type_aliases::Timestamp;
use vstd::prelude::*;

verus! {

/// Whether a response changed at `a` comes strictly before one changed at
/// `b`: earlier first, or later first where `descending`.
pub open spec fn goes_before(a: Timestamp, b: Timestamp, descending: bool) -> bool {
    if descending {
        a > b
    } else {
        a < b
    }
}

fn earlier(a: Timestamp, b: Timestamp, descending: bool) -> (before: bool)
    ensures
        before == goes_before(a, b, descending),
{
    if descending {
        a > b
    } else {
        a < b
    }
}

/// `sorted` with `response` put behind every element that it does not go
/// strictly before.
pub open spec fn placed(sorted: Seq<ResponseData>, response: ResponseData, descending: bool) -> Seq<
    ResponseData,
>
    decreases sorted.len(),
{
    if sorted.len() == 0 {
        seq![response]
    } else if goes_before(response.updated_at, sorted.last().updated_at, descending) {
        placed(sorted.drop_last(), response, descending).push(sorted.last())
    } else {
        sorted.push(response)
    }
}

/// The responses by the time of their last change; those changed at the
/// same time keep their order.
pub open spec fn sorted_by_time(responses: Seq<ResponseData>, descending: bool) -> Seq<
    ResponseData,
>
    decreases responses.len(),
{
    if responses.len() == 0 {
        Seq::empty()
    } else {
        placed(sorted_by_time(responses.drop_last(), descending), responses.last(), descending)
    }
}

/// Whether no element of `responses` goes strictly before an earlier one.
pub open spec fn in_time_order(responses: Seq<ResponseData>, descending: bool) -> bool {
    forall|i: int, j: int|
        0 <= i < j < responses.len() ==> !goes_before(
            #[trigger] responses[j].updated_at,
            #[trigger] responses[i].updated_at,
            descending,
        )
}

/// Placing a response is inserting it at the position behind which every
/// element goes strictly after it and before which the nearest does not.
pub proof fn lemma_placed_at(
    sorted: Seq<ResponseData>,
    response: ResponseData,
    descending: bool,
    at: int,
)
    requires
        0 <= at <= sorted.len(),
        forall|j: int|
            at <= j < sorted.len() ==> goes_before(
                response.updated_at,
                #[trigger] sorted[j].updated_at,
                descending,
            ),
        at > 0 ==> !goes_before(response.updated_at, sorted[at - 1].updated_at, descending),
    ensures
        placed(sorted, response, descending) == sorted.insert(at, response),
    decreases sorted.len(),
{
    if sorted.len() == 0 {
        assert(sorted.insert(at, response) == seq![response]);
    } else if at == sorted.len() {
        assert(sorted.insert(at, response) == sorted.push(response));
    } else {
        lemma_placed_at(sorted.drop_last(), response, descending, at);
        assert(sorted.drop_last().insert(at, response).push(sorted.last()) == sorted.insert(
            at,
            response,
        ));
    }
}

/// Placing a response keeps the length plus one, the elements, and the
/// order.
pub proof fn lemma_placed(sorted: Seq<ResponseData>, response: ResponseData, descending: bool)
    ensures
        placed(sorted, response, descending).len() == sorted.len() + 1,
        placed(sorted, response, descending).to_multiset() == sorted.to_multiset().insert(
            response,
        ),
        in_time_order(sorted, descending) ==> in_time_order(
            placed(sorted, response, descending),
            descending,
        ),
    decreases sorted.len(),
{
    broadcast use vstd::seq_lib::group_to_multiset_ensures;

    let result = placed(sorted, response, descending);
    if sorted.len() == 0 {
        assert(sorted == Seq::<ResponseData>::empty());
    } else if goes_before(response.updated_at, sorted.last().updated_at, descending) {
        let rest = sorted.drop_last();
        lemma_placed(rest, response, descending);
        assert(sorted == rest.push(sorted.last()));
        if in_time_order(sorted, descending) {
            assert(in_time_order(rest, descending)) by {
                assert forall|i: int, j: int| 0 <= i < j < rest.len() implies !goes_before(
                    #[trigger] rest[j].updated_at,
                    #[trigger] rest[i].updated_at,
                    descending,
                ) by {
                    assert(rest[i] == sorted[i] && rest[j] == sorted[j]);
                }
            }
            let inner = placed(rest, response, descending);
            assert forall|i: int, j: int| 0 <= i < j < result.len() implies !goes_before(
                #[trigger] result[j].updated_at,
                #[trigger] result[i].updated_at,
                descending,
            ) by {
                if j < inner.len() {
                    assert(result[i] == inner[i] && result[j] == inner[j]);
                } else {
                    assert(result[j] == sorted.last());
                    assert(result[i] == inner[i]);
                    assert(inner.to_multiset().count(inner[i]) > 0);
                    if inner[i] != response {
                        assert(rest.to_multiset().count(inner[i]) > 0);
                        assert(rest.contains(inner[i]));
                        let k = choose|k: int| 0 <= k < rest.len() && rest[k] == inner[i];
                        assert(sorted[k] == rest[k]);
                        assert(!goes_before(
                            sorted[sorted.len() - 1].updated_at,
                            sorted[k].updated_at,
                            descending,
                        ));
                    }
                }
            }
        }
    } else {
        if in_time_order(sorted, descending) {
            assert forall|i: int, j: int| 0 <= i < j < result.len() implies !goes_before(
                #[trigger] result[j].updated_at,
                #[trigger] result[i].updated_at,
                descending,
            ) by {
                if j < sorted.len() {
                    assert(result[i] == sorted[i] && result[j] == sorted[j]);
                } else {
                    assert(result[i] == sorted[i]);
                    assert(!goes_before(
                        sorted[sorted.len() - 1].updated_at,
                        sorted[i].updated_at,
                        descending,
                    ));
                }
            }
        }
    }
}

/// Sorting keeps the length and the elements, and the result is in order.
pub proof fn lemma_sorted_by_time(responses: Seq<ResponseData>, descending: bool)
    ensures
        sorted_by_time(responses, descending).len() == responses.len(),
        sorted_by_time(responses, descending).to_multiset() == responses.to_multiset(),
        in_time_order(sorted_by_time(responses, descending), descending),
    decreases responses.len(),
{
    broadcast use vstd::seq_lib::group_to_multiset_ensures;

    if responses.len() == 0 {
        assert(responses == Seq::<ResponseData>::empty());
    } else {
        lemma_sorted_by_time(responses.drop_last(), descending);
        lemma_placed(
            sorted_by_time(responses.drop_last(), descending),
            responses.last(),
            descending,
        );
        assert(responses == responses.drop_last().push(responses.last()));
    }
}

/// Responses that are in order already stay as they are, so that those
/// changed at the same time keep their places.
pub proof fn lemma_sorted_stays(responses: Seq<ResponseData>, descending: bool)
    requires
        in_time_order(responses, descending),
    ensures
        sorted_by_time(responses, descending) == responses,
    decreases responses.len(),
{
    if responses.len() > 0 {
        let rest = responses.drop_last();
        assert(in_time_order(rest, descending)) by {
            assert forall|i: int, j: int| 0 <= i < j < rest.len() implies !goes_before(
                #[trigger] rest[j].updated_at,
                #[trigger] rest[i].updated_at,
                descending,
            ) by {
                assert(rest[i] == responses[i] && rest[j] == responses[j]);
            }
        }
        lemma_sorted_stays(rest, descending);
        if rest.len() > 0 {
            assert(rest.last() == responses[responses.len() - 2]);
            assert(!goes_before(
                responses[responses.len() - 1].updated_at,
                responses[responses.len() - 2].updated_at,
                descending,
            ));
        }
        assert(rest.push(responses.last()) == responses);
    } else {
        assert(responses == Seq::<ResponseData>::empty());
    }
}

/// Sorts responses by the time of their last change, keeping the order of
/// those changed at the same time.
pub fn sort_by_time(responses: &Vec<RollCallResponse>, descending: bool) -> (sorted: Vec<
    RollCallResponse,
>)
    ensures
        responses_data(sorted@) == sorted_by_time(responses_data(responses@), descending),
{
    let mut sorted: Vec<RollCallResponse> = Vec::new();
    let mut i: usize = 0;
    while i < responses.len()
        invariant
            i <= responses.len(),
            responses_data(sorted@) == sorted_by_time(
                responses_data(responses@).take(i as int),
                descending,
            ),
        decreases responses.len() - i,
    {
        let response = responses[i].clone();
        let mut at: usize = sorted.len();
        while at > 0 && earlier(response.updated_at, sorted[at - 1].updated_at, descending)
            invariant
                at <= sorted.len(),
                forall|j: int|
                    at <= j < sorted.len() ==> goes_before(
                        response.updated_at,
                        #[trigger] responses_data(sorted@)[j].updated_at,
                        descending,
                    ),
            decreases at,
        {
            at -= 1;
        }
        proof {
            let before = responses_data(responses@).take(i as int);
            let after = responses_data(responses@).take(i + 1);
            assert(after.drop_last() == before);
            assert(after.last() == response@);
            lemma_placed_at(responses_data(sorted@), response@, descending, at as int);
            assert(responses_data(sorted@.insert(at as int, response)) == responses_data(
                sorted@,
            ).insert(at as int, response@));
        }
        sorted.insert(at, response);
        i += 1;
    }
    proof {
        assert(responses_data(responses@).take(responses.len() as int) == responses_data(
            responses@,
        ));
    }
    sorted
}

} // verus!
