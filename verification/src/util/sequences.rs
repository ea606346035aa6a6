//! Facts about filtered sequences.

use vstd::prelude::*;

verus! {

/// Filtering one element more keeps what was kept and adds the element if
/// it passes.
pub proof fn lemma_filter_next<A>(s: Seq<A>, i: int, keep: spec_fn(A) -> bool)
    requires
        0 <= i < s.len(),
    ensures
        s.take(i + 1).filter(keep) == if keep(s[i]) {
            s.take(i).filter(keep).push(s[i])
        } else {
            s.take(i).filter(keep)
        },
{
    reveal(Seq::filter);
    assert(s.take(i + 1).drop_last() == s.take(i));
}

/// Filtering a sequence with one element more at its end.
pub proof fn lemma_filter_push<A>(s: Seq<A>, last: A, keep: spec_fn(A) -> bool)
    ensures
        s.push(last).filter(keep) == if keep(last) {
            s.filter(keep).push(last)
        } else {
            s.filter(keep)
        },
{
    reveal(Seq::filter);
    assert(s.push(last).drop_last() == s);
}

/// Every element of a filtered sequence passes the test and is an element
/// of the sequence.
pub proof fn lemma_filter_members<A>(s: Seq<A>, keep: spec_fn(A) -> bool)
    ensures
        forall|i: int|
            0 <= i < s.filter(keep).len() ==> keep(#[trigger] s.filter(keep)[i]) && s.contains(
                s.filter(keep)[i],
            ),
{
    let kept = s.filter(keep);
    assert forall|i: int| 0 <= i < kept.len() implies keep(#[trigger] kept[i]) && s.contains(
        kept[i],
    ) by {
        s.lemma_filter_pred(keep, i);
        assert(kept.contains(kept[i]));
        s.lemma_filter_contains_rev(keep, kept[i]);
    }
}

/// Where no element passes the test, nothing is kept.
pub proof fn lemma_filter_none<A>(s: Seq<A>, keep: spec_fn(A) -> bool)
    requires
        forall|i: int| 0 <= i < s.len() ==> !keep(#[trigger] s[i]),
    ensures
        s.filter(keep) == Seq::<A>::empty(),
    decreases s.len(),
{
    reveal(Seq::filter);
    if s.len() > 0 {
        let rest = s.drop_last();
        assert forall|i: int| 0 <= i < rest.len() implies !keep(#[trigger] rest[i]) by {
            assert(rest[i] == s[i]);
        }
        lemma_filter_none(rest, keep);
    }
}

/// Where at most one element fails the test, at most one is dropped.
pub proof fn lemma_filter_all_but_one<A>(s: Seq<A>, keep: spec_fn(A) -> bool)
    requires
        forall|i: int, j: int|
            0 <= i < j < s.len() ==> keep(#[trigger] s[i]) || keep(#[trigger] s[j]),
    ensures
        s.filter(keep).len() >= s.len() - 1,
        (forall|i: int| 0 <= i < s.len() ==> keep(#[trigger] s[i])) ==> s.filter(keep).len()
            == s.len(),
    decreases s.len(),
{
    reveal(Seq::filter);
    if s.len() > 0 {
        let rest = s.drop_last();
        assert forall|i: int, j: int| 0 <= i < j < rest.len() implies keep(#[trigger] rest[i])
            || keep(#[trigger] rest[j]) by {
            assert(rest[i] == s[i] && rest[j] == s[j]);
        }
        lemma_filter_all_but_one(rest, keep);
        if !keep(s.last()) {
            assert forall|i: int| 0 <= i < rest.len() implies keep(#[trigger] rest[i]) by {
                assert(rest[i] == s[i]);
                assert(keep(s[i]) || keep(s[s.len() - 1]));
            }
        } else if forall|i: int| 0 <= i < s.len() ==> keep(#[trigger] s[i]) {
            assert forall|i: int| 0 <= i < rest.len() implies keep(#[trigger] rest[i]) by {
                assert(rest[i] == s[i]);
            }
        }
    }
}

/// The test that passes what passes both `first` and `second`.
pub open spec fn both<A>(first: spec_fn(A) -> bool, second: spec_fn(A) -> bool) -> spec_fn(
    A,
) -> bool {
    |a: A| first(a) && second(a)
}

/// Filtering twice is filtering once with both tests.
pub proof fn lemma_filter_twice<A>(s: Seq<A>, first: spec_fn(A) -> bool, second: spec_fn(A) -> bool)
    ensures
        s.filter(first).filter(second) == s.filter(both(first, second)),
    decreases s.len(),
{
    reveal(Seq::filter);
    if s.len() > 0 {
        let rest = s.drop_last();
        lemma_filter_twice(rest, first, second);
        if first(s.last()) {
            lemma_filter_push(rest.filter(first), s.last(), second);
        }
    }
}

/// A test that passes less keeps less.
pub proof fn lemma_filter_narrower<A>(
    s: Seq<A>,
    narrow: spec_fn(A) -> bool,
    wide: spec_fn(A) -> bool,
)
    requires
        forall|i: int| 0 <= i < s.len() && narrow(#[trigger] s[i]) ==> wide(s[i]),
    ensures
        s.filter(narrow).len() <= s.filter(wide).len(),
    decreases s.len(),
{
    reveal(Seq::filter);
    if s.len() > 0 {
        let rest = s.drop_last();
        assert forall|i: int| 0 <= i < rest.len() && narrow(#[trigger] rest[i]) implies wide(
            rest[i],
        ) by {
            assert(rest[i] == s[i]);
        }
        lemma_filter_narrower(rest, narrow, wide);
    }
}

/// Whether no two elements of a sequence clash.
pub open spec fn all_apart<A>(s: Seq<A>, clash: spec_fn(A, A) -> bool) -> bool {
    forall|i: int, j: int| 0 <= i < j < s.len() ==> !clash(#[trigger] s[i], #[trigger] s[j])
}

/// Elements that do not clash still do not clash once some are filtered
/// out.
pub proof fn lemma_filter_all_apart<A>(
    s: Seq<A>,
    keep: spec_fn(A) -> bool,
    clash: spec_fn(A, A) -> bool,
)
    requires
        all_apart(s, clash),
    ensures
        all_apart(s.filter(keep), clash),
    decreases s.len(),
{
    reveal(Seq::filter);
    if s.len() > 0 {
        let rest = s.drop_last();
        assert(all_apart(rest, clash)) by {
            assert forall|i: int, j: int| 0 <= i < j < rest.len() implies !clash(
                #[trigger] rest[i],
                #[trigger] rest[j],
            ) by {
                assert(rest[i] == s[i] && rest[j] == s[j]);
            }
        }
        lemma_filter_all_apart(rest, keep, clash);
        if keep(s.last()) {
            let kept = rest.filter(keep);
            let all = s.filter(keep);
            assert forall|i: int, j: int| 0 <= i < j < all.len() implies !clash(
                #[trigger] all[i],
                #[trigger] all[j],
            ) by {
                if j < kept.len() {
                    assert(all[i] == kept[i] && all[j] == kept[j]);
                } else {
                    assert(all[i] == kept[i]);
                    assert(kept.contains(kept[i]));
                    rest.lemma_filter_contains_rev(keep, kept[i]);
                    let k = choose|k: int| 0 <= k < rest.len() && rest[k] == kept[i];
                    assert(s[k] == rest[k]);
                    assert(all[j] == s[s.len() - 1]);
                }
            }
        }
    }
}

} // verus!
