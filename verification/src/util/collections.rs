//! Taking the first item of a collection, grouping its items, and mapping
//! the values of a map.

use itertools::Itertools;
use std::collections::HashMap;
use std::hash::Hash;
use vstd::prelude::*;
use vstd::std_specs::hash::obeys_key_model;

verus! {

/// The second parts of the pairs whose first part is `key`, in the order of
/// the pairs.
pub open spec fn values_of<K, V>(pairs: Seq<(K, V)>, key: K) -> Seq<V> {
    pairs.filter(|pair: (K, V)| pair.0 == key).map_values(|pair: (K, V)| pair.1)
}

/// Whether `groups` holds, for each first part of a pair, the second parts
/// that come with it, in the order of the pairs, and nothing else.
pub open spec fn is_grouped<K, V>(groups: Map<K, Vec<V>>, pairs: Seq<(K, V)>) -> bool {
    &&& forall|key: K| #[trigger]
        groups.contains_key(key) <==> exists|i: int|
            0 <= i < pairs.len() && (#[trigger] pairs[i]).0 == key
    &&& forall|key: K| #[trigger] groups.contains_key(key) ==> groups[key]@ == values_of(pairs, key)
}

/// Calls itertools' `into_group_map` on the pairs. It goes through the
/// pairs in order and adds the second part of each to the list that the
/// map holds for the first part, which it starts where there is none. This
/// holds for keys whose `Eq` and `Hash` agree with equality.
#[verifier::external_body]
fn into_group_map<K: Hash + Eq, V>(pairs: Vec<(K, V)>) -> (groups: HashMap<K, Vec<V>>)
    ensures
        obeys_key_model::<K>() ==> is_grouped(groups@, pairs@),
{
    pairs.into_iter().into_group_map()
}

/// Whether `pairs` holds each item with a key that `key_fn` gives for it.
pub open spec fn is_keyed<T, K, F: Fn(&T) -> K>(
    items: Seq<T>,
    pairs: Seq<(K, T)>,
    key_fn: F,
) -> bool {
    &&& pairs.len() == items.len()
    &&& forall|i: int|
        0 <= i < items.len() ==> (#[trigger] pairs[i]).1 == items[i] && key_fn.ensures(
            (&items[i],),
            pairs[i].0,
        )
}

/// Whether the pair at `i` is the last one with its key.
pub open spec fn is_last_of_key<K, V>(pairs: Seq<(K, V)>, i: int) -> bool {
    forall|j: int| i < j < pairs.len() ==> (#[trigger] pairs[j]).0 != pairs[i].0
}

/// Whether `mapped` holds, for each key of a pair, a value that `map_fn`
/// gives for the value of the last pair with that key, and nothing else.
pub open spec fn is_mapped<K, V1, V2, F: Fn(V1) -> V2>(
    mapped: Map<K, V2>,
    pairs: Seq<(K, V1)>,
    map_fn: F,
) -> bool {
    &&& forall|key: K| #[trigger]
        mapped.contains_key(key) <==> exists|i: int|
            0 <= i < pairs.len() && (#[trigger] pairs[i]).0 == key
    &&& forall|i: int|
        0 <= i < pairs.len() && #[trigger] is_last_of_key(pairs, i) ==> map_fn.ensures(
            (pairs[i].1,),
            mapped[pairs[i].0],
        )
}

/// Whether `pairs` holds each entry of `map` once and nothing else.
pub open spec fn is_walk_of<K, V>(map: Map<K, V>, pairs: Seq<(K, V)>) -> bool {
    &&& forall|i: int, j: int|
        0 <= i < j < pairs.len() ==> (#[trigger] pairs[i]).0 != (#[trigger] pairs[j]).0
    &&& forall|i: int|
        0 <= i < pairs.len() ==> map.contains_key((#[trigger] pairs[i]).0) && map[pairs[i].0]
            == pairs[i].1
    &&& forall|key: K| #[trigger]
        map.contains_key(key) ==> exists|i: int|
            0 <= i < pairs.len() && (#[trigger] pairs[i]).0 == key
}

/// Walks through a map with `HashMap::into_iter` and collects its entries.
/// Each entry comes once; std leaves the order open, and it may differ
/// from one walk to the next. This holds for keys whose `Eq` and `Hash`
/// agree with equality.
#[verifier::external_body]
fn into_pairs<K, V>(map: HashMap<K, V>) -> (pairs: Vec<(K, V)>)
    ensures
        obeys_key_model::<K>() ==> is_walk_of(map@, pairs@),
{
    map.into_iter().collect()
}

/// A collection whose items can be walked through.
pub trait Walk: Sized {
    type Item;

    /// Whether a walk through the collection may give `items` in this
    /// order.
    spec fn walked(self, items: Seq<Self::Item>) -> bool;

    /// The items of the collection in the order of a walk through it.
    fn into_items(self) -> (items: Vec<Self::Item>)
        ensures
            self.walked(items@),
    ;
}

/// Tools for collections whose items can be walked through.
pub trait CollectionTools: Walk {
    /// The first item of a walk through the collection, if it has any.
    fn take_first(self) -> (first: Option<Self::Item>)
        ensures
            exists|items: Seq<Self::Item>| #[trigger]
                self.walked(items) && first == if items.len() > 0 {
                    Some(items[0])
                } else {
                    None
                },
    {
        let mut items = self.into_items();
        let ghost walk = items@;
        let first = if items.len() == 0 {
            None
        } else {
            Some(items.remove(0))
        };
        assert(self.walked(walk));
        first
    }

    /// Groups the items by the key that `group_key_fn` gives for each. Each
    /// group keeps the order of the walk.
    fn into_groups_by<K: Hash + Eq, F: Fn(&Self::Item) -> K>(self, group_key_fn: F) -> (groups:
        HashMap<K, Vec<Self::Item>>)
        requires
            forall|item: &Self::Item| group_key_fn.requires((item,)),
        ensures
            obeys_key_model::<K>() ==> exists|
                items: Seq<Self::Item>,
                pairs: Seq<(K, Self::Item)>,
            |
                {
                    &&& #[trigger] self.walked(items)
                    &&& #[trigger] is_keyed(items, pairs, group_key_fn)
                    &&& is_grouped(groups@, pairs)
                },
    {
        let items = self.into_items();
        let ghost walk = items@;
        let mut pairs: Vec<(K, Self::Item)> = Vec::new();
        for item in it: items
            invariant
                it.seq() == walk,
                pairs@.len() == it.index(),
                forall|item: &Self::Item| group_key_fn.requires((item,)),
                forall|i: int|
                    0 <= i < it.index() ==> (#[trigger] pairs@[i]).1 == walk[i]
                        && group_key_fn.ensures((&walk[i],), pairs@[i].0),
        {
            let key = group_key_fn(&item);
            pairs.push((key, item));
        }
        assert(self.walked(walk));
        assert(is_keyed(walk, pairs@, group_key_fn));
        into_group_map(pairs)
    }

    /// Maps the value of each pair with `map_fn` and collects the pairs in
    /// a map. Where a key comes more than once, its last pair counts.
    fn map_values<K: Hash + Eq, V1, V2, F: Fn(V1) -> V2>(self, map_fn: F) -> (mapped: HashMap<
        K,
        V2,
    >) where Self: Walk<Item = (K, V1)>
        requires
            forall|value: V1| map_fn.requires((value,)),
        ensures
            obeys_key_model::<K>() ==> exists|pairs: Seq<(K, V1)>| #[trigger]
                self.walked(pairs) && is_mapped(mapped@, pairs, map_fn),
    {
        let items = self.into_items();
        let ghost walk = items@;
        let mut mapped: HashMap<K, V2> = HashMap::new();
        for item in it: items
            invariant
                it.seq() == walk,
                forall|value: V1| map_fn.requires((value,)),
                obeys_key_model::<K>() ==> is_mapped(mapped@, walk.take(it.index()), map_fn),
        {
            let (key, value) = item;
            let ghost before = mapped@;
            let ghost done = walk.take(it.index());
            let ghost next = walk.take(it.index() + 1);
            let changed = map_fn(value);
            mapped.insert(key, changed);
            proof {
                broadcast use vstd::std_specs::hash::group_hash_axioms;

                if obeys_key_model::<K>() {
                    assert(next == done.push((key, value)));
                    assert forall|k: K| #[trigger]
                        mapped@.contains_key(k) <==> exists|i: int|
                            0 <= i < next.len() && (#[trigger] next[i]).0 == k by {
                        if k == key {
                            assert(next[next.len() - 1].0 == k);
                        } else if before.contains_key(k) {
                            let i = choose|i: int|
                                0 <= i < done.len() && (#[trigger] done[i]).0 == k;
                            assert(next[i].0 == k);
                        } else if exists|i: int|
                            0 <= i < next.len() && (#[trigger] next[i]).0 == k {
                            let i = choose|i: int|
                                0 <= i < next.len() && (#[trigger] next[i]).0 == k;
                            assert(done[i].0 == k);
                        }
                    }
                    assert forall|i: int|
                        0 <= i < next.len() && #[trigger] is_last_of_key(
                            next,
                            i,
                        ) implies map_fn.ensures((next[i].1,), mapped@[next[i].0]) by {
                        if i < done.len() {
                            assert(next[next.len() - 1].0 != next[i].0);
                            assert(is_last_of_key(done, i)) by {
                                assert forall|j: int| i < j < done.len() implies (
                                #[trigger] done[j]).0 != done[i].0 by {
                                    assert(next[j].0 != next[i].0);
                                }
                            }
                        }
                    }
                }
            }
        }
        assert(self.walked(walk));
        assert(walk.take(walk.len() as int) == walk);
        mapped
    }
}

impl<T> Walk for Vec<T> {
    type Item = T;

    open spec fn walked(self, items: Seq<T>) -> bool {
        items == self@
    }

    fn into_items(self) -> (items: Vec<T>) {
        self
    }
}

impl<K, V> Walk for HashMap<K, V> {
    type Item = (K, V);

    open spec fn walked(self, items: Seq<(K, V)>) -> bool {
        obeys_key_model::<K>() ==> is_walk_of(self@, items)
    }

    fn into_items(self) -> (items: Vec<(K, V)>) {
        into_pairs(self)
    }
}

impl<T> CollectionTools for Vec<T> {

}

impl<K, V> CollectionTools for HashMap<K, V> {

}

} // verus!
