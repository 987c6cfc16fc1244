//! `indexmap::IndexMap` as the library sees it: a sequence of entries with
//! distinct keys, in insertion order.

use vstd::prelude::*;

verus! {

#[verifier::external_type_specification]
#[verifier::external_body]
#[verifier::reject_recursive_types(K)]
#[verifier::reject_recursive_types(V)]
#[verifier::reject_recursive_types(S)]
pub struct ExIndexMap<K, V, S>(indexmap::IndexMap<K, V, S>);

/// No two entries share a key.
pub open spec fn keys_distinct<K, V>(entries: Seq<(K, V)>) -> bool {
    forall|i: int, j: int|
        0 <= i < entries.len() && 0 <= j < entries.len() && i != j ==> entries[i].0
            != entries[j].0
}

/// Whether some entry has key `k`.
pub open spec fn has_key<K, V>(entries: Seq<(K, V)>, k: K) -> bool {
    exists|i: int| 0 <= i < entries.len() && entries[i].0 == k
}

/// The entries after `IndexMap::insert(k, v)`: an existing key keeps its
/// place and takes the new value; a new key goes last.
pub open spec fn entries_insert<K, V>(entries: Seq<(K, V)>, k: K, v: V) -> Seq<(K, V)> {
    if has_key(entries, k) {
        let i = choose|i: int| 0 <= i < entries.len() && entries[i].0 == k;
        entries.update(i, (k, v))
    } else {
        entries.push((k, v))
    }
}

/// The entries of a map built by inserting `pairs` in order, as
/// `collect` into an `IndexMap` does.
pub open spec fn entries_from_pairs<K, V>(pairs: Seq<(K, V)>) -> Seq<(K, V)>
    decreases pairs.len(),
{
    if pairs.len() == 0 {
        Seq::empty()
    } else {
        entries_insert(entries_from_pairs(pairs.drop_last()), pairs.last().0, pairs.last().1)
    }
}

/// Inserting keeps the keys distinct.
pub proof fn lemma_insert_keeps_keys_distinct<K, V>(entries: Seq<(K, V)>, k: K, v: V)
    requires
        keys_distinct(entries),
    ensures
        keys_distinct(entries_insert(entries, k, v)),
{
}

/// A map built from pairs has distinct keys, and exactly the keys of the pairs.
pub proof fn lemma_entries_from_pairs<K, V>(pairs: Seq<(K, V)>)
    ensures
        keys_distinct(entries_from_pairs(pairs)),
        forall|k: K| has_key(entries_from_pairs(pairs), k) <==> has_key(pairs, k),
    decreases pairs.len(),
{
    if pairs.len() > 0 {
        lemma_entries_from_pairs(pairs.drop_last());
        let prev = entries_from_pairs(pairs.drop_last());
        let (k, v) = (pairs.last().0, pairs.last().1);
        lemma_insert_keeps_keys_distinct(prev, k, v);
        let cur = entries_from_pairs(pairs);
        assert forall|q: K| has_key(cur, q) <==> has_key(pairs, q) by {
            if has_key(prev, k) {
                let i = choose|i: int| 0 <= i < prev.len() && prev[i].0 == k;
                if has_key(cur, q) {
                    let j = choose|j: int| 0 <= j < cur.len() && cur[j].0 == q;
                    if j == i {
                        assert(pairs[pairs.len() - 1].0 == q);
                    } else {
                        assert(prev[j].0 == q);
                        assert(has_key(pairs.drop_last(), q));
                        let m = choose|m: int| 0 <= m < pairs.drop_last().len() && pairs.drop_last()[m].0 == q;
                        assert(pairs[m].0 == q);
                    }
                }
                if has_key(pairs, q) {
                    let m = choose|m: int| 0 <= m < pairs.len() && pairs[m].0 == q;
                    if m == pairs.len() - 1 {
                        assert(cur[i].0 == q);
                    } else {
                        assert(pairs.drop_last()[m].0 == q);
                        assert(has_key(pairs.drop_last(), q));
                        assert(has_key(prev, q));
                        let j = choose|j: int| 0 <= j < prev.len() && prev[j].0 == q;
                        assert(cur[j].0 == q);
                    }
                }
            } else {
                if has_key(cur, q) {
                    let j = choose|j: int| 0 <= j < cur.len() && cur[j].0 == q;
                    if j == prev.len() {
                        assert(pairs[pairs.len() - 1].0 == q);
                    } else {
                        assert(prev[j].0 == q);
                        assert(has_key(prev, q));
                        assert(has_key(pairs.drop_last(), q));
                        let m = choose|m: int| 0 <= m < pairs.drop_last().len() && pairs.drop_last()[m].0 == q;
                        assert(pairs[m].0 == q);
                    }
                }
                if has_key(pairs, q) {
                    let m = choose|m: int| 0 <= m < pairs.len() && pairs[m].0 == q;
                    if m == pairs.len() - 1 {
                        assert(cur[prev.len() as int].0 == q);
                    } else {
                        assert(pairs.drop_last()[m].0 == q);
                        assert(has_key(pairs.drop_last(), q));
                        assert(has_key(prev, q));
                        let j = choose|j: int| 0 <= j < prev.len() && prev[j].0 == q;
                        assert(cur[j].0 == q);
                    }
                }
            }
        }
    }
}

/// Inserting keeps every key where it was.
pub proof fn lemma_insert_keeps_key_places<K, V>(entries: Seq<(K, V)>, k: K, v: V)
    ensures
        entries_insert(entries, k, v).len() >= entries.len(),
        forall|i: int| 0 <= i < entries.len() ==> (#[trigger] entries_insert(entries, k, v)[i]).0 == entries[i].0,
{
}

/// The map built from a prefix of the pairs has its keys in the same places
/// as the map built from all of them.
pub proof fn lemma_entries_prefix_keys<K, V>(pairs: Seq<(K, V)>, j: int)
    requires
        0 <= j <= pairs.len(),
    ensures
        entries_from_pairs(pairs.take(j)).len() <= entries_from_pairs(pairs).len(),
        forall|i: int| 0 <= i < entries_from_pairs(pairs.take(j)).len() ==> (#[trigger] entries_from_pairs(
            pairs,
        )[i]).0 == entries_from_pairs(pairs.take(j))[i].0,
    decreases pairs.len() - j,
{
    if j == pairs.len() {
        assert(pairs.take(j) =~= pairs);
    } else {
        let prev = pairs.drop_last();
        assert(prev.take(j) =~= pairs.take(j));
        lemma_entries_prefix_keys(prev, j);
        lemma_insert_keeps_key_places(entries_from_pairs(prev), pairs.last().0, pairs.last().1);
    }
}

/// Every entry of a map built from pairs is one of the pairs.
pub proof fn lemma_entries_come_from_pairs<K, V>(pairs: Seq<(K, V)>)
    ensures
        forall|i: int| 0 <= i < entries_from_pairs(pairs).len() ==> pairs.contains(
            #[trigger] entries_from_pairs(pairs)[i],
        ),
    decreases pairs.len(),
{
    if pairs.len() > 0 {
        let prev = pairs.drop_last();
        lemma_entries_come_from_pairs(prev);
        let e = entries_from_pairs(prev);
        let cur = entries_from_pairs(pairs);
        let last = pairs.len() - 1;
        assert forall|i: int| 0 <= i < cur.len() implies pairs.contains(#[trigger] cur[i]) by {
            assert(cur[i] == pairs[last] || (i < e.len() && cur[i] == e[i]));
            if cur[i] == pairs[last] {
            } else {
                assert(prev.contains(e[i]));
                let j = choose|j: int| 0 <= j < prev.len() && prev[j] == e[i];
                assert(pairs[j] == prev[j]);
            }
        }
    }
}

} // verus!

verus! {

#[verifier::external_type_specification]
#[verifier::external_body]
#[verifier::reject_recursive_types(T)]
#[verifier::reject_recursive_types(S)]
pub struct ExIndexSet<T, S>(indexmap::IndexSet<T, S>);

/// The value stored under `k`, if any.
pub open spec fn lookup<K, V>(entries: Seq<(K, V)>, k: K) -> Option<V> {
    if has_key(entries, k) {
        Some(entries[choose|i: int| 0 <= i < entries.len() && entries[i].0 == k].1)
    } else {
        None
    }
}

/// The items of a set built by inserting `items` in order, as `collect` into
/// an `IndexSet` does: each distinct item once, where it first came.
pub open spec fn distinct_in_order<T>(items: Seq<T>) -> Seq<T>
    decreases items.len(),
{
    if items.len() == 0 {
        Seq::empty()
    } else {
        let prev = distinct_in_order(items.drop_last());
        if prev.contains(items.last()) {
            prev
        } else {
            prev.push(items.last())
        }
    }
}

/// The items kept are exactly the items given, each once.
pub proof fn lemma_distinct_in_order<T>(items: Seq<T>)
    ensures
        distinct_in_order(items).no_duplicates(),
        forall|x: T| distinct_in_order(items).contains(x) <==> items.contains(x),
    decreases items.len(),
{
    if items.len() > 0 {
        lemma_distinct_in_order(items.drop_last());
        let prev = distinct_in_order(items.drop_last());
        let cur = distinct_in_order(items);
        assert forall|x: T| cur.contains(x) <==> items.contains(x) by {
            if items.contains(x) {
                let i = choose|i: int| 0 <= i < items.len() && items[i] == x;
                if i < items.len() - 1 {
                    assert(items.drop_last()[i] == x);
                    assert(items.drop_last().contains(x));
                    assert(prev.contains(x));
                    let j = choose|j: int| 0 <= j < prev.len() && prev[j] == x;
                    assert(cur[j] == x);
                } else if prev.contains(x) {
                    let j = choose|j: int| 0 <= j < prev.len() && prev[j] == x;
                    assert(cur[j] == x);
                } else {
                    assert(cur[prev.len() as int] == x);
                }
            }
            if cur.contains(x) {
                let j = choose|j: int| 0 <= j < cur.len() && cur[j] == x;
                if j < prev.len() {
                    assert(prev[j] == x);
                    assert(prev.contains(x));
                    assert(items.drop_last().contains(x));
                    let i = choose|i: int| 0 <= i < items.drop_last().len() && items.drop_last()[i] == x;
                    assert(items[i] == x);
                } else {
                    assert(x == items.last());
                    assert(items[items.len() - 1] == x);
                }
            }
        }
    }
}

} // verus!

verus! {

/// Inserting pairs whose keys are already distinct keeps them as they are.
pub proof fn lemma_entries_from_distinct_pairs<K, V>(pairs: Seq<(K, V)>)
    requires
        keys_distinct(pairs),
    ensures
        entries_from_pairs(pairs) == pairs,
    decreases pairs.len(),
{
    if pairs.len() > 0 {
        let prev = pairs.drop_last();
        assert(keys_distinct(prev));
        lemma_entries_from_distinct_pairs(prev);
        if has_key(prev, pairs.last().0) {
            let i = choose|i: int| 0 <= i < prev.len() && prev[i].0 == pairs.last().0;
            assert(pairs[i].0 == pairs[pairs.len() - 1].0);
        }
        assert(prev.push(pairs.last()) =~= pairs);
    }
}

} // verus!
