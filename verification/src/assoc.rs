//! Association lists: a map written as a sequence of pairs.

use vstd::prelude::*;

verus! {

/// The map that a list of pairs describes. A later pair replaces an earlier
/// one with the same key.
pub open spec fn to_map<K, V>(pairs: Seq<(K, V)>) -> Map<K, V>
    decreases pairs.len(),
{
    if pairs.len() == 0 {
        Map::empty()
    } else {
        to_map(pairs.drop_last()).insert(pairs.last().0, pairs.last().1)
    }
}

/// No two pairs of the list have the same key.
pub open spec fn distinct_keys<K, V>(pairs: Seq<(K, V)>) -> bool {
    forall|i: int, j: int|
        0 <= i < j < pairs.len() ==> (#[trigger] pairs[i]).0 != (#[trigger] pairs[j]).0
}

/// Whether some pair of the list has the key `key`.
pub open spec fn has_key<K, V>(pairs: Seq<(K, V)>, key: K) -> bool {
    exists|i: int| 0 <= i < pairs.len() && (#[trigger] pairs[i]).0 == key
}

/// The keys of the map are the keys of the list.
pub proof fn lemma_to_map_domain<K, V>(pairs: Seq<(K, V)>, key: K)
    ensures
        to_map(pairs).contains_key(key) <==> has_key(pairs, key),
    decreases pairs.len(),
{
    if pairs.len() > 0 {
        let front = pairs.drop_last();
        lemma_to_map_domain(front, key);
        if has_key(pairs, key) {
            let i = choose|i: int| 0 <= i < pairs.len() && (#[trigger] pairs[i]).0 == key;
            if i < pairs.len() - 1 {
                assert(front[i].0 == key);
            }
        }
        if has_key(front, key) {
            let i = choose|i: int| 0 <= i < front.len() && (#[trigger] front[i]).0 == key;
            assert(pairs[i].0 == key);
        }
        if pairs.last().0 == key {
            assert(pairs[pairs.len() - 1].0 == key);
        }
    }
}

/// Where the keys differ from one another, the map gives each key the value
/// that stands beside it in the list.
pub proof fn lemma_to_map_value<K, V>(pairs: Seq<(K, V)>, i: int)
    requires
        distinct_keys(pairs),
        0 <= i < pairs.len(),
    ensures
        to_map(pairs).contains_key(pairs[i].0),
        to_map(pairs)[pairs[i].0] == pairs[i].1,
    decreases pairs.len(),
{
    let front = pairs.drop_last();
    if i < pairs.len() - 1 {
        assert(distinct_keys(front)) by {
            assert forall|a: int, b: int| 0 <= a < b < front.len() implies (#[trigger] front[a]).0
                != (#[trigger] front[b]).0 by {
                assert(pairs[a].0 != pairs[b].0);
            }
        }
        lemma_to_map_value(front, i);
        assert(front[i] == pairs[i]);
        assert(pairs[i].0 != pairs[pairs.len() - 1].0);
    }
}

/// Replacing the value beside a key of the list replaces it in the map.
pub proof fn lemma_update_is_insert<K, V>(pairs: Seq<(K, V)>, i: int, value: V)
    requires
        distinct_keys(pairs),
        0 <= i < pairs.len(),
    ensures
        distinct_keys(pairs.update(i, (pairs[i].0, value))),
        to_map(pairs.update(i, (pairs[i].0, value))) == to_map(pairs).insert(pairs[i].0, value),
{
    let key = pairs[i].0;
    let changed = pairs.update(i, (key, value));
    assert(distinct_keys(changed)) by {
        assert forall|a: int, b: int| 0 <= a < b < changed.len() implies (#[trigger] changed[a]).0
            != (#[trigger] changed[b]).0 by {
            assert(changed[a].0 == pairs[a].0);
            assert(changed[b].0 == pairs[b].0);
            assert(pairs[a].0 != pairs[b].0);
        }
    }
    let left = to_map(changed);
    let right = to_map(pairs).insert(key, value);
    assert forall|k: K| left.contains_key(k) <==> right.contains_key(k) by {
        lemma_to_map_domain(changed, k);
        lemma_to_map_domain(pairs, k);
        if has_key(changed, k) {
            let a = choose|a: int| 0 <= a < changed.len() && (#[trigger] changed[a]).0 == k;
            assert(pairs[a].0 == k);
        }
        if has_key(pairs, k) {
            let a = choose|a: int| 0 <= a < pairs.len() && (#[trigger] pairs[a]).0 == k;
            assert(changed[a].0 == k);
        }
        if k == key {
            assert(changed[i].0 == k);
        }
    }
    assert forall|k: K| left.contains_key(k) implies left[k] == right[k] by {
        lemma_to_map_domain(changed, k);
        let a = choose|a: int| 0 <= a < changed.len() && (#[trigger] changed[a]).0 == k;
        lemma_to_map_value(changed, a);
        if a != i {
            assert(changed[a] == pairs[a]);
            lemma_to_map_value(pairs, a);
            assert(pairs[a].0 != pairs[i].0);
        }
    }
    assert(left =~= right);
}

/// Adding a pair with a new key at the end adds it to the map.
pub proof fn lemma_push_is_insert<K, V>(pairs: Seq<(K, V)>, key: K, value: V)
    requires
        distinct_keys(pairs),
        !has_key(pairs, key),
    ensures
        distinct_keys(pairs.push((key, value))),
        to_map(pairs.push((key, value))) == to_map(pairs).insert(key, value),
{
    let longer = pairs.push((key, value));
    assert(longer.drop_last() =~= pairs);
    assert forall|a: int, b: int| 0 <= a < b < longer.len() implies (#[trigger] longer[a]).0 != (
    #[trigger] longer[b]).0 by {
        if b < pairs.len() {
            assert(pairs[a].0 != pairs[b].0);
        } else {
            assert(pairs[a].0 != key);
        }
    }
}

/// Taking a pair out of the list takes its key out of the map.
pub proof fn lemma_remove_is_remove<K, V>(pairs: Seq<(K, V)>, i: int)
    requires
        distinct_keys(pairs),
        0 <= i < pairs.len(),
    ensures
        distinct_keys(pairs.remove(i)),
        to_map(pairs.remove(i)) == to_map(pairs).remove(pairs[i].0),
{
    let key = pairs[i].0;
    let fewer = pairs.remove(i);
    assert forall|a: int| 0 <= a < fewer.len() implies #[trigger] fewer[a] == pairs[if a < i {
        a
    } else {
        a + 1
    }] by {}
    assert(distinct_keys(fewer)) by {
        assert forall|a: int, b: int| 0 <= a < b < fewer.len() implies (#[trigger] fewer[a]).0 != (
        #[trigger] fewer[b]).0 by {
            let pa = if a < i {
                a
            } else {
                a + 1
            };
            let pb = if b < i {
                b
            } else {
                b + 1
            };
            assert(fewer[a] == pairs[pa]);
            assert(fewer[b] == pairs[pb]);
            assert(pairs[pa].0 != pairs[pb].0);
        }
    }
    let left = to_map(fewer);
    let right = to_map(pairs).remove(key);
    assert forall|k: K| left.contains_key(k) <==> right.contains_key(k) by {
        lemma_to_map_domain(fewer, k);
        lemma_to_map_domain(pairs, k);
        if has_key(fewer, k) {
            let a = choose|a: int| 0 <= a < fewer.len() && (#[trigger] fewer[a]).0 == k;
            let pa = if a < i {
                a
            } else {
                a + 1
            };
            assert(fewer[a] == pairs[pa]);
            assert(pairs[pa].0 == k);
            if pa < i {
                assert(pairs[pa].0 != pairs[i].0);
            } else {
                assert(pairs[i].0 != pairs[pa].0);
            }
        }
        if has_key(pairs, k) && k != key {
            let a = choose|a: int| 0 <= a < pairs.len() && (#[trigger] pairs[a]).0 == k;
            let fa = if a < i {
                a
            } else {
                a - 1
            };
            assert(fewer[fa] == pairs[a]);
            assert(fewer[fa].0 == k);
        }
    }
    assert forall|k: K| left.contains_key(k) implies left[k] == right[k] by {
        lemma_to_map_domain(fewer, k);
        let a = choose|a: int| 0 <= a < fewer.len() && (#[trigger] fewer[a]).0 == k;
        let pa = if a < i {
            a
        } else {
            a + 1
        };
        assert(fewer[a] == pairs[pa]);
        lemma_to_map_value(fewer, a);
        lemma_to_map_value(pairs, pa);
    }
    assert(left =~= right);
}

} // verus!
