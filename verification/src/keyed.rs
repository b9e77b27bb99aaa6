//! A list of keys and a list of values of the same length, read as a map.
//!
//! The caches keep their entries in vectors. Here is what makes such a
//! vector a map: no key occurs twice, and the value of a key is the one at
//! the key's place.

use vstd::prelude::*;

verus! {

/// Whether `key` stands at place `i`.
pub open spec fn has_key<K>(keys: Seq<K>, key: K, i: int) -> bool {
    0 <= i < keys.len() && keys[i] == key
}

/// Whether no key occurs twice.
pub open spec fn distinct<K>(keys: Seq<K>) -> bool {
    forall|i: int, j: int| 0 <= i < j < keys.len() ==> keys[i] != keys[j]
}

/// The map from each key to the value at its place.
pub open spec fn as_map<K, V>(keys: Seq<K>, values: Seq<V>) -> Map<K, V> {
    Map::new(
        |key: K| exists|i: int| has_key(keys, key, i),
        |key: K| values[choose|i: int| has_key(keys, key, i)],
    )
}

/// The key at a place is in the map, with the value at that place.
pub proof fn lemma_lookup<K, V>(keys: Seq<K>, values: Seq<V>, i: int)
    requires
        distinct(keys),
        0 <= i < keys.len(),
    ensures
        as_map(keys, values).contains_key(keys[i]),
        as_map(keys, values)[keys[i]] == values[i],
{
    let key = keys[i];
    assert(has_key(keys, key, i));
    let j = choose|j: int| has_key(keys, key, j);
    assert(has_key(keys, key, j));
    assert(i == j);
}

/// A key that stands at no place is not in the map.
pub proof fn lemma_absent<K, V>(keys: Seq<K>, values: Seq<V>, key: K)
    requires
        forall|i: int| 0 <= i < keys.len() ==> keys[i] != key,
    ensures
        !as_map(keys, values).contains_key(key),
{
    assert(forall|i: int| !has_key(keys, key, i));
}

/// The list is the map `expected` where each of its keys is in `expected`
/// with the value at the key's place, and `expected` has no other key.
proof fn lemma_same_map<K, V>(keys: Seq<K>, values: Seq<V>, expected: Map<K, V>)
    requires
        distinct(keys),
        keys.len() == values.len(),
        forall|i: int|
            0 <= i < keys.len() ==> expected.contains_key(#[trigger] keys[i]) && expected[keys[i]]
                == values[i],
        forall|key: K|
            expected.contains_key(key) ==> exists|i: int| #[trigger] has_key(keys, key, i),
    ensures
        as_map(keys, values) == expected,
{
    assert forall|key: K| #[trigger] as_map(keys, values).contains_key(key) implies as_map(
        keys,
        values,
    )[key] == expected[key] by {
        let i = choose|i: int| has_key(keys, key, i);
        lemma_lookup(keys, values, i);
    }
    assert(as_map(keys, values) =~= expected);
}

/// A new key at the end of the list is a new entry of the map.
pub proof fn lemma_pushed<K, V>(keys: Seq<K>, values: Seq<V>, key: K, value: V)
    requires
        distinct(keys),
        keys.len() == values.len(),
        !as_map(keys, values).contains_key(key),
    ensures
        distinct(keys.push(key)),
        as_map(keys.push(key), values.push(value)) == as_map(keys, values).insert(key, value),
{
    let longer = keys.push(key);
    assert forall|i: int, j: int| 0 <= i < j < longer.len() implies longer[i] != longer[j] by {
        if j == keys.len() {
            assert(has_key(keys, longer[i], i));
        }
    }
    let expected = as_map(keys, values).insert(key, value);
    assert forall|i: int| 0 <= i < longer.len() implies expected.contains_key(
        #[trigger] longer[i],
    ) && expected[longer[i]] == values.push(value)[i] by {
        if i < keys.len() {
            lemma_lookup(keys, values, i);
        }
    }
    assert forall|k: K| expected.contains_key(k) implies exists|i: int| #[trigger]
        has_key(longer, k, i) by {
        if k == key {
            assert(has_key(longer, k, keys.len() as int));
        } else {
            let i = choose|i: int| has_key(keys, k, i);
            assert(has_key(longer, k, i));
        }
    }
    lemma_same_map(longer, values.push(value), expected);
}

/// Taking a place out of the list takes its key out of the map.
pub proof fn lemma_removed<K, V>(keys: Seq<K>, values: Seq<V>, at: int)
    requires
        distinct(keys),
        keys.len() == values.len(),
        0 <= at < keys.len(),
    ensures
        distinct(keys.remove(at)),
        as_map(keys.remove(at), values.remove(at)) == as_map(keys, values).remove(keys[at]),
{
    let shorter = keys.remove(at);
    let expected = as_map(keys, values).remove(keys[at]);
    assert forall|i: int| 0 <= i < shorter.len() implies expected.contains_key(
        #[trigger] shorter[i],
    ) && expected[shorter[i]] == values.remove(at)[i] by {
        let k = if i < at {
            i
        } else {
            i + 1
        };
        lemma_lookup(keys, values, k);
    }
    assert forall|key: K| expected.contains_key(key) implies exists|i: int| #[trigger]
        has_key(shorter, key, i) by {
        let k = choose|k: int| has_key(keys, key, k);
        let i = if k < at {
            k
        } else {
            k - 1
        };
        assert(has_key(shorter, key, i));
    }
    lemma_same_map(shorter, values.remove(at), expected);
}

/// A new value at a place is a new value for the key at that place.
pub proof fn lemma_replaced<K, V>(keys: Seq<K>, values: Seq<V>, at: int, value: V)
    requires
        distinct(keys),
        keys.len() == values.len(),
        0 <= at < keys.len(),
    ensures
        as_map(keys, values.update(at, value)) == as_map(keys, values).insert(keys[at], value),
{
    let expected = as_map(keys, values).insert(keys[at], value);
    assert forall|i: int| 0 <= i < keys.len() implies expected.contains_key(#[trigger] keys[i])
        && expected[keys[i]] == values.update(at, value)[i] by {
        lemma_lookup(keys, values, i);
    }
    assert forall|key: K| expected.contains_key(key) implies exists|i: int| #[trigger]
        has_key(keys, key, i) by {
        if key == keys[at] {
            assert(has_key(keys, key, at));
        }
    }
    lemma_same_map(keys, values.update(at, value), expected);
}

/// The map has as many entries as the list has places.
pub proof fn lemma_count<K, V>(keys: Seq<K>, values: Seq<V>)
    requires
        distinct(keys),
        keys.len() == values.len(),
    ensures
        as_map(keys, values).dom().finite(),
        as_map(keys, values).len() == keys.len(),
    decreases keys.len(),
{
    if keys.len() == 0 {
        assert(as_map(keys, values) =~= Map::<K, V>::empty());
    } else {
        let fewer = keys.drop_last();
        let rest = values.drop_last();
        lemma_count(fewer, rest);
        lemma_absent(fewer, rest, keys.last());
        lemma_pushed(fewer, rest, keys.last(), values.last());
        assert(fewer.push(keys.last()) =~= keys);
        assert(rest.push(values.last()) =~= values);
    }
}

} // verus!
