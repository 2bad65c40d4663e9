//! Tables kept as lists of pairs in which the first pair with a given key
//! counts.

use vstd::prelude::*;

verus! {

/// The table that a list of pairs of key and value stands for: of two pairs
/// with the same key the earlier one counts.
pub open spec fn first_wins<K, V>(pairs: Seq<(K, V)>) -> Map<K, V>
    decreases pairs.len(),
{
    if pairs.len() == 0 {
        Map::empty()
    } else {
        let rest = first_wins(pairs.drop_last());
        if rest.contains_key(pairs.last().0) {
            rest
        } else {
            rest.insert(pairs.last().0, pairs.last().1)
        }
    }
}

/// The table holds the keys of the pairs and no others, each with the value
/// of the first pair that has the key.
pub proof fn lemma_first_wins<K, V>(pairs: Seq<(K, V)>, key: K)
    ensures
        first_wins(pairs).contains_key(key) <==> exists|i: int|
            0 <= i < pairs.len() && (#[trigger] pairs[i]).0 == key,
        forall|i: int|
            0 <= i < pairs.len() && (#[trigger] pairs[i]).0 == key && (forall|j: int|
                0 <= j < i ==> (#[trigger] pairs[j]).0 != key) ==> first_wins(pairs)[key]
                == pairs[i].1,
    decreases pairs.len(),
{
    if pairs.len() > 0 {
        let rest = pairs.drop_last();
        lemma_first_wins(rest, key);
        let last = pairs.len() - 1;
        let whole = first_wins(pairs);
        if first_wins(rest).contains_key(key) {
            let i = choose|i: int| 0 <= i < rest.len() && (#[trigger] rest[i]).0 == key;
            assert(pairs[i].0 == key);
        }
        if whole.contains_key(key) && !first_wins(rest).contains_key(key) {
            assert(pairs[last].0 == key);
        }
        if exists|i: int| 0 <= i < pairs.len() && (#[trigger] pairs[i]).0 == key {
            let i = choose|i: int| 0 <= i < pairs.len() && (#[trigger] pairs[i]).0 == key;
            if i < last {
                assert(rest[i].0 == key);
            }
            assert(whole.contains_key(key));
        }
        assert forall|i: int|
            0 <= i < pairs.len() && (#[trigger] pairs[i]).0 == key && (forall|j: int|
                0 <= j < i ==> (#[trigger] pairs[j]).0 != key) implies whole[key]
            == pairs[i].1 by {
            if i < last {
                assert(rest[i].0 == key);
                assert forall|j: int| 0 <= j < i implies (#[trigger] rest[j]).0 != key by {
                    assert(pairs[j].0 != key);
                }
                assert(first_wins(rest)[key] == rest[i].1);
                assert(first_wins(rest).contains_key(key));
            } else {
                if first_wins(rest).contains_key(key) {
                    let k = choose|k: int| 0 <= k < rest.len() && (#[trigger] rest[k]).0 == key;
                    assert(pairs[k].0 != key);
                }
            }
        }
    }
}

} // verus!
