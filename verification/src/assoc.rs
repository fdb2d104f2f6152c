use vstd::prelude::*;

verus! {

/// The value stored under `key` in an association sequence, going by the
/// keys' views; the first matching pair wins.
pub open spec fn assoc_find<K: View, V: View>(s: Seq<(K, V)>, key: K::V) -> Option<V::V>
    decreases s.len(),
{
    if s.len() == 0 {
        None
    } else if s[0].0@ == key {
        Some(s[0].1@)
    } else {
        assoc_find(s.drop_first(), key)
    }
}

/// The map an association sequence stands for.
pub open spec fn assoc_map<K: View, V: View>(s: Seq<(K, V)>) -> Map<K::V, V::V> {
    Map::new(
        |key: K::V| assoc_find(s, key) is Some,
        |key: K::V| assoc_find(s, key).unwrap(),
    )
}

/// No two pairs share a key. Kept as an invariant of both registrar stores,
/// so the position a linear scan finds is the only one for its key.
pub open spec fn unique_keys<K: View, V: View>(s: Seq<(K, V)>) -> bool {
    forall|i: int, j: int| 0 <= i < j < s.len() ==> s[i].0@ != s[j].0@
}

/// A failed lookup means no pair carries the key, and conversely.
pub proof fn lemma_assoc_find_none<K: View, V: View>(s: Seq<(K, V)>, key: K::V)
    ensures
        (assoc_find(s, key) is None) <==> (forall|i: int| 0 <= i < s.len() ==> s[i].0@ != key),
    decreases s.len(),
{
    if s.len() > 0 {
        lemma_assoc_find_none(s.drop_first(), key);
        assert forall|i: int| 1 <= i < s.len() implies s[i] == s.drop_first()[i - 1] by {}
    }
}

/// A scan that stands at a non-matching pair may step over it.
pub proof fn lemma_assoc_find_skip_step<K: View, V: View>(s: Seq<(K, V)>, key: K::V, i: int)
    requires
        0 <= i < s.len(),
        s[i].0@ != key,
    ensures
        assoc_find(s.skip(i), key) == assoc_find(s.skip(i + 1), key),
{
    assert(s.skip(i)[0] == s[i]);
    assert(s.skip(i).drop_first() =~= s.skip(i + 1));
}

/// A scan that stands at a matching pair has found the stored value.
pub proof fn lemma_assoc_find_skip_found<K: View, V: View>(s: Seq<(K, V)>, key: K::V, i: int)
    requires
        0 <= i < s.len(),
        s[i].0@ == key,
    ensures
        assoc_find(s.skip(i), key) == Some(s[i].1@),
{
    assert(s.skip(i)[0] == s[i]);
}

/// Looking anything up after a push: the sequence in front shadows the new
/// pair, which is only reached for a key the sequence does not hold.
pub proof fn lemma_assoc_find_push<K: View, V: View>(s: Seq<(K, V)>, p: (K, V), key: K::V)
    ensures
        assoc_find(s.push(p), key) == if assoc_find(s, key) is Some {
            assoc_find(s, key)
        } else if p.0@ == key {
            Some(p.1@)
        } else {
            None::<V::V>
        },
    decreases s.len(),
{
    if s.len() == 0 {
        assert(s.push(p)[0] == p);
        assert(s.push(p).drop_first() =~= Seq::<(K, V)>::empty());
        assert(assoc_find(Seq::<(K, V)>::empty(), key) is None);
        assert(assoc_find(s, key) is None);
    } else {
        assert(s.push(p)[0] == s[0]);
        assert(s.push(p).drop_first() =~= s.drop_first().push(p));
        lemma_assoc_find_push(s.drop_first(), p, key);
    }
}

/// Looking anything up after an update in place: only the updated key's
/// value changes, provided no earlier pair shadows the updated position.
pub proof fn lemma_assoc_find_update<K: View, V: View>(s: Seq<(K, V)>, i: int, p: (K, V), key: K::V)
    requires
        0 <= i < s.len(),
        s[i].0@ == p.0@,
        forall|j: int| 0 <= j < i ==> s[j].0@ != p.0@,
    ensures
        assoc_find(s.update(i, p), key) == if p.0@ == key {
            Some(p.1@)
        } else {
            assoc_find(s, key)
        },
    decreases s.len(),
{
    if i == 0 {
        assert(s.update(0, p)[0] == p);
        if p.0@ != key {
            assert(s.update(0, p).drop_first() =~= s.drop_first());
        }
    } else {
        assert(s.update(i, p)[0] == s[0]);
        assert(s[0].0@ != p.0@);
        assert(s.update(i, p).drop_first() =~= s.drop_first().update(i - 1, p));
        assert forall|j: int| 0 <= j < i - 1 implies s.drop_first()[j].0@ != p.0@ by {
            assert(s.drop_first()[j] == s[j + 1]);
        }
        lemma_assoc_find_update(s.drop_first(), i - 1, p, key);
    }
}

/// Pushing a pair whose key is absent inserts it into the map and keeps the
/// keys unique.
pub proof fn lemma_assoc_map_push<K: View, V: View>(s: Seq<(K, V)>, p: (K, V))
    requires
        unique_keys(s),
        assoc_find(s, p.0@) is None,
    ensures
        assoc_map(s.push(p)) =~= assoc_map(s).insert(p.0@, p.1@),
        unique_keys(s.push(p)),
{
    assert forall|key: K::V| #[trigger] assoc_find(s.push(p), key) == (if key == p.0@ {
        Some(p.1@)
    } else {
        assoc_find(s, key)
    }) by {
        lemma_assoc_find_push(s, p, key);
    }
    assert(assoc_map(s.push(p)) =~= assoc_map(s).insert(p.0@, p.1@));
    lemma_assoc_find_none(s, p.0@);
    assert forall|i: int, j: int| 0 <= i < j < s.push(p).len() implies s.push(p)[i].0@
        != s.push(p)[j].0@ by {
        if j < s.len() {
            assert(s.push(p)[i] == s[i] && s.push(p)[j] == s[j]);
        } else {
            assert(s.push(p)[i] == s[i] && s.push(p)[j] == p);
        }
    }
}

/// Updating the one pair that carries a key overwrites its value in the map
/// and keeps the keys unique.
pub proof fn lemma_assoc_map_update<K: View, V: View>(s: Seq<(K, V)>, i: int, p: (K, V))
    requires
        unique_keys(s),
        0 <= i < s.len(),
        s[i].0@ == p.0@,
    ensures
        assoc_map(s.update(i, p)) =~= assoc_map(s).insert(p.0@, p.1@),
        unique_keys(s.update(i, p)),
{
    assert forall|j: int| 0 <= j < i implies s[j].0@ != p.0@ by {}
    assert forall|key: K::V| #[trigger] assoc_find(s.update(i, p), key) == (if key == p.0@ {
        Some(p.1@)
    } else {
        assoc_find(s, key)
    }) by {
        lemma_assoc_find_update(s, i, p, key);
    }
    assert(assoc_map(s.update(i, p)) =~= assoc_map(s).insert(p.0@, p.1@));
}

} // verus!
