//! Association lists: sequences of key/value pairs read as finite maps.
use vstd::prelude::*;

verus! {

/// Some pair of `s` carries the key `k`.
pub open spec fn has_key<K, V>(s: Seq<(K, V)>, k: K) -> bool {
    exists|i: int| 0 <= i < s.len() && (#[trigger] s[i]).0 == k
}

/// The position of a pair that carries `k` (meaningful where `has_key(s, k)`).
pub open spec fn key_index<K, V>(s: Seq<(K, V)>, k: K) -> int {
    choose|i: int| 0 <= i < s.len() && (#[trigger] s[i]).0 == k
}

/// No key occurs in two pairs.
pub open spec fn unique_keys<K, V>(s: Seq<(K, V)>) -> bool {
    forall|i: int, j: int|
        0 <= i < s.len() && 0 <= j < s.len() && i != j ==> (#[trigger] s[i]).0 != (#[trigger] s[j]).0
}

/// The map that a list of pairs stands for.
pub open spec fn assoc_view<K, V>(s: Seq<(K, V)>) -> Map<K, V> {
    Map::new(|k: K| has_key(s, k), |k: K| s[key_index(s, k)].1)
}

/// With unique keys, each pair is what the map holds under its key.
pub proof fn lemma_lookup<K, V>(s: Seq<(K, V)>, i: int)
    requires
        unique_keys(s),
        0 <= i < s.len(),
    ensures
        assoc_view(s).contains_key(s[i].0),
        assoc_view(s)[s[i].0] == s[i].1,
{
    assert(has_key(s, s[i].0));
    let j = key_index(s, s[i].0);
    assert(s[j].0 == s[i].0);
}

/// A key that no pair carries is not in the map.
pub proof fn lemma_absent<K, V>(s: Seq<(K, V)>, k: K)
    requires
        forall|i: int| 0 <= i < s.len() ==> (#[trigger] s[i]).0 != k,
    ensures
        !assoc_view(s).contains_key(k),
{
}

/// Appending a pair with a fresh key inserts it into the map.
pub proof fn lemma_push<K, V>(s: Seq<(K, V)>, k: K, v: V)
    requires
        unique_keys(s),
        !assoc_view(s).contains_key(k),
    ensures
        unique_keys(s.push((k, v))),
        assoc_view(s.push((k, v))) == assoc_view(s).insert(k, v),
{
    let t = s.push((k, v));
    assert forall|i: int| 0 <= i < s.len() implies (#[trigger] s[i]).0 != k by {
        if s[i].0 == k {
            assert(has_key(s, k));
        }
    }
    assert(unique_keys(t)) by {
        assert forall|i: int, j: int|
            0 <= i < t.len() && 0 <= j < t.len() && i != j implies (#[trigger] t[i]).0 != (
            #[trigger] t[j]).0 by {
            if i < s.len() && j < s.len() {
                assert(t[i] == s[i] && t[j] == s[j]);
            } else if i < s.len() {
                assert(t[i] == s[i]);
            } else {
                assert(t[j] == s[j]);
            }
        }
    }
    assert forall|x: K| #[trigger] assoc_view(t).contains_key(x) == assoc_view(s).insert(
        k,
        v,
    ).contains_key(x) by {
        if has_key(s, x) {
            let j = key_index(s, x);
            assert(t[j] == s[j]);
        }
        if has_key(t, x) && x != k {
            let j = key_index(t, x);
            assert(t[j] == s[j]);
        }
        if x == k {
            assert(t[s.len() as int].0 == k);
        }
    }
    assert forall|x: K| #[trigger] assoc_view(t).contains_key(x) implies assoc_view(t)[x]
        == assoc_view(s).insert(k, v)[x] by {
        let j = key_index(t, x);
        if x == k {
            lemma_lookup(t, s.len() as int);
        } else {
            assert(t[j] == s[j]);
            lemma_lookup(s, j);
        }
    }
    assert(assoc_view(t) =~= assoc_view(s).insert(k, v));
}

/// Replacing the value of one pair overwrites its key in the map.
pub proof fn lemma_update<K, V>(s: Seq<(K, V)>, i: int, v: V)
    requires
        unique_keys(s),
        0 <= i < s.len(),
    ensures
        unique_keys(s.update(i, (s[i].0, v))),
        assoc_view(s.update(i, (s[i].0, v))) == assoc_view(s).insert(s[i].0, v),
{
    let k = s[i].0;
    let t = s.update(i, (k, v));
    assert(unique_keys(t)) by {
        assert forall|a: int, b: int|
            0 <= a < t.len() && 0 <= b < t.len() && a != b implies (#[trigger] t[a]).0 != (
            #[trigger] t[b]).0 by {
            assert(t[a].0 == s[a].0 && t[b].0 == s[b].0);
        }
    }
    assert forall|x: K| #[trigger] assoc_view(t).contains_key(x) == assoc_view(s).insert(
        k,
        v,
    ).contains_key(x) by {
        if has_key(s, x) {
            let j = key_index(s, x);
            assert(t[j].0 == s[j].0);
        }
        if has_key(t, x) {
            let j = key_index(t, x);
            assert(t[j].0 == s[j].0);
        }
        if x == k {
            assert(t[i].0 == k);
        }
    }
    assert forall|x: K| #[trigger] assoc_view(t).contains_key(x) implies assoc_view(t)[x]
        == assoc_view(s).insert(k, v)[x] by {
        let j = key_index(t, x);
        assert(t[j].0 == s[j].0);
        lemma_lookup(t, j);
        if j != i {
            assert(t[j] == s[j]);
            lemma_lookup(s, j);
        }
    }
    assert(assoc_view(t) =~= assoc_view(s).insert(k, v));
}

/// Removing one pair removes its key from the map.
pub proof fn lemma_remove<K, V>(s: Seq<(K, V)>, i: int)
    requires
        unique_keys(s),
        0 <= i < s.len(),
    ensures
        unique_keys(s.remove(i)),
        assoc_view(s.remove(i)) == assoc_view(s).remove(s[i].0),
{
    let k = s[i].0;
    let t = s.remove(i);
    assert forall|a: int| 0 <= a < t.len() implies #[trigger] t[a] == s[if a < i {
        a
    } else {
        a + 1
    }] by {}
    assert(unique_keys(t)) by {
        assert forall|a: int, b: int|
            0 <= a < t.len() && 0 <= b < t.len() && a != b implies (#[trigger] t[a]).0 != (
            #[trigger] t[b]).0 by {
            let a1 = if a < i { a } else { a + 1 };
            let b1 = if b < i { b } else { b + 1 };
            assert(t[a] == s[a1] && t[b] == s[b1]);
        }
    }
    assert forall|x: K| #[trigger] assoc_view(t).contains_key(x) == assoc_view(s).remove(
        k,
    ).contains_key(x) by {
        if has_key(t, x) {
            let j = key_index(t, x);
            let j1 = if j < i { j } else { j + 1 };
            assert(t[j] == s[j1]);
            assert(s[j1].0 == x);
            assert(has_key(s, x));
        }
        if has_key(s, x) && x != k {
            let j = key_index(s, x);
            assert(j != i);
            let j0 = if j < i { j } else { j - 1 };
            assert(t[j0] == s[j]);
        }
    }
    assert forall|x: K| #[trigger] assoc_view(t).contains_key(x) implies assoc_view(t)[x]
        == assoc_view(s).remove(k)[x] by {
        let j = key_index(t, x);
        let j1 = if j < i { j } else { j + 1 };
        assert(t[j] == s[j1]);
        lemma_lookup(t, j);
        lemma_lookup(s, j1);
    }
    assert(assoc_view(t) =~= assoc_view(s).remove(k));
}

} // verus!
