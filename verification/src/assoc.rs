//! Association lists: sequences of key/value pairs read as finite maps, where
//! the first entry with a key gives its value. Registers by name and analyses
//! by path are kept this way.

use vstd::prelude::*;

verus! {

/// `i` is the first position in `s` whose key is `k`.
pub open spec fn is_first<K, V>(s: Seq<(K, V)>, k: K, i: int) -> bool {
    &&& 0 <= i < s.len()
    &&& s[i].0 == k
    &&& forall|j: int| 0 <= j < i ==> s[j].0 != k
}

/// Some position in `s` has key `k`.
pub open spec fn has_key<K, V>(s: Seq<(K, V)>, k: K) -> bool {
    exists|i: int| is_first(s, k, i)
}

/// The first position in `s` with key `k` (meaningful where `has_key`).
pub open spec fn first_index<K, V>(s: Seq<(K, V)>, k: K) -> int {
    choose|i: int| is_first(s, k, i)
}

/// The value that `s` gives to `k`: that of its first entry with that key.
pub open spec fn lookup<K, V>(s: Seq<(K, V)>, k: K) -> Option<V> {
    if has_key(s, k) {
        Some(s[first_index(s, k)].1)
    } else {
        None
    }
}

/// `s` with `k` bound to `v`: the first entry with key `k` is replaced in
/// place, or, where there is none, the entry is appended.
pub open spec fn assoc_insert<K, V>(s: Seq<(K, V)>, k: K, v: V) -> Seq<(K, V)> {
    if has_key(s, k) {
        s.update(first_index(s, k), (k, v))
    } else {
        s.push((k, v))
    }
}

/// The finite map that `s` stands for.
pub open spec fn as_map<K, V>(s: Seq<(K, V)>) -> Map<K, V> {
    Map::new(|k: K| has_key(s, k), |k: K| lookup(s, k).unwrap())
}

/// Only one position can be the first with a given key.
pub proof fn lemma_first_unique<K, V>(s: Seq<(K, V)>, k: K, i: int, j: int)
    requires
        is_first(s, k, i),
        is_first(s, k, j),
    ensures
        i == j,
{
    if i < j {
        assert(s[i].0 != k);
    }
    if j < i {
        assert(s[j].0 != k);
    }
}

/// Where some entry has key `k`, there is a first one.
pub proof fn lemma_has_key<K, V>(s: Seq<(K, V)>, k: K, i: int)
    requires
        0 <= i < s.len(),
        s[i].0 == k,
    ensures
        has_key(s, k),
    decreases i,
{
    if exists|j: int| 0 <= j < i && s[j].0 == k {
        let j = choose|j: int| 0 <= j < i && s[j].0 == k;
        lemma_has_key(s, k, j);
    } else {
        assert(is_first(s, k, i));
    }
}

/// No two entries of `s` have the same key.
pub open spec fn distinct_keys<K, V>(s: Seq<(K, V)>) -> bool {
    forall|i: int, j: int| 0 <= i < j < s.len() ==> #[trigger] s[i].0 != #[trigger] s[j].0
}

/// Binding a key keeps the keys of a list distinct.
pub proof fn lemma_insert_distinct<K, V>(s: Seq<(K, V)>, k: K, v: V)
    requires
        distinct_keys(s),
    ensures
        distinct_keys(assoc_insert(s, k, v)),
{
    let t = assoc_insert(s, k, v);
    if has_key(s, k) {
        let f = first_index(s, k);
        assert(is_first(s, k, f));
        assert forall|i: int, j: int| 0 <= i < j < t.len() implies #[trigger] t[i].0 != #[trigger] t[j].0 by {
            assert(s[i].0 != s[j].0);
            if i == f {
                assert(t[i].0 == s[i].0);
            }
            if j == f {
                assert(t[j].0 == s[j].0);
            }
        }
    } else {
        assert forall|i: int, j: int| 0 <= i < j < t.len() implies #[trigger] t[i].0 != #[trigger] t[j].0 by {
            if j == s.len() {
                if s[i].0 == k {
                    lemma_has_key(s, k, i);
                }
            } else {
                assert(s[i].0 != s[j].0);
            }
        }
    }
}

/// A read after a write: binding `k` to `v` makes `k` give `v`, and leaves
/// every other key as it was.
pub proof fn law_lookup_after_insert<K, V>(s: Seq<(K, V)>, k: K, v: V, k2: K)
    ensures
        lookup(assoc_insert(s, k, v), k2) == (if k2 == k {
            Some(v)
        } else {
            lookup(s, k2)
        }),
{
    let t = assoc_insert(s, k, v);
    if has_key(s, k) {
        let i = first_index(s, k);
        assert(is_first(s, k, i));
        if k2 == k {
            assert(is_first(t, k, i));
            lemma_first_unique(t, k, i, first_index(t, k));
        } else {
            assert forall|j: int| is_first(t, k2, j) <==> is_first(s, k2, j) by {
                if 0 <= j < s.len() {
                    assert forall|m: int| 0 <= m < j implies (t[m].0 != k2 <==> s[m].0 != k2) by {
                        if m == i {
                        }
                    }
                }
            }
            if has_key(s, k2) {
                assert(is_first(t, k2, first_index(s, k2)));
                lemma_first_unique(t, k2, first_index(s, k2), first_index(t, k2));
            }
        }
    } else {
        assert forall|j: int| 0 <= j < s.len() implies s[j].0 != k by {
            if s[j].0 == k {
                lemma_has_key(s, k, j);
            }
        }
        if k2 == k {
            assert(is_first(t, k, s.len() as int));
            lemma_first_unique(t, k, s.len() as int, first_index(t, k));
        } else {
            assert forall|j: int| is_first(t, k2, j) <==> is_first(s, k2, j) by {
                if 0 <= j < s.len() {
                    assert forall|m: int| 0 <= m < j implies t[m] == s[m] by {}
                }
            }
            if has_key(s, k2) {
                assert(is_first(t, k2, first_index(s, k2)));
                lemma_first_unique(t, k2, first_index(s, k2), first_index(t, k2));
            }
        }
    }
}

/// Binding a key is binding it in the map that the list stands for.
pub proof fn law_insert_as_map<K, V>(s: Seq<(K, V)>, k: K, v: V)
    ensures
        as_map(assoc_insert(s, k, v)) == as_map(s).insert(k, v),
{
    let t = assoc_insert(s, k, v);
    assert forall|k2: K| has_key(t, k2) == (k2 == k || has_key(s, k2)) by {
        law_lookup_after_insert(s, k, v, k2);
    }
    assert forall|k2: K| #[trigger] has_key(t, k2) implies lookup(t, k2).unwrap() == as_map(s).insert(
        k,
        v,
    )[k2] by {
        law_lookup_after_insert(s, k, v, k2);
    }
    assert(as_map(t) =~= as_map(s).insert(k, v));
}

/// The list after binding each pair of `later` in turn.
pub open spec fn insert_all<K, V>(s: Seq<(K, V)>, later: Seq<(K, V)>) -> Seq<(K, V)>
    decreases later.len(),
{
    if later.len() == 0 {
        s
    } else {
        assoc_insert(insert_all(s, later.drop_last()), later.last().0, later.last().1)
    }
}

/// Writes of other keys leave a key alone: after binding each pair of
/// `later` in turn, a key that none of them binds gives what it gave before.
pub proof fn law_lookup_after_other_inserts<K, V>(s: Seq<(K, V)>, later: Seq<(K, V)>, k: K)
    requires
        forall|j: int| 0 <= j < later.len() ==> (#[trigger] later[j]).0 != k,
    ensures
        lookup(insert_all(s, later), k) == lookup(s, k),
    decreases later.len(),
{
    if later.len() > 0 {
        let rest = later.drop_last();
        assert forall|j: int| 0 <= j < rest.len() implies (#[trigger] rest[j]).0 != k by {
            assert(rest[j] == later[j]);
        }
        law_lookup_after_other_inserts(s, rest, k);
        assert(later.last() == later[later.len() - 1]);
        law_lookup_after_insert(insert_all(s, rest), later.last().0, later.last().1, k);
    }
}

/// A read after a write, with any number of writes of other keys between:
/// binding `k` to `v` and then each pair of `later`, none of which binds `k`,
/// leaves `k` giving `v`.
pub proof fn law_read_after_later_writes<K, V>(s: Seq<(K, V)>, k: K, v: V, later: Seq<(K, V)>)
    requires
        forall|j: int| 0 <= j < later.len() ==> (#[trigger] later[j]).0 != k,
    ensures
        lookup(insert_all(assoc_insert(s, k, v), later), k) == Some(v),
{
    law_lookup_after_other_inserts(assoc_insert(s, k, v), later, k);
    law_lookup_after_insert(s, k, v, k);
}

/// A key never written is absent: after binding each pair of `later` in turn,
/// starting from the empty list, a key that none of them binds gives nothing.
pub proof fn law_never_written_absent<K, V>(later: Seq<(K, V)>, k: K)
    requires
        forall|j: int| 0 <= j < later.len() ==> (#[trigger] later[j]).0 != k,
    ensures
        lookup(insert_all(Seq::<(K, V)>::empty(), later), k) is None,
{
    law_lookup_after_other_inserts(Seq::<(K, V)>::empty(), later, k);
    if has_key(Seq::<(K, V)>::empty(), k) {
        assert(is_first(Seq::<(K, V)>::empty(), k, first_index(Seq::<(K, V)>::empty(), k)));
    }
}

} // verus!
