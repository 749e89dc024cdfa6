use vstd::prelude::*;

verus! {

/// Appending an absent value keeps a sequence duplicate-free and adds it to its set.
pub proof fn lemma_push_fresh<A>(s: Seq<A>, x: A)
    requires
        s.no_duplicates(),
        !s.contains(x),
    ensures
        s.push(x).no_duplicates(),
        s.push(x).to_set() == s.to_set().insert(x),
{
    let t = s.push(x);
    assert forall|a: int, b: int| 0 <= a < b < t.len() implies t[a] != t[b] by {
        if b == s.len() {
            assert(s[a] == t[a]);
        }
    }
    assert forall|y: A| t.to_set().contains(y) <==> s.to_set().insert(x).contains(y) by {
        if t.contains(y) {
            let k = choose|k: int| 0 <= k < t.len() && t[k] == y;
            if k < s.len() {
                assert(s[k] == y);
                assert(s.contains(y));
            }
        }
        if s.contains(y) {
            let k = choose|k: int| 0 <= k < s.len() && s[k] == y;
            assert(t[k] == y);
        }
        if y == x {
            assert(t[s.len() as int] == x);
        }
    }
    assert(t.to_set() =~= s.to_set().insert(x));
}

/// Removing the entry at `i` of a duplicate-free sequence removes exactly that value.
pub proof fn lemma_remove_at<A>(s: Seq<A>, i: int)
    requires
        s.no_duplicates(),
        0 <= i < s.len(),
    ensures
        s.remove(i).no_duplicates(),
        s.remove(i).to_set() == s.to_set().remove(s[i]),
{
    let t = s.remove(i);
    let x = s[i];
    assert forall|a: int, b: int| 0 <= a < b < t.len() implies t[a] != t[b] by {
        let a0 = if a < i { a } else { a + 1 };
        let b0 = if b < i { b } else { b + 1 };
        assert(t[a] == s[a0]);
        assert(t[b] == s[b0]);
    }
    assert forall|y: A| t.to_set().contains(y) <==> s.to_set().remove(x).contains(y) by {
        if t.contains(y) {
            let k = choose|k: int| 0 <= k < t.len() && t[k] == y;
            let k0 = if k < i { k } else { k + 1 };
            assert(s[k0] == y);
            assert(s.contains(y));
            assert(k0 != i);
        }
        if s.contains(y) && y != x {
            let k = choose|k: int| 0 <= k < s.len() && s[k] == y;
            assert(k != i);
            let k1 = if k < i { k } else { k - 1 };
            assert(t[k1] == y);
        }
    }
    assert(t.to_set() =~= s.to_set().remove(x));
}

/// Inserting a value already present, or removing an absent one, leaves the set unchanged.
pub proof fn lemma_set_unchanged<A>(s: Seq<A>, x: A)
    ensures
        s.contains(x) ==> s.to_set().insert(x) == s.to_set(),
        !s.contains(x) ==> s.to_set().remove(x) == s.to_set(),
{
    if s.contains(x) {
        assert(s.to_set().contains(x));
        assert(s.to_set().insert(x) =~= s.to_set());
    } else {
        assert(!s.to_set().contains(x));
        assert(s.to_set().remove(x) =~= s.to_set());
    }
}

/// No key occurs twice.
pub open spec fn keys_unique<K, V>(s: Seq<(K, V)>) -> bool {
    forall|i: int, j: int| 0 <= i < j < s.len() ==> s[i].0 != s[j].0
}

/// The value recorded under `k`, if any.
pub open spec fn keyed<K, V>(s: Seq<(K, V)>, k: K) -> Option<V> {
    if exists|i: int| 0 <= i < s.len() && s[i].0 == k {
        Some(s[choose|i: int| 0 <= i < s.len() && s[i].0 == k].1)
    } else {
        None
    }
}

/// In a sequence with unique keys, the entry at `i` is the one recorded under its key.
pub proof fn lemma_keyed_at<K, V>(s: Seq<(K, V)>, i: int)
    requires
        keys_unique(s),
        0 <= i < s.len(),
    ensures
        keyed(s, s[i].0) == Some(s[i].1),
{
    let k = choose|j: int| 0 <= j < s.len() && s[j].0 == s[i].0;
    assert(s[i].0 == s[i].0);
    if k != i {
        if k < i {
            assert(s[k].0 != s[i].0);
        } else {
            assert(s[i].0 != s[k].0);
        }
    }
}

/// Appending an entry under a fresh key records it and changes no other key.
pub proof fn lemma_keyed_push<K, V>(s: Seq<(K, V)>, k: K, v: V)
    requires
        keys_unique(s),
        keyed(s, k) is None,
    ensures
        keys_unique(s.push((k, v))),
        forall|j: K| #[trigger] keyed(s.push((k, v)), j) == if j == k {
            Some(v)
        } else {
            keyed(s, j)
        },
{
    let t = s.push((k, v));
    assert forall|a: int, b: int| 0 <= a < b < t.len() implies t[a].0 != t[b].0 by {
        if b == s.len() {
            assert(s[a].0 == t[a].0);
            if s[a].0 == k {
                assert(exists|i: int| 0 <= i < s.len() && s[i].0 == k);
            }
        }
    }
    assert forall|j: K| #[trigger] keyed(t, j) == if j == k {
        Some(v)
    } else {
        keyed(s, j)
    } by {
        if j == k {
            lemma_keyed_at(t, s.len() as int);
        } else if exists|i: int| 0 <= i < s.len() && s[i].0 == j {
            let i = choose|i: int| 0 <= i < s.len() && s[i].0 == j;
            lemma_keyed_at(s, i);
            assert(t[i] == s[i]);
            lemma_keyed_at(t, i);
        } else {
            assert forall|i: int| 0 <= i < t.len() implies t[i].0 != j by {
                if i < s.len() {
                    assert(t[i] == s[i]);
                }
            }
        }
    }
}

/// Replacing the value at `i` changes only the value recorded under its key.
pub proof fn lemma_keyed_update<K, V>(s: Seq<(K, V)>, i: int, v: V)
    requires
        keys_unique(s),
        0 <= i < s.len(),
    ensures
        keys_unique(s.update(i, (s[i].0, v))),
        forall|j: K| #[trigger] keyed(s.update(i, (s[i].0, v)), j) == if j == s[i].0 {
            Some(v)
        } else {
            keyed(s, j)
        },
{
    let t = s.update(i, (s[i].0, v));
    assert forall|a: int, b: int| 0 <= a < b < t.len() implies t[a].0 != t[b].0 by {
        assert(t[a].0 == s[a].0);
        assert(t[b].0 == s[b].0);
    }
    assert forall|j: K| #[trigger] keyed(t, j) == if j == s[i].0 {
        Some(v)
    } else {
        keyed(s, j)
    } by {
        if j == s[i].0 {
            lemma_keyed_at(t, i);
        } else if exists|m: int| 0 <= m < s.len() && s[m].0 == j {
            let m = choose|m: int| 0 <= m < s.len() && s[m].0 == j;
            lemma_keyed_at(s, m);
            assert(m != i);
            assert(t[m] == s[m]);
            lemma_keyed_at(t, m);
        } else {
            assert forall|m: int| 0 <= m < t.len() implies t[m].0 != j by {
                assert(t[m].0 == s[m].0);
            }
        }
    }
}

/// Removing the entry at `i` forgets its key and changes no other.
pub proof fn lemma_keyed_remove<K, V>(s: Seq<(K, V)>, i: int)
    requires
        keys_unique(s),
        0 <= i < s.len(),
    ensures
        keys_unique(s.remove(i)),
        forall|j: K| #[trigger] keyed(s.remove(i), j) == if j == s[i].0 {
            None
        } else {
            keyed(s, j)
        },
{
    let t = s.remove(i);
    assert forall|a: int, b: int| 0 <= a < b < t.len() implies t[a].0 != t[b].0 by {
        let a0 = if a < i { a } else { a + 1 };
        let b0 = if b < i { b } else { b + 1 };
        assert(t[a] == s[a0]);
        assert(t[b] == s[b0]);
    }
    assert forall|j: K| #[trigger] keyed(t, j) == if j == s[i].0 {
        None
    } else {
        keyed(s, j)
    } by {
        if j == s[i].0 {
            assert forall|m: int| 0 <= m < t.len() implies t[m].0 != j by {
                let m0 = if m < i { m } else { m + 1 };
                assert(t[m] == s[m0]);
                if m0 < i {
                    assert(s[m0].0 != s[i].0);
                } else {
                    assert(s[i].0 != s[m0].0);
                }
            }
        } else if exists|m: int| 0 <= m < s.len() && s[m].0 == j {
            let m = choose|m: int| 0 <= m < s.len() && s[m].0 == j;
            lemma_keyed_at(s, m);
            assert(m != i);
            let m1 = if m < i { m } else { m - 1 };
            assert(t[m1] == s[m]);
            lemma_keyed_at(t, m1);
        } else {
            assert forall|m: int| 0 <= m < t.len() implies t[m].0 != j by {
                let m0 = if m < i { m } else { m + 1 };
                assert(t[m] == s[m0]);
            }
        }
    }
}

} // verus!
