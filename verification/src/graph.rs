use vstd::prelude::*;

verus! {

/// Identities in `m` whose parent, as read by `parent`, is `p`.
pub open spec fn children_in<V>(m: Map<u64, V>, parent: spec_fn(V) -> u64, p: u64) -> Set<u64> {
    m.dom().filter(|k: u64| parent(m[k]) == p)
}

/// Adding a fresh identity adds it to its own parent's children and to nobody else's.
pub proof fn lemma_children_insert_fresh<V>(
    m: Map<u64, V>,
    parent: spec_fn(V) -> u64,
    p: u64,
    k: u64,
    v: V,
)
    requires
        !m.dom().contains(k),
    ensures
        children_in(m.insert(k, v), parent, p) == if parent(v) == p {
            children_in(m, parent, p).insert(k)
        } else {
            children_in(m, parent, p)
        },
{
    if parent(v) == p {
        assert(children_in(m.insert(k, v), parent, p) =~= children_in(m, parent, p).insert(k));
    } else {
        assert(children_in(m.insert(k, v), parent, p) =~= children_in(m, parent, p));
    }
}

/// Replacing a record without changing its parent leaves every child set unchanged.
pub proof fn lemma_children_same_parent<V>(
    m: Map<u64, V>,
    parent: spec_fn(V) -> u64,
    p: u64,
    k: u64,
    v: V,
)
    requires
        m.dom().contains(k),
        parent(v) == parent(m[k]),
    ensures
        children_in(m.insert(k, v), parent, p) == children_in(m, parent, p),
{
    assert(children_in(m.insert(k, v), parent, p) =~= children_in(m, parent, p));
}

/// Moving a record to another parent moves it between exactly those two child sets.
pub proof fn lemma_children_reparent<V>(
    m: Map<u64, V>,
    parent: spec_fn(V) -> u64,
    p: u64,
    k: u64,
    v: V,
)
    requires
        m.dom().contains(k),
    ensures
        children_in(m.insert(k, v), parent, p) == if parent(v) == p {
            children_in(m, parent, p).insert(k)
        } else {
            children_in(m, parent, p).remove(k)
        },
{
    if parent(v) == p {
        assert(children_in(m.insert(k, v), parent, p) =~= children_in(m, parent, p).insert(k));
    } else {
        assert(children_in(m.insert(k, v), parent, p) =~= children_in(m, parent, p).remove(k));
    }
}

/// Removing a record removes it from every child set.
pub proof fn lemma_children_remove<V>(m: Map<u64, V>, parent: spec_fn(V) -> u64, p: u64, k: u64)
    ensures
        children_in(m.remove(k), parent, p) == children_in(m, parent, p).remove(k),
{
    assert(children_in(m.remove(k), parent, p) =~= children_in(m, parent, p).remove(k));
}

/// Maps with the same identities and the same parent links have the same child sets.
pub proof fn lemma_children_same_links<V>(
    new: Map<u64, V>,
    old: Map<u64, V>,
    parent: spec_fn(V) -> u64,
    p: u64,
)
    requires
        new.dom() == old.dom(),
        forall|k: u64| #[trigger] old.contains_key(k) ==> parent(new[k]) == parent(old[k]),
    ensures
        children_in(new, parent, p) == children_in(old, parent, p),
{
    assert(children_in(new, parent, p) =~= children_in(old, parent, p));
}

/// Child sets of a finite map are finite and bounded by the map's size.
pub proof fn lemma_children_finite<V>(m: Map<u64, V>, parent: spec_fn(V) -> u64, p: u64)
    requires
        m.dom().finite(),
    ensures
        children_in(m, parent, p).finite(),
        children_in(m, parent, p).len() <= m.dom().len(),
{
    let f = |k: u64| parent(m[k]) == p;
    m.dom().lemma_len_filter(f);
    assert(children_in(m, parent, p) =~= m.dom().filter(f));
}

} // verus!
