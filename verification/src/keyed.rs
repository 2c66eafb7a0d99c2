use vstd::prelude::*;

verus! {

/// The finite map named by a sequence of key-value pairs; a later pair
/// with the same key shadows an earlier one.
pub open spec fn pairs_map<V>(s: Seq<(i32, V)>) -> Map<i32, V>
    decreases s.len(),
{
    if s.len() == 0 {
        Map::empty()
    } else {
        pairs_map(s.drop_last()).insert(s.last().0, s.last().1)
    }
}

/// No key occurs twice.
pub open spec fn pairs_unique<V>(s: Seq<(i32, V)>) -> bool {
    forall|i: int, j: int| 0 <= i < j < s.len() ==> (#[trigger] s[i]).0 != (#[trigger] s[j]).0
}

/// Some pair carries the key.
pub open spec fn pairs_has<V>(s: Seq<(i32, V)>, id: i32) -> bool {
    exists|i: int| 0 <= i < s.len() && (#[trigger] s[i]).0 == id
}

pub proof fn lemma_pairs_map_domain<V>(s: Seq<(i32, V)>, id: i32)
    ensures
        pairs_map(s).contains_key(id) <==> pairs_has(s, id),
    decreases s.len(),
{
    if s.len() > 0 {
        lemma_pairs_map_domain(s.drop_last(), id);
        if s.last().0 == id {
            assert(s[s.len() - 1].0 == id);
        } else {
            assert(forall|i: int|
                0 <= i < s.len() - 1 ==> (#[trigger] s.drop_last()[i]) == s[i]);
            if pairs_has(s, id) {
                let i = choose|i: int| 0 <= i < s.len() && (#[trigger] s[i]).0 == id;
                assert(i < s.len() - 1);
                assert(s.drop_last()[i].0 == id);
            }
        }
    }
}

pub proof fn lemma_pairs_map_push<V>(s: Seq<(i32, V)>, p: (i32, V))
    ensures
        pairs_map(s.push(p)) == pairs_map(s).insert(p.0, p.1),
{
    assert(s.push(p).drop_last() =~= s);
    assert(s.push(p).last() == p);
}

pub proof fn lemma_pairs_map_update<V>(s: Seq<(i32, V)>, i: int, p: (i32, V))
    requires
        0 <= i < s.len(),
        pairs_unique(s),
        s[i].0 == p.0,
    ensures
        pairs_map(s.update(i, p)) == pairs_map(s).insert(p.0, p.1),
    decreases s.len(),
{
    let u = s.update(i, p);
    if i == s.len() - 1 {
        assert(u.drop_last() =~= s.drop_last());
        assert(u.last() == p);
        assert(pairs_map(s.drop_last()).insert(s.last().0, s.last().1).insert(p.0, p.1)
            =~= pairs_map(s.drop_last()).insert(p.0, p.1));
    } else {
        assert(forall|k: int| 0 <= k < s.len() - 1 ==> (#[trigger] s.drop_last()[k]) == s[k]);
        assert(pairs_unique(s.drop_last()));
        assert(u.drop_last() =~= s.drop_last().update(i, p));
        assert(u.last() == s.last());
        lemma_pairs_map_update(s.drop_last(), i, p);
        assert(s.last().0 != p.0);
        assert(pairs_map(s.drop_last()).insert(p.0, p.1).insert(s.last().0, s.last().1)
            =~= pairs_map(s.drop_last()).insert(s.last().0, s.last().1).insert(p.0, p.1));
    }
}

pub proof fn lemma_pairs_map_remove<V>(s: Seq<(i32, V)>, i: int)
    requires
        0 <= i < s.len(),
        pairs_unique(s),
    ensures
        pairs_map(s.remove(i)) == pairs_map(s).remove(s[i].0),
    decreases s.len(),
{
    let r = s.remove(i);
    if i == s.len() - 1 {
        assert(r =~= s.drop_last());
        assert(!pairs_has(s.drop_last(), s[i].0)) by {
            assert(forall|k: int| 0 <= k < s.len() - 1 ==> (#[trigger] s.drop_last()[k]) == s[k]);
        }
        lemma_pairs_map_domain(s.drop_last(), s[i].0);
        assert(pairs_map(s.drop_last()).insert(s.last().0, s.last().1).remove(s[i].0)
            =~= pairs_map(s.drop_last()));
    } else {
        assert(forall|k: int| 0 <= k < s.len() - 1 ==> (#[trigger] s.drop_last()[k]) == s[k]);
        assert(pairs_unique(s.drop_last()));
        assert(r.drop_last() =~= s.drop_last().remove(i));
        assert(r.last() == s.last());
        lemma_pairs_map_remove(s.drop_last(), i);
        assert(s.last().0 != s[i].0);
        assert(pairs_map(s.drop_last()).remove(s[i].0).insert(s.last().0, s.last().1)
            =~= pairs_map(s.drop_last()).insert(s.last().0, s.last().1).remove(s[i].0));
    }
}

pub proof fn lemma_pairs_map_len<V>(s: Seq<(i32, V)>)
    requires
        pairs_unique(s),
    ensures
        pairs_map(s).dom().finite(),
        pairs_map(s).len() == s.len(),
    decreases s.len(),
{
    if s.len() > 0 {
        assert(forall|k: int| 0 <= k < s.len() - 1 ==> (#[trigger] s.drop_last()[k]) == s[k]);
        assert(pairs_unique(s.drop_last()));
        lemma_pairs_map_len(s.drop_last());
        assert(!pairs_has(s.drop_last(), s.last().0));
        lemma_pairs_map_domain(s.drop_last(), s.last().0);
    }
}

/// Removing an absent key changes nothing.
pub proof fn lemma_pairs_map_remove_absent<V>(s: Seq<(i32, V)>, id: i32)
    requires
        !pairs_has(s, id),
    ensures
        pairs_map(s).remove(id) == pairs_map(s),
{
    lemma_pairs_map_domain(s, id);
    assert(pairs_map(s).remove(id) =~= pairs_map(s));
}

/// The finite map from key to the *abstraction* of the stored value, for
/// values that carry a view.
pub open spec fn pairs_vmap<V: View>(s: Seq<(i32, V)>) -> Map<i32, V::V>
    decreases s.len(),
{
    if s.len() == 0 {
        Map::empty()
    } else {
        pairs_vmap(s.drop_last()).insert(s.last().0, s.last().1@)
    }
}

pub proof fn lemma_pairs_vmap_domain<V: View>(s: Seq<(i32, V)>, id: i32)
    ensures
        pairs_vmap(s).contains_key(id) <==> pairs_has(s, id),
    decreases s.len(),
{
    if s.len() > 0 {
        lemma_pairs_vmap_domain(s.drop_last(), id);
        if s.last().0 == id {
            assert(s[s.len() - 1].0 == id);
        } else {
            assert(forall|i: int|
                0 <= i < s.len() - 1 ==> (#[trigger] s.drop_last()[i]) == s[i]);
            if pairs_has(s, id) {
                let i = choose|i: int| 0 <= i < s.len() && (#[trigger] s[i]).0 == id;
                assert(i < s.len() - 1);
                assert(s.drop_last()[i].0 == id);
            }
        }
    }
}

pub proof fn lemma_pairs_vmap_index<V: View>(s: Seq<(i32, V)>, i: int)
    requires
        0 <= i < s.len(),
        pairs_unique(s),
    ensures
        pairs_vmap(s).contains_key(s[i].0),
        pairs_vmap(s)[s[i].0] == s[i].1@,
    decreases s.len(),
{
    if i == s.len() - 1 {
        assert(s.last() == s[i]);
    } else {
        assert(forall|k: int| 0 <= k < s.len() - 1 ==> (#[trigger] s.drop_last()[k]) == s[k]);
        assert(pairs_unique(s.drop_last()));
        lemma_pairs_vmap_index(s.drop_last(), i);
        assert(s.last().0 != s[i].0);
    }
}

pub proof fn lemma_pairs_vmap_push<V: View>(s: Seq<(i32, V)>, p: (i32, V))
    ensures
        pairs_vmap(s.push(p)) == pairs_vmap(s).insert(p.0, p.1@),
{
    assert(s.push(p).drop_last() =~= s);
    assert(s.push(p).last() == p);
}

pub proof fn lemma_pairs_vmap_update<V: View>(s: Seq<(i32, V)>, i: int, p: (i32, V))
    requires
        0 <= i < s.len(),
        pairs_unique(s),
        s[i].0 == p.0,
    ensures
        pairs_vmap(s.update(i, p)) == pairs_vmap(s).insert(p.0, p.1@),
    decreases s.len(),
{
    let u = s.update(i, p);
    if i == s.len() - 1 {
        assert(u.drop_last() =~= s.drop_last());
        assert(u.last() == p);
        assert(pairs_vmap(s.drop_last()).insert(s.last().0, s.last().1@).insert(p.0, p.1@)
            =~= pairs_vmap(s.drop_last()).insert(p.0, p.1@));
    } else {
        assert(forall|k: int| 0 <= k < s.len() - 1 ==> (#[trigger] s.drop_last()[k]) == s[k]);
        assert(pairs_unique(s.drop_last()));
        assert(u.drop_last() =~= s.drop_last().update(i, p));
        assert(u.last() == s.last());
        lemma_pairs_vmap_update(s.drop_last(), i, p);
        assert(s.last().0 != p.0);
        assert(pairs_vmap(s.drop_last()).insert(p.0, p.1@).insert(s.last().0, s.last().1@)
            =~= pairs_vmap(s.drop_last()).insert(s.last().0, s.last().1@).insert(p.0, p.1@));
    }
}

pub proof fn lemma_pairs_vmap_remove<V: View>(s: Seq<(i32, V)>, i: int)
    requires
        0 <= i < s.len(),
        pairs_unique(s),
    ensures
        pairs_vmap(s.remove(i)) == pairs_vmap(s).remove(s[i].0),
    decreases s.len(),
{
    let r = s.remove(i);
    if i == s.len() - 1 {
        assert(r =~= s.drop_last());
        assert(!pairs_has(s.drop_last(), s[i].0)) by {
            assert(forall|k: int| 0 <= k < s.len() - 1 ==> (#[trigger] s.drop_last()[k]) == s[k]);
        }
        lemma_pairs_vmap_domain(s.drop_last(), s[i].0);
        assert(pairs_vmap(s.drop_last()).insert(s.last().0, s.last().1@).remove(s[i].0)
            =~= pairs_vmap(s.drop_last()));
    } else {
        assert(forall|k: int| 0 <= k < s.len() - 1 ==> (#[trigger] s.drop_last()[k]) == s[k]);
        assert(pairs_unique(s.drop_last()));
        assert(r.drop_last() =~= s.drop_last().remove(i));
        assert(r.last() == s.last());
        lemma_pairs_vmap_remove(s.drop_last(), i);
        assert(s.last().0 != s[i].0);
        assert(pairs_vmap(s.drop_last()).remove(s[i].0).insert(s.last().0, s.last().1@)
            =~= pairs_vmap(s.drop_last()).insert(s.last().0, s.last().1@).remove(s[i].0));
    }
}

} // verus!
