//! Association sequences as a model for the lookup tables.
//!
//! Every table in this crate is stored as a vector of key/value pairs with
//! pairwise-distinct keys. Its mathematical content is the `Map` obtained by
//! inserting the pairs in order; the lemmas here relate that map to the
//! operations the tables perform: membership scans, in-place updates and
//! appends.

use vstd::prelude::*;

verus! {

/// The map described by an association sequence; later pairs override
/// earlier ones with the same key.
pub open spec fn amap_view<K, V>(s: Seq<(K, V)>) -> Map<K, V>
    decreases s.len(),
{
    if s.len() == 0 {
        Map::empty()
    } else {
        amap_view(s.drop_last()).insert(s.last().0, s.last().1)
    }
}

/// All keys of the sequence are distinct.
pub open spec fn amap_unique<K, V>(s: Seq<(K, V)>) -> bool {
    forall|i: int, j: int| 0 <= i < j < s.len() ==> s[i].0 != s[j].0
}

/// A key is in the map exactly when some pair of the sequence carries it.
pub proof fn lemma_amap_dom<K, V>(s: Seq<(K, V)>, k: K)
    ensures
        amap_view(s).contains_key(k) <==> exists|i: int| 0 <= i < s.len() && s[i].0 == k,
    decreases s.len(),
{
    if s.len() > 0 {
        lemma_amap_dom(s.drop_last(), k);
        if s.last().0 == k {
            assert(s[s.len() - 1].0 == k);
        } else if amap_view(s).contains_key(k) {
            let i = choose|i: int| 0 <= i < s.drop_last().len() && s.drop_last()[i].0 == k;
            assert(s[i].0 == k);
        } else if exists|i: int| 0 <= i < s.len() && s[i].0 == k {
            let i = choose|i: int| 0 <= i < s.len() && s[i].0 == k;
            assert(s.drop_last()[i].0 == k);
        }
    }
}

/// With distinct keys, the pair at any position gives the map's value for
/// its key.
pub proof fn lemma_amap_index<K, V>(s: Seq<(K, V)>, i: int)
    requires
        amap_unique(s),
        0 <= i < s.len(),
    ensures
        amap_view(s).contains_key(s[i].0),
        amap_view(s)[s[i].0] == s[i].1,
    decreases s.len(),
{
    if i < s.len() - 1 {
        assert(s.drop_last()[i] == s[i]);
        lemma_amap_index(s.drop_last(), i);
        assert(s[i].0 != s.last().0);
    }
}

/// Updating the pair at a key's position updates the map at that key.
pub proof fn lemma_amap_update<K, V>(s: Seq<(K, V)>, i: int, v: V)
    requires
        amap_unique(s),
        0 <= i < s.len(),
    ensures
        amap_unique(s.update(i, (s[i].0, v))),
        amap_view(s.update(i, (s[i].0, v))) == amap_view(s).insert(s[i].0, v),
    decreases s.len(),
{
    let k = s[i].0;
    let t = s.update(i, (k, v));
    assert(forall|j: int| 0 <= j < s.len() && j != i ==> t[j] == s[j]);
    if i == s.len() - 1 {
        assert(t.drop_last() =~= s.drop_last());
        assert(amap_view(t) =~= amap_view(s).insert(k, v));
    } else {
        assert(t.drop_last() =~= s.drop_last().update(i, (k, v)));
        assert(s.drop_last()[i] == s[i]);
        lemma_amap_update(s.drop_last(), i, v);
        assert(s.last().0 != k);
        assert(t.last() == s.last());
        assert(amap_view(t) =~= amap_view(s).insert(k, v));
    }
}

/// Appending a pair with a fresh key inserts it into the map.
pub proof fn lemma_amap_push<K, V>(s: Seq<(K, V)>, k: K, v: V)
    requires
        amap_unique(s),
        forall|i: int| 0 <= i < s.len() ==> s[i].0 != k,
    ensures
        amap_unique(s.push((k, v))),
        amap_view(s.push((k, v))) == amap_view(s).insert(k, v),
{
    let t = s.push((k, v));
    assert(t.drop_last() =~= s);
    assert(t.last() == (k, v));
    assert(forall|i: int, j: int| 0 <= i < j < t.len() ==> t[i].0 != t[j].0) by {
        assert(forall|i: int| 0 <= i < s.len() ==> t[i] == s[i]);
    }
}

} // verus!
