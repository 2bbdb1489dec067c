//! A map view over an association vector.
//!
//! The window table is stored as a vector of `(key, value)` pairs with
//! pairwise distinct keys, because the handlers walk it and mutate entries in
//! place.  Contracts, though, are most natural over the induced finite map:
//! this module defines that view ([`map_of`]) and proves how it moves under
//! the vector operations the handlers use (push, update, remove).

use vstd::prelude::*;

verus! {

/// The keys of the association list, in storage order.
pub open spec fn key_seq<V>(s: Seq<(u64, V)>) -> Seq<u64> {
    s.map_values(|p: (u64, V)| p.0)
}

/// No two pairs share a key.
pub open spec fn unique_keys<V>(s: Seq<(u64, V)>) -> bool {
    forall|i: int, j: int| 0 <= i < j < s.len() ==> s[i].0 != s[j].0
}

/// The finite map induced by the association list.  With unique keys, later
/// pairs never overwrite earlier ones, so the order of insertion is
/// immaterial.
pub open spec fn map_of<V>(s: Seq<(u64, V)>) -> Map<u64, V>
    decreases s.len(),
{
    if s.len() == 0 {
        Map::empty()
    } else {
        map_of(s.drop_last()).insert(s.last().0, s.last().1)
    }
}

/// A key is in the map exactly when some pair of the list carries it.
pub proof fn lemma_map_of_contains<V>(s: Seq<(u64, V)>, id: u64)
    ensures
        map_of(s).dom().contains(id) <==> exists|i: int| 0 <= i < s.len() && s[i].0 == id,
    decreases s.len(),
{
    if s.len() > 0 {
        lemma_map_of_contains(s.drop_last(), id);
        if s.last().0 == id {
            assert(s[s.len() - 1].0 == id);
        } else if map_of(s).dom().contains(id) {
            let i = choose|i: int| 0 <= i < s.drop_last().len() && s.drop_last()[i].0 == id;
            assert(s[i].0 == id);
        } else if exists|i: int| 0 <= i < s.len() && s[i].0 == id {
            let i = choose|i: int| 0 <= i < s.len() && s[i].0 == id;
            assert(s.drop_last()[i].0 == id);
        }
    }
}

/// With unique keys, the map sends each stored key to its stored value.
pub proof fn lemma_map_of_index<V>(s: Seq<(u64, V)>, i: int)
    requires
        unique_keys(s),
        0 <= i < s.len(),
    ensures
        map_of(s).dom().contains(s[i].0),
        map_of(s)[s[i].0] == s[i].1,
    decreases s.len(),
{
    lemma_map_of_contains(s, s[i].0);
    if i < s.len() - 1 {
        assert(s.drop_last()[i] == s[i]);
        lemma_map_of_index(s.drop_last(), i);
    }
}

/// Appending a pair inserts its binding.
pub proof fn lemma_map_of_push<V>(s: Seq<(u64, V)>, p: (u64, V))
    ensures
        map_of(s.push(p)) == map_of(s).insert(p.0, p.1),
{
    assert(s.push(p).drop_last() =~= s);
    assert(s.push(p).last() == p);
}

/// Replacing the value stored at position `i` updates that key's binding and
/// nothing else.
pub proof fn lemma_map_of_update<V>(s: Seq<(u64, V)>, i: int, v: V)
    requires
        unique_keys(s),
        0 <= i < s.len(),
    ensures
        map_of(s.update(i, (s[i].0, v))) =~= map_of(s).insert(s[i].0, v),
    decreases s.len(),
{
    let t = s.update(i, (s[i].0, v));
    if i == s.len() - 1 {
        assert(t.drop_last() =~= s.drop_last());
        assert(t.last() == (s[i].0, v));
    } else {
        assert(t.drop_last() =~= s.drop_last().update(i, (s[i].0, v)));
        assert(t.last() == s.last());
        assert(s.drop_last()[i] == s[i]);
        lemma_map_of_update(s.drop_last(), i, v);
        // The updated key differs from the last key, so the two inserts
        // commute.
        assert(s[i].0 != s.last().0);
    }
}

/// Removing the pair at position `i` removes that key's binding and nothing
/// else.
pub proof fn lemma_map_of_remove<V>(s: Seq<(u64, V)>, i: int)
    requires
        unique_keys(s),
        0 <= i < s.len(),
    ensures
        map_of(s.remove(i)) =~= map_of(s).remove(s[i].0),
    decreases s.len(),
{
    let t = s.remove(i);
    if i == s.len() - 1 {
        assert(t =~= s.drop_last());
        lemma_map_of_contains(s.drop_last(), s[i].0);
        // The removed key was the last one and occurs nowhere earlier.
        assert(forall|j: int|
            0 <= j < s.drop_last().len() ==> #[trigger] s.drop_last()[j].0 != s[i].0);
    } else {
        assert(t.drop_last() =~= s.drop_last().remove(i));
        assert(t.last() == s.last());
        assert(s.drop_last()[i] == s[i]);
        lemma_map_of_remove(s.drop_last(), i);
        assert(s[i].0 != s.last().0);
    }
}

/// A list with unique keys induces an empty map exactly when it is empty.
pub proof fn lemma_map_of_empty<V>(s: Seq<(u64, V)>)
    ensures
        (forall|id: u64| !map_of(s).dom().contains(id)) <==> s.len() == 0,
{
    if s.len() > 0 {
        lemma_map_of_contains(s, s[0].0);
    } else {
        assert forall|id: u64| !map_of(s).dom().contains(id) by {
            lemma_map_of_contains(s, id);
        }
    }
}

} // verus!
