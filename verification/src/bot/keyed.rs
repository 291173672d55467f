//! Lists of entries keyed by text, read as finite maps.
//!
//! The stores of the bot keep their entries in insertion order with no key
//! twice; these lemmas relate such a list to the map it stands for.

use vstd::prelude::*;

verus! {

/// No key occurs twice in `s`.
pub open spec fn keys_distinct<V>(s: Seq<(Seq<char>, V)>) -> bool {
    forall|i: int, j: int|
        0 <= i < s.len() && 0 <= j < s.len() && i != j ==> #[trigger] s[i].0 != #[trigger] s[j].0
}

/// `k` is the key of some entry of `s`.
pub open spec fn has_key<V>(s: Seq<(Seq<char>, V)>, k: Seq<char>) -> bool {
    exists|i: int| 0 <= i < s.len() && #[trigger] s[i].0 == k
}

/// The map from each key of `s` to its value; a later entry wins over an
/// earlier one with the same key.
pub open spec fn to_map<V>(s: Seq<(Seq<char>, V)>) -> Map<Seq<char>, V>
    decreases s.len(),
{
    if s.len() == 0 {
        Map::empty()
    } else {
        to_map(s.drop_last()).insert(s.last().0, s.last().1)
    }
}

/// The keys of the map are the keys of the list, and the map is finite.
pub proof fn lemma_to_map_dom<V>(s: Seq<(Seq<char>, V)>)
    ensures
        to_map(s).dom().finite(),
        forall|k: Seq<char>| #[trigger] to_map(s).dom().contains(k) <==> has_key(s, k),
    decreases s.len(),
{
    if s.len() > 0 {
        let p = s.drop_last();
        lemma_to_map_dom(p);
        assert forall|k: Seq<char>| #[trigger] to_map(s).dom().contains(k) <==> has_key(s, k) by {
            if has_key(s, k) {
                let i = choose|i: int| 0 <= i < s.len() && #[trigger] s[i].0 == k;
                if i < s.len() - 1 {
                    assert(p[i].0 == k);
                    assert(has_key(p, k));
                }
            }
            if to_map(s).dom().contains(k) && k != s.last().0 {
                assert(has_key(p, k));
                let i = choose|i: int| 0 <= i < p.len() && #[trigger] p[i].0 == k;
                assert(s[i].0 == k);
            }
        }
    }
}

/// Each entry of a list without repeated keys gives the map's value for its key.
pub proof fn lemma_to_map_value<V>(s: Seq<(Seq<char>, V)>, i: int)
    requires
        keys_distinct(s),
        0 <= i < s.len(),
    ensures
        to_map(s).dom().contains(s[i].0),
        to_map(s)[s[i].0] == s[i].1,
    decreases s.len(),
{
    let p = s.drop_last();
    if i < s.len() - 1 {
        assert(keys_distinct(p)) by {
            assert forall|a: int, b: int|
                0 <= a < p.len() && 0 <= b < p.len() && a != b implies #[trigger] p[a].0
                != #[trigger] p[b].0 by {
                assert(s[a].0 != s[b].0);
            }
        }
        lemma_to_map_value(p, i);
        assert(s[i].0 != s.last().0);
    }
}

/// A list without repeated keys has as many entries as its map has keys.
pub proof fn lemma_to_map_len<V>(s: Seq<(Seq<char>, V)>)
    requires
        keys_distinct(s),
    ensures
        to_map(s).dom().len() == s.len(),
    decreases s.len(),
{
    if s.len() > 0 {
        let p = s.drop_last();
        assert(keys_distinct(p)) by {
            assert forall|a: int, b: int|
                0 <= a < p.len() && 0 <= b < p.len() && a != b implies #[trigger] p[a].0
                != #[trigger] p[b].0 by {
                assert(s[a].0 != s[b].0);
            }
        }
        lemma_to_map_len(p);
        lemma_to_map_dom(p);
        if has_key(p, s.last().0) {
            let i = choose|i: int| 0 <= i < p.len() && #[trigger] p[i].0 == s.last().0;
            assert(s[i].0 == s[s.len() - 1].0);
        }
        assert(!to_map(p).dom().contains(s.last().0));
    }
}

/// Removing the entry at `i` removes its key from the map.
pub proof fn lemma_to_map_remove<V>(s: Seq<(Seq<char>, V)>, i: int)
    requires
        keys_distinct(s),
        0 <= i < s.len(),
    ensures
        keys_distinct(s.remove(i)),
        to_map(s.remove(i)) == to_map(s).remove(s[i].0),
{
    let r = s.remove(i);
    assert(forall|j: int| 0 <= j < r.len() ==> #[trigger] r[j] == (if j < i { s[j] } else { s[j + 1] }));
    assert(keys_distinct(r)) by {
        assert forall|a: int, b: int|
            0 <= a < r.len() && 0 <= b < r.len() && a != b implies #[trigger] r[a].0
            != #[trigger] r[b].0 by {
            let a2 = if a < i { a } else { a + 1 };
            let b2 = if b < i { b } else { b + 1 };
            assert(r[a] == s[a2]);
            assert(r[b] == s[b2]);
            assert(s[a2].0 != s[b2].0);
        }
    }
    lemma_to_map_dom(r);
    lemma_to_map_dom(s);
    lemma_to_map_value(s, i);
    assert forall|k: Seq<char>| #[trigger] to_map(r).dom().contains(k) <==> to_map(s).remove(
        s[i].0,
    ).dom().contains(k) by {
        if has_key(r, k) {
            let j = choose|j: int| 0 <= j < r.len() && #[trigger] r[j].0 == k;
            let j2 = if j < i { j } else { j + 1 };
            assert(s[j2].0 == k);
            assert(has_key(s, k));
            assert(j2 != i);
            assert(k != s[i].0);
        }
        if has_key(s, k) && k != s[i].0 {
            let j = choose|j: int| 0 <= j < s.len() && #[trigger] s[j].0 == k;
            assert(j != i);
            let j2 = if j < i { j } else { j - 1 };
            assert(r[j2] == s[j]);
            assert(has_key(r, k));
        }
    }
    assert forall|k: Seq<char>| #[trigger] to_map(r).dom().contains(k) implies to_map(r)[k]
        == to_map(s)[k] by {
        let j = choose|j: int| 0 <= j < r.len() && #[trigger] r[j].0 == k;
        let j2 = if j < i { j } else { j + 1 };
        assert(r[j] == s[j2]);
        lemma_to_map_value(r, j);
        lemma_to_map_value(s, j2);
    }
    assert(to_map(r) =~= to_map(s).remove(s[i].0));
}

/// Replacing the value of the entry at `i` updates its key in the map.
pub proof fn lemma_to_map_update<V>(s: Seq<(Seq<char>, V)>, i: int, v: V)
    requires
        keys_distinct(s),
        0 <= i < s.len(),
    ensures
        keys_distinct(s.update(i, (s[i].0, v))),
        to_map(s.update(i, (s[i].0, v))) == to_map(s).insert(s[i].0, v),
{
    let u = s.update(i, (s[i].0, v));
    assert(keys_distinct(u)) by {
        assert forall|a: int, b: int|
            0 <= a < u.len() && 0 <= b < u.len() && a != b implies #[trigger] u[a].0
            != #[trigger] u[b].0 by {
            assert(u[a].0 == s[a].0);
            assert(u[b].0 == s[b].0);
        }
    }
    lemma_to_map_dom(u);
    lemma_to_map_dom(s);
    assert forall|k: Seq<char>| #[trigger] to_map(u).dom().contains(k) <==> to_map(s).insert(
        s[i].0,
        v,
    ).dom().contains(k) by {
        if has_key(u, k) {
            let j = choose|j: int| 0 <= j < u.len() && #[trigger] u[j].0 == k;
            assert(s[j].0 == k);
        }
        if has_key(s, k) {
            let j = choose|j: int| 0 <= j < s.len() && #[trigger] s[j].0 == k;
            assert(u[j].0 == k);
        }
        if k == s[i].0 {
            assert(u[i].0 == k);
        }
    }
    assert forall|k: Seq<char>| #[trigger] to_map(u).dom().contains(k) implies to_map(u)[k]
        == to_map(s).insert(s[i].0, v)[k] by {
        let j = choose|j: int| 0 <= j < u.len() && #[trigger] u[j].0 == k;
        lemma_to_map_value(u, j);
        if j != i {
            lemma_to_map_value(s, j);
            assert(s[j].0 != s[i].0);
        }
    }
    assert(to_map(u) =~= to_map(s).insert(s[i].0, v));
}

/// Appending an entry with a new key keeps the keys distinct and inserts the
/// entry into the map.
pub proof fn lemma_to_map_push<V>(s: Seq<(Seq<char>, V)>, k: Seq<char>, v: V)
    requires
        keys_distinct(s),
        !has_key(s, k),
    ensures
        keys_distinct(s.push((k, v))),
        to_map(s.push((k, v))) == to_map(s).insert(k, v),
{
    let t = s.push((k, v));
    assert(t.drop_last() =~= s);
    assert forall|a: int, b: int|
        0 <= a < t.len() && 0 <= b < t.len() && a != b implies #[trigger] t[a].0
        != #[trigger] t[b].0 by {
        if a < s.len() && b < s.len() {
            assert(t[a] == s[a] && t[b] == s[b]);
        } else if a < s.len() {
            assert(t[a] == s[a]);
        } else {
            assert(t[b] == s[b]);
        }
    }
}

} // verus!
