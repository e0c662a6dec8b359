//! Tables kept as lists of entries with distinct keys, and the map they describe.
use vstd::prelude::*;

verus! {

/// An entry of a table, with the key it is filed under.
pub trait KeyedEntry {
    type Key;

    spec fn key(&self) -> Self::Key;
}

/// The table described by a list of entries: each entry under its key, a later
/// entry replacing an earlier one with the same key.
pub open spec fn keyed_map<V: KeyedEntry>(s: Seq<V>) -> Map<V::Key, V>
    decreases s.len(),
{
    if s.len() == 0 {
        Map::empty()
    } else {
        keyed_map(s.drop_last()).insert(s.last().key(), s.last())
    }
}

/// No two entries of `s` share a key.
pub open spec fn keys_unique<V: KeyedEntry>(s: Seq<V>) -> bool {
    forall|i: int, j: int| 0 <= i < j < s.len() ==> s[i].key() != s[j].key()
}

pub proof fn lemma_keyed_contains<V: KeyedEntry>(s: Seq<V>, k: V::Key)
    ensures
        keyed_map(s).contains_key(k) <==> exists|i: int| 0 <= i < s.len() && s[i].key() == k,
    decreases s.len(),
{
    if s.len() > 0 {
        lemma_keyed_contains(s.drop_last(), k);
        if keyed_map(s.drop_last()).contains_key(k) {
            let i = choose|i: int| 0 <= i < s.len() - 1 && s.drop_last()[i].key() == k;
            assert(s[i].key() == k);
        }
        if exists|i: int| 0 <= i < s.len() && s[i].key() == k {
            let i = choose|i: int| 0 <= i < s.len() && s[i].key() == k;
            if i < s.len() - 1 {
                assert(s.drop_last()[i].key() == k);
            }
        }
    }
}

pub proof fn lemma_keyed_value<V: KeyedEntry>(s: Seq<V>, i: int)
    requires
        keys_unique(s),
        0 <= i < s.len(),
    ensures
        keyed_map(s).contains_key(s[i].key()),
        keyed_map(s)[s[i].key()] == s[i],
    decreases s.len(),
{
    if i < s.len() - 1 {
        assert(s.drop_last()[i] == s[i]);
        lemma_keyed_value(s.drop_last(), i);
    }
}

pub proof fn lemma_keyed_update<V: KeyedEntry>(s: Seq<V>, i: int, e: V)
    requires
        keys_unique(s),
        0 <= i < s.len(),
        s[i].key() == e.key(),
    ensures
        keys_unique(s.update(i, e)),
        keyed_map(s.update(i, e)) == keyed_map(s).insert(e.key(), e),
{
    let t = s.update(i, e);
    assert(keys_unique(t)) by {
        assert forall|a: int, b: int| 0 <= a < b < t.len() implies t[a].key() != t[b].key() by {
            assert(t[a].key() == s[a].key());
            assert(t[b].key() == s[b].key());
        }
    }
    let m1 = keyed_map(t);
    let m2 = keyed_map(s).insert(e.key(), e);
    assert forall|k: V::Key| m1.contains_key(k) <==> m2.contains_key(k) by {
        lemma_keyed_contains(t, k);
        lemma_keyed_contains(s, k);
        if exists|j: int| 0 <= j < s.len() && s[j].key() == k {
            let j = choose|j: int| 0 <= j < s.len() && s[j].key() == k;
            assert(t[j].key() == k);
        }
        if exists|j: int| 0 <= j < t.len() && t[j].key() == k {
            let j = choose|j: int| 0 <= j < t.len() && t[j].key() == k;
            assert(s[j].key() == k);
        }
    }
    assert forall|k: V::Key| m1.contains_key(k) implies m1[k] == m2[k] by {
        lemma_keyed_contains(t, k);
        let j = choose|j: int| 0 <= j < t.len() && t[j].key() == k;
        lemma_keyed_value(t, j);
        if j != i {
            lemma_keyed_value(s, j);
        }
    }
    assert(m1 =~= m2);
}

pub proof fn lemma_keyed_remove<V: KeyedEntry>(s: Seq<V>, i: int)
    requires
        keys_unique(s),
        0 <= i < s.len(),
    ensures
        keys_unique(s.remove(i)),
        keyed_map(s.remove(i)) == keyed_map(s).remove(s[i].key()),
{
    let t = s.remove(i);
    assert forall|a: int| 0 <= a < t.len() implies #[trigger] t[a] == s[if a < i { a } else { a + 1 }] by {
    }
    assert(keys_unique(t)) by {
        assert forall|a: int, b: int| 0 <= a < b < t.len() implies t[a].key() != t[b].key() by {
            assert(t[a] == s[if a < i { a } else { a + 1 }]);
            assert(t[b] == s[if b < i { b } else { b + 1 }]);
        }
    }
    let m1 = keyed_map(t);
    let m2 = keyed_map(s).remove(s[i].key());
    assert forall|k: V::Key| m1.contains_key(k) <==> m2.contains_key(k) by {
        lemma_keyed_contains(t, k);
        lemma_keyed_contains(s, k);
        if exists|j: int| 0 <= j < t.len() && t[j].key() == k {
            let j = choose|j: int| 0 <= j < t.len() && t[j].key() == k;
            let jj = if j < i { j } else { j + 1 };
            assert(t[j] == s[jj]);
            assert(s[jj].key() != s[i].key());
        }
        if m2.contains_key(k) {
            let j = choose|j: int| 0 <= j < s.len() && s[j].key() == k;
            assert(j != i);
            let jt = if j < i { j } else { j - 1 };
            assert(t[jt] == s[j]);
        }
    }
    assert forall|k: V::Key| m1.contains_key(k) implies m1[k] == m2[k] by {
        lemma_keyed_contains(t, k);
        let j = choose|j: int| 0 <= j < t.len() && t[j].key() == k;
        let jj = if j < i { j } else { j + 1 };
        assert(t[j] == s[jj]);
        lemma_keyed_value(t, j);
        lemma_keyed_value(s, jj);
    }
    assert(m1 =~= m2);
}

pub proof fn lemma_keyed_len<V: KeyedEntry>(s: Seq<V>)
    requires
        keys_unique(s),
    ensures
        keyed_map(s).dom().finite(),
        keyed_map(s).len() == s.len(),
    decreases s.len(),
{
    if s.len() > 0 {
        let init = s.drop_last();
        assert(keys_unique(init));
        lemma_keyed_len(init);
        lemma_keyed_contains(init, s.last().key());
        if exists|i: int| 0 <= i < init.len() && init[i].key() == s.last().key() {
            let i = choose|i: int| 0 <= i < init.len() && init[i].key() == s.last().key();
            assert(s[i].key() == s[s.len() - 1].key());
        }
    }
}

} // verus!
