//! A verified key-value table keyed by byte vectors, the shape of the two
//! persisted tables of the protocol (owner to escrow balance, credential to
//! asset binding). All lookups are by exact key; the table is viewed as a
//! `Map` from key bytes to the value's view.

use vstd::prelude::*;

use crate::bytes::bytes_eq;

verus! {

/// An exact-key table from byte-vector keys to values, abstracted as a
/// `Map<Seq<u8>, V::V>`.
pub struct KvTable<V> {
    entries: Vec<(Vec<u8>, V)>,
}

/// The map described by an entry sequence: later entries win, though under
/// `distinct_keys` the order is irrelevant.
pub closed spec fn map_of<V: View>(s: Seq<(Vec<u8>, V)>) -> Map<Seq<u8>, V::V>
    decreases s.len(),
{
    if s.len() == 0 {
        Map::empty()
    } else {
        map_of(s.drop_last()).insert(s.last().0@, s.last().1@)
    }
}

/// No two entries share a key.
pub closed spec fn distinct_keys<V>(s: Seq<(Vec<u8>, V)>) -> bool {
    forall|i: int, j: int| 0 <= i < j < s.len() ==> s[i].0@ != s[j].0@
}

/// A key is in the map exactly when some entry holds it.
proof fn lemma_map_of_contains<V: View>(s: Seq<(Vec<u8>, V)>, k: Seq<u8>)
    ensures
        map_of(s).dom().contains(k) <==> exists|i: int| 0 <= i < s.len() && s[i].0@ == k,
    decreases s.len(),
{
    if s.len() == 0 {
    } else {
        lemma_map_of_contains(s.drop_last(), k);
        if s.last().0@ == k {
            assert(s[s.len() - 1].0@ == k);
        } else {
            assert forall|i: int| 0 <= i < s.len() && s[i].0@ == k implies
                0 <= i < s.drop_last().len() && s.drop_last()[i].0@ == k by {
                assert(i != s.len() - 1);
            }
        }
    }
}

/// Under distinct keys, the map sends each entry's key to that entry's value.
proof fn lemma_map_of_index<V: View>(s: Seq<(Vec<u8>, V)>, i: int)
    requires
        distinct_keys(s),
        0 <= i < s.len(),
    ensures
        map_of(s).dom().contains(s[i].0@),
        map_of(s)[s[i].0@] == s[i].1@,
    decreases s.len(),
{
    if i == s.len() - 1 {
    } else {
        assert(distinct_keys(s.drop_last()));
        lemma_map_of_index(s.drop_last(), i);
        assert(s[i].0@ != s.last().0@);
    }
}

/// Removing the entry at `i` removes exactly its key from the map.
proof fn lemma_map_of_remove<V: View>(s: Seq<(Vec<u8>, V)>, i: int)
    requires
        distinct_keys(s),
        0 <= i < s.len(),
    ensures
        map_of(s.remove(i)) == map_of(s).remove(s[i].0@),
    decreases s.len(),
{
    if i == s.len() - 1 {
        assert(s.remove(i) =~= s.drop_last());
        lemma_map_of_contains(s.drop_last(), s[i].0@);
        assert forall|j: int| 0 <= j < s.drop_last().len() implies s.drop_last()[j].0@ != s[i].0@ by {
            assert(s[j].0@ != s[s.len() - 1].0@);
        }
        assert(!map_of(s.drop_last()).dom().contains(s[i].0@));
        assert(map_of(s).remove(s[i].0@) =~= map_of(s.drop_last()));
    } else {
        let t = s.remove(i);
        assert(t.drop_last() =~= s.drop_last().remove(i));
        assert(t.last() == s.last());
        assert(distinct_keys(s.drop_last()));
        lemma_map_of_remove(s.drop_last(), i);
        assert(map_of(t) == map_of(s.drop_last()).remove(s[i].0@).insert(s.last().0@, s.last().1@));
        assert(s[i].0@ != s.last().0@);
        assert(map_of(s.drop_last()).remove(s[i].0@).insert(s.last().0@, s.last().1@)
            =~= map_of(s.drop_last()).insert(s.last().0@, s.last().1@).remove(s[i].0@));
    }
}

impl<V: View> View for KvTable<V> {
    type V = Map<Seq<u8>, V::V>;

    closed spec fn view(&self) -> Map<Seq<u8>, V::V> {
        map_of(self.entries@)
    }
}

impl<V: View> KvTable<V> {
    /// The table's entries never repeat a key.
    pub closed spec fn wf(&self) -> bool {
        distinct_keys(self.entries@)
    }

    /// An empty table.
    pub fn new() -> (t: Self)
        ensures
            t.wf(),
            t@ == Map::<Seq<u8>, V::V>::empty(),
    {
        KvTable { entries: Vec::new() }
    }

    /// The index of the entry holding `key`, if any.
    fn find(&self, key: &Vec<u8>) -> (r: Option<usize>)
        ensures
            r matches Some(i) ==> i < self.entries@.len() && self.entries@[i as int].0@ == key@,
            r is None ==> forall|j: int| 0 <= j < self.entries@.len()
                ==> self.entries@[j].0@ != key@,
    {
        let mut i: usize = 0;
        while i < self.entries.len()
            invariant
                i <= self.entries@.len(),
                forall|j: int| 0 <= j < i ==> self.entries@[j].0@ != key@,
            decreases self.entries@.len() - i,
        {
            if bytes_eq(&self.entries[i].0, key) {
                return Some(i);
            }
            i += 1;
        }
        None
    }

    /// The value stored under `key`, if any.
    pub fn get(&self, key: &Vec<u8>) -> (r: Option<&V>)
        requires
            self.wf(),
        ensures
            r matches Some(v) ==> self@.dom().contains(key@) && v@ == self@[key@],
            r is None ==> !self@.dom().contains(key@),
    {
        match self.find(key) {
            Some(i) => {
                proof {
                    lemma_map_of_index(self.entries@, i as int);
                }
                Some(&self.entries[i].1)
            },
            None => {
                proof {
                    lemma_map_of_contains(self.entries@, key@);
                }
                None
            },
        }
    }

    /// Removes and returns the value stored under `key`, if any.
    pub fn remove(&mut self, key: &Vec<u8>) -> (r: Option<V>)
        requires
            old(self).wf(),
        ensures
            final(self).wf(),
            r matches Some(v) ==> old(self)@.dom().contains(key@) && v@ == old(self)@[key@]
                && final(self)@ == old(self)@.remove(key@),
            r is None ==> !old(self)@.dom().contains(key@) && final(self)@ == old(self)@,
    {
        match self.find(key) {
            Some(i) => {
                proof {
                    lemma_map_of_index(self.entries@, i as int);
                    lemma_map_of_remove(self.entries@, i as int);
                    assert forall|a: int, b: int|
                        0 <= a < b < self.entries@.remove(i as int).len() implies
                        self.entries@.remove(i as int)[a].0@
                            != self.entries@.remove(i as int)[b].0@ by {
                        let s = self.entries@;
                        let a0: int = if a < i { a } else { a + 1 };
                        let b0: int = if b < i { b } else { b + 1 };
                        assert(s.remove(i as int)[a] == s[a0]);
                        assert(s.remove(i as int)[b] == s[b0]);
                    }
                }
                let pair = self.entries.remove(i);
                Some(pair.1)
            },
            None => {
                proof {
                    lemma_map_of_contains(self.entries@, key@);
                }
                None
            },
        }
    }

    /// Stores `value` under `key`, replacing any prior value for that key.
    pub fn insert(&mut self, key: Vec<u8>, value: V)
        requires
            old(self).wf(),
        ensures
            final(self).wf(),
            final(self)@ == old(self)@.insert(key@, value@),
    {
        let ghost m0 = self@;
        let _ = self.remove(&key);
        proof {
            lemma_map_of_contains(self.entries@, key@);
        }
        let ghost s1 = self.entries@;
        self.entries.push((key, value));
        proof {
            assert(self.entries@.drop_last() =~= s1);
            assert(forall|j: int| 0 <= j < s1.len() ==> s1[j].0@ != key@);
            assert(distinct_keys(self.entries@));
            assert(map_of(self.entries@) == map_of(s1).insert(key@, value@));
            assert(map_of(s1).insert(key@, value@) =~= m0.insert(key@, value@));
        }
    }
}

} // verus!
