//! A verified map from string keys to values.
//!
//! The process-wide tables of the harness (selector to geometry, recording
//! name to stored sequence) are keyed by strings. This module provides the
//! one map implementation behind them: an association list with distinct
//! keys, abstracted as a `Map<Seq<char>, V>`. Every operation's contract is
//! stated against that view; `key_views` additionally exposes the keys in
//! insertion order, which inserting an existing key preserves.

use vstd::prelude::*;

verus! {

/// The abstraction of an association list: later entries override earlier
/// ones, though distinct keys make the order immaterial.
spec fn assoc_map<V>(s: Seq<(String, V)>) -> Map<Seq<char>, V>
    decreases s.len(),
{
    if s.len() == 0 {
        Map::empty()
    } else {
        assoc_map(s.drop_last()).insert(s.last().0@, s.last().1)
    }
}

/// No two entries share a key.
spec fn distinct_keys<V>(s: Seq<(String, V)>) -> bool {
    forall|i: int, j: int| 0 <= i < j < s.len() ==> s[i].0@ != s[j].0@
}

proof fn lemma_assoc_map_index<V>(s: Seq<(String, V)>, i: int)
    requires
        distinct_keys(s),
        0 <= i < s.len(),
    ensures
        assoc_map(s).contains_key(s[i].0@),
        assoc_map(s)[s[i].0@] == s[i].1,
    decreases s.len(),
{
    if i < s.len() - 1 {
        let t = s.drop_last();
        assert(forall|j: int| 0 <= j < t.len() ==> t[j] == s[j]);
        lemma_assoc_map_index(t, i);
    }
}

proof fn lemma_assoc_map_absent<V>(s: Seq<(String, V)>, k: Seq<char>)
    requires
        forall|j: int| 0 <= j < s.len() ==> s[j].0@ != k,
    ensures
        !assoc_map(s).contains_key(k),
    decreases s.len(),
{
    if s.len() > 0 {
        let t = s.drop_last();
        assert(forall|j: int| 0 <= j < t.len() ==> t[j] == s[j]);
        lemma_assoc_map_absent(t, k);
    }
}

proof fn lemma_assoc_map_update<V>(s: Seq<(String, V)>, i: int, p: (String, V))
    requires
        distinct_keys(s),
        0 <= i < s.len(),
        p.0@ == s[i].0@,
    ensures
        assoc_map(s.update(i, p)) == assoc_map(s).insert(p.0@, p.1),
        distinct_keys(s.update(i, p)),
    decreases s.len(),
{
    let t = s.update(i, p);
    assert(distinct_keys(t));
    if i == s.len() - 1 {
        assert(t.drop_last() =~= s.drop_last());
        assert(assoc_map(t) =~= assoc_map(s).insert(p.0@, p.1));
    } else {
        let sd = s.drop_last();
        assert(forall|j: int| 0 <= j < sd.len() ==> sd[j] == s[j]);
        lemma_assoc_map_update(sd, i, p);
        assert(t.drop_last() =~= sd.update(i, p));
        assert(t.last() == s.last());
        // The final keys differ, so the two inserts commute.
        assert(s.last().0@ != p.0@);
        assert(assoc_map(t) =~= assoc_map(s).insert(p.0@, p.1));
    }
}

proof fn lemma_assoc_map_remove<V>(s: Seq<(String, V)>, i: int)
    requires
        distinct_keys(s),
        0 <= i < s.len(),
    ensures
        assoc_map(s.remove(i)) == assoc_map(s).remove(s[i].0@),
        distinct_keys(s.remove(i)),
    decreases s.len(),
{
    let t = s.remove(i);
    assert(distinct_keys(t));
    if i == s.len() - 1 {
        assert(t =~= s.drop_last());
        assert(forall|j: int| 0 <= j < i ==> s.drop_last()[j].0@ != s[i].0@);
        lemma_assoc_map_absent(s.drop_last(), s[i].0@);
        assert(assoc_map(t) =~= assoc_map(s).remove(s[i].0@));
    } else {
        let sd = s.drop_last();
        assert(forall|j: int| 0 <= j < sd.len() ==> sd[j] == s[j]);
        lemma_assoc_map_remove(sd, i);
        assert(t.drop_last() =~= sd.remove(i));
        assert(t.last() == s.last());
        assert(s.last().0@ != s[i].0@);
        assert(assoc_map(t) =~= assoc_map(s).remove(s[i].0@));
    }
}

/// A map from string keys to values of type `V`, seen in contracts as a
/// `Map<Seq<char>, V>`.
pub struct StrMap<V> {
    entries: Vec<(String, V)>,
}

impl<V> View for StrMap<V> {
    type V = Map<Seq<char>, V>;

    closed spec fn view(&self) -> Map<Seq<char>, V> {
        assoc_map(self.entries@)
    }
}

impl<V> StrMap<V> {
    /// The keys hold no duplicate, so the map view loses nothing.
    pub closed spec fn wf(&self) -> bool {
        distinct_keys(self.entries@)
    }

    /// The key views in insertion order.
    pub closed spec fn key_views(&self) -> Seq<Seq<char>> {
        self.entries@.map_values(|p: (String, V)| p.0@)
    }

    pub fn new() -> (r: Self)
        ensures
            r.wf(),
            r@ == Map::<Seq<char>, V>::empty(),
            r.key_views() == Seq::<Seq<char>>::empty(),
    {
        let r = StrMap { entries: Vec::new() };
        proof {
            assert(r.key_views() =~= Seq::<Seq<char>>::empty());
        }
        r
    }

    /// The index of the entry holding `key`, if one does.
    fn position_of(&self, key: &String) -> (r: Option<usize>)
        ensures
            (match r {
                Some(i) => i < self.entries@.len() && self.entries@[i as int].0@ == key@,
                None => forall|j: int|
                    0 <= j < self.entries@.len() ==> self.entries@[j].0@ != key@,
            }),
    {
        let mut i: usize = 0;
        while i < self.entries.len()
            invariant
                i <= self.entries@.len(),
                forall|j: int| 0 <= j < i as int ==> self.entries@[j].0@ != key@,
            decreases self.entries@.len() - i as int,
        {
            if self.entries[i].0 == *key {
                return Some(i);
            }
            i += 1;
        }
        None
    }

    pub fn contains(&self, key: &String) -> (r: bool)
        requires
            self.wf(),
        ensures
            r == self@.contains_key(key@),
    {
        match self.position_of(key) {
            Some(i) => {
                proof {
                    lemma_assoc_map_index(self.entries@, i as int);
                }
                true
            },
            None => {
                proof {
                    lemma_assoc_map_absent(self.entries@, key@);
                }
                false
            },
        }
    }

    pub fn get(&self, key: &String) -> (r: Option<&V>)
        requires
            self.wf(),
        ensures
            self@.contains_key(key@) ==> (r matches Some(v) && *v == self@[key@]),
            !self@.contains_key(key@) ==> r is None,
    {
        match self.position_of(key) {
            Some(i) => {
                proof {
                    lemma_assoc_map_index(self.entries@, i as int);
                }
                Some(&self.entries[i].1)
            },
            None => {
                proof {
                    lemma_assoc_map_absent(self.entries@, key@);
                }
                None
            },
        }
    }

    /// Stores `value` under `key`, overwriting any prior value. A fresh key
    /// goes to the end of the insertion order; an existing key keeps its
    /// place.
    pub fn insert(&mut self, key: String, value: V)
        requires
            old(self).wf(),
        ensures
            final(self).wf(),
            final(self)@ == old(self)@.insert(key@, value),
            old(self)@.contains_key(key@) ==> final(self).key_views() == old(self).key_views(),
            !old(self)@.contains_key(key@) ==> final(self).key_views() == old(self).key_views().push(
                key@,
            ),
    {
        match self.position_of(&key) {
            Some(i) => {
                proof {
                    lemma_assoc_map_index(self.entries@, i as int);
                    lemma_assoc_map_update(self.entries@, i as int, (key, value));
                }
                let ghost before = self.entries@;
                self.entries[i] = (key, value);
                proof {
                    assert(self.key_views() =~= before.map_values(|p: (String, V)| p.0@));
                }
            },
            None => {
                proof {
                    lemma_assoc_map_absent(self.entries@, key@);
                }
                let ghost before = self.entries@;
                let ghost kv = key@;
                self.entries.push((key, value));
                proof {
                    assert(self.entries@.drop_last() =~= before);
                    assert(self.key_views() =~= before.map_values(|p: (String, V)| p.0@).push(kv));
                }
            },
        }
    }

    /// Removes the entry holding `key`, if one does; the other entries keep
    /// their order.
    pub fn remove(&mut self, key: &String)
        requires
            old(self).wf(),
        ensures
            final(self).wf(),
            final(self)@ == old(self)@.remove(key@),
            !old(self)@.contains_key(key@) ==> final(self).key_views() == old(self).key_views(),
            old(self)@.contains_key(key@) ==> (exists|i: int|
                0 <= i < old(self).key_views().len() && old(self).key_views()[i] == key@
                    && final(self).key_views() == old(self).key_views().remove(i)),
    {
        match self.position_of(key) {
            Some(i) => {
                proof {
                    lemma_assoc_map_index(self.entries@, i as int);
                    lemma_assoc_map_remove(self.entries@, i as int);
                }
                let ghost before = self.entries@;
                let _ = self.entries.remove(i);
                proof {
                    assert(self.key_views() =~= before.map_values(
                        |p: (String, V)| p.0@,
                    ).remove(i as int));
                    assert(old(self).key_views() == before.map_values(|p: (String, V)| p.0@));
                    assert(self.key_views() == old(self).key_views().remove(i as int));
                    assert(old(self).key_views()[i as int] == key@);
                    assert((i as int) < old(self).key_views().len());
                }
            },
            None => {
                proof {
                    lemma_assoc_map_absent(self.entries@, key@);
                    assert(final(self)@ =~= old(self)@.remove(key@));
                }
            },
        }
    }

    /// The keys in insertion order, as owned strings.
    pub fn keys(&self) -> (r: Vec<String>)
        ensures
            r@.len() == self.key_views().len(),
            forall|i: int| 0 <= i < r@.len() ==> r@[i]@ == self.key_views()[i],
    {
        let mut r: Vec<String> = Vec::new();
        let mut i: usize = 0;
        while i < self.entries.len()
            invariant
                i <= self.entries@.len(),
                r@.len() == i as int,
                forall|j: int| 0 <= j < i as int ==> r@[j]@ == self.entries@[j].0@,
            decreases self.entries@.len() - i as int,
        {
            r.push(self.entries[i].0.clone());
            i += 1;
        }
        r
    }
}

} // verus!
