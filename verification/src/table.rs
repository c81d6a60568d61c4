//! A handle table: a key-value store over a vector of pairs with pairwise
//! distinct integer keys, abstracted as a `Map` in contracts. It replaces a
//! std hash map so that iteration by index can be verified.

use vstd::prelude::*;

verus! {

/// A table of values keyed by integer handles.
#[derive(Clone, Debug)]
pub struct Table<V> {
    pub entries: Vec<(usize, V)>,
}

/// Keys are pairwise distinct.
pub open spec fn table_wf<V>(t: Table<V>) -> bool {
    forall|i: int, j: int| #![trigger t.entries@[i], t.entries@[j]]
        0 <= i < j < t.entries@.len() ==> t.entries@[i].0 != t.entries@[j].0
}

/// The map a sequence of pairs stands for (later pairs win).
pub open spec fn map_of<V>(s: Seq<(usize, V)>) -> Map<usize, V>
    decreases s.len(),
{
    if s.len() == 0 {
        Map::empty()
    } else {
        map_of(s.drop_last()).insert(s.last().0, s.last().1)
    }
}

/// A key is in the map exactly when some pair carries it.
pub proof fn lemma_map_of_contains<V>(s: Seq<(usize, V)>, k: usize)
    ensures
        map_of(s).contains_key(k) <==> exists|i: int|
            0 <= i < s.len() && (#[trigger] s[i]).0 == k,
    decreases s.len(),
{
    if s.len() > 0 {
        lemma_map_of_contains(s.drop_last(), k);
        if map_of(s).contains_key(k) {
            if s.last().0 == k {
                assert(s[s.len() - 1].0 == k);
            } else {
                let i = choose|i: int| 0 <= i < s.drop_last().len() && (#[trigger] s.drop_last()[i]).0 == k;
                assert(s[i].0 == k);
            }
        }
        if exists|i: int| 0 <= i < s.len() && (#[trigger] s[i]).0 == k {
            let i = choose|i: int| 0 <= i < s.len() && (#[trigger] s[i]).0 == k;
            if i < s.len() - 1 {
                assert(s.drop_last()[i].0 == k);
            }
        }
    }
}

/// With distinct keys, the pair carrying `k` gives the map's value at `k`.
pub proof fn lemma_map_of_get<V>(s: Seq<(usize, V)>, i: int)
    requires
        forall|a: int, b: int| #![trigger s[a], s[b]] 0 <= a < b < s.len() ==> s[a].0 != s[b].0,
        0 <= i < s.len(),
    ensures
        map_of(s).contains_key(s[i].0),
        map_of(s)[s[i].0] == s[i].1,
    decreases s.len(),
{
    if i == s.len() - 1 {
        lemma_map_of_contains(s, s[i].0);
    } else {
        lemma_map_of_get(s.drop_last(), i);
        assert(s.drop_last()[i] == s[i]);
        assert(s.last().0 != s[i].0);
    }
}

/// The number of distinct keys equals the number of pairs.
pub proof fn lemma_map_of_len<V>(s: Seq<(usize, V)>)
    requires
        forall|a: int, b: int| #![trigger s[a], s[b]] 0 <= a < b < s.len() ==> s[a].0 != s[b].0,
    ensures
        map_of(s).dom().len() == s.len(),
        map_of(s).dom().finite(),
    decreases s.len(),
{
    if s.len() == 0 {
        assert(map_of(s).dom() =~= Set::<usize>::empty());
    } else {
        lemma_map_of_len(s.drop_last());
        lemma_map_of_contains(s.drop_last(), s.last().0);
        assert(!map_of(s.drop_last()).contains_key(s.last().0));
        assert(map_of(s).dom() =~= map_of(s.drop_last()).dom().insert(s.last().0));
        vstd::set::axiom_set_insert_len(map_of(s.drop_last()).dom(), s.last().0);
        vstd::set::axiom_set_insert_finite(map_of(s.drop_last()).dom(), s.last().0);
    }
}

/// Updating the value of the pair at `i` updates the map at its key.
pub proof fn lemma_map_of_update<V>(s: Seq<(usize, V)>, i: int, v: V)
    requires
        forall|a: int, b: int| #![trigger s[a], s[b]] 0 <= a < b < s.len() ==> s[a].0 != s[b].0,
        0 <= i < s.len(),
    ensures
        map_of(s.update(i, (s[i].0, v))) =~= map_of(s).insert(s[i].0, v),
    decreases s.len(),
{
    let s2 = s.update(i, (s[i].0, v));
    if i == s.len() - 1 {
        assert(s2.drop_last() =~= s.drop_last());
    } else {
        lemma_map_of_update(s.drop_last(), i, v);
        assert(s2.drop_last() =~= s.drop_last().update(i, (s[i].0, v)));
        assert(s2.last() == s.last());
        assert(s.last().0 != s[i].0);
        assert(map_of(s2) =~= map_of(s.drop_last()).insert(s[i].0, v).insert(s.last().0, s.last().1));
        assert(map_of(s.drop_last()).insert(s[i].0, v).insert(s.last().0, s.last().1) =~= map_of(
            s.drop_last(),
        ).insert(s.last().0, s.last().1).insert(s[i].0, v));
    }
}

/// Removing the pair at `i` removes its key from the map.
pub proof fn lemma_map_of_remove<V>(s: Seq<(usize, V)>, i: int)
    requires
        forall|a: int, b: int| #![trigger s[a], s[b]] 0 <= a < b < s.len() ==> s[a].0 != s[b].0,
        0 <= i < s.len(),
    ensures
        map_of(s.remove(i)) =~= map_of(s).remove(s[i].0),
    decreases s.len(),
{
    if i == s.len() - 1 {
        assert(s.remove(i) =~= s.drop_last());
        lemma_map_of_contains(s.drop_last(), s[i].0);
        assert(!map_of(s.drop_last()).contains_key(s[i].0));
        assert(map_of(s.drop_last()).remove(s[i].0) =~= map_of(s.drop_last()));
        assert(map_of(s).remove(s[i].0) =~= map_of(s.drop_last()));
    } else {
        lemma_map_of_remove(s.drop_last(), i);
        assert(s.remove(i).drop_last() =~= s.drop_last().remove(i));
        assert(s.remove(i).last() == s.last());
        assert(s.last().0 != s[i].0);
    }
}

/// Appending a fresh pair inserts its key.
pub proof fn lemma_map_of_push<V>(s: Seq<(usize, V)>, k: usize, v: V)
    ensures
        map_of(s.push((k, v))) =~= map_of(s).insert(k, v),
{
    assert(s.push((k, v)).drop_last() =~= s);
}

impl<V> Table<V> {
    pub open spec fn view(&self) -> Map<usize, V> {
        map_of(self.entries@)
    }

    /// An empty table.
    pub fn new() -> (r: Table<V>)
        ensures
            table_wf(r),
            r@ == Map::<usize, V>::empty(),
            r.entries@.len() == 0,
    {
        Table { entries: Vec::new() }
    }

    /// The number of entries (equal to the size of the map's domain).
    pub fn len(&self) -> (r: usize)
        requires
            table_wf(*self),
        ensures
            r == self.entries@.len(),
            r == self@.dom().len(),
    {
        proof {
            lemma_map_of_len(self.entries@);
        }
        self.entries.len()
    }

    /// The position of the entry holding key `k`, if any.
    fn position(&self, k: usize) -> (r: Option<usize>)
        ensures
            match r {
                Some(i) => i < self.entries@.len() && self.entries@[i as int].0 == k,
                None => forall|i: int|
                    0 <= i < self.entries@.len() ==> (#[trigger] self.entries@[i]).0 != k,
            },
    {
        let mut i: usize = 0;
        while i < self.entries.len()
            invariant
                0 <= i <= self.entries@.len(),
                forall|j: int| 0 <= j < i ==> (#[trigger] self.entries@[j]).0 != k,
            decreases self.entries@.len() - i,
        {
            if self.entries[i].0 == k {
                return Some(i);
            }
            i = i + 1;
        }
        None
    }

    /// Whether the table holds key `k`.
    pub fn contains_key(&self, k: usize) -> (r: bool)
        ensures
            r == self@.contains_key(k),
    {
        proof {
            lemma_map_of_contains(self.entries@, k);
        }
        match self.position(k) {
            Some(_) => true,
            None => false,
        }
    }

    /// The value at key `k`, if any.
    pub fn get(&self, k: usize) -> (r: Option<&V>)
        requires
            table_wf(*self),
        ensures
            match r {
                Some(v) => self@.contains_key(k) && *v == self@[k],
                None => !self@.contains_key(k),
            },
    {
        proof {
            lemma_map_of_contains(self.entries@, k);
        }
        match self.position(k) {
            Some(i) => {
                proof {
                    lemma_map_of_get(self.entries@, i as int);
                }
                Some(&self.entries[i].1)
            },
            None => None,
        }
    }

    /// A mutable borrow of the value at key `k`, if any; the map afterwards
    /// holds whatever the caller leaves behind the borrow.
    pub fn get_mut(&mut self, k: usize) -> (r: Option<&mut V>)
        requires
            table_wf(*old(self)),
        ensures
            table_wf(*final(self)),
            match r {
                Some(v) => {
                    &&& old(self)@.contains_key(k)
                    &&& *v == old(self)@[k]
                    &&& final(self)@ == old(self)@.insert(k, *final(v))
                },
                None => !old(self)@.contains_key(k) && *final(self) == *old(self),
            },
    {
        proof {
            lemma_map_of_contains(self.entries@, k);
        }
        match self.position(k) {
            Some(i) => {
                proof {
                    lemma_map_of_get(self.entries@, i as int);
                    assert forall|v: V|
                        map_of(self.entries@.update(i as int, (k, v))) == map_of(
                            self.entries@,
                        ).insert(k, v) by {
                        lemma_map_of_update(self.entries@, i as int, v);
                    }
                }
                let pair = &mut self.entries[i];
                Some(&mut pair.1)
            },
            None => None,
        }
    }

    /// Insert or overwrite the value at key `k`.
    pub fn insert(&mut self, k: usize, v: V)
        requires
            table_wf(*old(self)),
        ensures
            table_wf(*final(self)),
            final(self)@ == old(self)@.insert(k, v),
            final(self).entries@.len() == if old(self)@.contains_key(k) {
                old(self).entries@.len() as int
            } else {
                old(self).entries@.len() + 1 as int
            },
    {
        proof {
            lemma_map_of_contains(self.entries@, k);
        }
        match self.position(k) {
            Some(i) => {
                proof {
                    lemma_map_of_update(self.entries@, i as int, v);
                }
                self.entries.set(i, (k, v));
                assert(final(self)@ =~= old(self)@.insert(k, v));
            },
            None => {
                proof {
                    lemma_map_of_push(self.entries@, k, v);
                }
                self.entries.push((k, v));
                assert(final(self)@ =~= old(self)@.insert(k, v));
            },
        }
    }

    /// Remove and return the value at key `k`, if any.
    pub fn remove(&mut self, k: usize) -> (r: Option<V>)
        requires
            table_wf(*old(self)),
        ensures
            table_wf(*final(self)),
            final(self)@ == old(self)@.remove(k),
            match r {
                Some(v) => old(self)@.contains_key(k) && v == old(self)@[k],
                None => !old(self)@.contains_key(k) && *final(self) == *old(self),
            },
    {
        proof {
            lemma_map_of_contains(self.entries@, k);
        }
        match self.position(k) {
            Some(i) => {
                proof {
                    lemma_map_of_get(self.entries@, i as int);
                    lemma_map_of_remove(self.entries@, i as int);
                }
                let pair = self.entries.remove(i);
                assert(final(self)@ =~= old(self)@.remove(k));
                Some(pair.1)
            },
            None => {
                proof {
                    assert(old(self)@.remove(k) =~= old(self)@);
                }
                None
            },
        }
    }
}

} // verus!
