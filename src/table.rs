//! A map keyed by strings, held as a list of entries with distinct keys.

use vstd::prelude::*;
use crate::text::str_eq;

verus! {

/// Entries keyed by string; each key occurs at most once.
#[derive(Debug)]
pub struct Table<V> {
    entries: Vec<(String, V)>,
}

impl<V: View> View for Table<V> {
    type V = Map<Seq<char>, V::V>;

    closed spec fn view(&self) -> Map<Seq<char>, V::V> {
        Map::new(|k: Seq<char>| self.values().contains_key(k), |k: Seq<char>| self.values()[k]@)
    }
}

impl<V: View> Table<V> {
    /// The values themselves, by key.
    pub closed spec fn values(&self) -> Map<Seq<char>, V> {
        Map::new(
            |k: Seq<char>| exists|i: int| 0 <= i < self.entries@.len() && self.entries@[i].0@ == k,
            |k: Seq<char>| self.entries@[self.index_of(k)].1,
        )
    }

    closed spec fn index_of(&self, k: Seq<char>) -> int {
        choose|i: int| 0 <= i < self.entries@.len() && self.entries@[i].0@ == k
    }

    /// No key occurs twice.
    pub closed spec fn wf(&self) -> bool {
        forall|i: int, j: int|
            0 <= i < j < self.entries@.len() ==> (#[trigger] self.entries@[i]).0@
                != (#[trigger] self.entries@[j]).0@
    }

    proof fn lemma_entry(&self, i: int)
        requires
            self.wf(),
            0 <= i < self.entries@.len(),
        ensures
            self@.contains_key(self.entries@[i].0@),
            self@[self.entries@[i].0@] == self.entries@[i].1@,
            self.values().contains_key(self.entries@[i].0@),
            self.values()[self.entries@[i].0@] == self.entries@[i].1,
    {
        let k = self.entries@[i].0@;
        assert(self.values().dom().contains(k));
        let j = self.index_of(k);
        if j != i {
            if j < i {
                assert(self.entries@[j].0@ != self.entries@[i].0@);
            } else {
                assert(self.entries@[i].0@ != self.entries@[j].0@);
            }
        }
    }

    pub fn new() -> (r: Table<V>)
        ensures
            r.wf(),
            r@ == Map::<Seq<char>, V::V>::empty(),
            r.values() == Map::<Seq<char>, V>::empty(),
    {
        let r = Table { entries: Vec::new() };
        assert(r.values() =~= Map::<Seq<char>, V>::empty());
        assert(r@ =~= Map::<Seq<char>, V::V>::empty());
        r
    }

    /// The position of `k`'s entry, if it has one.
    fn find(&self, k: &str) -> (r: Option<usize>)
        requires
            self.wf(),
        ensures
            r matches Some(i) ==> i < self.entries@.len() && self.entries@[i as int].0@ == k@,
            r is None ==> !self@.contains_key(k@),
    {
        let mut i: usize = 0;
        while i < self.entries.len()
            invariant
                i <= self.entries@.len(),
                forall|j: int| 0 <= j < i ==> (#[trigger] self.entries@[j]).0@ != k@,
            decreases self.entries.len() - i,
        {
            if str_eq(self.entries[i].0.as_str(), k) {
                return Some(i);
            }
            i = i + 1;
        }
        None
    }

    pub fn contains(&self, k: &str) -> (r: bool)
        requires
            self.wf(),
        ensures
            r == self@.contains_key(k@),
    {
        match self.find(k) {
            Some(i) => {
                proof {
                    self.lemma_entry(i as int);
                }
                true
            },
            None => false,
        }
    }

    pub fn get(&self, k: &str) -> (r: Option<&V>)
        requires
            self.wf(),
        ensures
            r matches Some(v) ==> self@.contains_key(k@) && v@ == self@[k@] && self.values().contains_key(k@)
                && *v == self.values()[k@],
            r is None ==> !self@.contains_key(k@),
    {
        match self.find(k) {
            Some(i) => {
                proof {
                    self.lemma_entry(i as int);
                }
                Some(&self.entries[i].1)
            },
            None => None,
        }
    }

    /// Sets the value of `k`, adding an entry when it has none.
    pub fn insert(&mut self, k: String, v: V)
        requires
            old(self).wf(),
        ensures
            final(self).wf(),
            final(self)@ == old(self)@.insert(k@, v@),
            final(self).values() == old(self).values().insert(k@, v),
    {
        let ghost pre = *self;
        match self.find(k.as_str()) {
            Some(i) => {
                self.entries.set(i, (k, v));
                proof {
                    assert forall|a: int, b: int|
                        0 <= a < b < self.entries@.len() implies (
                        #[trigger] self.entries@[a]).0@ != (#[trigger] self.entries@[b]).0@ by {
                        assert(self.entries@[a].0@ == pre.entries@[a].0@);
                        assert(self.entries@[b].0@ == pre.entries@[b].0@);
                    }
                    assert forall|q: Seq<char>| #[trigger]
                        self.values().contains_key(q) == pre.values().insert(k@, v).contains_key(q) by {
                        if pre.values().contains_key(q) {
                            let j = pre.index_of(q);
                            assert(self.entries@[j].0@ == q);
                        }
                        if self.values().contains_key(q) {
                            let j = self.index_of(q);
                            assert(pre.entries@[j].0@ == q);
                        }
                    }
                    assert(self.values().dom() =~= pre.values().insert(k@, v).dom());
                    assert forall|q: Seq<char>| #[trigger] self.values().contains_key(q) implies self.values()[q]
                        == pre.values().insert(k@, v)[q] by {
                        let j = self.index_of(q);
                        self.lemma_entry(j);
                        if q != k@ {
                            assert(pre.entries@[j] == self.entries@[j]);
                            pre.lemma_entry(j);
                        }
                    }
                    assert(self.values() =~= pre.values().insert(k@, v));
                    assert(self@ =~= pre@.insert(k@, v@));
                }
            },
            None => {
                self.entries.push((k, v));
                proof {
                    let n = pre.entries@.len();
                    assert forall|a: int, b: int|
                        0 <= a < b < self.entries@.len() implies (
                        #[trigger] self.entries@[a]).0@ != (#[trigger] self.entries@[b]).0@ by {
                        assert(self.entries@[a] == pre.entries@[a]);
                        if b < n {
                            assert(self.entries@[b] == pre.entries@[b]);
                        } else {
                            assert(pre@.contains_key(pre.entries@[a].0@));
                        }
                    }
                    assert forall|q: Seq<char>| #[trigger]
                        self.values().contains_key(q) == pre.values().insert(k@, v).contains_key(q) by {
                        if pre.values().contains_key(q) {
                            let j = pre.index_of(q);
                            assert(self.entries@[j].0@ == q);
                        }
                        if q == k@ {
                            assert(self.entries@[n as int].0@ == q);
                        }
                        if self.values().contains_key(q) && q != k@ {
                            let j = self.index_of(q);
                            assert(pre.entries@[j].0@ == q);
                        }
                    }
                    assert(self.values().dom() =~= pre.values().insert(k@, v).dom());
                    assert forall|q: Seq<char>| #[trigger] self.values().contains_key(q) implies self.values()[q]
                        == pre.values().insert(k@, v)[q] by {
                        let j = self.index_of(q);
                        self.lemma_entry(j);
                        if q != k@ {
                            assert(pre.entries@[j] == self.entries@[j]);
                            pre.lemma_entry(j);
                        }
                    }
                    assert(self.values() =~= pre.values().insert(k@, v));
                    assert(self@ =~= pre@.insert(k@, v@));
                }
            },
        }
    }

    /// Takes out the entry of `k`, if it has one.
    pub fn remove(&mut self, k: &str) -> (r: Option<V>)
        requires
            old(self).wf(),
        ensures
            final(self).wf(),
            final(self)@ == old(self)@.remove(k@),
            final(self).values() == old(self).values().remove(k@),
            r matches Some(v) ==> old(self)@.contains_key(k@) && v@ == old(self)@[k@]
                && old(self).values().contains_key(k@) && v == old(self).values()[k@],
            r is None ==> !old(self)@.contains_key(k@),
    {
        let ghost pre = *self;
        match self.find(k) {
            Some(i) => {
                proof {
                    pre.lemma_entry(i as int);
                }
                let (_, v) = self.entries.remove(i);
                proof {
                    assert forall|a: int, b: int|
                        0 <= a < b < self.entries@.len() implies (
                        #[trigger] self.entries@[a]).0@ != (#[trigger] self.entries@[b]).0@ by {
                        let pa = if a < i { a } else { a + 1 };
                        let pb = if b < i { b } else { b + 1 };
                        assert(self.entries@[a] == pre.entries@[pa]);
                        assert(self.entries@[b] == pre.entries@[pb]);
                    }
                    assert forall|q: Seq<char>| #[trigger]
                        self.values().contains_key(q) == pre.values().remove(k@).contains_key(q) by {
                        if pre.values().contains_key(q) && q != k@ {
                            let j = pre.index_of(q);
                            if j < i {
                                assert(self.entries@[j].0@ == q);
                            } else {
                                assert(j != i);
                                assert(self.entries@[j - 1].0@ == q);
                            }
                        }
                        if self.values().contains_key(q) {
                            let j = self.index_of(q);
                            let pj = if j < i { j } else { j + 1 };
                            assert(pre.entries@[pj].0@ == q);
                            if q == k@ {
                                assert(pre.entries@[i as int].0@ == q);
                            }
                        }
                    }
                    assert(self.values().dom() =~= pre.values().remove(k@).dom());
                    assert forall|q: Seq<char>| #[trigger] self.values().contains_key(q) implies self.values()[q]
                        == pre.values().remove(k@)[q] by {
                        let j = self.index_of(q);
                        self.lemma_entry(j);
                        let pj = if j < i { j } else { j + 1 };
                        assert(pre.entries@[pj] == self.entries@[j]);
                        pre.lemma_entry(pj);
                    }
                    assert(self.values() =~= pre.values().remove(k@));
                    assert(self@ =~= pre@.remove(k@));
                }
                Some(v)
            },
            None => {
                assert(pre.values().remove(k@) =~= pre.values());
                assert(pre@.remove(k@) =~= pre@);
                None
            },
        }
    }
}

} // verus!
