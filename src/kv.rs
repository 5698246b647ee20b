use vstd::prelude::*;

verus! {

/// A store from string keys to values, as the host's key-value storage holds one
/// record per key. Each key appears at most once.
pub struct StrMap<V> {
    pub entries: Vec<(String, V)>,
}

impl<V> StrMap<V> {
    /// Each key is held by one entry only.
    pub open spec fn wf(&self) -> bool {
        forall|i: int, j: int|
            0 <= i < j < self.entries@.len() ==> #[trigger] self.entries@[i].0@
                != #[trigger] self.entries@[j].0@
    }

    pub open spec fn has(&self, k: Seq<char>) -> bool {
        exists|i: int| 0 <= i < self.entries@.len() && #[trigger] self.entries@[i].0@ == k
    }

    pub open spec fn index_of(&self, k: Seq<char>) -> int {
        choose|i: int| 0 <= i < self.entries@.len() && #[trigger] self.entries@[i].0@ == k
    }

    /// The records as a map from key to value.
    pub open spec fn view(&self) -> Map<Seq<char>, V> {
        Map::new(|k: Seq<char>| self.has(k), |k: Seq<char>| self.entries@[self.index_of(k)].1)
    }

    pub proof fn lemma_entry(&self, i: int)
        requires
            self.wf(),
            0 <= i < self.entries@.len(),
        ensures
            self.view().contains_key(self.entries@[i].0@),
            self.view()[self.entries@[i].0@] == self.entries@[i].1,
    {
        let k = self.entries@[i].0@;
        assert(self.has(k));
        let j = self.index_of(k);
        assert(self.entries@[j].0@ == k);
        if j < i {
            assert(self.entries@[j].0@ != self.entries@[i].0@);
        } else if i < j {
            assert(self.entries@[i].0@ != self.entries@[j].0@);
        }
    }

    pub fn new() -> (r: Self)
        ensures
            r.wf(),
            r.view() == Map::<Seq<char>, V>::empty(),
    {
        let r = StrMap { entries: Vec::new() };
        assert(r.view() =~= Map::<Seq<char>, V>::empty());
        r
    }

    /// Where the record of `k` stands, if there is one.
    pub fn find(&self, k: &String) -> (r: Option<usize>)
        requires
            self.wf(),
        ensures
            match r {
                Some(i) => i < self.entries@.len() && self.entries@[i as int].0@ == k@
                    && self.view().contains_key(k@) && self.view()[k@] == self.entries@[i as int].1,
                None => !self.view().contains_key(k@),
            },
    {
        let mut i: usize = 0;
        while i < self.entries.len()
            invariant
                self.wf(),
                i <= self.entries@.len(),
                forall|j: int| 0 <= j < i ==> #[trigger] self.entries@[j].0@ != k@,
            decreases self.entries@.len() - i,
        {
            if self.entries[i].0 == *k {
                proof {
                    self.lemma_entry(i as int);
                }
                return Some(i);
            }
            i = i + 1;
        }
        None
    }

    /// The value held under `k`.
    pub fn get(&self, k: &String) -> (r: Option<&V>)
        requires
            self.wf(),
        ensures
            match r {
                Some(v) => self.view().contains_key(k@) && *v == self.view()[k@],
                None => !self.view().contains_key(k@),
            },
    {
        match self.find(k) {
            Some(i) => Some(&self.entries[i].1),
            None => None,
        }
    }

    /// Holds `v` under `k`, replacing what was there.
    pub fn insert(&mut self, k: String, v: V)
        requires
            old(self).wf(),
        ensures
            final(self).wf(),
            final(self).view() == old(self).view().insert(k@, v),
    {
        let ghost old_map = self.view();
        let ghost key = k@;
        match self.find(&k) {
            Some(i) => {
                self.entries.set(i, (k, v));
                proof {
                    assert forall|p: int, q: int|
                        0 <= p < q < self.entries@.len() implies #[trigger] self.entries@[p].0@
                            != #[trigger] self.entries@[q].0@ by {
                        assert(old(self).entries@[p].0@ != old(self).entries@[q].0@);
                    }
                    assert forall|a: Seq<char>| #[trigger] self.view().contains_key(a)
                        == old_map.insert(key, v).contains_key(a) by {
                        if a == key {
                            assert(self.entries@[i as int].0@ == a);
                        }
                        if old_map.contains_key(a) {
                            let j = old(self).index_of(a);
                            if j != i {
                                assert(self.entries@[j].0@ == a);
                            }
                        }
                        if self.view().contains_key(a) {
                            let j = self.index_of(a);
                            if j != i {
                                assert(old(self).entries@[j].0@ == a);
                            }
                        }
                    }
                    assert forall|a: Seq<char>| #[trigger] self.view().contains_key(a)
                        implies self.view()[a] == old_map.insert(key, v)[a] by {
                        let j = self.index_of(a);
                        self.lemma_entry(j);
                        if a != key {
                            old(self).lemma_entry(j);
                        } else {
                            self.lemma_entry(i as int);
                        }
                    }
                    assert(self.view() =~= old_map.insert(key, v));
                }
            },
            None => {
                self.entries.push((k, v));
                proof {
                    let n = old(self).entries@.len() as int;
                    assert forall|a: Seq<char>| #[trigger] self.view().contains_key(a)
                        == old_map.insert(key, v).contains_key(a) by {
                        if old_map.contains_key(a) {
                            let j = old(self).index_of(a);
                            assert(self.entries@[j].0@ == a);
                        }
                        if a == key {
                            assert(self.entries@[n].0@ == a);
                        }
                        if self.view().contains_key(a) && a != key {
                            let j = self.index_of(a);
                            assert(old(self).entries@[j].0@ == a);
                        }
                    }
                    assert forall|i: int, j: int|
                        0 <= i < j < self.entries@.len() implies #[trigger] self.entries@[i].0@
                            != #[trigger] self.entries@[j].0@ by {
                        if j == n {
                            assert(old(self).entries@[i].0@ != key);
                        }
                    }
                    assert forall|a: Seq<char>| #[trigger] self.view().contains_key(a)
                        implies self.view()[a] == old_map.insert(key, v)[a] by {
                        let j = self.index_of(a);
                        self.lemma_entry(j);
                        if a != key {
                            old(self).lemma_entry(j);
                        } else {
                            self.lemma_entry(n);
                        }
                    }
                    assert(self.view() =~= old_map.insert(key, v));
                }
            },
        }
    }
    /// Drops the record of `k`, if there is one, and hands back its value.
    pub fn remove(&mut self, k: &String) -> (r: Option<V>)
        requires
            old(self).wf(),
        ensures
            final(self).wf(),
            final(self).view() == old(self).view().remove(k@),
            match r {
                Some(v) => old(self).view().contains_key(k@) && v == old(self).view()[k@],
                None => !old(self).view().contains_key(k@),
            },
    {
        let ghost old_map = self.view();
        match self.find(k) {
            None => {
                assert(self.view() =~= old_map.remove(k@));
                None
            },
            Some(i) => {
                let (_, v) = self.entries.remove(i);
                proof {
                    let n = old(self).entries@.len() as int;
                    assert forall|p: int, q: int|
                        0 <= p < q < self.entries@.len() implies #[trigger] self.entries@[p].0@
                            != #[trigger] self.entries@[q].0@ by {
                        let p0 = if p < i { p } else { p + 1 };
                        let q0 = if q < i { q } else { q + 1 };
                        assert(self.entries@[p] == old(self).entries@[p0]);
                        assert(self.entries@[q] == old(self).entries@[q0]);
                        assert(old(self).entries@[p0].0@ != old(self).entries@[q0].0@);
                    }
                    assert forall|a: Seq<char>| #[trigger] self.view().contains_key(a)
                        == old_map.remove(k@).contains_key(a) by {
                        if old_map.contains_key(a) && a != k@ {
                            let j = old(self).index_of(a);
                            assert(old(self).entries@[j].0@ == a);
                            if j < i {
                                assert(self.entries@[j] == old(self).entries@[j]);
                            } else if j > i {
                                assert(self.entries@[j - 1] == old(self).entries@[j]);
                            }
                        }
                        if self.view().contains_key(a) {
                            let j = self.index_of(a);
                            let j0 = if j < i { j } else { j + 1 };
                            assert(self.entries@[j] == old(self).entries@[j0]);
                            assert(old(self).entries@[j0].0@ == a);
                            if a == k@ {
                                assert(old(self).entries@[i as int].0@ == a);
                                assert(j0 != i);
                            }
                        }
                    }
                    assert forall|a: Seq<char>| #[trigger] self.view().contains_key(a)
                        implies self.view()[a] == old_map.remove(k@)[a] by {
                        let j = self.index_of(a);
                        self.lemma_entry(j);
                        let j0 = if j < i { j } else { j + 1 };
                        assert(self.entries@[j] == old(self).entries@[j0]);
                        old(self).lemma_entry(j0);
                    }
                    assert(self.view() =~= old_map.remove(k@));
                }
                Some(v)
            },
        }
    }
    /// A store over `entries`, if no key appears in them twice.
    pub fn from_entries(entries: Vec<(String, V)>) -> (r: Option<Self>)
        ensures
            match r {
                Some(m) => m.wf() && m.entries == entries,
                None => !(StrMap { entries }).wf(),
            },
    {
        let n = entries.len();
        let mut i: usize = 0;
        while i < n
            invariant
                n == entries@.len(),
                i <= n,
                forall|p: int, q: int| 0 <= p < q < n && p < i ==> #[trigger] entries@[p].0@ != #[trigger] entries@[q].0@,
            decreases n - i,
        {
            let mut j: usize = i + 1;
            while j < n
                invariant
                    n == entries@.len(),
                    i < n,
                    i + 1 <= j <= n,
                    forall|p: int, q: int| 0 <= p < q < n && p < i ==> #[trigger] entries@[p].0@ != #[trigger] entries@[q].0@,
                    forall|q: int| i < q < j ==> entries@[i as int].0@ != #[trigger] entries@[q].0@,
                decreases n - j,
            {
                if entries[i].0 == entries[j].0 {
                    proof {
                        let m = StrMap { entries };
                        assert(m.entries@[i as int].0@ == m.entries@[j as int].0@);
                    }
                    return None;
                }
                j = j + 1;
            }
            i = i + 1;
        }
        Some(StrMap { entries })
    }
}

} // verus!
