use vstd::prelude::*;

verus! {

/// An associative table keyed by strings, in which each key appears at most once.
pub struct Table<V> {
    entries: Vec<(String, V)>,
}

impl<V> Table<V> {
    closed spec fn has_key_at(&self, k: Seq<char>, i: int) -> bool {
        0 <= i < self.entries@.len() && self.entries@[i].0@ == k
    }

    /// No key is stored twice.
    pub closed spec fn wf(&self) -> bool {
        forall|i: int, j: int|
            0 <= i < self.entries@.len() && 0 <= j < self.entries@.len() && i != j
                ==> #[trigger] self.entries@[i].0@ != #[trigger] self.entries@[j].0@
    }

    /// The key-value pairs that the table holds.
    pub closed spec fn view(&self) -> Map<Seq<char>, V> {
        Map::new(
            |k: Seq<char>| exists|i: int| self.has_key_at(k, i),
            |k: Seq<char>| self.entries@[choose|i: int| self.has_key_at(k, i)].1,
        )
    }

    proof fn lemma_entry_in_view(&self, i: int)
        requires
            self.wf(),
            0 <= i < self.entries@.len(),
        ensures
            self.view().contains_key(self.entries@[i].0@),
            self.view()[self.entries@[i].0@] == self.entries@[i].1,
    {
        let k = self.entries@[i].0@;
        assert(self.has_key_at(k, i));
        let j = choose|j: int| self.has_key_at(k, j);
        assert(self.has_key_at(k, j));
        if i != j {
            assert(self.entries@[i].0@ != self.entries@[j].0@);
        }
    }

    pub fn new() -> (t: Self)
        ensures
            t.wf(),
            t.view() == Map::<Seq<char>, V>::empty(),
    {
        let t = Table { entries: Vec::new() };
        assert(t.view() =~= Map::<Seq<char>, V>::empty());
        t
    }

    fn find(&self, key: &String) -> (r: Option<usize>)
        requires
            self.wf(),
        ensures
            match r {
                Some(i) => i < self.entries@.len() && self.entries@[i as int].0@ == key@,
                None => !self.view().contains_key(key@),
            },
    {
        let mut i: usize = 0;
        while i < self.entries.len()
            invariant
                i <= self.entries@.len(),
                forall|j: int| 0 <= j < i ==> self.entries@[j].0@ != key@,
            decreases self.entries@.len() - i,
        {
            if self.entries[i].0 == *key {
                return Some(i);
            }
            i = i + 1;
        }
        None
    }

    pub fn contains_key(&self, key: &String) -> (r: bool)
        requires
            self.wf(),
        ensures
            r == self.view().contains_key(key@),
    {
        match self.find(key) {
            Some(i) => {
                proof {
                    self.lemma_entry_in_view(i as int);
                }
                true
            },
            None => false,
        }
    }

    pub fn get(&self, key: &String) -> (r: Option<&V>)
        requires
            self.wf(),
        ensures
            match r {
                Some(v) => self.view().contains_key(key@) && *v == self.view()[key@],
                None => !self.view().contains_key(key@),
            },
    {
        match self.find(key) {
            Some(i) => {
                proof {
                    self.lemma_entry_in_view(i as int);
                }
                Some(&self.entries[i].1)
            },
            None => None,
        }
    }

    /// Stores `value` under `key`, replacing what was there.
    pub fn insert(&mut self, key: String, value: V)
        requires
            old(self).wf(),
        ensures
            final(self).wf(),
            final(self).view() == old(self).view().insert(key@, value),
    {
        let ghost k = key@;
        let ghost before = *self;
        match self.find(&key) {
            Some(i) => {
                self.entries.set(i, (key, value));
                proof {
                    assert forall|a: int, b: int|
                        0 <= a < self.entries@.len() && 0 <= b < self.entries@.len() && a != b
                            implies #[trigger] self.entries@[a].0@ != #[trigger] self.entries@[b].0@ by {
                        assert(before.entries@[a].0@ != before.entries@[b].0@);
                    }
                    assert forall|kk: Seq<char>|
                        #[trigger] self.view().contains_key(kk) == before.view().insert(k, value).contains_key(kk) by {
                        if exists|j: int| before.has_key_at(kk, j) {
                            let j = choose|j: int| before.has_key_at(kk, j);
                            assert(self.has_key_at(kk, j));
                        }
                        if exists|j: int| self.has_key_at(kk, j) {
                            let j = choose|j: int| self.has_key_at(kk, j);
                            assert(before.has_key_at(kk, j) || kk == k);
                        }
                        assert(self.has_key_at(k, i as int));
                    }
                    assert forall|kk: Seq<char>| #[trigger] self.view().contains_key(kk) implies self.view()[kk]
                        == before.view().insert(k, value)[kk] by {
                        let j = choose|j: int| self.has_key_at(kk, j);
                        self.lemma_entry_in_view(j);
                        if j != i {
                            before.lemma_entry_in_view(j);
                        }
                    }
                    assert(self.view() =~= before.view().insert(k, value));
                }
            },
            None => {
                self.entries.push((key, value));
                proof {
                    let n = before.entries@.len() as int;
                    assert forall|a: int, b: int|
                        0 <= a < self.entries@.len() && 0 <= b < self.entries@.len() && a != b
                            implies #[trigger] self.entries@[a].0@ != #[trigger] self.entries@[b].0@ by {
                        if a < n && b < n {
                            assert(before.entries@[a].0@ != before.entries@[b].0@);
                        } else if a < n {
                            assert(before.has_key_at(self.entries@[a].0@, a));
                        } else {
                            assert(before.has_key_at(self.entries@[b].0@, b));
                        }
                    }
                    assert forall|kk: Seq<char>|
                        #[trigger] self.view().contains_key(kk) == before.view().insert(k, value).contains_key(kk) by {
                        if exists|j: int| before.has_key_at(kk, j) {
                            let j = choose|j: int| before.has_key_at(kk, j);
                            assert(self.has_key_at(kk, j));
                        }
                        if exists|j: int| self.has_key_at(kk, j) {
                            let j = choose|j: int| self.has_key_at(kk, j);
                            if j < n {
                                assert(before.has_key_at(kk, j));
                            }
                        }
                        assert(self.has_key_at(k, n));
                    }
                    assert forall|kk: Seq<char>| #[trigger] self.view().contains_key(kk) implies self.view()[kk]
                        == before.view().insert(k, value)[kk] by {
                        let j = choose|j: int| self.has_key_at(kk, j);
                        self.lemma_entry_in_view(j);
                        if j < n {
                            before.lemma_entry_in_view(j);
                        }
                    }
                    assert(self.view() =~= before.view().insert(k, value));
                }
            },
        }
    }

    /// Takes out what is stored under `key`, if anything.
    pub fn remove(&mut self, key: &String) -> (r: Option<V>)
        requires
            old(self).wf(),
        ensures
            final(self).wf(),
            final(self).view() == old(self).view().remove(key@),
            match r {
                Some(v) => old(self).view().contains_key(key@) && v == old(self).view()[key@],
                None => !old(self).view().contains_key(key@),
            },
    {
        let ghost k = key@;
        let ghost before = *self;
        match self.find(key) {
            Some(i) => {
                proof {
                    before.lemma_entry_in_view(i as int);
                }
                let (_, v) = self.entries.remove(i);
                proof {
                    let ii = i as int;
                    assert forall|a: int, b: int|
                        0 <= a < self.entries@.len() && 0 <= b < self.entries@.len() && a != b
                            implies #[trigger] self.entries@[a].0@ != #[trigger] self.entries@[b].0@ by {
                        let a0 = if a < ii { a } else { a + 1 };
                        let b0 = if b < ii { b } else { b + 1 };
                        assert(self.entries@[a] == before.entries@[a0]);
                        assert(self.entries@[b] == before.entries@[b0]);
                        assert(before.entries@[a0].0@ != before.entries@[b0].0@);
                    }
                    assert forall|kk: Seq<char>|
                        #[trigger] self.view().contains_key(kk) == before.view().remove(k).contains_key(kk) by {
                        if exists|j: int| before.has_key_at(kk, j) {
                            let j = choose|j: int| before.has_key_at(kk, j);
                            if j < ii {
                                assert(self.has_key_at(kk, j));
                            } else if j > ii {
                                assert(self.entries@[j - 1] == before.entries@[j]);
                                assert(self.has_key_at(kk, j - 1));
                            } else {
                                assert(kk == k);
                            }
                        }
                        if exists|j: int| self.has_key_at(kk, j) {
                            let j = choose|j: int| self.has_key_at(kk, j);
                            let j0 = if j < ii { j } else { j + 1 };
                            assert(self.entries@[j] == before.entries@[j0]);
                            assert(before.has_key_at(kk, j0));
                            assert(before.entries@[j0].0@ != before.entries@[ii].0@);
                        }
                    }
                    assert forall|kk: Seq<char>| #[trigger] self.view().contains_key(kk) implies self.view()[kk]
                        == before.view().remove(k)[kk] by {
                        let j = choose|j: int| self.has_key_at(kk, j);
                        self.lemma_entry_in_view(j);
                        let j0 = if j < ii { j } else { j + 1 };
                        assert(self.entries@[j] == before.entries@[j0]);
                        before.lemma_entry_in_view(j0);
                    }
                    assert(self.view() =~= before.view().remove(k));
                }
                Some(v)
            },
            None => {
                proof {
                    assert(self.view() =~= before.view().remove(k));
                }
                None
            },
        }
    }

    /// Empties the table.
    pub fn clear(&mut self)
        ensures
            final(self).wf(),
            final(self).view() == Map::<Seq<char>, V>::empty(),
    {
        self.entries.clear();
        assert(self.view() =~= Map::<Seq<char>, V>::empty());
    }
}

} // verus!
