use vstd::prelude::*;

verus! {

/// A table from request ids to single-use completion slots.
///
/// Keys are unique; no order is kept. The table is what decides whether a
/// request is still open: a request is closed exactly when its entry is gone.
pub struct PendingTable<S> {
    entries: Vec<(String, S)>,
    slots: Ghost<Map<Seq<char>, S>>,
}

impl<S> View for PendingTable<S> {
    type V = Map<Seq<char>, S>;

    closed spec fn view(&self) -> Map<Seq<char>, S> {
        self.slots@
    }
}

impl<S> PendingTable<S> {
    /// The entries hold the keys of the map, each once, with the map's slots.
    pub closed spec fn wf(&self) -> bool {
        &&& forall|i: int|
            0 <= i < self.entries@.len() ==> {
                &&& #[trigger] self.slots@.contains_key(self.entries@[i].0@)
                &&& self.slots@[self.entries@[i].0@] == self.entries@[i].1
            }
        &&& forall|k: Seq<char>|
            #[trigger] self.slots@.contains_key(k) ==> exists|i: int|
                0 <= i < self.entries@.len() && #[trigger] self.entries@[i].0@ == k
        &&& forall|i: int, j: int|
            0 <= i < self.entries@.len() && 0 <= j < self.entries@.len() && i != j
                ==> #[trigger] self.entries@[i].0@ != #[trigger] self.entries@[j].0@
    }

    /// An empty table.
    pub fn new() -> (t: Self)
        ensures
            t.wf(),
            t@ == Map::<Seq<char>, S>::empty(),
    {
        PendingTable { entries: Vec::new(), slots: Ghost(Map::empty()) }
    }

    /// The number of open requests.
    pub fn len(&self) -> (n: usize)
        requires
            self.wf(),
        ensures
            n as nat == self@.len(),
    {
        proof {
            self.lemma_len();
        }
        self.entries.len()
    }

    proof fn lemma_len(&self)
        requires
            self.wf(),
        ensures
            self@.len() == self.entries@.len(),
        decreases self.entries@.len(),
    {
        let keys = self.entries@.map_values(|e: (String, S)| e.0@);
        assert(keys.no_duplicates()) by {
            assert forall|i: int, j: int|
                0 <= i < keys.len() && 0 <= j < keys.len() && i != j implies keys[i] != keys[j] by {
                assert(self.entries@[i].0@ != self.entries@[j].0@);
            }
        }
        assert(keys.to_set() =~= self@.dom()) by {
            assert forall|k: Seq<char>| keys.to_set().contains(k) implies self@.dom().contains(k) by {
                let i = choose|i: int| 0 <= i < keys.len() && keys[i] == k;
                assert(self.slots@.contains_key(self.entries@[i].0@));
            }
            assert forall|k: Seq<char>| self@.dom().contains(k) implies keys.to_set().contains(k) by {
                assert(self.slots@.contains_key(k));
                let i = choose|i: int| 0 <= i < self.entries@.len() && self.entries@[i].0@ == k;
                assert(keys[i] == k);
            }
        }
        keys.unique_seq_to_set();
    }

    /// Where `id` stands among the entries, if it is there.
    fn position(&self, id: &String) -> (r: Option<usize>)
        requires
            self.wf(),
        ensures
            match r {
                Some(i) => i < self.entries@.len() && self.entries@[i as int].0@ == id@,
                None => !self@.contains_key(id@),
            },
    {
        let mut i: usize = 0;
        while i < self.entries.len()
            invariant
                self.wf(),
                i <= self.entries@.len(),
                forall|j: int| 0 <= j < i ==> self.entries@[j].0@ != id@,
            decreases self.entries@.len() - i,
        {
            if self.entries[i].0 == *id {
                return Some(i);
            }
            i = i + 1;
        }
        proof {
            if self.slots@.contains_key(id@) {
                let j = choose|j: int| 0 <= j < self.entries@.len() && self.entries@[j].0@ == id@;
                assert(self.entries@[j].0@ != id@);
            }
        }
        None
    }

    /// Whether `id` is an open request.
    pub fn contains(&self, id: &String) -> (r: bool)
        requires
            self.wf(),
        ensures
            r == self@.contains_key(id@),
    {
        match self.position(id) {
            Some(i) => {
                assert(self.slots@.contains_key(self.entries@[i as int].0@));
                true
            },
            None => false,
        }
    }

    /// Removes the entry of `id` and hands out its slot; `None` when the
    /// request is unknown or already closed.
    pub fn take(&mut self, id: &String) -> (r: Option<S>)
        requires
            old(self).wf(),
        ensures
            final(self).wf(),
            final(self)@ == old(self)@.remove(id@),
            r == (if old(self)@.contains_key(id@) {
                Some(old(self)@[id@])
            } else {
                None::<S>
            }),
    {
        match self.position(id) {
            None => {
                assert(self@.remove(id@) =~= self@);
                None
            },
            Some(i) => {
                let ghost old_entries = self.entries@;
                let ghost old_slots = self.slots@;
                assert(old_slots.contains_key(old_entries[i as int].0@));
                let entry = self.entries.swap_remove(i);
                self.slots = Ghost(old_slots.remove(id@));
                proof {
                    let n = old_entries.len();
                    assert forall|a: int| 0 <= a < self.entries@.len() implies
                        self.entries@[a] == (if a == i { old_entries[n - 1] } else { old_entries[a] })
                    by {}
                    assert forall|a: int| 0 <= a < self.entries@.len() implies {
                        &&& #[trigger] self.slots@.contains_key(self.entries@[a].0@)
                        &&& self.slots@[self.entries@[a].0@] == self.entries@[a].1
                    } by {
                        let b = if a == i { n - 1 } else { a };
                        assert(self.entries@[a] == old_entries[b]);
                        assert(old_slots.contains_key(old_entries[b].0@));
                        assert(old_entries[b].0@ != old_entries[i as int].0@);
                    }
                    assert forall|k: Seq<char>| #[trigger] self.slots@.contains_key(k) implies
                        exists|a: int| 0 <= a < self.entries@.len() && #[trigger] self.entries@[a].0@ == k
                    by {
                        assert(old_slots.contains_key(k));
                        let b = choose|b: int| 0 <= b < n && old_entries[b].0@ == k;
                        assert(b != i);
                        if b == n - 1 {
                            assert(self.entries@[i as int].0@ == k);
                        } else {
                            assert(self.entries@[b].0@ == k);
                        }
                    }
                    assert forall|a: int, c: int|
                        0 <= a < self.entries@.len() && 0 <= c < self.entries@.len() && a != c
                        implies #[trigger] self.entries@[a].0@ != #[trigger] self.entries@[c].0@
                    by {
                        let ba = if a == i { n - 1 } else { a };
                        let bc = if c == i { n - 1 } else { c };
                        assert(self.entries@[a] == old_entries[ba]);
                        assert(self.entries@[c] == old_entries[bc]);
                    }
                }
                Some(entry.1)
            },
        }
    }

    /// Opens `id` with `slot`. An entry that was already open under `id` is
    /// replaced, and its slot handed back.
    pub fn insert(&mut self, id: String, slot: S) -> (displaced: Option<S>)
        requires
            old(self).wf(),
        ensures
            final(self).wf(),
            final(self)@ == old(self)@.insert(id@, slot),
            displaced == (if old(self)@.contains_key(id@) {
                Some(old(self)@[id@])
            } else {
                None::<S>
            }),
    {
        let displaced = self.take(&id);
        let ghost key = id@;
        let ghost value = slot;
        let ghost before = self.entries@;
        let ghost slots = self.slots@;
        self.entries.push((id, slot));
        self.slots = Ghost(slots.insert(key, value));
        proof {
            let n = before.len();
            assert(self.entries@[n as int].0@ == key);
            assert forall|a: int| 0 <= a < self.entries@.len() implies {
                &&& #[trigger] self.slots@.contains_key(self.entries@[a].0@)
                &&& self.slots@[self.entries@[a].0@] == self.entries@[a].1
            } by {
                if a < n {
                    assert(self.entries@[a] == before[a]);
                    assert(slots.contains_key(before[a].0@));
                }
            }
            assert forall|k: Seq<char>| #[trigger] self.slots@.contains_key(k) implies
                exists|a: int| 0 <= a < self.entries@.len() && #[trigger] self.entries@[a].0@ == k
            by {
                if k != key {
                    assert(slots.contains_key(k));
                    let b = choose|b: int| 0 <= b < n && before[b].0@ == k;
                    assert(self.entries@[b].0@ == k);
                }
            }
            assert forall|a: int, c: int|
                0 <= a < self.entries@.len() && 0 <= c < self.entries@.len() && a != c
                implies #[trigger] self.entries@[a].0@ != #[trigger] self.entries@[c].0@
            by {
                if a < n && c < n {
                    assert(self.entries@[a] == before[a]);
                    assert(self.entries@[c] == before[c]);
                } else if a < n {
                    assert(self.entries@[a] == before[a]);
                    assert(slots.contains_key(before[a].0@));
                } else if c < n {
                    assert(self.entries@[c] == before[c]);
                    assert(slots.contains_key(before[c].0@));
                }
            }
            assert(self.slots@ =~= old(self)@.insert(key, value));
        }
        displaced
    }
}

} // verus!
