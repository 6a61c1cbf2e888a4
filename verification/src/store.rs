use vstd::prelude::*;

verus! {

/// The sequence of entries as a key-to-value map: a later entry for a key
/// shadows an earlier one, and under `distinct_keys` every key occurs at most
/// once, so the entry order does not matter to the map.
spec fn assoc_map(s: Seq<(Vec<u8>, Vec<u8>)>) -> Map<Seq<u8>, Seq<u8>>
    decreases s.len(),
{
    if s.len() == 0 {
        Map::empty()
    } else {
        assoc_map(s.drop_last()).insert(s.last().0@, s.last().1@)
    }
}

/// No two entries share a key.
spec fn distinct_keys(s: Seq<(Vec<u8>, Vec<u8>)>) -> bool {
    forall|i: int, j: int| 0 <= i < j < s.len() ==> s[i].0@ != s[j].0@
}

/// An in-memory model of the backing key-value store: the visible behaviour
/// of its read, write, delete, enumerate and flush operations, with keys and
/// values as raw bytes. A key maps to at most one value at any instant;
/// writes are last-writer-wins.
pub struct Store {
    entries: Vec<(Vec<u8>, Vec<u8>)>,
}

impl View for Store {
    type V = Map<Seq<u8>, Seq<u8>>;

    closed spec fn view(&self) -> Map<Seq<u8>, Seq<u8>> {
        assoc_map(self.entries@)
    }
}

proof fn lemma_assoc_map_contains(s: Seq<(Vec<u8>, Vec<u8>)>, k: Seq<u8>)
    ensures
        assoc_map(s).contains_key(k) <==> exists|i: int| 0 <= i < s.len() && s[i].0@ == k,
    decreases s.len(),
{
    if s.len() > 0 {
        lemma_assoc_map_contains(s.drop_last(), k);
        if s.last().0@ == k {
            assert(s[s.len() - 1].0@ == k);
        } else if assoc_map(s).contains_key(k) {
            let i = choose|i: int| 0 <= i < s.drop_last().len() && s.drop_last()[i].0@ == k;
            assert(s[i].0@ == k);
        } else if exists|i: int| 0 <= i < s.len() && s[i].0@ == k {
            let i = choose|i: int| 0 <= i < s.len() && s[i].0@ == k;
            assert(s.drop_last()[i].0@ == k);
        }
    }
}

proof fn lemma_assoc_map_index(s: Seq<(Vec<u8>, Vec<u8>)>, i: int)
    requires
        distinct_keys(s),
        0 <= i < s.len(),
    ensures
        assoc_map(s).contains_key(s[i].0@),
        assoc_map(s)[s[i].0@] == s[i].1@,
    decreases s.len(),
{
    if i == s.len() - 1 {
    } else {
        lemma_assoc_map_index(s.drop_last(), i);
        assert(s.drop_last()[i] == s[i]);
        assert(s.last().0@ != s[i].0@);
    }
}

proof fn lemma_assoc_map_remove_at(s: Seq<(Vec<u8>, Vec<u8>)>, i: int)
    requires
        distinct_keys(s),
        0 <= i < s.len(),
    ensures
        assoc_map(s.remove(i)) =~= assoc_map(s).remove(s[i].0@),
    decreases s.len(),
{
    let k = s[i].0@;
    if i == s.len() - 1 {
        assert(s.remove(i) =~= s.drop_last());
        lemma_assoc_map_contains(s.drop_last(), k);
        assert(forall|j: int| 0 <= j < s.drop_last().len() ==> s[j].0@ != k);
        assert(!assoc_map(s.drop_last()).contains_key(k));
        assert(assoc_map(s.drop_last()).insert(k, s.last().1@).remove(k) =~= assoc_map(
            s.drop_last(),
        ));
    } else {
        assert(s.remove(i).drop_last() =~= s.drop_last().remove(i));
        assert(s.remove(i).last() == s.last());
        lemma_assoc_map_remove_at(s.drop_last(), i);
        assert(s.last().0@ != k);
        assert(assoc_map(s.remove(i)) == assoc_map(s.drop_last().remove(i)).insert(
            s.last().0@,
            s.last().1@,
        ));
        assert(assoc_map(s.drop_last()).remove(k).insert(s.last().0@, s.last().1@) =~= assoc_map(
            s.drop_last(),
        ).insert(s.last().0@, s.last().1@).remove(k));
    }
}

impl Store {
    /// Every key occurs in at most one entry; constructors establish this and
    /// every operation preserves it.
    pub closed spec fn wf(self) -> bool {
        distinct_keys(self.entries@)
    }

    /// The keys in entry order: the order in which an enumeration hands them
    /// out. No ordering of the store itself is promised beyond this.
    pub closed spec fn key_seq(self) -> Seq<Seq<u8>> {
        Seq::new(self.entries@.len(), |i: int| self.entries@[i].0@)
    }

    /// An empty store.
    pub fn new() -> (s: Store)
        ensures
            s.wf(),
            s@ == Map::<Seq<u8>, Seq<u8>>::empty(),
            s.key_seq() == Seq::<Seq<u8>>::empty(),
    {
        let s = Store { entries: Vec::new() };
        proof {
            assert(s.key_seq() =~= Seq::<Seq<u8>>::empty());
        }
        s
    }

    /// Position of the entry holding `key`, if the store holds one.
    fn find(&self, key: &Vec<u8>) -> (r: Option<usize>)
        requires
            self.wf(),
        ensures
            match r {
                Some(i) => i < self.entries@.len() && self.entries@[i as int].0@ == key@,
                None => !self@.contains_key(key@),
            },
    {
        let mut i: usize = 0;
        while i < self.entries.len()
            invariant
                i <= self.entries@.len(),
                forall|j: int| 0 <= j < i ==> self.entries@[j].0@ != key@,
            decreases self.entries@.len() - i,
        {
            if crate::util::bytes_eq(&self.entries[i].0, key) {
                return Some(i);
            }
            i += 1;
        }
        proof {
            lemma_assoc_map_contains(self.entries@, key@);
        }
        None
    }

    /// Reads the value stored under `key`, or `None` if the store holds no
    /// entry for it.
    pub fn get(&self, key: &Vec<u8>) -> (r: Option<Vec<u8>>)
        requires
            self.wf(),
        ensures
            match r {
                Some(v) => self@.contains_key(key@) && v@ == self@[key@],
                None => !self@.contains_key(key@),
            },
    {
        match self.find(key) {
            Some(i) => {
                proof {
                    lemma_assoc_map_index(self.entries@, i as int);
                }
                Some(self.entries[i].1.clone())
            },
            None => None,
        }
    }

    /// Writes `value` under `key`, replacing any value already there:
    /// last-writer-wins, no versioning.
    pub fn set(&mut self, key: &Vec<u8>, value: &Vec<u8>)
        requires
            old(self).wf(),
        ensures
            final(self).wf(),
            final(self)@ == old(self)@.insert(key@, value@),
    {
        let removed = self.del(key);
        let ghost pre = self.entries@;
        self.entries.push((key.clone(), value.clone()));
        proof {
            assert(self.entries@.drop_last() =~= pre);
            assert(old(self)@.remove(key@).insert(key@, value@) =~= old(self)@.insert(
                key@,
                value@,
            ));
            lemma_assoc_map_contains(pre, key@);
        }
    }

    /// Deletes the entry for `key` and reports how many entries were removed:
    /// one when the store held the key, zero when it did not.
    pub fn del(&mut self, key: &Vec<u8>) -> (removed: usize)
        requires
            old(self).wf(),
        ensures
            final(self).wf(),
            final(self)@ == old(self)@.remove(key@),
            removed == if old(self)@.contains_key(key@) { 1int } else { 0int },
            !final(self)@.contains_key(key@),
    {
        let r = match self.find(key) {
            Some(i) => {
                proof {
                    lemma_assoc_map_index(self.entries@, i as int);
                    lemma_assoc_map_remove_at(self.entries@, i as int);
                }
                self.entries.remove(i);
                1
            },
            None => {
                proof {
                    assert(old(self)@.remove(key@) =~= old(self)@);
                }
                0
            },
        };
        proof {
            lemma_assoc_map_contains(self.entries@, key@);
        }
        r
    }

    /// Hands out every key the store holds, in entry order: a full scan with
    /// no pagination and no ordering promise.
    pub fn keys(&self) -> (r: Vec<Vec<u8>>)
        requires
            self.wf(),
        ensures
            r@.len() == self.key_seq().len(),
            forall|i: int| 0 <= i < r@.len() ==> r@[i]@ == self.key_seq()[i],
    {
        let mut r: Vec<Vec<u8>> = Vec::new();
        let mut i: usize = 0;
        while i < self.entries.len()
            invariant
                i <= self.entries@.len(),
                r@.len() == i,
                forall|j: int| 0 <= j < i ==> r@[j]@ == self.entries@[j].0@,
            decreases self.entries@.len() - i,
        {
            r.push(self.entries[i].0.clone());
            i += 1;
        }
        r
    }

    /// Unconditionally clears every key: the full-flush operation. No
    /// confirmation step; irreversible.
    pub fn flush_all(&mut self)
        ensures
            final(self).wf(),
            final(self)@ == Map::<Seq<u8>, Seq<u8>>::empty(),
            final(self).key_seq() == Seq::<Seq<u8>>::empty(),
    {
        self.entries = Vec::new();
        proof {
            assert(self.key_seq() =~= Seq::<Seq<u8>>::empty());
        }
    }

    /// Every key the enumeration hands out is in the store, and every key of
    /// the store is handed out: the scan is complete.
    pub proof fn lemma_key_seq_complete(self)
        requires
            self.wf(),
        ensures
            forall|k: Seq<u8>| self@.contains_key(k) <==> self.key_seq().contains(k),
    {
        assert forall|k: Seq<u8>| self@.contains_key(k) <==> self.key_seq().contains(k) by {
            lemma_assoc_map_contains(self.entries@, k);
            if self@.contains_key(k) {
                let i = choose|i: int| 0 <= i < self.entries@.len() && self.entries@[i].0@ == k;
                assert(self.key_seq()[i] == k);
            }
            if self.key_seq().contains(k) {
                let i = choose|i: int| 0 <= i < self.key_seq().len() && self.key_seq()[i] == k;
                assert(self.entries@[i].0@ == k);
            }
        }
    }
}

} // verus!
