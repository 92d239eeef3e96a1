//! Maps keyed by fixed-length byte strings (public keys, consent hashes,
//! route ids), held as a vector of entries whose keys are pairwise distinct.
use vstd::prelude::*;

verus! {

/// A map keyed by 32-byte strings.
pub type ByteMap<V> = KeyMap<32, V>;

/// Entries of a key-value vector are keyed by pairwise distinct keys.
pub open spec fn keys_distinct<const N: usize, V>(s: Seq<([u8; N], V)>) -> bool {
    forall|i: int, j: int| 0 <= i < s.len() && 0 <= j < s.len() && i != j ==> s[i].0@ != s[j].0@
}

/// Whether some entry carries key `k`.
pub open spec fn has_key<const N: usize, V>(s: Seq<([u8; N], V)>, k: Seq<u8>) -> bool {
    exists|i: int| 0 <= i < s.len() && s[i].0@ == k
}

/// The map that a key-value vector stands for.
pub open spec fn entries_map<const N: usize, V>(s: Seq<([u8; N], V)>) -> Map<Seq<u8>, V> {
    Map::new(
        |k: Seq<u8>| has_key(s, k),
        |k: Seq<u8>| s[choose|i: int| 0 <= i < s.len() && s[i].0@ == k].1,
    )
}

/// With distinct keys, the map sends the key of each entry to its value.
pub proof fn lemma_entries_map_index<const N: usize, V>(s: Seq<([u8; N], V)>, i: int)
    requires
        keys_distinct(s),
        0 <= i < s.len(),
    ensures
        entries_map(s).dom().contains(s[i].0@),
        entries_map(s)[s[i].0@] == s[i].1,
{
    let k = s[i].0@;
    assert(has_key(s, k));
    let j = choose|j: int| 0 <= j < s.len() && s[j].0@ == k;
    assert(j == i);
}

/// A map keyed by `N`-byte strings.
pub struct KeyMap<const N: usize, V> {
    entries: Vec<([u8; N], V)>,
}

impl<const N: usize, V> View for KeyMap<N, V> {
    type V = Map<Seq<u8>, V>;

    closed spec fn view(&self) -> Map<Seq<u8>, V> {
        entries_map(self.entries@)
    }
}

impl<const N: usize, V> KeyMap<N, V> {
    /// Keys are pairwise distinct.
    pub closed spec fn wf(&self) -> bool {
        keys_distinct(self.entries@)
    }

    /// The keys of the map in storage order.
    pub closed spec fn key_seq(self) -> Seq<Seq<u8>> {
        self.entries@.map_values(|e: ([u8; N], V)| e.0@)
    }

    /// The map is finite and its keys are `N` bytes long.
    pub proof fn lemma_wf(&self)
        requires
            self.wf(),
        ensures
            self@.dom().finite(),
            self@.dom().len() == self.key_seq().len(),
            forall|k: Seq<u8>| self@.dom().contains(k) ==> k.len() == N,
            forall|k: Seq<u8>| self@.dom().contains(k) <==> self.key_seq().contains(k),
            self.key_seq().no_duplicates(),
    {
        let s = self.entries@;
        let ks = self.key_seq();
        assert forall|k: Seq<u8>| self@.dom().contains(k) <==> ks.contains(k) by {
            if self@.dom().contains(k) {
                let i = choose|i: int| 0 <= i < s.len() && s[i].0@ == k;
                assert(ks[i] == k);
            }
            if ks.contains(k) {
                let i = choose|i: int| 0 <= i < ks.len() && ks[i] == k;
                assert(s[i].0@ == k);
            }
        }
        assert forall|i: int, j: int| 0 <= i < ks.len() && 0 <= j < ks.len() && i != j implies ks[i]
            != ks[j] by {}
        assert(self@.dom() =~= ks.to_set());
        ks.unique_seq_to_set();
        assert forall|k: Seq<u8>| self@.dom().contains(k) implies k.len() == N by {
            let i = choose|i: int| 0 <= i < s.len() && s[i].0@ == k;
        }
    }

    pub fn new() -> (m: Self)
        ensures
            m.wf(),
            m@ == Map::<Seq<u8>, V>::empty(),
    {
        let m = KeyMap { entries: Vec::new() };
        assert(m@ =~= Map::<Seq<u8>, V>::empty());
        m
    }

    /// Number of keys in the map.
    pub fn len(&self) -> (n: usize)
        requires
            self.wf(),
        ensures
            n == self@.dom().len(),
    {
        proof {
            self.lemma_wf();
        }
        self.entries.len()
    }

    /// Index of the entry keyed by `k`, if any.
    fn find(&self, k: &[u8; N]) -> (r: Option<usize>)
        ensures
            match r {
                Some(i) => i < self.entries@.len() && self.entries@[i as int].0@ == k@,
                None => !has_key(self.entries@, k@),
            },
    {
        let n = self.entries.len();
        let mut i: usize = 0;
        while i < n
            invariant
                n == self.entries@.len(),
                0 <= i <= n,
                forall|j: int| 0 <= j < i ==> self.entries@[j].0@ != k@,
            decreases n - i,
        {
            if crate::bytes::bytes_eq(&self.entries[i].0, k) {
                return Some(i);
            }
            i = i + 1;
        }
        None
    }

    pub fn contains_key(&self, k: &[u8; N]) -> (b: bool)
        requires
            self.wf(),
        ensures
            b == self@.dom().contains(k@),
    {
        self.find(k).is_some()
    }

    pub fn get(&self, k: &[u8; N]) -> (r: Option<&V>)
        requires
            self.wf(),
        ensures
            match r {
                Some(v) => self@.dom().contains(k@) && self@[k@] == *v,
                None => !self@.dom().contains(k@),
            },
    {
        match self.find(k) {
            Some(i) => {
                proof {
                    lemma_entries_map_index(self.entries@, i as int);
                }
                Some(&self.entries[i].1)
            },
            None => None,
        }
    }

    /// Sets the value of `k`, adding the key when it is new.
    pub fn insert(&mut self, k: [u8; N], v: V)
        requires
            old(self).wf(),
        ensures
            final(self).wf(),
            final(self)@ == old(self)@.insert(k@, v),
    {
        let ghost s = self.entries@;
        match self.find(&k) {
            Some(i) => {
                let ghost t = s.update(i as int, (k, v));
                self.entries.set(i, (k, v));
                proof {
                    assert(self.entries@ == t);
                    assert forall|a: int, b: int|
                        0 <= a < t.len() && 0 <= b < t.len() && a != b implies t[a].0@
                        != t[b].0@ by {}
                    assert forall|key: Seq<u8>| #[trigger] has_key(t, key) == has_key(s, key) by {
                        if has_key(s, key) {
                            let j = choose|j: int| 0 <= j < s.len() && s[j].0@ == key;
                            assert(t[j].0@ == key);
                        }
                        if has_key(t, key) {
                            let j = choose|j: int| 0 <= j < t.len() && t[j].0@ == key;
                            assert(s[j].0@ == key);
                        }
                    }
                    assert forall|key: Seq<u8>|
                        entries_map(t).dom().contains(key) implies entries_map(t)[key] == old(
                        self,
                    )@.insert(k@, v)[key] by {
                        let j = choose|j: int| 0 <= j < t.len() && t[j].0@ == key;
                        lemma_entries_map_index(t, j);
                        if j != i {
                            lemma_entries_map_index(s, j);
                        }
                    }
                    assert(entries_map(t) =~= old(self)@.insert(k@, v));
                }
            },
            None => {
                let ghost t = s.push((k, v));
                self.entries.push((k, v));
                proof {
                    assert(self.entries@ == t);
                    assert forall|a: int, b: int|
                        0 <= a < t.len() && 0 <= b < t.len() && a != b implies t[a].0@
                        != t[b].0@ by {
                        if a < s.len() && b < s.len() {
                        } else if a < s.len() {
                            assert(t[a].0@ == s[a].0@);
                        } else {
                            assert(t[b].0@ == s[b].0@);
                        }
                    }
                    assert forall|key: Seq<u8>| #[trigger]
                        has_key(t, key) == (has_key(s, key) || key == k@) by {
                        if has_key(s, key) {
                            let j = choose|j: int| 0 <= j < s.len() && s[j].0@ == key;
                            assert(t[j].0@ == key);
                        }
                        if key == k@ {
                            assert(t[s.len() as int].0@ == key);
                        }
                        if has_key(t, key) && key != k@ {
                            let j = choose|j: int| 0 <= j < t.len() && t[j].0@ == key;
                            assert(s[j].0@ == key);
                        }
                    }
                    assert forall|key: Seq<u8>|
                        entries_map(t).dom().contains(key) implies entries_map(t)[key] == old(
                        self,
                    )@.insert(k@, v)[key] by {
                        let j = choose|j: int| 0 <= j < t.len() && t[j].0@ == key;
                        lemma_entries_map_index(t, j);
                        if j < s.len() {
                            lemma_entries_map_index(s, j);
                        }
                    }
                    assert(entries_map(t) =~= old(self)@.insert(k@, v));
                }
            },
        }
    }

    /// Removes `k`, returning its value if it was present.
    pub fn remove(&mut self, k: &[u8; N]) -> (r: Option<V>)
        requires
            old(self).wf(),
        ensures
            final(self).wf(),
            final(self)@ == old(self)@.remove(k@),
            match r {
                Some(v) => old(self)@.dom().contains(k@) && old(self)@[k@] == v,
                None => !old(self)@.dom().contains(k@),
            },
    {
        let ghost s = self.entries@;
        match self.find(k) {
            Some(i) => {
                proof {
                    lemma_entries_map_index(s, i as int);
                }
                let ghost last = (s.len() - 1) as int;
                let ghost t = s.update(i as int, s[last]).drop_last();
                let e = self.entries.swap_remove(i);
                proof {
                    assert(self.entries@ =~= t);
                    assert forall|a: int, b: int|
                        0 <= a < t.len() && 0 <= b < t.len() && a != b implies t[a].0@
                        != t[b].0@ by {
                        let sa = if a == i { last } else { a };
                        let sb = if b == i { last } else { b };
                        assert(t[a] == s[sa] && t[b] == s[sb]);
                    }
                    assert forall|key: Seq<u8>| #[trigger]
                        has_key(t, key) == (has_key(s, key) && key != k@) by {
                        if has_key(s, key) && key != k@ {
                            let j = choose|j: int| 0 <= j < s.len() && s[j].0@ == key;
                            if j == last {
                                assert(t[i as int].0@ == key);
                            } else {
                                assert(t[j].0@ == key);
                            }
                        }
                        if has_key(t, key) {
                            let j = choose|j: int| 0 <= j < t.len() && t[j].0@ == key;
                            let sj = if j == i { last } else { j };
                            assert(s[sj].0@ == key);
                        }
                    }
                    assert forall|key: Seq<u8>|
                        entries_map(t).dom().contains(key) implies entries_map(t)[key] == old(
                        self,
                    )@.remove(k@)[key] by {
                        let j = choose|j: int| 0 <= j < t.len() && t[j].0@ == key;
                        let sj = if j == i { last } else { j };
                        lemma_entries_map_index(t, j);
                        lemma_entries_map_index(s, sj);
                    }
                    assert(entries_map(t) =~= old(self)@.remove(k@));
                }
                Some(e.1)
            },
            None => {
                assert(old(self)@.remove(k@) =~= old(self)@);
                None
            },
        }
    }

    /// Removes every key.
    pub fn clear(&mut self)
        ensures
            final(self).wf(),
            final(self)@ == Map::<Seq<u8>, V>::empty(),
    {
        self.entries.clear();
        assert(self@ =~= Map::<Seq<u8>, V>::empty());
    }

    /// The entry at storage position `i`.
    pub fn entry_at(&self, i: usize) -> (e: (&[u8; N], &V))
        requires
            self.wf(),
            i < self.key_seq().len(),
        ensures
            e.0@ == self.key_seq()[i as int],
            self@.dom().contains(e.0@),
            self@[e.0@] == *e.1,
    {
        proof {
            lemma_entries_map_index(self.entries@, i as int);
        }
        let e = &self.entries[i];
        (&e.0, &e.1)
    }

    /// Number of stored entries (the length of `key_seq`).
    pub fn entry_count(&self) -> (n: usize)
        ensures
            n == self.key_seq().len(),
    {
        self.entries.len()
    }
}

} // verus!
