//! A small map from text keys to values, kept as a list in which no key
//! occurs twice.

use crate::text::text_eq;
use vstd::prelude::*;

verus! {

/// A map keyed by text.
pub struct TextMap<V> {
    entries: Vec<(String, V)>,
}

impl<V> View for TextMap<V> {
    type V = Map<Seq<char>, V>;

    closed spec fn view(&self) -> Map<Seq<char>, V> {
        Map::new(
            |k: Seq<char>| self.position(k) is Some,
            |k: Seq<char>| self.entries@[self.position(k).unwrap()].1,
        )
    }
}

impl<V> TextMap<V> {
    /// No key occurs twice.
    pub closed spec fn wf(&self) -> bool {
        self.distinct_keys()
    }

    spec fn distinct_keys(&self) -> bool {
        forall|i: int, j: int|
            0 <= i < j < self.entries@.len() ==> (#[trigger] self.entries@[i]).0@ != (#[trigger] self.entries@[j]).0@
    }

    /// Where a key stands in the list, if it is there.
    spec fn position(&self, k: Seq<char>) -> Option<int> {
        if exists|i: int| 0 <= i < self.entries@.len() && (#[trigger] self.entries@[i]).0@ == k {
            Some(choose|i: int| 0 <= i < self.entries@.len() && (#[trigger] self.entries@[i]).0@ == k)
        } else {
            None
        }
    }

    /// With distinct keys, the position of the key at `i` is `i`.
    proof fn lemma_position(&self, i: int)
        requires
            self.distinct_keys(),
            0 <= i < self.entries@.len(),
        ensures
            self.position(self.entries@[i].0@) == Some(i),
    {
    }

    /// An empty map.
    pub fn new() -> (m: Self)
        ensures
            m.wf(),
            m@ == Map::<Seq<char>, V>::empty(),
    {
        let m = TextMap { entries: Vec::new() };
        assert(m@ =~= Map::<Seq<char>, V>::empty());
        m
    }

    /// The index of `key` in the list.
    fn find(&self, key: &str) -> (r: Option<usize>)
        ensures
            match r {
                Some(i) => i < self.entries@.len() && self.entries@[i as int].0@ == key@,
                None => forall|k: int| 0 <= k < self.entries@.len() ==> (#[trigger] self.entries@[k]).0@ != key@,
            },
    {
        let mut i: usize = 0;
        while i < self.entries.len()
            invariant
                i <= self.entries@.len(),
                forall|k: int| 0 <= k < i ==> (#[trigger] self.entries@[k]).0@ != key@,
            decreases self.entries.len() - i,
        {
            if text_eq(self.entries[i].0.as_str(), key) {
                return Some(i);
            }
            i += 1;
        }
        None
    }

    /// Whether the map holds `key`.
    pub fn contains_key(&self, key: &str) -> (b: bool)
        requires
            self.wf(),
        ensures
            b == self@.contains_key(key@),
    {
        match self.find(key) {
            Some(i) => {
                proof {
                    self.lemma_position(i as int);
                }
                true
            },
            None => false,
        }
    }

    /// The value stored under `key`.
    pub fn get(&self, key: &str) -> (r: Option<&V>)
        requires
            self.wf(),
        ensures
            match r {
                Some(v) => self@.contains_key(key@) && *v == self@[key@],
                None => !self@.contains_key(key@),
            },
    {
        match self.find(key) {
            Some(i) => {
                proof {
                    self.lemma_position(i as int);
                }
                Some(&self.entries[i].1)
            },
            None => None,
        }
    }

    /// Stores `value` under `key`, in place of what was there.
    pub fn insert(&mut self, key: String, value: V)
        requires
            old(self).wf(),
        ensures
            final(self).wf(),
            final(self)@ == old(self)@.insert(key@, value),
    {
        let ghost before = *self;
        match self.find(key.as_str()) {
            Some(i) => {
                self.entries.set(i, (key, value));
                proof {
                    assert forall|k: Seq<char>| #[trigger] self.position(k) == before.position(k) by {
                        if before.position(k) is Some {
                            let p = before.position(k).unwrap();
                            assert(self.entries@[p].0@ == k);
                            self.lemma_position(p);
                        } else if self.position(k) is Some {
                            let p = self.position(k).unwrap();
                            assert(before.entries@[p].0@ == k);
                        }
                    }
                    before.lemma_position(i as int);
                    assert(self@ =~= before@.insert(key@, value));
                }
            },
            None => {
                let ghost key_text = key@;
                self.entries.push((key, value));
                proof {
                    let last = self.entries@.len() - 1;
                    assert forall|k: Seq<char>| k != key_text implies #[trigger] self.position(k) == before.position(
                        k,
                    ) by {
                        if before.position(k) is Some {
                            let p = before.position(k).unwrap();
                            assert(self.entries@[p].0@ == k);
                            self.lemma_position(p);
                        } else if self.position(k) is Some {
                            let p = self.position(k).unwrap();
                            assert(before.entries@[p].0@ == k);
                        }
                    }
                    self.lemma_position(last);
                    assert(self@ =~= before@.insert(key_text, value));
                }
            },
        }
    }

    /// Takes out what is stored under `key`.
    pub fn remove(&mut self, key: &str) -> (r: Option<V>)
        requires
            old(self).wf(),
        ensures
            final(self).wf(),
            final(self)@ == old(self)@.remove(key@),
            match r {
                Some(v) => old(self)@.contains_key(key@) && v == old(self)@[key@],
                None => !old(self)@.contains_key(key@),
            },
    {
        let ghost before = *self;
        match self.find(key) {
            Some(i) => {
                let entry = self.entries.remove(i);
                proof {
                    before.lemma_position(i as int);
                    assert forall|k: Seq<char>| k != key@ implies (#[trigger] self.position(k) is Some) == (
                    before.position(k) is Some) && (self.position(k) is Some ==> self.entries@[self.position(
                        k,
                    ).unwrap()] == before.entries@[before.position(k).unwrap()]) by {
                        if before.position(k) is Some {
                            let p = before.position(k).unwrap();
                            let q = if p < i { p } else { p - 1 };
                            assert(self.entries@[q] == before.entries@[p]);
                            self.lemma_position(q);
                        } else if self.position(k) is Some {
                            let q = self.position(k).unwrap();
                            let p = if q < i { q } else { q + 1 };
                            assert(before.entries@[p] == self.entries@[q]);
                        }
                    }
                    assert(self.position(key@) is None) by {
                        if self.position(key@) is Some {
                            let q = self.position(key@).unwrap();
                            let p = if q < i { q } else { q + 1 };
                            assert(before.entries@[p] == self.entries@[q]);
                        }
                    }
                    assert(self@ =~= before@.remove(key@));
                }
                Some(entry.1)
            },
            None => {
                proof {
                    assert(self@ =~= before@.remove(key@));
                }
                None
            },
        }
    }

    /// The number of keys.
    pub fn len(&self) -> (n: usize)
        requires
            self.wf(),
        ensures
            n == self@.dom().len(),
            self@.dom().finite(),
    {
        proof {
            self.lemma_domain(self.entries@.len() as int);
            assert(self@.dom() =~= self.keys_before(self.entries@.len() as int));
        }
        self.entries.len()
    }

    /// The keys of the first `n` entries.
    spec fn keys_before(&self, n: int) -> Set<Seq<char>> {
        Set::new(|k: Seq<char>| exists|i: int| 0 <= i < n && (#[trigger] self.entries@[i]).0@ == k)
    }

    /// The first `n` entries have `n` keys among them.
    proof fn lemma_domain(&self, n: int)
        requires
            self.distinct_keys(),
            0 <= n <= self.entries@.len(),
        ensures
            self.keys_before(n).finite(),
            self.keys_before(n).len() == n,
        decreases n,
    {
        if n == 0 {
            assert(self.keys_before(0) =~= Set::<Seq<char>>::empty());
        } else {
            self.lemma_domain(n - 1);
            let k = self.entries@[n - 1].0@;
            assert(self.keys_before(n) =~= self.keys_before(n - 1).insert(k));
            assert(!self.keys_before(n - 1).contains(k));
        }
    }

    /// The keys, each once.
    pub fn keys(&self) -> (r: Vec<String>)
        requires
            self.wf(),
        ensures
            forall|k: Seq<char>| self@.contains_key(k) <==> exists|i: int| 0 <= i < r@.len() && (#[trigger] r@[i])@ == k,
            forall|i: int, j: int| 0 <= i < j < r@.len() ==> (#[trigger] r@[i])@ != (#[trigger] r@[j])@,
    {
        let mut out: Vec<String> = Vec::new();
        let mut i: usize = 0;
        while i < self.entries.len()
            invariant
                i <= self.entries@.len(),
                out@.len() == i,
                forall|j: int| 0 <= j < i ==> (#[trigger] out@[j])@ == self.entries@[j].0@,
            decreases self.entries.len() - i,
        {
            out.push(self.entries[i].0.clone());
            i += 1;
        }
        proof {
            assert forall|k: Seq<char>| self@.contains_key(k) <==> exists|i: int|
                0 <= i < out@.len() && (#[trigger] out@[i])@ == k by {
                if self@.contains_key(k) {
                    let p = self.position(k).unwrap();
                    assert(out@[p]@ == k);
                }
                if exists|i: int| 0 <= i < out@.len() && (#[trigger] out@[i])@ == k {
                    let p = choose|i: int| 0 <= i < out@.len() && (#[trigger] out@[i])@ == k;
                    assert(self.entries@[p].0@ == k);
                }
            }
        }
        out
    }
}

} // verus!
