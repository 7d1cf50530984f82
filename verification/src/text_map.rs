//! A small map keyed by strings, with a mathematical view as `Map<Seq<char>, V>`.
use vstd::prelude::*;
use crate::text::{chars_of, chars_eq};

verus! {

/// A map from strings to values; keys are unique and kept in insertion order.
#[derive(Clone, Debug, PartialEq)]
pub struct TextMap<V> {
    entries: Vec<(String, V)>,
}

impl<V> TextMap<V> {
    /// No key occurs twice.
    pub closed spec fn wf(self) -> bool {
        forall|i: int, j: int|
            0 <= i < j < self.entries@.len() ==> #[trigger] self.entries@[i].0@
                != #[trigger] self.entries@[j].0@
    }

    /// Index of key `k`, if present.
    closed spec fn holds(self, k: Seq<char>, i: int) -> bool {
        0 <= i < self.entries@.len() && self.entries@[i].0@ == k
    }

    /// Number of entries.
    pub closed spec fn size(self) -> nat {
        self.entries@.len()
    }

    /// The key stored at position `i`.
    pub closed spec fn key_at_spec(self, i: int) -> Seq<char> {
        self.entries@[i].0@
    }

    /// The map this value denotes.
    pub closed spec fn as_map(self) -> Map<Seq<char>, V> {
        Map::new(
            |k: Seq<char>| exists|i: int| self.holds(k, i),
            |k: Seq<char>| self.entries@[choose|i: int| self.holds(k, i)].1,
        )
    }

    proof fn lemma_lookup(self, k: Seq<char>, i: int)
        requires self.wf(), self.holds(k, i),
        ensures self.as_map().contains_key(k), self.as_map()[k] == self.entries@[i].1,
    {
        let j = choose|j: int| self.holds(k, j);
        assert(self.holds(k, j));
        if j < i {
            assert(self.entries@[j].0@ != self.entries@[i].0@);
        } else if i < j {
            assert(self.entries@[i].0@ != self.entries@[j].0@);
        }
    }

    /// The empty map.
    pub fn new() -> (m: Self)
        ensures m.wf(), m@ == Map::<Seq<char>, V>::empty(), m.size() == 0,
    {
        let m = TextMap { entries: Vec::new() };
        assert(m.as_map() =~= Map::<Seq<char>, V>::empty());
        m
    }

    /// Position of key `k`.
    fn index_of(&self, k: &str) -> (r: Option<usize>)
        requires self.wf(),
        ensures
            match r {
                Some(i) => self.holds(k@, i as int),
                None => !self@.contains_key(k@),
            },
    {
        let kc = chars_of(k);
        let mut i: usize = 0;
        while i < self.entries.len()
            invariant
                i <= self.entries@.len(),
                kc@ == k@,
                forall|j: int| 0 <= j < i ==> self.entries@[j].0@ != k@,
            decreases self.entries@.len() - i,
        {
            let ec = chars_of(self.entries[i].0.as_str());
            if chars_eq(ec.as_slice(), kc.as_slice()) {
                return Some(i);
            }
            i = i + 1;
        }
        None
    }

    /// Number of entries.
    pub fn len(&self) -> (r: usize)
        ensures r == self.size(),
    {
        self.entries.len()
    }

    /// The value stored under `k`.
    pub fn get(&self, k: &str) -> (r: Option<&V>)
        requires self.wf(),
        ensures
            match r {
                Some(v) => self@.contains_key(k@) && *v == self@[k@],
                None => !self@.contains_key(k@),
            },
    {
        match self.index_of(k) {
            Some(i) => {
                proof { self.lemma_lookup(k@, i as int); }
                Some(&self.entries[i].1)
            },
            None => None,
        }
    }

    /// Whether `k` is present.
    pub fn contains_key(&self, k: &str) -> (r: bool)
        requires self.wf(),
        ensures r == self@.contains_key(k@),
    {
        match self.index_of(k) {
            Some(i) => {
                proof { self.lemma_lookup(k@, i as int); }
                true
            },
            None => false,
        }
    }

    /// Sets the value of `k` to `v`, adding `k` where it is absent.
    pub fn insert(&mut self, k: String, v: V)
        requires old(self).wf(),
        ensures
            final(self).wf(),
            final(self)@ == old(self)@.insert(k@, v),
            final(self).size() == if old(self)@.contains_key(k@) { old(self).size() } else { old(self).size() + 1 },
    {
        let ghost old_self = *self;
        match self.index_of(k.as_str()) {
            Some(i) => {
                let ghost before = self.entries@;
                self.entries.set(i, (k, v));
                proof {
                    assert forall|a: int, b: int| 0 <= a < b < self.entries@.len() implies
                        #[trigger] self.entries@[a].0@ != #[trigger] self.entries@[b].0@ by {
                        assert(before[a].0@ != before[b].0@);
                    }
                    assert(self.holds(k@, i as int));
                    assert forall|kk: Seq<char>| #[trigger] self.as_map().contains_key(kk)
                        <==> old_self.as_map().contains_key(kk) || kk == k@ by {
                        if self.as_map().contains_key(kk) {
                            let j = choose|j: int| self.holds(kk, j);
                            if j != i { assert(old_self.holds(kk, j)); }
                        }
                        if old_self.as_map().contains_key(kk) {
                            let j = choose|j: int| old_self.holds(kk, j);
                            assert(self.holds(kk, j));
                        }
                    }
                    assert forall|kk: Seq<char>| #[trigger] self.as_map().contains_key(kk) implies
                        self.as_map()[kk] == old_self.as_map().insert(k@, v)[kk] by {
                        let j = choose|j: int| self.holds(kk, j);
                        self.lemma_lookup(kk, j);
                        if kk != k@ {
                            assert(old_self.holds(kk, j));
                            old_self.lemma_lookup(kk, j);
                        }
                    }
                    assert(self.as_map() =~= old_self.as_map().insert(k@, v));
                    old_self.lemma_lookup(k@, i as int);
                }
            },
            None => {
                self.entries.push((k, v));
                proof {
                    let n = old_self.entries@.len() as int;
                    assert forall|a: int, b: int| 0 <= a < b < self.entries@.len() implies
                        #[trigger] self.entries@[a].0@ != #[trigger] self.entries@[b].0@ by {
                        if b == n {
                            assert(old_self.holds(self.entries@[a].0@, a));
                        }
                    }
                    assert(self.holds(k@, n));
                    assert forall|kk: Seq<char>| #[trigger] self.as_map().contains_key(kk)
                        <==> old_self.as_map().contains_key(kk) || kk == k@ by {
                        if self.as_map().contains_key(kk) {
                            let j = choose|j: int| self.holds(kk, j);
                            if j != n { assert(old_self.holds(kk, j)); }
                        }
                        if old_self.as_map().contains_key(kk) {
                            let j = choose|j: int| old_self.holds(kk, j);
                            assert(self.holds(kk, j));
                        }
                    }
                    assert forall|kk: Seq<char>| #[trigger] self.as_map().contains_key(kk) implies
                        self.as_map()[kk] == old_self.as_map().insert(k@, v)[kk] by {
                        let j = choose|j: int| self.holds(kk, j);
                        self.lemma_lookup(kk, j);
                        if kk != k@ {
                            assert(j != n);
                            assert(old_self.holds(kk, j));
                            old_self.lemma_lookup(kk, j);
                        }
                    }
                    assert(self.as_map() =~= old_self.as_map().insert(k@, v));
                }
            },
        }
    }

    /// Removes `k` where it is present.
    pub fn remove(&mut self, k: &str)
        requires old(self).wf(),
        ensures
            final(self).wf(),
            final(self)@ == old(self)@.remove(k@),
            final(self).size() == if old(self)@.contains_key(k@) { (old(self).size() - 1) as nat } else { old(self).size() },
    {
        let ghost old_self = *self;
        match self.index_of(k) {
            Some(i) => {
                let ghost before = self.entries@;
                self.entries.remove(i);
                proof {
                    old_self.lemma_lookup(k@, i as int);
                    let after = self.entries@;
                    assert(after =~= before.subrange(0, i as int) + before.subrange(i + 1, before.len() as int));
                    assert forall|j: int| 0 <= j < after.len() implies
                        #[trigger] after[j] == before[if j < i { j } else { j + 1 }] by {}
                    assert forall|a: int, b: int| 0 <= a < b < after.len() implies
                        #[trigger] after[a].0@ != #[trigger] after[b].0@ by {
                        let a2 = if a < i { a } else { a + 1 };
                        let b2 = if b < i { b } else { b + 1 };
                        assert(after[a] == before[a2]);
                        assert(after[b] == before[b2]);
                        assert(before[a2].0@ != before[b2].0@);
                    }
                    assert forall|kk: Seq<char>| #[trigger] self.as_map().contains_key(kk)
                        <==> old_self.as_map().contains_key(kk) && kk != k@ by {
                        if self.as_map().contains_key(kk) {
                            let j = choose|j: int| self.holds(kk, j);
                            let j2 = if j < i { j } else { j + 1 };
                            assert(after[j] == before[j2]);
                            assert(old_self.holds(kk, j2));
                            if kk == k@ {
                                assert(before[j2].0@ == before[i as int].0@);
                                assert(j2 != i);
                                if j2 < i { assert(before[j2].0@ != before[i as int].0@); }
                                else { assert(before[i as int].0@ != before[j2].0@); }
                            }
                        }
                        if old_self.as_map().contains_key(kk) && kk != k@ {
                            let j = choose|j: int| old_self.holds(kk, j);
                            assert(j != i);
                            let j2 = if j < i { j } else { j - 1 };
                            assert(after[j2] == before[j]);
                            assert(self.holds(kk, j2));
                        }
                    }
                    assert forall|kk: Seq<char>| #[trigger] self.as_map().contains_key(kk) implies
                        self.as_map()[kk] == old_self.as_map()[kk] by {
                        let j = choose|j: int| self.holds(kk, j);
                        self.lemma_lookup(kk, j);
                        let j2 = if j < i { j } else { j + 1 };
                        assert(after[j] == before[j2]);
                        assert(old_self.holds(kk, j2));
                        old_self.lemma_lookup(kk, j2);
                    }
                    assert(self.as_map() =~= old_self.as_map().remove(k@));
                }
            },
            None => {
                assert(self.as_map() =~= old_self.as_map().remove(k@));
            },
        }
    }

    /// Keeps only the keys that occur in `keep`.
    pub fn retain_keys(&mut self, keep: &[String])
        requires old(self).wf(),
        ensures
            final(self).wf(),
            final(self)@ == old(self)@.restrict(key_set(keep@)),
    {
        let ghost start = self@;
        let mut doomed: Vec<String> = Vec::new();
        let mut i: usize = 0;
        while i < self.len()
            invariant
                self.wf(),
                self@ == start,
                i <= self.size(),
                forall|j: int| 0 <= j < doomed@.len() ==> start.contains_key(#[trigger] doomed@[j]@)
                    && !key_set(keep@).contains(doomed@[j]@),
                forall|j: int| 0 <= j < i ==> key_set(keep@).contains(#[trigger] self.key_at_spec(j))
                    || exists|m: int| 0 <= m < doomed@.len() && doomed@[m]@ == self.key_at_spec(j),
            decreases self.size() - i,
        {
            let k = self.key_at(i);
            let ghost old_doomed = doomed@;
            if !contains_text(keep, k.as_str()) {
                doomed.push(k.clone());
                proof {
                    assert(doomed@[doomed@.len() - 1]@ == self.key_at_spec(i as int));
                    assert forall|j: int| 0 <= j < i + 1 implies key_set(keep@).contains(#[trigger] self.key_at_spec(j))
                        || exists|m: int| 0 <= m < doomed@.len() && doomed@[m]@ == self.key_at_spec(j) by {
                        if j < i && !key_set(keep@).contains(self.key_at_spec(j)) {
                            let m = choose|m: int| 0 <= m < old_doomed.len() && old_doomed[m]@ == self.key_at_spec(j);
                            assert(doomed@[m] == old_doomed[m]);
                        }
                        if j == i {
                            assert(doomed@[old_doomed.len() as int]@ == self.key_at_spec(j));
                        }
                    }
                }
            }
            i = i + 1;
        }
        proof {
            assert forall|k: Seq<char>| start.contains_key(k) && !key_set(keep@).contains(k) implies
                exists|m: int| 0 <= m < doomed@.len() && #[trigger] doomed@[m]@ == k by {
                self.lemma_keys_positioned(k);
                let j = choose|j: int| 0 <= j < self.size() && #[trigger] self.key_at_spec(j) == k;
                assert(key_set(keep@).contains(self.key_at_spec(j))
                    || exists|m: int| 0 <= m < doomed@.len() && doomed@[m]@ == self.key_at_spec(j));
            }
        }
        let mut d: usize = 0;
        while d < doomed.len()
            invariant
                self.wf(),
                d <= doomed@.len(),
                forall|j: int| 0 <= j < doomed@.len() ==> start.contains_key(#[trigger] doomed@[j]@)
                    && !key_set(keep@).contains(doomed@[j]@),
                forall|k: Seq<char>| start.contains_key(k) && !key_set(keep@).contains(k) ==>
                    exists|m: int| 0 <= m < doomed@.len() && #[trigger] doomed@[m]@ == k,
                forall|k: Seq<char>| #[trigger] self@.contains_key(k) <==> start.contains_key(k)
                    && !(exists|m: int| 0 <= m < d && doomed@[m]@ == k),
                forall|k: Seq<char>| #[trigger] self@.contains_key(k) ==> self@[k] == start[k],
            decreases doomed@.len() - d,
        {
            let ghost before = self@;
            self.remove(doomed[d].as_str());
            proof {
                assert forall|k: Seq<char>| #[trigger] self@.contains_key(k) <==> start.contains_key(k)
                    && !(exists|m: int| 0 <= m < d + 1 && doomed@[m]@ == k) by {
                    if exists|m: int| 0 <= m < d + 1 && doomed@[m]@ == k {
                        let m = choose|m: int| 0 <= m < d + 1 && doomed@[m]@ == k;
                        if m < d {
                            assert(!before.contains_key(k));
                        }
                    }
                    if before.contains_key(k) && k != doomed@[d as int]@ {
                        assert forall|m: int| 0 <= m < d + 1 implies doomed@[m]@ != k by {
                            if m < d {
                                assert(!(exists|m2: int| 0 <= m2 < d && doomed@[m2]@ == k));
                            }
                        }
                    }
                }
            }
            d = d + 1;
        }
        proof {
            assert forall|k: Seq<char>| #[trigger] self@.contains_key(k) <==> start.restrict(key_set(keep@)).contains_key(k) by {
                if start.contains_key(k) && !key_set(keep@).contains(k) {
                    let m = choose|m: int| 0 <= m < doomed@.len() && #[trigger] doomed@[m]@ == k;
                    assert(!self@.contains_key(k));
                }
                if start.contains_key(k) && key_set(keep@).contains(k) {
                    assert forall|m: int| 0 <= m < doomed@.len() implies doomed@[m]@ != k by {
                        assert(!key_set(keep@).contains(doomed@[m]@));
                    }
                }
            }
            assert(self@ =~= start.restrict(key_set(keep@)));
        }
    }

    /// The key stored at position `i`.
    pub fn key_at(&self, i: usize) -> (r: &String)
        requires self.wf(), i < self.size(),
        ensures r@ == self.key_at_spec(i as int), self@.contains_key(r@),
    {
        proof { assert(self.holds(self.entries@[i as int].0@, i as int)); }
        &self.entries[i].0
    }

    /// The value stored at position `i`.
    pub fn value_at(&self, i: usize) -> (r: &V)
        requires self.wf(), i < self.size(),
        ensures *r == self@[self.key_at_spec(i as int)],
    {
        proof { self.lemma_lookup(self.entries@[i as int].0@, i as int); }
        &self.entries[i].1
    }

    /// The number of entries is the number of keys.
    pub proof fn lemma_size_is_len(self)
        requires self.wf(),
        ensures self@.dom().finite(), self@.dom().len() == self.size(),
    {
        let keys = self.entries@.map_values(|e: (String, V)| e.0@);
        assert(keys.no_duplicates()) by {
            assert forall|i: int, j: int| 0 <= i < keys.len() && 0 <= j < keys.len() && i != j
                implies keys[i] != keys[j] by {
                if i < j {
                    assert(self.entries@[i].0@ != self.entries@[j].0@);
                } else {
                    assert(self.entries@[j].0@ != self.entries@[i].0@);
                }
            }
        }
        keys.unique_seq_to_set();
        assert forall|k: Seq<char>| #[trigger] self.as_map().dom().contains(k) == keys.to_set().contains(k) by {
            if self.as_map().dom().contains(k) {
                let j = choose|j: int| self.holds(k, j);
                assert(keys[j] == k);
            }
            if keys.to_set().contains(k) {
                let j = choose|j: int| 0 <= j < keys.len() && keys[j] == k;
                assert(self.holds(k, j));
            }
        }
        assert(self.as_map().dom() =~= keys.to_set());
    }

    /// Every key of the map is stored at some position.
    pub proof fn lemma_keys_positioned(self, k: Seq<char>)
        requires self.wf(), self@.contains_key(k),
        ensures exists|i: int| 0 <= i < self.size() && #[trigger] self.key_at_spec(i) == k,
    {
        let i = choose|i: int| self.holds(k, i);
        assert(self.key_at_spec(i) == k);
    }
}

impl TextMap<String> {
    /// `self` holds the same entries as `other`, in the same order.
    pub closed spec fn same_entries(self, other: Self) -> bool {
        self.entries@ == other.entries@
    }

    /// Maps with the same entries are equally well formed and denote the same map.
    pub proof fn lemma_same_entries(a: Self, b: Self)
        requires a.same_entries(b), b.wf(),
        ensures a.wf(), a@ == b@,
    {
        assert forall|k: Seq<char>, j: int| a.holds(k, j) == b.holds(k, j) by {}
        assert forall|k: Seq<char>| #[trigger] a.as_map().contains_key(k) == b.as_map().contains_key(k) by {
            if b.as_map().contains_key(k) {
                let j = choose|j: int| b.holds(k, j);
                assert(a.holds(k, j));
            }
            if a.as_map().contains_key(k) {
                let j = choose|j: int| a.holds(k, j);
                assert(b.holds(k, j));
                a.lemma_lookup(k, j);
                b.lemma_lookup(k, j);
            }
        }
        assert(a.as_map() =~= b.as_map());
    }

    /// The entries' texts, in the order they were first inserted.
    pub closed spec fn entry_views(self) -> Seq<(Seq<char>, Seq<char>)> {
        self.entries@.map_values(|e: (String, String)| (e.0@, e.1@))
    }

    /// The number of entries.
    pub fn entry_count(&self) -> (r: usize)
        ensures r == self.entry_views().len(),
    {
        self.entries.len()
    }

    /// The key and value of entry `i`.
    pub fn entry(&self, i: usize) -> (r: (&String, &String))
        requires i < self.entry_views().len(),
        ensures (r.0@, r.1@) == self.entry_views()[i as int],
    {
        (&self.entries[i].0, &self.entries[i].1)
    }

    /// A copy holding the same entries in the same order.
    pub fn copy(&self) -> (r: Self)
        ensures r.same_entries(*self),
    {
        let mut entries: Vec<(String, String)> = Vec::new();
        let mut i: usize = 0;
        while i < self.entries.len()
            invariant
                i <= self.entries@.len(),
                entries@ == self.entries@.take(i as int),
            decreases self.entries@.len() - i,
        {
            let e = &self.entries[i];
            entries.push((e.0.clone(), e.1.clone()));
            assert(entries@ =~= self.entries@.take(i + 1));
            i = i + 1;
        }
        assert(entries@ =~= self.entries@);
        TextMap { entries }
    }

    /// A copy with the same entries.
    pub fn duplicate(&self) -> (r: Self)
        requires self.wf(),
        ensures r.wf(), r@ == self@, r.size() == self.size(),
    {
        let mut entries: Vec<(String, String)> = Vec::new();
        let mut i: usize = 0;
        while i < self.entries.len()
            invariant
                i <= self.entries@.len(),
                entries@ == self.entries@.take(i as int),
            decreases self.entries@.len() - i,
        {
            let e = &self.entries[i];
            entries.push((e.0.clone(), e.1.clone()));
            assert(entries@ =~= self.entries@.take(i + 1));
            i = i + 1;
        }
        assert(entries@ =~= self.entries@);
        let r = TextMap { entries };
        proof {
            assert(r.entries@ == self.entries@);
            assert forall|k: Seq<char>, j: int| r.holds(k, j) == self.holds(k, j) by {}
            assert forall|k: Seq<char>| #[trigger] r.as_map().contains_key(k) == self.as_map().contains_key(k) by {
                if self.as_map().contains_key(k) {
                    let j = choose|j: int| self.holds(k, j);
                    assert(r.holds(k, j));
                }
                if r.as_map().contains_key(k) {
                    let j = choose|j: int| r.holds(k, j);
                    assert(self.holds(k, j));
                    r.lemma_lookup(k, j);
                    self.lemma_lookup(k, j);
                }
            }
            assert(r.as_map() =~= self.as_map());
        }
        r
    }
}

/// The keys named in `keys`, as character sequences.
pub open spec fn key_set(keys: Seq<String>) -> Set<Seq<char>> {
    Set::new(|k: Seq<char>| exists|i: int| 0 <= i < keys.len() && keys[i]@ == k)
}

/// Whether `k` is among `keys` (as `<[String]>::contains`).
pub fn contains_text(keys: &[String], k: &str) -> (r: bool)
    ensures r == key_set(keys@).contains(k@),
{
    let kc = chars_of(k);
    let mut i: usize = 0;
    while i < keys.len()
        invariant
            i <= keys@.len(),
            kc@ == k@,
            forall|j: int| 0 <= j < i ==> keys@[j]@ != k@,
        decreases keys@.len() - i,
    {
        let c = chars_of(keys[i].as_str());
        if chars_eq(c.as_slice(), kc.as_slice()) {
            assert(keys@[i as int]@ == k@);
            return true;
        }
        i = i + 1;
    }
    false
}

impl<V> View for TextMap<V> {
    type V = Map<Seq<char>, V>;

    closed spec fn view(&self) -> Map<Seq<char>, V> {
        self.as_map()
    }
}

} // verus!
