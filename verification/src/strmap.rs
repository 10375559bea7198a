//! A map keyed by strings, kept as a list of entries in insertion order.
//!
//! Its abstract value is a `Map<Seq<char>, V>`; the entries also keep the order
//! in which keys were first inserted, which is what iteration follows.

use vstd::prelude::*;

verus! {

/// Map from string keys to values; each key appears at most once.
pub struct StrMap<V> {
    entries: Vec<(String, V)>,
    map: Ghost<Map<Seq<char>, V>>,
}

/// The entries have distinct keys and list exactly the bindings of `map`.
spec fn entries_agree<V>(entries: Seq<(String, V)>, map: Map<Seq<char>, V>) -> bool {
    &&& forall|i: int, j: int|
        0 <= i < entries.len() && 0 <= j < entries.len() && i != j
            ==> #[trigger] entries[i].0@ != #[trigger] entries[j].0@
    &&& forall|i: int|
        0 <= i < entries.len() ==> map.contains_key(#[trigger] entries[i].0@)
            && map[entries[i].0@] == entries[i].1
    &&& forall|k: Seq<char>|
        #[trigger] map.contains_key(k) ==> exists|i: int|
            0 <= i < entries.len() && #[trigger] entries[i].0@ == k
    &&& map.dom().finite()
    &&& map.dom().len() == entries.len()
}

/// Position of the entry whose key is `key`, if any.
fn find_in<V>(entries: &Vec<(String, V)>, key: &str) -> (r: Option<usize>)
    ensures
        match r {
            Some(i) => i < entries@.len() && entries@[i as int].0@ == key@,
            None => forall|j: int| 0 <= j < entries@.len() ==> #[trigger] entries@[j].0@ != key@,
        },
{
    let wanted = key.to_owned();
    let mut i: usize = 0;
    while i < entries.len()
        invariant
            wanted@ == key@,
            i <= entries@.len(),
            forall|j: int| 0 <= j < i ==> #[trigger] entries@[j].0@ != key@,
        decreases entries@.len() - i,
    {
        if entries[i].0 == wanted {
            return Some(i);
        }
        i = i + 1;
    }
    None
}

impl<V> StrMap<V> {
    /// The abstract contents of the map.
    pub closed spec fn view(&self) -> Map<Seq<char>, V> {
        self.map@
    }

    /// The entries, as (key, value) pairs in insertion order.
    pub closed spec fn entries_view(&self) -> Seq<(Seq<char>, V)> {
        self.entries@.map_values(|e: (String, V)| (e.0@, e.1))
    }

    /// The keys of the entries, in insertion order.
    pub open spec fn key_order(&self) -> Seq<Seq<char>> {
        self.entries_view().map_values(|e: (Seq<char>, V)| e.0)
    }

    /// Each key is listed once, and the listed keys are the map's keys.
    pub open spec fn keys_match(&self) -> bool {
        &&& self.key_order().no_duplicates()
        &&& self.key_order().to_set() == self@.dom()
    }

    proof fn lemma_keys_match(self)
        requires
            entries_agree(self.entries@, self.map@),
        ensures
            self.keys_match(),
    {
        let ko = self.key_order();
        assert forall|i: int, j: int| 0 <= i < ko.len() && 0 <= j < ko.len() && i != j implies ko[i] != ko[j] by {
            assert(self.entries@[i].0@ != self.entries@[j].0@);
        }
        assert forall|k: Seq<char>| #[trigger] ko.to_set().contains(k) implies self@.contains_key(k) by {
            let i = choose|i: int| 0 <= i < ko.len() && ko[i] == k;
            assert(self.entries@[i].0@ == k);
        }
        assert forall|k: Seq<char>| #[trigger] self@.contains_key(k) implies ko.to_set().contains(k) by {
            let i = choose|i: int| 0 <= i < self.entries@.len() && #[trigger] self.entries@[i].0@ == k;
            assert(ko[i] == k);
        }
        assert(ko.to_set() =~= self@.dom());
    }

    /// Keys are distinct and the entries agree with the abstract map.
    #[verifier::type_invariant]
    closed spec fn wf(&self) -> bool {
        entries_agree(self.entries@, self.map@)
    }

    /// An empty map.
    pub fn new() -> (m: Self)
        ensures
            m@ == Map::<Seq<char>, V>::empty(),
            m.entries_view() == Seq::<(Seq<char>, V)>::empty(),
            m.keys_match(),
    {
        let m = StrMap { entries: Vec::new(), map: Ghost(Map::empty()) };
        assert(m.entries_view() =~= Seq::<(Seq<char>, V)>::empty());
        proof {
            m.lemma_keys_match();
        }
        m
    }

    /// Number of entries.
    pub fn len(&self) -> (n: usize)
        ensures
            n == self@.len(),
            n == self.entries_view().len(),
            self@.dom().finite(),
    {
        proof {
            use_type_invariant(self);
        }
        self.entries.len()
    }

    /// Whether `key` has an entry.
    pub fn contains_key(&self, key: &str) -> (b: bool)
        ensures
            b == self@.contains_key(key@),
    {
        self.get(key).is_some()
    }

    /// The value stored under `key`.
    pub fn get(&self, key: &str) -> (r: Option<&V>)
        ensures
            match r {
                Some(v) => self@.contains_key(key@) && *v == self@[key@],
                None => !self@.contains_key(key@),
            },
    {
        proof {
            use_type_invariant(self);
        }
        match find_in(&self.entries, key) {
            Some(i) => Some(&self.entries[i].1),
            None => {
                proof {
                    if self@.contains_key(key@) {
                        let j = choose|j: int|
                            0 <= j < self.entries@.len() && #[trigger] self.entries@[j].0@ == key@;
                        assert(self.entries@[j].0@ != key@);
                    }
                }
                None
            },
        }
    }

    /// Stores `value` under `key`, replacing any value there; a new key goes last.
    pub fn insert(&mut self, key: String, value: V)
        ensures
            final(self)@ == old(self)@.insert(key@, value),
            forall|i: int|
                0 <= i < old(self).entries_view().len() ==> #[trigger] final(self).entries_view()[i]
                    == if old(self).entries_view()[i].0 == key@ {
                    (key@, value)
                } else {
                    old(self).entries_view()[i]
                },
            old(self)@.contains_key(key@) ==> final(self).entries_view().len() == old(
                self,
            ).entries_view().len(),
            !old(self)@.contains_key(key@) ==> final(self).entries_view() == old(
                self,
            ).entries_view().push((key@, value)),
            final(self).keys_match(),
    {
        proof {
            use_type_invariant(&*self);
        }
        let mut taken = StrMap::new();
        std::mem::swap(self, &mut taken);
        proof {
            assert(taken.wf());
        }
        let StrMap { mut entries, map } = taken;
        let ghost old_map = map@;
        let ghost old_entries = entries@;
        let ghost kv = key@;
        let ghost old_view = old_entries.map_values(|e: (String, V)| (e.0@, e.1));
        match find_in(&entries, key.as_str()) {
            Some(i) => {
                entries.set(i, (key, value));
                proof {
                    assert(old_map.contains_key(kv));
                    assert(old_map.insert(kv, value).dom() =~= old_map.dom());
                    assert forall|k: Seq<char>| #[trigger] old_map.insert(kv, value).contains_key(k) implies exists|j: int|
                        0 <= j < entries@.len() && #[trigger] entries@[j].0@ == k by {
                        if k != kv {
                            let j = choose|j: int| 0 <= j < old_entries.len() && #[trigger] old_entries[j].0@ == k;
                            assert(entries@[j].0@ == k);
                        } else {
                            assert(entries@[i as int].0@ == k);
                        }
                    }
                    assert forall|j: int| 0 <= j < old_entries.len() && j != i implies #[trigger] old_entries[j].0@ != kv by {
                        assert(old_entries[j].0@ != old_entries[i as int].0@);
                    }
                }
                proof {
                    let nm = old_map.insert(kv, value);
                    assert forall|a: int, b: int|
                        0 <= a < entries@.len() && 0 <= b < entries@.len() && a != b
                            implies #[trigger] entries@[a].0@ != #[trigger] entries@[b].0@ by {
                        assert(old_entries[a].0@ != old_entries[b].0@);
                    }
                    assert(nm.dom().len() == entries@.len());
                    assert forall|a: int| 0 <= a < entries@.len() implies nm.contains_key(
                        #[trigger] entries@[a].0@,
                    ) && nm[entries@[a].0@] == entries@[a].1 by {
                        if a != i {
                            assert(old_entries[a].0@ != kv);
                        }
                    }
                    assert(entries_agree(entries@, nm));
                }
                *self = StrMap { entries, map: Ghost(old_map.insert(kv, value)) };
                proof {
                    assert(self.entries_view() =~= old_view.update(i as int, (kv, value)));
                    use_type_invariant(&*self);
                    self.lemma_keys_match();
                }
            },
            None => {
                proof {
                    if old_map.contains_key(kv) {
                        let j = choose|j: int| 0 <= j < old_entries.len() && #[trigger] old_entries[j].0@ == kv;
                        assert(old_entries[j].0@ != kv);
                    }
                }
                entries.push((key, value));
                proof {
                    assert forall|k: Seq<char>| #[trigger] old_map.insert(kv, value).contains_key(k) implies exists|j: int|
                        0 <= j < entries@.len() && #[trigger] entries@[j].0@ == k by {
                        if k != kv {
                            let j = choose|j: int| 0 <= j < old_entries.len() && #[trigger] old_entries[j].0@ == k;
                            assert(entries@[j].0@ == k);
                        } else {
                            assert(entries@[old_entries.len() as int].0@ == k);
                        }
                    }
                }
                *self = StrMap { entries, map: Ghost(old_map.insert(kv, value)) };
                proof {
                    assert(self.entries_view() =~= old_view.push((kv, value)));
                    use_type_invariant(&*self);
                    self.lemma_keys_match();
                }
            },
        }
    }

    /// Removes the entry under `key`; the other entries keep their order.
    pub fn remove(&mut self, key: &str) -> (r: Option<V>)
        ensures
            final(self)@ == old(self)@.remove(key@),
            match r {
                Some(v) => old(self)@.contains_key(key@) && v == old(self)@[key@],
                None => !old(self)@.contains_key(key@),
            },
            old(self)@.contains_key(key@) ==> exists|i: int|
                0 <= i < old(self).entries_view().len() && old(self).entries_view()[i].0 == key@
                    && final(self).entries_view() == old(self).entries_view().remove(i),
            !old(self)@.contains_key(key@) ==> final(self).entries_view() == old(self).entries_view(),
            final(self).keys_match(),
    {
        proof {
            use_type_invariant(&*self);
        }
        let mut taken = StrMap::new();
        std::mem::swap(self, &mut taken);
        proof {
            assert(taken.wf());
        }
        let StrMap { mut entries, map } = taken;
        let ghost old_map = map@;
        let ghost old_entries = entries@;
        match find_in(&entries, key) {
            Some(i) => {
                let (_k, v) = entries.remove(i);
                proof {
                    assert(entries@ =~= old_entries.remove(i as int));
                    let new_map = old_map.remove(key@);
                    assert forall|a: int, b: int|
                        0 <= a < entries@.len() && 0 <= b < entries@.len() && a != b
                            implies #[trigger] entries@[a].0@ != #[trigger] entries@[b].0@ by {
                        let a2 = if a < i { a } else { a + 1 };
                        let b2 = if b < i { b } else { b + 1 };
                        assert(old_entries[a2].0@ != old_entries[b2].0@);
                    }
                    assert forall|a: int| 0 <= a < entries@.len() implies new_map.contains_key(
                        #[trigger] entries@[a].0@,
                    ) && new_map[entries@[a].0@] == entries@[a].1 by {
                        let a2 = if a < i { a } else { a + 1 };
                        assert(old_entries[a2].0@ != old_entries[i as int].0@);
                    }
                    assert forall|k: Seq<char>| #[trigger] new_map.contains_key(k) implies exists|j: int|
                        0 <= j < entries@.len() && #[trigger] entries@[j].0@ == k by {
                        let j = choose|j: int| 0 <= j < old_entries.len() && #[trigger] old_entries[j].0@ == k;
                        assert(j != i);
                        let j2 = if j < i { j } else { j - 1 };
                        assert(entries@[j2].0@ == k);
                    }
                }
                *self = StrMap { entries, map: Ghost(old_map.remove(key@)) };
                proof {
                    let ov = old_entries.map_values(|e: (String, V)| (e.0@, e.1));
                    assert(self.entries_view() =~= ov.remove(i as int));
                    assert(ov[i as int].0 == key@);
                    assert(ov =~= old(self).entries_view());
                    assert(0 <= i < old(self).entries_view().len() && old(self).entries_view()[i as int].0 == key@
                        && self.entries_view() == old(self).entries_view().remove(i as int));
                    use_type_invariant(&*self);
                    self.lemma_keys_match();
                }
                Some(v)
            },
            None => {
                proof {
                    if old_map.contains_key(key@) {
                        let j = choose|j: int| 0 <= j < old_entries.len() && #[trigger] old_entries[j].0@ == key@;
                        assert(old_entries[j].0@ != key@);
                    }
                    assert(old_map.remove(key@) =~= old_map);
                }
                *self = StrMap { entries, map };
                proof {
                    use_type_invariant(&*self);
                    self.lemma_keys_match();
                }
                None
            },
        }
    }

    /// Removes every entry.
    pub fn clear(&mut self)
        ensures
            final(self)@ == Map::<Seq<char>, V>::empty(),
            final(self).entries_view() == Seq::<(Seq<char>, V)>::empty(),
            final(self).keys_match(),
    {
        *self = StrMap::new();
    }

    /// The key and value of the `i`-th entry in insertion order.
    pub fn entry_at(&self, i: usize) -> (r: (&String, &V))
        requires
            i < self.entries_view().len(),
        ensures
            r.0@ == self.entries_view()[i as int].0,
            *r.1 == self.entries_view()[i as int].1,
            self@.contains_key(r.0@),
            self@[r.0@] == *r.1,
    {
        proof {
            use_type_invariant(self);
        }
        let e = &self.entries[i];
        (&e.0, &e.1)
    }

    /// The keys in insertion order.
    pub fn keys(&self) -> (ks: Vec<String>)
        ensures
            ks@.len() == self.entries_view().len(),
            forall|i: int| 0 <= i < ks@.len() ==> #[trigger] ks@[i]@ == self.entries_view()[i].0,
            forall|i: int| 0 <= i < ks@.len() ==> self@.contains_key(#[trigger] ks@[i]@),
            forall|i: int, j: int|
                0 <= i < ks@.len() && 0 <= j < ks@.len() && i != j ==> #[trigger] ks@[i]@ != #[trigger] ks@[j]@,
            forall|k: Seq<char>| #[trigger] self@.contains_key(k) ==> exists|i: int|
                0 <= i < ks@.len() && #[trigger] ks@[i]@ == k,
    {
        proof {
            use_type_invariant(self);
        }
        let mut ks: Vec<String> = Vec::new();
        let mut i: usize = 0;
        while i < self.entries.len()
            invariant
                i <= self.entries@.len(),
                ks@.len() == i,
                forall|j: int| 0 <= j < i ==> #[trigger] ks@[j]@ == self.entries_view()[j].0,
                forall|j: int| 0 <= j < i ==> #[trigger] ks@[j]@ == self.entries@[j].0@,
            decreases self.entries@.len() - i,
        {
            ks.push(self.entries[i].0.clone());
            i = i + 1;
        }
        proof {
            assert forall|k: Seq<char>| #[trigger] self@.contains_key(k) implies exists|i: int|
                0 <= i < ks@.len() && #[trigger] ks@[i]@ == k by {
                let i = choose|i: int| 0 <= i < self.entries@.len() && #[trigger] self.entries@[i].0@ == k;
                assert(ks@[i]@ == k);
            }
        }
        ks
    }
}

} // verus!
