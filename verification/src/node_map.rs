//! A small map keyed by text (node ids, session ids, message kinds). Entries keep
//! the order in which their keys first came in.

use vstd::prelude::*;

use crate::text::same_text;

verus! {

pub struct NodeMap<V: View> {
    entries: Vec<(String, V)>,
}

spec fn keys_of<V>(entries: Seq<(String, V)>) -> Seq<Seq<char>> {
    entries.map_values(|e: (String, V)| e.0@)
}

impl<V: View> View for NodeMap<V> {
    type V = Map<Seq<char>, V::V>;

    /// What the map holds.
    open spec fn view(&self) -> Map<Seq<char>, V::V> {
        Map::new(
            |k: Seq<char>| self.keys_spec().contains(k),
            |k: Seq<char>| self.values_spec()[self.keys_spec().index_of(k)],
        )
    }
}

impl<V: View> NodeMap<V> {
    /// The keys, in order.
    pub closed spec fn keys_spec(&self) -> Seq<Seq<char>> {
        keys_of(self.entries@)
    }

    /// The values, in the order of their keys.
    pub closed spec fn values_spec(&self) -> Seq<V::V> {
        self.entries@.map_values(|e: (String, V)| e.1@)
    }

    /// No key occurs twice.
    #[verifier::type_invariant]
    pub open spec fn wf(&self) -> bool {
        &&& self.keys_spec().no_duplicates()
        &&& self.keys_spec().len() == self.values_spec().len()
    }

    /// The keys and values list the map: each key once, with its value.
    pub proof fn law_lists_the_map(&self)
        requires
            self.wf(),
        ensures
            self.keys_spec().no_duplicates(),
            self.keys_spec().to_set() == self@.dom(),
            self.values_spec().len() == self.keys_spec().len(),
            self@.dom().finite(),
            self@.len() == self.keys_spec().len(),
            forall|i: int|
                0 <= i < self.keys_spec().len() ==> #[trigger] self@[self.keys_spec()[i]]
                    == self.values_spec()[i],
            forall|i: int|
                0 <= i < self.keys_spec().len() ==> self@.contains_key(
                    #[trigger] self.keys_spec()[i],
                ),
    {
        assert(self.keys_spec().to_set() =~= self@.dom());
        self.keys_spec().unique_seq_to_set();
        assert forall|i: int| 0 <= i < self.keys_spec().len() implies #[trigger] self@[self.keys_spec()[i]]
            == self.values_spec()[i] by {
            let k = self.keys_spec()[i];
            assert(self.keys_spec().contains(k));
            let j = self.keys_spec().index_of(k);
            assert(self.keys_spec()[j] == k);
            assert(i == j);
        }
        assert forall|i: int| 0 <= i < self.keys_spec().len() implies self@.contains_key(
            #[trigger] self.keys_spec()[i],
        ) by {
            assert(self.keys_spec().contains(self.keys_spec()[i]));
        }
    }

    pub fn new() -> (r: Self)
        ensures
            r@ == Map::<Seq<char>, V::V>::empty(),
            r.keys_spec() == Seq::<Seq<char>>::empty(),
    {
        let r = NodeMap { entries: Vec::new() };
        assert(r@ =~= Map::<Seq<char>, V::V>::empty());
        assert(r.keys_spec() =~= Seq::<Seq<char>>::empty());
        r
    }

    pub fn len(&self) -> (r: usize)
        ensures
            r == self.keys_spec().len(),
            r == self.values_spec().len(),
    {
        self.entries.len()
    }

    /// The key at position `i`.
    pub fn key_at(&self, i: usize) -> (r: &String)
        requires
            i < self.keys_spec().len(),
        ensures
            r@ == self.keys_spec()[i as int],
    {
        &self.entries[i].0
    }

    /// The value at position `i`.
    pub fn value_at(&self, i: usize) -> (r: &V)
        requires
            i < self.values_spec().len(),
        ensures
            r@ == self.values_spec()[i as int],
    {
        &self.entries[i].1
    }

    fn find(&self, key: &str) -> (r: Option<usize>)
        ensures
            match r {
                Some(i) => i < self.entries@.len() && self.keys_spec()[i as int] == key@,
                None => !self.keys_spec().contains(key@),
            },
    {
        let mut i: usize = 0;
        while i < self.entries.len()
            invariant
                i <= self.entries@.len(),
                forall|j: int| 0 <= j < i ==> #[trigger] self.keys_spec()[j] != key@,
            decreases self.entries.len() - i,
        {
            if same_text(self.entries[i].0.as_str(), key) {
                return Some(i);
            }
            i = i + 1;
        }
        None
    }

    pub fn contains_key(&self, key: &str) -> (r: bool)
        ensures
            r == self@.contains_key(key@),
    {
        match self.find(key) {
            Some(_) => {
                true
            },
            None => false,
        }
    }

    pub fn get(&self, key: &str) -> (r: Option<&V>)
        ensures
            match r {
                Some(v) => self@.contains_key(key@) && v@ == self@[key@],
                None => !self@.contains_key(key@),
            },
    {
        proof {
            use_type_invariant(&*self);
            self.law_lists_the_map();
        }
        match self.find(key) {
            Some(i) => {
                assert(self@[self.keys_spec()[i as int]] == self.values_spec()[i as int]);
                Some(&self.entries[i].1)
            },
            None => None,
        }
    }

    pub fn insert(&mut self, key: String, value: V)
        ensures
            final(self)@ == old(self)@.insert(key@, value@),
            final(self).keys_spec() == if old(self)@.contains_key(key@) {
                old(self).keys_spec()
            } else {
                old(self).keys_spec().push(key@)
            },
    {
        proof {
            use_type_invariant(&*self);
            self.law_lists_the_map();
        }
        let ghost before = *self;
        let found = self.find(key.as_str());
        let mut entries: Vec<(String, V)> = Vec::new();
        std::mem::swap(&mut entries, &mut self.entries);
        match found {
            Some(i) => {
                entries.set(i, (key, value));
                assert(keys_of(entries@) =~= before.keys_spec());
                self.entries = entries;
                assert(self.values_spec() =~= before.values_spec().update(i as int, value@));
                assert(before.keys_spec().contains(key@));
            },
            None => {
                entries.push((key, value));
                assert(keys_of(entries@) =~= before.keys_spec().push(key@));
                self.entries = entries;
                assert(self.values_spec() =~= before.values_spec().push(value@));
            },
        }
        proof {
            self.law_lists_the_map();
            assert forall|k: Seq<char>| #[trigger] self@.contains_key(k) == before@.insert(
                key@,
                value@,
            ).contains_key(k) by {
                if self@.contains_key(k) {
                    let j = self.keys_spec().index_of(k);
                    assert(self.keys_spec()[j] == k);
                    if j < before.keys_spec().len() {
                        assert(before.keys_spec()[j] == k);
                        assert(before.keys_spec().contains(k));
                    }
                }
                if before@.contains_key(k) {
                    let j = before.keys_spec().index_of(k);
                    assert(before.keys_spec()[j] == k);
                    assert(self.keys_spec()[j] == k);
                }
                if k == key@ && !before.keys_spec().contains(k) {
                    assert(self.keys_spec()[self.keys_spec().len() - 1] == k);
                }
            }
            assert forall|k: Seq<char>| self@.contains_key(k) implies #[trigger] self@[k]
                == before@.insert(key@, value@)[k] by {
                let j = self.keys_spec().index_of(k);
                assert(self.keys_spec()[j] == k);
                assert(self@[self.keys_spec()[j]] == self.values_spec()[j]);
                if j < before.keys_spec().len() {
                    assert(before.keys_spec()[j] == k);
                    assert(before@[before.keys_spec()[j]] == before.values_spec()[j]);
                }
            }
            assert(self@ =~= before@.insert(key@, value@));
        }
    }

    /// Take out the entry at position `i`.
    pub fn remove_at(&mut self, i: usize) -> (r: V)
        requires
            i < old(self).keys_spec().len(),
        ensures
            r@ == old(self).values_spec()[i as int],
            final(self)@ == old(self)@.remove(old(self).keys_spec()[i as int]),
            final(self).keys_spec() == old(self).keys_spec().remove(i as int),
            final(self).values_spec() == old(self).values_spec().remove(i as int),
    {
        proof {
            use_type_invariant(&*self);
            self.law_lists_the_map();
        }
        let ghost before = *self;
        let ghost key = self.keys_spec()[i as int];
        let mut entries: Vec<(String, V)> = Vec::new();
        std::mem::swap(&mut entries, &mut self.entries);
        let e = entries.remove(i);
        assert(keys_of(entries@) =~= before.keys_spec().remove(i as int));
        self.entries = entries;
        assert(self.values_spec() =~= before.values_spec().remove(i as int));
        proof {
            self.law_lists_the_map();
            assert forall|k: Seq<char>| #[trigger] self@.contains_key(k) == before@.remove(
                key,
            ).contains_key(k) by {
                if self@.contains_key(k) {
                    let j = self.keys_spec().index_of(k);
                    assert(self.keys_spec()[j] == k);
                    if j < i {
                        assert(before.keys_spec()[j] == k);
                    } else {
                        assert(before.keys_spec()[j + 1] == k);
                    }
                }
                if before@.contains_key(k) && k != key {
                    let j = before.keys_spec().index_of(k);
                    assert(before.keys_spec()[j] == k);
                    if j < i {
                        assert(self.keys_spec()[j] == k);
                    } else {
                        assert(self.keys_spec()[j - 1] == k);
                    }
                }
            }
            assert forall|k: Seq<char>| self@.contains_key(k) implies #[trigger] self@[k]
                == before@[k] by {
                let j = self.keys_spec().index_of(k);
                assert(self.keys_spec()[j] == k);
                assert(self@[self.keys_spec()[j]] == self.values_spec()[j]);
                let b = if j < i {
                    j
                } else {
                    j + 1
                };
                assert(before.keys_spec()[b] == k);
                assert(before@[before.keys_spec()[b]] == before.values_spec()[b]);
            }
            assert(self@ =~= before@.remove(key));
        }
        e.1
    }

    pub fn remove(&mut self, key: &str) -> (r: Option<V>)
        ensures
            final(self)@ == old(self)@.remove(key@),
            match r {
                Some(v) => old(self)@.contains_key(key@) && v@ == old(self)@[key@],
                None => !old(self)@.contains_key(key@),
            },
    {
        proof {
            use_type_invariant(&*self);
            self.law_lists_the_map();
        }
        match self.find(key) {
            Some(i) => {
                assert(self@[self.keys_spec()[i as int]] == self.values_spec()[i as int]);
                Some(self.remove_at(i))
            },
            None => {
                assert(self@ =~= self@.remove(key@));
                None
            },
        }
    }

    /// The keys, in order.
    pub fn keys(&self) -> (r: Vec<String>)
        ensures
            crate::text::texts(r@) == self.keys_spec(),
    {
        let mut out: Vec<String> = Vec::new();
        for i in 0..self.entries.len()
            invariant
                out@.len() == i,
                forall|j: int| 0 <= j < i ==> (#[trigger] out@[j])@ == self.keys_spec()[j],
        {
            out.push(self.entries[i].0.clone());
        }
        assert(crate::text::texts(out@) =~= self.keys_spec());
        out
    }
}

} // verus!
