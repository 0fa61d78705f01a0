//! A small map from server ids to values that keeps its entries in a list.

use vstd::prelude::*;

verus! {

struct IdEntry<V> {
    key: String,
    value: V,
}

/// A map keyed by server id. No id occurs twice in it.
pub struct IdMap<V> {
    entries: Vec<IdEntry<V>>,
}

impl<V> IdMap<V> {
    #[verifier::type_invariant]
    spec fn keys_distinct(self) -> bool {
        forall|i: int, j: int|
            0 <= i < j < self.entries@.len() ==> self.entries@[i].key@ != self.entries@[j].key@
    }

    /// The ids of the map, in the order in which the entries are held.
    pub closed spec fn key_seq(&self) -> Seq<Seq<char>> {
        Seq::new(self.entries@.len(), |i: int| self.entries@[i].key@)
    }

    /// The values of the map, each at the position of its id in `key_seq`.
    pub closed spec fn value_seq(&self) -> Seq<V> {
        Seq::new(self.entries@.len(), |i: int| self.entries@[i].value)
    }

    /// Whether the two lists describe a map: they are of one length, and no
    /// id occurs twice.
    pub open spec fn listed(&self) -> bool {
        &&& self.key_seq().len() == self.value_seq().len()
        &&& self.key_seq().no_duplicates()
    }

    /// The map: each id of `key_seq` with the value at its position.
    pub open spec fn view(&self) -> Map<Seq<char>, V> {
        Map::new(
            |k: Seq<char>| self.key_seq().contains(k),
            |k: Seq<char>| self.value_seq()[self.key_seq().index_of(k)],
        )
    }

    /// A map without entries.
    pub fn new() -> (r: Self)
        ensures
            r@ == Map::<Seq<char>, V>::empty(),
            r.key_seq().len() == 0,
    {
        let r = IdMap { entries: Vec::new() };
        assert(r@ =~= Map::<Seq<char>, V>::empty());
        r
    }

    /// The number of entries.
    pub fn len(&self) -> (r: usize)
        ensures
            r == self.key_seq().len(),
            self.listed(),
    {
        proof {
            use_type_invariant(self);
        }
        self.entries.len()
    }

    /// The id at position `i`.
    pub(crate) fn key_at(&self, i: usize) -> (r: &String)
        requires
            i < self.key_seq().len(),
        ensures
            r@ == self.key_seq()[i as int],
    {
        &self.entries[i].key
    }

    /// The value at position `i`.
    pub(crate) fn value_at(&self, i: usize) -> (r: &V)
        requires
            i < self.key_seq().len(),
        ensures
            *r == self.value_seq()[i as int],
            self.listed(),
            self@.contains_key(self.key_seq()[i as int]),
            *r == self@[self.key_seq()[i as int]],
    {
        proof {
            use_type_invariant(self);
            self.lemma_positions();
        }
        &self.entries[i].value
    }

    proof fn lemma_positions(&self)
        requires
            self.keys_distinct(),
        ensures
            self.listed(),
            forall|i: int|
                0 <= i < self.key_seq().len() ==> self.key_seq().index_of(
                    #[trigger] self.key_seq()[i],
                ) == i,
    {
        assert forall|i: int| 0 <= i < self.key_seq().len() implies self.key_seq().index_of(
            #[trigger] self.key_seq()[i],
        ) == i by {
            let k = self.key_seq()[i];
            let j = self.key_seq().index_of(k);
            assert(self.key_seq().contains(k));
            assert(0 <= j < self.key_seq().len() && self.key_seq()[j] == k);
            if j < i {
                assert(self.entries@[j].key@ != self.entries@[i].key@);
            } else if i < j {
                assert(self.entries@[i].key@ != self.entries@[j].key@);
            }
        }
    }

    fn position(&self, id: &str) -> (r: Option<usize>)
        ensures
            match r {
                Some(i) => i < self.key_seq().len() && self.key_seq()[i as int] == id@,
                None => !self.key_seq().contains(id@),
            },
    {
        let wanted = String::from_str(id);
        let mut i: usize = 0;
        while i < self.entries.len()
            invariant
                i <= self.entries@.len(),
                wanted@ == id@,
                forall|j: int| 0 <= j < i ==> self.entries@[j].key@ != id@,
            decreases self.entries.len() - i,
        {
            if self.entries[i].key == wanted {
                return Some(i);
            }
            i = i + 1;
        }
        None
    }

    /// Whether the map has an entry for `id`.
    pub fn contains_key(&self, id: &str) -> (r: bool)
        ensures
            r == self@.contains_key(id@),
    {
        self.position(id).is_some()
    }

    /// The value for `id`, if the map has one.
    pub fn get(&self, id: &str) -> (r: Option<&V>)
        ensures
            match r {
                Some(v) => self@.contains_key(id@) && self@[id@] == *v,
                None => !self@.contains_key(id@),
            },
    {
        proof {
            use_type_invariant(self);
            self.lemma_positions();
        }
        match self.position(id) {
            Some(i) => Some(&self.entries[i].value),
            None => None,
        }
    }

    /// Sets the value for `key`, in place of the one that the map had for it.
    pub fn insert(&mut self, key: String, value: V)
        ensures
            final(self)@ == old(self)@.insert(key@, value),
    {
        proof {
            use_type_invariant(&*self);
            self.lemma_positions();
        }
        let ghost pre = *self;
        let ghost wanted = key@;
        let found = self.position(key.as_str());
        let mut entries: Vec<IdEntry<V>> = Vec::new();
        std::mem::swap(&mut entries, &mut self.entries);
        match found {
            Some(i) => {
                entries.set(i, IdEntry { key, value });
            },
            None => {
                entries.push(IdEntry { key, value });
            },
        }
        proof {
            assert forall|a: int, b: int| 0 <= a < b < entries@.len() implies entries@[a].key@
                != entries@[b].key@ by {
                if a < pre.entries@.len() {
                    assert(pre.key_seq()[a] == pre.entries@[a].key@);
                }
                if b < pre.entries@.len() {
                    assert(pre.key_seq()[b] == pre.entries@[b].key@);
                }
            }
        }
        self.entries = entries;
        proof {
            let post = *self;
            post.lemma_positions();
            let slot = match found {
                Some(i) => i as int,
                None => pre.key_seq().len() as int,
            };
            assert(post.key_seq()[slot] == wanted);
            assert forall|k: Seq<char>| post@.contains_key(k) <==> pre@.insert(
                wanted,
                value,
            ).contains_key(k) by {
                if post@.contains_key(k) && k != wanted {
                    let j = post.key_seq().index_of(k);
                    assert(post.key_seq()[j] == k);
                    assert(pre.key_seq()[j] == k);
                }
                if pre@.contains_key(k) {
                    let j = pre.key_seq().index_of(k);
                    assert(pre.key_seq()[j] == k);
                    assert(post.key_seq()[j] == k);
                }
            }
            assert forall|k: Seq<char>| post@.contains_key(k) implies post@[k] == pre@.insert(
                wanted,
                value,
            )[k] by {
                let j = post.key_seq().index_of(k);
                assert(post.key_seq()[j] == k);
                if k != wanted {
                    assert(pre.key_seq()[j] == k);
                }
            }
            assert(post@ =~= pre@.insert(wanted, value));
        }
    }

    /// Takes the entry for `id` out of the map, if it has one.
    pub fn remove(&mut self, id: &str)
        ensures
            final(self)@ == old(self)@.remove(id@),
    {
        proof {
            use_type_invariant(&*self);
            self.lemma_positions();
        }
        let ghost pre = *self;
        let found = self.position(id);
        match found {
            Some(i) => {
                let mut entries: Vec<IdEntry<V>> = Vec::new();
                std::mem::swap(&mut entries, &mut self.entries);
                let _ = entries.remove(i);
                self.entries = entries;
                proof {
                    let post = *self;
                    post.lemma_positions();
                    assert forall|k: Seq<char>| post@.contains_key(k) <==> pre@.remove(
                        id@,
                    ).contains_key(k) by {
                        if post@.contains_key(k) {
                            let j = post.key_seq().index_of(k);
                            assert(post.key_seq()[j] == k);
                            if j < i {
                                assert(pre.key_seq()[j] == k);
                            } else {
                                assert(pre.key_seq()[j + 1] == k);
                            }
                        }
                        if pre@.remove(id@).contains_key(k) {
                            let j = pre.key_seq().index_of(k);
                            assert(pre.key_seq()[j] == k);
                            if j < i {
                                assert(post.key_seq()[j] == k);
                            } else {
                                assert(post.key_seq()[j - 1] == k);
                            }
                        }
                    }
                    assert forall|k: Seq<char>| post@.contains_key(k) implies post@[k]
                        == pre@.remove(id@)[k] by {
                        let j = post.key_seq().index_of(k);
                        assert(post.key_seq()[j] == k);
                        if j < i {
                            assert(pre.key_seq()[j] == k);
                        } else {
                            assert(pre.key_seq()[j + 1] == k);
                        }
                    }
                    assert(post@ =~= pre@.remove(id@));
                }
            },
            None => {
                assert(self@ =~= pre@.remove(id@));
            },
        }
    }
}

} // verus!
