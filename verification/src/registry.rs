//! A small map from action names to values, kept as two parallel vectors.
//! vstd specifies the contents of `HashMap` and `BTreeMap` only for keys whose
//! hashing or ordering it knows to obey its laws, which it does not establish
//! for `String`; this map needs no such law.
use vstd::prelude::*;

verus! {

/// Values registered under distinct names.
pub struct Registry<V> {
    pub(crate) keys: Vec<String>,
    pub(crate) values: Vec<V>,
}

impl<V> Registry<V> {
    /// The name at a position.
    pub closed spec fn key_at(&self, i: int) -> Seq<char> {
        self.keys@[i]@
    }

    /// The value at a position.
    pub closed spec fn value_at(&self, i: int) -> V {
        self.values@[i]
    }

    /// Number of registered names.
    pub closed spec fn len(&self) -> nat {
        self.keys.len() as nat
    }

    closed spec fn has_key(&self, k: Seq<char>) -> bool {
        exists|i: int| 0 <= i < self.keys.len() && self.key_at(i) == k
    }

    closed spec fn index_of(&self, k: Seq<char>) -> int {
        choose|i: int| 0 <= i < self.keys.len() && self.key_at(i) == k
    }

    /// Each name has one value, and no name is registered twice.
    pub closed spec fn wf(&self) -> bool {
        &&& self.keys.len() == self.values.len()
        &&& forall|i: int, j: int| 0 <= i < j < self.keys.len() ==> self.key_at(i) != self.key_at(j)
    }

    /// The registered values by name.
    pub closed spec fn map(&self) -> Map<Seq<char>, V> {
        Map::new(|k: Seq<char>| self.has_key(k), |k: Seq<char>| self.values@[self.index_of(k)])
    }

    proof fn lemma_index_of(&self, i: int)
        requires
            self.wf(),
            0 <= i < self.keys.len(),
        ensures
            self.has_key(self.key_at(i)),
            self.index_of(self.key_at(i)) == i,
    {
        let k = self.key_at(i);
        assert(self.has_key(k));
        let j = self.index_of(k);
        if j < i {
            assert(self.key_at(j) != self.key_at(i));
        } else if i < j {
            assert(self.key_at(i) != self.key_at(j));
        }
    }

    /// An empty registry.
    pub fn new() -> (r: Self)
        ensures
            r.wf(),
            r.len() == 0,
            r.map() == Map::<Seq<char>, V>::empty(),
    {
        let r = Registry { keys: Vec::new(), values: Vec::new() };
        assert(r.map() =~= Map::<Seq<char>, V>::empty());
        r
    }

    /// The value at a position.
    pub fn value(&self, i: usize) -> (r: &V)
        requires
            self.wf(),
            i < self.len(),
        ensures
            *r == self.value_at(i as int),
    {
        &self.values[i]
    }

    /// The position of `key`, if it is registered.
    pub fn find(&self, key: &String) -> (r: Option<usize>)
        requires
            self.wf(),
        ensures
            match r {
                Some(i) => i < self.len() && self.key_at(i as int) == key@ && self.map().contains_key(key@)
                    && self.map()[key@] == self.value_at(i as int),
                None => !self.map().contains_key(key@),
            },
    {
        let mut i: usize = 0;
        while i < self.keys.len()
            invariant
                self.wf(),
                i <= self.keys.len(),
                forall|j: int| 0 <= j < i ==> self.key_at(j) != key@,
            decreases self.keys.len() - i,
        {
            if self.keys[i] == *key {
                proof {
                    self.lemma_index_of(i as int);
                }
                return Some(i);
            }
            i = i + 1;
        }
        None
    }

    /// Replaces the value at a position.
    pub fn replace(&mut self, i: usize, v: V)
        requires
            old(self).wf(),
            i < old(self).len(),
        ensures
            final(self).wf(),
            final(self).len() == old(self).len(),
            forall|j: int| 0 <= j < old(self).len() ==> #[trigger] final(self).key_at(j) == old(self).key_at(j),
            final(self).value_at(i as int) == v,
            final(self).map() == old(self).map().insert(old(self).key_at(i as int), v),
    {
        let ghost old_r = *self;
        self.values.set(i, v);
        proof {
            assert(self.keys@ == old_r.keys@);
            assert forall|a: int, b: int| 0 <= a < b < self.keys.len() implies self.key_at(a) != self.key_at(b) by {
                assert(old_r.key_at(a) != old_r.key_at(b));
            }
            assert forall|k: Seq<char>| #[trigger] self.has_key(k) == old_r.has_key(k) by {
                if old_r.has_key(k) {
                    let j = old_r.index_of(k);
                    assert(self.key_at(j) == k);
                }
                if self.has_key(k) {
                    let j = self.index_of(k);
                    assert(old_r.key_at(j) == k);
                }
            }
            assert forall|k: Seq<char>| self.has_key(k) implies self.index_of(k) == old_r.index_of(k) by {
                let j = old_r.index_of(k);
                old_r.lemma_index_of(j);
                self.lemma_index_of(j);
            }
            old_r.lemma_index_of(i as int);
            self.lemma_index_of(i as int);
            assert(self.map() =~= old_r.map().insert(old_r.key_at(i as int), v));
        }
    }

    /// Registers `key` with `v`, replacing the value it had.
    pub fn insert(&mut self, key: String, v: V)
        requires
            old(self).wf(),
        ensures
            final(self).wf(),
            final(self).map() == old(self).map().insert(key@, v),
    {
        match self.find(&key) {
            Some(i) => {
                self.replace(i, v);
            },
            None => {
                let ghost old_r = *self;
                self.keys.push(key);
                self.values.push(v);
                proof {
                    let n = old_r.keys.len() as int;
                    assert(self.key_at(n) == key@);
                    assert forall|i: int, j: int| 0 <= i < j < self.keys.len() implies self.key_at(i) != self.key_at(j) by {
                        if j < n {
                            assert(old_r.key_at(i) != old_r.key_at(j));
                        } else {
                            assert(!old_r.map().contains_key(key@));
                            assert(old_r.key_at(i) == self.key_at(i));
                        }
                    }
                    assert forall|k: Seq<char>| #[trigger] self.has_key(k) == (old_r.has_key(k) || k == key@) by {
                        if old_r.has_key(k) {
                            let j = old_r.index_of(k);
                            assert(self.key_at(j) == k);
                        }
                        if k == key@ {
                            assert(self.key_at(n) == k);
                        }
                        if self.has_key(k) && k != key@ {
                            let j = self.index_of(k);
                            assert(old_r.key_at(j) == k);
                        }
                    }
                    assert forall|k: Seq<char>| old_r.has_key(k) implies self.index_of(k) == old_r.index_of(k) by {
                        let j = old_r.index_of(k);
                        old_r.lemma_index_of(j);
                        self.lemma_index_of(j);
                    }
                    self.lemma_index_of(n);
                    assert(self.map() =~= old_r.map().insert(key@, v));
                }
            },
        }
    }
}

} // verus!
