use vstd::prelude::*;

verus! {

/// A string-keyed table that keeps its entries in insertion order.
///
/// It stands for the JSON objects that the node stores in its files: no key
/// occurs twice, writing a key that is present replaces its value in place,
/// and a new key goes to the end.
#[derive(Debug)]
pub struct Table<V> {
    keys: Vec<String>,
    vals: Vec<V>,
}

impl<V> View for Table<V> {
    type V = Map<Seq<char>, V>;

    open spec fn view(&self) -> Map<Seq<char>, V> {
        self.as_map()
    }
}

impl<V> Table<V> {
    /// The keys in order, each by its characters.
    pub closed spec fn key_seq(&self) -> Seq<Seq<char>> {
        self.keys@.map_values(|k: String| k@)
    }

    /// The values in the order of their keys.
    pub closed spec fn val_seq(&self) -> Seq<V> {
        self.vals@
    }

    /// Every table satisfies this: keys and values pair up, and no key occurs twice.
    #[verifier::type_invariant]
    closed spec fn wf(&self) -> bool {
        &&& self.keys@.len() == self.vals@.len()
        &&& forall|i: int, j: int|
            0 <= i < self.keys@.len() && 0 <= j < self.keys@.len() && i != j
                ==> #[trigger] self.keys@[i]@ != #[trigger] self.keys@[j]@
    }

    /// Position of a key that occurs in the table.
    closed spec fn index_of(&self, k: Seq<char>) -> int {
        choose|i: int| 0 <= i < self.keys@.len() && self.keys@[i]@ == k
    }

    /// The position of a key in the key order.
    pub closed spec fn position(&self, k: Seq<char>) -> int {
        self.index_of(k)
    }

    closed spec fn has(&self, k: Seq<char>) -> bool {
        exists|i: int| 0 <= i < self.keys@.len() && self.keys@[i]@ == k
    }

    /// The table as a map from key characters to values.
    pub closed spec fn as_map(&self) -> Map<Seq<char>, V> {
        Map::new(|k: Seq<char>| self.has(k), |k: Seq<char>| self.vals@[self.index_of(k)])
    }

    proof fn lemma_index(&self, i: int)
        requires
            self.wf(),
            0 <= i < self.keys@.len(),
        ensures
            self.has(self.keys@[i]@),
            self.index_of(self.keys@[i]@) == i,
            self@.contains_key(self.keys@[i]@),
            self@[self.keys@[i]@] == self.vals@[i],
    {
        let k = self.keys@[i]@;
        assert(self.has(k));
        let j = self.index_of(k);
        assert(self.keys@[j]@ == k);
    }

    proof fn lemma_view_facts(&self)
        requires
            self.wf(),
        ensures
            self.key_seq().len() == self.val_seq().len(),
            forall|i: int| 0 <= i < self.key_seq().len()
                ==> #[trigger] self@.contains_key(self.key_seq()[i])
                    && self@[self.key_seq()[i]] == self.val_seq()[i],
            forall|k: Seq<char>| #[trigger] self@.contains_key(k)
                ==> exists|i: int| 0 <= i < self.key_seq().len() && self.key_seq()[i] == k,
    {
        assert forall|i: int| 0 <= i < self.key_seq().len() implies
            #[trigger] self@.contains_key(self.key_seq()[i])
                && self@[self.key_seq()[i]] == self.val_seq()[i] by {
            self.lemma_index(i);
        }
        assert forall|k: Seq<char>| #[trigger] self@.contains_key(k)
            implies exists|i: int| 0 <= i < self.key_seq().len() && self.key_seq()[i] == k by {
            let i = self.index_of(k);
            assert(self.key_seq()[i] == k);
        }
    }

    /// An empty table.
    pub fn new() -> (t: Self)
        ensures
            t@ == Map::<Seq<char>, V>::empty(),
            t.key_seq().len() == 0,
            t.val_seq().len() == 0,
    {
        let t = Table { keys: Vec::new(), vals: Vec::new() };
        assert(t@ =~= Map::<Seq<char>, V>::empty());
        t
    }

    /// Number of entries.
    pub fn len(&self) -> (n: usize)
        ensures
            n == self.key_seq().len(),
            n == self@.dom().len(),
            self.key_seq().len() == self.val_seq().len(),
            forall|i: int| 0 <= i < self.key_seq().len()
                ==> #[trigger] self@.contains_key(self.key_seq()[i])
                    && self@[self.key_seq()[i]] == self.val_seq()[i]
                    && self.position(self.key_seq()[i]) == i,
            forall|k: Seq<char>| #[trigger] self@.contains_key(k)
                ==> 0 <= self.position(k) < self.key_seq().len() && self.key_seq()[self.position(k)] == k,
            forall|k: Seq<char>| #[trigger] self@.contains_key(k) <==> self.key_seq().contains(k),
            self.key_seq().no_duplicates(),
    {
        proof {
            use_type_invariant(self);
            self.lemma_dom_len();
            self.lemma_view_facts();
            self.lemma_no_dup();
            assert forall|i: int| 0 <= i < self.key_seq().len()
                implies self.position(#[trigger] self.key_seq()[i]) == i by {
                self.lemma_index(i);
            }
            assert forall|k: Seq<char>| #[trigger] self@.contains_key(k)
                implies 0 <= self.position(k) < self.key_seq().len() && self.key_seq()[self.position(k)] == k by {
                let i = self.index_of(k);
            }
        }
        self.keys.len()
    }

    proof fn lemma_no_dup(&self)
        requires
            self.wf(),
        ensures
            self.key_seq().no_duplicates(),
            self.key_seq().len() == self.val_seq().len(),
            forall|k: Seq<char>| #[trigger] self@.contains_key(k) <==> self.key_seq().contains(k),
    {
        let ks = self.key_seq();
        assert forall|i: int, j: int| 0 <= i < ks.len() && 0 <= j < ks.len() && i != j
            implies ks[i] != ks[j] by {
            assert(self.keys@[i]@ != self.keys@[j]@);
        }
        assert forall|k: Seq<char>| #[trigger] self@.contains_key(k) <==> ks.contains(k) by {
            if self@.contains_key(k) {
                let i = self.index_of(k);
                assert(ks[i] == k);
            }
            if ks.contains(k) {
                let i = choose|i: int| 0 <= i < ks.len() && ks[i] == k;
                assert(self.keys@[i]@ == k);
                assert(self.has(k));
            }
        }
    }

    proof fn lemma_dom_len(&self)
        requires
            self.wf(),
        ensures
            self@.dom().len() == self.keys@.len(),
            self@.dom().finite(),
        decreases self.keys@.len(),
    {
        let ks = self.key_seq();
        assert(self@.dom() =~= ks.to_set()) by {
            assert forall|k: Seq<char>| self@.dom().contains(k) <==> ks.to_set().contains(k) by {
                if self@.dom().contains(k) {
                    let i = self.index_of(k);
                    assert(ks[i] == k);
                }
                if ks.to_set().contains(k) {
                    let i = choose|i: int| 0 <= i < ks.len() && ks[i] == k;
                    assert(self.keys@[i]@ == k);
                }
            }
        }
        assert(ks.no_duplicates()) by {
            assert forall|i: int, j: int| 0 <= i < ks.len() && 0 <= j < ks.len() && i != j
                implies ks[i] != ks[j] by {
                assert(self.keys@[i]@ != self.keys@[j]@);
            }
        }
        ks.unique_seq_to_set();
    }

    /// Position of `k` among the keys, if it occurs.
    fn find(&self, k: &str) -> (r: Option<usize>)
        ensures
            match r {
                Some(i) => i < self.keys@.len() && self.keys@[i as int]@ == k@,
                None => !self@.contains_key(k@),
            },
    {
        let n = self.keys.len();
        let mut i: usize = 0;
        while i < n
            invariant
                n == self.keys@.len(),
                i <= n,
                forall|j: int| 0 <= j < i ==> self.keys@[j]@ != k@,
            decreases n - i,
        {
            if crate::text::str_eq(self.keys[i].as_str(), k) {
                return Some(i);
            }
            i = i + 1;
        }
        None
    }

    /// Whether `k` has an entry.
    pub fn contains_key(&self, k: &str) -> (b: bool)
        ensures
            b == self@.contains_key(k@),
            b == self.key_seq().contains(k@),
    {
        proof {
            use_type_invariant(self);
            self.lemma_no_dup();
        }
        match self.find(k) {
            Some(i) => {
                proof { self.lemma_index(i as int); }
                true
            }
            None => false,
        }
    }

    /// The value stored under `k`.
    pub fn get(&self, k: &str) -> (r: Option<&V>)
        ensures
            match r {
                Some(v) => self@.contains_key(k@) && *v == self@[k@],
                None => !self@.contains_key(k@),
            },
    {
        proof { use_type_invariant(self); }
        match self.find(k) {
            Some(i) => {
                proof { self.lemma_index(i as int); }
                Some(&self.vals[i])
            }
            None => None,
        }
    }

    /// The key at position `i`.
    pub fn key_at(&self, i: usize) -> (k: &String)
        requires
            i < self.key_seq().len(),
        ensures
            k@ == self.key_seq()[i as int],
    {
        proof { use_type_invariant(self); }
        &self.keys[i]
    }

    /// The value at position `i`.
    pub fn value_at(&self, i: usize) -> (v: &V)
        requires
            i < self.key_seq().len(),
        ensures
            *v == self.val_seq()[i as int],
    {
        proof { use_type_invariant(self); }
        &self.vals[i]
    }

    /// Stores `v` under `k`: the value of a present key is replaced where it
    /// stands, a new key goes to the end. Returns the value that was replaced.
    pub fn insert(&mut self, k: String, v: V) -> (prev: Option<V>)
        ensures
            final(self)@ == old(self)@.insert(k@, v),
            match prev {
                Some(p) => old(self)@.contains_key(k@) && p == old(self)@[k@],
                None => !old(self)@.contains_key(k@),
            },
            old(self)@.contains_key(k@) ==> {
                &&& final(self).key_seq() == old(self).key_seq()
                &&& 0 <= old(self).position(k@) < old(self).key_seq().len()
                &&& old(self).key_seq()[old(self).position(k@)] == k@
                &&& final(self).val_seq() == old(self).val_seq().update(old(self).position(k@), v)
            },
            !old(self)@.contains_key(k@) ==> {
                &&& final(self).key_seq() == old(self).key_seq().push(k@)
                &&& final(self).val_seq() == old(self).val_seq().push(v)
            },
            old(self).key_seq().len() == old(self).val_seq().len(),
            old(self).key_seq().no_duplicates(),
            old(self)@.contains_key(k@) <==> old(self).key_seq().contains(k@),
            final(self).key_seq().len() == final(self).val_seq().len(),
            final(self).key_seq().no_duplicates(),
    {
        proof {
            use_type_invariant(&*self);
            self.lemma_no_dup();
        }
        let ghost old_t = *self;
        let ghost new_v = v;
        let found = self.find(k.as_str());
        let mut tmp = Table::<V>::new();
        std::mem::swap(self, &mut tmp);
        let Table { mut keys, mut vals } = tmp;
        assert(keys@ == old_t.keys@ && vals@ == old_t.vals@);
        match found {
            Some(i) => {
                proof { old_t.lemma_index(i as int); }
                let mut v = v;
                std::mem::swap(&mut vals[i], &mut v);
                assert(vals@ == old_t.vals@.update(i as int, new_v));
                *self = Table { keys, vals };
                proof {
                    use_type_invariant(&*self);
                    self.lemma_no_dup();
                    assert(self.key_seq() =~= old_t.key_seq());
                    assert forall|kk: Seq<char>| self.has(kk) <==> old_t.has(kk) by {}
                    assert forall|kk: Seq<char>| #[trigger] self.has(kk) implies
                        self.vals@[self.index_of(kk)] == old_t@.insert(k@, new_v)[kk] by {
                        let j = self.index_of(kk);
                        self.lemma_index(j);
                        old_t.lemma_index(j);
                    }
                    assert(self@ =~= old_t@.insert(k@, new_v));
                }
                Some(v)
            }
            None => {
                let ghost kv = k@;
                keys.push(k);
                vals.push(v);
                proof {
                    let n = old_t.keys@.len();
                    assert forall|i: int, j: int|
                        0 <= i < keys@.len() && 0 <= j < keys@.len() && i != j
                            implies #[trigger] keys@[i]@ != #[trigger] keys@[j]@ by {
                        if i < n && j < n {
                            assert(old_t.keys@[i] == keys@[i]);
                            assert(old_t.keys@[j] == keys@[j]);
                        } else if i < n {
                            old_t.lemma_index(i);
                            assert(old_t.keys@[i] == keys@[i]);
                        } else {
                            old_t.lemma_index(j);
                            assert(old_t.keys@[j] == keys@[j]);
                        }
                    }
                }
                *self = Table { keys, vals };
                proof {
                    use_type_invariant(&*self);
                    self.lemma_no_dup();
                    let n = old_t.keys@.len();
                    assert(self.key_seq() =~= old_t.key_seq().push(kv));
                    assert forall|kk: Seq<char>| #[trigger] self.has(kk) implies
                        self.vals@[self.index_of(kk)] == old_t@.insert(kv, new_v)[kk] by {
                        let j = self.index_of(kk);
                        self.lemma_index(j);
                        if j < n {
                            old_t.lemma_index(j);
                            assert(self.keys@[j] == old_t.keys@[j]);
                        }
                    }
                    assert forall|kk: Seq<char>| self.has(kk) <==> old_t@.insert(kv, new_v).contains_key(kk) by {
                        if self.has(kk) {
                            let j = self.index_of(kk);
                            self.lemma_index(j);
                            if j < n {
                                old_t.lemma_index(j);
                                assert(self.keys@[j] == old_t.keys@[j]);
                            }
                        }
                        if old_t.has(kk) {
                            let j = old_t.index_of(kk);
                            old_t.lemma_index(j);
                            assert(self.keys@[j] == old_t.keys@[j]);
                        }
                        if kk == kv {
                            assert(self.keys@[n as int]@ == kv);
                        }
                    }
                    assert(self@ =~= old_t@.insert(kv, new_v));
                }
                None
            }
        }
    }

    /// Removes the entry of `k` and returns its value; the other entries keep their order.
    pub fn remove(&mut self, k: &str) -> (r: Option<V>)
        ensures
            final(self)@ == old(self)@.remove(k@),
            match r {
                Some(v) => old(self)@.contains_key(k@) && v == old(self)@[k@],
                None => !old(self)@.contains_key(k@),
            },
    {
        proof { use_type_invariant(&*self); }
        let ghost old_t = *self;
        match self.find(k) {
            Some(i) => {
                proof { old_t.lemma_index(i as int); }
                let mut tmp = Table::<V>::new();
                std::mem::swap(self, &mut tmp);
                let Table { mut keys, mut vals } = tmp;
                assert(keys@ == old_t.keys@ && vals@ == old_t.vals@);
                let _ = keys.remove(i);
                let v = vals.remove(i);
                proof {
                    assert forall|a: int, b: int|
                        0 <= a < keys@.len() && 0 <= b < keys@.len() && a != b
                            implies #[trigger] keys@[a]@ != #[trigger] keys@[b]@ by {
                        let oa = if a < i { a } else { a + 1 };
                        let ob = if b < i { b } else { b + 1 };
                        assert(keys@[a] == old_t.keys@[oa]);
                        assert(keys@[b] == old_t.keys@[ob]);
                    }
                }
                *self = Table { keys, vals };
                proof {
                    assert forall|kk: Seq<char>| self.has(kk) <==> old_t@.remove(k@).contains_key(kk) by {
                        if self.has(kk) {
                            let j = self.index_of(kk);
                            let oj = if j < i { j } else { j + 1 };
                            assert(self.keys@[j] == old_t.keys@[oj]);
                            old_t.lemma_index(oj);
                        }
                        if old_t@.remove(k@).contains_key(kk) {
                            let j = old_t.index_of(kk);
                            old_t.lemma_index(j);
                            let nj = if j < i { j } else { j - 1 };
                            assert(self.keys@[nj] == old_t.keys@[j]);
                        }
                    }
                    assert forall|kk: Seq<char>| #[trigger] self.has(kk) implies
                        self.vals@[self.index_of(kk)] == old_t@.remove(k@)[kk] by {
                        let j = self.index_of(kk);
                        self.lemma_index(j);
                        let oj = if j < i { j } else { j + 1 };
                        assert(self.keys@[j] == old_t.keys@[oj]);
                        old_t.lemma_index(oj);
                    }
                    assert(self@ =~= old_t@.remove(k@));
                }
                Some(v)
            }
            None => {
                proof { assert(self@ =~= old_t@.remove(k@)); }
                None
            }
        }
    }
}

} // verus!
