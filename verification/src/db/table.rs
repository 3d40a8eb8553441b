use vstd::prelude::*;

verus! {

/// The map that storing each `(key, value)` pair of `pairs` in turn gives, starting from an
/// empty one (a later pair for the same key wins).
pub open spec fn map_of_pairs<V>(pairs: Seq<(Seq<char>, V)>) -> Map<Seq<char>, V>
    decreases pairs.len(),
{
    if pairs.len() == 0 {
        Map::empty()
    } else {
        map_of_pairs(pairs.drop_last()).insert(pairs.last().0, pairs.last().1)
    }
}

/// Pairs with distinct keys give the map from each of their keys to its value.
pub proof fn lemma_map_of_distinct_pairs<V>(pairs: Seq<(Seq<char>, V)>)
    requires
        forall|i: int, j: int| 0 <= i < pairs.len() && 0 <= j < pairs.len() && i != j
            ==> #[trigger] pairs[i].0 != #[trigger] pairs[j].0,
    ensures
        forall|k: Seq<char>| #[trigger] map_of_pairs(pairs).contains_key(k)
            <==> exists|i: int| 0 <= i < pairs.len() && pairs[i].0 == k,
        forall|i: int| 0 <= i < pairs.len() ==> map_of_pairs(pairs)[#[trigger] pairs[i].0] == pairs[i].1,
    decreases pairs.len(),
{
    if pairs.len() > 0 {
        let init = pairs.drop_last();
        let n = pairs.len() - 1;
        assert forall|i: int, j: int| 0 <= i < init.len() && 0 <= j < init.len() && i != j
            implies #[trigger] init[i].0 != #[trigger] init[j].0 by {
            assert(init[i] == pairs[i] && init[j] == pairs[j]);
        }
        lemma_map_of_distinct_pairs(init);
        let m = map_of_pairs(pairs);
        assert(m == map_of_pairs(init).insert(pairs.last().0, pairs.last().1));
        assert forall|k: Seq<char>| #[trigger] m.contains_key(k)
            implies exists|i: int| 0 <= i < pairs.len() && pairs[i].0 == k by {
            if k != pairs.last().0 {
                assert(map_of_pairs(init).contains_key(k));
                let i = choose|i: int| 0 <= i < init.len() && init[i].0 == k;
                assert(pairs[i] == init[i]);
            } else {
                assert(pairs[n].0 == k);
            }
        }
        assert forall|k: Seq<char>| (exists|i: int| 0 <= i < pairs.len() && pairs[i].0 == k)
            implies #[trigger] m.contains_key(k) by {
            let i = choose|i: int| 0 <= i < pairs.len() && pairs[i].0 == k;
            if i < n {
                assert(init[i] == pairs[i]);
            }
        }
        assert forall|i: int| 0 <= i < pairs.len() implies m[#[trigger] pairs[i].0] == pairs[i].1 by {
            if i < n {
                assert(init[i] == pairs[i]);
                assert(pairs[i].0 != pairs[n].0);
            }
        }
    }
}

/// One stored value and the key it is stored under.
pub struct Entry<V> {
    pub key: String,
    pub value: V,
}

/// A map from string keys to values, kept as a vector of entries with distinct keys.
pub struct KeyTable<V> {
    entries: Vec<Entry<V>>,
    contents: Ghost<Map<Seq<char>, V>>,
}

impl<V> View for KeyTable<V> {
    type V = Map<Seq<char>, V>;

    closed spec fn view(&self) -> Map<Seq<char>, V> {
        self.contents@
    }
}

impl<V> KeyTable<V> {
    /// The keys in the order the entries are kept.
    pub closed spec fn keys(&self) -> Seq<Seq<char>> {
        self.entries@.map_values(|e: Entry<V>| e.key@)
    }

    /// The entries have distinct keys, and they are exactly the contents.
    pub closed spec fn wf(&self) -> bool {
        &&& forall|i: int, j: int|
            0 <= i < self.entries@.len() && 0 <= j < self.entries@.len() && i != j
                ==> #[trigger] self.entries@[i].key@ != #[trigger] self.entries@[j].key@
        &&& forall|i: int| 0 <= i < self.entries@.len()
                ==> self.contents@.contains_key(#[trigger] self.entries@[i].key@)
                && self.contents@[self.entries@[i].key@] == self.entries@[i].value
        &&& forall|k: Seq<char>| #[trigger] self.contents@.contains_key(k)
                ==> exists|i: int| 0 <= i < self.entries@.len() && self.entries@[i].key@ == k
    }

    /// The keys in entry order name each stored key exactly once.
    pub proof fn lemma_keys(&self)
        requires
            self.wf(),
        ensures
            self.keys().no_duplicates(),
            forall|k: Seq<char>| self@.contains_key(k) <==> self.keys().contains(k),
    {
        assert forall|i: int, j: int| 0 <= i < self.keys().len() && 0 <= j < self.keys().len()
            && i != j implies self.keys()[i] != self.keys()[j] by {
            assert(self.entries@[i].key@ != self.entries@[j].key@);
        }
        assert forall|k: Seq<char>| self@.contains_key(k) <==> self.keys().contains(k) by {
            if self@.contains_key(k) {
                let i = choose|i: int| 0 <= i < self.entries@.len() && self.entries@[i].key@ == k;
                assert(self.keys()[i] == k);
            }
            if self.keys().contains(k) {
                let i = choose|i: int| 0 <= i < self.keys().len() && self.keys()[i] == k;
                assert(self.entries@[i].key@ == k);
            }
        }
    }

    /// An empty table.
    pub fn new() -> (t: Self)
        ensures
            t.wf(),
            t@ == Map::<Seq<char>, V>::empty(),
    {
        KeyTable { entries: Vec::new(), contents: Ghost(Map::empty()) }
    }

    /// The number of stored keys.
    pub fn len(&self) -> (n: usize)
        requires
            self.wf(),
        ensures
            n == self.keys().len(),
    {
        self.entries.len()
    }

    /// The `i`-th entry, in the order of `keys`.
    pub fn entry_at(&self, i: usize) -> (r: (&String, &V))
        requires
            self.wf(),
            i < self.keys().len(),
        ensures
            r.0@ == self.keys()[i as int],
            self@.contains_key(r.0@),
            self@[r.0@] == *r.1,
    {
        let e = &self.entries[i];
        (&e.key, &e.value)
    }

    fn index_of(&self, key: &String) -> (r: Option<usize>)
        requires
            self.wf(),
        ensures
            r matches Some(i) ==> i < self.entries@.len() && self.entries@[i as int].key@ == key@,
            r is None ==> !self@.contains_key(key@),
    {
        let n = self.entries.len();
        let mut i: usize = 0;
        while i < n
            invariant
                n == self.entries@.len(),
                i <= n,
                forall|j: int| 0 <= j < i ==> self.entries@[j].key@ != key@,
            decreases n - i,
        {
            if self.entries[i].key == *key {
                return Some(i);
            }
            i = i + 1;
        }
        None
    }

    /// The value stored under `key`.
    pub fn get(&self, key: &String) -> (r: Option<&V>)
        requires
            self.wf(),
        ensures
            r is Some <==> self@.contains_key(key@),
            r matches Some(v) ==> *v == self@[key@],
    {
        match self.index_of(key) {
            Some(i) => Some(&self.entries[i].value),
            None => None,
        }
    }

    /// Stores `value` under `key`, replacing what was stored there.
    pub fn insert(&mut self, key: String, value: V)
        requires
            old(self).wf(),
        ensures
            final(self).wf(),
            final(self)@ == old(self)@.insert(key@, value),
    {
        let ghost k = key@;
        let ghost new_contents = self.contents@.insert(k, value);
        match self.index_of(&key) {
            Some(i) => {
                self.entries.set(i, Entry { key, value });
                self.contents = Ghost(new_contents);
                assert forall|j: int| 0 <= j < self.entries@.len()
                    implies self.contents@.contains_key(#[trigger] self.entries@[j].key@)
                    && self.contents@[self.entries@[j].key@] == self.entries@[j].value by {
                }
                assert forall|q: Seq<char>| #[trigger] self.contents@.contains_key(q)
                    implies exists|j: int| 0 <= j < self.entries@.len() && self.entries@[j].key@ == q by {
                    if q == k {
                        assert(self.entries@[i as int].key@ == q);
                    } else {
                        assert(old(self).contents@.contains_key(q));
                        let j = choose|j: int| 0 <= j < old(self).entries@.len() && old(self).entries@[j].key@ == q;
                        assert(self.entries@[j].key@ == q);
                    }
                }
            },
            None => {
                self.entries.push(Entry { key, value });
                self.contents = Ghost(new_contents);
                let ghost last = self.entries@.len() - 1;
                assert forall|a: int, b: int|
                    0 <= a < self.entries@.len() && 0 <= b < self.entries@.len() && a != b
                    implies #[trigger] self.entries@[a].key@ != #[trigger] self.entries@[b].key@ by {
                    if a == last {
                        assert(old(self).contents@.contains_key(self.entries@[b].key@));
                    } else if b == last {
                        assert(old(self).contents@.contains_key(self.entries@[a].key@));
                    } else {
                        assert(self.entries@[a] == old(self).entries@[a]);
                        assert(self.entries@[b] == old(self).entries@[b]);
                    }
                }
                assert forall|j: int| 0 <= j < self.entries@.len()
                    implies self.contents@.contains_key(#[trigger] self.entries@[j].key@)
                    && self.contents@[self.entries@[j].key@] == self.entries@[j].value by {
                    if j < last {
                        assert(self.entries@[j] == old(self).entries@[j]);
                        assert(old(self).contents@.contains_key(old(self).entries@[j].key@));
                    }
                }
                assert forall|q: Seq<char>| #[trigger] self.contents@.contains_key(q)
                    implies exists|j: int| 0 <= j < self.entries@.len() && self.entries@[j].key@ == q by {
                    if q == k {
                        assert(self.entries@[last].key@ == q);
                    } else {
                        assert(old(self).contents@.contains_key(q));
                        let j = choose|j: int| 0 <= j < old(self).entries@.len() && old(self).entries@[j].key@ == q;
                        assert(self.entries@[j] == old(self).entries@[j]);
                    }
                }
            },
        }
    }

    /// Removes what is stored under `key` and returns it.
    pub fn take(&mut self, key: &String) -> (r: Option<V>)
        requires
            old(self).wf(),
        ensures
            final(self).wf(),
            final(self)@ == old(self)@.remove(key@),
            r is Some <==> old(self)@.contains_key(key@),
            r matches Some(v) ==> v == old(self)@[key@],
    {
        match self.index_of(key) {
            Some(i) => {
                let ghost old_entries = self.entries@;
                let ghost k = key@;
                let e = self.entries.remove(i);
                self.contents = Ghost(self.contents@.remove(k));
                assert(self.entries@ == old_entries.remove(i as int));
                assert forall|a: int, b: int|
                    0 <= a < self.entries@.len() && 0 <= b < self.entries@.len() && a != b
                    implies #[trigger] self.entries@[a].key@ != #[trigger] self.entries@[b].key@ by {
                    let oa = if a < i { a } else { a + 1 };
                    let ob = if b < i { b } else { b + 1 };
                    assert(self.entries@[a] == old_entries[oa]);
                    assert(self.entries@[b] == old_entries[ob]);
                    assert(old_entries[oa].key@ != old_entries[ob].key@);
                }
                assert forall|j: int| 0 <= j < self.entries@.len()
                    implies self.contents@.contains_key(#[trigger] self.entries@[j].key@)
                    && self.contents@[self.entries@[j].key@] == self.entries@[j].value by {
                    let oj = if j < i { j } else { j + 1 };
                    assert(self.entries@[j] == old_entries[oj]);
                    assert(old_entries[oj].key@ != old_entries[i as int].key@);
                    assert(old(self).contents@.contains_key(old_entries[oj].key@));
                }
                assert forall|q: Seq<char>| #[trigger] self.contents@.contains_key(q)
                    implies exists|j: int| 0 <= j < self.entries@.len() && self.entries@[j].key@ == q by {
                    assert(old(self).contents@.contains_key(q));
                    let oj = choose|j: int| 0 <= j < old_entries.len() && old_entries[j].key@ == q;
                    assert(oj != i);
                    let j = if oj < i { oj } else { oj - 1 };
                    assert(self.entries@[j] == old_entries[oj]);
                }
                Some(e.value)
            },
            None => {
                assert(self.contents@.remove(key@) =~= self.contents@);
                None
            },
        }
    }
}

} // verus!
