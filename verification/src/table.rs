use crate::address::Address;
use vstd::prelude::*;

verus! {

/// One slot of a table.
struct Entry<V> {
    key: Address,
    value: V,
}

/// A finite map from addresses to values, kept as a list in which no
/// address occurs twice.
pub struct Table<V> {
    entries: Vec<Entry<V>>,
}

/// Whether some slot of `s` holds `key`.
spec fn has_key<V>(s: Seq<Entry<V>>, key: Address) -> bool {
    exists|i: int| 0 <= i < s.len() && (#[trigger] s[i]).key == key
}

/// A slot of `s` that holds `key`, where there is one.
spec fn slot_of<V>(s: Seq<Entry<V>>, key: Address) -> int {
    choose|i: int| 0 <= i < s.len() && (#[trigger] s[i]).key == key
}

/// Whether no address stands in two slots of `s`.
spec fn distinct_keys<V>(s: Seq<Entry<V>>) -> bool {
    forall|i: int, j: int|
        0 <= i < j < s.len() ==> (#[trigger] s[i]).key != (#[trigger] s[j]).key
}

/// The map that the slots of `s` stand for.
spec fn map_of<V>(s: Seq<Entry<V>>) -> Map<Address, V> {
    Map::new(|k: Address| has_key(s, k), |k: Address| s[slot_of(s, k)].value)
}

/// In a list without repeated addresses, the slot that holds a key
/// determines the value of the map at that key.
proof fn lemma_map_of_slot<V>(s: Seq<Entry<V>>, i: int)
    requires
        distinct_keys(s),
        0 <= i < s.len(),
    ensures
        map_of(s).contains_key(s[i].key),
        map_of(s)[s[i].key] == s[i].value,
{
    let k = s[i].key;
    assert(has_key(s, k));
    let j = slot_of(s, k);
    assert(0 <= j < s.len() && s[j].key == k);
    if j < i {
        assert(s[j].key != s[i].key);
    } else if i < j {
        assert(s[i].key != s[j].key);
    }
}

impl<V> View for Table<V> {
    type V = Map<Address, V>;

    closed spec fn view(&self) -> Map<Address, V> {
        map_of(self.entries@)
    }
}

impl<V> Table<V> {
    #[verifier::type_invariant]
    spec fn well_formed(self) -> bool {
        distinct_keys(self.entries@)
    }
}

impl<V: Copy> Table<V> {
    /// The empty table.
    pub fn new() -> (t: Table<V>)
        ensures
            t@ == Map::<Address, V>::empty(),
    {
        let t = Table { entries: Vec::new() };
        assert(t@ =~= Map::<Address, V>::empty());
        t
    }

    /// The slot that holds `key`, if any.
    fn position(&self, key: &Address) -> (r: Option<usize>)
        ensures
            match r {
                Some(i) => i < self.entries@.len() && self.entries@[i as int].key == *key,
                None => !has_key(self.entries@, *key),
            },
    {
        let mut i: usize = 0;
        while i < self.entries.len()
            invariant
                i <= self.entries@.len(),
                forall|j: int| 0 <= j < i ==> (#[trigger] self.entries@[j]).key != *key,
            decreases self.entries@.len() - i,
        {
            if self.entries[i].key.same(key) {
                return Some(i);
            }
            i = i + 1;
        }
        None
    }

    /// Whether the table holds a value at `key`.
    pub fn contains(&self, key: &Address) -> (r: bool)
        ensures
            r == self@.contains_key(*key),
    {
        self.position(key).is_some()
    }

    /// The value at `key`, if the table holds one.
    pub fn get(&self, key: &Address) -> (r: Option<V>)
        ensures
            r == (if self@.contains_key(*key) {
                Some(self@[*key])
            } else {
                None
            }),
    {
        match self.position(key) {
            Some(i) => {
                proof {
                    use_type_invariant(self);
                    lemma_map_of_slot(self.entries@, i as int);
                }
                Some(self.entries[i].value)
            },
            None => None,
        }
    }

    /// Puts `value` at `key`, in place of what stood there.
    pub fn insert(&mut self, key: Address, value: V)
        ensures
            final(self)@ == old(self)@.insert(key, value),
    {
        proof {
            use_type_invariant(&*self);
        }
        let ghost before = self.entries@;
        let found = self.position(&key);
        let mut entries: Vec<Entry<V>> = Vec::new();
        core::mem::swap(&mut self.entries, &mut entries);
        match found {
            Some(i) => {
                entries.set(i, Entry { key, value });
                proof {
                    let after = entries@;
                    assert(distinct_keys(after));
                    assert forall|k: Address| has_key(after, k) == has_key(before, k) by {
                        if has_key(before, k) {
                            let j = slot_of(before, k);
                            assert(after[j].key == k);
                        }
                        if has_key(after, k) {
                            let j = slot_of(after, k);
                            assert(before[j].key == k);
                        }
                    }
                    assert forall|k: Address| has_key(after, k) implies map_of(after)[k] == map_of(
                        before,
                    ).insert(key, value)[k] by {
                        let j = slot_of(after, k);
                        lemma_map_of_slot(after, j);
                        if k != key {
                            lemma_map_of_slot(before, j);
                        }
                    }
                    lemma_map_of_slot(before, i as int);
                    assert(map_of(after) =~= map_of(before).insert(key, value));
                }
            },
            None => {
                entries.push(Entry { key, value });
                proof {
                    let after = entries@;
                    let n = before.len() as int;
                    assert(distinct_keys(after));
                    assert(after[n].key == key);
                    assert forall|k: Address| has_key(after, k) == (has_key(before, k) || k
                        == key) by {
                        if has_key(before, k) {
                            let j = slot_of(before, k);
                            assert(after[j].key == k);
                        }
                        if has_key(after, k) {
                            let j = slot_of(after, k);
                            if j < n {
                                assert(before[j].key == k);
                            }
                        }
                    }
                    assert forall|k: Address| has_key(after, k) implies map_of(after)[k] == map_of(
                        before,
                    ).insert(key, value)[k] by {
                        let j = slot_of(after, k);
                        lemma_map_of_slot(after, j);
                        if k != key {
                            assert(j < n);
                            lemma_map_of_slot(before, j);
                        }
                    }
                    assert(map_of(after) =~= map_of(before).insert(key, value));
                }
            },
        }
        core::mem::swap(&mut self.entries, &mut entries);
    }

    /// Takes away what stands at `key`, if anything.
    pub fn remove(&mut self, key: &Address)
        ensures
            final(self)@ == old(self)@.remove(*key),
    {
        proof {
            use_type_invariant(&*self);
        }
        let ghost before = self.entries@;
        let found = self.position(key);
        let mut entries: Vec<Entry<V>> = Vec::new();
        core::mem::swap(&mut self.entries, &mut entries);
        match found {
            Some(i) => {
                entries.remove(i);
                proof {
                    let after = entries@;
                    let p = i as int;
                    assert(after =~= before.remove(p));
                    assert forall|a: int, b: int| 0 <= a < b < after.len() implies (
                    #[trigger] after[a]).key != (#[trigger] after[b]).key by {
                        let a0 = if a < p { a } else { a + 1 };
                        let b0 = if b < p { b } else { b + 1 };
                        assert(after[a] == before[a0]);
                        assert(after[b] == before[b0]);
                    }
                    assert forall|k: Address| has_key(after, k) == (has_key(before, k) && k
                        != *key) by {
                        if has_key(before, k) && k != *key {
                            let j = slot_of(before, k);
                            let j1 = if j < p { j } else { j - 1 };
                            assert(after[j1] == before[j]);
                        }
                        if has_key(after, k) {
                            let j = slot_of(after, k);
                            let j0 = if j < p { j } else { j + 1 };
                            assert(after[j] == before[j0]);
                            assert(before[j0].key == k);
                            if k == *key {
                                if j0 < p {
                                    assert(before[j0].key != before[p].key);
                                } else {
                                    assert(before[p].key != before[j0].key);
                                }
                            }
                        }
                    }
                    assert forall|k: Address| has_key(after, k) implies map_of(after)[k] == map_of(
                        before,
                    )[k] by {
                        let j = slot_of(after, k);
                        let j0 = if j < p { j } else { j + 1 };
                        assert(after[j] == before[j0]);
                        lemma_map_of_slot(after, j);
                        lemma_map_of_slot(before, j0);
                    }
                    assert(map_of(after) =~= map_of(before).remove(*key));
                }
            },
            None => {
                assert(map_of(before) =~= map_of(before).remove(*key));
            },
        }
        core::mem::swap(&mut self.entries, &mut entries);
    }

    /// A copy of the table.
    pub fn snapshot(&self) -> (t: Table<V>)
        ensures
            t@ == self@,
    {
        proof {
            use_type_invariant(self);
        }
        let mut entries: Vec<Entry<V>> = Vec::new();
        let mut i: usize = 0;
        while i < self.entries.len()
            invariant
                i <= self.entries@.len(),
                entries@ == self.entries@.subrange(0, i as int),
            decreases self.entries@.len() - i,
        {
            entries.push(Entry { key: self.entries[i].key, value: self.entries[i].value });
            assert(entries@ =~= self.entries@.subrange(0, i + 1));
            i = i + 1;
        }
        assert(entries@ =~= self.entries@);
        Table { entries }
    }
}

} // verus!
