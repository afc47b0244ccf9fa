//! A small map with string keys that keeps its entries in the order in which the
//! keys came in.

use vstd::prelude::*;
use crate::text;

verus! {

/// A map with string keys.
#[derive(Debug)]
pub struct TextMap<V> {
    entries: Vec<(String, V)>,
}

/// `i` is where `key` stands.
spec fn stands_at<V>(entries: Seq<(String, V)>, key: Seq<char>, i: int) -> bool {
    0 <= i < entries.len() && entries[i].0@ == key
}

spec fn keys_differ<V>(entries: Seq<(String, V)>) -> bool {
    forall|i: int, j: int|
        #![trigger entries[i], entries[j]]
        0 <= i < j < entries.len() ==> entries[i].0@ != entries[j].0@
}

spec fn entry_map<V>(entries: Seq<(String, V)>) -> Map<Seq<char>, V> {
    Map::new(
        |k: Seq<char>| exists|i: int| stands_at(entries, k, i),
        |k: Seq<char>| entries[choose|i: int| stands_at(entries, k, i)].1,
    )
}

proof fn lemma_entry_map_at<V>(entries: Seq<(String, V)>, i: int)
    requires
        keys_differ(entries),
        0 <= i < entries.len(),
    ensures
        entry_map(entries).contains_key(entries[i].0@),
        entry_map(entries)[entries[i].0@] == entries[i].1,
{
    let k = entries[i].0@;
    assert(stands_at(entries, k, i));
    let j = choose|j: int| stands_at(entries, k, j);
    if j < i {
        assert(entries[j].0@ != entries[i].0@);
    } else if i < j {
        assert(entries[i].0@ != entries[j].0@);
    }
}

impl<V> View for TextMap<V> {
    type V = Map<Seq<char>, V>;

    closed spec fn view(&self) -> Map<Seq<char>, V> {
        entry_map(self.entries@)
    }
}

impl<V> TextMap<V> {
    #[verifier::type_invariant]
    spec fn well_formed(self) -> bool {
        keys_differ(self.entries@)
    }

    /// The keys in the order in which they came in.
    pub closed spec fn keys_in_order(self) -> Seq<Seq<char>> {
        Seq::new(self.entries@.len(), |i: int| self.entries@[i].0@)
    }

    pub fn new() -> (r: Self)
        ensures
            r@ == Map::<Seq<char>, V>::empty(),
            r.keys_in_order() == Seq::<Seq<char>>::empty(),
    {
        let r = TextMap { entries: Vec::new() };
        proof {
            assert(r@ =~= Map::<Seq<char>, V>::empty());
            assert(r.keys_in_order() =~= Seq::<Seq<char>>::empty());
        }
        r
    }

    fn position(&self, key: &str) -> (r: Option<usize>)
        ensures
            match r {
                Some(i) => i < self.entries@.len() && self.entries@[i as int].0@ == key@,
                None => !self@.contains_key(key@),
            },
    {
        let mut i: usize = 0;
        while i < self.entries.len()
            invariant
                i <= self.entries@.len(),
                forall|j: int| 0 <= j < i ==> (#[trigger] self.entries@[j]).0@ != key@,
            decreases self.entries@.len() - i,
        {
            if text::str_eq(self.entries[i].0.as_str(), key) {
                return Some(i);
            }
            i += 1;
        }
        None
    }

    pub fn get(&self, key: &str) -> (r: Option<&V>)
        ensures
            match r {
                Some(v) => self@.contains_key(key@) && *v == self@[key@],
                None => !self@.contains_key(key@),
            },
    {
        proof {
            use_type_invariant(&*self);
        }
        match self.position(key) {
            Some(i) => {
                proof {
                    lemma_entry_map_at(self.entries@, i as int);
                }
                Some(&self.entries[i].1)
            },
            None => None,
        }
    }

    pub fn contains_key(&self, key: &str) -> (r: bool)
        ensures
            r == self@.contains_key(key@),
    {
        self.get(key).is_some()
    }

    /// Puts the value under the key, in place of what was there.
    pub fn insert(&mut self, key: String, value: V)
        ensures
            final(self)@ == old(self)@.insert(key@, value),
            final(self).keys_in_order() == if old(self)@.contains_key(key@) {
                old(self).keys_in_order()
            } else {
                old(self).keys_in_order().push(key@)
            },
    {
        proof {
            use_type_invariant(&*self);
        }
        let ghost before = self.entries@;
        let place: Option<usize> = self.position(key.as_str());
        let mut entries: Vec<(String, V)> = Vec::new();
        std::mem::swap(&mut entries, &mut self.entries);
        match place {
            Some(i) => {
                proof {
                    lemma_entry_map_at(before, i as int);
                }
                entries.set(i, (key, value));
                proof {
                    let after = before.update(i as int, (key, value));
                    assert(entries@ =~= after);
                    assert(keys_differ(after)) by {
                        assert forall|a: int, b: int|
                            #![trigger after[a], after[b]]
                            0 <= a < b < after.len() implies after[a].0@ != after[b].0@ by {
                            assert(before[a].0@ != before[b].0@);
                        }
                    }
                    assert(entry_map(after) =~= entry_map(before).insert(key@, value)) by {
                        lemma_entry_map_at(after, i as int);
                        assert forall|k: Seq<char>|
                            entry_map(after).contains_key(k) <==> entry_map(before).insert(
                                key@,
                                value,
                            ).contains_key(k) by {
                            if entry_map(after).contains_key(k) {
                                let j = choose|j: int| stands_at(after, k, j);
                                assert(stands_at(before, k, j));
                            }
                            if entry_map(before).contains_key(k) {
                                let j = choose|j: int| stands_at(before, k, j);
                                assert(stands_at(after, k, j));
                            }
                        }
                        assert forall|k: Seq<char>|
                            entry_map(after).contains_key(k) implies #[trigger] entry_map(after)[k]
                            == entry_map(before).insert(key@, value)[k] by {
                            if k != key@ {
                                let j = choose|j: int| stands_at(after, k, j);
                                lemma_entry_map_at(after, j);
                                lemma_entry_map_at(before, j);
                            }
                        }
                    }
                }
            },
            None => {
                entries.push((key, value));
                proof {
                    let after = before.push((key, value));
                    assert(entries@ =~= after);
                    assert forall|a: int| 0 <= a < before.len() implies (#[trigger] before[a]).0@
                        != key@ by {
                        if before[a].0@ == key@ {
                            assert(stands_at(before, key@, a));
                        }
                    }
                    assert(keys_differ(after)) by {
                        assert forall|a: int, b: int|
                            #![trigger after[a], after[b]]
                            0 <= a < b < after.len() implies after[a].0@ != after[b].0@ by {
                            assert(after[a] == before[a]);
                            if b < before.len() {
                                assert(after[b] == before[b]);
                            }
                        }
                    }
                    assert(entry_map(after) =~= entry_map(before).insert(key@, value)) by {
                        lemma_entry_map_at(after, before.len() as int);
                        assert forall|k: Seq<char>|
                            entry_map(after).contains_key(k) <==> entry_map(before).insert(
                                key@,
                                value,
                            ).contains_key(k) by {
                            if entry_map(after).contains_key(k) {
                                let j = choose|j: int| stands_at(after, k, j);
                                if j < before.len() {
                                    assert(stands_at(before, k, j));
                                }
                            }
                            if entry_map(before).contains_key(k) {
                                let j = choose|j: int| stands_at(before, k, j);
                                assert(stands_at(after, k, j));
                            }
                        }
                        assert forall|k: Seq<char>|
                            entry_map(after).contains_key(k) implies #[trigger] entry_map(after)[k]
                            == entry_map(before).insert(key@, value)[k] by {
                            if k != key@ {
                                let j = choose|j: int| stands_at(after, k, j);
                                lemma_entry_map_at(after, j);
                                lemma_entry_map_at(before, j);
                            }
                        }
                    }
                }
            },
        }
        self.entries = entries;
        proof {
            assert(self.keys_in_order() =~= if old(self)@.contains_key(key@) {
                old(self).keys_in_order()
            } else {
                old(self).keys_in_order().push(key@)
            });
        }
    }

    /// Takes the entry out.
    pub fn remove(&mut self, key: &str) -> (r: Option<V>)
        ensures
            final(self)@ == old(self)@.remove(key@),
            match r {
                Some(v) => old(self)@.contains_key(key@) && v == old(self)@[key@],
                None => !old(self)@.contains_key(key@),
            },
    {
        proof {
            use_type_invariant(&*self);
        }
        let ghost before = self.entries@;
        let place: Option<usize> = self.position(key);
        match place {
            Some(i) => {
                proof {
                    lemma_entry_map_at(before, i as int);
                }
                let mut entries: Vec<(String, V)> = Vec::new();
                std::mem::swap(&mut entries, &mut self.entries);
                let taken: (String, V) = entries.remove(i);
                proof {
                    let after = before.remove(i as int);
                    assert(entries@ == after);
                    assert(keys_differ(after)) by {
                        assert forall|a: int, b: int|
                            #![trigger after[a], after[b]]
                            0 <= a < b < after.len() implies after[a].0@ != after[b].0@ by {
                            let x = if a < i {
                                a
                            } else {
                                a + 1
                            };
                            let y = if b < i {
                                b
                            } else {
                                b + 1
                            };
                            assert(before[x].0@ != before[y].0@);
                        }
                    }
                    assert(entry_map(after) =~= entry_map(before).remove(key@)) by {
                        assert forall|k: Seq<char>|
                            entry_map(after).contains_key(k) <==> entry_map(before).remove(
                                key@,
                            ).contains_key(k) by {
                            if entry_map(after).contains_key(k) {
                                let j = choose|j: int| stands_at(after, k, j);
                                let x = if j < i {
                                    j
                                } else {
                                    j + 1
                                };
                                assert(stands_at(before, k, x));
                                if x < i {
                                    assert(before[x].0@ != before[i as int].0@);
                                } else {
                                    assert(before[i as int].0@ != before[x].0@);
                                }
                            }
                            if entry_map(before).remove(key@).contains_key(k) {
                                let j = choose|j: int| stands_at(before, k, j);
                                let x = if j < i {
                                    j
                                } else {
                                    j - 1
                                };
                                assert(stands_at(after, k, x));
                            }
                        }
                        assert forall|k: Seq<char>|
                            entry_map(after).contains_key(k) implies #[trigger] entry_map(after)[k]
                            == entry_map(before).remove(key@)[k] by {
                            let j = choose|j: int| stands_at(after, k, j);
                            let x = if j < i {
                                j
                            } else {
                                j + 1
                            };
                            lemma_entry_map_at(after, j);
                            lemma_entry_map_at(before, x);
                        }
                    }
                }
                self.entries = entries;
                Some(taken.1)
            },
            None => {
                proof {
                    assert(self@.remove(key@) =~= self@);
                }
                None
            },
        }
    }

    /// Each key stands at one place in the order, and nothing else does.
    pub proof fn keys_are_the_domain(&self)
        requires
            self.has_distinct_keys(),
        ensures
            self.keys_in_order().no_duplicates(),
            forall|k: Seq<char>| #[trigger]
                self.keys_in_order().contains(k) <==> self@.contains_key(k),
    {
        let keys = self.keys_in_order();
        assert forall|i: int, j: int| 0 <= i < keys.len() && 0 <= j < keys.len() && i != j implies
            keys[i] != keys[j] by {
            if i < j {
                assert(self.entries@[i].0@ != self.entries@[j].0@);
            } else {
                assert(self.entries@[j].0@ != self.entries@[i].0@);
            }
        }
        assert forall|k: Seq<char>| #[trigger] keys.contains(k) <==> self@.contains_key(k) by {
            if keys.contains(k) {
                let i = choose|i: int| 0 <= i < keys.len() && keys[i] == k;
                lemma_entry_map_at(self.entries@, i);
            }
            if self@.contains_key(k) {
                let i = choose|i: int| stands_at(self.entries@, k, i);
                assert(keys[i] == k);
            }
        }
    }

    /// No two entries have the same key.
    pub closed spec fn has_distinct_keys(&self) -> bool {
        keys_differ(self.entries@)
    }

    /// The keys, in the order in which they came in.
    pub fn keys(&self) -> (r: Vec<String>)
        ensures
            r@.len() == self.keys_in_order().len(),
            forall|i: int| 0 <= i < r@.len() ==> (#[trigger] r@[i])@ == self.keys_in_order()[i],
            self.keys_in_order().no_duplicates(),
            forall|k: Seq<char>| #[trigger]
                self.keys_in_order().contains(k) <==> self@.contains_key(k),
    {
        proof {
            use_type_invariant(&*self);
            self.keys_are_the_domain();
        }
        let mut r: Vec<String> = Vec::new();
        let mut i: usize = 0;
        while i < self.entries.len()
            invariant
                i <= self.entries@.len(),
                r@.len() == i,
                forall|j: int| 0 <= j < i ==> (#[trigger] r@[j])@ == self.entries@[j].0@,
            decreases self.entries@.len() - i,
        {
            r.push(self.entries[i].0.clone());
            i += 1;
        }
        r
    }
}

} // verus!
