//! A map with integer keys whose keys can be listed in their order.

use std::collections::HashMap;
use vstd::prelude::*;

verus! {

/// A map whose keys are ids.
#[derive(Debug)]
pub struct IdMap<V> {
    entries: HashMap<u64, V>,
}

/// The ids ascend strictly.
pub open spec fn ids_ascend(ids: Seq<u64>) -> bool {
    forall|i: int, j: int|
        #![trigger ids[i], ids[j]]
        0 <= i < j < ids.len() ==> ids[i] < ids[j]
}

/// Puts the id where it belongs among ids that ascend and do not hold it.
fn insert_id(ids: &mut Vec<u64>, id: u64)
    requires
        ids_ascend(old(ids)@),
        !old(ids)@.contains(id),
    ensures
        ids_ascend(final(ids)@),
        final(ids)@.to_set() == old(ids)@.to_set().insert(id),
{
    let mut p: usize = 0;
    while p < ids.len() && ids[p] < id
        invariant
            p <= ids@.len(),
            ids@ == old(ids)@,
            forall|j: int| 0 <= j < p ==> #[trigger] ids@[j] < id,
        decreases ids@.len() - p,
    {
        p += 1;
    }
    proof {
        assert forall|j: int| p <= j < ids@.len() implies id < #[trigger] ids@[j] by {
            assert(ids@[p as int] != id);
        }
    }
    let ghost before = ids@;
    ids.insert(p, id);
    proof {
        assert(ids@ =~= before.insert(p as int, id));
        assert forall|k: u64| #[trigger] ids@.contains(k) <==> before.contains(k) || k == id by {
            if before.contains(k) {
                let j = choose|j: int| 0 <= j < before.len() && before[j] == k;
                let a = if j < p { j } else { j + 1 };
                assert(ids@[a] == k);
            }
            if k == id {
                assert(ids@[p as int] == k);
            }
        }
        assert(ids@.to_set() =~= before.to_set().insert(id));
    }
}

impl<V> View for IdMap<V> {
    type V = Map<u64, V>;

    closed spec fn view(&self) -> Map<u64, V> {
        self.entries@
    }
}

impl<V> IdMap<V> {
    pub fn new() -> (r: Self)
        ensures
            r@ == Map::<u64, V>::empty(),
    {
        IdMap { entries: HashMap::new() }
    }

    pub fn get(&self, id: u64) -> (r: Option<&V>)
        ensures
            match r {
                Some(v) => self@.contains_key(id) && *v == self@[id],
                None => !self@.contains_key(id),
            },
    {
        broadcast use vstd::std_specs::hash::group_hash_axioms;

        self.entries.get(&id)
    }

    pub fn contains_key(&self, id: u64) -> (r: bool)
        ensures
            r == self@.contains_key(id),
    {
        broadcast use vstd::std_specs::hash::group_hash_axioms;

        self.entries.contains_key(&id)
    }

    /// Puts the value under the id, in place of what was there.
    pub fn insert(&mut self, id: u64, value: V)
        ensures
            final(self)@ == old(self)@.insert(id, value),
    {
        broadcast use vstd::std_specs::hash::group_hash_axioms;

        let _ = self.entries.insert(id, value);
    }

    pub fn remove(&mut self, id: u64)
        ensures
            final(self)@ == old(self)@.remove(id),
    {
        let _ = self.take(id);
    }

    /// Takes the value out from under the id.
    pub fn take(&mut self, id: u64) -> (r: Option<V>)
        ensures
            final(self)@ == old(self)@.remove(id),
            match r {
                Some(v) => old(self)@.contains_key(id) && v == old(self)@[id],
                None => !old(self)@.contains_key(id),
            },
    {
        broadcast use vstd::std_specs::hash::group_hash_axioms;

        self.entries.remove(&id)
    }

    /// The ids, in ascending order.
    pub fn ids(&self) -> (r: Vec<u64>)
        ensures
            ids_ascend(r@),
            forall|k: u64| #[trigger] r@.contains(k) <==> self@.contains_key(k),
    {
        broadcast use vstd::std_specs::hash::group_hash_axioms;

        let mut r: Vec<u64> = Vec::new();
        for id in it: self.entries.keys()
            invariant
                ids_ascend(r@),
                r@.to_set() == it.seq().unref().take(it.index() as int).to_set(),
                it.seq().unref().to_set() == self@.dom(),
                it.seq().no_duplicates(),
                it.index() == it.seq().len() ==> r@.to_set() == self@.dom(),
        {
            let ghost keys = it.seq().unref();
            let ghost n = it.index() as int;
            proof {
                if r@.contains(*id) {
                    assert(r@.to_set().contains(*id));
                    assert(keys.take(n).contains(*id));
                    let j = choose|j: int| 0 <= j < n && keys.take(n)[j] == *id;
                    assert(it.seq()[j] == it.seq()[n]);
                }
            }
            insert_id(&mut r, *id);
            proof {
                assert(keys.take(n + 1) =~= keys.take(n).push(*id));
                assert(keys.take(n + 1).to_set() =~= keys.take(n).to_set().insert(*id)) by {
                    broadcast use vstd::seq_lib::group_seq_properties;

                }
                assert(n + 1 == keys.len() ==> keys.take(n + 1) =~= keys);
            }
        }
        proof {
            assert forall|k: u64| #[trigger] r@.contains(k) <==> self@.contains_key(k) by {
                assert(r@.contains(k) == r@.to_set().contains(k));
            }
        }
        r
    }

    /// Keeps the entries whose ids are in the list.
    pub fn retain(&mut self, kept: &Vec<u64>)
        ensures
            final(self)@ == old(self)@.restrict(kept@.to_set()),
    {
        let ghost before = self@;
        let ids: Vec<u64> = self.ids();
        let mut i: usize = 0;
        while i < ids.len()
            invariant
                i <= ids@.len(),
                forall|k: u64| #[trigger] ids@.contains(k) <==> before.contains_key(k),
                forall|k: u64| #[trigger]
                    self@.contains_key(k) ==> before.contains_key(k) && self@[k] == before[k],
                forall|j: int|
                    0 <= j < i ==> (self@.contains_key(#[trigger] ids@[j]) ==> kept@.contains(
                        ids@[j],
                    )),
                forall|k: u64|
                    before.contains_key(k) && kept@.contains(k) ==> #[trigger] self@.contains_key(
                        k,
                    ),
            decreases ids@.len() - i,
        {
            let ghost prior = self@;
            if !has_id(kept, ids[i]) {
                self.remove(ids[i]);
            }
            proof {
                assert forall|k: u64| #[trigger] self@.contains_key(k) implies before.contains_key(
                    k,
                ) && self@[k] == before[k] by {
                    assert(prior.contains_key(k));
                }
                assert forall|k: u64|
                    before.contains_key(k) && kept@.contains(k) implies #[trigger] self@.contains_key(
                    k,
                ) by {
                    assert(prior.contains_key(k));
                }
            }
            i += 1;
        }
        proof {
            let after = before.restrict(kept@.to_set());
            assert forall|k: u64| #[trigger] self@.contains_key(k) implies kept@.contains(k) by {
                assert(ids@.contains(k));
                let j = choose|j: int| 0 <= j < ids@.len() && ids@[j] == k;
                assert(self@.contains_key(ids@[j]));
            }
            assert(self@ =~= after);
        }
    }
}

/// Whether the id is in the list.
pub fn has_id(ids: &Vec<u64>, id: u64) -> (r: bool)
    ensures
        r == ids@.contains(id),
{
    let mut i: usize = 0;
    while i < ids.len()
        invariant
            i <= ids@.len(),
            forall|j: int| 0 <= j < i ==> #[trigger] ids@[j] != id,
        decreases ids@.len() - i,
    {
        if ids[i] == id {
            return true;
        }
        i += 1;
    }
    false
}

} // verus!
