//! Binding between externally meaningful task ids and internal slab slots.
//!
//! Ids are drawn from a pseudo-random generator. An id is never handed out
//! twice over the lifetime of the map, and two consecutively handed-out ids
//! are never sequentially adjacent, so an id is no predictable counter.

use crate::random::rng_from_entropy;
use crate::random::rng_from_seed;
use crate::random::rng_next_u64;
use rand::rngs::SmallRng;
use std::collections::HashMap;
use vstd::prelude::*;

verus! {

broadcast use vstd::std_specs::hash::group_hash_axioms;

/// The successor of an id in the wrapping 64-bit id space.
pub open spec fn succ_id(p: u64) -> u64 {
    if p == 0xffff_ffff_ffff_ffffu64 {
        0u64
    } else {
        (p + 1) as u64
    }
}

/// Maps live task ids to their slab slots, and remembers every id ever
/// handed out so that none is issued twice.
pub struct IdMap {
    ids: HashMap<u64, usize>,
    issued: HashMap<u64, ()>,
    last: Option<u64>,
    rng: SmallRng,
}

impl IdMap {
    /// The live bindings: each present id and its slot.
    pub closed spec fn live(&self) -> Map<u64, usize> {
        self.ids@
    }

    /// Every id ever handed out, whether still live or since removed.
    pub closed spec fn issued_ids(&self) -> Set<u64> {
        self.issued@.dom()
    }

    /// The most recently handed-out id.
    pub closed spec fn last_id(&self) -> Option<u64> {
        self.last
    }

    /// Live ids are a subset of the ids ever handed out.
    pub closed spec fn wf(&self) -> bool {
        self.ids@.dom().subset_of(self.issued@.dom())
    }

    /// An empty map whose generator is seeded from operating-system
    /// entropy.
    pub fn new() -> (r: Self)
        ensures
            r.wf(),
            r.live() == Map::<u64, usize>::empty(),
            r.issued_ids() == Set::<u64>::empty(),
            r.last_id() is None,
    {
        let r = IdMap {
            ids: HashMap::new(),
            issued: HashMap::new(),
            last: None,
            rng: rng_from_entropy(),
        };
        proof {
            assert(r.issued@.dom() =~= Set::<u64>::empty());
        }
        r
    }

    /// An empty map with a deterministically seeded generator, for
    /// reproducible runs.
    pub fn with_seed(seed: u64) -> (r: Self)
        ensures
            r.wf(),
            r.live() == Map::<u64, usize>::empty(),
            r.issued_ids() == Set::<u64>::empty(),
            r.last_id() is None,
    {
        let r = IdMap {
            ids: HashMap::new(),
            issued: HashMap::new(),
            last: None,
            rng: rng_from_seed(seed),
        };
        proof {
            assert(r.issued@.dom() =~= Set::<u64>::empty());
        }
        r
    }

    /// Whether `id` may be handed out now: never issued before, and not
    /// the successor of the most recently issued id.
    fn is_usable_id(&self, id: u64) -> (r: bool)
        ensures
            r == (!self.issued_ids().contains(id) && (match self.last_id() {
                Some(p) => id != succ_id(p),
                None => true,
            })),
    {
        let fresh = !self.issued.contains_key(&id);
        let nonadjacent = match self.last {
            Some(p) => {
                let succ = if p == u64::MAX {
                    0u64
                } else {
                    p + 1
                };
                id != succ
            },
            None => true,
        };
        fresh && nonadjacent
    }

    /// Draws ids until one is usable, binds it to `slot`, and returns it;
    /// gives up after a fixed number of draws. A returned id was never
    /// issued before and does not follow the previously issued id
    /// sequentially.
    pub fn insert_with_new_id(&mut self, slot: usize) -> (r: Option<u64>)
        requires
            old(self).wf(),
        ensures
            final(self).wf(),
            match r {
                Some(id) => {
                    &&& !old(self).issued_ids().contains(id)
                    &&& old(self).last_id() matches Some(p) ==> id != succ_id(p)
                    &&& !old(self).live().contains_key(id)
                    &&& final(self).live() == old(self).live().insert(id, slot)
                    &&& final(self).issued_ids() == old(self).issued_ids().insert(id)
                    &&& final(self).last_id() == Some(id)
                },
                None => {
                    &&& final(self).live() == old(self).live()
                    &&& final(self).issued_ids() == old(self).issued_ids()
                    &&& final(self).last_id() == old(self).last_id()
                },
            },
    {
        let mut attempts: usize = 0;
        let mut id: u64 = rng_next_u64(&mut self.rng);
        let mut found: bool = self.is_usable_id(id);
        while !found && attempts < 64
            invariant
                attempts <= 64,
                self.ids@ == old(self).ids@,
                self.issued@ == old(self).issued@,
                self.last == old(self).last,
                found ==> (!self.issued_ids().contains(id) && (match self.last_id() {
                    Some(p) => id != succ_id(p),
                    None => true,
                })),
            decreases 64 - attempts,
        {
            id = rng_next_u64(&mut self.rng);
            found = self.is_usable_id(id);
            attempts = attempts + 1;
        }
        if found {
            self.issued.insert(id, ());
            self.ids.insert(id, slot);
            self.last = Some(id);
            proof {
                assert(self.issued@.dom() =~= old(self).issued@.dom().insert(id));
            }
            Some(id)
        } else {
            None
        }
    }

    /// Looks the slot of `id` up.
    pub fn get(&self, id: u64) -> (r: Option<usize>)
        ensures
            r == (if self.live().contains_key(id) {
                Some(self.live()[id])
            } else {
                None::<usize>
            }),
    {
        match self.ids.get(&id) {
            Some(s) => Some(*s),
            None => None,
        }
    }

    /// Unbinds `id`, returning the slot it was bound to; the record that
    /// `id` was once issued stays.
    pub fn remove(&mut self, id: u64) -> (r: Option<usize>)
        requires
            old(self).wf(),
        ensures
            final(self).wf(),
            final(self).live() == old(self).live().remove(id),
            r == (if old(self).live().contains_key(id) {
                Some(old(self).live()[id])
            } else {
                None::<usize>
            }),
            final(self).issued_ids() == old(self).issued_ids(),
            final(self).last_id() == old(self).last_id(),
    {
        let r = self.ids.remove(&id);
        proof {
            if !old(self).ids@.contains_key(id) {
                assert(self.ids@ =~= old(self).ids@.remove(id));
            }
        }
        r
    }

    /// The number of live bindings.
    pub fn len(&self) -> (r: usize)
        ensures
            r == self.live().len(),
    {
        self.ids.len()
    }
}

/// Law: ids handed out by two insertions are distinct, whatever happens
/// between them. The first insertion hands out `id1`, growing the set of
/// issued ids from `issued0` to `issued1`; later operations only grow that
/// set further, to `issued2`; the second insertion hands out an id `id2`
/// that was not in `issued2`.
pub proof fn lemma_issued_ids_distinct(
    issued0: Set<u64>,
    id1: u64,
    issued1: Set<u64>,
    issued2: Set<u64>,
    id2: u64,
)
    requires
        !issued0.contains(id1),
        issued1 == issued0.insert(id1),
        issued1.subset_of(issued2),
        !issued2.contains(id2),
    ensures
        id1 != id2,
{
    assert(issued1.contains(id1));
    assert(issued2.contains(id1));
}

} // verus!
