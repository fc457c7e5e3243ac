//! Stable-index slab: insertion returns an index, and that index keeps
//! denoting the same slot until the slot is removed, even as the slab
//! grows. Freed slots are recycled through a free list.

use vstd::pervasive::unreached;
use vstd::prelude::*;

verus! {

/// An append-mostly container of optional slots. The view is the sequence
/// of slots; an occupied slot holds `Some`, a vacant one `None`.
pub struct PinSlab<T> {
    slots: Vec<Option<T>>,
    free: Vec<usize>,
}

impl<T> View for PinSlab<T> {
    type V = Seq<Option<T>>;

    closed spec fn view(&self) -> Seq<Option<T>> {
        self.slots@
    }
}

impl<T> PinSlab<T> {
    /// The free list names exactly the vacant slots, each once.
    pub closed spec fn wf(&self) -> bool {
        &&& forall|k: int|
            0 <= k < self.free@.len() ==> #[trigger] self.free@[k] < self.slots@.len()
                && self.slots@[self.free@[k] as int] is None
        &&& forall|k1: int, k2: int|
            0 <= k1 < k2 < self.free@.len() ==> self.free@[k1] != self.free@[k2]
        &&& forall|i: usize|
            i < self.slots@.len() && self.slots@[i as int] is None ==> self.free@.contains(i)
    }

    /// Whether `i` names an occupied slot.
    pub open spec fn occupied(&self, i: int) -> bool {
        0 <= i < self@.len() && self@[i] is Some
    }

    /// An empty slab.
    pub fn new() -> (r: Self)
        ensures
            r.wf(),
            r@ == Seq::<Option<T>>::empty(),
    {
        PinSlab { slots: Vec::new(), free: Vec::new() }
    }

    /// Stores `value` in a vacant slot and returns its index; the index of
    /// every other slot keeps denoting the slot it did.
    pub fn insert(&mut self, value: T) -> (r: Option<usize>)
        requires
            old(self).wf(),
        ensures
            final(self).wf(),
            match r {
                Some(i) => {
                    &&& !old(self).occupied(i as int)
                    &&& i <= old(self)@.len()
                    &&& final(self)@ == (if i == old(self)@.len() {
                        old(self)@.push(Some(value))
                    } else {
                        old(self)@.update(i as int, Some(value))
                    })
                    &&& final(self).occupied(i as int)
                },
                None => false,
            },
    {
        match self.free.pop() {
            Some(i) => {
                proof {
                    assert(old(self).free@[old(self).free@.len() - 1] == i);
                }
                let slot = &mut self.slots[i];
                *slot = Some(value);
                proof {
                    assert(self.slots@[i as int] is Some);
                    assert forall|j: usize|
                        j < self.slots@.len() && self.slots@[j as int] is None implies self.free@
                        .contains(j) by {
                        assert(j != i);
                        assert(old(self).slots@[j as int] is None);
                        assert(old(self).free@.contains(j));
                        let k = choose|k: int|
                            0 <= k < old(self).free@.len() && old(self).free@[k] == j;
                        assert(old(self).free@[old(self).free@.len() - 1] == i);
                        assert(k < old(self).free@.len() - 1);
                        assert(self.free@[k] == j);
                    }
                }
                Some(i)
            },
            None => {
                let i = self.slots.len();
                proof {
                    assert forall|j: usize| j < old(self).slots@.len() implies old(
                        self,
                    ).slots@[j as int] is Some by {
                        if old(self).slots@[j as int] is None {
                            assert(old(self).free@.contains(j));
                        }
                    }
                }
                self.slots.push(Some(value));
                Some(i)
            },
        }
    }

    /// Reads the slot at `index`, if occupied.
    pub fn get(&self, index: usize) -> (r: Option<&T>)
        ensures
            match r {
                Some(v) => self.occupied(index as int) && self@[index as int] == Some(*v),
                None => !self.occupied(index as int),
            },
    {
        if index < self.slots.len() {
            match &self.slots[index] {
                Some(v) => Some(v),
                None => None,
            }
        } else {
            None
        }
    }

    /// Whether `index` names an occupied slot.
    pub fn contains(&self, index: usize) -> (r: bool)
        ensures
            r == self.occupied(index as int),
    {
        index < self.slots.len() && self.slots[index].is_some()
    }

    /// Borrows the slot at `index` mutably; no other slot changes.
    pub fn get_pin_mut(&mut self, index: usize) -> (r: &mut T)
        requires
            old(self).wf(),
            old(self).occupied(index as int),
        ensures
            final(self).wf(),
            Some(*r) == old(self)@[index as int],
            final(self)@ == old(self)@.update(index as int, Some(*final(r))),
    {
        let slot = &mut self.slots[index];
        match slot {
            Some(v) => v,
            None => unreached(),
        }
    }

    /// Takes the value at `index` out, leaving the slot vacant for reuse.
    pub fn remove_unpin(&mut self, index: usize) -> (r: Option<T>)
        requires
            old(self).wf(),
        ensures
            final(self).wf(),
            match r {
                Some(v) => {
                    &&& old(self).occupied(index as int)
                    &&& old(self)@[index as int] == Some(v)
                    &&& final(self)@ == old(self)@.update(index as int, None)
                },
                None => !old(self).occupied(index as int) && final(self)@ == old(self)@,
            },
    {
        if index < self.slots.len() {
            let slot = &mut self.slots[index];
            let taken = slot.take();
            match taken {
                Some(v) => {
                    self.free.push(index);
                    proof {
                        let oldf = old(self).free@;
                        let newf = self.free@;
                        assert(newf == oldf.push(index));
                        assert forall|k: int| 0 <= k < oldf.len() implies #[trigger] oldf[k]
                            != index by {
                            assert(old(self).slots@[oldf[k] as int] is None);
                        }
                        assert forall|j: usize|
                            j < self.slots@.len() && self.slots@[j as int] is None implies self
                            .free@.contains(j) by {
                            if j == index {
                                assert(newf[newf.len() - 1] == index);
                            } else {
                                assert(old(self).slots@[j as int] is None);
                                assert(oldf.contains(j));
                                let k = choose|k: int| 0 <= k < oldf.len() && oldf[k] == j;
                                assert(newf[k] == j);
                            }
                        }
                    }
                    Some(v)
                },
                None => {
                    proof {
                        assert(self.slots@ =~= old(self).slots@);
                    }
                    None
                },
            }
        } else {
            None
        }
    }

    /// Drops the value at `index` in place; reports whether the slot was
    /// occupied.
    pub fn remove(&mut self, index: usize) -> (r: bool)
        requires
            old(self).wf(),
        ensures
            final(self).wf(),
            r == old(self).occupied(index as int),
            final(self)@ == (if old(self).occupied(index as int) {
                old(self)@.update(index as int, None)
            } else {
                old(self)@
            }),
    {
        self.remove_unpin(index).is_some()
    }
}

} // verus!
