//! Task group: owns the pinned slab of tasks, the waker pages and the
//! id map, and drives tasks by polling the slots whose notified bit is
//! set.

use crate::bits::is_bit_set;
use crate::bits::lemma_clear_bit;
use crate::bits::lemma_set_bit;
use crate::bits::set_bit_positions;
use crate::bits::WAKER_BIT_LENGTH;
use crate::bits::WAKER_BIT_LENGTH_SHIFT;
use crate::id_map::succ_id;
use crate::id_map::IdMap;
use crate::page::WakerPage;
use crate::pin_slab::PinSlab;
use crate::task::PollContext;
use crate::task::Task;
use crate::task::TaskId;
use crate::task::TaskPoll;
use vstd::pervasive::unreached;
use vstd::prelude::*;

verus! {

/// Whether slot `s` of the page sequence carries the notified bit.
pub open spec fn pages_notified(pages: Seq<WakerPage>, s: int) -> bool {
    is_bit_set(pages[s / 64].notified, (s % 64) as u64)
}

/// Whether slot `s` of the page sequence carries the completed bit.
pub open spec fn pages_completed(pages: Seq<WakerPage>, s: int) -> bool {
    is_bit_set(pages[s / 64].completed, (s % 64) as u64)
}

/// Whether slot `s` of the page sequence carries the dropped bit.
pub open spec fn pages_dropped(pages: Seq<WakerPage>, s: int) -> bool {
    is_bit_set(pages[s / 64].dropped, (s % 64) as u64)
}

/// What one poll of a slot reported.
#[derive(Clone, Copy, PartialEq, Eq, Structural, Debug)]
pub struct SlotPoll {
    /// The task returned ready; its completed bit was set.
    pub completed: bool,
    /// The task raised a wake through its context during the poll.
    pub woken: bool,
}

/// A slab entry: a task together with the id the group bound to it.
pub struct TaskEntry<T> {
    id: u64,
    task: T,
}

/// A resource-management group of tasks. Holds the pinned slab, the waker
/// pages (grown on demand) and the two-way id/slot binding.
pub struct TaskGroup<T> {
    ids: IdMap,
    tasks: PinSlab<TaskEntry<T>>,
    waker_page_refs: Vec<WakerPage>,
}

impl<T> TaskGroup<T> {
    /// The live bindings from task id to slab slot.
    pub closed spec fn live_ids(&self) -> Map<u64, usize> {
        self.ids.live()
    }

    /// Every id this group ever handed out.
    pub closed spec fn issued_ids(&self) -> Set<u64> {
        self.ids.issued_ids()
    }

    /// The most recently handed-out id.
    pub closed spec fn last_id(&self) -> Option<u64> {
        self.ids.last_id()
    }

    /// The waker pages.
    pub closed spec fn pages(&self) -> Seq<WakerPage> {
        self.waker_page_refs@
    }

    /// The number of slots the waker pages cover.
    pub open spec fn num_slots(&self) -> int {
        self.pages().len() * WAKER_BIT_LENGTH
    }

    /// The slab slots.
    pub closed spec fn slots(&self) -> Seq<Option<TaskEntry<T>>> {
        self.tasks@
    }

    /// Whether slot `s` holds a task.
    pub open spec fn occupied(&self, s: int) -> bool {
        0 <= s < self.slots().len() && self.slots()[s] is Some
    }

    /// The id bound to the task in slot `s`.
    pub closed spec fn id_at(&self, s: int) -> u64 {
        self.tasks@[s].unwrap().id
    }

    /// The task in slot `s`.
    pub closed spec fn task_at(&self, s: int) -> T {
        self.tasks@[s].unwrap().task
    }

    /// Whether slot `s` wants to be polled.
    pub open spec fn slot_notified(&self, s: int) -> bool {
        pages_notified(self.pages(), s)
    }

    /// Whether slot `s`'s task has returned ready.
    pub open spec fn slot_completed(&self, s: int) -> bool {
        pages_completed(self.pages(), s)
    }

    /// Whether slot `s` was cancelled.
    pub open spec fn slot_dropped(&self, s: int) -> bool {
        pages_dropped(self.pages(), s)
    }

    /// Well-formedness: the id map and the slab agree slot by slot, every
    /// bound slot has its waker bits addressable, and the page vector is
    /// small enough that every covered slot index fits a `usize`.
    pub closed spec fn wf(&self) -> bool {
        &&& self.ids.wf()
        &&& self.tasks.wf()
        &&& self.pages().len() * 64 <= usize::MAX as int + 1
        &&& forall|id: u64| #[trigger] self.ids.live().contains_key(id) ==> {
            let s = self.ids.live()[id];
            &&& self.occupied(s as int)
            &&& self.id_at(s as int) == id
            &&& (s as int) < self.num_slots()
        }
        &&& forall|s: usize|
            s < self.slots().len() && #[trigger] self.slots()[s as int] is Some ==> {
                &&& self.ids.live().contains_key(self.id_at(s as int))
                &&& self.ids.live()[self.id_at(s as int)] == s
            }
    }

    /// An empty group whose id generator is seeded from operating-system
    /// entropy.
    pub fn new() -> (r: Self)
        ensures
            r.wf(),
            r.live_ids() == Map::<u64, usize>::empty(),
            r.issued_ids() == Set::<u64>::empty(),
            r.last_id() is None,
            r.pages() == Seq::<WakerPage>::empty(),
            r.slots() == Seq::<Option<TaskEntry<T>>>::empty(),
    {
        TaskGroup { ids: IdMap::new(), tasks: PinSlab::new(), waker_page_refs: Vec::new() }
    }

    /// An empty group with a deterministically seeded id generator, for
    /// reproducible runs.
    pub fn with_seed(seed: u64) -> (r: Self)
        ensures
            r.wf(),
            r.live_ids() == Map::<u64, usize>::empty(),
            r.issued_ids() == Set::<u64>::empty(),
            r.last_id() is None,
            r.pages() == Seq::<WakerPage>::empty(),
            r.slots() == Seq::<Option<TaskEntry<T>>>::empty(),
    {
        TaskGroup {
            ids: IdMap::with_seed(seed),
            tasks: PinSlab::new(),
            waker_page_refs: Vec::new(),
        }
    }

    /// Splits a slab index into its page offset.
    fn get_waker_page_offset(pin_slab_index: usize) -> (r: usize)
        ensures
            r == pin_slab_index as int % 64,
            r < 64,
    {
        proof {
            assert(pin_slab_index & 63 == pin_slab_index % 64 && pin_slab_index % 64 < 64)
                by (bit_vector);
        }
        pin_slab_index & (WAKER_BIT_LENGTH - 1)
    }

    /// Packs a page index and a page offset back into a slab index.
    fn get_pin_slab_index(waker_page_index: usize, waker_page_offset: usize) -> (r: usize)
        requires
            waker_page_offset < 64,
            waker_page_index * 64 + waker_page_offset <= usize::MAX,
        ensures
            r == waker_page_index * 64 + waker_page_offset,
            r as int / 64 == waker_page_index,
            r as int % 64 == waker_page_offset,
    {
        waker_page_index * WAKER_BIT_LENGTH + waker_page_offset
    }

    /// Computes the page and page offset of an occupied slot.
    fn get_waker_page_index_and_offset(&self, pin_slab_index: usize) -> (r: Option<
        (usize, usize),
    >)
        ensures
            match r {
                Some(pair) => {
                    &&& self.occupied(pin_slab_index as int)
                    &&& pair.0 == pin_slab_index as int / 64
                    &&& pair.1 == pin_slab_index as int % 64
                    &&& pair.1 < 64
                },
                None => !self.occupied(pin_slab_index as int),
            },
    {
        if !self.tasks.contains(pin_slab_index) {
            return None;
        }
        proof {
            assert(pin_slab_index >> 6usize == pin_slab_index / 64) by (bit_vector);
        }
        let waker_page_index: usize = pin_slab_index >> WAKER_BIT_LENGTH_SHIFT;
        let waker_page_offset: usize = Self::get_waker_page_offset(pin_slab_index);
        Some((waker_page_index, waker_page_offset))
    }

    /// Grows the page vector until the page of `pin_slab_index` exists.
    /// Existing pages are untouched; new pages start with every bit clear.
    fn add_new_pages_up_to_pin_slab_index(&mut self, pin_slab_index: usize)
        requires
            old(self).pages().len() * 64 <= usize::MAX as int + 1,
        ensures
            final(self).pages().len() == (if old(self).pages().len() > pin_slab_index as int
                / 64 {
                old(self).pages().len() as int
            } else {
                pin_slab_index as int / 64 + 1
            }),
            forall|p: int|
                0 <= p < old(self).pages().len() ==> final(self).pages()[p] == old(self).pages()[p],
            forall|p: int|
                old(self).pages().len() <= p < final(self).pages().len() ==> final(self).pages()[p] == (WakerPage { notified: 0u64, completed: 0u64, dropped: 0u64 }),
            final(self).pages().len() * 64 <= usize::MAX as int + 1,
            (pin_slab_index as int) < final(self).num_slots(),
            final(self).ids == old(self).ids,
            final(self).tasks == old(self).tasks,
    {
        proof {
            assert(pin_slab_index >> 6usize == pin_slab_index / 64) by (bit_vector);
            crate::bits::lemma_usize_max_mod_64();
        }
        while (pin_slab_index >> WAKER_BIT_LENGTH_SHIFT) >= self.waker_page_refs.len()
            invariant
                pin_slab_index >> 6usize == pin_slab_index as int / 64,
                old(self).pages().len() <= self.pages().len(),
                self.pages().len() <= pin_slab_index as int / 64 + 1 || self.pages().len() == old(self).pages().len(),
                forall|p: int|
                    0 <= p < old(self).pages().len() ==> self.pages()[p] == old(self).pages()[p],
                forall|p: int|
                    old(self).pages().len() <= p < self.pages().len() ==> self.pages()[p] == (
                    WakerPage { notified: 0u64, completed: 0u64, dropped: 0u64 }),
                self.ids == old(self).ids,
                self.tasks == old(self).tasks,
            decreases pin_slab_index as int / 64 + 1 - self.pages().len(),
        {
            self.waker_page_refs.push(WakerPage::new());
        }
        proof {
            crate::bits::lemma_usize_max_mod_64();
            assert(pin_slab_index as int / 64 + 1 <= usize::MAX as int / 64 + 1);
            assert((usize::MAX as int / 64 + 1) * 64 == usize::MAX as int + 1);
        }
    }

    /// The number of waker pages.
    pub fn get_num_waker_pages(&self) -> (r: usize)
        ensures
            r == self.pages().len(),
    {
        self.waker_page_refs.len()
    }

    /// Inserts a task: allocates a slab slot, hands out a fresh id never
    /// issued before (and not adjacent to the previously issued one),
    /// binds them, and sets the slot's notified bit so that the task gets
    /// its first poll. Returns `None` only if no usable id was drawn, and
    /// then leaves the group as it was.
    pub fn insert(&mut self, task: T) -> (r: Option<TaskId>) where T: Task
        requires
            old(self).wf(),
        ensures
            final(self).wf(),
            match r {
                Some(tid) => {
                    let id = tid.0;
                    let s = final(self).live_ids()[id] as int;
                    &&& !old(self).issued_ids().contains(id)
                    &&& (old(self).last_id() matches Some(p) ==> id != succ_id(p))
                    &&& final(self).issued_ids() == old(self).issued_ids().insert(id)
                    &&& final(self).last_id() == Some(id)
                    &&& !old(self).live_ids().contains_key(id)
                    &&& final(self).live_ids().contains_key(id)
                    &&& final(self).live_ids() == old(self).live_ids().insert(
                        id,
                        final(self).live_ids()[id],
                    )
                    &&& !old(self).occupied(s)
                    &&& final(self).occupied(s)
                    &&& final(self).id_at(s) == id
                    &&& 0 <= s < final(self).num_slots()
                    &&& final(self).slot_notified(s)
                    &&& !final(self).slot_completed(s)
                    &&& !final(self).slot_dropped(s)
                    &&& old(self).num_slots() <= final(self).num_slots()
                    &&& forall|j: int|
                        0 <= j < old(self).num_slots() && j != s ==> final(self).slot_notified(j)
                            == old(self).slot_notified(j) && final(self).slot_completed(j) == old(self).slot_completed(j) && final(self).slot_dropped(j) == old(self).slot_dropped(j)
                    &&& forall|j: int|
                        old(self).num_slots() <= j < final(self).num_slots() && j != s ==> !final(self).slot_notified(j) && !final(self).slot_completed(j) && !final(self).slot_dropped(j)
                    &&& forall|j: int|
                        0 <= j < old(self).slots().len() && j != s ==> final(self).slots()[j]
                            == old(self).slots()[j]
                },
                None => {
                    &&& final(self).live_ids() == old(self).live_ids()
                    &&& final(self).issued_ids() == old(self).issued_ids()
                    &&& final(self).last_id() == old(self).last_id()
                    &&& final(self).pages() == old(self).pages()
                    &&& forall|j: int|
                        final(self).occupied(j) == old(self).occupied(j) && (final(self).occupied(
                            j,
                        ) ==> final(self).slots()[j] == old(self).slots()[j])
                },
            },
    {
        let entry = TaskEntry { id: 0, task };
        let pin_slab_index: usize = match self.tasks.insert(entry) {
            Some(i) => i,
            None => unreached(),
        };
        match self.ids.insert_with_new_id(pin_slab_index) {
            None => {
                self.tasks.remove_unpin(pin_slab_index);
                None
            },
            Some(task_id) => {
                self.add_new_pages_up_to_pin_slab_index(pin_slab_index);
                let waker_page_index: usize = pin_slab_index >> WAKER_BIT_LENGTH_SHIFT;
                let waker_page_offset: usize = Self::get_waker_page_offset(pin_slab_index);
                proof {
                    assert(pin_slab_index >> 6usize == pin_slab_index / 64) by (bit_vector);
                }
                let page = &mut self.waker_page_refs[waker_page_index];
                page.initialize(waker_page_offset);
                let entry_ref = self.tasks.get_pin_mut(pin_slab_index);
                entry_ref.id = task_id;
                entry_ref.task.set_id(TaskId(task_id));
                proof {
                    lemma_bits_after_initialize(
                        old(self).pages(),
                        self.pages(),
                        pin_slab_index as int,
                        old(self).num_slots(),
                    );
                }
                Some(TaskId(task_id))
            },
        }
    }

    /// Removes the task bound to `task_id`, clears its waker bits, and
    /// returns it; `None` if the id is unknown, and then nothing changes.
    pub fn remove(&mut self, task_id: TaskId) -> (r: Option<T>)
        requires
            old(self).wf(),
        ensures
            final(self).wf(),
            match r {
                Some(t) => {
                    let s = old(self).live_ids()[task_id.0] as int;
                    &&& old(self).live_ids().contains_key(task_id.0)
                    &&& t == old(self).task_at(s)
                    &&& final(self).live_ids() == old(self).live_ids().remove(task_id.0)
                    &&& final(self).issued_ids() == old(self).issued_ids()
                    &&& final(self).last_id() == old(self).last_id()
                    &&& !final(self).occupied(s)
                    &&& forall|j: int|
                        0 <= j < old(self).slots().len() && j != s ==> final(self).slots()[j]
                            == old(self).slots()[j]
                    &&& final(self).pages().len() == old(self).pages().len()
                    &&& !final(self).slot_notified(s) && !final(self).slot_completed(s) && !final(self).slot_dropped(s)
                    &&& forall|j: int|
                        0 <= j < old(self).num_slots() && j != s ==> final(self).slot_notified(j)
                            == old(self).slot_notified(j) && final(self).slot_completed(j) == old(self).slot_completed(j) && final(self).slot_dropped(j) == old(self).slot_dropped(j)
                },
                None => {
                    &&& !old(self).live_ids().contains_key(task_id.0)
                    &&& final(self).live_ids() == old(self).live_ids()
                    &&& final(self).issued_ids() == old(self).issued_ids()
                    &&& final(self).last_id() == old(self).last_id()
                    &&& final(self).slots() == old(self).slots()
                    &&& final(self).pages() == old(self).pages()
                },
            },
    {
        let pin_slab_index: usize = match self.ids.remove(task_id.0) {
            Some(s) => s,
            None => {
                return None;
            },
        };
        let waker_page_index: usize = pin_slab_index >> WAKER_BIT_LENGTH_SHIFT;
        let waker_page_offset: usize = Self::get_waker_page_offset(pin_slab_index);
        proof {
            assert(pin_slab_index >> 6usize == pin_slab_index / 64) by (bit_vector);
        }
        let page = &mut self.waker_page_refs[waker_page_index];
        page.clear(waker_page_offset);
        let r = match self.tasks.remove_unpin(pin_slab_index) {
            Some(entry) => Some(entry.task),
            None => unreached(),
        };
        proof {
            let s = pin_slab_index as int;
            lemma_bits_after_clear(old(self).pages(), self.pages(), s, old(self).num_slots());
        }
        r
    }

    /// Whether the task bound to `task_id` has returned ready.
    pub fn has_completed(&self, task_id: TaskId) -> (r: Option<bool>)
        requires
            self.wf(),
        ensures
            r == (if self.live_ids().contains_key(task_id.0) {
                Some(self.slot_completed(self.live_ids()[task_id.0] as int))
            } else {
                None::<bool>
            }),
    {
        let pin_slab_index: usize = match self.ids.get(task_id.0) {
            Some(s) => s,
            None => {
                return None;
            },
        };
        let (waker_page_index, waker_page_offset) = match self.get_waker_page_index_and_offset(
            pin_slab_index,
        ) {
            Some(pair) => pair,
            None => unreached(),
        };
        let page = &self.waker_page_refs[waker_page_index];
        Some(page.has_completed(waker_page_offset))
    }

    /// The id bound to the task in the occupied slot `pin_slab_index`.
    pub fn get_id(&self, pin_slab_index: usize) -> (r: TaskId)
        requires
            self.wf(),
            self.occupied(pin_slab_index as int),
        ensures
            r.0 == self.id_at(pin_slab_index as int),
            self.live_ids().contains_key(r.0),
            self.live_ids()[r.0] == pin_slab_index,
    {
        match self.tasks.get(pin_slab_index) {
            Some(entry) => TaskId(entry.id),
            None => unreached(),
        }
    }

    /// Whether `task_id` is bound to a task in this group.
    pub fn is_valid_task(&self, task_id: &TaskId) -> (r: bool)
        requires
            self.wf(),
        ensures
            r == self.live_ids().contains_key(task_id.0),
    {
        match self.ids.get(task_id.0) {
            Some(internal_id) => self.tasks.contains(internal_id),
            None => false,
        }
    }

    /// The number of tasks in this group.
    pub fn num_tasks(&self) -> (r: usize)
        requires
            self.wf(),
        ensures
            r == self.live_ids().len(),
    {
        self.ids.len()
    }

    /// Reads and clears every page's notified mask and returns the slots
    /// that were notified, in increasing order: pages in index order, bits
    /// in offset order. Every notified slot is reported exactly once; a
    /// wake arriving after this scan is kept for the next one.
    pub fn get_offsets_for_ready_tasks(&mut self) -> (r: Vec<usize>)
        requires
            old(self).wf(),
        ensures
            final(self).wf(),
            final(self).live_ids() == old(self).live_ids(),
            final(self).issued_ids() == old(self).issued_ids(),
            final(self).last_id() == old(self).last_id(),
            final(self).slots() == old(self).slots(),
            final(self).pages().len() == old(self).pages().len(),
            forall|p: int|
                0 <= p < old(self).pages().len() ==> final(self).pages()[p].notified == 0u64
                    && final(self).pages()[p].completed == old(self).pages()[p].completed
                    && final(self).pages()[p].dropped == old(self).pages()[p].dropped,
            forall|k: int|
                0 <= k < r@.len() ==> (#[trigger] r@[k] as int) < old(self).num_slots() && old(self).slot_notified(r@[k] as int),
            forall|s: int|
                0 <= s < old(self).num_slots() && old(self).slot_notified(s) ==> r@.contains(
                    s as usize,
                ),
            forall|k1: int, k2: int| 0 <= k1 < k2 < r@.len() ==> r@[k1] < r@[k2],
    {
        let mut result: Vec<usize> = Vec::new();
        let num_pages: usize = self.waker_page_refs.len();
        let mut i: usize = 0;
        while i < num_pages
            invariant
                old(self).wf(),
                self.ids == old(self).ids,
                self.tasks == old(self).tasks,
                num_pages == self.pages().len(),
                self.pages().len() == old(self).pages().len(),
                i <= num_pages,
                forall|p: int|
                    0 <= p < i ==> self.pages()[p].notified == 0u64 && self.pages()[p].completed
                        == old(self).pages()[p].completed && self.pages()[p].dropped == old(self).pages()[p].dropped,
                forall|p: int| i <= p < num_pages ==> self.pages()[p] == old(self).pages()[p],
                forall|k: int|
                    0 <= k < result@.len() ==> (#[trigger] result@[k] as int) < i * 64
                        && pages_notified(old(self).pages(), result@[k] as int),
                forall|s: int|
                    0 <= s < i * 64 && pages_notified(old(self).pages(), s) ==> result@.contains(
                        s as usize,
                    ),
                forall|k1: int, k2: int| 0 <= k1 < k2 < result@.len() ==> result@[k1] < result@[k2],
            decreases num_pages - i,
        {
            let page = &mut self.waker_page_refs[i];
            let notified: u64 = page.take_notified();
            let offsets = set_bit_positions(notified);
            let num_offsets = offsets.len();
            let ghost result0 = result@;
            proof {
                crate::bits::lemma_usize_max_mod_64();
            }
            let mut k: usize = 0;
            while k < num_offsets
                invariant
                    old(self).wf(),
                    self.ids == old(self).ids,
                    self.tasks == old(self).tasks,
                    num_pages == self.pages().len(),
                    self.pages().len() == old(self).pages().len(),
                    i < num_pages,
                    k <= num_offsets,
                    num_offsets == offsets@.len(),
                    i * 64 + 63 <= usize::MAX,
                    notified == old(self).pages()[i as int].notified,
                    forall|p: int|
                        0 <= p <= i ==> self.pages()[p].notified == 0u64 && self.pages()[p].completed
                            == old(self).pages()[p].completed && self.pages()[p].dropped == old(self).pages()[p].dropped,
                    forall|p: int| i < p < num_pages ==> self.pages()[p] == old(self).pages()[p],
                    forall|k2: int|
                        0 <= k2 < offsets@.len() ==> (#[trigger] offsets@[k2]) < 64 && is_bit_set(
                            notified,
                            offsets@[k2] as u64,
                        ),
                    forall|b: u64| b < 64 && is_bit_set(notified, b) ==> offsets@.contains(
                        b as usize,
                    ),
                    forall|k1: int, k2: int|
                        0 <= k1 < k2 < offsets@.len() ==> offsets@[k1] < offsets@[k2],
                    result@.len() == result0.len() + k,
                    forall|m: int| 0 <= m < result0.len() ==> result@[m] == result0[m],
                    forall|m: int|
                        0 <= m < result0.len() ==> (#[trigger] result0[m] as int) < i * 64
                            && pages_notified(old(self).pages(), result0[m] as int),
                    forall|s: int|
                        0 <= s < i * 64 && pages_notified(old(self).pages(), s) ==> result0
                            .contains(s as usize),
                    forall|m: int|
                        result0.len() <= m < result@.len() ==> result@[m] == i * 64 + offsets@[m
                            - result0.len()],
                    forall|k1: int, k2: int|
                        0 <= k1 < k2 < result@.len() ==> result@[k1] < result@[k2],
                decreases num_offsets - k,
            {
                let off = offsets[k];
                let slab_ix = Self::get_pin_slab_index(i, off);
                result.push(slab_ix);
                proof {
                    let last = result@.len() - 1;
                    assert forall|k1: int| 0 <= k1 < last implies result@[k1]
                        < result@[last] by {
                        if k1 < result0.len() {
                            assert(result@[k1] == result0[k1]);
                            assert((result0[k1] as int) < i * 64);
                        } else {
                            assert(result@[k1] == i * 64 + offsets@[k1 - result0.len()]);
                            assert(offsets@[k1 - result0.len()] < offsets@[k as int]);
                        }
                    }
                }
                k = k + 1;
            }
            proof {
                assert forall|k2: int| 0 <= k2 < result@.len() implies (
                #[trigger] result@[k2] as int) < (i + 1) * 64 && pages_notified(
                    old(self).pages(),
                    result@[k2] as int,
                ) by {
                    if k2 < result0.len() {
                        assert(result@[k2] == result0[k2]);
                        assert((result0[k2] as int) < i * 64);
                        assert(pages_notified(old(self).pages(), result0[k2] as int));
                    } else {
                        let m = k2 - result0.len();
                        let offv = offsets@[m];
                        assert(offv < 64 && is_bit_set(notified, offv as u64));
                        let s = i * 64 + offv as int;
                        assert(result@[k2] == s);
                        assert(s / 64 == i && s % 64 == offv as int);
                        assert(old(self).pages()[i as int].notified == notified);
                        assert(is_bit_set(old(self).pages()[s / 64].notified, (s % 64) as u64));
                    }
                }
                assert forall|s: int|
                    0 <= s < (i + 1) * 64 && pages_notified(old(self).pages(), s) implies result@
                    .contains(s as usize) by {
                    if s < i * 64 {
                        let m = choose|m: int|
                            0 <= m < result0.len() && result0[m] == s as usize;
                        assert(result@[m] == s as usize);
                    } else {
                        let b = (s % 64) as u64;
                        assert(s / 64 == i);
                        assert(is_bit_set(notified, b));
                        assert(offsets@.contains(b as usize));
                        let m = choose|m: int|
                            0 <= m < offsets@.len() && offsets@[m] == b as usize;
                        assert(result@[result0.len() + m] == i * 64 + offsets@[m]);
                        assert(result@[result0.len() + m] == s as usize);
                    }
                }
            }
            i = i + 1;
        }
        result
    }

    /// Polls the task in the given slot once, with a context bound to that
    /// slot, and reports what happened: whether the task returned ready
    /// (setting the completed bit), and whether it raised a wake through
    /// the context. A wake raised by a still-pending task sets the slot's
    /// notified bit again, so it is never lost: the slot reappears in the
    /// next scan of ready slots. `None` if the slot holds no task, and
    /// then nothing changes.
    pub fn poll_notified_task(&mut self, pin_slab_index: usize) -> (r: Option<SlotPoll>) where
        T: Task,

        requires
            old(self).wf(),
        ensures
            final(self).wf(),
            match r {
                None => {
                    &&& !old(self).occupied(pin_slab_index as int)
                    &&& final(self).slots() == old(self).slots()
                    &&& final(self).pages() == old(self).pages()
                    &&& final(self).live_ids() == old(self).live_ids()
                    &&& final(self).issued_ids() == old(self).issued_ids()
                    &&& final(self).last_id() == old(self).last_id()
                },
                Some(pr) => {
                    let s = pin_slab_index as int;
                    &&& old(self).occupied(s)
                    &&& final(self).occupied(s)
                    &&& final(self).id_at(s) == old(self).id_at(s)
                    &&& final(self).live_ids() == old(self).live_ids()
                    &&& final(self).issued_ids() == old(self).issued_ids()
                    &&& final(self).last_id() == old(self).last_id()
                    &&& forall|j: int|
                        0 <= j < old(self).slots().len() && j != s ==> final(self).slots()[j]
                            == old(self).slots()[j]
                    &&& final(self).pages().len() == old(self).pages().len()
                    &&& forall|j: int|
                        0 <= j < old(self).num_slots() && j != s ==> final(self).slot_notified(j)
                            == old(self).slot_notified(j) && final(self).slot_completed(j) == old(self).slot_completed(j) && final(self).slot_dropped(j) == old(self).slot_dropped(j)
                    &&& final(self).slot_dropped(s) == old(self).slot_dropped(s)
                    &&& (pr.completed ==> final(self).slot_completed(s) && !final(self).slot_notified(s))
                    &&& (!pr.completed ==> final(self).slot_completed(s) == old(self).slot_completed(s) && final(self).slot_notified(s) == (old(self).slot_notified(s) || pr.woken))
                },
            },
    {
        let (waker_page_index, waker_page_offset) = match self.get_waker_page_index_and_offset(
            pin_slab_index,
        ) {
            Some(pair) => pair,
            None => {
                return None;
            },
        };
        let mut ctx = PollContext::new();
        let entry_ref = self.tasks.get_pin_mut(pin_slab_index);
        let poll_result = entry_ref.task.poll(&mut ctx);
        let woken = ctx.woken();
        match poll_result {
            TaskPoll::Ready => {
                let page = &mut self.waker_page_refs[waker_page_index];
                page.mark_completed(waker_page_offset);
                proof {
                    lemma_bits_after_mark_completed(
                        old(self).pages(),
                        self.pages(),
                        pin_slab_index as int,
                    );
                }
                Some(SlotPoll { completed: true, woken })
            },
            TaskPoll::Pending => {
                if woken {
                    let page = &mut self.waker_page_refs[waker_page_index];
                    page.wake(waker_page_offset);
                    proof {
                        lemma_bits_after_wake(
                            old(self).pages(),
                            self.pages(),
                            pin_slab_index as int,
                        );
                    }
                }
                Some(SlotPoll { completed: false, woken })
            },
        }
    }

    /// Wakes the task bound to `task_id` from outside a poll: sets its
    /// slot's notified bit, so the next scan of ready slots reports it.
    /// This is the delivery path for external completions (a transport
    /// that became ready); a task waking itself mid-poll goes through its
    /// poll context instead.
    pub fn wake(&mut self, task_id: TaskId) -> (r: Option<()>)
        requires
            old(self).wf(),
        ensures
            final(self).wf(),
            final(self).live_ids() == old(self).live_ids(),
            final(self).issued_ids() == old(self).issued_ids(),
            final(self).last_id() == old(self).last_id(),
            final(self).slots() == old(self).slots(),
            match r {
                None => !old(self).live_ids().contains_key(task_id.0) && final(self).pages()
                    == old(self).pages(),
                Some(_) => {
                    let s = old(self).live_ids()[task_id.0] as int;
                    &&& old(self).live_ids().contains_key(task_id.0)
                    &&& final(self).pages().len() == old(self).pages().len()
                    &&& final(self).slot_notified(s)
                    &&& final(self).slot_completed(s) == old(self).slot_completed(s)
                    &&& final(self).slot_dropped(s) == old(self).slot_dropped(s)
                    &&& forall|j: int|
                        0 <= j < old(self).num_slots() && j != s ==> final(self).slot_notified(j)
                            == old(self).slot_notified(j) && final(self).slot_completed(j) == old(self).slot_completed(j) && final(self).slot_dropped(j) == old(self).slot_dropped(j)
                },
            },
    {
        let pin_slab_index: usize = match self.ids.get(task_id.0) {
            Some(s) => s,
            None => {
                return None;
            },
        };
        let (waker_page_index, waker_page_offset) = match self.get_waker_page_index_and_offset(
            pin_slab_index,
        ) {
            Some(pair) => pair,
            None => unreached(),
        };
        let page = &mut self.waker_page_refs[waker_page_index];
        page.wake(waker_page_offset);
        proof {
            lemma_bits_after_wake(old(self).pages(), self.pages(), pin_slab_index as int);
        }
        Some(())
    }

    /// Requests cancellation of the task bound to `task_id`: sets its
    /// slot's dropped bit. The task itself is torn down by the next
    /// scheduler pass over the dropped masks.
    pub fn mark_dropped(&mut self, task_id: TaskId) -> (r: Option<()>)
        requires
            old(self).wf(),
        ensures
            final(self).wf(),
            final(self).live_ids() == old(self).live_ids(),
            final(self).issued_ids() == old(self).issued_ids(),
            final(self).last_id() == old(self).last_id(),
            final(self).slots() == old(self).slots(),
            match r {
                None => !old(self).live_ids().contains_key(task_id.0) && final(self).pages()
                    == old(self).pages(),
                Some(_) => {
                    let s = old(self).live_ids()[task_id.0] as int;
                    &&& old(self).live_ids().contains_key(task_id.0)
                    &&& final(self).pages().len() == old(self).pages().len()
                    &&& final(self).slot_dropped(s)
                    &&& final(self).slot_notified(s) == old(self).slot_notified(s)
                    &&& final(self).slot_completed(s) == old(self).slot_completed(s)
                    &&& forall|j: int|
                        0 <= j < old(self).num_slots() && j != s ==> final(self).slot_notified(j)
                            == old(self).slot_notified(j) && final(self).slot_completed(j) == old(self).slot_completed(j) && final(self).slot_dropped(j) == old(self).slot_dropped(j)
                },
            },
    {
        let pin_slab_index: usize = match self.ids.get(task_id.0) {
            Some(s) => s,
            None => {
                return None;
            },
        };
        let (waker_page_index, waker_page_offset) = match self.get_waker_page_index_and_offset(
            pin_slab_index,
        ) {
            Some(pair) => pair,
            None => unreached(),
        };
        let page = &mut self.waker_page_refs[waker_page_index];
        page.mark_dropped(waker_page_offset);
        proof {
            lemma_bits_after_mark_dropped(old(self).pages(), self.pages(), pin_slab_index as int);
        }
        Some(())
    }

    /// Reads and clears every page's dropped mask and returns the slots
    /// that were cancelled, in increasing order.
    pub(crate) fn take_dropped_offsets(&mut self) -> (r: Vec<usize>)
        requires
            old(self).wf(),
        ensures
            final(self).wf(),
            final(self).live_ids() == old(self).live_ids(),
            final(self).issued_ids() == old(self).issued_ids(),
            final(self).last_id() == old(self).last_id(),
            final(self).slots() == old(self).slots(),
            final(self).pages().len() == old(self).pages().len(),
            forall|p: int|
                0 <= p < old(self).pages().len() ==> final(self).pages()[p].dropped == 0u64
                    && final(self).pages()[p].completed == old(self).pages()[p].completed
                    && final(self).pages()[p].notified == old(self).pages()[p].notified,
            forall|k: int|
                0 <= k < r@.len() ==> (#[trigger] r@[k] as int) < old(self).num_slots() && old(self).slot_dropped(r@[k] as int),
            forall|s: int|
                0 <= s < old(self).num_slots() && old(self).slot_dropped(s) ==> r@.contains(
                    s as usize,
                ),
            forall|k1: int, k2: int| 0 <= k1 < k2 < r@.len() ==> r@[k1] < r@[k2],
    {
        let mut result: Vec<usize> = Vec::new();
        let num_pages: usize = self.waker_page_refs.len();
        let mut i: usize = 0;
        while i < num_pages
            invariant
                old(self).wf(),
                self.ids == old(self).ids,
                self.tasks == old(self).tasks,
                num_pages == self.pages().len(),
                self.pages().len() == old(self).pages().len(),
                i <= num_pages,
                forall|p: int|
                    0 <= p < i ==> self.pages()[p].dropped == 0u64 && self.pages()[p].completed
                        == old(self).pages()[p].completed && self.pages()[p].notified == old(self).pages()[p].notified,
                forall|p: int| i <= p < num_pages ==> self.pages()[p] == old(self).pages()[p],
                forall|k: int|
                    0 <= k < result@.len() ==> (#[trigger] result@[k] as int) < i * 64
                        && pages_dropped(old(self).pages(), result@[k] as int),
                forall|s: int|
                    0 <= s < i * 64 && pages_dropped(old(self).pages(), s) ==> result@.contains(
                        s as usize,
                    ),
                forall|k1: int, k2: int| 0 <= k1 < k2 < result@.len() ==> result@[k1] < result@[k2],
            decreases num_pages - i,
        {
            let page = &mut self.waker_page_refs[i];
            let dropped: u64 = page.take_dropped();
            let offsets = set_bit_positions(dropped);
            let num_offsets = offsets.len();
            let ghost result0 = result@;
            proof {
                crate::bits::lemma_usize_max_mod_64();
            }
            let mut k: usize = 0;
            while k < num_offsets
                invariant
                    old(self).wf(),
                    self.ids == old(self).ids,
                    self.tasks == old(self).tasks,
                    num_pages == self.pages().len(),
                    self.pages().len() == old(self).pages().len(),
                    i < num_pages,
                    k <= num_offsets,
                    num_offsets == offsets@.len(),
                    i * 64 + 63 <= usize::MAX,
                    dropped == old(self).pages()[i as int].dropped,
                    forall|p: int|
                        0 <= p <= i ==> self.pages()[p].dropped == 0u64 && self.pages()[p].completed
                            == old(self).pages()[p].completed && self.pages()[p].notified == old(self).pages()[p].notified,
                    forall|p: int| i < p < num_pages ==> self.pages()[p] == old(self).pages()[p],
                    forall|k2: int|
                        0 <= k2 < offsets@.len() ==> (#[trigger] offsets@[k2]) < 64 && is_bit_set(
                            dropped,
                            offsets@[k2] as u64,
                        ),
                    forall|b: u64| b < 64 && is_bit_set(dropped, b) ==> offsets@.contains(
                        b as usize,
                    ),
                    forall|k1: int, k2: int|
                        0 <= k1 < k2 < offsets@.len() ==> offsets@[k1] < offsets@[k2],
                    result@.len() == result0.len() + k,
                    forall|m: int| 0 <= m < result0.len() ==> result@[m] == result0[m],
                    forall|m: int|
                        0 <= m < result0.len() ==> (#[trigger] result0[m] as int) < i * 64
                            && pages_dropped(old(self).pages(), result0[m] as int),
                    forall|s: int|
                        0 <= s < i * 64 && pages_dropped(old(self).pages(), s) ==> result0
                            .contains(s as usize),
                    forall|m: int|
                        result0.len() <= m < result@.len() ==> result@[m] == i * 64 + offsets@[m
                            - result0.len()],
                    forall|k1: int, k2: int|
                        0 <= k1 < k2 < result@.len() ==> result@[k1] < result@[k2],
                decreases num_offsets - k,
            {
                let off = offsets[k];
                let slab_ix = Self::get_pin_slab_index(i, off);
                result.push(slab_ix);
                proof {
                    let last = result@.len() - 1;
                    assert forall|k1: int| 0 <= k1 < last implies result@[k1]
                        < result@[last] by {
                        if k1 < result0.len() {
                            assert(result@[k1] == result0[k1]);
                            assert((result0[k1] as int) < i * 64);
                        } else {
                            assert(result@[k1] == i * 64 + offsets@[k1 - result0.len()]);
                            assert(offsets@[k1 - result0.len()] < offsets@[k as int]);
                        }
                    }
                }
                k = k + 1;
            }
            proof {
                assert forall|k2: int| 0 <= k2 < result@.len() implies (
                #[trigger] result@[k2] as int) < (i + 1) * 64 && pages_dropped(
                    old(self).pages(),
                    result@[k2] as int,
                ) by {
                    if k2 < result0.len() {
                        assert(result@[k2] == result0[k2]);
                        assert((result0[k2] as int) < i * 64);
                        assert(pages_dropped(old(self).pages(), result0[k2] as int));
                    } else {
                        let m = k2 - result0.len();
                        let offv = offsets@[m];
                        assert(offv < 64 && is_bit_set(dropped, offv as u64));
                        let s = i * 64 + offv as int;
                        assert(result@[k2] == s);
                        assert(s / 64 == i && s % 64 == offv as int);
                        assert(old(self).pages()[i as int].dropped == dropped);
                        assert(is_bit_set(old(self).pages()[s / 64].dropped, (s % 64) as u64));
                    }
                }
                assert forall|s: int|
                    0 <= s < (i + 1) * 64 && pages_dropped(old(self).pages(), s) implies result@
                    .contains(s as usize) by {
                    if s < i * 64 {
                        let m = choose|m: int|
                            0 <= m < result0.len() && result0[m] == s as usize;
                        assert(result@[m] == s as usize);
                    } else {
                        let b = (s % 64) as u64;
                        assert(s / 64 == i);
                        assert(is_bit_set(dropped, b));
                        assert(offsets@.contains(b as usize));
                        let m = choose|m: int|
                            0 <= m < offsets@.len() && offsets@[m] == b as usize;
                        assert(result@[result0.len() + m] == i * 64 + offsets@[m]);
                        assert(result@[result0.len() + m] == s as usize);
                    }
                }
            }
            i = i + 1;
        }
        result
    }

    /// Tears the given slot down after a cancellation: unbinds its id,
    /// drops its task in place, and clears its waker bits. A vacant slot
    /// only has its bits cleared.
    #[verifier::rlimit(50)]
    pub(crate) fn remove_dropped_slot(&mut self, pin_slab_index: usize)
        requires
            old(self).wf(),
            (pin_slab_index as int) < old(self).num_slots(),
        ensures
            final(self).wf(),
            !final(self).occupied(pin_slab_index as int),
            final(self).issued_ids() == old(self).issued_ids(),
            final(self).last_id() == old(self).last_id(),
            final(self).live_ids() == (if old(self).occupied(pin_slab_index as int) {
                old(self).live_ids().remove(old(self).id_at(pin_slab_index as int))
            } else {
                old(self).live_ids()
            }),
            final(self).slots().len() == old(self).slots().len(),
            forall|j: int|
                0 <= j < old(self).slots().len() && j != pin_slab_index as int ==> final(self).slots()[j] == old(self).slots()[j],
            final(self).pages().len() == old(self).pages().len(),
            !final(self).slot_notified(pin_slab_index as int),
            !final(self).slot_completed(pin_slab_index as int),
            !final(self).slot_dropped(pin_slab_index as int),
            forall|j: int|
                0 <= j < old(self).num_slots() && j != pin_slab_index as int ==> final(self).slot_notified(j) == old(self).slot_notified(j),
            forall|j: int|
                0 <= j < old(self).num_slots() && j != pin_slab_index as int ==> final(self).slot_completed(j) == old(self).slot_completed(j),
            forall|j: int|
                0 <= j < old(self).num_slots() && j != pin_slab_index as int ==> final(self).slot_dropped(j) == old(self).slot_dropped(j),
    {
        if self.tasks.contains(pin_slab_index) {
            let id = self.get_id(pin_slab_index);
            self.ids.remove(id.0);
            self.tasks.remove(pin_slab_index);
        }
        proof {
            assert(pin_slab_index >> 6usize == pin_slab_index / 64) by (bit_vector);
        }
        let waker_page_index: usize = pin_slab_index >> WAKER_BIT_LENGTH_SHIFT;
        let waker_page_offset: usize = Self::get_waker_page_offset(pin_slab_index);
        let page = &mut self.waker_page_refs[waker_page_index];
        page.clear(waker_page_offset);
        proof {
            lemma_bits_after_clear(
                old(self).pages(),
                self.pages(),
                pin_slab_index as int,
                old(self).num_slots(),
            );
        }
    }
}

/// Exported well-formedness fact: a live id's slot is occupied, lies in
/// the range the waker pages cover, and is bound back to the id.
pub proof fn lemma_wf_live_slot<T>(g: TaskGroup<T>, id: u64)
    requires
        g.wf(),
        g.live_ids().contains_key(id),
    ensures
        g.occupied(g.live_ids()[id] as int),
        (g.live_ids()[id] as int) < g.num_slots(),
        g.id_at(g.live_ids()[id] as int) == id,
{
}

/// Exported well-formedness fact: an occupied slot's id is live and bound
/// back to the slot.
pub proof fn lemma_wf_occupied_slot<T>(g: TaskGroup<T>, s: usize)
    requires
        g.wf(),
        g.occupied(s as int),
    ensures
        g.live_ids().contains_key(g.id_at(s as int)),
        g.live_ids()[g.id_at(s as int)] == s,
{
}

/// After `initialize` ran for slot `s` on the page vector `pre` (possibly
/// extended with all-zero pages first, out to `n0` covered slots), slot `s`
/// is notified and neither completed nor dropped, and every other slot is
/// as it was, or clear if its page is new.
proof fn lemma_bits_after_initialize(pre: Seq<WakerPage>, post: Seq<WakerPage>, s: int, n0: int)
    requires
        0 <= s < post.len() * 64,
        n0 == pre.len() * 64,
        pre.len() <= post.len(),
        forall|p: int|
            0 <= p < post.len() && p != s / 64 ==> post[p] == (if p < pre.len() {
                pre[p]
            } else {
                WakerPage { notified: 0u64, completed: 0u64, dropped: 0u64 }
            }),
        post[s / 64].notified == (if s / 64 < pre.len() {
            pre[s / 64].notified
        } else {
            0u64
        }) | (1u64 << (s % 64) as u64),
        post[s / 64].completed == (if s / 64 < pre.len() {
            pre[s / 64].completed
        } else {
            0u64
        }) & !(1u64 << (s % 64) as u64),
        post[s / 64].dropped == (if s / 64 < pre.len() {
            pre[s / 64].dropped
        } else {
            0u64
        }) & !(1u64 << (s % 64) as u64),
    ensures
        pages_notified(post, s),
        !pages_completed(post, s),
        !pages_dropped(post, s),
        forall|j: int|
            #![trigger pages_notified(post, j)]
            #![trigger pages_completed(post, j)]
            #![trigger pages_dropped(post, j)]
            0 <= j < n0 && j != s ==> pages_notified(post, j) == pages_notified(pre, j)
                && pages_completed(post, j) == pages_completed(pre, j) && pages_dropped(post, j)
                == pages_dropped(pre, j),
        forall|j: int|
            #![trigger pages_notified(post, j)]
            #![trigger pages_completed(post, j)]
            #![trigger pages_dropped(post, j)]
            n0 <= j < post.len() * 64 && j != s ==> !pages_notified(post, j)
                && !pages_completed(post, j) && !pages_dropped(post, j),
{
    let page = s / 64;
    let off = (s % 64) as u64;
    let base_n = if page < pre.len() {
        pre[page].notified
    } else {
        0u64
    };
    let base_c = if page < pre.len() {
        pre[page].completed
    } else {
        0u64
    };
    let base_d = if page < pre.len() {
        pre[page].dropped
    } else {
        0u64
    };
    lemma_set_bit(base_n, off, off);
    lemma_clear_bit(base_c, off, off);
    lemma_clear_bit(base_d, off, off);
    assert forall|j: int| 0 <= j < post.len() * 64 && j != s implies {
        &&& #[trigger] pages_notified(post, j) == (j / 64 < pre.len() && pages_notified(pre, j))
        &&& pages_completed(post, j) == (j / 64 < pre.len() && pages_completed(pre, j))
        &&& pages_dropped(post, j) == (j / 64 < pre.len() && pages_dropped(pre, j))
    } by {
        let b = (j % 64) as u64;
        if j / 64 == page {
            assert(b != off);
            lemma_set_bit(base_n, off, b);
            lemma_clear_bit(base_c, off, b);
            lemma_clear_bit(base_d, off, b);
            if page >= pre.len() {
                crate::bits::lemma_no_bit_set_in_zero(b);
            }
        } else {
            if j / 64 >= pre.len() {
                crate::bits::lemma_no_bit_set_in_zero(b);
            }
        }
    }
}

/// After `mark_completed` ran for slot `s`, the slot is completed and no
/// longer notified; its dropped bit and every other slot are as they were.
proof fn lemma_bits_after_mark_completed(pre: Seq<WakerPage>, post: Seq<WakerPage>, s: int)
    requires
        0 <= s < pre.len() * 64,
        post.len() == pre.len(),
        forall|p: int| 0 <= p < post.len() && p != s / 64 ==> post[p] == pre[p],
        post[s / 64].completed == pre[s / 64].completed | (1u64 << (s % 64) as u64),
        post[s / 64].notified == pre[s / 64].notified & !(1u64 << (s % 64) as u64),
        post[s / 64].dropped == pre[s / 64].dropped,
    ensures
        pages_completed(post, s),
        !pages_notified(post, s),
        pages_dropped(post, s) == pages_dropped(pre, s),
        forall|j: int|
            #![trigger pages_notified(post, j)]
            #![trigger pages_completed(post, j)]
            #![trigger pages_dropped(post, j)]
            0 <= j < pre.len() * 64 && j != s ==> pages_notified(post, j) == pages_notified(
                pre,
                j,
            ) && pages_completed(post, j) == pages_completed(pre, j) && pages_dropped(post, j)
                == pages_dropped(pre, j),
{
    let page = s / 64;
    let off = (s % 64) as u64;
    lemma_set_bit(pre[page].completed, off, off);
    lemma_clear_bit(pre[page].notified, off, off);
    assert forall|j: int| 0 <= j < pre.len() * 64 && j != s implies {
        &&& #[trigger] pages_notified(post, j) == pages_notified(pre, j)
        &&& pages_completed(post, j) == pages_completed(pre, j)
        &&& pages_dropped(post, j) == pages_dropped(pre, j)
    } by {
        let b = (j % 64) as u64;
        if j / 64 == page {
            assert(b != off);
            lemma_set_bit(pre[page].completed, off, b);
            lemma_clear_bit(pre[page].notified, off, b);
        }
    }
}

/// After `wake` ran for slot `s`, the slot is notified; every completed
/// and dropped bit, and every other slot's notified bit, are as they were.
proof fn lemma_bits_after_wake(pre: Seq<WakerPage>, post: Seq<WakerPage>, s: int)
    requires
        0 <= s < pre.len() * 64,
        post.len() == pre.len(),
        forall|p: int| 0 <= p < post.len() && p != s / 64 ==> post[p] == pre[p],
        post[s / 64].notified == pre[s / 64].notified | (1u64 << (s % 64) as u64),
        post[s / 64].completed == pre[s / 64].completed,
        post[s / 64].dropped == pre[s / 64].dropped,
    ensures
        pages_notified(post, s),
        pages_completed(post, s) == pages_completed(pre, s),
        pages_dropped(post, s) == pages_dropped(pre, s),
        forall|j: int|
            #![trigger pages_notified(post, j)]
            #![trigger pages_completed(post, j)]
            #![trigger pages_dropped(post, j)]
            0 <= j < pre.len() * 64 && j != s ==> pages_notified(post, j) == pages_notified(
                pre,
                j,
            ) && pages_completed(post, j) == pages_completed(pre, j) && pages_dropped(post, j)
                == pages_dropped(pre, j),
{
    let page = s / 64;
    let off = (s % 64) as u64;
    lemma_set_bit(pre[page].notified, off, off);
    assert forall|j: int| 0 <= j < pre.len() * 64 && j != s implies {
        &&& #[trigger] pages_notified(post, j) == pages_notified(pre, j)
        &&& pages_completed(post, j) == pages_completed(pre, j)
        &&& pages_dropped(post, j) == pages_dropped(pre, j)
    } by {
        let b = (j % 64) as u64;
        if j / 64 == page {
            assert(b != off);
            lemma_set_bit(pre[page].notified, off, b);
        }
    }
}

/// After `mark_dropped` ran for slot `s`, the slot is dropped; its other
/// bits and every other slot are as they were.
proof fn lemma_bits_after_mark_dropped(pre: Seq<WakerPage>, post: Seq<WakerPage>, s: int)
    requires
        0 <= s < pre.len() * 64,
        post.len() == pre.len(),
        forall|p: int| 0 <= p < post.len() && p != s / 64 ==> post[p] == pre[p],
        post[s / 64].dropped == pre[s / 64].dropped | (1u64 << (s % 64) as u64),
        post[s / 64].notified == pre[s / 64].notified,
        post[s / 64].completed == pre[s / 64].completed,
    ensures
        pages_dropped(post, s),
        pages_notified(post, s) == pages_notified(pre, s),
        pages_completed(post, s) == pages_completed(pre, s),
        forall|j: int|
            #![trigger pages_notified(post, j)]
            #![trigger pages_completed(post, j)]
            #![trigger pages_dropped(post, j)]
            0 <= j < pre.len() * 64 && j != s ==> pages_notified(post, j) == pages_notified(
                pre,
                j,
            ) && pages_completed(post, j) == pages_completed(pre, j) && pages_dropped(post, j)
                == pages_dropped(pre, j),
{
    let page = s / 64;
    let off = (s % 64) as u64;
    lemma_set_bit(pre[page].dropped, off, off);
    assert forall|j: int| 0 <= j < pre.len() * 64 && j != s implies {
        &&& #[trigger] pages_notified(post, j) == pages_notified(pre, j)
        &&& pages_completed(post, j) == pages_completed(pre, j)
        &&& pages_dropped(post, j) == pages_dropped(pre, j)
    } by {
        let b = (j % 64) as u64;
        if j / 64 == page {
            assert(b != off);
            lemma_set_bit(pre[page].dropped, off, b);
        }
    }
}

/// After `clear` ran for slot `s`, its three bits are clear and every
/// other slot is as it was.
proof fn lemma_bits_after_clear(pre: Seq<WakerPage>, post: Seq<WakerPage>, s: int, n0: int)
    requires
        0 <= s < pre.len() * 64,
        n0 == pre.len() * 64,
        post.len() == pre.len(),
        forall|p: int| 0 <= p < post.len() && p != s / 64 ==> post[p] == pre[p],
        post[s / 64].notified == pre[s / 64].notified & !(1u64 << (s % 64) as u64),
        post[s / 64].completed == pre[s / 64].completed & !(1u64 << (s % 64) as u64),
        post[s / 64].dropped == pre[s / 64].dropped & !(1u64 << (s % 64) as u64),
    ensures
        !pages_notified(post, s),
        !pages_completed(post, s),
        !pages_dropped(post, s),
        forall|j: int|
            #![trigger pages_notified(post, j)]
            #![trigger pages_completed(post, j)]
            #![trigger pages_dropped(post, j)]
            0 <= j < n0 && j != s ==> pages_notified(post, j) == pages_notified(pre, j)
                && pages_completed(post, j) == pages_completed(pre, j) && pages_dropped(post, j)
                == pages_dropped(pre, j),
{
    let page = s / 64;
    let off = (s % 64) as u64;
    lemma_clear_bit(pre[page].notified, off, off);
    lemma_clear_bit(pre[page].completed, off, off);
    lemma_clear_bit(pre[page].dropped, off, off);
    assert forall|j: int| 0 <= j < n0 && j != s implies {
        &&& #[trigger] pages_notified(post, j) == pages_notified(pre, j)
        &&& pages_completed(post, j) == pages_completed(pre, j)
        &&& pages_dropped(post, j) == pages_dropped(pre, j)
    } by {
        let b = (j % 64) as u64;
        if j / 64 == page {
            assert(b != off);
            lemma_clear_bit(pre[page].notified, off, b);
            lemma_clear_bit(pre[page].completed, off, b);
            lemma_clear_bit(pre[page].dropped, off, b);
        }
    }
}

} // verus!
