//! The scheduler: a thin driver over a task group. A tick polls every
//! slot whose notified bit was set at the start of the tick, then tears
//! down every slot whose dropped bit was set.

use crate::group::TaskGroup;
use crate::id_map::succ_id;
use crate::task::Task;
use crate::task::TaskId;
use vstd::prelude::*;

verus! {

/// Task scheduler: owns one task group and drives it tick by tick.
pub struct Scheduler<T> {
    group: TaskGroup<T>,
}

impl<T> Scheduler<T> {
    /// The live bindings from task id to slab slot.
    pub closed spec fn live_ids(&self) -> Map<u64, usize> {
        self.group.live_ids()
    }

    /// Every id this scheduler ever handed out.
    pub closed spec fn issued_ids(&self) -> Set<u64> {
        self.group.issued_ids()
    }

    /// The most recently handed-out id.
    pub closed spec fn last_id(&self) -> Option<u64> {
        self.group.last_id()
    }

    /// Whether the slot bound to `id` carries the completed bit.
    pub closed spec fn id_completed(&self, id: u64) -> bool {
        self.group.slot_completed(self.group.live_ids()[id] as int)
    }

    /// Whether the slot bound to `id` carries the dropped bit.
    pub closed spec fn id_dropped(&self, id: u64) -> bool {
        self.group.slot_dropped(self.group.live_ids()[id] as int)
    }

    /// Whether the slot bound to `id` carries the notified bit, so that
    /// the next tick polls the task.
    pub closed spec fn id_notified(&self, id: u64) -> bool {
        self.group.slot_notified(self.group.live_ids()[id] as int)
    }

    /// The task in slot `s` of the underlying group.
    pub closed spec fn task_at(&self, s: int) -> T {
        self.group.task_at(s)
    }

    /// Well-formedness of the underlying group.
    pub closed spec fn wf(&self) -> bool {
        self.group.wf()
    }

    /// A scheduler with a deterministically seeded id generator, for
    /// reproducible runs.
    pub fn with_seed(seed: u64) -> (r: Self)
        ensures
            r.wf(),
            r.live_ids() == Map::<u64, usize>::empty(),
            r.issued_ids() == Set::<u64>::empty(),
            r.last_id() is None,
    {
        Scheduler { group: TaskGroup::with_seed(seed) }
    }

    /// Inserts a task and returns the fresh id bound to it. The id was
    /// never issued before and is not the successor of the previously
    /// issued id; the task's slot starts notified, so the next tick polls
    /// it. `None` only if no usable id was drawn; nothing changes then.
    pub fn insert(&mut self, future: T) -> (r: Option<TaskId>) where T: Task
        requires
            old(self).wf(),
        ensures
            final(self).wf(),
            match r {
                Some(tid) => {
                    &&& !old(self).issued_ids().contains(tid.0)
                    &&& (old(self).last_id() matches Some(p) ==> tid.0 != succ_id(p))
                    &&& !old(self).live_ids().contains_key(tid.0)
                    &&& final(self).live_ids().contains_key(tid.0)
                    &&& final(self).issued_ids() == old(self).issued_ids().insert(tid.0)
                    &&& final(self).last_id() == Some(tid.0)
                    &&& !final(self).id_completed(tid.0)
                    &&& final(self).id_notified(tid.0)
                    &&& !final(self).id_dropped(tid.0)
                    &&& forall|id: u64| #[trigger]
                        old(self).live_ids().contains_key(id) ==> final(self).live_ids().contains_key(id)
                },
                None => {
                    &&& final(self).live_ids() == old(self).live_ids()
                    &&& final(self).issued_ids() == old(self).issued_ids()
                    &&& final(self).last_id() == old(self).last_id()
                },
            },
    {
        self.group.insert(future)
    }

    /// Removes the task bound to `id` from the scheduler and returns it;
    /// `None` if the id is unknown.
    pub fn take(&mut self, id: TaskId) -> (r: Option<T>)
        requires
            old(self).wf(),
        ensures
            final(self).wf(),
            r is Some <==> old(self).live_ids().contains_key(id.0),
            r matches Some(t) ==> t == old(self).task_at(old(self).live_ids()[id.0] as int)
                && final(self).live_ids() == old(self).live_ids().remove(id.0),
            r is None ==> final(self).live_ids() == old(self).live_ids(),
            final(self).issued_ids() == old(self).issued_ids(),
            final(self).last_id() == old(self).last_id(),
    {
        self.group.remove(id)
    }

    /// Turns a raw task id back into a handle, if a task is bound to it.
    pub fn from_raw_handle(&self, task_id: u64) -> (r: Option<TaskId>)
        requires
            self.wf(),
        ensures
            r == (if self.live_ids().contains_key(task_id) {
                Some(TaskId(task_id))
            } else {
                None::<TaskId>
            }),
    {
        if self.group.is_valid_task(&TaskId(task_id)) {
            Some(TaskId(task_id))
        } else {
            None
        }
    }

    /// Whether the task bound to `id` has returned ready; `None` if the
    /// id is unknown.
    pub fn has_completed(&self, id: TaskId) -> (r: Option<bool>)
        requires
            self.wf(),
        ensures
            r == (if self.live_ids().contains_key(id.0) {
                Some(self.id_completed(id.0))
            } else {
                None::<bool>
            }),
    {
        self.group.has_completed(id)
    }

    /// Requests cancellation of the task bound to `id`: the task is torn
    /// down during the next tick.
    pub fn mark_dropped(&mut self, id: TaskId) -> (r: Option<()>)
        requires
            old(self).wf(),
        ensures
            final(self).wf(),
            r is Some <==> old(self).live_ids().contains_key(id.0),
            final(self).live_ids() == old(self).live_ids(),
            final(self).issued_ids() == old(self).issued_ids(),
            final(self).last_id() == old(self).last_id(),
            r is Some ==> final(self).id_dropped(id.0),
    {
        self.group.mark_dropped(id)
    }

    /// Wakes the task bound to `id` from outside a poll, so the next
    /// tick polls it. This is the delivery path for external completions;
    /// thread-crossing signal plumbing can sit on top of it.
    pub fn wake(&mut self, id: TaskId) -> (r: Option<()>)
        requires
            old(self).wf(),
        ensures
            final(self).wf(),
            r is Some <==> old(self).live_ids().contains_key(id.0),
            final(self).live_ids() == old(self).live_ids(),
            final(self).issued_ids() == old(self).issued_ids(),
            final(self).last_id() == old(self).last_id(),
            r is Some ==> final(self).id_notified(id.0),
    {
        self.group.wake(id)
    }

    /// One scheduler tick: reads and clears the notified masks, polls
    /// every slot they named (in page order, then bit order), then reads
    /// and clears the dropped masks and tears those slots down. No new id
    /// appears; every task whose cancellation was requested before the
    /// tick is gone afterwards, and every other task survives at its
    /// slot. A wake a task raises during its poll is applied to its
    /// slot's notified bit (`TaskGroup::poll_notified_task`), so it is
    /// observed by the next tick, not this one.
    pub fn poll(&mut self) where T: Task
        requires
            old(self).wf(),
        ensures
            final(self).wf(),
            final(self).issued_ids() == old(self).issued_ids(),
            final(self).last_id() == old(self).last_id(),
            forall|id: u64| #[trigger]
                final(self).live_ids().contains_key(id) ==> old(self).live_ids().contains_key(id),
            forall|id: u64|
                old(self).live_ids().contains_key(id) && #[trigger] old(self).id_dropped(id)
                    ==> !final(self).live_ids().contains_key(id),
            forall|id: u64|
                #[trigger] old(self).live_ids().contains_key(id) && !old(self).id_dropped(id)
                    ==> final(self).live_ids().contains_key(id) && final(self).live_ids()[id]
                    == old(self).live_ids()[id],
            forall|id: u64|
                old(self).live_ids().contains_key(id) && !old(self).id_notified(id) && !(
                #[trigger] old(self).id_dropped(id)) ==> final(self).id_completed(id) == old(
                    self,
                ).id_completed(id),
    {
        let ready = self.group.get_offsets_for_ready_tasks();
        let num_ready = ready.len();
        let mut k: usize = 0;
        while k < num_ready
            invariant
                old(self).wf(),
                self.group.wf(),
                k <= num_ready,
                num_ready == ready@.len(),
                self.group.issued_ids() == old(self).issued_ids(),
                self.group.last_id() == old(self).last_id(),
                self.group.live_ids() == old(self).live_ids(),
                self.group.num_slots() == old(self).group.num_slots(),
                forall|s: int|
                    0 <= s < old(self).group.num_slots() ==> self.group.slot_dropped(s) == old(self).group.slot_dropped(s),
                forall|m: int|
                    0 <= m < ready@.len() ==> old(self).group.slot_notified(
                        #[trigger] ready@[m] as int,
                    ),
                forall|s: int|
                    0 <= s < old(self).group.num_slots() && !ready@.contains(s as usize)
                        ==> self.group.slot_completed(s) == old(self).group.slot_completed(s),
            decreases num_ready - k,
        {
            let offset = ready[k];
            self.group.poll_notified_task(offset);
            k = k + 1;
        }
        let dropped = self.group.take_dropped_offsets();
        proof {
            assert forall|s: int|
                0 <= s < old(self).group.num_slots() && old(self).group.slot_dropped(
                    s,
                ) implies dropped@.contains(s as usize) by {}
            assert forall|m: int| 0 <= m < dropped@.len() implies old(self).group.slot_dropped(
                #[trigger] dropped@[m] as int,
            ) by {}
        }
        let num_dropped = dropped.len();
        let mut d: usize = 0;
        while d < num_dropped
            invariant
                old(self).wf(),
                self.group.wf(),
                d <= num_dropped,
                num_dropped == dropped@.len(),
                self.group.num_slots() == old(self).group.num_slots(),
                forall|m: int|
                    0 <= m < dropped@.len() ==> (#[trigger] dropped@[m] as int)
                        < self.group.num_slots(),
                forall|m1: int, m2: int|
                    0 <= m1 < m2 < dropped@.len() ==> dropped@[m1] < dropped@[m2],
                forall|s: int|
                    0 <= s < old(self).group.num_slots() && old(self).group.slot_dropped(s)
                        ==> dropped@.contains(s as usize),
                forall|m: int|
                    0 <= m < d ==> !self.group.occupied(#[trigger] dropped@[m] as int),
                self.group.issued_ids() == old(self).issued_ids(),
                self.group.last_id() == old(self).last_id(),
                forall|id: u64| #[trigger]
                    self.group.live_ids().contains_key(id) ==> old(self).live_ids().contains_key(
                        id,
                    ) && self.group.live_ids()[id] == old(self).live_ids()[id],
                forall|m: int|
                    0 <= m < dropped@.len() ==> old(self).group.slot_dropped(
                        #[trigger] dropped@[m] as int,
                    ),
                forall|m: int|
                    0 <= m < ready@.len() ==> old(self).group.slot_notified(
                        #[trigger] ready@[m] as int,
                    ),
                forall|s: int|
                    0 <= s < old(self).group.num_slots() && !ready@.contains(s as usize)
                        && !dropped@.contains(s as usize) ==> self.group.slot_completed(s) == old(self).group.slot_completed(s),
                forall|id: u64|
                    #[trigger] old(self).live_ids().contains_key(id) && !dropped@.contains(
                        old(self).live_ids()[id],
                    ) ==> self.group.live_ids().contains_key(id) && self.group.live_ids()[id]
                        == old(self).live_ids()[id],
            decreases num_dropped - d,
        {
            let offset = dropped[d];
            let ghost pre_group = self.group;
            self.group.remove_dropped_slot(offset);
            proof {
                assert forall|m: int|
                    0 <= m < d + 1 implies !self.group.occupied(
                    #[trigger] dropped@[m] as int,
                ) by {
                    if m < d {
                        assert(dropped@[m] != dropped@[d as int]);
                    }
                }
                assert forall|id: u64|
                    #[trigger] old(self).live_ids().contains_key(id) && !dropped@.contains(
                        old(self).live_ids()[id],
                    ) implies self.group.live_ids().contains_key(id)
                    && self.group.live_ids()[id] == old(self).live_ids()[id] by {
                    assert(pre_group.live_ids().contains_key(id));
                    assert(pre_group.live_ids()[id] == old(self).live_ids()[id]);
                    if pre_group.occupied(offset as int) {
                        let removed = pre_group.id_at(offset as int);
                        crate::group::lemma_wf_occupied_slot(pre_group, offset);
                        if removed == id {
                            assert(pre_group.live_ids()[id] == offset);
                            assert(dropped@[d as int] == offset);
                            assert(dropped@.contains(old(self).live_ids()[id]));
                        }
                    }
                }
            }
            d = d + 1;
        }
        proof {
            assert forall|id: u64|
                old(self).live_ids().contains_key(id) && !old(self).id_dropped(
                    id,
                ) implies self.group.live_ids().contains_key(id) && self.group.live_ids()[id]
                == old(self).live_ids()[id] by {
                let s = old(self).live_ids()[id] as int;
                crate::group::lemma_wf_live_slot(old(self).group, id);
                if dropped@.contains(s as usize) {
                    let m = choose|m: int| 0 <= m < dropped@.len() && dropped@[m] == s as usize;
                    assert(old(self).group.slot_dropped(s));
                }
            }
            assert forall|id: u64|
                old(self).live_ids().contains_key(id) && !old(self).id_notified(id) && !old(self).id_dropped(id) implies self.group.live_ids().contains_key(id)
                && self.group.live_ids()[id] == old(self).live_ids()[id] && self.group.slot_completed(
                old(self).live_ids()[id] as int,
            ) == old(self).group.slot_completed(old(self).live_ids()[id] as int) by {
                let s = old(self).live_ids()[id] as int;
                crate::group::lemma_wf_live_slot(old(self).group, id);
                if ready@.contains(s as usize) {
                    let m = choose|m: int| 0 <= m < ready@.len() && ready@[m] == s as usize;
                    assert(old(self).group.slot_notified(s));
                }
                if dropped@.contains(s as usize) {
                    let m = choose|m: int| 0 <= m < dropped@.len() && dropped@[m] == s as usize;
                    assert(old(self).group.slot_dropped(s));
                }
            }
            assert forall|id: u64|
                old(self).live_ids().contains_key(id) && old(self).id_dropped(
                    id,
                ) implies !self.group.live_ids().contains_key(id) by {
                if self.group.live_ids().contains_key(id) {
                    let s = old(self).live_ids()[id] as int;
                    crate::group::lemma_wf_live_slot(old(self).group, id);
                    crate::group::lemma_wf_live_slot(self.group, id);
                    assert(self.group.live_ids()[id] == old(self).live_ids()[id]);
                    assert(0 <= s < old(self).group.num_slots());
                    assert(old(self).group.slot_dropped(s));
                    assert(dropped@.contains(s as usize));
                    let m = choose|m: int| 0 <= m < dropped@.len() && dropped@[m] == s as usize;
                    assert(!self.group.occupied(s));
                    assert(self.group.occupied(s));
                }
            }
        }
    }
}

impl<T> Default for Scheduler<T> {
    /// A scheduler over an empty group, with an entropy-seeded id
    /// generator.
    fn default() -> (r: Self)
        ensures
            r.wf(),
            r.live_ids() == Map::<u64, usize>::empty(),
            r.issued_ids() == Set::<u64>::empty(),
            r.last_id() is None,
    {
        Scheduler { group: TaskGroup::new() }
    }
}

} // verus!
