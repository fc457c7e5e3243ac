use demikernel::group::SlotPoll;
use demikernel::group::TaskGroup;
use demikernel::task::PollContext;
use demikernel::task::Task;
use demikernel::task::TaskId;
use demikernel::task::TaskPoll;

/// A task that yields once, waking itself mid-poll, and completes on the
/// second poll.
struct WakeOnce {
    polled: bool,
    id: TaskId,
}

impl Task for WakeOnce {
    fn poll(&mut self, ctx: &mut PollContext) -> TaskPoll {
        if self.polled {
            TaskPoll::Ready
        } else {
            self.polled = true;
            ctx.wake();
            TaskPoll::Pending
        }
    }

    fn get_name(&self) -> String {
        String::from("wake-once")
    }

    fn get_id(&self) -> TaskId {
        self.id
    }

    fn set_id(&mut self, id: TaskId) {
        self.id = id;
    }
}

/// A wake raised during a poll is never lost: the pending poll reports
/// it, the slot's notified bit is set again, and the next scan of ready
/// slots returns the same slot, where the task then completes.
#[test]
fn test_mid_poll_wake_redelivered() {
    let mut group: TaskGroup<WakeOnce> = TaskGroup::with_seed(7);
    let id = group.insert(WakeOnce { polled: false, id: TaskId(0) }).expect("insert() failed");

    let ready = group.get_offsets_for_ready_tasks();
    assert_eq!(ready.len(), 1);
    let pr = group.poll_notified_task(ready[0]).expect("slot must be occupied");
    assert_eq!(pr, SlotPoll { completed: false, woken: true });
    assert_eq!(group.has_completed(id), Some(false));

    // The mid-poll wake was applied to the notified bit: the same slot
    // reappears in the next scan.
    let ready2 = group.get_offsets_for_ready_tasks();
    assert_eq!(ready2, ready);
    let pr2 = group.poll_notified_task(ready2[0]).expect("slot must be occupied");
    assert_eq!(pr2, SlotPoll { completed: true, woken: false });
    assert_eq!(group.has_completed(id), Some(true));
}

/// `wake` sets the notified bit of exactly the task's slot, from outside
/// any poll.
#[test]
fn test_group_wake_renotifies() {
    let mut group: TaskGroup<WakeOnce> = TaskGroup::with_seed(11);
    let id = group.insert(WakeOnce { polled: true, id: TaskId(0) }).expect("insert() failed");

    // Drain the initial notification without polling.
    let ready = group.get_offsets_for_ready_tasks();
    assert_eq!(ready.len(), 1);
    assert_eq!(group.get_offsets_for_ready_tasks().len(), 0);

    // An external wake makes the slot ready again.
    assert!(group.wake(id).is_some());
    let ready2 = group.get_offsets_for_ready_tasks();
    assert_eq!(ready2, ready);

    // Waking an unknown id reports the absent result.
    assert!(group.wake(TaskId(id.0.wrapping_add(1))).is_none());
}
