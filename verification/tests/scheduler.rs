use demikernel::scheduler::Scheduler;
use demikernel::task::PollContext;
use demikernel::task::Task;
use demikernel::task::TaskId;
use demikernel::task::TaskPoll;

/// A test task: completes immediately when its value is even; when odd,
/// it bumps the value, wakes itself, and completes on the next poll.
struct DummyCoroutine {
    val: usize,
    id: TaskId,
    name: String,
}

impl DummyCoroutine {
    fn new(val: usize) -> Self {
        DummyCoroutine { val, id: TaskId(0), name: String::from("testing") }
    }
}

impl Task for DummyCoroutine {
    fn poll(&mut self, ctx: &mut PollContext) -> TaskPoll {
        match self.val & 1 {
            0 => TaskPoll::Ready,
            _ => {
                self.val += 1;
                ctx.wake();
                TaskPoll::Pending
            },
        }
    }

    fn get_name(&self) -> String {
        self.name.clone()
    }

    fn get_id(&self) -> TaskId {
        self.id
    }

    fn set_id(&mut self, id: TaskId) {
        self.id = id;
    }
}

/// A task that records how often it was polled and never completes.
struct PollCounter {
    polls: usize,
    id: TaskId,
}

impl Task for PollCounter {
    fn poll(&mut self, _ctx: &mut PollContext) -> TaskPoll {
        self.polls += 1;
        TaskPoll::Pending
    }

    fn get_name(&self) -> String {
        String::from("counter")
    }

    fn get_id(&self) -> TaskId {
        self.id
    }

    fn set_id(&mut self, id: TaskId) {
        self.id = id;
    }
}

/// Inserting multiple tasks hands out ids that are not a simple counter.
#[test]
fn test_scheduler_insert() {
    let mut scheduler: Scheduler<DummyCoroutine> = Scheduler::default();

    // Insert a task and make sure the task id is not a simple counter.
    let task = DummyCoroutine::new(0);
    let handle = scheduler.insert(task).expect("insert() failed");
    let task_id: u64 = handle.0;

    // Insert another task and make sure the task id is not sequentially
    // after the previous one.
    let task2 = DummyCoroutine::new(0);
    let handle2 = scheduler.insert(task2).expect("insert() failed");
    let task_id2: u64 = handle2.0;
    assert_ne!(task_id2, task_id.wrapping_add(1));
}

#[test]
fn scheduler_poll_once() {
    let mut scheduler: Scheduler<DummyCoroutine> = Scheduler::default();

    // Insert a single future in the scheduler. This future shall complete
    // with a single poll operation.
    let task = DummyCoroutine::new(0);
    let handle = scheduler.insert(task).expect("insert() failed");

    // All futures are inserted in the scheduler with notification flag set.
    // By polling once, our future should complete.
    scheduler.poll();

    assert_eq!(scheduler.has_completed(handle), Some(true));
}

#[test]
fn scheduler_poll_twice() {
    let mut scheduler: Scheduler<DummyCoroutine> = Scheduler::default();

    // Insert a single future in the scheduler. This future shall complete
    // with two poll operations.
    let task = DummyCoroutine::new(1);
    let handle = scheduler.insert(task).expect("insert() failed");

    // All futures are inserted in the scheduler with notification flag set.
    // By polling once, this future should make a transition.
    scheduler.poll();

    assert_eq!(scheduler.has_completed(handle), Some(false));

    // This shall make the future ready.
    scheduler.poll();

    assert_eq!(scheduler.has_completed(handle), Some(true));
}

/// Consecutive tasks are not assigned the same task id.
#[test]
fn test_scheduler_task_ids() {
    let mut scheduler: Scheduler<DummyCoroutine> = Scheduler::default();

    // Create and run a task.
    let task = DummyCoroutine::new(0);
    let handle = scheduler.insert(task).expect("insert() failed");
    let task_id: u64 = handle.0;
    scheduler.poll();

    // Ensure that the first task has completed.
    assert_eq!(scheduler.has_completed(handle), Some(true));

    // Create another task.
    let task2 = DummyCoroutine::new(0);
    let handle2 = scheduler.insert(task2).expect("insert() failed");
    let task_id2: u64 = handle2.0;

    // Ensure that the second task has a unique id.
    assert_ne!(task_id2, task_id);
}

/// Ids stay unique over any sequence of insertions and removals, and a
/// task stays retrievable by its id until removed.
#[test]
fn test_ids_unique_across_removals() {
    let mut scheduler: Scheduler<DummyCoroutine> = Scheduler::default();
    let mut seen: Vec<u64> = Vec::new();
    let mut live: Vec<TaskId> = Vec::new();

    for round in 0..8 {
        for v in 0..16usize {
            let id = scheduler.insert(DummyCoroutine::new(v)).expect("insert() failed");
            assert!(!seen.contains(&id.0), "id issued twice");
            seen.push(id.0);
            live.push(id);
        }
        // Every live task is retrievable by its id.
        for id in &live {
            assert_eq!(scheduler.from_raw_handle(id.0), Some(*id));
        }
        // Remove half of the live tasks.
        if round % 2 == 0 {
            for _ in 0..8 {
                let id = live.remove(0);
                assert!(scheduler.take(id).is_some());
                assert_eq!(scheduler.from_raw_handle(id.0), None);
            }
        }
    }
}

/// A task inserted and never woken by anyone else is polled at least
/// once: insertion sets the initial notification.
#[test]
fn test_inserted_task_polled_once() {
    let mut scheduler: Scheduler<PollCounter> = Scheduler::default();
    let id = scheduler.insert(PollCounter { polls: 0, id: TaskId(0) }).expect("insert() failed");
    scheduler.poll();
    let task = scheduler.take(id).expect("task should be retrievable");
    assert_eq!(task.polls, 1);
}

/// A task that yields without waking itself is not polled again until
/// someone wakes it.
#[test]
fn test_unwoken_task_not_repolled() {
    let mut scheduler: Scheduler<PollCounter> = Scheduler::default();
    let id = scheduler.insert(PollCounter { polls: 0, id: TaskId(0) }).expect("insert() failed");
    scheduler.poll();
    scheduler.poll();
    scheduler.poll();
    let task = scheduler.take(id).expect("task should be retrievable");
    assert_eq!(task.polls, 1);
}

/// A cancelled task is torn down by the next tick.
#[test]
fn test_mark_dropped_removes_task() {
    let mut scheduler: Scheduler<DummyCoroutine> = Scheduler::default();
    let id = scheduler.insert(DummyCoroutine::new(0)).expect("insert() failed");
    assert!(scheduler.mark_dropped(id).is_some());
    scheduler.poll();
    assert_eq!(scheduler.has_completed(id), None);
    assert!(scheduler.take(id).is_none());
}

/// Scheduler fairness: 1024 tasks, half ready on the first poll and half
/// pending-then-ready, are all completed after two ticks.
#[test]
fn test_scheduler_fairness() {
    let mut scheduler: Scheduler<DummyCoroutine> = Scheduler::default();
    let mut handles: Vec<TaskId> = Vec::with_capacity(1024);

    for val in 0..1024usize {
        let handle = scheduler.insert(DummyCoroutine::new(val)).expect("insert() failed");
        handles.push(handle);
    }

    scheduler.poll();
    scheduler.poll();

    for handle in &handles {
        assert_eq!(scheduler.has_completed(*handle), Some(true));
    }
}

/// An empty scheduler ticks without effect, and unknown ids yield an
/// absent result rather than an error.
#[test]
fn test_empty_scheduler() {
    let mut scheduler: Scheduler<DummyCoroutine> = Scheduler::default();
    scheduler.poll();
    assert_eq!(scheduler.has_completed(TaskId(42)), None);
    assert!(scheduler.take(TaskId(42)).is_none());
    assert_eq!(scheduler.from_raw_handle(42), None);
    assert!(scheduler.mark_dropped(TaskId(42)).is_none());
}

/// An external wake between ticks makes the task polled again in the
/// next tick.
#[test]
fn test_external_wake_repolls_task() {
    let mut scheduler: Scheduler<PollCounter> = Scheduler::default();
    let id = scheduler.insert(PollCounter { polls: 0, id: TaskId(0) }).expect("insert() failed");
    scheduler.poll();
    scheduler.poll();
    assert!(scheduler.wake(id).is_some());
    scheduler.poll();
    let task = scheduler.take(id).expect("task should be retrievable");
    assert_eq!(task.polls, 2);
}
