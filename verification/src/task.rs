//! The task contract: a polymorphic unit of asynchronous work with a name
//! and a scheduler-assigned id, driven by repeated polls.

use vstd::prelude::*;

verus! {

/// Externally meaningful, stable handle of a task in a group.
#[derive(Clone, Copy, PartialEq, Eq, Structural, Debug, Hash)]
pub struct TaskId(pub u64);

/// What one poll of a task reports.
#[derive(Clone, Copy, PartialEq, Eq, Structural, Debug)]
pub enum TaskPoll {
    /// The task ran to completion.
    Ready,
    /// The task yielded and waits to be woken.
    Pending,
}

/// The context a task is polled with. A task wakes itself by calling
/// `wake`; the scheduler applies the request to the slot's notified bit
/// right after the poll, so a wake raised during a poll is never lost.
pub struct PollContext {
    woken: bool,
}

impl PollContext {
    /// Whether a wake was raised through this context.
    pub closed spec fn is_woken(&self) -> bool {
        self.woken
    }

    /// A fresh context with no wake raised.
    pub fn new() -> (r: Self)
        ensures
            !r.is_woken(),
    {
        PollContext { woken: false }
    }

    /// Raises a wake: the polled task asks to be polled again.
    pub fn wake(&mut self)
        ensures
            final(self).is_woken(),
    {
        self.woken = true;
    }

    /// Reads whether a wake was raised.
    pub fn woken(&self) -> (r: bool)
        ensures
            r == self.is_woken(),
    {
        self.woken
    }
}

/// A unit of asynchronous work. Implementations live outside the group:
/// `poll` drives the work one step and may raise a wake through the
/// context; the group assigns the id right after insertion through
/// `set_id`; the name serves diagnostics.
pub trait Task {
    /// Drives the task one step.
    fn poll(&mut self, ctx: &mut PollContext) -> TaskPoll;

    /// The task's human-readable name.
    fn get_name(&self) -> String;

    /// The id the scheduler assigned.
    fn get_id(&self) -> TaskId;

    /// Called by the scheduler right after insertion.
    fn set_id(&mut self, id: TaskId);
}

} // verus!
