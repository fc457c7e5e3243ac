//! Waker page: per-task notification, completion and cancellation bits,
//! packed one bit per slot into three word-sized masks.
//!
//! The scheduler keeps one page per 64 slots. A slot's notified bit says
//! that its task wants to be polled; the completed bit that its task has
//! returned ready; the dropped bit that the slot was externally cancelled.

use vstd::prelude::*;

use crate::bits::is_bit_set;
use crate::bits::lemma_clear_bit;
use crate::bits::lemma_no_bit_set_in_zero;
use crate::bits::lemma_set_bit;

verus! {

/// One page of waker bits, covering 64 consecutive slots.
#[derive(Clone, Copy, PartialEq, Eq, Structural, Debug)]
pub struct WakerPage {
    /// Mask of slots that want to be polled.
    pub notified: u64,
    /// Mask of slots whose task has returned ready.
    pub completed: u64,
    /// Mask of slots that were externally cancelled.
    pub dropped: u64,
}

impl WakerPage {
    /// A page with every bit clear.
    pub fn new() -> (r: Self)
        ensures
            r.notified == 0u64,
            r.completed == 0u64,
            r.dropped == 0u64,
    {
        WakerPage { notified: 0, completed: 0, dropped: 0 }
    }

    /// Prepares `offset` for a freshly inserted task: all three bits are
    /// cleared, then the notified bit is set, so the task is eligible for
    /// its first poll without anyone explicitly waking it.
    pub fn initialize(&mut self, offset: usize)
        requires
            offset < 64,
        ensures
            final(self).notified == old(self).notified | (1u64 << offset as u64),
            final(self).completed == old(self).completed & !(1u64 << offset as u64),
            final(self).dropped == old(self).dropped & !(1u64 << offset as u64),
    {
        let mask: u64 = 1u64 << (offset as u64);
        self.notified = self.notified | mask;
        self.completed = self.completed & !mask;
        self.dropped = self.dropped & !mask;
    }

    /// Sets the notified bit of `offset`: the slot's task wants a poll.
    pub fn wake(&mut self, offset: usize)
        requires
            offset < 64,
        ensures
            final(self).notified == old(self).notified | (1u64 << offset as u64),
            final(self).completed == old(self).completed,
            final(self).dropped == old(self).dropped,
    {
        self.notified = self.notified | (1u64 << (offset as u64));
    }

    /// Reads and clears the whole notified mask; the returned mask names
    /// the slots to poll in this tick.
    pub fn take_notified(&mut self) -> (r: u64)
        ensures
            r == old(self).notified,
            final(self).notified == 0u64,
            final(self).completed == old(self).completed,
            final(self).dropped == old(self).dropped,
    {
        let r = self.notified;
        self.notified = 0;
        r
    }

    /// Reads and clears the whole dropped mask.
    pub fn take_dropped(&mut self) -> (r: u64)
        ensures
            r == old(self).dropped,
            final(self).dropped == 0u64,
            final(self).notified == old(self).notified,
            final(self).completed == old(self).completed,
    {
        let r = self.dropped;
        self.dropped = 0;
        r
    }

    /// Records that the slot's task returned ready: the completed bit is
    /// set and the notified bit cleared.
    pub fn mark_completed(&mut self, offset: usize)
        requires
            offset < 64,
        ensures
            final(self).completed == old(self).completed | (1u64 << offset as u64),
            final(self).notified == old(self).notified & !(1u64 << offset as u64),
            final(self).dropped == old(self).dropped,
    {
        let mask: u64 = 1u64 << (offset as u64);
        self.completed = self.completed | mask;
        self.notified = self.notified & !mask;
    }

    /// Records that the slot was externally cancelled.
    pub fn mark_dropped(&mut self, offset: usize)
        requires
            offset < 64,
        ensures
            final(self).dropped == old(self).dropped | (1u64 << offset as u64),
            final(self).notified == old(self).notified,
            final(self).completed == old(self).completed,
    {
        self.dropped = self.dropped | (1u64 << (offset as u64));
    }

    /// Clears all three bits of `offset`.
    pub fn clear(&mut self, offset: usize)
        requires
            offset < 64,
        ensures
            final(self).notified == old(self).notified & !(1u64 << offset as u64),
            final(self).completed == old(self).completed & !(1u64 << offset as u64),
            final(self).dropped == old(self).dropped & !(1u64 << offset as u64),
    {
        let mask: u64 = !(1u64 << (offset as u64));
        self.notified = self.notified & mask;
        self.completed = self.completed & mask;
        self.dropped = self.dropped & mask;
    }

    /// Reads the completed bit of `offset`.
    pub fn has_completed(&self, offset: usize) -> (r: bool)
        requires
            offset < 64,
        ensures
            r == is_bit_set(self.completed, offset as u64),
    {
        self.completed & (1u64 << (offset as u64)) != 0
    }

    /// Reads the dropped bit of `offset`.
    pub fn was_dropped(&self, offset: usize) -> (r: bool)
        requires
            offset < 64,
        ensures
            r == is_bit_set(self.dropped, offset as u64),
    {
        self.dropped & (1u64 << (offset as u64)) != 0
    }
}

impl Default for WakerPage {
    /// A page with every bit clear.
    fn default() -> (r: Self)
        ensures
            r.notified == 0u64,
            r.completed == 0u64,
            r.dropped == 0u64,
    {
        WakerPage::new()
    }
}

/// Law: a wake delivered before `take_notified` is observed exactly once.
/// `n1` is the notified mask after `wake(offset)` ran on a page whose mask
/// was `n0`; `taken` is what `take_notified` then returned, leaving `n2` on
/// the page. The taken mask shows the slot, and the page no longer does, so
/// no later take observes the same wake again.
pub proof fn lemma_wake_observed_once(n0: u64, n1: u64, taken: u64, n2: u64, offset: u64)
    requires
        offset < 64,
        n1 == n0 | (1u64 << offset),
        taken == n1,
        n2 == 0u64,
    ensures
        is_bit_set(taken, offset),
        !is_bit_set(n2, offset),
{
    lemma_set_bit(n0, offset, offset);
    lemma_no_bit_set_in_zero(offset);
}

/// Law: `initialize` makes the slot eligible for a first poll and marks it
/// neither completed nor dropped, whatever the prior bits were.
pub proof fn lemma_initialize_sets_notified_only(
    p0: WakerPage,
    p1: WakerPage,
    offset: u64,
)
    requires
        offset < 64,
        p1.notified == p0.notified | (1u64 << offset),
        p1.completed == p0.completed & !(1u64 << offset),
        p1.dropped == p0.dropped & !(1u64 << offset),
    ensures
        is_bit_set(p1.notified, offset),
        !is_bit_set(p1.completed, offset),
        !is_bit_set(p1.dropped, offset),
{
    lemma_set_bit(p0.notified, offset, offset);
    lemma_clear_bit(p0.completed, offset, offset);
    lemma_clear_bit(p0.dropped, offset, offset);
}

} // verus!
