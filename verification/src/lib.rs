//! Core of a user-space I/O-queue library: a single-threaded cooperative
//! task scheduler built on a stable-index slab and bit-packed waker pages,
//! and a per-socket state machine with prepare/commit/abort semantics.

pub mod bits;
pub mod fail;
pub mod group;
pub mod id_map;
pub mod page;
pub mod pin_slab;
pub mod queue;
pub mod random;
pub mod scheduler;
pub mod socket;
pub mod task;
