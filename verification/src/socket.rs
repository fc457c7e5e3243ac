//! Socket state machine: legal transitions among the socket lifecycle
//! states, applied through a three-phase prepare/commit/abort protocol so
//! that a multi-step socket operation is atomic from the caller's view.

use crate::fail::Fail;
use crate::fail::EBADF;
use crate::fail::EINPROGRESS;
use crate::fail::EINVAL;
use crate::fail::EOPNOTSUPP;
use vstd::prelude::*;

verus! {

/// The lifecycle states of a socket.
#[derive(Clone, Copy, PartialEq, Eq, Structural, Debug)]
pub enum SocketState {
    /// Freshly created, no local address.
    Unbound,
    /// Bound to a local address.
    Bound,
    /// Passively waiting for incoming connections.
    Listening,
    /// A connect is in flight.
    Connecting,
    /// Connected to a peer.
    Connected,
    /// A close is in flight.
    Closing,
    /// Terminal: the socket is gone.
    Closed,
}

/// The operations a caller can prepare on a socket.
#[derive(Clone, Copy, PartialEq, Eq, Structural, Debug)]
pub enum SocketOp {
    /// Assign a local address.
    Bind,
    /// Start listening for incoming connections.
    Listen,
    /// Start connecting to a peer.
    Connect,
    /// A connect in flight succeeded.
    Established,
    /// Start closing.
    Close,
    /// A close (or a failed connect) finished.
    Closed,
}

/// Whether `op` may be prepared from state `s`.
pub open spec fn allows(s: SocketState, op: SocketOp) -> bool {
    match s {
        SocketState::Unbound => op == SocketOp::Bind || op == SocketOp::Connect || op
            == SocketOp::Close,
        SocketState::Bound => op == SocketOp::Listen || op == SocketOp::Connect || op
            == SocketOp::Close,
        SocketState::Listening => op == SocketOp::Close,
        SocketState::Connecting => op == SocketOp::Established || op == SocketOp::Closed || op
            == SocketOp::Close,
        SocketState::Connected => op == SocketOp::Close,
        SocketState::Closing => op == SocketOp::Closed,
        SocketState::Closed => false,
    }
}

/// The state a committed `op` moves the socket to.
pub open spec fn apply(s: SocketState, op: SocketOp) -> SocketState {
    match op {
        SocketOp::Bind => SocketState::Bound,
        SocketOp::Listen => SocketState::Listening,
        SocketOp::Connect => SocketState::Connecting,
        SocketOp::Established => SocketState::Connected,
        SocketOp::Close => SocketState::Closing,
        SocketOp::Closed => SocketState::Closed,
    }
}

/// The errno with which `prepare(op)` is rejected in state `s`: `EBADF`
/// on a closed or closing socket, `EOPNOTSUPP` for connect on a listening
/// socket, `EINPROGRESS` for connect on a connecting socket, `EINVAL` for
/// every other illegal transition.
pub open spec fn reject_errno(s: SocketState, op: SocketOp) -> i32 {
    if s == SocketState::Closed || s == SocketState::Closing {
        EBADF
    } else if s == SocketState::Listening && op == SocketOp::Connect {
        EOPNOTSUPP
    } else if s == SocketState::Connecting && op == SocketOp::Connect {
        EINPROGRESS
    } else {
        EINVAL
    }
}

/// The state machine: the current state, and the operation prepared but
/// not yet committed, if any.
pub struct SocketStateMachine {
    current: SocketState,
    pending: Option<SocketOp>,
}

impl SocketStateMachine {
    /// The current state.
    pub closed spec fn current_state(&self) -> SocketState {
        self.current
    }

    /// The prepared, uncommitted operation.
    pub closed spec fn pending_op(&self) -> Option<SocketOp> {
        self.pending
    }

    /// A machine for a freshly created socket.
    pub fn new_unbound() -> (r: Self)
        ensures
            r.current_state() == SocketState::Unbound,
            r.pending_op() is None,
    {
        SocketStateMachine { current: SocketState::Unbound, pending: None }
    }

    /// A machine for a socket born connected (the result of an accept).
    pub fn new_established() -> (r: Self)
        ensures
            r.current_state() == SocketState::Connected,
            r.pending_op() is None,
    {
        SocketStateMachine { current: SocketState::Connected, pending: None }
    }

    /// Reads the current state.
    pub fn state(&self) -> (r: SocketState)
        ensures
            r == self.current_state(),
    {
        self.current
    }

    /// Validates that `op` is legal from the current state and records it
    /// as pending; rejects it with the mapped errno otherwise, leaving
    /// the machine unchanged.
    pub fn prepare(&mut self, op: SocketOp) -> (r: Result<(), Fail>)
        ensures
            allows(old(self).current_state(), op) <==> r is Ok,
            r is Ok ==> final(self).current_state() == old(self).current_state() && final(self).pending_op() == Some(op),
            r matches Err(e) ==> e.errno == reject_errno(old(self).current_state(), op) && final(self).current_state() == old(self).current_state() && final(self).pending_op() == old(self).pending_op(),
    {
        let s = self.current;
        let legal = match s {
            SocketState::Unbound => matches!(op, SocketOp::Bind | SocketOp::Connect | SocketOp::Close),
            SocketState::Bound => matches!(op, SocketOp::Listen | SocketOp::Connect | SocketOp::Close),
            SocketState::Listening => matches!(op, SocketOp::Close),
            SocketState::Connecting => matches!(op, SocketOp::Established | SocketOp::Closed | SocketOp::Close),
            SocketState::Connected => matches!(op, SocketOp::Close),
            SocketState::Closing => matches!(op, SocketOp::Closed),
            SocketState::Closed => false,
        };
        if legal {
            self.pending = Some(op);
            Ok(())
        } else {
            Err(Fail::new(self.reject_errno_for(op), "illegal socket-state transition"))
        }
    }

    /// The errno with which `op` would be rejected now.
    fn reject_errno_for(&self, op: SocketOp) -> (r: i32)
        ensures
            r == reject_errno(self.current_state(), op),
    {
        match self.current {
            SocketState::Closed | SocketState::Closing => EBADF,
            SocketState::Listening => if matches!(op, SocketOp::Connect) {
                EOPNOTSUPP
            } else {
                EINVAL
            },
            SocketState::Connecting => if matches!(op, SocketOp::Connect) {
                EINPROGRESS
            } else {
                EINVAL
            },
            _ => EINVAL,
        }
    }

    /// Applies the pending transition, if any, and clears it.
    pub fn commit(&mut self)
        ensures
            final(self).current_state() == (match old(self).pending_op() {
                Some(op) => apply(old(self).current_state(), op),
                None => old(self).current_state(),
            }),
            final(self).pending_op() is None,
    {
        if let Some(op) = self.pending {
            self.current = match op {
                SocketOp::Bind => SocketState::Bound,
                SocketOp::Listen => SocketState::Listening,
                SocketOp::Connect => SocketState::Connecting,
                SocketOp::Established => SocketState::Connected,
                SocketOp::Close => SocketState::Closing,
                SocketOp::Closed => SocketState::Closed,
            };
        }
        self.pending = None;
    }

    /// Discards the pending transition; the state is unchanged.
    pub fn abort(&mut self)
        ensures
            final(self).current_state() == old(self).current_state(),
            final(self).pending_op() is None,
    {
        self.pending = None;
    }

    /// Cheap read-only check used inside asynchronous accept paths:
    /// accepting is possible exactly on a listening socket.
    pub fn may_accept(&self) -> (r: Result<(), Fail>)
        ensures
            r is Ok <==> self.current_state() == SocketState::Listening,
            r matches Err(e) ==> e.errno == (if self.current_state() == SocketState::Closed
                || self.current_state() == SocketState::Closing {
                EBADF
            } else {
                EINVAL
            }),
    {
        match self.current {
            SocketState::Listening => Ok(()),
            SocketState::Closed | SocketState::Closing => Err(
                Fail::new(EBADF, "socket is closed"),
            ),
            _ => Err(Fail::new(EINVAL, "socket is not listening")),
        }
    }

    /// Cheap read-only check used inside asynchronous connect paths: the
    /// socket must be unbound, bound, or already carrying the connect in
    /// flight.
    pub fn may_connect(&self) -> (r: Result<(), Fail>)
        ensures
            r is Ok <==> (self.current_state() == SocketState::Unbound || self.current_state()
                == SocketState::Bound || self.current_state() == SocketState::Connecting),
            r matches Err(e) ==> e.errno == (if self.current_state() == SocketState::Closed
                || self.current_state() == SocketState::Closing {
                EBADF
            } else if self.current_state() == SocketState::Listening {
                EOPNOTSUPP
            } else {
                EINVAL
            }),
    {
        match self.current {
            SocketState::Unbound | SocketState::Bound | SocketState::Connecting => Ok(()),
            SocketState::Closed | SocketState::Closing => Err(
                Fail::new(EBADF, "socket is closed"),
            ),
            SocketState::Listening => Err(Fail::new(EOPNOTSUPP, "socket is listening")),
            _ => Err(Fail::new(EINVAL, "socket cannot connect")),
        }
    }

    /// Cheap read-only check used inside asynchronous push paths: pushing
    /// needs a connected socket.
    pub fn may_push(&self) -> (r: Result<(), Fail>)
        ensures
            r is Ok <==> self.current_state() == SocketState::Connected,
            r matches Err(e) ==> e.errno == (if self.current_state() == SocketState::Closed
                || self.current_state() == SocketState::Closing {
                EBADF
            } else {
                EINVAL
            }),
    {
        match self.current {
            SocketState::Connected => Ok(()),
            SocketState::Closed | SocketState::Closing => Err(
                Fail::new(EBADF, "socket is closed"),
            ),
            _ => Err(Fail::new(EINVAL, "socket is not connected")),
        }
    }

    /// Cheap read-only check used inside asynchronous pop paths: popping
    /// needs a connected socket.
    pub fn may_pop(&self) -> (r: Result<(), Fail>)
        ensures
            r is Ok <==> self.current_state() == SocketState::Connected,
            r matches Err(e) ==> e.errno == (if self.current_state() == SocketState::Closed
                || self.current_state() == SocketState::Closing {
                EBADF
            } else {
                EINVAL
            }),
    {
        match self.current {
            SocketState::Connected => Ok(()),
            SocketState::Closed | SocketState::Closing => Err(
                Fail::new(EBADF, "socket is closed"),
            ),
            _ => Err(Fail::new(EINVAL, "socket is not connected")),
        }
    }
}

/// Law: an operation that is not allowed in a state is rejected with a
/// precondition-violation errno — `EBADF`, `EINVAL`, `EOPNOTSUPP` or
/// `EINPROGRESS` — and `prepare` then leaves both the state and the
/// pending operation unchanged (its contract).
pub proof fn lemma_illegal_op_rejected(s: SocketState, op: SocketOp)
    requires
        !allows(s, op),
    ensures
        reject_errno(s, op) == EBADF || reject_errno(s, op) == EINVAL || reject_errno(s, op)
            == EOPNOTSUPP || reject_errno(s, op) == EINPROGRESS,
{
}

/// Law: `prepare` followed by `abort` is a no-op on the machine. `m0` is
/// the machine before `prepare(op)` with no transition pending, `m1` the
/// machine after it (whether the prepare succeeded or not), and `m2` the
/// machine after `abort`.
pub proof fn lemma_prepare_abort_noop(
    m0: SocketStateMachine,
    m1: SocketStateMachine,
    m2: SocketStateMachine,
    op: SocketOp,
)
    requires
        m0.pending_op() is None,
        m1.current_state() == m0.current_state(),
        m1.pending_op() == Some(op) || m1.pending_op() == m0.pending_op(),
        m2.current_state() == m1.current_state(),
        m2.pending_op() is None,
    ensures
        m2 == m0,
{
}

/// Law: `prepare(op)` followed by `commit` leaves the machine in the
/// canonical post-`op` state, with nothing pending. `m0` is the machine
/// before a successful `prepare(op)`, `m1` the machine after it, and `m2`
/// the machine after `commit`.
pub proof fn lemma_prepare_commit_applies(
    m0: SocketStateMachine,
    m1: SocketStateMachine,
    m2: SocketStateMachine,
    op: SocketOp,
)
    requires
        allows(m0.current_state(), op),
        m1.current_state() == m0.current_state(),
        m1.pending_op() == Some(op),
        m2.current_state() == (match m1.pending_op() {
            Some(p) => apply(m1.current_state(), p),
            None => m1.current_state(),
        }),
        m2.pending_op() is None,
    ensures
        m2.current_state() == apply(m0.current_state(), op),
        m2.pending_op() is None,
{
}

} // verus!
