//! Network queue: a single-socket façade that validates every operation
//! against the socket state machine, invokes the transport, and spawns
//! per-operation coroutines through a caller-supplied constructor.
//!
//! Operations whose transport call may suspend are split in two verified
//! halves: a `..._begin` function makes the read-only check before the
//! call, and the function named after the coroutine takes the transport's
//! outcome and applies the state transition it calls for. The caller (the
//! coroutine body) runs the transport call between the two.

use crate::fail::Fail;
use crate::fail::EBADF;
use crate::socket::allows;
use crate::socket::apply;
use crate::socket::reject_errno;
use crate::socket::SocketOp;
use crate::socket::SocketState;
use crate::socket::SocketStateMachine;
use crate::task::TaskId;
use vstd::prelude::*;

verus! {

/// The handle the scheduler returns for a spawned operation; equal to
/// the task id.
pub type QToken = TaskId;

/// The address family a socket is created in.
#[derive(Clone, Copy, PartialEq, Eq, Structural, Debug)]
pub enum SocketDomain {
    /// IPv4.
    Ipv4,
    /// IPv6.
    Ipv6,
}

/// The kind of socket a queue drives.
#[derive(Clone, Copy, PartialEq, Eq, Structural, Debug)]
pub enum SocketType {
    /// Connection-oriented byte stream.
    Stream,
    /// Connectionless datagrams.
    Dgram,
}

/// The queue type tag derived from the socket type.
#[derive(Clone, Copy, PartialEq, Eq, Structural, Debug)]
pub enum QType {
    /// A TCP socket queue.
    TcpSocket,
    /// A UDP socket queue.
    UdpSocket,
}

/// An IPv4 endpoint: address and port, as plain values.
#[derive(Clone, Copy, PartialEq, Eq, Structural, Debug, Hash)]
pub struct Ipv4Endpoint {
    /// The address, in host byte order.
    pub ip: u32,
    /// The port.
    pub port: u16,
}

/// The queue type for a socket type.
pub open spec fn qtype_of(typ: SocketType) -> QType {
    match typ {
        SocketType::Stream => QType::TcpSocket,
        SocketType::Dgram => QType::UdpSocket,
    }
}

/// The abstract transport a queue drives its socket through. The core
/// promises nothing of these calls: every queue contract states what
/// holds for each possible outcome. Calls that may suspend (accept,
/// connect, push, pop, close) are not here; their outcomes are handed to
/// the queue's coroutine functions instead.
pub trait NetworkTransport: Sized + Clone {
    /// The transport-opaque socket descriptor.
    type SocketDescriptor;

    /// Allocates a socket descriptor.
    fn socket(&mut self, domain: SocketDomain, typ: SocketType) -> Result<
        Self::SocketDescriptor,
        Fail,
    >;

    /// Binds the socket to a local address.
    fn bind(&mut self, sd: &mut Self::SocketDescriptor, local: Ipv4Endpoint) -> Result<(), Fail>;

    /// Makes the socket eligible for accept.
    fn listen(&mut self, sd: &mut Self::SocketDescriptor, backlog: usize) -> Result<(), Fail>;

    /// Tears the socket down synchronously.
    fn hard_close(&mut self, sd: &mut Self::SocketDescriptor) -> Result<(), Fail>;
}

/// Default cap for a pop when the caller names no size.
pub const RECVBUF_SIZE_MAX: usize = 9216;

/// A single network-connected queue: the exclusive owner of one socket
/// descriptor, guarded by the socket state machine.
pub struct NetworkQueue<T: NetworkTransport> {
    qtype: QType,
    state_machine: SocketStateMachine,
    socket: T::SocketDescriptor,
    local: Option<Ipv4Endpoint>,
    remote: Option<Ipv4Endpoint>,
    transport: T,
}

impl<T: NetworkTransport> NetworkQueue<T> {
    /// The current socket state.
    pub closed spec fn current_state(&self) -> SocketState {
        self.state_machine.current_state()
    }

    /// The local address, once bound.
    pub closed spec fn local_endpoint(&self) -> Option<Ipv4Endpoint> {
        self.local
    }

    /// The remote address, once connected.
    pub closed spec fn remote_endpoint(&self) -> Option<Ipv4Endpoint> {
        self.remote
    }

    /// The queue type tag.
    pub closed spec fn queue_type(&self) -> QType {
        self.qtype
    }

    /// Between operations no transition is pending: every operation
    /// either commits or aborts what it prepared.
    pub closed spec fn wf(&self) -> bool {
        self.state_machine.pending_op() is None
    }

    /// Creates an unbound queue over a fresh socket descriptor from the
    /// transport. Fails only if the transport's socket call fails, and
    /// hands that error through.
    pub fn new(domain: SocketDomain, typ: SocketType, transport: &mut T) -> (r: Result<Self, Fail>)
        ensures
            r matches Ok(q) ==> q.wf() && q.current_state() == SocketState::Unbound
                && q.local_endpoint() is None && q.remote_endpoint() is None && q.queue_type()
                == qtype_of(typ),
    {
        let qtype = match typ {
            SocketType::Stream => QType::TcpSocket,
            SocketType::Dgram => QType::UdpSocket,
        };
        let socket = match transport.socket(domain, typ) {
            Ok(sd) => sd,
            Err(e) => {
                return Err(e);
            },
        };
        Ok(
            NetworkQueue {
                qtype,
                state_machine: SocketStateMachine::new_unbound(),
                socket,
                local: None,
                remote: None,
                transport: transport.clone(),
            },
        )
    }

    /// Binds the queue to `local`: prepares the transition, calls the
    /// transport, and commits on success (recording the address) or
    /// aborts on failure, leaving the queue unchanged.
    pub fn bind(&mut self, local: Ipv4Endpoint) -> (r: Result<(), Fail>)
        requires
            old(self).wf(),
        ensures
            final(self).wf(),
            final(self).queue_type() == old(self).queue_type(),
            final(self).remote_endpoint() == old(self).remote_endpoint(),
            !allows(old(self).current_state(), SocketOp::Bind) ==> (r matches Err(e) && e.errno
                == reject_errno(old(self).current_state(), SocketOp::Bind)) && final(self).current_state() == old(self).current_state() && final(self).local_endpoint() == old(self).local_endpoint(),
            allows(old(self).current_state(), SocketOp::Bind) ==> (r is Ok ==> final(self).current_state() == SocketState::Bound && final(self).local_endpoint() == Some(
                local,
            )) && (r is Err ==> final(self).current_state() == old(self).current_state() && final(self).local_endpoint() == old(self).local_endpoint()),
    {
        match self.state_machine.prepare(SocketOp::Bind) {
            Ok(()) => (),
            Err(e) => {
                return Err(e);
            },
        };
        match self.transport.bind(&mut self.socket, local) {
            Ok(()) => {
                self.local = Some(local);
                self.state_machine.commit();
                Ok(())
            },
            Err(e) => {
                self.state_machine.abort();
                Err(e)
            },
        }
    }

    /// Sets the queue to listen: prepares the transition, calls the
    /// transport, and commits or aborts.
    pub fn listen(&mut self, backlog: usize) -> (r: Result<(), Fail>)
        requires
            old(self).wf(),
        ensures
            final(self).wf(),
            final(self).queue_type() == old(self).queue_type(),
            final(self).local_endpoint() == old(self).local_endpoint(),
            final(self).remote_endpoint() == old(self).remote_endpoint(),
            !allows(old(self).current_state(), SocketOp::Listen) ==> (r matches Err(e) && e.errno
                == reject_errno(old(self).current_state(), SocketOp::Listen)) && final(self).current_state() == old(self).current_state(),
            allows(old(self).current_state(), SocketOp::Listen) ==> (r is Ok ==> final(self).current_state() == SocketState::Listening) && (r is Err ==> final(self).current_state() == old(self).current_state()),
    {
        match self.state_machine.prepare(SocketOp::Listen) {
            Ok(()) => (),
            Err(e) => {
                return Err(e);
            },
        };
        match self.transport.listen(&mut self.socket, backlog) {
            Ok(()) => {
                self.state_machine.commit();
                Ok(())
            },
            Err(e) => {
                self.state_machine.abort();
                Err(e)
            },
        }
    }

    /// Spawns the caller-built accept coroutine, provided the queue is
    /// listening. Accept prepares no transition: the queue is unchanged
    /// whatever the constructor returns.
    pub fn accept<F: FnOnce() -> Result<QToken, Fail>>(&mut self, coroutine_constructor: F) -> (r:
        Result<QToken, Fail>)
        requires
            old(self).wf(),
            call_requires(coroutine_constructor, ()),
        ensures
            final(self).wf(),
            final(self).current_state() == old(self).current_state(),
            final(self).queue_type() == old(self).queue_type(),
            final(self).local_endpoint() == old(self).local_endpoint(),
            final(self).remote_endpoint() == old(self).remote_endpoint(),
            old(self).current_state() != SocketState::Listening ==> (r matches Err(e) && e.errno
                == (if old(self).current_state() == SocketState::Closed || old(self).current_state() == SocketState::Closing {
                EBADF
            } else {
                crate::fail::EINVAL
            })),
            old(self).current_state() == SocketState::Listening ==> call_ensures(
                coroutine_constructor,
                (),
                r,
            ),
    {
        match self.state_machine.may_accept() {
            Ok(()) => (),
            Err(e) => {
                return Err(e);
            },
        };
        self.do_generic_sync_control_path_call(coroutine_constructor)
    }

    /// Spawns the caller-built connect coroutine: prepares the connect
    /// transition, and commits it exactly when the constructor succeeds.
    pub fn connect<F: FnOnce() -> Result<QToken, Fail>>(&mut self, coroutine_constructor: F) -> (r:
        Result<QToken, Fail>)
        requires
            old(self).wf(),
            call_requires(coroutine_constructor, ()),
        ensures
            final(self).wf(),
            final(self).queue_type() == old(self).queue_type(),
            final(self).local_endpoint() == old(self).local_endpoint(),
            final(self).remote_endpoint() == old(self).remote_endpoint(),
            !allows(old(self).current_state(), SocketOp::Connect) ==> (r matches Err(e) && e.errno
                == reject_errno(old(self).current_state(), SocketOp::Connect)) && final(self).current_state() == old(self).current_state(),
            allows(old(self).current_state(), SocketOp::Connect) ==> call_ensures(
                coroutine_constructor,
                (),
                r,
            ) && (r is Ok ==> final(self).current_state() == SocketState::Connecting) && (r
                is Err ==> final(self).current_state() == old(self).current_state()),
    {
        match self.state_machine.prepare(SocketOp::Connect) {
            Ok(()) => (),
            Err(e) => {
                return Err(e);
            },
        };
        self.do_generic_sync_control_path_call(coroutine_constructor)
    }

    /// Spawns the caller-built close coroutine: prepares the close
    /// transition, and commits it exactly when the constructor succeeds.
    pub fn close<F: FnOnce() -> Result<QToken, Fail>>(&mut self, coroutine_constructor: F) -> (r:
        Result<QToken, Fail>)
        requires
            old(self).wf(),
            call_requires(coroutine_constructor, ()),
        ensures
            final(self).wf(),
            final(self).queue_type() == old(self).queue_type(),
            final(self).local_endpoint() == old(self).local_endpoint(),
            final(self).remote_endpoint() == old(self).remote_endpoint(),
            !allows(old(self).current_state(), SocketOp::Close) ==> (r matches Err(e) && e.errno
                == reject_errno(old(self).current_state(), SocketOp::Close)) && final(self).current_state() == old(self).current_state(),
            allows(old(self).current_state(), SocketOp::Close) ==> call_ensures(
                coroutine_constructor,
                (),
                r,
            ) && (r is Ok ==> final(self).current_state() == SocketState::Closing) && (r
                is Err ==> final(self).current_state() == old(self).current_state()),
    {
        match self.state_machine.prepare(SocketOp::Close) {
            Ok(()) => (),
            Err(e) => {
                return Err(e);
            },
        };
        self.do_generic_sync_control_path_call(coroutine_constructor)
    }

    /// Spawns the caller-built push coroutine, provided the queue is
    /// connected. Push prepares no transition.
    pub fn push<F: FnOnce() -> Result<QToken, Fail>>(&mut self, coroutine_constructor: F) -> (r:
        Result<QToken, Fail>)
        requires
            old(self).wf(),
            call_requires(coroutine_constructor, ()),
        ensures
            final(self).wf(),
            *final(self) == *old(self),
            old(self).current_state() != SocketState::Connected ==> (r matches Err(e) && e.errno
                == (if old(self).current_state() == SocketState::Closed || old(self).current_state() == SocketState::Closing {
                EBADF
            } else {
                crate::fail::EINVAL
            })),
            old(self).current_state() == SocketState::Connected ==> call_ensures(
                coroutine_constructor,
                (),
                r,
            ),
    {
        match self.state_machine.may_push() {
            Ok(()) => (),
            Err(e) => {
                return Err(e);
            },
        };
        coroutine_constructor()
    }

    /// Spawns the caller-built pop coroutine, provided the queue is
    /// connected. Pop prepares no transition.
    pub fn pop<F: FnOnce() -> Result<QToken, Fail>>(&mut self, coroutine_constructor: F) -> (r:
        Result<QToken, Fail>)
        requires
            old(self).wf(),
            call_requires(coroutine_constructor, ()),
        ensures
            final(self).wf(),
            *final(self) == *old(self),
            old(self).current_state() != SocketState::Connected ==> (r matches Err(e) && e.errno
                == (if old(self).current_state() == SocketState::Closed || old(self).current_state() == SocketState::Closing {
                EBADF
            } else {
                crate::fail::EINVAL
            })),
            old(self).current_state() == SocketState::Connected ==> call_ensures(
                coroutine_constructor,
                (),
                r,
            ),
    {
        match self.state_machine.may_pop() {
            Ok(()) => (),
            Err(e) => {
                return Err(e);
            },
        };
        coroutine_constructor()
    }

    /// Synchronous teardown: commits the close, calls the transport's
    /// hard close, and on success commits the closed state.
    pub fn hard_close(&mut self) -> (r: Result<(), Fail>)
        requires
            old(self).wf(),
        ensures
            final(self).wf(),
            final(self).queue_type() == old(self).queue_type(),
            final(self).local_endpoint() == old(self).local_endpoint(),
            final(self).remote_endpoint() == old(self).remote_endpoint(),
            !allows(old(self).current_state(), SocketOp::Close) ==> (r matches Err(e) && e.errno
                == reject_errno(old(self).current_state(), SocketOp::Close)) && final(self).current_state() == old(self).current_state(),
            allows(old(self).current_state(), SocketOp::Close) ==> (r is Ok ==> final(self).current_state() == SocketState::Closed) && (r is Err ==> final(self).current_state() == SocketState::Closing),
    {
        match self.state_machine.prepare(SocketOp::Close) {
            Ok(()) => (),
            Err(e) => {
                return Err(e);
            },
        };
        self.state_machine.commit();
        match self.transport.hard_close(&mut self.socket) {
            Ok(()) => {
                match self.state_machine.prepare(SocketOp::Closed) {
                    Ok(()) => (),
                    Err(e) => {
                        return Err(e);
                    },
                };
                self.state_machine.commit();
                Ok(())
            },
            Err(e) => Err(e),
        }
    }

    /// The read-only check an accept coroutine makes before it calls the
    /// transport: the queue must still be listening.
    pub fn accept_coroutine_begin(&self) -> (r: Result<(), Fail>)
        ensures
            r is Ok <==> self.current_state() == SocketState::Listening,
            r matches Err(e) ==> e.errno == (if self.current_state() == SocketState::Closed
                || self.current_state() == SocketState::Closing {
                EBADF
            } else {
                crate::fail::EINVAL
            }),
    {
        self.state_machine.may_accept()
    }

    /// The tail of the accept coroutine: takes what the transport's
    /// accept returned. On success, builds the accepted queue: same queue
    /// type and transport, the fresh descriptor, no local address, the
    /// peer as remote, born connected. A transport error passes through
    /// with its errno (a closed socket keeps `EBADF`).
    pub fn accept_coroutine(&self, result: Result<(T::SocketDescriptor, Ipv4Endpoint), Fail>) -> (r:
        Result<Self, Fail>)
        ensures
            match result {
                Ok(pair) => r matches Ok(q) && q.wf() && q.current_state()
                    == SocketState::Connected && q.queue_type() == self.queue_type()
                    && q.local_endpoint() is None && q.remote_endpoint() == Some(pair.1),
                Err(e) => r matches Err(e2) && e2.errno == e.errno,
            },
    {
        match result {
            Ok((new_socket, saddr)) => Ok(
                NetworkQueue {
                    qtype: self.qtype,
                    state_machine: SocketStateMachine::new_established(),
                    socket: new_socket,
                    local: None,
                    remote: Some(saddr),
                    transport: self.transport.clone(),
                },
            ),
            Err(e) => {
                if e.errno == EBADF {
                    // The socket was closed while the accept was in flight.
                    Err(Fail::new(EBADF, "socket was closed"))
                } else {
                    Err(e)
                }
            },
        }
    }

    /// The read-only check a connect coroutine makes before it calls the
    /// transport: the queue must be unbound, bound, or carrying this
    /// connect.
    pub fn connect_coroutine_begin(&self) -> (r: Result<(), Fail>)
        ensures
            r is Ok <==> (self.current_state() == SocketState::Unbound || self.current_state()
                == SocketState::Bound || self.current_state() == SocketState::Connecting),
            r matches Err(e) ==> e.errno == (if self.current_state() == SocketState::Closed
                || self.current_state() == SocketState::Closing {
                EBADF
            } else if self.current_state() == SocketState::Listening {
                crate::fail::EOPNOTSUPP
            } else {
                crate::fail::EINVAL
            }),
    {
        self.state_machine.may_connect()
    }

    /// The tail of the connect coroutine: takes what the transport's
    /// connect returned. Success establishes the connection and records
    /// the remote address; failure closes the queue and hands the
    /// transport's errno through.
    pub fn connect_coroutine(&mut self, remote: Ipv4Endpoint, result: Result<(), Fail>) -> (r:
        Result<(), Fail>)
        requires
            old(self).wf(),
        ensures
            final(self).wf(),
            final(self).queue_type() == old(self).queue_type(),
            final(self).local_endpoint() == old(self).local_endpoint(),
            match result {
                Ok(u) => {
                    &&& allows(old(self).current_state(), SocketOp::Established) ==> r is Ok
                        && final(self).current_state() == SocketState::Connected && final(self).remote_endpoint() == Some(remote)
                    &&& !allows(old(self).current_state(), SocketOp::Established) ==> (r matches
                        Err(e2) && e2.errno == reject_errno(
                        old(self).current_state(),
                        SocketOp::Established,
                    )) && final(self).current_state() == old(self).current_state() && final(self).remote_endpoint() == old(self).remote_endpoint()
                },
                Err(e) => {
                    &&& allows(old(self).current_state(), SocketOp::Closed) ==> (r matches Err(e2)
                        && e2.errno == e.errno) && final(self).current_state()
                        == SocketState::Closed && final(self).remote_endpoint() == old(self).remote_endpoint()
                    &&& !allows(old(self).current_state(), SocketOp::Closed) ==> (r matches Err(e2)
                        && e2.errno == reject_errno(old(self).current_state(), SocketOp::Closed))
                        && final(self).current_state() == old(self).current_state() && final(self).remote_endpoint() == old(self).remote_endpoint()
                },
            },
    {
        match result {
            Ok(()) => {
                match self.state_machine.prepare(SocketOp::Established) {
                    Ok(()) => (),
                    Err(e) => {
                        return Err(e);
                    },
                };
                self.state_machine.commit();
                self.remote = Some(remote);
                Ok(())
            },
            Err(e) => {
                // The connect failed: the socket is closed.
                match self.state_machine.prepare(SocketOp::Closed) {
                    Ok(()) => (),
                    Err(e2) => {
                        return Err(e2);
                    },
                };
                self.state_machine.commit();
                Err(e)
            },
        }
    }

    /// The tail of the close coroutine: takes what the transport's close
    /// returned. Success commits the closed state; failure leaves the
    /// queue as it was and hands the errno through.
    pub fn close_coroutine(&mut self, result: Result<(), Fail>) -> (r: Result<(), Fail>)
        requires
            old(self).wf(),
        ensures
            final(self).wf(),
            final(self).queue_type() == old(self).queue_type(),
            final(self).local_endpoint() == old(self).local_endpoint(),
            final(self).remote_endpoint() == old(self).remote_endpoint(),
            match result {
                Ok(u) => {
                    &&& allows(old(self).current_state(), SocketOp::Closed) ==> r is Ok && final(self).current_state() == SocketState::Closed
                    &&& !allows(old(self).current_state(), SocketOp::Closed) ==> (r matches Err(e2)
                        && e2.errno == reject_errno(old(self).current_state(), SocketOp::Closed))
                        && final(self).current_state() == old(self).current_state()
                },
                Err(e) => r matches Err(e2) && e2.errno == e.errno && final(self).current_state()
                    == old(self).current_state(),
            },
    {
        match result {
            Ok(()) => {
                match self.state_machine.prepare(SocketOp::Closed) {
                    Ok(()) => (),
                    Err(e) => {
                        return Err(e);
                    },
                };
                self.state_machine.commit();
                Ok(())
            },
            Err(e) => Err(e),
        }
    }

    /// The read-only check a push coroutine makes before it calls the
    /// transport: the queue must be connected.
    pub fn push_coroutine_begin(&self) -> (r: Result<(), Fail>)
        ensures
            r is Ok <==> self.current_state() == SocketState::Connected,
            r matches Err(e) ==> e.errno == (if self.current_state() == SocketState::Closed
                || self.current_state() == SocketState::Closing {
                EBADF
            } else {
                crate::fail::EINVAL
            }),
    {
        self.state_machine.may_push()
    }

    /// The tail of the push coroutine: takes what the transport's push
    /// returned. A successful push must have consumed the whole buffer.
    pub fn push_coroutine(&self, buf: &Vec<u8>, result: Result<(), Fail>) -> (r: Result<(), Fail>)
        requires
            result is Ok ==> buf@.len() == 0,
        ensures
            result is Ok <==> r is Ok,
            result matches Err(e) ==> r matches Err(e2) && e2.errno == e.errno,
    {
        match result {
            Ok(()) => Ok(()),
            Err(e) => Err(e),
        }
    }

    /// The head of the pop coroutine: checks that the queue is connected
    /// and fixes the buffer size, the caller's if named, the default cap
    /// otherwise.
    pub fn pop_coroutine_begin(&self, size: Option<usize>) -> (r: Result<usize, Fail>)
        ensures
            self.current_state() == SocketState::Connected <==> r is Ok,
            r matches Ok(sz) ==> sz == (match size {
                Some(s) => s,
                None => RECVBUF_SIZE_MAX,
            }),
            r matches Err(e) ==> e.errno == (if self.current_state() == SocketState::Closed
                || self.current_state() == SocketState::Closing {
                EBADF
            } else {
                crate::fail::EINVAL
            }),
    {
        match self.state_machine.may_pop() {
            Ok(()) => (),
            Err(e) => {
                return Err(e);
            },
        };
        Ok(
            match size {
                Some(s) => s,
                None => RECVBUF_SIZE_MAX,
            },
        )
    }

    /// The tail of the pop coroutine: pairs the received buffer with the
    /// source address the transport reported, or hands the errno through.
    pub fn pop_coroutine(&self, buf: Vec<u8>, result: Result<Option<Ipv4Endpoint>, Fail>) -> (r:
        Result<(Option<Ipv4Endpoint>, Vec<u8>), Fail>)
        ensures
            match result {
                Ok(addr) => r matches Ok(pair) && pair.0 == addr && pair.1@ == buf@,
                Err(e) => r matches Err(e2) && e2.errno == e.errno,
            },
    {
        match result {
            Ok(addr) => Ok((addr, buf)),
            Err(e) => Err(e),
        }
    }

    /// Runs the coroutine constructor for a control-path operation, and
    /// commits the prepared transition exactly when it succeeds.
    fn do_generic_sync_control_path_call<F: FnOnce() -> Result<QToken, Fail>>(
        &mut self,
        coroutine_constructor: F,
    ) -> (r: Result<QToken, Fail>)
        requires
            call_requires(coroutine_constructor, ()),
        ensures
            call_ensures(coroutine_constructor, (), r),
            final(self).queue_type() == old(self).queue_type(),
            final(self).local_endpoint() == old(self).local_endpoint(),
            final(self).remote_endpoint() == old(self).remote_endpoint(),
            final(self).wf(),
            r is Ok ==> final(self).current_state() == (match old(self).state_machine.pending_op() {
                Some(op) => apply(old(self).current_state(), op),
                None => old(self).current_state(),
            }),
            r is Err ==> final(self).current_state() == old(self).current_state(),
    {
        match coroutine_constructor() {
            Ok(qt) => {
                self.state_machine.commit();
                Ok(qt)
            },
            Err(e) => {
                self.state_machine.abort();
                Err(e)
            },
        }
    }

    /// The current socket state.
    pub fn state(&self) -> (r: SocketState)
        ensures
            r == self.current_state(),
    {
        self.state_machine.state()
    }

    /// The local address, if bound.
    pub fn local(&self) -> (r: Option<Ipv4Endpoint>)
        ensures
            r == self.local_endpoint(),
    {
        self.local
    }

    /// The remote address, if connected.
    pub fn remote(&self) -> (r: Option<Ipv4Endpoint>)
        ensures
            r == self.remote_endpoint(),
    {
        self.remote
    }

    /// The queue type tag.
    pub fn get_qtype(&self) -> (r: QType)
        ensures
            r == self.queue_type(),
    {
        self.qtype
    }
}

} // verus!
