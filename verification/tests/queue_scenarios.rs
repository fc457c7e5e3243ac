use demikernel::fail::Fail;
use demikernel::fail::EAGAIN;
use demikernel::fail::EBADF;
use demikernel::fail::ECONNREFUSED;
use demikernel::fail::EINPROGRESS;
use demikernel::fail::EOPNOTSUPP;
use demikernel::fail::ETIMEDOUT;
use demikernel::queue::Ipv4Endpoint;
use demikernel::queue::NetworkQueue;
use demikernel::queue::NetworkTransport;
use demikernel::queue::QType;
use demikernel::queue::SocketDomain;
use demikernel::queue::SocketType;
use demikernel::queue::RECVBUF_SIZE_MAX;
use demikernel::scheduler::Scheduler;
use demikernel::socket::SocketState;
use demikernel::task::PollContext;
use demikernel::task::Task;
use demikernel::task::TaskId;
use demikernel::task::TaskPoll;
use std::cell::RefCell;
use std::rc::Rc;

const LOCALHOST: u32 = 0x7f00_0001;

fn ep(ip: u32, port: u16) -> Ipv4Endpoint {
    Ipv4Endpoint { ip, port }
}

/// A loopback test transport. Control-path calls succeed; a connect to
/// 0.0.0.0:0 is refused by the peer; every other connect, and every
/// accept, stays pending forever.
#[derive(Clone)]
struct TestTransport;

impl NetworkTransport for TestTransport {
    type SocketDescriptor = i32;

    fn socket(&mut self, _domain: SocketDomain, _typ: SocketType) -> Result<i32, Fail> {
        Ok(3)
    }

    fn bind(&mut self, _sd: &mut i32, _local: Ipv4Endpoint) -> Result<(), Fail> {
        Ok(())
    }

    fn listen(&mut self, _sd: &mut i32, _backlog: usize) -> Result<(), Fail> {
        Ok(())
    }

    fn hard_close(&mut self, _sd: &mut i32) -> Result<(), Fail> {
        Ok(())
    }
}

type SharedQueue = Rc<RefCell<NetworkQueue<TestTransport>>>;

enum OpKind {
    Connect { remote: Ipv4Endpoint },
    Accept,
    Close,
}

/// A per-operation coroutine, hand-rolled as a state machine: each poll
/// makes the queue's begin-check, consults the loopback transport, and
/// feeds the outcome to the queue's coroutine tail.
struct OpTask {
    id: TaskId,
    queue: SharedQueue,
    kind: OpKind,
    outcome: Option<Result<(), Fail>>,
}

impl OpTask {
    fn outcome(self) -> Result<(), Fail> {
        self.outcome.expect("operation has not completed")
    }
}

impl Task for OpTask {
    fn poll(&mut self, _ctx: &mut PollContext) -> TaskPoll {
        match self.kind {
            OpKind::Connect { remote } => {
                if let Err(e) = self.queue.borrow().connect_coroutine_begin() {
                    self.outcome = Some(Err(e));
                    return TaskPoll::Ready;
                }
                if remote.ip == 0 && remote.port == 0 {
                    // The loopback refuses a connect to 0.0.0.0:0.
                    let r = self
                        .queue
                        .borrow_mut()
                        .connect_coroutine(remote, Err(Fail::new(ECONNREFUSED, "connection refused")));
                    self.outcome = Some(r);
                    TaskPoll::Ready
                } else {
                    // The peer never answers; the transport never wakes us.
                    TaskPoll::Pending
                }
            },
            OpKind::Accept => {
                if let Err(e) = self.queue.borrow().accept_coroutine_begin() {
                    self.outcome = Some(Err(e));
                    return TaskPoll::Ready;
                }
                // No peer ever connects over the test loopback.
                TaskPoll::Pending
            },
            OpKind::Close => {
                // The transport's close completes immediately.
                let r = self.queue.borrow_mut().close_coroutine(Ok(()));
                self.outcome = Some(r);
                TaskPoll::Ready
            },
        }
    }

    fn get_name(&self) -> String {
        String::from("operation")
    }

    fn get_id(&self) -> TaskId {
        self.id
    }

    fn set_id(&mut self, id: TaskId) {
        self.id = id;
    }
}

/// A minimal socket-like layer over one scheduler and a queue table.
/// Queue descriptor 0 is reserved and always invalid.
struct Harness {
    transport: TestTransport,
    scheduler: Scheduler<OpTask>,
    qds: Vec<Option<SharedQueue>>,
}

impl Harness {
    fn new() -> Self {
        Harness { transport: TestTransport, scheduler: Scheduler::default(), qds: vec![None] }
    }

    fn socket(&mut self) -> Result<usize, Fail> {
        let q = NetworkQueue::new(SocketDomain::Ipv4, SocketType::Stream, &mut self.transport)?;
        self.qds.push(Some(Rc::new(RefCell::new(q))));
        Ok(self.qds.len() - 1)
    }

    fn queue(&self, qd: usize) -> Result<SharedQueue, Fail> {
        match self.qds.get(qd) {
            Some(Some(q)) => Ok(q.clone()),
            _ => Err(Fail::new(EBADF, "invalid queue descriptor")),
        }
    }

    fn bind(&mut self, qd: usize, local: Ipv4Endpoint) -> Result<(), Fail> {
        self.queue(qd)?.borrow_mut().bind(local)
    }

    fn listen(&mut self, qd: usize, backlog: usize) -> Result<(), Fail> {
        self.queue(qd)?.borrow_mut().listen(backlog)
    }

    fn connect(&mut self, qd: usize, remote: Ipv4Endpoint) -> Result<TaskId, Fail> {
        let q = self.queue(qd)?;
        let task = OpTask {
            id: TaskId(0),
            queue: q.clone(),
            kind: OpKind::Connect { remote },
            outcome: None,
        };
        let scheduler = &mut self.scheduler;
        let r = q.borrow_mut().connect(
            move || scheduler.insert(task).ok_or_else(|| Fail::new(EAGAIN, "cannot spawn")),
        );
        r
    }

    fn accept(&mut self, qd: usize) -> Result<TaskId, Fail> {
        let q = self.queue(qd)?;
        let task = OpTask { id: TaskId(0), queue: q.clone(), kind: OpKind::Accept, outcome: None };
        let scheduler = &mut self.scheduler;
        let r = q.borrow_mut().accept(
            move || scheduler.insert(task).ok_or_else(|| Fail::new(EAGAIN, "cannot spawn")),
        );
        r
    }

    fn close(&mut self, qd: usize) -> Result<(), Fail> {
        let q = self.queue(qd)?;
        if q.borrow().state() == SocketState::Closed {
            // The queue is already fully closed: closing it again is a
            // no-op at this layer.
            return Ok(());
        }
        let task = OpTask { id: TaskId(0), queue: q.clone(), kind: OpKind::Close, outcome: None };
        let scheduler = &mut self.scheduler;
        let r = q
            .borrow_mut()
            .close(move || scheduler.insert(task).ok_or_else(|| Fail::new(EAGAIN, "cannot spawn")))
            .map(|_| ());
        r
    }

    /// Waits for the operation behind `qt`: runs up to `max_polls` ticks
    /// and returns the operation's outcome once completed, `ETIMEDOUT`
    /// otherwise.
    fn wait(&mut self, qt: TaskId, max_polls: usize) -> Result<(), Fail> {
        for _ in 0..max_polls {
            self.scheduler.poll();
            if self.scheduler.has_completed(qt) == Some(true) {
                let task = self.scheduler.take(qt).expect("completed task must be retrievable");
                return task.outcome();
            }
        }
        Err(Fail::new(ETIMEDOUT, "wait deadline exceeded"))
    }
}

/// Connect on an invalid queue descriptor fails with EBADF.
#[test]
fn test_connect_invalid_qd() {
    let mut h = Harness::new();
    let e = h.connect(0, ep(LOCALHOST, 0)).unwrap_err();
    assert_eq!(e.errno, EBADF);
}

/// Connect on an unbound socket stays in flight: an immediate wait times
/// out, and the socket can still be closed.
#[test]
fn test_connect_unbound() {
    let mut h = Harness::new();
    let qd = h.socket().unwrap();
    let qt = h.connect(qd, ep(LOCALHOST, 80)).unwrap();
    assert_eq!(h.wait(qt, 0).unwrap_err().errno, ETIMEDOUT);
    assert!(h.close(qd).is_ok());
}

/// Connect to an unreachable remote completes with ECONNREFUSED, and the
/// socket can still be closed.
#[test]
fn test_connect_bad_remote() {
    let mut h = Harness::new();
    let qd = h.socket().unwrap();
    let qt = h.connect(qd, ep(0, 0)).unwrap();
    assert_eq!(h.wait(qt, 100).unwrap_err().errno, ECONNREFUSED);
    assert!(h.close(qd).is_ok());
}

/// Connect on a listening socket fails with EOPNOTSUPP.
#[test]
fn test_connect_listening() {
    let mut h = Harness::new();
    let qd = h.socket().unwrap();
    h.bind(qd, ep(LOCALHOST, 8080)).unwrap();
    h.listen(qd, 16).unwrap();
    let e = h.connect(qd, ep(LOCALHOST, 80)).unwrap_err();
    assert_eq!(e.errno, EOPNOTSUPP);
}

/// Connect on a socket already connecting fails with EINPROGRESS.
#[test]
fn test_connect_connecting() {
    let mut h = Harness::new();
    let qd = h.socket().unwrap();
    let qt = h.connect(qd, ep(LOCALHOST, 80)).unwrap();
    assert_eq!(h.wait(qt, 0).unwrap_err().errno, ETIMEDOUT);
    let e = h.connect(qd, ep(LOCALHOST, 80)).unwrap_err();
    assert_eq!(e.errno, EINPROGRESS);
}

/// Connect on an accepting socket fails with EOPNOTSUPP.
#[test]
fn test_connect_accepting() {
    let mut h = Harness::new();
    let qd = h.socket().unwrap();
    h.bind(qd, ep(LOCALHOST, 8081)).unwrap();
    h.listen(qd, 16).unwrap();
    let qt = h.accept(qd).unwrap();
    assert_eq!(h.wait(qt, 0).unwrap_err().errno, ETIMEDOUT);
    let e = h.connect(qd, ep(LOCALHOST, 80)).unwrap_err();
    assert_eq!(e.errno, EOPNOTSUPP);
}

/// Connect on a closed socket fails with EBADF.
#[test]
fn test_connect_closed() {
    let mut h = Harness::new();
    let qd = h.socket().unwrap();
    assert!(h.close(qd).is_ok());
    let e = h.connect(qd, ep(LOCALHOST, 80)).unwrap_err();
    assert_eq!(e.errno, EBADF);
}

/// A successful connect coroutine establishes the connection and records
/// the remote address.
#[test]
fn test_connect_coroutine_success() {
    let mut transport = TestTransport;
    let mut q =
        NetworkQueue::new(SocketDomain::Ipv4, SocketType::Stream, &mut transport).unwrap();
    let remote = ep(LOCALHOST, 9000);
    let qt = q.connect(|| Ok(TaskId(1))).unwrap();
    assert_eq!(qt, TaskId(1));
    assert_eq!(q.state(), SocketState::Connecting);
    q.connect_coroutine_begin().unwrap();
    q.connect_coroutine(remote, Ok(())).unwrap();
    assert_eq!(q.state(), SocketState::Connected);
    assert_eq!(q.remote(), Some(remote));
    assert_eq!(q.local(), None);
}

/// A completed accept produces a queue that inherits the parent's type,
/// has no local address, the peer as remote, and starts connected.
#[test]
fn test_accept_coroutine_builds_connected_queue() {
    let mut transport = TestTransport;
    let mut q =
        NetworkQueue::new(SocketDomain::Ipv4, SocketType::Stream, &mut transport).unwrap();
    q.bind(ep(LOCALHOST, 7000)).unwrap();
    q.listen(16).unwrap();
    q.accept_coroutine_begin().unwrap();
    let peer = ep(LOCALHOST, 34567);
    let accepted = q.accept_coroutine(Ok((9, peer))).unwrap();
    assert_eq!(accepted.state(), SocketState::Connected);
    assert_eq!(accepted.get_qtype(), QType::TcpSocket);
    assert_eq!(accepted.local(), None);
    assert_eq!(accepted.remote(), Some(peer));
}

/// An accept whose transport call reports EBADF surfaces a closed-socket
/// error.
#[test]
fn test_accept_coroutine_closed_socket() {
    let mut transport = TestTransport;
    let q = NetworkQueue::new(SocketDomain::Ipv4, SocketType::Stream, &mut transport).unwrap();
    let e = match q.accept_coroutine(Err(Fail::new(EBADF, "descriptor gone"))) {
        Err(e) => e,
        Ok(_) => panic!("expected an error"),
    };
    assert_eq!(e.errno, EBADF);
    assert_eq!(e.cause, "socket was closed");
}

/// Hard close tears the queue down synchronously.
#[test]
fn test_hard_close() {
    let mut transport = TestTransport;
    let mut q =
        NetworkQueue::new(SocketDomain::Ipv4, SocketType::Stream, &mut transport).unwrap();
    q.hard_close().unwrap();
    assert_eq!(q.state(), SocketState::Closed);
    assert_eq!(q.hard_close().unwrap_err().errno, EBADF);
}

/// A bound-then-listening queue records its local address.
#[test]
fn test_bind_records_local() {
    let mut transport = TestTransport;
    let mut q =
        NetworkQueue::new(SocketDomain::Ipv4, SocketType::Stream, &mut transport).unwrap();
    let local = ep(LOCALHOST, 6000);
    q.bind(local).unwrap();
    assert_eq!(q.state(), SocketState::Bound);
    assert_eq!(q.local(), Some(local));
    // A second bind is rejected and changes nothing.
    let e = q.bind(ep(LOCALHOST, 6001)).unwrap_err();
    assert_eq!(e.errno, demikernel::fail::EINVAL);
    assert_eq!(q.local(), Some(local));
}

/// The pop size defaults to the receive cap when the caller names none.
#[test]
fn test_pop_coroutine_begin_sizes() {
    let mut transport = TestTransport;
    let mut q =
        NetworkQueue::new(SocketDomain::Ipv4, SocketType::Stream, &mut transport).unwrap();
    let qt = q.connect(|| Ok(TaskId(7))).unwrap();
    assert_eq!(qt, TaskId(7));
    q.connect_coroutine(ep(LOCALHOST, 9000), Ok(())).unwrap();
    assert_eq!(q.pop_coroutine_begin(Some(128)).unwrap(), 128);
    assert_eq!(q.pop_coroutine_begin(None).unwrap(), RECVBUF_SIZE_MAX);
    let (addr, buf) = q.pop_coroutine(vec![1u8, 2, 3], Ok(Some(ep(LOCALHOST, 5)))).unwrap();
    assert_eq!(addr, Some(ep(LOCALHOST, 5)));
    assert_eq!(buf, vec![1u8, 2, 3]);
}

/// A push is only spawned on a connected queue, and a completed push
/// must have consumed the buffer.
#[test]
fn test_push_checks() {
    let mut transport = TestTransport;
    let mut q =
        NetworkQueue::new(SocketDomain::Ipv4, SocketType::Stream, &mut transport).unwrap();
    let e = q.push(|| Ok(TaskId(2))).unwrap_err();
    assert_eq!(e.errno, demikernel::fail::EINVAL);
    q.connect(|| Ok(TaskId(3))).unwrap();
    q.connect_coroutine(ep(LOCALHOST, 9000), Ok(())).unwrap();
    assert_eq!(q.push(|| Ok(TaskId(4))).unwrap(), TaskId(4));
    q.push_coroutine_begin().unwrap();
    let empty: Vec<u8> = Vec::new();
    q.push_coroutine(&empty, Ok(())).unwrap();
    let full = vec![1u8];
    let e = q.push_coroutine(&full, Err(Fail::new(ECONNREFUSED, "peer gone"))).unwrap_err();
    assert_eq!(e.errno, ECONNREFUSED);
}
