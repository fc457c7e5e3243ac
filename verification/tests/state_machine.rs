use demikernel::fail::EBADF;
use demikernel::fail::EINPROGRESS;
use demikernel::fail::EINVAL;
use demikernel::fail::EOPNOTSUPP;
use demikernel::socket::SocketOp;
use demikernel::socket::SocketState;
use demikernel::socket::SocketStateMachine;

fn machine_in(state: SocketState) -> SocketStateMachine {
    let mut m = SocketStateMachine::new_unbound();
    let path: &[SocketOp] = match state {
        SocketState::Unbound => &[],
        SocketState::Bound => &[SocketOp::Bind],
        SocketState::Listening => &[SocketOp::Bind, SocketOp::Listen],
        SocketState::Connecting => &[SocketOp::Connect],
        SocketState::Connected => &[SocketOp::Connect, SocketOp::Established],
        SocketState::Closing => &[SocketOp::Close],
        SocketState::Closed => &[SocketOp::Close, SocketOp::Closed],
    };
    for op in path {
        m.prepare(*op).expect("path op should be legal");
        m.commit();
    }
    assert_eq!(m.state(), state);
    m
}

/// An operation outside the allowed set of a state is rejected and the
/// state is unchanged.
#[test]
fn test_illegal_prepare_rejected() {
    let all_states = [
        SocketState::Unbound,
        SocketState::Bound,
        SocketState::Listening,
        SocketState::Connecting,
        SocketState::Connected,
        SocketState::Closing,
        SocketState::Closed,
    ];
    let all_ops = [
        SocketOp::Bind,
        SocketOp::Listen,
        SocketOp::Connect,
        SocketOp::Established,
        SocketOp::Close,
        SocketOp::Closed,
    ];
    for state in all_states {
        for op in all_ops {
            let mut m = machine_in(state);
            match m.prepare(op) {
                Ok(()) => {},
                Err(e) => {
                    assert!(
                        e.errno == EINVAL || e.errno == EBADF || e.errno == EOPNOTSUPP
                            || e.errno == EINPROGRESS
                    );
                    assert_eq!(m.state(), state);
                },
            }
        }
    }
}

/// Bind after bind is an illegal transition: EINVAL.
#[test]
fn test_bind_after_bind_einval() {
    let mut m = machine_in(SocketState::Bound);
    let e = m.prepare(SocketOp::Bind).unwrap_err();
    assert_eq!(e.errno, EINVAL);
    assert_eq!(m.state(), SocketState::Bound);
}

/// Connect on a listening socket: EOPNOTSUPP.
#[test]
fn test_connect_on_listening_eopnotsupp() {
    let mut m = machine_in(SocketState::Listening);
    let e = m.prepare(SocketOp::Connect).unwrap_err();
    assert_eq!(e.errno, EOPNOTSUPP);
    assert_eq!(m.state(), SocketState::Listening);
}

/// Connect on a connecting socket: EINPROGRESS.
#[test]
fn test_connect_on_connecting_einprogress() {
    let mut m = machine_in(SocketState::Connecting);
    let e = m.prepare(SocketOp::Connect).unwrap_err();
    assert_eq!(e.errno, EINPROGRESS);
    assert_eq!(m.state(), SocketState::Connecting);
}

/// Anything on a closed socket: EBADF.
#[test]
fn test_op_on_closed_ebadf() {
    let mut m = machine_in(SocketState::Closed);
    let e = m.prepare(SocketOp::Connect).unwrap_err();
    assert_eq!(e.errno, EBADF);
    let e = m.prepare(SocketOp::Bind).unwrap_err();
    assert_eq!(e.errno, EBADF);
}

/// `prepare; abort` is a no-op on the state.
#[test]
fn test_prepare_abort_noop() {
    let mut m = machine_in(SocketState::Unbound);
    m.prepare(SocketOp::Bind).unwrap();
    m.abort();
    assert_eq!(m.state(), SocketState::Unbound);
    // The machine still accepts a fresh prepare/commit afterwards.
    m.prepare(SocketOp::Connect).unwrap();
    m.commit();
    assert_eq!(m.state(), SocketState::Connecting);
}

/// `prepare(op); commit` reaches the canonical post-`op` state.
#[test]
fn test_prepare_commit_canonical_states() {
    let cases = [
        (SocketState::Unbound, SocketOp::Bind, SocketState::Bound),
        (SocketState::Unbound, SocketOp::Connect, SocketState::Connecting),
        (SocketState::Unbound, SocketOp::Close, SocketState::Closing),
        (SocketState::Bound, SocketOp::Listen, SocketState::Listening),
        (SocketState::Bound, SocketOp::Connect, SocketState::Connecting),
        (SocketState::Connecting, SocketOp::Established, SocketState::Connected),
        (SocketState::Connecting, SocketOp::Closed, SocketState::Closed),
        (SocketState::Connected, SocketOp::Close, SocketState::Closing),
        (SocketState::Listening, SocketOp::Close, SocketState::Closing),
        (SocketState::Closing, SocketOp::Closed, SocketState::Closed),
    ];
    for (from, op, to) in cases {
        let mut m = machine_in(from);
        m.prepare(op).expect("transition should be legal");
        m.commit();
        assert_eq!(m.state(), to);
    }
}

/// The read-only checks agree with the states they guard.
#[test]
fn test_may_checks() {
    assert!(machine_in(SocketState::Listening).may_accept().is_ok());
    assert!(machine_in(SocketState::Bound).may_accept().is_err());
    assert!(machine_in(SocketState::Unbound).may_connect().is_ok());
    assert!(machine_in(SocketState::Bound).may_connect().is_ok());
    assert!(machine_in(SocketState::Connecting).may_connect().is_ok());
    assert_eq!(machine_in(SocketState::Listening).may_connect().unwrap_err().errno, EOPNOTSUPP);
    assert_eq!(machine_in(SocketState::Closed).may_connect().unwrap_err().errno, EBADF);
    assert!(machine_in(SocketState::Connected).may_push().is_ok());
    assert!(machine_in(SocketState::Bound).may_push().is_err());
    assert!(machine_in(SocketState::Connected).may_pop().is_ok());
    assert_eq!(machine_in(SocketState::Closing).may_pop().unwrap_err().errno, EBADF);
}
