//! Structured error type: a POSIX `errno`-style numeric kind together with a
//! human-readable cause string.

use vstd::prelude::*;

verus! {

/// Operation on an invalid or closed queue/socket.
pub const EBADF: i32 = 9;
/// Resource temporarily unavailable.
pub const EAGAIN: i32 = 11;
/// Illegal state-machine transition.
pub const EINVAL: i32 = 22;
/// Operation not supported (e.g. connect on a listening socket).
pub const EOPNOTSUPP: i32 = 95;
/// Connection reset by peer.
pub const ECONNRESET: i32 = 104;
/// Wait deadline exceeded.
pub const ETIMEDOUT: i32 = 110;
/// Peer refused the connection.
pub const ECONNREFUSED: i32 = 111;
/// Operation already in progress (e.g. connect on a connecting socket).
pub const EINPROGRESS: i32 = 115;

/// A failed operation, carrying the errno-style kind and a cause string.
#[derive(Clone, Debug)]
pub struct Fail {
    /// Error kind, as a POSIX errno value.
    pub errno: i32,
    /// Human-readable cause.
    pub cause: String,
}

impl Fail {
    /// Builds a failure from an errno value and a cause string.
    pub fn new(errno: i32, cause: &str) -> (r: Self)
        ensures
            r.errno == errno,
            r.cause@ == cause@,
    {
        broadcast use vstd::string::to_string_from_display_ensures_for_str;

        Fail { errno, cause: cause.to_string() }
    }
}

} // verus!
