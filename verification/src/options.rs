//! Socket options, control codes and shutdown directions.

use vstd::prelude::*;

verus! {

/// Further receives will be disallowed.
pub const SHUT_RD: i32 = 0;

/// Further sends will be disallowed.
pub const SHUT_WR: i32 = 1;

/// Further sends and receives will be disallowed.
pub const SHUT_RDWR: i32 = 2;

/// The delay before a bare acknowledgement while segments may be coalesced,
/// in milliseconds.
pub const ACK_DELAY: u64 = 10;

/// An option of a socket.
#[derive(Clone, Copy, Debug, PartialEq, Eq, Structural)]
pub enum SocketOption {
    /// Send segments without waiting to coalesce them.
    TcpNoDelay,
    /// An option that TCP sockets do not offer, by its code.
    Other(i32),
}

/// A control request on a socket.
#[derive(Clone, Copy, Debug, PartialEq, Eq, Structural)]
pub enum IoCtl {
    /// Switch non-blocking mode.
    NonBlocking,
    /// A request that TCP sockets do not answer, by its code.
    Other(u32),
}

/// Whether `how` is one of the three shutdown directions.
pub open spec fn is_direction(how: i32) -> bool {
    how == SHUT_RD || how == SHUT_WR || how == SHUT_RDWR
}

} // verus!
