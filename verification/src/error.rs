//! The failures that socket operations report.

use vstd::prelude::*;

verus! {

/// Why a socket operation failed.
#[derive(Clone, Copy, Debug, PartialEq, Eq, Structural)]
pub enum Error {
    /// The connection is in a state that does not permit the operation, or the
    /// engine rejected a transition.
    Io,
    /// The handshake was aborted or reset before it completed.
    Fault,
    /// The socket is in non-blocking mode and the operation could not be
    /// completed at once.
    WouldBlock,
    /// The scheduler gave up waiting at the deadline.
    TimedOut,
    /// An option, a control code or a shutdown direction that is not supported.
    InvalidArgument,
}

impl Error {
    /// Turns any failure of the engine into an I/O fault, and keeps a success.
    pub fn io<T, E>(outcome: Result<T, E>) -> (r: Result<T, Error>)
        ensures
            r == io_fault(outcome),
    {
        match outcome {
            Ok(value) => Ok(value),
            Err(_) => Err(Error::Io),
        }
    }
}

/// A success as it is, any failure as an I/O fault.
pub open spec fn io_fault<T, E>(outcome: Result<T, E>) -> Result<T, Error> {
    match outcome {
        Ok(value) => Ok(value),
        Err(_) => Err(Error::Io),
    }
}

} // verus!
