//! The outcome of one turn of a suspending operation.

use vstd::prelude::*;

verus! {

/// The changes of a connection that a suspended operation waits for: the
/// wakers that its last turn registered with the engine.
#[derive(Clone, Copy, Debug, PartialEq, Eq, Structural)]
pub struct Interest {
    /// Woken when the connection has something for a receiver.
    pub recv: bool,
    /// Woken when the connection has something for a sender.
    pub send: bool,
}

/// What one turn of a suspending operation came to.
///
/// An operation is carried out in turns, each inside one critical section on
/// the engine. The scheduler that drives it takes the next turn at once after
/// `Again`, and after `Wait` only when the engine has woken the task.
#[derive(Debug, PartialEq, Eq)]
pub enum Step<T> {
    /// The operation is resolved with this result.
    Done(T),
    /// The operation has advanced and wants its next turn now.
    Again,
    /// The operation cannot advance before the connection changes in one of
    /// the ways it registered for.
    Wait(Interest),
}

/// How long the scheduler may wait for an operation.
#[derive(Clone, Copy, Debug, PartialEq, Eq, Structural)]
pub enum Deadline {
    /// Wait until the operation is resolved.
    Unbounded,
    /// Try once and give up with a timeout.
    Immediate,
}

} // verus!
