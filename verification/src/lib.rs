//! A TCP socket over a cooperative protocol engine.
//!
//! The engine, smoltcp, owns the connections and runs the protocol. A
//! [`socket::Socket`] holds the handle of one connection and maps the states
//! of that connection onto what a caller of `read`, `write`, `poll`,
//! `connect`, `accept` and `close` expects: a result, or a wait.
//!
//! No operation here blocks, locks or looks at a clock. One that may have to
//! wait is carried out in turns ([`step::Step`]): each turn works on the
//! connection inside one critical section that the caller provides, and says
//! whether the operation is resolved, wants its next turn, or waits to be
//! woken. The scheduler that takes the turns, and turns a zero deadline into
//! would-block for a non-blocking socket, stays outside.
//!
//! What the operations rely on of smoltcp is stated, unproved, in [`engine`];
//! everything else is verified against it. [`laws`] holds what follows for
//! the operations in general.

pub mod buffer;
pub mod endpoint;
pub mod engine;
pub mod error;
pub mod establish;
pub mod event;
pub mod laws;
pub mod options;
pub mod port;
pub mod readiness;
pub mod socket;
pub mod source;
pub mod state;
pub mod step;
pub mod transfer;
