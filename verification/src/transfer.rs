//! Moving data over a connection: read and write.

use vstd::prelude::*;
use smoltcp::socket::tcp::Socket as Connection;
use core::task::Waker;
use vstd::slice::slice_subrange;
use crate::buffer::{overwritten, shorter, span};
use crate::engine::{recv, state, view_of, ConnView};
use crate::error::Error;
use crate::socket::{after_turn, suspend, Socket};
use crate::state::State;
use crate::step::{Interest, Step};

verus! {

/// How many octets a read into a buffer of `capacity` octets takes from the
/// connection: as many as lie in one piece at the head of the receive buffer
/// and fit, where the connection moves data and holds some; none otherwise.
pub open spec fn read_count(v: ConnView, capacity: nat) -> nat {
    if !v.state.is_faulty() && v.state != State::Closed && v.can_recv() {
        shorter(capacity as int, v.rx_run as int) as nat
    } else {
        0
    }
}

/// What one turn of a read into a buffer of `capacity` octets comes to.
///
/// A closed connection is at its end: the read succeeds with nothing. A
/// connection that winds down or listens cannot be read. Any other yields
/// what [`read_count`] says, or waits for the receiver's waker while it holds
/// nothing.
pub open spec fn read_outcome(v: ConnView, capacity: nat) -> Step<Result<usize, Error>> {
    if v.state == State::Closed {
        Step::Done(Ok(0))
    } else if v.state.is_faulty() {
        Step::Done(Err(Error::Io))
    } else if v.can_recv() {
        Step::Done(Ok(read_count(v, capacity) as usize))
    } else {
        Step::Wait(Interest { recv: true, send: false })
    }
}

/// How many octets one turn of a write queues, with `sent` of `len` octets
/// queued before: as many of the rest as the transmit buffer has room for,
/// where the connection can send; none otherwise.
pub open spec fn write_count(v: ConnView, sent: nat, len: nat) -> nat {
    if sent < len && !v.state.is_ended() && !v.state.is_faulty() && v.can_send() {
        shorter(len - sent, v.tx_room as int) as nat
    } else {
        0
    }
}

/// What one turn of a write comes to, with `sent` of `len` octets queued
/// before.
///
/// A write with nothing left is done. On a connection whose peer is gone or
/// going the write ends with what it has, which is no error. A connection
/// that winds down or listens cannot be written. Where the connection can
/// send, the turn queues what [`write_count`] says, and is done if that was
/// the rest, else wants another turn. Where it cannot, a write that has
/// queued something ends with that; only one that has queued nothing waits,
/// for the sender's waker.
pub open spec fn write_outcome(v: ConnView, sent: nat, len: nat) -> Step<Result<usize, Error>> {
    if sent >= len || v.state.is_ended() {
        Step::Done(Ok(sent as usize))
    } else if v.state.is_faulty() {
        Step::Done(Err(Error::Io))
    } else if v.can_send() {
        if sent + write_count(v, sent, len) < len {
            Step::Again
        } else {
            Step::Done(Ok(len as usize))
        }
    } else if sent > 0 {
        Step::Done(Ok(sent as usize))
    } else {
        Step::Wait(Interest { recv: false, send: true })
    }
}

/// The connection after one turn of a read into a buffer of `capacity`
/// octets. A turn that takes octets removes them from the head of the receive
/// queue, after which the piece at the head is `rx_run` long. A turn that
/// takes none leaves the connection alone, but for the waker of a wait.
pub open spec fn after_read(v: ConnView, capacity: nat, rx_run: nat) -> ConnView {
    if read_count(v, capacity) > 0 {
        ConnView { rx: v.rx.skip(read_count(v, capacity) as int), rx_run, ..v }
    } else {
        after_turn(v, read_outcome(v, capacity))
    }
}

/// The connection after one turn of a write of `data`, with `sent` of its
/// octets queued before. A turn that queues octets appends them to the
/// transmit queue. A turn that queues none leaves the connection alone, but
/// for the waker of a wait.
pub open spec fn after_write(v: ConnView, sent: nat, data: Seq<u8>) -> ConnView {
    if write_count(v, sent, data.len()) > 0 {
        ConnView {
            tx: v.tx + span(data, sent as int, (sent + write_count(v, sent, data.len())) as int),
            tx_room: (v.tx_room - write_count(v, sent, data.len())) as nat,
            ..v
        }
    } else {
        after_turn(v, write_outcome(v, sent, data.len()))
    }
}

/// Whether a write of `buffer` with `sent` octets queued has nothing left to
/// do. Such a write is done without a look at the connection.
pub fn finished(sent: usize, buffer: &[u8]) -> (r: bool)
    ensures
        r == (sent >= buffer@.len()),
{
    sent >= buffer.len()
}

impl Socket {
    /// One turn of a read into `buffer`.
    ///
    /// The turn resolves as [`read_outcome`] says. The octets that it reports
    /// are the oldest that the connection held: they have left the connection
    /// and stand at the head of `buffer`, whose rest is as before. A turn
    /// that waits has registered the receiver's waker with the connection.
    /// Nothing else about the connection changes: a turn on a closed
    /// connection, or on one that cannot be read, leaves it exactly as it
    /// was.
    pub fn poll_read(
        &self,
        conn: &mut Connection<'_>,
        waker: &Waker,
        buffer: &mut [u8],
    ) -> (step: Step<Result<usize, Error>>)
        ensures
            step == read_outcome(view_of(old(conn)), old(buffer)@.len()),
            view_of(old(conn)).state == State::Closed ==> step == Step::Done(
                Ok::<usize, Error>(0),
            ),
            view_of(old(conn)).state.is_faulty() ==> step == Step::Done(
                Err::<usize, Error>(Error::Io),
            ),
            !(step is Again),
            read_count(view_of(old(conn)), old(buffer)@.len()) <= view_of(old(conn)).rx.len(),
            final(buffer)@ == overwritten(
                old(buffer)@,
                view_of(old(conn)).rx,
                read_count(view_of(old(conn)), old(buffer)@.len()) as int,
            ),
            view_of(final(conn)) == after_read(
                view_of(old(conn)),
                old(buffer)@.len(),
                view_of(final(conn)).rx_run,
            ),
            step is Done && read_count(view_of(old(conn)), old(buffer)@.len()) == 0
                ==> view_of(final(conn)) == view_of(old(conn)),
            step is Wait ==> view_of(final(conn)).rx_waker,
    {
        proof {
            assert(overwritten(old(buffer)@, view_of(old(conn)).rx, 0) =~= old(buffer)@);
            assert(view_of(old(conn)).rx.skip(0) =~= view_of(old(conn)).rx);
        }
        match state(conn) {
            State::Closed => Step::Done(Ok(0)),
            State::FinWait1 | State::FinWait2 | State::Listen | State::TimeWait => Step::Done(
                Err(Error::Io),
            ),
            _ => {
                if conn.can_recv() {
                    Step::Done(Error::io(recv(conn, buffer)))
                } else {
                    suspend(conn, waker, Interest { recv: true, send: false })
                }
            },
        }
    }

    /// One turn of a write of `buffer`, of which `sent` octets are queued
    /// already.
    ///
    /// The turn resolves as [`write_outcome`] says, and `sent` grows by the
    /// octets that it queued: the next of `buffer`, appended to what the
    /// connection holds for transmission. A turn that waits has registered
    /// the sender's waker with the connection. Nothing else about the
    /// connection changes. A peer that is gone or going ends the write with
    /// the octets queued so far, and never fails it.
    pub fn poll_write(
        &self,
        sent: &mut usize,
        conn: &mut Connection<'_>,
        waker: &Waker,
        buffer: &[u8],
    ) -> (step: Step<Result<usize, Error>>)
        ensures
            step == write_outcome(view_of(old(conn)), *old(sent) as nat, buffer@.len()),
            view_of(old(conn)).state.is_ended() ==> step == Step::Done(
                Ok::<usize, Error>(*old(sent)),
            ),
            *old(sent) < buffer@.len() && view_of(old(conn)).state.is_faulty() ==> step
                == Step::Done(Err::<usize, Error>(Error::Io)),
            *final(sent) == *old(sent) + write_count(
                view_of(old(conn)),
                *old(sent) as nat,
                buffer@.len(),
            ),
            *old(sent) <= buffer@.len() ==> *final(sent) <= buffer@.len(),
            step matches Step::Done(Ok(n)) ==> n == *final(sent),
            view_of(final(conn)) == after_write(view_of(old(conn)), *old(sent) as nat, buffer@),
            step is Wait ==> view_of(final(conn)).tx_waker,
    {
        if finished(*sent, buffer) {
            return Step::Done(Ok(*sent));
        }
        match state(conn) {
            State::Closed | State::Closing | State::CloseWait => Step::Done(Ok(*sent)),
            State::FinWait1 | State::FinWait2 | State::Listen | State::TimeWait => Step::Done(
                Err(Error::Io),
            ),
            _ => {
                if conn.can_send() {
                    let rest = slice_subrange(buffer, *sent, buffer.len());
                    match conn.send_slice(rest) {
                        Ok(n) => {
                            proof {
                                assert(rest@.subrange(0, n as int) =~= buffer@.subrange(
                                    *old(sent) as int,
                                    *old(sent) + n,
                                ));
                            }
                            if n == 0 {
                                Step::Done(Ok(*sent))
                            } else {
                                *sent = *sent + n;
                                if *sent < buffer.len() {
                                    Step::Again
                                } else {
                                    Step::Done(Ok(*sent))
                                }
                            }
                        },
                        Err(_) => Step::Done(Err(Error::Io)),
                    }
                } else if *sent > 0 {
                    Step::Done(Ok(*sent))
                } else {
                    suspend(conn, waker, Interest { recv: false, send: true })
                }
            },
        }
    }
}

} // verus!
