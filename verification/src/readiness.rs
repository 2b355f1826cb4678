//! The readiness query: which of the requested events a connection offers.

use vstd::prelude::*;
use smoltcp::socket::tcp::Socket as Connection;
use core::task::Waker;
use crate::engine::{state, view_of, ConnView};
use crate::error::Error;
use crate::event::{PollEvent, POLLHUP, READ_EVENTS, WRITE_EVENTS};
use crate::socket::{after_turn, suspend, Socket, SocketView};
use crate::state::State;
use crate::step::{Interest, Step};

verus! {

/// Whether a connection counts as readable: octets wait, or the receive half
/// is open and the socket has not yet spent its `listen` flag.
pub open spec fn readable(v: ConnView, fresh: bool) -> bool {
    v.can_recv() || (v.may_recv() && fresh)
}

/// The events that an established connection offers.
pub open spec fn offered(v: ConnView, fresh: bool) -> u16 {
    if readable(v, fresh) && v.can_send() {
        READ_EVENTS | WRITE_EVENTS
    } else if readable(v, fresh) {
        READ_EVENTS
    } else if v.can_send() {
        WRITE_EVENTS
    } else {
        0
    }
}

/// The wakers to register for a query that nothing answers yet: one for each
/// direction that the query asks about.
pub open spec fn asked(event: PollEvent) -> Interest {
    Interest { recv: event.bits & READ_EVENTS != 0, send: event.bits & WRITE_EVENTS != 0 }
}

/// What a readiness query comes to.
///
/// A connection whose peer is gone or going offers every read and write
/// event, and a hang-up where none of them is asked for. One that only winds
/// down reports a hang-up whatever is asked. A listening one is never ready.
/// Any other offers what [`offered`] says, and waits where that meets nothing
/// of the query.
pub open spec fn poll_outcome(v: ConnView, fresh: bool, event: PollEvent) -> Step<
    Result<PollEvent, Error>,
> {
    if v.state.is_ended() {
        if event.bits & (READ_EVENTS | WRITE_EVENTS) == 0 {
            Step::Done(Ok(PollEvent { bits: POLLHUP }))
        } else {
            Step::Done(Ok(PollEvent { bits: event.bits & (READ_EVENTS | WRITE_EVENTS) }))
        }
    } else if v.state == State::FinWait1 || v.state == State::FinWait2 || v.state
        == State::TimeWait {
        Step::Done(Ok(PollEvent { bits: POLLHUP }))
    } else if v.state == State::Listen {
        Step::Wait(Interest { recv: true, send: true })
    } else if event.bits & offered(v, fresh) == 0 {
        Step::Wait(asked(event))
    } else {
        Step::Done(Ok(PollEvent { bits: event.bits & offered(v, fresh) }))
    }
}

/// Whether the query spends the socket's `listen` flag: it does where it has
/// to look at the flag, which is on a connection that moves data, has its
/// receive half open and holds no octets.
pub open spec fn spends_flag(v: ConnView) -> bool {
    !v.state.is_ended() && !v.state.is_faulty() && !v.can_recv() && v.may_recv()
}

impl Socket {
    /// One turn of the readiness query for `event`.
    ///
    /// The turn resolves at once with the events of `event` that the
    /// connection offers, and then leaves the connection as it is; or it
    /// waits, and then has registered with the connection the wakers that
    /// [`poll_outcome`] names and no other. A listening connection is never
    /// ready: the query always waits for it to change, with both wakers
    /// registered.
    pub fn poll(
        &mut self,
        conn: &mut Connection<'_>,
        waker: &Waker,
        event: PollEvent,
    ) -> (step: Step<Result<PollEvent, Error>>)
        ensures
            step == poll_outcome(view_of(old(conn)), old(self)@.listen, event),
            view_of(old(conn)).state == State::Listen ==> step is Wait,
            !(step matches Step::Done(Err(_))) && !(step is Again),
            final(self)@ == (SocketView {
                listen: old(self)@.listen && !spends_flag(view_of(old(conn))),
                ..old(self)@
            }),
            view_of(final(conn)) == after_turn(view_of(old(conn)), step),
            view_of(old(conn)).state == State::Listen ==> view_of(final(conn)).rx_waker
                && view_of(final(conn)).tx_waker,
    {
        match state(conn) {
            State::Closed | State::Closing | State::CloseWait => {
                let available = PollEvent::from_bits(READ_EVENTS | WRITE_EVENTS);
                let ret = event.intersection(available);
                if ret.is_empty() {
                    Step::Done(Ok(PollEvent::from_bits(POLLHUP)))
                } else {
                    Step::Done(Ok(ret))
                }
            },
            State::FinWait1 | State::FinWait2 | State::TimeWait => {
                Step::Done(Ok(PollEvent::from_bits(POLLHUP)))
            },
            State::Listen => suspend(conn, waker, Interest { recv: true, send: true }),
            _ => {
                let mut available = PollEvent::empty();
                if conn.can_recv() || conn.may_recv() && self.take_listen_flag() {
                    available.insert(PollEvent::from_bits(READ_EVENTS));
                }
                if conn.can_send() {
                    available.insert(PollEvent::from_bits(WRITE_EVENTS));
                }
                proof {
                    let r = READ_EVENTS;
                    let w = WRITE_EVENTS;
                    assert(0u16 | r == r) by (bit_vector);
                    assert(0u16 | w == w) by (bit_vector);
                }
                let ret = event.intersection(available);
                if ret.is_empty() {
                    let interest = Interest {
                        recv: event.intersects(PollEvent::from_bits(READ_EVENTS)),
                        send: event.intersects(PollEvent::from_bits(WRITE_EVENTS)),
                    };
                    suspend(conn, waker, interest)
                } else {
                    Step::Done(Ok(ret))
                }
            },
        }
    }

    /// Clears the `listen` flag and returns what it was.
    fn take_listen_flag(&mut self) -> (was: bool)
        ensures
            was == old(self)@.listen,
            final(self)@ == (SocketView { listen: false, ..old(self)@ }),
    {
        let was = self.listen;
        self.listen = false;
        was
    }
}

} // verus!
