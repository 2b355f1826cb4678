//! What holds of the socket's operations in general, proved from their
//! definitions.

use vstd::prelude::*;
use crate::engine::ConnView;
use crate::error::Error;
use crate::event::PollEvent;
use crate::endpoint::Endpoint;
use crate::establish::{
    accept_next, accept_outcome, close_outcome, is_lost, AcceptPhase, ClosePhase,
};
use crate::readiness::poll_outcome;
use crate::socket::{after_turn, concluded};
use crate::state::State;
use crate::step::{Interest, Step};
use crate::transfer::{read_outcome, write_count, write_outcome};

verus! {

/// A write on a connection whose peer is gone or going succeeds with the
/// octets queued so far, even if there are none: it never fails.
pub proof fn lemma_write_on_ended_connection_succeeds(v: ConnView, sent: usize, len: usize)
    requires
        v.state.is_ended(),
    ensures
        write_outcome(v, sent as nat, len as nat) == Step::Done(Ok::<usize, Error>(sent)),
{
}

/// On a connection that winds down or listens, a read fails with an I/O
/// fault, and so does a write that has anything left to send.
pub proof fn lemma_transfer_on_faulty_connection_fails(
    v: ConnView,
    capacity: nat,
    sent: nat,
    len: nat,
)
    requires
        v.state.is_faulty(),
        sent < len,
    ensures
        read_outcome(v, capacity) == Step::Done(Err::<usize, Error>(Error::Io)),
        write_outcome(v, sent, len) == Step::Done(Err::<usize, Error>(Error::Io)),
{
}

/// A read on a closed connection succeeds with no octets, which tells the end
/// of the stream from every fault.
pub proof fn lemma_read_on_closed_connection_ends(v: ConnView, capacity: nat)
    requires
        v.state == State::Closed,
    ensures
        read_outcome(v, capacity) == Step::Done(Ok::<usize, Error>(0)),
        !(read_outcome(v, capacity) matches Step::Done(Err(_))),
{
}

/// A read never takes more than the buffer holds, nor more than the
/// connection has.
pub proof fn lemma_read_takes_no_more_than_asked(v: ConnView, capacity: nat)
    requires
        v.rx_run <= v.rx.len(),
    ensures
        read_outcome(v, capacity) matches Step::Done(Ok(n)) ==> n <= capacity && n <= v.rx.len(),
{
}

/// In non-blocking mode no operation reports a timeout: one that the
/// scheduler gave up on at once reports that it would block.
pub proof fn lemma_nonblocking_never_times_out<T>(waited: Result<T, Error>)
    ensures
        concluded(true, waited) != Err::<T, Error>(Error::TimedOut),
        waited == Err::<T, Error>(Error::TimedOut) ==> concluded(true, waited) == Err::<T, Error>(
            Error::WouldBlock,
        ),
        waited != Err::<T, Error>(Error::TimedOut) ==> concluded(true, waited) == waited,
{
}

/// In blocking mode every result of the scheduler passes through.
pub proof fn lemma_blocking_passes_through<T>(waited: Result<T, Error>)
    ensures
        concluded(false, waited) == waited,
{
}

/// A readiness query on a listening connection is never answered at once,
/// whatever it asks for: it waits for the connection to change, with both
/// wakers registered.
pub proof fn lemma_listening_is_never_ready(v: ConnView, fresh: bool, event: PollEvent)
    requires
        v.state == State::Listen,
    ensures
        poll_outcome(v, fresh, event) == Step::<Result<PollEvent, Error>>::Wait(
            Interest { recv: true, send: true },
        ),
{
}

/// A turn that waits has registered with the connection every waker that it
/// names; a turn that does not wait has registered none.
pub proof fn lemma_wait_means_registered<T>(v: ConnView, step: Step<T>)
    ensures
        step matches Step::Wait(interest) ==> {
            &&& interest.recv ==> after_turn(v, step).rx_waker
            &&& interest.send ==> after_turn(v, step).tx_waker
            &&& !interest.recv ==> after_turn(v, step).rx_waker == v.rx_waker
            &&& !interest.send ==> after_turn(v, step).tx_waker == v.tx_waker
        },
        !(step is Wait) ==> after_turn(v, step) == v,
{
}

/// A readiness query that is answered holds at least one event.
pub proof fn lemma_answered_query_is_not_empty(v: ConnView, fresh: bool, event: PollEvent)
    ensures
        poll_outcome(v, fresh, event) matches Step::Done(Ok(ready)) ==> ready.bits != 0,
{
    let h = crate::event::POLLHUP;
    assert(h != 0);
}

/// A turn of a write that finds room in the transmit buffer queues at least
/// one octet, and never ends the write short of the whole buffer.
pub proof fn lemma_write_with_room_is_not_short(v: ConnView, sent: nat, len: nat)
    requires
        sent < len <= usize::MAX,
        !v.state.is_ended(),
        !v.state.is_faulty(),
        v.can_send(),
    ensures
        write_count(v, sent, len) >= 1,
        sent + write_count(v, sent, len) <= len,
        write_outcome(v, sent, len) is Again || write_outcome(v, sent, len) == Step::Done(
            Ok::<usize, Error>(len as usize),
        ),
{
}

/// A write that has queued something never waits: it ends with what it has
/// where the connection takes no more.
pub proof fn lemma_partial_write_never_waits(v: ConnView, sent: nat, len: nat)
    requires
        sent > 0,
    ensures
        !(write_outcome(v, sent, len) is Wait),
{
}

/// An accept never goes back a phase, and takes its next turn at once
/// exactly when it goes forward.
pub proof fn lemma_accept_goes_forward(phase: AcceptPhase, v: ConnView)
    ensures
        phase == AcceptPhase::Active ==> accept_next(phase, v) == AcceptPhase::Active,
        accept_outcome(phase, v) is Again <==> accept_next(phase, v) != phase,
{
}

/// An accept resolves with a peer only in its second phase and only on an
/// established connection. In that phase it fails on every connection that is
/// closed or winds down, and waits while a handshake is under way.
pub proof fn lemma_accept_succeeds_when_established(phase: AcceptPhase, v: ConnView)
    ensures
        accept_outcome(phase, v) matches Step::Done(Ok(_)) ==> phase == AcceptPhase::Active
            && v.state == State::Established,
        phase == AcceptPhase::Active && is_lost(v.state) ==> accept_outcome(phase, v)
            == Step::Done(Err::<Endpoint, Error>(Error::Io)),
        phase == AcceptPhase::Active && v.state.is_connecting() ==> accept_outcome(phase, v)
            is Wait,
{
}

/// A close succeeds only from its second phase, and only on a connection
/// that is no longer active.
pub proof fn lemma_close_ends_inactive(phase: ClosePhase, v: ConnView)
    ensures
        close_outcome(phase, v) matches Step::Done(Ok(_)) ==> phase == ClosePhase::Drain
            && !v.state.is_active(),
        close_outcome(phase, v) matches Step::Done(Err(_)) ==> phase == ClosePhase::Start
            && !v.state.is_active(),
{
}

} // verus!
