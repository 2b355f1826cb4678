//! Opening and closing a connection: listen, connect, accept, close.

use vstd::prelude::*;
use smoltcp::iface::Interface;
use smoltcp::socket::tcp::Socket as Connection;
use smoltcp::time::Duration;
use core::task::Waker;
use crate::endpoint::{any_address, Endpoint, IpAddress, IpEndpoint};
use crate::engine::{
    addresses, connect, iface_addrs, listen, remote_endpoint, reset_into, state, view_of, ConnView,
};
use crate::error::Error;
use crate::port::{get_ephemeral_port, successor, EphemeralPorts};
use crate::socket::{after_turn, suspend, Socket, SocketView};
use crate::source::{find_source, has_source, unspecified};
use crate::state::State;
use crate::step::{Interest, Step};

verus! {

/// The interval between keep-alive probes on an accepted connection, in
/// milliseconds.
pub const DEFAULT_KEEP_ALIVE_INTERVAL: u64 = 75000;

/// Where an accept stands.
#[derive(Clone, Copy, Debug, PartialEq, Eq, Structural)]
pub enum AcceptPhase {
    /// Waiting for the connection to listen or to be established.
    Alive,
    /// Waiting for a peer to be connected.
    Active,
}

/// Where a close stands.
#[derive(Clone, Copy, Debug, PartialEq, Eq, Structural)]
pub enum ClosePhase {
    /// The transmit half is to be closed.
    Start,
    /// Waiting for the connection to wind down.
    Drain,
}

/// Whether the first phase of an accept is over: the connection is closed, and
/// is made to listen in this turn, or listens or is established already.
pub open spec fn is_alive(state: State) -> bool {
    state == State::Closed || state == State::Listen || state == State::Established
}

/// Whether a connection in this state is lost to an accept: it is closed, or
/// it winds down without ever having been handed out.
pub open spec fn is_lost(state: State) -> bool {
    state == State::Closed || state == State::Closing || state == State::FinWait1 || state
        == State::FinWait2
}

/// What one turn of an accept comes to.
///
/// The first phase is over once the connection is alive. The second fails
/// with an I/O fault on a connection that is lost, resolves with the peer on
/// one that is established, and waits for the receiver's waker in every other
/// state, a handshake under way among them.
pub open spec fn accept_outcome(phase: AcceptPhase, v: ConnView) -> Step<Result<Endpoint, Error>> {
    match phase {
        AcceptPhase::Alive => if is_alive(v.state) {
            Step::Again
        } else {
            Step::Wait(Interest { recv: true, send: false })
        },
        AcceptPhase::Active => if is_lost(v.state) {
            Step::Done(Err(Error::Io))
        } else if v.state == State::Established {
            match v.remote {
                Some(peer) => Step::Done(Ok(Endpoint::Ip(peer))),
                None => Step::Done(Err(Error::Io)),
            }
        } else {
            Step::Wait(Interest { recv: true, send: false })
        },
    }
}

/// The phase that an accept is in after one turn.
pub open spec fn accept_next(phase: AcceptPhase, v: ConnView) -> AcceptPhase {
    if phase == AcceptPhase::Alive && !is_alive(v.state) {
        AcceptPhase::Alive
    } else {
        AcceptPhase::Active
    }
}

/// The connection after one turn of an accept on a socket bound to `port`.
/// In the first phase a closed connection starts to listen, if the socket is
/// bound. A turn that resolves with a peer has set the keep-alive interval.
/// Every other turn leaves the connection alone, but for the waker of a wait.
pub open spec fn accept_effect(
    phase: AcceptPhase,
    port: u16,
    before: ConnView,
    after: ConnView,
) -> bool {
    if phase == AcceptPhase::Alive && before.state == State::Closed && port != 0 {
        reset_into(before, after, State::Listen, any_address(port), None, None)
    } else if accept_outcome(phase, before) matches Step::Done(Ok(_)) {
        after == (ConnView {
            keep_alive: Some((DEFAULT_KEEP_ALIVE_INTERVAL * 1000) as nat),
            ..before
        })
    } else {
        after == after_turn(before, accept_outcome(phase, before))
    }
}

/// What one turn of a close comes to.
pub open spec fn close_outcome(phase: ClosePhase, v: ConnView) -> Step<Result<(), Error>> {
    match phase {
        ClosePhase::Start => if v.state.is_active() {
            Step::Again
        } else {
            Step::Done(Err(Error::Io))
        },
        ClosePhase::Drain => if v.state.is_active() {
            Step::Wait(Interest { recv: true, send: true })
        } else {
            Step::Done(Ok(()))
        },
    }
}

/// Whether a connection seen as `v` can be opened towards `peer` from
/// `port` at one of the addresses `addrs`.
pub open spec fn can_connect(
    v: ConnView,
    addrs: Seq<IpAddress>,
    peer: IpEndpoint,
    port: u16,
) -> bool {
    &&& !v.state.is_open()
    &&& peer.port != 0
    &&& port != 0
    &&& !unspecified(peer.addr)
    &&& has_source(addrs, peer.addr)
}

/// What the wait for a handshake comes to.
pub open spec fn connect_outcome(v: ConnView) -> Step<Result<(), Error>> {
    if v.state == State::Closed || v.state == State::TimeWait {
        Step::Done(Err(Error::Fault))
    } else if v.state == State::Listen {
        Step::Done(Err(Error::Io))
    } else if v.state.is_connecting() {
        Step::Wait(Interest { recv: false, send: true })
    } else {
        Step::Done(Ok(()))
    }
}

impl Socket {
    /// Starts to listen on the bound port. The backlog is advisory: the
    /// connection takes one peer.
    ///
    /// Succeeds exactly where the connection is not open and the socket is
    /// bound. The `listen` flag is set wherever the connection is not open,
    /// bound or not. A failure is an I/O fault and leaves the connection as
    /// it is.
    pub fn listen(&mut self, conn: &mut Connection<'_>, _backlog: i32) -> (r: Result<(), Error>)
        ensures
            r is Ok <==> !view_of(old(conn)).state.is_open() && old(self)@.port != 0,
            r is Err ==> r == Err::<(), Error>(Error::Io),
            final(self)@ == (SocketView {
                listen: old(self)@.listen || !view_of(old(conn)).state.is_open(),
                ..old(self)@
            }),
            r is Ok ==> reset_into(
                view_of(old(conn)),
                view_of(final(conn)),
                State::Listen,
                any_address(old(self)@.port),
                None,
                None,
            ),
            r is Err ==> view_of(final(conn)) == view_of(old(conn)),
    {
        if !conn.is_open() {
            self.listen = true;
            Error::io(listen(conn, self.port))
        } else {
            Err(Error::Io)
        }
    }

    /// Opens the connection actively towards `endpoint`, from the next
    /// ephemeral port at an address of `iface`.
    ///
    /// An endpoint outside the internet family fails with an I/O fault and
    /// draws no port. Otherwise one port is drawn, and the open succeeds
    /// exactly where [`can_connect`] holds: the connection is not open,
    /// neither port is 0, the peer's address is specified and the interface
    /// has an address to reach it from. Then the connection is reset and
    /// sends its SYN from the drawn port to `endpoint`. Every failure is an
    /// I/O fault and leaves the connection as it was.
    pub fn start_connect(
        &self,
        conn: &mut Connection<'_>,
        iface: &mut Interface,
        endpoint: Endpoint,
        ports: &mut EphemeralPorts,
    ) -> (r: Result<(), Error>)
        ensures
            r is Err ==> r == Err::<(), Error>(Error::Io)
                && view_of(final(conn)) == view_of(old(conn)),
            endpoint is Vsock ==> r is Err && final(ports)@ == old(ports)@,
            endpoint matches Endpoint::Ip(peer) ==> {
                &&& final(ports)@ == successor(old(ports)@)
                &&& r is Ok <==> can_connect(
                    view_of(old(conn)),
                    iface_addrs(old(iface)),
                    peer,
                    old(ports)@,
                )
                &&& r is Ok ==> {
                    &&& view_of(final(conn)).local matches Some(local)
                        && local.port == old(ports)@
                    &&& reset_into(
                        view_of(old(conn)),
                        view_of(final(conn)),
                        State::SynSent,
                        any_address(0),
                        view_of(final(conn)).local,
                        Some(peer),
                    )
                }
            },
            iface_addrs(final(iface)) == iface_addrs(old(iface)),
    {
        match endpoint {
            Endpoint::Ip(peer) => {
                let port = get_ephemeral_port(ports);
                let reachable = match peer.addr {
                    IpAddress::Ipv4(_) => true,
                    IpAddress::Ipv6(_) => find_source(&addresses(iface), &peer.addr),
                };
                if reachable {
                    Error::io(connect(conn, iface, peer, port))
                } else {
                    Err(Error::Io)
                }
            },
            Endpoint::Vsock(_) => Err(Error::Io),
        }
    }

    /// One turn of the wait for the handshake that [`Socket::start_connect`]
    /// began.
    ///
    /// A connection that fell back to `Closed` or `TimeWait` fails with a
    /// fault, a listening one with an I/O fault; while the handshake runs the
    /// turn registers the sender's waker and waits; any other state is
    /// success. But for that waker the connection is left as it is.
    pub fn poll_connect(&self, conn: &mut Connection<'_>, waker: &Waker) -> (step: Step<
        Result<(), Error>,
    >)
        ensures
            step == connect_outcome(view_of(old(conn))),
            view_of(final(conn)) == after_turn(view_of(old(conn)), step),
            step is Wait ==> view_of(final(conn)).tx_waker,
    {
        match state(conn) {
            State::Closed | State::TimeWait => Step::Done(Err(Error::Fault)),
            State::Listen => Step::Done(Err(Error::Io)),
            State::SynSent | State::SynReceived => suspend(
                conn,
                waker,
                Interest { recv: false, send: true },
            ),
            _ => Step::Done(Ok(())),
        }
    }

    /// One turn of an accept.
    ///
    /// The accept goes through two phases in order. First the connection has
    /// to be alive: a closed one is made to listen on the bound port,
    /// whatever the engine says to that. Then a peer has to be connected. A
    /// connection found closed or winding down at that point fails the accept
    /// with an I/O fault and is left as it is. One found established has its
    /// keep-alive interval set, in the same turn, and its peer returned; an
    /// established connection without a peer is an I/O fault. In every other
    /// state the turn registers the receiver's waker and waits.
    pub fn poll_accept(
        &self,
        phase: &mut AcceptPhase,
        conn: &mut Connection<'_>,
        waker: &Waker,
    ) -> (step: Step<Result<Endpoint, Error>>)
        ensures
            step == accept_outcome(*old(phase), view_of(old(conn))),
            *final(phase) == accept_next(*old(phase), view_of(old(conn))),
            accept_effect(*old(phase), self@.port, view_of(old(conn)), view_of(final(conn))),
            step matches Step::Done(Ok(_)) ==> {
                &&& *old(phase) == AcceptPhase::Active
                &&& view_of(old(conn)).state == State::Established
                &&& view_of(final(conn)).state == State::Established
                &&& view_of(final(conn)).keep_alive == Some(
                    (DEFAULT_KEEP_ALIVE_INTERVAL * 1000) as nat,
                )
            },
            step matches Step::Done(Err(_)) ==> view_of(final(conn)) == view_of(old(conn)),
            *old(phase) == AcceptPhase::Active && is_lost(view_of(old(conn)).state) ==> step
                == Step::Done(Err::<Endpoint, Error>(Error::Io)),
            step is Wait ==> view_of(final(conn)).rx_waker,
    {
        match *phase {
            AcceptPhase::Alive => match state(conn) {
                State::Closed => {
                    let _ = listen(conn, self.port);
                    *phase = AcceptPhase::Active;
                    Step::Again
                },
                State::Listen | State::Established => {
                    *phase = AcceptPhase::Active;
                    Step::Again
                },
                _ => suspend(conn, waker, Interest { recv: true, send: false }),
            },
            AcceptPhase::Active => match state(conn) {
                State::Closed | State::Closing | State::FinWait1 | State::FinWait2 => {
                    Step::Done(Err(Error::Io))
                },
                State::Established => match remote_endpoint(conn) {
                    Some(peer) => {
                        conn.set_keep_alive(
                            Some(Duration::from_millis(DEFAULT_KEEP_ALIVE_INTERVAL)),
                        );
                        Step::Done(Ok(Endpoint::Ip(peer)))
                    },
                    None => Step::Done(Err(Error::Io)),
                },
                _ => suspend(conn, waker, Interest { recv: true, send: false }),
            },
        }
    }

    /// One turn of a graceful close.
    ///
    /// The first phase closes the transmit half of an active connection and
    /// fails with an I/O fault on one that is not active. The second
    /// registers both wakers and waits, until it finds the connection no
    /// longer active.
    pub fn poll_close(
        &self,
        phase: &mut ClosePhase,
        conn: &mut Connection<'_>,
        waker: &Waker,
    ) -> (step: Step<Result<(), Error>>)
        ensures
            step == close_outcome(*old(phase), view_of(old(conn))),
            *final(phase) == (if step is Again {
                ClosePhase::Drain
            } else {
                *old(phase)
            }),
            view_of(final(conn)) == (if step is Again {
                view_of(old(conn)).closed()
            } else {
                after_turn(view_of(old(conn)), step)
            }),
            step is Wait ==> view_of(final(conn)).rx_waker && view_of(final(conn)).tx_waker,
    {
        match *phase {
            ClosePhase::Start => {
                if conn.is_active() {
                    conn.close();
                    *phase = ClosePhase::Drain;
                    Step::Again
                } else {
                    Step::Done(Err(Error::Io))
                }
            },
            ClosePhase::Drain => {
                if !conn.is_active() {
                    Step::Done(Ok(()))
                } else {
                    suspend(conn, waker, Interest { recv: true, send: true })
                }
            },
        }
    }
}

} // verus!
