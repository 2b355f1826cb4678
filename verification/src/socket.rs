//! The socket: a handle into the engine's connection table and the local
//! state that goes with it.

use vstd::prelude::*;
use smoltcp::iface::SocketHandle;
use smoltcp::socket::tcp::Socket as Connection;
use core::task::Waker;
use smoltcp::time::Duration;
use crate::endpoint::{any_address, as_peer, Endpoint, ListenEndpoint};
use crate::engine::{
    listens_on, local_endpoint, remote_endpoint, reset_into, view_of, ConnView,
};
use crate::error::Error;
use crate::options::{is_direction, IoCtl, SocketOption, ACK_DELAY, SHUT_RD, SHUT_RDWR, SHUT_WR};
use crate::state::State;
use crate::step::{Deadline, Interest, Step};

verus! {

/// A TCP socket.
///
/// The engine owns the connection; the socket owns the handle that names it,
/// and never shares it. Every operation that touches the connection takes it
/// as an argument: the caller looks it up under [`Socket::handle`] inside one
/// critical section on the engine.
#[derive(Debug)]
pub struct Socket {
    pub(crate) handle: SocketHandle,
    pub(crate) port: u16,
    pub(crate) nonblocking: bool,
    pub(crate) listen: bool,
}

/// What a socket holds.
pub struct SocketView {
    /// The connection in the engine's table.
    pub handle: SocketHandle,
    /// The bound port; 0 while unbound.
    pub port: u16,
    /// Whether operations give up instead of waiting.
    pub nonblocking: bool,
    /// Set by `listen` and spent by the first readiness query that finds the
    /// receive half open without data.
    pub listen: bool,
}

impl View for Socket {
    type V = SocketView;

    open(crate) spec fn view(&self) -> SocketView {
        SocketView {
            handle: self.handle,
            port: self.port,
            nonblocking: self.nonblocking,
            listen: self.listen,
        }
    }
}

/// What an operation returns once the scheduler has given back `waited`: in
/// non-blocking mode a timeout means that the operation would have had to
/// wait; everything else passes through.
pub open spec fn concluded<T>(nonblocking: bool, waited: Result<T, Error>) -> Result<T, Error> {
    if nonblocking && waited == Err::<T, Error>(Error::TimedOut) {
        Err(Error::WouldBlock)
    } else {
        waited
    }
}

/// The connection once the wakers named by `interest` are registered with it.
pub open spec fn armed(v: ConnView, interest: Interest) -> ConnView {
    ConnView {
        rx_waker: v.rx_waker || interest.recv,
        tx_waker: v.tx_waker || interest.send,
        ..v
    }
}

/// The connection after a turn that left it alone but for what a wait asks:
/// a turn that waits has registered the wakers that it names, any other has
/// registered none.
pub open spec fn after_turn<T>(v: ConnView, step: Step<T>) -> ConnView {
    match step {
        Step::Wait(interest) => armed(v, interest),
        _ => v,
    }
}

/// What a duplicate of a socket bound to `port` in mode `nonblocking` holds.
pub open spec fn twin_of(handle: SocketHandle, port: u16, nonblocking: bool) -> SocketView {
    SocketView { handle, port, nonblocking, listen: port != 0 }
}

/// The acknowledgement delay that goes with a setting of the no-delay option,
/// in microseconds: none with the option on, the fixed delay with it off.
pub open spec fn coupled_ack_delay(nodelay: bool) -> Option<nat> {
    if nodelay {
        None
    } else {
        Some((ACK_DELAY * 1000) as nat)
    }
}

impl Socket {
    /// A socket for the connection under `handle`: unbound, blocking.
    pub fn new(handle: SocketHandle) -> (socket: Socket)
        ensures
            socket@ == (SocketView { handle, port: 0, nonblocking: false, listen: false }),
    {
        Socket { handle, port: 0, nonblocking: false, listen: false }
    }

    /// The handle of the socket's connection.
    pub fn handle(&self) -> (handle: SocketHandle)
        ensures
            handle == self@.handle,
    {
        self.handle
    }

    /// The bound port; 0 while unbound.
    pub fn port(&self) -> (port: u16)
        ensures
            port == self@.port,
    {
        self.port
    }

    /// Whether the socket is in non-blocking mode.
    pub fn is_nonblocking(&self) -> (nonblocking: bool)
        ensures
            nonblocking == self@.nonblocking,
    {
        self.nonblocking
    }

    /// Binds the socket to the port of `endpoint`. An endpoint outside the
    /// internet family is an I/O fault and changes nothing.
    pub fn bind(&mut self, endpoint: ListenEndpoint) -> (r: Result<(), Error>)
        ensures
            endpoint matches ListenEndpoint::Ip(ip) ==> r is Ok && final(self)@ == (SocketView {
                port: ip.port,
                ..old(self)@
            }),
            endpoint is Vsock ==> r == Err::<(), Error>(Error::Io) && final(self)@ == old(self)@,
    {
        match endpoint {
            ListenEndpoint::Ip(ip) => {
                self.port = ip.port;
                Ok(())
            },
            ListenEndpoint::Vsock(_) => Err(Error::Io),
        }
    }

    /// Answers a control request: switches non-blocking mode on or off. Any
    /// other request is an invalid argument and changes nothing.
    pub fn ioctl(&mut self, cmd: IoCtl, value: bool) -> (r: Result<(), Error>)
        ensures
            cmd == IoCtl::NonBlocking ==> r is Ok && final(self)@ == (SocketView {
                nonblocking: value,
                ..old(self)@
            }),
            cmd != IoCtl::NonBlocking ==> r == Err::<(), Error>(Error::InvalidArgument)
                && final(self)@ == old(self)@,
    {
        match cmd {
            IoCtl::NonBlocking => {
                self.nonblocking = value;
                Ok(())
            },
            IoCtl::Other(_) => Err(Error::InvalidArgument),
        }
    }

    /// Checks a shutdown direction. The connection itself is shut down by the
    /// graceful close of the teardown; a direction that does not exist is an
    /// invalid argument.
    pub fn shutdown(&self, how: i32) -> (r: Result<(), Error>)
        ensures
            is_direction(how) ==> r is Ok,
            !is_direction(how) ==> r == Err::<(), Error>(Error::InvalidArgument),
    {
        if how == SHUT_RD || how == SHUT_WR || how == SHUT_RDWR {
            Ok(())
        } else {
            Err(Error::InvalidArgument)
        }
    }

    /// How long the scheduler may wait for an operation on this socket:
    /// without bound in blocking mode, not at all in non-blocking mode.
    pub fn deadline(&self) -> (deadline: Deadline)
        ensures
            deadline == (if self@.nonblocking {
                Deadline::Immediate
            } else {
                Deadline::Unbounded
            }),
    {
        if self.nonblocking {
            Deadline::Immediate
        } else {
            Deadline::Unbounded
        }
    }

    /// The result of an operation that the scheduler ran under
    /// [`Socket::deadline`] and gave back as `waited`. In non-blocking mode a
    /// timeout becomes would-block, so that no operation of a non-blocking
    /// socket ever reports a timeout.
    pub fn conclude<T>(&self, waited: Result<T, Error>) -> (r: Result<T, Error>)
        ensures
            r == concluded(self@.nonblocking, waited),
            self@.nonblocking ==> r != Err::<T, Error>(Error::TimedOut),
            self@.nonblocking && waited == Err::<T, Error>(Error::TimedOut) ==> r == Err::<
                T,
                Error,
            >(Error::WouldBlock),
    {
        match waited {
            Err(Error::TimedOut) => {
                if self.nonblocking {
                    Err(Error::WouldBlock)
                } else {
                    Err(Error::TimedOut)
                }
            },
            other => other,
        }
    }

    /// The remote end of the connection, where it has one.
    pub fn getpeername(&self, conn: &Connection<'_>) -> (peer: Option<Endpoint>)
        ensures
            peer == as_peer(view_of(conn).remote),
    {
        match remote_endpoint(conn) {
            Some(endpoint) => Some(Endpoint::Ip(endpoint)),
            None => None,
        }
    }

    /// The local end of the connection, where it has one.
    pub fn getsockname(&self, conn: &Connection<'_>) -> (name: Option<Endpoint>)
        ensures
            name == as_peer(view_of(conn).local),
    {
        match local_endpoint(conn) {
            Some(endpoint) => Some(Endpoint::Ip(endpoint)),
            None => None,
        }
    }

    /// Sets an option. The no-delay option sets the engine's Nagle switch to
    /// the value given and the acknowledgement delay along with it: none with
    /// the value on, [`ACK_DELAY`] with it off. Any other option is an invalid
    /// argument and changes nothing.
    pub fn setsockopt(
        &self,
        conn: &mut Connection<'_>,
        opt: SocketOption,
        optval: bool,
    ) -> (r: Result<(), Error>)
        ensures
            opt == SocketOption::TcpNoDelay ==> r is Ok && view_of(final(conn)) == (ConnView {
                nagle: optval,
                ack_delay: coupled_ack_delay(optval),
                ..view_of(old(conn))
            }),
            opt != SocketOption::TcpNoDelay ==> r == Err::<(), Error>(Error::InvalidArgument)
                && view_of(final(conn)) == view_of(old(conn)),
    {
        match opt {
            SocketOption::TcpNoDelay => {
                conn.set_nagle_enabled(optval);
                if optval {
                    conn.set_ack_delay(None);
                } else {
                    conn.set_ack_delay(Some(Duration::from_millis(ACK_DELAY)));
                }
                Ok(())
            },
            SocketOption::Other(_) => Err(Error::InvalidArgument),
        }
    }

    /// Reads an option. The no-delay option reads the engine's Nagle switch;
    /// any other option is an invalid argument.
    pub fn getsockopt(&self, conn: &Connection<'_>, opt: SocketOption) -> (r: Result<bool, Error>)
        ensures
            opt == SocketOption::TcpNoDelay ==> r == Ok::<bool, Error>(view_of(conn).nagle),
            opt != SocketOption::TcpNoDelay ==> r == Err::<bool, Error>(Error::InvalidArgument),
    {
        match opt {
            SocketOption::TcpNoDelay => Ok(conn.nagle_enabled()),
            SocketOption::Other(_) => Err(Error::InvalidArgument),
        }
    }

    /// A second socket like this one, for the fresh connection under
    /// `handle`.
    ///
    /// The new socket takes over the port and the mode, never the handle. An
    /// unbound socket is duplicated without a word to the engine. A bound one
    /// has its duplicate listen on the same port at once, which a fresh
    /// connection never refuses. The duplicate of a bound socket must not be
    /// given a connection that is open already: there is no way to go on from
    /// there. [`Socket::try_duplicate`] tells that case apart.
    pub fn duplicate(&self, handle: SocketHandle, conn: &mut Connection<'_>) -> (twin: Socket)
        requires
            self@.port != 0 ==> !view_of(old(conn)).state.is_open(),
        ensures
            twin@ == twin_of(handle, self@.port, self@.nonblocking),
            self@.port == 0 ==> view_of(final(conn)) == view_of(old(conn)),
            self@.port != 0 ==> listens_on(view_of(final(conn)), self@.port),
            self@.port != 0 ==> reset_into(
                view_of(old(conn)),
                view_of(final(conn)),
                State::Listen,
                any_address(self@.port),
                None,
                None,
            ),
    {
        let mut twin = Socket {
            handle,
            port: self.port,
            nonblocking: self.nonblocking,
            listen: false,
        };
        if self.port > 0 {
            let _ = twin.listen(conn, 1024);
        }
        twin
    }

    /// A second socket like this one for the connection under `handle`, if
    /// that connection can serve: none, and nothing done, where the socket is
    /// bound and the connection is open already.
    pub fn try_duplicate(&self, handle: SocketHandle, conn: &mut Connection<'_>) -> (r: Option<
        Socket,
    >)
        ensures
            r is Some <==> self@.port == 0 || !view_of(old(conn)).state.is_open(),
            r matches Some(twin) ==> twin@ == twin_of(handle, self@.port, self@.nonblocking),
            r is None || self@.port == 0 ==> view_of(final(conn)) == view_of(old(conn)),
            r is Some && self@.port != 0 ==> listens_on(view_of(final(conn)), self@.port),
            r is Some && self@.port != 0 ==> reset_into(
                view_of(old(conn)),
                view_of(final(conn)),
                State::Listen,
                any_address(self@.port),
                None,
                None,
            ),
    {
        if self.port > 0 && conn.is_open() {
            None
        } else {
            Some(self.duplicate(handle, conn))
        }
    }

    /// Ends the socket's life and hands back its handle for release.
    ///
    /// `closed` is what became of the graceful close that goes before. It
    /// makes no difference: the handle comes back whether the close
    /// succeeded or not. The socket is used up, so that no handle is handed
    /// back twice.
    pub fn destroy(self, closed: Result<(), Error>) -> (handle: SocketHandle)
        ensures
            handle == self@.handle,
    {
        let _ = closed;
        self.handle
    }
}

/// Registers `waker` for the changes named by `interest` and reports the
/// operation as waiting for them.
pub(crate) fn suspend<T>(
    conn: &mut Connection<'_>,
    waker: &Waker,
    interest: Interest,
) -> (step: Step<T>)
    ensures
        step == Step::<T>::Wait(interest),
        view_of(final(conn)) == armed(view_of(old(conn)), interest),
{
    if interest.recv {
        conn.register_recv_waker(waker);
    }
    if interest.send {
        conn.register_send_waker(waker);
    }
    Step::Wait(interest)
}

} // verus!
