//! The protocol engine's connection object and the calls made on it.
//!
//! The engine is smoltcp. Its TCP socket, `smoltcp::socket::tcp::Socket`, goes
//! by the name `Connection` in this library, whose own socket is the layer
//! above it.
//!
//! Nothing in this file is proved: it states what smoltcp's connection does,
//! as far as the socket layer relies on it, and each statement is to be held
//! against smoltcp's source. A connection is seen through a handful of
//! observations, one for each thing that smoltcp lets a caller find out, which
//! [`ConnView`] gathers.

use vstd::prelude::*;
use smoltcp::iface::Interface;
use smoltcp::socket::tcp;
use smoltcp::socket::tcp::Socket as Connection;
use smoltcp::time::Duration;
use smoltcp::wire;
use core::task::Waker;
use crate::buffer::{overwritten, shorter, take_prefix};
use crate::endpoint::{any_address, IpAddress, IpEndpoint, IpListenEndpoint};
use crate::source::{has_source, unspecified};
use crate::state::State;

verus! {

/// smoltcp's TCP socket: one connection of the engine.
#[verifier::external_type_specification]
#[verifier::external_body]
pub struct ExConnection<'a>(Connection<'a>);

/// smoltcp's handle of a socket in a socket set.
#[verifier::external_type_specification]
#[verifier::external_body]
pub struct ExSocketHandle(smoltcp::iface::SocketHandle);

/// smoltcp's network interface: addresses, routes and the random source.
#[verifier::external_type_specification]
#[verifier::external_body]
pub struct ExInterface(smoltcp::iface::Interface);

/// smoltcp's span of time.
#[verifier::external_type_specification]
#[verifier::external_body]
pub struct ExDuration(smoltcp::time::Duration);

/// Why smoltcp refused to listen.
#[verifier::external_type_specification]
#[verifier::external_body]
pub struct ExListenError(smoltcp::socket::tcp::ListenError);

/// Why smoltcp refused to connect.
#[verifier::external_type_specification]
#[verifier::external_body]
pub struct ExConnectError(smoltcp::socket::tcp::ConnectError);

/// Why smoltcp refused to send.
#[verifier::external_type_specification]
#[verifier::external_body]
pub struct ExSendError(smoltcp::socket::tcp::SendError);

/// Why smoltcp refused to receive.
#[verifier::external_type_specification]
#[verifier::external_body]
pub struct ExRecvError(smoltcp::socket::tcp::RecvError);

/// The handle by which a suspended task is woken.
#[verifier::external_type_specification]
#[verifier::external_body]
pub struct ExWaker(core::task::Waker);

/// The state that the connection is in.
pub uninterp spec fn conn_state(conn: &Connection<'_>) -> State;

/// The received octets that wait for the application, oldest first.
pub uninterp spec fn conn_rx(conn: &Connection<'_>) -> Seq<u8>;

/// How many of the waiting octets lie in one piece at the head of the receive
/// buffer: as many as one receive call can hand out.
pub uninterp spec fn conn_rx_run(conn: &Connection<'_>) -> nat;

/// The octets queued for transmission, oldest first.
pub uninterp spec fn conn_tx(conn: &Connection<'_>) -> Seq<u8>;

/// How many more octets the transmit buffer can take.
pub uninterp spec fn conn_tx_room(conn: &Connection<'_>) -> nat;

/// Whether Nagle's algorithm is switched on.
pub uninterp spec fn conn_nagle(conn: &Connection<'_>) -> bool;

/// The delay before a bare acknowledgement is sent, in microseconds.
pub uninterp spec fn conn_ack_delay(conn: &Connection<'_>) -> Option<nat>;

/// The interval between keep-alive probes, in microseconds.
pub uninterp spec fn conn_keep_alive(conn: &Connection<'_>) -> Option<nat>;

/// Where the connection was last made to listen; port 0 at no address after a
/// reset for another purpose.
pub uninterp spec fn conn_listen(conn: &Connection<'_>) -> IpListenEndpoint;

/// The local end of the connection.
pub uninterp spec fn conn_local(conn: &Connection<'_>) -> Option<IpEndpoint>;

/// The remote end of the connection.
pub uninterp spec fn conn_remote(conn: &Connection<'_>) -> Option<IpEndpoint>;

/// Whether the connection holds a waker to wake at the next change that
/// matters to a receiver.
pub uninterp spec fn conn_rx_waker(conn: &Connection<'_>) -> bool;

/// Whether the connection holds a waker to wake at the next change that
/// matters to a sender.
pub uninterp spec fn conn_tx_waker(conn: &Connection<'_>) -> bool;

/// The length of a duration in microseconds.
pub uninterp spec fn duration_micros(duration: Duration) -> nat;

/// The addresses of an interface, in the order in which it holds them.
pub uninterp spec fn iface_addrs(iface: &Interface) -> Seq<IpAddress>;

/// What the socket layer observes of a connection.
pub struct ConnView {
    pub state: State,
    pub rx: Seq<u8>,
    pub rx_run: nat,
    pub tx: Seq<u8>,
    pub tx_room: nat,
    pub nagle: bool,
    pub ack_delay: Option<nat>,
    pub keep_alive: Option<nat>,
    pub listen: IpListenEndpoint,
    pub local: Option<IpEndpoint>,
    pub remote: Option<IpEndpoint>,
    pub rx_waker: bool,
    pub tx_waker: bool,
}

impl ConnView {
    /// Octets wait for the application.
    pub open spec fn can_recv(self) -> bool {
        self.rx.len() > 0
    }

    /// The receive half is open, or octets are still waiting.
    pub open spec fn may_recv(self) -> bool {
        self.state.receives() || self.rx.len() > 0
    }

    /// The transmit half is open and its buffer has room.
    pub open spec fn can_send(self) -> bool {
        self.state.may_send() && self.tx_room > 0
    }

    /// The connection once both wakers are woken, which empties their slots.
    pub open spec fn woken(self) -> ConnView {
        ConnView { rx_waker: false, tx_waker: false, ..self }
    }

    /// The connection once its transmit half is closed. Where that moves the
    /// state, both wakers are woken; where the half was closed before, or
    /// never open, nothing happens.
    pub open spec fn closed(self) -> ConnView {
        if self.state.after_close() != self.state {
            (ConnView { state: self.state.after_close(), ..self }).woken()
        } else {
            self
        }
    }
}

/// All observations of one connection.
pub open spec fn view_of(conn: &Connection<'_>) -> ConnView {
    ConnView {
        state: conn_state(conn),
        rx: conn_rx(conn),
        rx_run: conn_rx_run(conn),
        tx: conn_tx(conn),
        tx_room: conn_tx_room(conn),
        nagle: conn_nagle(conn),
        ack_delay: conn_ack_delay(conn),
        keep_alive: conn_keep_alive(conn),
        listen: conn_listen(conn),
        local: conn_local(conn),
        remote: conn_remote(conn),
        rx_waker: conn_rx_waker(conn),
        tx_waker: conn_tx_waker(conn),
    }
}

/// Whether `after` is `before` reset into `state` with the endpoints given:
/// the buffers emptied, both wakers woken, the settings kept.
pub open spec fn reset_into(
    before: ConnView,
    after: ConnView,
    state: State,
    listen: IpListenEndpoint,
    local: Option<IpEndpoint>,
    remote: Option<IpEndpoint>,
) -> bool {
    after == (ConnView {
        state,
        rx: Seq::<u8>::empty(),
        rx_run: 0,
        tx: Seq::<u8>::empty(),
        tx_room: after.tx_room,
        listen,
        local,
        remote,
        rx_waker: false,
        tx_waker: false,
        ..before
    })
}

/// Whether a connection seen as `v` listens on `port` at every address.
pub open spec fn listens_on(v: ConnView, port: u16) -> bool {
    v.state == State::Listen && v.listen == any_address(port)
}

/// A duration, if any, in microseconds.
pub open spec fn micros_of(duration: Option<Duration>) -> Option<nat> {
    match duration {
        Some(d) => Some(duration_micros(d)),
        None => None,
    }
}

/// `tcp::Socket::state` of smoltcp: reads the connection's state and gives it
/// as the library's own [`State`], variant for variant.
#[verifier::external_body]
pub(crate) fn state(conn: &Connection<'_>) -> (s: State)
    ensures
        s == conn_state(conn),
{
    match conn.state() {
        tcp::State::Closed => State::Closed,
        tcp::State::Listen => State::Listen,
        tcp::State::SynSent => State::SynSent,
        tcp::State::SynReceived => State::SynReceived,
        tcp::State::Established => State::Established,
        tcp::State::FinWait1 => State::FinWait1,
        tcp::State::FinWait2 => State::FinWait2,
        tcp::State::CloseWait => State::CloseWait,
        tcp::State::Closing => State::Closing,
        tcp::State::LastAck => State::LastAck,
        tcp::State::TimeWait => State::TimeWait,
    }
}

/// `tcp::Socket::is_open` of smoltcp: true in every state but `Closed` and
/// `TimeWait`.
pub assume_specification<'a>[ Connection::<'a>::is_open ](conn: &Connection<'a>) -> (r: bool)
    ensures
        r == conn_state(conn).is_open(),
;

/// `tcp::Socket::is_active` of smoltcp: true in every state but `Closed`,
/// `TimeWait` and `Listen`.
pub assume_specification<'a>[ Connection::<'a>::is_active ](conn: &Connection<'a>) -> (r: bool)
    ensures
        r == conn_state(conn).is_active(),
;

/// `tcp::Socket::can_recv` of smoltcp: true when the receive buffer holds
/// octets. Then the piece at its head holds at least one of them, and never
/// more than the buffer does.
pub assume_specification<'a>[ Connection::<'a>::can_recv ](conn: &Connection<'a>) -> (r: bool)
    ensures
        r == (conn_rx(conn).len() > 0),
        r ==> 0 < conn_rx_run(conn) <= conn_rx(conn).len(),
;

/// `tcp::Socket::may_recv` of smoltcp: true in the states `Established`,
/// `FinWait1` and `FinWait2`, and in any state while the receive buffer holds
/// octets.
pub assume_specification<'a>[ Connection::<'a>::may_recv ](conn: &Connection<'a>) -> (r: bool)
    ensures
        r == (conn_state(conn).receives() || conn_rx(conn).len() > 0),
;

/// `tcp::Socket::can_send` of smoltcp: true in the states `Established` and
/// `CloseWait` while the transmit buffer is not full.
pub assume_specification<'a>[ Connection::<'a>::can_send ](conn: &Connection<'a>) -> (r: bool)
    ensures
        r == (conn_state(conn).may_send() && conn_tx_room(conn) > 0),
;

/// `tcp::Socket::nagle_enabled` of smoltcp: reads the switch of Nagle's
/// algorithm.
pub assume_specification<'a>[ Connection::<'a>::nagle_enabled ](conn: &Connection<'a>) -> (r: bool)
    ensures
        r == conn_nagle(conn),
;

/// `tcp::Socket::set_nagle_enabled` of smoltcp: sets that switch and nothing
/// else.
pub assume_specification<'a>[ Connection::<'a>::set_nagle_enabled ](
    conn: &mut Connection<'a>,
    enabled: bool,
)
    ensures
        view_of(final(conn)) == (ConnView { nagle: enabled, ..view_of(old(conn)) }),
;

/// `tcp::Socket::set_ack_delay` of smoltcp: stores the delay and nothing else.
pub assume_specification<'a>[ Connection::<'a>::set_ack_delay ](
    conn: &mut Connection<'a>,
    duration: Option<Duration>,
)
    ensures
        conn_ack_delay(final(conn)) == micros_of(duration),
        view_of(final(conn)) == (ConnView {
            ack_delay: micros_of(duration),
            ..view_of(old(conn))
        }),
;

/// `tcp::Socket::set_keep_alive` of smoltcp: stores the interval; of what is
/// observed here nothing else changes.
pub assume_specification<'a>[ Connection::<'a>::set_keep_alive ](
    conn: &mut Connection<'a>,
    interval: Option<Duration>,
)
    ensures
        conn_keep_alive(final(conn)) == micros_of(interval),
        view_of(final(conn)) == (ConnView {
            keep_alive: micros_of(interval),
            ..view_of(old(conn))
        }),
;

/// `Duration::from_millis` of smoltcp: a thousand microseconds for each
/// millisecond. The product must fit the duration's 64 bits.
pub assume_specification[ Duration::from_millis ](millis: u64) -> (d: Duration)
    requires
        millis * 1000 <= u64::MAX,
    ensures
        duration_micros(d) == millis * 1000,
;

/// `tcp::Socket::close` of smoltcp: closes the transmit half, which moves the
/// state as [`State::after_close`] says. Every move of the state wakes both
/// wakers; a close that moves nothing touches nothing.
pub assume_specification<'a>[ Connection::<'a>::close ](conn: &mut Connection<'a>)
    ensures
        view_of(final(conn)) == view_of(old(conn)).closed(),
;

/// `tcp::Socket::register_recv_waker` of smoltcp: stores the waker to wake at
/// the next change that matters to a receiver, unless the slot holds one for
/// the same task already. Either way the slot is filled afterwards, and the
/// connection is otherwise untouched.
pub assume_specification<'a>[ Connection::<'a>::register_recv_waker ](
    conn: &mut Connection<'a>,
    waker: &Waker,
)
    ensures
        conn_rx_waker(final(conn)),
        view_of(final(conn)) == (ConnView { rx_waker: true, ..view_of(old(conn)) }),
;

/// `tcp::Socket::register_send_waker` of smoltcp: stores the waker to wake at
/// the next change that matters to a sender, unless the slot holds one for
/// the same task already. Either way the slot is filled afterwards, and the
/// connection is otherwise untouched.
pub assume_specification<'a>[ Connection::<'a>::register_send_waker ](
    conn: &mut Connection<'a>,
    waker: &Waker,
)
    ensures
        conn_tx_waker(final(conn)),
        view_of(final(conn)) == (ConnView { tx_waker: true, ..view_of(old(conn)) }),
;

/// `tcp::Socket::send_slice` of smoltcp: fails, touching nothing, unless the
/// transmit half is open; else queues as many leading octets of `data` as the
/// transmit buffer has room for and returns their number. No waker is woken.
pub assume_specification<'a>[ Connection::<'a>::send_slice ](
    conn: &mut Connection<'a>,
    data: &[u8],
) -> (r: Result<usize, tcp::SendError>)
    ensures
        r is Ok <==> conn_state(old(conn)).may_send(),
        r matches Ok(n) ==> {
            &&& n == shorter(data@.len() as int, conn_tx_room(old(conn)) as int)
            &&& view_of(final(conn)) == (ConnView {
                tx: conn_tx(old(conn)) + data@.subrange(0, n as int),
                tx_room: (conn_tx_room(old(conn)) - n) as nat,
                ..view_of(old(conn))
            })
        },
        r is Err ==> view_of(final(conn)) == view_of(old(conn)),
;

/// `tcp::Socket::recv` of smoltcp, with a closure that copies into `buffer`:
/// fails, touching nothing, unless the receive half is open or octets wait;
/// else hands the closure the piece at the head of the receive buffer, removes
/// from the buffer as many octets as the closure took, and returns that
/// number. Where the closure took none, the connection is as before. No waker
/// is woken.
#[verifier::external_body]
pub(crate) fn recv(conn: &mut Connection<'_>, buffer: &mut [u8]) -> (r: Result<
    usize,
    tcp::RecvError,
>)
    ensures
        r is Ok <==> view_of(old(conn)).may_recv(),
        r matches Ok(n) ==> {
            &&& n == shorter(old(buffer)@.len() as int, conn_rx_run(old(conn)) as int)
            &&& n <= conn_rx(old(conn)).len()
            &&& final(buffer)@ == overwritten(old(buffer)@, conn_rx(old(conn)), n as int)
            &&& view_of(final(conn)) == (ConnView {
                rx: conn_rx(old(conn)).skip(n as int),
                rx_run: conn_rx_run(final(conn)),
                ..view_of(old(conn))
            })
            &&& n == 0 ==> view_of(final(conn)) == view_of(old(conn))
        },
        r is Err ==> {
            &&& view_of(final(conn)) == view_of(old(conn))
            &&& final(buffer)@ == old(buffer)@
        },
{
    conn.recv(|data| take_prefix(buffer, data))
}

/// `tcp::Socket::listen` of smoltcp, on a port at every address: refuses port
/// 0, and an open connection unless it listens there already; starts to
/// listen where the connection is not open, which empties its buffers, wakes
/// both wakers and forgets its endpoints, while the settings survive. On an
/// open connection it changes nothing, whether it agrees or refuses.
#[verifier::external_body]
pub(crate) fn listen(conn: &mut Connection<'_>, port: u16) -> (r: Result<(), tcp::ListenError>)
    ensures
        r is Ok <==> (port != 0 && (!conn_state(old(conn)).is_open() || (conn_state(old(conn))
            == State::Listen && conn_listen(old(conn)) == any_address(port)))),
        r is Ok && !conn_state(old(conn)).is_open() ==> reset_into(
            view_of(old(conn)),
            view_of(final(conn)),
            State::Listen,
            any_address(port),
            None,
            None,
        ),
        r is Ok && conn_state(old(conn)).is_open() ==> view_of(final(conn))
            == view_of(old(conn)),
        r is Err ==> view_of(final(conn)) == view_of(old(conn)),
{
    conn.listen(port)
}

/// `Interface::ip_addrs` of smoltcp: the interface's addresses, each without
/// its prefix length and as the library's own address.
#[verifier::external_body]
pub(crate) fn addresses(iface: &Interface) -> (addrs: Vec<IpAddress>)
    ensures
        addrs@ == iface_addrs(iface),
{
    iface.ip_addrs().iter().map(|cidr| match cidr.address() {
        wire::IpAddress::Ipv4(a) => IpAddress::Ipv4(a.0),
        wire::IpAddress::Ipv6(a) => IpAddress::Ipv6(a.0),
    }).collect()
}

/// `tcp::Socket::connect` of smoltcp, from a local port at an address that the
/// engine picks among those of the interface: refuses an open connection, a
/// port 0 on either side, an unspecified remote address, and a remote address
/// for which the interface has no source; a refusal touches nothing. Else the
/// connection is reset, which wakes both wakers, and sends its SYN to
/// `remote`. The interface keeps its addresses.
///
/// Towards an IPv6 address smoltcp takes it for granted that an eligible
/// source exists, and panics where none does: the caller has to make sure of
/// one.
#[verifier::external_body]
pub(crate) fn connect(
    conn: &mut Connection<'_>,
    iface: &mut Interface,
    remote: IpEndpoint,
    local_port: u16,
) -> (r: Result<(), tcp::ConnectError>)
    requires
        remote.addr is Ipv6 ==> has_source(iface_addrs(old(iface)), remote.addr),
    ensures
        r is Ok <==> (!conn_state(old(conn)).is_open() && remote.port != 0 && local_port != 0
            && !unspecified(remote.addr) && has_source(iface_addrs(old(iface)), remote.addr)),
        r is Ok ==> {
            &&& conn_local(final(conn)) matches Some(local) && local.port == local_port
            &&& reset_into(
                view_of(old(conn)),
                view_of(final(conn)),
                State::SynSent,
                any_address(0),
                conn_local(final(conn)),
                Some(remote),
            )
        },
        r is Err ==> view_of(final(conn)) == view_of(old(conn)),
        iface_addrs(final(iface)) == iface_addrs(old(iface)),
{
    let addr = match remote.addr {
        IpAddress::Ipv4(octets) => wire::IpAddress::Ipv4(wire::Ipv4Address(octets)),
        IpAddress::Ipv6(octets) => wire::IpAddress::Ipv6(wire::Ipv6Address(octets)),
    };
    conn.connect(iface.context(), (addr, remote.port), local_port)
}

/// `tcp::Socket::local_endpoint` of smoltcp: the local end, where the
/// connection has one, as the library's own endpoint.
#[verifier::external_body]
pub(crate) fn local_endpoint(conn: &Connection<'_>) -> (r: Option<IpEndpoint>)
    ensures
        r == conn_local(conn),
{
    conn.local_endpoint().map(|e| match e.addr {
        wire::IpAddress::Ipv4(a) => IpEndpoint { addr: IpAddress::Ipv4(a.0), port: e.port },
        wire::IpAddress::Ipv6(a) => IpEndpoint { addr: IpAddress::Ipv6(a.0), port: e.port },
    })
}

/// `tcp::Socket::remote_endpoint` of smoltcp: the remote end, where the
/// connection has one, as the library's own endpoint.
#[verifier::external_body]
pub(crate) fn remote_endpoint(conn: &Connection<'_>) -> (r: Option<IpEndpoint>)
    ensures
        r == conn_remote(conn),
{
    conn.remote_endpoint().map(|e| match e.addr {
        wire::IpAddress::Ipv4(a) => IpEndpoint { addr: IpAddress::Ipv4(a.0), port: e.port },
        wire::IpAddress::Ipv6(a) => IpEndpoint { addr: IpAddress::Ipv6(a.0), port: e.port },
    })
}

} // verus!
