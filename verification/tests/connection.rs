use std::sync::atomic::{AtomicUsize, Ordering};
use std::sync::Arc;
use std::task::{Wake, Waker};

use smoltcp::iface::SocketHandle;
use smoltcp::socket::tcp;
use smoltcp::time::Duration;

use tcp_socket::endpoint::{IpListenEndpoint, ListenEndpoint};
use tcp_socket::error::Error;
use tcp_socket::establish::{AcceptPhase, ClosePhase};
use tcp_socket::event::{PollEvent, POLLHUP, POLLIN, POLLOUT, POLLPRI, POLLRDNORM, POLLWRNORM};
use tcp_socket::options::{SocketOption, ACK_DELAY};
use tcp_socket::socket::Socket;
use tcp_socket::step::{Interest, Step};

struct Wakes(AtomicUsize);

impl Wake for Wakes {
    fn wake(self: Arc<Self>) {
        self.0.fetch_add(1, Ordering::SeqCst);
    }
}

fn counting_waker() -> (Arc<Wakes>, Waker) {
    let wakes = Arc::new(Wakes(AtomicUsize::new(0)));
    (wakes.clone(), Waker::from(wakes))
}

fn fresh_connection() -> tcp::Socket<'static> {
    tcp::Socket::new(
        tcp::SocketBuffer::new(vec![0; 256]),
        tcp::SocketBuffer::new(vec![0; 256]),
    )
}

fn bound_socket(port: u16) -> Socket {
    let mut socket = Socket::new(SocketHandle::default());
    socket
        .bind(ListenEndpoint::Ip(IpListenEndpoint { addr: None, port }))
        .unwrap();
    socket
}

#[test]
fn read_on_closed_connection_is_end_of_stream() {
    let socket = Socket::new(SocketHandle::default());
    let mut conn = fresh_connection();
    let (_, waker) = counting_waker();
    let mut buffer = [7u8; 8];
    assert_eq!(socket.poll_read(&mut conn, &waker, &mut buffer), Step::Done(Ok(0)));
    assert_eq!(buffer, [7u8; 8]);
}

#[test]
fn write_on_closed_connection_succeeds_with_nothing() {
    let socket = Socket::new(SocketHandle::default());
    let mut conn = fresh_connection();
    let (_, waker) = counting_waker();
    let mut sent = 0;
    assert_eq!(socket.poll_write(&mut sent, &mut conn, &waker, b"hello"), Step::Done(Ok(0)));
    assert_eq!(sent, 0);
}

#[test]
fn write_of_nothing_is_done_at_once() {
    let socket = bound_socket(8080);
    let mut conn = fresh_connection();
    conn.listen(8080).unwrap();
    let (_, waker) = counting_waker();
    let mut sent = 0;
    assert_eq!(socket.poll_write(&mut sent, &mut conn, &waker, b""), Step::Done(Ok(0)));
}

#[test]
fn listen_needs_a_bound_port() {
    let mut socket = Socket::new(SocketHandle::default());
    let mut conn = fresh_connection();
    assert_eq!(socket.listen(&mut conn, 16), Err(Error::Io));
    assert_eq!(conn.state(), tcp::State::Closed);
}

#[test]
fn listen_opens_the_connection_passively() {
    let mut socket = bound_socket(8080);
    let mut conn = fresh_connection();
    assert_eq!(socket.listen(&mut conn, 16), Ok(()));
    assert_eq!(conn.state(), tcp::State::Listen);
    assert!(conn.is_listening());
}

#[test]
fn listen_refuses_an_open_connection() {
    let mut socket = bound_socket(8080);
    let mut conn = fresh_connection();
    assert_eq!(socket.listen(&mut conn, 16), Ok(()));
    assert_eq!(socket.listen(&mut conn, 16), Err(Error::Io));
    assert_eq!(conn.state(), tcp::State::Listen);
}

#[test]
fn read_and_write_on_listening_connection_fail() {
    let mut socket = bound_socket(8080);
    let mut conn = fresh_connection();
    socket.listen(&mut conn, 16).unwrap();
    let (_, waker) = counting_waker();
    let mut buffer = [0u8; 8];
    assert_eq!(socket.poll_read(&mut conn, &waker, &mut buffer), Step::Done(Err(Error::Io)));
    let mut sent = 0;
    assert_eq!(
        socket.poll_write(&mut sent, &mut conn, &waker, b"hello"),
        Step::Done(Err(Error::Io))
    );
    assert_eq!(sent, 0);
}

#[test]
fn poll_on_closed_connection_offers_what_is_asked() {
    let mut socket = Socket::new(SocketHandle::default());
    let mut conn = fresh_connection();
    let (_, waker) = counting_waker();
    assert_eq!(
        socket.poll(&mut conn, &waker, PollEvent::from_bits(POLLIN)),
        Step::Done(Ok(PollEvent::from_bits(POLLIN)))
    );
    assert_eq!(
        socket.poll(&mut conn, &waker, PollEvent::from_bits(POLLIN | POLLOUT | POLLPRI)),
        Step::Done(Ok(PollEvent::from_bits(POLLIN | POLLOUT)))
    );
    assert_eq!(
        socket.poll(&mut conn, &waker, PollEvent::from_bits(POLLRDNORM | POLLWRNORM)),
        Step::Done(Ok(PollEvent::from_bits(POLLRDNORM | POLLWRNORM)))
    );
}

#[test]
fn poll_on_closed_connection_hangs_up_when_nothing_is_asked() {
    let mut socket = Socket::new(SocketHandle::default());
    let mut conn = fresh_connection();
    let (_, waker) = counting_waker();
    assert_eq!(
        socket.poll(&mut conn, &waker, PollEvent::from_bits(POLLPRI)),
        Step::Done(Ok(PollEvent::from_bits(POLLHUP)))
    );
    assert_eq!(
        socket.poll(&mut conn, &waker, PollEvent::empty()),
        Step::Done(Ok(PollEvent::from_bits(POLLHUP)))
    );
}

#[test]
fn poll_on_listening_connection_always_waits() {
    let mut socket = bound_socket(8080);
    let mut conn = fresh_connection();
    socket.listen(&mut conn, 16).unwrap();
    let (wakes, waker) = counting_waker();
    let both = Interest { recv: true, send: true };
    assert_eq!(socket.poll(&mut conn, &waker, PollEvent::from_bits(POLLIN)), Step::Wait(both));
    assert_eq!(socket.poll(&mut conn, &waker, PollEvent::from_bits(POLLOUT)), Step::Wait(both));
    assert_eq!(socket.poll(&mut conn, &waker, PollEvent::empty()), Step::Wait(both));
    assert_eq!(wakes.0.load(Ordering::SeqCst), 0);
    conn.abort();
    assert_eq!(wakes.0.load(Ordering::SeqCst), 2);
}

#[test]
fn connect_wait_on_closed_connection_is_a_fault() {
    let socket = Socket::new(SocketHandle::default());
    let mut conn = fresh_connection();
    let (_, waker) = counting_waker();
    assert_eq!(socket.poll_connect(&mut conn, &waker), Step::Done(Err(Error::Fault)));
}

#[test]
fn connect_wait_on_listening_connection_is_an_io_fault() {
    let mut socket = bound_socket(8080);
    let mut conn = fresh_connection();
    socket.listen(&mut conn, 16).unwrap();
    let (_, waker) = counting_waker();
    assert_eq!(socket.poll_connect(&mut conn, &waker), Step::Done(Err(Error::Io)));
}

#[test]
fn accept_makes_a_closed_connection_listen() {
    let socket = bound_socket(8080);
    let mut conn = fresh_connection();
    let (_, waker) = counting_waker();
    let mut phase = AcceptPhase::Alive;
    assert_eq!(socket.poll_accept(&mut phase, &mut conn, &waker), Step::Again);
    assert_eq!(phase, AcceptPhase::Active);
    assert_eq!(conn.state(), tcp::State::Listen);
    assert_eq!(
        socket.poll_accept(&mut phase, &mut conn, &waker),
        Step::Wait(Interest { recv: true, send: false })
    );
    assert_eq!(phase, AcceptPhase::Active);
}

#[test]
fn accept_on_unbound_socket_fails_in_its_second_phase() {
    let socket = Socket::new(SocketHandle::default());
    let mut conn = fresh_connection();
    let (_, waker) = counting_waker();
    let mut phase = AcceptPhase::Alive;
    assert_eq!(socket.poll_accept(&mut phase, &mut conn, &waker), Step::Again);
    assert_eq!(conn.state(), tcp::State::Closed);
    assert_eq!(socket.poll_accept(&mut phase, &mut conn, &waker), Step::Done(Err(Error::Io)));
    assert_eq!(phase, AcceptPhase::Active);
}

#[test]
fn accept_waits_on_a_listening_connection_without_a_word_to_it() {
    let socket = bound_socket(8080);
    let mut conn = fresh_connection();
    conn.listen(8080).unwrap();
    let (wakes, waker) = counting_waker();
    let mut phase = AcceptPhase::Active;
    for _ in 0..3 {
        assert_eq!(
            socket.poll_accept(&mut phase, &mut conn, &waker),
            Step::Wait(Interest { recv: true, send: false })
        );
        assert_eq!(phase, AcceptPhase::Active);
        assert_eq!(conn.keep_alive(), None);
    }
    assert_eq!(wakes.0.load(Ordering::SeqCst), 0);
    conn.abort();
    assert_eq!(wakes.0.load(Ordering::SeqCst), 1);
    assert_eq!(socket.poll_accept(&mut phase, &mut conn, &waker), Step::Done(Err(Error::Io)));
    assert_eq!(conn.keep_alive(), None);
}

#[test]
fn close_of_an_inactive_connection_fails() {
    let socket = Socket::new(SocketHandle::default());
    let mut conn = fresh_connection();
    let (_, waker) = counting_waker();
    let mut phase = ClosePhase::Start;
    assert_eq!(socket.poll_close(&mut phase, &mut conn, &waker), Step::Done(Err(Error::Io)));
    assert_eq!(phase, ClosePhase::Start);
    conn.listen(8080).unwrap();
    assert_eq!(socket.poll_close(&mut phase, &mut conn, &waker), Step::Done(Err(Error::Io)));
    assert_eq!(conn.state(), tcp::State::Listen);
}

#[test]
fn close_in_its_second_phase_ends_on_an_inactive_connection() {
    let socket = Socket::new(SocketHandle::default());
    let mut conn = fresh_connection();
    let (_, waker) = counting_waker();
    let mut phase = ClosePhase::Drain;
    assert_eq!(socket.poll_close(&mut phase, &mut conn, &waker), Step::Done(Ok(())));
}

#[test]
fn no_delay_option_couples_the_ack_delay() {
    let socket = Socket::new(SocketHandle::default());
    let mut conn = fresh_connection();
    assert_eq!(ACK_DELAY, 10);
    assert_eq!(socket.setsockopt(&mut conn, SocketOption::TcpNoDelay, true), Ok(()));
    assert!(conn.nagle_enabled());
    assert_eq!(conn.ack_delay(), None);
    assert_eq!(socket.getsockopt(&conn, SocketOption::TcpNoDelay), Ok(true));
    assert_eq!(socket.setsockopt(&mut conn, SocketOption::TcpNoDelay, false), Ok(()));
    assert!(!conn.nagle_enabled());
    assert_eq!(conn.ack_delay(), Some(Duration::from_millis(10)));
    assert_eq!(socket.getsockopt(&conn, SocketOption::TcpNoDelay), Ok(false));
}

#[test]
fn other_options_are_invalid() {
    let socket = Socket::new(SocketHandle::default());
    let mut conn = fresh_connection();
    conn.set_ack_delay(None);
    assert_eq!(
        socket.setsockopt(&mut conn, SocketOption::Other(9), false),
        Err(Error::InvalidArgument)
    );
    assert!(conn.nagle_enabled());
    assert_eq!(conn.ack_delay(), None);
    assert_eq!(socket.getsockopt(&conn, SocketOption::Other(9)), Err(Error::InvalidArgument));
}

#[test]
fn fresh_connection_has_no_names() {
    let socket = Socket::new(SocketHandle::default());
    let conn = fresh_connection();
    assert_eq!(socket.getpeername(&conn), None);
    assert_eq!(socket.getsockname(&conn), None);
}

#[test]
fn duplicate_of_unbound_socket_leaves_the_engine_alone() {
    let mut socket = Socket::new(SocketHandle::default());
    socket.ioctl(tcp_socket::options::IoCtl::NonBlocking, true).unwrap();
    let mut conn = fresh_connection();
    let twin = socket.duplicate(SocketHandle::default(), &mut conn);
    assert_eq!(conn.state(), tcp::State::Closed);
    assert_eq!(twin.port(), 0);
    assert!(twin.is_nonblocking());
}

#[test]
fn duplicate_of_bound_socket_listens_on_the_same_port() {
    let socket = bound_socket(8080);
    let mut conn = fresh_connection();
    let mut twin = socket.duplicate(SocketHandle::default(), &mut conn);
    assert_eq!(conn.state(), tcp::State::Listen);
    assert_eq!(twin.port(), 8080);
    assert!(!twin.is_nonblocking());
    assert_eq!(conn.listen(8080), Ok(()));
    assert_eq!(conn.listen(8081), Err(tcp::ListenError::InvalidState));
    assert_eq!(twin.listen(&mut conn, 1), Err(Error::Io));
}

#[test]
fn try_duplicate_refuses_a_bound_socket_an_open_connection() {
    let socket = bound_socket(8080);
    let mut conn = fresh_connection();
    conn.listen(9090).unwrap();
    assert!(socket.try_duplicate(SocketHandle::default(), &mut conn).is_none());
    assert_eq!(conn.state(), tcp::State::Listen);
    assert_eq!(conn.listen(9090), Ok(()));
}

#[test]
fn try_duplicate_of_a_bound_socket_listens_on_a_fresh_connection() {
    let socket = bound_socket(8080);
    let mut conn = fresh_connection();
    let twin = socket.try_duplicate(SocketHandle::default(), &mut conn).unwrap();
    assert_eq!(twin.port(), 8080);
    assert_eq!(conn.state(), tcp::State::Listen);
    assert_eq!(conn.listen(8080), Ok(()));
}

#[test]
fn try_duplicate_of_an_unbound_socket_takes_any_connection() {
    let socket = Socket::new(SocketHandle::default());
    let mut conn = fresh_connection();
    conn.listen(9090).unwrap();
    let twin = socket.try_duplicate(SocketHandle::default(), &mut conn).unwrap();
    assert_eq!(twin.port(), 0);
    assert_eq!(conn.state(), tcp::State::Listen);
    assert_eq!(conn.listen(9090), Ok(()));
}

#[test]
fn close_wakes_what_a_wait_registered() {
    let mut socket = bound_socket(8080);
    let mut conn = fresh_connection();
    socket.listen(&mut conn, 1).unwrap();
    let (wakes, waker) = counting_waker();
    assert_eq!(
        socket.poll(&mut conn, &waker, PollEvent::empty()),
        Step::Wait(Interest { recv: true, send: true })
    );
    assert_eq!(wakes.0.load(Ordering::SeqCst), 0);
    conn.close();
    assert_eq!(conn.state(), tcp::State::Closed);
    assert_eq!(wakes.0.load(Ordering::SeqCst), 2);
    conn.close();
    assert_eq!(wakes.0.load(Ordering::SeqCst), 2);
}

#[test]
fn a_turn_that_does_not_wait_registers_nothing() {
    let mut socket = Socket::new(SocketHandle::default());
    let mut conn = fresh_connection();
    let (wakes, waker) = counting_waker();
    let mut buffer = [0u8; 4];
    let mut sent = 0;
    socket.poll(&mut conn, &waker, PollEvent::from_bits(POLLIN));
    socket.poll_read(&mut conn, &waker, &mut buffer);
    socket.poll_write(&mut sent, &mut conn, &waker, b"data");
    socket.poll_connect(&mut conn, &waker);
    socket.poll_close(&mut ClosePhase::Start, &mut conn, &waker);
    socket.poll_accept(&mut AcceptPhase::Active, &mut conn, &waker);
    conn.listen(8080).unwrap();
    conn.abort();
    assert_eq!(wakes.0.load(Ordering::SeqCst), 0);
}
