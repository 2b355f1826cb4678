use tcp_socket::buffer::take_prefix;
use tcp_socket::endpoint::{IpAddress, IpListenEndpoint, ListenEndpoint, VsockListenEndpoint};
use tcp_socket::error::Error;
use tcp_socket::event::{
    PollEvent, POLLHUP, POLLIN, POLLOUT, POLLPRI, POLLRDBAND, POLLRDNORM, POLLWRBAND, POLLWRNORM,
    READ_EVENTS, WRITE_EVENTS,
};
use tcp_socket::options::{IoCtl, SHUT_RD, SHUT_RDWR, SHUT_WR};
use tcp_socket::port::{get_ephemeral_port, EphemeralPorts, FIRST_EPHEMERAL_PORT};
use tcp_socket::socket::Socket;
use tcp_socket::source::{find_source, is_eligible, is_link_local, is_loopback, is_source};
use tcp_socket::step::Deadline;

use smoltcp::iface::SocketHandle;

#[test]
fn new_socket_is_unbound_and_blocking() {
    let socket = Socket::new(SocketHandle::default());
    assert_eq!(socket.port(), 0);
    assert!(!socket.is_nonblocking());
    assert_eq!(socket.handle(), SocketHandle::default());
    assert_eq!(socket.deadline(), Deadline::Unbounded);
}

#[test]
fn bind_stores_the_port() {
    let mut socket = Socket::new(SocketHandle::default());
    let endpoint = ListenEndpoint::Ip(IpListenEndpoint { addr: None, port: 8080 });
    assert_eq!(socket.bind(endpoint), Ok(()));
    assert_eq!(socket.port(), 8080);
}

#[test]
fn bind_refuses_another_family() {
    let mut socket = Socket::new(SocketHandle::default());
    let endpoint = ListenEndpoint::Vsock(VsockListenEndpoint { port: 8080, cid: None });
    assert_eq!(socket.bind(endpoint), Err(Error::Io));
    assert_eq!(socket.port(), 0);
}

#[test]
fn ioctl_switches_the_mode() {
    let mut socket = Socket::new(SocketHandle::default());
    assert_eq!(socket.ioctl(IoCtl::NonBlocking, true), Ok(()));
    assert!(socket.is_nonblocking());
    assert_eq!(socket.deadline(), Deadline::Immediate);
    assert_eq!(socket.ioctl(IoCtl::NonBlocking, false), Ok(()));
    assert!(!socket.is_nonblocking());
    assert_eq!(socket.deadline(), Deadline::Unbounded);
}

#[test]
fn ioctl_refuses_other_requests() {
    let mut socket = Socket::new(SocketHandle::default());
    assert_eq!(socket.ioctl(IoCtl::Other(0x541b), true), Err(Error::InvalidArgument));
    assert!(!socket.is_nonblocking());
}

#[test]
fn shutdown_takes_the_three_directions() {
    let socket = Socket::new(SocketHandle::default());
    assert_eq!(SHUT_RD, 0);
    assert_eq!(SHUT_WR, 1);
    assert_eq!(SHUT_RDWR, 2);
    assert_eq!(socket.shutdown(SHUT_RD), Ok(()));
    assert_eq!(socket.shutdown(SHUT_WR), Ok(()));
    assert_eq!(socket.shutdown(SHUT_RDWR), Ok(()));
    assert_eq!(socket.shutdown(3), Err(Error::InvalidArgument));
    assert_eq!(socket.shutdown(-1), Err(Error::InvalidArgument));
}

#[test]
fn nonblocking_timeout_becomes_would_block() {
    let mut socket = Socket::new(SocketHandle::default());
    socket.ioctl(IoCtl::NonBlocking, true).unwrap();
    assert_eq!(socket.conclude::<u8>(Err(Error::TimedOut)), Err(Error::WouldBlock));
    assert_eq!(socket.conclude(Ok(7u8)), Ok(7u8));
    assert_eq!(socket.conclude::<u8>(Err(Error::Io)), Err(Error::Io));
    assert_eq!(socket.conclude::<u8>(Err(Error::Fault)), Err(Error::Fault));
}

#[test]
fn blocking_timeout_passes_through() {
    let socket = Socket::new(SocketHandle::default());
    assert_eq!(socket.conclude::<u8>(Err(Error::TimedOut)), Err(Error::TimedOut));
    assert_eq!(socket.conclude(Ok(7u8)), Ok(7u8));
    assert_eq!(socket.conclude::<u8>(Err(Error::WouldBlock)), Err(Error::WouldBlock));
}

#[test]
fn destroy_hands_back_the_handle_whatever_the_close_did() {
    let handle = SocketHandle::default();
    assert_eq!(Socket::new(handle).destroy(Ok(())), handle);
    assert_eq!(Socket::new(handle).destroy(Err(Error::Io)), handle);
    assert_eq!(Socket::new(handle).destroy(Err(Error::TimedOut)), handle);
}

#[test]
fn ephemeral_ports_count_up_from_the_start() {
    let mut ports = EphemeralPorts::new();
    assert_eq!(FIRST_EPHEMERAL_PORT, 49152);
    assert_eq!(get_ephemeral_port(&mut ports), 49152);
    assert_eq!(get_ephemeral_port(&mut ports), 49153);
    assert_eq!(get_ephemeral_port(&mut ports), 49154);
}

#[test]
fn ephemeral_ports_wrap_to_zero() {
    let mut ports = EphemeralPorts::new();
    let mut last = 0;
    for _ in 0..16384 {
        last = get_ephemeral_port(&mut ports);
    }
    assert_eq!(last, 65535);
    assert_eq!(get_ephemeral_port(&mut ports), 0);
    assert_eq!(get_ephemeral_port(&mut ports), 1);
}

#[test]
fn take_prefix_fills_a_short_buffer() {
    let mut dst = [0u8; 3];
    assert_eq!(take_prefix(&mut dst, &[1, 2, 3, 4, 5]), (3, 3));
    assert_eq!(dst, [1, 2, 3]);
}

#[test]
fn take_prefix_leaves_the_rest_of_a_long_buffer() {
    let mut dst = [9u8; 5];
    assert_eq!(take_prefix(&mut dst, &[1, 2]), (2, 2));
    assert_eq!(dst, [1, 2, 9, 9, 9]);
}

#[test]
fn take_prefix_of_nothing() {
    let mut dst = [9u8; 2];
    assert_eq!(take_prefix(&mut dst, &[]), (0, 0));
    assert_eq!(dst, [9, 9]);
    let mut none: [u8; 0] = [];
    assert_eq!(take_prefix(&mut none, &[1, 2]), (0, 0));
}

#[test]
fn io_fault_keeps_a_success() {
    assert_eq!(Error::io::<u8, &str>(Ok(3)), Ok(3));
    assert_eq!(Error::io::<u8, &str>(Err("refused")), Err(Error::Io));
}

#[test]
fn event_masks_have_their_bits() {
    assert_eq!(POLLIN, 0x1);
    assert_eq!(POLLPRI, 0x2);
    assert_eq!(POLLOUT, 0x4);
    assert_eq!(POLLHUP, 0x10);
    assert_eq!(READ_EVENTS, POLLIN | POLLRDNORM | POLLRDBAND);
    assert_eq!(READ_EVENTS, 0xc1);
    assert_eq!(WRITE_EVENTS, POLLOUT | POLLWRNORM | POLLWRBAND);
    assert_eq!(WRITE_EVENTS, 0x304);
}

#[test]
fn event_sets_combine() {
    let read = PollEvent::from_bits(POLLIN);
    let write = PollEvent::from_bits(POLLOUT);
    assert!(PollEvent::empty().is_empty());
    assert!(!read.is_empty());
    assert_eq!(read.union(write).bits(), 0x5);
    assert_eq!(read.intersection(write), PollEvent::empty());
    assert!(!read.intersects(write));
    assert!(read.union(write).intersects(write));
    assert!(read.union(write).contains(read));
    assert!(!read.contains(read.union(write)));
    let mut both = PollEvent::empty();
    both.insert(read);
    both.insert(write);
    assert_eq!(both, PollEvent::from_bits(POLLIN | POLLOUT));
}

fn v6(first: u8, second: u8, last: u8) -> [u8; 16] {
    let mut octets = [0u8; 16];
    octets[0] = first;
    octets[1] = second;
    octets[15] = last;
    octets
}

#[test]
fn link_local_range_is_recognised() {
    assert!(is_link_local(&v6(0xfe, 0x80, 1)));
    assert!(!is_link_local(&v6(0xfe, 0x81, 1)));
    assert!(!is_link_local(&v6(0xfd, 0x80, 1)));
    let mut wide = v6(0xfe, 0x80, 1);
    wide[7] = 1;
    assert!(!is_link_local(&wide));
    wide[7] = 0;
    wide[8] = 1;
    assert!(is_link_local(&wide));
}

#[test]
fn loopback_address_is_recognised() {
    assert!(is_loopback(&v6(0, 0, 1)));
    assert!(!is_loopback(&v6(0, 0, 2)));
    assert!(!is_loopback(&v6(0, 0, 0)));
    assert!(!is_loopback(&v6(0, 1, 1)));
}

#[test]
fn eligible_sources_are_neither_loopback_nor_multicast() {
    let global = v6(0x20, 0x01, 7);
    assert!(is_eligible(&global, &v6(0xfd, 0, 1)));
    assert!(is_eligible(&global, &v6(0xfe, 0x80, 1)));
    assert!(!is_eligible(&global, &v6(0, 0, 1)));
    assert!(!is_eligible(&global, &v6(0xff, 0x02, 1)));
    let link = v6(0xfe, 0x80, 9);
    assert!(is_eligible(&link, &v6(0xfe, 0x80, 1)));
    assert!(!is_eligible(&link, &v6(0xfd, 0, 1)));
}

#[test]
fn sources_are_of_the_peers_protocol_version() {
    let old = IpAddress::Ipv4([10, 0, 0, 1]);
    let new = IpAddress::Ipv6(v6(0xfd, 0, 1));
    assert!(is_source(&old, &IpAddress::Ipv4([192, 168, 0, 1])));
    assert!(!is_source(&old, &new));
    assert!(!is_source(&new, &old));
    assert!(is_source(&new, &IpAddress::Ipv6(v6(0x20, 0x01, 7))));
    assert!(!find_source(&vec![], &old));
    assert!(!find_source(&vec![old], &new));
    assert!(find_source(&vec![old, new], &new));
    assert!(find_source(&vec![new, old], &old));
    assert!(!find_source(&vec![old, IpAddress::Ipv6(v6(0, 0, 1))], &new));
}
