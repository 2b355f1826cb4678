//! Socket addresses.

use vstd::prelude::*;

verus! {

/// An internet address, as its octets in network order.
#[derive(Clone, Copy, Debug, PartialEq, Eq)]
pub enum IpAddress {
    Ipv4([u8; 4]),
    Ipv6([u8; 16]),
}

/// An address and a port: one end of a connection.
#[derive(Clone, Copy, Debug, PartialEq, Eq)]
pub struct IpEndpoint {
    pub addr: IpAddress,
    pub port: u16,
}

/// A port to listen on, at one address or at all of them.
#[derive(Clone, Copy, Debug, PartialEq, Eq)]
pub struct IpListenEndpoint {
    pub addr: Option<IpAddress>,
    pub port: u16,
}

/// One end of a connection between virtual machines.
#[derive(Clone, Copy, Debug, PartialEq, Eq)]
pub struct VsockEndpoint {
    pub port: u32,
    pub cid: u32,
}

/// A port to listen on for connections between virtual machines.
#[derive(Clone, Copy, Debug, PartialEq, Eq)]
pub struct VsockListenEndpoint {
    pub port: u32,
    pub cid: Option<u32>,
}

/// The peer of a connection, in any address family.
#[derive(Clone, Copy, Debug, PartialEq, Eq)]
pub enum Endpoint {
    Ip(IpEndpoint),
    Vsock(VsockEndpoint),
}

/// Where to listen, in any address family.
#[derive(Clone, Copy, Debug, PartialEq, Eq)]
pub enum ListenEndpoint {
    Ip(IpListenEndpoint),
    Vsock(VsockListenEndpoint),
}

/// The listen endpoint for `port` at every address.
pub open spec fn any_address(port: u16) -> IpListenEndpoint {
    IpListenEndpoint { addr: None, port }
}

/// An endpoint of the internet family as a peer of any family.
pub open spec fn as_peer(endpoint: Option<IpEndpoint>) -> Option<Endpoint> {
    match endpoint {
        Some(e) => Some(Endpoint::Ip(e)),
        None => None,
    }
}

} // verus!
