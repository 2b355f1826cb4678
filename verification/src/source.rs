//! Which of an interface's addresses a connection can be opened from.
//!
//! The engine picks the local address of an outgoing connection among the
//! addresses of its interface. Towards an IPv4 address any IPv4 address will
//! do. Towards an IPv6 address only some are eligible, and the engine must not
//! be asked to pick where none is.

use vstd::prelude::*;
use crate::endpoint::IpAddress;

verus! {

/// Whether the octets of `a` from index `from` up to `to` are all zero.
pub open spec fn zeros(a: Seq<u8>, from: int, to: int) -> bool {
    forall|i: int| from <= i < to ==> a[i] == 0
}

/// Whether `a` lies in the link-local range fe80::/64.
pub open spec fn link_local(a: [u8; 16]) -> bool {
    a@[0] == 0xfe && a@[1] == 0x80 && zeros(a@, 2, 8)
}

/// Whether `a` is the loopback address ::1.
pub open spec fn loopback(a: [u8; 16]) -> bool {
    zeros(a@, 0, 15) && a@[15] == 1
}

/// Whether `a` is a multicast address.
pub open spec fn multicast(a: [u8; 16]) -> bool {
    a@[0] == 0xff
}

/// Whether `addr` is unspecified: any IPv4 address in 0.0.0.0/8, and the IPv6
/// address ::.
pub open spec fn unspecified(addr: IpAddress) -> bool {
    match addr {
        IpAddress::Ipv4(a) => a@[0] == 0,
        IpAddress::Ipv6(a) => zeros(a@, 0, 16),
    }
}

/// Whether a connection to `dst` may be opened from `src`: never from the
/// loopback address nor from a multicast address, and to a link-local address
/// only from another.
pub open spec fn eligible(dst: [u8; 16], src: [u8; 16]) -> bool {
    (link_local(dst) ==> link_local(src)) && !loopback(src) && !multicast(src)
}

/// Whether a connection to `dst` can be opened from `src`: the two are of one
/// protocol version, and for IPv6 `src` is eligible.
pub open spec fn serves(src: IpAddress, dst: IpAddress) -> bool {
    match (dst, src) {
        (IpAddress::Ipv4(_), IpAddress::Ipv4(_)) => true,
        (IpAddress::Ipv6(d), IpAddress::Ipv6(s)) => eligible(d, s),
        _ => false,
    }
}

/// Whether `addrs` holds an address to open a connection to `dst` from.
pub open spec fn has_source(addrs: Seq<IpAddress>, dst: IpAddress) -> bool {
    exists|i: int| 0 <= i < addrs.len() && serves(#[trigger] addrs[i], dst)
}

fn all_zero(a: &[u8; 16], from: usize, to: usize) -> (r: bool)
    requires
        from <= to <= 16,
    ensures
        r == zeros(a@, from as int, to as int),
{
    let mut i: usize = from;
    while i < to
        invariant
            from <= i <= to <= 16,
            zeros(a@, from as int, i as int),
        decreases to - i,
    {
        if a[i] != 0 {
            return false;
        }
        i += 1;
    }
    true
}

/// Whether `a` lies in the link-local range.
pub fn is_link_local(a: &[u8; 16]) -> (r: bool)
    ensures
        r == link_local(*a),
{
    a[0] == 0xfe && a[1] == 0x80 && all_zero(a, 2, 8)
}

/// Whether `a` is the loopback address.
pub fn is_loopback(a: &[u8; 16]) -> (r: bool)
    ensures
        r == loopback(*a),
{
    all_zero(a, 0, 15) && a[15] == 1
}

/// Whether a connection to `dst` may be opened from `src`.
pub fn is_eligible(dst: &[u8; 16], src: &[u8; 16]) -> (r: bool)
    ensures
        r == eligible(*dst, *src),
{
    if is_link_local(dst) && !is_link_local(src) {
        return false;
    }
    !is_loopback(src) && src[0] != 0xff
}

/// Whether a connection to `dst` can be opened from `src`.
pub fn is_source(src: &IpAddress, dst: &IpAddress) -> (r: bool)
    ensures
        r == serves(*src, *dst),
{
    match (dst, src) {
        (IpAddress::Ipv4(_), IpAddress::Ipv4(_)) => true,
        (IpAddress::Ipv6(d), IpAddress::Ipv6(s)) => is_eligible(d, s),
        _ => false,
    }
}

/// Whether `addrs` holds an address to open a connection to `dst` from.
pub fn find_source(addrs: &Vec<IpAddress>, dst: &IpAddress) -> (found: bool)
    ensures
        found == has_source(addrs@, *dst),
{
    let mut i: usize = 0;
    while i < addrs.len()
        invariant
            i <= addrs@.len(),
            forall|j: int| 0 <= j < i ==> !serves(#[trigger] addrs@[j], *dst),
        decreases addrs@.len() - i,
    {
        if is_source(&addrs[i], dst) {
            return true;
        }
        i += 1;
    }
    false
}

} // verus!
