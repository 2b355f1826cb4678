//! Readiness events, as a set of flags.

use vstd::prelude::*;

verus! {

pub const POLLIN: u16 = 0x0001;

pub const POLLPRI: u16 = 0x0002;

pub const POLLOUT: u16 = 0x0004;

pub const POLLERR: u16 = 0x0008;

pub const POLLHUP: u16 = 0x0010;

pub const POLLNVAL: u16 = 0x0020;

pub const POLLRDNORM: u16 = 0x0040;

pub const POLLRDBAND: u16 = 0x0080;

pub const POLLWRNORM: u16 = 0x0100;

pub const POLLWRBAND: u16 = 0x0200;

pub const POLLRDHUP: u16 = 0x2000;

/// The flags that ask whether the socket can be read.
pub const READ_EVENTS: u16 = POLLIN | POLLRDNORM | POLLRDBAND;

/// The flags that ask whether the socket can be written.
pub const WRITE_EVENTS: u16 = POLLOUT | POLLWRNORM | POLLWRBAND;

/// A set of readiness flags.
#[derive(Clone, Copy, Debug, PartialEq, Eq, Structural)]
pub struct PollEvent {
    pub bits: u16,
}

impl PollEvent {
    /// The set without any flag.
    pub fn empty() -> (r: PollEvent)
        ensures
            r.bits == 0,
    {
        PollEvent { bits: 0 }
    }

    /// The set of the flags given as bits.
    pub fn from_bits(bits: u16) -> (r: PollEvent)
        ensures
            r.bits == bits,
    {
        PollEvent { bits }
    }

    /// The flags as bits.
    pub fn bits(&self) -> (r: u16)
        ensures
            r == self.bits,
    {
        self.bits
    }

    /// Whether no flag is set.
    pub fn is_empty(&self) -> (r: bool)
        ensures
            r == (self.bits == 0),
    {
        self.bits == 0
    }

    /// Whether the two sets share a flag.
    pub fn intersects(&self, other: PollEvent) -> (r: bool)
        ensures
            r == (self.bits & other.bits != 0),
    {
        self.bits & other.bits != 0
    }

    /// Whether every flag of `other` is set.
    pub fn contains(&self, other: PollEvent) -> (r: bool)
        ensures
            r == (self.bits & other.bits == other.bits),
    {
        self.bits & other.bits == other.bits
    }

    /// The flags that both sets hold.
    pub fn intersection(&self, other: PollEvent) -> (r: PollEvent)
        ensures
            r.bits == self.bits & other.bits,
    {
        PollEvent { bits: self.bits & other.bits }
    }

    /// The flags that either set holds.
    pub fn union(&self, other: PollEvent) -> (r: PollEvent)
        ensures
            r.bits == self.bits | other.bits,
    {
        PollEvent { bits: self.bits | other.bits }
    }

    /// Adds the flags of `other`.
    pub fn insert(&mut self, other: PollEvent)
        ensures
            final(self).bits == old(self).bits | other.bits,
    {
        self.bits = self.bits | other.bits;
    }
}

} // verus!
