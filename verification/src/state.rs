//! The connection states of the protocol engine and what each one permits.

use vstd::prelude::*;

verus! {

/// The state of one connection, in terms of the TCP state machine.
#[derive(Clone, Copy, Debug, PartialEq, Eq, Structural)]
pub enum State {
    Closed,
    Listen,
    SynSent,
    SynReceived,
    Established,
    FinWait1,
    FinWait2,
    CloseWait,
    Closing,
    LastAck,
    TimeWait,
}

impl State {
    /// The connection processes packets: every state but `Closed` and `TimeWait`.
    pub open spec fn is_open(self) -> bool {
        self != State::Closed && self != State::TimeWait
    }

    /// The connection exchanges packets with a peer: open, and not listening.
    pub open spec fn is_active(self) -> bool {
        self.is_open() && self != State::Listen
    }

    /// The transmit half is open.
    pub open spec fn may_send(self) -> bool {
        self == State::Established || self == State::CloseWait
    }

    /// The receive half is open, whether or not octets are queued.
    pub open spec fn receives(self) -> bool {
        self == State::Established || self == State::FinWait1 || self == State::FinWait2
    }

    /// The peer is gone or going: reads end and writes are dropped.
    pub open spec fn is_ended(self) -> bool {
        self == State::Closed || self == State::Closing || self == State::CloseWait
    }

    /// No data can be moved in this state, in either direction.
    pub open spec fn is_faulty(self) -> bool {
        self == State::FinWait1 || self == State::FinWait2 || self == State::Listen
            || self == State::TimeWait
    }

    /// The handshake is still under way.
    pub open spec fn is_connecting(self) -> bool {
        self == State::SynSent || self == State::SynReceived
    }

    /// The state that an active close leads to.
    pub open spec fn after_close(self) -> State {
        match self {
            State::Listen | State::SynSent => State::Closed,
            State::SynReceived | State::Established => State::FinWait1,
            State::CloseWait => State::LastAck,
            _ => self,
        }
    }
}

} // verus!
