//! Local ports for outgoing connections.

use vstd::prelude::*;

verus! {

/// The first port above the registered range.
pub const FIRST_EPHEMERAL_PORT: u16 = 49152;

/// The source of local ports for outgoing connections: a counter that starts
/// at [`FIRST_EPHEMERAL_PORT`] and wraps to 0 after 65535. It does not know
/// which ports are in use; the engine refuses a connection that collides.
#[derive(Debug)]
pub struct EphemeralPorts {
    next: u16,
}

impl View for EphemeralPorts {
    type V = u16;

    /// The port that is handed out next.
    closed spec fn view(&self) -> u16 {
        self.next
    }
}

/// The port after `port`, with 0 after the last.
pub open spec fn successor(port: u16) -> u16 {
    if port == u16::MAX {
        0
    } else {
        (port + 1) as u16
    }
}

impl EphemeralPorts {
    /// A counter at its start.
    pub fn new() -> (ports: EphemeralPorts)
        ensures
            ports@ == FIRST_EPHEMERAL_PORT,
    {
        EphemeralPorts { next: FIRST_EPHEMERAL_PORT }
    }
}

/// Hands out the next local port and steps the counter.
pub fn get_ephemeral_port(ports: &mut EphemeralPorts) -> (port: u16)
    ensures
        port == old(ports)@,
        final(ports)@ == successor(port),
{
    let port = ports.next;
    ports.next = port.wrapping_add(1);
    port
}

} // verus!
