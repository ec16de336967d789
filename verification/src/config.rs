//! The settings of a session.

use vstd::prelude::*;
use core::time::Duration;

verus! {

/// The settings a session is created under. They are read once, when the
/// setup of its sockets begins, and stay with the session for its lifetime.
#[derive(Clone, Copy, Debug)]
pub struct SessionConfig {
    /// Whether datagrams are relayed to and from IPv6 addresses.
    pub udp_relay_ipv6: bool,
    /// For how long the session may see no event before the connection it
    /// belongs to is taken for dead.
    pub max_idle_time: Duration,
    /// The size of the buffer a datagram is received into.
    pub max_external_packet_size: usize,
}

} // verus!
