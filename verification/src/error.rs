//! The errors a session surfaces to its caller.

use vstd::prelude::*;
use crate::address::SocketAddress;

verus! {

/// The error type of std's I/O operations, `std::io::Error`. The library
/// carries such a value from the caller's socket call into its own error and
/// never looks inside it.
#[verifier::external_type_specification]
#[verifier::external_body]
pub struct ExIoError(std::io::Error);

/// What can go wrong in a session, as far as its caller gets to see it.
#[derive(Debug)]
pub enum Error {
    /// A step of the socket setup failed. The text says which step and which
    /// address family.
    Socket(&'static str, std::io::Error),
    /// A datagram was addressed to an IPv6 destination, and the session has
    /// no IPv6 socket.
    UdpRelayIpv6Disabled(SocketAddress),
    /// A socket operation failed.
    Io(std::io::Error),
}

} // verus!
