//! Socket addresses as plain values.

use vstd::prelude::*;

verus! {

/// The address families a session relays for.
#[derive(Clone, Copy, Debug, PartialEq, Eq, Structural)]
pub enum IpFamily {
    V4,
    V6,
}

/// A socket address: the octets of the IP address in network order, the port,
/// and for IPv6 the flow information and the scope identifier.
#[derive(Clone, Copy, Debug, PartialEq, Eq)]
#[allow(inconsistent_fields)]
pub enum SocketAddress {
    V4 { ip: [u8; 4], port: u16 },
    V6 { ip: [u8; 16], port: u16, flowinfo: u32, scope_id: u32 },
}

impl SocketAddress {
    /// The family that the address belongs to.
    pub open spec fn spec_family(&self) -> IpFamily {
        match *self {
            SocketAddress::V4 { .. } => IpFamily::V4,
            SocketAddress::V6 { .. } => IpFamily::V6,
        }
    }

    /// The port of the address.
    pub open spec fn spec_port(&self) -> u16 {
        match *self {
            SocketAddress::V4 { port, .. } => port,
            SocketAddress::V6 { port, .. } => port,
        }
    }

    /// The octets of the IP address.
    pub open spec fn octets(&self) -> Seq<u8> {
        match *self {
            SocketAddress::V4 { ip, .. } => ip@,
            SocketAddress::V6 { ip, .. } => ip@,
        }
    }

    /// Whether this is the wildcard address of `family` with port zero, the
    /// address a socket is bound to when the system is to pick the port.
    pub open spec fn is_ephemeral_wildcard(&self, family: IpFamily) -> bool {
        &&& self.spec_family() == family
        &&& self.spec_port() == 0
        &&& forall|i: int| 0 <= i < self.octets().len() ==> self.octets()[i] == 0
        &&& *self matches SocketAddress::V6 { flowinfo, scope_id, .. } ==> flowinfo == 0
            && scope_id == 0
    }

    #[verifier::when_used_as_spec(spec_family)]
    pub fn family(&self) -> (family: IpFamily)
        ensures
            family == self.spec_family(),
    {
        match *self {
            SocketAddress::V4 { .. } => IpFamily::V4,
            SocketAddress::V6 { .. } => IpFamily::V6,
        }
    }

    #[verifier::when_used_as_spec(spec_port)]
    pub fn port(&self) -> (port: u16)
        ensures
            port == self.spec_port(),
    {
        match *self {
            SocketAddress::V4 { port, .. } => port,
            SocketAddress::V6 { port, .. } => port,
        }
    }

    /// The wildcard address of `family` with port zero.
    pub fn ephemeral_wildcard(family: IpFamily) -> (addr: SocketAddress)
        ensures
            addr.is_ephemeral_wildcard(family),
    {
        match family {
            IpFamily::V4 => SocketAddress::V4 { ip: [0u8; 4], port: 0 },
            IpFamily::V6 => SocketAddress::V6 { ip: [0u8; 16], port: 0, flowinfo: 0, scope_id: 0 },
        }
    }
}

} // verus!
