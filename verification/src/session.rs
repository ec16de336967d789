//! The state of one association's relay session, and what it decides for the
//! datagrams that pass through it.

use vstd::prelude::*;
use bytes::Bytes;
use core::time::Duration;
use crate::address::{IpFamily, SocketAddress};
use crate::error::Error;
use crate::payload::{payload_bytes, payload_from_vec};
use crate::setup::SocketPair;

verus! {

/// The order to send one datagram: on the socket of family `socket`, the bytes
/// of `payload`, to `destination`.
#[derive(Debug)]
pub struct Transmit {
    pub socket: IpFamily,
    pub payload: Bytes,
    pub destination: SocketAddress,
}

/// The relay session of one association.
#[derive(Debug)]
pub struct UdpSession {
    assoc_id: u16,
    has_v6: bool,
    max_idle_time: Duration,
    max_external_packet_size: usize,
    open: bool,
}

/// The family of the socket that carries a datagram to `addr` in a session
/// with (`has_v6`) or without an IPv6 socket; `None` where there is no such
/// socket.
pub open spec fn route(has_v6: bool, addr: SocketAddress) -> Option<IpFamily> {
    match addr.spec_family() {
        IpFamily::V4 => Some(IpFamily::V4),
        IpFamily::V6 => if has_v6 {
            Some(IpFamily::V6)
        } else {
            None
        },
    }
}

/// What is left of a receive buffer that the system filled with `n` bytes.
pub open spec fn received(buf: Seq<u8>, n: nat) -> Seq<u8> {
    if n <= buf.len() {
        buf.take(n as int)
    } else {
        buf
    }
}

impl UdpSession {
    /// The identifier of the association.
    pub closed spec fn spec_assoc_id(&self) -> u16 {
        self.assoc_id
    }

    /// Whether the session has an IPv6 socket beside its IPv4 socket.
    pub closed spec fn spec_has_v6(&self) -> bool {
        self.has_v6
    }

    /// The idle time after which the connection is closed.
    pub closed spec fn spec_max_idle_time(&self) -> Duration {
        self.max_idle_time
    }

    /// The size of the receive buffer.
    pub closed spec fn spec_max_external_packet_size(&self) -> usize {
        self.max_external_packet_size
    }

    /// Whether the close signal is still to be given.
    pub closed spec fn spec_is_open(&self) -> bool {
        self.open
    }

    /// Creates the session of association `assoc_id` on a socket pair whose
    /// setup is complete. The session has an IPv6 socket exactly if IPv6 relay
    /// was enabled in the settings that the pair was set up under; idle time
    /// and buffer size are those of the same settings. The close signal has
    /// not been given.
    pub fn new(sockets: SocketPair, assoc_id: u16) -> (session: UdpSession)
        ensures
            session.spec_assoc_id() == assoc_id,
            session.spec_has_v6() == sockets.spec_config().udp_relay_ipv6,
            session.spec_max_idle_time() == sockets.spec_config().max_idle_time,
            session.spec_max_external_packet_size()
                == sockets.spec_config().max_external_packet_size,
            session.spec_is_open(),
    {
        let config = sockets.config();
        UdpSession {
            assoc_id,
            has_v6: config.udp_relay_ipv6,
            max_idle_time: config.max_idle_time,
            max_external_packet_size: config.max_external_packet_size,
            open: true,
        }
    }

    #[verifier::when_used_as_spec(spec_assoc_id)]
    pub fn assoc_id(&self) -> (id: u16)
        ensures
            id == self.spec_assoc_id(),
    {
        self.assoc_id
    }

    #[verifier::when_used_as_spec(spec_has_v6)]
    pub fn has_v6(&self) -> (b: bool)
        ensures
            b == self.spec_has_v6(),
    {
        self.has_v6
    }

    #[verifier::when_used_as_spec(spec_max_idle_time)]
    pub fn max_idle_time(&self) -> (idle: Duration)
        ensures
            idle == self.spec_max_idle_time(),
    {
        self.max_idle_time
    }

    #[verifier::when_used_as_spec(spec_max_external_packet_size)]
    pub fn max_external_packet_size(&self) -> (size: usize)
        ensures
            size == self.spec_max_external_packet_size(),
    {
        self.max_external_packet_size
    }

    #[verifier::when_used_as_spec(spec_is_open)]
    pub fn is_open(&self) -> (b: bool)
        ensures
            b == self.spec_is_open(),
    {
        self.open
    }

    /// Decides how `pkt` goes out to `addr`: on the socket of the address's
    /// family. An IPv6 destination in a session without an IPv6 socket is
    /// refused with the address, and nothing is to be sent. The payload and
    /// the destination are passed on as they came.
    pub fn send(&self, pkt: Bytes, addr: SocketAddress) -> (order: Result<Transmit, Error>)
        ensures
            match route(self.spec_has_v6(), addr) {
                Some(family) => order matches Ok(t) && t.socket == family && t.payload == pkt
                    && t.destination == addr,
                None => order matches Err(Error::UdpRelayIpv6Disabled(a)) && a == addr,
            },
    {
        let socket = match addr {
            SocketAddress::V4 { .. } => IpFamily::V4,
            SocketAddress::V6 { .. } => {
                if !self.has_v6 {
                    return Err(Error::UdpRelayIpv6Disabled(addr));
                }
                IpFamily::V6
            },
        };
        Ok(Transmit { socket, payload: pkt, destination: addr })
    }

    /// Takes what the socket reported of a send: the number of bytes sent, or
    /// the failure, which becomes the session's I/O error. Nothing is retried.
    pub fn sent(outcome: Result<usize, std::io::Error>) -> (result: Result<(), Error>)
        ensures
            match outcome {
                Ok(_) => result is Ok,
                Err(cause) => result matches Err(Error::Io(e)) && e == cause,
            },
    {
        match outcome {
            Ok(_) => Ok(()),
            Err(cause) => Err(Error::Io(cause)),
        }
    }

    /// A buffer to receive one datagram into: as many zero bytes as the
    /// session's buffer size says.
    pub fn recv_buffer(&self) -> (buf: Vec<u8>)
        ensures
            buf@ == Seq::new(self.spec_max_external_packet_size() as nat, |i: int| 0u8),
    {
        let buf = vec![0u8; self.max_external_packet_size];
        buf
    }

    /// Takes what a socket reported of a receive into `buf`: the number of
    /// bytes written and the address they came from, or the failure. The
    /// datagram's payload is the buffer cut down to that number; the failure
    /// is passed on as it came.
    pub fn recv(buf: Vec<u8>, outcome: Result<(usize, SocketAddress), std::io::Error>) -> (result:
        Result<(Bytes, SocketAddress), std::io::Error>)
        ensures
            match outcome {
                Ok((n, origin)) => result matches Ok((pkt, addr)) && addr == origin
                    && payload_bytes(pkt) == received(buf@, n as nat),
                Err(cause) => result matches Err(e) && e == cause,
            },
    {
        match outcome {
            Ok((n, origin)) => {
                let mut buf = buf;
                buf.truncate(n);
                Ok((payload_from_vec(buf), origin))
            },
            Err(cause) => Err(cause),
        }
    }

    /// Gives the close signal: the slot is emptied, so that the signal can be
    /// given once only. Nothing else changes.
    pub fn close(&mut self)
        requires
            old(self).spec_is_open(),
        ensures
            !final(self).spec_is_open(),
            final(self).spec_assoc_id() == old(self).spec_assoc_id(),
            final(self).spec_has_v6() == old(self).spec_has_v6(),
            final(self).spec_max_idle_time() == old(self).spec_max_idle_time(),
            final(self).spec_max_external_packet_size() == old(
                self,
            ).spec_max_external_packet_size(),
    {
        self.open = false;
    }
}

/// A payload is the front of the buffer it was received into, and so never
/// longer than that buffer: what the system could not fit is not relayed.
pub proof fn lemma_payload_fits_buffer(buf: Seq<u8>, n: nat)
    ensures
        received(buf, n).len() <= buf.len(),
        received(buf, n).len() <= n,
        received(buf, n).is_prefix_of(buf),
{
}

} // verus!
