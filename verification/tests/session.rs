use std::io::{Error as IoError, ErrorKind};
use std::time::Duration;

use bytes::Bytes;
use udp_session::{
    Error, IpFamily, SessionConfig, SetupProgress, SocketAddress, SocketPair, SocketPairSetup,
    UdpSession,
};

fn sockets(config: SessionConfig) -> SocketPair {
    let mut setup = SocketPairSetup::begin(config);
    loop {
        match setup.advance(Ok(())) {
            Ok(SetupProgress::Pending(next)) => setup = next,
            Ok(SetupProgress::Complete(pair)) => return pair,
            Err(e) => panic!("a step that succeeded gave {:?}", e),
        }
    }
}

fn session(ipv6: bool, assoc_id: u16) -> UdpSession {
    let config = SessionConfig {
        udp_relay_ipv6: ipv6,
        max_idle_time: Duration::from_millis(50),
        max_external_packet_size: 1500,
    };
    UdpSession::new(sockets(config), assoc_id)
}

fn v4_destination() -> SocketAddress {
    SocketAddress::V4 { ip: [203, 0, 113, 5], port: 9000 }
}

fn v6_destination() -> SocketAddress {
    SocketAddress::V6 {
        ip: [0x20, 0x01, 0x0d, 0xb8, 0, 0, 0, 0, 0, 0, 0, 0, 0, 0, 0, 1],
        port: 9000,
        flowinfo: 0,
        scope_id: 0,
    }
}

#[test]
fn new_session_takes_its_settings() {
    let config = SessionConfig {
        udp_relay_ipv6: true,
        max_idle_time: Duration::from_secs(10),
        max_external_packet_size: 2048,
    };
    let s = UdpSession::new(sockets(config), 0xbeef);
    assert_eq!(s.assoc_id(), 0xbeef);
    assert!(s.has_v6());
    assert_eq!(s.max_idle_time(), Duration::from_secs(10));
    assert_eq!(s.max_external_packet_size(), 2048);
    assert!(s.is_open());
}

#[test]
fn ipv6_socket_follows_the_settings() {
    assert!(!session(false, 1).has_v6());
    assert!(session(true, 1).has_v6());
}

#[test]
fn send_hello_to_ipv4_destination_without_ipv6() {
    let s = session(false, 0x1234);
    let order = s.send(Bytes::from_static(b"hello"), v4_destination()).unwrap();
    assert_eq!(order.socket, IpFamily::V4);
    assert_eq!(order.payload.len(), 5);
    assert_eq!(&order.payload[..], b"hello");
    assert_eq!(order.destination, SocketAddress::V4 { ip: [203, 0, 113, 5], port: 9000 });
    assert!(UdpSession::sent(Ok(5)).is_ok());
}

#[test]
fn send_to_ipv6_destination_without_ipv6_is_refused() {
    let s = session(false, 0x1234);
    match s.send(Bytes::from_static(b"x"), v6_destination()) {
        Err(Error::UdpRelayIpv6Disabled(addr)) => assert_eq!(
            addr,
            SocketAddress::V6 {
                ip: [0x20, 0x01, 0x0d, 0xb8, 0, 0, 0, 0, 0, 0, 0, 0, 0, 0, 0, 1],
                port: 9000,
                flowinfo: 0,
                scope_id: 0,
            }
        ),
        other => panic!("not refused: {:?}", other),
    }
}

#[test]
fn send_to_ipv6_destination_with_ipv6_uses_the_ipv6_socket() {
    let s = session(true, 7);
    let order = s.send(Bytes::from_static(b"abc"), v6_destination()).unwrap();
    assert_eq!(order.socket, IpFamily::V6);
    assert_eq!(&order.payload[..], b"abc");
    assert_eq!(order.destination, v6_destination());
}

#[test]
fn send_to_ipv4_destination_uses_the_ipv4_socket_either_way() {
    for ipv6 in [false, true] {
        let s = session(ipv6, 7);
        let order = s.send(Bytes::from_static(b"abc"), v4_destination()).unwrap();
        assert_eq!(order.socket, IpFamily::V4);
        assert_eq!(order.destination, v4_destination());
    }
}

#[test]
fn send_passes_an_empty_payload_on() {
    let s = session(false, 7);
    let order = s.send(Bytes::new(), v4_destination()).unwrap();
    assert_eq!(order.payload.len(), 0);
}

#[test]
fn send_does_not_close_the_session() {
    let s = session(false, 7);
    let _ = s.send(Bytes::from_static(b"abc"), v6_destination());
    let _ = s.send(Bytes::from_static(b"abc"), v4_destination());
    assert!(s.is_open());
}

#[test]
fn failed_send_is_an_io_error() {
    match UdpSession::sent(Err(IoError::from(ErrorKind::NetworkUnreachable))) {
        Err(Error::Io(cause)) => assert_eq!(cause.kind(), ErrorKind::NetworkUnreachable),
        other => panic!("not an I/O error: {:?}", other),
    }
}

#[test]
fn completed_send_is_ok_whatever_the_count() {
    assert!(UdpSession::sent(Ok(0)).is_ok());
    assert!(UdpSession::sent(Ok(65507)).is_ok());
}

#[test]
fn recv_buffer_has_the_configured_size_and_is_zeroed() {
    let s = session(false, 1);
    let buf = s.recv_buffer();
    assert_eq!(buf.len(), 1500);
    assert!(buf.iter().all(|b| *b == 0));
}

#[test]
fn recv_buffer_of_size_zero_is_empty() {
    let config = SessionConfig {
        udp_relay_ipv6: false,
        max_idle_time: Duration::from_secs(1),
        max_external_packet_size: 0,
    };
    let s = UdpSession::new(sockets(config), 1);
    assert_eq!(s.recv_buffer(), Vec::<u8>::new());
}

#[test]
fn recv_cuts_the_buffer_down_to_what_was_received() {
    let buf = vec![b'h', b'e', b'l', b'l', b'o', 0, 0, 0];
    let (pkt, origin) = UdpSession::recv(buf, Ok((5, v4_destination()))).unwrap();
    assert_eq!(pkt, Bytes::from_static(b"hello"));
    assert_eq!(pkt.len(), 5);
    assert_eq!(origin, v4_destination());
}

#[test]
fn recv_of_a_full_buffer_keeps_all_of_it() {
    let buf = vec![1, 2, 3, 4];
    let (pkt, origin) = UdpSession::recv(buf, Ok((4, v6_destination()))).unwrap();
    assert_eq!(&pkt[..], &[1, 2, 3, 4]);
    assert_eq!(origin, v6_destination());
}

#[test]
fn recv_of_an_empty_datagram_gives_an_empty_payload() {
    let buf = vec![9, 9, 9];
    let (pkt, _) = UdpSession::recv(buf, Ok((0, v4_destination()))).unwrap();
    assert!(pkt.is_empty());
}

#[test]
fn recv_with_a_count_beyond_the_buffer_keeps_the_buffer() {
    let buf = vec![1, 2, 3];
    let (pkt, _) = UdpSession::recv(buf, Ok((10, v4_destination()))).unwrap();
    assert_eq!(&pkt[..], &[1, 2, 3]);
}

#[test]
fn recv_passes_a_failure_on() {
    let buf = vec![0; 16];
    match UdpSession::recv(buf, Err(IoError::from(ErrorKind::ConnectionReset))) {
        Err(cause) => assert_eq!(cause.kind(), ErrorKind::ConnectionReset),
        Ok(got) => panic!("not a failure: {:?}", got),
    }
}

#[test]
fn close_empties_the_slot_and_keeps_the_rest() {
    let mut s = session(true, 0x0042);
    assert!(s.is_open());
    s.close();
    assert!(!s.is_open());
    assert_eq!(s.assoc_id(), 0x0042);
    assert!(s.has_v6());
    assert_eq!(s.max_idle_time(), Duration::from_millis(50));
    assert_eq!(s.max_external_packet_size(), 1500);
}
