use smoltcp::socket::UdpPacketMetadata;
use udp_bridge::attempt::{recv_outcome, send_outcome, Attempt};
use udp_bridge::endpoint::{Address, Endpoint};
use udp_bridge::error::UdpError;
use udp_bridge::udp::{
    bind, can_recv, can_send, close, endpoint, hop_limit, is_open, new, packet_recv_capacity,
    packet_send_capacity, payload_recv_capacity, payload_send_capacity, set_hop_limit,
};

const UNBOUND: Endpoint = Endpoint { addr: Address::Unspecified, port: 0 };

#[test]
fn new_socket_is_unbound_and_empty() {
    let mut rx = [0u8; 64];
    let mut tx = [0u8; 32];
    let mut rx_meta = [UdpPacketMetadata::EMPTY; 4];
    let mut tx_meta = [UdpPacketMetadata::EMPTY; 2];
    let s = new(&mut rx, &mut tx, &mut rx_meta, &mut tx_meta);
    assert_eq!(endpoint(&s), UNBOUND);
    assert_eq!(hop_limit(&s), None);
    assert!(!is_open(&s));
    assert!(!can_recv(&s));
    assert!(can_send(&s));
}

#[test]
fn capacities_are_the_lengths_of_the_buffers() {
    let mut rx = [0u8; 64];
    let mut tx = [0u8; 32];
    let mut rx_meta = [UdpPacketMetadata::EMPTY; 4];
    let mut tx_meta = [UdpPacketMetadata::EMPTY; 2];
    let s = new(&mut rx, &mut tx, &mut rx_meta, &mut tx_meta);
    assert_eq!(packet_recv_capacity(&s), 4);
    assert_eq!(packet_send_capacity(&s), 2);
    assert_eq!(payload_recv_capacity(&s), 64);
    assert_eq!(payload_send_capacity(&s), 32);
}

#[test]
fn socket_without_transmit_records_cannot_send() {
    let mut rx = [0u8; 8];
    let mut tx = [0u8; 8];
    let mut rx_meta = [UdpPacketMetadata::EMPTY; 1];
    let mut tx_meta: [UdpPacketMetadata; 0] = [];
    let s = new(&mut rx, &mut tx, &mut rx_meta, &mut tx_meta);
    assert!(!can_send(&s));
    assert_eq!(packet_send_capacity(&s), 0);
}

#[test]
fn bind_opens_the_socket() {
    let mut rx = [0u8; 64];
    let mut tx = [0u8; 64];
    let mut rx_meta = [UdpPacketMetadata::EMPTY; 4];
    let mut tx_meta = [UdpPacketMetadata::EMPTY; 4];
    let mut s = new(&mut rx, &mut tx, &mut rx_meta, &mut tx_meta);
    let local = Endpoint { addr: Address::Ipv4([192, 168, 1, 7]), port: 4242 };
    assert_eq!(bind(&mut s, local), Ok(()));
    assert!(is_open(&s));
    assert_eq!(endpoint(&s), local);
}

#[test]
fn bind_keeps_an_ipv6_address_octet_by_octet() {
    let mut rx = [0u8; 64];
    let mut tx = [0u8; 64];
    let mut rx_meta = [UdpPacketMetadata::EMPTY; 4];
    let mut tx_meta = [UdpPacketMetadata::EMPTY; 4];
    let mut s = new(&mut rx, &mut tx, &mut rx_meta, &mut tx_meta);
    let octets = [0xfe, 0x80, 0, 0, 0, 0, 0, 0, 1, 2, 3, 4, 5, 6, 7, 8];
    let local = Endpoint { addr: Address::Ipv6(octets), port: 65535 };
    assert_eq!(bind(&mut s, local), Ok(()));
    assert_eq!(endpoint(&s), local);
    assert_ne!(endpoint(&s), Endpoint { addr: Address::Ipv6([0u8; 16]), port: 65535 });
}

#[test]
fn bind_to_port_only_leaves_the_address_unspecified() {
    let mut rx = [0u8; 64];
    let mut tx = [0u8; 64];
    let mut rx_meta = [UdpPacketMetadata::EMPTY; 4];
    let mut tx_meta = [UdpPacketMetadata::EMPTY; 4];
    let mut s = new(&mut rx, &mut tx, &mut rx_meta, &mut tx_meta);
    let local = Endpoint { addr: Address::Unspecified, port: 53 };
    assert_eq!(bind(&mut s, local), Ok(()));
    assert_eq!(endpoint(&s), local);
    assert!(is_open(&s));
}

#[test]
fn bind_to_port_zero_is_unaddressable() {
    let mut rx = [0u8; 64];
    let mut tx = [0u8; 64];
    let mut rx_meta = [UdpPacketMetadata::EMPTY; 4];
    let mut tx_meta = [UdpPacketMetadata::EMPTY; 4];
    let mut s = new(&mut rx, &mut tx, &mut rx_meta, &mut tx_meta);
    let nowhere = Endpoint { addr: Address::Ipv4([10, 0, 0, 1]), port: 0 };
    assert_eq!(bind(&mut s, nowhere), Err(UdpError::Unaddressable));
    assert!(!is_open(&s));
    assert_eq!(endpoint(&s), UNBOUND);
}

#[test]
fn bind_of_an_open_socket_is_illegal() {
    let mut rx = [0u8; 64];
    let mut tx = [0u8; 64];
    let mut rx_meta = [UdpPacketMetadata::EMPTY; 4];
    let mut tx_meta = [UdpPacketMetadata::EMPTY; 4];
    let mut s = new(&mut rx, &mut tx, &mut rx_meta, &mut tx_meta);
    let first = Endpoint { addr: Address::Unspecified, port: 1000 };
    let second = Endpoint { addr: Address::Unspecified, port: 2000 };
    assert_eq!(bind(&mut s, first), Ok(()));
    assert_eq!(bind(&mut s, second), Err(UdpError::Illegal));
    assert_eq!(endpoint(&s), first);
}

#[test]
fn bind_to_port_zero_of_an_open_socket_is_unaddressable() {
    let mut rx = [0u8; 64];
    let mut tx = [0u8; 64];
    let mut rx_meta = [UdpPacketMetadata::EMPTY; 4];
    let mut tx_meta = [UdpPacketMetadata::EMPTY; 4];
    let mut s = new(&mut rx, &mut tx, &mut rx_meta, &mut tx_meta);
    let first = Endpoint { addr: Address::Unspecified, port: 1000 };
    assert_eq!(bind(&mut s, first), Ok(()));
    assert_eq!(bind(&mut s, UNBOUND), Err(UdpError::Unaddressable));
    assert_eq!(endpoint(&s), first);
}

#[test]
fn close_unbinds_the_socket() {
    let mut rx = [0u8; 64];
    let mut tx = [0u8; 64];
    let mut rx_meta = [UdpPacketMetadata::EMPTY; 4];
    let mut tx_meta = [UdpPacketMetadata::EMPTY; 4];
    let mut s = new(&mut rx, &mut tx, &mut rx_meta, &mut tx_meta);
    assert_eq!(bind(&mut s, Endpoint { addr: Address::Unspecified, port: 1000 }), Ok(()));
    close(&mut s);
    assert!(!is_open(&s));
    assert_eq!(endpoint(&s), UNBOUND);
    assert_eq!(bind(&mut s, Endpoint { addr: Address::Unspecified, port: 2000 }), Ok(()));
    assert!(is_open(&s));
}

#[test]
fn close_of_a_closed_socket_leaves_it_closed() {
    let mut rx = [0u8; 64];
    let mut tx = [0u8; 64];
    let mut rx_meta = [UdpPacketMetadata::EMPTY; 4];
    let mut tx_meta = [UdpPacketMetadata::EMPTY; 4];
    let mut s = new(&mut rx, &mut tx, &mut rx_meta, &mut tx_meta);
    close(&mut s);
    assert!(!is_open(&s));
    assert_eq!(bind(&mut s, Endpoint { addr: Address::Unspecified, port: 1000 }), Ok(()));
    set_hop_limit(&mut s, Some(9));
    close(&mut s);
    close(&mut s);
    assert!(!is_open(&s));
    assert_eq!(endpoint(&s), UNBOUND);
    assert_eq!(hop_limit(&s), Some(9));
    assert_eq!(payload_send_capacity(&s), 64);
    assert_eq!(packet_recv_capacity(&s), 4);
    assert!(can_send(&s));
    assert!(!can_recv(&s));
}

#[test]
fn hop_limit_is_what_was_set_last() {
    let mut rx = [0u8; 64];
    let mut tx = [0u8; 64];
    let mut rx_meta = [UdpPacketMetadata::EMPTY; 4];
    let mut tx_meta = [UdpPacketMetadata::EMPTY; 4];
    let mut s = new(&mut rx, &mut tx, &mut rx_meta, &mut tx_meta);
    set_hop_limit(&mut s, Some(1));
    assert_eq!(hop_limit(&s), Some(1));
    set_hop_limit(&mut s, Some(255));
    assert_eq!(hop_limit(&s), Some(255));
    set_hop_limit(&mut s, None);
    assert_eq!(hop_limit(&s), None);
    assert!(!is_open(&s));
}

#[test]
fn receive_decision_completes_on_a_datagram() {
    let from = Endpoint { addr: Address::Ipv4([10, 0, 0, 2]), port: 7 };
    assert_eq!(recv_outcome(Ok((10, from))), Attempt::Ready((10, from)));
    assert_eq!(recv_outcome(Ok((0, UNBOUND))), Attempt::Ready((0, UNBOUND)));
}

#[test]
fn receive_decision_suspends_on_every_error() {
    let errors = [
        UdpError::Exhausted,
        UdpError::Illegal,
        UdpError::Unaddressable,
        UdpError::Finished,
        UdpError::Truncated,
        UdpError::Checksum,
        UdpError::Unrecognized,
        UdpError::Fragmented,
        UdpError::Malformed,
        UdpError::Dropped,
        UdpError::NotSupported,
        UdpError::Unknown,
    ];
    for e in errors {
        assert_eq!(recv_outcome(Err(e)), Attempt::Suspended);
    }
}

#[test]
fn send_decision_suspends_only_on_a_full_buffer() {
    assert_eq!(send_outcome(Ok(())), Attempt::Ready(Ok(())));
    assert_eq!(send_outcome(Err(UdpError::Exhausted)), Attempt::Suspended);
    let final_errors = [
        UdpError::Illegal,
        UdpError::Unaddressable,
        UdpError::Finished,
        UdpError::Truncated,
        UdpError::Checksum,
        UdpError::Unrecognized,
        UdpError::Fragmented,
        UdpError::Malformed,
        UdpError::Dropped,
        UdpError::NotSupported,
        UdpError::Unknown,
    ];
    for e in final_errors {
        assert_eq!(send_outcome(Err(e)), Attempt::Ready(Err(e)));
    }
}
