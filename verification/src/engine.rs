//! The boundary to the engine: its types, what its sockets hold, and one
//! contract for each of its operations that this library calls. Nothing in
//! this file is proved; every contract restates what the engine's source
//! shows.

use vstd::prelude::*;
use std::task::Waker;
use smoltcp::socket::UdpSocket;
use smoltcp::socket::UdpPacketMetadata;
use smoltcp::socket::UdpSocketBuffer;
use smoltcp::storage::PacketMetadata;
use smoltcp::wire::IpAddress;
use smoltcp::wire::IpEndpoint;
use smoltcp::wire::Ipv4Address;
use smoltcp::wire::Ipv6Address;
use crate::endpoint::Address;
use crate::endpoint::Endpoint;
use crate::error::UdpError;
use crate::view::Datagram;
use crate::view::SocketView;
use crate::view::copied_len;
use crate::view::delivered;

verus! {

/// The engine's state of one datagram socket, `smoltcp::socket::UdpSocket`.
#[verifier::external_type_specification]
#[verifier::external_body]
pub struct ExUdpSocket<'a>(UdpSocket<'a>);

/// The engine's record of one queued packet, `smoltcp::storage::PacketMetadata`.
#[verifier::external_type_specification]
#[verifier::external_body]
#[verifier::reject_recursive_types(H)]
pub struct ExPacketMetadata<H>(PacketMetadata<H>);

/// The engine's endpoint, `smoltcp::wire::IpEndpoint`.
#[verifier::external_type_specification]
#[verifier::external_body]
pub struct ExIpEndpoint(IpEndpoint);

/// The engine's error, `smoltcp::Error`.
#[verifier::external_type_specification]
#[verifier::external_body]
pub struct ExError(smoltcp::Error);

/// A task's waker, `std::task::Waker`.
#[verifier::external_type_specification]
#[verifier::external_body]
pub struct ExWaker(Waker);

/// What an engine socket holds: its bound endpoint and hop limit, the
/// datagrams in its two queues without the padding the engine puts between
/// them, whether padding is the newest record of its receive buffer, and
/// the sizes of its buffers.
pub uninterp spec fn socket_view(s: UdpSocket) -> SocketView;

/// Whether the socket's receive slot holds a waker for the task of `w`.
pub uninterp spec fn wakes_receiver(s: UdpSocket, w: Waker) -> bool;

/// Whether the socket's send slot holds a waker for the task of `w`.
pub uninterp spec fn wakes_sender(s: UdpSocket, w: Waker) -> bool;

/// The plain value of an engine endpoint: its address by its octets, and its
/// port.
pub uninterp spec fn endpoint_of(e: IpEndpoint) -> Endpoint;

/// The variant of an engine error.
pub uninterp spec fn error_of(e: smoltcp::Error) -> UdpError;

/// Calls `IpEndpoint::new` on the address with the same octets. Claims that
/// the engine endpoint made stands for `endpoint`.
#[verifier::external_body]
pub(crate) fn endpoint_to_engine(endpoint: Endpoint) -> (r: IpEndpoint)
    ensures
        endpoint_of(r) == endpoint,
{
    let addr = match endpoint.addr {
        Address::Unspecified => IpAddress::Unspecified,
        Address::Ipv4(octets) => IpAddress::Ipv4(Ipv4Address(octets)),
        Address::Ipv6(octets) => IpAddress::Ipv6(Ipv6Address(octets)),
    };
    IpEndpoint::new(addr, endpoint.port)
}

/// Reads the two public fields of `IpEndpoint`. Claims that the result is
/// the plain value of `e`. The engine's address type is open to new
/// variants; it has these three.
#[verifier::external_body]
pub(crate) fn endpoint_from_engine(e: IpEndpoint) -> (r: Endpoint)
    ensures
        r == endpoint_of(e),
{
    let addr = match e.addr {
        IpAddress::Unspecified => Address::Unspecified,
        IpAddress::Ipv4(a) => Address::Ipv4(a.0),
        IpAddress::Ipv6(a) => Address::Ipv6(a.0),
        _ => Address::Unspecified,
    };
    Endpoint { addr, port: e.port }
}

/// Tells the variants of `smoltcp::Error` apart. Claims that the result is
/// the variant of `e`; one that the engine may add later is `Unknown`.
#[verifier::external_body]
pub(crate) fn error_from_engine(e: smoltcp::Error) -> (r: UdpError)
    ensures
        r == error_of(e),
{
    match e {
        smoltcp::Error::Exhausted => UdpError::Exhausted,
        smoltcp::Error::Illegal => UdpError::Illegal,
        smoltcp::Error::Unaddressable => UdpError::Unaddressable,
        smoltcp::Error::Finished => UdpError::Finished,
        smoltcp::Error::Truncated => UdpError::Truncated,
        smoltcp::Error::Checksum => UdpError::Checksum,
        smoltcp::Error::Unrecognized => UdpError::Unrecognized,
        smoltcp::Error::Fragmented => UdpError::Fragmented,
        smoltcp::Error::Malformed => UdpError::Malformed,
        smoltcp::Error::Dropped => UdpError::Dropped,
        smoltcp::Error::NotSupported => UdpError::NotSupported,
        _ => UdpError::Unknown,
    }
}

/// Calls `UdpSocketBuffer::new` on each pair of buffers and `UdpSocket::new`
/// on the two results. Claims that the socket made is unbound, has no hop
/// limit, holds no datagram, and has the capacities of the four buffers.
#[verifier::external_body]
pub(crate) fn socket_new<'a>(
    rx_metadata: &'a mut [UdpPacketMetadata],
    rx_payload: &'a mut [u8],
    tx_metadata: &'a mut [UdpPacketMetadata],
    tx_payload: &'a mut [u8],
) -> (s: UdpSocket<'a>)
    ensures
        socket_view(s) == SocketView::fresh(
            old(rx_metadata)@.len(),
            old(rx_payload)@.len(),
            old(tx_metadata)@.len(),
            old(tx_payload)@.len(),
        ),
{
    UdpSocket::new(
        UdpSocketBuffer::new(rx_metadata, rx_payload),
        UdpSocketBuffer::new(tx_metadata, tx_payload),
    )
}

/// Calls `UdpSocket::endpoint`. Claims that it returns the bound endpoint.
#[verifier::external_body]
pub(crate) fn socket_endpoint(s: &UdpSocket) -> (r: IpEndpoint)
    ensures
        endpoint_of(r) == socket_view(*s).endpoint,
{
    s.endpoint()
}

/// Calls `UdpSocket::hop_limit`. Claims that it returns the hop limit.
#[verifier::external_body]
pub(crate) fn socket_hop_limit(s: &UdpSocket) -> (r: Option<u8>)
    ensures
        r == socket_view(*s).hop_limit,
{
    s.hop_limit()
}

/// Calls `UdpSocket::set_hop_limit`, which panics on a limit of zero. Claims
/// that it replaces the hop limit and nothing else.
#[verifier::external_body]
pub(crate) fn socket_set_hop_limit(s: &mut UdpSocket, hop_limit: Option<u8>)
    requires
        hop_limit != Some(0u8),
    ensures
        socket_view(*final(s)) == (SocketView { hop_limit, ..socket_view(*old(s)) }),
{
    s.set_hop_limit(hop_limit)
}

/// Calls `UdpSocket::bind`. Claims that it refuses port zero as
/// unaddressable and an open socket as illegal, in that order, and otherwise
/// replaces the bound endpoint and nothing else.
#[verifier::external_body]
pub(crate) fn socket_bind(s: &mut UdpSocket, endpoint: IpEndpoint) -> (r: Result<
    (),
    smoltcp::Error,
>)
    ensures
        match r {
            Ok(()) => socket_view(*old(s)).bind_verdict(endpoint_of(endpoint)) is Ok,
            Err(e) => socket_view(*old(s)).bind_verdict(endpoint_of(endpoint)) == Err::<
                (),
                UdpError,
            >(error_of(e)),
        },
        socket_view(*final(s)) == socket_view(*old(s)).bound(endpoint_of(endpoint)),
{
    s.bind(endpoint)
}

/// Calls `UdpSocket::close`. Claims that it unbinds the socket and empties
/// both buffers, and keeps the hop limit and the capacities.
#[verifier::external_body]
pub(crate) fn socket_close(s: &mut UdpSocket)
    ensures
        socket_view(*final(s)) == socket_view(*old(s)).closed(),
{
    s.close()
}

/// Calls `UdpSocket::is_open`. Claims that it tells whether the bound port
/// is not zero.
#[verifier::external_body]
pub(crate) fn socket_is_open(s: &UdpSocket) -> (r: bool)
    ensures
        r == socket_view(*s).is_open(),
{
    s.is_open()
}

/// Calls `UdpSocket::can_send`, which tells whether the transmit buffer has
/// a free record. Padding takes records too, so the claim is one-sided each
/// way: with a free record fewer datagrams are queued than records exist,
/// and without one no length is taken.
#[verifier::external_body]
pub(crate) fn socket_can_send(s: &UdpSocket) -> (r: bool)
    ensures
        r ==> socket_view(*s).tx.len() < socket_view(*s).tx_packets,
        !r ==> socket_view(*s).tx_room == Set::<nat>::empty(),
{
    s.can_send()
}

/// Calls `UdpSocket::can_recv`, which tells whether the receive buffer holds
/// a record. Claims that it does exactly when a datagram is queued or the
/// newest record is padding: with no datagram queued, every record is
/// padding.
#[verifier::external_body]
pub(crate) fn socket_can_recv(s: &UdpSocket) -> (r: bool)
    ensures
        r == socket_view(*s).can_recv(),
{
    s.can_recv()
}

/// Calls `UdpSocket::packet_recv_capacity`. Claims that it returns the
/// length of the receive metadata buffer.
#[verifier::external_body]
pub(crate) fn socket_packet_recv_capacity(s: &UdpSocket) -> (r: usize)
    ensures
        r == socket_view(*s).rx_packets,
{
    s.packet_recv_capacity()
}

/// Calls `UdpSocket::packet_send_capacity`. Claims that it returns the
/// length of the transmit metadata buffer.
#[verifier::external_body]
pub(crate) fn socket_packet_send_capacity(s: &UdpSocket) -> (r: usize)
    ensures
        r == socket_view(*s).tx_packets,
{
    s.packet_send_capacity()
}

/// Calls `UdpSocket::payload_recv_capacity`. Claims that it returns the
/// length of the receive payload buffer.
#[verifier::external_body]
pub(crate) fn socket_payload_recv_capacity(s: &UdpSocket) -> (r: usize)
    ensures
        r == socket_view(*s).rx_payload,
{
    s.payload_recv_capacity()
}

/// Calls `UdpSocket::payload_send_capacity`. Claims that it returns the
/// length of the transmit payload buffer.
#[verifier::external_body]
pub(crate) fn socket_payload_send_capacity(s: &UdpSocket) -> (r: usize)
    ensures
        r == socket_view(*s).tx_payload,
{
    s.payload_send_capacity()
}

/// Calls `UdpSocket::recv_slice`. Claims that it succeeds exactly when a
/// datagram is queued; that it then takes the oldest one out, copies as much
/// of its payload as fits to the front of `data` and returns that length
/// with the datagram's endpoint, and leaves padding behind the newest
/// datagram where it is; and that it otherwise fails as exhausted, leaves
/// the receive buffer without any record, and does not change `data`.
#[verifier::external_body]
pub(crate) fn socket_recv_slice(s: &mut UdpSocket, data: &mut [u8]) -> (r: Result<
    (usize, IpEndpoint),
    smoltcp::Error,
>)
    ensures
        match r {
            Ok((n, e)) => {
                &&& socket_view(*old(s)).rx.len() > 0
                &&& n == copied_len(old(data)@.len(), socket_view(*old(s)).rx[0].payload)
                &&& endpoint_of(e) == socket_view(*old(s)).rx[0].endpoint
                &&& final(data)@ == delivered(old(data)@, socket_view(*old(s)).rx[0].payload)
                &&& socket_view(*final(s)) == socket_view(*old(s)).received()
            },
            Err(e) => {
                &&& socket_view(*old(s)).rx.len() == 0
                &&& error_of(e) == UdpError::Exhausted
                &&& final(data)@ == old(data)@
                &&& socket_view(*final(s)) == socket_view(*old(s)).drained()
            },
        },
{
    s.recv_slice(data)
}

/// Calls `UdpSocket::send_slice`. Claims that it refuses an unbound socket
/// or an unspecified remote endpoint as unaddressable, then a payload longer
/// than the transmit payload buffer as truncated, then one for which the
/// buffer has no room now as exhausted; that an accepted datagram joins the
/// transmit queue at its end; and that a refused one leaves the queue as it
/// was and does not make room for its own length.
#[verifier::external_body]
pub(crate) fn socket_send_slice(s: &mut UdpSocket, data: &[u8], endpoint: IpEndpoint) -> (r:
    Result<(), smoltcp::Error>)
    ensures
        match r {
            Ok(()) => socket_view(*old(s)).send_verdict(data@.len(), endpoint_of(endpoint)) is Ok,
            Err(e) => socket_view(*old(s)).send_verdict(data@.len(), endpoint_of(endpoint))
                == Err::<(), UdpError>(error_of(e)),
        },
        socket_view(*old(s)).sends_to(
            Datagram { payload: data@, endpoint: endpoint_of(endpoint) },
            socket_view(*final(s)),
        ),
{
    s.send_slice(data, endpoint)
}

/// Calls `UdpSocket::register_recv_waker`. Claims that the receive slot then
/// holds a waker for the task of `waker`, and that the socket holds what it
/// held.
#[verifier::external_body]
pub(crate) fn socket_register_recv_waker(s: &mut UdpSocket, waker: &Waker)
    ensures
        wakes_receiver(*final(s), *waker),
        socket_view(*final(s)) == socket_view(*old(s)),
{
    s.register_recv_waker(waker)
}

/// Calls `UdpSocket::register_send_waker`. Claims that the send slot then
/// holds a waker for the task of `waker`, and that the socket holds what it
/// held.
#[verifier::external_body]
pub(crate) fn socket_register_send_waker(s: &mut UdpSocket, waker: &Waker)
    ensures
        wakes_sender(*final(s), *waker),
        socket_view(*final(s)) == socket_view(*old(s)),
{
    s.register_send_waker(waker)
}

} // verus!
