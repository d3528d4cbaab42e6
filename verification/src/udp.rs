//! The operations on a datagram socket. Each takes the engine's state of
//! the socket, which the caller holds exclusively for the length of the
//! call; none of them waits.

use vstd::prelude::*;
use std::task::Waker;
use smoltcp::socket::UdpPacketMetadata;
use smoltcp::socket::UdpSocket;
use smoltcp::wire::IpEndpoint;
use crate::attempt::Attempt;
use crate::attempt::recv_attempt;
use crate::attempt::recv_outcome;
use crate::attempt::send_attempt;
use crate::attempt::send_outcome;
use crate::endpoint::Endpoint;
use crate::engine::endpoint_from_engine;
use crate::engine::endpoint_of;
use crate::engine::endpoint_to_engine;
use crate::engine::error_from_engine;
use crate::engine::error_of;
use crate::engine::socket_bind;
use crate::engine::socket_can_recv;
use crate::engine::socket_can_send;
use crate::engine::socket_close;
use crate::engine::socket_endpoint;
use crate::engine::socket_hop_limit;
use crate::engine::socket_is_open;
use crate::engine::socket_new;
use crate::engine::socket_packet_recv_capacity;
use crate::engine::socket_packet_send_capacity;
use crate::engine::socket_payload_recv_capacity;
use crate::engine::socket_payload_send_capacity;
use crate::engine::socket_recv_slice;
use crate::engine::socket_register_recv_waker;
use crate::engine::socket_register_send_waker;
use crate::engine::socket_send_slice;
use crate::engine::socket_set_hop_limit;
use crate::engine::socket_view;
use crate::engine::wakes_receiver;
use crate::engine::wakes_sender;
use crate::error::UdpError;
use crate::view::Datagram;
use crate::view::SocketView;

verus! {

/// Makes the engine's state of a socket over four buffers of the caller. The
/// socket borrows them for as long as it lives, so the engine that holds it
/// cannot reach them once it is gone.
pub fn new<'a>(
    rx_buffer: &'a mut [u8],
    tx_buffer: &'a mut [u8],
    rx_metadata_buffer: &'a mut [UdpPacketMetadata],
    tx_metadata_buffer: &'a mut [UdpPacketMetadata],
) -> (s: UdpSocket<'a>)
    ensures
        socket_view(s) == SocketView::fresh(
            old(rx_metadata_buffer)@.len(),
            old(rx_buffer)@.len(),
            old(tx_metadata_buffer)@.len(),
            old(tx_buffer)@.len(),
        ),
{
    socket_new(rx_metadata_buffer, rx_buffer, tx_metadata_buffer, tx_buffer)
}

/// The endpoint the socket is bound to.
pub fn endpoint(s: &UdpSocket) -> (r: Endpoint)
    ensures
        r == socket_view(*s).endpoint,
{
    endpoint_from_engine(socket_endpoint(s))
}

/// The hop limit of outgoing datagrams, if one was set.
pub fn hop_limit(s: &UdpSocket) -> (r: Option<u8>)
    ensures
        r == socket_view(*s).hop_limit,
{
    socket_hop_limit(s)
}

/// Sets or clears the hop limit of outgoing datagrams. A datagram must not
/// leave with a hop limit of zero.
pub fn set_hop_limit(s: &mut UdpSocket, hop_limit: Option<u8>)
    requires
        hop_limit != Some(0u8),
    ensures
        socket_view(*final(s)) == (SocketView { hop_limit, ..socket_view(*old(s)) }),
{
    socket_set_hop_limit(s, hop_limit)
}

/// Binds the socket to a local endpoint. Port zero is unaddressable, and a
/// socket that is already open cannot be bound again.
pub fn bind(s: &mut UdpSocket, endpoint: Endpoint) -> (r: Result<(), UdpError>)
    ensures
        r == socket_view(*old(s)).bind_verdict(endpoint),
        socket_view(*final(s)) == socket_view(*old(s)).bound(endpoint),
{
    match socket_bind(s, endpoint_to_engine(endpoint)) {
        Ok(()) => Ok(()),
        Err(e) => Err(error_from_engine(e)),
    }
}

/// Closes the socket: unbinds it and discards what both queues hold.
pub fn close(s: &mut UdpSocket)
    ensures
        socket_view(*final(s)) == socket_view(*old(s)).closed(),
        !socket_view(*final(s)).is_open(),
{
    socket_close(s)
}

/// Whether the socket is bound.
pub fn is_open(s: &UdpSocket) -> (r: bool)
    ensures
        r == socket_view(*s).is_open(),
{
    socket_is_open(s)
}

/// Whether the transmit buffer has a free record. With one, fewer datagrams
/// are queued than the buffer can describe; without one, no datagram is
/// taken.
pub fn can_send(s: &UdpSocket) -> (r: bool)
    ensures
        r ==> socket_view(*s).tx.len() < socket_view(*s).tx_packets,
        !r ==> socket_view(*s).tx_room == Set::<nat>::empty(),
{
    socket_can_send(s)
}

/// Whether the receive buffer holds a record: a datagram, or padding that
/// no datagram follows. A receive attempt completes in the first case and
/// suspends in the second.
pub fn can_recv(s: &UdpSocket) -> (r: bool)
    ensures
        r == socket_view(*s).can_recv(),
{
    socket_can_recv(s)
}

/// How many datagrams the receive buffer can describe.
pub fn packet_recv_capacity(s: &UdpSocket) -> (r: usize)
    ensures
        r == socket_view(*s).rx_packets,
{
    socket_packet_recv_capacity(s)
}

/// How many datagrams the transmit buffer can describe.
pub fn packet_send_capacity(s: &UdpSocket) -> (r: usize)
    ensures
        r == socket_view(*s).tx_packets,
{
    socket_packet_send_capacity(s)
}

/// How many payload octets the receive buffer can store.
pub fn payload_recv_capacity(s: &UdpSocket) -> (r: usize)
    ensures
        r == socket_view(*s).rx_payload,
{
    socket_payload_recv_capacity(s)
}

/// How many payload octets the transmit buffer can store.
pub fn payload_send_capacity(s: &UdpSocket) -> (r: usize)
    ensures
        r == socket_view(*s).tx_payload,
{
    socket_payload_send_capacity(s)
}

/// Turns the engine's answer to a receive into plain values.
fn received_from_engine(result: Result<(usize, IpEndpoint), smoltcp::Error>) -> (r: Result<
    (usize, Endpoint),
    UdpError,
>)
    ensures
        match result {
            Ok((n, e)) => r == Ok::<(usize, Endpoint), UdpError>((n, endpoint_of(e))),
            Err(e) => r == Err::<(usize, Endpoint), UdpError>(error_of(e)),
        },
{
    match result {
        Ok((n, e)) => Ok((n, endpoint_from_engine(e))),
        Err(e) => Err(error_from_engine(e)),
    }
}

/// One attempt to receive a datagram into `buf`.
///
/// With a datagram queued, the oldest one leaves the queue, as much of its
/// payload as fits is copied to the front of `buf`, and the attempt is ready
/// with the number of octets copied and the sender's endpoint. With none,
/// the attempt is suspended: `buf` has not changed, the receive buffer
/// holds no record, and `waker` is registered to be woken when a datagram
/// arrives. The waker is registered in the same call that found the queue
/// empty, so no arrival can fall between the two.
pub fn recv_slice(s: &mut UdpSocket, buf: &mut [u8], waker: &Waker) -> (r: Attempt<
    (usize, Endpoint),
>)
    ensures
        r == recv_attempt(socket_view(*old(s)), old(buf)@).outcome,
        socket_view(*final(s)) == recv_attempt(socket_view(*old(s)), old(buf)@).socket,
        final(buf)@ == recv_attempt(socket_view(*old(s)), old(buf)@).buf,
        r is Suspended ==> wakes_receiver(*final(s), *waker) && !socket_view(*final(s)).can_recv(),
{
    let outcome = if socket_can_recv(s) {
        recv_outcome(received_from_engine(socket_recv_slice(s, buf)))
    } else {
        Attempt::Suspended
    };
    match outcome {
        Attempt::Ready(_) => {},
        Attempt::Suspended => {
            socket_register_recv_waker(s, waker);
        },
    }
    outcome
}

/// One attempt to queue the datagram `buf` for `endpoint`.
///
/// If the engine takes it, the datagram joins the transmit queue and the
/// attempt is ready with success. If the transmit buffer has no room for it
/// now, the attempt is suspended: the queue has not changed, and `waker` is
/// registered to be woken when room is made. Any other refusal is final:
/// the attempt is ready with that error and the socket has not changed.
pub fn send_slice(s: &mut UdpSocket, buf: &[u8], endpoint: Endpoint, waker: &Waker) -> (r:
    Attempt<Result<(), UdpError>>)
    ensures
        r == send_attempt(socket_view(*old(s)), Datagram { payload: buf@, endpoint }),
        socket_view(*old(s)).sends_to(Datagram { payload: buf@, endpoint }, socket_view(*final(s))),
        r is Suspended ==> wakes_sender(*final(s), *waker) && !socket_view(
            *final(s),
        ).tx_room.contains(buf@.len()),
{
    let result = match socket_send_slice(s, buf, endpoint_to_engine(endpoint)) {
        Ok(()) => Ok(()),
        Err(e) => Err(error_from_engine(e)),
    };
    let outcome = send_outcome(result);
    match outcome {
        Attempt::Ready(_) => {},
        Attempt::Suspended => {
            socket_register_send_waker(s, waker);
        },
    }
    outcome
}

} // verus!
