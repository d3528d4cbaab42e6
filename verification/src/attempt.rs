//! One try of an operation, and what it decides from the engine's answer.

use vstd::prelude::*;
use crate::endpoint::Endpoint;
use crate::error::UdpError;
use crate::view::Datagram;
use crate::view::SocketView;
use crate::view::copied_len;
use crate::view::delivered;

verus! {

/// How one attempt ended.
#[derive(Debug, PartialEq, Eq)]
pub enum Attempt<T> {
    /// The operation is complete, with this result.
    Ready(T),
    /// The socket was not ready. The caller's waker is registered; the
    /// caller should give up control and attempt again once woken.
    Suspended,
}

/// What a receive attempt makes of the engine's answer: a datagram completes
/// it, and any error suspends it.
pub open spec fn recv_decision(result: Result<(usize, Endpoint), UdpError>) -> Attempt<
    (usize, Endpoint),
> {
    match result {
        Ok(received) => Attempt::Ready(received),
        Err(_) => Attempt::Suspended,
    }
}

/// What a send attempt makes of the engine's answer: a full transmit buffer
/// suspends it, and anything else completes it, an error included.
pub open spec fn send_decision(result: Result<(), UdpError>) -> Attempt<Result<(), UdpError>> {
    match result {
        Err(UdpError::Exhausted) => Attempt::Suspended,
        _ => Attempt::Ready(result),
    }
}

/// Decides a receive attempt from the engine's answer.
pub fn recv_outcome(result: Result<(usize, Endpoint), UdpError>) -> (r: Attempt<(usize, Endpoint)>)
    ensures
        r == recv_decision(result),
{
    match result {
        Ok(received) => Attempt::Ready(received),
        Err(_) => Attempt::Suspended,
    }
}

/// Decides a send attempt from the engine's answer.
pub fn send_outcome(result: Result<(), UdpError>) -> (r: Attempt<Result<(), UdpError>>)
    ensures
        r == send_decision(result),
{
    match result {
        Err(UdpError::Exhausted) => Attempt::Suspended,
        _ => Attempt::Ready(result),
    }
}

/// A receive attempt in full: how it ends, and what it leaves of the socket
/// and of the caller's buffer.
pub struct Received {
    pub outcome: Attempt<(usize, Endpoint)>,
    pub socket: SocketView,
    pub buf: Seq<u8>,
}

/// A receive attempt on a socket holding `socket`, into a buffer holding
/// `buf`. With a datagram queued it hands out the oldest one, cut to the
/// buffer's length. With none it suspends: the caller's buffer is as it was,
/// and so is the socket, but for padding that the engine drops from an
/// otherwise empty receive buffer.
pub open spec fn recv_attempt(socket: SocketView, buf: Seq<u8>) -> Received {
    if socket.rx.len() == 0 {
        Received { outcome: Attempt::Suspended, socket: socket.drained(), buf }
    } else {
        Received {
            outcome: Attempt::Ready(
                (copied_len(buf.len(), socket.rx[0].payload) as usize, socket.rx[0].endpoint),
            ),
            socket: socket.received(),
            buf: delivered(buf, socket.rx[0].payload),
        }
    }
}

/// How an attempt to send `datagram` from a socket holding `socket` ends.
pub open spec fn send_attempt(socket: SocketView, datagram: Datagram) -> Attempt<
    Result<(), UdpError>,
> {
    send_decision(socket.send_verdict(datagram.payload.len(), datagram.endpoint))
}

} // verus!
