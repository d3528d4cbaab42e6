//! What holds of the operations taken together.

use vstd::prelude::*;
use crate::attempt::Attempt;
use crate::attempt::recv_attempt;
use crate::attempt::send_attempt;
use crate::error::UdpError;
use crate::view::Datagram;
use crate::view::SocketView;
use crate::view::copied_len;

verus! {

/// Closing is idempotent: a closed socket is not open, whatever it was
/// before, and closing it again changes nothing.
pub proof fn close_is_idempotent(socket: SocketView)
    ensures
        !socket.closed().is_open(),
        socket.closed().closed() == socket.closed(),
{
}

/// A receive attempt suspends exactly when no datagram is queued.
pub proof fn receive_suspends_iff_empty(socket: SocketView, buf: Seq<u8>)
    ensures
        recv_attempt(socket, buf).outcome is Suspended <==> socket.rx.len() == 0,
{
}

/// A send attempt suspends exactly when the datagram could be sent from this
/// socket but the transmit buffer has no room for it now.
pub proof fn send_suspends_iff_no_room(socket: SocketView, datagram: Datagram)
    ensures
        send_attempt(socket, datagram) is Suspended <==> {
            &&& socket.is_open()
            &&& datagram.endpoint.is_specified()
            &&& datagram.payload.len() <= socket.tx_payload
            &&& !socket.tx_room.contains(datagram.payload.len())
        },
        send_attempt(socket, datagram) is Suspended <==> socket.send_verdict(
            datagram.payload.len(),
            datagram.endpoint,
        ) == Err::<(), UdpError>(UdpError::Exhausted),
{
}

/// A completed receive hands out the oldest datagram: the octets copied are
/// the front of its payload, as many as fit, the rest of the caller's buffer
/// is as it was, and the queue has lost that datagram and no other.
pub proof fn receive_copies_oldest(socket: SocketView, buf: Seq<u8>)
    requires
        socket.rx.len() > 0,
        buf.len() <= usize::MAX,
    ensures
        ({
            let n = copied_len(buf.len(), socket.rx[0].payload);
            let done = recv_attempt(socket, buf);
            &&& done.outcome == Attempt::Ready((n as usize, socket.rx[0].endpoint))
            &&& n <= buf.len()
            &&& n <= socket.rx[0].payload.len()
            &&& n == buf.len() || n == socket.rx[0].payload.len()
            &&& done.buf.len() == buf.len()
            &&& done.buf.take(n as int) == socket.rx[0].payload.take(n as int)
            &&& done.buf.skip(n as int) == buf.skip(n as int)
            &&& done.socket.rx == socket.rx.skip(1)
            &&& done.socket.tx == socket.tx
        }),
{
    let n = copied_len(buf.len(), socket.rx[0].payload);
    let done = recv_attempt(socket, buf);
    assert(done.buf.take(n as int) =~= socket.rx[0].payload.take(n as int));
    assert(done.buf.skip(n as int) =~= buf.skip(n as int));
}

/// A suspended receive attempt leaves no trace: the caller's buffer is as
/// it was, and so is the socket, but for padding dropped from its empty
/// receive buffer. Attempting again from there gives what the first attempt
/// gave.
pub proof fn suspended_receive_repeats(socket: SocketView, buf: Seq<u8>)
    requires
        recv_attempt(socket, buf).outcome is Suspended,
    ensures
        recv_attempt(socket, buf).socket == socket.drained(),
        !recv_attempt(socket, buf).socket.can_recv(),
        recv_attempt(socket, buf).buf == buf,
        recv_attempt(recv_attempt(socket, buf).socket, recv_attempt(socket, buf).buf)
            == recv_attempt(socket, buf),
{
}

/// A suspended send attempt leaves no trace that a second attempt could see:
/// whatever the first one left of the socket, sending the same datagram from
/// there ends as the first attempt did, and both queues are as they were.
pub proof fn suspended_send_repeats(socket: SocketView, datagram: Datagram, after: SocketView)
    requires
        send_attempt(socket, datagram) is Suspended,
        socket.sends_to(datagram, after),
    ensures
        after.rx == socket.rx,
        after.tx == socket.tx,
        after.endpoint == socket.endpoint,
        send_attempt(after, datagram) == send_attempt(socket, datagram),
{
}

/// One attempt, as its caller states it.
pub enum Request {
    /// Receive into a buffer holding `buf`.
    Receive { buf: Seq<u8> },
    /// Send `datagram`.
    Send { datagram: Datagram },
}

/// Whether `after` is what one attempt of `request` may leave of a socket
/// holding `before`.
pub open spec fn attempt_leaves(before: SocketView, request: Request, after: SocketView) -> bool {
    match request {
        Request::Receive { buf } => after == recv_attempt(before, buf).socket,
        Request::Send { datagram } => before.sends_to(datagram, after),
    }
}

/// Whether `after` is the table `before` of sockets by handle, with one
/// attempt made on the socket of `handle` and no other socket touched.
pub open spec fn table_step(
    before: Map<int, SocketView>,
    handle: int,
    request: Request,
    after: Map<int, SocketView>,
) -> bool {
    &&& before.dom().contains(handle)
    &&& after == before.insert(handle, after[handle])
    &&& attempt_leaves(before[handle], request, after[handle])
}

/// Attempts on different sockets do not see each other. If one is made
/// after the other, the second found its socket as it was before the first,
/// and making them in the other order leads to the same table: every
/// interleaving of attempts on different sockets is one of their serial
/// orders.
pub proof fn attempts_on_distinct_sockets_commute(
    start: Map<int, SocketView>,
    first: int,
    first_request: Request,
    between: Map<int, SocketView>,
    second: int,
    second_request: Request,
    end: Map<int, SocketView>,
)
    requires
        first != second,
        table_step(start, first, first_request, between),
        table_step(between, second, second_request, end),
    ensures
        between[second] == start[second],
        end[first] == between[first],
        table_step(start, second, second_request, start.insert(second, end[second])),
        table_step(start.insert(second, end[second]), first, first_request, end),
{
    let other = start.insert(second, end[second]);
    assert(other.insert(first, end[first]) =~= end);
}

} // verus!
