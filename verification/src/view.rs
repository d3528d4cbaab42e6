//! The mathematical content of a socket, and what each operation does to it.

use vstd::prelude::*;
use crate::endpoint::Endpoint;
use crate::error::UdpError;

verus! {

/// One datagram: its payload and the remote endpoint it came from or goes to.
pub struct Datagram {
    pub payload: Seq<u8>,
    pub endpoint: Endpoint,
}

/// What a socket holds, as far as its operations can tell.
pub struct SocketView {
    /// The local endpoint the socket is bound to; port zero when it is not.
    pub endpoint: Endpoint,
    /// The hop limit of outgoing datagrams, if one was set.
    pub hop_limit: Option<u8>,
    /// Datagrams received and not yet handed out, oldest first.
    pub rx: Seq<Datagram>,
    /// Whether the newest record of the receive buffer is padding: space the
    /// engine skipped to keep a datagram in one piece, and then had no record
    /// left for the datagram itself.
    pub rx_padding: bool,
    /// Datagrams accepted for sending and not yet sent, oldest first.
    pub tx: Seq<Datagram>,
    /// The payload lengths that the transmit buffer would take right now.
    /// It depends on how the queued datagrams lie in the buffer, not only on
    /// how many there are.
    pub tx_room: Set<nat>,
    /// How many datagrams the receive buffer can describe.
    pub rx_packets: nat,
    /// How many payload octets the receive buffer can store.
    pub rx_payload: nat,
    /// How many datagrams the transmit buffer can describe.
    pub tx_packets: nat,
    /// How many payload octets the transmit buffer can store.
    pub tx_payload: nat,
}

/// The lengths an empty transmit buffer takes: every length that fits its
/// payload storage, provided it can describe at least one datagram.
pub open spec fn empty_room(packets: nat, payload: nat) -> Set<nat> {
    Set::new(|n: nat| packets > 0 && n <= payload)
}

impl SocketView {
    /// A socket just made over buffers of the given sizes.
    pub open spec fn fresh(rx_packets: nat, rx_payload: nat, tx_packets: nat, tx_payload: nat)
        -> SocketView {
        SocketView {
            endpoint: Endpoint::unspecified(),
            hop_limit: None,
            rx: Seq::empty(),
            rx_padding: false,
            tx: Seq::empty(),
            tx_room: empty_room(tx_packets, tx_payload),
            rx_packets,
            rx_payload,
            tx_packets,
            tx_payload,
        }
    }

    /// A socket is open while it is bound to a port.
    pub open spec fn is_open(self) -> bool {
        self.endpoint.port != 0
    }

    /// The socket after `close`: unbound, with both queues discarded.
    pub open spec fn closed(self) -> SocketView {
        SocketView {
            endpoint: Endpoint::unspecified(),
            rx: Seq::empty(),
            rx_padding: false,
            tx: Seq::empty(),
            tx_room: empty_room(self.tx_packets, self.tx_payload),
            ..self
        }
    }

    /// Whether `bind` to `endpoint` succeeds, and with which error it fails.
    pub open spec fn bind_verdict(self, endpoint: Endpoint) -> Result<(), UdpError> {
        if endpoint.port == 0 {
            Err(UdpError::Unaddressable)
        } else if self.is_open() {
            Err(UdpError::Illegal)
        } else {
            Ok(())
        }
    }

    /// The socket after an attempt to bind it to `endpoint`.
    pub open spec fn bound(self, endpoint: Endpoint) -> SocketView {
        if self.bind_verdict(endpoint) is Ok {
            SocketView { endpoint, ..self }
        } else {
            self
        }
    }

    /// Whether the engine takes a datagram of `len` octets for `remote`, and
    /// with which error it refuses.
    pub open spec fn send_verdict(self, len: nat, remote: Endpoint) -> Result<(), UdpError> {
        if self.endpoint.port == 0 || !remote.is_specified() {
            Err(UdpError::Unaddressable)
        } else if len > self.tx_payload {
            Err(UdpError::Truncated)
        } else if !self.tx_room.contains(len) {
            Err(UdpError::Exhausted)
        } else {
            Ok(())
        }
    }

    /// Whether `after` is what an attempt to send `datagram` may leave of
    /// `self`. An accepted datagram joins the transmit queue at its end. A
    /// refused one changes nothing that a later attempt to send as many
    /// octets could see.
    pub open spec fn sends_to(self, datagram: Datagram, after: SocketView) -> bool {
        match self.send_verdict(datagram.payload.len(), datagram.endpoint) {
            Ok(()) => after == (SocketView {
                tx: self.tx.push(datagram),
                tx_room: after.tx_room,
                ..self
            }),
            Err(UdpError::Exhausted) => {
                &&& after == (SocketView { tx_room: after.tx_room, ..self })
                &&& !after.tx_room.contains(datagram.payload.len())
            },
            Err(_) => after == self,
        }
    }

    /// Whether the receive buffer holds a record: a datagram, or padding
    /// that no datagram follows.
    pub open spec fn can_recv(self) -> bool {
        self.rx.len() > 0 || self.rx_padding
    }

    /// The socket after its oldest received datagram was handed out. Padding
    /// in front of that datagram goes with it; padding behind the newest
    /// datagram stays.
    pub open spec fn received(self) -> SocketView {
        SocketView { rx: self.rx.drop_first(), ..self }
    }

    /// The socket after a receive that found no datagram: padding that was
    /// left in the receive buffer is dropped, and nothing else has changed.
    pub open spec fn drained(self) -> SocketView {
        SocketView { rx_padding: false, ..self }
    }
}

/// How many octets of a payload fit a buffer of `capacity` octets.
pub open spec fn copied_len(capacity: nat, payload: Seq<u8>) -> nat {
    if capacity <= payload.len() {
        capacity
    } else {
        payload.len()
    }
}

/// A caller's buffer after `payload` was copied to its front, cut to the
/// buffer's length.
pub open spec fn delivered(buf: Seq<u8>, payload: Seq<u8>) -> Seq<u8> {
    payload.take(copied_len(buf.len(), payload) as int) + buf.skip(
        copied_len(buf.len(), payload) as int,
    )
}

} // verus!
