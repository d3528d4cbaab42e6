//! Addresses and endpoints as plain values.

use vstd::prelude::*;

verus! {

/// An internet address: none, four octets, or sixteen octets.
#[derive(Clone, Copy, Debug, PartialEq, Eq)]
pub enum Address {
    /// No address; a placeholder where none is assigned.
    Unspecified,
    /// An IPv4 address, most significant octet first.
    Ipv4([u8; 4]),
    /// An IPv6 address, most significant octet first.
    Ipv6([u8; 16]),
}

/// An address together with a port.
#[derive(Clone, Copy, Debug, PartialEq, Eq)]
pub struct Endpoint {
    pub addr: Address,
    pub port: u16,
}

impl Address {
    /// Whether the address names no host: the placeholder, an IPv4 address
    /// in `0.0.0.0/8`, or the all-zero IPv6 address.
    pub open spec fn is_unspecified(self) -> bool {
        match self {
            Address::Unspecified => true,
            Address::Ipv4(octets) => octets[0] == 0,
            Address::Ipv6(octets) => forall|i: int| 0 <= i < 16 ==> octets[i] == 0,
        }
    }
}

impl Endpoint {
    /// The endpoint of a socket that is not bound: no address, port zero.
    pub open spec fn unspecified() -> Endpoint {
        Endpoint { addr: Address::Unspecified, port: 0 }
    }

    /// Whether a datagram can be addressed to this endpoint.
    pub open spec fn is_specified(self) -> bool {
        !self.addr.is_unspecified() && self.port != 0
    }
}

} // verus!
