//! Addresses, transports and endpoints: the keys by which flows and
//! sockets are matched.

use vstd::prelude::*;
use crate::wire::{be32, be128, read_be32, read_be128};

verus! {

/// An IP address, held as the integer whose big-endian bytes are the
/// address octets in the order they travel on the wire.
#[derive(Clone, Copy, Debug, PartialEq, Eq, Hash, Structural)]
pub enum IpAddress {
    V4(u32),
    V6(u128),
}

/// The address family of a socket or packet.
#[derive(Clone, Copy, Debug, PartialEq, Eq, Hash, Structural)]
pub enum AddressFamily {
    V4,
    V6,
}

/// The transport protocols for which flows are recorded.
#[derive(Clone, Copy, Debug, PartialEq, Eq, Hash, Structural)]
pub enum Transport {
    Tcp,
    Udp,
}

/// One side of a flow or socket. Two endpoints are equal exactly when
/// their address, port and transport are equal.
#[derive(Clone, Copy, Debug, PartialEq, Eq, Hash, Structural)]
pub struct Endpoint {
    pub addr: IpAddress,
    pub port: u16,
    pub transport: Transport,
}

impl IpAddress {
    /// The family this address belongs to.
    pub open spec fn spec_family(self) -> AddressFamily {
        match self {
            IpAddress::V4(_) => AddressFamily::V4,
            IpAddress::V6(_) => AddressFamily::V6,
        }
    }

    /// The family this address belongs to.
    pub fn family(&self) -> (family: AddressFamily)
        ensures
            family == self.spec_family(),
    {
        match self {
            IpAddress::V4(_) => AddressFamily::V4,
            IpAddress::V6(_) => AddressFamily::V6,
        }
    }

    /// The IPv4 address whose four octets are given in wire order.
    pub fn from_v4_octets(octets: [u8; 4]) -> (addr: IpAddress)
        ensures
            addr == IpAddress::V4(be32(octets@, 0)),
    {
        IpAddress::V4(read_be32(octets.as_slice(), 0))
    }

    /// The IPv6 address whose sixteen octets are given in wire order.
    pub fn from_v6_octets(octets: [u8; 16]) -> (addr: IpAddress)
        ensures
            addr == IpAddress::V6(be128(octets@, 0)),
    {
        IpAddress::V6(read_be128(octets.as_slice(), 0))
    }
}

impl Transport {
    /// The one-letter tag that names the transport in an emitted event.
    pub open spec fn spec_tag(self) -> Seq<char> {
        match self {
            Transport::Tcp => seq!['t'],
            Transport::Udp => seq!['u'],
        }
    }

    /// The one-letter tag that names the transport in an emitted event:
    /// `"t"` for TCP, `"u"` for UDP.
    pub fn tag(&self) -> (tag: &'static str)
        ensures
            tag@ == self.spec_tag(),
    {
        proof {
            reveal_strlit("t");
            reveal_strlit("u");
        }
        match self {
            Transport::Tcp => "t",
            Transport::Udp => "u",
        }
    }
}

} // verus!
