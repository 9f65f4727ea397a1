//! The record that summarises one observed packet.

use vstd::prelude::*;
use crate::addr::{Endpoint, IpAddress, Transport};

verus! {

/// A decoded, protocol-typed summary of one observed packet.
#[derive(Clone, Copy, Debug, PartialEq, Eq, Hash, Structural)]
pub struct FlowRecord {
    pub transport: Transport,
    pub source: IpAddress,
    pub destination: IpAddress,
    pub source_port: u16,
    pub destination_port: u16,
    /// For UDP the length field of the UDP header; for TCP the length of
    /// the TCP header.
    pub length: u16,
}

impl FlowRecord {
    /// The endpoint the packet was sent from.
    pub open spec fn spec_source_endpoint(self) -> Endpoint {
        Endpoint { addr: self.source, port: self.source_port, transport: self.transport }
    }

    /// The endpoint the packet was sent to.
    pub open spec fn spec_destination_endpoint(self) -> Endpoint {
        Endpoint { addr: self.destination, port: self.destination_port, transport: self.transport }
    }

    /// The endpoint the packet was sent from.
    pub fn source_endpoint(&self) -> (endpoint: Endpoint)
        ensures
            endpoint == self.spec_source_endpoint(),
    {
        Endpoint { addr: self.source, port: self.source_port, transport: self.transport }
    }

    /// The endpoint the packet was sent to.
    pub fn destination_endpoint(&self) -> (endpoint: Endpoint)
        ensures
            endpoint == self.spec_destination_endpoint(),
    {
        Endpoint { addr: self.destination, port: self.destination_port, transport: self.transport }
    }
}

} // verus!
