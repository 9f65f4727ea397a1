//! The protocol dissector: link layer, then network layer, then transport
//! layer, each a pure function of the captured bytes.
//!
//! A header that is truncated or inconsistent makes the stage report
//! `Malformed`; link types and protocols that are not decoded are
//! `Skipped`. No stage reads outside the bytes it is given.

use vstd::prelude::*;
use vstd::slice::slice_subrange;
use crate::addr::{IpAddress, Transport};
use crate::flow::FlowRecord;
use crate::span::Span;
use crate::wire::{be16, be32, be128, read_be16, read_be32, read_be128};

verus! {

pub const ETHERNET_HEADER_LEN: usize = 14;

pub const ETHERTYPE_IPV4: u16 = 0x0800;

pub const ETHERTYPE_ARP: u16 = 0x0806;

pub const ETHERTYPE_IPV6: u16 = 0x86DD;

pub const IPV4_MIN_HEADER_LEN: usize = 20;

pub const IPV6_HEADER_LEN: usize = 40;

pub const UDP_HEADER_LEN: usize = 8;

pub const TCP_MIN_HEADER_LEN: usize = 20;

pub const ICMP_HEADER_LEN: usize = 4;

pub const ICMP_ECHO_HEADER_LEN: usize = 8;

pub const PROTOCOL_ICMP: u8 = 1;

pub const PROTOCOL_TCP: u8 = 6;

pub const PROTOCOL_UDP: u8 = 17;

pub const PROTOCOL_ICMPV6: u8 = 58;

pub const ICMP_ECHO_REPLY: u8 = 0;

pub const ICMP_ECHO_REQUEST: u8 = 8;

pub const ICMP_TIME_EXCEEDED: u8 = 11;

/// UDP traffic from this source port is offered to the name-resolution
/// parser.
pub const NAME_RESOLUTION_PORT: u16 = 53;

/// The header at which dissection gave up.
#[derive(Clone, Copy, Debug, PartialEq, Eq, Hash, Structural)]
pub enum Layer {
    Ethernet,
    Ipv4,
    Ipv6,
    Udp,
    Tcp,
    Icmp,
    Icmpv6,
}

/// The network-layer protocols that are decoded.
#[derive(Clone, Copy, Debug, PartialEq, Eq, Hash, Structural)]
pub enum NetworkKind {
    Ipv4,
    Ipv6,
}

/// What the link layer of a frame holds.
#[derive(Clone, Copy, Debug, PartialEq, Eq, Hash, Structural)]
pub enum LinkOutcome {
    /// A network-layer packet of a decoded kind, at `payload` in the frame.
    Network { kind: NetworkKind, payload: Span },
    /// A link type that is not decoded, such as address resolution.
    Skipped,
    /// The frame is too short to hold an Ethernet header.
    Malformed,
}

/// The fields of a network-layer header that dissection goes on with.
#[derive(Clone, Copy, Debug, PartialEq, Eq, Hash, Structural)]
pub struct NetworkPacket {
    pub source: IpAddress,
    pub destination: IpAddress,
    /// The IPv4 protocol field, or the IPv6 next-header field.
    pub protocol: u8,
    /// Where the transport segment lies in the packet.
    pub payload: Span,
}

/// The collaborator to which a flow's payload is offered.
#[derive(Clone, Copy, Debug, PartialEq, Eq, Hash, Structural)]
pub enum Handoff {
    /// No collaborator takes the payload.
    Nobody,
    /// UDP from the name-resolution port: the name-resolution parser.
    NameResolution,
    /// TCP: the stream payload sniffer.
    StreamSniffer,
}

/// What an ICMP message says, as far as the traceroute correlator and the
/// diagnostics need it.
#[derive(Clone, Copy, Debug, PartialEq, Eq, Hash, Structural)]
pub enum IcmpMessage {
    EchoReply { identifier: u16, sequence: u16 },
    EchoRequest { identifier: u16, sequence: u16 },
    /// `payload` is what follows the eight-byte header.
    TimeExceeded { payload: Span },
    Other { icmp_type: u8 },
}

/// The result of dissecting one frame, or one stage of it. Every span is
/// relative to the buffer that was dissected.
#[derive(Clone, Copy, Debug, PartialEq, Eq, Hash, Structural)]
pub enum Dissection {
    /// A TCP or UDP packet: its record, the transport payload, and the
    /// collaborator the payload is offered to.
    Flow { record: FlowRecord, payload: Span, handoff: Handoff },
    Icmp { source: IpAddress, destination: IpAddress, message: IcmpMessage },
    Icmpv6 { source: IpAddress, destination: IpAddress, icmpv6_type: u8 },
    /// Expected noise: a link type or protocol that is not decoded.
    Skipped,
    /// A header of the named layer is truncated or inconsistent.
    Malformed(Layer),
}

impl NetworkKind {
    /// The layer that is reported when a packet of this kind is malformed.
    pub open spec fn spec_layer(self) -> Layer {
        match self {
            NetworkKind::Ipv4 => Layer::Ipv4,
            NetworkKind::Ipv6 => Layer::Ipv6,
        }
    }

    /// The layer that is reported when a packet of this kind is malformed.
    pub fn layer(&self) -> (layer: Layer)
        ensures
            layer == self.spec_layer(),
    {
        match self {
            NetworkKind::Ipv4 => Layer::Ipv4,
            NetworkKind::Ipv6 => Layer::Ipv6,
        }
    }
}

impl Layer {
    /// The diagnostic that is logged, after the interface name, when a
    /// header of this layer is malformed.
    pub open spec fn spec_diagnostic(self) -> Seq<char> {
        match self {
            Layer::Ethernet => "Malformed Ethernet Frame"@,
            Layer::Ipv4 => "Malformed IPv4 Packet"@,
            Layer::Ipv6 => "Malformed IPv6 Packet"@,
            Layer::Udp => "Malformed UDP Packet"@,
            Layer::Tcp => "Malformed TCP Packet"@,
            Layer::Icmp => "Malformed ICMP Packet"@,
            Layer::Icmpv6 => "Malformed ICMPv6 Packet"@,
        }
    }

    /// The diagnostic that is logged, after the interface name, when a
    /// header of this layer is malformed.
    pub fn diagnostic(&self) -> (text: &'static str)
        ensures
            text@ == self.spec_diagnostic(),
    {
        match self {
            Layer::Ethernet => "Malformed Ethernet Frame",
            Layer::Ipv4 => "Malformed IPv4 Packet",
            Layer::Ipv6 => "Malformed IPv6 Packet",
            Layer::Udp => "Malformed UDP Packet",
            Layer::Tcp => "Malformed TCP Packet",
            Layer::Icmp => "Malformed ICMP Packet",
            Layer::Icmpv6 => "Malformed ICMPv6 Packet",
        }
    }
}

impl IcmpMessage {
    /// The same message seen from a buffer that begins `by` bytes earlier.
    pub open spec fn shifted(self, by: usize) -> IcmpMessage {
        match self {
            IcmpMessage::TimeExceeded { payload } => IcmpMessage::TimeExceeded {
                payload: payload.shifted(by),
            },
            _ => self,
        }
    }

    /// Whether every span of the message lies inside a buffer of `len`
    /// bytes.
    pub open spec fn within(self, len: nat) -> bool {
        match self {
            IcmpMessage::TimeExceeded { payload } => payload.within(len),
            _ => true,
        }
    }
}

impl Dissection {
    /// The same result seen from a buffer that begins `by` bytes earlier.
    pub open spec fn shifted(self, by: usize) -> Dissection {
        match self {
            Dissection::Flow { record, payload, handoff } => Dissection::Flow {
                record,
                payload: payload.shifted(by),
                handoff,
            },
            Dissection::Icmp { source, destination, message } => Dissection::Icmp {
                source,
                destination,
                message: message.shifted(by),
            },
            _ => self,
        }
    }

    /// Whether every span of the result lies inside a buffer of `len`
    /// bytes.
    pub open spec fn within(self, len: nat) -> bool {
        match self {
            Dissection::Flow { payload, .. } => payload.within(len),
            Dissection::Icmp { message, .. } => message.within(len),
            _ => true,
        }
    }

    /// The flow record, where the frame held a TCP or UDP packet.
    pub open spec fn spec_flow(self) -> Option<FlowRecord> {
        match self {
            Dissection::Flow { record, .. } => Some(record),
            _ => None,
        }
    }

    /// The diagnostic to log, which only a malformed header has.
    pub open spec fn spec_diagnostic(self) -> Option<Seq<char>> {
        match self {
            Dissection::Malformed(layer) => Some(layer.spec_diagnostic()),
            _ => None,
        }
    }

    /// The flow record, where the frame held a TCP or UDP packet.
    pub fn flow(&self) -> (record: Option<FlowRecord>)
        ensures
            record == self.spec_flow(),
    {
        match self {
            Dissection::Flow { record, .. } => Some(*record),
            _ => None,
        }
    }

    /// The diagnostic to log: some text for a malformed header, nothing
    /// for a record and nothing for what was skipped.
    pub fn diagnostic(&self) -> (text: Option<&'static str>)
        ensures
            text.is_some() == self.spec_diagnostic().is_some(),
            text.is_some() ==> text.unwrap()@ == self.spec_diagnostic().unwrap(),
    {
        match self {
            Dissection::Malformed(layer) => Some(layer.diagnostic()),
            _ => None,
        }
    }

    fn shift(self, by: usize, Ghost(len): Ghost<nat>) -> (out: Dissection)
        requires
            self.within(len),
            len + by <= usize::MAX,
        ensures
            out == self.shifted(by),
    {
        match self {
            Dissection::Flow { record, payload, handoff } => Dissection::Flow {
                record,
                payload: Span { start: payload.start + by, end: payload.end + by },
                handoff,
            },
            Dissection::Icmp {
                source,
                destination,
                message: IcmpMessage::TimeExceeded { payload },
            } => Dissection::Icmp {
                source,
                destination,
                message: IcmpMessage::TimeExceeded {
                    payload: Span { start: payload.start + by, end: payload.end + by },
                },
            },
            other => other,
        }
    }
}

// ---------------------------------------------------------------------
// Link layer
// ---------------------------------------------------------------------

/// The ethertype field of an Ethernet header.
pub open spec fn ethertype(frame: Seq<u8>) -> u16 {
    be16(frame, 12)
}

/// What the link layer of `frame` holds.
pub open spec fn spec_decode_link(frame: Seq<u8>) -> LinkOutcome {
    if frame.len() < ETHERNET_HEADER_LEN {
        LinkOutcome::Malformed
    } else if ethertype(frame) == ETHERTYPE_IPV4 {
        LinkOutcome::Network {
            kind: NetworkKind::Ipv4,
            payload: Span { start: ETHERNET_HEADER_LEN, end: frame.len() as usize },
        }
    } else if ethertype(frame) == ETHERTYPE_IPV6 {
        LinkOutcome::Network {
            kind: NetworkKind::Ipv6,
            payload: Span { start: ETHERNET_HEADER_LEN, end: frame.len() as usize },
        }
    } else {
        LinkOutcome::Skipped
    }
}

/// Decodes the Ethernet header of a captured frame and dispatches on its
/// ethertype.
pub fn decode_link(frame: &[u8]) -> (out: LinkOutcome)
    ensures
        out == spec_decode_link(frame@),
        out matches LinkOutcome::Network { payload, .. } ==> payload.within(frame@.len()),
{
    if frame.len() < ETHERNET_HEADER_LEN {
        return LinkOutcome::Malformed;
    }
    let ethertype: u16 = read_be16(frame, 12);
    let payload = Span { start: ETHERNET_HEADER_LEN, end: frame.len() };
    if ethertype == ETHERTYPE_IPV4 {
        LinkOutcome::Network { kind: NetworkKind::Ipv4, payload }
    } else if ethertype == ETHERTYPE_IPV6 {
        LinkOutcome::Network { kind: NetworkKind::Ipv6, payload }
    } else {
        LinkOutcome::Skipped
    }
}

// ---------------------------------------------------------------------
// Network layer
// ---------------------------------------------------------------------

/// The header length that an IPv4 header declares, in bytes.
pub open spec fn ipv4_declared_header_len(packet: Seq<u8>) -> int {
    (packet[0] as int % 16) * 4
}

/// The total length that an IPv4 header declares, in bytes.
pub open spec fn ipv4_total_length(packet: Seq<u8>) -> int {
    be16(packet, 2) as int
}

/// Where the payload of an IPv4 packet lies: after the header and its
/// options, for as many bytes as the total length leaves, and never past
/// the end of the packet.
pub open spec fn ipv4_payload(packet: Seq<u8>) -> Span {
    let declared = ipv4_declared_header_len(packet);
    let total = ipv4_total_length(packet);
    let start = if declared > IPV4_MIN_HEADER_LEN { declared } else { IPV4_MIN_HEADER_LEN as int };
    let carried = if total > declared { total - declared } else { 0 };
    if packet.len() <= start {
        Span { start: packet.len() as usize, end: packet.len() as usize }
    } else if start + carried < packet.len() {
        Span { start: start as usize, end: (start + carried) as usize }
    } else {
        Span { start: start as usize, end: packet.len() as usize }
    }
}

/// The fields of an IPv4 packet, or `None` where it is shorter than the
/// smallest IPv4 header.
pub open spec fn spec_decode_ipv4(packet: Seq<u8>) -> Option<NetworkPacket> {
    if packet.len() < IPV4_MIN_HEADER_LEN {
        None
    } else {
        Some(
            NetworkPacket {
                source: IpAddress::V4(be32(packet, 12)),
                destination: IpAddress::V4(be32(packet, 16)),
                protocol: packet[9],
                payload: ipv4_payload(packet),
            },
        )
    }
}

/// The payload length that an IPv6 header declares, in bytes.
pub open spec fn ipv6_payload_length(packet: Seq<u8>) -> int {
    be16(packet, 4) as int
}

/// Where the payload of an IPv6 packet lies: after the fixed header, for
/// as many bytes as the header declares, and never past the end of the
/// packet.
pub open spec fn ipv6_payload(packet: Seq<u8>) -> Span {
    let carried = ipv6_payload_length(packet);
    if packet.len() <= IPV6_HEADER_LEN {
        Span { start: packet.len() as usize, end: packet.len() as usize }
    } else if IPV6_HEADER_LEN + carried < packet.len() {
        Span { start: IPV6_HEADER_LEN, end: (IPV6_HEADER_LEN + carried) as usize }
    } else {
        Span { start: IPV6_HEADER_LEN, end: packet.len() as usize }
    }
}

/// The fields of an IPv6 packet, or `None` where it is shorter than the
/// IPv6 header.
pub open spec fn spec_decode_ipv6(packet: Seq<u8>) -> Option<NetworkPacket> {
    if packet.len() < IPV6_HEADER_LEN {
        None
    } else {
        Some(
            NetworkPacket {
                source: IpAddress::V6(be128(packet, 8)),
                destination: IpAddress::V6(be128(packet, 24)),
                protocol: packet[6],
                payload: ipv6_payload(packet),
            },
        )
    }
}

/// The fields of a network-layer packet of the given kind, or `None`
/// where its header is truncated.
pub open spec fn spec_decode_network(kind: NetworkKind, packet: Seq<u8>) -> Option<NetworkPacket> {
    match kind {
        NetworkKind::Ipv4 => spec_decode_ipv4(packet),
        NetworkKind::Ipv6 => spec_decode_ipv6(packet),
    }
}

fn decode_ipv4(packet: &[u8]) -> (out: Option<NetworkPacket>)
    ensures
        out == spec_decode_ipv4(packet@),
        out matches Some(p) ==> p.payload.within(packet@.len()),
{
    let len: usize = packet.len();
    if len < IPV4_MIN_HEADER_LEN {
        return None;
    }
    let declared: usize = (packet[0] % 16) as usize * 4;
    let total: usize = read_be16(packet, 2) as usize;
    let start: usize = if declared > IPV4_MIN_HEADER_LEN {
        declared
    } else {
        IPV4_MIN_HEADER_LEN
    };
    let carried: usize = if total > declared {
        total - declared
    } else {
        0
    };
    let payload = if len <= start {
        Span { start: len, end: len }
    } else if carried < len - start {
        Span { start, end: start + carried }
    } else {
        Span { start, end: len }
    };
    Some(
        NetworkPacket {
            source: IpAddress::V4(read_be32(packet, 12)),
            destination: IpAddress::V4(read_be32(packet, 16)),
            protocol: packet[9],
            payload,
        },
    )
}

fn decode_ipv6(packet: &[u8]) -> (out: Option<NetworkPacket>)
    ensures
        out == spec_decode_ipv6(packet@),
        out matches Some(p) ==> p.payload.within(packet@.len()),
{
    let len: usize = packet.len();
    if len < IPV6_HEADER_LEN {
        return None;
    }
    let carried: usize = read_be16(packet, 4) as usize;
    let payload = if len <= IPV6_HEADER_LEN {
        Span { start: len, end: len }
    } else if carried < len - IPV6_HEADER_LEN {
        Span { start: IPV6_HEADER_LEN, end: IPV6_HEADER_LEN + carried }
    } else {
        Span { start: IPV6_HEADER_LEN, end: len }
    };
    Some(
        NetworkPacket {
            source: IpAddress::V6(read_be128(packet, 8)),
            destination: IpAddress::V6(read_be128(packet, 24)),
            protocol: packet[6],
            payload,
        },
    )
}

/// Decodes the header of a network-layer packet: its addresses, the
/// protocol it carries and where the transport segment lies. `None` means
/// that the header is truncated.
pub fn decode_network(kind: NetworkKind, packet: &[u8]) -> (out: Option<NetworkPacket>)
    ensures
        out == spec_decode_network(kind, packet@),
        out matches Some(p) ==> p.payload.within(packet@.len()),
{
    match kind {
        NetworkKind::Ipv4 => decode_ipv4(packet),
        NetworkKind::Ipv6 => decode_ipv6(packet),
    }
}

// ---------------------------------------------------------------------
// Transport layer
// ---------------------------------------------------------------------

/// The length field of a UDP header.
pub open spec fn udp_declared_length(segment: Seq<u8>) -> u16 {
    be16(segment, 4)
}

/// What a UDP datagram dissects to.
pub open spec fn spec_decode_udp(
    source: IpAddress,
    destination: IpAddress,
    segment: Seq<u8>,
) -> Dissection {
    if segment.len() < UDP_HEADER_LEN {
        Dissection::Malformed(Layer::Udp)
    } else {
        Dissection::Flow {
            record: FlowRecord {
                transport: Transport::Udp,
                source,
                destination,
                source_port: be16(segment, 0),
                destination_port: be16(segment, 2),
                length: udp_declared_length(segment),
            },
            payload: Span { start: UDP_HEADER_LEN, end: segment.len() as usize },
            handoff: if be16(segment, 0) == NAME_RESOLUTION_PORT {
                Handoff::NameResolution
            } else {
                Handoff::Nobody
            },
        }
    }
}

/// The header length that a TCP header declares in its data-offset
/// field, in bytes.
pub open spec fn tcp_declared_header_len(segment: Seq<u8>) -> int {
    (segment[12] as int / 16) * 4
}

/// The length of a TCP header: what it declares, and at least the fixed
/// part.
pub open spec fn tcp_header_len(segment: Seq<u8>) -> int {
    if tcp_declared_header_len(segment) > TCP_MIN_HEADER_LEN {
        tcp_declared_header_len(segment)
    } else {
        TCP_MIN_HEADER_LEN as int
    }
}

/// What a TCP segment dissects to. A segment that is shorter than the
/// fixed header, or than the header length it declares, is malformed.
pub open spec fn spec_decode_tcp(
    source: IpAddress,
    destination: IpAddress,
    segment: Seq<u8>,
) -> Dissection {
    if segment.len() < TCP_MIN_HEADER_LEN || tcp_declared_header_len(segment) > segment.len() {
        Dissection::Malformed(Layer::Tcp)
    } else {
        Dissection::Flow {
            record: FlowRecord {
                transport: Transport::Tcp,
                source,
                destination,
                source_port: be16(segment, 0),
                destination_port: be16(segment, 2),
                length: tcp_header_len(segment) as u16,
            },
            payload: Span { start: tcp_header_len(segment) as usize, end: segment.len() as usize },
            handoff: Handoff::StreamSniffer,
        }
    }
}

/// Whether an ICMP message of this type is read with the eight-byte
/// header of echo and time-exceeded messages.
pub open spec fn icmp_has_long_header(icmp_type: u8) -> bool {
    icmp_type == ICMP_ECHO_REPLY || icmp_type == ICMP_ECHO_REQUEST || icmp_type
        == ICMP_TIME_EXCEEDED
}

/// What an ICMP message dissects to.
pub open spec fn spec_decode_icmp(
    source: IpAddress,
    destination: IpAddress,
    segment: Seq<u8>,
) -> Dissection {
    if segment.len() < ICMP_HEADER_LEN {
        Dissection::Malformed(Layer::Icmp)
    } else if icmp_has_long_header(segment[0]) && segment.len() < ICMP_ECHO_HEADER_LEN {
        Dissection::Malformed(Layer::Icmp)
    } else {
        Dissection::Icmp {
            source,
            destination,
            message: if segment[0] == ICMP_ECHO_REPLY {
                IcmpMessage::EchoReply { identifier: be16(segment, 4), sequence: be16(segment, 6) }
            } else if segment[0] == ICMP_ECHO_REQUEST {
                IcmpMessage::EchoRequest {
                    identifier: be16(segment, 4),
                    sequence: be16(segment, 6),
                }
            } else if segment[0] == ICMP_TIME_EXCEEDED {
                IcmpMessage::TimeExceeded {
                    payload: Span::spec_between(ICMP_ECHO_HEADER_LEN, segment.len()),
                }
            } else {
                IcmpMessage::Other { icmp_type: segment[0] }
            },
        }
    }
}

/// What an ICMPv6 message dissects to.
pub open spec fn spec_decode_icmpv6(
    source: IpAddress,
    destination: IpAddress,
    segment: Seq<u8>,
) -> Dissection {
    if segment.len() < ICMP_HEADER_LEN {
        Dissection::Malformed(Layer::Icmpv6)
    } else {
        Dissection::Icmpv6 { source, destination, icmpv6_type: segment[0] }
    }
}

/// What the transport segment of a packet dissects to, by the protocol
/// that the network layer names. Other protocols are skipped.
pub open spec fn spec_decode_transport(
    protocol: u8,
    source: IpAddress,
    destination: IpAddress,
    segment: Seq<u8>,
) -> Dissection {
    if protocol == PROTOCOL_UDP {
        spec_decode_udp(source, destination, segment)
    } else if protocol == PROTOCOL_TCP {
        spec_decode_tcp(source, destination, segment)
    } else if protocol == PROTOCOL_ICMP {
        spec_decode_icmp(source, destination, segment)
    } else if protocol == PROTOCOL_ICMPV6 {
        spec_decode_icmpv6(source, destination, segment)
    } else {
        Dissection::Skipped
    }
}

fn decode_udp(source: IpAddress, destination: IpAddress, segment: &[u8]) -> (out: Dissection)
    ensures
        out == spec_decode_udp(source, destination, segment@),
        out.within(segment@.len()),
{
    if segment.len() < UDP_HEADER_LEN {
        return Dissection::Malformed(Layer::Udp);
    }
    let source_port: u16 = read_be16(segment, 0);
    let handoff = if source_port == NAME_RESOLUTION_PORT {
        Handoff::NameResolution
    } else {
        Handoff::Nobody
    };
    Dissection::Flow {
        record: FlowRecord {
            transport: Transport::Udp,
            source,
            destination,
            source_port,
            destination_port: read_be16(segment, 2),
            length: read_be16(segment, 4),
        },
        payload: Span { start: UDP_HEADER_LEN, end: segment.len() },
        handoff,
    }
}

fn decode_tcp(source: IpAddress, destination: IpAddress, segment: &[u8]) -> (out: Dissection)
    ensures
        out == spec_decode_tcp(source, destination, segment@),
        out.within(segment@.len()),
{
    if segment.len() < TCP_MIN_HEADER_LEN {
        return Dissection::Malformed(Layer::Tcp);
    }
    let declared: usize = (segment[12] / 16) as usize * 4;
    if declared > segment.len() {
        return Dissection::Malformed(Layer::Tcp);
    }
    let header_len: usize = if declared > TCP_MIN_HEADER_LEN {
        declared
    } else {
        TCP_MIN_HEADER_LEN
    };
    Dissection::Flow {
        record: FlowRecord {
            transport: Transport::Tcp,
            source,
            destination,
            source_port: read_be16(segment, 0),
            destination_port: read_be16(segment, 2),
            length: header_len as u16,
        },
        payload: Span { start: header_len, end: segment.len() },
        handoff: Handoff::StreamSniffer,
    }
}

fn decode_icmp(source: IpAddress, destination: IpAddress, segment: &[u8]) -> (out: Dissection)
    ensures
        out == spec_decode_icmp(source, destination, segment@),
        out.within(segment@.len()),
{
    if segment.len() < ICMP_HEADER_LEN {
        return Dissection::Malformed(Layer::Icmp);
    }
    let icmp_type: u8 = segment[0];
    let long_header = icmp_type == ICMP_ECHO_REPLY || icmp_type == ICMP_ECHO_REQUEST || icmp_type
        == ICMP_TIME_EXCEEDED;
    if long_header && segment.len() < ICMP_ECHO_HEADER_LEN {
        return Dissection::Malformed(Layer::Icmp);
    }
    let message = if icmp_type == ICMP_ECHO_REPLY {
        IcmpMessage::EchoReply {
            identifier: read_be16(segment, 4),
            sequence: read_be16(segment, 6),
        }
    } else if icmp_type == ICMP_ECHO_REQUEST {
        IcmpMessage::EchoRequest {
            identifier: read_be16(segment, 4),
            sequence: read_be16(segment, 6),
        }
    } else if icmp_type == ICMP_TIME_EXCEEDED {
        IcmpMessage::TimeExceeded {
            payload: Span { start: ICMP_ECHO_HEADER_LEN, end: segment.len() },
        }
    } else {
        IcmpMessage::Other { icmp_type }
    };
    Dissection::Icmp { source, destination, message }
}

fn decode_icmpv6(source: IpAddress, destination: IpAddress, segment: &[u8]) -> (out: Dissection)
    ensures
        out == spec_decode_icmpv6(source, destination, segment@),
{
    if segment.len() < ICMP_HEADER_LEN {
        return Dissection::Malformed(Layer::Icmpv6);
    }
    Dissection::Icmpv6 { source, destination, icmpv6_type: segment[0] }
}

/// Decodes the transport segment that a network-layer packet carries,
/// dispatching on the packet's protocol field. The spans of the result
/// are relative to `segment`.
pub fn decode_transport(
    protocol: u8,
    source: IpAddress,
    destination: IpAddress,
    segment: &[u8],
) -> (out: Dissection)
    ensures
        out == spec_decode_transport(protocol, source, destination, segment@),
        out.within(segment@.len()),
{
    if protocol == PROTOCOL_UDP {
        decode_udp(source, destination, segment)
    } else if protocol == PROTOCOL_TCP {
        decode_tcp(source, destination, segment)
    } else if protocol == PROTOCOL_ICMP {
        decode_icmp(source, destination, segment)
    } else if protocol == PROTOCOL_ICMPV6 {
        decode_icmpv6(source, destination, segment)
    } else {
        Dissection::Skipped
    }
}

// ---------------------------------------------------------------------
// The whole chain
// ---------------------------------------------------------------------

/// What a captured frame dissects to: the link layer, then the network
/// layer inside it, then the transport layer inside that. The spans of
/// the result are relative to `frame`.
pub open spec fn spec_dissect(frame: Seq<u8>) -> Dissection {
    match spec_decode_link(frame) {
        LinkOutcome::Malformed => Dissection::Malformed(Layer::Ethernet),
        LinkOutcome::Skipped => Dissection::Skipped,
        LinkOutcome::Network { kind, payload } => {
            let packet = payload.of(frame);
            match spec_decode_network(kind, packet) {
                None => Dissection::Malformed(kind.spec_layer()),
                Some(header) => spec_decode_transport(
                    header.protocol,
                    header.source,
                    header.destination,
                    header.payload.of(packet),
                ).shifted((payload.start + header.payload.start) as usize),
            }
        },
    }
}

/// Dissects one captured frame. The result is a function of the bytes of
/// `frame` alone, and every span in it lies inside `frame`.
pub fn dissect(frame: &[u8]) -> (out: Dissection)
    ensures
        out == spec_dissect(frame@),
        out.within(frame@.len()),
{
    match decode_link(frame) {
        LinkOutcome::Malformed => Dissection::Malformed(Layer::Ethernet),
        LinkOutcome::Skipped => Dissection::Skipped,
        LinkOutcome::Network { kind, payload } => {
            let packet = slice_subrange(frame, payload.start, payload.end);
            match decode_network(kind, packet) {
                None => Dissection::Malformed(kind.layer()),
                Some(header) => {
                    let segment = slice_subrange(packet, header.payload.start, header.payload.end);
                    let inner = decode_transport(
                        header.protocol,
                        header.source,
                        header.destination,
                        segment,
                    );
                    inner.shift(payload.start + header.payload.start, Ghost(segment@.len()))
                },
            }
        },
    }
}

} // verus!
