//! What holds of the dissector on every frame of a given shape.

use vstd::prelude::*;
use crate::addr::{IpAddress, Transport};
use crate::dissect::{
    ethertype, ipv4_declared_header_len, ipv4_total_length, spec_decode_link,
    spec_decode_network, spec_decode_transport, spec_dissect, tcp_declared_header_len,
    Dissection, Layer, ETHERNET_HEADER_LEN, ETHERTYPE_ARP, ETHERTYPE_IPV4, ETHERTYPE_IPV6,
    IPV4_MIN_HEADER_LEN, PROTOCOL_TCP, PROTOCOL_UDP, UDP_HEADER_LEN,
};
use crate::wire::be16;

verus! {

/// What an Ethernet frame carries after its header.
pub open spec fn ethernet_payload(frame: Seq<u8>) -> Seq<u8> {
    frame.subrange(ETHERNET_HEADER_LEN as int, frame.len() as int)
}

/// An Ethernet frame that carries an IPv4 packet that carries a UDP
/// datagram, where the IPv4 header declares a length of at least the
/// fixed header, the total length leaves room for a UDP header, and the
/// capture holds the IPv4 header, its options and the UDP header.
pub open spec fn is_udp_over_ipv4(frame: Seq<u8>) -> bool {
    let packet = ethernet_payload(frame);
    &&& ETHERNET_HEADER_LEN <= frame.len() <= usize::MAX
    &&& ethertype(frame) == ETHERTYPE_IPV4
    &&& IPV4_MIN_HEADER_LEN <= ipv4_declared_header_len(packet)
    &&& ipv4_declared_header_len(packet) + UDP_HEADER_LEN <= ipv4_total_length(packet)
    &&& ipv4_declared_header_len(packet) + UDP_HEADER_LEN <= packet.len()
    &&& packet[9] == PROTOCOL_UDP
}

/// The length field of the UDP header in a frame that `is_udp_over_ipv4`.
pub open spec fn udp_length_field(frame: Seq<u8>) -> u16 {
    be16(frame, ETHERNET_HEADER_LEN + ipv4_declared_header_len(ethernet_payload(frame)) + 4)
}

/// Every well-formed Ethernet, IPv4, UDP frame dissects to a flow record
/// whose length is the length field of the UDP header and whose
/// transport tag is `"u"`.
pub proof fn lemma_udp_over_ipv4_record(frame: Seq<u8>)
    requires
        is_udp_over_ipv4(frame),
    ensures
        spec_dissect(frame).spec_flow().is_some(),
        spec_dissect(frame).spec_flow().unwrap().transport == Transport::Udp,
        spec_dissect(frame).spec_flow().unwrap().length == udp_length_field(frame),
        spec_dissect(frame).spec_flow().unwrap().transport.spec_tag() == seq!['u'],
        spec_dissect(frame).spec_diagnostic().is_none(),
{
}

/// A TCP segment whose data-offset field declares a header longer than
/// the segment itself yields no record: it is malformed.
pub proof fn lemma_overlong_tcp_header(
    source: IpAddress,
    destination: IpAddress,
    segment: Seq<u8>,
)
    requires
        tcp_declared_header_len(segment) > segment.len(),
    ensures
        spec_decode_transport(PROTOCOL_TCP, source, destination, segment) == Dissection::Malformed(
            Layer::Tcp,
        ),
{
}

/// A frame whose network layer carries a TCP segment that declares a
/// header longer than what was captured of the segment dissects to no
/// record, whatever else the frame holds.
pub proof fn lemma_overlong_tcp_header_in_frame(frame: Seq<u8>)
    requires
        spec_decode_link(frame) is Network,
        spec_decode_network(
            spec_decode_link(frame)->kind,
            spec_decode_link(frame)->payload.of(frame),
        ) matches Some(header) && header.protocol == PROTOCOL_TCP && tcp_declared_header_len(
            header.payload.of(spec_decode_link(frame)->payload.of(frame)),
        ) > header.payload.of(spec_decode_link(frame)->payload.of(frame)).len(),
    ensures
        spec_dissect(frame) == Dissection::Malformed(Layer::Tcp),
        spec_dissect(frame).spec_flow().is_none(),
{
}

/// A frame with a complete Ethernet header whose ethertype is neither
/// IPv4 nor IPv6 is skipped: it yields no record and no diagnostic.
pub proof fn lemma_other_ethertypes_are_skipped(frame: Seq<u8>)
    requires
        frame.len() >= ETHERNET_HEADER_LEN,
        ethertype(frame) != ETHERTYPE_IPV4,
        ethertype(frame) != ETHERTYPE_IPV6,
    ensures
        spec_dissect(frame) == Dissection::Skipped,
        spec_dissect(frame).spec_flow().is_none(),
        spec_dissect(frame).spec_diagnostic().is_none(),
{
}

/// An address-resolution frame yields no record and no diagnostic.
pub proof fn lemma_arp_is_skipped(frame: Seq<u8>)
    requires
        frame.len() >= ETHERNET_HEADER_LEN,
        ethertype(frame) == ETHERTYPE_ARP,
    ensures
        spec_dissect(frame) == Dissection::Skipped,
        spec_dissect(frame).spec_flow().is_none(),
        spec_dissect(frame).spec_diagnostic().is_none(),
{
    lemma_other_ethertypes_are_skipped(frame);
}

} // verus!
