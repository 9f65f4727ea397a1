use flow_inspector::addr::IpAddress;
use flow_inspector::dissect::{decode_transport, dissect, Dissection, IcmpMessage, Layer};
use flow_inspector::span::Span;
use pnet::packet::icmp::echo_reply::EchoReplyPacket;
use pnet::packet::icmp::echo_request::EchoRequestPacket;
use pnet::packet::icmp::time_exceeded::TimeExceededPacket;
use pnet::packet::icmp::{IcmpPacket, IcmpTypes};
use pnet::packet::Packet;

const HOST_A: IpAddress = IpAddress::V4(0x0a00_0005);
const HOST_B: IpAddress = IpAddress::V4(0xcb00_7109);

fn in_ipv4_frame(protocol: u8, segment: &[u8]) -> Vec<u8> {
    let total = u16::try_from(20 + segment.len()).unwrap().to_be_bytes();
    let mut frame = vec![0x02, 0, 0, 0, 0, 1, 0x02, 0, 0, 0, 0, 2, 0x08, 0x00];
    frame.extend_from_slice(&[0x45, 0, total[0], total[1], 0, 0, 0, 0, 64, protocol, 0, 0]);
    frame.extend_from_slice(&[10, 0, 0, 5, 203, 0, 113, 9]);
    frame.extend_from_slice(segment);
    frame
}

#[test]
fn echo_reply_gives_identifier_and_sequence() {
    let frame = in_ipv4_frame(1, &[0, 0, 0, 0, 0x12, 0x34, 0x00, 0x07, 9, 9]);
    assert_eq!(
        dissect(&frame),
        Dissection::Icmp {
            source: HOST_A,
            destination: HOST_B,
            message: IcmpMessage::EchoReply { identifier: 0x1234, sequence: 7 }
        }
    );
    assert_eq!(dissect(&frame).flow(), None);
    assert_eq!(dissect(&frame).diagnostic(), None);
}

#[test]
fn echo_request_gives_identifier_and_sequence() {
    let frame = in_ipv4_frame(1, &[8, 0, 0, 0, 0xab, 0xcd, 0x01, 0x00]);
    assert_eq!(
        dissect(&frame),
        Dissection::Icmp {
            source: HOST_A,
            destination: HOST_B,
            message: IcmpMessage::EchoRequest { identifier: 0xabcd, sequence: 256 }
        }
    );
}

#[test]
fn time_exceeded_gives_what_follows_the_header() {
    let frame = in_ipv4_frame(1, &[11, 0, 0, 0, 0, 0, 0, 0, 0x45, 0x00, 0x00]);
    match dissect(&frame) {
        Dissection::Icmp { source, message: IcmpMessage::TimeExceeded { payload }, .. } => {
            assert_eq!(source, HOST_A);
            assert_eq!(payload, Span { start: 42, end: 45 });
            assert_eq!(payload.slice(&frame), &[0x45, 0x00, 0x00]);
        }
        other => panic!("unexpected {:?}", other),
    }
}

#[test]
fn other_control_messages_keep_their_type() {
    let frame = in_ipv4_frame(1, &[3, 1, 0, 0]);
    assert_eq!(
        dissect(&frame),
        Dissection::Icmp {
            source: HOST_A,
            destination: HOST_B,
            message: IcmpMessage::Other { icmp_type: 3 }
        }
    );
}

#[test]
fn truncated_control_messages_are_malformed() {
    assert_eq!(dissect(&in_ipv4_frame(1, &[3, 1, 0])), Dissection::Malformed(Layer::Icmp));
    assert_eq!(dissect(&in_ipv4_frame(1, &[])), Dissection::Malformed(Layer::Icmp));
    assert_eq!(
        dissect(&in_ipv4_frame(1, &[0, 0, 0, 0, 1, 2, 3])),
        Dissection::Malformed(Layer::Icmp)
    );
    assert_eq!(
        dissect(&in_ipv4_frame(1, &[8, 0, 0, 0])),
        Dissection::Malformed(Layer::Icmp)
    );
    assert_eq!(
        dissect(&in_ipv4_frame(1, &[11, 0, 0, 0, 0, 0])),
        Dissection::Malformed(Layer::Icmp)
    );
    assert_eq!(
        dissect(&in_ipv4_frame(1, &[3, 1, 0])).diagnostic(),
        Some("Malformed ICMP Packet")
    );
    assert_eq!(Layer::Icmp.diagnostic(), "Malformed ICMP Packet");
}

#[test]
fn version_six_control_messages_keep_their_type() {
    let source = IpAddress::V6(1);
    let destination = IpAddress::V6(2);
    assert_eq!(
        decode_transport(58, source, destination, &[135, 0, 0, 0, 1]),
        Dissection::Icmpv6 { source, destination, icmpv6_type: 135 }
    );
    assert_eq!(
        decode_transport(58, source, destination, &[135, 0, 0]),
        Dissection::Malformed(Layer::Icmpv6)
    );
    assert_eq!(Layer::Icmpv6.diagnostic(), "Malformed ICMPv6 Packet");
    assert_eq!(
        dissect(&in_ipv4_frame(58, &[128, 0, 0, 0])),
        Dissection::Icmpv6 { source: HOST_A, destination: HOST_B, icmpv6_type: 128 }
    );
}

#[test]
fn control_messages_agree_with_the_packet_views_of_pnet() {
    let reply = [0u8, 0, 0xf7, 0xff, 0x43, 0x21, 0x00, 0x2a, 1, 2, 3];
    let seen = EchoReplyPacket::new(&reply).unwrap();
    assert_eq!(IcmpPacket::new(&reply).unwrap().get_icmp_type(), IcmpTypes::EchoReply);
    assert_eq!(
        decode_transport(1, HOST_A, HOST_B, &reply),
        Dissection::Icmp {
            source: HOST_A,
            destination: HOST_B,
            message: IcmpMessage::EchoReply {
                identifier: seen.get_identifier(),
                sequence: seen.get_sequence_number()
            }
        }
    );

    let request = [8u8, 0, 0, 0, 0xfe, 0xdc, 0xba, 0x98];
    let seen = EchoRequestPacket::new(&request).unwrap();
    assert_eq!(IcmpPacket::new(&request).unwrap().get_icmp_type(), IcmpTypes::EchoRequest);
    assert_eq!(
        decode_transport(1, HOST_A, HOST_B, &request),
        Dissection::Icmp {
            source: HOST_A,
            destination: HOST_B,
            message: IcmpMessage::EchoRequest {
                identifier: seen.get_identifier(),
                sequence: seen.get_sequence_number()
            }
        }
    );

    let exceeded = [11u8, 0, 0, 0, 0, 0, 0, 0, 0x45, 0, 0, 28];
    let seen = TimeExceededPacket::new(&exceeded).unwrap();
    assert_eq!(IcmpPacket::new(&exceeded).unwrap().get_icmp_type(), IcmpTypes::TimeExceeded);
    match decode_transport(1, HOST_A, HOST_B, &exceeded) {
        Dissection::Icmp { message: IcmpMessage::TimeExceeded { payload }, .. } => {
            assert_eq!(payload.slice(&exceeded), seen.payload());
        }
        other => panic!("unexpected {:?}", other),
    }

    assert!(IcmpPacket::new(&[3u8, 0, 0]).is_none());
    assert!(EchoReplyPacket::new(&reply[..7]).is_none());
}
