use flow_inspector::addr::{AddressFamily, Endpoint, IpAddress, Transport};
use flow_inspector::processes::{
    convert_to_ipv4, convert_to_ipv6, decode_socket, entry_of, ntohs, ProcessSocketEntry,
    RawSocketRecord, SocketRecord,
};

fn little_endian_host() -> bool {
    1u16.to_ne_bytes()[0] == 1
}

/// The native integer that a kernel on this machine holds for a port.
fn stored_port(port: u16) -> i32 {
    i32::from(u16::from_ne_bytes(port.to_be_bytes()))
}

fn v4_image(octets: [u8; 4]) -> [u8; 16] {
    let mut image = [0u8; 16];
    image[12..].copy_from_slice(&octets);
    image
}

const V6_LOCAL: [u8; 16] = [0x20, 0x01, 0x0d, 0xb8, 0, 0, 0, 0, 0, 0, 0, 0, 0, 0, 0, 1];
const V6_REMOTE: [u8; 16] = [0x20, 0x01, 0x0d, 0xb8, 0, 0, 0, 0, 0, 0, 0, 0, 0, 0, 0, 2];

fn record(kind: i32, protocol: i32, family_flag: u8) -> RawSocketRecord {
    RawSocketRecord {
        kind,
        protocol,
        family_flag,
        local_port: stored_port(443),
        remote_port: stored_port(51000),
        local_addr: V6_LOCAL,
        remote_addr: V6_REMOTE,
    }
}

#[test]
fn ntohs_reads_network_order() {
    assert_eq!(ntohs(stored_port(443)), 443);
    assert_eq!(ntohs(stored_port(0x1f90)), 0x1f90);
    assert_eq!(ntohs(stored_port(1)), 1);
    assert_eq!(ntohs(0), 0);
    assert_eq!(ntohs(0xffff), 0xffff);
}

#[test]
fn ntohs_exchanges_the_bytes_on_a_little_endian_host() {
    if little_endian_host() {
        assert_eq!(ntohs(0x5000), 0x0050);
        assert_eq!(ntohs(0xbb01), 443);
        assert_eq!(ntohs(0x0100), 1);
    } else {
        assert_eq!(ntohs(0x5000), 0x5000);
        assert_eq!(ntohs(0x01bb), 443);
    }
}

#[test]
fn ntohs_takes_the_low_sixteen_bits() {
    assert_eq!(ntohs(0x7fff_0000 | stored_port(80)), 80);
    assert_eq!(ntohs(-1), 0xffff);
    assert_eq!(ntohs(i32::MIN), 0);
    assert_eq!(ntohs(i32::MIN | stored_port(22)), 22);
}

#[test]
fn tcp_record_with_the_ipv4_flag() {
    let mut raw = record(2, 6, 1);
    raw.local_addr = v4_image([10, 0, 0, 5]);
    raw.remote_addr = v4_image([203, 0, 113, 9]);
    assert_eq!(
        decode_socket(&raw),
        Some(SocketRecord::TcpV4 {
            local: 0x0a00_0005,
            local_port: 443,
            remote: 0xcb00_7109,
            remote_port: 51000
        })
    );
}

#[test]
fn tcp_record_with_the_ipv6_flag() {
    assert_eq!(
        decode_socket(&record(2, 6, 2)),
        Some(SocketRecord::TcpV6 {
            local: 0x2001_0db8_0000_0000_0000_0000_0000_0001,
            local_port: 443,
            remote: 0x2001_0db8_0000_0000_0000_0000_0000_0002,
            remote_port: 51000
        })
    );
}

#[test]
fn internet_record_with_the_ipv6_flag_is_read_as_sixteen_bytes() {
    let raw = record(1, 17, 2);
    let decoded = decode_socket(&raw).unwrap();
    assert_eq!(
        decoded,
        SocketRecord::InetV6 {
            local: 0x2001_0db8_0000_0000_0000_0000_0000_0001,
            local_port: 443,
            remote: 0x2001_0db8_0000_0000_0000_0000_0000_0002,
            remote_port: 51000
        }
    );
    let entry = entry_of(77, &raw).unwrap();
    assert_eq!(entry.family, AddressFamily::V6);
    assert_eq!(entry.local.addr, convert_to_ipv6(&V6_LOCAL));
    assert_ne!(entry.local.addr, convert_to_ipv4(&V6_LOCAL));
}

#[test]
fn internet_record_with_the_ipv4_flag_reads_the_last_four_bytes() {
    let raw = record(1, 17, 1);
    assert_eq!(
        decode_socket(&raw),
        Some(SocketRecord::InetV4 { local: 1, local_port: 443, remote: 2, remote_port: 51000 })
    );
}

#[test]
fn unrecognised_family_flag_is_not_interpreted() {
    for flag in [0u8, 3, 4, 0x80, 0xff] {
        assert_eq!(decode_socket(&record(1, 17, flag)), None);
        assert_eq!(decode_socket(&record(2, 6, flag)), None);
        assert_eq!(entry_of(1, &record(2, 6, flag)), None);
    }
}

#[test]
fn generic_record_has_no_endpoints() {
    assert_eq!(decode_socket(&record(0, 0, 0)), Some(SocketRecord::Generic));
    assert_eq!(decode_socket(&record(0, 17, 1)), Some(SocketRecord::Generic));
    assert_eq!(ProcessSocketEntry::from_record(9, &SocketRecord::Generic), None);
    assert_eq!(entry_of(9, &record(0, 6, 2)), None);
}

#[test]
fn other_kinds_are_not_interpreted() {
    for kind in [3, 4, 5, 6, 7, -1, i32::MAX] {
        assert_eq!(decode_socket(&record(kind, 17, 1)), None);
        assert_eq!(decode_socket(&record(kind, 6, 2)), None);
    }
}

#[test]
fn internet_record_of_another_protocol_is_not_interpreted() {
    assert_eq!(decode_socket(&record(1, 6, 1)), None);
    assert_eq!(decode_socket(&record(1, 1, 2)), None);
    assert_eq!(decode_socket(&record(1, 0, 1)), None);
}

#[test]
fn tcp_record_is_read_whatever_its_protocol_field_says() {
    assert!(matches!(decode_socket(&record(2, 0, 1)), Some(SocketRecord::TcpV4 { .. })));
}

#[test]
fn entries_take_transport_and_family_from_the_record() {
    let tcp = ProcessSocketEntry::from_record(
        1234,
        &SocketRecord::TcpV4 { local: 0x0a00_0005, local_port: 443, remote: 0xcb00_7109, remote_port: 51000 },
    )
    .unwrap();
    assert_eq!(
        tcp,
        ProcessSocketEntry {
            pid: 1234,
            local: Endpoint { addr: IpAddress::V4(0x0a00_0005), port: 443, transport: Transport::Tcp },
            remote: Endpoint { addr: IpAddress::V4(0xcb00_7109), port: 51000, transport: Transport::Tcp },
            transport: Transport::Tcp,
            family: AddressFamily::V4,
        }
    );
    let udp = ProcessSocketEntry::from_record(
        5,
        &SocketRecord::InetV6 { local: 1, local_port: 53, remote: 0, remote_port: 0 },
    )
    .unwrap();
    assert_eq!(udp.transport, Transport::Udp);
    assert_eq!(udp.family, AddressFamily::V6);
    assert_eq!(udp.local, Endpoint { addr: IpAddress::V6(1), port: 53, transport: Transport::Udp });
    assert_eq!(udp.remote, Endpoint { addr: IpAddress::V6(0), port: 0, transport: Transport::Udp });
    assert_eq!(ProcessSocketEntry::v4(1, Transport::Udp, 2, 3, 4, 5).family, AddressFamily::V4);
    assert_eq!(ProcessSocketEntry::v6(1, Transport::Tcp, 2, 3, 4, 5).transport, Transport::Tcp);
}

#[test]
fn address_bytes_convert_by_family() {
    assert_eq!(convert_to_ipv4(&v4_image([192, 168, 0, 1])), IpAddress::V4(0xc0a8_0001));
    assert_eq!(convert_to_ipv4(&[0xff; 16]), IpAddress::V4(0xffff_ffff));
    assert_eq!(
        convert_to_ipv6(&v4_image([192, 168, 0, 1])),
        IpAddress::V6(0xc0a8_0001)
    );
    assert_eq!(
        convert_to_ipv6(&V6_REMOTE),
        IpAddress::V6(0x2001_0db8_0000_0000_0000_0000_0000_0002)
    );
    assert_eq!(IpAddress::V4(1).family(), AddressFamily::V4);
    assert_eq!(IpAddress::V6(1).family(), AddressFamily::V6);
}
