//! Kernel socket records and their interpretation.
//!
//! The kernel hands out a socket record as a tagged union: a kind says
//! which variant the record holds, and for internet and TCP records an
//! address-family flag says how the sixteen address bytes are to be read.
//! A record is held here as it arrives, every field a plain value, and is
//! interpreted only through its two discriminants.

use vstd::prelude::*;
use vstd::endian::{endianness, Endian};
use crate::addr::{AddressFamily, Endpoint, IpAddress, Transport};
use crate::wire::{be32, be128, read_be32, read_be128};

verus! {

/// The kind of a record that holds no protocol-specific part.
pub const SOCKET_KIND_GENERIC: i32 = 0;

/// The kind of an internet socket record.
pub const SOCKET_KIND_INET: i32 = 1;

/// The kind of a TCP socket record.
pub const SOCKET_KIND_TCP: i32 = 2;

/// The address-family flag of a record whose addresses are IPv4.
pub const FAMILY_FLAG_V4: u8 = 1;

/// The address-family flag of a record whose addresses are IPv6.
pub const FAMILY_FLAG_V6: u8 = 2;

/// The protocol number of UDP in a socket record.
pub const SOCKET_PROTOCOL_UDP: i32 = 17;

/// Where an IPv4 address lies in the sixteen address bytes of a record:
/// after twelve bytes of padding.
pub const V4_ADDRESS_OFFSET: usize = 12;

/// A process id.
pub type ProcessId = u32;

/// One socket record as the kernel hands it out.
#[derive(Clone, Copy, Debug, PartialEq, Eq)]
pub struct RawSocketRecord {
    /// Which variant the record holds.
    pub kind: i32,
    /// The protocol number of the socket.
    pub protocol: i32,
    /// How the address bytes are to be read; meaningful for internet and
    /// TCP records.
    pub family_flag: u8,
    /// The local port: its low sixteen bits are in network byte order.
    pub local_port: i32,
    /// The remote port: its low sixteen bits are in network byte order.
    pub remote_port: i32,
    /// The local address bytes: an IPv6 address, or twelve bytes of
    /// padding and then an IPv4 address, each in network byte order.
    pub local_addr: [u8; 16],
    /// The remote address bytes, laid out as the local ones.
    pub remote_addr: [u8; 16],
}

/// The part of a kernel record that holds its ports and addresses, which
/// the record's kind alone decides.
#[derive(Clone, Copy, Debug, PartialEq, Eq, Hash, Structural)]
pub enum AddressPart {
    /// The record holds no internet addresses: none may be read from it.
    Absent,
    /// The internet part holds them.
    Internet,
    /// The internet part inside the TCP part holds them.
    Tcp,
}

/// A socket record after interpretation: one variant per combination of
/// kind and address family.
#[derive(Clone, Copy, Debug, PartialEq, Eq, Hash, Structural)]
#[allow(inconsistent_fields)]
pub enum SocketRecord {
    Generic,
    InetV4 { local: u32, local_port: u16, remote: u32, remote_port: u16 },
    InetV6 { local: u128, local_port: u16, remote: u128, remote_port: u16 },
    TcpV4 { local: u32, local_port: u16, remote: u32, remote_port: u16 },
    TcpV6 { local: u128, local_port: u16, remote: u128, remote_port: u16 },
}

/// One socket of one process, as the endpoint table is built from it.
#[derive(Clone, Copy, Debug, PartialEq, Eq, Hash, Structural)]
pub struct ProcessSocketEntry {
    pub pid: ProcessId,
    pub local: Endpoint,
    pub remote: Endpoint,
    pub transport: Transport,
    pub family: AddressFamily,
}

// ---------------------------------------------------------------------
// Byte order
// ---------------------------------------------------------------------

/// `x` with its two bytes exchanged.
pub open spec fn swap16(x: u16) -> u16 {
    ((x as int % 0x100) * 0x100 + x as int / 0x100) as u16
}

/// The value, on the machine that runs the code, of a 16-bit integer that
/// was stored in network byte order and read back as a native integer.
pub open spec fn network_to_host16(x: u16) -> u16 {
    match endianness() {
        Endian::Big => x,
        Endian::Little => swap16(x),
    }
}

/// `u16::from_be` of std: on a big-endian machine it returns its argument,
/// on a little-endian machine it returns the argument with its two bytes
/// exchanged.
#[verifier::external_body]
fn u16_from_be(x: u16) -> (host: u16)
    ensures
        host == network_to_host16(x),
{
    u16::from_be(x)
}

/// Converts a port from network byte order to host byte order. The port
/// is taken from the low sixteen bits of `u`.
pub fn ntohs(u: i32) -> (port: u16)
    ensures
        port == network_to_host16(u as u16),
{
    u16_from_be(#[verifier::truncate] (u as u16))
}

// ---------------------------------------------------------------------
// Addresses
// ---------------------------------------------------------------------

/// The IPv4 address in the address bytes of a record.
pub open spec fn spec_convert_to_ipv4(image: [u8; 16]) -> IpAddress {
    IpAddress::V4(be32(image@, V4_ADDRESS_OFFSET as int))
}

/// The IPv6 address in the address bytes of a record.
pub open spec fn spec_convert_to_ipv6(image: [u8; 16]) -> IpAddress {
    IpAddress::V6(be128(image@, 0))
}

/// Reads the address bytes of a record as an IPv4 address: the 32-bit
/// big-endian value after the padding.
pub fn convert_to_ipv4(image: &[u8; 16]) -> (addr: IpAddress)
    ensures
        addr == spec_convert_to_ipv4(*image),
{
    IpAddress::V4(read_be32(image.as_slice(), V4_ADDRESS_OFFSET))
}

/// Reads the address bytes of a record as an IPv6 address: all sixteen
/// bytes.
pub fn convert_to_ipv6(image: &[u8; 16]) -> (addr: IpAddress)
    ensures
        addr == spec_convert_to_ipv6(*image),
{
    IpAddress::V6(read_be128(image.as_slice(), 0))
}

// ---------------------------------------------------------------------
// Interpretation
// ---------------------------------------------------------------------

/// The part of a record of this kind that holds its ports and addresses.
pub open spec fn spec_address_part(kind: i32) -> AddressPart {
    if kind == SOCKET_KIND_INET {
        AddressPart::Internet
    } else if kind == SOCKET_KIND_TCP {
        AddressPart::Tcp
    } else {
        AddressPart::Absent
    }
}

/// Tells from the kind of a record, before anything else of it is read,
/// which part of it holds the ports and addresses.
pub fn address_part(kind: i32) -> (part: AddressPart)
    ensures
        part == spec_address_part(kind),
{
    if kind == SOCKET_KIND_INET {
        AddressPart::Internet
    } else if kind == SOCKET_KIND_TCP {
        AddressPart::Tcp
    } else {
        AddressPart::Absent
    }
}

/// Whether a record of this kind and protocol holds internet addresses
/// that are interpreted: TCP records, and internet records of UDP
/// sockets.
pub open spec fn carries_addresses(raw: RawSocketRecord) -> bool {
    raw.kind == SOCKET_KIND_TCP || (raw.kind == SOCKET_KIND_INET && raw.protocol
        == SOCKET_PROTOCOL_UDP)
}

/// `libc::IPPROTO_UDP`, the protocol number by which the kernel marks the
/// socket of a UDP endpoint: 17.
#[verifier::external_body]
fn ipproto_udp() -> (number: i32)
    ensures
        number == SOCKET_PROTOCOL_UDP,
{
    libc::IPPROTO_UDP
}

/// What a kernel record is interpreted as. The kind is read first; for a
/// record that carries addresses the address-family flag then selects
/// how the address bytes are read. A record of another kind, an internet
/// record of another protocol, and a record with an unrecognised flag
/// are not interpreted: `None`.
pub open spec fn spec_decode_socket(raw: RawSocketRecord) -> Option<SocketRecord> {
    let local_port = network_to_host16(raw.local_port as u16);
    let remote_port = network_to_host16(raw.remote_port as u16);
    if raw.kind == SOCKET_KIND_GENERIC {
        Some(SocketRecord::Generic)
    } else if !carries_addresses(raw) {
        None
    } else if raw.family_flag == FAMILY_FLAG_V4 {
        let local = be32(raw.local_addr@, V4_ADDRESS_OFFSET as int);
        let remote = be32(raw.remote_addr@, V4_ADDRESS_OFFSET as int);
        if raw.kind == SOCKET_KIND_TCP {
            Some(SocketRecord::TcpV4 { local, local_port, remote, remote_port })
        } else {
            Some(SocketRecord::InetV4 { local, local_port, remote, remote_port })
        }
    } else if raw.family_flag == FAMILY_FLAG_V6 {
        let local = be128(raw.local_addr@, 0);
        let remote = be128(raw.remote_addr@, 0);
        if raw.kind == SOCKET_KIND_TCP {
            Some(SocketRecord::TcpV6 { local, local_port, remote, remote_port })
        } else {
            Some(SocketRecord::InetV6 { local, local_port, remote, remote_port })
        }
    } else {
        None
    }
}

/// Interprets one kernel socket record, reading its kind before anything
/// else and its address bytes only as the address-family flag says.
pub fn decode_socket(raw: &RawSocketRecord) -> (out: Option<SocketRecord>)
    ensures
        out == spec_decode_socket(*raw),
{
    if raw.kind == SOCKET_KIND_GENERIC {
        return Some(SocketRecord::Generic);
    }
    let is_tcp = raw.kind == SOCKET_KIND_TCP;
    let is_udp = raw.kind == SOCKET_KIND_INET && raw.protocol == ipproto_udp();
    if !is_tcp && !is_udp {
        return None;
    }
    if raw.family_flag == FAMILY_FLAG_V4 {
        let local: u32 = read_be32(raw.local_addr.as_slice(), V4_ADDRESS_OFFSET);
        let remote: u32 = read_be32(raw.remote_addr.as_slice(), V4_ADDRESS_OFFSET);
        let local_port: u16 = ntohs(raw.local_port);
        let remote_port: u16 = ntohs(raw.remote_port);
        if is_tcp {
            Some(SocketRecord::TcpV4 { local, local_port, remote, remote_port })
        } else {
            Some(SocketRecord::InetV4 { local, local_port, remote, remote_port })
        }
    } else if raw.family_flag == FAMILY_FLAG_V6 {
        let local: u128 = read_be128(raw.local_addr.as_slice(), 0);
        let remote: u128 = read_be128(raw.remote_addr.as_slice(), 0);
        let local_port: u16 = ntohs(raw.local_port);
        let remote_port: u16 = ntohs(raw.remote_port);
        if is_tcp {
            Some(SocketRecord::TcpV6 { local, local_port, remote, remote_port })
        } else {
            Some(SocketRecord::InetV6 { local, local_port, remote, remote_port })
        }
    } else {
        None
    }
}

impl RawSocketRecord {
    /// The record of a socket whose kind gives it no address part: every
    /// port and address byte is zero.
    pub fn without_addresses(kind: i32, protocol: i32) -> (raw: RawSocketRecord)
        ensures
            raw.kind == kind,
            raw.protocol == protocol,
            raw.family_flag == 0,
            raw.local_port == 0,
            raw.remote_port == 0,
            raw.local_addr@ == Seq::new(16, |i: int| 0u8),
            raw.remote_addr@ == Seq::new(16, |i: int| 0u8),
    {
        RawSocketRecord {
            kind,
            protocol,
            family_flag: 0,
            local_port: 0,
            remote_port: 0,
            local_addr: [0u8; 16],
            remote_addr: [0u8; 16],
        }
    }
}

impl SocketRecord {
    /// The address family of the record, which a generic record lacks.
    pub open spec fn spec_family(self) -> Option<AddressFamily> {
        match self {
            SocketRecord::Generic => None,
            SocketRecord::InetV4 { .. } | SocketRecord::TcpV4 { .. } => Some(AddressFamily::V4),
            SocketRecord::InetV6 { .. } | SocketRecord::TcpV6 { .. } => Some(AddressFamily::V6),
        }
    }

    /// The transport of the record, which a generic record lacks.
    pub open spec fn spec_transport(self) -> Option<Transport> {
        match self {
            SocketRecord::Generic => None,
            SocketRecord::InetV4 { .. } | SocketRecord::InetV6 { .. } => Some(Transport::Udp),
            SocketRecord::TcpV4 { .. } | SocketRecord::TcpV6 { .. } => Some(Transport::Tcp),
        }
    }
}

impl ProcessSocketEntry {
    /// The entry's own consistency: both endpoints are of the entry's
    /// transport, and both addresses of the entry's family.
    pub open spec fn wf(self) -> bool {
        &&& self.local.transport == self.transport
        &&& self.remote.transport == self.transport
        &&& self.local.addr.spec_family() == self.family
        &&& self.remote.addr.spec_family() == self.family
    }

    /// The entry that a socket record of process `pid` gives: none for a
    /// generic record, which has no endpoints.
    pub open spec fn spec_from_record(pid: ProcessId, record: SocketRecord) -> Option<
        ProcessSocketEntry,
    > {
        match record {
            SocketRecord::Generic => None,
            SocketRecord::InetV4 { local, local_port, remote, remote_port } => Some(
                Self::spec_v4(pid, Transport::Udp, local, local_port, remote, remote_port),
            ),
            SocketRecord::TcpV4 { local, local_port, remote, remote_port } => Some(
                Self::spec_v4(pid, Transport::Tcp, local, local_port, remote, remote_port),
            ),
            SocketRecord::InetV6 { local, local_port, remote, remote_port } => Some(
                Self::spec_v6(pid, Transport::Udp, local, local_port, remote, remote_port),
            ),
            SocketRecord::TcpV6 { local, local_port, remote, remote_port } => Some(
                Self::spec_v6(pid, Transport::Tcp, local, local_port, remote, remote_port),
            ),
        }
    }

    /// The entry of an IPv4 socket.
    pub open spec fn spec_v4(
        pid: ProcessId,
        transport: Transport,
        local: u32,
        local_port: u16,
        remote: u32,
        remote_port: u16,
    ) -> ProcessSocketEntry {
        ProcessSocketEntry {
            pid,
            local: Endpoint { addr: IpAddress::V4(local), port: local_port, transport },
            remote: Endpoint { addr: IpAddress::V4(remote), port: remote_port, transport },
            transport,
            family: AddressFamily::V4,
        }
    }

    /// The entry of an IPv6 socket.
    pub open spec fn spec_v6(
        pid: ProcessId,
        transport: Transport,
        local: u128,
        local_port: u16,
        remote: u128,
        remote_port: u16,
    ) -> ProcessSocketEntry {
        ProcessSocketEntry {
            pid,
            local: Endpoint { addr: IpAddress::V6(local), port: local_port, transport },
            remote: Endpoint { addr: IpAddress::V6(remote), port: remote_port, transport },
            transport,
            family: AddressFamily::V6,
        }
    }

    /// The entry of an IPv4 socket of process `pid`.
    pub fn v4(
        pid: ProcessId,
        transport: Transport,
        local: u32,
        local_port: u16,
        remote: u32,
        remote_port: u16,
    ) -> (entry: ProcessSocketEntry)
        ensures
            entry == Self::spec_v4(pid, transport, local, local_port, remote, remote_port),
            entry.wf(),
    {
        ProcessSocketEntry {
            pid,
            local: Endpoint { addr: IpAddress::V4(local), port: local_port, transport },
            remote: Endpoint { addr: IpAddress::V4(remote), port: remote_port, transport },
            transport,
            family: AddressFamily::V4,
        }
    }

    /// The entry of an IPv6 socket of process `pid`.
    pub fn v6(
        pid: ProcessId,
        transport: Transport,
        local: u128,
        local_port: u16,
        remote: u128,
        remote_port: u16,
    ) -> (entry: ProcessSocketEntry)
        ensures
            entry == Self::spec_v6(pid, transport, local, local_port, remote, remote_port),
            entry.wf(),
    {
        ProcessSocketEntry {
            pid,
            local: Endpoint { addr: IpAddress::V6(local), port: local_port, transport },
            remote: Endpoint { addr: IpAddress::V6(remote), port: remote_port, transport },
            transport,
            family: AddressFamily::V6,
        }
    }

    /// The entry that an interpreted socket record of process `pid`
    /// gives. A generic record has no endpoints and gives none.
    pub fn from_record(pid: ProcessId, record: &SocketRecord) -> (entry: Option<
        ProcessSocketEntry,
    >)
        ensures
            entry == Self::spec_from_record(pid, *record),
            entry matches Some(e) ==> e.wf() && e.pid == pid && Some(e.transport)
                == record.spec_transport() && Some(e.family) == record.spec_family(),
            entry.is_none() <==> *record == SocketRecord::Generic,
    {
        match *record {
            SocketRecord::Generic => None,
            SocketRecord::InetV4 { local, local_port, remote, remote_port } => Some(
                Self::v4(pid, Transport::Udp, local, local_port, remote, remote_port),
            ),
            SocketRecord::TcpV4 { local, local_port, remote, remote_port } => Some(
                Self::v4(pid, Transport::Tcp, local, local_port, remote, remote_port),
            ),
            SocketRecord::InetV6 { local, local_port, remote, remote_port } => Some(
                Self::v6(pid, Transport::Udp, local, local_port, remote, remote_port),
            ),
            SocketRecord::TcpV6 { local, local_port, remote, remote_port } => Some(
                Self::v6(pid, Transport::Tcp, local, local_port, remote, remote_port),
            ),
        }
    }
}

/// The entry that a kernel record read from process `pid` contributes to
/// a snapshot, if any.
pub open spec fn spec_entry_of(pid: ProcessId, raw: RawSocketRecord) -> Option<
    ProcessSocketEntry,
> {
    match spec_decode_socket(raw) {
        Some(record) => ProcessSocketEntry::spec_from_record(pid, record),
        None => None,
    }
}

/// Interprets a kernel record read from process `pid` and gives the
/// entry it contributes to a snapshot, if any.
pub fn entry_of(pid: ProcessId, raw: &RawSocketRecord) -> (entry: Option<ProcessSocketEntry>)
    ensures
        entry == spec_entry_of(pid, *raw),
        entry matches Some(e) ==> e.wf() && e.pid == pid,
{
    match decode_socket(raw) {
        Some(record) => ProcessSocketEntry::from_record(pid, &record),
        None => None,
    }
}

// ---------------------------------------------------------------------
// What holds of every record
// ---------------------------------------------------------------------

/// The address-family flag decides how a record's address bytes are
/// read. With the IPv6 flag an internet or TCP record is read as sixteen
/// address bytes, never as a 32-bit address; with the IPv4 flag as the
/// 32-bit address after the padding; with any other flag the record is
/// not interpreted at all.
pub proof fn lemma_family_flag_is_honoured(raw: RawSocketRecord)
    requires
        carries_addresses(raw),
    ensures
        raw.family_flag == FAMILY_FLAG_V6 ==> spec_decode_socket(raw).is_some()
            && spec_decode_socket(raw).unwrap().spec_family() == Some(AddressFamily::V6)
            && spec_entry_of(0, raw).unwrap().local.addr == spec_convert_to_ipv6(raw.local_addr)
            && spec_entry_of(0, raw).unwrap().remote.addr == spec_convert_to_ipv6(
            raw.remote_addr,
        ),
        raw.family_flag == FAMILY_FLAG_V4 ==> spec_decode_socket(raw).is_some()
            && spec_decode_socket(raw).unwrap().spec_family() == Some(AddressFamily::V4)
            && spec_entry_of(0, raw).unwrap().local.addr == spec_convert_to_ipv4(raw.local_addr)
            && spec_entry_of(0, raw).unwrap().remote.addr == spec_convert_to_ipv4(
            raw.remote_addr,
        ),
        raw.family_flag != FAMILY_FLAG_V4 && raw.family_flag != FAMILY_FLAG_V6
            ==> spec_decode_socket(raw).is_none(),
{
}

/// Only the kind of a record decides whether it is interpreted as
/// holding addresses: a record that is neither generic, nor TCP, nor an
/// internet record of a UDP socket is not interpreted.
pub proof fn lemma_kind_is_read_first(raw: RawSocketRecord)
    ensures
        raw.kind == SOCKET_KIND_GENERIC ==> spec_decode_socket(raw) == Some(
            SocketRecord::Generic,
        ),
        raw.kind != SOCKET_KIND_GENERIC && !carries_addresses(raw) ==> spec_decode_socket(
            raw,
        ).is_none(),
        spec_address_part(raw.kind) == AddressPart::Absent ==> spec_entry_of(0, raw).is_none(),
        spec_decode_socket(raw) matches Some(record) ==> (record.spec_family().is_some()
            <==> spec_address_part(raw.kind) != AddressPart::Absent),
        spec_decode_socket(raw) matches Some(record) ==> (record.spec_transport() == Some(
            Transport::Tcp,
        ) <==> raw.kind == SOCKET_KIND_TCP) && (record.spec_transport() == Some(Transport::Udp)
            <==> raw.kind == SOCKET_KIND_INET),
{
}

} // verus!
