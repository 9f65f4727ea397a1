use flow_inspector::addr::{AddressFamily, Endpoint, IpAddress, Transport};
use flow_inspector::flow::FlowRecord;
use flow_inspector::processes::ProcessSocketEntry;
use flow_inspector::table::{attribute, attribute_latest, EndpointTable};

fn tcp(addr: [u8; 4], port: u16) -> Endpoint {
    Endpoint { addr: IpAddress::from_v4_octets(addr), port, transport: Transport::Tcp }
}

fn entry(pid: u32, local: Endpoint, remote: Endpoint) -> ProcessSocketEntry {
    ProcessSocketEntry { pid, local, remote, transport: local.transport, family: AddressFamily::V4 }
}

fn flow(source: Endpoint, destination: Endpoint) -> FlowRecord {
    FlowRecord {
        transport: source.transport,
        source: source.addr,
        destination: destination.addr,
        source_port: source.port,
        destination_port: destination.port,
        length: 20,
    }
}

#[test]
fn flow_from_a_local_endpoint_is_attributed_to_its_process() {
    let local = tcp([10, 0, 0, 5], 443);
    let table = EndpointTable::from_entries(1, &vec![entry(1234, local, tcp([0, 0, 0, 0], 0))]);
    let observed = flow(local, tcp([203, 0, 113, 9], 51000));
    assert_eq!(attribute(&observed, &table), Some(1234));
    assert_eq!(attribute_latest(&observed, Some(&table)), Some(1234));
}

#[test]
fn flow_to_a_local_endpoint_is_attributed_to_its_process() {
    let local = tcp([10, 0, 0, 5], 443);
    let table = EndpointTable::from_entries(1, &vec![entry(1234, local, tcp([0, 0, 0, 0], 0))]);
    let observed = flow(tcp([203, 0, 113, 9], 51000), local);
    assert_eq!(attribute(&observed, &table), Some(1234));
}

#[test]
fn empty_table_attributes_nothing() {
    let table = EndpointTable::empty(0);
    assert!(table.is_empty());
    let observed = flow(tcp([10, 0, 0, 5], 443), tcp([203, 0, 113, 9], 51000));
    assert_eq!(attribute(&observed, &table), None);
    assert_eq!(attribute_latest(&observed, None), None);
    assert_eq!(attribute(&observed, &EndpointTable::from_entries(5, &Vec::new())), None);
}

#[test]
fn unrelated_flow_is_not_attributed() {
    let table = EndpointTable::from_entries(
        1,
        &vec![entry(1234, tcp([10, 0, 0, 5], 443), tcp([203, 0, 113, 9], 51000))],
    );
    let observed = flow(tcp([10, 0, 0, 5], 444), tcp([203, 0, 113, 9], 51001));
    assert_eq!(attribute(&observed, &table), None);
    let other_host = flow(tcp([10, 0, 0, 6], 443), tcp([203, 0, 113, 8], 51000));
    assert_eq!(attribute(&other_host, &table), None);
}

#[test]
fn transport_is_part_of_the_key() {
    let local = tcp([10, 0, 0, 5], 53);
    let table = EndpointTable::from_entries(1, &vec![entry(7, local, tcp([0, 0, 0, 0], 0))]);
    let mut over_udp = flow(local, tcp([203, 0, 113, 9], 51000));
    over_udp.transport = Transport::Udp;
    assert_eq!(attribute(&over_udp, &table), None);
    assert_eq!(table.lookup(&local), Some(7));
    assert_eq!(table.lookup(&Endpoint { transport: Transport::Udp, ..local }), None);
}

#[test]
fn later_entry_wins_a_shared_endpoint() {
    let shared = tcp([10, 0, 0, 5], 8080);
    let table = EndpointTable::from_entries(
        9,
        &vec![
            entry(100, shared, tcp([1, 1, 1, 1], 1)),
            entry(200, shared, tcp([2, 2, 2, 2], 2)),
        ],
    );
    assert_eq!(table.lookup(&shared), Some(200));
    assert_eq!(table.lookup(&tcp([1, 1, 1, 1], 1)), Some(100));
    assert_eq!(table.lookup(&tcp([2, 2, 2, 2], 2)), Some(200));
    assert_eq!(table.taken_at(), 9);
    assert!(!table.is_empty());
}

#[test]
fn remote_endpoint_of_an_entry_is_a_key_too() {
    let remote = tcp([203, 0, 113, 9], 443);
    let table = EndpointTable::from_entries(1, &vec![entry(55, tcp([10, 0, 0, 5], 50000), remote)]);
    assert_eq!(table.lookup(&remote), Some(55));
    let inbound = flow(remote, tcp([10, 0, 0, 9], 1));
    assert_eq!(attribute(&inbound, &table), Some(55));
}

#[test]
fn source_is_looked_up_before_destination() {
    let a = tcp([10, 0, 0, 5], 1000);
    let b = tcp([10, 0, 0, 5], 2000);
    let nowhere = tcp([0, 0, 0, 0], 0);
    let table = EndpointTable::from_entries(1, &vec![entry(1, a, nowhere), entry(2, b, tcp([9, 9, 9, 9], 9))]);
    assert_eq!(attribute(&flow(a, b), &table), Some(1));
    assert_eq!(attribute(&flow(b, a), &table), Some(2));
}

#[test]
fn same_entries_give_the_same_table() {
    let entries = vec![
        entry(1, tcp([10, 0, 0, 5], 1000), tcp([1, 1, 1, 1], 80)),
        entry(2, tcp([10, 0, 0, 5], 2000), tcp([1, 1, 1, 1], 80)),
    ];
    let first = EndpointTable::from_entries(10, &entries);
    let second = EndpointTable::from_entries(20, &entries);
    for endpoint in [
        tcp([10, 0, 0, 5], 1000),
        tcp([10, 0, 0, 5], 2000),
        tcp([1, 1, 1, 1], 80),
        tcp([1, 1, 1, 1], 81),
    ] {
        assert_eq!(first.lookup(&endpoint), second.lookup(&endpoint));
    }
    assert_eq!(first.lookup(&tcp([1, 1, 1, 1], 80)), Some(2));
}

#[test]
fn flow_endpoints_carry_the_transport() {
    let observed = flow(tcp([10, 0, 0, 5], 443), tcp([203, 0, 113, 9], 51000));
    assert_eq!(observed.source_endpoint(), tcp([10, 0, 0, 5], 443));
    assert_eq!(observed.destination_endpoint(), tcp([203, 0, 113, 9], 51000));
}
