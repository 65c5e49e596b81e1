use laska::endpoint::{
    Endpoint, Family, IpAddress, SockAddr, IPPROTO_ICMP, IPPROTO_ICMPV6, SOCKADDR_IN6_LEN,
    SOCKADDR_IN_LEN,
};

const V6_LOOPBACK: [u8; 16] = [0, 0, 0, 0, 0, 0, 0, 0, 0, 0, 0, 0, 0, 0, 0, 1];

#[test]
fn protocol_numbers_by_family() {
    assert_eq!(IPPROTO_ICMP, 1);
    assert_eq!(IPPROTO_ICMPV6, 58);
    assert_eq!(Family::V4.protocol_number(), 1);
    assert_eq!(Family::V6.protocol_number(), 58);
}

#[test]
fn record_lengths_by_family() {
    assert_eq!(SOCKADDR_IN_LEN, 16);
    assert_eq!(SOCKADDR_IN6_LEN, 28);
    assert_eq!(Family::V4.sockaddr_len(), 16);
    assert_eq!(Family::V6.sockaddr_len(), 28);
}

#[test]
fn endpoint_knows_family_address_and_length() {
    let v4 = Endpoint::v4([127, 0, 0, 1]);
    assert_eq!(v4.family(), Family::V4);
    assert_eq!(v4.address(), IpAddress::V4([127, 0, 0, 1]));
    assert_eq!(v4.raw_len(), 16);
    let v6 = Endpoint::new(IpAddress::V6(V6_LOOPBACK));
    assert_eq!(v6.family(), Family::V6);
    assert_eq!(v6.address(), IpAddress::V6(V6_LOOPBACK));
    assert_eq!(v6.raw_len(), 28);
    assert_eq!(v6, Endpoint::v6(V6_LOOPBACK));
}

#[test]
fn same_address_compares_family_and_octets() {
    let a = Endpoint::v4([10, 0, 0, 1]);
    assert!(a.same_address(&Endpoint::v4([10, 0, 0, 1])));
    assert!(!a.same_address(&Endpoint::v4([10, 0, 0, 2])));
    assert!(!a.same_address(&Endpoint::v4([11, 0, 0, 1])));
    let mut mapped = [0u8; 16];
    mapped[..4].copy_from_slice(&[10, 0, 0, 1]);
    assert!(!a.same_address(&Endpoint::v6(mapped)));
    assert!(Endpoint::v6(mapped).same_address(&Endpoint::v6(mapped)));
    mapped[15] = 1;
    assert!(!Endpoint::v6(mapped).same_address(&Endpoint::v6(V6_LOOPBACK)));
    assert!(IpAddress::V4([1, 2, 3, 4]).same_as(&IpAddress::V4([1, 2, 3, 4])));
    assert!(!IpAddress::V4([1, 2, 3, 4]).same_as(&IpAddress::V4([1, 2, 3, 5])));
}

#[test]
fn v4_record_reads_the_octets_least_significant_first() {
    let record = Endpoint::v4([127, 0, 0, 1]).to_sockaddr();
    assert_eq!(record, SockAddr::V4 { port: 0, s_addr: 0x0100_007f });
    let record = Endpoint::v4([1, 2, 3, 4]).to_sockaddr();
    assert_eq!(record, SockAddr::V4 { port: 0, s_addr: 0x0403_0201 });
    assert_eq!(record.family(), Family::V4);
    assert_eq!(record.len(), 16);
}

#[test]
fn v6_record_keeps_the_octets() {
    let record = Endpoint::v6(V6_LOOPBACK).to_sockaddr();
    assert_eq!(
        record,
        SockAddr::V6 { port: 0, flowinfo: 0, s6_addr: V6_LOOPBACK, scope_id: 0 }
    );
    assert_eq!(record.family(), Family::V6);
    assert_eq!(record.len(), 28);
}

#[test]
fn record_names_its_endpoint() {
    let sender = SockAddr::V4 { port: 0, s_addr: 0x0403_0201 }.to_endpoint();
    assert_eq!(sender, Endpoint::v4([1, 2, 3, 4]));
    let sender = SockAddr::V4 { port: 7, s_addr: 0xc0a8_0001 }.to_endpoint();
    assert_eq!(sender.address(), IpAddress::V4([0x01, 0x00, 0xa8, 0xc0]));
    let sender =
        SockAddr::V6 { port: 0, flowinfo: 5, s6_addr: V6_LOOPBACK, scope_id: 2 }.to_endpoint();
    assert_eq!(sender, Endpoint::v6(V6_LOOPBACK));
}

#[test]
fn endpoint_survives_the_way_through_its_record() {
    for octets in [[0, 0, 0, 0], [127, 0, 0, 1], [255, 254, 253, 252], [8, 8, 4, 4]] {
        let endpoint = Endpoint::v4(octets);
        assert_eq!(endpoint.to_sockaddr().to_endpoint(), endpoint);
    }
    let endpoint = Endpoint::v6(V6_LOOPBACK);
    assert_eq!(endpoint.to_sockaddr().to_endpoint(), endpoint);
}
