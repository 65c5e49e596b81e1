use laska::correlator::{elapsed_since, is_match, PendingRequest, PendingTable};
use laska::endpoint::Endpoint;
use laska::packet::{IcmpMessage, IcmpPacket};

fn reply(identifier: u16, sequence: u16) -> IcmpPacket {
    IcmpPacket::new(IcmpMessage::EchoReply { identifier, sequence, payload: b"data".to_vec() })
}

#[test]
fn reply_from_the_peer_with_our_identifier_matches() {
    let peer = Endpoint::v4([192, 0, 2, 1]);
    assert!(is_match(&reply(42, 0), &peer, &peer, 42));
    assert!(is_match(&reply(42, 65535), &Endpoint::v4([192, 0, 2, 1]), &peer, 42));
}

#[test]
fn reply_from_another_sender_does_not_match() {
    let peer = Endpoint::v4([192, 0, 2, 1]);
    assert!(!is_match(&reply(42, 0), &Endpoint::v4([192, 0, 2, 2]), &peer, 42));
    let mut octets = [0u8; 16];
    octets[..4].copy_from_slice(&[192, 0, 2, 1]);
    assert!(!is_match(&reply(42, 0), &Endpoint::v6(octets), &peer, 42));
}

#[test]
fn reply_with_another_identifier_does_not_match() {
    let peer = Endpoint::v4([192, 0, 2, 1]);
    assert!(!is_match(&reply(43, 0), &peer, &peer, 42));
    assert!(!is_match(&reply(42, 0), &peer, &peer, 0));
}

#[test]
fn what_is_no_reply_does_not_match() {
    let peer = Endpoint::v4([192, 0, 2, 1]);
    let request =
        IcmpPacket::new(IcmpMessage::EchoRequest { identifier: 42, sequence: 0, payload: vec![] });
    assert!(!is_match(&request, &peer, &peer, 42));
    let other = IcmpPacket::new(IcmpMessage::Other {
        icmp_type: 3,
        code: 0,
        raw: vec![0, 42, 0, 0],
    });
    assert!(!is_match(&other, &peer, &peer, 42));
}

#[test]
fn pending_request_is_found_once() {
    let mut table = PendingTable::new();
    assert!(!table.is_in_flight(42, 7));
    table.record(PendingRequest { identifier: 42, sequence: 7, sent_at: 1000 });
    assert!(table.is_in_flight(42, 7));
    assert_eq!(
        table.take(42, 7),
        Some(PendingRequest { identifier: 42, sequence: 7, sent_at: 1000 })
    );
    assert!(!table.is_in_flight(42, 7));
    assert_eq!(table.take(42, 7), None);
}

#[test]
fn pending_requests_are_kept_apart() {
    let mut table = PendingTable::new();
    table.record(PendingRequest { identifier: 1, sequence: 2, sent_at: 10 });
    table.record(PendingRequest { identifier: 2, sequence: 1, sent_at: 20 });
    table.record(PendingRequest { identifier: 1, sequence: 3, sent_at: 30 });
    assert_eq!(table.take(2, 2), None);
    assert_eq!(table.take(2, 1).map(|request| request.sent_at), Some(20));
    assert_eq!(table.take(1, 3).map(|request| request.sent_at), Some(30));
    assert_eq!(table.take(1, 2).map(|request| request.sent_at), Some(10));
}

#[test]
fn newer_request_supersedes_the_older() {
    let mut table = PendingTable::new();
    table.record(PendingRequest { identifier: 42, sequence: 0, sent_at: 5 });
    table.record(PendingRequest { identifier: 42, sequence: 0, sent_at: 9 });
    assert_eq!(
        table.take(42, 0),
        Some(PendingRequest { identifier: 42, sequence: 0, sent_at: 9 })
    );
    assert_eq!(table.take(42, 0), None);
}

#[test]
fn elapsed_time_never_underflows() {
    assert_eq!(elapsed_since(1000, 1250), 250);
    assert_eq!(elapsed_since(1000, 1000), 0);
    assert_eq!(elapsed_since(1000, 999), 0);
    assert_eq!(elapsed_since(0, u64::MAX), u64::MAX);
}
