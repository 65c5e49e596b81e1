use laska::endpoint::{Endpoint, Family, SockAddr};
use laska::packet::{echo_request, DecodeError};
use laska::transport::{
    sent, status_flags, strip_ip_header, transfer_error, ErrorClass, OsErrorKind, Outbound,
    RawTransport, SendOutcome, TransportError, IPV4_MIN_HEADER_LEN,
};

const KINDS: [OsErrorKind; 8] = [
    OsErrorKind::PermissionDenied,
    OsErrorKind::WouldBlock,
    OsErrorKind::TimedOut,
    OsErrorKind::Interrupted,
    OsErrorKind::AddrInUse,
    OsErrorKind::AddrNotAvailable,
    OsErrorKind::InvalidInput,
    OsErrorKind::Other,
];

const PING: [u8; 12] = [0x08, 0x00, 0x59, 0x45, 0x00, 0x2a, 0x00, 0x00, b'P', b'I', b'N', b'G'];

fn open_v4() -> RawTransport {
    RawTransport::open(Family::V4, Ok(3)).unwrap()
}

#[test]
fn open_gives_an_unbound_blocking_transport() {
    let transport = RawTransport::open(Family::V6, Ok(5)).unwrap();
    assert_eq!(transport.handle(), 5);
    assert_eq!(transport.family(), Family::V6);
    assert_eq!(transport.local_endpoint(), None);
    assert_eq!(transport.read_timeout(), None);
    assert!(!transport.is_nonblocking());
}

#[test]
fn open_keeps_permission_denied_apart() {
    assert_eq!(
        RawTransport::open(Family::V4, Err(OsErrorKind::PermissionDenied)).unwrap_err(),
        TransportError::PermissionDenied
    );
    for kind in KINDS {
        if kind != OsErrorKind::PermissionDenied {
            assert_eq!(
                RawTransport::open(Family::V4, Err(kind)).unwrap_err(),
                TransportError::OpenFailed(kind)
            );
        }
    }
}

#[test]
fn bind_address_is_the_record_of_the_endpoint() {
    let transport = open_v4();
    assert_eq!(
        transport.bind_address(&Endpoint::v4([0, 0, 0, 0])),
        Ok(SockAddr::V4 { port: 0, s_addr: 0 })
    );
    assert_eq!(
        transport.bind_address(&Endpoint::v4([10, 1, 2, 3])),
        Ok(SockAddr::V4 { port: 0, s_addr: 0x0302_010a })
    );
}

#[test]
fn bind_refuses_an_address_of_another_family() {
    let mut transport = open_v4();
    let local = Endpoint::v6([0; 16]);
    assert_eq!(
        transport.bind_address(&local),
        Err(TransportError::BindError(OsErrorKind::InvalidInput))
    );
    assert_eq!(
        transport.bind(local, Ok(())),
        Err(TransportError::BindError(OsErrorKind::InvalidInput))
    );
    assert_eq!(transport.local_endpoint(), None);
}

#[test]
fn bind_records_the_local_endpoint() {
    let mut transport = open_v4();
    let local = Endpoint::v4([0, 0, 0, 0]);
    assert_eq!(transport.bind(local, Ok(())), Ok(()));
    assert_eq!(transport.local_endpoint(), Some(local));
    assert_eq!(transport.handle(), 3);
}

#[test]
fn bind_failure_is_a_bind_error() {
    let mut transport = open_v4();
    for kind in KINDS {
        assert_eq!(
            transport.bind(Endpoint::v4([10, 0, 0, 1]), Err(kind)),
            Err(TransportError::BindError(kind))
        );
        assert_eq!(transport.local_endpoint(), None);
    }
}

#[test]
fn timeout_and_blocking_mode_are_kept() {
    let mut transport = open_v4();
    transport.set_timeout(Some(1000));
    assert_eq!(transport.read_timeout(), Some(1000));
    transport.set_nonblocking(true);
    assert!(transport.is_nonblocking());
    assert_eq!(transport.read_timeout(), Some(1000));
    transport.set_timeout(None);
    assert_eq!(transport.read_timeout(), None);
    assert!(transport.is_nonblocking());
    transport.set_nonblocking(false);
    assert!(!transport.is_nonblocking());
}

#[test]
fn status_flags_touch_one_bit() {
    assert_eq!(status_flags(0x2, 0x800, true), 0x802);
    assert_eq!(status_flags(0x802, 0x800, true), 0x802);
    assert_eq!(status_flags(0x802, 0x800, false), 0x2);
    assert_eq!(status_flags(0x2, 0x800, false), 0x2);
    assert_eq!(status_flags(0x8402, 0x4, false), 0x8402);
}

#[test]
fn send_to_serialises_the_packet() {
    let transport = open_v4();
    let packet = echo_request(42, 0, b"PING".to_vec());
    assert_eq!(
        transport.send_to(&Endpoint::v4([127, 0, 0, 1]), &packet),
        Ok(Outbound {
            destination: SockAddr::V4 { port: 0, s_addr: 0x0100_007f },
            datagram: PING.to_vec(),
        })
    );
}

#[test]
fn send_to_another_family_is_refused() {
    let transport = open_v4();
    let packet = echo_request(42, 0, b"PING".to_vec());
    assert_eq!(
        transport.send_to(&Endpoint::v6([0; 16]), &packet),
        Err(TransportError::Io(OsErrorKind::InvalidInput))
    );
}

#[test]
fn short_send_is_reported() {
    assert_eq!(sent(12, Ok(12)), Ok(SendOutcome::Complete));
    assert_eq!(sent(12, Ok(5)), Ok(SendOutcome::Partial { sent: 5, remaining: 7 }));
    assert_eq!(sent(12, Ok(0)), Ok(SendOutcome::Partial { sent: 0, remaining: 12 }));
    assert_eq!(sent(0, Ok(0)), Ok(SendOutcome::Complete));
}

#[test]
fn failed_transfer_by_kind() {
    assert_eq!(sent(12, Err(OsErrorKind::WouldBlock)), Err(TransportError::WouldBlock));
    assert_eq!(sent(12, Err(OsErrorKind::TimedOut)), Err(TransportError::TimedOut));
    assert_eq!(transfer_error(OsErrorKind::WouldBlock), TransportError::WouldBlock);
    assert_eq!(transfer_error(OsErrorKind::TimedOut), TransportError::TimedOut);
    for kind in KINDS {
        if kind != OsErrorKind::WouldBlock && kind != OsErrorKind::TimedOut {
            assert_eq!(sent(12, Err(kind)), Err(TransportError::Io(kind)));
            assert_eq!(transfer_error(kind), TransportError::Io(kind));
        }
    }
}

#[test]
fn receive_decodes_and_names_the_sender() {
    let transport = open_v4();
    let sender = SockAddr::V4 { port: 0, s_addr: 0x0100_007f };
    assert_eq!(
        transport.receive_from(Ok((&PING[..], sender))),
        Ok((echo_request(42, 0, b"PING".to_vec()), Endpoint::v4([127, 0, 0, 1])))
    );
}

#[test]
fn receive_reports_a_bad_datagram_as_rejected() {
    let transport = open_v4();
    let sender = SockAddr::V4 { port: 0, s_addr: 0x0100_007f };
    let mut corrupt = PING;
    corrupt[9] = b'O';
    assert_eq!(
        transport.receive_from(Ok((&corrupt[..], sender))),
        Err(TransportError::Rejected(DecodeError::ChecksumError))
    );
    assert_eq!(
        transport.receive_from(Ok((&PING[..7], sender))),
        Err(TransportError::Rejected(DecodeError::Truncated))
    );
}

#[test]
fn receive_failure_by_kind() {
    let transport = open_v4();
    assert_eq!(
        transport.receive_from(Err(OsErrorKind::WouldBlock)),
        Err(TransportError::WouldBlock)
    );
    assert_eq!(transport.receive_from(Err(OsErrorKind::TimedOut)), Err(TransportError::TimedOut));
    assert_eq!(
        transport.receive_from(Err(OsErrorKind::Interrupted)),
        Err(TransportError::Io(OsErrorKind::Interrupted))
    );
}

#[test]
fn close_gives_the_handle_back() {
    let mut transport = RawTransport::open(Family::V4, Ok(17)).unwrap();
    transport.set_nonblocking(true);
    assert_eq!(transport.close(), 17);
}

#[test]
fn error_classes() {
    assert_eq!(TransportError::PermissionDenied.class(), ErrorClass::FatalStartup);
    assert_eq!(TransportError::OpenFailed(OsErrorKind::Other).class(), ErrorClass::FatalStartup);
    assert_eq!(TransportError::BindError(OsErrorKind::AddrInUse).class(), ErrorClass::FatalStartup);
    assert_eq!(TransportError::WouldBlock.class(), ErrorClass::TransientIO);
    assert_eq!(TransportError::TimedOut.class(), ErrorClass::TransientIO);
    assert_eq!(TransportError::Io(OsErrorKind::Other).class(), ErrorClass::TransientIO);
    assert_eq!(
        TransportError::Rejected(DecodeError::ChecksumError).class(),
        ErrorClass::ProtocolReject
    );
    assert_eq!(TransportError::Rejected(DecodeError::Truncated).class(), ErrorClass::ProtocolReject);
    assert!(TransportError::PermissionDenied.is_fatal());
    assert!(TransportError::BindError(OsErrorKind::InvalidInput).is_fatal());
    assert!(!TransportError::WouldBlock.is_fatal());
    assert!(!TransportError::Rejected(DecodeError::ChecksumError).is_fatal());
}

fn ipv4_datagram(first: u8, header_len: usize) -> Vec<u8> {
    let mut datagram = vec![0u8; header_len];
    datagram[0] = first;
    datagram[9] = 1;
    datagram.extend_from_slice(&PING);
    datagram
}

#[test]
fn ipv4_header_is_stripped() {
    assert_eq!(IPV4_MIN_HEADER_LEN, 20);
    assert_eq!(strip_ip_header(Family::V4, &ipv4_datagram(0x45, 20)), &PING[..]);
    assert_eq!(strip_ip_header(Family::V4, &ipv4_datagram(0x46, 24)), &PING[..]);
    assert_eq!(strip_ip_header(Family::V4, &ipv4_datagram(0x4f, 60)), &PING[..]);
    assert_eq!(strip_ip_header(Family::V4, &[0x45; 20]), &[] as &[u8]);
}

#[test]
fn datagram_without_ipv4_header_has_no_message() {
    let empty: &[u8] = &[];
    assert_eq!(strip_ip_header(Family::V4, &[]), empty);
    assert_eq!(strip_ip_header(Family::V4, &PING), empty);
    assert_eq!(strip_ip_header(Family::V4, &[0x45; 19]), empty);
    assert_eq!(strip_ip_header(Family::V4, &ipv4_datagram(0x65, 20)), empty);
    assert_eq!(strip_ip_header(Family::V4, &ipv4_datagram(0x44, 20)), empty);
    assert_eq!(strip_ip_header(Family::V4, &[0x4f; 59]), empty);
}

#[test]
fn ipv6_datagram_is_the_message() {
    assert_eq!(strip_ip_header(Family::V6, &PING), &PING[..]);
    assert_eq!(strip_ip_header(Family::V6, &[]), &[] as &[u8]);
    assert_eq!(strip_ip_header(Family::V6, &[0x45; 20]), &[0x45; 20][..]);
}

#[test]
fn received_ipv4_datagram_decodes_behind_its_header() {
    let transport = open_v4();
    let sender = SockAddr::V4 { port: 0, s_addr: 0x0100_007f };
    let datagram = ipv4_datagram(0x45, 20);
    let message = strip_ip_header(transport.family(), &datagram);
    assert_eq!(
        transport.receive_from(Ok((message, sender))),
        Ok((echo_request(42, 0, b"PING".to_vec()), Endpoint::v4([127, 0, 0, 1])))
    );
    let message = strip_ip_header(transport.family(), &PING);
    assert_eq!(
        transport.receive_from(Ok((message, sender))),
        Err(TransportError::Rejected(DecodeError::Truncated))
    );
}
