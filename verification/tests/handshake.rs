use socks5_core::proto::{
    encode_method_reply, encode_reply, on_dial, step, u16_from_be, DialOutcome, HandshakeState,
    SocksError,
};

#[test]
fn greeting_accepts_version_five() {
    let t = step(&HandshakeState::Greeting, &vec![5u8, 2u8]);
    assert!(t.send.is_empty());
    match t.next {
        HandshakeState::Methods { count } => assert_eq!(count, 2),
        _ => panic!("expected the methods state"),
    }
}

#[test]
fn greeting_drops_other_versions_silently() {
    let t = step(&HandshakeState::Greeting, &vec![4u8, 1u8]);
    assert!(t.send.is_empty());
    assert!(matches!(
        t.next,
        HandshakeState::Failed { error: SocksError::WrongVersion }
    ));
}

#[test]
fn no_auth_method_accepted() {
    let t = step(&HandshakeState::Methods { count: 3 }, &vec![2u8, 0u8, 1u8]);
    assert_eq!(t.send, vec![0x05u8, 0x00u8]);
    assert!(matches!(t.next, HandshakeState::RequestHeader));
}

#[test]
fn missing_no_auth_method_refused() {
    let t = step(&HandshakeState::Methods { count: 2 }, &vec![2u8, 3u8]);
    assert_eq!(t.send, vec![0x05u8, 0xFFu8]);
    match t.next {
        HandshakeState::Failed { error } => {
            assert_eq!(error, SocksError::NoAcceptableMethod);
            // Terminal: the machine reads no request after refusing.
            assert!(!(HandshakeState::Failed { error }).is_reading());
            assert_eq!((HandshakeState::Failed { error }).bytes_needed(), 0);
        }
        _ => panic!("expected a failed handshake"),
    }
}

#[test]
fn empty_method_list_refused() {
    let t = step(&HandshakeState::Methods { count: 0 }, &vec![]);
    assert_eq!(t.send, vec![0x05u8, 0xFFu8]);
    assert!(matches!(
        t.next,
        HandshakeState::Failed { error: SocksError::NoAcceptableMethod }
    ));
}

#[test]
fn request_header_wrong_version_dropped() {
    let t = step(&HandshakeState::RequestHeader, &vec![4u8, 1u8, 0u8, 1u8]);
    assert!(t.send.is_empty());
    assert!(matches!(
        t.next,
        HandshakeState::Failed { error: SocksError::WrongVersion }
    ));
}

#[test]
fn bind_command_rejected() {
    let t = step(&HandshakeState::RequestHeader, &vec![5u8, 2u8, 0u8, 1u8]);
    assert_eq!(t.send[0], 0x05u8);
    assert_eq!(t.send[1], 0x01u8);
    assert_eq!(t.send, vec![5u8, 1u8, 0u8, 1u8, 0, 0, 0, 0, 0, 0]);
    assert!(matches!(
        t.next,
        HandshakeState::Failed { error: SocksError::UnsupportedCommand }
    ));
}

#[test]
fn unknown_address_type_rejected() {
    let t = step(&HandshakeState::RequestHeader, &vec![5u8, 1u8, 0u8, 2u8]);
    assert_eq!(t.send, vec![5u8, 1u8, 0u8, 1u8, 0, 0, 0, 0, 0, 0]);
    assert!(matches!(
        t.next,
        HandshakeState::Failed { error: SocksError::UnsupportedAddressType }
    ));
}

#[test]
fn request_header_selects_address_reader() {
    let v4 = step(&HandshakeState::RequestHeader, &vec![5u8, 1u8, 0u8, 1u8]);
    assert!(v4.send.is_empty());
    assert!(matches!(v4.next, HandshakeState::V4Address));
    assert_eq!(v4.next.bytes_needed(), 6);

    let domain = step(&HandshakeState::RequestHeader, &vec![5u8, 1u8, 0u8, 3u8]);
    assert!(matches!(domain.next, HandshakeState::DomainLength));
    assert_eq!(domain.next.bytes_needed(), 1);

    let v6 = step(&HandshakeState::RequestHeader, &vec![5u8, 1u8, 0u8, 4u8]);
    assert!(matches!(v6.next, HandshakeState::V6Address));
    assert_eq!(v6.next.bytes_needed(), 18);
}

#[test]
fn dial_failure_sends_connection_refused() {
    let t = on_dial(&DialOutcome::ConnectFailed);
    assert_eq!(t.send, vec![0x05u8, 0x05u8, 0x00u8, 0x01u8, 0, 0, 0, 0, 0, 0]);
    assert!(matches!(
        t.next,
        HandshakeState::Failed { error: SocksError::DestinationUnreachable }
    ));
}

#[test]
fn rejected_address_sends_general_failure() {
    let t = on_dial(&DialOutcome::AddressRejected);
    assert_eq!(t.send, vec![0x05u8, 0x01u8, 0x00u8, 0x01u8, 0, 0, 0, 0, 0, 0]);
    assert!(matches!(
        t.next,
        HandshakeState::Failed { error: SocksError::InvalidDestination }
    ));
}

#[test]
fn dial_success_sends_wildcard_success_reply() {
    let t = on_dial(&DialOutcome::Connected);
    assert_eq!(t.send, vec![0x05u8, 0x00u8, 0x00u8, 0x01u8, 0, 0, 0, 0, 0, 0]);
    assert!(matches!(t.next, HandshakeState::Relaying));
}

#[test]
fn reply_encoding_is_ten_bytes() {
    assert_eq!(encode_reply(0), vec![5u8, 0u8, 0u8, 1u8, 0, 0, 0, 0, 0, 0]);
    assert_eq!(encode_reply(1), vec![5u8, 1u8, 0u8, 1u8, 0, 0, 0, 0, 0, 0]);
    assert_eq!(encode_reply(5), vec![5u8, 5u8, 0u8, 1u8, 0, 0, 0, 0, 0, 0]);
    assert_eq!(encode_method_reply(true), vec![5u8, 0u8]);
    assert_eq!(encode_method_reply(false), vec![5u8, 255u8]);
}

#[test]
fn port_bytes_are_big_endian() {
    assert_eq!(u16_from_be(1, 187), 443);
    assert_eq!(u16_from_be(0, 80), 80);
    assert_eq!(u16_from_be(0, 0), 0);
    assert_eq!(u16_from_be(255, 255), 65535);
}
