use socks5_core::relay::{CopyAction, CopyEvent, Direction, RelaySession};

#[test]
fn data_is_forwarded_unmodified_and_in_order() {
    let mut session = RelaySession::new();
    assert!(!session.is_over());

    let mut delivered: Vec<u8> = Vec::new();
    let chunks: Vec<Vec<u8>> = vec![vec![1, 2, 3], vec![], vec![4], vec![5, 6]];
    for chunk in &chunks {
        let action = session.on_copy_event(
            Direction::ClientToDestination,
            CopyEvent::Data { chunk: chunk.clone() },
        );
        match action {
            CopyAction::Forward { chunk: out } => {
                assert_eq!(&out, chunk);
                delivered.extend_from_slice(&out);
            }
            CopyAction::Stop => panic!("data must be forwarded, not stopped"),
        }
        assert!(!session.is_over());
    }
    assert_eq!(delivered, vec![1, 2, 3, 4, 5, 6]);
}

#[test]
fn client_eof_ends_the_session_promptly() {
    // The destination may still be sending; the session must not wait for it.
    let mut session = RelaySession::new();
    let action = session.on_copy_event(Direction::ClientToDestination, CopyEvent::Eof);
    assert!(matches!(action, CopyAction::Stop));
    assert!(session.is_over());
}

#[test]
fn destination_eof_ends_the_session() {
    let mut session = RelaySession::new();
    let action = session.on_copy_event(Direction::DestinationToClient, CopyEvent::Eof);
    assert!(matches!(action, CopyAction::Stop));
    assert!(session.is_over());
}

#[test]
fn read_error_ends_the_session() {
    let mut session = RelaySession::new();
    let action = session.on_copy_event(Direction::DestinationToClient, CopyEvent::ReadError);
    assert!(matches!(action, CopyAction::Stop));
    assert!(session.is_over());
}
