use dune::bytes::ParseError;
use dune::protocol::ConnectionState;
use dune::record::{choose_reader, proxy_start, proxy_step, ProxyAction, ProxyEvent, ReaderKind};

#[test]
fn readers_are_chosen_by_state_and_version() {
    assert_eq!(choose_reader(ConnectionState::Handshaking, 0, false), ReaderKind::Handshaking);
    assert_eq!(choose_reader(ConnectionState::Status, 758, true), ReaderKind::Status);
    assert_eq!(choose_reader(ConnectionState::Login, 758, false), ReaderKind::Login);
    assert_eq!(choose_reader(ConnectionState::Play, 758, false), ReaderKind::V1_18_2);
    assert_eq!(choose_reader(ConnectionState::Play, 761, false), ReaderKind::V1_19_3);
    assert_eq!(choose_reader(ConnectionState::Play, 764, false), ReaderKind::V1_20_2);
    assert_eq!(choose_reader(ConnectionState::Play, 758, true), ReaderKind::Ignore);
    assert_eq!(choose_reader(ConnectionState::Play, 340, false), ReaderKind::Ignore);
}

#[test]
fn a_login_goes_through_the_states() {
    let s = proxy_start();
    assert_eq!(s.state, ConnectionState::Handshaking);
    assert_eq!(s.reader, ReaderKind::Handshaking);
    assert_eq!(s.protocol_version, i32::MAX);

    let (s, a) = proxy_step(s, ProxyEvent::Handshake { protocol_version: 758, next_state: 2 }).unwrap();
    assert_eq!(s.state, ConnectionState::Login);
    assert_eq!(s.protocol_version, 758);
    assert!(!s.start_done);
    assert!(matches!(a, ProxyAction::SendHandshake { protocol_version: 758, next_state: 2 }));

    let (s, a) = proxy_step(s, ProxyEvent::EncryptionResponse).unwrap();
    assert!(matches!(a, ProxyAction::ReplyEncryption));
    let (s, _) = proxy_step(s, ProxyEvent::Compression { threshold: 256 }).unwrap();
    assert!(s.compression);
    let (s, _) = proxy_step(s, ProxyEvent::Compression { threshold: -1 }).unwrap();
    assert!(!s.compression);
    let (s, a) = proxy_step(s, ProxyEvent::LoginSuccess).unwrap();
    assert_eq!(s.state, ConnectionState::Play);
    assert!(s.start_done);
    assert_eq!(s.reader, ReaderKind::V1_18_2);
    assert!(matches!(a, ProxyAction::Forward));
    let (s2, a) = proxy_step(s, ProxyEvent::Unreadable).unwrap();
    assert_eq!(s2.state, ConnectionState::Play);
    assert!(matches!(a, ProxyAction::Forward));
}

#[test]
fn status_and_unknown_next_states() {
    let (s, _) = proxy_step(proxy_start(), ProxyEvent::Handshake { protocol_version: 758, next_state: 1 }).unwrap();
    assert_eq!(s.state, ConnectionState::Status);
    assert!(s.start_done);
    assert_eq!(s.reader, ReaderKind::Status);
    match proxy_step(proxy_start(), ProxyEvent::Handshake { protocol_version: 758, next_state: 3 }) {
        Err(e) => assert_eq!(e, ParseError::UnknownNextState(3)),
        Ok(_) => panic!("expected an error"),
    }
}
