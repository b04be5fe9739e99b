use dune::bytes::ParseError;
use dune::config::{choose_server, parse_config, ConfigJson, ConfigJsonServer};
use dune::enchantments::Enchantment;
use dune::launchers::{auth_from_accounts, PrismAccount, PrismJson, PrismProfile, PrismYgg};
use dune::nbt::{read, skip};
use dune::protocol::de::MD;
use dune::protocol::v1_18_2::de_packets;
use dune::protocol::v1_18_2::play::UseEntityRequest;
use dune::protocol::{handshaking, login, status, ConnectionState, PacketDirection, PacketId};

fn err<T, E>(r: Result<T, E>) -> E {
    match r {
        Ok(_) => panic!("expected an error"),
        Err(e) => e,
    }
}

#[test]
fn nbt_errors_name_the_tag() {
    let mut r: &[u8] = &[0x00];
    assert_eq!(err(skip(&mut r)), ParseError::NotCompoundRoot(0));
    let mut r: &[u8] = &[0x08, 0, 0];
    assert_eq!(err(read(&mut r)), ParseError::NotCompoundRoot(8));
    // a compound holding a tag of kind 13
    let mut r: &[u8] = &[0x0a, 0, 0, 13, 0, 1, b'x'];
    assert_eq!(err(read(&mut r)), ParseError::UnknownTag(13));
    let mut r: &[u8] = &[0x0a, 0, 0, 13, 0, 1, b'x'];
    assert_eq!(err(skip(&mut r)), ParseError::UnknownTag(13));
    let mut r: &[u8] = &[];
    assert_eq!(err(read(&mut r)), ParseError::Invalid);
}

#[test]
fn unknown_enchantment_is_named() {
    assert_eq!(err(Enchantment::from("sharpness")), ParseError::UnknownEnchantment("sharpness".to_string()));
    assert_eq!(
        err(Enchantment::from("minecraft:Sharpness")),
        ParseError::UnknownEnchantment("minecraft:Sharpness".to_string())
    );
}

#[test]
fn unknown_packets_are_named_and_consume_nothing() {
    let bytes: &[u8] = &[1, 2, 3];
    let mut r = bytes;
    assert_eq!(
        err(handshaking(ConnectionState::Handshaking, PacketDirection::C2S, PacketId(0xfe), &mut r)),
        ParseError::UnknownHandshakingPacket(0xfe)
    );
    assert_eq!(r, bytes);
    assert_eq!(
        err(status(ConnectionState::Status, PacketDirection::C2S, PacketId(2), &mut r)),
        ParseError::UnknownStatusPacket(2)
    );
    assert_eq!(
        err(status(ConnectionState::Login, PacketDirection::C2S, PacketId(0), &mut r)),
        ParseError::UnknownStatusPacket(0)
    );
    assert_eq!(
        err(login(ConnectionState::Login, PacketDirection::C2S, PacketId(3), &mut r)),
        ParseError::UnknownLoginPacket(3, PacketDirection::C2S)
    );
    assert_eq!(
        err(de_packets(ConnectionState::Play, PacketDirection::S2C, 0x68, &mut r)),
        ParseError::UnknownPacket(0x68)
    );
    assert_eq!(r, bytes);
}

#[test]
fn unknown_use_entity_kind_is_named() {
    let mut r: &[u8] = &[5, 3, 0];
    assert_eq!(err(UseEntityRequest::deserialize(&mut r)), ParseError::UnknownUseEntityKind(3));
}

fn server<'x>(name: &'x str, address: &'x str) -> ConfigJsonServer<'x> {
    ConfigJsonServer { name, profile: "me", address }
}

#[test]
fn configuration_errors_are_named() {
    let duplicated = ConfigJson { default_server: None, listen_addr: None, servers: vec![server("a", "x"), server("a", "y")] };
    assert_eq!(err(parse_config(duplicated)), ParseError::DuplicatedServerName("a".to_string()));
    let no_default = ConfigJson { default_server: None, listen_addr: None, servers: vec![server("a", "x"), server("b", "y")] };
    assert_eq!(err(parse_config(no_default)), ParseError::DefaultServerNotSet);
    let bad_port = ConfigJson { default_server: None, listen_addr: None, servers: vec![server("a", "x:port")] };
    assert_eq!(err(parse_config(bad_port)), ParseError::Invalid);

    let ok = ConfigJson { default_server: Some("a"), listen_addr: None, servers: vec![server("a", "x"), server("b", "y")] };
    let config = parse_config(ok).unwrap();
    assert_eq!(err(choose_server(&config, Some("c"))), ParseError::UnknownServer("c".to_string()));
}

#[test]
fn account_errors_are_named() {
    let acc = |name, ty| PrismAccount { profile: PrismProfile { name, id: "1" }, ygg: PrismYgg { token: "t" }, ty };
    let value = PrismJson { accounts: vec![acc("a", "Legacy"), acc("b", "MSA")] };
    assert_eq!(err(auth_from_accounts(&value, "a")), ParseError::UnknownAccountType("Legacy".to_string()));
    assert_eq!(err(auth_from_accounts(&value, "z")), ParseError::AccountNotFound("z".to_string()));
}
