use dune::config::{choose_server, parse_addr, parse_config, ConfigJson, ConfigJsonServer};
use dune::enchantments::Enchantment;
use dune::item::{deserialize_item_nbt, get_item_opt, to_roman, EnchantmentData};
use dune::nbt::Tag;
use dune::protocol::{InventorySlot, InventorySlotData};

#[test]
fn enchantment_names() {
    assert_eq!(Enchantment::from("minecraft:sharpness").unwrap(), Enchantment::Sharpness);
    assert_eq!(Enchantment::from("minecraft:protection").unwrap(), Enchantment::Protection);
    assert_eq!(Enchantment::from("minecraft:swift_sneak").unwrap(), Enchantment::SwiftSneak);
    assert_eq!(Enchantment::from("minecraft:luck_of_the_sea").unwrap(), Enchantment::LuckOfTheSea);
    assert!(Enchantment::from("sharpness").is_err());
    assert!(Enchantment::from("minecraft:").is_err());
    assert!(Enchantment::from("minecraft:sharpnes").is_err());
    assert!(Enchantment::from("other:sharpness").is_err());
    assert!(Enchantment::from("").is_err());
}

#[test]
fn roman_numerals() {
    assert_eq!(to_roman(0), "");
    assert_eq!(to_roman(1), "I");
    assert_eq!(to_roman(4), "IV");
    assert_eq!(to_roman(5), "V");
}

#[test]
fn item_from_slot() {
    assert!(get_item_opt(None).is_none());
    assert!(get_item_opt(Some(InventorySlot { data: None })).is_none());
    let item = get_item_opt(Some(InventorySlot { data: Some(InventorySlotData { item_id: 5, count: 2, nbt: None }) }));
    assert_eq!(item.unwrap().count, 2);
}

fn enchantment_tag<'n>(id: &'n str, level: i16) -> Tag<'n> {
    Tag::Compound(vec![("lvl", Tag::Short(level)), ("id", Tag::String(id))])
}

#[test]
fn stored_enchantments() {
    let map = vec![(
        "StoredEnchantments",
        Tag::List(vec![enchantment_tag("minecraft:mending", 1), enchantment_tag("minecraft:power", 5)]),
    )];
    let attrs = deserialize_item_nbt(&map).unwrap();
    assert_eq!(
        attrs.enchantments,
        vec![
            EnchantmentData { enchantment: Enchantment::Mending, level: 1 },
            EnchantmentData { enchantment: Enchantment::Power, level: 5 },
        ]
    );
    let none: Vec<(&str, Tag)> = vec![("Damage", Tag::Int(3))];
    assert!(deserialize_item_nbt(&none).unwrap().enchantments.is_empty());
}

#[test]
fn stored_enchantments_errors() {
    let bad_level = vec![("StoredEnchantments", Tag::List(vec![enchantment_tag("minecraft:mending", 300)]))];
    assert!(deserialize_item_nbt(&bad_level).is_err());
    let bad_name = vec![("StoredEnchantments", Tag::List(vec![enchantment_tag("minecraft:nothing", 1)]))];
    assert!(deserialize_item_nbt(&bad_name).is_err());
    let not_list = vec![("StoredEnchantments", Tag::Int(1))];
    assert!(deserialize_item_nbt(&not_list).is_err());
    let missing_id = vec![("StoredEnchantments", Tag::List(vec![Tag::Compound(vec![("lvl", Tag::Short(1))])]))];
    assert!(deserialize_item_nbt(&missing_id).is_err());
}

#[test]
fn addresses() {
    assert_eq!(parse_addr("localhost").unwrap(), ("localhost", 25565));
    assert_eq!(parse_addr("example.org:1234").unwrap(), ("example.org", 1234));
    assert_eq!(parse_addr("a:b:25").unwrap(), ("a:b", 25));
    assert_eq!(parse_addr("host:+80").unwrap(), ("host", 80));
    assert_eq!(parse_addr("host:65535").unwrap(), ("host", 65535));
    assert_eq!(parse_addr(":7").unwrap(), ("", 7));
    assert!(parse_addr("host:").is_err());
    assert!(parse_addr("host:65536").is_err());
    assert!(parse_addr("host:-1").is_err());
    assert!(parse_addr("host:8a").is_err());
    assert!(parse_addr("host:+").is_err());
}

fn server<'x>(name: &'x str, address: &'x str) -> ConfigJsonServer<'x> {
    ConfigJsonServer { name, profile: "me", address }
}

#[test]
fn config_is_built() {
    let input = ConfigJson {
        default_server: Some("b"),
        listen_addr: None,
        servers: vec![server("a", "one:1"), server("b", "two")],
    };
    let config = parse_config(input).unwrap();
    assert_eq!(config.default_server, 1);
    assert_eq!(config.servers[0].addr, ("one", 1));
    assert_eq!(config.servers[1].addr, ("two", 25565));
    assert_eq!(config.listen_addr, ("0.0.0.0", 25565));

    let single = ConfigJson { default_server: None, listen_addr: Some("127.0.0.1:9"), servers: vec![server("a", "x")] };
    let config = parse_config(single).unwrap();
    assert_eq!(config.default_server, 0);
    assert_eq!(config.listen_addr, ("127.0.0.1", 9));
}

#[test]
fn config_errors() {
    let duplicated = ConfigJson { default_server: Some("a"), listen_addr: None, servers: vec![server("a", "x"), server("a", "y")] };
    assert!(parse_config(duplicated).is_err());
    let no_default = ConfigJson { default_server: None, listen_addr: None, servers: vec![server("a", "x"), server("b", "y")] };
    assert!(parse_config(no_default).is_err());
    let bad_address = ConfigJson { default_server: None, listen_addr: None, servers: vec![server("a", "x:port")] };
    assert!(parse_config(bad_address).is_err());
    let bad_listen = ConfigJson { default_server: None, listen_addr: Some("x:99999"), servers: vec![server("a", "x")] };
    assert!(parse_config(bad_listen).is_err());
}

#[test]
fn server_is_chosen_by_name_or_default() {
    let input = ConfigJson {
        default_server: Some("b"),
        listen_addr: None,
        servers: vec![server("a", "one:1"), server("b", "two"), server("c", "three")],
    };
    let config = parse_config(input).unwrap();
    assert_eq!(choose_server(&config, None).unwrap(), 1);
    assert_eq!(choose_server(&config, Some("c")).unwrap(), 2);
    assert_eq!(choose_server(&config, Some("a")).unwrap(), 0);
    assert!(choose_server(&config, Some("d")).is_err());
}
