use dune::nbt::{lookup, read, read_option, skip, skip_option, Tag};

/// The `hello_world.nbt` file of the NBT specification: a compound named
/// "hello world" holding the string tag `name` = "Bananrama".
const HELLO_WORLD: &[u8] = &[
    0x0a, 0x00, 0x0b, b'h', b'e', b'l', b'l', b'o', b' ', b'w', b'o', b'r', b'l', b'd', 0x08, 0x00, 0x04,
    b'n', b'a', b'm', b'e', 0x00, 0x09, b'B', b'a', b'n', b'a', b'n', b'r', b'a', b'm', b'a', 0x00,
];

#[test]
fn hello_world() {
    let mut data: &[u8] = HELLO_WORLD;
    let tag = read(&mut data).unwrap();
    assert_eq!(tag.name, "hello world");
    let entries = tag.tag.compound().unwrap();
    assert_eq!(entries.len(), 1);
    match lookup(&entries, "name") {
        Some(Tag::String(s)) => assert_eq!(*s, "Bananrama"),
        other => panic!("unexpected {:?}", other),
    }
    assert!(data.is_empty());
}

#[test]
fn option() {
    let mut data: &[u8] = &[0];
    let tag = read_option(&mut data).unwrap();
    assert!(tag.is_none());
}

#[test]
fn read_option_present() {
    let mut data: &[u8] = HELLO_WORLD;
    let tag = read_option(&mut data).unwrap();
    assert_eq!(tag.unwrap().name, "hello world");
}

#[test]
fn read_refuses_non_compound_root() {
    let mut data: &[u8] = &[0x08, 0x00, 0x00, 0x00, 0x00];
    assert!(read(&mut data).is_err());
}

#[test]
fn read_every_kind() {
    let mut bytes: Vec<u8> = vec![0x0a, 0x00, 0x00];
    // byte
    bytes.extend_from_slice(&[0x01, 0x00, 0x01, b'b', 0xff]);
    // short
    bytes.extend_from_slice(&[0x02, 0x00, 0x01, b's', 0x01, 0x02]);
    // int
    bytes.extend_from_slice(&[0x03, 0x00, 0x01, b'i', 0x00, 0x00, 0x01, 0x00]);
    // long
    bytes.extend_from_slice(&[0x04, 0x00, 0x01, b'l', 0, 0, 0, 0, 0, 0, 0, 5]);
    // float 1.0
    bytes.extend_from_slice(&[0x05, 0x00, 0x01, b'f', 0x3f, 0x80, 0x00, 0x00]);
    // double 2.0
    bytes.extend_from_slice(&[0x06, 0x00, 0x01, b'd', 0x40, 0, 0, 0, 0, 0, 0, 0]);
    // byte array
    bytes.extend_from_slice(&[0x07, 0x00, 0x01, b'a', 0, 0, 0, 2, 9, 8]);
    // list of two shorts
    bytes.extend_from_slice(&[0x09, 0x00, 0x01, b'L', 0x02, 0, 0, 0, 2, 0, 1, 0, 2]);
    // int array
    bytes.extend_from_slice(&[0x0b, 0x00, 0x01, b'I', 0, 0, 0, 1, 0, 0, 0, 7]);
    // long array
    bytes.extend_from_slice(&[0x0c, 0x00, 0x01, b'J', 0, 0, 0, 1, 0, 0, 0, 0, 0, 0, 0, 3]);
    bytes.push(0x00);
    bytes.push(0x42);
    let mut data: &[u8] = &bytes;
    let root = read(&mut data).unwrap();
    assert_eq!(data, &[0x42]);
    let entries = root.tag.compound().unwrap();
    assert_eq!(entries.len(), 10);
    assert!(matches!(lookup(&entries, "b"), Some(Tag::Byte(-1))));
    assert!(matches!(lookup(&entries, "s"), Some(Tag::Short(0x0102))));
    assert!(matches!(lookup(&entries, "i"), Some(Tag::Int(256))));
    assert!(matches!(lookup(&entries, "l"), Some(Tag::Long(5))));
    match lookup(&entries, "f") {
        Some(Tag::Float(bits)) => assert_eq!(f32::from_bits(*bits), 1.0),
        other => panic!("unexpected {:?}", other),
    }
    match lookup(&entries, "d") {
        Some(Tag::Double(bits)) => assert_eq!(f64::from_bits(*bits), 2.0),
        other => panic!("unexpected {:?}", other),
    }
    match lookup(&entries, "a") {
        Some(Tag::ByteArray(b)) => assert_eq!(*b, &[9, 8]),
        other => panic!("unexpected {:?}", other),
    }
    match lookup(&entries, "L") {
        Some(Tag::List(items)) => {
            assert_eq!(items.len(), 2);
            assert!(matches!(items[1], Tag::Short(2)));
        }
        other => panic!("unexpected {:?}", other),
    }
    match lookup(&entries, "I") {
        Some(Tag::IntArray(v)) => assert_eq!(v, &vec![7]),
        other => panic!("unexpected {:?}", other),
    }
    match lookup(&entries, "J") {
        Some(Tag::LongArray(v)) => assert_eq!(v, &vec![3i64]),
        other => panic!("unexpected {:?}", other),
    }
    assert!(lookup(&entries, "missing").is_none());
}

#[test]
fn later_name_shadows_earlier() {
    let bytes: Vec<u8> = vec![
        0x0a, 0x00, 0x00, 0x01, 0x00, 0x01, b'x', 0x01, 0x01, 0x00, 0x01, b'x', 0x02, 0x00,
    ];
    let mut data: &[u8] = &bytes;
    let root = read(&mut data).unwrap();
    let entries = root.tag.compound().unwrap();
    assert!(matches!(lookup(&entries, "x"), Some(Tag::Byte(2))));
}

#[test]
fn read_refuses_negative_sizes_and_bad_text() {
    // byte array with a negative size
    let mut data: &[u8] = &[0x0a, 0x00, 0x00, 0x07, 0x00, 0x00, 0xff, 0xff, 0xff, 0xff, 0x00];
    assert!(read(&mut data).is_err());
    // string that is not UTF-8
    let mut data: &[u8] = &[0x0a, 0x00, 0x00, 0x08, 0x00, 0x00, 0x00, 0x01, 0xff, 0x00];
    assert!(read(&mut data).is_err());
    // unknown kind
    let mut data: &[u8] = &[0x0a, 0x00, 0x00, 0x0d, 0x00, 0x00, 0x00];
    assert!(read(&mut data).is_err());
    // truncated
    let mut data: &[u8] = &[0x0a, 0x00, 0x00, 0x03, 0x00, 0x00, 0x00];
    assert!(read(&mut data).is_err());
}

#[test]
fn skip_stops_where_read_stops() {
    let mut with_tail = HELLO_WORLD.to_vec();
    with_tail.extend_from_slice(&[1, 2, 3]);
    let mut a: &[u8] = &with_tail;
    skip(&mut a).unwrap();
    let mut b: &[u8] = &with_tail;
    read(&mut b).unwrap();
    assert_eq!(a, &[1, 2, 3]);
    assert_eq!(a, b);
}

#[test]
fn skip_option_cases() {
    let mut data: &[u8] = &[0, 7];
    assert_eq!(skip_option(&mut data).unwrap(), false);
    assert_eq!(data, &[7]);
    let mut data: &[u8] = HELLO_WORLD;
    assert_eq!(skip_option(&mut data).unwrap(), true);
    assert!(data.is_empty());
    let mut data: &[u8] = &[];
    assert!(skip_option(&mut data).is_err());
}

#[test]
fn skip_list_with_negative_count_is_empty() {
    // a list of ints whose count is -1 holds nothing
    let mut data: &[u8] = &[0x0a, 0x00, 0x00, 0x09, 0x00, 0x00, 0x03, 0xff, 0xff, 0xff, 0xff, 0x00, 9];
    skip(&mut data).unwrap();
    assert_eq!(data, &[9]);
}

#[test]
fn tag_accessors() {
    assert_eq!(Tag::Byte(3).byte().unwrap(), 3);
    assert!(Tag::Byte(3).short().is_err());
    assert_eq!(Tag::Short(-4).short().unwrap(), -4);
    assert_eq!(Tag::Int(9).int_value().unwrap(), 9);
    assert!(Tag::Int(9).string().is_err());
    assert_eq!(Tag::String("x").string().unwrap(), "x");
    assert!(Tag::List(vec![]).list().unwrap().is_empty());
    assert!(Tag::List(vec![]).compound().is_err());
    assert_eq!(Tag::Long(1).tag_name(), "long");
    assert_eq!(Tag::Compound(vec![]).tag_name(), "compound");
    assert_eq!(Tag::LongArray(vec![]).tag_name(), "long_array");
}
