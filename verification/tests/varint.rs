use dune::protocol::varint::{read_varint, read_varint_with_size, read_varlong, write_varint, write_varint_with_size, write_varlong};

const VARINTS: &[(i32, &[u8])] = &[
    (0, &[0x00]),
    (1, &[0x01]),
    (2, &[0x02]),
    (127, &[0x7f]),
    (128, &[0x80, 0x01]),
    (255, &[0xff, 0x01]),
    (25565, &[0xdd, 0xc7, 0x01]),
    (2097151, &[0xff, 0xff, 0x7f]),
    (2147483647, &[0xff, 0xff, 0xff, 0xff, 0x07]),
    (-1, &[0xff, 0xff, 0xff, 0xff, 0x0f]),
    (-2147483648, &[0x80, 0x80, 0x80, 0x80, 0x08]),
];

#[test]
fn varint_known_encodings() {
    for (value, bytes) in VARINTS {
        let mut out = Vec::new();
        write_varint(&mut out, *value as u32);
        assert_eq!(&out[..], *bytes, "writing {}", value);
        let mut reader: &[u8] = bytes;
        assert_eq!(read_varint(&mut reader).unwrap(), *value);
        assert!(reader.is_empty());
    }
}

#[test]
fn varint_size_is_reported() {
    let mut out = Vec::new();
    assert_eq!(write_varint_with_size(&mut out, 25565), 3);
    let mut reader: &[u8] = &[0xdd, 0xc7, 0x01, 0x33];
    assert_eq!(read_varint_with_size(&mut reader).unwrap(), (25565, 3));
    assert_eq!(reader, &[0x33]);
}

#[test]
fn varint_errors() {
    // truncated
    let mut reader: &[u8] = &[0x80, 0x80];
    assert!(read_varint(&mut reader).is_err());
    // empty
    let mut reader: &[u8] = &[];
    assert!(read_varint(&mut reader).is_err());
    // more than five bytes
    let mut reader: &[u8] = &[0x80, 0x80, 0x80, 0x80, 0x80, 0x01];
    assert!(read_varint(&mut reader).is_err());
}

#[test]
fn varlong_known_encodings() {
    let cases: &[(i64, &[u8])] = &[
        (0, &[0x00]),
        (1, &[0x01]),
        (127, &[0x7f]),
        (128, &[0x80, 0x01]),
        (2147483647, &[0xff, 0xff, 0xff, 0xff, 0x07]),
        (9223372036854775807, &[0xff, 0xff, 0xff, 0xff, 0xff, 0xff, 0xff, 0xff, 0x7f]),
        (-1, &[0xff, 0xff, 0xff, 0xff, 0xff, 0xff, 0xff, 0xff, 0xff, 0x01]),
        (-9223372036854775808, &[0x80, 0x80, 0x80, 0x80, 0x80, 0x80, 0x80, 0x80, 0x80, 0x01]),
    ];
    for (value, bytes) in cases {
        let mut out = Vec::new();
        write_varlong(&mut out, *value as u64);
        assert_eq!(&out[..], *bytes, "writing {}", value);
        let mut reader: &[u8] = bytes;
        assert_eq!(read_varlong(&mut reader).unwrap(), *value);
        assert!(reader.is_empty());
    }
    let mut reader: &[u8] = &[0x80; 11];
    assert!(read_varlong(&mut reader).is_err());
}

#[test]
fn varint_roundtrip_leaves_the_rest() {
    for value in [0u32, 5, 300, 70000, 1 << 28, u32::MAX] {
        let mut out = Vec::new();
        write_varint(&mut out, value);
        out.extend_from_slice(&[9, 9]);
        let mut reader: &[u8] = &out;
        assert_eq!(read_varint(&mut reader).unwrap(), value as i32);
        assert_eq!(reader, &[9, 9]);
    }
}
