use dune::disk::DiskPacket;
use dune::protocol::PacketDirection;

#[test]
fn disk_packet_roundtrip() {
    let data: &[u8] = &[1, 2, 3];
    let p = DiskPacket { id: 0x21, direction: PacketDirection::S2C, data };
    let mut out = Vec::new();
    p.write(&mut out);
    assert_eq!(out, vec![0, 0, 0, 8, 0, 0, 0, 0x21, 1, 1, 2, 3]);
    assert!(DiskPacket::has_enough_bytes(&out));
    out.push(0x77);
    let mut reader: &[u8] = &out;
    let q = DiskPacket::read(&mut reader).unwrap();
    assert_eq!(q.id, 0x21);
    assert_eq!(q.direction, PacketDirection::S2C);
    assert_eq!(q.data, &[1, 2, 3]);
}

#[test]
fn disk_packet_rest_is_left() {
    let mut out = Vec::new();
    DiskPacket { id: 1, direction: PacketDirection::C2S, data: &[] }.write(&mut out);
    out.push(0x77);
    let mut reader: &[u8] = &out;
    let ptr_reader: &mut &[u8] = &mut reader;
    let q = DiskPacket::read(ptr_reader).unwrap();
    assert_eq!(q.direction, PacketDirection::C2S);
    assert!(q.data.is_empty());
    assert_eq!(reader, &[0x77]);
}

#[test]
fn disk_packet_errors() {
    // direction byte 2
    let mut reader: &[u8] = &[0, 0, 0, 5, 0, 0, 0, 1, 2];
    assert!(DiskPacket::read(&mut reader).is_err());
    // size below 5
    let mut reader: &[u8] = &[0, 0, 0, 4, 0, 0, 0, 1, 0];
    assert!(DiskPacket::read(&mut reader).is_err());
    // data shorter than the size says
    let mut reader: &[u8] = &[0, 0, 0, 7, 0, 0, 0, 1, 0, 9];
    assert!(DiskPacket::read(&mut reader).is_err());
    // too short for a header
    let mut reader: &[u8] = &[0, 0, 0];
    assert!(DiskPacket::read(&mut reader).is_err());
}

#[test]
fn disk_has_enough_bytes() {
    assert!(!DiskPacket::has_enough_bytes(&[0, 0, 0]));
    assert!(!DiskPacket::has_enough_bytes(&[0, 0, 0, 6, 1, 1, 1, 1, 1]));
    assert!(DiskPacket::has_enough_bytes(&[0, 0, 0, 5, 1, 1, 1, 1, 1]));
    assert!(DiskPacket::has_enough_bytes(&[0, 0, 0, 0]));
}
