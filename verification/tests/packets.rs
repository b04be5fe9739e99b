use std::io::Write;
use dune::protocol::common_states::handshaking::SetProtocolRequest;
use dune::protocol::common_states::login::CompressResponse;
use dune::protocol::common_states::status::PingResponse;
use dune::protocol::de::{Position, MD};
use dune::protocol::v1_18_2::play::{
    ChatRequest, KeepAliveResponse, LoginResponse, SetTitleTimeResponse, UnloadChunkResponse, UseEntityKind,
    UseEntityRequest,
};
use dune::protocol::v1_18_2::{de_packets, Packet};
use dune::protocol::{
    handshaking, login, read_packet_info, status, ConnectionState, Handshaking, Login, PacketDirection,
    PacketId, Status,
};

fn set_protocol_body() -> Vec<u8> {
    let mut body = vec![0xf6, 0x05, 9];
    body.extend_from_slice(b"localhost");
    body.extend_from_slice(&[0x63, 0xdd, 0x02]);
    body
}

#[test]
fn set_protocol_request_reads_and_writes() {
    let body = set_protocol_body();
    let mut reader: &[u8] = &body;
    let p = SetProtocolRequest::deserialize(&mut reader).unwrap();
    assert_eq!(p.protocol_version, 758);
    assert_eq!(p.server_host, "localhost");
    assert_eq!(p.server_port, 25565);
    assert_eq!(p.next_state, 2);
    assert!(reader.is_empty());

    let mut out = Vec::new();
    p.serialize(&mut out);
    assert_eq!(out[0], 0x00);
    assert_eq!(&out[1..], &body[..]);
}

#[test]
fn truncated_packet_is_an_error() {
    let body = set_protocol_body();
    let mut reader: &[u8] = &body[..body.len() - 1];
    assert!(SetProtocolRequest::deserialize(&mut reader).is_err());
}

#[test]
fn fields_roundtrip() {
    let mut out = Vec::new();
    PingResponse { time: -5 }.serialize(&mut out);
    assert_eq!(out, vec![0x01, 0xff, 0xff, 0xff, 0xff, 0xff, 0xff, 0xff, 0xfb]);
    let mut reader: &[u8] = &out[1..];
    assert_eq!(PingResponse::deserialize(&mut reader).unwrap().time, -5);

    let mut out = Vec::new();
    CompressResponse { threshold: 256 }.serialize(&mut out);
    assert_eq!(out, vec![0x03, 0x80, 0x02]);

    let mut out = Vec::new();
    ChatRequest { message: "héllo" }.serialize(&mut out);
    let mut reader: &[u8] = &out[1..];
    assert_eq!(ChatRequest::deserialize(&mut reader).unwrap().message, "héllo");

    let mut out = Vec::new();
    KeepAliveResponse { keep_alive_id: 42 }.serialize(&mut out);
    let mut reader: &[u8] = &out[1..];
    assert_eq!(KeepAliveResponse::deserialize(&mut reader).unwrap().keep_alive_id, 42);
}

#[test]
fn option_and_bool_fields() {
    let mut reader: &[u8] = &[0x00, 0x05];
    assert_eq!(<Option<u8>>::deserialize(&mut reader).unwrap(), None);
    assert_eq!(reader, &[0x05]);
    let mut reader: &[u8] = &[0x02, 0x05];
    assert_eq!(<Option<u8>>::deserialize(&mut reader).unwrap(), Some(5));
    let mut out = Vec::new();
    Some(7u16).serialize(&mut out);
    assert_eq!(out, vec![1, 0, 7]);
}

#[test]
fn invalid_utf8_string_is_an_error() {
    let mut reader: &[u8] = &[0x02, 0xc3, 0x28];
    assert!(<&str>::deserialize(&mut reader).is_err());
}

#[test]
fn position_is_unpacked() {
    // x = 1, z = -1, y = 64
    let packed: u64 = (1u64 << 38) | ((0x3ffffffu64) << 12) | 64;
    let bytes = packed.to_be_bytes();
    let mut reader: &[u8] = &bytes;
    let p = Position::deserialize(&mut reader).unwrap();
    assert_eq!((p.x, p.y, p.z), (1, 64, -1));
}

#[test]
fn use_entity_request_kinds() {
    let mut reader: &[u8] = &[0x07, 0x01, 0x01];
    let p = UseEntityRequest::deserialize(&mut reader).unwrap();
    assert_eq!(p.entity_id, 7);
    assert!(matches!(p.kind, UseEntityKind::Attack));
    assert!(p.sneaking);

    let mut bytes = vec![0x07, 0x02];
    bytes.extend_from_slice(&1.5f32.to_be_bytes());
    bytes.extend_from_slice(&0.0f32.to_be_bytes());
    bytes.extend_from_slice(&(-2.0f32).to_be_bytes());
    bytes.extend_from_slice(&[0x00, 0x00]);
    let mut reader: &[u8] = &bytes;
    let p = UseEntityRequest::deserialize(&mut reader).unwrap();
    match p.kind {
        UseEntityKind::InteractAt(c) => {
            assert_eq!(f32::from_bits(c.x), 1.5);
            assert_eq!(f32::from_bits(c.z), -2.0);
        }
        other => panic!("unexpected {:?}", other),
    }

    let mut reader: &[u8] = &[0x07, 0x05, 0x00];
    assert!(UseEntityRequest::deserialize(&mut reader).is_err());
}

#[test]
fn de_packets_dispatches_on_state_direction_and_id() {
    let body = set_protocol_body();
    let mut reader: &[u8] = &body;
    match de_packets(ConnectionState::Handshaking, PacketDirection::C2S, 0, &mut reader).unwrap() {
        Packet::SetProtocolRequest(p) => assert_eq!(p.server_port, 25565),
        other => panic!("unexpected {:?}", other),
    }

    let mut reader: &[u8] = &[0, 0, 0, 0, 0, 0, 0, 9];
    match de_packets(ConnectionState::Play, PacketDirection::S2C, 0x21, &mut reader).unwrap() {
        Packet::KeepAliveResponse(p) => assert_eq!(p.keep_alive_id, 9),
        other => panic!("unexpected {:?}", other),
    }

    let mut reader: &[u8] = &body;
    assert!(de_packets(ConnectionState::Handshaking, PacketDirection::S2C, 0, &mut reader).is_err());
    let mut reader: &[u8] = &body;
    assert!(de_packets(ConnectionState::Status, PacketDirection::C2S, 0x7f, &mut reader).is_err());
}

#[test]
fn early_state_readers() {
    let body = set_protocol_body();
    let mut reader: &[u8] = &body;
    match handshaking(ConnectionState::Handshaking, PacketDirection::C2S, PacketId(0), &mut reader).unwrap() {
        Handshaking::SetProtocolRequest(p) => assert_eq!(p.next_state, 2),
    }
    let mut reader: &[u8] = &body;
    assert!(handshaking(ConnectionState::Status, PacketDirection::C2S, PacketId(0), &mut reader).is_err());

    let mut reader: &[u8] = &[0, 0, 0, 0, 0, 0, 0, 1];
    match status(ConnectionState::Status, PacketDirection::S2C, PacketId(1), &mut reader).unwrap() {
        Status::PingResponse(p) => assert_eq!(p.time, 1),
        _ => panic!("unexpected packet"),
    }

    let mut reader: &[u8] = &[0x80, 0x02];
    match login(ConnectionState::Login, PacketDirection::S2C, PacketId(3), &mut reader).unwrap() {
        Login::CompressResponse(p) => assert_eq!(p.threshold, 256),
        _ => panic!("unexpected packet"),
    }
    let mut reader: &[u8] = &[0x80, 0x02];
    assert!(login(ConnectionState::Login, PacketDirection::S2C, PacketId(9), &mut reader).is_err());
}

#[test]
fn packet_info_uncompressed() {
    // length 3: id 0x21, then two data bytes; one more byte of the next packet
    let buffer: &[u8] = &[0x03, 0x21, 0xaa, 0xbb, 0x01];
    let mut tmp = Vec::new();
    let info = read_packet_info(buffer, &mut tmp, false).unwrap().unwrap();
    assert_eq!(info.id.0, 0x21);
    assert_eq!(info.total_size, 4);
    assert_eq!(info.data, &[0xaa, 0xbb, 0x01]);
}

#[test]
fn packet_info_incomplete_or_negative() {
    let mut tmp = Vec::new();
    assert!(read_packet_info(&[0x05, 0x01], &mut tmp, false).unwrap().is_none());
    assert!(read_packet_info(&[], &mut tmp, false).unwrap().is_none());
    assert!(read_packet_info(&[0x80], &mut tmp, false).unwrap().is_none());
    assert!(read_packet_info(&[0xff, 0xff, 0xff, 0xff, 0x0f, 0x00], &mut tmp, false).unwrap().is_none());
}

#[test]
fn packet_info_compressed() {
    let payload: &[u8] = &[0x21, 1, 2, 3, 4, 5, 6, 7, 8];
    let mut encoder = flate2::write::ZlibEncoder::new(Vec::new(), flate2::Compression::default());
    encoder.write_all(payload).unwrap();
    let compressed = encoder.finish().unwrap();

    let mut frame = Vec::new();
    let data_length = payload.len() as u8;
    frame.push((compressed.len() + 1) as u8);
    frame.push(data_length);
    frame.extend_from_slice(&compressed);
    let mut tmp = Vec::new();
    let info = read_packet_info(&frame, &mut tmp, true).unwrap().unwrap();
    assert_eq!(info.id.0, 0x21);
    assert_eq!(info.total_size, frame.len());
    assert_eq!(info.data, &payload[1..]);

    // data length zero: not compressed
    let frame: &[u8] = &[0x03, 0x00, 0x21, 0x09];
    let mut tmp = Vec::new();
    let info = read_packet_info(frame, &mut tmp, true).unwrap().unwrap();
    assert_eq!(info.id.0, 0x21);
    assert_eq!(info.data, &[0x09]);

    // corrupt stream
    let frame: &[u8] = &[0x04, 0x05, 0x01, 0x02, 0x03];
    let mut tmp = Vec::new();
    assert!(read_packet_info(frame, &mut tmp, true).is_err());
}

#[test]
fn written_packets_are_read_back_by_de_packets() {
    let mut out = Vec::new();
    KeepAliveResponse { keep_alive_id: 42 }.serialize(&mut out);
    out.push(0x99);
    let mut reader: &[u8] = &out[1..];
    match de_packets(ConnectionState::Play, PacketDirection::S2C, out[0] as u32, &mut reader).unwrap() {
        Packet::KeepAliveResponse(p) => assert_eq!(p.keep_alive_id, 42),
        other => panic!("unexpected {:?}", other),
    }
    assert_eq!(reader, &[0x99]);

    let mut out = Vec::new();
    ChatRequest { message: "hi" }.serialize(&mut out);
    let mut reader: &[u8] = &out[1..];
    match de_packets(ConnectionState::Play, PacketDirection::C2S, out[0] as u32, &mut reader).unwrap() {
        Packet::ChatRequest(p) => assert_eq!(p.message, "hi"),
        other => panic!("unexpected {:?}", other),
    }
}

#[test]
fn login_response_reads_four_byte_entity_id() {
    let bytes: Vec<u8> = vec![
        0, 0, 0, 7, 1, 1, 0xFF, 1, 1, b'w', 0x0A, 0, 0, 0, 0x0A, 0, 0, 0, 1, b'w', 0, 0, 0, 0, 0, 0, 0, 9, 20, 10, 8,
        0, 1, 0, 0,
    ];
    let mut r: &[u8] = &bytes;
    let p = LoginResponse::deserialize(&mut r).unwrap();
    assert_eq!(p.entity_id, 7);
    assert!(p.is_hardcore);
    assert_eq!(p.game_mode, 1);
    assert_eq!(p.previous_game_mode, -1);
    assert_eq!(p.world_names, vec!["w"]);
    assert_eq!(p.dimension_codec.nbt, &[0x0A, 0, 0, 0]);
    assert_eq!(p.dimension.nbt, &[0x0A, 0, 0, 0]);
    assert_eq!(p.world_name, "w");
    assert_eq!(p.hashed_seed, 9);
    assert_eq!((p.max_players, p.view_distance, p.simulation_distance), (20, 10, 8));
    assert!(!p.reduced_debug_info && p.enable_respawn_screen && !p.is_debug && !p.is_flat);
    assert!(r.is_empty());
}

#[test]
fn four_byte_fields_are_big_endian() {
    let bytes: Vec<u8> = vec![0xff, 0xff, 0xff, 0xfe, 0, 0, 1, 0];
    let mut r: &[u8] = &bytes;
    let p = UnloadChunkResponse::deserialize(&mut r).unwrap();
    assert_eq!((p.chunk_x, p.chunk_z), (-2, 256));
    assert!(r.is_empty());
    let mut out = Vec::new();
    p.serialize(&mut out);
    assert_eq!(&out[1..], &bytes[..]);

    let mut out = Vec::new();
    SetTitleTimeResponse { fade_in: 10, stay: 70, fade_out: 20 }.serialize(&mut out);
    assert_eq!(&out[1..], &[0, 0, 0, 10, 0, 0, 0, 70, 0, 0, 0, 20]);
    let mut r: &[u8] = &[0, 0, 0, 1];
    assert!(UnloadChunkResponse::deserialize(&mut r).is_err());
}
