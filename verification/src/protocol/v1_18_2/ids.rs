//! The id under which each packet is written and read, in its state and
//! direction.
use crate::protocol::de::MD;
use crate::protocol::varint::varint_bytes;
use crate::protocol::v1_18_2::{
    play, handshaking, login, status, spec_de_packets, spec_packet_handshaking_c2s, spec_packet_login_c2s,
    spec_packet_login_s2c, spec_packet_play_c2s, spec_packet_play_s2c, spec_packet_status_c2s,
    spec_packet_status_s2c, PacketView,
};
use crate::protocol::{ConnectionState, PacketDirection};
use vstd::prelude::*;

verus! {

/// These packets of the handshaking state sent by the client are read under, and written
/// behind, the ids the protocol gives them: `SetProtocolRequest` 0x0, `LegacyServerListPingRequest` 0xfe.
#[verifier::spinoff_prover]
pub proof fn lemma_handshaking_c2s_ids(s: Seq<u8>)
    ensures
        <handshaking::SetProtocolRequest<'static> as MD<'static>>::spec_header() == varint_bytes(0x0),
        spec_de_packets(ConnectionState::Handshaking, PacketDirection::C2S, 0x0, s) == (match <handshaking::SetProtocolRequest<'static> as MD<'static>>::spec_deserialize(s) {
            Some((v, rest)) => Some((PacketView::SetProtocolRequest(v), rest)),
            None => None,
        }),
        <handshaking::LegacyServerListPingRequest as MD<'static>>::spec_header() == varint_bytes(0xfe),
        spec_de_packets(ConnectionState::Handshaking, PacketDirection::C2S, 0xfe, s) == (match <handshaking::LegacyServerListPingRequest as MD<'static>>::spec_deserialize(s) {
            Some((v, rest)) => Some((PacketView::LegacyServerListPingRequest(v), rest)),
            None => None,
        }),
{
    reveal(spec_packet_handshaking_c2s);
}

/// These packets of the status state sent by the client are read under, and written
/// behind, the ids the protocol gives them: `PingStartRequest` 0x0, `PingRequest` 0x1.
#[verifier::spinoff_prover]
pub proof fn lemma_status_c2s_ids(s: Seq<u8>)
    ensures
        <status::PingStartRequest as MD<'static>>::spec_header() == varint_bytes(0x0),
        spec_de_packets(ConnectionState::Status, PacketDirection::C2S, 0x0, s) == (match <status::PingStartRequest as MD<'static>>::spec_deserialize(s) {
            Some((v, rest)) => Some((PacketView::PingStartRequest(v), rest)),
            None => None,
        }),
        <status::PingRequest as MD<'static>>::spec_header() == varint_bytes(0x1),
        spec_de_packets(ConnectionState::Status, PacketDirection::C2S, 0x1, s) == (match <status::PingRequest as MD<'static>>::spec_deserialize(s) {
            Some((v, rest)) => Some((PacketView::PingRequest(v), rest)),
            None => None,
        }),
{
    reveal(spec_packet_status_c2s);
}

/// These packets of the status state sent by the server are read under, and written
/// behind, the ids the protocol gives them: `ServerInfoResponse` 0x0, `PingResponse` 0x1.
#[verifier::spinoff_prover]
pub proof fn lemma_status_s2c_ids(s: Seq<u8>)
    ensures
        <status::ServerInfoResponse<'static> as MD<'static>>::spec_header() == varint_bytes(0x0),
        spec_de_packets(ConnectionState::Status, PacketDirection::S2C, 0x0, s) == (match <status::ServerInfoResponse<'static> as MD<'static>>::spec_deserialize(s) {
            Some((v, rest)) => Some((PacketView::ServerInfoResponse(v), rest)),
            None => None,
        }),
        <status::PingResponse as MD<'static>>::spec_header() == varint_bytes(0x1),
        spec_de_packets(ConnectionState::Status, PacketDirection::S2C, 0x1, s) == (match <status::PingResponse as MD<'static>>::spec_deserialize(s) {
            Some((v, rest)) => Some((PacketView::PingResponse(v), rest)),
            None => None,
        }),
{
    reveal(spec_packet_status_s2c);
}

/// These packets of the login state sent by the client are read under, and written
/// behind, the ids the protocol gives them: `LoginStartRequest` 0x0, `EncryptionBeginRequest` 0x1, `LoginPluginResponse` 0x2.
#[verifier::spinoff_prover]
pub proof fn lemma_login_c2s_ids(s: Seq<u8>)
    ensures
        <login::LoginStartRequest<'static> as MD<'static>>::spec_header() == varint_bytes(0x0),
        spec_de_packets(ConnectionState::Login, PacketDirection::C2S, 0x0, s) == (match <login::LoginStartRequest<'static> as MD<'static>>::spec_deserialize(s) {
            Some((v, rest)) => Some((PacketView::LoginStartRequest(v), rest)),
            None => None,
        }),
        <login::EncryptionBeginRequest<'static> as MD<'static>>::spec_header() == varint_bytes(0x1),
        spec_de_packets(ConnectionState::Login, PacketDirection::C2S, 0x1, s) == (match <login::EncryptionBeginRequest<'static> as MD<'static>>::spec_deserialize(s) {
            Some((v, rest)) => Some((PacketView::EncryptionBeginRequest(v), rest)),
            None => None,
        }),
        <login::LoginPluginResponse<'static> as MD<'static>>::spec_header() == varint_bytes(0x2),
        spec_de_packets(ConnectionState::Login, PacketDirection::C2S, 0x2, s) == (match <login::LoginPluginResponse<'static> as MD<'static>>::spec_deserialize(s) {
            Some((v, rest)) => Some((PacketView::LoginPluginResponse(v), rest)),
            None => None,
        }),
{
    reveal(spec_packet_login_c2s);
}

/// These packets of the login state sent by the server are read under, and written
/// behind, the ids the protocol gives them: `DisconnectResponse` 0x0, `EncryptionBeginResponse` 0x1, `SuccessResponse` 0x2, `CompressResponse` 0x3, `LoginPluginRequest` 0x4.
#[verifier::spinoff_prover]
pub proof fn lemma_login_s2c_ids(s: Seq<u8>)
    ensures
        <login::DisconnectResponse<'static> as MD<'static>>::spec_header() == varint_bytes(0x0),
        spec_de_packets(ConnectionState::Login, PacketDirection::S2C, 0x0, s) == (match <login::DisconnectResponse<'static> as MD<'static>>::spec_deserialize(s) {
            Some((v, rest)) => Some((PacketView::DisconnectResponse(v), rest)),
            None => None,
        }),
        <login::EncryptionBeginResponse<'static> as MD<'static>>::spec_header() == varint_bytes(0x1),
        spec_de_packets(ConnectionState::Login, PacketDirection::S2C, 0x1, s) == (match <login::EncryptionBeginResponse<'static> as MD<'static>>::spec_deserialize(s) {
            Some((v, rest)) => Some((PacketView::EncryptionBeginResponse(v), rest)),
            None => None,
        }),
        <login::SuccessResponse<'static> as MD<'static>>::spec_header() == varint_bytes(0x2),
        spec_de_packets(ConnectionState::Login, PacketDirection::S2C, 0x2, s) == (match <login::SuccessResponse<'static> as MD<'static>>::spec_deserialize(s) {
            Some((v, rest)) => Some((PacketView::SuccessResponse(v), rest)),
            None => None,
        }),
        <login::CompressResponse as MD<'static>>::spec_header() == varint_bytes(0x3),
        spec_de_packets(ConnectionState::Login, PacketDirection::S2C, 0x3, s) == (match <login::CompressResponse as MD<'static>>::spec_deserialize(s) {
            Some((v, rest)) => Some((PacketView::CompressResponse(v), rest)),
            None => None,
        }),
        <login::LoginPluginRequest<'static> as MD<'static>>::spec_header() == varint_bytes(0x4),
        spec_de_packets(ConnectionState::Login, PacketDirection::S2C, 0x4, s) == (match <login::LoginPluginRequest<'static> as MD<'static>>::spec_deserialize(s) {
            Some((v, rest)) => Some((PacketView::LoginPluginRequest(v), rest)),
            None => None,
        }),
{
    reveal(spec_packet_login_s2c);
}

/// These packets of the play state sent by the client are read under, and written
/// behind, the ids the protocol gives them: `TeleportConfirmRequest` 0x0, `QueryBlockNbtRequest` 0x1, `SetDifficultyRequest` 0x2, `ChatRequest` 0x3, `ClientCommandRequest` 0x4, `SettingsRequest` 0x5.
#[verifier::spinoff_prover]
pub proof fn lemma_play_c2s_ids_1(s: Seq<u8>)
    ensures
        <play::TeleportConfirmRequest as MD<'static>>::spec_header() == varint_bytes(0x0),
        spec_de_packets(ConnectionState::Play, PacketDirection::C2S, 0x0, s) == (match <play::TeleportConfirmRequest as MD<'static>>::spec_deserialize(s) {
            Some((v, rest)) => Some((PacketView::TeleportConfirmRequest(v), rest)),
            None => None,
        }),
        <play::QueryBlockNbtRequest as MD<'static>>::spec_header() == varint_bytes(0x1),
        spec_de_packets(ConnectionState::Play, PacketDirection::C2S, 0x1, s) == (match <play::QueryBlockNbtRequest as MD<'static>>::spec_deserialize(s) {
            Some((v, rest)) => Some((PacketView::QueryBlockNbtRequest(v), rest)),
            None => None,
        }),
        <play::SetDifficultyRequest as MD<'static>>::spec_header() == varint_bytes(0x2),
        spec_de_packets(ConnectionState::Play, PacketDirection::C2S, 0x2, s) == (match <play::SetDifficultyRequest as MD<'static>>::spec_deserialize(s) {
            Some((v, rest)) => Some((PacketView::SetDifficultyRequest(v), rest)),
            None => None,
        }),
        <play::ChatRequest<'static> as MD<'static>>::spec_header() == varint_bytes(0x3),
        spec_de_packets(ConnectionState::Play, PacketDirection::C2S, 0x3, s) == (match <play::ChatRequest<'static> as MD<'static>>::spec_deserialize(s) {
            Some((v, rest)) => Some((PacketView::ChatRequest(v), rest)),
            None => None,
        }),
        <play::ClientCommandRequest as MD<'static>>::spec_header() == varint_bytes(0x4),
        spec_de_packets(ConnectionState::Play, PacketDirection::C2S, 0x4, s) == (match <play::ClientCommandRequest as MD<'static>>::spec_deserialize(s) {
            Some((v, rest)) => Some((PacketView::ClientCommandRequest(v), rest)),
            None => None,
        }),
        <play::SettingsRequest<'static> as MD<'static>>::spec_header() == varint_bytes(0x5),
        spec_de_packets(ConnectionState::Play, PacketDirection::C2S, 0x5, s) == (match <play::SettingsRequest<'static> as MD<'static>>::spec_deserialize(s) {
            Some((v, rest)) => Some((PacketView::SettingsRequest(v), rest)),
            None => None,
        }),
{
    reveal(spec_packet_play_c2s);
}

/// These packets of the play state sent by the client are read under, and written
/// behind, the ids the protocol gives them: `TabCompleteRequest` 0x6, `EnchantItemRequest` 0x7, `WindowClickRequest` 0x8, `CloseWindowRequest` 0x9, `CustomPayloadRequest` 0xa, `EditBookRequest` 0xb.
#[verifier::spinoff_prover]
pub proof fn lemma_play_c2s_ids_2(s: Seq<u8>)
    ensures
        <play::TabCompleteRequest<'static> as MD<'static>>::spec_header() == varint_bytes(0x6),
        spec_de_packets(ConnectionState::Play, PacketDirection::C2S, 0x6, s) == (match <play::TabCompleteRequest<'static> as MD<'static>>::spec_deserialize(s) {
            Some((v, rest)) => Some((PacketView::TabCompleteRequest(v), rest)),
            None => None,
        }),
        <play::EnchantItemRequest as MD<'static>>::spec_header() == varint_bytes(0x7),
        spec_de_packets(ConnectionState::Play, PacketDirection::C2S, 0x7, s) == (match <play::EnchantItemRequest as MD<'static>>::spec_deserialize(s) {
            Some((v, rest)) => Some((PacketView::EnchantItemRequest(v), rest)),
            None => None,
        }),
        spec_de_packets(ConnectionState::Play, PacketDirection::C2S, 0x8, s) == (match <play::WindowClickRequest<'static> as MD<'static>>::spec_deserialize(s) {
            Some((v, rest)) => Some((PacketView::WindowClickRequest(v), rest)),
            None => None,
        }),
        <play::CloseWindowRequest as MD<'static>>::spec_header() == varint_bytes(0x9),
        spec_de_packets(ConnectionState::Play, PacketDirection::C2S, 0x9, s) == (match <play::CloseWindowRequest as MD<'static>>::spec_deserialize(s) {
            Some((v, rest)) => Some((PacketView::CloseWindowRequest(v), rest)),
            None => None,
        }),
        <play::CustomPayloadRequest<'static> as MD<'static>>::spec_header() == varint_bytes(0xa),
        spec_de_packets(ConnectionState::Play, PacketDirection::C2S, 0xa, s) == (match <play::CustomPayloadRequest<'static> as MD<'static>>::spec_deserialize(s) {
            Some((v, rest)) => Some((PacketView::CustomPayloadRequest(v), rest)),
            None => None,
        }),
        spec_de_packets(ConnectionState::Play, PacketDirection::C2S, 0xb, s) == (match <play::EditBookRequest<'static> as MD<'static>>::spec_deserialize(s) {
            Some((v, rest)) => Some((PacketView::EditBookRequest(v), rest)),
            None => None,
        }),
{
    reveal(spec_packet_play_c2s);
}

/// These packets of the play state sent by the client are read under, and written
/// behind, the ids the protocol gives them: `QueryEntityNbtRequest` 0xc, `UseEntityRequest` 0xd, `GenerateStructureRequest` 0xe, `KeepAliveRequest` 0xf, `LockDifficultyRequest` 0x10, `PositionRequest` 0x11.
#[verifier::spinoff_prover]
pub proof fn lemma_play_c2s_ids_3(s: Seq<u8>)
    ensures
        <play::QueryEntityNbtRequest as MD<'static>>::spec_header() == varint_bytes(0xc),
        spec_de_packets(ConnectionState::Play, PacketDirection::C2S, 0xc, s) == (match <play::QueryEntityNbtRequest as MD<'static>>::spec_deserialize(s) {
            Some((v, rest)) => Some((PacketView::QueryEntityNbtRequest(v), rest)),
            None => None,
        }),
        spec_de_packets(ConnectionState::Play, PacketDirection::C2S, 0xd, s) == (match <play::UseEntityRequest as MD<'static>>::spec_deserialize(s) {
            Some((v, rest)) => Some((PacketView::UseEntityRequest(v), rest)),
            None => None,
        }),
        <play::GenerateStructureRequest as MD<'static>>::spec_header() == varint_bytes(0xe),
        spec_de_packets(ConnectionState::Play, PacketDirection::C2S, 0xe, s) == (match <play::GenerateStructureRequest as MD<'static>>::spec_deserialize(s) {
            Some((v, rest)) => Some((PacketView::GenerateStructureRequest(v), rest)),
            None => None,
        }),
        <play::KeepAliveRequest as MD<'static>>::spec_header() == varint_bytes(0xf),
        spec_de_packets(ConnectionState::Play, PacketDirection::C2S, 0xf, s) == (match <play::KeepAliveRequest as MD<'static>>::spec_deserialize(s) {
            Some((v, rest)) => Some((PacketView::KeepAliveRequest(v), rest)),
            None => None,
        }),
        <play::LockDifficultyRequest as MD<'static>>::spec_header() == varint_bytes(0x10),
        spec_de_packets(ConnectionState::Play, PacketDirection::C2S, 0x10, s) == (match <play::LockDifficultyRequest as MD<'static>>::spec_deserialize(s) {
            Some((v, rest)) => Some((PacketView::LockDifficultyRequest(v), rest)),
            None => None,
        }),
        <play::PositionRequest as MD<'static>>::spec_header() == varint_bytes(0x11),
        spec_de_packets(ConnectionState::Play, PacketDirection::C2S, 0x11, s) == (match <play::PositionRequest as MD<'static>>::spec_deserialize(s) {
            Some((v, rest)) => Some((PacketView::PositionRequest(v), rest)),
            None => None,
        }),
{
    reveal(spec_packet_play_c2s);
}

/// These packets of the play state sent by the client are read under, and written
/// behind, the ids the protocol gives them: `PositionLookRequest` 0x12, `LookRequest` 0x13, `FlyingRequest` 0x14, `VehicleMoveRequest` 0x15, `SteerBoatRequest` 0x16, `PickItemRequest` 0x17.
#[verifier::spinoff_prover]
pub proof fn lemma_play_c2s_ids_4(s: Seq<u8>)
    ensures
        <play::PositionLookRequest as MD<'static>>::spec_header() == varint_bytes(0x12),
        spec_de_packets(ConnectionState::Play, PacketDirection::C2S, 0x12, s) == (match <play::PositionLookRequest as MD<'static>>::spec_deserialize(s) {
            Some((v, rest)) => Some((PacketView::PositionLookRequest(v), rest)),
            None => None,
        }),
        <play::LookRequest as MD<'static>>::spec_header() == varint_bytes(0x13),
        spec_de_packets(ConnectionState::Play, PacketDirection::C2S, 0x13, s) == (match <play::LookRequest as MD<'static>>::spec_deserialize(s) {
            Some((v, rest)) => Some((PacketView::LookRequest(v), rest)),
            None => None,
        }),
        <play::FlyingRequest as MD<'static>>::spec_header() == varint_bytes(0x14),
        spec_de_packets(ConnectionState::Play, PacketDirection::C2S, 0x14, s) == (match <play::FlyingRequest as MD<'static>>::spec_deserialize(s) {
            Some((v, rest)) => Some((PacketView::FlyingRequest(v), rest)),
            None => None,
        }),
        <play::VehicleMoveRequest as MD<'static>>::spec_header() == varint_bytes(0x15),
        spec_de_packets(ConnectionState::Play, PacketDirection::C2S, 0x15, s) == (match <play::VehicleMoveRequest as MD<'static>>::spec_deserialize(s) {
            Some((v, rest)) => Some((PacketView::VehicleMoveRequest(v), rest)),
            None => None,
        }),
        <play::SteerBoatRequest as MD<'static>>::spec_header() == varint_bytes(0x16),
        spec_de_packets(ConnectionState::Play, PacketDirection::C2S, 0x16, s) == (match <play::SteerBoatRequest as MD<'static>>::spec_deserialize(s) {
            Some((v, rest)) => Some((PacketView::SteerBoatRequest(v), rest)),
            None => None,
        }),
        <play::PickItemRequest as MD<'static>>::spec_header() == varint_bytes(0x17),
        spec_de_packets(ConnectionState::Play, PacketDirection::C2S, 0x17, s) == (match <play::PickItemRequest as MD<'static>>::spec_deserialize(s) {
            Some((v, rest)) => Some((PacketView::PickItemRequest(v), rest)),
            None => None,
        }),
{
    reveal(spec_packet_play_c2s);
}

/// These packets of the play state sent by the client are read under, and written
/// behind, the ids the protocol gives them: `CraftRecipeRequest` 0x18, `AbilitiesRequest` 0x19, `BlockDigRequest` 0x1a, `EntityActionRequest` 0x1b, `SteerVehicleRequest` 0x1c, `PongRequest` 0x1d.
#[verifier::spinoff_prover]
pub proof fn lemma_play_c2s_ids_5(s: Seq<u8>)
    ensures
        <play::CraftRecipeRequest<'static> as MD<'static>>::spec_header() == varint_bytes(0x18),
        spec_de_packets(ConnectionState::Play, PacketDirection::C2S, 0x18, s) == (match <play::CraftRecipeRequest<'static> as MD<'static>>::spec_deserialize(s) {
            Some((v, rest)) => Some((PacketView::CraftRecipeRequest(v), rest)),
            None => None,
        }),
        <play::AbilitiesRequest as MD<'static>>::spec_header() == varint_bytes(0x19),
        spec_de_packets(ConnectionState::Play, PacketDirection::C2S, 0x19, s) == (match <play::AbilitiesRequest as MD<'static>>::spec_deserialize(s) {
            Some((v, rest)) => Some((PacketView::AbilitiesRequest(v), rest)),
            None => None,
        }),
        <play::BlockDigRequest as MD<'static>>::spec_header() == varint_bytes(0x1a),
        spec_de_packets(ConnectionState::Play, PacketDirection::C2S, 0x1a, s) == (match <play::BlockDigRequest as MD<'static>>::spec_deserialize(s) {
            Some((v, rest)) => Some((PacketView::BlockDigRequest(v), rest)),
            None => None,
        }),
        <play::EntityActionRequest as MD<'static>>::spec_header() == varint_bytes(0x1b),
        spec_de_packets(ConnectionState::Play, PacketDirection::C2S, 0x1b, s) == (match <play::EntityActionRequest as MD<'static>>::spec_deserialize(s) {
            Some((v, rest)) => Some((PacketView::EntityActionRequest(v), rest)),
            None => None,
        }),
        <play::SteerVehicleRequest as MD<'static>>::spec_header() == varint_bytes(0x1c),
        spec_de_packets(ConnectionState::Play, PacketDirection::C2S, 0x1c, s) == (match <play::SteerVehicleRequest as MD<'static>>::spec_deserialize(s) {
            Some((v, rest)) => Some((PacketView::SteerVehicleRequest(v), rest)),
            None => None,
        }),
        <play::PongRequest as MD<'static>>::spec_header() == varint_bytes(0x1d),
        spec_de_packets(ConnectionState::Play, PacketDirection::C2S, 0x1d, s) == (match <play::PongRequest as MD<'static>>::spec_deserialize(s) {
            Some((v, rest)) => Some((PacketView::PongRequest(v), rest)),
            None => None,
        }),
{
    reveal(spec_packet_play_c2s);
}

/// These packets of the play state sent by the client are read under, and written
/// behind, the ids the protocol gives them: `RecipeBookRequest` 0x1e, `DisplayedRecipeRequest` 0x1f, `NameItemRequest` 0x20, `ResourcePackReceiveRequest` 0x21, `AdvancementTabRequest` 0x22, `SelectTradeRequest` 0x23.
#[verifier::spinoff_prover]
pub proof fn lemma_play_c2s_ids_6(s: Seq<u8>)
    ensures
        <play::RecipeBookRequest as MD<'static>>::spec_header() == varint_bytes(0x1e),
        spec_de_packets(ConnectionState::Play, PacketDirection::C2S, 0x1e, s) == (match <play::RecipeBookRequest as MD<'static>>::spec_deserialize(s) {
            Some((v, rest)) => Some((PacketView::RecipeBookRequest(v), rest)),
            None => None,
        }),
        <play::DisplayedRecipeRequest<'static> as MD<'static>>::spec_header() == varint_bytes(0x1f),
        spec_de_packets(ConnectionState::Play, PacketDirection::C2S, 0x1f, s) == (match <play::DisplayedRecipeRequest<'static> as MD<'static>>::spec_deserialize(s) {
            Some((v, rest)) => Some((PacketView::DisplayedRecipeRequest(v), rest)),
            None => None,
        }),
        <play::NameItemRequest<'static> as MD<'static>>::spec_header() == varint_bytes(0x20),
        spec_de_packets(ConnectionState::Play, PacketDirection::C2S, 0x20, s) == (match <play::NameItemRequest<'static> as MD<'static>>::spec_deserialize(s) {
            Some((v, rest)) => Some((PacketView::NameItemRequest(v), rest)),
            None => None,
        }),
        <play::ResourcePackReceiveRequest as MD<'static>>::spec_header() == varint_bytes(0x21),
        spec_de_packets(ConnectionState::Play, PacketDirection::C2S, 0x21, s) == (match <play::ResourcePackReceiveRequest as MD<'static>>::spec_deserialize(s) {
            Some((v, rest)) => Some((PacketView::ResourcePackReceiveRequest(v), rest)),
            None => None,
        }),
        <play::AdvancementTabRequest as MD<'static>>::spec_header() == varint_bytes(0x22),
        spec_de_packets(ConnectionState::Play, PacketDirection::C2S, 0x22, s) == (match <play::AdvancementTabRequest as MD<'static>>::spec_deserialize(s) {
            Some((v, rest)) => Some((PacketView::AdvancementTabRequest(v), rest)),
            None => None,
        }),
        <play::SelectTradeRequest as MD<'static>>::spec_header() == varint_bytes(0x23),
        spec_de_packets(ConnectionState::Play, PacketDirection::C2S, 0x23, s) == (match <play::SelectTradeRequest as MD<'static>>::spec_deserialize(s) {
            Some((v, rest)) => Some((PacketView::SelectTradeRequest(v), rest)),
            None => None,
        }),
{
    reveal(spec_packet_play_c2s);
}

/// These packets of the play state sent by the client are read under, and written
/// behind, the ids the protocol gives them: `SetBeaconEffectRequest` 0x24, `HeldItemSlotRequest` 0x25, `UpdateCommandBlockRequest` 0x26, `UpdateCommandBlockMinecartRequest` 0x27, `SetCreativeSlotRequest` 0x28, `UpdateJigsawBlockRequest` 0x29.
#[verifier::spinoff_prover]
pub proof fn lemma_play_c2s_ids_7(s: Seq<u8>)
    ensures
        <play::SetBeaconEffectRequest as MD<'static>>::spec_header() == varint_bytes(0x24),
        spec_de_packets(ConnectionState::Play, PacketDirection::C2S, 0x24, s) == (match <play::SetBeaconEffectRequest as MD<'static>>::spec_deserialize(s) {
            Some((v, rest)) => Some((PacketView::SetBeaconEffectRequest(v), rest)),
            None => None,
        }),
        <play::HeldItemSlotRequest as MD<'static>>::spec_header() == varint_bytes(0x25),
        spec_de_packets(ConnectionState::Play, PacketDirection::C2S, 0x25, s) == (match <play::HeldItemSlotRequest as MD<'static>>::spec_deserialize(s) {
            Some((v, rest)) => Some((PacketView::HeldItemSlotRequest(v), rest)),
            None => None,
        }),
        <play::UpdateCommandBlockRequest<'static> as MD<'static>>::spec_header() == varint_bytes(0x26),
        spec_de_packets(ConnectionState::Play, PacketDirection::C2S, 0x26, s) == (match <play::UpdateCommandBlockRequest<'static> as MD<'static>>::spec_deserialize(s) {
            Some((v, rest)) => Some((PacketView::UpdateCommandBlockRequest(v), rest)),
            None => None,
        }),
        <play::UpdateCommandBlockMinecartRequest<'static> as MD<'static>>::spec_header() == varint_bytes(0x27),
        spec_de_packets(ConnectionState::Play, PacketDirection::C2S, 0x27, s) == (match <play::UpdateCommandBlockMinecartRequest<'static> as MD<'static>>::spec_deserialize(s) {
            Some((v, rest)) => Some((PacketView::UpdateCommandBlockMinecartRequest(v), rest)),
            None => None,
        }),
        <play::SetCreativeSlotRequest<'static> as MD<'static>>::spec_header() == varint_bytes(0x28),
        spec_de_packets(ConnectionState::Play, PacketDirection::C2S, 0x28, s) == (match <play::SetCreativeSlotRequest<'static> as MD<'static>>::spec_deserialize(s) {
            Some((v, rest)) => Some((PacketView::SetCreativeSlotRequest(v), rest)),
            None => None,
        }),
        <play::UpdateJigsawBlockRequest<'static> as MD<'static>>::spec_header() == varint_bytes(0x29),
        spec_de_packets(ConnectionState::Play, PacketDirection::C2S, 0x29, s) == (match <play::UpdateJigsawBlockRequest<'static> as MD<'static>>::spec_deserialize(s) {
            Some((v, rest)) => Some((PacketView::UpdateJigsawBlockRequest(v), rest)),
            None => None,
        }),
{
    reveal(spec_packet_play_c2s);
}

/// These packets of the play state sent by the client are read under, and written
/// behind, the ids the protocol gives them: `UpdateStructureBlockRequest` 0x2a, `UpdateSignRequest` 0x2b, `ArmAnimationRequest` 0x2c, `SpectateRequest` 0x2d, `BlockPlaceRequest` 0x2e, `UseItemRequest` 0x2f.
#[verifier::spinoff_prover]
pub proof fn lemma_play_c2s_ids_8(s: Seq<u8>)
    ensures
        <play::UpdateStructureBlockRequest<'static> as MD<'static>>::spec_header() == varint_bytes(0x2a),
        spec_de_packets(ConnectionState::Play, PacketDirection::C2S, 0x2a, s) == (match <play::UpdateStructureBlockRequest<'static> as MD<'static>>::spec_deserialize(s) {
            Some((v, rest)) => Some((PacketView::UpdateStructureBlockRequest(v), rest)),
            None => None,
        }),
        <play::UpdateSignRequest<'static> as MD<'static>>::spec_header() == varint_bytes(0x2b),
        spec_de_packets(ConnectionState::Play, PacketDirection::C2S, 0x2b, s) == (match <play::UpdateSignRequest<'static> as MD<'static>>::spec_deserialize(s) {
            Some((v, rest)) => Some((PacketView::UpdateSignRequest(v), rest)),
            None => None,
        }),
        <play::ArmAnimationRequest as MD<'static>>::spec_header() == varint_bytes(0x2c),
        spec_de_packets(ConnectionState::Play, PacketDirection::C2S, 0x2c, s) == (match <play::ArmAnimationRequest as MD<'static>>::spec_deserialize(s) {
            Some((v, rest)) => Some((PacketView::ArmAnimationRequest(v), rest)),
            None => None,
        }),
        <play::SpectateRequest as MD<'static>>::spec_header() == varint_bytes(0x2d),
        spec_de_packets(ConnectionState::Play, PacketDirection::C2S, 0x2d, s) == (match <play::SpectateRequest as MD<'static>>::spec_deserialize(s) {
            Some((v, rest)) => Some((PacketView::SpectateRequest(v), rest)),
            None => None,
        }),
        <play::BlockPlaceRequest as MD<'static>>::spec_header() == varint_bytes(0x2e),
        spec_de_packets(ConnectionState::Play, PacketDirection::C2S, 0x2e, s) == (match <play::BlockPlaceRequest as MD<'static>>::spec_deserialize(s) {
            Some((v, rest)) => Some((PacketView::BlockPlaceRequest(v), rest)),
            None => None,
        }),
        <play::UseItemRequest as MD<'static>>::spec_header() == varint_bytes(0x2f),
        spec_de_packets(ConnectionState::Play, PacketDirection::C2S, 0x2f, s) == (match <play::UseItemRequest as MD<'static>>::spec_deserialize(s) {
            Some((v, rest)) => Some((PacketView::UseItemRequest(v), rest)),
            None => None,
        }),
{
    reveal(spec_packet_play_c2s);
}

/// These packets of the play state sent by the server are read under, and written
/// behind, the ids the protocol gives them: `SpawnEntityResponse` 0x0, `SpawnEntityExperienceOrbResponse` 0x1, `SpawnEntityLivingResponse` 0x2, `SpawnEntityPaintingResponse` 0x3, `NamedEntitySpawnResponse` 0x4, `SculkVibrationSignalResponse` 0x5.
#[verifier::spinoff_prover]
pub proof fn lemma_play_s2c_ids_1(s: Seq<u8>)
    ensures
        <play::SpawnEntityResponse as MD<'static>>::spec_header() == varint_bytes(0x0),
        spec_de_packets(ConnectionState::Play, PacketDirection::S2C, 0x0, s) == (match <play::SpawnEntityResponse as MD<'static>>::spec_deserialize(s) {
            Some((v, rest)) => Some((PacketView::SpawnEntityResponse(v), rest)),
            None => None,
        }),
        <play::SpawnEntityExperienceOrbResponse as MD<'static>>::spec_header() == varint_bytes(0x1),
        spec_de_packets(ConnectionState::Play, PacketDirection::S2C, 0x1, s) == (match <play::SpawnEntityExperienceOrbResponse as MD<'static>>::spec_deserialize(s) {
            Some((v, rest)) => Some((PacketView::SpawnEntityExperienceOrbResponse(v), rest)),
            None => None,
        }),
        <play::SpawnEntityLivingResponse as MD<'static>>::spec_header() == varint_bytes(0x2),
        spec_de_packets(ConnectionState::Play, PacketDirection::S2C, 0x2, s) == (match <play::SpawnEntityLivingResponse as MD<'static>>::spec_deserialize(s) {
            Some((v, rest)) => Some((PacketView::SpawnEntityLivingResponse(v), rest)),
            None => None,
        }),
        <play::SpawnEntityPaintingResponse as MD<'static>>::spec_header() == varint_bytes(0x3),
        spec_de_packets(ConnectionState::Play, PacketDirection::S2C, 0x3, s) == (match <play::SpawnEntityPaintingResponse as MD<'static>>::spec_deserialize(s) {
            Some((v, rest)) => Some((PacketView::SpawnEntityPaintingResponse(v), rest)),
            None => None,
        }),
        <play::NamedEntitySpawnResponse as MD<'static>>::spec_header() == varint_bytes(0x4),
        spec_de_packets(ConnectionState::Play, PacketDirection::S2C, 0x4, s) == (match <play::NamedEntitySpawnResponse as MD<'static>>::spec_deserialize(s) {
            Some((v, rest)) => Some((PacketView::NamedEntitySpawnResponse(v), rest)),
            None => None,
        }),
        <play::SculkVibrationSignalResponse as MD<'static>>::spec_header() == varint_bytes(0x5),
        spec_de_packets(ConnectionState::Play, PacketDirection::S2C, 0x5, s) == (match <play::SculkVibrationSignalResponse as MD<'static>>::spec_deserialize(s) {
            Some((v, rest)) => Some((PacketView::SculkVibrationSignalResponse(v), rest)),
            None => None,
        }),
{
    reveal(spec_packet_play_s2c);
}

/// These packets of the play state sent by the server are read under, and written
/// behind, the ids the protocol gives them: `AnimationResponse` 0x6, `StatisticsResponse` 0x7, `AcknowledgePlayerDiggingResponse` 0x8, `BlockBreakAnimationResponse` 0x9, `TileEntityDataResponse` 0xa, `BlockActionResponse` 0xb.
#[verifier::spinoff_prover]
pub proof fn lemma_play_s2c_ids_2(s: Seq<u8>)
    ensures
        <play::AnimationResponse as MD<'static>>::spec_header() == varint_bytes(0x6),
        spec_de_packets(ConnectionState::Play, PacketDirection::S2C, 0x6, s) == (match <play::AnimationResponse as MD<'static>>::spec_deserialize(s) {
            Some((v, rest)) => Some((PacketView::AnimationResponse(v), rest)),
            None => None,
        }),
        spec_de_packets(ConnectionState::Play, PacketDirection::S2C, 0x7, s) == (match <play::StatisticsResponse as MD<'static>>::spec_deserialize(s) {
            Some((v, rest)) => Some((PacketView::StatisticsResponse(v), rest)),
            None => None,
        }),
        <play::AcknowledgePlayerDiggingResponse as MD<'static>>::spec_header() == varint_bytes(0x8),
        spec_de_packets(ConnectionState::Play, PacketDirection::S2C, 0x8, s) == (match <play::AcknowledgePlayerDiggingResponse as MD<'static>>::spec_deserialize(s) {
            Some((v, rest)) => Some((PacketView::AcknowledgePlayerDiggingResponse(v), rest)),
            None => None,
        }),
        <play::BlockBreakAnimationResponse as MD<'static>>::spec_header() == varint_bytes(0x9),
        spec_de_packets(ConnectionState::Play, PacketDirection::S2C, 0x9, s) == (match <play::BlockBreakAnimationResponse as MD<'static>>::spec_deserialize(s) {
            Some((v, rest)) => Some((PacketView::BlockBreakAnimationResponse(v), rest)),
            None => None,
        }),
        <play::TileEntityDataResponse<'static> as MD<'static>>::spec_header() == varint_bytes(0xa),
        spec_de_packets(ConnectionState::Play, PacketDirection::S2C, 0xa, s) == (match <play::TileEntityDataResponse<'static> as MD<'static>>::spec_deserialize(s) {
            Some((v, rest)) => Some((PacketView::TileEntityDataResponse(v), rest)),
            None => None,
        }),
        <play::BlockActionResponse as MD<'static>>::spec_header() == varint_bytes(0xb),
        spec_de_packets(ConnectionState::Play, PacketDirection::S2C, 0xb, s) == (match <play::BlockActionResponse as MD<'static>>::spec_deserialize(s) {
            Some((v, rest)) => Some((PacketView::BlockActionResponse(v), rest)),
            None => None,
        }),
{
    reveal(spec_packet_play_s2c);
}

/// These packets of the play state sent by the server are read under, and written
/// behind, the ids the protocol gives them: `BlockChangeResponse` 0xc, `BossBarResponse` 0xd, `DifficultyResponse` 0xe, `ChatResponse` 0xf, `ClearTitlesResponse` 0x10, `TabCompleteResponse` 0x11.
#[verifier::spinoff_prover]
pub proof fn lemma_play_s2c_ids_3(s: Seq<u8>)
    ensures
        <play::BlockChangeResponse as MD<'static>>::spec_header() == varint_bytes(0xc),
        spec_de_packets(ConnectionState::Play, PacketDirection::S2C, 0xc, s) == (match <play::BlockChangeResponse as MD<'static>>::spec_deserialize(s) {
            Some((v, rest)) => Some((PacketView::BlockChangeResponse(v), rest)),
            None => None,
        }),
        <play::BossBarResponse as MD<'static>>::spec_header() == varint_bytes(0xd),
        spec_de_packets(ConnectionState::Play, PacketDirection::S2C, 0xd, s) == (match <play::BossBarResponse as MD<'static>>::spec_deserialize(s) {
            Some((v, rest)) => Some((PacketView::BossBarResponse(v), rest)),
            None => None,
        }),
        <play::DifficultyResponse as MD<'static>>::spec_header() == varint_bytes(0xe),
        spec_de_packets(ConnectionState::Play, PacketDirection::S2C, 0xe, s) == (match <play::DifficultyResponse as MD<'static>>::spec_deserialize(s) {
            Some((v, rest)) => Some((PacketView::DifficultyResponse(v), rest)),
            None => None,
        }),
        <play::ChatResponse<'static> as MD<'static>>::spec_header() == varint_bytes(0xf),
        spec_de_packets(ConnectionState::Play, PacketDirection::S2C, 0xf, s) == (match <play::ChatResponse<'static> as MD<'static>>::spec_deserialize(s) {
            Some((v, rest)) => Some((PacketView::ChatResponse(v), rest)),
            None => None,
        }),
        <play::ClearTitlesResponse as MD<'static>>::spec_header() == varint_bytes(0x10),
        spec_de_packets(ConnectionState::Play, PacketDirection::S2C, 0x10, s) == (match <play::ClearTitlesResponse as MD<'static>>::spec_deserialize(s) {
            Some((v, rest)) => Some((PacketView::ClearTitlesResponse(v), rest)),
            None => None,
        }),
        spec_de_packets(ConnectionState::Play, PacketDirection::S2C, 0x11, s) == (match <play::TabCompleteResponse<'static> as MD<'static>>::spec_deserialize(s) {
            Some((v, rest)) => Some((PacketView::TabCompleteResponse(v), rest)),
            None => None,
        }),
{
    reveal(spec_packet_play_s2c);
}

/// These packets of the play state sent by the server are read under, and written
/// behind, the ids the protocol gives them: `DeclareCommandsResponse` 0x12, `CloseWindowResponse` 0x13, `WindowItemsResponse` 0x14, `CraftProgressBarResponse` 0x15, `SetSlotResponse` 0x16, `SetCooldownResponse` 0x17.
#[verifier::spinoff_prover]
pub proof fn lemma_play_s2c_ids_4(s: Seq<u8>)
    ensures
        <play::DeclareCommandsResponse as MD<'static>>::spec_header() == varint_bytes(0x12),
        spec_de_packets(ConnectionState::Play, PacketDirection::S2C, 0x12, s) == (match <play::DeclareCommandsResponse as MD<'static>>::spec_deserialize(s) {
            Some((v, rest)) => Some((PacketView::DeclareCommandsResponse(v), rest)),
            None => None,
        }),
        <play::CloseWindowResponse as MD<'static>>::spec_header() == varint_bytes(0x13),
        spec_de_packets(ConnectionState::Play, PacketDirection::S2C, 0x13, s) == (match <play::CloseWindowResponse as MD<'static>>::spec_deserialize(s) {
            Some((v, rest)) => Some((PacketView::CloseWindowResponse(v), rest)),
            None => None,
        }),
        spec_de_packets(ConnectionState::Play, PacketDirection::S2C, 0x14, s) == (match <play::WindowItemsResponse<'static> as MD<'static>>::spec_deserialize(s) {
            Some((v, rest)) => Some((PacketView::WindowItemsResponse(v), rest)),
            None => None,
        }),
        <play::CraftProgressBarResponse as MD<'static>>::spec_header() == varint_bytes(0x15),
        spec_de_packets(ConnectionState::Play, PacketDirection::S2C, 0x15, s) == (match <play::CraftProgressBarResponse as MD<'static>>::spec_deserialize(s) {
            Some((v, rest)) => Some((PacketView::CraftProgressBarResponse(v), rest)),
            None => None,
        }),
        <play::SetSlotResponse<'static> as MD<'static>>::spec_header() == varint_bytes(0x16),
        spec_de_packets(ConnectionState::Play, PacketDirection::S2C, 0x16, s) == (match <play::SetSlotResponse<'static> as MD<'static>>::spec_deserialize(s) {
            Some((v, rest)) => Some((PacketView::SetSlotResponse(v), rest)),
            None => None,
        }),
        <play::SetCooldownResponse as MD<'static>>::spec_header() == varint_bytes(0x17),
        spec_de_packets(ConnectionState::Play, PacketDirection::S2C, 0x17, s) == (match <play::SetCooldownResponse as MD<'static>>::spec_deserialize(s) {
            Some((v, rest)) => Some((PacketView::SetCooldownResponse(v), rest)),
            None => None,
        }),
{
    reveal(spec_packet_play_s2c);
}

/// These packets of the play state sent by the server are read under, and written
/// behind, the ids the protocol gives them: `CustomPayloadResponse` 0x18, `NamedSoundEffectResponse` 0x19, `KickDisconnectResponse` 0x1a, `EntityStatusResponse` 0x1b, `ExplosionResponse` 0x1c, `UnloadChunkResponse` 0x1d.
#[verifier::spinoff_prover]
pub proof fn lemma_play_s2c_ids_5(s: Seq<u8>)
    ensures
        <play::CustomPayloadResponse<'static> as MD<'static>>::spec_header() == varint_bytes(0x18),
        spec_de_packets(ConnectionState::Play, PacketDirection::S2C, 0x18, s) == (match <play::CustomPayloadResponse<'static> as MD<'static>>::spec_deserialize(s) {
            Some((v, rest)) => Some((PacketView::CustomPayloadResponse(v), rest)),
            None => None,
        }),
        <play::NamedSoundEffectResponse<'static> as MD<'static>>::spec_header() == varint_bytes(0x19),
        spec_de_packets(ConnectionState::Play, PacketDirection::S2C, 0x19, s) == (match <play::NamedSoundEffectResponse<'static> as MD<'static>>::spec_deserialize(s) {
            Some((v, rest)) => Some((PacketView::NamedSoundEffectResponse(v), rest)),
            None => None,
        }),
        <play::KickDisconnectResponse<'static> as MD<'static>>::spec_header() == varint_bytes(0x1a),
        spec_de_packets(ConnectionState::Play, PacketDirection::S2C, 0x1a, s) == (match <play::KickDisconnectResponse<'static> as MD<'static>>::spec_deserialize(s) {
            Some((v, rest)) => Some((PacketView::KickDisconnectResponse(v), rest)),
            None => None,
        }),
        <play::EntityStatusResponse as MD<'static>>::spec_header() == varint_bytes(0x1b),
        spec_de_packets(ConnectionState::Play, PacketDirection::S2C, 0x1b, s) == (match <play::EntityStatusResponse as MD<'static>>::spec_deserialize(s) {
            Some((v, rest)) => Some((PacketView::EntityStatusResponse(v), rest)),
            None => None,
        }),
        spec_de_packets(ConnectionState::Play, PacketDirection::S2C, 0x1c, s) == (match <play::ExplosionResponse as MD<'static>>::spec_deserialize(s) {
            Some((v, rest)) => Some((PacketView::ExplosionResponse(v), rest)),
            None => None,
        }),
        <play::UnloadChunkResponse as MD<'static>>::spec_header() == varint_bytes(0x1d),
        spec_de_packets(ConnectionState::Play, PacketDirection::S2C, 0x1d, s) == (match <play::UnloadChunkResponse as MD<'static>>::spec_deserialize(s) {
            Some((v, rest)) => Some((PacketView::UnloadChunkResponse(v), rest)),
            None => None,
        }),
{
    reveal(spec_packet_play_s2c);
}

/// These packets of the play state sent by the server are read under, and written
/// behind, the ids the protocol gives them: `GameStateChangeResponse` 0x1e, `OpenHorseWindowResponse` 0x1f, `InitializeWorldBorderResponse` 0x20, `KeepAliveResponse` 0x21, `MapChunkResponse` 0x22, `WorldEventResponse` 0x23.
#[verifier::spinoff_prover]
pub proof fn lemma_play_s2c_ids_6(s: Seq<u8>)
    ensures
        <play::GameStateChangeResponse as MD<'static>>::spec_header() == varint_bytes(0x1e),
        spec_de_packets(ConnectionState::Play, PacketDirection::S2C, 0x1e, s) == (match <play::GameStateChangeResponse as MD<'static>>::spec_deserialize(s) {
            Some((v, rest)) => Some((PacketView::GameStateChangeResponse(v), rest)),
            None => None,
        }),
        <play::OpenHorseWindowResponse as MD<'static>>::spec_header() == varint_bytes(0x1f),
        spec_de_packets(ConnectionState::Play, PacketDirection::S2C, 0x1f, s) == (match <play::OpenHorseWindowResponse as MD<'static>>::spec_deserialize(s) {
            Some((v, rest)) => Some((PacketView::OpenHorseWindowResponse(v), rest)),
            None => None,
        }),
        <play::InitializeWorldBorderResponse as MD<'static>>::spec_header() == varint_bytes(0x20),
        spec_de_packets(ConnectionState::Play, PacketDirection::S2C, 0x20, s) == (match <play::InitializeWorldBorderResponse as MD<'static>>::spec_deserialize(s) {
            Some((v, rest)) => Some((PacketView::InitializeWorldBorderResponse(v), rest)),
            None => None,
        }),
        <play::KeepAliveResponse as MD<'static>>::spec_header() == varint_bytes(0x21),
        spec_de_packets(ConnectionState::Play, PacketDirection::S2C, 0x21, s) == (match <play::KeepAliveResponse as MD<'static>>::spec_deserialize(s) {
            Some((v, rest)) => Some((PacketView::KeepAliveResponse(v), rest)),
            None => None,
        }),
        spec_de_packets(ConnectionState::Play, PacketDirection::S2C, 0x22, s) == (match <play::MapChunkResponse<'static> as MD<'static>>::spec_deserialize(s) {
            Some((v, rest)) => Some((PacketView::MapChunkResponse(v), rest)),
            None => None,
        }),
        <play::WorldEventResponse as MD<'static>>::spec_header() == varint_bytes(0x23),
        spec_de_packets(ConnectionState::Play, PacketDirection::S2C, 0x23, s) == (match <play::WorldEventResponse as MD<'static>>::spec_deserialize(s) {
            Some((v, rest)) => Some((PacketView::WorldEventResponse(v), rest)),
            None => None,
        }),
{
    reveal(spec_packet_play_s2c);
}

/// These packets of the play state sent by the server are read under, and written
/// behind, the ids the protocol gives them: `WorldParticlesResponse` 0x24, `UpdateLightResponse` 0x25, `LoginResponse` 0x26, `MapResponse` 0x27, `TradeListResponse` 0x28, `RelEntityMoveResponse` 0x29.
#[verifier::spinoff_prover]
pub proof fn lemma_play_s2c_ids_7(s: Seq<u8>)
    ensures
        <play::WorldParticlesResponse as MD<'static>>::spec_header() == varint_bytes(0x24),
        spec_de_packets(ConnectionState::Play, PacketDirection::S2C, 0x24, s) == (match <play::WorldParticlesResponse as MD<'static>>::spec_deserialize(s) {
            Some((v, rest)) => Some((PacketView::WorldParticlesResponse(v), rest)),
            None => None,
        }),
        spec_de_packets(ConnectionState::Play, PacketDirection::S2C, 0x25, s) == (match <play::UpdateLightResponse<'static> as MD<'static>>::spec_deserialize(s) {
            Some((v, rest)) => Some((PacketView::UpdateLightResponse(v), rest)),
            None => None,
        }),
        spec_de_packets(ConnectionState::Play, PacketDirection::S2C, 0x26, s) == (match <play::LoginResponse<'static> as MD<'static>>::spec_deserialize(s) {
            Some((v, rest)) => Some((PacketView::LoginResponse(v), rest)),
            None => None,
        }),
        <play::MapResponse as MD<'static>>::spec_header() == varint_bytes(0x27),
        spec_de_packets(ConnectionState::Play, PacketDirection::S2C, 0x27, s) == (match <play::MapResponse as MD<'static>>::spec_deserialize(s) {
            Some((v, rest)) => Some((PacketView::MapResponse(v), rest)),
            None => None,
        }),
        spec_de_packets(ConnectionState::Play, PacketDirection::S2C, 0x28, s) == (match <play::TradeListResponse<'static> as MD<'static>>::spec_deserialize(s) {
            Some((v, rest)) => Some((PacketView::TradeListResponse(v), rest)),
            None => None,
        }),
        <play::RelEntityMoveResponse as MD<'static>>::spec_header() == varint_bytes(0x29),
        spec_de_packets(ConnectionState::Play, PacketDirection::S2C, 0x29, s) == (match <play::RelEntityMoveResponse as MD<'static>>::spec_deserialize(s) {
            Some((v, rest)) => Some((PacketView::RelEntityMoveResponse(v), rest)),
            None => None,
        }),
{
    reveal(spec_packet_play_s2c);
}

/// These packets of the play state sent by the server are read under, and written
/// behind, the ids the protocol gives them: `EntityMoveLookResponse` 0x2a, `EntityLookResponse` 0x2b, `VehicleMoveResponse` 0x2c, `OpenBookResponse` 0x2d, `OpenWindowResponse` 0x2e, `OpenSignEntityResponse` 0x2f.
#[verifier::spinoff_prover]
pub proof fn lemma_play_s2c_ids_8(s: Seq<u8>)
    ensures
        <play::EntityMoveLookResponse as MD<'static>>::spec_header() == varint_bytes(0x2a),
        spec_de_packets(ConnectionState::Play, PacketDirection::S2C, 0x2a, s) == (match <play::EntityMoveLookResponse as MD<'static>>::spec_deserialize(s) {
            Some((v, rest)) => Some((PacketView::EntityMoveLookResponse(v), rest)),
            None => None,
        }),
        <play::EntityLookResponse as MD<'static>>::spec_header() == varint_bytes(0x2b),
        spec_de_packets(ConnectionState::Play, PacketDirection::S2C, 0x2b, s) == (match <play::EntityLookResponse as MD<'static>>::spec_deserialize(s) {
            Some((v, rest)) => Some((PacketView::EntityLookResponse(v), rest)),
            None => None,
        }),
        <play::VehicleMoveResponse as MD<'static>>::spec_header() == varint_bytes(0x2c),
        spec_de_packets(ConnectionState::Play, PacketDirection::S2C, 0x2c, s) == (match <play::VehicleMoveResponse as MD<'static>>::spec_deserialize(s) {
            Some((v, rest)) => Some((PacketView::VehicleMoveResponse(v), rest)),
            None => None,
        }),
        <play::OpenBookResponse as MD<'static>>::spec_header() == varint_bytes(0x2d),
        spec_de_packets(ConnectionState::Play, PacketDirection::S2C, 0x2d, s) == (match <play::OpenBookResponse as MD<'static>>::spec_deserialize(s) {
            Some((v, rest)) => Some((PacketView::OpenBookResponse(v), rest)),
            None => None,
        }),
        <play::OpenWindowResponse<'static> as MD<'static>>::spec_header() == varint_bytes(0x2e),
        spec_de_packets(ConnectionState::Play, PacketDirection::S2C, 0x2e, s) == (match <play::OpenWindowResponse<'static> as MD<'static>>::spec_deserialize(s) {
            Some((v, rest)) => Some((PacketView::OpenWindowResponse(v), rest)),
            None => None,
        }),
        <play::OpenSignEntityResponse as MD<'static>>::spec_header() == varint_bytes(0x2f),
        spec_de_packets(ConnectionState::Play, PacketDirection::S2C, 0x2f, s) == (match <play::OpenSignEntityResponse as MD<'static>>::spec_deserialize(s) {
            Some((v, rest)) => Some((PacketView::OpenSignEntityResponse(v), rest)),
            None => None,
        }),
{
    reveal(spec_packet_play_s2c);
}

/// These packets of the play state sent by the server are read under, and written
/// behind, the ids the protocol gives them: `PlayPingResponse` 0x30, `CraftRecipeResponse` 0x31, `AbilitiesResponse` 0x32, `EndCombatEventResponse` 0x33, `EnterCombatEventResponse` 0x34, `DeathCombatEventResponse` 0x35.
#[verifier::spinoff_prover]
pub proof fn lemma_play_s2c_ids_9(s: Seq<u8>)
    ensures
        <play::PlayPingResponse as MD<'static>>::spec_header() == varint_bytes(0x30),
        spec_de_packets(ConnectionState::Play, PacketDirection::S2C, 0x30, s) == (match <play::PlayPingResponse as MD<'static>>::spec_deserialize(s) {
            Some((v, rest)) => Some((PacketView::PlayPingResponse(v), rest)),
            None => None,
        }),
        <play::CraftRecipeResponse<'static> as MD<'static>>::spec_header() == varint_bytes(0x31),
        spec_de_packets(ConnectionState::Play, PacketDirection::S2C, 0x31, s) == (match <play::CraftRecipeResponse<'static> as MD<'static>>::spec_deserialize(s) {
            Some((v, rest)) => Some((PacketView::CraftRecipeResponse(v), rest)),
            None => None,
        }),
        <play::AbilitiesResponse as MD<'static>>::spec_header() == varint_bytes(0x32),
        spec_de_packets(ConnectionState::Play, PacketDirection::S2C, 0x32, s) == (match <play::AbilitiesResponse as MD<'static>>::spec_deserialize(s) {
            Some((v, rest)) => Some((PacketView::AbilitiesResponse(v), rest)),
            None => None,
        }),
        <play::EndCombatEventResponse as MD<'static>>::spec_header() == varint_bytes(0x33),
        spec_de_packets(ConnectionState::Play, PacketDirection::S2C, 0x33, s) == (match <play::EndCombatEventResponse as MD<'static>>::spec_deserialize(s) {
            Some((v, rest)) => Some((PacketView::EndCombatEventResponse(v), rest)),
            None => None,
        }),
        <play::EnterCombatEventResponse as MD<'static>>::spec_header() == varint_bytes(0x34),
        spec_de_packets(ConnectionState::Play, PacketDirection::S2C, 0x34, s) == (match <play::EnterCombatEventResponse as MD<'static>>::spec_deserialize(s) {
            Some((v, rest)) => Some((PacketView::EnterCombatEventResponse(v), rest)),
            None => None,
        }),
        <play::DeathCombatEventResponse<'static> as MD<'static>>::spec_header() == varint_bytes(0x35),
        spec_de_packets(ConnectionState::Play, PacketDirection::S2C, 0x35, s) == (match <play::DeathCombatEventResponse<'static> as MD<'static>>::spec_deserialize(s) {
            Some((v, rest)) => Some((PacketView::DeathCombatEventResponse(v), rest)),
            None => None,
        }),
{
    reveal(spec_packet_play_s2c);
}

/// These packets of the play state sent by the server are read under, and written
/// behind, the ids the protocol gives them: `PlayerInfoResponse` 0x36, `FacePlayerResponse` 0x37, `PositionResponse` 0x38, `UnlockRecipesResponse` 0x39, `EntityDestroyResponse` 0x3a, `RemoveEntityEffectResponse` 0x3b.
#[verifier::spinoff_prover]
pub proof fn lemma_play_s2c_ids_10(s: Seq<u8>)
    ensures
        spec_de_packets(ConnectionState::Play, PacketDirection::S2C, 0x36, s) == (match <play::PlayerInfoResponse as MD<'static>>::spec_deserialize(s) {
            Some((v, rest)) => Some((PacketView::PlayerInfoResponse(v), rest)),
            None => None,
        }),
        <play::FacePlayerResponse as MD<'static>>::spec_header() == varint_bytes(0x37),
        spec_de_packets(ConnectionState::Play, PacketDirection::S2C, 0x37, s) == (match <play::FacePlayerResponse as MD<'static>>::spec_deserialize(s) {
            Some((v, rest)) => Some((PacketView::FacePlayerResponse(v), rest)),
            None => None,
        }),
        <play::PositionResponse as MD<'static>>::spec_header() == varint_bytes(0x38),
        spec_de_packets(ConnectionState::Play, PacketDirection::S2C, 0x38, s) == (match <play::PositionResponse as MD<'static>>::spec_deserialize(s) {
            Some((v, rest)) => Some((PacketView::PositionResponse(v), rest)),
            None => None,
        }),
        <play::UnlockRecipesResponse as MD<'static>>::spec_header() == varint_bytes(0x39),
        spec_de_packets(ConnectionState::Play, PacketDirection::S2C, 0x39, s) == (match <play::UnlockRecipesResponse as MD<'static>>::spec_deserialize(s) {
            Some((v, rest)) => Some((PacketView::UnlockRecipesResponse(v), rest)),
            None => None,
        }),
        spec_de_packets(ConnectionState::Play, PacketDirection::S2C, 0x3a, s) == (match <play::EntityDestroyResponse as MD<'static>>::spec_deserialize(s) {
            Some((v, rest)) => Some((PacketView::EntityDestroyResponse(v), rest)),
            None => None,
        }),
        <play::RemoveEntityEffectResponse as MD<'static>>::spec_header() == varint_bytes(0x3b),
        spec_de_packets(ConnectionState::Play, PacketDirection::S2C, 0x3b, s) == (match <play::RemoveEntityEffectResponse as MD<'static>>::spec_deserialize(s) {
            Some((v, rest)) => Some((PacketView::RemoveEntityEffectResponse(v), rest)),
            None => None,
        }),
{
    reveal(spec_packet_play_s2c);
}

/// These packets of the play state sent by the server are read under, and written
/// behind, the ids the protocol gives them: `ResourcePackSendResponse` 0x3c, `RespawnResponse` 0x3d, `EntityHeadRotationResponse` 0x3e, `MultiBlockChangeResponse` 0x3f, `SelectAdvancementTabResponse` 0x40, `ActionBarResponse` 0x41.
#[verifier::spinoff_prover]
pub proof fn lemma_play_s2c_ids_11(s: Seq<u8>)
    ensures
        <play::ResourcePackSendResponse<'static> as MD<'static>>::spec_header() == varint_bytes(0x3c),
        spec_de_packets(ConnectionState::Play, PacketDirection::S2C, 0x3c, s) == (match <play::ResourcePackSendResponse<'static> as MD<'static>>::spec_deserialize(s) {
            Some((v, rest)) => Some((PacketView::ResourcePackSendResponse(v), rest)),
            None => None,
        }),
        <play::RespawnResponse<'static> as MD<'static>>::spec_header() == varint_bytes(0x3d),
        spec_de_packets(ConnectionState::Play, PacketDirection::S2C, 0x3d, s) == (match <play::RespawnResponse<'static> as MD<'static>>::spec_deserialize(s) {
            Some((v, rest)) => Some((PacketView::RespawnResponse(v), rest)),
            None => None,
        }),
        <play::EntityHeadRotationResponse as MD<'static>>::spec_header() == varint_bytes(0x3e),
        spec_de_packets(ConnectionState::Play, PacketDirection::S2C, 0x3e, s) == (match <play::EntityHeadRotationResponse as MD<'static>>::spec_deserialize(s) {
            Some((v, rest)) => Some((PacketView::EntityHeadRotationResponse(v), rest)),
            None => None,
        }),
        spec_de_packets(ConnectionState::Play, PacketDirection::S2C, 0x3f, s) == (match <play::MultiBlockChangeResponse as MD<'static>>::spec_deserialize(s) {
            Some((v, rest)) => Some((PacketView::MultiBlockChangeResponse(v), rest)),
            None => None,
        }),
        <play::SelectAdvancementTabResponse<'static> as MD<'static>>::spec_header() == varint_bytes(0x40),
        spec_de_packets(ConnectionState::Play, PacketDirection::S2C, 0x40, s) == (match <play::SelectAdvancementTabResponse<'static> as MD<'static>>::spec_deserialize(s) {
            Some((v, rest)) => Some((PacketView::SelectAdvancementTabResponse(v), rest)),
            None => None,
        }),
        <play::ActionBarResponse<'static> as MD<'static>>::spec_header() == varint_bytes(0x41),
        spec_de_packets(ConnectionState::Play, PacketDirection::S2C, 0x41, s) == (match <play::ActionBarResponse<'static> as MD<'static>>::spec_deserialize(s) {
            Some((v, rest)) => Some((PacketView::ActionBarResponse(v), rest)),
            None => None,
        }),
{
    reveal(spec_packet_play_s2c);
}

/// These packets of the play state sent by the server are read under, and written
/// behind, the ids the protocol gives them: `WorldBorderCenterResponse` 0x42, `WorldBorderLerpSizeResponse` 0x43, `WorldBorderSizeResponse` 0x44, `WorldBorderWarningDelayResponse` 0x45, `WorldBorderWarningReachResponse` 0x46, `CameraResponse` 0x47.
#[verifier::spinoff_prover]
pub proof fn lemma_play_s2c_ids_12(s: Seq<u8>)
    ensures
        <play::WorldBorderCenterResponse as MD<'static>>::spec_header() == varint_bytes(0x42),
        spec_de_packets(ConnectionState::Play, PacketDirection::S2C, 0x42, s) == (match <play::WorldBorderCenterResponse as MD<'static>>::spec_deserialize(s) {
            Some((v, rest)) => Some((PacketView::WorldBorderCenterResponse(v), rest)),
            None => None,
        }),
        <play::WorldBorderLerpSizeResponse as MD<'static>>::spec_header() == varint_bytes(0x43),
        spec_de_packets(ConnectionState::Play, PacketDirection::S2C, 0x43, s) == (match <play::WorldBorderLerpSizeResponse as MD<'static>>::spec_deserialize(s) {
            Some((v, rest)) => Some((PacketView::WorldBorderLerpSizeResponse(v), rest)),
            None => None,
        }),
        <play::WorldBorderSizeResponse as MD<'static>>::spec_header() == varint_bytes(0x44),
        spec_de_packets(ConnectionState::Play, PacketDirection::S2C, 0x44, s) == (match <play::WorldBorderSizeResponse as MD<'static>>::spec_deserialize(s) {
            Some((v, rest)) => Some((PacketView::WorldBorderSizeResponse(v), rest)),
            None => None,
        }),
        <play::WorldBorderWarningDelayResponse as MD<'static>>::spec_header() == varint_bytes(0x45),
        spec_de_packets(ConnectionState::Play, PacketDirection::S2C, 0x45, s) == (match <play::WorldBorderWarningDelayResponse as MD<'static>>::spec_deserialize(s) {
            Some((v, rest)) => Some((PacketView::WorldBorderWarningDelayResponse(v), rest)),
            None => None,
        }),
        <play::WorldBorderWarningReachResponse as MD<'static>>::spec_header() == varint_bytes(0x46),
        spec_de_packets(ConnectionState::Play, PacketDirection::S2C, 0x46, s) == (match <play::WorldBorderWarningReachResponse as MD<'static>>::spec_deserialize(s) {
            Some((v, rest)) => Some((PacketView::WorldBorderWarningReachResponse(v), rest)),
            None => None,
        }),
        <play::CameraResponse as MD<'static>>::spec_header() == varint_bytes(0x47),
        spec_de_packets(ConnectionState::Play, PacketDirection::S2C, 0x47, s) == (match <play::CameraResponse as MD<'static>>::spec_deserialize(s) {
            Some((v, rest)) => Some((PacketView::CameraResponse(v), rest)),
            None => None,
        }),
{
    reveal(spec_packet_play_s2c);
}

/// These packets of the play state sent by the server are read under, and written
/// behind, the ids the protocol gives them: `HeldItemSlotResponse` 0x48, `UpdateViewPositionResponse` 0x49, `UpdateViewDistanceResponse` 0x4a, `SpawnPositionResponse` 0x4b, `ScoreboardDisplayObjectiveResponse` 0x4c, `EntityMetadataResponse` 0x4d.
#[verifier::spinoff_prover]
pub proof fn lemma_play_s2c_ids_13(s: Seq<u8>)
    ensures
        <play::HeldItemSlotResponse as MD<'static>>::spec_header() == varint_bytes(0x48),
        spec_de_packets(ConnectionState::Play, PacketDirection::S2C, 0x48, s) == (match <play::HeldItemSlotResponse as MD<'static>>::spec_deserialize(s) {
            Some((v, rest)) => Some((PacketView::HeldItemSlotResponse(v), rest)),
            None => None,
        }),
        <play::UpdateViewPositionResponse as MD<'static>>::spec_header() == varint_bytes(0x49),
        spec_de_packets(ConnectionState::Play, PacketDirection::S2C, 0x49, s) == (match <play::UpdateViewPositionResponse as MD<'static>>::spec_deserialize(s) {
            Some((v, rest)) => Some((PacketView::UpdateViewPositionResponse(v), rest)),
            None => None,
        }),
        <play::UpdateViewDistanceResponse as MD<'static>>::spec_header() == varint_bytes(0x4a),
        spec_de_packets(ConnectionState::Play, PacketDirection::S2C, 0x4a, s) == (match <play::UpdateViewDistanceResponse as MD<'static>>::spec_deserialize(s) {
            Some((v, rest)) => Some((PacketView::UpdateViewDistanceResponse(v), rest)),
            None => None,
        }),
        <play::SpawnPositionResponse as MD<'static>>::spec_header() == varint_bytes(0x4b),
        spec_de_packets(ConnectionState::Play, PacketDirection::S2C, 0x4b, s) == (match <play::SpawnPositionResponse as MD<'static>>::spec_deserialize(s) {
            Some((v, rest)) => Some((PacketView::SpawnPositionResponse(v), rest)),
            None => None,
        }),
        <play::ScoreboardDisplayObjectiveResponse<'static> as MD<'static>>::spec_header() == varint_bytes(0x4c),
        spec_de_packets(ConnectionState::Play, PacketDirection::S2C, 0x4c, s) == (match <play::ScoreboardDisplayObjectiveResponse<'static> as MD<'static>>::spec_deserialize(s) {
            Some((v, rest)) => Some((PacketView::ScoreboardDisplayObjectiveResponse(v), rest)),
            None => None,
        }),
        <play::EntityMetadataResponse as MD<'static>>::spec_header() == varint_bytes(0x4d),
        spec_de_packets(ConnectionState::Play, PacketDirection::S2C, 0x4d, s) == (match <play::EntityMetadataResponse as MD<'static>>::spec_deserialize(s) {
            Some((v, rest)) => Some((PacketView::EntityMetadataResponse(v), rest)),
            None => None,
        }),
{
    reveal(spec_packet_play_s2c);
}

/// These packets of the play state sent by the server are read under, and written
/// behind, the ids the protocol gives them: `AttachEntityResponse` 0x4e, `EntityVelocityResponse` 0x4f, `EntityEquipmentResponse` 0x50, `ExperienceResponse` 0x51, `UpdateHealthResponse` 0x52, `ScoreboardObjectiveResponse` 0x53.
#[verifier::spinoff_prover]
pub proof fn lemma_play_s2c_ids_14(s: Seq<u8>)
    ensures
        <play::AttachEntityResponse as MD<'static>>::spec_header() == varint_bytes(0x4e),
        spec_de_packets(ConnectionState::Play, PacketDirection::S2C, 0x4e, s) == (match <play::AttachEntityResponse as MD<'static>>::spec_deserialize(s) {
            Some((v, rest)) => Some((PacketView::AttachEntityResponse(v), rest)),
            None => None,
        }),
        <play::EntityVelocityResponse as MD<'static>>::spec_header() == varint_bytes(0x4f),
        spec_de_packets(ConnectionState::Play, PacketDirection::S2C, 0x4f, s) == (match <play::EntityVelocityResponse as MD<'static>>::spec_deserialize(s) {
            Some((v, rest)) => Some((PacketView::EntityVelocityResponse(v), rest)),
            None => None,
        }),
        <play::EntityEquipmentResponse as MD<'static>>::spec_header() == varint_bytes(0x50),
        spec_de_packets(ConnectionState::Play, PacketDirection::S2C, 0x50, s) == (match <play::EntityEquipmentResponse as MD<'static>>::spec_deserialize(s) {
            Some((v, rest)) => Some((PacketView::EntityEquipmentResponse(v), rest)),
            None => None,
        }),
        <play::ExperienceResponse as MD<'static>>::spec_header() == varint_bytes(0x51),
        spec_de_packets(ConnectionState::Play, PacketDirection::S2C, 0x51, s) == (match <play::ExperienceResponse as MD<'static>>::spec_deserialize(s) {
            Some((v, rest)) => Some((PacketView::ExperienceResponse(v), rest)),
            None => None,
        }),
        <play::UpdateHealthResponse as MD<'static>>::spec_header() == varint_bytes(0x52),
        spec_de_packets(ConnectionState::Play, PacketDirection::S2C, 0x52, s) == (match <play::UpdateHealthResponse as MD<'static>>::spec_deserialize(s) {
            Some((v, rest)) => Some((PacketView::UpdateHealthResponse(v), rest)),
            None => None,
        }),
        <play::ScoreboardObjectiveResponse as MD<'static>>::spec_header() == varint_bytes(0x53),
        spec_de_packets(ConnectionState::Play, PacketDirection::S2C, 0x53, s) == (match <play::ScoreboardObjectiveResponse as MD<'static>>::spec_deserialize(s) {
            Some((v, rest)) => Some((PacketView::ScoreboardObjectiveResponse(v), rest)),
            None => None,
        }),
{
    reveal(spec_packet_play_s2c);
}

/// These packets of the play state sent by the server are read under, and written
/// behind, the ids the protocol gives them: `SetPassengersResponse` 0x54, `TeamsResponse` 0x55, `ScoreboardScoreResponse` 0x56, `SimulationDistanceResponse` 0x57, `SetTitleSubtitleResponse` 0x58, `UpdateTimeResponse` 0x59.
#[verifier::spinoff_prover]
pub proof fn lemma_play_s2c_ids_15(s: Seq<u8>)
    ensures
        spec_de_packets(ConnectionState::Play, PacketDirection::S2C, 0x54, s) == (match <play::SetPassengersResponse as MD<'static>>::spec_deserialize(s) {
            Some((v, rest)) => Some((PacketView::SetPassengersResponse(v), rest)),
            None => None,
        }),
        <play::TeamsResponse as MD<'static>>::spec_header() == varint_bytes(0x55),
        spec_de_packets(ConnectionState::Play, PacketDirection::S2C, 0x55, s) == (match <play::TeamsResponse as MD<'static>>::spec_deserialize(s) {
            Some((v, rest)) => Some((PacketView::TeamsResponse(v), rest)),
            None => None,
        }),
        <play::ScoreboardScoreResponse as MD<'static>>::spec_header() == varint_bytes(0x56),
        spec_de_packets(ConnectionState::Play, PacketDirection::S2C, 0x56, s) == (match <play::ScoreboardScoreResponse as MD<'static>>::spec_deserialize(s) {
            Some((v, rest)) => Some((PacketView::ScoreboardScoreResponse(v), rest)),
            None => None,
        }),
        <play::SimulationDistanceResponse as MD<'static>>::spec_header() == varint_bytes(0x57),
        spec_de_packets(ConnectionState::Play, PacketDirection::S2C, 0x57, s) == (match <play::SimulationDistanceResponse as MD<'static>>::spec_deserialize(s) {
            Some((v, rest)) => Some((PacketView::SimulationDistanceResponse(v), rest)),
            None => None,
        }),
        <play::SetTitleSubtitleResponse<'static> as MD<'static>>::spec_header() == varint_bytes(0x58),
        spec_de_packets(ConnectionState::Play, PacketDirection::S2C, 0x58, s) == (match <play::SetTitleSubtitleResponse<'static> as MD<'static>>::spec_deserialize(s) {
            Some((v, rest)) => Some((PacketView::SetTitleSubtitleResponse(v), rest)),
            None => None,
        }),
        <play::UpdateTimeResponse as MD<'static>>::spec_header() == varint_bytes(0x59),
        spec_de_packets(ConnectionState::Play, PacketDirection::S2C, 0x59, s) == (match <play::UpdateTimeResponse as MD<'static>>::spec_deserialize(s) {
            Some((v, rest)) => Some((PacketView::UpdateTimeResponse(v), rest)),
            None => None,
        }),
{
    reveal(spec_packet_play_s2c);
}

/// These packets of the play state sent by the server are read under, and written
/// behind, the ids the protocol gives them: `SetTitleTextResponse` 0x5a, `SetTitleTimeResponse` 0x5b, `EntitySoundEffectResponse` 0x5c, `SoundEffectResponse` 0x5d, `StopSoundResponse` 0x5e, `PlayerlistHeaderResponse` 0x5f.
#[verifier::spinoff_prover]
pub proof fn lemma_play_s2c_ids_16(s: Seq<u8>)
    ensures
        <play::SetTitleTextResponse<'static> as MD<'static>>::spec_header() == varint_bytes(0x5a),
        spec_de_packets(ConnectionState::Play, PacketDirection::S2C, 0x5a, s) == (match <play::SetTitleTextResponse<'static> as MD<'static>>::spec_deserialize(s) {
            Some((v, rest)) => Some((PacketView::SetTitleTextResponse(v), rest)),
            None => None,
        }),
        <play::SetTitleTimeResponse as MD<'static>>::spec_header() == varint_bytes(0x5b),
        spec_de_packets(ConnectionState::Play, PacketDirection::S2C, 0x5b, s) == (match <play::SetTitleTimeResponse as MD<'static>>::spec_deserialize(s) {
            Some((v, rest)) => Some((PacketView::SetTitleTimeResponse(v), rest)),
            None => None,
        }),
        <play::EntitySoundEffectResponse as MD<'static>>::spec_header() == varint_bytes(0x5c),
        spec_de_packets(ConnectionState::Play, PacketDirection::S2C, 0x5c, s) == (match <play::EntitySoundEffectResponse as MD<'static>>::spec_deserialize(s) {
            Some((v, rest)) => Some((PacketView::EntitySoundEffectResponse(v), rest)),
            None => None,
        }),
        <play::SoundEffectResponse as MD<'static>>::spec_header() == varint_bytes(0x5d),
        spec_de_packets(ConnectionState::Play, PacketDirection::S2C, 0x5d, s) == (match <play::SoundEffectResponse as MD<'static>>::spec_deserialize(s) {
            Some((v, rest)) => Some((PacketView::SoundEffectResponse(v), rest)),
            None => None,
        }),
        <play::StopSoundResponse as MD<'static>>::spec_header() == varint_bytes(0x5e),
        spec_de_packets(ConnectionState::Play, PacketDirection::S2C, 0x5e, s) == (match <play::StopSoundResponse as MD<'static>>::spec_deserialize(s) {
            Some((v, rest)) => Some((PacketView::StopSoundResponse(v), rest)),
            None => None,
        }),
        <play::PlayerlistHeaderResponse<'static> as MD<'static>>::spec_header() == varint_bytes(0x5f),
        spec_de_packets(ConnectionState::Play, PacketDirection::S2C, 0x5f, s) == (match <play::PlayerlistHeaderResponse<'static> as MD<'static>>::spec_deserialize(s) {
            Some((v, rest)) => Some((PacketView::PlayerlistHeaderResponse(v), rest)),
            None => None,
        }),
{
    reveal(spec_packet_play_s2c);
}

/// These packets of the play state sent by the server are read under, and written
/// behind, the ids the protocol gives them: `NbtQueryResponse` 0x60, `CollectResponse` 0x61, `EntityTeleportResponse` 0x62, `AdvancementsResponse` 0x63, `EntityUpdateAttributesResponse` 0x64, `EntityEffectResponse` 0x65.
#[verifier::spinoff_prover]
pub proof fn lemma_play_s2c_ids_17(s: Seq<u8>)
    ensures
        <play::NbtQueryResponse<'static> as MD<'static>>::spec_header() == varint_bytes(0x60),
        spec_de_packets(ConnectionState::Play, PacketDirection::S2C, 0x60, s) == (match <play::NbtQueryResponse<'static> as MD<'static>>::spec_deserialize(s) {
            Some((v, rest)) => Some((PacketView::NbtQueryResponse(v), rest)),
            None => None,
        }),
        <play::CollectResponse as MD<'static>>::spec_header() == varint_bytes(0x61),
        spec_de_packets(ConnectionState::Play, PacketDirection::S2C, 0x61, s) == (match <play::CollectResponse as MD<'static>>::spec_deserialize(s) {
            Some((v, rest)) => Some((PacketView::CollectResponse(v), rest)),
            None => None,
        }),
        <play::EntityTeleportResponse as MD<'static>>::spec_header() == varint_bytes(0x62),
        spec_de_packets(ConnectionState::Play, PacketDirection::S2C, 0x62, s) == (match <play::EntityTeleportResponse as MD<'static>>::spec_deserialize(s) {
            Some((v, rest)) => Some((PacketView::EntityTeleportResponse(v), rest)),
            None => None,
        }),
        <play::AdvancementsResponse as MD<'static>>::spec_header() == varint_bytes(0x63),
        spec_de_packets(ConnectionState::Play, PacketDirection::S2C, 0x63, s) == (match <play::AdvancementsResponse as MD<'static>>::spec_deserialize(s) {
            Some((v, rest)) => Some((PacketView::AdvancementsResponse(v), rest)),
            None => None,
        }),
        spec_de_packets(ConnectionState::Play, PacketDirection::S2C, 0x64, s) == (match <play::EntityUpdateAttributesResponse<'static> as MD<'static>>::spec_deserialize(s) {
            Some((v, rest)) => Some((PacketView::EntityUpdateAttributesResponse(v), rest)),
            None => None,
        }),
        <play::EntityEffectResponse as MD<'static>>::spec_header() == varint_bytes(0x65),
        spec_de_packets(ConnectionState::Play, PacketDirection::S2C, 0x65, s) == (match <play::EntityEffectResponse as MD<'static>>::spec_deserialize(s) {
            Some((v, rest)) => Some((PacketView::EntityEffectResponse(v), rest)),
            None => None,
        }),
{
    reveal(spec_packet_play_s2c);
}

/// These packets of the play state sent by the server are read under, and written
/// behind, the ids the protocol gives them: `DeclareRecipesResponse` 0x66, `TagsResponse` 0x67.
#[verifier::spinoff_prover]
pub proof fn lemma_play_s2c_ids_18(s: Seq<u8>)
    ensures
        spec_de_packets(ConnectionState::Play, PacketDirection::S2C, 0x66, s) == (match <play::DeclareRecipesResponse as MD<'static>>::spec_deserialize(s) {
            Some((v, rest)) => Some((PacketView::DeclareRecipesResponse(v), rest)),
            None => None,
        }),
        spec_de_packets(ConnectionState::Play, PacketDirection::S2C, 0x67, s) == (match <play::TagsResponse as MD<'static>>::spec_deserialize(s) {
            Some((v, rest)) => Some((PacketView::TagsResponse(v), rest)),
            None => None,
        }),
{
    reveal(spec_packet_play_s2c);
}

} // verus!
