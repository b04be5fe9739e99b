//! What the writer of a packet of protocol version 758 writes, `de_packets`
//! reads back.
use crate::protocol::common_states::{handshaking, login, status};
use crate::protocol::de::MD;
use crate::protocol::v1_18_2::play;
use crate::protocol::v1_18_2::{
    PacketView, spec_de_packets, spec_packet_handshaking_c2s, spec_packet_login_c2s, spec_packet_login_s2c,
    spec_packet_play_c2s, spec_packet_play_s2c, spec_packet_status_c2s, spec_packet_status_s2c,
};
use crate::protocol::varint::varint_bytes;
use crate::protocol::{ConnectionState, PacketDirection};
use vstd::prelude::*;

verus! {

/// The state, direction and id under which a packet is sent.
pub open spec fn packet_route(p: PacketView) -> (ConnectionState, PacketDirection, u32) {
    match p {
        PacketView::SetProtocolRequest(_) => (ConnectionState::Handshaking, PacketDirection::C2S, 0x0),
        PacketView::LegacyServerListPingRequest(_) => (ConnectionState::Handshaking, PacketDirection::C2S, 0xfe),
        PacketView::PingStartRequest(_) => (ConnectionState::Status, PacketDirection::C2S, 0x0),
        PacketView::PingRequest(_) => (ConnectionState::Status, PacketDirection::C2S, 0x1),
        PacketView::ServerInfoResponse(_) => (ConnectionState::Status, PacketDirection::S2C, 0x0),
        PacketView::PingResponse(_) => (ConnectionState::Status, PacketDirection::S2C, 0x1),
        PacketView::LoginStartRequest(_) => (ConnectionState::Login, PacketDirection::C2S, 0x0),
        PacketView::EncryptionBeginRequest(_) => (ConnectionState::Login, PacketDirection::C2S, 0x1),
        PacketView::LoginPluginResponse(_) => (ConnectionState::Login, PacketDirection::C2S, 0x2),
        PacketView::DisconnectResponse(_) => (ConnectionState::Login, PacketDirection::S2C, 0x0),
        PacketView::EncryptionBeginResponse(_) => (ConnectionState::Login, PacketDirection::S2C, 0x1),
        PacketView::SuccessResponse(_) => (ConnectionState::Login, PacketDirection::S2C, 0x2),
        PacketView::CompressResponse(_) => (ConnectionState::Login, PacketDirection::S2C, 0x3),
        PacketView::LoginPluginRequest(_) => (ConnectionState::Login, PacketDirection::S2C, 0x4),
        PacketView::TeleportConfirmRequest(_) => (ConnectionState::Play, PacketDirection::C2S, 0x0),
        PacketView::QueryBlockNbtRequest(_) => (ConnectionState::Play, PacketDirection::C2S, 0x1),
        PacketView::SetDifficultyRequest(_) => (ConnectionState::Play, PacketDirection::C2S, 0x2),
        PacketView::ChatRequest(_) => (ConnectionState::Play, PacketDirection::C2S, 0x3),
        PacketView::ClientCommandRequest(_) => (ConnectionState::Play, PacketDirection::C2S, 0x4),
        PacketView::SettingsRequest(_) => (ConnectionState::Play, PacketDirection::C2S, 0x5),
        PacketView::TabCompleteRequest(_) => (ConnectionState::Play, PacketDirection::C2S, 0x6),
        PacketView::EnchantItemRequest(_) => (ConnectionState::Play, PacketDirection::C2S, 0x7),
        PacketView::WindowClickRequest(_) => (ConnectionState::Play, PacketDirection::C2S, 0x8),
        PacketView::CloseWindowRequest(_) => (ConnectionState::Play, PacketDirection::C2S, 0x9),
        PacketView::CustomPayloadRequest(_) => (ConnectionState::Play, PacketDirection::C2S, 0xa),
        PacketView::EditBookRequest(_) => (ConnectionState::Play, PacketDirection::C2S, 0xb),
        PacketView::QueryEntityNbtRequest(_) => (ConnectionState::Play, PacketDirection::C2S, 0xc),
        PacketView::UseEntityRequest(_) => (ConnectionState::Play, PacketDirection::C2S, 0xd),
        PacketView::GenerateStructureRequest(_) => (ConnectionState::Play, PacketDirection::C2S, 0xe),
        PacketView::KeepAliveRequest(_) => (ConnectionState::Play, PacketDirection::C2S, 0xf),
        PacketView::LockDifficultyRequest(_) => (ConnectionState::Play, PacketDirection::C2S, 0x10),
        PacketView::PositionRequest(_) => (ConnectionState::Play, PacketDirection::C2S, 0x11),
        PacketView::PositionLookRequest(_) => (ConnectionState::Play, PacketDirection::C2S, 0x12),
        PacketView::LookRequest(_) => (ConnectionState::Play, PacketDirection::C2S, 0x13),
        PacketView::FlyingRequest(_) => (ConnectionState::Play, PacketDirection::C2S, 0x14),
        PacketView::VehicleMoveRequest(_) => (ConnectionState::Play, PacketDirection::C2S, 0x15),
        PacketView::SteerBoatRequest(_) => (ConnectionState::Play, PacketDirection::C2S, 0x16),
        PacketView::PickItemRequest(_) => (ConnectionState::Play, PacketDirection::C2S, 0x17),
        PacketView::CraftRecipeRequest(_) => (ConnectionState::Play, PacketDirection::C2S, 0x18),
        PacketView::AbilitiesRequest(_) => (ConnectionState::Play, PacketDirection::C2S, 0x19),
        PacketView::BlockDigRequest(_) => (ConnectionState::Play, PacketDirection::C2S, 0x1a),
        PacketView::EntityActionRequest(_) => (ConnectionState::Play, PacketDirection::C2S, 0x1b),
        PacketView::SteerVehicleRequest(_) => (ConnectionState::Play, PacketDirection::C2S, 0x1c),
        PacketView::PongRequest(_) => (ConnectionState::Play, PacketDirection::C2S, 0x1d),
        PacketView::RecipeBookRequest(_) => (ConnectionState::Play, PacketDirection::C2S, 0x1e),
        PacketView::DisplayedRecipeRequest(_) => (ConnectionState::Play, PacketDirection::C2S, 0x1f),
        PacketView::NameItemRequest(_) => (ConnectionState::Play, PacketDirection::C2S, 0x20),
        PacketView::ResourcePackReceiveRequest(_) => (ConnectionState::Play, PacketDirection::C2S, 0x21),
        PacketView::AdvancementTabRequest(_) => (ConnectionState::Play, PacketDirection::C2S, 0x22),
        PacketView::SelectTradeRequest(_) => (ConnectionState::Play, PacketDirection::C2S, 0x23),
        PacketView::SetBeaconEffectRequest(_) => (ConnectionState::Play, PacketDirection::C2S, 0x24),
        PacketView::HeldItemSlotRequest(_) => (ConnectionState::Play, PacketDirection::C2S, 0x25),
        PacketView::UpdateCommandBlockRequest(_) => (ConnectionState::Play, PacketDirection::C2S, 0x26),
        PacketView::UpdateCommandBlockMinecartRequest(_) => (ConnectionState::Play, PacketDirection::C2S, 0x27),
        PacketView::SetCreativeSlotRequest(_) => (ConnectionState::Play, PacketDirection::C2S, 0x28),
        PacketView::UpdateJigsawBlockRequest(_) => (ConnectionState::Play, PacketDirection::C2S, 0x29),
        PacketView::UpdateStructureBlockRequest(_) => (ConnectionState::Play, PacketDirection::C2S, 0x2a),
        PacketView::UpdateSignRequest(_) => (ConnectionState::Play, PacketDirection::C2S, 0x2b),
        PacketView::ArmAnimationRequest(_) => (ConnectionState::Play, PacketDirection::C2S, 0x2c),
        PacketView::SpectateRequest(_) => (ConnectionState::Play, PacketDirection::C2S, 0x2d),
        PacketView::BlockPlaceRequest(_) => (ConnectionState::Play, PacketDirection::C2S, 0x2e),
        PacketView::UseItemRequest(_) => (ConnectionState::Play, PacketDirection::C2S, 0x2f),
        PacketView::SpawnEntityResponse(_) => (ConnectionState::Play, PacketDirection::S2C, 0x0),
        PacketView::SpawnEntityExperienceOrbResponse(_) => (ConnectionState::Play, PacketDirection::S2C, 0x1),
        PacketView::SpawnEntityLivingResponse(_) => (ConnectionState::Play, PacketDirection::S2C, 0x2),
        PacketView::SpawnEntityPaintingResponse(_) => (ConnectionState::Play, PacketDirection::S2C, 0x3),
        PacketView::NamedEntitySpawnResponse(_) => (ConnectionState::Play, PacketDirection::S2C, 0x4),
        PacketView::SculkVibrationSignalResponse(_) => (ConnectionState::Play, PacketDirection::S2C, 0x5),
        PacketView::AnimationResponse(_) => (ConnectionState::Play, PacketDirection::S2C, 0x6),
        PacketView::StatisticsResponse(_) => (ConnectionState::Play, PacketDirection::S2C, 0x7),
        PacketView::AcknowledgePlayerDiggingResponse(_) => (ConnectionState::Play, PacketDirection::S2C, 0x8),
        PacketView::BlockBreakAnimationResponse(_) => (ConnectionState::Play, PacketDirection::S2C, 0x9),
        PacketView::TileEntityDataResponse(_) => (ConnectionState::Play, PacketDirection::S2C, 0xa),
        PacketView::BlockActionResponse(_) => (ConnectionState::Play, PacketDirection::S2C, 0xb),
        PacketView::BlockChangeResponse(_) => (ConnectionState::Play, PacketDirection::S2C, 0xc),
        PacketView::BossBarResponse(_) => (ConnectionState::Play, PacketDirection::S2C, 0xd),
        PacketView::DifficultyResponse(_) => (ConnectionState::Play, PacketDirection::S2C, 0xe),
        PacketView::ChatResponse(_) => (ConnectionState::Play, PacketDirection::S2C, 0xf),
        PacketView::ClearTitlesResponse(_) => (ConnectionState::Play, PacketDirection::S2C, 0x10),
        PacketView::TabCompleteResponse(_) => (ConnectionState::Play, PacketDirection::S2C, 0x11),
        PacketView::DeclareCommandsResponse(_) => (ConnectionState::Play, PacketDirection::S2C, 0x12),
        PacketView::CloseWindowResponse(_) => (ConnectionState::Play, PacketDirection::S2C, 0x13),
        PacketView::WindowItemsResponse(_) => (ConnectionState::Play, PacketDirection::S2C, 0x14),
        PacketView::CraftProgressBarResponse(_) => (ConnectionState::Play, PacketDirection::S2C, 0x15),
        PacketView::SetSlotResponse(_) => (ConnectionState::Play, PacketDirection::S2C, 0x16),
        PacketView::SetCooldownResponse(_) => (ConnectionState::Play, PacketDirection::S2C, 0x17),
        PacketView::CustomPayloadResponse(_) => (ConnectionState::Play, PacketDirection::S2C, 0x18),
        PacketView::NamedSoundEffectResponse(_) => (ConnectionState::Play, PacketDirection::S2C, 0x19),
        PacketView::KickDisconnectResponse(_) => (ConnectionState::Play, PacketDirection::S2C, 0x1a),
        PacketView::EntityStatusResponse(_) => (ConnectionState::Play, PacketDirection::S2C, 0x1b),
        PacketView::ExplosionResponse(_) => (ConnectionState::Play, PacketDirection::S2C, 0x1c),
        PacketView::UnloadChunkResponse(_) => (ConnectionState::Play, PacketDirection::S2C, 0x1d),
        PacketView::GameStateChangeResponse(_) => (ConnectionState::Play, PacketDirection::S2C, 0x1e),
        PacketView::OpenHorseWindowResponse(_) => (ConnectionState::Play, PacketDirection::S2C, 0x1f),
        PacketView::InitializeWorldBorderResponse(_) => (ConnectionState::Play, PacketDirection::S2C, 0x20),
        PacketView::KeepAliveResponse(_) => (ConnectionState::Play, PacketDirection::S2C, 0x21),
        PacketView::MapChunkResponse(_) => (ConnectionState::Play, PacketDirection::S2C, 0x22),
        PacketView::WorldEventResponse(_) => (ConnectionState::Play, PacketDirection::S2C, 0x23),
        PacketView::WorldParticlesResponse(_) => (ConnectionState::Play, PacketDirection::S2C, 0x24),
        PacketView::UpdateLightResponse(_) => (ConnectionState::Play, PacketDirection::S2C, 0x25),
        PacketView::LoginResponse(_) => (ConnectionState::Play, PacketDirection::S2C, 0x26),
        PacketView::MapResponse(_) => (ConnectionState::Play, PacketDirection::S2C, 0x27),
        PacketView::TradeListResponse(_) => (ConnectionState::Play, PacketDirection::S2C, 0x28),
        PacketView::RelEntityMoveResponse(_) => (ConnectionState::Play, PacketDirection::S2C, 0x29),
        PacketView::EntityMoveLookResponse(_) => (ConnectionState::Play, PacketDirection::S2C, 0x2a),
        PacketView::EntityLookResponse(_) => (ConnectionState::Play, PacketDirection::S2C, 0x2b),
        PacketView::VehicleMoveResponse(_) => (ConnectionState::Play, PacketDirection::S2C, 0x2c),
        PacketView::OpenBookResponse(_) => (ConnectionState::Play, PacketDirection::S2C, 0x2d),
        PacketView::OpenWindowResponse(_) => (ConnectionState::Play, PacketDirection::S2C, 0x2e),
        PacketView::OpenSignEntityResponse(_) => (ConnectionState::Play, PacketDirection::S2C, 0x2f),
        PacketView::PlayPingResponse(_) => (ConnectionState::Play, PacketDirection::S2C, 0x30),
        PacketView::CraftRecipeResponse(_) => (ConnectionState::Play, PacketDirection::S2C, 0x31),
        PacketView::AbilitiesResponse(_) => (ConnectionState::Play, PacketDirection::S2C, 0x32),
        PacketView::EndCombatEventResponse(_) => (ConnectionState::Play, PacketDirection::S2C, 0x33),
        PacketView::EnterCombatEventResponse(_) => (ConnectionState::Play, PacketDirection::S2C, 0x34),
        PacketView::DeathCombatEventResponse(_) => (ConnectionState::Play, PacketDirection::S2C, 0x35),
        PacketView::PlayerInfoResponse(_) => (ConnectionState::Play, PacketDirection::S2C, 0x36),
        PacketView::FacePlayerResponse(_) => (ConnectionState::Play, PacketDirection::S2C, 0x37),
        PacketView::PositionResponse(_) => (ConnectionState::Play, PacketDirection::S2C, 0x38),
        PacketView::UnlockRecipesResponse(_) => (ConnectionState::Play, PacketDirection::S2C, 0x39),
        PacketView::EntityDestroyResponse(_) => (ConnectionState::Play, PacketDirection::S2C, 0x3a),
        PacketView::RemoveEntityEffectResponse(_) => (ConnectionState::Play, PacketDirection::S2C, 0x3b),
        PacketView::ResourcePackSendResponse(_) => (ConnectionState::Play, PacketDirection::S2C, 0x3c),
        PacketView::RespawnResponse(_) => (ConnectionState::Play, PacketDirection::S2C, 0x3d),
        PacketView::EntityHeadRotationResponse(_) => (ConnectionState::Play, PacketDirection::S2C, 0x3e),
        PacketView::MultiBlockChangeResponse(_) => (ConnectionState::Play, PacketDirection::S2C, 0x3f),
        PacketView::SelectAdvancementTabResponse(_) => (ConnectionState::Play, PacketDirection::S2C, 0x40),
        PacketView::ActionBarResponse(_) => (ConnectionState::Play, PacketDirection::S2C, 0x41),
        PacketView::WorldBorderCenterResponse(_) => (ConnectionState::Play, PacketDirection::S2C, 0x42),
        PacketView::WorldBorderLerpSizeResponse(_) => (ConnectionState::Play, PacketDirection::S2C, 0x43),
        PacketView::WorldBorderSizeResponse(_) => (ConnectionState::Play, PacketDirection::S2C, 0x44),
        PacketView::WorldBorderWarningDelayResponse(_) => (ConnectionState::Play, PacketDirection::S2C, 0x45),
        PacketView::WorldBorderWarningReachResponse(_) => (ConnectionState::Play, PacketDirection::S2C, 0x46),
        PacketView::CameraResponse(_) => (ConnectionState::Play, PacketDirection::S2C, 0x47),
        PacketView::HeldItemSlotResponse(_) => (ConnectionState::Play, PacketDirection::S2C, 0x48),
        PacketView::UpdateViewPositionResponse(_) => (ConnectionState::Play, PacketDirection::S2C, 0x49),
        PacketView::UpdateViewDistanceResponse(_) => (ConnectionState::Play, PacketDirection::S2C, 0x4a),
        PacketView::SpawnPositionResponse(_) => (ConnectionState::Play, PacketDirection::S2C, 0x4b),
        PacketView::ScoreboardDisplayObjectiveResponse(_) => (ConnectionState::Play, PacketDirection::S2C, 0x4c),
        PacketView::EntityMetadataResponse(_) => (ConnectionState::Play, PacketDirection::S2C, 0x4d),
        PacketView::AttachEntityResponse(_) => (ConnectionState::Play, PacketDirection::S2C, 0x4e),
        PacketView::EntityVelocityResponse(_) => (ConnectionState::Play, PacketDirection::S2C, 0x4f),
        PacketView::EntityEquipmentResponse(_) => (ConnectionState::Play, PacketDirection::S2C, 0x50),
        PacketView::ExperienceResponse(_) => (ConnectionState::Play, PacketDirection::S2C, 0x51),
        PacketView::UpdateHealthResponse(_) => (ConnectionState::Play, PacketDirection::S2C, 0x52),
        PacketView::ScoreboardObjectiveResponse(_) => (ConnectionState::Play, PacketDirection::S2C, 0x53),
        PacketView::SetPassengersResponse(_) => (ConnectionState::Play, PacketDirection::S2C, 0x54),
        PacketView::TeamsResponse(_) => (ConnectionState::Play, PacketDirection::S2C, 0x55),
        PacketView::ScoreboardScoreResponse(_) => (ConnectionState::Play, PacketDirection::S2C, 0x56),
        PacketView::SimulationDistanceResponse(_) => (ConnectionState::Play, PacketDirection::S2C, 0x57),
        PacketView::SetTitleSubtitleResponse(_) => (ConnectionState::Play, PacketDirection::S2C, 0x58),
        PacketView::UpdateTimeResponse(_) => (ConnectionState::Play, PacketDirection::S2C, 0x59),
        PacketView::SetTitleTextResponse(_) => (ConnectionState::Play, PacketDirection::S2C, 0x5a),
        PacketView::SetTitleTimeResponse(_) => (ConnectionState::Play, PacketDirection::S2C, 0x5b),
        PacketView::EntitySoundEffectResponse(_) => (ConnectionState::Play, PacketDirection::S2C, 0x5c),
        PacketView::SoundEffectResponse(_) => (ConnectionState::Play, PacketDirection::S2C, 0x5d),
        PacketView::StopSoundResponse(_) => (ConnectionState::Play, PacketDirection::S2C, 0x5e),
        PacketView::PlayerlistHeaderResponse(_) => (ConnectionState::Play, PacketDirection::S2C, 0x5f),
        PacketView::NbtQueryResponse(_) => (ConnectionState::Play, PacketDirection::S2C, 0x60),
        PacketView::CollectResponse(_) => (ConnectionState::Play, PacketDirection::S2C, 0x61),
        PacketView::EntityTeleportResponse(_) => (ConnectionState::Play, PacketDirection::S2C, 0x62),
        PacketView::AdvancementsResponse(_) => (ConnectionState::Play, PacketDirection::S2C, 0x63),
        PacketView::EntityUpdateAttributesResponse(_) => (ConnectionState::Play, PacketDirection::S2C, 0x64),
        PacketView::EntityEffectResponse(_) => (ConnectionState::Play, PacketDirection::S2C, 0x65),
        PacketView::DeclareRecipesResponse(_) => (ConnectionState::Play, PacketDirection::S2C, 0x66),
        PacketView::TagsResponse(_) => (ConnectionState::Play, PacketDirection::S2C, 0x67),
    }
}

/// The bytes that the writer of a packet puts before its fields.
pub open spec fn packet_header(p: PacketView) -> Seq<u8> {
    match p {
        PacketView::SetProtocolRequest(v) => <handshaking::SetProtocolRequest<'static> as MD<'static>>::spec_header(),
        PacketView::LegacyServerListPingRequest(v) => <handshaking::LegacyServerListPingRequest as MD<'static>>::spec_header(),
        PacketView::PingStartRequest(v) => <status::PingStartRequest as MD<'static>>::spec_header(),
        PacketView::PingRequest(v) => <status::PingRequest as MD<'static>>::spec_header(),
        PacketView::ServerInfoResponse(v) => <status::ServerInfoResponse<'static> as MD<'static>>::spec_header(),
        PacketView::PingResponse(v) => <status::PingResponse as MD<'static>>::spec_header(),
        PacketView::LoginStartRequest(v) => <login::LoginStartRequest<'static> as MD<'static>>::spec_header(),
        PacketView::EncryptionBeginRequest(v) => <login::EncryptionBeginRequest<'static> as MD<'static>>::spec_header(),
        PacketView::LoginPluginResponse(v) => <login::LoginPluginResponse<'static> as MD<'static>>::spec_header(),
        PacketView::DisconnectResponse(v) => <login::DisconnectResponse<'static> as MD<'static>>::spec_header(),
        PacketView::EncryptionBeginResponse(v) => <login::EncryptionBeginResponse<'static> as MD<'static>>::spec_header(),
        PacketView::SuccessResponse(v) => <login::SuccessResponse<'static> as MD<'static>>::spec_header(),
        PacketView::CompressResponse(v) => <login::CompressResponse as MD<'static>>::spec_header(),
        PacketView::LoginPluginRequest(v) => <login::LoginPluginRequest<'static> as MD<'static>>::spec_header(),
        PacketView::TeleportConfirmRequest(v) => <play::TeleportConfirmRequest as MD<'static>>::spec_header(),
        PacketView::QueryBlockNbtRequest(v) => <play::QueryBlockNbtRequest as MD<'static>>::spec_header(),
        PacketView::SetDifficultyRequest(v) => <play::SetDifficultyRequest as MD<'static>>::spec_header(),
        PacketView::ChatRequest(v) => <play::ChatRequest<'static> as MD<'static>>::spec_header(),
        PacketView::ClientCommandRequest(v) => <play::ClientCommandRequest as MD<'static>>::spec_header(),
        PacketView::SettingsRequest(v) => <play::SettingsRequest<'static> as MD<'static>>::spec_header(),
        PacketView::TabCompleteRequest(v) => <play::TabCompleteRequest<'static> as MD<'static>>::spec_header(),
        PacketView::EnchantItemRequest(v) => <play::EnchantItemRequest as MD<'static>>::spec_header(),
        PacketView::WindowClickRequest(v) => <play::WindowClickRequest<'static> as MD<'static>>::spec_header(),
        PacketView::CloseWindowRequest(v) => <play::CloseWindowRequest as MD<'static>>::spec_header(),
        PacketView::CustomPayloadRequest(v) => <play::CustomPayloadRequest<'static> as MD<'static>>::spec_header(),
        PacketView::EditBookRequest(v) => <play::EditBookRequest<'static> as MD<'static>>::spec_header(),
        PacketView::QueryEntityNbtRequest(v) => <play::QueryEntityNbtRequest as MD<'static>>::spec_header(),
        PacketView::UseEntityRequest(v) => <play::UseEntityRequest as MD<'static>>::spec_header(),
        PacketView::GenerateStructureRequest(v) => <play::GenerateStructureRequest as MD<'static>>::spec_header(),
        PacketView::KeepAliveRequest(v) => <play::KeepAliveRequest as MD<'static>>::spec_header(),
        PacketView::LockDifficultyRequest(v) => <play::LockDifficultyRequest as MD<'static>>::spec_header(),
        PacketView::PositionRequest(v) => <play::PositionRequest as MD<'static>>::spec_header(),
        PacketView::PositionLookRequest(v) => <play::PositionLookRequest as MD<'static>>::spec_header(),
        PacketView::LookRequest(v) => <play::LookRequest as MD<'static>>::spec_header(),
        PacketView::FlyingRequest(v) => <play::FlyingRequest as MD<'static>>::spec_header(),
        PacketView::VehicleMoveRequest(v) => <play::VehicleMoveRequest as MD<'static>>::spec_header(),
        PacketView::SteerBoatRequest(v) => <play::SteerBoatRequest as MD<'static>>::spec_header(),
        PacketView::PickItemRequest(v) => <play::PickItemRequest as MD<'static>>::spec_header(),
        PacketView::CraftRecipeRequest(v) => <play::CraftRecipeRequest<'static> as MD<'static>>::spec_header(),
        PacketView::AbilitiesRequest(v) => <play::AbilitiesRequest as MD<'static>>::spec_header(),
        PacketView::BlockDigRequest(v) => <play::BlockDigRequest as MD<'static>>::spec_header(),
        PacketView::EntityActionRequest(v) => <play::EntityActionRequest as MD<'static>>::spec_header(),
        PacketView::SteerVehicleRequest(v) => <play::SteerVehicleRequest as MD<'static>>::spec_header(),
        PacketView::PongRequest(v) => <play::PongRequest as MD<'static>>::spec_header(),
        PacketView::RecipeBookRequest(v) => <play::RecipeBookRequest as MD<'static>>::spec_header(),
        PacketView::DisplayedRecipeRequest(v) => <play::DisplayedRecipeRequest<'static> as MD<'static>>::spec_header(),
        PacketView::NameItemRequest(v) => <play::NameItemRequest<'static> as MD<'static>>::spec_header(),
        PacketView::ResourcePackReceiveRequest(v) => <play::ResourcePackReceiveRequest as MD<'static>>::spec_header(),
        PacketView::AdvancementTabRequest(v) => <play::AdvancementTabRequest as MD<'static>>::spec_header(),
        PacketView::SelectTradeRequest(v) => <play::SelectTradeRequest as MD<'static>>::spec_header(),
        PacketView::SetBeaconEffectRequest(v) => <play::SetBeaconEffectRequest as MD<'static>>::spec_header(),
        PacketView::HeldItemSlotRequest(v) => <play::HeldItemSlotRequest as MD<'static>>::spec_header(),
        PacketView::UpdateCommandBlockRequest(v) => <play::UpdateCommandBlockRequest<'static> as MD<'static>>::spec_header(),
        PacketView::UpdateCommandBlockMinecartRequest(v) => <play::UpdateCommandBlockMinecartRequest<'static> as MD<'static>>::spec_header(),
        PacketView::SetCreativeSlotRequest(v) => <play::SetCreativeSlotRequest<'static> as MD<'static>>::spec_header(),
        PacketView::UpdateJigsawBlockRequest(v) => <play::UpdateJigsawBlockRequest<'static> as MD<'static>>::spec_header(),
        PacketView::UpdateStructureBlockRequest(v) => <play::UpdateStructureBlockRequest<'static> as MD<'static>>::spec_header(),
        PacketView::UpdateSignRequest(v) => <play::UpdateSignRequest<'static> as MD<'static>>::spec_header(),
        PacketView::ArmAnimationRequest(v) => <play::ArmAnimationRequest as MD<'static>>::spec_header(),
        PacketView::SpectateRequest(v) => <play::SpectateRequest as MD<'static>>::spec_header(),
        PacketView::BlockPlaceRequest(v) => <play::BlockPlaceRequest as MD<'static>>::spec_header(),
        PacketView::UseItemRequest(v) => <play::UseItemRequest as MD<'static>>::spec_header(),
        PacketView::SpawnEntityResponse(v) => <play::SpawnEntityResponse as MD<'static>>::spec_header(),
        PacketView::SpawnEntityExperienceOrbResponse(v) => <play::SpawnEntityExperienceOrbResponse as MD<'static>>::spec_header(),
        PacketView::SpawnEntityLivingResponse(v) => <play::SpawnEntityLivingResponse as MD<'static>>::spec_header(),
        PacketView::SpawnEntityPaintingResponse(v) => <play::SpawnEntityPaintingResponse as MD<'static>>::spec_header(),
        PacketView::NamedEntitySpawnResponse(v) => <play::NamedEntitySpawnResponse as MD<'static>>::spec_header(),
        PacketView::SculkVibrationSignalResponse(v) => <play::SculkVibrationSignalResponse as MD<'static>>::spec_header(),
        PacketView::AnimationResponse(v) => <play::AnimationResponse as MD<'static>>::spec_header(),
        PacketView::StatisticsResponse(v) => <play::StatisticsResponse as MD<'static>>::spec_header(),
        PacketView::AcknowledgePlayerDiggingResponse(v) => <play::AcknowledgePlayerDiggingResponse as MD<'static>>::spec_header(),
        PacketView::BlockBreakAnimationResponse(v) => <play::BlockBreakAnimationResponse as MD<'static>>::spec_header(),
        PacketView::TileEntityDataResponse(v) => <play::TileEntityDataResponse<'static> as MD<'static>>::spec_header(),
        PacketView::BlockActionResponse(v) => <play::BlockActionResponse as MD<'static>>::spec_header(),
        PacketView::BlockChangeResponse(v) => <play::BlockChangeResponse as MD<'static>>::spec_header(),
        PacketView::BossBarResponse(v) => <play::BossBarResponse as MD<'static>>::spec_header(),
        PacketView::DifficultyResponse(v) => <play::DifficultyResponse as MD<'static>>::spec_header(),
        PacketView::ChatResponse(v) => <play::ChatResponse<'static> as MD<'static>>::spec_header(),
        PacketView::ClearTitlesResponse(v) => <play::ClearTitlesResponse as MD<'static>>::spec_header(),
        PacketView::TabCompleteResponse(v) => <play::TabCompleteResponse<'static> as MD<'static>>::spec_header(),
        PacketView::DeclareCommandsResponse(v) => <play::DeclareCommandsResponse as MD<'static>>::spec_header(),
        PacketView::CloseWindowResponse(v) => <play::CloseWindowResponse as MD<'static>>::spec_header(),
        PacketView::WindowItemsResponse(v) => <play::WindowItemsResponse<'static> as MD<'static>>::spec_header(),
        PacketView::CraftProgressBarResponse(v) => <play::CraftProgressBarResponse as MD<'static>>::spec_header(),
        PacketView::SetSlotResponse(v) => <play::SetSlotResponse<'static> as MD<'static>>::spec_header(),
        PacketView::SetCooldownResponse(v) => <play::SetCooldownResponse as MD<'static>>::spec_header(),
        PacketView::CustomPayloadResponse(v) => <play::CustomPayloadResponse<'static> as MD<'static>>::spec_header(),
        PacketView::NamedSoundEffectResponse(v) => <play::NamedSoundEffectResponse<'static> as MD<'static>>::spec_header(),
        PacketView::KickDisconnectResponse(v) => <play::KickDisconnectResponse<'static> as MD<'static>>::spec_header(),
        PacketView::EntityStatusResponse(v) => <play::EntityStatusResponse as MD<'static>>::spec_header(),
        PacketView::ExplosionResponse(v) => <play::ExplosionResponse as MD<'static>>::spec_header(),
        PacketView::UnloadChunkResponse(v) => <play::UnloadChunkResponse as MD<'static>>::spec_header(),
        PacketView::GameStateChangeResponse(v) => <play::GameStateChangeResponse as MD<'static>>::spec_header(),
        PacketView::OpenHorseWindowResponse(v) => <play::OpenHorseWindowResponse as MD<'static>>::spec_header(),
        PacketView::InitializeWorldBorderResponse(v) => <play::InitializeWorldBorderResponse as MD<'static>>::spec_header(),
        PacketView::KeepAliveResponse(v) => <play::KeepAliveResponse as MD<'static>>::spec_header(),
        PacketView::MapChunkResponse(v) => <play::MapChunkResponse<'static> as MD<'static>>::spec_header(),
        PacketView::WorldEventResponse(v) => <play::WorldEventResponse as MD<'static>>::spec_header(),
        PacketView::WorldParticlesResponse(v) => <play::WorldParticlesResponse as MD<'static>>::spec_header(),
        PacketView::UpdateLightResponse(v) => <play::UpdateLightResponse<'static> as MD<'static>>::spec_header(),
        PacketView::LoginResponse(v) => <play::LoginResponse<'static> as MD<'static>>::spec_header(),
        PacketView::MapResponse(v) => <play::MapResponse as MD<'static>>::spec_header(),
        PacketView::TradeListResponse(v) => <play::TradeListResponse<'static> as MD<'static>>::spec_header(),
        PacketView::RelEntityMoveResponse(v) => <play::RelEntityMoveResponse as MD<'static>>::spec_header(),
        PacketView::EntityMoveLookResponse(v) => <play::EntityMoveLookResponse as MD<'static>>::spec_header(),
        PacketView::EntityLookResponse(v) => <play::EntityLookResponse as MD<'static>>::spec_header(),
        PacketView::VehicleMoveResponse(v) => <play::VehicleMoveResponse as MD<'static>>::spec_header(),
        PacketView::OpenBookResponse(v) => <play::OpenBookResponse as MD<'static>>::spec_header(),
        PacketView::OpenWindowResponse(v) => <play::OpenWindowResponse<'static> as MD<'static>>::spec_header(),
        PacketView::OpenSignEntityResponse(v) => <play::OpenSignEntityResponse as MD<'static>>::spec_header(),
        PacketView::PlayPingResponse(v) => <play::PlayPingResponse as MD<'static>>::spec_header(),
        PacketView::CraftRecipeResponse(v) => <play::CraftRecipeResponse<'static> as MD<'static>>::spec_header(),
        PacketView::AbilitiesResponse(v) => <play::AbilitiesResponse as MD<'static>>::spec_header(),
        PacketView::EndCombatEventResponse(v) => <play::EndCombatEventResponse as MD<'static>>::spec_header(),
        PacketView::EnterCombatEventResponse(v) => <play::EnterCombatEventResponse as MD<'static>>::spec_header(),
        PacketView::DeathCombatEventResponse(v) => <play::DeathCombatEventResponse<'static> as MD<'static>>::spec_header(),
        PacketView::PlayerInfoResponse(v) => <play::PlayerInfoResponse as MD<'static>>::spec_header(),
        PacketView::FacePlayerResponse(v) => <play::FacePlayerResponse as MD<'static>>::spec_header(),
        PacketView::PositionResponse(v) => <play::PositionResponse as MD<'static>>::spec_header(),
        PacketView::UnlockRecipesResponse(v) => <play::UnlockRecipesResponse as MD<'static>>::spec_header(),
        PacketView::EntityDestroyResponse(v) => <play::EntityDestroyResponse as MD<'static>>::spec_header(),
        PacketView::RemoveEntityEffectResponse(v) => <play::RemoveEntityEffectResponse as MD<'static>>::spec_header(),
        PacketView::ResourcePackSendResponse(v) => <play::ResourcePackSendResponse<'static> as MD<'static>>::spec_header(),
        PacketView::RespawnResponse(v) => <play::RespawnResponse<'static> as MD<'static>>::spec_header(),
        PacketView::EntityHeadRotationResponse(v) => <play::EntityHeadRotationResponse as MD<'static>>::spec_header(),
        PacketView::MultiBlockChangeResponse(v) => <play::MultiBlockChangeResponse as MD<'static>>::spec_header(),
        PacketView::SelectAdvancementTabResponse(v) => <play::SelectAdvancementTabResponse<'static> as MD<'static>>::spec_header(),
        PacketView::ActionBarResponse(v) => <play::ActionBarResponse<'static> as MD<'static>>::spec_header(),
        PacketView::WorldBorderCenterResponse(v) => <play::WorldBorderCenterResponse as MD<'static>>::spec_header(),
        PacketView::WorldBorderLerpSizeResponse(v) => <play::WorldBorderLerpSizeResponse as MD<'static>>::spec_header(),
        PacketView::WorldBorderSizeResponse(v) => <play::WorldBorderSizeResponse as MD<'static>>::spec_header(),
        PacketView::WorldBorderWarningDelayResponse(v) => <play::WorldBorderWarningDelayResponse as MD<'static>>::spec_header(),
        PacketView::WorldBorderWarningReachResponse(v) => <play::WorldBorderWarningReachResponse as MD<'static>>::spec_header(),
        PacketView::CameraResponse(v) => <play::CameraResponse as MD<'static>>::spec_header(),
        PacketView::HeldItemSlotResponse(v) => <play::HeldItemSlotResponse as MD<'static>>::spec_header(),
        PacketView::UpdateViewPositionResponse(v) => <play::UpdateViewPositionResponse as MD<'static>>::spec_header(),
        PacketView::UpdateViewDistanceResponse(v) => <play::UpdateViewDistanceResponse as MD<'static>>::spec_header(),
        PacketView::SpawnPositionResponse(v) => <play::SpawnPositionResponse as MD<'static>>::spec_header(),
        PacketView::ScoreboardDisplayObjectiveResponse(v) => <play::ScoreboardDisplayObjectiveResponse<'static> as MD<'static>>::spec_header(),
        PacketView::EntityMetadataResponse(v) => <play::EntityMetadataResponse as MD<'static>>::spec_header(),
        PacketView::AttachEntityResponse(v) => <play::AttachEntityResponse as MD<'static>>::spec_header(),
        PacketView::EntityVelocityResponse(v) => <play::EntityVelocityResponse as MD<'static>>::spec_header(),
        PacketView::EntityEquipmentResponse(v) => <play::EntityEquipmentResponse as MD<'static>>::spec_header(),
        PacketView::ExperienceResponse(v) => <play::ExperienceResponse as MD<'static>>::spec_header(),
        PacketView::UpdateHealthResponse(v) => <play::UpdateHealthResponse as MD<'static>>::spec_header(),
        PacketView::ScoreboardObjectiveResponse(v) => <play::ScoreboardObjectiveResponse as MD<'static>>::spec_header(),
        PacketView::SetPassengersResponse(v) => <play::SetPassengersResponse as MD<'static>>::spec_header(),
        PacketView::TeamsResponse(v) => <play::TeamsResponse as MD<'static>>::spec_header(),
        PacketView::ScoreboardScoreResponse(v) => <play::ScoreboardScoreResponse as MD<'static>>::spec_header(),
        PacketView::SimulationDistanceResponse(v) => <play::SimulationDistanceResponse as MD<'static>>::spec_header(),
        PacketView::SetTitleSubtitleResponse(v) => <play::SetTitleSubtitleResponse<'static> as MD<'static>>::spec_header(),
        PacketView::UpdateTimeResponse(v) => <play::UpdateTimeResponse as MD<'static>>::spec_header(),
        PacketView::SetTitleTextResponse(v) => <play::SetTitleTextResponse<'static> as MD<'static>>::spec_header(),
        PacketView::SetTitleTimeResponse(v) => <play::SetTitleTimeResponse as MD<'static>>::spec_header(),
        PacketView::EntitySoundEffectResponse(v) => <play::EntitySoundEffectResponse as MD<'static>>::spec_header(),
        PacketView::SoundEffectResponse(v) => <play::SoundEffectResponse as MD<'static>>::spec_header(),
        PacketView::StopSoundResponse(v) => <play::StopSoundResponse as MD<'static>>::spec_header(),
        PacketView::PlayerlistHeaderResponse(v) => <play::PlayerlistHeaderResponse<'static> as MD<'static>>::spec_header(),
        PacketView::NbtQueryResponse(v) => <play::NbtQueryResponse<'static> as MD<'static>>::spec_header(),
        PacketView::CollectResponse(v) => <play::CollectResponse as MD<'static>>::spec_header(),
        PacketView::EntityTeleportResponse(v) => <play::EntityTeleportResponse as MD<'static>>::spec_header(),
        PacketView::AdvancementsResponse(v) => <play::AdvancementsResponse as MD<'static>>::spec_header(),
        PacketView::EntityUpdateAttributesResponse(v) => <play::EntityUpdateAttributesResponse<'static> as MD<'static>>::spec_header(),
        PacketView::EntityEffectResponse(v) => <play::EntityEffectResponse as MD<'static>>::spec_header(),
        PacketView::DeclareRecipesResponse(v) => <play::DeclareRecipesResponse as MD<'static>>::spec_header(),
        PacketView::TagsResponse(v) => <play::TagsResponse as MD<'static>>::spec_header(),
    }
}

/// The bytes of the fields of a packet.
pub open spec fn packet_body_bytes(p: PacketView) -> Seq<u8> {
    match p {
        PacketView::SetProtocolRequest(v) => <handshaking::SetProtocolRequest<'static> as MD<'static>>::spec_serialize(v),
        PacketView::LegacyServerListPingRequest(v) => <handshaking::LegacyServerListPingRequest as MD<'static>>::spec_serialize(v),
        PacketView::PingStartRequest(v) => <status::PingStartRequest as MD<'static>>::spec_serialize(v),
        PacketView::PingRequest(v) => <status::PingRequest as MD<'static>>::spec_serialize(v),
        PacketView::ServerInfoResponse(v) => <status::ServerInfoResponse<'static> as MD<'static>>::spec_serialize(v),
        PacketView::PingResponse(v) => <status::PingResponse as MD<'static>>::spec_serialize(v),
        PacketView::LoginStartRequest(v) => <login::LoginStartRequest<'static> as MD<'static>>::spec_serialize(v),
        PacketView::EncryptionBeginRequest(v) => <login::EncryptionBeginRequest<'static> as MD<'static>>::spec_serialize(v),
        PacketView::LoginPluginResponse(v) => <login::LoginPluginResponse<'static> as MD<'static>>::spec_serialize(v),
        PacketView::DisconnectResponse(v) => <login::DisconnectResponse<'static> as MD<'static>>::spec_serialize(v),
        PacketView::EncryptionBeginResponse(v) => <login::EncryptionBeginResponse<'static> as MD<'static>>::spec_serialize(v),
        PacketView::SuccessResponse(v) => <login::SuccessResponse<'static> as MD<'static>>::spec_serialize(v),
        PacketView::CompressResponse(v) => <login::CompressResponse as MD<'static>>::spec_serialize(v),
        PacketView::LoginPluginRequest(v) => <login::LoginPluginRequest<'static> as MD<'static>>::spec_serialize(v),
        PacketView::TeleportConfirmRequest(v) => <play::TeleportConfirmRequest as MD<'static>>::spec_serialize(v),
        PacketView::QueryBlockNbtRequest(v) => <play::QueryBlockNbtRequest as MD<'static>>::spec_serialize(v),
        PacketView::SetDifficultyRequest(v) => <play::SetDifficultyRequest as MD<'static>>::spec_serialize(v),
        PacketView::ChatRequest(v) => <play::ChatRequest<'static> as MD<'static>>::spec_serialize(v),
        PacketView::ClientCommandRequest(v) => <play::ClientCommandRequest as MD<'static>>::spec_serialize(v),
        PacketView::SettingsRequest(v) => <play::SettingsRequest<'static> as MD<'static>>::spec_serialize(v),
        PacketView::TabCompleteRequest(v) => <play::TabCompleteRequest<'static> as MD<'static>>::spec_serialize(v),
        PacketView::EnchantItemRequest(v) => <play::EnchantItemRequest as MD<'static>>::spec_serialize(v),
        PacketView::WindowClickRequest(v) => <play::WindowClickRequest<'static> as MD<'static>>::spec_serialize(v),
        PacketView::CloseWindowRequest(v) => <play::CloseWindowRequest as MD<'static>>::spec_serialize(v),
        PacketView::CustomPayloadRequest(v) => <play::CustomPayloadRequest<'static> as MD<'static>>::spec_serialize(v),
        PacketView::EditBookRequest(v) => <play::EditBookRequest<'static> as MD<'static>>::spec_serialize(v),
        PacketView::QueryEntityNbtRequest(v) => <play::QueryEntityNbtRequest as MD<'static>>::spec_serialize(v),
        PacketView::UseEntityRequest(v) => <play::UseEntityRequest as MD<'static>>::spec_serialize(v),
        PacketView::GenerateStructureRequest(v) => <play::GenerateStructureRequest as MD<'static>>::spec_serialize(v),
        PacketView::KeepAliveRequest(v) => <play::KeepAliveRequest as MD<'static>>::spec_serialize(v),
        PacketView::LockDifficultyRequest(v) => <play::LockDifficultyRequest as MD<'static>>::spec_serialize(v),
        PacketView::PositionRequest(v) => <play::PositionRequest as MD<'static>>::spec_serialize(v),
        PacketView::PositionLookRequest(v) => <play::PositionLookRequest as MD<'static>>::spec_serialize(v),
        PacketView::LookRequest(v) => <play::LookRequest as MD<'static>>::spec_serialize(v),
        PacketView::FlyingRequest(v) => <play::FlyingRequest as MD<'static>>::spec_serialize(v),
        PacketView::VehicleMoveRequest(v) => <play::VehicleMoveRequest as MD<'static>>::spec_serialize(v),
        PacketView::SteerBoatRequest(v) => <play::SteerBoatRequest as MD<'static>>::spec_serialize(v),
        PacketView::PickItemRequest(v) => <play::PickItemRequest as MD<'static>>::spec_serialize(v),
        PacketView::CraftRecipeRequest(v) => <play::CraftRecipeRequest<'static> as MD<'static>>::spec_serialize(v),
        PacketView::AbilitiesRequest(v) => <play::AbilitiesRequest as MD<'static>>::spec_serialize(v),
        PacketView::BlockDigRequest(v) => <play::BlockDigRequest as MD<'static>>::spec_serialize(v),
        PacketView::EntityActionRequest(v) => <play::EntityActionRequest as MD<'static>>::spec_serialize(v),
        PacketView::SteerVehicleRequest(v) => <play::SteerVehicleRequest as MD<'static>>::spec_serialize(v),
        PacketView::PongRequest(v) => <play::PongRequest as MD<'static>>::spec_serialize(v),
        PacketView::RecipeBookRequest(v) => <play::RecipeBookRequest as MD<'static>>::spec_serialize(v),
        PacketView::DisplayedRecipeRequest(v) => <play::DisplayedRecipeRequest<'static> as MD<'static>>::spec_serialize(v),
        PacketView::NameItemRequest(v) => <play::NameItemRequest<'static> as MD<'static>>::spec_serialize(v),
        PacketView::ResourcePackReceiveRequest(v) => <play::ResourcePackReceiveRequest as MD<'static>>::spec_serialize(v),
        PacketView::AdvancementTabRequest(v) => <play::AdvancementTabRequest as MD<'static>>::spec_serialize(v),
        PacketView::SelectTradeRequest(v) => <play::SelectTradeRequest as MD<'static>>::spec_serialize(v),
        PacketView::SetBeaconEffectRequest(v) => <play::SetBeaconEffectRequest as MD<'static>>::spec_serialize(v),
        PacketView::HeldItemSlotRequest(v) => <play::HeldItemSlotRequest as MD<'static>>::spec_serialize(v),
        PacketView::UpdateCommandBlockRequest(v) => <play::UpdateCommandBlockRequest<'static> as MD<'static>>::spec_serialize(v),
        PacketView::UpdateCommandBlockMinecartRequest(v) => <play::UpdateCommandBlockMinecartRequest<'static> as MD<'static>>::spec_serialize(v),
        PacketView::SetCreativeSlotRequest(v) => <play::SetCreativeSlotRequest<'static> as MD<'static>>::spec_serialize(v),
        PacketView::UpdateJigsawBlockRequest(v) => <play::UpdateJigsawBlockRequest<'static> as MD<'static>>::spec_serialize(v),
        PacketView::UpdateStructureBlockRequest(v) => <play::UpdateStructureBlockRequest<'static> as MD<'static>>::spec_serialize(v),
        PacketView::UpdateSignRequest(v) => <play::UpdateSignRequest<'static> as MD<'static>>::spec_serialize(v),
        PacketView::ArmAnimationRequest(v) => <play::ArmAnimationRequest as MD<'static>>::spec_serialize(v),
        PacketView::SpectateRequest(v) => <play::SpectateRequest as MD<'static>>::spec_serialize(v),
        PacketView::BlockPlaceRequest(v) => <play::BlockPlaceRequest as MD<'static>>::spec_serialize(v),
        PacketView::UseItemRequest(v) => <play::UseItemRequest as MD<'static>>::spec_serialize(v),
        PacketView::SpawnEntityResponse(v) => <play::SpawnEntityResponse as MD<'static>>::spec_serialize(v),
        PacketView::SpawnEntityExperienceOrbResponse(v) => <play::SpawnEntityExperienceOrbResponse as MD<'static>>::spec_serialize(v),
        PacketView::SpawnEntityLivingResponse(v) => <play::SpawnEntityLivingResponse as MD<'static>>::spec_serialize(v),
        PacketView::SpawnEntityPaintingResponse(v) => <play::SpawnEntityPaintingResponse as MD<'static>>::spec_serialize(v),
        PacketView::NamedEntitySpawnResponse(v) => <play::NamedEntitySpawnResponse as MD<'static>>::spec_serialize(v),
        PacketView::SculkVibrationSignalResponse(v) => <play::SculkVibrationSignalResponse as MD<'static>>::spec_serialize(v),
        PacketView::AnimationResponse(v) => <play::AnimationResponse as MD<'static>>::spec_serialize(v),
        PacketView::StatisticsResponse(v) => <play::StatisticsResponse as MD<'static>>::spec_serialize(v),
        PacketView::AcknowledgePlayerDiggingResponse(v) => <play::AcknowledgePlayerDiggingResponse as MD<'static>>::spec_serialize(v),
        PacketView::BlockBreakAnimationResponse(v) => <play::BlockBreakAnimationResponse as MD<'static>>::spec_serialize(v),
        PacketView::TileEntityDataResponse(v) => <play::TileEntityDataResponse<'static> as MD<'static>>::spec_serialize(v),
        PacketView::BlockActionResponse(v) => <play::BlockActionResponse as MD<'static>>::spec_serialize(v),
        PacketView::BlockChangeResponse(v) => <play::BlockChangeResponse as MD<'static>>::spec_serialize(v),
        PacketView::BossBarResponse(v) => <play::BossBarResponse as MD<'static>>::spec_serialize(v),
        PacketView::DifficultyResponse(v) => <play::DifficultyResponse as MD<'static>>::spec_serialize(v),
        PacketView::ChatResponse(v) => <play::ChatResponse<'static> as MD<'static>>::spec_serialize(v),
        PacketView::ClearTitlesResponse(v) => <play::ClearTitlesResponse as MD<'static>>::spec_serialize(v),
        PacketView::TabCompleteResponse(v) => <play::TabCompleteResponse<'static> as MD<'static>>::spec_serialize(v),
        PacketView::DeclareCommandsResponse(v) => <play::DeclareCommandsResponse as MD<'static>>::spec_serialize(v),
        PacketView::CloseWindowResponse(v) => <play::CloseWindowResponse as MD<'static>>::spec_serialize(v),
        PacketView::WindowItemsResponse(v) => <play::WindowItemsResponse<'static> as MD<'static>>::spec_serialize(v),
        PacketView::CraftProgressBarResponse(v) => <play::CraftProgressBarResponse as MD<'static>>::spec_serialize(v),
        PacketView::SetSlotResponse(v) => <play::SetSlotResponse<'static> as MD<'static>>::spec_serialize(v),
        PacketView::SetCooldownResponse(v) => <play::SetCooldownResponse as MD<'static>>::spec_serialize(v),
        PacketView::CustomPayloadResponse(v) => <play::CustomPayloadResponse<'static> as MD<'static>>::spec_serialize(v),
        PacketView::NamedSoundEffectResponse(v) => <play::NamedSoundEffectResponse<'static> as MD<'static>>::spec_serialize(v),
        PacketView::KickDisconnectResponse(v) => <play::KickDisconnectResponse<'static> as MD<'static>>::spec_serialize(v),
        PacketView::EntityStatusResponse(v) => <play::EntityStatusResponse as MD<'static>>::spec_serialize(v),
        PacketView::ExplosionResponse(v) => <play::ExplosionResponse as MD<'static>>::spec_serialize(v),
        PacketView::UnloadChunkResponse(v) => <play::UnloadChunkResponse as MD<'static>>::spec_serialize(v),
        PacketView::GameStateChangeResponse(v) => <play::GameStateChangeResponse as MD<'static>>::spec_serialize(v),
        PacketView::OpenHorseWindowResponse(v) => <play::OpenHorseWindowResponse as MD<'static>>::spec_serialize(v),
        PacketView::InitializeWorldBorderResponse(v) => <play::InitializeWorldBorderResponse as MD<'static>>::spec_serialize(v),
        PacketView::KeepAliveResponse(v) => <play::KeepAliveResponse as MD<'static>>::spec_serialize(v),
        PacketView::MapChunkResponse(v) => <play::MapChunkResponse<'static> as MD<'static>>::spec_serialize(v),
        PacketView::WorldEventResponse(v) => <play::WorldEventResponse as MD<'static>>::spec_serialize(v),
        PacketView::WorldParticlesResponse(v) => <play::WorldParticlesResponse as MD<'static>>::spec_serialize(v),
        PacketView::UpdateLightResponse(v) => <play::UpdateLightResponse<'static> as MD<'static>>::spec_serialize(v),
        PacketView::LoginResponse(v) => <play::LoginResponse<'static> as MD<'static>>::spec_serialize(v),
        PacketView::MapResponse(v) => <play::MapResponse as MD<'static>>::spec_serialize(v),
        PacketView::TradeListResponse(v) => <play::TradeListResponse<'static> as MD<'static>>::spec_serialize(v),
        PacketView::RelEntityMoveResponse(v) => <play::RelEntityMoveResponse as MD<'static>>::spec_serialize(v),
        PacketView::EntityMoveLookResponse(v) => <play::EntityMoveLookResponse as MD<'static>>::spec_serialize(v),
        PacketView::EntityLookResponse(v) => <play::EntityLookResponse as MD<'static>>::spec_serialize(v),
        PacketView::VehicleMoveResponse(v) => <play::VehicleMoveResponse as MD<'static>>::spec_serialize(v),
        PacketView::OpenBookResponse(v) => <play::OpenBookResponse as MD<'static>>::spec_serialize(v),
        PacketView::OpenWindowResponse(v) => <play::OpenWindowResponse<'static> as MD<'static>>::spec_serialize(v),
        PacketView::OpenSignEntityResponse(v) => <play::OpenSignEntityResponse as MD<'static>>::spec_serialize(v),
        PacketView::PlayPingResponse(v) => <play::PlayPingResponse as MD<'static>>::spec_serialize(v),
        PacketView::CraftRecipeResponse(v) => <play::CraftRecipeResponse<'static> as MD<'static>>::spec_serialize(v),
        PacketView::AbilitiesResponse(v) => <play::AbilitiesResponse as MD<'static>>::spec_serialize(v),
        PacketView::EndCombatEventResponse(v) => <play::EndCombatEventResponse as MD<'static>>::spec_serialize(v),
        PacketView::EnterCombatEventResponse(v) => <play::EnterCombatEventResponse as MD<'static>>::spec_serialize(v),
        PacketView::DeathCombatEventResponse(v) => <play::DeathCombatEventResponse<'static> as MD<'static>>::spec_serialize(v),
        PacketView::PlayerInfoResponse(v) => <play::PlayerInfoResponse as MD<'static>>::spec_serialize(v),
        PacketView::FacePlayerResponse(v) => <play::FacePlayerResponse as MD<'static>>::spec_serialize(v),
        PacketView::PositionResponse(v) => <play::PositionResponse as MD<'static>>::spec_serialize(v),
        PacketView::UnlockRecipesResponse(v) => <play::UnlockRecipesResponse as MD<'static>>::spec_serialize(v),
        PacketView::EntityDestroyResponse(v) => <play::EntityDestroyResponse as MD<'static>>::spec_serialize(v),
        PacketView::RemoveEntityEffectResponse(v) => <play::RemoveEntityEffectResponse as MD<'static>>::spec_serialize(v),
        PacketView::ResourcePackSendResponse(v) => <play::ResourcePackSendResponse<'static> as MD<'static>>::spec_serialize(v),
        PacketView::RespawnResponse(v) => <play::RespawnResponse<'static> as MD<'static>>::spec_serialize(v),
        PacketView::EntityHeadRotationResponse(v) => <play::EntityHeadRotationResponse as MD<'static>>::spec_serialize(v),
        PacketView::MultiBlockChangeResponse(v) => <play::MultiBlockChangeResponse as MD<'static>>::spec_serialize(v),
        PacketView::SelectAdvancementTabResponse(v) => <play::SelectAdvancementTabResponse<'static> as MD<'static>>::spec_serialize(v),
        PacketView::ActionBarResponse(v) => <play::ActionBarResponse<'static> as MD<'static>>::spec_serialize(v),
        PacketView::WorldBorderCenterResponse(v) => <play::WorldBorderCenterResponse as MD<'static>>::spec_serialize(v),
        PacketView::WorldBorderLerpSizeResponse(v) => <play::WorldBorderLerpSizeResponse as MD<'static>>::spec_serialize(v),
        PacketView::WorldBorderSizeResponse(v) => <play::WorldBorderSizeResponse as MD<'static>>::spec_serialize(v),
        PacketView::WorldBorderWarningDelayResponse(v) => <play::WorldBorderWarningDelayResponse as MD<'static>>::spec_serialize(v),
        PacketView::WorldBorderWarningReachResponse(v) => <play::WorldBorderWarningReachResponse as MD<'static>>::spec_serialize(v),
        PacketView::CameraResponse(v) => <play::CameraResponse as MD<'static>>::spec_serialize(v),
        PacketView::HeldItemSlotResponse(v) => <play::HeldItemSlotResponse as MD<'static>>::spec_serialize(v),
        PacketView::UpdateViewPositionResponse(v) => <play::UpdateViewPositionResponse as MD<'static>>::spec_serialize(v),
        PacketView::UpdateViewDistanceResponse(v) => <play::UpdateViewDistanceResponse as MD<'static>>::spec_serialize(v),
        PacketView::SpawnPositionResponse(v) => <play::SpawnPositionResponse as MD<'static>>::spec_serialize(v),
        PacketView::ScoreboardDisplayObjectiveResponse(v) => <play::ScoreboardDisplayObjectiveResponse<'static> as MD<'static>>::spec_serialize(v),
        PacketView::EntityMetadataResponse(v) => <play::EntityMetadataResponse as MD<'static>>::spec_serialize(v),
        PacketView::AttachEntityResponse(v) => <play::AttachEntityResponse as MD<'static>>::spec_serialize(v),
        PacketView::EntityVelocityResponse(v) => <play::EntityVelocityResponse as MD<'static>>::spec_serialize(v),
        PacketView::EntityEquipmentResponse(v) => <play::EntityEquipmentResponse as MD<'static>>::spec_serialize(v),
        PacketView::ExperienceResponse(v) => <play::ExperienceResponse as MD<'static>>::spec_serialize(v),
        PacketView::UpdateHealthResponse(v) => <play::UpdateHealthResponse as MD<'static>>::spec_serialize(v),
        PacketView::ScoreboardObjectiveResponse(v) => <play::ScoreboardObjectiveResponse as MD<'static>>::spec_serialize(v),
        PacketView::SetPassengersResponse(v) => <play::SetPassengersResponse as MD<'static>>::spec_serialize(v),
        PacketView::TeamsResponse(v) => <play::TeamsResponse as MD<'static>>::spec_serialize(v),
        PacketView::ScoreboardScoreResponse(v) => <play::ScoreboardScoreResponse as MD<'static>>::spec_serialize(v),
        PacketView::SimulationDistanceResponse(v) => <play::SimulationDistanceResponse as MD<'static>>::spec_serialize(v),
        PacketView::SetTitleSubtitleResponse(v) => <play::SetTitleSubtitleResponse<'static> as MD<'static>>::spec_serialize(v),
        PacketView::UpdateTimeResponse(v) => <play::UpdateTimeResponse as MD<'static>>::spec_serialize(v),
        PacketView::SetTitleTextResponse(v) => <play::SetTitleTextResponse<'static> as MD<'static>>::spec_serialize(v),
        PacketView::SetTitleTimeResponse(v) => <play::SetTitleTimeResponse as MD<'static>>::spec_serialize(v),
        PacketView::EntitySoundEffectResponse(v) => <play::EntitySoundEffectResponse as MD<'static>>::spec_serialize(v),
        PacketView::SoundEffectResponse(v) => <play::SoundEffectResponse as MD<'static>>::spec_serialize(v),
        PacketView::StopSoundResponse(v) => <play::StopSoundResponse as MD<'static>>::spec_serialize(v),
        PacketView::PlayerlistHeaderResponse(v) => <play::PlayerlistHeaderResponse<'static> as MD<'static>>::spec_serialize(v),
        PacketView::NbtQueryResponse(v) => <play::NbtQueryResponse<'static> as MD<'static>>::spec_serialize(v),
        PacketView::CollectResponse(v) => <play::CollectResponse as MD<'static>>::spec_serialize(v),
        PacketView::EntityTeleportResponse(v) => <play::EntityTeleportResponse as MD<'static>>::spec_serialize(v),
        PacketView::AdvancementsResponse(v) => <play::AdvancementsResponse as MD<'static>>::spec_serialize(v),
        PacketView::EntityUpdateAttributesResponse(v) => <play::EntityUpdateAttributesResponse<'static> as MD<'static>>::spec_serialize(v),
        PacketView::EntityEffectResponse(v) => <play::EntityEffectResponse as MD<'static>>::spec_serialize(v),
        PacketView::DeclareRecipesResponse(v) => <play::DeclareRecipesResponse as MD<'static>>::spec_serialize(v),
        PacketView::TagsResponse(v) => <play::TagsResponse as MD<'static>>::spec_serialize(v),
    }
}

/// Whether a packet can be written and read back.
pub open spec fn packet_encodable(p: PacketView) -> bool {
    match p {
        PacketView::SetProtocolRequest(v) => <handshaking::SetProtocolRequest<'static> as MD<'static>>::encodable(v),
        PacketView::LegacyServerListPingRequest(v) => <handshaking::LegacyServerListPingRequest as MD<'static>>::encodable(v),
        PacketView::PingStartRequest(v) => <status::PingStartRequest as MD<'static>>::encodable(v),
        PacketView::PingRequest(v) => <status::PingRequest as MD<'static>>::encodable(v),
        PacketView::ServerInfoResponse(v) => <status::ServerInfoResponse<'static> as MD<'static>>::encodable(v),
        PacketView::PingResponse(v) => <status::PingResponse as MD<'static>>::encodable(v),
        PacketView::LoginStartRequest(v) => <login::LoginStartRequest<'static> as MD<'static>>::encodable(v),
        PacketView::EncryptionBeginRequest(v) => <login::EncryptionBeginRequest<'static> as MD<'static>>::encodable(v),
        PacketView::LoginPluginResponse(v) => <login::LoginPluginResponse<'static> as MD<'static>>::encodable(v),
        PacketView::DisconnectResponse(v) => <login::DisconnectResponse<'static> as MD<'static>>::encodable(v),
        PacketView::EncryptionBeginResponse(v) => <login::EncryptionBeginResponse<'static> as MD<'static>>::encodable(v),
        PacketView::SuccessResponse(v) => <login::SuccessResponse<'static> as MD<'static>>::encodable(v),
        PacketView::CompressResponse(v) => <login::CompressResponse as MD<'static>>::encodable(v),
        PacketView::LoginPluginRequest(v) => <login::LoginPluginRequest<'static> as MD<'static>>::encodable(v),
        PacketView::TeleportConfirmRequest(v) => <play::TeleportConfirmRequest as MD<'static>>::encodable(v),
        PacketView::QueryBlockNbtRequest(v) => <play::QueryBlockNbtRequest as MD<'static>>::encodable(v),
        PacketView::SetDifficultyRequest(v) => <play::SetDifficultyRequest as MD<'static>>::encodable(v),
        PacketView::ChatRequest(v) => <play::ChatRequest<'static> as MD<'static>>::encodable(v),
        PacketView::ClientCommandRequest(v) => <play::ClientCommandRequest as MD<'static>>::encodable(v),
        PacketView::SettingsRequest(v) => <play::SettingsRequest<'static> as MD<'static>>::encodable(v),
        PacketView::TabCompleteRequest(v) => <play::TabCompleteRequest<'static> as MD<'static>>::encodable(v),
        PacketView::EnchantItemRequest(v) => <play::EnchantItemRequest as MD<'static>>::encodable(v),
        PacketView::WindowClickRequest(v) => <play::WindowClickRequest<'static> as MD<'static>>::encodable(v),
        PacketView::CloseWindowRequest(v) => <play::CloseWindowRequest as MD<'static>>::encodable(v),
        PacketView::CustomPayloadRequest(v) => <play::CustomPayloadRequest<'static> as MD<'static>>::encodable(v),
        PacketView::EditBookRequest(v) => <play::EditBookRequest<'static> as MD<'static>>::encodable(v),
        PacketView::QueryEntityNbtRequest(v) => <play::QueryEntityNbtRequest as MD<'static>>::encodable(v),
        PacketView::UseEntityRequest(v) => <play::UseEntityRequest as MD<'static>>::encodable(v),
        PacketView::GenerateStructureRequest(v) => <play::GenerateStructureRequest as MD<'static>>::encodable(v),
        PacketView::KeepAliveRequest(v) => <play::KeepAliveRequest as MD<'static>>::encodable(v),
        PacketView::LockDifficultyRequest(v) => <play::LockDifficultyRequest as MD<'static>>::encodable(v),
        PacketView::PositionRequest(v) => <play::PositionRequest as MD<'static>>::encodable(v),
        PacketView::PositionLookRequest(v) => <play::PositionLookRequest as MD<'static>>::encodable(v),
        PacketView::LookRequest(v) => <play::LookRequest as MD<'static>>::encodable(v),
        PacketView::FlyingRequest(v) => <play::FlyingRequest as MD<'static>>::encodable(v),
        PacketView::VehicleMoveRequest(v) => <play::VehicleMoveRequest as MD<'static>>::encodable(v),
        PacketView::SteerBoatRequest(v) => <play::SteerBoatRequest as MD<'static>>::encodable(v),
        PacketView::PickItemRequest(v) => <play::PickItemRequest as MD<'static>>::encodable(v),
        PacketView::CraftRecipeRequest(v) => <play::CraftRecipeRequest<'static> as MD<'static>>::encodable(v),
        PacketView::AbilitiesRequest(v) => <play::AbilitiesRequest as MD<'static>>::encodable(v),
        PacketView::BlockDigRequest(v) => <play::BlockDigRequest as MD<'static>>::encodable(v),
        PacketView::EntityActionRequest(v) => <play::EntityActionRequest as MD<'static>>::encodable(v),
        PacketView::SteerVehicleRequest(v) => <play::SteerVehicleRequest as MD<'static>>::encodable(v),
        PacketView::PongRequest(v) => <play::PongRequest as MD<'static>>::encodable(v),
        PacketView::RecipeBookRequest(v) => <play::RecipeBookRequest as MD<'static>>::encodable(v),
        PacketView::DisplayedRecipeRequest(v) => <play::DisplayedRecipeRequest<'static> as MD<'static>>::encodable(v),
        PacketView::NameItemRequest(v) => <play::NameItemRequest<'static> as MD<'static>>::encodable(v),
        PacketView::ResourcePackReceiveRequest(v) => <play::ResourcePackReceiveRequest as MD<'static>>::encodable(v),
        PacketView::AdvancementTabRequest(v) => <play::AdvancementTabRequest as MD<'static>>::encodable(v),
        PacketView::SelectTradeRequest(v) => <play::SelectTradeRequest as MD<'static>>::encodable(v),
        PacketView::SetBeaconEffectRequest(v) => <play::SetBeaconEffectRequest as MD<'static>>::encodable(v),
        PacketView::HeldItemSlotRequest(v) => <play::HeldItemSlotRequest as MD<'static>>::encodable(v),
        PacketView::UpdateCommandBlockRequest(v) => <play::UpdateCommandBlockRequest<'static> as MD<'static>>::encodable(v),
        PacketView::UpdateCommandBlockMinecartRequest(v) => <play::UpdateCommandBlockMinecartRequest<'static> as MD<'static>>::encodable(v),
        PacketView::SetCreativeSlotRequest(v) => <play::SetCreativeSlotRequest<'static> as MD<'static>>::encodable(v),
        PacketView::UpdateJigsawBlockRequest(v) => <play::UpdateJigsawBlockRequest<'static> as MD<'static>>::encodable(v),
        PacketView::UpdateStructureBlockRequest(v) => <play::UpdateStructureBlockRequest<'static> as MD<'static>>::encodable(v),
        PacketView::UpdateSignRequest(v) => <play::UpdateSignRequest<'static> as MD<'static>>::encodable(v),
        PacketView::ArmAnimationRequest(v) => <play::ArmAnimationRequest as MD<'static>>::encodable(v),
        PacketView::SpectateRequest(v) => <play::SpectateRequest as MD<'static>>::encodable(v),
        PacketView::BlockPlaceRequest(v) => <play::BlockPlaceRequest as MD<'static>>::encodable(v),
        PacketView::UseItemRequest(v) => <play::UseItemRequest as MD<'static>>::encodable(v),
        PacketView::SpawnEntityResponse(v) => <play::SpawnEntityResponse as MD<'static>>::encodable(v),
        PacketView::SpawnEntityExperienceOrbResponse(v) => <play::SpawnEntityExperienceOrbResponse as MD<'static>>::encodable(v),
        PacketView::SpawnEntityLivingResponse(v) => <play::SpawnEntityLivingResponse as MD<'static>>::encodable(v),
        PacketView::SpawnEntityPaintingResponse(v) => <play::SpawnEntityPaintingResponse as MD<'static>>::encodable(v),
        PacketView::NamedEntitySpawnResponse(v) => <play::NamedEntitySpawnResponse as MD<'static>>::encodable(v),
        PacketView::SculkVibrationSignalResponse(v) => <play::SculkVibrationSignalResponse as MD<'static>>::encodable(v),
        PacketView::AnimationResponse(v) => <play::AnimationResponse as MD<'static>>::encodable(v),
        PacketView::StatisticsResponse(v) => <play::StatisticsResponse as MD<'static>>::encodable(v),
        PacketView::AcknowledgePlayerDiggingResponse(v) => <play::AcknowledgePlayerDiggingResponse as MD<'static>>::encodable(v),
        PacketView::BlockBreakAnimationResponse(v) => <play::BlockBreakAnimationResponse as MD<'static>>::encodable(v),
        PacketView::TileEntityDataResponse(v) => <play::TileEntityDataResponse<'static> as MD<'static>>::encodable(v),
        PacketView::BlockActionResponse(v) => <play::BlockActionResponse as MD<'static>>::encodable(v),
        PacketView::BlockChangeResponse(v) => <play::BlockChangeResponse as MD<'static>>::encodable(v),
        PacketView::BossBarResponse(v) => <play::BossBarResponse as MD<'static>>::encodable(v),
        PacketView::DifficultyResponse(v) => <play::DifficultyResponse as MD<'static>>::encodable(v),
        PacketView::ChatResponse(v) => <play::ChatResponse<'static> as MD<'static>>::encodable(v),
        PacketView::ClearTitlesResponse(v) => <play::ClearTitlesResponse as MD<'static>>::encodable(v),
        PacketView::TabCompleteResponse(v) => <play::TabCompleteResponse<'static> as MD<'static>>::encodable(v),
        PacketView::DeclareCommandsResponse(v) => <play::DeclareCommandsResponse as MD<'static>>::encodable(v),
        PacketView::CloseWindowResponse(v) => <play::CloseWindowResponse as MD<'static>>::encodable(v),
        PacketView::WindowItemsResponse(v) => <play::WindowItemsResponse<'static> as MD<'static>>::encodable(v),
        PacketView::CraftProgressBarResponse(v) => <play::CraftProgressBarResponse as MD<'static>>::encodable(v),
        PacketView::SetSlotResponse(v) => <play::SetSlotResponse<'static> as MD<'static>>::encodable(v),
        PacketView::SetCooldownResponse(v) => <play::SetCooldownResponse as MD<'static>>::encodable(v),
        PacketView::CustomPayloadResponse(v) => <play::CustomPayloadResponse<'static> as MD<'static>>::encodable(v),
        PacketView::NamedSoundEffectResponse(v) => <play::NamedSoundEffectResponse<'static> as MD<'static>>::encodable(v),
        PacketView::KickDisconnectResponse(v) => <play::KickDisconnectResponse<'static> as MD<'static>>::encodable(v),
        PacketView::EntityStatusResponse(v) => <play::EntityStatusResponse as MD<'static>>::encodable(v),
        PacketView::ExplosionResponse(v) => <play::ExplosionResponse as MD<'static>>::encodable(v),
        PacketView::UnloadChunkResponse(v) => <play::UnloadChunkResponse as MD<'static>>::encodable(v),
        PacketView::GameStateChangeResponse(v) => <play::GameStateChangeResponse as MD<'static>>::encodable(v),
        PacketView::OpenHorseWindowResponse(v) => <play::OpenHorseWindowResponse as MD<'static>>::encodable(v),
        PacketView::InitializeWorldBorderResponse(v) => <play::InitializeWorldBorderResponse as MD<'static>>::encodable(v),
        PacketView::KeepAliveResponse(v) => <play::KeepAliveResponse as MD<'static>>::encodable(v),
        PacketView::MapChunkResponse(v) => <play::MapChunkResponse<'static> as MD<'static>>::encodable(v),
        PacketView::WorldEventResponse(v) => <play::WorldEventResponse as MD<'static>>::encodable(v),
        PacketView::WorldParticlesResponse(v) => <play::WorldParticlesResponse as MD<'static>>::encodable(v),
        PacketView::UpdateLightResponse(v) => <play::UpdateLightResponse<'static> as MD<'static>>::encodable(v),
        PacketView::LoginResponse(v) => <play::LoginResponse<'static> as MD<'static>>::encodable(v),
        PacketView::MapResponse(v) => <play::MapResponse as MD<'static>>::encodable(v),
        PacketView::TradeListResponse(v) => <play::TradeListResponse<'static> as MD<'static>>::encodable(v),
        PacketView::RelEntityMoveResponse(v) => <play::RelEntityMoveResponse as MD<'static>>::encodable(v),
        PacketView::EntityMoveLookResponse(v) => <play::EntityMoveLookResponse as MD<'static>>::encodable(v),
        PacketView::EntityLookResponse(v) => <play::EntityLookResponse as MD<'static>>::encodable(v),
        PacketView::VehicleMoveResponse(v) => <play::VehicleMoveResponse as MD<'static>>::encodable(v),
        PacketView::OpenBookResponse(v) => <play::OpenBookResponse as MD<'static>>::encodable(v),
        PacketView::OpenWindowResponse(v) => <play::OpenWindowResponse<'static> as MD<'static>>::encodable(v),
        PacketView::OpenSignEntityResponse(v) => <play::OpenSignEntityResponse as MD<'static>>::encodable(v),
        PacketView::PlayPingResponse(v) => <play::PlayPingResponse as MD<'static>>::encodable(v),
        PacketView::CraftRecipeResponse(v) => <play::CraftRecipeResponse<'static> as MD<'static>>::encodable(v),
        PacketView::AbilitiesResponse(v) => <play::AbilitiesResponse as MD<'static>>::encodable(v),
        PacketView::EndCombatEventResponse(v) => <play::EndCombatEventResponse as MD<'static>>::encodable(v),
        PacketView::EnterCombatEventResponse(v) => <play::EnterCombatEventResponse as MD<'static>>::encodable(v),
        PacketView::DeathCombatEventResponse(v) => <play::DeathCombatEventResponse<'static> as MD<'static>>::encodable(v),
        PacketView::PlayerInfoResponse(v) => <play::PlayerInfoResponse as MD<'static>>::encodable(v),
        PacketView::FacePlayerResponse(v) => <play::FacePlayerResponse as MD<'static>>::encodable(v),
        PacketView::PositionResponse(v) => <play::PositionResponse as MD<'static>>::encodable(v),
        PacketView::UnlockRecipesResponse(v) => <play::UnlockRecipesResponse as MD<'static>>::encodable(v),
        PacketView::EntityDestroyResponse(v) => <play::EntityDestroyResponse as MD<'static>>::encodable(v),
        PacketView::RemoveEntityEffectResponse(v) => <play::RemoveEntityEffectResponse as MD<'static>>::encodable(v),
        PacketView::ResourcePackSendResponse(v) => <play::ResourcePackSendResponse<'static> as MD<'static>>::encodable(v),
        PacketView::RespawnResponse(v) => <play::RespawnResponse<'static> as MD<'static>>::encodable(v),
        PacketView::EntityHeadRotationResponse(v) => <play::EntityHeadRotationResponse as MD<'static>>::encodable(v),
        PacketView::MultiBlockChangeResponse(v) => <play::MultiBlockChangeResponse as MD<'static>>::encodable(v),
        PacketView::SelectAdvancementTabResponse(v) => <play::SelectAdvancementTabResponse<'static> as MD<'static>>::encodable(v),
        PacketView::ActionBarResponse(v) => <play::ActionBarResponse<'static> as MD<'static>>::encodable(v),
        PacketView::WorldBorderCenterResponse(v) => <play::WorldBorderCenterResponse as MD<'static>>::encodable(v),
        PacketView::WorldBorderLerpSizeResponse(v) => <play::WorldBorderLerpSizeResponse as MD<'static>>::encodable(v),
        PacketView::WorldBorderSizeResponse(v) => <play::WorldBorderSizeResponse as MD<'static>>::encodable(v),
        PacketView::WorldBorderWarningDelayResponse(v) => <play::WorldBorderWarningDelayResponse as MD<'static>>::encodable(v),
        PacketView::WorldBorderWarningReachResponse(v) => <play::WorldBorderWarningReachResponse as MD<'static>>::encodable(v),
        PacketView::CameraResponse(v) => <play::CameraResponse as MD<'static>>::encodable(v),
        PacketView::HeldItemSlotResponse(v) => <play::HeldItemSlotResponse as MD<'static>>::encodable(v),
        PacketView::UpdateViewPositionResponse(v) => <play::UpdateViewPositionResponse as MD<'static>>::encodable(v),
        PacketView::UpdateViewDistanceResponse(v) => <play::UpdateViewDistanceResponse as MD<'static>>::encodable(v),
        PacketView::SpawnPositionResponse(v) => <play::SpawnPositionResponse as MD<'static>>::encodable(v),
        PacketView::ScoreboardDisplayObjectiveResponse(v) => <play::ScoreboardDisplayObjectiveResponse<'static> as MD<'static>>::encodable(v),
        PacketView::EntityMetadataResponse(v) => <play::EntityMetadataResponse as MD<'static>>::encodable(v),
        PacketView::AttachEntityResponse(v) => <play::AttachEntityResponse as MD<'static>>::encodable(v),
        PacketView::EntityVelocityResponse(v) => <play::EntityVelocityResponse as MD<'static>>::encodable(v),
        PacketView::EntityEquipmentResponse(v) => <play::EntityEquipmentResponse as MD<'static>>::encodable(v),
        PacketView::ExperienceResponse(v) => <play::ExperienceResponse as MD<'static>>::encodable(v),
        PacketView::UpdateHealthResponse(v) => <play::UpdateHealthResponse as MD<'static>>::encodable(v),
        PacketView::ScoreboardObjectiveResponse(v) => <play::ScoreboardObjectiveResponse as MD<'static>>::encodable(v),
        PacketView::SetPassengersResponse(v) => <play::SetPassengersResponse as MD<'static>>::encodable(v),
        PacketView::TeamsResponse(v) => <play::TeamsResponse as MD<'static>>::encodable(v),
        PacketView::ScoreboardScoreResponse(v) => <play::ScoreboardScoreResponse as MD<'static>>::encodable(v),
        PacketView::SimulationDistanceResponse(v) => <play::SimulationDistanceResponse as MD<'static>>::encodable(v),
        PacketView::SetTitleSubtitleResponse(v) => <play::SetTitleSubtitleResponse<'static> as MD<'static>>::encodable(v),
        PacketView::UpdateTimeResponse(v) => <play::UpdateTimeResponse as MD<'static>>::encodable(v),
        PacketView::SetTitleTextResponse(v) => <play::SetTitleTextResponse<'static> as MD<'static>>::encodable(v),
        PacketView::SetTitleTimeResponse(v) => <play::SetTitleTimeResponse as MD<'static>>::encodable(v),
        PacketView::EntitySoundEffectResponse(v) => <play::EntitySoundEffectResponse as MD<'static>>::encodable(v),
        PacketView::SoundEffectResponse(v) => <play::SoundEffectResponse as MD<'static>>::encodable(v),
        PacketView::StopSoundResponse(v) => <play::StopSoundResponse as MD<'static>>::encodable(v),
        PacketView::PlayerlistHeaderResponse(v) => <play::PlayerlistHeaderResponse<'static> as MD<'static>>::encodable(v),
        PacketView::NbtQueryResponse(v) => <play::NbtQueryResponse<'static> as MD<'static>>::encodable(v),
        PacketView::CollectResponse(v) => <play::CollectResponse as MD<'static>>::encodable(v),
        PacketView::EntityTeleportResponse(v) => <play::EntityTeleportResponse as MD<'static>>::encodable(v),
        PacketView::AdvancementsResponse(v) => <play::AdvancementsResponse as MD<'static>>::encodable(v),
        PacketView::EntityUpdateAttributesResponse(v) => <play::EntityUpdateAttributesResponse<'static> as MD<'static>>::encodable(v),
        PacketView::EntityEffectResponse(v) => <play::EntityEffectResponse as MD<'static>>::encodable(v),
        PacketView::DeclareRecipesResponse(v) => <play::DeclareRecipesResponse as MD<'static>>::encodable(v),
        PacketView::TagsResponse(v) => <play::TagsResponse as MD<'static>>::encodable(v),
    }
}

/// Whether the last field of a packet takes all the bytes that follow.
pub open spec fn packet_takes_rest(p: PacketView) -> bool {
    match p {
        PacketView::SetProtocolRequest(v) => <handshaking::SetProtocolRequest<'static> as MD<'static>>::takes_rest(),
        PacketView::LegacyServerListPingRequest(v) => <handshaking::LegacyServerListPingRequest as MD<'static>>::takes_rest(),
        PacketView::PingStartRequest(v) => <status::PingStartRequest as MD<'static>>::takes_rest(),
        PacketView::PingRequest(v) => <status::PingRequest as MD<'static>>::takes_rest(),
        PacketView::ServerInfoResponse(v) => <status::ServerInfoResponse<'static> as MD<'static>>::takes_rest(),
        PacketView::PingResponse(v) => <status::PingResponse as MD<'static>>::takes_rest(),
        PacketView::LoginStartRequest(v) => <login::LoginStartRequest<'static> as MD<'static>>::takes_rest(),
        PacketView::EncryptionBeginRequest(v) => <login::EncryptionBeginRequest<'static> as MD<'static>>::takes_rest(),
        PacketView::LoginPluginResponse(v) => <login::LoginPluginResponse<'static> as MD<'static>>::takes_rest(),
        PacketView::DisconnectResponse(v) => <login::DisconnectResponse<'static> as MD<'static>>::takes_rest(),
        PacketView::EncryptionBeginResponse(v) => <login::EncryptionBeginResponse<'static> as MD<'static>>::takes_rest(),
        PacketView::SuccessResponse(v) => <login::SuccessResponse<'static> as MD<'static>>::takes_rest(),
        PacketView::CompressResponse(v) => <login::CompressResponse as MD<'static>>::takes_rest(),
        PacketView::LoginPluginRequest(v) => <login::LoginPluginRequest<'static> as MD<'static>>::takes_rest(),
        PacketView::TeleportConfirmRequest(v) => <play::TeleportConfirmRequest as MD<'static>>::takes_rest(),
        PacketView::QueryBlockNbtRequest(v) => <play::QueryBlockNbtRequest as MD<'static>>::takes_rest(),
        PacketView::SetDifficultyRequest(v) => <play::SetDifficultyRequest as MD<'static>>::takes_rest(),
        PacketView::ChatRequest(v) => <play::ChatRequest<'static> as MD<'static>>::takes_rest(),
        PacketView::ClientCommandRequest(v) => <play::ClientCommandRequest as MD<'static>>::takes_rest(),
        PacketView::SettingsRequest(v) => <play::SettingsRequest<'static> as MD<'static>>::takes_rest(),
        PacketView::TabCompleteRequest(v) => <play::TabCompleteRequest<'static> as MD<'static>>::takes_rest(),
        PacketView::EnchantItemRequest(v) => <play::EnchantItemRequest as MD<'static>>::takes_rest(),
        PacketView::WindowClickRequest(v) => <play::WindowClickRequest<'static> as MD<'static>>::takes_rest(),
        PacketView::CloseWindowRequest(v) => <play::CloseWindowRequest as MD<'static>>::takes_rest(),
        PacketView::CustomPayloadRequest(v) => <play::CustomPayloadRequest<'static> as MD<'static>>::takes_rest(),
        PacketView::EditBookRequest(v) => <play::EditBookRequest<'static> as MD<'static>>::takes_rest(),
        PacketView::QueryEntityNbtRequest(v) => <play::QueryEntityNbtRequest as MD<'static>>::takes_rest(),
        PacketView::UseEntityRequest(v) => <play::UseEntityRequest as MD<'static>>::takes_rest(),
        PacketView::GenerateStructureRequest(v) => <play::GenerateStructureRequest as MD<'static>>::takes_rest(),
        PacketView::KeepAliveRequest(v) => <play::KeepAliveRequest as MD<'static>>::takes_rest(),
        PacketView::LockDifficultyRequest(v) => <play::LockDifficultyRequest as MD<'static>>::takes_rest(),
        PacketView::PositionRequest(v) => <play::PositionRequest as MD<'static>>::takes_rest(),
        PacketView::PositionLookRequest(v) => <play::PositionLookRequest as MD<'static>>::takes_rest(),
        PacketView::LookRequest(v) => <play::LookRequest as MD<'static>>::takes_rest(),
        PacketView::FlyingRequest(v) => <play::FlyingRequest as MD<'static>>::takes_rest(),
        PacketView::VehicleMoveRequest(v) => <play::VehicleMoveRequest as MD<'static>>::takes_rest(),
        PacketView::SteerBoatRequest(v) => <play::SteerBoatRequest as MD<'static>>::takes_rest(),
        PacketView::PickItemRequest(v) => <play::PickItemRequest as MD<'static>>::takes_rest(),
        PacketView::CraftRecipeRequest(v) => <play::CraftRecipeRequest<'static> as MD<'static>>::takes_rest(),
        PacketView::AbilitiesRequest(v) => <play::AbilitiesRequest as MD<'static>>::takes_rest(),
        PacketView::BlockDigRequest(v) => <play::BlockDigRequest as MD<'static>>::takes_rest(),
        PacketView::EntityActionRequest(v) => <play::EntityActionRequest as MD<'static>>::takes_rest(),
        PacketView::SteerVehicleRequest(v) => <play::SteerVehicleRequest as MD<'static>>::takes_rest(),
        PacketView::PongRequest(v) => <play::PongRequest as MD<'static>>::takes_rest(),
        PacketView::RecipeBookRequest(v) => <play::RecipeBookRequest as MD<'static>>::takes_rest(),
        PacketView::DisplayedRecipeRequest(v) => <play::DisplayedRecipeRequest<'static> as MD<'static>>::takes_rest(),
        PacketView::NameItemRequest(v) => <play::NameItemRequest<'static> as MD<'static>>::takes_rest(),
        PacketView::ResourcePackReceiveRequest(v) => <play::ResourcePackReceiveRequest as MD<'static>>::takes_rest(),
        PacketView::AdvancementTabRequest(v) => <play::AdvancementTabRequest as MD<'static>>::takes_rest(),
        PacketView::SelectTradeRequest(v) => <play::SelectTradeRequest as MD<'static>>::takes_rest(),
        PacketView::SetBeaconEffectRequest(v) => <play::SetBeaconEffectRequest as MD<'static>>::takes_rest(),
        PacketView::HeldItemSlotRequest(v) => <play::HeldItemSlotRequest as MD<'static>>::takes_rest(),
        PacketView::UpdateCommandBlockRequest(v) => <play::UpdateCommandBlockRequest<'static> as MD<'static>>::takes_rest(),
        PacketView::UpdateCommandBlockMinecartRequest(v) => <play::UpdateCommandBlockMinecartRequest<'static> as MD<'static>>::takes_rest(),
        PacketView::SetCreativeSlotRequest(v) => <play::SetCreativeSlotRequest<'static> as MD<'static>>::takes_rest(),
        PacketView::UpdateJigsawBlockRequest(v) => <play::UpdateJigsawBlockRequest<'static> as MD<'static>>::takes_rest(),
        PacketView::UpdateStructureBlockRequest(v) => <play::UpdateStructureBlockRequest<'static> as MD<'static>>::takes_rest(),
        PacketView::UpdateSignRequest(v) => <play::UpdateSignRequest<'static> as MD<'static>>::takes_rest(),
        PacketView::ArmAnimationRequest(v) => <play::ArmAnimationRequest as MD<'static>>::takes_rest(),
        PacketView::SpectateRequest(v) => <play::SpectateRequest as MD<'static>>::takes_rest(),
        PacketView::BlockPlaceRequest(v) => <play::BlockPlaceRequest as MD<'static>>::takes_rest(),
        PacketView::UseItemRequest(v) => <play::UseItemRequest as MD<'static>>::takes_rest(),
        PacketView::SpawnEntityResponse(v) => <play::SpawnEntityResponse as MD<'static>>::takes_rest(),
        PacketView::SpawnEntityExperienceOrbResponse(v) => <play::SpawnEntityExperienceOrbResponse as MD<'static>>::takes_rest(),
        PacketView::SpawnEntityLivingResponse(v) => <play::SpawnEntityLivingResponse as MD<'static>>::takes_rest(),
        PacketView::SpawnEntityPaintingResponse(v) => <play::SpawnEntityPaintingResponse as MD<'static>>::takes_rest(),
        PacketView::NamedEntitySpawnResponse(v) => <play::NamedEntitySpawnResponse as MD<'static>>::takes_rest(),
        PacketView::SculkVibrationSignalResponse(v) => <play::SculkVibrationSignalResponse as MD<'static>>::takes_rest(),
        PacketView::AnimationResponse(v) => <play::AnimationResponse as MD<'static>>::takes_rest(),
        PacketView::StatisticsResponse(v) => <play::StatisticsResponse as MD<'static>>::takes_rest(),
        PacketView::AcknowledgePlayerDiggingResponse(v) => <play::AcknowledgePlayerDiggingResponse as MD<'static>>::takes_rest(),
        PacketView::BlockBreakAnimationResponse(v) => <play::BlockBreakAnimationResponse as MD<'static>>::takes_rest(),
        PacketView::TileEntityDataResponse(v) => <play::TileEntityDataResponse<'static> as MD<'static>>::takes_rest(),
        PacketView::BlockActionResponse(v) => <play::BlockActionResponse as MD<'static>>::takes_rest(),
        PacketView::BlockChangeResponse(v) => <play::BlockChangeResponse as MD<'static>>::takes_rest(),
        PacketView::BossBarResponse(v) => <play::BossBarResponse as MD<'static>>::takes_rest(),
        PacketView::DifficultyResponse(v) => <play::DifficultyResponse as MD<'static>>::takes_rest(),
        PacketView::ChatResponse(v) => <play::ChatResponse<'static> as MD<'static>>::takes_rest(),
        PacketView::ClearTitlesResponse(v) => <play::ClearTitlesResponse as MD<'static>>::takes_rest(),
        PacketView::TabCompleteResponse(v) => <play::TabCompleteResponse<'static> as MD<'static>>::takes_rest(),
        PacketView::DeclareCommandsResponse(v) => <play::DeclareCommandsResponse as MD<'static>>::takes_rest(),
        PacketView::CloseWindowResponse(v) => <play::CloseWindowResponse as MD<'static>>::takes_rest(),
        PacketView::WindowItemsResponse(v) => <play::WindowItemsResponse<'static> as MD<'static>>::takes_rest(),
        PacketView::CraftProgressBarResponse(v) => <play::CraftProgressBarResponse as MD<'static>>::takes_rest(),
        PacketView::SetSlotResponse(v) => <play::SetSlotResponse<'static> as MD<'static>>::takes_rest(),
        PacketView::SetCooldownResponse(v) => <play::SetCooldownResponse as MD<'static>>::takes_rest(),
        PacketView::CustomPayloadResponse(v) => <play::CustomPayloadResponse<'static> as MD<'static>>::takes_rest(),
        PacketView::NamedSoundEffectResponse(v) => <play::NamedSoundEffectResponse<'static> as MD<'static>>::takes_rest(),
        PacketView::KickDisconnectResponse(v) => <play::KickDisconnectResponse<'static> as MD<'static>>::takes_rest(),
        PacketView::EntityStatusResponse(v) => <play::EntityStatusResponse as MD<'static>>::takes_rest(),
        PacketView::ExplosionResponse(v) => <play::ExplosionResponse as MD<'static>>::takes_rest(),
        PacketView::UnloadChunkResponse(v) => <play::UnloadChunkResponse as MD<'static>>::takes_rest(),
        PacketView::GameStateChangeResponse(v) => <play::GameStateChangeResponse as MD<'static>>::takes_rest(),
        PacketView::OpenHorseWindowResponse(v) => <play::OpenHorseWindowResponse as MD<'static>>::takes_rest(),
        PacketView::InitializeWorldBorderResponse(v) => <play::InitializeWorldBorderResponse as MD<'static>>::takes_rest(),
        PacketView::KeepAliveResponse(v) => <play::KeepAliveResponse as MD<'static>>::takes_rest(),
        PacketView::MapChunkResponse(v) => <play::MapChunkResponse<'static> as MD<'static>>::takes_rest(),
        PacketView::WorldEventResponse(v) => <play::WorldEventResponse as MD<'static>>::takes_rest(),
        PacketView::WorldParticlesResponse(v) => <play::WorldParticlesResponse as MD<'static>>::takes_rest(),
        PacketView::UpdateLightResponse(v) => <play::UpdateLightResponse<'static> as MD<'static>>::takes_rest(),
        PacketView::LoginResponse(v) => <play::LoginResponse<'static> as MD<'static>>::takes_rest(),
        PacketView::MapResponse(v) => <play::MapResponse as MD<'static>>::takes_rest(),
        PacketView::TradeListResponse(v) => <play::TradeListResponse<'static> as MD<'static>>::takes_rest(),
        PacketView::RelEntityMoveResponse(v) => <play::RelEntityMoveResponse as MD<'static>>::takes_rest(),
        PacketView::EntityMoveLookResponse(v) => <play::EntityMoveLookResponse as MD<'static>>::takes_rest(),
        PacketView::EntityLookResponse(v) => <play::EntityLookResponse as MD<'static>>::takes_rest(),
        PacketView::VehicleMoveResponse(v) => <play::VehicleMoveResponse as MD<'static>>::takes_rest(),
        PacketView::OpenBookResponse(v) => <play::OpenBookResponse as MD<'static>>::takes_rest(),
        PacketView::OpenWindowResponse(v) => <play::OpenWindowResponse<'static> as MD<'static>>::takes_rest(),
        PacketView::OpenSignEntityResponse(v) => <play::OpenSignEntityResponse as MD<'static>>::takes_rest(),
        PacketView::PlayPingResponse(v) => <play::PlayPingResponse as MD<'static>>::takes_rest(),
        PacketView::CraftRecipeResponse(v) => <play::CraftRecipeResponse<'static> as MD<'static>>::takes_rest(),
        PacketView::AbilitiesResponse(v) => <play::AbilitiesResponse as MD<'static>>::takes_rest(),
        PacketView::EndCombatEventResponse(v) => <play::EndCombatEventResponse as MD<'static>>::takes_rest(),
        PacketView::EnterCombatEventResponse(v) => <play::EnterCombatEventResponse as MD<'static>>::takes_rest(),
        PacketView::DeathCombatEventResponse(v) => <play::DeathCombatEventResponse<'static> as MD<'static>>::takes_rest(),
        PacketView::PlayerInfoResponse(v) => <play::PlayerInfoResponse as MD<'static>>::takes_rest(),
        PacketView::FacePlayerResponse(v) => <play::FacePlayerResponse as MD<'static>>::takes_rest(),
        PacketView::PositionResponse(v) => <play::PositionResponse as MD<'static>>::takes_rest(),
        PacketView::UnlockRecipesResponse(v) => <play::UnlockRecipesResponse as MD<'static>>::takes_rest(),
        PacketView::EntityDestroyResponse(v) => <play::EntityDestroyResponse as MD<'static>>::takes_rest(),
        PacketView::RemoveEntityEffectResponse(v) => <play::RemoveEntityEffectResponse as MD<'static>>::takes_rest(),
        PacketView::ResourcePackSendResponse(v) => <play::ResourcePackSendResponse<'static> as MD<'static>>::takes_rest(),
        PacketView::RespawnResponse(v) => <play::RespawnResponse<'static> as MD<'static>>::takes_rest(),
        PacketView::EntityHeadRotationResponse(v) => <play::EntityHeadRotationResponse as MD<'static>>::takes_rest(),
        PacketView::MultiBlockChangeResponse(v) => <play::MultiBlockChangeResponse as MD<'static>>::takes_rest(),
        PacketView::SelectAdvancementTabResponse(v) => <play::SelectAdvancementTabResponse<'static> as MD<'static>>::takes_rest(),
        PacketView::ActionBarResponse(v) => <play::ActionBarResponse<'static> as MD<'static>>::takes_rest(),
        PacketView::WorldBorderCenterResponse(v) => <play::WorldBorderCenterResponse as MD<'static>>::takes_rest(),
        PacketView::WorldBorderLerpSizeResponse(v) => <play::WorldBorderLerpSizeResponse as MD<'static>>::takes_rest(),
        PacketView::WorldBorderSizeResponse(v) => <play::WorldBorderSizeResponse as MD<'static>>::takes_rest(),
        PacketView::WorldBorderWarningDelayResponse(v) => <play::WorldBorderWarningDelayResponse as MD<'static>>::takes_rest(),
        PacketView::WorldBorderWarningReachResponse(v) => <play::WorldBorderWarningReachResponse as MD<'static>>::takes_rest(),
        PacketView::CameraResponse(v) => <play::CameraResponse as MD<'static>>::takes_rest(),
        PacketView::HeldItemSlotResponse(v) => <play::HeldItemSlotResponse as MD<'static>>::takes_rest(),
        PacketView::UpdateViewPositionResponse(v) => <play::UpdateViewPositionResponse as MD<'static>>::takes_rest(),
        PacketView::UpdateViewDistanceResponse(v) => <play::UpdateViewDistanceResponse as MD<'static>>::takes_rest(),
        PacketView::SpawnPositionResponse(v) => <play::SpawnPositionResponse as MD<'static>>::takes_rest(),
        PacketView::ScoreboardDisplayObjectiveResponse(v) => <play::ScoreboardDisplayObjectiveResponse<'static> as MD<'static>>::takes_rest(),
        PacketView::EntityMetadataResponse(v) => <play::EntityMetadataResponse as MD<'static>>::takes_rest(),
        PacketView::AttachEntityResponse(v) => <play::AttachEntityResponse as MD<'static>>::takes_rest(),
        PacketView::EntityVelocityResponse(v) => <play::EntityVelocityResponse as MD<'static>>::takes_rest(),
        PacketView::EntityEquipmentResponse(v) => <play::EntityEquipmentResponse as MD<'static>>::takes_rest(),
        PacketView::ExperienceResponse(v) => <play::ExperienceResponse as MD<'static>>::takes_rest(),
        PacketView::UpdateHealthResponse(v) => <play::UpdateHealthResponse as MD<'static>>::takes_rest(),
        PacketView::ScoreboardObjectiveResponse(v) => <play::ScoreboardObjectiveResponse as MD<'static>>::takes_rest(),
        PacketView::SetPassengersResponse(v) => <play::SetPassengersResponse as MD<'static>>::takes_rest(),
        PacketView::TeamsResponse(v) => <play::TeamsResponse as MD<'static>>::takes_rest(),
        PacketView::ScoreboardScoreResponse(v) => <play::ScoreboardScoreResponse as MD<'static>>::takes_rest(),
        PacketView::SimulationDistanceResponse(v) => <play::SimulationDistanceResponse as MD<'static>>::takes_rest(),
        PacketView::SetTitleSubtitleResponse(v) => <play::SetTitleSubtitleResponse<'static> as MD<'static>>::takes_rest(),
        PacketView::UpdateTimeResponse(v) => <play::UpdateTimeResponse as MD<'static>>::takes_rest(),
        PacketView::SetTitleTextResponse(v) => <play::SetTitleTextResponse<'static> as MD<'static>>::takes_rest(),
        PacketView::SetTitleTimeResponse(v) => <play::SetTitleTimeResponse as MD<'static>>::takes_rest(),
        PacketView::EntitySoundEffectResponse(v) => <play::EntitySoundEffectResponse as MD<'static>>::takes_rest(),
        PacketView::SoundEffectResponse(v) => <play::SoundEffectResponse as MD<'static>>::takes_rest(),
        PacketView::StopSoundResponse(v) => <play::StopSoundResponse as MD<'static>>::takes_rest(),
        PacketView::PlayerlistHeaderResponse(v) => <play::PlayerlistHeaderResponse<'static> as MD<'static>>::takes_rest(),
        PacketView::NbtQueryResponse(v) => <play::NbtQueryResponse<'static> as MD<'static>>::takes_rest(),
        PacketView::CollectResponse(v) => <play::CollectResponse as MD<'static>>::takes_rest(),
        PacketView::EntityTeleportResponse(v) => <play::EntityTeleportResponse as MD<'static>>::takes_rest(),
        PacketView::AdvancementsResponse(v) => <play::AdvancementsResponse as MD<'static>>::takes_rest(),
        PacketView::EntityUpdateAttributesResponse(v) => <play::EntityUpdateAttributesResponse<'static> as MD<'static>>::takes_rest(),
        PacketView::EntityEffectResponse(v) => <play::EntityEffectResponse as MD<'static>>::takes_rest(),
        PacketView::DeclareRecipesResponse(v) => <play::DeclareRecipesResponse as MD<'static>>::takes_rest(),
        PacketView::TagsResponse(v) => <play::TagsResponse as MD<'static>>::takes_rest(),
    }
}

/// The `SetProtocolRequest` at the front of `s`, as a `Packet`.
#[verifier::opaque]
spec fn route_set_protocol_request(s: Seq<u8>) -> Option<(PacketView, Seq<u8>)> {
    match <handshaking::SetProtocolRequest<'static> as MD<'static>>::spec_deserialize(s) {
        Some((v, rest)) => Some((PacketView::SetProtocolRequest(v), rest)),
        None => None,
    }
}

/// The `LegacyServerListPingRequest` at the front of `s`, as a `Packet`.
#[verifier::opaque]
spec fn route_legacy_server_list_ping_request(s: Seq<u8>) -> Option<(PacketView, Seq<u8>)> {
    match <handshaking::LegacyServerListPingRequest as MD<'static>>::spec_deserialize(s) {
        Some((v, rest)) => Some((PacketView::LegacyServerListPingRequest(v), rest)),
        None => None,
    }
}

/// The `PingStartRequest` at the front of `s`, as a `Packet`.
#[verifier::opaque]
spec fn route_ping_start_request(s: Seq<u8>) -> Option<(PacketView, Seq<u8>)> {
    match <status::PingStartRequest as MD<'static>>::spec_deserialize(s) {
        Some((v, rest)) => Some((PacketView::PingStartRequest(v), rest)),
        None => None,
    }
}

/// The `PingRequest` at the front of `s`, as a `Packet`.
#[verifier::opaque]
spec fn route_ping_request(s: Seq<u8>) -> Option<(PacketView, Seq<u8>)> {
    match <status::PingRequest as MD<'static>>::spec_deserialize(s) {
        Some((v, rest)) => Some((PacketView::PingRequest(v), rest)),
        None => None,
    }
}

/// The `ServerInfoResponse` at the front of `s`, as a `Packet`.
#[verifier::opaque]
spec fn route_server_info_response(s: Seq<u8>) -> Option<(PacketView, Seq<u8>)> {
    match <status::ServerInfoResponse<'static> as MD<'static>>::spec_deserialize(s) {
        Some((v, rest)) => Some((PacketView::ServerInfoResponse(v), rest)),
        None => None,
    }
}

/// The `PingResponse` at the front of `s`, as a `Packet`.
#[verifier::opaque]
spec fn route_ping_response(s: Seq<u8>) -> Option<(PacketView, Seq<u8>)> {
    match <status::PingResponse as MD<'static>>::spec_deserialize(s) {
        Some((v, rest)) => Some((PacketView::PingResponse(v), rest)),
        None => None,
    }
}

/// The `LoginStartRequest` at the front of `s`, as a `Packet`.
#[verifier::opaque]
spec fn route_login_start_request(s: Seq<u8>) -> Option<(PacketView, Seq<u8>)> {
    match <login::LoginStartRequest<'static> as MD<'static>>::spec_deserialize(s) {
        Some((v, rest)) => Some((PacketView::LoginStartRequest(v), rest)),
        None => None,
    }
}

/// The `EncryptionBeginRequest` at the front of `s`, as a `Packet`.
#[verifier::opaque]
spec fn route_encryption_begin_request(s: Seq<u8>) -> Option<(PacketView, Seq<u8>)> {
    match <login::EncryptionBeginRequest<'static> as MD<'static>>::spec_deserialize(s) {
        Some((v, rest)) => Some((PacketView::EncryptionBeginRequest(v), rest)),
        None => None,
    }
}

/// The `LoginPluginResponse` at the front of `s`, as a `Packet`.
#[verifier::opaque]
spec fn route_login_plugin_response(s: Seq<u8>) -> Option<(PacketView, Seq<u8>)> {
    match <login::LoginPluginResponse<'static> as MD<'static>>::spec_deserialize(s) {
        Some((v, rest)) => Some((PacketView::LoginPluginResponse(v), rest)),
        None => None,
    }
}

/// The `DisconnectResponse` at the front of `s`, as a `Packet`.
#[verifier::opaque]
spec fn route_disconnect_response(s: Seq<u8>) -> Option<(PacketView, Seq<u8>)> {
    match <login::DisconnectResponse<'static> as MD<'static>>::spec_deserialize(s) {
        Some((v, rest)) => Some((PacketView::DisconnectResponse(v), rest)),
        None => None,
    }
}

/// The `EncryptionBeginResponse` at the front of `s`, as a `Packet`.
#[verifier::opaque]
spec fn route_encryption_begin_response(s: Seq<u8>) -> Option<(PacketView, Seq<u8>)> {
    match <login::EncryptionBeginResponse<'static> as MD<'static>>::spec_deserialize(s) {
        Some((v, rest)) => Some((PacketView::EncryptionBeginResponse(v), rest)),
        None => None,
    }
}

/// The `SuccessResponse` at the front of `s`, as a `Packet`.
#[verifier::opaque]
spec fn route_success_response(s: Seq<u8>) -> Option<(PacketView, Seq<u8>)> {
    match <login::SuccessResponse<'static> as MD<'static>>::spec_deserialize(s) {
        Some((v, rest)) => Some((PacketView::SuccessResponse(v), rest)),
        None => None,
    }
}

/// The `CompressResponse` at the front of `s`, as a `Packet`.
#[verifier::opaque]
spec fn route_compress_response(s: Seq<u8>) -> Option<(PacketView, Seq<u8>)> {
    match <login::CompressResponse as MD<'static>>::spec_deserialize(s) {
        Some((v, rest)) => Some((PacketView::CompressResponse(v), rest)),
        None => None,
    }
}

/// The `LoginPluginRequest` at the front of `s`, as a `Packet`.
#[verifier::opaque]
spec fn route_login_plugin_request(s: Seq<u8>) -> Option<(PacketView, Seq<u8>)> {
    match <login::LoginPluginRequest<'static> as MD<'static>>::spec_deserialize(s) {
        Some((v, rest)) => Some((PacketView::LoginPluginRequest(v), rest)),
        None => None,
    }
}

/// The `TeleportConfirmRequest` at the front of `s`, as a `Packet`.
#[verifier::opaque]
spec fn route_teleport_confirm_request(s: Seq<u8>) -> Option<(PacketView, Seq<u8>)> {
    match <play::TeleportConfirmRequest as MD<'static>>::spec_deserialize(s) {
        Some((v, rest)) => Some((PacketView::TeleportConfirmRequest(v), rest)),
        None => None,
    }
}

/// The `QueryBlockNbtRequest` at the front of `s`, as a `Packet`.
#[verifier::opaque]
spec fn route_query_block_nbt_request(s: Seq<u8>) -> Option<(PacketView, Seq<u8>)> {
    match <play::QueryBlockNbtRequest as MD<'static>>::spec_deserialize(s) {
        Some((v, rest)) => Some((PacketView::QueryBlockNbtRequest(v), rest)),
        None => None,
    }
}

/// The `SetDifficultyRequest` at the front of `s`, as a `Packet`.
#[verifier::opaque]
spec fn route_set_difficulty_request(s: Seq<u8>) -> Option<(PacketView, Seq<u8>)> {
    match <play::SetDifficultyRequest as MD<'static>>::spec_deserialize(s) {
        Some((v, rest)) => Some((PacketView::SetDifficultyRequest(v), rest)),
        None => None,
    }
}

/// The `ChatRequest` at the front of `s`, as a `Packet`.
#[verifier::opaque]
spec fn route_chat_request(s: Seq<u8>) -> Option<(PacketView, Seq<u8>)> {
    match <play::ChatRequest<'static> as MD<'static>>::spec_deserialize(s) {
        Some((v, rest)) => Some((PacketView::ChatRequest(v), rest)),
        None => None,
    }
}

/// The `ClientCommandRequest` at the front of `s`, as a `Packet`.
#[verifier::opaque]
spec fn route_client_command_request(s: Seq<u8>) -> Option<(PacketView, Seq<u8>)> {
    match <play::ClientCommandRequest as MD<'static>>::spec_deserialize(s) {
        Some((v, rest)) => Some((PacketView::ClientCommandRequest(v), rest)),
        None => None,
    }
}

/// The `SettingsRequest` at the front of `s`, as a `Packet`.
#[verifier::opaque]
spec fn route_settings_request(s: Seq<u8>) -> Option<(PacketView, Seq<u8>)> {
    match <play::SettingsRequest<'static> as MD<'static>>::spec_deserialize(s) {
        Some((v, rest)) => Some((PacketView::SettingsRequest(v), rest)),
        None => None,
    }
}

/// The `TabCompleteRequest` at the front of `s`, as a `Packet`.
#[verifier::opaque]
spec fn route_tab_complete_request(s: Seq<u8>) -> Option<(PacketView, Seq<u8>)> {
    match <play::TabCompleteRequest<'static> as MD<'static>>::spec_deserialize(s) {
        Some((v, rest)) => Some((PacketView::TabCompleteRequest(v), rest)),
        None => None,
    }
}

/// The `EnchantItemRequest` at the front of `s`, as a `Packet`.
#[verifier::opaque]
spec fn route_enchant_item_request(s: Seq<u8>) -> Option<(PacketView, Seq<u8>)> {
    match <play::EnchantItemRequest as MD<'static>>::spec_deserialize(s) {
        Some((v, rest)) => Some((PacketView::EnchantItemRequest(v), rest)),
        None => None,
    }
}

/// The `WindowClickRequest` at the front of `s`, as a `Packet`.
#[verifier::opaque]
spec fn route_window_click_request(s: Seq<u8>) -> Option<(PacketView, Seq<u8>)> {
    match <play::WindowClickRequest<'static> as MD<'static>>::spec_deserialize(s) {
        Some((v, rest)) => Some((PacketView::WindowClickRequest(v), rest)),
        None => None,
    }
}

/// The `CloseWindowRequest` at the front of `s`, as a `Packet`.
#[verifier::opaque]
spec fn route_close_window_request(s: Seq<u8>) -> Option<(PacketView, Seq<u8>)> {
    match <play::CloseWindowRequest as MD<'static>>::spec_deserialize(s) {
        Some((v, rest)) => Some((PacketView::CloseWindowRequest(v), rest)),
        None => None,
    }
}

/// The `CustomPayloadRequest` at the front of `s`, as a `Packet`.
#[verifier::opaque]
spec fn route_custom_payload_request(s: Seq<u8>) -> Option<(PacketView, Seq<u8>)> {
    match <play::CustomPayloadRequest<'static> as MD<'static>>::spec_deserialize(s) {
        Some((v, rest)) => Some((PacketView::CustomPayloadRequest(v), rest)),
        None => None,
    }
}

/// The `EditBookRequest` at the front of `s`, as a `Packet`.
#[verifier::opaque]
spec fn route_edit_book_request(s: Seq<u8>) -> Option<(PacketView, Seq<u8>)> {
    match <play::EditBookRequest<'static> as MD<'static>>::spec_deserialize(s) {
        Some((v, rest)) => Some((PacketView::EditBookRequest(v), rest)),
        None => None,
    }
}

/// The `QueryEntityNbtRequest` at the front of `s`, as a `Packet`.
#[verifier::opaque]
spec fn route_query_entity_nbt_request(s: Seq<u8>) -> Option<(PacketView, Seq<u8>)> {
    match <play::QueryEntityNbtRequest as MD<'static>>::spec_deserialize(s) {
        Some((v, rest)) => Some((PacketView::QueryEntityNbtRequest(v), rest)),
        None => None,
    }
}

/// The `UseEntityRequest` at the front of `s`, as a `Packet`.
#[verifier::opaque]
spec fn route_use_entity_request(s: Seq<u8>) -> Option<(PacketView, Seq<u8>)> {
    match <play::UseEntityRequest as MD<'static>>::spec_deserialize(s) {
        Some((v, rest)) => Some((PacketView::UseEntityRequest(v), rest)),
        None => None,
    }
}

/// The `GenerateStructureRequest` at the front of `s`, as a `Packet`.
#[verifier::opaque]
spec fn route_generate_structure_request(s: Seq<u8>) -> Option<(PacketView, Seq<u8>)> {
    match <play::GenerateStructureRequest as MD<'static>>::spec_deserialize(s) {
        Some((v, rest)) => Some((PacketView::GenerateStructureRequest(v), rest)),
        None => None,
    }
}

/// The `KeepAliveRequest` at the front of `s`, as a `Packet`.
#[verifier::opaque]
spec fn route_keep_alive_request(s: Seq<u8>) -> Option<(PacketView, Seq<u8>)> {
    match <play::KeepAliveRequest as MD<'static>>::spec_deserialize(s) {
        Some((v, rest)) => Some((PacketView::KeepAliveRequest(v), rest)),
        None => None,
    }
}

/// The `LockDifficultyRequest` at the front of `s`, as a `Packet`.
#[verifier::opaque]
spec fn route_lock_difficulty_request(s: Seq<u8>) -> Option<(PacketView, Seq<u8>)> {
    match <play::LockDifficultyRequest as MD<'static>>::spec_deserialize(s) {
        Some((v, rest)) => Some((PacketView::LockDifficultyRequest(v), rest)),
        None => None,
    }
}

/// The `PositionRequest` at the front of `s`, as a `Packet`.
#[verifier::opaque]
spec fn route_position_request(s: Seq<u8>) -> Option<(PacketView, Seq<u8>)> {
    match <play::PositionRequest as MD<'static>>::spec_deserialize(s) {
        Some((v, rest)) => Some((PacketView::PositionRequest(v), rest)),
        None => None,
    }
}

/// The `PositionLookRequest` at the front of `s`, as a `Packet`.
#[verifier::opaque]
spec fn route_position_look_request(s: Seq<u8>) -> Option<(PacketView, Seq<u8>)> {
    match <play::PositionLookRequest as MD<'static>>::spec_deserialize(s) {
        Some((v, rest)) => Some((PacketView::PositionLookRequest(v), rest)),
        None => None,
    }
}

/// The `LookRequest` at the front of `s`, as a `Packet`.
#[verifier::opaque]
spec fn route_look_request(s: Seq<u8>) -> Option<(PacketView, Seq<u8>)> {
    match <play::LookRequest as MD<'static>>::spec_deserialize(s) {
        Some((v, rest)) => Some((PacketView::LookRequest(v), rest)),
        None => None,
    }
}

/// The `FlyingRequest` at the front of `s`, as a `Packet`.
#[verifier::opaque]
spec fn route_flying_request(s: Seq<u8>) -> Option<(PacketView, Seq<u8>)> {
    match <play::FlyingRequest as MD<'static>>::spec_deserialize(s) {
        Some((v, rest)) => Some((PacketView::FlyingRequest(v), rest)),
        None => None,
    }
}

/// The `VehicleMoveRequest` at the front of `s`, as a `Packet`.
#[verifier::opaque]
spec fn route_vehicle_move_request(s: Seq<u8>) -> Option<(PacketView, Seq<u8>)> {
    match <play::VehicleMoveRequest as MD<'static>>::spec_deserialize(s) {
        Some((v, rest)) => Some((PacketView::VehicleMoveRequest(v), rest)),
        None => None,
    }
}

/// The `SteerBoatRequest` at the front of `s`, as a `Packet`.
#[verifier::opaque]
spec fn route_steer_boat_request(s: Seq<u8>) -> Option<(PacketView, Seq<u8>)> {
    match <play::SteerBoatRequest as MD<'static>>::spec_deserialize(s) {
        Some((v, rest)) => Some((PacketView::SteerBoatRequest(v), rest)),
        None => None,
    }
}

/// The `PickItemRequest` at the front of `s`, as a `Packet`.
#[verifier::opaque]
spec fn route_pick_item_request(s: Seq<u8>) -> Option<(PacketView, Seq<u8>)> {
    match <play::PickItemRequest as MD<'static>>::spec_deserialize(s) {
        Some((v, rest)) => Some((PacketView::PickItemRequest(v), rest)),
        None => None,
    }
}

/// The `CraftRecipeRequest` at the front of `s`, as a `Packet`.
#[verifier::opaque]
spec fn route_craft_recipe_request(s: Seq<u8>) -> Option<(PacketView, Seq<u8>)> {
    match <play::CraftRecipeRequest<'static> as MD<'static>>::spec_deserialize(s) {
        Some((v, rest)) => Some((PacketView::CraftRecipeRequest(v), rest)),
        None => None,
    }
}

/// The `AbilitiesRequest` at the front of `s`, as a `Packet`.
#[verifier::opaque]
spec fn route_abilities_request(s: Seq<u8>) -> Option<(PacketView, Seq<u8>)> {
    match <play::AbilitiesRequest as MD<'static>>::spec_deserialize(s) {
        Some((v, rest)) => Some((PacketView::AbilitiesRequest(v), rest)),
        None => None,
    }
}

/// The `BlockDigRequest` at the front of `s`, as a `Packet`.
#[verifier::opaque]
spec fn route_block_dig_request(s: Seq<u8>) -> Option<(PacketView, Seq<u8>)> {
    match <play::BlockDigRequest as MD<'static>>::spec_deserialize(s) {
        Some((v, rest)) => Some((PacketView::BlockDigRequest(v), rest)),
        None => None,
    }
}

/// The `EntityActionRequest` at the front of `s`, as a `Packet`.
#[verifier::opaque]
spec fn route_entity_action_request(s: Seq<u8>) -> Option<(PacketView, Seq<u8>)> {
    match <play::EntityActionRequest as MD<'static>>::spec_deserialize(s) {
        Some((v, rest)) => Some((PacketView::EntityActionRequest(v), rest)),
        None => None,
    }
}

/// The `SteerVehicleRequest` at the front of `s`, as a `Packet`.
#[verifier::opaque]
spec fn route_steer_vehicle_request(s: Seq<u8>) -> Option<(PacketView, Seq<u8>)> {
    match <play::SteerVehicleRequest as MD<'static>>::spec_deserialize(s) {
        Some((v, rest)) => Some((PacketView::SteerVehicleRequest(v), rest)),
        None => None,
    }
}

/// The `PongRequest` at the front of `s`, as a `Packet`.
#[verifier::opaque]
spec fn route_pong_request(s: Seq<u8>) -> Option<(PacketView, Seq<u8>)> {
    match <play::PongRequest as MD<'static>>::spec_deserialize(s) {
        Some((v, rest)) => Some((PacketView::PongRequest(v), rest)),
        None => None,
    }
}

/// The `RecipeBookRequest` at the front of `s`, as a `Packet`.
#[verifier::opaque]
spec fn route_recipe_book_request(s: Seq<u8>) -> Option<(PacketView, Seq<u8>)> {
    match <play::RecipeBookRequest as MD<'static>>::spec_deserialize(s) {
        Some((v, rest)) => Some((PacketView::RecipeBookRequest(v), rest)),
        None => None,
    }
}

/// The `DisplayedRecipeRequest` at the front of `s`, as a `Packet`.
#[verifier::opaque]
spec fn route_displayed_recipe_request(s: Seq<u8>) -> Option<(PacketView, Seq<u8>)> {
    match <play::DisplayedRecipeRequest<'static> as MD<'static>>::spec_deserialize(s) {
        Some((v, rest)) => Some((PacketView::DisplayedRecipeRequest(v), rest)),
        None => None,
    }
}

/// The `NameItemRequest` at the front of `s`, as a `Packet`.
#[verifier::opaque]
spec fn route_name_item_request(s: Seq<u8>) -> Option<(PacketView, Seq<u8>)> {
    match <play::NameItemRequest<'static> as MD<'static>>::spec_deserialize(s) {
        Some((v, rest)) => Some((PacketView::NameItemRequest(v), rest)),
        None => None,
    }
}

/// The `ResourcePackReceiveRequest` at the front of `s`, as a `Packet`.
#[verifier::opaque]
spec fn route_resource_pack_receive_request(s: Seq<u8>) -> Option<(PacketView, Seq<u8>)> {
    match <play::ResourcePackReceiveRequest as MD<'static>>::spec_deserialize(s) {
        Some((v, rest)) => Some((PacketView::ResourcePackReceiveRequest(v), rest)),
        None => None,
    }
}

/// The `AdvancementTabRequest` at the front of `s`, as a `Packet`.
#[verifier::opaque]
spec fn route_advancement_tab_request(s: Seq<u8>) -> Option<(PacketView, Seq<u8>)> {
    match <play::AdvancementTabRequest as MD<'static>>::spec_deserialize(s) {
        Some((v, rest)) => Some((PacketView::AdvancementTabRequest(v), rest)),
        None => None,
    }
}

/// The `SelectTradeRequest` at the front of `s`, as a `Packet`.
#[verifier::opaque]
spec fn route_select_trade_request(s: Seq<u8>) -> Option<(PacketView, Seq<u8>)> {
    match <play::SelectTradeRequest as MD<'static>>::spec_deserialize(s) {
        Some((v, rest)) => Some((PacketView::SelectTradeRequest(v), rest)),
        None => None,
    }
}

/// The `SetBeaconEffectRequest` at the front of `s`, as a `Packet`.
#[verifier::opaque]
spec fn route_set_beacon_effect_request(s: Seq<u8>) -> Option<(PacketView, Seq<u8>)> {
    match <play::SetBeaconEffectRequest as MD<'static>>::spec_deserialize(s) {
        Some((v, rest)) => Some((PacketView::SetBeaconEffectRequest(v), rest)),
        None => None,
    }
}

/// The `HeldItemSlotRequest` at the front of `s`, as a `Packet`.
#[verifier::opaque]
spec fn route_held_item_slot_request(s: Seq<u8>) -> Option<(PacketView, Seq<u8>)> {
    match <play::HeldItemSlotRequest as MD<'static>>::spec_deserialize(s) {
        Some((v, rest)) => Some((PacketView::HeldItemSlotRequest(v), rest)),
        None => None,
    }
}

/// The `UpdateCommandBlockRequest` at the front of `s`, as a `Packet`.
#[verifier::opaque]
spec fn route_update_command_block_request(s: Seq<u8>) -> Option<(PacketView, Seq<u8>)> {
    match <play::UpdateCommandBlockRequest<'static> as MD<'static>>::spec_deserialize(s) {
        Some((v, rest)) => Some((PacketView::UpdateCommandBlockRequest(v), rest)),
        None => None,
    }
}

/// The `UpdateCommandBlockMinecartRequest` at the front of `s`, as a `Packet`.
#[verifier::opaque]
spec fn route_update_command_block_minecart_request(s: Seq<u8>) -> Option<(PacketView, Seq<u8>)> {
    match <play::UpdateCommandBlockMinecartRequest<'static> as MD<'static>>::spec_deserialize(s) {
        Some((v, rest)) => Some((PacketView::UpdateCommandBlockMinecartRequest(v), rest)),
        None => None,
    }
}

/// The `SetCreativeSlotRequest` at the front of `s`, as a `Packet`.
#[verifier::opaque]
spec fn route_set_creative_slot_request(s: Seq<u8>) -> Option<(PacketView, Seq<u8>)> {
    match <play::SetCreativeSlotRequest<'static> as MD<'static>>::spec_deserialize(s) {
        Some((v, rest)) => Some((PacketView::SetCreativeSlotRequest(v), rest)),
        None => None,
    }
}

/// The `UpdateJigsawBlockRequest` at the front of `s`, as a `Packet`.
#[verifier::opaque]
spec fn route_update_jigsaw_block_request(s: Seq<u8>) -> Option<(PacketView, Seq<u8>)> {
    match <play::UpdateJigsawBlockRequest<'static> as MD<'static>>::spec_deserialize(s) {
        Some((v, rest)) => Some((PacketView::UpdateJigsawBlockRequest(v), rest)),
        None => None,
    }
}

/// The `UpdateStructureBlockRequest` at the front of `s`, as a `Packet`.
#[verifier::opaque]
spec fn route_update_structure_block_request(s: Seq<u8>) -> Option<(PacketView, Seq<u8>)> {
    match <play::UpdateStructureBlockRequest<'static> as MD<'static>>::spec_deserialize(s) {
        Some((v, rest)) => Some((PacketView::UpdateStructureBlockRequest(v), rest)),
        None => None,
    }
}

/// The `UpdateSignRequest` at the front of `s`, as a `Packet`.
#[verifier::opaque]
spec fn route_update_sign_request(s: Seq<u8>) -> Option<(PacketView, Seq<u8>)> {
    match <play::UpdateSignRequest<'static> as MD<'static>>::spec_deserialize(s) {
        Some((v, rest)) => Some((PacketView::UpdateSignRequest(v), rest)),
        None => None,
    }
}

/// The `ArmAnimationRequest` at the front of `s`, as a `Packet`.
#[verifier::opaque]
spec fn route_arm_animation_request(s: Seq<u8>) -> Option<(PacketView, Seq<u8>)> {
    match <play::ArmAnimationRequest as MD<'static>>::spec_deserialize(s) {
        Some((v, rest)) => Some((PacketView::ArmAnimationRequest(v), rest)),
        None => None,
    }
}

/// The `SpectateRequest` at the front of `s`, as a `Packet`.
#[verifier::opaque]
spec fn route_spectate_request(s: Seq<u8>) -> Option<(PacketView, Seq<u8>)> {
    match <play::SpectateRequest as MD<'static>>::spec_deserialize(s) {
        Some((v, rest)) => Some((PacketView::SpectateRequest(v), rest)),
        None => None,
    }
}

/// The `BlockPlaceRequest` at the front of `s`, as a `Packet`.
#[verifier::opaque]
spec fn route_block_place_request(s: Seq<u8>) -> Option<(PacketView, Seq<u8>)> {
    match <play::BlockPlaceRequest as MD<'static>>::spec_deserialize(s) {
        Some((v, rest)) => Some((PacketView::BlockPlaceRequest(v), rest)),
        None => None,
    }
}

/// The `UseItemRequest` at the front of `s`, as a `Packet`.
#[verifier::opaque]
spec fn route_use_item_request(s: Seq<u8>) -> Option<(PacketView, Seq<u8>)> {
    match <play::UseItemRequest as MD<'static>>::spec_deserialize(s) {
        Some((v, rest)) => Some((PacketView::UseItemRequest(v), rest)),
        None => None,
    }
}

/// The `SpawnEntityResponse` at the front of `s`, as a `Packet`.
#[verifier::opaque]
spec fn route_spawn_entity_response(s: Seq<u8>) -> Option<(PacketView, Seq<u8>)> {
    match <play::SpawnEntityResponse as MD<'static>>::spec_deserialize(s) {
        Some((v, rest)) => Some((PacketView::SpawnEntityResponse(v), rest)),
        None => None,
    }
}

/// The `SpawnEntityExperienceOrbResponse` at the front of `s`, as a `Packet`.
#[verifier::opaque]
spec fn route_spawn_entity_experience_orb_response(s: Seq<u8>) -> Option<(PacketView, Seq<u8>)> {
    match <play::SpawnEntityExperienceOrbResponse as MD<'static>>::spec_deserialize(s) {
        Some((v, rest)) => Some((PacketView::SpawnEntityExperienceOrbResponse(v), rest)),
        None => None,
    }
}

/// The `SpawnEntityLivingResponse` at the front of `s`, as a `Packet`.
#[verifier::opaque]
spec fn route_spawn_entity_living_response(s: Seq<u8>) -> Option<(PacketView, Seq<u8>)> {
    match <play::SpawnEntityLivingResponse as MD<'static>>::spec_deserialize(s) {
        Some((v, rest)) => Some((PacketView::SpawnEntityLivingResponse(v), rest)),
        None => None,
    }
}

/// The `SpawnEntityPaintingResponse` at the front of `s`, as a `Packet`.
#[verifier::opaque]
spec fn route_spawn_entity_painting_response(s: Seq<u8>) -> Option<(PacketView, Seq<u8>)> {
    match <play::SpawnEntityPaintingResponse as MD<'static>>::spec_deserialize(s) {
        Some((v, rest)) => Some((PacketView::SpawnEntityPaintingResponse(v), rest)),
        None => None,
    }
}

/// The `NamedEntitySpawnResponse` at the front of `s`, as a `Packet`.
#[verifier::opaque]
spec fn route_named_entity_spawn_response(s: Seq<u8>) -> Option<(PacketView, Seq<u8>)> {
    match <play::NamedEntitySpawnResponse as MD<'static>>::spec_deserialize(s) {
        Some((v, rest)) => Some((PacketView::NamedEntitySpawnResponse(v), rest)),
        None => None,
    }
}

/// The `SculkVibrationSignalResponse` at the front of `s`, as a `Packet`.
#[verifier::opaque]
spec fn route_sculk_vibration_signal_response(s: Seq<u8>) -> Option<(PacketView, Seq<u8>)> {
    match <play::SculkVibrationSignalResponse as MD<'static>>::spec_deserialize(s) {
        Some((v, rest)) => Some((PacketView::SculkVibrationSignalResponse(v), rest)),
        None => None,
    }
}

/// The `AnimationResponse` at the front of `s`, as a `Packet`.
#[verifier::opaque]
spec fn route_animation_response(s: Seq<u8>) -> Option<(PacketView, Seq<u8>)> {
    match <play::AnimationResponse as MD<'static>>::spec_deserialize(s) {
        Some((v, rest)) => Some((PacketView::AnimationResponse(v), rest)),
        None => None,
    }
}

/// The `StatisticsResponse` at the front of `s`, as a `Packet`.
#[verifier::opaque]
spec fn route_statistics_response(s: Seq<u8>) -> Option<(PacketView, Seq<u8>)> {
    match <play::StatisticsResponse as MD<'static>>::spec_deserialize(s) {
        Some((v, rest)) => Some((PacketView::StatisticsResponse(v), rest)),
        None => None,
    }
}

/// The `AcknowledgePlayerDiggingResponse` at the front of `s`, as a `Packet`.
#[verifier::opaque]
spec fn route_acknowledge_player_digging_response(s: Seq<u8>) -> Option<(PacketView, Seq<u8>)> {
    match <play::AcknowledgePlayerDiggingResponse as MD<'static>>::spec_deserialize(s) {
        Some((v, rest)) => Some((PacketView::AcknowledgePlayerDiggingResponse(v), rest)),
        None => None,
    }
}

/// The `BlockBreakAnimationResponse` at the front of `s`, as a `Packet`.
#[verifier::opaque]
spec fn route_block_break_animation_response(s: Seq<u8>) -> Option<(PacketView, Seq<u8>)> {
    match <play::BlockBreakAnimationResponse as MD<'static>>::spec_deserialize(s) {
        Some((v, rest)) => Some((PacketView::BlockBreakAnimationResponse(v), rest)),
        None => None,
    }
}

/// The `TileEntityDataResponse` at the front of `s`, as a `Packet`.
#[verifier::opaque]
spec fn route_tile_entity_data_response(s: Seq<u8>) -> Option<(PacketView, Seq<u8>)> {
    match <play::TileEntityDataResponse<'static> as MD<'static>>::spec_deserialize(s) {
        Some((v, rest)) => Some((PacketView::TileEntityDataResponse(v), rest)),
        None => None,
    }
}

/// The `BlockActionResponse` at the front of `s`, as a `Packet`.
#[verifier::opaque]
spec fn route_block_action_response(s: Seq<u8>) -> Option<(PacketView, Seq<u8>)> {
    match <play::BlockActionResponse as MD<'static>>::spec_deserialize(s) {
        Some((v, rest)) => Some((PacketView::BlockActionResponse(v), rest)),
        None => None,
    }
}

/// The `BlockChangeResponse` at the front of `s`, as a `Packet`.
#[verifier::opaque]
spec fn route_block_change_response(s: Seq<u8>) -> Option<(PacketView, Seq<u8>)> {
    match <play::BlockChangeResponse as MD<'static>>::spec_deserialize(s) {
        Some((v, rest)) => Some((PacketView::BlockChangeResponse(v), rest)),
        None => None,
    }
}

/// The `BossBarResponse` at the front of `s`, as a `Packet`.
#[verifier::opaque]
spec fn route_boss_bar_response(s: Seq<u8>) -> Option<(PacketView, Seq<u8>)> {
    match <play::BossBarResponse as MD<'static>>::spec_deserialize(s) {
        Some((v, rest)) => Some((PacketView::BossBarResponse(v), rest)),
        None => None,
    }
}

/// The `DifficultyResponse` at the front of `s`, as a `Packet`.
#[verifier::opaque]
spec fn route_difficulty_response(s: Seq<u8>) -> Option<(PacketView, Seq<u8>)> {
    match <play::DifficultyResponse as MD<'static>>::spec_deserialize(s) {
        Some((v, rest)) => Some((PacketView::DifficultyResponse(v), rest)),
        None => None,
    }
}

/// The `ChatResponse` at the front of `s`, as a `Packet`.
#[verifier::opaque]
spec fn route_chat_response(s: Seq<u8>) -> Option<(PacketView, Seq<u8>)> {
    match <play::ChatResponse<'static> as MD<'static>>::spec_deserialize(s) {
        Some((v, rest)) => Some((PacketView::ChatResponse(v), rest)),
        None => None,
    }
}

/// The `ClearTitlesResponse` at the front of `s`, as a `Packet`.
#[verifier::opaque]
spec fn route_clear_titles_response(s: Seq<u8>) -> Option<(PacketView, Seq<u8>)> {
    match <play::ClearTitlesResponse as MD<'static>>::spec_deserialize(s) {
        Some((v, rest)) => Some((PacketView::ClearTitlesResponse(v), rest)),
        None => None,
    }
}

/// The `TabCompleteResponse` at the front of `s`, as a `Packet`.
#[verifier::opaque]
spec fn route_tab_complete_response(s: Seq<u8>) -> Option<(PacketView, Seq<u8>)> {
    match <play::TabCompleteResponse<'static> as MD<'static>>::spec_deserialize(s) {
        Some((v, rest)) => Some((PacketView::TabCompleteResponse(v), rest)),
        None => None,
    }
}

/// The `DeclareCommandsResponse` at the front of `s`, as a `Packet`.
#[verifier::opaque]
spec fn route_declare_commands_response(s: Seq<u8>) -> Option<(PacketView, Seq<u8>)> {
    match <play::DeclareCommandsResponse as MD<'static>>::spec_deserialize(s) {
        Some((v, rest)) => Some((PacketView::DeclareCommandsResponse(v), rest)),
        None => None,
    }
}

/// The `CloseWindowResponse` at the front of `s`, as a `Packet`.
#[verifier::opaque]
spec fn route_close_window_response(s: Seq<u8>) -> Option<(PacketView, Seq<u8>)> {
    match <play::CloseWindowResponse as MD<'static>>::spec_deserialize(s) {
        Some((v, rest)) => Some((PacketView::CloseWindowResponse(v), rest)),
        None => None,
    }
}

/// The `WindowItemsResponse` at the front of `s`, as a `Packet`.
#[verifier::opaque]
spec fn route_window_items_response(s: Seq<u8>) -> Option<(PacketView, Seq<u8>)> {
    match <play::WindowItemsResponse<'static> as MD<'static>>::spec_deserialize(s) {
        Some((v, rest)) => Some((PacketView::WindowItemsResponse(v), rest)),
        None => None,
    }
}

/// The `CraftProgressBarResponse` at the front of `s`, as a `Packet`.
#[verifier::opaque]
spec fn route_craft_progress_bar_response(s: Seq<u8>) -> Option<(PacketView, Seq<u8>)> {
    match <play::CraftProgressBarResponse as MD<'static>>::spec_deserialize(s) {
        Some((v, rest)) => Some((PacketView::CraftProgressBarResponse(v), rest)),
        None => None,
    }
}

/// The `SetSlotResponse` at the front of `s`, as a `Packet`.
#[verifier::opaque]
spec fn route_set_slot_response(s: Seq<u8>) -> Option<(PacketView, Seq<u8>)> {
    match <play::SetSlotResponse<'static> as MD<'static>>::spec_deserialize(s) {
        Some((v, rest)) => Some((PacketView::SetSlotResponse(v), rest)),
        None => None,
    }
}

/// The `SetCooldownResponse` at the front of `s`, as a `Packet`.
#[verifier::opaque]
spec fn route_set_cooldown_response(s: Seq<u8>) -> Option<(PacketView, Seq<u8>)> {
    match <play::SetCooldownResponse as MD<'static>>::spec_deserialize(s) {
        Some((v, rest)) => Some((PacketView::SetCooldownResponse(v), rest)),
        None => None,
    }
}

/// The `CustomPayloadResponse` at the front of `s`, as a `Packet`.
#[verifier::opaque]
spec fn route_custom_payload_response(s: Seq<u8>) -> Option<(PacketView, Seq<u8>)> {
    match <play::CustomPayloadResponse<'static> as MD<'static>>::spec_deserialize(s) {
        Some((v, rest)) => Some((PacketView::CustomPayloadResponse(v), rest)),
        None => None,
    }
}

/// The `NamedSoundEffectResponse` at the front of `s`, as a `Packet`.
#[verifier::opaque]
spec fn route_named_sound_effect_response(s: Seq<u8>) -> Option<(PacketView, Seq<u8>)> {
    match <play::NamedSoundEffectResponse<'static> as MD<'static>>::spec_deserialize(s) {
        Some((v, rest)) => Some((PacketView::NamedSoundEffectResponse(v), rest)),
        None => None,
    }
}

/// The `KickDisconnectResponse` at the front of `s`, as a `Packet`.
#[verifier::opaque]
spec fn route_kick_disconnect_response(s: Seq<u8>) -> Option<(PacketView, Seq<u8>)> {
    match <play::KickDisconnectResponse<'static> as MD<'static>>::spec_deserialize(s) {
        Some((v, rest)) => Some((PacketView::KickDisconnectResponse(v), rest)),
        None => None,
    }
}

/// The `EntityStatusResponse` at the front of `s`, as a `Packet`.
#[verifier::opaque]
spec fn route_entity_status_response(s: Seq<u8>) -> Option<(PacketView, Seq<u8>)> {
    match <play::EntityStatusResponse as MD<'static>>::spec_deserialize(s) {
        Some((v, rest)) => Some((PacketView::EntityStatusResponse(v), rest)),
        None => None,
    }
}

/// The `ExplosionResponse` at the front of `s`, as a `Packet`.
#[verifier::opaque]
spec fn route_explosion_response(s: Seq<u8>) -> Option<(PacketView, Seq<u8>)> {
    match <play::ExplosionResponse as MD<'static>>::spec_deserialize(s) {
        Some((v, rest)) => Some((PacketView::ExplosionResponse(v), rest)),
        None => None,
    }
}

/// The `UnloadChunkResponse` at the front of `s`, as a `Packet`.
#[verifier::opaque]
spec fn route_unload_chunk_response(s: Seq<u8>) -> Option<(PacketView, Seq<u8>)> {
    match <play::UnloadChunkResponse as MD<'static>>::spec_deserialize(s) {
        Some((v, rest)) => Some((PacketView::UnloadChunkResponse(v), rest)),
        None => None,
    }
}

/// The `GameStateChangeResponse` at the front of `s`, as a `Packet`.
#[verifier::opaque]
spec fn route_game_state_change_response(s: Seq<u8>) -> Option<(PacketView, Seq<u8>)> {
    match <play::GameStateChangeResponse as MD<'static>>::spec_deserialize(s) {
        Some((v, rest)) => Some((PacketView::GameStateChangeResponse(v), rest)),
        None => None,
    }
}

/// The `OpenHorseWindowResponse` at the front of `s`, as a `Packet`.
#[verifier::opaque]
spec fn route_open_horse_window_response(s: Seq<u8>) -> Option<(PacketView, Seq<u8>)> {
    match <play::OpenHorseWindowResponse as MD<'static>>::spec_deserialize(s) {
        Some((v, rest)) => Some((PacketView::OpenHorseWindowResponse(v), rest)),
        None => None,
    }
}

/// The `InitializeWorldBorderResponse` at the front of `s`, as a `Packet`.
#[verifier::opaque]
spec fn route_initialize_world_border_response(s: Seq<u8>) -> Option<(PacketView, Seq<u8>)> {
    match <play::InitializeWorldBorderResponse as MD<'static>>::spec_deserialize(s) {
        Some((v, rest)) => Some((PacketView::InitializeWorldBorderResponse(v), rest)),
        None => None,
    }
}

/// The `KeepAliveResponse` at the front of `s`, as a `Packet`.
#[verifier::opaque]
spec fn route_keep_alive_response(s: Seq<u8>) -> Option<(PacketView, Seq<u8>)> {
    match <play::KeepAliveResponse as MD<'static>>::spec_deserialize(s) {
        Some((v, rest)) => Some((PacketView::KeepAliveResponse(v), rest)),
        None => None,
    }
}

/// The `MapChunkResponse` at the front of `s`, as a `Packet`.
#[verifier::opaque]
spec fn route_map_chunk_response(s: Seq<u8>) -> Option<(PacketView, Seq<u8>)> {
    match <play::MapChunkResponse<'static> as MD<'static>>::spec_deserialize(s) {
        Some((v, rest)) => Some((PacketView::MapChunkResponse(v), rest)),
        None => None,
    }
}

/// The `WorldEventResponse` at the front of `s`, as a `Packet`.
#[verifier::opaque]
spec fn route_world_event_response(s: Seq<u8>) -> Option<(PacketView, Seq<u8>)> {
    match <play::WorldEventResponse as MD<'static>>::spec_deserialize(s) {
        Some((v, rest)) => Some((PacketView::WorldEventResponse(v), rest)),
        None => None,
    }
}

/// The `WorldParticlesResponse` at the front of `s`, as a `Packet`.
#[verifier::opaque]
spec fn route_world_particles_response(s: Seq<u8>) -> Option<(PacketView, Seq<u8>)> {
    match <play::WorldParticlesResponse as MD<'static>>::spec_deserialize(s) {
        Some((v, rest)) => Some((PacketView::WorldParticlesResponse(v), rest)),
        None => None,
    }
}

/// The `UpdateLightResponse` at the front of `s`, as a `Packet`.
#[verifier::opaque]
spec fn route_update_light_response(s: Seq<u8>) -> Option<(PacketView, Seq<u8>)> {
    match <play::UpdateLightResponse<'static> as MD<'static>>::spec_deserialize(s) {
        Some((v, rest)) => Some((PacketView::UpdateLightResponse(v), rest)),
        None => None,
    }
}

/// The `LoginResponse` at the front of `s`, as a `Packet`.
#[verifier::opaque]
spec fn route_login_response(s: Seq<u8>) -> Option<(PacketView, Seq<u8>)> {
    match <play::LoginResponse<'static> as MD<'static>>::spec_deserialize(s) {
        Some((v, rest)) => Some((PacketView::LoginResponse(v), rest)),
        None => None,
    }
}

/// The `MapResponse` at the front of `s`, as a `Packet`.
#[verifier::opaque]
spec fn route_map_response(s: Seq<u8>) -> Option<(PacketView, Seq<u8>)> {
    match <play::MapResponse as MD<'static>>::spec_deserialize(s) {
        Some((v, rest)) => Some((PacketView::MapResponse(v), rest)),
        None => None,
    }
}

/// The `TradeListResponse` at the front of `s`, as a `Packet`.
#[verifier::opaque]
spec fn route_trade_list_response(s: Seq<u8>) -> Option<(PacketView, Seq<u8>)> {
    match <play::TradeListResponse<'static> as MD<'static>>::spec_deserialize(s) {
        Some((v, rest)) => Some((PacketView::TradeListResponse(v), rest)),
        None => None,
    }
}

/// The `RelEntityMoveResponse` at the front of `s`, as a `Packet`.
#[verifier::opaque]
spec fn route_rel_entity_move_response(s: Seq<u8>) -> Option<(PacketView, Seq<u8>)> {
    match <play::RelEntityMoveResponse as MD<'static>>::spec_deserialize(s) {
        Some((v, rest)) => Some((PacketView::RelEntityMoveResponse(v), rest)),
        None => None,
    }
}

/// The `EntityMoveLookResponse` at the front of `s`, as a `Packet`.
#[verifier::opaque]
spec fn route_entity_move_look_response(s: Seq<u8>) -> Option<(PacketView, Seq<u8>)> {
    match <play::EntityMoveLookResponse as MD<'static>>::spec_deserialize(s) {
        Some((v, rest)) => Some((PacketView::EntityMoveLookResponse(v), rest)),
        None => None,
    }
}

/// The `EntityLookResponse` at the front of `s`, as a `Packet`.
#[verifier::opaque]
spec fn route_entity_look_response(s: Seq<u8>) -> Option<(PacketView, Seq<u8>)> {
    match <play::EntityLookResponse as MD<'static>>::spec_deserialize(s) {
        Some((v, rest)) => Some((PacketView::EntityLookResponse(v), rest)),
        None => None,
    }
}

/// The `VehicleMoveResponse` at the front of `s`, as a `Packet`.
#[verifier::opaque]
spec fn route_vehicle_move_response(s: Seq<u8>) -> Option<(PacketView, Seq<u8>)> {
    match <play::VehicleMoveResponse as MD<'static>>::spec_deserialize(s) {
        Some((v, rest)) => Some((PacketView::VehicleMoveResponse(v), rest)),
        None => None,
    }
}

/// The `OpenBookResponse` at the front of `s`, as a `Packet`.
#[verifier::opaque]
spec fn route_open_book_response(s: Seq<u8>) -> Option<(PacketView, Seq<u8>)> {
    match <play::OpenBookResponse as MD<'static>>::spec_deserialize(s) {
        Some((v, rest)) => Some((PacketView::OpenBookResponse(v), rest)),
        None => None,
    }
}

/// The `OpenWindowResponse` at the front of `s`, as a `Packet`.
#[verifier::opaque]
spec fn route_open_window_response(s: Seq<u8>) -> Option<(PacketView, Seq<u8>)> {
    match <play::OpenWindowResponse<'static> as MD<'static>>::spec_deserialize(s) {
        Some((v, rest)) => Some((PacketView::OpenWindowResponse(v), rest)),
        None => None,
    }
}

/// The `OpenSignEntityResponse` at the front of `s`, as a `Packet`.
#[verifier::opaque]
spec fn route_open_sign_entity_response(s: Seq<u8>) -> Option<(PacketView, Seq<u8>)> {
    match <play::OpenSignEntityResponse as MD<'static>>::spec_deserialize(s) {
        Some((v, rest)) => Some((PacketView::OpenSignEntityResponse(v), rest)),
        None => None,
    }
}

/// The `PlayPingResponse` at the front of `s`, as a `Packet`.
#[verifier::opaque]
spec fn route_play_ping_response(s: Seq<u8>) -> Option<(PacketView, Seq<u8>)> {
    match <play::PlayPingResponse as MD<'static>>::spec_deserialize(s) {
        Some((v, rest)) => Some((PacketView::PlayPingResponse(v), rest)),
        None => None,
    }
}

/// The `CraftRecipeResponse` at the front of `s`, as a `Packet`.
#[verifier::opaque]
spec fn route_craft_recipe_response(s: Seq<u8>) -> Option<(PacketView, Seq<u8>)> {
    match <play::CraftRecipeResponse<'static> as MD<'static>>::spec_deserialize(s) {
        Some((v, rest)) => Some((PacketView::CraftRecipeResponse(v), rest)),
        None => None,
    }
}

/// The `AbilitiesResponse` at the front of `s`, as a `Packet`.
#[verifier::opaque]
spec fn route_abilities_response(s: Seq<u8>) -> Option<(PacketView, Seq<u8>)> {
    match <play::AbilitiesResponse as MD<'static>>::spec_deserialize(s) {
        Some((v, rest)) => Some((PacketView::AbilitiesResponse(v), rest)),
        None => None,
    }
}

/// The `EndCombatEventResponse` at the front of `s`, as a `Packet`.
#[verifier::opaque]
spec fn route_end_combat_event_response(s: Seq<u8>) -> Option<(PacketView, Seq<u8>)> {
    match <play::EndCombatEventResponse as MD<'static>>::spec_deserialize(s) {
        Some((v, rest)) => Some((PacketView::EndCombatEventResponse(v), rest)),
        None => None,
    }
}

/// The `EnterCombatEventResponse` at the front of `s`, as a `Packet`.
#[verifier::opaque]
spec fn route_enter_combat_event_response(s: Seq<u8>) -> Option<(PacketView, Seq<u8>)> {
    match <play::EnterCombatEventResponse as MD<'static>>::spec_deserialize(s) {
        Some((v, rest)) => Some((PacketView::EnterCombatEventResponse(v), rest)),
        None => None,
    }
}

/// The `DeathCombatEventResponse` at the front of `s`, as a `Packet`.
#[verifier::opaque]
spec fn route_death_combat_event_response(s: Seq<u8>) -> Option<(PacketView, Seq<u8>)> {
    match <play::DeathCombatEventResponse<'static> as MD<'static>>::spec_deserialize(s) {
        Some((v, rest)) => Some((PacketView::DeathCombatEventResponse(v), rest)),
        None => None,
    }
}

/// The `PlayerInfoResponse` at the front of `s`, as a `Packet`.
#[verifier::opaque]
spec fn route_player_info_response(s: Seq<u8>) -> Option<(PacketView, Seq<u8>)> {
    match <play::PlayerInfoResponse as MD<'static>>::spec_deserialize(s) {
        Some((v, rest)) => Some((PacketView::PlayerInfoResponse(v), rest)),
        None => None,
    }
}

/// The `FacePlayerResponse` at the front of `s`, as a `Packet`.
#[verifier::opaque]
spec fn route_face_player_response(s: Seq<u8>) -> Option<(PacketView, Seq<u8>)> {
    match <play::FacePlayerResponse as MD<'static>>::spec_deserialize(s) {
        Some((v, rest)) => Some((PacketView::FacePlayerResponse(v), rest)),
        None => None,
    }
}

/// The `PositionResponse` at the front of `s`, as a `Packet`.
#[verifier::opaque]
spec fn route_position_response(s: Seq<u8>) -> Option<(PacketView, Seq<u8>)> {
    match <play::PositionResponse as MD<'static>>::spec_deserialize(s) {
        Some((v, rest)) => Some((PacketView::PositionResponse(v), rest)),
        None => None,
    }
}

/// The `UnlockRecipesResponse` at the front of `s`, as a `Packet`.
#[verifier::opaque]
spec fn route_unlock_recipes_response(s: Seq<u8>) -> Option<(PacketView, Seq<u8>)> {
    match <play::UnlockRecipesResponse as MD<'static>>::spec_deserialize(s) {
        Some((v, rest)) => Some((PacketView::UnlockRecipesResponse(v), rest)),
        None => None,
    }
}

/// The `EntityDestroyResponse` at the front of `s`, as a `Packet`.
#[verifier::opaque]
spec fn route_entity_destroy_response(s: Seq<u8>) -> Option<(PacketView, Seq<u8>)> {
    match <play::EntityDestroyResponse as MD<'static>>::spec_deserialize(s) {
        Some((v, rest)) => Some((PacketView::EntityDestroyResponse(v), rest)),
        None => None,
    }
}

/// The `RemoveEntityEffectResponse` at the front of `s`, as a `Packet`.
#[verifier::opaque]
spec fn route_remove_entity_effect_response(s: Seq<u8>) -> Option<(PacketView, Seq<u8>)> {
    match <play::RemoveEntityEffectResponse as MD<'static>>::spec_deserialize(s) {
        Some((v, rest)) => Some((PacketView::RemoveEntityEffectResponse(v), rest)),
        None => None,
    }
}

/// The `ResourcePackSendResponse` at the front of `s`, as a `Packet`.
#[verifier::opaque]
spec fn route_resource_pack_send_response(s: Seq<u8>) -> Option<(PacketView, Seq<u8>)> {
    match <play::ResourcePackSendResponse<'static> as MD<'static>>::spec_deserialize(s) {
        Some((v, rest)) => Some((PacketView::ResourcePackSendResponse(v), rest)),
        None => None,
    }
}

/// The `RespawnResponse` at the front of `s`, as a `Packet`.
#[verifier::opaque]
spec fn route_respawn_response(s: Seq<u8>) -> Option<(PacketView, Seq<u8>)> {
    match <play::RespawnResponse<'static> as MD<'static>>::spec_deserialize(s) {
        Some((v, rest)) => Some((PacketView::RespawnResponse(v), rest)),
        None => None,
    }
}

/// The `EntityHeadRotationResponse` at the front of `s`, as a `Packet`.
#[verifier::opaque]
spec fn route_entity_head_rotation_response(s: Seq<u8>) -> Option<(PacketView, Seq<u8>)> {
    match <play::EntityHeadRotationResponse as MD<'static>>::spec_deserialize(s) {
        Some((v, rest)) => Some((PacketView::EntityHeadRotationResponse(v), rest)),
        None => None,
    }
}

/// The `MultiBlockChangeResponse` at the front of `s`, as a `Packet`.
#[verifier::opaque]
spec fn route_multi_block_change_response(s: Seq<u8>) -> Option<(PacketView, Seq<u8>)> {
    match <play::MultiBlockChangeResponse as MD<'static>>::spec_deserialize(s) {
        Some((v, rest)) => Some((PacketView::MultiBlockChangeResponse(v), rest)),
        None => None,
    }
}

/// The `SelectAdvancementTabResponse` at the front of `s`, as a `Packet`.
#[verifier::opaque]
spec fn route_select_advancement_tab_response(s: Seq<u8>) -> Option<(PacketView, Seq<u8>)> {
    match <play::SelectAdvancementTabResponse<'static> as MD<'static>>::spec_deserialize(s) {
        Some((v, rest)) => Some((PacketView::SelectAdvancementTabResponse(v), rest)),
        None => None,
    }
}

/// The `ActionBarResponse` at the front of `s`, as a `Packet`.
#[verifier::opaque]
spec fn route_action_bar_response(s: Seq<u8>) -> Option<(PacketView, Seq<u8>)> {
    match <play::ActionBarResponse<'static> as MD<'static>>::spec_deserialize(s) {
        Some((v, rest)) => Some((PacketView::ActionBarResponse(v), rest)),
        None => None,
    }
}

/// The `WorldBorderCenterResponse` at the front of `s`, as a `Packet`.
#[verifier::opaque]
spec fn route_world_border_center_response(s: Seq<u8>) -> Option<(PacketView, Seq<u8>)> {
    match <play::WorldBorderCenterResponse as MD<'static>>::spec_deserialize(s) {
        Some((v, rest)) => Some((PacketView::WorldBorderCenterResponse(v), rest)),
        None => None,
    }
}

/// The `WorldBorderLerpSizeResponse` at the front of `s`, as a `Packet`.
#[verifier::opaque]
spec fn route_world_border_lerp_size_response(s: Seq<u8>) -> Option<(PacketView, Seq<u8>)> {
    match <play::WorldBorderLerpSizeResponse as MD<'static>>::spec_deserialize(s) {
        Some((v, rest)) => Some((PacketView::WorldBorderLerpSizeResponse(v), rest)),
        None => None,
    }
}

/// The `WorldBorderSizeResponse` at the front of `s`, as a `Packet`.
#[verifier::opaque]
spec fn route_world_border_size_response(s: Seq<u8>) -> Option<(PacketView, Seq<u8>)> {
    match <play::WorldBorderSizeResponse as MD<'static>>::spec_deserialize(s) {
        Some((v, rest)) => Some((PacketView::WorldBorderSizeResponse(v), rest)),
        None => None,
    }
}

/// The `WorldBorderWarningDelayResponse` at the front of `s`, as a `Packet`.
#[verifier::opaque]
spec fn route_world_border_warning_delay_response(s: Seq<u8>) -> Option<(PacketView, Seq<u8>)> {
    match <play::WorldBorderWarningDelayResponse as MD<'static>>::spec_deserialize(s) {
        Some((v, rest)) => Some((PacketView::WorldBorderWarningDelayResponse(v), rest)),
        None => None,
    }
}

/// The `WorldBorderWarningReachResponse` at the front of `s`, as a `Packet`.
#[verifier::opaque]
spec fn route_world_border_warning_reach_response(s: Seq<u8>) -> Option<(PacketView, Seq<u8>)> {
    match <play::WorldBorderWarningReachResponse as MD<'static>>::spec_deserialize(s) {
        Some((v, rest)) => Some((PacketView::WorldBorderWarningReachResponse(v), rest)),
        None => None,
    }
}

/// The `CameraResponse` at the front of `s`, as a `Packet`.
#[verifier::opaque]
spec fn route_camera_response(s: Seq<u8>) -> Option<(PacketView, Seq<u8>)> {
    match <play::CameraResponse as MD<'static>>::spec_deserialize(s) {
        Some((v, rest)) => Some((PacketView::CameraResponse(v), rest)),
        None => None,
    }
}

/// The `HeldItemSlotResponse` at the front of `s`, as a `Packet`.
#[verifier::opaque]
spec fn route_held_item_slot_response(s: Seq<u8>) -> Option<(PacketView, Seq<u8>)> {
    match <play::HeldItemSlotResponse as MD<'static>>::spec_deserialize(s) {
        Some((v, rest)) => Some((PacketView::HeldItemSlotResponse(v), rest)),
        None => None,
    }
}

/// The `UpdateViewPositionResponse` at the front of `s`, as a `Packet`.
#[verifier::opaque]
spec fn route_update_view_position_response(s: Seq<u8>) -> Option<(PacketView, Seq<u8>)> {
    match <play::UpdateViewPositionResponse as MD<'static>>::spec_deserialize(s) {
        Some((v, rest)) => Some((PacketView::UpdateViewPositionResponse(v), rest)),
        None => None,
    }
}

/// The `UpdateViewDistanceResponse` at the front of `s`, as a `Packet`.
#[verifier::opaque]
spec fn route_update_view_distance_response(s: Seq<u8>) -> Option<(PacketView, Seq<u8>)> {
    match <play::UpdateViewDistanceResponse as MD<'static>>::spec_deserialize(s) {
        Some((v, rest)) => Some((PacketView::UpdateViewDistanceResponse(v), rest)),
        None => None,
    }
}

/// The `SpawnPositionResponse` at the front of `s`, as a `Packet`.
#[verifier::opaque]
spec fn route_spawn_position_response(s: Seq<u8>) -> Option<(PacketView, Seq<u8>)> {
    match <play::SpawnPositionResponse as MD<'static>>::spec_deserialize(s) {
        Some((v, rest)) => Some((PacketView::SpawnPositionResponse(v), rest)),
        None => None,
    }
}

/// The `ScoreboardDisplayObjectiveResponse` at the front of `s`, as a `Packet`.
#[verifier::opaque]
spec fn route_scoreboard_display_objective_response(s: Seq<u8>) -> Option<(PacketView, Seq<u8>)> {
    match <play::ScoreboardDisplayObjectiveResponse<'static> as MD<'static>>::spec_deserialize(s) {
        Some((v, rest)) => Some((PacketView::ScoreboardDisplayObjectiveResponse(v), rest)),
        None => None,
    }
}

/// The `EntityMetadataResponse` at the front of `s`, as a `Packet`.
#[verifier::opaque]
spec fn route_entity_metadata_response(s: Seq<u8>) -> Option<(PacketView, Seq<u8>)> {
    match <play::EntityMetadataResponse as MD<'static>>::spec_deserialize(s) {
        Some((v, rest)) => Some((PacketView::EntityMetadataResponse(v), rest)),
        None => None,
    }
}

/// The `AttachEntityResponse` at the front of `s`, as a `Packet`.
#[verifier::opaque]
spec fn route_attach_entity_response(s: Seq<u8>) -> Option<(PacketView, Seq<u8>)> {
    match <play::AttachEntityResponse as MD<'static>>::spec_deserialize(s) {
        Some((v, rest)) => Some((PacketView::AttachEntityResponse(v), rest)),
        None => None,
    }
}

/// The `EntityVelocityResponse` at the front of `s`, as a `Packet`.
#[verifier::opaque]
spec fn route_entity_velocity_response(s: Seq<u8>) -> Option<(PacketView, Seq<u8>)> {
    match <play::EntityVelocityResponse as MD<'static>>::spec_deserialize(s) {
        Some((v, rest)) => Some((PacketView::EntityVelocityResponse(v), rest)),
        None => None,
    }
}

/// The `EntityEquipmentResponse` at the front of `s`, as a `Packet`.
#[verifier::opaque]
spec fn route_entity_equipment_response(s: Seq<u8>) -> Option<(PacketView, Seq<u8>)> {
    match <play::EntityEquipmentResponse as MD<'static>>::spec_deserialize(s) {
        Some((v, rest)) => Some((PacketView::EntityEquipmentResponse(v), rest)),
        None => None,
    }
}

/// The `ExperienceResponse` at the front of `s`, as a `Packet`.
#[verifier::opaque]
spec fn route_experience_response(s: Seq<u8>) -> Option<(PacketView, Seq<u8>)> {
    match <play::ExperienceResponse as MD<'static>>::spec_deserialize(s) {
        Some((v, rest)) => Some((PacketView::ExperienceResponse(v), rest)),
        None => None,
    }
}

/// The `UpdateHealthResponse` at the front of `s`, as a `Packet`.
#[verifier::opaque]
spec fn route_update_health_response(s: Seq<u8>) -> Option<(PacketView, Seq<u8>)> {
    match <play::UpdateHealthResponse as MD<'static>>::spec_deserialize(s) {
        Some((v, rest)) => Some((PacketView::UpdateHealthResponse(v), rest)),
        None => None,
    }
}

/// The `ScoreboardObjectiveResponse` at the front of `s`, as a `Packet`.
#[verifier::opaque]
spec fn route_scoreboard_objective_response(s: Seq<u8>) -> Option<(PacketView, Seq<u8>)> {
    match <play::ScoreboardObjectiveResponse as MD<'static>>::spec_deserialize(s) {
        Some((v, rest)) => Some((PacketView::ScoreboardObjectiveResponse(v), rest)),
        None => None,
    }
}

/// The `SetPassengersResponse` at the front of `s`, as a `Packet`.
#[verifier::opaque]
spec fn route_set_passengers_response(s: Seq<u8>) -> Option<(PacketView, Seq<u8>)> {
    match <play::SetPassengersResponse as MD<'static>>::spec_deserialize(s) {
        Some((v, rest)) => Some((PacketView::SetPassengersResponse(v), rest)),
        None => None,
    }
}

/// The `TeamsResponse` at the front of `s`, as a `Packet`.
#[verifier::opaque]
spec fn route_teams_response(s: Seq<u8>) -> Option<(PacketView, Seq<u8>)> {
    match <play::TeamsResponse as MD<'static>>::spec_deserialize(s) {
        Some((v, rest)) => Some((PacketView::TeamsResponse(v), rest)),
        None => None,
    }
}

/// The `ScoreboardScoreResponse` at the front of `s`, as a `Packet`.
#[verifier::opaque]
spec fn route_scoreboard_score_response(s: Seq<u8>) -> Option<(PacketView, Seq<u8>)> {
    match <play::ScoreboardScoreResponse as MD<'static>>::spec_deserialize(s) {
        Some((v, rest)) => Some((PacketView::ScoreboardScoreResponse(v), rest)),
        None => None,
    }
}

/// The `SimulationDistanceResponse` at the front of `s`, as a `Packet`.
#[verifier::opaque]
spec fn route_simulation_distance_response(s: Seq<u8>) -> Option<(PacketView, Seq<u8>)> {
    match <play::SimulationDistanceResponse as MD<'static>>::spec_deserialize(s) {
        Some((v, rest)) => Some((PacketView::SimulationDistanceResponse(v), rest)),
        None => None,
    }
}

/// The `SetTitleSubtitleResponse` at the front of `s`, as a `Packet`.
#[verifier::opaque]
spec fn route_set_title_subtitle_response(s: Seq<u8>) -> Option<(PacketView, Seq<u8>)> {
    match <play::SetTitleSubtitleResponse<'static> as MD<'static>>::spec_deserialize(s) {
        Some((v, rest)) => Some((PacketView::SetTitleSubtitleResponse(v), rest)),
        None => None,
    }
}

/// The `UpdateTimeResponse` at the front of `s`, as a `Packet`.
#[verifier::opaque]
spec fn route_update_time_response(s: Seq<u8>) -> Option<(PacketView, Seq<u8>)> {
    match <play::UpdateTimeResponse as MD<'static>>::spec_deserialize(s) {
        Some((v, rest)) => Some((PacketView::UpdateTimeResponse(v), rest)),
        None => None,
    }
}

/// The `SetTitleTextResponse` at the front of `s`, as a `Packet`.
#[verifier::opaque]
spec fn route_set_title_text_response(s: Seq<u8>) -> Option<(PacketView, Seq<u8>)> {
    match <play::SetTitleTextResponse<'static> as MD<'static>>::spec_deserialize(s) {
        Some((v, rest)) => Some((PacketView::SetTitleTextResponse(v), rest)),
        None => None,
    }
}

/// The `SetTitleTimeResponse` at the front of `s`, as a `Packet`.
#[verifier::opaque]
spec fn route_set_title_time_response(s: Seq<u8>) -> Option<(PacketView, Seq<u8>)> {
    match <play::SetTitleTimeResponse as MD<'static>>::spec_deserialize(s) {
        Some((v, rest)) => Some((PacketView::SetTitleTimeResponse(v), rest)),
        None => None,
    }
}

/// The `EntitySoundEffectResponse` at the front of `s`, as a `Packet`.
#[verifier::opaque]
spec fn route_entity_sound_effect_response(s: Seq<u8>) -> Option<(PacketView, Seq<u8>)> {
    match <play::EntitySoundEffectResponse as MD<'static>>::spec_deserialize(s) {
        Some((v, rest)) => Some((PacketView::EntitySoundEffectResponse(v), rest)),
        None => None,
    }
}

/// The `SoundEffectResponse` at the front of `s`, as a `Packet`.
#[verifier::opaque]
spec fn route_sound_effect_response(s: Seq<u8>) -> Option<(PacketView, Seq<u8>)> {
    match <play::SoundEffectResponse as MD<'static>>::spec_deserialize(s) {
        Some((v, rest)) => Some((PacketView::SoundEffectResponse(v), rest)),
        None => None,
    }
}

/// The `StopSoundResponse` at the front of `s`, as a `Packet`.
#[verifier::opaque]
spec fn route_stop_sound_response(s: Seq<u8>) -> Option<(PacketView, Seq<u8>)> {
    match <play::StopSoundResponse as MD<'static>>::spec_deserialize(s) {
        Some((v, rest)) => Some((PacketView::StopSoundResponse(v), rest)),
        None => None,
    }
}

/// The `PlayerlistHeaderResponse` at the front of `s`, as a `Packet`.
#[verifier::opaque]
spec fn route_playerlist_header_response(s: Seq<u8>) -> Option<(PacketView, Seq<u8>)> {
    match <play::PlayerlistHeaderResponse<'static> as MD<'static>>::spec_deserialize(s) {
        Some((v, rest)) => Some((PacketView::PlayerlistHeaderResponse(v), rest)),
        None => None,
    }
}

/// The `NbtQueryResponse` at the front of `s`, as a `Packet`.
#[verifier::opaque]
spec fn route_nbt_query_response(s: Seq<u8>) -> Option<(PacketView, Seq<u8>)> {
    match <play::NbtQueryResponse<'static> as MD<'static>>::spec_deserialize(s) {
        Some((v, rest)) => Some((PacketView::NbtQueryResponse(v), rest)),
        None => None,
    }
}

/// The `CollectResponse` at the front of `s`, as a `Packet`.
#[verifier::opaque]
spec fn route_collect_response(s: Seq<u8>) -> Option<(PacketView, Seq<u8>)> {
    match <play::CollectResponse as MD<'static>>::spec_deserialize(s) {
        Some((v, rest)) => Some((PacketView::CollectResponse(v), rest)),
        None => None,
    }
}

/// The `EntityTeleportResponse` at the front of `s`, as a `Packet`.
#[verifier::opaque]
spec fn route_entity_teleport_response(s: Seq<u8>) -> Option<(PacketView, Seq<u8>)> {
    match <play::EntityTeleportResponse as MD<'static>>::spec_deserialize(s) {
        Some((v, rest)) => Some((PacketView::EntityTeleportResponse(v), rest)),
        None => None,
    }
}

/// The `AdvancementsResponse` at the front of `s`, as a `Packet`.
#[verifier::opaque]
spec fn route_advancements_response(s: Seq<u8>) -> Option<(PacketView, Seq<u8>)> {
    match <play::AdvancementsResponse as MD<'static>>::spec_deserialize(s) {
        Some((v, rest)) => Some((PacketView::AdvancementsResponse(v), rest)),
        None => None,
    }
}

/// The `EntityUpdateAttributesResponse` at the front of `s`, as a `Packet`.
#[verifier::opaque]
spec fn route_entity_update_attributes_response(s: Seq<u8>) -> Option<(PacketView, Seq<u8>)> {
    match <play::EntityUpdateAttributesResponse<'static> as MD<'static>>::spec_deserialize(s) {
        Some((v, rest)) => Some((PacketView::EntityUpdateAttributesResponse(v), rest)),
        None => None,
    }
}

/// The `EntityEffectResponse` at the front of `s`, as a `Packet`.
#[verifier::opaque]
spec fn route_entity_effect_response(s: Seq<u8>) -> Option<(PacketView, Seq<u8>)> {
    match <play::EntityEffectResponse as MD<'static>>::spec_deserialize(s) {
        Some((v, rest)) => Some((PacketView::EntityEffectResponse(v), rest)),
        None => None,
    }
}

/// The `DeclareRecipesResponse` at the front of `s`, as a `Packet`.
#[verifier::opaque]
spec fn route_declare_recipes_response(s: Seq<u8>) -> Option<(PacketView, Seq<u8>)> {
    match <play::DeclareRecipesResponse as MD<'static>>::spec_deserialize(s) {
        Some((v, rest)) => Some((PacketView::DeclareRecipesResponse(v), rest)),
        None => None,
    }
}

/// The `TagsResponse` at the front of `s`, as a `Packet`.
#[verifier::opaque]
spec fn route_tags_response(s: Seq<u8>) -> Option<(PacketView, Seq<u8>)> {
    match <play::TagsResponse as MD<'static>>::spec_deserialize(s) {
        Some((v, rest)) => Some((PacketView::TagsResponse(v), rest)),
        None => None,
    }
}

/// Which packet `spec_packet_handshaking_c2s` reads for the ids from `0x0` to `0xfe`.
proof fn lemma_packet_handshaking_c2s_0(s: Seq<u8>)
    ensures
        spec_packet_handshaking_c2s(0x0, s) == route_set_protocol_request(s),
        spec_packet_handshaking_c2s(0xfe, s) == route_legacy_server_list_ping_request(s),
{
    reveal(spec_packet_handshaking_c2s);
    reveal(route_set_protocol_request);
    reveal(route_legacy_server_list_ping_request);
}

/// Which packet `spec_packet_status_c2s` reads for the ids from `0x0` to `0x1`.
proof fn lemma_packet_status_c2s_0(s: Seq<u8>)
    ensures
        spec_packet_status_c2s(0x0, s) == route_ping_start_request(s),
        spec_packet_status_c2s(0x1, s) == route_ping_request(s),
{
    reveal(spec_packet_status_c2s);
    reveal(route_ping_start_request);
    reveal(route_ping_request);
}

/// Which packet `spec_packet_status_s2c` reads for the ids from `0x0` to `0x1`.
proof fn lemma_packet_status_s2c_0(s: Seq<u8>)
    ensures
        spec_packet_status_s2c(0x0, s) == route_server_info_response(s),
        spec_packet_status_s2c(0x1, s) == route_ping_response(s),
{
    reveal(spec_packet_status_s2c);
    reveal(route_server_info_response);
    reveal(route_ping_response);
}

/// Which packet `spec_packet_login_c2s` reads for the ids from `0x0` to `0x2`.
proof fn lemma_packet_login_c2s_0(s: Seq<u8>)
    ensures
        spec_packet_login_c2s(0x0, s) == route_login_start_request(s),
        spec_packet_login_c2s(0x1, s) == route_encryption_begin_request(s),
        spec_packet_login_c2s(0x2, s) == route_login_plugin_response(s),
{
    reveal(spec_packet_login_c2s);
    reveal(route_login_start_request);
    reveal(route_encryption_begin_request);
    reveal(route_login_plugin_response);
}

/// Which packet `spec_packet_login_s2c` reads for the ids from `0x0` to `0x4`.
proof fn lemma_packet_login_s2c_0(s: Seq<u8>)
    ensures
        spec_packet_login_s2c(0x0, s) == route_disconnect_response(s),
        spec_packet_login_s2c(0x1, s) == route_encryption_begin_response(s),
        spec_packet_login_s2c(0x2, s) == route_success_response(s),
        spec_packet_login_s2c(0x3, s) == route_compress_response(s),
        spec_packet_login_s2c(0x4, s) == route_login_plugin_request(s),
{
    reveal(spec_packet_login_s2c);
    reveal(route_disconnect_response);
    reveal(route_encryption_begin_response);
    reveal(route_success_response);
    reveal(route_compress_response);
    reveal(route_login_plugin_request);
}

/// Which packet `spec_packet_play_c2s` reads for the ids from `0x0` to `0xf`.
proof fn lemma_packet_play_c2s_0(s: Seq<u8>)
    ensures
        spec_packet_play_c2s(0x0, s) == route_teleport_confirm_request(s),
        spec_packet_play_c2s(0x1, s) == route_query_block_nbt_request(s),
        spec_packet_play_c2s(0x2, s) == route_set_difficulty_request(s),
        spec_packet_play_c2s(0x3, s) == route_chat_request(s),
        spec_packet_play_c2s(0x4, s) == route_client_command_request(s),
        spec_packet_play_c2s(0x5, s) == route_settings_request(s),
        spec_packet_play_c2s(0x6, s) == route_tab_complete_request(s),
        spec_packet_play_c2s(0x7, s) == route_enchant_item_request(s),
        spec_packet_play_c2s(0x8, s) == route_window_click_request(s),
        spec_packet_play_c2s(0x9, s) == route_close_window_request(s),
        spec_packet_play_c2s(0xa, s) == route_custom_payload_request(s),
        spec_packet_play_c2s(0xb, s) == route_edit_book_request(s),
        spec_packet_play_c2s(0xc, s) == route_query_entity_nbt_request(s),
        spec_packet_play_c2s(0xd, s) == route_use_entity_request(s),
        spec_packet_play_c2s(0xe, s) == route_generate_structure_request(s),
        spec_packet_play_c2s(0xf, s) == route_keep_alive_request(s),
{
    reveal(spec_packet_play_c2s);
    reveal(route_teleport_confirm_request);
    reveal(route_query_block_nbt_request);
    reveal(route_set_difficulty_request);
    reveal(route_chat_request);
    reveal(route_client_command_request);
    reveal(route_settings_request);
    reveal(route_tab_complete_request);
    reveal(route_enchant_item_request);
    reveal(route_window_click_request);
    reveal(route_close_window_request);
    reveal(route_custom_payload_request);
    reveal(route_edit_book_request);
    reveal(route_query_entity_nbt_request);
    reveal(route_use_entity_request);
    reveal(route_generate_structure_request);
    reveal(route_keep_alive_request);
}

/// Which packet `spec_packet_play_c2s` reads for the ids from `0x10` to `0x1f`.
proof fn lemma_packet_play_c2s_1(s: Seq<u8>)
    ensures
        spec_packet_play_c2s(0x10, s) == route_lock_difficulty_request(s),
        spec_packet_play_c2s(0x11, s) == route_position_request(s),
        spec_packet_play_c2s(0x12, s) == route_position_look_request(s),
        spec_packet_play_c2s(0x13, s) == route_look_request(s),
        spec_packet_play_c2s(0x14, s) == route_flying_request(s),
        spec_packet_play_c2s(0x15, s) == route_vehicle_move_request(s),
        spec_packet_play_c2s(0x16, s) == route_steer_boat_request(s),
        spec_packet_play_c2s(0x17, s) == route_pick_item_request(s),
        spec_packet_play_c2s(0x18, s) == route_craft_recipe_request(s),
        spec_packet_play_c2s(0x19, s) == route_abilities_request(s),
        spec_packet_play_c2s(0x1a, s) == route_block_dig_request(s),
        spec_packet_play_c2s(0x1b, s) == route_entity_action_request(s),
        spec_packet_play_c2s(0x1c, s) == route_steer_vehicle_request(s),
        spec_packet_play_c2s(0x1d, s) == route_pong_request(s),
        spec_packet_play_c2s(0x1e, s) == route_recipe_book_request(s),
        spec_packet_play_c2s(0x1f, s) == route_displayed_recipe_request(s),
{
    reveal(spec_packet_play_c2s);
    reveal(route_lock_difficulty_request);
    reveal(route_position_request);
    reveal(route_position_look_request);
    reveal(route_look_request);
    reveal(route_flying_request);
    reveal(route_vehicle_move_request);
    reveal(route_steer_boat_request);
    reveal(route_pick_item_request);
    reveal(route_craft_recipe_request);
    reveal(route_abilities_request);
    reveal(route_block_dig_request);
    reveal(route_entity_action_request);
    reveal(route_steer_vehicle_request);
    reveal(route_pong_request);
    reveal(route_recipe_book_request);
    reveal(route_displayed_recipe_request);
}

/// Which packet `spec_packet_play_c2s` reads for the ids from `0x20` to `0x2f`.
proof fn lemma_packet_play_c2s_2(s: Seq<u8>)
    ensures
        spec_packet_play_c2s(0x20, s) == route_name_item_request(s),
        spec_packet_play_c2s(0x21, s) == route_resource_pack_receive_request(s),
        spec_packet_play_c2s(0x22, s) == route_advancement_tab_request(s),
        spec_packet_play_c2s(0x23, s) == route_select_trade_request(s),
        spec_packet_play_c2s(0x24, s) == route_set_beacon_effect_request(s),
        spec_packet_play_c2s(0x25, s) == route_held_item_slot_request(s),
        spec_packet_play_c2s(0x26, s) == route_update_command_block_request(s),
        spec_packet_play_c2s(0x27, s) == route_update_command_block_minecart_request(s),
        spec_packet_play_c2s(0x28, s) == route_set_creative_slot_request(s),
        spec_packet_play_c2s(0x29, s) == route_update_jigsaw_block_request(s),
        spec_packet_play_c2s(0x2a, s) == route_update_structure_block_request(s),
        spec_packet_play_c2s(0x2b, s) == route_update_sign_request(s),
        spec_packet_play_c2s(0x2c, s) == route_arm_animation_request(s),
        spec_packet_play_c2s(0x2d, s) == route_spectate_request(s),
        spec_packet_play_c2s(0x2e, s) == route_block_place_request(s),
        spec_packet_play_c2s(0x2f, s) == route_use_item_request(s),
{
    reveal(spec_packet_play_c2s);
    reveal(route_name_item_request);
    reveal(route_resource_pack_receive_request);
    reveal(route_advancement_tab_request);
    reveal(route_select_trade_request);
    reveal(route_set_beacon_effect_request);
    reveal(route_held_item_slot_request);
    reveal(route_update_command_block_request);
    reveal(route_update_command_block_minecart_request);
    reveal(route_set_creative_slot_request);
    reveal(route_update_jigsaw_block_request);
    reveal(route_update_structure_block_request);
    reveal(route_update_sign_request);
    reveal(route_arm_animation_request);
    reveal(route_spectate_request);
    reveal(route_block_place_request);
    reveal(route_use_item_request);
}

/// Which packet `spec_packet_play_s2c` reads for the ids from `0x0` to `0xf`.
proof fn lemma_packet_play_s2c_0(s: Seq<u8>)
    ensures
        spec_packet_play_s2c(0x0, s) == route_spawn_entity_response(s),
        spec_packet_play_s2c(0x1, s) == route_spawn_entity_experience_orb_response(s),
        spec_packet_play_s2c(0x2, s) == route_spawn_entity_living_response(s),
        spec_packet_play_s2c(0x3, s) == route_spawn_entity_painting_response(s),
        spec_packet_play_s2c(0x4, s) == route_named_entity_spawn_response(s),
        spec_packet_play_s2c(0x5, s) == route_sculk_vibration_signal_response(s),
        spec_packet_play_s2c(0x6, s) == route_animation_response(s),
        spec_packet_play_s2c(0x7, s) == route_statistics_response(s),
        spec_packet_play_s2c(0x8, s) == route_acknowledge_player_digging_response(s),
        spec_packet_play_s2c(0x9, s) == route_block_break_animation_response(s),
        spec_packet_play_s2c(0xa, s) == route_tile_entity_data_response(s),
        spec_packet_play_s2c(0xb, s) == route_block_action_response(s),
        spec_packet_play_s2c(0xc, s) == route_block_change_response(s),
        spec_packet_play_s2c(0xd, s) == route_boss_bar_response(s),
        spec_packet_play_s2c(0xe, s) == route_difficulty_response(s),
        spec_packet_play_s2c(0xf, s) == route_chat_response(s),
{
    reveal(spec_packet_play_s2c);
    reveal(route_spawn_entity_response);
    reveal(route_spawn_entity_experience_orb_response);
    reveal(route_spawn_entity_living_response);
    reveal(route_spawn_entity_painting_response);
    reveal(route_named_entity_spawn_response);
    reveal(route_sculk_vibration_signal_response);
    reveal(route_animation_response);
    reveal(route_statistics_response);
    reveal(route_acknowledge_player_digging_response);
    reveal(route_block_break_animation_response);
    reveal(route_tile_entity_data_response);
    reveal(route_block_action_response);
    reveal(route_block_change_response);
    reveal(route_boss_bar_response);
    reveal(route_difficulty_response);
    reveal(route_chat_response);
}

/// Which packet `spec_packet_play_s2c` reads for the ids from `0x10` to `0x1f`.
proof fn lemma_packet_play_s2c_1(s: Seq<u8>)
    ensures
        spec_packet_play_s2c(0x10, s) == route_clear_titles_response(s),
        spec_packet_play_s2c(0x11, s) == route_tab_complete_response(s),
        spec_packet_play_s2c(0x12, s) == route_declare_commands_response(s),
        spec_packet_play_s2c(0x13, s) == route_close_window_response(s),
        spec_packet_play_s2c(0x14, s) == route_window_items_response(s),
        spec_packet_play_s2c(0x15, s) == route_craft_progress_bar_response(s),
        spec_packet_play_s2c(0x16, s) == route_set_slot_response(s),
        spec_packet_play_s2c(0x17, s) == route_set_cooldown_response(s),
        spec_packet_play_s2c(0x18, s) == route_custom_payload_response(s),
        spec_packet_play_s2c(0x19, s) == route_named_sound_effect_response(s),
        spec_packet_play_s2c(0x1a, s) == route_kick_disconnect_response(s),
        spec_packet_play_s2c(0x1b, s) == route_entity_status_response(s),
        spec_packet_play_s2c(0x1c, s) == route_explosion_response(s),
        spec_packet_play_s2c(0x1d, s) == route_unload_chunk_response(s),
        spec_packet_play_s2c(0x1e, s) == route_game_state_change_response(s),
        spec_packet_play_s2c(0x1f, s) == route_open_horse_window_response(s),
{
    reveal(spec_packet_play_s2c);
    reveal(route_clear_titles_response);
    reveal(route_tab_complete_response);
    reveal(route_declare_commands_response);
    reveal(route_close_window_response);
    reveal(route_window_items_response);
    reveal(route_craft_progress_bar_response);
    reveal(route_set_slot_response);
    reveal(route_set_cooldown_response);
    reveal(route_custom_payload_response);
    reveal(route_named_sound_effect_response);
    reveal(route_kick_disconnect_response);
    reveal(route_entity_status_response);
    reveal(route_explosion_response);
    reveal(route_unload_chunk_response);
    reveal(route_game_state_change_response);
    reveal(route_open_horse_window_response);
}

/// Which packet `spec_packet_play_s2c` reads for the ids from `0x20` to `0x2f`.
proof fn lemma_packet_play_s2c_2(s: Seq<u8>)
    ensures
        spec_packet_play_s2c(0x20, s) == route_initialize_world_border_response(s),
        spec_packet_play_s2c(0x21, s) == route_keep_alive_response(s),
        spec_packet_play_s2c(0x22, s) == route_map_chunk_response(s),
        spec_packet_play_s2c(0x23, s) == route_world_event_response(s),
        spec_packet_play_s2c(0x24, s) == route_world_particles_response(s),
        spec_packet_play_s2c(0x25, s) == route_update_light_response(s),
        spec_packet_play_s2c(0x26, s) == route_login_response(s),
        spec_packet_play_s2c(0x27, s) == route_map_response(s),
        spec_packet_play_s2c(0x28, s) == route_trade_list_response(s),
        spec_packet_play_s2c(0x29, s) == route_rel_entity_move_response(s),
        spec_packet_play_s2c(0x2a, s) == route_entity_move_look_response(s),
        spec_packet_play_s2c(0x2b, s) == route_entity_look_response(s),
        spec_packet_play_s2c(0x2c, s) == route_vehicle_move_response(s),
        spec_packet_play_s2c(0x2d, s) == route_open_book_response(s),
        spec_packet_play_s2c(0x2e, s) == route_open_window_response(s),
        spec_packet_play_s2c(0x2f, s) == route_open_sign_entity_response(s),
{
    reveal(spec_packet_play_s2c);
    reveal(route_initialize_world_border_response);
    reveal(route_keep_alive_response);
    reveal(route_map_chunk_response);
    reveal(route_world_event_response);
    reveal(route_world_particles_response);
    reveal(route_update_light_response);
    reveal(route_login_response);
    reveal(route_map_response);
    reveal(route_trade_list_response);
    reveal(route_rel_entity_move_response);
    reveal(route_entity_move_look_response);
    reveal(route_entity_look_response);
    reveal(route_vehicle_move_response);
    reveal(route_open_book_response);
    reveal(route_open_window_response);
    reveal(route_open_sign_entity_response);
}

/// Which packet `spec_packet_play_s2c` reads for the ids from `0x30` to `0x3f`.
proof fn lemma_packet_play_s2c_3(s: Seq<u8>)
    ensures
        spec_packet_play_s2c(0x30, s) == route_play_ping_response(s),
        spec_packet_play_s2c(0x31, s) == route_craft_recipe_response(s),
        spec_packet_play_s2c(0x32, s) == route_abilities_response(s),
        spec_packet_play_s2c(0x33, s) == route_end_combat_event_response(s),
        spec_packet_play_s2c(0x34, s) == route_enter_combat_event_response(s),
        spec_packet_play_s2c(0x35, s) == route_death_combat_event_response(s),
        spec_packet_play_s2c(0x36, s) == route_player_info_response(s),
        spec_packet_play_s2c(0x37, s) == route_face_player_response(s),
        spec_packet_play_s2c(0x38, s) == route_position_response(s),
        spec_packet_play_s2c(0x39, s) == route_unlock_recipes_response(s),
        spec_packet_play_s2c(0x3a, s) == route_entity_destroy_response(s),
        spec_packet_play_s2c(0x3b, s) == route_remove_entity_effect_response(s),
        spec_packet_play_s2c(0x3c, s) == route_resource_pack_send_response(s),
        spec_packet_play_s2c(0x3d, s) == route_respawn_response(s),
        spec_packet_play_s2c(0x3e, s) == route_entity_head_rotation_response(s),
        spec_packet_play_s2c(0x3f, s) == route_multi_block_change_response(s),
{
    reveal(spec_packet_play_s2c);
    reveal(route_play_ping_response);
    reveal(route_craft_recipe_response);
    reveal(route_abilities_response);
    reveal(route_end_combat_event_response);
    reveal(route_enter_combat_event_response);
    reveal(route_death_combat_event_response);
    reveal(route_player_info_response);
    reveal(route_face_player_response);
    reveal(route_position_response);
    reveal(route_unlock_recipes_response);
    reveal(route_entity_destroy_response);
    reveal(route_remove_entity_effect_response);
    reveal(route_resource_pack_send_response);
    reveal(route_respawn_response);
    reveal(route_entity_head_rotation_response);
    reveal(route_multi_block_change_response);
}

/// Which packet `spec_packet_play_s2c` reads for the ids from `0x40` to `0x4f`.
proof fn lemma_packet_play_s2c_4(s: Seq<u8>)
    ensures
        spec_packet_play_s2c(0x40, s) == route_select_advancement_tab_response(s),
        spec_packet_play_s2c(0x41, s) == route_action_bar_response(s),
        spec_packet_play_s2c(0x42, s) == route_world_border_center_response(s),
        spec_packet_play_s2c(0x43, s) == route_world_border_lerp_size_response(s),
        spec_packet_play_s2c(0x44, s) == route_world_border_size_response(s),
        spec_packet_play_s2c(0x45, s) == route_world_border_warning_delay_response(s),
        spec_packet_play_s2c(0x46, s) == route_world_border_warning_reach_response(s),
        spec_packet_play_s2c(0x47, s) == route_camera_response(s),
        spec_packet_play_s2c(0x48, s) == route_held_item_slot_response(s),
        spec_packet_play_s2c(0x49, s) == route_update_view_position_response(s),
        spec_packet_play_s2c(0x4a, s) == route_update_view_distance_response(s),
        spec_packet_play_s2c(0x4b, s) == route_spawn_position_response(s),
        spec_packet_play_s2c(0x4c, s) == route_scoreboard_display_objective_response(s),
        spec_packet_play_s2c(0x4d, s) == route_entity_metadata_response(s),
        spec_packet_play_s2c(0x4e, s) == route_attach_entity_response(s),
        spec_packet_play_s2c(0x4f, s) == route_entity_velocity_response(s),
{
    reveal(spec_packet_play_s2c);
    reveal(route_select_advancement_tab_response);
    reveal(route_action_bar_response);
    reveal(route_world_border_center_response);
    reveal(route_world_border_lerp_size_response);
    reveal(route_world_border_size_response);
    reveal(route_world_border_warning_delay_response);
    reveal(route_world_border_warning_reach_response);
    reveal(route_camera_response);
    reveal(route_held_item_slot_response);
    reveal(route_update_view_position_response);
    reveal(route_update_view_distance_response);
    reveal(route_spawn_position_response);
    reveal(route_scoreboard_display_objective_response);
    reveal(route_entity_metadata_response);
    reveal(route_attach_entity_response);
    reveal(route_entity_velocity_response);
}

/// Which packet `spec_packet_play_s2c` reads for the ids from `0x50` to `0x5f`.
proof fn lemma_packet_play_s2c_5(s: Seq<u8>)
    ensures
        spec_packet_play_s2c(0x50, s) == route_entity_equipment_response(s),
        spec_packet_play_s2c(0x51, s) == route_experience_response(s),
        spec_packet_play_s2c(0x52, s) == route_update_health_response(s),
        spec_packet_play_s2c(0x53, s) == route_scoreboard_objective_response(s),
        spec_packet_play_s2c(0x54, s) == route_set_passengers_response(s),
        spec_packet_play_s2c(0x55, s) == route_teams_response(s),
        spec_packet_play_s2c(0x56, s) == route_scoreboard_score_response(s),
        spec_packet_play_s2c(0x57, s) == route_simulation_distance_response(s),
        spec_packet_play_s2c(0x58, s) == route_set_title_subtitle_response(s),
        spec_packet_play_s2c(0x59, s) == route_update_time_response(s),
        spec_packet_play_s2c(0x5a, s) == route_set_title_text_response(s),
        spec_packet_play_s2c(0x5b, s) == route_set_title_time_response(s),
        spec_packet_play_s2c(0x5c, s) == route_entity_sound_effect_response(s),
        spec_packet_play_s2c(0x5d, s) == route_sound_effect_response(s),
        spec_packet_play_s2c(0x5e, s) == route_stop_sound_response(s),
        spec_packet_play_s2c(0x5f, s) == route_playerlist_header_response(s),
{
    reveal(spec_packet_play_s2c);
    reveal(route_entity_equipment_response);
    reveal(route_experience_response);
    reveal(route_update_health_response);
    reveal(route_scoreboard_objective_response);
    reveal(route_set_passengers_response);
    reveal(route_teams_response);
    reveal(route_scoreboard_score_response);
    reveal(route_simulation_distance_response);
    reveal(route_set_title_subtitle_response);
    reveal(route_update_time_response);
    reveal(route_set_title_text_response);
    reveal(route_set_title_time_response);
    reveal(route_entity_sound_effect_response);
    reveal(route_sound_effect_response);
    reveal(route_stop_sound_response);
    reveal(route_playerlist_header_response);
}

/// Which packet `spec_packet_play_s2c` reads for the ids from `0x60` to `0x67`.
proof fn lemma_packet_play_s2c_6(s: Seq<u8>)
    ensures
        spec_packet_play_s2c(0x60, s) == route_nbt_query_response(s),
        spec_packet_play_s2c(0x61, s) == route_collect_response(s),
        spec_packet_play_s2c(0x62, s) == route_entity_teleport_response(s),
        spec_packet_play_s2c(0x63, s) == route_advancements_response(s),
        spec_packet_play_s2c(0x64, s) == route_entity_update_attributes_response(s),
        spec_packet_play_s2c(0x65, s) == route_entity_effect_response(s),
        spec_packet_play_s2c(0x66, s) == route_declare_recipes_response(s),
        spec_packet_play_s2c(0x67, s) == route_tags_response(s),
{
    reveal(spec_packet_play_s2c);
    reveal(route_nbt_query_response);
    reveal(route_collect_response);
    reveal(route_entity_teleport_response);
    reveal(route_advancements_response);
    reveal(route_entity_update_attributes_response);
    reveal(route_entity_effect_response);
    reveal(route_declare_recipes_response);
    reveal(route_tags_response);
}

/// A `SetProtocolRequest` that is written is read back by `de_packets`.
proof fn lemma_route_set_protocol_request(v: handshaking::SetProtocolRequestView, rest: Seq<u8>)
    requires
        <handshaking::SetProtocolRequest<'static> as MD<'static>>::encodable(v),
        <handshaking::SetProtocolRequest<'static> as MD<'static>>::takes_rest() ==> rest.len() == 0,
    ensures
        spec_de_packets(ConnectionState::Handshaking, PacketDirection::C2S, 0x0, <handshaking::SetProtocolRequest<'static> as MD<'static>>::spec_serialize(v) + rest)
            == Some((PacketView::SetProtocolRequest(v), rest)),
        <handshaking::SetProtocolRequest<'static> as MD<'static>>::spec_header() == varint_bytes(0x0),
{
    lemma_packet_handshaking_c2s_0(<handshaking::SetProtocolRequest<'static> as MD<'static>>::spec_serialize(v) + rest);
    reveal(route_set_protocol_request);
    <handshaking::SetProtocolRequest<'static> as MD<'static>>::lemma_roundtrip(v, rest);
}

/// A `LegacyServerListPingRequest` that is written is read back by `de_packets`.
proof fn lemma_route_legacy_server_list_ping_request(v: handshaking::LegacyServerListPingRequest, rest: Seq<u8>)
    requires
        <handshaking::LegacyServerListPingRequest as MD<'static>>::encodable(v),
        <handshaking::LegacyServerListPingRequest as MD<'static>>::takes_rest() ==> rest.len() == 0,
    ensures
        spec_de_packets(ConnectionState::Handshaking, PacketDirection::C2S, 0xfe, <handshaking::LegacyServerListPingRequest as MD<'static>>::spec_serialize(v) + rest)
            == Some((PacketView::LegacyServerListPingRequest(v), rest)),
        <handshaking::LegacyServerListPingRequest as MD<'static>>::spec_header() == varint_bytes(0xfe),
{
    lemma_packet_handshaking_c2s_0(<handshaking::LegacyServerListPingRequest as MD<'static>>::spec_serialize(v) + rest);
    reveal(route_legacy_server_list_ping_request);
    <handshaking::LegacyServerListPingRequest as MD<'static>>::lemma_roundtrip(v, rest);
}

/// A `PingStartRequest` that is written is read back by `de_packets`.
proof fn lemma_route_ping_start_request(v: status::PingStartRequest, rest: Seq<u8>)
    requires
        <status::PingStartRequest as MD<'static>>::encodable(v),
        <status::PingStartRequest as MD<'static>>::takes_rest() ==> rest.len() == 0,
    ensures
        spec_de_packets(ConnectionState::Status, PacketDirection::C2S, 0x0, <status::PingStartRequest as MD<'static>>::spec_serialize(v) + rest)
            == Some((PacketView::PingStartRequest(v), rest)),
        <status::PingStartRequest as MD<'static>>::spec_header() == varint_bytes(0x0),
{
    lemma_packet_status_c2s_0(<status::PingStartRequest as MD<'static>>::spec_serialize(v) + rest);
    reveal(route_ping_start_request);
    <status::PingStartRequest as MD<'static>>::lemma_roundtrip(v, rest);
}

/// A `PingRequest` that is written is read back by `de_packets`.
proof fn lemma_route_ping_request(v: status::PingRequest, rest: Seq<u8>)
    requires
        <status::PingRequest as MD<'static>>::encodable(v),
        <status::PingRequest as MD<'static>>::takes_rest() ==> rest.len() == 0,
    ensures
        spec_de_packets(ConnectionState::Status, PacketDirection::C2S, 0x1, <status::PingRequest as MD<'static>>::spec_serialize(v) + rest)
            == Some((PacketView::PingRequest(v), rest)),
        <status::PingRequest as MD<'static>>::spec_header() == varint_bytes(0x1),
{
    lemma_packet_status_c2s_0(<status::PingRequest as MD<'static>>::spec_serialize(v) + rest);
    reveal(route_ping_request);
    <status::PingRequest as MD<'static>>::lemma_roundtrip(v, rest);
}

/// A `ServerInfoResponse` that is written is read back by `de_packets`.
proof fn lemma_route_server_info_response(v: status::ServerInfoResponseView, rest: Seq<u8>)
    requires
        <status::ServerInfoResponse<'static> as MD<'static>>::encodable(v),
        <status::ServerInfoResponse<'static> as MD<'static>>::takes_rest() ==> rest.len() == 0,
    ensures
        spec_de_packets(ConnectionState::Status, PacketDirection::S2C, 0x0, <status::ServerInfoResponse<'static> as MD<'static>>::spec_serialize(v) + rest)
            == Some((PacketView::ServerInfoResponse(v), rest)),
        <status::ServerInfoResponse<'static> as MD<'static>>::spec_header() == varint_bytes(0x0),
{
    lemma_packet_status_s2c_0(<status::ServerInfoResponse<'static> as MD<'static>>::spec_serialize(v) + rest);
    reveal(route_server_info_response);
    <status::ServerInfoResponse<'static> as MD<'static>>::lemma_roundtrip(v, rest);
}

/// A `PingResponse` that is written is read back by `de_packets`.
proof fn lemma_route_ping_response(v: status::PingResponse, rest: Seq<u8>)
    requires
        <status::PingResponse as MD<'static>>::encodable(v),
        <status::PingResponse as MD<'static>>::takes_rest() ==> rest.len() == 0,
    ensures
        spec_de_packets(ConnectionState::Status, PacketDirection::S2C, 0x1, <status::PingResponse as MD<'static>>::spec_serialize(v) + rest)
            == Some((PacketView::PingResponse(v), rest)),
        <status::PingResponse as MD<'static>>::spec_header() == varint_bytes(0x1),
{
    lemma_packet_status_s2c_0(<status::PingResponse as MD<'static>>::spec_serialize(v) + rest);
    reveal(route_ping_response);
    <status::PingResponse as MD<'static>>::lemma_roundtrip(v, rest);
}

/// A `LoginStartRequest` that is written is read back by `de_packets`.
proof fn lemma_route_login_start_request(v: login::LoginStartRequestView, rest: Seq<u8>)
    requires
        <login::LoginStartRequest<'static> as MD<'static>>::encodable(v),
        <login::LoginStartRequest<'static> as MD<'static>>::takes_rest() ==> rest.len() == 0,
    ensures
        spec_de_packets(ConnectionState::Login, PacketDirection::C2S, 0x0, <login::LoginStartRequest<'static> as MD<'static>>::spec_serialize(v) + rest)
            == Some((PacketView::LoginStartRequest(v), rest)),
        <login::LoginStartRequest<'static> as MD<'static>>::spec_header() == varint_bytes(0x0),
{
    lemma_packet_login_c2s_0(<login::LoginStartRequest<'static> as MD<'static>>::spec_serialize(v) + rest);
    reveal(route_login_start_request);
    <login::LoginStartRequest<'static> as MD<'static>>::lemma_roundtrip(v, rest);
}

/// A `EncryptionBeginRequest` that is written is read back by `de_packets`.
proof fn lemma_route_encryption_begin_request(v: login::EncryptionBeginRequestView, rest: Seq<u8>)
    requires
        <login::EncryptionBeginRequest<'static> as MD<'static>>::encodable(v),
        <login::EncryptionBeginRequest<'static> as MD<'static>>::takes_rest() ==> rest.len() == 0,
    ensures
        spec_de_packets(ConnectionState::Login, PacketDirection::C2S, 0x1, <login::EncryptionBeginRequest<'static> as MD<'static>>::spec_serialize(v) + rest)
            == Some((PacketView::EncryptionBeginRequest(v), rest)),
        <login::EncryptionBeginRequest<'static> as MD<'static>>::spec_header() == varint_bytes(0x1),
{
    lemma_packet_login_c2s_0(<login::EncryptionBeginRequest<'static> as MD<'static>>::spec_serialize(v) + rest);
    reveal(route_encryption_begin_request);
    <login::EncryptionBeginRequest<'static> as MD<'static>>::lemma_roundtrip(v, rest);
}

/// A `LoginPluginResponse` that is written is read back by `de_packets`.
proof fn lemma_route_login_plugin_response(v: login::LoginPluginResponseView, rest: Seq<u8>)
    requires
        <login::LoginPluginResponse<'static> as MD<'static>>::encodable(v),
        <login::LoginPluginResponse<'static> as MD<'static>>::takes_rest() ==> rest.len() == 0,
    ensures
        spec_de_packets(ConnectionState::Login, PacketDirection::C2S, 0x2, <login::LoginPluginResponse<'static> as MD<'static>>::spec_serialize(v) + rest)
            == Some((PacketView::LoginPluginResponse(v), rest)),
        <login::LoginPluginResponse<'static> as MD<'static>>::spec_header() == varint_bytes(0x2),
{
    lemma_packet_login_c2s_0(<login::LoginPluginResponse<'static> as MD<'static>>::spec_serialize(v) + rest);
    reveal(route_login_plugin_response);
    <login::LoginPluginResponse<'static> as MD<'static>>::lemma_roundtrip(v, rest);
}

/// A `DisconnectResponse` that is written is read back by `de_packets`.
proof fn lemma_route_disconnect_response(v: login::DisconnectResponseView, rest: Seq<u8>)
    requires
        <login::DisconnectResponse<'static> as MD<'static>>::encodable(v),
        <login::DisconnectResponse<'static> as MD<'static>>::takes_rest() ==> rest.len() == 0,
    ensures
        spec_de_packets(ConnectionState::Login, PacketDirection::S2C, 0x0, <login::DisconnectResponse<'static> as MD<'static>>::spec_serialize(v) + rest)
            == Some((PacketView::DisconnectResponse(v), rest)),
        <login::DisconnectResponse<'static> as MD<'static>>::spec_header() == varint_bytes(0x0),
{
    lemma_packet_login_s2c_0(<login::DisconnectResponse<'static> as MD<'static>>::spec_serialize(v) + rest);
    reveal(route_disconnect_response);
    <login::DisconnectResponse<'static> as MD<'static>>::lemma_roundtrip(v, rest);
}

/// A `EncryptionBeginResponse` that is written is read back by `de_packets`.
proof fn lemma_route_encryption_begin_response(v: login::EncryptionBeginResponseView, rest: Seq<u8>)
    requires
        <login::EncryptionBeginResponse<'static> as MD<'static>>::encodable(v),
        <login::EncryptionBeginResponse<'static> as MD<'static>>::takes_rest() ==> rest.len() == 0,
    ensures
        spec_de_packets(ConnectionState::Login, PacketDirection::S2C, 0x1, <login::EncryptionBeginResponse<'static> as MD<'static>>::spec_serialize(v) + rest)
            == Some((PacketView::EncryptionBeginResponse(v), rest)),
        <login::EncryptionBeginResponse<'static> as MD<'static>>::spec_header() == varint_bytes(0x1),
{
    lemma_packet_login_s2c_0(<login::EncryptionBeginResponse<'static> as MD<'static>>::spec_serialize(v) + rest);
    reveal(route_encryption_begin_response);
    <login::EncryptionBeginResponse<'static> as MD<'static>>::lemma_roundtrip(v, rest);
}

/// A `SuccessResponse` that is written is read back by `de_packets`.
proof fn lemma_route_success_response(v: login::SuccessResponseView, rest: Seq<u8>)
    requires
        <login::SuccessResponse<'static> as MD<'static>>::encodable(v),
        <login::SuccessResponse<'static> as MD<'static>>::takes_rest() ==> rest.len() == 0,
    ensures
        spec_de_packets(ConnectionState::Login, PacketDirection::S2C, 0x2, <login::SuccessResponse<'static> as MD<'static>>::spec_serialize(v) + rest)
            == Some((PacketView::SuccessResponse(v), rest)),
        <login::SuccessResponse<'static> as MD<'static>>::spec_header() == varint_bytes(0x2),
{
    lemma_packet_login_s2c_0(<login::SuccessResponse<'static> as MD<'static>>::spec_serialize(v) + rest);
    reveal(route_success_response);
    <login::SuccessResponse<'static> as MD<'static>>::lemma_roundtrip(v, rest);
}

/// A `CompressResponse` that is written is read back by `de_packets`.
proof fn lemma_route_compress_response(v: login::CompressResponse, rest: Seq<u8>)
    requires
        <login::CompressResponse as MD<'static>>::encodable(v),
        <login::CompressResponse as MD<'static>>::takes_rest() ==> rest.len() == 0,
    ensures
        spec_de_packets(ConnectionState::Login, PacketDirection::S2C, 0x3, <login::CompressResponse as MD<'static>>::spec_serialize(v) + rest)
            == Some((PacketView::CompressResponse(v), rest)),
        <login::CompressResponse as MD<'static>>::spec_header() == varint_bytes(0x3),
{
    lemma_packet_login_s2c_0(<login::CompressResponse as MD<'static>>::spec_serialize(v) + rest);
    reveal(route_compress_response);
    <login::CompressResponse as MD<'static>>::lemma_roundtrip(v, rest);
}

/// A `LoginPluginRequest` that is written is read back by `de_packets`.
proof fn lemma_route_login_plugin_request(v: login::LoginPluginRequestView, rest: Seq<u8>)
    requires
        <login::LoginPluginRequest<'static> as MD<'static>>::encodable(v),
        <login::LoginPluginRequest<'static> as MD<'static>>::takes_rest() ==> rest.len() == 0,
    ensures
        spec_de_packets(ConnectionState::Login, PacketDirection::S2C, 0x4, <login::LoginPluginRequest<'static> as MD<'static>>::spec_serialize(v) + rest)
            == Some((PacketView::LoginPluginRequest(v), rest)),
        <login::LoginPluginRequest<'static> as MD<'static>>::spec_header() == varint_bytes(0x4),
{
    lemma_packet_login_s2c_0(<login::LoginPluginRequest<'static> as MD<'static>>::spec_serialize(v) + rest);
    reveal(route_login_plugin_request);
    <login::LoginPluginRequest<'static> as MD<'static>>::lemma_roundtrip(v, rest);
}

/// A `TeleportConfirmRequest` that is written is read back by `de_packets`.
proof fn lemma_route_teleport_confirm_request(v: play::TeleportConfirmRequest, rest: Seq<u8>)
    requires
        <play::TeleportConfirmRequest as MD<'static>>::encodable(v),
        <play::TeleportConfirmRequest as MD<'static>>::takes_rest() ==> rest.len() == 0,
    ensures
        spec_de_packets(ConnectionState::Play, PacketDirection::C2S, 0x0, <play::TeleportConfirmRequest as MD<'static>>::spec_serialize(v) + rest)
            == Some((PacketView::TeleportConfirmRequest(v), rest)),
        <play::TeleportConfirmRequest as MD<'static>>::spec_header() == varint_bytes(0x0),
{
    lemma_packet_play_c2s_0(<play::TeleportConfirmRequest as MD<'static>>::spec_serialize(v) + rest);
    reveal(route_teleport_confirm_request);
    <play::TeleportConfirmRequest as MD<'static>>::lemma_roundtrip(v, rest);
}

/// A `QueryBlockNbtRequest` that is written is read back by `de_packets`.
proof fn lemma_route_query_block_nbt_request(v: play::QueryBlockNbtRequest, rest: Seq<u8>)
    requires
        <play::QueryBlockNbtRequest as MD<'static>>::encodable(v),
        <play::QueryBlockNbtRequest as MD<'static>>::takes_rest() ==> rest.len() == 0,
    ensures
        spec_de_packets(ConnectionState::Play, PacketDirection::C2S, 0x1, <play::QueryBlockNbtRequest as MD<'static>>::spec_serialize(v) + rest)
            == Some((PacketView::QueryBlockNbtRequest(v), rest)),
        <play::QueryBlockNbtRequest as MD<'static>>::spec_header() == varint_bytes(0x1),
{
    lemma_packet_play_c2s_0(<play::QueryBlockNbtRequest as MD<'static>>::spec_serialize(v) + rest);
    reveal(route_query_block_nbt_request);
    <play::QueryBlockNbtRequest as MD<'static>>::lemma_roundtrip(v, rest);
}

/// A `SetDifficultyRequest` that is written is read back by `de_packets`.
proof fn lemma_route_set_difficulty_request(v: play::SetDifficultyRequest, rest: Seq<u8>)
    requires
        <play::SetDifficultyRequest as MD<'static>>::encodable(v),
        <play::SetDifficultyRequest as MD<'static>>::takes_rest() ==> rest.len() == 0,
    ensures
        spec_de_packets(ConnectionState::Play, PacketDirection::C2S, 0x2, <play::SetDifficultyRequest as MD<'static>>::spec_serialize(v) + rest)
            == Some((PacketView::SetDifficultyRequest(v), rest)),
        <play::SetDifficultyRequest as MD<'static>>::spec_header() == varint_bytes(0x2),
{
    lemma_packet_play_c2s_0(<play::SetDifficultyRequest as MD<'static>>::spec_serialize(v) + rest);
    reveal(route_set_difficulty_request);
    <play::SetDifficultyRequest as MD<'static>>::lemma_roundtrip(v, rest);
}

/// A `ChatRequest` that is written is read back by `de_packets`.
proof fn lemma_route_chat_request(v: play::ChatRequestView, rest: Seq<u8>)
    requires
        <play::ChatRequest<'static> as MD<'static>>::encodable(v),
        <play::ChatRequest<'static> as MD<'static>>::takes_rest() ==> rest.len() == 0,
    ensures
        spec_de_packets(ConnectionState::Play, PacketDirection::C2S, 0x3, <play::ChatRequest<'static> as MD<'static>>::spec_serialize(v) + rest)
            == Some((PacketView::ChatRequest(v), rest)),
        <play::ChatRequest<'static> as MD<'static>>::spec_header() == varint_bytes(0x3),
{
    lemma_packet_play_c2s_0(<play::ChatRequest<'static> as MD<'static>>::spec_serialize(v) + rest);
    reveal(route_chat_request);
    <play::ChatRequest<'static> as MD<'static>>::lemma_roundtrip(v, rest);
}

/// A `ClientCommandRequest` that is written is read back by `de_packets`.
proof fn lemma_route_client_command_request(v: play::ClientCommandRequest, rest: Seq<u8>)
    requires
        <play::ClientCommandRequest as MD<'static>>::encodable(v),
        <play::ClientCommandRequest as MD<'static>>::takes_rest() ==> rest.len() == 0,
    ensures
        spec_de_packets(ConnectionState::Play, PacketDirection::C2S, 0x4, <play::ClientCommandRequest as MD<'static>>::spec_serialize(v) + rest)
            == Some((PacketView::ClientCommandRequest(v), rest)),
        <play::ClientCommandRequest as MD<'static>>::spec_header() == varint_bytes(0x4),
{
    lemma_packet_play_c2s_0(<play::ClientCommandRequest as MD<'static>>::spec_serialize(v) + rest);
    reveal(route_client_command_request);
    <play::ClientCommandRequest as MD<'static>>::lemma_roundtrip(v, rest);
}

/// A `SettingsRequest` that is written is read back by `de_packets`.
proof fn lemma_route_settings_request(v: play::SettingsRequestView, rest: Seq<u8>)
    requires
        <play::SettingsRequest<'static> as MD<'static>>::encodable(v),
        <play::SettingsRequest<'static> as MD<'static>>::takes_rest() ==> rest.len() == 0,
    ensures
        spec_de_packets(ConnectionState::Play, PacketDirection::C2S, 0x5, <play::SettingsRequest<'static> as MD<'static>>::spec_serialize(v) + rest)
            == Some((PacketView::SettingsRequest(v), rest)),
        <play::SettingsRequest<'static> as MD<'static>>::spec_header() == varint_bytes(0x5),
{
    lemma_packet_play_c2s_0(<play::SettingsRequest<'static> as MD<'static>>::spec_serialize(v) + rest);
    reveal(route_settings_request);
    <play::SettingsRequest<'static> as MD<'static>>::lemma_roundtrip(v, rest);
}

/// A `TabCompleteRequest` that is written is read back by `de_packets`.
proof fn lemma_route_tab_complete_request(v: play::TabCompleteRequestView, rest: Seq<u8>)
    requires
        <play::TabCompleteRequest<'static> as MD<'static>>::encodable(v),
        <play::TabCompleteRequest<'static> as MD<'static>>::takes_rest() ==> rest.len() == 0,
    ensures
        spec_de_packets(ConnectionState::Play, PacketDirection::C2S, 0x6, <play::TabCompleteRequest<'static> as MD<'static>>::spec_serialize(v) + rest)
            == Some((PacketView::TabCompleteRequest(v), rest)),
        <play::TabCompleteRequest<'static> as MD<'static>>::spec_header() == varint_bytes(0x6),
{
    lemma_packet_play_c2s_0(<play::TabCompleteRequest<'static> as MD<'static>>::spec_serialize(v) + rest);
    reveal(route_tab_complete_request);
    <play::TabCompleteRequest<'static> as MD<'static>>::lemma_roundtrip(v, rest);
}

/// A `EnchantItemRequest` that is written is read back by `de_packets`.
proof fn lemma_route_enchant_item_request(v: play::EnchantItemRequest, rest: Seq<u8>)
    requires
        <play::EnchantItemRequest as MD<'static>>::encodable(v),
        <play::EnchantItemRequest as MD<'static>>::takes_rest() ==> rest.len() == 0,
    ensures
        spec_de_packets(ConnectionState::Play, PacketDirection::C2S, 0x7, <play::EnchantItemRequest as MD<'static>>::spec_serialize(v) + rest)
            == Some((PacketView::EnchantItemRequest(v), rest)),
        <play::EnchantItemRequest as MD<'static>>::spec_header() == varint_bytes(0x7),
{
    lemma_packet_play_c2s_0(<play::EnchantItemRequest as MD<'static>>::spec_serialize(v) + rest);
    reveal(route_enchant_item_request);
    <play::EnchantItemRequest as MD<'static>>::lemma_roundtrip(v, rest);
}

/// A `WindowClickRequest` that is written is read back by `de_packets`.
proof fn lemma_route_window_click_request(v: play::WindowClickRequestView, rest: Seq<u8>)
    requires
        <play::WindowClickRequest<'static> as MD<'static>>::encodable(v),
        <play::WindowClickRequest<'static> as MD<'static>>::takes_rest() ==> rest.len() == 0,
    ensures
        spec_de_packets(ConnectionState::Play, PacketDirection::C2S, 0x8, <play::WindowClickRequest<'static> as MD<'static>>::spec_serialize(v) + rest)
            == Some((PacketView::WindowClickRequest(v), rest)),
        <play::WindowClickRequest<'static> as MD<'static>>::spec_header() == varint_bytes(0x8),
{
    lemma_packet_play_c2s_0(<play::WindowClickRequest<'static> as MD<'static>>::spec_serialize(v) + rest);
    reveal(route_window_click_request);
    <play::WindowClickRequest<'static> as MD<'static>>::lemma_roundtrip(v, rest);
}

/// A `CloseWindowRequest` that is written is read back by `de_packets`.
proof fn lemma_route_close_window_request(v: play::CloseWindowRequest, rest: Seq<u8>)
    requires
        <play::CloseWindowRequest as MD<'static>>::encodable(v),
        <play::CloseWindowRequest as MD<'static>>::takes_rest() ==> rest.len() == 0,
    ensures
        spec_de_packets(ConnectionState::Play, PacketDirection::C2S, 0x9, <play::CloseWindowRequest as MD<'static>>::spec_serialize(v) + rest)
            == Some((PacketView::CloseWindowRequest(v), rest)),
        <play::CloseWindowRequest as MD<'static>>::spec_header() == varint_bytes(0x9),
{
    lemma_packet_play_c2s_0(<play::CloseWindowRequest as MD<'static>>::spec_serialize(v) + rest);
    reveal(route_close_window_request);
    <play::CloseWindowRequest as MD<'static>>::lemma_roundtrip(v, rest);
}

/// A `CustomPayloadRequest` that is written is read back by `de_packets`.
proof fn lemma_route_custom_payload_request(v: play::CustomPayloadRequestView, rest: Seq<u8>)
    requires
        <play::CustomPayloadRequest<'static> as MD<'static>>::encodable(v),
        <play::CustomPayloadRequest<'static> as MD<'static>>::takes_rest() ==> rest.len() == 0,
    ensures
        spec_de_packets(ConnectionState::Play, PacketDirection::C2S, 0xa, <play::CustomPayloadRequest<'static> as MD<'static>>::spec_serialize(v) + rest)
            == Some((PacketView::CustomPayloadRequest(v), rest)),
        <play::CustomPayloadRequest<'static> as MD<'static>>::spec_header() == varint_bytes(0xa),
{
    lemma_packet_play_c2s_0(<play::CustomPayloadRequest<'static> as MD<'static>>::spec_serialize(v) + rest);
    reveal(route_custom_payload_request);
    <play::CustomPayloadRequest<'static> as MD<'static>>::lemma_roundtrip(v, rest);
}

/// A `EditBookRequest` that is written is read back by `de_packets`.
proof fn lemma_route_edit_book_request(v: play::EditBookRequestView, rest: Seq<u8>)
    requires
        <play::EditBookRequest<'static> as MD<'static>>::encodable(v),
        <play::EditBookRequest<'static> as MD<'static>>::takes_rest() ==> rest.len() == 0,
    ensures
        spec_de_packets(ConnectionState::Play, PacketDirection::C2S, 0xb, <play::EditBookRequest<'static> as MD<'static>>::spec_serialize(v) + rest)
            == Some((PacketView::EditBookRequest(v), rest)),
        <play::EditBookRequest<'static> as MD<'static>>::spec_header() == varint_bytes(0xb),
{
    lemma_packet_play_c2s_0(<play::EditBookRequest<'static> as MD<'static>>::spec_serialize(v) + rest);
    reveal(route_edit_book_request);
    <play::EditBookRequest<'static> as MD<'static>>::lemma_roundtrip(v, rest);
}

/// A `QueryEntityNbtRequest` that is written is read back by `de_packets`.
proof fn lemma_route_query_entity_nbt_request(v: play::QueryEntityNbtRequest, rest: Seq<u8>)
    requires
        <play::QueryEntityNbtRequest as MD<'static>>::encodable(v),
        <play::QueryEntityNbtRequest as MD<'static>>::takes_rest() ==> rest.len() == 0,
    ensures
        spec_de_packets(ConnectionState::Play, PacketDirection::C2S, 0xc, <play::QueryEntityNbtRequest as MD<'static>>::spec_serialize(v) + rest)
            == Some((PacketView::QueryEntityNbtRequest(v), rest)),
        <play::QueryEntityNbtRequest as MD<'static>>::spec_header() == varint_bytes(0xc),
{
    lemma_packet_play_c2s_0(<play::QueryEntityNbtRequest as MD<'static>>::spec_serialize(v) + rest);
    reveal(route_query_entity_nbt_request);
    <play::QueryEntityNbtRequest as MD<'static>>::lemma_roundtrip(v, rest);
}

/// A `UseEntityRequest` that is written is read back by `de_packets`.
proof fn lemma_route_use_entity_request(v: play::UseEntityRequest, rest: Seq<u8>)
    requires
        <play::UseEntityRequest as MD<'static>>::encodable(v),
        <play::UseEntityRequest as MD<'static>>::takes_rest() ==> rest.len() == 0,
    ensures
        spec_de_packets(ConnectionState::Play, PacketDirection::C2S, 0xd, <play::UseEntityRequest as MD<'static>>::spec_serialize(v) + rest)
            == Some((PacketView::UseEntityRequest(v), rest)),
        <play::UseEntityRequest as MD<'static>>::spec_header() == varint_bytes(0xd),
{
    lemma_packet_play_c2s_0(<play::UseEntityRequest as MD<'static>>::spec_serialize(v) + rest);
    reveal(route_use_entity_request);
    <play::UseEntityRequest as MD<'static>>::lemma_roundtrip(v, rest);
}

/// A `GenerateStructureRequest` that is written is read back by `de_packets`.
proof fn lemma_route_generate_structure_request(v: play::GenerateStructureRequest, rest: Seq<u8>)
    requires
        <play::GenerateStructureRequest as MD<'static>>::encodable(v),
        <play::GenerateStructureRequest as MD<'static>>::takes_rest() ==> rest.len() == 0,
    ensures
        spec_de_packets(ConnectionState::Play, PacketDirection::C2S, 0xe, <play::GenerateStructureRequest as MD<'static>>::spec_serialize(v) + rest)
            == Some((PacketView::GenerateStructureRequest(v), rest)),
        <play::GenerateStructureRequest as MD<'static>>::spec_header() == varint_bytes(0xe),
{
    lemma_packet_play_c2s_0(<play::GenerateStructureRequest as MD<'static>>::spec_serialize(v) + rest);
    reveal(route_generate_structure_request);
    <play::GenerateStructureRequest as MD<'static>>::lemma_roundtrip(v, rest);
}

/// A `KeepAliveRequest` that is written is read back by `de_packets`.
proof fn lemma_route_keep_alive_request(v: play::KeepAliveRequest, rest: Seq<u8>)
    requires
        <play::KeepAliveRequest as MD<'static>>::encodable(v),
        <play::KeepAliveRequest as MD<'static>>::takes_rest() ==> rest.len() == 0,
    ensures
        spec_de_packets(ConnectionState::Play, PacketDirection::C2S, 0xf, <play::KeepAliveRequest as MD<'static>>::spec_serialize(v) + rest)
            == Some((PacketView::KeepAliveRequest(v), rest)),
        <play::KeepAliveRequest as MD<'static>>::spec_header() == varint_bytes(0xf),
{
    lemma_packet_play_c2s_0(<play::KeepAliveRequest as MD<'static>>::spec_serialize(v) + rest);
    reveal(route_keep_alive_request);
    <play::KeepAliveRequest as MD<'static>>::lemma_roundtrip(v, rest);
}

/// A `LockDifficultyRequest` that is written is read back by `de_packets`.
proof fn lemma_route_lock_difficulty_request(v: play::LockDifficultyRequest, rest: Seq<u8>)
    requires
        <play::LockDifficultyRequest as MD<'static>>::encodable(v),
        <play::LockDifficultyRequest as MD<'static>>::takes_rest() ==> rest.len() == 0,
    ensures
        spec_de_packets(ConnectionState::Play, PacketDirection::C2S, 0x10, <play::LockDifficultyRequest as MD<'static>>::spec_serialize(v) + rest)
            == Some((PacketView::LockDifficultyRequest(v), rest)),
        <play::LockDifficultyRequest as MD<'static>>::spec_header() == varint_bytes(0x10),
{
    lemma_packet_play_c2s_1(<play::LockDifficultyRequest as MD<'static>>::spec_serialize(v) + rest);
    reveal(route_lock_difficulty_request);
    <play::LockDifficultyRequest as MD<'static>>::lemma_roundtrip(v, rest);
}

/// A `PositionRequest` that is written is read back by `de_packets`.
proof fn lemma_route_position_request(v: play::PositionRequest, rest: Seq<u8>)
    requires
        <play::PositionRequest as MD<'static>>::encodable(v),
        <play::PositionRequest as MD<'static>>::takes_rest() ==> rest.len() == 0,
    ensures
        spec_de_packets(ConnectionState::Play, PacketDirection::C2S, 0x11, <play::PositionRequest as MD<'static>>::spec_serialize(v) + rest)
            == Some((PacketView::PositionRequest(v), rest)),
        <play::PositionRequest as MD<'static>>::spec_header() == varint_bytes(0x11),
{
    lemma_packet_play_c2s_1(<play::PositionRequest as MD<'static>>::spec_serialize(v) + rest);
    reveal(route_position_request);
    <play::PositionRequest as MD<'static>>::lemma_roundtrip(v, rest);
}

/// A `PositionLookRequest` that is written is read back by `de_packets`.
proof fn lemma_route_position_look_request(v: play::PositionLookRequest, rest: Seq<u8>)
    requires
        <play::PositionLookRequest as MD<'static>>::encodable(v),
        <play::PositionLookRequest as MD<'static>>::takes_rest() ==> rest.len() == 0,
    ensures
        spec_de_packets(ConnectionState::Play, PacketDirection::C2S, 0x12, <play::PositionLookRequest as MD<'static>>::spec_serialize(v) + rest)
            == Some((PacketView::PositionLookRequest(v), rest)),
        <play::PositionLookRequest as MD<'static>>::spec_header() == varint_bytes(0x12),
{
    lemma_packet_play_c2s_1(<play::PositionLookRequest as MD<'static>>::spec_serialize(v) + rest);
    reveal(route_position_look_request);
    <play::PositionLookRequest as MD<'static>>::lemma_roundtrip(v, rest);
}

/// A `LookRequest` that is written is read back by `de_packets`.
proof fn lemma_route_look_request(v: play::LookRequest, rest: Seq<u8>)
    requires
        <play::LookRequest as MD<'static>>::encodable(v),
        <play::LookRequest as MD<'static>>::takes_rest() ==> rest.len() == 0,
    ensures
        spec_de_packets(ConnectionState::Play, PacketDirection::C2S, 0x13, <play::LookRequest as MD<'static>>::spec_serialize(v) + rest)
            == Some((PacketView::LookRequest(v), rest)),
        <play::LookRequest as MD<'static>>::spec_header() == varint_bytes(0x13),
{
    lemma_packet_play_c2s_1(<play::LookRequest as MD<'static>>::spec_serialize(v) + rest);
    reveal(route_look_request);
    <play::LookRequest as MD<'static>>::lemma_roundtrip(v, rest);
}

/// A `FlyingRequest` that is written is read back by `de_packets`.
proof fn lemma_route_flying_request(v: play::FlyingRequest, rest: Seq<u8>)
    requires
        <play::FlyingRequest as MD<'static>>::encodable(v),
        <play::FlyingRequest as MD<'static>>::takes_rest() ==> rest.len() == 0,
    ensures
        spec_de_packets(ConnectionState::Play, PacketDirection::C2S, 0x14, <play::FlyingRequest as MD<'static>>::spec_serialize(v) + rest)
            == Some((PacketView::FlyingRequest(v), rest)),
        <play::FlyingRequest as MD<'static>>::spec_header() == varint_bytes(0x14),
{
    lemma_packet_play_c2s_1(<play::FlyingRequest as MD<'static>>::spec_serialize(v) + rest);
    reveal(route_flying_request);
    <play::FlyingRequest as MD<'static>>::lemma_roundtrip(v, rest);
}

/// A `VehicleMoveRequest` that is written is read back by `de_packets`.
proof fn lemma_route_vehicle_move_request(v: play::VehicleMoveRequest, rest: Seq<u8>)
    requires
        <play::VehicleMoveRequest as MD<'static>>::encodable(v),
        <play::VehicleMoveRequest as MD<'static>>::takes_rest() ==> rest.len() == 0,
    ensures
        spec_de_packets(ConnectionState::Play, PacketDirection::C2S, 0x15, <play::VehicleMoveRequest as MD<'static>>::spec_serialize(v) + rest)
            == Some((PacketView::VehicleMoveRequest(v), rest)),
        <play::VehicleMoveRequest as MD<'static>>::spec_header() == varint_bytes(0x15),
{
    lemma_packet_play_c2s_1(<play::VehicleMoveRequest as MD<'static>>::spec_serialize(v) + rest);
    reveal(route_vehicle_move_request);
    <play::VehicleMoveRequest as MD<'static>>::lemma_roundtrip(v, rest);
}

/// A `SteerBoatRequest` that is written is read back by `de_packets`.
proof fn lemma_route_steer_boat_request(v: play::SteerBoatRequest, rest: Seq<u8>)
    requires
        <play::SteerBoatRequest as MD<'static>>::encodable(v),
        <play::SteerBoatRequest as MD<'static>>::takes_rest() ==> rest.len() == 0,
    ensures
        spec_de_packets(ConnectionState::Play, PacketDirection::C2S, 0x16, <play::SteerBoatRequest as MD<'static>>::spec_serialize(v) + rest)
            == Some((PacketView::SteerBoatRequest(v), rest)),
        <play::SteerBoatRequest as MD<'static>>::spec_header() == varint_bytes(0x16),
{
    lemma_packet_play_c2s_1(<play::SteerBoatRequest as MD<'static>>::spec_serialize(v) + rest);
    reveal(route_steer_boat_request);
    <play::SteerBoatRequest as MD<'static>>::lemma_roundtrip(v, rest);
}

/// A `PickItemRequest` that is written is read back by `de_packets`.
proof fn lemma_route_pick_item_request(v: play::PickItemRequest, rest: Seq<u8>)
    requires
        <play::PickItemRequest as MD<'static>>::encodable(v),
        <play::PickItemRequest as MD<'static>>::takes_rest() ==> rest.len() == 0,
    ensures
        spec_de_packets(ConnectionState::Play, PacketDirection::C2S, 0x17, <play::PickItemRequest as MD<'static>>::spec_serialize(v) + rest)
            == Some((PacketView::PickItemRequest(v), rest)),
        <play::PickItemRequest as MD<'static>>::spec_header() == varint_bytes(0x17),
{
    lemma_packet_play_c2s_1(<play::PickItemRequest as MD<'static>>::spec_serialize(v) + rest);
    reveal(route_pick_item_request);
    <play::PickItemRequest as MD<'static>>::lemma_roundtrip(v, rest);
}

/// A `CraftRecipeRequest` that is written is read back by `de_packets`.
proof fn lemma_route_craft_recipe_request(v: play::CraftRecipeRequestView, rest: Seq<u8>)
    requires
        <play::CraftRecipeRequest<'static> as MD<'static>>::encodable(v),
        <play::CraftRecipeRequest<'static> as MD<'static>>::takes_rest() ==> rest.len() == 0,
    ensures
        spec_de_packets(ConnectionState::Play, PacketDirection::C2S, 0x18, <play::CraftRecipeRequest<'static> as MD<'static>>::spec_serialize(v) + rest)
            == Some((PacketView::CraftRecipeRequest(v), rest)),
        <play::CraftRecipeRequest<'static> as MD<'static>>::spec_header() == varint_bytes(0x18),
{
    lemma_packet_play_c2s_1(<play::CraftRecipeRequest<'static> as MD<'static>>::spec_serialize(v) + rest);
    reveal(route_craft_recipe_request);
    <play::CraftRecipeRequest<'static> as MD<'static>>::lemma_roundtrip(v, rest);
}

/// A `AbilitiesRequest` that is written is read back by `de_packets`.
proof fn lemma_route_abilities_request(v: play::AbilitiesRequest, rest: Seq<u8>)
    requires
        <play::AbilitiesRequest as MD<'static>>::encodable(v),
        <play::AbilitiesRequest as MD<'static>>::takes_rest() ==> rest.len() == 0,
    ensures
        spec_de_packets(ConnectionState::Play, PacketDirection::C2S, 0x19, <play::AbilitiesRequest as MD<'static>>::spec_serialize(v) + rest)
            == Some((PacketView::AbilitiesRequest(v), rest)),
        <play::AbilitiesRequest as MD<'static>>::spec_header() == varint_bytes(0x19),
{
    lemma_packet_play_c2s_1(<play::AbilitiesRequest as MD<'static>>::spec_serialize(v) + rest);
    reveal(route_abilities_request);
    <play::AbilitiesRequest as MD<'static>>::lemma_roundtrip(v, rest);
}

/// A `BlockDigRequest` that is written is read back by `de_packets`.
proof fn lemma_route_block_dig_request(v: play::BlockDigRequest, rest: Seq<u8>)
    requires
        <play::BlockDigRequest as MD<'static>>::encodable(v),
        <play::BlockDigRequest as MD<'static>>::takes_rest() ==> rest.len() == 0,
    ensures
        spec_de_packets(ConnectionState::Play, PacketDirection::C2S, 0x1a, <play::BlockDigRequest as MD<'static>>::spec_serialize(v) + rest)
            == Some((PacketView::BlockDigRequest(v), rest)),
        <play::BlockDigRequest as MD<'static>>::spec_header() == varint_bytes(0x1a),
{
    lemma_packet_play_c2s_1(<play::BlockDigRequest as MD<'static>>::spec_serialize(v) + rest);
    reveal(route_block_dig_request);
    <play::BlockDigRequest as MD<'static>>::lemma_roundtrip(v, rest);
}

/// A `EntityActionRequest` that is written is read back by `de_packets`.
proof fn lemma_route_entity_action_request(v: play::EntityActionRequest, rest: Seq<u8>)
    requires
        <play::EntityActionRequest as MD<'static>>::encodable(v),
        <play::EntityActionRequest as MD<'static>>::takes_rest() ==> rest.len() == 0,
    ensures
        spec_de_packets(ConnectionState::Play, PacketDirection::C2S, 0x1b, <play::EntityActionRequest as MD<'static>>::spec_serialize(v) + rest)
            == Some((PacketView::EntityActionRequest(v), rest)),
        <play::EntityActionRequest as MD<'static>>::spec_header() == varint_bytes(0x1b),
{
    lemma_packet_play_c2s_1(<play::EntityActionRequest as MD<'static>>::spec_serialize(v) + rest);
    reveal(route_entity_action_request);
    <play::EntityActionRequest as MD<'static>>::lemma_roundtrip(v, rest);
}

/// A `SteerVehicleRequest` that is written is read back by `de_packets`.
proof fn lemma_route_steer_vehicle_request(v: play::SteerVehicleRequest, rest: Seq<u8>)
    requires
        <play::SteerVehicleRequest as MD<'static>>::encodable(v),
        <play::SteerVehicleRequest as MD<'static>>::takes_rest() ==> rest.len() == 0,
    ensures
        spec_de_packets(ConnectionState::Play, PacketDirection::C2S, 0x1c, <play::SteerVehicleRequest as MD<'static>>::spec_serialize(v) + rest)
            == Some((PacketView::SteerVehicleRequest(v), rest)),
        <play::SteerVehicleRequest as MD<'static>>::spec_header() == varint_bytes(0x1c),
{
    lemma_packet_play_c2s_1(<play::SteerVehicleRequest as MD<'static>>::spec_serialize(v) + rest);
    reveal(route_steer_vehicle_request);
    <play::SteerVehicleRequest as MD<'static>>::lemma_roundtrip(v, rest);
}

/// A `PongRequest` that is written is read back by `de_packets`.
proof fn lemma_route_pong_request(v: play::PongRequest, rest: Seq<u8>)
    requires
        <play::PongRequest as MD<'static>>::encodable(v),
        <play::PongRequest as MD<'static>>::takes_rest() ==> rest.len() == 0,
    ensures
        spec_de_packets(ConnectionState::Play, PacketDirection::C2S, 0x1d, <play::PongRequest as MD<'static>>::spec_serialize(v) + rest)
            == Some((PacketView::PongRequest(v), rest)),
        <play::PongRequest as MD<'static>>::spec_header() == varint_bytes(0x1d),
{
    lemma_packet_play_c2s_1(<play::PongRequest as MD<'static>>::spec_serialize(v) + rest);
    reveal(route_pong_request);
    <play::PongRequest as MD<'static>>::lemma_roundtrip(v, rest);
}

/// A `RecipeBookRequest` that is written is read back by `de_packets`.
proof fn lemma_route_recipe_book_request(v: play::RecipeBookRequest, rest: Seq<u8>)
    requires
        <play::RecipeBookRequest as MD<'static>>::encodable(v),
        <play::RecipeBookRequest as MD<'static>>::takes_rest() ==> rest.len() == 0,
    ensures
        spec_de_packets(ConnectionState::Play, PacketDirection::C2S, 0x1e, <play::RecipeBookRequest as MD<'static>>::spec_serialize(v) + rest)
            == Some((PacketView::RecipeBookRequest(v), rest)),
        <play::RecipeBookRequest as MD<'static>>::spec_header() == varint_bytes(0x1e),
{
    lemma_packet_play_c2s_1(<play::RecipeBookRequest as MD<'static>>::spec_serialize(v) + rest);
    reveal(route_recipe_book_request);
    <play::RecipeBookRequest as MD<'static>>::lemma_roundtrip(v, rest);
}

/// A `DisplayedRecipeRequest` that is written is read back by `de_packets`.
proof fn lemma_route_displayed_recipe_request(v: play::DisplayedRecipeRequestView, rest: Seq<u8>)
    requires
        <play::DisplayedRecipeRequest<'static> as MD<'static>>::encodable(v),
        <play::DisplayedRecipeRequest<'static> as MD<'static>>::takes_rest() ==> rest.len() == 0,
    ensures
        spec_de_packets(ConnectionState::Play, PacketDirection::C2S, 0x1f, <play::DisplayedRecipeRequest<'static> as MD<'static>>::spec_serialize(v) + rest)
            == Some((PacketView::DisplayedRecipeRequest(v), rest)),
        <play::DisplayedRecipeRequest<'static> as MD<'static>>::spec_header() == varint_bytes(0x1f),
{
    lemma_packet_play_c2s_1(<play::DisplayedRecipeRequest<'static> as MD<'static>>::spec_serialize(v) + rest);
    reveal(route_displayed_recipe_request);
    <play::DisplayedRecipeRequest<'static> as MD<'static>>::lemma_roundtrip(v, rest);
}

/// A `NameItemRequest` that is written is read back by `de_packets`.
proof fn lemma_route_name_item_request(v: play::NameItemRequestView, rest: Seq<u8>)
    requires
        <play::NameItemRequest<'static> as MD<'static>>::encodable(v),
        <play::NameItemRequest<'static> as MD<'static>>::takes_rest() ==> rest.len() == 0,
    ensures
        spec_de_packets(ConnectionState::Play, PacketDirection::C2S, 0x20, <play::NameItemRequest<'static> as MD<'static>>::spec_serialize(v) + rest)
            == Some((PacketView::NameItemRequest(v), rest)),
        <play::NameItemRequest<'static> as MD<'static>>::spec_header() == varint_bytes(0x20),
{
    lemma_packet_play_c2s_2(<play::NameItemRequest<'static> as MD<'static>>::spec_serialize(v) + rest);
    reveal(route_name_item_request);
    <play::NameItemRequest<'static> as MD<'static>>::lemma_roundtrip(v, rest);
}

/// A `ResourcePackReceiveRequest` that is written is read back by `de_packets`.
proof fn lemma_route_resource_pack_receive_request(v: play::ResourcePackReceiveRequest, rest: Seq<u8>)
    requires
        <play::ResourcePackReceiveRequest as MD<'static>>::encodable(v),
        <play::ResourcePackReceiveRequest as MD<'static>>::takes_rest() ==> rest.len() == 0,
    ensures
        spec_de_packets(ConnectionState::Play, PacketDirection::C2S, 0x21, <play::ResourcePackReceiveRequest as MD<'static>>::spec_serialize(v) + rest)
            == Some((PacketView::ResourcePackReceiveRequest(v), rest)),
        <play::ResourcePackReceiveRequest as MD<'static>>::spec_header() == varint_bytes(0x21),
{
    lemma_packet_play_c2s_2(<play::ResourcePackReceiveRequest as MD<'static>>::spec_serialize(v) + rest);
    reveal(route_resource_pack_receive_request);
    <play::ResourcePackReceiveRequest as MD<'static>>::lemma_roundtrip(v, rest);
}

/// A `AdvancementTabRequest` that is written is read back by `de_packets`.
proof fn lemma_route_advancement_tab_request(v: play::AdvancementTabRequest, rest: Seq<u8>)
    requires
        <play::AdvancementTabRequest as MD<'static>>::encodable(v),
        <play::AdvancementTabRequest as MD<'static>>::takes_rest() ==> rest.len() == 0,
    ensures
        spec_de_packets(ConnectionState::Play, PacketDirection::C2S, 0x22, <play::AdvancementTabRequest as MD<'static>>::spec_serialize(v) + rest)
            == Some((PacketView::AdvancementTabRequest(v), rest)),
        <play::AdvancementTabRequest as MD<'static>>::spec_header() == varint_bytes(0x22),
{
    lemma_packet_play_c2s_2(<play::AdvancementTabRequest as MD<'static>>::spec_serialize(v) + rest);
    reveal(route_advancement_tab_request);
    <play::AdvancementTabRequest as MD<'static>>::lemma_roundtrip(v, rest);
}

/// A `SelectTradeRequest` that is written is read back by `de_packets`.
proof fn lemma_route_select_trade_request(v: play::SelectTradeRequest, rest: Seq<u8>)
    requires
        <play::SelectTradeRequest as MD<'static>>::encodable(v),
        <play::SelectTradeRequest as MD<'static>>::takes_rest() ==> rest.len() == 0,
    ensures
        spec_de_packets(ConnectionState::Play, PacketDirection::C2S, 0x23, <play::SelectTradeRequest as MD<'static>>::spec_serialize(v) + rest)
            == Some((PacketView::SelectTradeRequest(v), rest)),
        <play::SelectTradeRequest as MD<'static>>::spec_header() == varint_bytes(0x23),
{
    lemma_packet_play_c2s_2(<play::SelectTradeRequest as MD<'static>>::spec_serialize(v) + rest);
    reveal(route_select_trade_request);
    <play::SelectTradeRequest as MD<'static>>::lemma_roundtrip(v, rest);
}

/// A `SetBeaconEffectRequest` that is written is read back by `de_packets`.
proof fn lemma_route_set_beacon_effect_request(v: play::SetBeaconEffectRequest, rest: Seq<u8>)
    requires
        <play::SetBeaconEffectRequest as MD<'static>>::encodable(v),
        <play::SetBeaconEffectRequest as MD<'static>>::takes_rest() ==> rest.len() == 0,
    ensures
        spec_de_packets(ConnectionState::Play, PacketDirection::C2S, 0x24, <play::SetBeaconEffectRequest as MD<'static>>::spec_serialize(v) + rest)
            == Some((PacketView::SetBeaconEffectRequest(v), rest)),
        <play::SetBeaconEffectRequest as MD<'static>>::spec_header() == varint_bytes(0x24),
{
    lemma_packet_play_c2s_2(<play::SetBeaconEffectRequest as MD<'static>>::spec_serialize(v) + rest);
    reveal(route_set_beacon_effect_request);
    <play::SetBeaconEffectRequest as MD<'static>>::lemma_roundtrip(v, rest);
}

/// A `HeldItemSlotRequest` that is written is read back by `de_packets`.
proof fn lemma_route_held_item_slot_request(v: play::HeldItemSlotRequest, rest: Seq<u8>)
    requires
        <play::HeldItemSlotRequest as MD<'static>>::encodable(v),
        <play::HeldItemSlotRequest as MD<'static>>::takes_rest() ==> rest.len() == 0,
    ensures
        spec_de_packets(ConnectionState::Play, PacketDirection::C2S, 0x25, <play::HeldItemSlotRequest as MD<'static>>::spec_serialize(v) + rest)
            == Some((PacketView::HeldItemSlotRequest(v), rest)),
        <play::HeldItemSlotRequest as MD<'static>>::spec_header() == varint_bytes(0x25),
{
    lemma_packet_play_c2s_2(<play::HeldItemSlotRequest as MD<'static>>::spec_serialize(v) + rest);
    reveal(route_held_item_slot_request);
    <play::HeldItemSlotRequest as MD<'static>>::lemma_roundtrip(v, rest);
}

/// A `UpdateCommandBlockRequest` that is written is read back by `de_packets`.
proof fn lemma_route_update_command_block_request(v: play::UpdateCommandBlockRequestView, rest: Seq<u8>)
    requires
        <play::UpdateCommandBlockRequest<'static> as MD<'static>>::encodable(v),
        <play::UpdateCommandBlockRequest<'static> as MD<'static>>::takes_rest() ==> rest.len() == 0,
    ensures
        spec_de_packets(ConnectionState::Play, PacketDirection::C2S, 0x26, <play::UpdateCommandBlockRequest<'static> as MD<'static>>::spec_serialize(v) + rest)
            == Some((PacketView::UpdateCommandBlockRequest(v), rest)),
        <play::UpdateCommandBlockRequest<'static> as MD<'static>>::spec_header() == varint_bytes(0x26),
{
    lemma_packet_play_c2s_2(<play::UpdateCommandBlockRequest<'static> as MD<'static>>::spec_serialize(v) + rest);
    reveal(route_update_command_block_request);
    <play::UpdateCommandBlockRequest<'static> as MD<'static>>::lemma_roundtrip(v, rest);
}

/// A `UpdateCommandBlockMinecartRequest` that is written is read back by `de_packets`.
proof fn lemma_route_update_command_block_minecart_request(v: play::UpdateCommandBlockMinecartRequestView, rest: Seq<u8>)
    requires
        <play::UpdateCommandBlockMinecartRequest<'static> as MD<'static>>::encodable(v),
        <play::UpdateCommandBlockMinecartRequest<'static> as MD<'static>>::takes_rest() ==> rest.len() == 0,
    ensures
        spec_de_packets(ConnectionState::Play, PacketDirection::C2S, 0x27, <play::UpdateCommandBlockMinecartRequest<'static> as MD<'static>>::spec_serialize(v) + rest)
            == Some((PacketView::UpdateCommandBlockMinecartRequest(v), rest)),
        <play::UpdateCommandBlockMinecartRequest<'static> as MD<'static>>::spec_header() == varint_bytes(0x27),
{
    lemma_packet_play_c2s_2(<play::UpdateCommandBlockMinecartRequest<'static> as MD<'static>>::spec_serialize(v) + rest);
    reveal(route_update_command_block_minecart_request);
    <play::UpdateCommandBlockMinecartRequest<'static> as MD<'static>>::lemma_roundtrip(v, rest);
}

/// A `SetCreativeSlotRequest` that is written is read back by `de_packets`.
proof fn lemma_route_set_creative_slot_request(v: play::SetCreativeSlotRequestView, rest: Seq<u8>)
    requires
        <play::SetCreativeSlotRequest<'static> as MD<'static>>::encodable(v),
        <play::SetCreativeSlotRequest<'static> as MD<'static>>::takes_rest() ==> rest.len() == 0,
    ensures
        spec_de_packets(ConnectionState::Play, PacketDirection::C2S, 0x28, <play::SetCreativeSlotRequest<'static> as MD<'static>>::spec_serialize(v) + rest)
            == Some((PacketView::SetCreativeSlotRequest(v), rest)),
        <play::SetCreativeSlotRequest<'static> as MD<'static>>::spec_header() == varint_bytes(0x28),
{
    lemma_packet_play_c2s_2(<play::SetCreativeSlotRequest<'static> as MD<'static>>::spec_serialize(v) + rest);
    reveal(route_set_creative_slot_request);
    <play::SetCreativeSlotRequest<'static> as MD<'static>>::lemma_roundtrip(v, rest);
}

/// A `UpdateJigsawBlockRequest` that is written is read back by `de_packets`.
proof fn lemma_route_update_jigsaw_block_request(v: play::UpdateJigsawBlockRequestView, rest: Seq<u8>)
    requires
        <play::UpdateJigsawBlockRequest<'static> as MD<'static>>::encodable(v),
        <play::UpdateJigsawBlockRequest<'static> as MD<'static>>::takes_rest() ==> rest.len() == 0,
    ensures
        spec_de_packets(ConnectionState::Play, PacketDirection::C2S, 0x29, <play::UpdateJigsawBlockRequest<'static> as MD<'static>>::spec_serialize(v) + rest)
            == Some((PacketView::UpdateJigsawBlockRequest(v), rest)),
        <play::UpdateJigsawBlockRequest<'static> as MD<'static>>::spec_header() == varint_bytes(0x29),
{
    lemma_packet_play_c2s_2(<play::UpdateJigsawBlockRequest<'static> as MD<'static>>::spec_serialize(v) + rest);
    reveal(route_update_jigsaw_block_request);
    <play::UpdateJigsawBlockRequest<'static> as MD<'static>>::lemma_roundtrip(v, rest);
}

/// A `UpdateStructureBlockRequest` that is written is read back by `de_packets`.
proof fn lemma_route_update_structure_block_request(v: play::UpdateStructureBlockRequestView, rest: Seq<u8>)
    requires
        <play::UpdateStructureBlockRequest<'static> as MD<'static>>::encodable(v),
        <play::UpdateStructureBlockRequest<'static> as MD<'static>>::takes_rest() ==> rest.len() == 0,
    ensures
        spec_de_packets(ConnectionState::Play, PacketDirection::C2S, 0x2a, <play::UpdateStructureBlockRequest<'static> as MD<'static>>::spec_serialize(v) + rest)
            == Some((PacketView::UpdateStructureBlockRequest(v), rest)),
        <play::UpdateStructureBlockRequest<'static> as MD<'static>>::spec_header() == varint_bytes(0x2a),
{
    lemma_packet_play_c2s_2(<play::UpdateStructureBlockRequest<'static> as MD<'static>>::spec_serialize(v) + rest);
    reveal(route_update_structure_block_request);
    <play::UpdateStructureBlockRequest<'static> as MD<'static>>::lemma_roundtrip(v, rest);
}

/// A `UpdateSignRequest` that is written is read back by `de_packets`.
proof fn lemma_route_update_sign_request(v: play::UpdateSignRequestView, rest: Seq<u8>)
    requires
        <play::UpdateSignRequest<'static> as MD<'static>>::encodable(v),
        <play::UpdateSignRequest<'static> as MD<'static>>::takes_rest() ==> rest.len() == 0,
    ensures
        spec_de_packets(ConnectionState::Play, PacketDirection::C2S, 0x2b, <play::UpdateSignRequest<'static> as MD<'static>>::spec_serialize(v) + rest)
            == Some((PacketView::UpdateSignRequest(v), rest)),
        <play::UpdateSignRequest<'static> as MD<'static>>::spec_header() == varint_bytes(0x2b),
{
    lemma_packet_play_c2s_2(<play::UpdateSignRequest<'static> as MD<'static>>::spec_serialize(v) + rest);
    reveal(route_update_sign_request);
    <play::UpdateSignRequest<'static> as MD<'static>>::lemma_roundtrip(v, rest);
}

/// A `ArmAnimationRequest` that is written is read back by `de_packets`.
proof fn lemma_route_arm_animation_request(v: play::ArmAnimationRequest, rest: Seq<u8>)
    requires
        <play::ArmAnimationRequest as MD<'static>>::encodable(v),
        <play::ArmAnimationRequest as MD<'static>>::takes_rest() ==> rest.len() == 0,
    ensures
        spec_de_packets(ConnectionState::Play, PacketDirection::C2S, 0x2c, <play::ArmAnimationRequest as MD<'static>>::spec_serialize(v) + rest)
            == Some((PacketView::ArmAnimationRequest(v), rest)),
        <play::ArmAnimationRequest as MD<'static>>::spec_header() == varint_bytes(0x2c),
{
    lemma_packet_play_c2s_2(<play::ArmAnimationRequest as MD<'static>>::spec_serialize(v) + rest);
    reveal(route_arm_animation_request);
    <play::ArmAnimationRequest as MD<'static>>::lemma_roundtrip(v, rest);
}

/// A `SpectateRequest` that is written is read back by `de_packets`.
proof fn lemma_route_spectate_request(v: play::SpectateRequest, rest: Seq<u8>)
    requires
        <play::SpectateRequest as MD<'static>>::encodable(v),
        <play::SpectateRequest as MD<'static>>::takes_rest() ==> rest.len() == 0,
    ensures
        spec_de_packets(ConnectionState::Play, PacketDirection::C2S, 0x2d, <play::SpectateRequest as MD<'static>>::spec_serialize(v) + rest)
            == Some((PacketView::SpectateRequest(v), rest)),
        <play::SpectateRequest as MD<'static>>::spec_header() == varint_bytes(0x2d),
{
    lemma_packet_play_c2s_2(<play::SpectateRequest as MD<'static>>::spec_serialize(v) + rest);
    reveal(route_spectate_request);
    <play::SpectateRequest as MD<'static>>::lemma_roundtrip(v, rest);
}

/// A `BlockPlaceRequest` that is written is read back by `de_packets`.
proof fn lemma_route_block_place_request(v: play::BlockPlaceRequest, rest: Seq<u8>)
    requires
        <play::BlockPlaceRequest as MD<'static>>::encodable(v),
        <play::BlockPlaceRequest as MD<'static>>::takes_rest() ==> rest.len() == 0,
    ensures
        spec_de_packets(ConnectionState::Play, PacketDirection::C2S, 0x2e, <play::BlockPlaceRequest as MD<'static>>::spec_serialize(v) + rest)
            == Some((PacketView::BlockPlaceRequest(v), rest)),
        <play::BlockPlaceRequest as MD<'static>>::spec_header() == varint_bytes(0x2e),
{
    lemma_packet_play_c2s_2(<play::BlockPlaceRequest as MD<'static>>::spec_serialize(v) + rest);
    reveal(route_block_place_request);
    <play::BlockPlaceRequest as MD<'static>>::lemma_roundtrip(v, rest);
}

/// A `UseItemRequest` that is written is read back by `de_packets`.
proof fn lemma_route_use_item_request(v: play::UseItemRequest, rest: Seq<u8>)
    requires
        <play::UseItemRequest as MD<'static>>::encodable(v),
        <play::UseItemRequest as MD<'static>>::takes_rest() ==> rest.len() == 0,
    ensures
        spec_de_packets(ConnectionState::Play, PacketDirection::C2S, 0x2f, <play::UseItemRequest as MD<'static>>::spec_serialize(v) + rest)
            == Some((PacketView::UseItemRequest(v), rest)),
        <play::UseItemRequest as MD<'static>>::spec_header() == varint_bytes(0x2f),
{
    lemma_packet_play_c2s_2(<play::UseItemRequest as MD<'static>>::spec_serialize(v) + rest);
    reveal(route_use_item_request);
    <play::UseItemRequest as MD<'static>>::lemma_roundtrip(v, rest);
}

/// A `SpawnEntityResponse` that is written is read back by `de_packets`.
proof fn lemma_route_spawn_entity_response(v: play::SpawnEntityResponse, rest: Seq<u8>)
    requires
        <play::SpawnEntityResponse as MD<'static>>::encodable(v),
        <play::SpawnEntityResponse as MD<'static>>::takes_rest() ==> rest.len() == 0,
    ensures
        spec_de_packets(ConnectionState::Play, PacketDirection::S2C, 0x0, <play::SpawnEntityResponse as MD<'static>>::spec_serialize(v) + rest)
            == Some((PacketView::SpawnEntityResponse(v), rest)),
        <play::SpawnEntityResponse as MD<'static>>::spec_header() == varint_bytes(0x0),
{
    lemma_packet_play_s2c_0(<play::SpawnEntityResponse as MD<'static>>::spec_serialize(v) + rest);
    reveal(route_spawn_entity_response);
    <play::SpawnEntityResponse as MD<'static>>::lemma_roundtrip(v, rest);
}

/// A `SpawnEntityExperienceOrbResponse` that is written is read back by `de_packets`.
proof fn lemma_route_spawn_entity_experience_orb_response(v: play::SpawnEntityExperienceOrbResponse, rest: Seq<u8>)
    requires
        <play::SpawnEntityExperienceOrbResponse as MD<'static>>::encodable(v),
        <play::SpawnEntityExperienceOrbResponse as MD<'static>>::takes_rest() ==> rest.len() == 0,
    ensures
        spec_de_packets(ConnectionState::Play, PacketDirection::S2C, 0x1, <play::SpawnEntityExperienceOrbResponse as MD<'static>>::spec_serialize(v) + rest)
            == Some((PacketView::SpawnEntityExperienceOrbResponse(v), rest)),
        <play::SpawnEntityExperienceOrbResponse as MD<'static>>::spec_header() == varint_bytes(0x1),
{
    lemma_packet_play_s2c_0(<play::SpawnEntityExperienceOrbResponse as MD<'static>>::spec_serialize(v) + rest);
    reveal(route_spawn_entity_experience_orb_response);
    <play::SpawnEntityExperienceOrbResponse as MD<'static>>::lemma_roundtrip(v, rest);
}

/// A `SpawnEntityLivingResponse` that is written is read back by `de_packets`.
proof fn lemma_route_spawn_entity_living_response(v: play::SpawnEntityLivingResponse, rest: Seq<u8>)
    requires
        <play::SpawnEntityLivingResponse as MD<'static>>::encodable(v),
        <play::SpawnEntityLivingResponse as MD<'static>>::takes_rest() ==> rest.len() == 0,
    ensures
        spec_de_packets(ConnectionState::Play, PacketDirection::S2C, 0x2, <play::SpawnEntityLivingResponse as MD<'static>>::spec_serialize(v) + rest)
            == Some((PacketView::SpawnEntityLivingResponse(v), rest)),
        <play::SpawnEntityLivingResponse as MD<'static>>::spec_header() == varint_bytes(0x2),
{
    lemma_packet_play_s2c_0(<play::SpawnEntityLivingResponse as MD<'static>>::spec_serialize(v) + rest);
    reveal(route_spawn_entity_living_response);
    <play::SpawnEntityLivingResponse as MD<'static>>::lemma_roundtrip(v, rest);
}

/// A `SpawnEntityPaintingResponse` that is written is read back by `de_packets`.
proof fn lemma_route_spawn_entity_painting_response(v: play::SpawnEntityPaintingResponse, rest: Seq<u8>)
    requires
        <play::SpawnEntityPaintingResponse as MD<'static>>::encodable(v),
        <play::SpawnEntityPaintingResponse as MD<'static>>::takes_rest() ==> rest.len() == 0,
    ensures
        spec_de_packets(ConnectionState::Play, PacketDirection::S2C, 0x3, <play::SpawnEntityPaintingResponse as MD<'static>>::spec_serialize(v) + rest)
            == Some((PacketView::SpawnEntityPaintingResponse(v), rest)),
        <play::SpawnEntityPaintingResponse as MD<'static>>::spec_header() == varint_bytes(0x3),
{
    lemma_packet_play_s2c_0(<play::SpawnEntityPaintingResponse as MD<'static>>::spec_serialize(v) + rest);
    reveal(route_spawn_entity_painting_response);
    <play::SpawnEntityPaintingResponse as MD<'static>>::lemma_roundtrip(v, rest);
}

/// A `NamedEntitySpawnResponse` that is written is read back by `de_packets`.
proof fn lemma_route_named_entity_spawn_response(v: play::NamedEntitySpawnResponse, rest: Seq<u8>)
    requires
        <play::NamedEntitySpawnResponse as MD<'static>>::encodable(v),
        <play::NamedEntitySpawnResponse as MD<'static>>::takes_rest() ==> rest.len() == 0,
    ensures
        spec_de_packets(ConnectionState::Play, PacketDirection::S2C, 0x4, <play::NamedEntitySpawnResponse as MD<'static>>::spec_serialize(v) + rest)
            == Some((PacketView::NamedEntitySpawnResponse(v), rest)),
        <play::NamedEntitySpawnResponse as MD<'static>>::spec_header() == varint_bytes(0x4),
{
    lemma_packet_play_s2c_0(<play::NamedEntitySpawnResponse as MD<'static>>::spec_serialize(v) + rest);
    reveal(route_named_entity_spawn_response);
    <play::NamedEntitySpawnResponse as MD<'static>>::lemma_roundtrip(v, rest);
}

/// A `SculkVibrationSignalResponse` that is written is read back by `de_packets`.
proof fn lemma_route_sculk_vibration_signal_response(v: play::SculkVibrationSignalResponse, rest: Seq<u8>)
    requires
        <play::SculkVibrationSignalResponse as MD<'static>>::encodable(v),
        <play::SculkVibrationSignalResponse as MD<'static>>::takes_rest() ==> rest.len() == 0,
    ensures
        spec_de_packets(ConnectionState::Play, PacketDirection::S2C, 0x5, <play::SculkVibrationSignalResponse as MD<'static>>::spec_serialize(v) + rest)
            == Some((PacketView::SculkVibrationSignalResponse(v), rest)),
        <play::SculkVibrationSignalResponse as MD<'static>>::spec_header() == varint_bytes(0x5),
{
    lemma_packet_play_s2c_0(<play::SculkVibrationSignalResponse as MD<'static>>::spec_serialize(v) + rest);
    reveal(route_sculk_vibration_signal_response);
    <play::SculkVibrationSignalResponse as MD<'static>>::lemma_roundtrip(v, rest);
}

/// A `AnimationResponse` that is written is read back by `de_packets`.
proof fn lemma_route_animation_response(v: play::AnimationResponse, rest: Seq<u8>)
    requires
        <play::AnimationResponse as MD<'static>>::encodable(v),
        <play::AnimationResponse as MD<'static>>::takes_rest() ==> rest.len() == 0,
    ensures
        spec_de_packets(ConnectionState::Play, PacketDirection::S2C, 0x6, <play::AnimationResponse as MD<'static>>::spec_serialize(v) + rest)
            == Some((PacketView::AnimationResponse(v), rest)),
        <play::AnimationResponse as MD<'static>>::spec_header() == varint_bytes(0x6),
{
    lemma_packet_play_s2c_0(<play::AnimationResponse as MD<'static>>::spec_serialize(v) + rest);
    reveal(route_animation_response);
    <play::AnimationResponse as MD<'static>>::lemma_roundtrip(v, rest);
}

/// A `StatisticsResponse` that is written is read back by `de_packets`.
proof fn lemma_route_statistics_response(v: play::StatisticsResponseView, rest: Seq<u8>)
    requires
        <play::StatisticsResponse as MD<'static>>::encodable(v),
        <play::StatisticsResponse as MD<'static>>::takes_rest() ==> rest.len() == 0,
    ensures
        spec_de_packets(ConnectionState::Play, PacketDirection::S2C, 0x7, <play::StatisticsResponse as MD<'static>>::spec_serialize(v) + rest)
            == Some((PacketView::StatisticsResponse(v), rest)),
        <play::StatisticsResponse as MD<'static>>::spec_header() == varint_bytes(0x7),
{
    lemma_packet_play_s2c_0(<play::StatisticsResponse as MD<'static>>::spec_serialize(v) + rest);
    reveal(route_statistics_response);
    <play::StatisticsResponse as MD<'static>>::lemma_roundtrip(v, rest);
}

/// A `AcknowledgePlayerDiggingResponse` that is written is read back by `de_packets`.
proof fn lemma_route_acknowledge_player_digging_response(v: play::AcknowledgePlayerDiggingResponse, rest: Seq<u8>)
    requires
        <play::AcknowledgePlayerDiggingResponse as MD<'static>>::encodable(v),
        <play::AcknowledgePlayerDiggingResponse as MD<'static>>::takes_rest() ==> rest.len() == 0,
    ensures
        spec_de_packets(ConnectionState::Play, PacketDirection::S2C, 0x8, <play::AcknowledgePlayerDiggingResponse as MD<'static>>::spec_serialize(v) + rest)
            == Some((PacketView::AcknowledgePlayerDiggingResponse(v), rest)),
        <play::AcknowledgePlayerDiggingResponse as MD<'static>>::spec_header() == varint_bytes(0x8),
{
    lemma_packet_play_s2c_0(<play::AcknowledgePlayerDiggingResponse as MD<'static>>::spec_serialize(v) + rest);
    reveal(route_acknowledge_player_digging_response);
    <play::AcknowledgePlayerDiggingResponse as MD<'static>>::lemma_roundtrip(v, rest);
}

/// A `BlockBreakAnimationResponse` that is written is read back by `de_packets`.
proof fn lemma_route_block_break_animation_response(v: play::BlockBreakAnimationResponse, rest: Seq<u8>)
    requires
        <play::BlockBreakAnimationResponse as MD<'static>>::encodable(v),
        <play::BlockBreakAnimationResponse as MD<'static>>::takes_rest() ==> rest.len() == 0,
    ensures
        spec_de_packets(ConnectionState::Play, PacketDirection::S2C, 0x9, <play::BlockBreakAnimationResponse as MD<'static>>::spec_serialize(v) + rest)
            == Some((PacketView::BlockBreakAnimationResponse(v), rest)),
        <play::BlockBreakAnimationResponse as MD<'static>>::spec_header() == varint_bytes(0x9),
{
    lemma_packet_play_s2c_0(<play::BlockBreakAnimationResponse as MD<'static>>::spec_serialize(v) + rest);
    reveal(route_block_break_animation_response);
    <play::BlockBreakAnimationResponse as MD<'static>>::lemma_roundtrip(v, rest);
}

/// A `TileEntityDataResponse` that is written is read back by `de_packets`.
proof fn lemma_route_tile_entity_data_response(v: play::TileEntityDataResponseView, rest: Seq<u8>)
    requires
        <play::TileEntityDataResponse<'static> as MD<'static>>::encodable(v),
        <play::TileEntityDataResponse<'static> as MD<'static>>::takes_rest() ==> rest.len() == 0,
    ensures
        spec_de_packets(ConnectionState::Play, PacketDirection::S2C, 0xa, <play::TileEntityDataResponse<'static> as MD<'static>>::spec_serialize(v) + rest)
            == Some((PacketView::TileEntityDataResponse(v), rest)),
        <play::TileEntityDataResponse<'static> as MD<'static>>::spec_header() == varint_bytes(0xa),
{
    lemma_packet_play_s2c_0(<play::TileEntityDataResponse<'static> as MD<'static>>::spec_serialize(v) + rest);
    reveal(route_tile_entity_data_response);
    <play::TileEntityDataResponse<'static> as MD<'static>>::lemma_roundtrip(v, rest);
}

/// A `BlockActionResponse` that is written is read back by `de_packets`.
proof fn lemma_route_block_action_response(v: play::BlockActionResponse, rest: Seq<u8>)
    requires
        <play::BlockActionResponse as MD<'static>>::encodable(v),
        <play::BlockActionResponse as MD<'static>>::takes_rest() ==> rest.len() == 0,
    ensures
        spec_de_packets(ConnectionState::Play, PacketDirection::S2C, 0xb, <play::BlockActionResponse as MD<'static>>::spec_serialize(v) + rest)
            == Some((PacketView::BlockActionResponse(v), rest)),
        <play::BlockActionResponse as MD<'static>>::spec_header() == varint_bytes(0xb),
{
    lemma_packet_play_s2c_0(<play::BlockActionResponse as MD<'static>>::spec_serialize(v) + rest);
    reveal(route_block_action_response);
    <play::BlockActionResponse as MD<'static>>::lemma_roundtrip(v, rest);
}

/// A `BlockChangeResponse` that is written is read back by `de_packets`.
proof fn lemma_route_block_change_response(v: play::BlockChangeResponse, rest: Seq<u8>)
    requires
        <play::BlockChangeResponse as MD<'static>>::encodable(v),
        <play::BlockChangeResponse as MD<'static>>::takes_rest() ==> rest.len() == 0,
    ensures
        spec_de_packets(ConnectionState::Play, PacketDirection::S2C, 0xc, <play::BlockChangeResponse as MD<'static>>::spec_serialize(v) + rest)
            == Some((PacketView::BlockChangeResponse(v), rest)),
        <play::BlockChangeResponse as MD<'static>>::spec_header() == varint_bytes(0xc),
{
    lemma_packet_play_s2c_0(<play::BlockChangeResponse as MD<'static>>::spec_serialize(v) + rest);
    reveal(route_block_change_response);
    <play::BlockChangeResponse as MD<'static>>::lemma_roundtrip(v, rest);
}

/// A `BossBarResponse` that is written is read back by `de_packets`.
proof fn lemma_route_boss_bar_response(v: play::BossBarResponse, rest: Seq<u8>)
    requires
        <play::BossBarResponse as MD<'static>>::encodable(v),
        <play::BossBarResponse as MD<'static>>::takes_rest() ==> rest.len() == 0,
    ensures
        spec_de_packets(ConnectionState::Play, PacketDirection::S2C, 0xd, <play::BossBarResponse as MD<'static>>::spec_serialize(v) + rest)
            == Some((PacketView::BossBarResponse(v), rest)),
        <play::BossBarResponse as MD<'static>>::spec_header() == varint_bytes(0xd),
{
    lemma_packet_play_s2c_0(<play::BossBarResponse as MD<'static>>::spec_serialize(v) + rest);
    reveal(route_boss_bar_response);
    <play::BossBarResponse as MD<'static>>::lemma_roundtrip(v, rest);
}

/// A `DifficultyResponse` that is written is read back by `de_packets`.
proof fn lemma_route_difficulty_response(v: play::DifficultyResponse, rest: Seq<u8>)
    requires
        <play::DifficultyResponse as MD<'static>>::encodable(v),
        <play::DifficultyResponse as MD<'static>>::takes_rest() ==> rest.len() == 0,
    ensures
        spec_de_packets(ConnectionState::Play, PacketDirection::S2C, 0xe, <play::DifficultyResponse as MD<'static>>::spec_serialize(v) + rest)
            == Some((PacketView::DifficultyResponse(v), rest)),
        <play::DifficultyResponse as MD<'static>>::spec_header() == varint_bytes(0xe),
{
    lemma_packet_play_s2c_0(<play::DifficultyResponse as MD<'static>>::spec_serialize(v) + rest);
    reveal(route_difficulty_response);
    <play::DifficultyResponse as MD<'static>>::lemma_roundtrip(v, rest);
}

/// A `ChatResponse` that is written is read back by `de_packets`.
proof fn lemma_route_chat_response(v: play::ChatResponseView, rest: Seq<u8>)
    requires
        <play::ChatResponse<'static> as MD<'static>>::encodable(v),
        <play::ChatResponse<'static> as MD<'static>>::takes_rest() ==> rest.len() == 0,
    ensures
        spec_de_packets(ConnectionState::Play, PacketDirection::S2C, 0xf, <play::ChatResponse<'static> as MD<'static>>::spec_serialize(v) + rest)
            == Some((PacketView::ChatResponse(v), rest)),
        <play::ChatResponse<'static> as MD<'static>>::spec_header() == varint_bytes(0xf),
{
    lemma_packet_play_s2c_0(<play::ChatResponse<'static> as MD<'static>>::spec_serialize(v) + rest);
    reveal(route_chat_response);
    <play::ChatResponse<'static> as MD<'static>>::lemma_roundtrip(v, rest);
}

/// A `ClearTitlesResponse` that is written is read back by `de_packets`.
proof fn lemma_route_clear_titles_response(v: play::ClearTitlesResponse, rest: Seq<u8>)
    requires
        <play::ClearTitlesResponse as MD<'static>>::encodable(v),
        <play::ClearTitlesResponse as MD<'static>>::takes_rest() ==> rest.len() == 0,
    ensures
        spec_de_packets(ConnectionState::Play, PacketDirection::S2C, 0x10, <play::ClearTitlesResponse as MD<'static>>::spec_serialize(v) + rest)
            == Some((PacketView::ClearTitlesResponse(v), rest)),
        <play::ClearTitlesResponse as MD<'static>>::spec_header() == varint_bytes(0x10),
{
    lemma_packet_play_s2c_1(<play::ClearTitlesResponse as MD<'static>>::spec_serialize(v) + rest);
    reveal(route_clear_titles_response);
    <play::ClearTitlesResponse as MD<'static>>::lemma_roundtrip(v, rest);
}

/// A `TabCompleteResponse` that is written is read back by `de_packets`.
proof fn lemma_route_tab_complete_response(v: play::TabCompleteResponseView, rest: Seq<u8>)
    requires
        <play::TabCompleteResponse<'static> as MD<'static>>::encodable(v),
        <play::TabCompleteResponse<'static> as MD<'static>>::takes_rest() ==> rest.len() == 0,
    ensures
        spec_de_packets(ConnectionState::Play, PacketDirection::S2C, 0x11, <play::TabCompleteResponse<'static> as MD<'static>>::spec_serialize(v) + rest)
            == Some((PacketView::TabCompleteResponse(v), rest)),
        <play::TabCompleteResponse<'static> as MD<'static>>::spec_header() == varint_bytes(0x11),
{
    lemma_packet_play_s2c_1(<play::TabCompleteResponse<'static> as MD<'static>>::spec_serialize(v) + rest);
    reveal(route_tab_complete_response);
    <play::TabCompleteResponse<'static> as MD<'static>>::lemma_roundtrip(v, rest);
}

/// A `DeclareCommandsResponse` that is written is read back by `de_packets`.
proof fn lemma_route_declare_commands_response(v: play::DeclareCommandsResponse, rest: Seq<u8>)
    requires
        <play::DeclareCommandsResponse as MD<'static>>::encodable(v),
        <play::DeclareCommandsResponse as MD<'static>>::takes_rest() ==> rest.len() == 0,
    ensures
        spec_de_packets(ConnectionState::Play, PacketDirection::S2C, 0x12, <play::DeclareCommandsResponse as MD<'static>>::spec_serialize(v) + rest)
            == Some((PacketView::DeclareCommandsResponse(v), rest)),
        <play::DeclareCommandsResponse as MD<'static>>::spec_header() == varint_bytes(0x12),
{
    lemma_packet_play_s2c_1(<play::DeclareCommandsResponse as MD<'static>>::spec_serialize(v) + rest);
    reveal(route_declare_commands_response);
    <play::DeclareCommandsResponse as MD<'static>>::lemma_roundtrip(v, rest);
}

/// A `CloseWindowResponse` that is written is read back by `de_packets`.
proof fn lemma_route_close_window_response(v: play::CloseWindowResponse, rest: Seq<u8>)
    requires
        <play::CloseWindowResponse as MD<'static>>::encodable(v),
        <play::CloseWindowResponse as MD<'static>>::takes_rest() ==> rest.len() == 0,
    ensures
        spec_de_packets(ConnectionState::Play, PacketDirection::S2C, 0x13, <play::CloseWindowResponse as MD<'static>>::spec_serialize(v) + rest)
            == Some((PacketView::CloseWindowResponse(v), rest)),
        <play::CloseWindowResponse as MD<'static>>::spec_header() == varint_bytes(0x13),
{
    lemma_packet_play_s2c_1(<play::CloseWindowResponse as MD<'static>>::spec_serialize(v) + rest);
    reveal(route_close_window_response);
    <play::CloseWindowResponse as MD<'static>>::lemma_roundtrip(v, rest);
}

/// A `WindowItemsResponse` that is written is read back by `de_packets`.
proof fn lemma_route_window_items_response(v: play::WindowItemsResponseView, rest: Seq<u8>)
    requires
        <play::WindowItemsResponse<'static> as MD<'static>>::encodable(v),
        <play::WindowItemsResponse<'static> as MD<'static>>::takes_rest() ==> rest.len() == 0,
    ensures
        spec_de_packets(ConnectionState::Play, PacketDirection::S2C, 0x14, <play::WindowItemsResponse<'static> as MD<'static>>::spec_serialize(v) + rest)
            == Some((PacketView::WindowItemsResponse(v), rest)),
        <play::WindowItemsResponse<'static> as MD<'static>>::spec_header() == varint_bytes(0x14),
{
    lemma_packet_play_s2c_1(<play::WindowItemsResponse<'static> as MD<'static>>::spec_serialize(v) + rest);
    reveal(route_window_items_response);
    <play::WindowItemsResponse<'static> as MD<'static>>::lemma_roundtrip(v, rest);
}

/// A `CraftProgressBarResponse` that is written is read back by `de_packets`.
proof fn lemma_route_craft_progress_bar_response(v: play::CraftProgressBarResponse, rest: Seq<u8>)
    requires
        <play::CraftProgressBarResponse as MD<'static>>::encodable(v),
        <play::CraftProgressBarResponse as MD<'static>>::takes_rest() ==> rest.len() == 0,
    ensures
        spec_de_packets(ConnectionState::Play, PacketDirection::S2C, 0x15, <play::CraftProgressBarResponse as MD<'static>>::spec_serialize(v) + rest)
            == Some((PacketView::CraftProgressBarResponse(v), rest)),
        <play::CraftProgressBarResponse as MD<'static>>::spec_header() == varint_bytes(0x15),
{
    lemma_packet_play_s2c_1(<play::CraftProgressBarResponse as MD<'static>>::spec_serialize(v) + rest);
    reveal(route_craft_progress_bar_response);
    <play::CraftProgressBarResponse as MD<'static>>::lemma_roundtrip(v, rest);
}

/// A `SetSlotResponse` that is written is read back by `de_packets`.
proof fn lemma_route_set_slot_response(v: play::SetSlotResponseView, rest: Seq<u8>)
    requires
        <play::SetSlotResponse<'static> as MD<'static>>::encodable(v),
        <play::SetSlotResponse<'static> as MD<'static>>::takes_rest() ==> rest.len() == 0,
    ensures
        spec_de_packets(ConnectionState::Play, PacketDirection::S2C, 0x16, <play::SetSlotResponse<'static> as MD<'static>>::spec_serialize(v) + rest)
            == Some((PacketView::SetSlotResponse(v), rest)),
        <play::SetSlotResponse<'static> as MD<'static>>::spec_header() == varint_bytes(0x16),
{
    lemma_packet_play_s2c_1(<play::SetSlotResponse<'static> as MD<'static>>::spec_serialize(v) + rest);
    reveal(route_set_slot_response);
    <play::SetSlotResponse<'static> as MD<'static>>::lemma_roundtrip(v, rest);
}

/// A `SetCooldownResponse` that is written is read back by `de_packets`.
proof fn lemma_route_set_cooldown_response(v: play::SetCooldownResponse, rest: Seq<u8>)
    requires
        <play::SetCooldownResponse as MD<'static>>::encodable(v),
        <play::SetCooldownResponse as MD<'static>>::takes_rest() ==> rest.len() == 0,
    ensures
        spec_de_packets(ConnectionState::Play, PacketDirection::S2C, 0x17, <play::SetCooldownResponse as MD<'static>>::spec_serialize(v) + rest)
            == Some((PacketView::SetCooldownResponse(v), rest)),
        <play::SetCooldownResponse as MD<'static>>::spec_header() == varint_bytes(0x17),
{
    lemma_packet_play_s2c_1(<play::SetCooldownResponse as MD<'static>>::spec_serialize(v) + rest);
    reveal(route_set_cooldown_response);
    <play::SetCooldownResponse as MD<'static>>::lemma_roundtrip(v, rest);
}

/// A `CustomPayloadResponse` that is written is read back by `de_packets`.
proof fn lemma_route_custom_payload_response(v: play::CustomPayloadResponseView, rest: Seq<u8>)
    requires
        <play::CustomPayloadResponse<'static> as MD<'static>>::encodable(v),
        <play::CustomPayloadResponse<'static> as MD<'static>>::takes_rest() ==> rest.len() == 0,
    ensures
        spec_de_packets(ConnectionState::Play, PacketDirection::S2C, 0x18, <play::CustomPayloadResponse<'static> as MD<'static>>::spec_serialize(v) + rest)
            == Some((PacketView::CustomPayloadResponse(v), rest)),
        <play::CustomPayloadResponse<'static> as MD<'static>>::spec_header() == varint_bytes(0x18),
{
    lemma_packet_play_s2c_1(<play::CustomPayloadResponse<'static> as MD<'static>>::spec_serialize(v) + rest);
    reveal(route_custom_payload_response);
    <play::CustomPayloadResponse<'static> as MD<'static>>::lemma_roundtrip(v, rest);
}

/// A `NamedSoundEffectResponse` that is written is read back by `de_packets`.
proof fn lemma_route_named_sound_effect_response(v: play::NamedSoundEffectResponseView, rest: Seq<u8>)
    requires
        <play::NamedSoundEffectResponse<'static> as MD<'static>>::encodable(v),
        <play::NamedSoundEffectResponse<'static> as MD<'static>>::takes_rest() ==> rest.len() == 0,
    ensures
        spec_de_packets(ConnectionState::Play, PacketDirection::S2C, 0x19, <play::NamedSoundEffectResponse<'static> as MD<'static>>::spec_serialize(v) + rest)
            == Some((PacketView::NamedSoundEffectResponse(v), rest)),
        <play::NamedSoundEffectResponse<'static> as MD<'static>>::spec_header() == varint_bytes(0x19),
{
    lemma_packet_play_s2c_1(<play::NamedSoundEffectResponse<'static> as MD<'static>>::spec_serialize(v) + rest);
    reveal(route_named_sound_effect_response);
    <play::NamedSoundEffectResponse<'static> as MD<'static>>::lemma_roundtrip(v, rest);
}

/// A `KickDisconnectResponse` that is written is read back by `de_packets`.
proof fn lemma_route_kick_disconnect_response(v: play::KickDisconnectResponseView, rest: Seq<u8>)
    requires
        <play::KickDisconnectResponse<'static> as MD<'static>>::encodable(v),
        <play::KickDisconnectResponse<'static> as MD<'static>>::takes_rest() ==> rest.len() == 0,
    ensures
        spec_de_packets(ConnectionState::Play, PacketDirection::S2C, 0x1a, <play::KickDisconnectResponse<'static> as MD<'static>>::spec_serialize(v) + rest)
            == Some((PacketView::KickDisconnectResponse(v), rest)),
        <play::KickDisconnectResponse<'static> as MD<'static>>::spec_header() == varint_bytes(0x1a),
{
    lemma_packet_play_s2c_1(<play::KickDisconnectResponse<'static> as MD<'static>>::spec_serialize(v) + rest);
    reveal(route_kick_disconnect_response);
    <play::KickDisconnectResponse<'static> as MD<'static>>::lemma_roundtrip(v, rest);
}

/// A `EntityStatusResponse` that is written is read back by `de_packets`.
proof fn lemma_route_entity_status_response(v: play::EntityStatusResponse, rest: Seq<u8>)
    requires
        <play::EntityStatusResponse as MD<'static>>::encodable(v),
        <play::EntityStatusResponse as MD<'static>>::takes_rest() ==> rest.len() == 0,
    ensures
        spec_de_packets(ConnectionState::Play, PacketDirection::S2C, 0x1b, <play::EntityStatusResponse as MD<'static>>::spec_serialize(v) + rest)
            == Some((PacketView::EntityStatusResponse(v), rest)),
        <play::EntityStatusResponse as MD<'static>>::spec_header() == varint_bytes(0x1b),
{
    lemma_packet_play_s2c_1(<play::EntityStatusResponse as MD<'static>>::spec_serialize(v) + rest);
    reveal(route_entity_status_response);
    <play::EntityStatusResponse as MD<'static>>::lemma_roundtrip(v, rest);
}

/// A `ExplosionResponse` that is written is read back by `de_packets`.
proof fn lemma_route_explosion_response(v: play::ExplosionResponseView, rest: Seq<u8>)
    requires
        <play::ExplosionResponse as MD<'static>>::encodable(v),
        <play::ExplosionResponse as MD<'static>>::takes_rest() ==> rest.len() == 0,
    ensures
        spec_de_packets(ConnectionState::Play, PacketDirection::S2C, 0x1c, <play::ExplosionResponse as MD<'static>>::spec_serialize(v) + rest)
            == Some((PacketView::ExplosionResponse(v), rest)),
        <play::ExplosionResponse as MD<'static>>::spec_header() == varint_bytes(0x1c),
{
    lemma_packet_play_s2c_1(<play::ExplosionResponse as MD<'static>>::spec_serialize(v) + rest);
    reveal(route_explosion_response);
    <play::ExplosionResponse as MD<'static>>::lemma_roundtrip(v, rest);
}

/// A `UnloadChunkResponse` that is written is read back by `de_packets`.
proof fn lemma_route_unload_chunk_response(v: play::UnloadChunkResponse, rest: Seq<u8>)
    requires
        <play::UnloadChunkResponse as MD<'static>>::encodable(v),
        <play::UnloadChunkResponse as MD<'static>>::takes_rest() ==> rest.len() == 0,
    ensures
        spec_de_packets(ConnectionState::Play, PacketDirection::S2C, 0x1d, <play::UnloadChunkResponse as MD<'static>>::spec_serialize(v) + rest)
            == Some((PacketView::UnloadChunkResponse(v), rest)),
        <play::UnloadChunkResponse as MD<'static>>::spec_header() == varint_bytes(0x1d),
{
    lemma_packet_play_s2c_1(<play::UnloadChunkResponse as MD<'static>>::spec_serialize(v) + rest);
    reveal(route_unload_chunk_response);
    <play::UnloadChunkResponse as MD<'static>>::lemma_roundtrip(v, rest);
}

/// A `GameStateChangeResponse` that is written is read back by `de_packets`.
proof fn lemma_route_game_state_change_response(v: play::GameStateChangeResponse, rest: Seq<u8>)
    requires
        <play::GameStateChangeResponse as MD<'static>>::encodable(v),
        <play::GameStateChangeResponse as MD<'static>>::takes_rest() ==> rest.len() == 0,
    ensures
        spec_de_packets(ConnectionState::Play, PacketDirection::S2C, 0x1e, <play::GameStateChangeResponse as MD<'static>>::spec_serialize(v) + rest)
            == Some((PacketView::GameStateChangeResponse(v), rest)),
        <play::GameStateChangeResponse as MD<'static>>::spec_header() == varint_bytes(0x1e),
{
    lemma_packet_play_s2c_1(<play::GameStateChangeResponse as MD<'static>>::spec_serialize(v) + rest);
    reveal(route_game_state_change_response);
    <play::GameStateChangeResponse as MD<'static>>::lemma_roundtrip(v, rest);
}

/// A `OpenHorseWindowResponse` that is written is read back by `de_packets`.
proof fn lemma_route_open_horse_window_response(v: play::OpenHorseWindowResponse, rest: Seq<u8>)
    requires
        <play::OpenHorseWindowResponse as MD<'static>>::encodable(v),
        <play::OpenHorseWindowResponse as MD<'static>>::takes_rest() ==> rest.len() == 0,
    ensures
        spec_de_packets(ConnectionState::Play, PacketDirection::S2C, 0x1f, <play::OpenHorseWindowResponse as MD<'static>>::spec_serialize(v) + rest)
            == Some((PacketView::OpenHorseWindowResponse(v), rest)),
        <play::OpenHorseWindowResponse as MD<'static>>::spec_header() == varint_bytes(0x1f),
{
    lemma_packet_play_s2c_1(<play::OpenHorseWindowResponse as MD<'static>>::spec_serialize(v) + rest);
    reveal(route_open_horse_window_response);
    <play::OpenHorseWindowResponse as MD<'static>>::lemma_roundtrip(v, rest);
}

/// A `InitializeWorldBorderResponse` that is written is read back by `de_packets`.
proof fn lemma_route_initialize_world_border_response(v: play::InitializeWorldBorderResponse, rest: Seq<u8>)
    requires
        <play::InitializeWorldBorderResponse as MD<'static>>::encodable(v),
        <play::InitializeWorldBorderResponse as MD<'static>>::takes_rest() ==> rest.len() == 0,
    ensures
        spec_de_packets(ConnectionState::Play, PacketDirection::S2C, 0x20, <play::InitializeWorldBorderResponse as MD<'static>>::spec_serialize(v) + rest)
            == Some((PacketView::InitializeWorldBorderResponse(v), rest)),
        <play::InitializeWorldBorderResponse as MD<'static>>::spec_header() == varint_bytes(0x20),
{
    lemma_packet_play_s2c_2(<play::InitializeWorldBorderResponse as MD<'static>>::spec_serialize(v) + rest);
    reveal(route_initialize_world_border_response);
    <play::InitializeWorldBorderResponse as MD<'static>>::lemma_roundtrip(v, rest);
}

/// A `KeepAliveResponse` that is written is read back by `de_packets`.
proof fn lemma_route_keep_alive_response(v: play::KeepAliveResponse, rest: Seq<u8>)
    requires
        <play::KeepAliveResponse as MD<'static>>::encodable(v),
        <play::KeepAliveResponse as MD<'static>>::takes_rest() ==> rest.len() == 0,
    ensures
        spec_de_packets(ConnectionState::Play, PacketDirection::S2C, 0x21, <play::KeepAliveResponse as MD<'static>>::spec_serialize(v) + rest)
            == Some((PacketView::KeepAliveResponse(v), rest)),
        <play::KeepAliveResponse as MD<'static>>::spec_header() == varint_bytes(0x21),
{
    lemma_packet_play_s2c_2(<play::KeepAliveResponse as MD<'static>>::spec_serialize(v) + rest);
    reveal(route_keep_alive_response);
    <play::KeepAliveResponse as MD<'static>>::lemma_roundtrip(v, rest);
}

/// A `MapChunkResponse` that is written is read back by `de_packets`.
proof fn lemma_route_map_chunk_response(v: play::MapChunkResponseView, rest: Seq<u8>)
    requires
        <play::MapChunkResponse<'static> as MD<'static>>::encodable(v),
        <play::MapChunkResponse<'static> as MD<'static>>::takes_rest() ==> rest.len() == 0,
    ensures
        spec_de_packets(ConnectionState::Play, PacketDirection::S2C, 0x22, <play::MapChunkResponse<'static> as MD<'static>>::spec_serialize(v) + rest)
            == Some((PacketView::MapChunkResponse(v), rest)),
        <play::MapChunkResponse<'static> as MD<'static>>::spec_header() == varint_bytes(0x22),
{
    lemma_packet_play_s2c_2(<play::MapChunkResponse<'static> as MD<'static>>::spec_serialize(v) + rest);
    reveal(route_map_chunk_response);
    <play::MapChunkResponse<'static> as MD<'static>>::lemma_roundtrip(v, rest);
}

/// A `WorldEventResponse` that is written is read back by `de_packets`.
proof fn lemma_route_world_event_response(v: play::WorldEventResponse, rest: Seq<u8>)
    requires
        <play::WorldEventResponse as MD<'static>>::encodable(v),
        <play::WorldEventResponse as MD<'static>>::takes_rest() ==> rest.len() == 0,
    ensures
        spec_de_packets(ConnectionState::Play, PacketDirection::S2C, 0x23, <play::WorldEventResponse as MD<'static>>::spec_serialize(v) + rest)
            == Some((PacketView::WorldEventResponse(v), rest)),
        <play::WorldEventResponse as MD<'static>>::spec_header() == varint_bytes(0x23),
{
    lemma_packet_play_s2c_2(<play::WorldEventResponse as MD<'static>>::spec_serialize(v) + rest);
    reveal(route_world_event_response);
    <play::WorldEventResponse as MD<'static>>::lemma_roundtrip(v, rest);
}

/// A `WorldParticlesResponse` that is written is read back by `de_packets`.
proof fn lemma_route_world_particles_response(v: play::WorldParticlesResponse, rest: Seq<u8>)
    requires
        <play::WorldParticlesResponse as MD<'static>>::encodable(v),
        <play::WorldParticlesResponse as MD<'static>>::takes_rest() ==> rest.len() == 0,
    ensures
        spec_de_packets(ConnectionState::Play, PacketDirection::S2C, 0x24, <play::WorldParticlesResponse as MD<'static>>::spec_serialize(v) + rest)
            == Some((PacketView::WorldParticlesResponse(v), rest)),
        <play::WorldParticlesResponse as MD<'static>>::spec_header() == varint_bytes(0x24),
{
    lemma_packet_play_s2c_2(<play::WorldParticlesResponse as MD<'static>>::spec_serialize(v) + rest);
    reveal(route_world_particles_response);
    <play::WorldParticlesResponse as MD<'static>>::lemma_roundtrip(v, rest);
}

/// A `UpdateLightResponse` that is written is read back by `de_packets`.
proof fn lemma_route_update_light_response(v: play::UpdateLightResponseView, rest: Seq<u8>)
    requires
        <play::UpdateLightResponse<'static> as MD<'static>>::encodable(v),
        <play::UpdateLightResponse<'static> as MD<'static>>::takes_rest() ==> rest.len() == 0,
    ensures
        spec_de_packets(ConnectionState::Play, PacketDirection::S2C, 0x25, <play::UpdateLightResponse<'static> as MD<'static>>::spec_serialize(v) + rest)
            == Some((PacketView::UpdateLightResponse(v), rest)),
        <play::UpdateLightResponse<'static> as MD<'static>>::spec_header() == varint_bytes(0x25),
{
    lemma_packet_play_s2c_2(<play::UpdateLightResponse<'static> as MD<'static>>::spec_serialize(v) + rest);
    reveal(route_update_light_response);
    <play::UpdateLightResponse<'static> as MD<'static>>::lemma_roundtrip(v, rest);
}

/// A `LoginResponse` that is written is read back by `de_packets`.
proof fn lemma_route_login_response(v: play::LoginResponseView, rest: Seq<u8>)
    requires
        <play::LoginResponse<'static> as MD<'static>>::encodable(v),
        <play::LoginResponse<'static> as MD<'static>>::takes_rest() ==> rest.len() == 0,
    ensures
        spec_de_packets(ConnectionState::Play, PacketDirection::S2C, 0x26, <play::LoginResponse<'static> as MD<'static>>::spec_serialize(v) + rest)
            == Some((PacketView::LoginResponse(v), rest)),
        <play::LoginResponse<'static> as MD<'static>>::spec_header() == varint_bytes(0x26),
{
    lemma_packet_play_s2c_2(<play::LoginResponse<'static> as MD<'static>>::spec_serialize(v) + rest);
    reveal(route_login_response);
    <play::LoginResponse<'static> as MD<'static>>::lemma_roundtrip(v, rest);
}

/// A `MapResponse` that is written is read back by `de_packets`.
proof fn lemma_route_map_response(v: play::MapResponse, rest: Seq<u8>)
    requires
        <play::MapResponse as MD<'static>>::encodable(v),
        <play::MapResponse as MD<'static>>::takes_rest() ==> rest.len() == 0,
    ensures
        spec_de_packets(ConnectionState::Play, PacketDirection::S2C, 0x27, <play::MapResponse as MD<'static>>::spec_serialize(v) + rest)
            == Some((PacketView::MapResponse(v), rest)),
        <play::MapResponse as MD<'static>>::spec_header() == varint_bytes(0x27),
{
    lemma_packet_play_s2c_2(<play::MapResponse as MD<'static>>::spec_serialize(v) + rest);
    reveal(route_map_response);
    <play::MapResponse as MD<'static>>::lemma_roundtrip(v, rest);
}

/// A `TradeListResponse` that is written is read back by `de_packets`.
proof fn lemma_route_trade_list_response(v: play::TradeListResponseView, rest: Seq<u8>)
    requires
        <play::TradeListResponse<'static> as MD<'static>>::encodable(v),
        <play::TradeListResponse<'static> as MD<'static>>::takes_rest() ==> rest.len() == 0,
    ensures
        spec_de_packets(ConnectionState::Play, PacketDirection::S2C, 0x28, <play::TradeListResponse<'static> as MD<'static>>::spec_serialize(v) + rest)
            == Some((PacketView::TradeListResponse(v), rest)),
        <play::TradeListResponse<'static> as MD<'static>>::spec_header() == varint_bytes(0x28),
{
    lemma_packet_play_s2c_2(<play::TradeListResponse<'static> as MD<'static>>::spec_serialize(v) + rest);
    reveal(route_trade_list_response);
    <play::TradeListResponse<'static> as MD<'static>>::lemma_roundtrip(v, rest);
}

/// A `RelEntityMoveResponse` that is written is read back by `de_packets`.
proof fn lemma_route_rel_entity_move_response(v: play::RelEntityMoveResponse, rest: Seq<u8>)
    requires
        <play::RelEntityMoveResponse as MD<'static>>::encodable(v),
        <play::RelEntityMoveResponse as MD<'static>>::takes_rest() ==> rest.len() == 0,
    ensures
        spec_de_packets(ConnectionState::Play, PacketDirection::S2C, 0x29, <play::RelEntityMoveResponse as MD<'static>>::spec_serialize(v) + rest)
            == Some((PacketView::RelEntityMoveResponse(v), rest)),
        <play::RelEntityMoveResponse as MD<'static>>::spec_header() == varint_bytes(0x29),
{
    lemma_packet_play_s2c_2(<play::RelEntityMoveResponse as MD<'static>>::spec_serialize(v) + rest);
    reveal(route_rel_entity_move_response);
    <play::RelEntityMoveResponse as MD<'static>>::lemma_roundtrip(v, rest);
}

/// A `EntityMoveLookResponse` that is written is read back by `de_packets`.
proof fn lemma_route_entity_move_look_response(v: play::EntityMoveLookResponse, rest: Seq<u8>)
    requires
        <play::EntityMoveLookResponse as MD<'static>>::encodable(v),
        <play::EntityMoveLookResponse as MD<'static>>::takes_rest() ==> rest.len() == 0,
    ensures
        spec_de_packets(ConnectionState::Play, PacketDirection::S2C, 0x2a, <play::EntityMoveLookResponse as MD<'static>>::spec_serialize(v) + rest)
            == Some((PacketView::EntityMoveLookResponse(v), rest)),
        <play::EntityMoveLookResponse as MD<'static>>::spec_header() == varint_bytes(0x2a),
{
    lemma_packet_play_s2c_2(<play::EntityMoveLookResponse as MD<'static>>::spec_serialize(v) + rest);
    reveal(route_entity_move_look_response);
    <play::EntityMoveLookResponse as MD<'static>>::lemma_roundtrip(v, rest);
}

/// A `EntityLookResponse` that is written is read back by `de_packets`.
proof fn lemma_route_entity_look_response(v: play::EntityLookResponse, rest: Seq<u8>)
    requires
        <play::EntityLookResponse as MD<'static>>::encodable(v),
        <play::EntityLookResponse as MD<'static>>::takes_rest() ==> rest.len() == 0,
    ensures
        spec_de_packets(ConnectionState::Play, PacketDirection::S2C, 0x2b, <play::EntityLookResponse as MD<'static>>::spec_serialize(v) + rest)
            == Some((PacketView::EntityLookResponse(v), rest)),
        <play::EntityLookResponse as MD<'static>>::spec_header() == varint_bytes(0x2b),
{
    lemma_packet_play_s2c_2(<play::EntityLookResponse as MD<'static>>::spec_serialize(v) + rest);
    reveal(route_entity_look_response);
    <play::EntityLookResponse as MD<'static>>::lemma_roundtrip(v, rest);
}

/// A `VehicleMoveResponse` that is written is read back by `de_packets`.
proof fn lemma_route_vehicle_move_response(v: play::VehicleMoveResponse, rest: Seq<u8>)
    requires
        <play::VehicleMoveResponse as MD<'static>>::encodable(v),
        <play::VehicleMoveResponse as MD<'static>>::takes_rest() ==> rest.len() == 0,
    ensures
        spec_de_packets(ConnectionState::Play, PacketDirection::S2C, 0x2c, <play::VehicleMoveResponse as MD<'static>>::spec_serialize(v) + rest)
            == Some((PacketView::VehicleMoveResponse(v), rest)),
        <play::VehicleMoveResponse as MD<'static>>::spec_header() == varint_bytes(0x2c),
{
    lemma_packet_play_s2c_2(<play::VehicleMoveResponse as MD<'static>>::spec_serialize(v) + rest);
    reveal(route_vehicle_move_response);
    <play::VehicleMoveResponse as MD<'static>>::lemma_roundtrip(v, rest);
}

/// A `OpenBookResponse` that is written is read back by `de_packets`.
proof fn lemma_route_open_book_response(v: play::OpenBookResponse, rest: Seq<u8>)
    requires
        <play::OpenBookResponse as MD<'static>>::encodable(v),
        <play::OpenBookResponse as MD<'static>>::takes_rest() ==> rest.len() == 0,
    ensures
        spec_de_packets(ConnectionState::Play, PacketDirection::S2C, 0x2d, <play::OpenBookResponse as MD<'static>>::spec_serialize(v) + rest)
            == Some((PacketView::OpenBookResponse(v), rest)),
        <play::OpenBookResponse as MD<'static>>::spec_header() == varint_bytes(0x2d),
{
    lemma_packet_play_s2c_2(<play::OpenBookResponse as MD<'static>>::spec_serialize(v) + rest);
    reveal(route_open_book_response);
    <play::OpenBookResponse as MD<'static>>::lemma_roundtrip(v, rest);
}

/// A `OpenWindowResponse` that is written is read back by `de_packets`.
proof fn lemma_route_open_window_response(v: play::OpenWindowResponseView, rest: Seq<u8>)
    requires
        <play::OpenWindowResponse<'static> as MD<'static>>::encodable(v),
        <play::OpenWindowResponse<'static> as MD<'static>>::takes_rest() ==> rest.len() == 0,
    ensures
        spec_de_packets(ConnectionState::Play, PacketDirection::S2C, 0x2e, <play::OpenWindowResponse<'static> as MD<'static>>::spec_serialize(v) + rest)
            == Some((PacketView::OpenWindowResponse(v), rest)),
        <play::OpenWindowResponse<'static> as MD<'static>>::spec_header() == varint_bytes(0x2e),
{
    lemma_packet_play_s2c_2(<play::OpenWindowResponse<'static> as MD<'static>>::spec_serialize(v) + rest);
    reveal(route_open_window_response);
    <play::OpenWindowResponse<'static> as MD<'static>>::lemma_roundtrip(v, rest);
}

/// A `OpenSignEntityResponse` that is written is read back by `de_packets`.
proof fn lemma_route_open_sign_entity_response(v: play::OpenSignEntityResponse, rest: Seq<u8>)
    requires
        <play::OpenSignEntityResponse as MD<'static>>::encodable(v),
        <play::OpenSignEntityResponse as MD<'static>>::takes_rest() ==> rest.len() == 0,
    ensures
        spec_de_packets(ConnectionState::Play, PacketDirection::S2C, 0x2f, <play::OpenSignEntityResponse as MD<'static>>::spec_serialize(v) + rest)
            == Some((PacketView::OpenSignEntityResponse(v), rest)),
        <play::OpenSignEntityResponse as MD<'static>>::spec_header() == varint_bytes(0x2f),
{
    lemma_packet_play_s2c_2(<play::OpenSignEntityResponse as MD<'static>>::spec_serialize(v) + rest);
    reveal(route_open_sign_entity_response);
    <play::OpenSignEntityResponse as MD<'static>>::lemma_roundtrip(v, rest);
}

/// A `PlayPingResponse` that is written is read back by `de_packets`.
proof fn lemma_route_play_ping_response(v: play::PlayPingResponse, rest: Seq<u8>)
    requires
        <play::PlayPingResponse as MD<'static>>::encodable(v),
        <play::PlayPingResponse as MD<'static>>::takes_rest() ==> rest.len() == 0,
    ensures
        spec_de_packets(ConnectionState::Play, PacketDirection::S2C, 0x30, <play::PlayPingResponse as MD<'static>>::spec_serialize(v) + rest)
            == Some((PacketView::PlayPingResponse(v), rest)),
        <play::PlayPingResponse as MD<'static>>::spec_header() == varint_bytes(0x30),
{
    lemma_packet_play_s2c_3(<play::PlayPingResponse as MD<'static>>::spec_serialize(v) + rest);
    reveal(route_play_ping_response);
    <play::PlayPingResponse as MD<'static>>::lemma_roundtrip(v, rest);
}

/// A `CraftRecipeResponse` that is written is read back by `de_packets`.
proof fn lemma_route_craft_recipe_response(v: play::CraftRecipeResponseView, rest: Seq<u8>)
    requires
        <play::CraftRecipeResponse<'static> as MD<'static>>::encodable(v),
        <play::CraftRecipeResponse<'static> as MD<'static>>::takes_rest() ==> rest.len() == 0,
    ensures
        spec_de_packets(ConnectionState::Play, PacketDirection::S2C, 0x31, <play::CraftRecipeResponse<'static> as MD<'static>>::spec_serialize(v) + rest)
            == Some((PacketView::CraftRecipeResponse(v), rest)),
        <play::CraftRecipeResponse<'static> as MD<'static>>::spec_header() == varint_bytes(0x31),
{
    lemma_packet_play_s2c_3(<play::CraftRecipeResponse<'static> as MD<'static>>::spec_serialize(v) + rest);
    reveal(route_craft_recipe_response);
    <play::CraftRecipeResponse<'static> as MD<'static>>::lemma_roundtrip(v, rest);
}

/// A `AbilitiesResponse` that is written is read back by `de_packets`.
proof fn lemma_route_abilities_response(v: play::AbilitiesResponse, rest: Seq<u8>)
    requires
        <play::AbilitiesResponse as MD<'static>>::encodable(v),
        <play::AbilitiesResponse as MD<'static>>::takes_rest() ==> rest.len() == 0,
    ensures
        spec_de_packets(ConnectionState::Play, PacketDirection::S2C, 0x32, <play::AbilitiesResponse as MD<'static>>::spec_serialize(v) + rest)
            == Some((PacketView::AbilitiesResponse(v), rest)),
        <play::AbilitiesResponse as MD<'static>>::spec_header() == varint_bytes(0x32),
{
    lemma_packet_play_s2c_3(<play::AbilitiesResponse as MD<'static>>::spec_serialize(v) + rest);
    reveal(route_abilities_response);
    <play::AbilitiesResponse as MD<'static>>::lemma_roundtrip(v, rest);
}

/// A `EndCombatEventResponse` that is written is read back by `de_packets`.
proof fn lemma_route_end_combat_event_response(v: play::EndCombatEventResponse, rest: Seq<u8>)
    requires
        <play::EndCombatEventResponse as MD<'static>>::encodable(v),
        <play::EndCombatEventResponse as MD<'static>>::takes_rest() ==> rest.len() == 0,
    ensures
        spec_de_packets(ConnectionState::Play, PacketDirection::S2C, 0x33, <play::EndCombatEventResponse as MD<'static>>::spec_serialize(v) + rest)
            == Some((PacketView::EndCombatEventResponse(v), rest)),
        <play::EndCombatEventResponse as MD<'static>>::spec_header() == varint_bytes(0x33),
{
    lemma_packet_play_s2c_3(<play::EndCombatEventResponse as MD<'static>>::spec_serialize(v) + rest);
    reveal(route_end_combat_event_response);
    <play::EndCombatEventResponse as MD<'static>>::lemma_roundtrip(v, rest);
}

/// A `EnterCombatEventResponse` that is written is read back by `de_packets`.
proof fn lemma_route_enter_combat_event_response(v: play::EnterCombatEventResponse, rest: Seq<u8>)
    requires
        <play::EnterCombatEventResponse as MD<'static>>::encodable(v),
        <play::EnterCombatEventResponse as MD<'static>>::takes_rest() ==> rest.len() == 0,
    ensures
        spec_de_packets(ConnectionState::Play, PacketDirection::S2C, 0x34, <play::EnterCombatEventResponse as MD<'static>>::spec_serialize(v) + rest)
            == Some((PacketView::EnterCombatEventResponse(v), rest)),
        <play::EnterCombatEventResponse as MD<'static>>::spec_header() == varint_bytes(0x34),
{
    lemma_packet_play_s2c_3(<play::EnterCombatEventResponse as MD<'static>>::spec_serialize(v) + rest);
    reveal(route_enter_combat_event_response);
    <play::EnterCombatEventResponse as MD<'static>>::lemma_roundtrip(v, rest);
}

/// A `DeathCombatEventResponse` that is written is read back by `de_packets`.
proof fn lemma_route_death_combat_event_response(v: play::DeathCombatEventResponseView, rest: Seq<u8>)
    requires
        <play::DeathCombatEventResponse<'static> as MD<'static>>::encodable(v),
        <play::DeathCombatEventResponse<'static> as MD<'static>>::takes_rest() ==> rest.len() == 0,
    ensures
        spec_de_packets(ConnectionState::Play, PacketDirection::S2C, 0x35, <play::DeathCombatEventResponse<'static> as MD<'static>>::spec_serialize(v) + rest)
            == Some((PacketView::DeathCombatEventResponse(v), rest)),
        <play::DeathCombatEventResponse<'static> as MD<'static>>::spec_header() == varint_bytes(0x35),
{
    lemma_packet_play_s2c_3(<play::DeathCombatEventResponse<'static> as MD<'static>>::spec_serialize(v) + rest);
    reveal(route_death_combat_event_response);
    <play::DeathCombatEventResponse<'static> as MD<'static>>::lemma_roundtrip(v, rest);
}

/// A `PlayerInfoResponse` that is written is read back by `de_packets`.
proof fn lemma_route_player_info_response(v: play::PlayerInfoResponseView, rest: Seq<u8>)
    requires
        <play::PlayerInfoResponse as MD<'static>>::encodable(v),
        <play::PlayerInfoResponse as MD<'static>>::takes_rest() ==> rest.len() == 0,
    ensures
        spec_de_packets(ConnectionState::Play, PacketDirection::S2C, 0x36, <play::PlayerInfoResponse as MD<'static>>::spec_serialize(v) + rest)
            == Some((PacketView::PlayerInfoResponse(v), rest)),
        <play::PlayerInfoResponse as MD<'static>>::spec_header() == varint_bytes(0x36),
{
    lemma_packet_play_s2c_3(<play::PlayerInfoResponse as MD<'static>>::spec_serialize(v) + rest);
    reveal(route_player_info_response);
    <play::PlayerInfoResponse as MD<'static>>::lemma_roundtrip(v, rest);
}

/// A `FacePlayerResponse` that is written is read back by `de_packets`.
proof fn lemma_route_face_player_response(v: play::FacePlayerResponse, rest: Seq<u8>)
    requires
        <play::FacePlayerResponse as MD<'static>>::encodable(v),
        <play::FacePlayerResponse as MD<'static>>::takes_rest() ==> rest.len() == 0,
    ensures
        spec_de_packets(ConnectionState::Play, PacketDirection::S2C, 0x37, <play::FacePlayerResponse as MD<'static>>::spec_serialize(v) + rest)
            == Some((PacketView::FacePlayerResponse(v), rest)),
        <play::FacePlayerResponse as MD<'static>>::spec_header() == varint_bytes(0x37),
{
    lemma_packet_play_s2c_3(<play::FacePlayerResponse as MD<'static>>::spec_serialize(v) + rest);
    reveal(route_face_player_response);
    <play::FacePlayerResponse as MD<'static>>::lemma_roundtrip(v, rest);
}

/// A `PositionResponse` that is written is read back by `de_packets`.
proof fn lemma_route_position_response(v: play::PositionResponse, rest: Seq<u8>)
    requires
        <play::PositionResponse as MD<'static>>::encodable(v),
        <play::PositionResponse as MD<'static>>::takes_rest() ==> rest.len() == 0,
    ensures
        spec_de_packets(ConnectionState::Play, PacketDirection::S2C, 0x38, <play::PositionResponse as MD<'static>>::spec_serialize(v) + rest)
            == Some((PacketView::PositionResponse(v), rest)),
        <play::PositionResponse as MD<'static>>::spec_header() == varint_bytes(0x38),
{
    lemma_packet_play_s2c_3(<play::PositionResponse as MD<'static>>::spec_serialize(v) + rest);
    reveal(route_position_response);
    <play::PositionResponse as MD<'static>>::lemma_roundtrip(v, rest);
}

/// A `UnlockRecipesResponse` that is written is read back by `de_packets`.
proof fn lemma_route_unlock_recipes_response(v: play::UnlockRecipesResponse, rest: Seq<u8>)
    requires
        <play::UnlockRecipesResponse as MD<'static>>::encodable(v),
        <play::UnlockRecipesResponse as MD<'static>>::takes_rest() ==> rest.len() == 0,
    ensures
        spec_de_packets(ConnectionState::Play, PacketDirection::S2C, 0x39, <play::UnlockRecipesResponse as MD<'static>>::spec_serialize(v) + rest)
            == Some((PacketView::UnlockRecipesResponse(v), rest)),
        <play::UnlockRecipesResponse as MD<'static>>::spec_header() == varint_bytes(0x39),
{
    lemma_packet_play_s2c_3(<play::UnlockRecipesResponse as MD<'static>>::spec_serialize(v) + rest);
    reveal(route_unlock_recipes_response);
    <play::UnlockRecipesResponse as MD<'static>>::lemma_roundtrip(v, rest);
}

/// A `EntityDestroyResponse` that is written is read back by `de_packets`.
proof fn lemma_route_entity_destroy_response(v: play::EntityDestroyResponseView, rest: Seq<u8>)
    requires
        <play::EntityDestroyResponse as MD<'static>>::encodable(v),
        <play::EntityDestroyResponse as MD<'static>>::takes_rest() ==> rest.len() == 0,
    ensures
        spec_de_packets(ConnectionState::Play, PacketDirection::S2C, 0x3a, <play::EntityDestroyResponse as MD<'static>>::spec_serialize(v) + rest)
            == Some((PacketView::EntityDestroyResponse(v), rest)),
        <play::EntityDestroyResponse as MD<'static>>::spec_header() == varint_bytes(0x3a),
{
    lemma_packet_play_s2c_3(<play::EntityDestroyResponse as MD<'static>>::spec_serialize(v) + rest);
    reveal(route_entity_destroy_response);
    <play::EntityDestroyResponse as MD<'static>>::lemma_roundtrip(v, rest);
}

/// A `RemoveEntityEffectResponse` that is written is read back by `de_packets`.
proof fn lemma_route_remove_entity_effect_response(v: play::RemoveEntityEffectResponse, rest: Seq<u8>)
    requires
        <play::RemoveEntityEffectResponse as MD<'static>>::encodable(v),
        <play::RemoveEntityEffectResponse as MD<'static>>::takes_rest() ==> rest.len() == 0,
    ensures
        spec_de_packets(ConnectionState::Play, PacketDirection::S2C, 0x3b, <play::RemoveEntityEffectResponse as MD<'static>>::spec_serialize(v) + rest)
            == Some((PacketView::RemoveEntityEffectResponse(v), rest)),
        <play::RemoveEntityEffectResponse as MD<'static>>::spec_header() == varint_bytes(0x3b),
{
    lemma_packet_play_s2c_3(<play::RemoveEntityEffectResponse as MD<'static>>::spec_serialize(v) + rest);
    reveal(route_remove_entity_effect_response);
    <play::RemoveEntityEffectResponse as MD<'static>>::lemma_roundtrip(v, rest);
}

/// A `ResourcePackSendResponse` that is written is read back by `de_packets`.
proof fn lemma_route_resource_pack_send_response(v: play::ResourcePackSendResponseView, rest: Seq<u8>)
    requires
        <play::ResourcePackSendResponse<'static> as MD<'static>>::encodable(v),
        <play::ResourcePackSendResponse<'static> as MD<'static>>::takes_rest() ==> rest.len() == 0,
    ensures
        spec_de_packets(ConnectionState::Play, PacketDirection::S2C, 0x3c, <play::ResourcePackSendResponse<'static> as MD<'static>>::spec_serialize(v) + rest)
            == Some((PacketView::ResourcePackSendResponse(v), rest)),
        <play::ResourcePackSendResponse<'static> as MD<'static>>::spec_header() == varint_bytes(0x3c),
{
    lemma_packet_play_s2c_3(<play::ResourcePackSendResponse<'static> as MD<'static>>::spec_serialize(v) + rest);
    reveal(route_resource_pack_send_response);
    <play::ResourcePackSendResponse<'static> as MD<'static>>::lemma_roundtrip(v, rest);
}

/// A `RespawnResponse` that is written is read back by `de_packets`.
proof fn lemma_route_respawn_response(v: play::RespawnResponseView, rest: Seq<u8>)
    requires
        <play::RespawnResponse<'static> as MD<'static>>::encodable(v),
        <play::RespawnResponse<'static> as MD<'static>>::takes_rest() ==> rest.len() == 0,
    ensures
        spec_de_packets(ConnectionState::Play, PacketDirection::S2C, 0x3d, <play::RespawnResponse<'static> as MD<'static>>::spec_serialize(v) + rest)
            == Some((PacketView::RespawnResponse(v), rest)),
        <play::RespawnResponse<'static> as MD<'static>>::spec_header() == varint_bytes(0x3d),
{
    lemma_packet_play_s2c_3(<play::RespawnResponse<'static> as MD<'static>>::spec_serialize(v) + rest);
    reveal(route_respawn_response);
    <play::RespawnResponse<'static> as MD<'static>>::lemma_roundtrip(v, rest);
}

/// A `EntityHeadRotationResponse` that is written is read back by `de_packets`.
proof fn lemma_route_entity_head_rotation_response(v: play::EntityHeadRotationResponse, rest: Seq<u8>)
    requires
        <play::EntityHeadRotationResponse as MD<'static>>::encodable(v),
        <play::EntityHeadRotationResponse as MD<'static>>::takes_rest() ==> rest.len() == 0,
    ensures
        spec_de_packets(ConnectionState::Play, PacketDirection::S2C, 0x3e, <play::EntityHeadRotationResponse as MD<'static>>::spec_serialize(v) + rest)
            == Some((PacketView::EntityHeadRotationResponse(v), rest)),
        <play::EntityHeadRotationResponse as MD<'static>>::spec_header() == varint_bytes(0x3e),
{
    lemma_packet_play_s2c_3(<play::EntityHeadRotationResponse as MD<'static>>::spec_serialize(v) + rest);
    reveal(route_entity_head_rotation_response);
    <play::EntityHeadRotationResponse as MD<'static>>::lemma_roundtrip(v, rest);
}

/// A `MultiBlockChangeResponse` that is written is read back by `de_packets`.
proof fn lemma_route_multi_block_change_response(v: play::MultiBlockChangeResponseView, rest: Seq<u8>)
    requires
        <play::MultiBlockChangeResponse as MD<'static>>::encodable(v),
        <play::MultiBlockChangeResponse as MD<'static>>::takes_rest() ==> rest.len() == 0,
    ensures
        spec_de_packets(ConnectionState::Play, PacketDirection::S2C, 0x3f, <play::MultiBlockChangeResponse as MD<'static>>::spec_serialize(v) + rest)
            == Some((PacketView::MultiBlockChangeResponse(v), rest)),
        <play::MultiBlockChangeResponse as MD<'static>>::spec_header() == varint_bytes(0x3f),
{
    lemma_packet_play_s2c_3(<play::MultiBlockChangeResponse as MD<'static>>::spec_serialize(v) + rest);
    reveal(route_multi_block_change_response);
    <play::MultiBlockChangeResponse as MD<'static>>::lemma_roundtrip(v, rest);
}

/// A `SelectAdvancementTabResponse` that is written is read back by `de_packets`.
proof fn lemma_route_select_advancement_tab_response(v: play::SelectAdvancementTabResponseView, rest: Seq<u8>)
    requires
        <play::SelectAdvancementTabResponse<'static> as MD<'static>>::encodable(v),
        <play::SelectAdvancementTabResponse<'static> as MD<'static>>::takes_rest() ==> rest.len() == 0,
    ensures
        spec_de_packets(ConnectionState::Play, PacketDirection::S2C, 0x40, <play::SelectAdvancementTabResponse<'static> as MD<'static>>::spec_serialize(v) + rest)
            == Some((PacketView::SelectAdvancementTabResponse(v), rest)),
        <play::SelectAdvancementTabResponse<'static> as MD<'static>>::spec_header() == varint_bytes(0x40),
{
    lemma_packet_play_s2c_4(<play::SelectAdvancementTabResponse<'static> as MD<'static>>::spec_serialize(v) + rest);
    reveal(route_select_advancement_tab_response);
    <play::SelectAdvancementTabResponse<'static> as MD<'static>>::lemma_roundtrip(v, rest);
}

/// A `ActionBarResponse` that is written is read back by `de_packets`.
proof fn lemma_route_action_bar_response(v: play::ActionBarResponseView, rest: Seq<u8>)
    requires
        <play::ActionBarResponse<'static> as MD<'static>>::encodable(v),
        <play::ActionBarResponse<'static> as MD<'static>>::takes_rest() ==> rest.len() == 0,
    ensures
        spec_de_packets(ConnectionState::Play, PacketDirection::S2C, 0x41, <play::ActionBarResponse<'static> as MD<'static>>::spec_serialize(v) + rest)
            == Some((PacketView::ActionBarResponse(v), rest)),
        <play::ActionBarResponse<'static> as MD<'static>>::spec_header() == varint_bytes(0x41),
{
    lemma_packet_play_s2c_4(<play::ActionBarResponse<'static> as MD<'static>>::spec_serialize(v) + rest);
    reveal(route_action_bar_response);
    <play::ActionBarResponse<'static> as MD<'static>>::lemma_roundtrip(v, rest);
}

/// A `WorldBorderCenterResponse` that is written is read back by `de_packets`.
proof fn lemma_route_world_border_center_response(v: play::WorldBorderCenterResponse, rest: Seq<u8>)
    requires
        <play::WorldBorderCenterResponse as MD<'static>>::encodable(v),
        <play::WorldBorderCenterResponse as MD<'static>>::takes_rest() ==> rest.len() == 0,
    ensures
        spec_de_packets(ConnectionState::Play, PacketDirection::S2C, 0x42, <play::WorldBorderCenterResponse as MD<'static>>::spec_serialize(v) + rest)
            == Some((PacketView::WorldBorderCenterResponse(v), rest)),
        <play::WorldBorderCenterResponse as MD<'static>>::spec_header() == varint_bytes(0x42),
{
    lemma_packet_play_s2c_4(<play::WorldBorderCenterResponse as MD<'static>>::spec_serialize(v) + rest);
    reveal(route_world_border_center_response);
    <play::WorldBorderCenterResponse as MD<'static>>::lemma_roundtrip(v, rest);
}

/// A `WorldBorderLerpSizeResponse` that is written is read back by `de_packets`.
proof fn lemma_route_world_border_lerp_size_response(v: play::WorldBorderLerpSizeResponse, rest: Seq<u8>)
    requires
        <play::WorldBorderLerpSizeResponse as MD<'static>>::encodable(v),
        <play::WorldBorderLerpSizeResponse as MD<'static>>::takes_rest() ==> rest.len() == 0,
    ensures
        spec_de_packets(ConnectionState::Play, PacketDirection::S2C, 0x43, <play::WorldBorderLerpSizeResponse as MD<'static>>::spec_serialize(v) + rest)
            == Some((PacketView::WorldBorderLerpSizeResponse(v), rest)),
        <play::WorldBorderLerpSizeResponse as MD<'static>>::spec_header() == varint_bytes(0x43),
{
    lemma_packet_play_s2c_4(<play::WorldBorderLerpSizeResponse as MD<'static>>::spec_serialize(v) + rest);
    reveal(route_world_border_lerp_size_response);
    <play::WorldBorderLerpSizeResponse as MD<'static>>::lemma_roundtrip(v, rest);
}

/// A `WorldBorderSizeResponse` that is written is read back by `de_packets`.
proof fn lemma_route_world_border_size_response(v: play::WorldBorderSizeResponse, rest: Seq<u8>)
    requires
        <play::WorldBorderSizeResponse as MD<'static>>::encodable(v),
        <play::WorldBorderSizeResponse as MD<'static>>::takes_rest() ==> rest.len() == 0,
    ensures
        spec_de_packets(ConnectionState::Play, PacketDirection::S2C, 0x44, <play::WorldBorderSizeResponse as MD<'static>>::spec_serialize(v) + rest)
            == Some((PacketView::WorldBorderSizeResponse(v), rest)),
        <play::WorldBorderSizeResponse as MD<'static>>::spec_header() == varint_bytes(0x44),
{
    lemma_packet_play_s2c_4(<play::WorldBorderSizeResponse as MD<'static>>::spec_serialize(v) + rest);
    reveal(route_world_border_size_response);
    <play::WorldBorderSizeResponse as MD<'static>>::lemma_roundtrip(v, rest);
}

/// A `WorldBorderWarningDelayResponse` that is written is read back by `de_packets`.
proof fn lemma_route_world_border_warning_delay_response(v: play::WorldBorderWarningDelayResponse, rest: Seq<u8>)
    requires
        <play::WorldBorderWarningDelayResponse as MD<'static>>::encodable(v),
        <play::WorldBorderWarningDelayResponse as MD<'static>>::takes_rest() ==> rest.len() == 0,
    ensures
        spec_de_packets(ConnectionState::Play, PacketDirection::S2C, 0x45, <play::WorldBorderWarningDelayResponse as MD<'static>>::spec_serialize(v) + rest)
            == Some((PacketView::WorldBorderWarningDelayResponse(v), rest)),
        <play::WorldBorderWarningDelayResponse as MD<'static>>::spec_header() == varint_bytes(0x45),
{
    lemma_packet_play_s2c_4(<play::WorldBorderWarningDelayResponse as MD<'static>>::spec_serialize(v) + rest);
    reveal(route_world_border_warning_delay_response);
    <play::WorldBorderWarningDelayResponse as MD<'static>>::lemma_roundtrip(v, rest);
}

/// A `WorldBorderWarningReachResponse` that is written is read back by `de_packets`.
proof fn lemma_route_world_border_warning_reach_response(v: play::WorldBorderWarningReachResponse, rest: Seq<u8>)
    requires
        <play::WorldBorderWarningReachResponse as MD<'static>>::encodable(v),
        <play::WorldBorderWarningReachResponse as MD<'static>>::takes_rest() ==> rest.len() == 0,
    ensures
        spec_de_packets(ConnectionState::Play, PacketDirection::S2C, 0x46, <play::WorldBorderWarningReachResponse as MD<'static>>::spec_serialize(v) + rest)
            == Some((PacketView::WorldBorderWarningReachResponse(v), rest)),
        <play::WorldBorderWarningReachResponse as MD<'static>>::spec_header() == varint_bytes(0x46),
{
    lemma_packet_play_s2c_4(<play::WorldBorderWarningReachResponse as MD<'static>>::spec_serialize(v) + rest);
    reveal(route_world_border_warning_reach_response);
    <play::WorldBorderWarningReachResponse as MD<'static>>::lemma_roundtrip(v, rest);
}

/// A `CameraResponse` that is written is read back by `de_packets`.
proof fn lemma_route_camera_response(v: play::CameraResponse, rest: Seq<u8>)
    requires
        <play::CameraResponse as MD<'static>>::encodable(v),
        <play::CameraResponse as MD<'static>>::takes_rest() ==> rest.len() == 0,
    ensures
        spec_de_packets(ConnectionState::Play, PacketDirection::S2C, 0x47, <play::CameraResponse as MD<'static>>::spec_serialize(v) + rest)
            == Some((PacketView::CameraResponse(v), rest)),
        <play::CameraResponse as MD<'static>>::spec_header() == varint_bytes(0x47),
{
    lemma_packet_play_s2c_4(<play::CameraResponse as MD<'static>>::spec_serialize(v) + rest);
    reveal(route_camera_response);
    <play::CameraResponse as MD<'static>>::lemma_roundtrip(v, rest);
}

/// A `HeldItemSlotResponse` that is written is read back by `de_packets`.
proof fn lemma_route_held_item_slot_response(v: play::HeldItemSlotResponse, rest: Seq<u8>)
    requires
        <play::HeldItemSlotResponse as MD<'static>>::encodable(v),
        <play::HeldItemSlotResponse as MD<'static>>::takes_rest() ==> rest.len() == 0,
    ensures
        spec_de_packets(ConnectionState::Play, PacketDirection::S2C, 0x48, <play::HeldItemSlotResponse as MD<'static>>::spec_serialize(v) + rest)
            == Some((PacketView::HeldItemSlotResponse(v), rest)),
        <play::HeldItemSlotResponse as MD<'static>>::spec_header() == varint_bytes(0x48),
{
    lemma_packet_play_s2c_4(<play::HeldItemSlotResponse as MD<'static>>::spec_serialize(v) + rest);
    reveal(route_held_item_slot_response);
    <play::HeldItemSlotResponse as MD<'static>>::lemma_roundtrip(v, rest);
}

/// A `UpdateViewPositionResponse` that is written is read back by `de_packets`.
proof fn lemma_route_update_view_position_response(v: play::UpdateViewPositionResponse, rest: Seq<u8>)
    requires
        <play::UpdateViewPositionResponse as MD<'static>>::encodable(v),
        <play::UpdateViewPositionResponse as MD<'static>>::takes_rest() ==> rest.len() == 0,
    ensures
        spec_de_packets(ConnectionState::Play, PacketDirection::S2C, 0x49, <play::UpdateViewPositionResponse as MD<'static>>::spec_serialize(v) + rest)
            == Some((PacketView::UpdateViewPositionResponse(v), rest)),
        <play::UpdateViewPositionResponse as MD<'static>>::spec_header() == varint_bytes(0x49),
{
    lemma_packet_play_s2c_4(<play::UpdateViewPositionResponse as MD<'static>>::spec_serialize(v) + rest);
    reveal(route_update_view_position_response);
    <play::UpdateViewPositionResponse as MD<'static>>::lemma_roundtrip(v, rest);
}

/// A `UpdateViewDistanceResponse` that is written is read back by `de_packets`.
proof fn lemma_route_update_view_distance_response(v: play::UpdateViewDistanceResponse, rest: Seq<u8>)
    requires
        <play::UpdateViewDistanceResponse as MD<'static>>::encodable(v),
        <play::UpdateViewDistanceResponse as MD<'static>>::takes_rest() ==> rest.len() == 0,
    ensures
        spec_de_packets(ConnectionState::Play, PacketDirection::S2C, 0x4a, <play::UpdateViewDistanceResponse as MD<'static>>::spec_serialize(v) + rest)
            == Some((PacketView::UpdateViewDistanceResponse(v), rest)),
        <play::UpdateViewDistanceResponse as MD<'static>>::spec_header() == varint_bytes(0x4a),
{
    lemma_packet_play_s2c_4(<play::UpdateViewDistanceResponse as MD<'static>>::spec_serialize(v) + rest);
    reveal(route_update_view_distance_response);
    <play::UpdateViewDistanceResponse as MD<'static>>::lemma_roundtrip(v, rest);
}

/// A `SpawnPositionResponse` that is written is read back by `de_packets`.
proof fn lemma_route_spawn_position_response(v: play::SpawnPositionResponse, rest: Seq<u8>)
    requires
        <play::SpawnPositionResponse as MD<'static>>::encodable(v),
        <play::SpawnPositionResponse as MD<'static>>::takes_rest() ==> rest.len() == 0,
    ensures
        spec_de_packets(ConnectionState::Play, PacketDirection::S2C, 0x4b, <play::SpawnPositionResponse as MD<'static>>::spec_serialize(v) + rest)
            == Some((PacketView::SpawnPositionResponse(v), rest)),
        <play::SpawnPositionResponse as MD<'static>>::spec_header() == varint_bytes(0x4b),
{
    lemma_packet_play_s2c_4(<play::SpawnPositionResponse as MD<'static>>::spec_serialize(v) + rest);
    reveal(route_spawn_position_response);
    <play::SpawnPositionResponse as MD<'static>>::lemma_roundtrip(v, rest);
}

/// A `ScoreboardDisplayObjectiveResponse` that is written is read back by `de_packets`.
proof fn lemma_route_scoreboard_display_objective_response(v: play::ScoreboardDisplayObjectiveResponseView, rest: Seq<u8>)
    requires
        <play::ScoreboardDisplayObjectiveResponse<'static> as MD<'static>>::encodable(v),
        <play::ScoreboardDisplayObjectiveResponse<'static> as MD<'static>>::takes_rest() ==> rest.len() == 0,
    ensures
        spec_de_packets(ConnectionState::Play, PacketDirection::S2C, 0x4c, <play::ScoreboardDisplayObjectiveResponse<'static> as MD<'static>>::spec_serialize(v) + rest)
            == Some((PacketView::ScoreboardDisplayObjectiveResponse(v), rest)),
        <play::ScoreboardDisplayObjectiveResponse<'static> as MD<'static>>::spec_header() == varint_bytes(0x4c),
{
    lemma_packet_play_s2c_4(<play::ScoreboardDisplayObjectiveResponse<'static> as MD<'static>>::spec_serialize(v) + rest);
    reveal(route_scoreboard_display_objective_response);
    <play::ScoreboardDisplayObjectiveResponse<'static> as MD<'static>>::lemma_roundtrip(v, rest);
}

/// A `EntityMetadataResponse` that is written is read back by `de_packets`.
proof fn lemma_route_entity_metadata_response(v: play::EntityMetadataResponse, rest: Seq<u8>)
    requires
        <play::EntityMetadataResponse as MD<'static>>::encodable(v),
        <play::EntityMetadataResponse as MD<'static>>::takes_rest() ==> rest.len() == 0,
    ensures
        spec_de_packets(ConnectionState::Play, PacketDirection::S2C, 0x4d, <play::EntityMetadataResponse as MD<'static>>::spec_serialize(v) + rest)
            == Some((PacketView::EntityMetadataResponse(v), rest)),
        <play::EntityMetadataResponse as MD<'static>>::spec_header() == varint_bytes(0x4d),
{
    lemma_packet_play_s2c_4(<play::EntityMetadataResponse as MD<'static>>::spec_serialize(v) + rest);
    reveal(route_entity_metadata_response);
    <play::EntityMetadataResponse as MD<'static>>::lemma_roundtrip(v, rest);
}

/// A `AttachEntityResponse` that is written is read back by `de_packets`.
proof fn lemma_route_attach_entity_response(v: play::AttachEntityResponse, rest: Seq<u8>)
    requires
        <play::AttachEntityResponse as MD<'static>>::encodable(v),
        <play::AttachEntityResponse as MD<'static>>::takes_rest() ==> rest.len() == 0,
    ensures
        spec_de_packets(ConnectionState::Play, PacketDirection::S2C, 0x4e, <play::AttachEntityResponse as MD<'static>>::spec_serialize(v) + rest)
            == Some((PacketView::AttachEntityResponse(v), rest)),
        <play::AttachEntityResponse as MD<'static>>::spec_header() == varint_bytes(0x4e),
{
    lemma_packet_play_s2c_4(<play::AttachEntityResponse as MD<'static>>::spec_serialize(v) + rest);
    reveal(route_attach_entity_response);
    <play::AttachEntityResponse as MD<'static>>::lemma_roundtrip(v, rest);
}

/// A `EntityVelocityResponse` that is written is read back by `de_packets`.
proof fn lemma_route_entity_velocity_response(v: play::EntityVelocityResponse, rest: Seq<u8>)
    requires
        <play::EntityVelocityResponse as MD<'static>>::encodable(v),
        <play::EntityVelocityResponse as MD<'static>>::takes_rest() ==> rest.len() == 0,
    ensures
        spec_de_packets(ConnectionState::Play, PacketDirection::S2C, 0x4f, <play::EntityVelocityResponse as MD<'static>>::spec_serialize(v) + rest)
            == Some((PacketView::EntityVelocityResponse(v), rest)),
        <play::EntityVelocityResponse as MD<'static>>::spec_header() == varint_bytes(0x4f),
{
    lemma_packet_play_s2c_4(<play::EntityVelocityResponse as MD<'static>>::spec_serialize(v) + rest);
    reveal(route_entity_velocity_response);
    <play::EntityVelocityResponse as MD<'static>>::lemma_roundtrip(v, rest);
}

/// A `EntityEquipmentResponse` that is written is read back by `de_packets`.
proof fn lemma_route_entity_equipment_response(v: play::EntityEquipmentResponse, rest: Seq<u8>)
    requires
        <play::EntityEquipmentResponse as MD<'static>>::encodable(v),
        <play::EntityEquipmentResponse as MD<'static>>::takes_rest() ==> rest.len() == 0,
    ensures
        spec_de_packets(ConnectionState::Play, PacketDirection::S2C, 0x50, <play::EntityEquipmentResponse as MD<'static>>::spec_serialize(v) + rest)
            == Some((PacketView::EntityEquipmentResponse(v), rest)),
        <play::EntityEquipmentResponse as MD<'static>>::spec_header() == varint_bytes(0x50),
{
    lemma_packet_play_s2c_5(<play::EntityEquipmentResponse as MD<'static>>::spec_serialize(v) + rest);
    reveal(route_entity_equipment_response);
    <play::EntityEquipmentResponse as MD<'static>>::lemma_roundtrip(v, rest);
}

/// A `ExperienceResponse` that is written is read back by `de_packets`.
proof fn lemma_route_experience_response(v: play::ExperienceResponse, rest: Seq<u8>)
    requires
        <play::ExperienceResponse as MD<'static>>::encodable(v),
        <play::ExperienceResponse as MD<'static>>::takes_rest() ==> rest.len() == 0,
    ensures
        spec_de_packets(ConnectionState::Play, PacketDirection::S2C, 0x51, <play::ExperienceResponse as MD<'static>>::spec_serialize(v) + rest)
            == Some((PacketView::ExperienceResponse(v), rest)),
        <play::ExperienceResponse as MD<'static>>::spec_header() == varint_bytes(0x51),
{
    lemma_packet_play_s2c_5(<play::ExperienceResponse as MD<'static>>::spec_serialize(v) + rest);
    reveal(route_experience_response);
    <play::ExperienceResponse as MD<'static>>::lemma_roundtrip(v, rest);
}

/// A `UpdateHealthResponse` that is written is read back by `de_packets`.
proof fn lemma_route_update_health_response(v: play::UpdateHealthResponse, rest: Seq<u8>)
    requires
        <play::UpdateHealthResponse as MD<'static>>::encodable(v),
        <play::UpdateHealthResponse as MD<'static>>::takes_rest() ==> rest.len() == 0,
    ensures
        spec_de_packets(ConnectionState::Play, PacketDirection::S2C, 0x52, <play::UpdateHealthResponse as MD<'static>>::spec_serialize(v) + rest)
            == Some((PacketView::UpdateHealthResponse(v), rest)),
        <play::UpdateHealthResponse as MD<'static>>::spec_header() == varint_bytes(0x52),
{
    lemma_packet_play_s2c_5(<play::UpdateHealthResponse as MD<'static>>::spec_serialize(v) + rest);
    reveal(route_update_health_response);
    <play::UpdateHealthResponse as MD<'static>>::lemma_roundtrip(v, rest);
}

/// A `ScoreboardObjectiveResponse` that is written is read back by `de_packets`.
proof fn lemma_route_scoreboard_objective_response(v: play::ScoreboardObjectiveResponse, rest: Seq<u8>)
    requires
        <play::ScoreboardObjectiveResponse as MD<'static>>::encodable(v),
        <play::ScoreboardObjectiveResponse as MD<'static>>::takes_rest() ==> rest.len() == 0,
    ensures
        spec_de_packets(ConnectionState::Play, PacketDirection::S2C, 0x53, <play::ScoreboardObjectiveResponse as MD<'static>>::spec_serialize(v) + rest)
            == Some((PacketView::ScoreboardObjectiveResponse(v), rest)),
        <play::ScoreboardObjectiveResponse as MD<'static>>::spec_header() == varint_bytes(0x53),
{
    lemma_packet_play_s2c_5(<play::ScoreboardObjectiveResponse as MD<'static>>::spec_serialize(v) + rest);
    reveal(route_scoreboard_objective_response);
    <play::ScoreboardObjectiveResponse as MD<'static>>::lemma_roundtrip(v, rest);
}

/// A `SetPassengersResponse` that is written is read back by `de_packets`.
proof fn lemma_route_set_passengers_response(v: play::SetPassengersResponseView, rest: Seq<u8>)
    requires
        <play::SetPassengersResponse as MD<'static>>::encodable(v),
        <play::SetPassengersResponse as MD<'static>>::takes_rest() ==> rest.len() == 0,
    ensures
        spec_de_packets(ConnectionState::Play, PacketDirection::S2C, 0x54, <play::SetPassengersResponse as MD<'static>>::spec_serialize(v) + rest)
            == Some((PacketView::SetPassengersResponse(v), rest)),
        <play::SetPassengersResponse as MD<'static>>::spec_header() == varint_bytes(0x54),
{
    lemma_packet_play_s2c_5(<play::SetPassengersResponse as MD<'static>>::spec_serialize(v) + rest);
    reveal(route_set_passengers_response);
    <play::SetPassengersResponse as MD<'static>>::lemma_roundtrip(v, rest);
}

/// A `TeamsResponse` that is written is read back by `de_packets`.
proof fn lemma_route_teams_response(v: play::TeamsResponse, rest: Seq<u8>)
    requires
        <play::TeamsResponse as MD<'static>>::encodable(v),
        <play::TeamsResponse as MD<'static>>::takes_rest() ==> rest.len() == 0,
    ensures
        spec_de_packets(ConnectionState::Play, PacketDirection::S2C, 0x55, <play::TeamsResponse as MD<'static>>::spec_serialize(v) + rest)
            == Some((PacketView::TeamsResponse(v), rest)),
        <play::TeamsResponse as MD<'static>>::spec_header() == varint_bytes(0x55),
{
    lemma_packet_play_s2c_5(<play::TeamsResponse as MD<'static>>::spec_serialize(v) + rest);
    reveal(route_teams_response);
    <play::TeamsResponse as MD<'static>>::lemma_roundtrip(v, rest);
}

/// A `ScoreboardScoreResponse` that is written is read back by `de_packets`.
proof fn lemma_route_scoreboard_score_response(v: play::ScoreboardScoreResponse, rest: Seq<u8>)
    requires
        <play::ScoreboardScoreResponse as MD<'static>>::encodable(v),
        <play::ScoreboardScoreResponse as MD<'static>>::takes_rest() ==> rest.len() == 0,
    ensures
        spec_de_packets(ConnectionState::Play, PacketDirection::S2C, 0x56, <play::ScoreboardScoreResponse as MD<'static>>::spec_serialize(v) + rest)
            == Some((PacketView::ScoreboardScoreResponse(v), rest)),
        <play::ScoreboardScoreResponse as MD<'static>>::spec_header() == varint_bytes(0x56),
{
    lemma_packet_play_s2c_5(<play::ScoreboardScoreResponse as MD<'static>>::spec_serialize(v) + rest);
    reveal(route_scoreboard_score_response);
    <play::ScoreboardScoreResponse as MD<'static>>::lemma_roundtrip(v, rest);
}

/// A `SimulationDistanceResponse` that is written is read back by `de_packets`.
proof fn lemma_route_simulation_distance_response(v: play::SimulationDistanceResponse, rest: Seq<u8>)
    requires
        <play::SimulationDistanceResponse as MD<'static>>::encodable(v),
        <play::SimulationDistanceResponse as MD<'static>>::takes_rest() ==> rest.len() == 0,
    ensures
        spec_de_packets(ConnectionState::Play, PacketDirection::S2C, 0x57, <play::SimulationDistanceResponse as MD<'static>>::spec_serialize(v) + rest)
            == Some((PacketView::SimulationDistanceResponse(v), rest)),
        <play::SimulationDistanceResponse as MD<'static>>::spec_header() == varint_bytes(0x57),
{
    lemma_packet_play_s2c_5(<play::SimulationDistanceResponse as MD<'static>>::spec_serialize(v) + rest);
    reveal(route_simulation_distance_response);
    <play::SimulationDistanceResponse as MD<'static>>::lemma_roundtrip(v, rest);
}

/// A `SetTitleSubtitleResponse` that is written is read back by `de_packets`.
proof fn lemma_route_set_title_subtitle_response(v: play::SetTitleSubtitleResponseView, rest: Seq<u8>)
    requires
        <play::SetTitleSubtitleResponse<'static> as MD<'static>>::encodable(v),
        <play::SetTitleSubtitleResponse<'static> as MD<'static>>::takes_rest() ==> rest.len() == 0,
    ensures
        spec_de_packets(ConnectionState::Play, PacketDirection::S2C, 0x58, <play::SetTitleSubtitleResponse<'static> as MD<'static>>::spec_serialize(v) + rest)
            == Some((PacketView::SetTitleSubtitleResponse(v), rest)),
        <play::SetTitleSubtitleResponse<'static> as MD<'static>>::spec_header() == varint_bytes(0x58),
{
    lemma_packet_play_s2c_5(<play::SetTitleSubtitleResponse<'static> as MD<'static>>::spec_serialize(v) + rest);
    reveal(route_set_title_subtitle_response);
    <play::SetTitleSubtitleResponse<'static> as MD<'static>>::lemma_roundtrip(v, rest);
}

/// A `UpdateTimeResponse` that is written is read back by `de_packets`.
proof fn lemma_route_update_time_response(v: play::UpdateTimeResponse, rest: Seq<u8>)
    requires
        <play::UpdateTimeResponse as MD<'static>>::encodable(v),
        <play::UpdateTimeResponse as MD<'static>>::takes_rest() ==> rest.len() == 0,
    ensures
        spec_de_packets(ConnectionState::Play, PacketDirection::S2C, 0x59, <play::UpdateTimeResponse as MD<'static>>::spec_serialize(v) + rest)
            == Some((PacketView::UpdateTimeResponse(v), rest)),
        <play::UpdateTimeResponse as MD<'static>>::spec_header() == varint_bytes(0x59),
{
    lemma_packet_play_s2c_5(<play::UpdateTimeResponse as MD<'static>>::spec_serialize(v) + rest);
    reveal(route_update_time_response);
    <play::UpdateTimeResponse as MD<'static>>::lemma_roundtrip(v, rest);
}

/// A `SetTitleTextResponse` that is written is read back by `de_packets`.
proof fn lemma_route_set_title_text_response(v: play::SetTitleTextResponseView, rest: Seq<u8>)
    requires
        <play::SetTitleTextResponse<'static> as MD<'static>>::encodable(v),
        <play::SetTitleTextResponse<'static> as MD<'static>>::takes_rest() ==> rest.len() == 0,
    ensures
        spec_de_packets(ConnectionState::Play, PacketDirection::S2C, 0x5a, <play::SetTitleTextResponse<'static> as MD<'static>>::spec_serialize(v) + rest)
            == Some((PacketView::SetTitleTextResponse(v), rest)),
        <play::SetTitleTextResponse<'static> as MD<'static>>::spec_header() == varint_bytes(0x5a),
{
    lemma_packet_play_s2c_5(<play::SetTitleTextResponse<'static> as MD<'static>>::spec_serialize(v) + rest);
    reveal(route_set_title_text_response);
    <play::SetTitleTextResponse<'static> as MD<'static>>::lemma_roundtrip(v, rest);
}

/// A `SetTitleTimeResponse` that is written is read back by `de_packets`.
proof fn lemma_route_set_title_time_response(v: play::SetTitleTimeResponse, rest: Seq<u8>)
    requires
        <play::SetTitleTimeResponse as MD<'static>>::encodable(v),
        <play::SetTitleTimeResponse as MD<'static>>::takes_rest() ==> rest.len() == 0,
    ensures
        spec_de_packets(ConnectionState::Play, PacketDirection::S2C, 0x5b, <play::SetTitleTimeResponse as MD<'static>>::spec_serialize(v) + rest)
            == Some((PacketView::SetTitleTimeResponse(v), rest)),
        <play::SetTitleTimeResponse as MD<'static>>::spec_header() == varint_bytes(0x5b),
{
    lemma_packet_play_s2c_5(<play::SetTitleTimeResponse as MD<'static>>::spec_serialize(v) + rest);
    reveal(route_set_title_time_response);
    <play::SetTitleTimeResponse as MD<'static>>::lemma_roundtrip(v, rest);
}

/// A `EntitySoundEffectResponse` that is written is read back by `de_packets`.
proof fn lemma_route_entity_sound_effect_response(v: play::EntitySoundEffectResponse, rest: Seq<u8>)
    requires
        <play::EntitySoundEffectResponse as MD<'static>>::encodable(v),
        <play::EntitySoundEffectResponse as MD<'static>>::takes_rest() ==> rest.len() == 0,
    ensures
        spec_de_packets(ConnectionState::Play, PacketDirection::S2C, 0x5c, <play::EntitySoundEffectResponse as MD<'static>>::spec_serialize(v) + rest)
            == Some((PacketView::EntitySoundEffectResponse(v), rest)),
        <play::EntitySoundEffectResponse as MD<'static>>::spec_header() == varint_bytes(0x5c),
{
    lemma_packet_play_s2c_5(<play::EntitySoundEffectResponse as MD<'static>>::spec_serialize(v) + rest);
    reveal(route_entity_sound_effect_response);
    <play::EntitySoundEffectResponse as MD<'static>>::lemma_roundtrip(v, rest);
}

/// A `SoundEffectResponse` that is written is read back by `de_packets`.
proof fn lemma_route_sound_effect_response(v: play::SoundEffectResponse, rest: Seq<u8>)
    requires
        <play::SoundEffectResponse as MD<'static>>::encodable(v),
        <play::SoundEffectResponse as MD<'static>>::takes_rest() ==> rest.len() == 0,
    ensures
        spec_de_packets(ConnectionState::Play, PacketDirection::S2C, 0x5d, <play::SoundEffectResponse as MD<'static>>::spec_serialize(v) + rest)
            == Some((PacketView::SoundEffectResponse(v), rest)),
        <play::SoundEffectResponse as MD<'static>>::spec_header() == varint_bytes(0x5d),
{
    lemma_packet_play_s2c_5(<play::SoundEffectResponse as MD<'static>>::spec_serialize(v) + rest);
    reveal(route_sound_effect_response);
    <play::SoundEffectResponse as MD<'static>>::lemma_roundtrip(v, rest);
}

/// A `StopSoundResponse` that is written is read back by `de_packets`.
proof fn lemma_route_stop_sound_response(v: play::StopSoundResponse, rest: Seq<u8>)
    requires
        <play::StopSoundResponse as MD<'static>>::encodable(v),
        <play::StopSoundResponse as MD<'static>>::takes_rest() ==> rest.len() == 0,
    ensures
        spec_de_packets(ConnectionState::Play, PacketDirection::S2C, 0x5e, <play::StopSoundResponse as MD<'static>>::spec_serialize(v) + rest)
            == Some((PacketView::StopSoundResponse(v), rest)),
        <play::StopSoundResponse as MD<'static>>::spec_header() == varint_bytes(0x5e),
{
    lemma_packet_play_s2c_5(<play::StopSoundResponse as MD<'static>>::spec_serialize(v) + rest);
    reveal(route_stop_sound_response);
    <play::StopSoundResponse as MD<'static>>::lemma_roundtrip(v, rest);
}

/// A `PlayerlistHeaderResponse` that is written is read back by `de_packets`.
proof fn lemma_route_playerlist_header_response(v: play::PlayerlistHeaderResponseView, rest: Seq<u8>)
    requires
        <play::PlayerlistHeaderResponse<'static> as MD<'static>>::encodable(v),
        <play::PlayerlistHeaderResponse<'static> as MD<'static>>::takes_rest() ==> rest.len() == 0,
    ensures
        spec_de_packets(ConnectionState::Play, PacketDirection::S2C, 0x5f, <play::PlayerlistHeaderResponse<'static> as MD<'static>>::spec_serialize(v) + rest)
            == Some((PacketView::PlayerlistHeaderResponse(v), rest)),
        <play::PlayerlistHeaderResponse<'static> as MD<'static>>::spec_header() == varint_bytes(0x5f),
{
    lemma_packet_play_s2c_5(<play::PlayerlistHeaderResponse<'static> as MD<'static>>::spec_serialize(v) + rest);
    reveal(route_playerlist_header_response);
    <play::PlayerlistHeaderResponse<'static> as MD<'static>>::lemma_roundtrip(v, rest);
}

/// A `NbtQueryResponse` that is written is read back by `de_packets`.
proof fn lemma_route_nbt_query_response(v: play::NbtQueryResponseView, rest: Seq<u8>)
    requires
        <play::NbtQueryResponse<'static> as MD<'static>>::encodable(v),
        <play::NbtQueryResponse<'static> as MD<'static>>::takes_rest() ==> rest.len() == 0,
    ensures
        spec_de_packets(ConnectionState::Play, PacketDirection::S2C, 0x60, <play::NbtQueryResponse<'static> as MD<'static>>::spec_serialize(v) + rest)
            == Some((PacketView::NbtQueryResponse(v), rest)),
        <play::NbtQueryResponse<'static> as MD<'static>>::spec_header() == varint_bytes(0x60),
{
    lemma_packet_play_s2c_6(<play::NbtQueryResponse<'static> as MD<'static>>::spec_serialize(v) + rest);
    reveal(route_nbt_query_response);
    <play::NbtQueryResponse<'static> as MD<'static>>::lemma_roundtrip(v, rest);
}

/// A `CollectResponse` that is written is read back by `de_packets`.
proof fn lemma_route_collect_response(v: play::CollectResponse, rest: Seq<u8>)
    requires
        <play::CollectResponse as MD<'static>>::encodable(v),
        <play::CollectResponse as MD<'static>>::takes_rest() ==> rest.len() == 0,
    ensures
        spec_de_packets(ConnectionState::Play, PacketDirection::S2C, 0x61, <play::CollectResponse as MD<'static>>::spec_serialize(v) + rest)
            == Some((PacketView::CollectResponse(v), rest)),
        <play::CollectResponse as MD<'static>>::spec_header() == varint_bytes(0x61),
{
    lemma_packet_play_s2c_6(<play::CollectResponse as MD<'static>>::spec_serialize(v) + rest);
    reveal(route_collect_response);
    <play::CollectResponse as MD<'static>>::lemma_roundtrip(v, rest);
}

/// A `EntityTeleportResponse` that is written is read back by `de_packets`.
proof fn lemma_route_entity_teleport_response(v: play::EntityTeleportResponse, rest: Seq<u8>)
    requires
        <play::EntityTeleportResponse as MD<'static>>::encodable(v),
        <play::EntityTeleportResponse as MD<'static>>::takes_rest() ==> rest.len() == 0,
    ensures
        spec_de_packets(ConnectionState::Play, PacketDirection::S2C, 0x62, <play::EntityTeleportResponse as MD<'static>>::spec_serialize(v) + rest)
            == Some((PacketView::EntityTeleportResponse(v), rest)),
        <play::EntityTeleportResponse as MD<'static>>::spec_header() == varint_bytes(0x62),
{
    lemma_packet_play_s2c_6(<play::EntityTeleportResponse as MD<'static>>::spec_serialize(v) + rest);
    reveal(route_entity_teleport_response);
    <play::EntityTeleportResponse as MD<'static>>::lemma_roundtrip(v, rest);
}

/// A `AdvancementsResponse` that is written is read back by `de_packets`.
proof fn lemma_route_advancements_response(v: play::AdvancementsResponse, rest: Seq<u8>)
    requires
        <play::AdvancementsResponse as MD<'static>>::encodable(v),
        <play::AdvancementsResponse as MD<'static>>::takes_rest() ==> rest.len() == 0,
    ensures
        spec_de_packets(ConnectionState::Play, PacketDirection::S2C, 0x63, <play::AdvancementsResponse as MD<'static>>::spec_serialize(v) + rest)
            == Some((PacketView::AdvancementsResponse(v), rest)),
        <play::AdvancementsResponse as MD<'static>>::spec_header() == varint_bytes(0x63),
{
    lemma_packet_play_s2c_6(<play::AdvancementsResponse as MD<'static>>::spec_serialize(v) + rest);
    reveal(route_advancements_response);
    <play::AdvancementsResponse as MD<'static>>::lemma_roundtrip(v, rest);
}

/// A `EntityUpdateAttributesResponse` that is written is read back by `de_packets`.
proof fn lemma_route_entity_update_attributes_response(v: play::EntityUpdateAttributesResponseView, rest: Seq<u8>)
    requires
        <play::EntityUpdateAttributesResponse<'static> as MD<'static>>::encodable(v),
        <play::EntityUpdateAttributesResponse<'static> as MD<'static>>::takes_rest() ==> rest.len() == 0,
    ensures
        spec_de_packets(ConnectionState::Play, PacketDirection::S2C, 0x64, <play::EntityUpdateAttributesResponse<'static> as MD<'static>>::spec_serialize(v) + rest)
            == Some((PacketView::EntityUpdateAttributesResponse(v), rest)),
        <play::EntityUpdateAttributesResponse<'static> as MD<'static>>::spec_header() == varint_bytes(0x64),
{
    lemma_packet_play_s2c_6(<play::EntityUpdateAttributesResponse<'static> as MD<'static>>::spec_serialize(v) + rest);
    reveal(route_entity_update_attributes_response);
    <play::EntityUpdateAttributesResponse<'static> as MD<'static>>::lemma_roundtrip(v, rest);
}

/// A `EntityEffectResponse` that is written is read back by `de_packets`.
proof fn lemma_route_entity_effect_response(v: play::EntityEffectResponse, rest: Seq<u8>)
    requires
        <play::EntityEffectResponse as MD<'static>>::encodable(v),
        <play::EntityEffectResponse as MD<'static>>::takes_rest() ==> rest.len() == 0,
    ensures
        spec_de_packets(ConnectionState::Play, PacketDirection::S2C, 0x65, <play::EntityEffectResponse as MD<'static>>::spec_serialize(v) + rest)
            == Some((PacketView::EntityEffectResponse(v), rest)),
        <play::EntityEffectResponse as MD<'static>>::spec_header() == varint_bytes(0x65),
{
    lemma_packet_play_s2c_6(<play::EntityEffectResponse as MD<'static>>::spec_serialize(v) + rest);
    reveal(route_entity_effect_response);
    <play::EntityEffectResponse as MD<'static>>::lemma_roundtrip(v, rest);
}

/// A `DeclareRecipesResponse` that is written is read back by `de_packets`.
proof fn lemma_route_declare_recipes_response(v: play::DeclareRecipesResponseView, rest: Seq<u8>)
    requires
        <play::DeclareRecipesResponse as MD<'static>>::encodable(v),
        <play::DeclareRecipesResponse as MD<'static>>::takes_rest() ==> rest.len() == 0,
    ensures
        spec_de_packets(ConnectionState::Play, PacketDirection::S2C, 0x66, <play::DeclareRecipesResponse as MD<'static>>::spec_serialize(v) + rest)
            == Some((PacketView::DeclareRecipesResponse(v), rest)),
        <play::DeclareRecipesResponse as MD<'static>>::spec_header() == varint_bytes(0x66),
{
    lemma_packet_play_s2c_6(<play::DeclareRecipesResponse as MD<'static>>::spec_serialize(v) + rest);
    reveal(route_declare_recipes_response);
    <play::DeclareRecipesResponse as MD<'static>>::lemma_roundtrip(v, rest);
}

/// A `TagsResponse` that is written is read back by `de_packets`.
proof fn lemma_route_tags_response(v: play::TagsResponseView, rest: Seq<u8>)
    requires
        <play::TagsResponse as MD<'static>>::encodable(v),
        <play::TagsResponse as MD<'static>>::takes_rest() ==> rest.len() == 0,
    ensures
        spec_de_packets(ConnectionState::Play, PacketDirection::S2C, 0x67, <play::TagsResponse as MD<'static>>::spec_serialize(v) + rest)
            == Some((PacketView::TagsResponse(v), rest)),
        <play::TagsResponse as MD<'static>>::spec_header() == varint_bytes(0x67),
{
    lemma_packet_play_s2c_6(<play::TagsResponse as MD<'static>>::spec_serialize(v) + rest);
    reveal(route_tags_response);
    <play::TagsResponse as MD<'static>>::lemma_roundtrip(v, rest);
}

/// What the writer of a packet writes is its id, then bytes that
/// `de_packets` reads back as that packet when given the state, direction
/// and id under which the packet is sent, whatever follows them.
pub proof fn lemma_de_packets_roundtrip(p: PacketView, rest: Seq<u8>)
    requires
        packet_encodable(p),
        packet_takes_rest(p) ==> rest.len() == 0,
    ensures
        packet_header(p) == varint_bytes(packet_route(p).2),
        spec_de_packets(packet_route(p).0, packet_route(p).1, packet_route(p).2, packet_body_bytes(p) + rest)
            == Some((p, rest)),
{
    match p {
        PacketView::SetProtocolRequest(v) => lemma_route_set_protocol_request(v, rest),
        PacketView::LegacyServerListPingRequest(v) => lemma_route_legacy_server_list_ping_request(v, rest),
        PacketView::PingStartRequest(v) => lemma_route_ping_start_request(v, rest),
        PacketView::PingRequest(v) => lemma_route_ping_request(v, rest),
        PacketView::ServerInfoResponse(v) => lemma_route_server_info_response(v, rest),
        PacketView::PingResponse(v) => lemma_route_ping_response(v, rest),
        PacketView::LoginStartRequest(v) => lemma_route_login_start_request(v, rest),
        PacketView::EncryptionBeginRequest(v) => lemma_route_encryption_begin_request(v, rest),
        PacketView::LoginPluginResponse(v) => lemma_route_login_plugin_response(v, rest),
        PacketView::DisconnectResponse(v) => lemma_route_disconnect_response(v, rest),
        PacketView::EncryptionBeginResponse(v) => lemma_route_encryption_begin_response(v, rest),
        PacketView::SuccessResponse(v) => lemma_route_success_response(v, rest),
        PacketView::CompressResponse(v) => lemma_route_compress_response(v, rest),
        PacketView::LoginPluginRequest(v) => lemma_route_login_plugin_request(v, rest),
        PacketView::TeleportConfirmRequest(v) => lemma_route_teleport_confirm_request(v, rest),
        PacketView::QueryBlockNbtRequest(v) => lemma_route_query_block_nbt_request(v, rest),
        PacketView::SetDifficultyRequest(v) => lemma_route_set_difficulty_request(v, rest),
        PacketView::ChatRequest(v) => lemma_route_chat_request(v, rest),
        PacketView::ClientCommandRequest(v) => lemma_route_client_command_request(v, rest),
        PacketView::SettingsRequest(v) => lemma_route_settings_request(v, rest),
        PacketView::TabCompleteRequest(v) => lemma_route_tab_complete_request(v, rest),
        PacketView::EnchantItemRequest(v) => lemma_route_enchant_item_request(v, rest),
        PacketView::WindowClickRequest(v) => lemma_route_window_click_request(v, rest),
        PacketView::CloseWindowRequest(v) => lemma_route_close_window_request(v, rest),
        PacketView::CustomPayloadRequest(v) => lemma_route_custom_payload_request(v, rest),
        PacketView::EditBookRequest(v) => lemma_route_edit_book_request(v, rest),
        PacketView::QueryEntityNbtRequest(v) => lemma_route_query_entity_nbt_request(v, rest),
        PacketView::UseEntityRequest(v) => lemma_route_use_entity_request(v, rest),
        PacketView::GenerateStructureRequest(v) => lemma_route_generate_structure_request(v, rest),
        PacketView::KeepAliveRequest(v) => lemma_route_keep_alive_request(v, rest),
        PacketView::LockDifficultyRequest(v) => lemma_route_lock_difficulty_request(v, rest),
        PacketView::PositionRequest(v) => lemma_route_position_request(v, rest),
        PacketView::PositionLookRequest(v) => lemma_route_position_look_request(v, rest),
        PacketView::LookRequest(v) => lemma_route_look_request(v, rest),
        PacketView::FlyingRequest(v) => lemma_route_flying_request(v, rest),
        PacketView::VehicleMoveRequest(v) => lemma_route_vehicle_move_request(v, rest),
        PacketView::SteerBoatRequest(v) => lemma_route_steer_boat_request(v, rest),
        PacketView::PickItemRequest(v) => lemma_route_pick_item_request(v, rest),
        PacketView::CraftRecipeRequest(v) => lemma_route_craft_recipe_request(v, rest),
        PacketView::AbilitiesRequest(v) => lemma_route_abilities_request(v, rest),
        PacketView::BlockDigRequest(v) => lemma_route_block_dig_request(v, rest),
        PacketView::EntityActionRequest(v) => lemma_route_entity_action_request(v, rest),
        PacketView::SteerVehicleRequest(v) => lemma_route_steer_vehicle_request(v, rest),
        PacketView::PongRequest(v) => lemma_route_pong_request(v, rest),
        PacketView::RecipeBookRequest(v) => lemma_route_recipe_book_request(v, rest),
        PacketView::DisplayedRecipeRequest(v) => lemma_route_displayed_recipe_request(v, rest),
        PacketView::NameItemRequest(v) => lemma_route_name_item_request(v, rest),
        PacketView::ResourcePackReceiveRequest(v) => lemma_route_resource_pack_receive_request(v, rest),
        PacketView::AdvancementTabRequest(v) => lemma_route_advancement_tab_request(v, rest),
        PacketView::SelectTradeRequest(v) => lemma_route_select_trade_request(v, rest),
        PacketView::SetBeaconEffectRequest(v) => lemma_route_set_beacon_effect_request(v, rest),
        PacketView::HeldItemSlotRequest(v) => lemma_route_held_item_slot_request(v, rest),
        PacketView::UpdateCommandBlockRequest(v) => lemma_route_update_command_block_request(v, rest),
        PacketView::UpdateCommandBlockMinecartRequest(v) => lemma_route_update_command_block_minecart_request(v, rest),
        PacketView::SetCreativeSlotRequest(v) => lemma_route_set_creative_slot_request(v, rest),
        PacketView::UpdateJigsawBlockRequest(v) => lemma_route_update_jigsaw_block_request(v, rest),
        PacketView::UpdateStructureBlockRequest(v) => lemma_route_update_structure_block_request(v, rest),
        PacketView::UpdateSignRequest(v) => lemma_route_update_sign_request(v, rest),
        PacketView::ArmAnimationRequest(v) => lemma_route_arm_animation_request(v, rest),
        PacketView::SpectateRequest(v) => lemma_route_spectate_request(v, rest),
        PacketView::BlockPlaceRequest(v) => lemma_route_block_place_request(v, rest),
        PacketView::UseItemRequest(v) => lemma_route_use_item_request(v, rest),
        PacketView::SpawnEntityResponse(v) => lemma_route_spawn_entity_response(v, rest),
        PacketView::SpawnEntityExperienceOrbResponse(v) => lemma_route_spawn_entity_experience_orb_response(v, rest),
        PacketView::SpawnEntityLivingResponse(v) => lemma_route_spawn_entity_living_response(v, rest),
        PacketView::SpawnEntityPaintingResponse(v) => lemma_route_spawn_entity_painting_response(v, rest),
        PacketView::NamedEntitySpawnResponse(v) => lemma_route_named_entity_spawn_response(v, rest),
        PacketView::SculkVibrationSignalResponse(v) => lemma_route_sculk_vibration_signal_response(v, rest),
        PacketView::AnimationResponse(v) => lemma_route_animation_response(v, rest),
        PacketView::StatisticsResponse(v) => lemma_route_statistics_response(v, rest),
        PacketView::AcknowledgePlayerDiggingResponse(v) => lemma_route_acknowledge_player_digging_response(v, rest),
        PacketView::BlockBreakAnimationResponse(v) => lemma_route_block_break_animation_response(v, rest),
        PacketView::TileEntityDataResponse(v) => lemma_route_tile_entity_data_response(v, rest),
        PacketView::BlockActionResponse(v) => lemma_route_block_action_response(v, rest),
        PacketView::BlockChangeResponse(v) => lemma_route_block_change_response(v, rest),
        PacketView::BossBarResponse(v) => lemma_route_boss_bar_response(v, rest),
        PacketView::DifficultyResponse(v) => lemma_route_difficulty_response(v, rest),
        PacketView::ChatResponse(v) => lemma_route_chat_response(v, rest),
        PacketView::ClearTitlesResponse(v) => lemma_route_clear_titles_response(v, rest),
        PacketView::TabCompleteResponse(v) => lemma_route_tab_complete_response(v, rest),
        PacketView::DeclareCommandsResponse(v) => lemma_route_declare_commands_response(v, rest),
        PacketView::CloseWindowResponse(v) => lemma_route_close_window_response(v, rest),
        PacketView::WindowItemsResponse(v) => lemma_route_window_items_response(v, rest),
        PacketView::CraftProgressBarResponse(v) => lemma_route_craft_progress_bar_response(v, rest),
        PacketView::SetSlotResponse(v) => lemma_route_set_slot_response(v, rest),
        PacketView::SetCooldownResponse(v) => lemma_route_set_cooldown_response(v, rest),
        PacketView::CustomPayloadResponse(v) => lemma_route_custom_payload_response(v, rest),
        PacketView::NamedSoundEffectResponse(v) => lemma_route_named_sound_effect_response(v, rest),
        PacketView::KickDisconnectResponse(v) => lemma_route_kick_disconnect_response(v, rest),
        PacketView::EntityStatusResponse(v) => lemma_route_entity_status_response(v, rest),
        PacketView::ExplosionResponse(v) => lemma_route_explosion_response(v, rest),
        PacketView::UnloadChunkResponse(v) => lemma_route_unload_chunk_response(v, rest),
        PacketView::GameStateChangeResponse(v) => lemma_route_game_state_change_response(v, rest),
        PacketView::OpenHorseWindowResponse(v) => lemma_route_open_horse_window_response(v, rest),
        PacketView::InitializeWorldBorderResponse(v) => lemma_route_initialize_world_border_response(v, rest),
        PacketView::KeepAliveResponse(v) => lemma_route_keep_alive_response(v, rest),
        PacketView::MapChunkResponse(v) => lemma_route_map_chunk_response(v, rest),
        PacketView::WorldEventResponse(v) => lemma_route_world_event_response(v, rest),
        PacketView::WorldParticlesResponse(v) => lemma_route_world_particles_response(v, rest),
        PacketView::UpdateLightResponse(v) => lemma_route_update_light_response(v, rest),
        PacketView::LoginResponse(v) => lemma_route_login_response(v, rest),
        PacketView::MapResponse(v) => lemma_route_map_response(v, rest),
        PacketView::TradeListResponse(v) => lemma_route_trade_list_response(v, rest),
        PacketView::RelEntityMoveResponse(v) => lemma_route_rel_entity_move_response(v, rest),
        PacketView::EntityMoveLookResponse(v) => lemma_route_entity_move_look_response(v, rest),
        PacketView::EntityLookResponse(v) => lemma_route_entity_look_response(v, rest),
        PacketView::VehicleMoveResponse(v) => lemma_route_vehicle_move_response(v, rest),
        PacketView::OpenBookResponse(v) => lemma_route_open_book_response(v, rest),
        PacketView::OpenWindowResponse(v) => lemma_route_open_window_response(v, rest),
        PacketView::OpenSignEntityResponse(v) => lemma_route_open_sign_entity_response(v, rest),
        PacketView::PlayPingResponse(v) => lemma_route_play_ping_response(v, rest),
        PacketView::CraftRecipeResponse(v) => lemma_route_craft_recipe_response(v, rest),
        PacketView::AbilitiesResponse(v) => lemma_route_abilities_response(v, rest),
        PacketView::EndCombatEventResponse(v) => lemma_route_end_combat_event_response(v, rest),
        PacketView::EnterCombatEventResponse(v) => lemma_route_enter_combat_event_response(v, rest),
        PacketView::DeathCombatEventResponse(v) => lemma_route_death_combat_event_response(v, rest),
        PacketView::PlayerInfoResponse(v) => lemma_route_player_info_response(v, rest),
        PacketView::FacePlayerResponse(v) => lemma_route_face_player_response(v, rest),
        PacketView::PositionResponse(v) => lemma_route_position_response(v, rest),
        PacketView::UnlockRecipesResponse(v) => lemma_route_unlock_recipes_response(v, rest),
        PacketView::EntityDestroyResponse(v) => lemma_route_entity_destroy_response(v, rest),
        PacketView::RemoveEntityEffectResponse(v) => lemma_route_remove_entity_effect_response(v, rest),
        PacketView::ResourcePackSendResponse(v) => lemma_route_resource_pack_send_response(v, rest),
        PacketView::RespawnResponse(v) => lemma_route_respawn_response(v, rest),
        PacketView::EntityHeadRotationResponse(v) => lemma_route_entity_head_rotation_response(v, rest),
        PacketView::MultiBlockChangeResponse(v) => lemma_route_multi_block_change_response(v, rest),
        PacketView::SelectAdvancementTabResponse(v) => lemma_route_select_advancement_tab_response(v, rest),
        PacketView::ActionBarResponse(v) => lemma_route_action_bar_response(v, rest),
        PacketView::WorldBorderCenterResponse(v) => lemma_route_world_border_center_response(v, rest),
        PacketView::WorldBorderLerpSizeResponse(v) => lemma_route_world_border_lerp_size_response(v, rest),
        PacketView::WorldBorderSizeResponse(v) => lemma_route_world_border_size_response(v, rest),
        PacketView::WorldBorderWarningDelayResponse(v) => lemma_route_world_border_warning_delay_response(v, rest),
        PacketView::WorldBorderWarningReachResponse(v) => lemma_route_world_border_warning_reach_response(v, rest),
        PacketView::CameraResponse(v) => lemma_route_camera_response(v, rest),
        PacketView::HeldItemSlotResponse(v) => lemma_route_held_item_slot_response(v, rest),
        PacketView::UpdateViewPositionResponse(v) => lemma_route_update_view_position_response(v, rest),
        PacketView::UpdateViewDistanceResponse(v) => lemma_route_update_view_distance_response(v, rest),
        PacketView::SpawnPositionResponse(v) => lemma_route_spawn_position_response(v, rest),
        PacketView::ScoreboardDisplayObjectiveResponse(v) => lemma_route_scoreboard_display_objective_response(v, rest),
        PacketView::EntityMetadataResponse(v) => lemma_route_entity_metadata_response(v, rest),
        PacketView::AttachEntityResponse(v) => lemma_route_attach_entity_response(v, rest),
        PacketView::EntityVelocityResponse(v) => lemma_route_entity_velocity_response(v, rest),
        PacketView::EntityEquipmentResponse(v) => lemma_route_entity_equipment_response(v, rest),
        PacketView::ExperienceResponse(v) => lemma_route_experience_response(v, rest),
        PacketView::UpdateHealthResponse(v) => lemma_route_update_health_response(v, rest),
        PacketView::ScoreboardObjectiveResponse(v) => lemma_route_scoreboard_objective_response(v, rest),
        PacketView::SetPassengersResponse(v) => lemma_route_set_passengers_response(v, rest),
        PacketView::TeamsResponse(v) => lemma_route_teams_response(v, rest),
        PacketView::ScoreboardScoreResponse(v) => lemma_route_scoreboard_score_response(v, rest),
        PacketView::SimulationDistanceResponse(v) => lemma_route_simulation_distance_response(v, rest),
        PacketView::SetTitleSubtitleResponse(v) => lemma_route_set_title_subtitle_response(v, rest),
        PacketView::UpdateTimeResponse(v) => lemma_route_update_time_response(v, rest),
        PacketView::SetTitleTextResponse(v) => lemma_route_set_title_text_response(v, rest),
        PacketView::SetTitleTimeResponse(v) => lemma_route_set_title_time_response(v, rest),
        PacketView::EntitySoundEffectResponse(v) => lemma_route_entity_sound_effect_response(v, rest),
        PacketView::SoundEffectResponse(v) => lemma_route_sound_effect_response(v, rest),
        PacketView::StopSoundResponse(v) => lemma_route_stop_sound_response(v, rest),
        PacketView::PlayerlistHeaderResponse(v) => lemma_route_playerlist_header_response(v, rest),
        PacketView::NbtQueryResponse(v) => lemma_route_nbt_query_response(v, rest),
        PacketView::CollectResponse(v) => lemma_route_collect_response(v, rest),
        PacketView::EntityTeleportResponse(v) => lemma_route_entity_teleport_response(v, rest),
        PacketView::AdvancementsResponse(v) => lemma_route_advancements_response(v, rest),
        PacketView::EntityUpdateAttributesResponse(v) => lemma_route_entity_update_attributes_response(v, rest),
        PacketView::EntityEffectResponse(v) => lemma_route_entity_effect_response(v, rest),
        PacketView::DeclareRecipesResponse(v) => lemma_route_declare_recipes_response(v, rest),
        PacketView::TagsResponse(v) => lemma_route_tags_response(v, rest),
    }
}

} // verus!
