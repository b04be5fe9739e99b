//! The packets of protocol version 758 (Minecraft 1.18.2), and how a packet
//! is told apart by the state of the connection, its direction and its id.
pub mod agree;
pub mod ids;
pub mod layout;
pub mod play;
pub mod roundtrip;

pub use crate::protocol::common_states::{handshaking, login, status};
use crate::bytes::ParseError;
use crate::protocol::de::MD;
use crate::protocol::{ConnectionState, PacketDirection};
use vstd::prelude::*;

verus! {

/// A packet of protocol version 758, of any state and direction.
#[derive(Debug)]
pub enum Packet<'p> {
    SetProtocolRequest(handshaking::SetProtocolRequest<'p>),
    LegacyServerListPingRequest(handshaking::LegacyServerListPingRequest),
    PingStartRequest(status::PingStartRequest),
    PingRequest(status::PingRequest),
    ServerInfoResponse(status::ServerInfoResponse<'p>),
    PingResponse(status::PingResponse),
    LoginStartRequest(login::LoginStartRequest<'p>),
    EncryptionBeginRequest(login::EncryptionBeginRequest<'p>),
    LoginPluginResponse(login::LoginPluginResponse<'p>),
    DisconnectResponse(login::DisconnectResponse<'p>),
    EncryptionBeginResponse(login::EncryptionBeginResponse<'p>),
    SuccessResponse(login::SuccessResponse<'p>),
    CompressResponse(login::CompressResponse),
    LoginPluginRequest(login::LoginPluginRequest<'p>),
    TeleportConfirmRequest(play::TeleportConfirmRequest),
    QueryBlockNbtRequest(play::QueryBlockNbtRequest),
    SetDifficultyRequest(play::SetDifficultyRequest),
    ChatRequest(play::ChatRequest<'p>),
    ClientCommandRequest(play::ClientCommandRequest),
    SettingsRequest(play::SettingsRequest<'p>),
    TabCompleteRequest(play::TabCompleteRequest<'p>),
    EnchantItemRequest(play::EnchantItemRequest),
    WindowClickRequest(play::WindowClickRequest<'p>),
    CloseWindowRequest(play::CloseWindowRequest),
    CustomPayloadRequest(play::CustomPayloadRequest<'p>),
    EditBookRequest(play::EditBookRequest<'p>),
    QueryEntityNbtRequest(play::QueryEntityNbtRequest),
    UseEntityRequest(play::UseEntityRequest),
    GenerateStructureRequest(play::GenerateStructureRequest),
    KeepAliveRequest(play::KeepAliveRequest),
    LockDifficultyRequest(play::LockDifficultyRequest),
    PositionRequest(play::PositionRequest),
    PositionLookRequest(play::PositionLookRequest),
    LookRequest(play::LookRequest),
    FlyingRequest(play::FlyingRequest),
    VehicleMoveRequest(play::VehicleMoveRequest),
    SteerBoatRequest(play::SteerBoatRequest),
    PickItemRequest(play::PickItemRequest),
    CraftRecipeRequest(play::CraftRecipeRequest<'p>),
    AbilitiesRequest(play::AbilitiesRequest),
    BlockDigRequest(play::BlockDigRequest),
    EntityActionRequest(play::EntityActionRequest),
    SteerVehicleRequest(play::SteerVehicleRequest),
    PongRequest(play::PongRequest),
    RecipeBookRequest(play::RecipeBookRequest),
    DisplayedRecipeRequest(play::DisplayedRecipeRequest<'p>),
    NameItemRequest(play::NameItemRequest<'p>),
    ResourcePackReceiveRequest(play::ResourcePackReceiveRequest),
    AdvancementTabRequest(play::AdvancementTabRequest),
    SelectTradeRequest(play::SelectTradeRequest),
    SetBeaconEffectRequest(play::SetBeaconEffectRequest),
    HeldItemSlotRequest(play::HeldItemSlotRequest),
    UpdateCommandBlockRequest(play::UpdateCommandBlockRequest<'p>),
    UpdateCommandBlockMinecartRequest(play::UpdateCommandBlockMinecartRequest<'p>),
    SetCreativeSlotRequest(play::SetCreativeSlotRequest<'p>),
    UpdateJigsawBlockRequest(play::UpdateJigsawBlockRequest<'p>),
    UpdateStructureBlockRequest(play::UpdateStructureBlockRequest<'p>),
    UpdateSignRequest(play::UpdateSignRequest<'p>),
    ArmAnimationRequest(play::ArmAnimationRequest),
    SpectateRequest(play::SpectateRequest),
    BlockPlaceRequest(play::BlockPlaceRequest),
    UseItemRequest(play::UseItemRequest),
    SpawnEntityResponse(play::SpawnEntityResponse),
    SpawnEntityExperienceOrbResponse(play::SpawnEntityExperienceOrbResponse),
    SpawnEntityLivingResponse(play::SpawnEntityLivingResponse),
    SpawnEntityPaintingResponse(play::SpawnEntityPaintingResponse),
    NamedEntitySpawnResponse(play::NamedEntitySpawnResponse),
    SculkVibrationSignalResponse(play::SculkVibrationSignalResponse),
    AnimationResponse(play::AnimationResponse),
    StatisticsResponse(play::StatisticsResponse),
    AcknowledgePlayerDiggingResponse(play::AcknowledgePlayerDiggingResponse),
    BlockBreakAnimationResponse(play::BlockBreakAnimationResponse),
    TileEntityDataResponse(play::TileEntityDataResponse<'p>),
    BlockActionResponse(play::BlockActionResponse),
    BlockChangeResponse(play::BlockChangeResponse),
    BossBarResponse(play::BossBarResponse),
    DifficultyResponse(play::DifficultyResponse),
    ChatResponse(play::ChatResponse<'p>),
    ClearTitlesResponse(play::ClearTitlesResponse),
    TabCompleteResponse(play::TabCompleteResponse<'p>),
    DeclareCommandsResponse(play::DeclareCommandsResponse),
    CloseWindowResponse(play::CloseWindowResponse),
    WindowItemsResponse(play::WindowItemsResponse<'p>),
    CraftProgressBarResponse(play::CraftProgressBarResponse),
    SetSlotResponse(play::SetSlotResponse<'p>),
    SetCooldownResponse(play::SetCooldownResponse),
    CustomPayloadResponse(play::CustomPayloadResponse<'p>),
    NamedSoundEffectResponse(play::NamedSoundEffectResponse<'p>),
    KickDisconnectResponse(play::KickDisconnectResponse<'p>),
    EntityStatusResponse(play::EntityStatusResponse),
    ExplosionResponse(play::ExplosionResponse),
    UnloadChunkResponse(play::UnloadChunkResponse),
    GameStateChangeResponse(play::GameStateChangeResponse),
    OpenHorseWindowResponse(play::OpenHorseWindowResponse),
    InitializeWorldBorderResponse(play::InitializeWorldBorderResponse),
    KeepAliveResponse(play::KeepAliveResponse),
    MapChunkResponse(play::MapChunkResponse<'p>),
    WorldEventResponse(play::WorldEventResponse),
    WorldParticlesResponse(play::WorldParticlesResponse),
    UpdateLightResponse(play::UpdateLightResponse<'p>),
    LoginResponse(play::LoginResponse<'p>),
    MapResponse(play::MapResponse),
    TradeListResponse(play::TradeListResponse<'p>),
    RelEntityMoveResponse(play::RelEntityMoveResponse),
    EntityMoveLookResponse(play::EntityMoveLookResponse),
    EntityLookResponse(play::EntityLookResponse),
    VehicleMoveResponse(play::VehicleMoveResponse),
    OpenBookResponse(play::OpenBookResponse),
    OpenWindowResponse(play::OpenWindowResponse<'p>),
    OpenSignEntityResponse(play::OpenSignEntityResponse),
    PlayPingResponse(play::PlayPingResponse),
    CraftRecipeResponse(play::CraftRecipeResponse<'p>),
    AbilitiesResponse(play::AbilitiesResponse),
    EndCombatEventResponse(play::EndCombatEventResponse),
    EnterCombatEventResponse(play::EnterCombatEventResponse),
    DeathCombatEventResponse(play::DeathCombatEventResponse<'p>),
    PlayerInfoResponse(play::PlayerInfoResponse),
    FacePlayerResponse(play::FacePlayerResponse),
    PositionResponse(play::PositionResponse),
    UnlockRecipesResponse(play::UnlockRecipesResponse),
    EntityDestroyResponse(play::EntityDestroyResponse),
    RemoveEntityEffectResponse(play::RemoveEntityEffectResponse),
    ResourcePackSendResponse(play::ResourcePackSendResponse<'p>),
    RespawnResponse(play::RespawnResponse<'p>),
    EntityHeadRotationResponse(play::EntityHeadRotationResponse),
    MultiBlockChangeResponse(play::MultiBlockChangeResponse),
    SelectAdvancementTabResponse(play::SelectAdvancementTabResponse<'p>),
    ActionBarResponse(play::ActionBarResponse<'p>),
    WorldBorderCenterResponse(play::WorldBorderCenterResponse),
    WorldBorderLerpSizeResponse(play::WorldBorderLerpSizeResponse),
    WorldBorderSizeResponse(play::WorldBorderSizeResponse),
    WorldBorderWarningDelayResponse(play::WorldBorderWarningDelayResponse),
    WorldBorderWarningReachResponse(play::WorldBorderWarningReachResponse),
    CameraResponse(play::CameraResponse),
    HeldItemSlotResponse(play::HeldItemSlotResponse),
    UpdateViewPositionResponse(play::UpdateViewPositionResponse),
    UpdateViewDistanceResponse(play::UpdateViewDistanceResponse),
    SpawnPositionResponse(play::SpawnPositionResponse),
    ScoreboardDisplayObjectiveResponse(play::ScoreboardDisplayObjectiveResponse<'p>),
    EntityMetadataResponse(play::EntityMetadataResponse),
    AttachEntityResponse(play::AttachEntityResponse),
    EntityVelocityResponse(play::EntityVelocityResponse),
    EntityEquipmentResponse(play::EntityEquipmentResponse),
    ExperienceResponse(play::ExperienceResponse),
    UpdateHealthResponse(play::UpdateHealthResponse),
    ScoreboardObjectiveResponse(play::ScoreboardObjectiveResponse),
    SetPassengersResponse(play::SetPassengersResponse),
    TeamsResponse(play::TeamsResponse),
    ScoreboardScoreResponse(play::ScoreboardScoreResponse),
    SimulationDistanceResponse(play::SimulationDistanceResponse),
    SetTitleSubtitleResponse(play::SetTitleSubtitleResponse<'p>),
    UpdateTimeResponse(play::UpdateTimeResponse),
    SetTitleTextResponse(play::SetTitleTextResponse<'p>),
    SetTitleTimeResponse(play::SetTitleTimeResponse),
    EntitySoundEffectResponse(play::EntitySoundEffectResponse),
    SoundEffectResponse(play::SoundEffectResponse),
    StopSoundResponse(play::StopSoundResponse),
    PlayerlistHeaderResponse(play::PlayerlistHeaderResponse<'p>),
    NbtQueryResponse(play::NbtQueryResponse<'p>),
    CollectResponse(play::CollectResponse),
    EntityTeleportResponse(play::EntityTeleportResponse),
    AdvancementsResponse(play::AdvancementsResponse),
    EntityUpdateAttributesResponse(play::EntityUpdateAttributesResponse<'p>),
    EntityEffectResponse(play::EntityEffectResponse),
    DeclareRecipesResponse(play::DeclareRecipesResponse),
    TagsResponse(play::TagsResponse),
}

/// What a `Packet` holds.
pub enum PacketView {
    SetProtocolRequest(handshaking::SetProtocolRequestView),
    LegacyServerListPingRequest(handshaking::LegacyServerListPingRequest),
    PingStartRequest(status::PingStartRequest),
    PingRequest(status::PingRequest),
    ServerInfoResponse(status::ServerInfoResponseView),
    PingResponse(status::PingResponse),
    LoginStartRequest(login::LoginStartRequestView),
    EncryptionBeginRequest(login::EncryptionBeginRequestView),
    LoginPluginResponse(login::LoginPluginResponseView),
    DisconnectResponse(login::DisconnectResponseView),
    EncryptionBeginResponse(login::EncryptionBeginResponseView),
    SuccessResponse(login::SuccessResponseView),
    CompressResponse(login::CompressResponse),
    LoginPluginRequest(login::LoginPluginRequestView),
    TeleportConfirmRequest(play::TeleportConfirmRequest),
    QueryBlockNbtRequest(play::QueryBlockNbtRequest),
    SetDifficultyRequest(play::SetDifficultyRequest),
    ChatRequest(play::ChatRequestView),
    ClientCommandRequest(play::ClientCommandRequest),
    SettingsRequest(play::SettingsRequestView),
    TabCompleteRequest(play::TabCompleteRequestView),
    EnchantItemRequest(play::EnchantItemRequest),
    WindowClickRequest(play::WindowClickRequestView),
    CloseWindowRequest(play::CloseWindowRequest),
    CustomPayloadRequest(play::CustomPayloadRequestView),
    EditBookRequest(play::EditBookRequestView),
    QueryEntityNbtRequest(play::QueryEntityNbtRequest),
    UseEntityRequest(play::UseEntityRequest),
    GenerateStructureRequest(play::GenerateStructureRequest),
    KeepAliveRequest(play::KeepAliveRequest),
    LockDifficultyRequest(play::LockDifficultyRequest),
    PositionRequest(play::PositionRequest),
    PositionLookRequest(play::PositionLookRequest),
    LookRequest(play::LookRequest),
    FlyingRequest(play::FlyingRequest),
    VehicleMoveRequest(play::VehicleMoveRequest),
    SteerBoatRequest(play::SteerBoatRequest),
    PickItemRequest(play::PickItemRequest),
    CraftRecipeRequest(play::CraftRecipeRequestView),
    AbilitiesRequest(play::AbilitiesRequest),
    BlockDigRequest(play::BlockDigRequest),
    EntityActionRequest(play::EntityActionRequest),
    SteerVehicleRequest(play::SteerVehicleRequest),
    PongRequest(play::PongRequest),
    RecipeBookRequest(play::RecipeBookRequest),
    DisplayedRecipeRequest(play::DisplayedRecipeRequestView),
    NameItemRequest(play::NameItemRequestView),
    ResourcePackReceiveRequest(play::ResourcePackReceiveRequest),
    AdvancementTabRequest(play::AdvancementTabRequest),
    SelectTradeRequest(play::SelectTradeRequest),
    SetBeaconEffectRequest(play::SetBeaconEffectRequest),
    HeldItemSlotRequest(play::HeldItemSlotRequest),
    UpdateCommandBlockRequest(play::UpdateCommandBlockRequestView),
    UpdateCommandBlockMinecartRequest(play::UpdateCommandBlockMinecartRequestView),
    SetCreativeSlotRequest(play::SetCreativeSlotRequestView),
    UpdateJigsawBlockRequest(play::UpdateJigsawBlockRequestView),
    UpdateStructureBlockRequest(play::UpdateStructureBlockRequestView),
    UpdateSignRequest(play::UpdateSignRequestView),
    ArmAnimationRequest(play::ArmAnimationRequest),
    SpectateRequest(play::SpectateRequest),
    BlockPlaceRequest(play::BlockPlaceRequest),
    UseItemRequest(play::UseItemRequest),
    SpawnEntityResponse(play::SpawnEntityResponse),
    SpawnEntityExperienceOrbResponse(play::SpawnEntityExperienceOrbResponse),
    SpawnEntityLivingResponse(play::SpawnEntityLivingResponse),
    SpawnEntityPaintingResponse(play::SpawnEntityPaintingResponse),
    NamedEntitySpawnResponse(play::NamedEntitySpawnResponse),
    SculkVibrationSignalResponse(play::SculkVibrationSignalResponse),
    AnimationResponse(play::AnimationResponse),
    StatisticsResponse(play::StatisticsResponseView),
    AcknowledgePlayerDiggingResponse(play::AcknowledgePlayerDiggingResponse),
    BlockBreakAnimationResponse(play::BlockBreakAnimationResponse),
    TileEntityDataResponse(play::TileEntityDataResponseView),
    BlockActionResponse(play::BlockActionResponse),
    BlockChangeResponse(play::BlockChangeResponse),
    BossBarResponse(play::BossBarResponse),
    DifficultyResponse(play::DifficultyResponse),
    ChatResponse(play::ChatResponseView),
    ClearTitlesResponse(play::ClearTitlesResponse),
    TabCompleteResponse(play::TabCompleteResponseView),
    DeclareCommandsResponse(play::DeclareCommandsResponse),
    CloseWindowResponse(play::CloseWindowResponse),
    WindowItemsResponse(play::WindowItemsResponseView),
    CraftProgressBarResponse(play::CraftProgressBarResponse),
    SetSlotResponse(play::SetSlotResponseView),
    SetCooldownResponse(play::SetCooldownResponse),
    CustomPayloadResponse(play::CustomPayloadResponseView),
    NamedSoundEffectResponse(play::NamedSoundEffectResponseView),
    KickDisconnectResponse(play::KickDisconnectResponseView),
    EntityStatusResponse(play::EntityStatusResponse),
    ExplosionResponse(play::ExplosionResponseView),
    UnloadChunkResponse(play::UnloadChunkResponse),
    GameStateChangeResponse(play::GameStateChangeResponse),
    OpenHorseWindowResponse(play::OpenHorseWindowResponse),
    InitializeWorldBorderResponse(play::InitializeWorldBorderResponse),
    KeepAliveResponse(play::KeepAliveResponse),
    MapChunkResponse(play::MapChunkResponseView),
    WorldEventResponse(play::WorldEventResponse),
    WorldParticlesResponse(play::WorldParticlesResponse),
    UpdateLightResponse(play::UpdateLightResponseView),
    LoginResponse(play::LoginResponseView),
    MapResponse(play::MapResponse),
    TradeListResponse(play::TradeListResponseView),
    RelEntityMoveResponse(play::RelEntityMoveResponse),
    EntityMoveLookResponse(play::EntityMoveLookResponse),
    EntityLookResponse(play::EntityLookResponse),
    VehicleMoveResponse(play::VehicleMoveResponse),
    OpenBookResponse(play::OpenBookResponse),
    OpenWindowResponse(play::OpenWindowResponseView),
    OpenSignEntityResponse(play::OpenSignEntityResponse),
    PlayPingResponse(play::PlayPingResponse),
    CraftRecipeResponse(play::CraftRecipeResponseView),
    AbilitiesResponse(play::AbilitiesResponse),
    EndCombatEventResponse(play::EndCombatEventResponse),
    EnterCombatEventResponse(play::EnterCombatEventResponse),
    DeathCombatEventResponse(play::DeathCombatEventResponseView),
    PlayerInfoResponse(play::PlayerInfoResponseView),
    FacePlayerResponse(play::FacePlayerResponse),
    PositionResponse(play::PositionResponse),
    UnlockRecipesResponse(play::UnlockRecipesResponse),
    EntityDestroyResponse(play::EntityDestroyResponseView),
    RemoveEntityEffectResponse(play::RemoveEntityEffectResponse),
    ResourcePackSendResponse(play::ResourcePackSendResponseView),
    RespawnResponse(play::RespawnResponseView),
    EntityHeadRotationResponse(play::EntityHeadRotationResponse),
    MultiBlockChangeResponse(play::MultiBlockChangeResponseView),
    SelectAdvancementTabResponse(play::SelectAdvancementTabResponseView),
    ActionBarResponse(play::ActionBarResponseView),
    WorldBorderCenterResponse(play::WorldBorderCenterResponse),
    WorldBorderLerpSizeResponse(play::WorldBorderLerpSizeResponse),
    WorldBorderSizeResponse(play::WorldBorderSizeResponse),
    WorldBorderWarningDelayResponse(play::WorldBorderWarningDelayResponse),
    WorldBorderWarningReachResponse(play::WorldBorderWarningReachResponse),
    CameraResponse(play::CameraResponse),
    HeldItemSlotResponse(play::HeldItemSlotResponse),
    UpdateViewPositionResponse(play::UpdateViewPositionResponse),
    UpdateViewDistanceResponse(play::UpdateViewDistanceResponse),
    SpawnPositionResponse(play::SpawnPositionResponse),
    ScoreboardDisplayObjectiveResponse(play::ScoreboardDisplayObjectiveResponseView),
    EntityMetadataResponse(play::EntityMetadataResponse),
    AttachEntityResponse(play::AttachEntityResponse),
    EntityVelocityResponse(play::EntityVelocityResponse),
    EntityEquipmentResponse(play::EntityEquipmentResponse),
    ExperienceResponse(play::ExperienceResponse),
    UpdateHealthResponse(play::UpdateHealthResponse),
    ScoreboardObjectiveResponse(play::ScoreboardObjectiveResponse),
    SetPassengersResponse(play::SetPassengersResponseView),
    TeamsResponse(play::TeamsResponse),
    ScoreboardScoreResponse(play::ScoreboardScoreResponse),
    SimulationDistanceResponse(play::SimulationDistanceResponse),
    SetTitleSubtitleResponse(play::SetTitleSubtitleResponseView),
    UpdateTimeResponse(play::UpdateTimeResponse),
    SetTitleTextResponse(play::SetTitleTextResponseView),
    SetTitleTimeResponse(play::SetTitleTimeResponse),
    EntitySoundEffectResponse(play::EntitySoundEffectResponse),
    SoundEffectResponse(play::SoundEffectResponse),
    StopSoundResponse(play::StopSoundResponse),
    PlayerlistHeaderResponse(play::PlayerlistHeaderResponseView),
    NbtQueryResponse(play::NbtQueryResponseView),
    CollectResponse(play::CollectResponse),
    EntityTeleportResponse(play::EntityTeleportResponse),
    AdvancementsResponse(play::AdvancementsResponse),
    EntityUpdateAttributesResponse(play::EntityUpdateAttributesResponseView),
    EntityEffectResponse(play::EntityEffectResponse),
    DeclareRecipesResponse(play::DeclareRecipesResponseView),
    TagsResponse(play::TagsResponseView),
}

impl<'p> DeepView for Packet<'p> {
    type V = PacketView;

    open spec fn deep_view(&self) -> PacketView {
        match self {
            Packet::SetProtocolRequest(p) => PacketView::SetProtocolRequest(p.deep_view()),
            Packet::LegacyServerListPingRequest(p) => PacketView::LegacyServerListPingRequest(p.deep_view()),
            Packet::PingStartRequest(p) => PacketView::PingStartRequest(p.deep_view()),
            Packet::PingRequest(p) => PacketView::PingRequest(p.deep_view()),
            Packet::ServerInfoResponse(p) => PacketView::ServerInfoResponse(p.deep_view()),
            Packet::PingResponse(p) => PacketView::PingResponse(p.deep_view()),
            Packet::LoginStartRequest(p) => PacketView::LoginStartRequest(p.deep_view()),
            Packet::EncryptionBeginRequest(p) => PacketView::EncryptionBeginRequest(p.deep_view()),
            Packet::LoginPluginResponse(p) => PacketView::LoginPluginResponse(p.deep_view()),
            Packet::DisconnectResponse(p) => PacketView::DisconnectResponse(p.deep_view()),
            Packet::EncryptionBeginResponse(p) => PacketView::EncryptionBeginResponse(p.deep_view()),
            Packet::SuccessResponse(p) => PacketView::SuccessResponse(p.deep_view()),
            Packet::CompressResponse(p) => PacketView::CompressResponse(p.deep_view()),
            Packet::LoginPluginRequest(p) => PacketView::LoginPluginRequest(p.deep_view()),
            Packet::TeleportConfirmRequest(p) => PacketView::TeleportConfirmRequest(p.deep_view()),
            Packet::QueryBlockNbtRequest(p) => PacketView::QueryBlockNbtRequest(p.deep_view()),
            Packet::SetDifficultyRequest(p) => PacketView::SetDifficultyRequest(p.deep_view()),
            Packet::ChatRequest(p) => PacketView::ChatRequest(p.deep_view()),
            Packet::ClientCommandRequest(p) => PacketView::ClientCommandRequest(p.deep_view()),
            Packet::SettingsRequest(p) => PacketView::SettingsRequest(p.deep_view()),
            Packet::TabCompleteRequest(p) => PacketView::TabCompleteRequest(p.deep_view()),
            Packet::EnchantItemRequest(p) => PacketView::EnchantItemRequest(p.deep_view()),
            Packet::WindowClickRequest(p) => PacketView::WindowClickRequest(p.deep_view()),
            Packet::CloseWindowRequest(p) => PacketView::CloseWindowRequest(p.deep_view()),
            Packet::CustomPayloadRequest(p) => PacketView::CustomPayloadRequest(p.deep_view()),
            Packet::EditBookRequest(p) => PacketView::EditBookRequest(p.deep_view()),
            Packet::QueryEntityNbtRequest(p) => PacketView::QueryEntityNbtRequest(p.deep_view()),
            Packet::UseEntityRequest(p) => PacketView::UseEntityRequest(p.deep_view()),
            Packet::GenerateStructureRequest(p) => PacketView::GenerateStructureRequest(p.deep_view()),
            Packet::KeepAliveRequest(p) => PacketView::KeepAliveRequest(p.deep_view()),
            Packet::LockDifficultyRequest(p) => PacketView::LockDifficultyRequest(p.deep_view()),
            Packet::PositionRequest(p) => PacketView::PositionRequest(p.deep_view()),
            Packet::PositionLookRequest(p) => PacketView::PositionLookRequest(p.deep_view()),
            Packet::LookRequest(p) => PacketView::LookRequest(p.deep_view()),
            Packet::FlyingRequest(p) => PacketView::FlyingRequest(p.deep_view()),
            Packet::VehicleMoveRequest(p) => PacketView::VehicleMoveRequest(p.deep_view()),
            Packet::SteerBoatRequest(p) => PacketView::SteerBoatRequest(p.deep_view()),
            Packet::PickItemRequest(p) => PacketView::PickItemRequest(p.deep_view()),
            Packet::CraftRecipeRequest(p) => PacketView::CraftRecipeRequest(p.deep_view()),
            Packet::AbilitiesRequest(p) => PacketView::AbilitiesRequest(p.deep_view()),
            Packet::BlockDigRequest(p) => PacketView::BlockDigRequest(p.deep_view()),
            Packet::EntityActionRequest(p) => PacketView::EntityActionRequest(p.deep_view()),
            Packet::SteerVehicleRequest(p) => PacketView::SteerVehicleRequest(p.deep_view()),
            Packet::PongRequest(p) => PacketView::PongRequest(p.deep_view()),
            Packet::RecipeBookRequest(p) => PacketView::RecipeBookRequest(p.deep_view()),
            Packet::DisplayedRecipeRequest(p) => PacketView::DisplayedRecipeRequest(p.deep_view()),
            Packet::NameItemRequest(p) => PacketView::NameItemRequest(p.deep_view()),
            Packet::ResourcePackReceiveRequest(p) => PacketView::ResourcePackReceiveRequest(p.deep_view()),
            Packet::AdvancementTabRequest(p) => PacketView::AdvancementTabRequest(p.deep_view()),
            Packet::SelectTradeRequest(p) => PacketView::SelectTradeRequest(p.deep_view()),
            Packet::SetBeaconEffectRequest(p) => PacketView::SetBeaconEffectRequest(p.deep_view()),
            Packet::HeldItemSlotRequest(p) => PacketView::HeldItemSlotRequest(p.deep_view()),
            Packet::UpdateCommandBlockRequest(p) => PacketView::UpdateCommandBlockRequest(p.deep_view()),
            Packet::UpdateCommandBlockMinecartRequest(p) => PacketView::UpdateCommandBlockMinecartRequest(p.deep_view()),
            Packet::SetCreativeSlotRequest(p) => PacketView::SetCreativeSlotRequest(p.deep_view()),
            Packet::UpdateJigsawBlockRequest(p) => PacketView::UpdateJigsawBlockRequest(p.deep_view()),
            Packet::UpdateStructureBlockRequest(p) => PacketView::UpdateStructureBlockRequest(p.deep_view()),
            Packet::UpdateSignRequest(p) => PacketView::UpdateSignRequest(p.deep_view()),
            Packet::ArmAnimationRequest(p) => PacketView::ArmAnimationRequest(p.deep_view()),
            Packet::SpectateRequest(p) => PacketView::SpectateRequest(p.deep_view()),
            Packet::BlockPlaceRequest(p) => PacketView::BlockPlaceRequest(p.deep_view()),
            Packet::UseItemRequest(p) => PacketView::UseItemRequest(p.deep_view()),
            Packet::SpawnEntityResponse(p) => PacketView::SpawnEntityResponse(p.deep_view()),
            Packet::SpawnEntityExperienceOrbResponse(p) => PacketView::SpawnEntityExperienceOrbResponse(p.deep_view()),
            Packet::SpawnEntityLivingResponse(p) => PacketView::SpawnEntityLivingResponse(p.deep_view()),
            Packet::SpawnEntityPaintingResponse(p) => PacketView::SpawnEntityPaintingResponse(p.deep_view()),
            Packet::NamedEntitySpawnResponse(p) => PacketView::NamedEntitySpawnResponse(p.deep_view()),
            Packet::SculkVibrationSignalResponse(p) => PacketView::SculkVibrationSignalResponse(p.deep_view()),
            Packet::AnimationResponse(p) => PacketView::AnimationResponse(p.deep_view()),
            Packet::StatisticsResponse(p) => PacketView::StatisticsResponse(p.deep_view()),
            Packet::AcknowledgePlayerDiggingResponse(p) => PacketView::AcknowledgePlayerDiggingResponse(p.deep_view()),
            Packet::BlockBreakAnimationResponse(p) => PacketView::BlockBreakAnimationResponse(p.deep_view()),
            Packet::TileEntityDataResponse(p) => PacketView::TileEntityDataResponse(p.deep_view()),
            Packet::BlockActionResponse(p) => PacketView::BlockActionResponse(p.deep_view()),
            Packet::BlockChangeResponse(p) => PacketView::BlockChangeResponse(p.deep_view()),
            Packet::BossBarResponse(p) => PacketView::BossBarResponse(p.deep_view()),
            Packet::DifficultyResponse(p) => PacketView::DifficultyResponse(p.deep_view()),
            Packet::ChatResponse(p) => PacketView::ChatResponse(p.deep_view()),
            Packet::ClearTitlesResponse(p) => PacketView::ClearTitlesResponse(p.deep_view()),
            Packet::TabCompleteResponse(p) => PacketView::TabCompleteResponse(p.deep_view()),
            Packet::DeclareCommandsResponse(p) => PacketView::DeclareCommandsResponse(p.deep_view()),
            Packet::CloseWindowResponse(p) => PacketView::CloseWindowResponse(p.deep_view()),
            Packet::WindowItemsResponse(p) => PacketView::WindowItemsResponse(p.deep_view()),
            Packet::CraftProgressBarResponse(p) => PacketView::CraftProgressBarResponse(p.deep_view()),
            Packet::SetSlotResponse(p) => PacketView::SetSlotResponse(p.deep_view()),
            Packet::SetCooldownResponse(p) => PacketView::SetCooldownResponse(p.deep_view()),
            Packet::CustomPayloadResponse(p) => PacketView::CustomPayloadResponse(p.deep_view()),
            Packet::NamedSoundEffectResponse(p) => PacketView::NamedSoundEffectResponse(p.deep_view()),
            Packet::KickDisconnectResponse(p) => PacketView::KickDisconnectResponse(p.deep_view()),
            Packet::EntityStatusResponse(p) => PacketView::EntityStatusResponse(p.deep_view()),
            Packet::ExplosionResponse(p) => PacketView::ExplosionResponse(p.deep_view()),
            Packet::UnloadChunkResponse(p) => PacketView::UnloadChunkResponse(p.deep_view()),
            Packet::GameStateChangeResponse(p) => PacketView::GameStateChangeResponse(p.deep_view()),
            Packet::OpenHorseWindowResponse(p) => PacketView::OpenHorseWindowResponse(p.deep_view()),
            Packet::InitializeWorldBorderResponse(p) => PacketView::InitializeWorldBorderResponse(p.deep_view()),
            Packet::KeepAliveResponse(p) => PacketView::KeepAliveResponse(p.deep_view()),
            Packet::MapChunkResponse(p) => PacketView::MapChunkResponse(p.deep_view()),
            Packet::WorldEventResponse(p) => PacketView::WorldEventResponse(p.deep_view()),
            Packet::WorldParticlesResponse(p) => PacketView::WorldParticlesResponse(p.deep_view()),
            Packet::UpdateLightResponse(p) => PacketView::UpdateLightResponse(p.deep_view()),
            Packet::LoginResponse(p) => PacketView::LoginResponse(p.deep_view()),
            Packet::MapResponse(p) => PacketView::MapResponse(p.deep_view()),
            Packet::TradeListResponse(p) => PacketView::TradeListResponse(p.deep_view()),
            Packet::RelEntityMoveResponse(p) => PacketView::RelEntityMoveResponse(p.deep_view()),
            Packet::EntityMoveLookResponse(p) => PacketView::EntityMoveLookResponse(p.deep_view()),
            Packet::EntityLookResponse(p) => PacketView::EntityLookResponse(p.deep_view()),
            Packet::VehicleMoveResponse(p) => PacketView::VehicleMoveResponse(p.deep_view()),
            Packet::OpenBookResponse(p) => PacketView::OpenBookResponse(p.deep_view()),
            Packet::OpenWindowResponse(p) => PacketView::OpenWindowResponse(p.deep_view()),
            Packet::OpenSignEntityResponse(p) => PacketView::OpenSignEntityResponse(p.deep_view()),
            Packet::PlayPingResponse(p) => PacketView::PlayPingResponse(p.deep_view()),
            Packet::CraftRecipeResponse(p) => PacketView::CraftRecipeResponse(p.deep_view()),
            Packet::AbilitiesResponse(p) => PacketView::AbilitiesResponse(p.deep_view()),
            Packet::EndCombatEventResponse(p) => PacketView::EndCombatEventResponse(p.deep_view()),
            Packet::EnterCombatEventResponse(p) => PacketView::EnterCombatEventResponse(p.deep_view()),
            Packet::DeathCombatEventResponse(p) => PacketView::DeathCombatEventResponse(p.deep_view()),
            Packet::PlayerInfoResponse(p) => PacketView::PlayerInfoResponse(p.deep_view()),
            Packet::FacePlayerResponse(p) => PacketView::FacePlayerResponse(p.deep_view()),
            Packet::PositionResponse(p) => PacketView::PositionResponse(p.deep_view()),
            Packet::UnlockRecipesResponse(p) => PacketView::UnlockRecipesResponse(p.deep_view()),
            Packet::EntityDestroyResponse(p) => PacketView::EntityDestroyResponse(p.deep_view()),
            Packet::RemoveEntityEffectResponse(p) => PacketView::RemoveEntityEffectResponse(p.deep_view()),
            Packet::ResourcePackSendResponse(p) => PacketView::ResourcePackSendResponse(p.deep_view()),
            Packet::RespawnResponse(p) => PacketView::RespawnResponse(p.deep_view()),
            Packet::EntityHeadRotationResponse(p) => PacketView::EntityHeadRotationResponse(p.deep_view()),
            Packet::MultiBlockChangeResponse(p) => PacketView::MultiBlockChangeResponse(p.deep_view()),
            Packet::SelectAdvancementTabResponse(p) => PacketView::SelectAdvancementTabResponse(p.deep_view()),
            Packet::ActionBarResponse(p) => PacketView::ActionBarResponse(p.deep_view()),
            Packet::WorldBorderCenterResponse(p) => PacketView::WorldBorderCenterResponse(p.deep_view()),
            Packet::WorldBorderLerpSizeResponse(p) => PacketView::WorldBorderLerpSizeResponse(p.deep_view()),
            Packet::WorldBorderSizeResponse(p) => PacketView::WorldBorderSizeResponse(p.deep_view()),
            Packet::WorldBorderWarningDelayResponse(p) => PacketView::WorldBorderWarningDelayResponse(p.deep_view()),
            Packet::WorldBorderWarningReachResponse(p) => PacketView::WorldBorderWarningReachResponse(p.deep_view()),
            Packet::CameraResponse(p) => PacketView::CameraResponse(p.deep_view()),
            Packet::HeldItemSlotResponse(p) => PacketView::HeldItemSlotResponse(p.deep_view()),
            Packet::UpdateViewPositionResponse(p) => PacketView::UpdateViewPositionResponse(p.deep_view()),
            Packet::UpdateViewDistanceResponse(p) => PacketView::UpdateViewDistanceResponse(p.deep_view()),
            Packet::SpawnPositionResponse(p) => PacketView::SpawnPositionResponse(p.deep_view()),
            Packet::ScoreboardDisplayObjectiveResponse(p) => PacketView::ScoreboardDisplayObjectiveResponse(p.deep_view()),
            Packet::EntityMetadataResponse(p) => PacketView::EntityMetadataResponse(p.deep_view()),
            Packet::AttachEntityResponse(p) => PacketView::AttachEntityResponse(p.deep_view()),
            Packet::EntityVelocityResponse(p) => PacketView::EntityVelocityResponse(p.deep_view()),
            Packet::EntityEquipmentResponse(p) => PacketView::EntityEquipmentResponse(p.deep_view()),
            Packet::ExperienceResponse(p) => PacketView::ExperienceResponse(p.deep_view()),
            Packet::UpdateHealthResponse(p) => PacketView::UpdateHealthResponse(p.deep_view()),
            Packet::ScoreboardObjectiveResponse(p) => PacketView::ScoreboardObjectiveResponse(p.deep_view()),
            Packet::SetPassengersResponse(p) => PacketView::SetPassengersResponse(p.deep_view()),
            Packet::TeamsResponse(p) => PacketView::TeamsResponse(p.deep_view()),
            Packet::ScoreboardScoreResponse(p) => PacketView::ScoreboardScoreResponse(p.deep_view()),
            Packet::SimulationDistanceResponse(p) => PacketView::SimulationDistanceResponse(p.deep_view()),
            Packet::SetTitleSubtitleResponse(p) => PacketView::SetTitleSubtitleResponse(p.deep_view()),
            Packet::UpdateTimeResponse(p) => PacketView::UpdateTimeResponse(p.deep_view()),
            Packet::SetTitleTextResponse(p) => PacketView::SetTitleTextResponse(p.deep_view()),
            Packet::SetTitleTimeResponse(p) => PacketView::SetTitleTimeResponse(p.deep_view()),
            Packet::EntitySoundEffectResponse(p) => PacketView::EntitySoundEffectResponse(p.deep_view()),
            Packet::SoundEffectResponse(p) => PacketView::SoundEffectResponse(p.deep_view()),
            Packet::StopSoundResponse(p) => PacketView::StopSoundResponse(p.deep_view()),
            Packet::PlayerlistHeaderResponse(p) => PacketView::PlayerlistHeaderResponse(p.deep_view()),
            Packet::NbtQueryResponse(p) => PacketView::NbtQueryResponse(p.deep_view()),
            Packet::CollectResponse(p) => PacketView::CollectResponse(p.deep_view()),
            Packet::EntityTeleportResponse(p) => PacketView::EntityTeleportResponse(p.deep_view()),
            Packet::AdvancementsResponse(p) => PacketView::AdvancementsResponse(p.deep_view()),
            Packet::EntityUpdateAttributesResponse(p) => PacketView::EntityUpdateAttributesResponse(p.deep_view()),
            Packet::EntityEffectResponse(p) => PacketView::EntityEffectResponse(p.deep_view()),
            Packet::DeclareRecipesResponse(p) => PacketView::DeclareRecipesResponse(p.deep_view()),
            Packet::TagsResponse(p) => PacketView::TagsResponse(p.deep_view()),
        }
    }
}

/// Whether `id` is the id of a packet of the handshaking state sent by the client.
pub open spec fn packet_handshaking_c2s_known(id: u32) -> bool {
    id == 0x0 || id == 0xfe
}

/// The packet of the handshaking state sent by the client whose id is `id`, read from the
/// front of `s`; `None` for an unknown id or bytes that do not hold it.
#[verifier::opaque]
pub open spec fn spec_packet_handshaking_c2s(id: u32, s: Seq<u8>) -> Option<(PacketView, Seq<u8>)> {
    match id {
        0x0 => match <handshaking::SetProtocolRequest<'static> as MD<'static>>::spec_deserialize(s) {
            Some((v, rest)) => Some((PacketView::SetProtocolRequest(v), rest)),
            None => None,
        },
        0xfe => match <handshaking::LegacyServerListPingRequest as MD<'static>>::spec_deserialize(s) {
            Some((v, rest)) => Some((PacketView::LegacyServerListPingRequest(v), rest)),
            None => None,
        },
        _ => None,
    }
}

/// Reads the packet of the handshaking state sent by the client whose id is `id`.
fn read_packet_handshaking_c2s<'r>(id: u32, reader: &mut &'r [u8]) -> (res: Result<Packet<'r>, ParseError>)
    ensures
        match spec_packet_handshaking_c2s(id, old(reader)@) {
            Some((v, rest)) => (res matches Ok(p) && p.deep_view() == v && final(reader)@ == rest),
            None => res is Err,
        },
        !packet_handshaking_c2s_known(id) ==> (res matches Err(e) && e == ParseError::UnknownPacket(id) && final(reader)@ == old(reader)@),
{
    proof {
        reveal(spec_packet_handshaking_c2s);
    }
    match id {
        0x0 => {
            let p = <handshaking::SetProtocolRequest<'r> as MD<'r>>::deserialize(reader)?;
            Ok(Packet::SetProtocolRequest(p))
        },
        0xfe => {
            let p = <handshaking::LegacyServerListPingRequest as MD<'r>>::deserialize(reader)?;
            Ok(Packet::LegacyServerListPingRequest(p))
        },
        _ => Err(ParseError::UnknownPacket(id)),
    }
}

/// Whether `id` is the id of a packet of the status state sent by the client.
pub open spec fn packet_status_c2s_known(id: u32) -> bool {
    id < 0x2
}

/// The packet of the status state sent by the client whose id is `id`, read from the
/// front of `s`; `None` for an unknown id or bytes that do not hold it.
#[verifier::opaque]
pub open spec fn spec_packet_status_c2s(id: u32, s: Seq<u8>) -> Option<(PacketView, Seq<u8>)> {
    match id {
        0x0 => match <status::PingStartRequest as MD<'static>>::spec_deserialize(s) {
            Some((v, rest)) => Some((PacketView::PingStartRequest(v), rest)),
            None => None,
        },
        0x1 => match <status::PingRequest as MD<'static>>::spec_deserialize(s) {
            Some((v, rest)) => Some((PacketView::PingRequest(v), rest)),
            None => None,
        },
        _ => None,
    }
}

/// Reads the packet of the status state sent by the client whose id is `id`.
fn read_packet_status_c2s<'r>(id: u32, reader: &mut &'r [u8]) -> (res: Result<Packet<'r>, ParseError>)
    ensures
        match spec_packet_status_c2s(id, old(reader)@) {
            Some((v, rest)) => (res matches Ok(p) && p.deep_view() == v && final(reader)@ == rest),
            None => res is Err,
        },
        !packet_status_c2s_known(id) ==> (res matches Err(e) && e == ParseError::UnknownPacket(id) && final(reader)@ == old(reader)@),
{
    proof {
        reveal(spec_packet_status_c2s);
    }
    match id {
        0x0 => {
            let p = <status::PingStartRequest as MD<'r>>::deserialize(reader)?;
            Ok(Packet::PingStartRequest(p))
        },
        0x1 => {
            let p = <status::PingRequest as MD<'r>>::deserialize(reader)?;
            Ok(Packet::PingRequest(p))
        },
        _ => Err(ParseError::UnknownPacket(id)),
    }
}

/// Whether `id` is the id of a packet of the status state sent by the server.
pub open spec fn packet_status_s2c_known(id: u32) -> bool {
    id < 0x2
}

/// The packet of the status state sent by the server whose id is `id`, read from the
/// front of `s`; `None` for an unknown id or bytes that do not hold it.
#[verifier::opaque]
pub open spec fn spec_packet_status_s2c(id: u32, s: Seq<u8>) -> Option<(PacketView, Seq<u8>)> {
    match id {
        0x0 => match <status::ServerInfoResponse<'static> as MD<'static>>::spec_deserialize(s) {
            Some((v, rest)) => Some((PacketView::ServerInfoResponse(v), rest)),
            None => None,
        },
        0x1 => match <status::PingResponse as MD<'static>>::spec_deserialize(s) {
            Some((v, rest)) => Some((PacketView::PingResponse(v), rest)),
            None => None,
        },
        _ => None,
    }
}

/// Reads the packet of the status state sent by the server whose id is `id`.
fn read_packet_status_s2c<'r>(id: u32, reader: &mut &'r [u8]) -> (res: Result<Packet<'r>, ParseError>)
    ensures
        match spec_packet_status_s2c(id, old(reader)@) {
            Some((v, rest)) => (res matches Ok(p) && p.deep_view() == v && final(reader)@ == rest),
            None => res is Err,
        },
        !packet_status_s2c_known(id) ==> (res matches Err(e) && e == ParseError::UnknownPacket(id) && final(reader)@ == old(reader)@),
{
    proof {
        reveal(spec_packet_status_s2c);
    }
    match id {
        0x0 => {
            let p = <status::ServerInfoResponse<'r> as MD<'r>>::deserialize(reader)?;
            Ok(Packet::ServerInfoResponse(p))
        },
        0x1 => {
            let p = <status::PingResponse as MD<'r>>::deserialize(reader)?;
            Ok(Packet::PingResponse(p))
        },
        _ => Err(ParseError::UnknownPacket(id)),
    }
}

/// Whether `id` is the id of a packet of the login state sent by the client.
pub open spec fn packet_login_c2s_known(id: u32) -> bool {
    id < 0x3
}

/// The packet of the login state sent by the client whose id is `id`, read from the
/// front of `s`; `None` for an unknown id or bytes that do not hold it.
#[verifier::opaque]
pub open spec fn spec_packet_login_c2s(id: u32, s: Seq<u8>) -> Option<(PacketView, Seq<u8>)> {
    match id {
        0x0 => match <login::LoginStartRequest<'static> as MD<'static>>::spec_deserialize(s) {
            Some((v, rest)) => Some((PacketView::LoginStartRequest(v), rest)),
            None => None,
        },
        0x1 => match <login::EncryptionBeginRequest<'static> as MD<'static>>::spec_deserialize(s) {
            Some((v, rest)) => Some((PacketView::EncryptionBeginRequest(v), rest)),
            None => None,
        },
        0x2 => match <login::LoginPluginResponse<'static> as MD<'static>>::spec_deserialize(s) {
            Some((v, rest)) => Some((PacketView::LoginPluginResponse(v), rest)),
            None => None,
        },
        _ => None,
    }
}

/// Reads the packet of the login state sent by the client whose id is `id`.
fn read_packet_login_c2s<'r>(id: u32, reader: &mut &'r [u8]) -> (res: Result<Packet<'r>, ParseError>)
    ensures
        match spec_packet_login_c2s(id, old(reader)@) {
            Some((v, rest)) => (res matches Ok(p) && p.deep_view() == v && final(reader)@ == rest),
            None => res is Err,
        },
        !packet_login_c2s_known(id) ==> (res matches Err(e) && e == ParseError::UnknownPacket(id) && final(reader)@ == old(reader)@),
{
    proof {
        reveal(spec_packet_login_c2s);
    }
    match id {
        0x0 => {
            let p = <login::LoginStartRequest<'r> as MD<'r>>::deserialize(reader)?;
            Ok(Packet::LoginStartRequest(p))
        },
        0x1 => {
            let p = <login::EncryptionBeginRequest<'r> as MD<'r>>::deserialize(reader)?;
            Ok(Packet::EncryptionBeginRequest(p))
        },
        0x2 => {
            let p = <login::LoginPluginResponse<'r> as MD<'r>>::deserialize(reader)?;
            Ok(Packet::LoginPluginResponse(p))
        },
        _ => Err(ParseError::UnknownPacket(id)),
    }
}

/// Whether `id` is the id of a packet of the login state sent by the server.
pub open spec fn packet_login_s2c_known(id: u32) -> bool {
    id < 0x5
}

/// The packet of the login state sent by the server whose id is `id`, read from the
/// front of `s`; `None` for an unknown id or bytes that do not hold it.
#[verifier::opaque]
pub open spec fn spec_packet_login_s2c(id: u32, s: Seq<u8>) -> Option<(PacketView, Seq<u8>)> {
    match id {
        0x0 => match <login::DisconnectResponse<'static> as MD<'static>>::spec_deserialize(s) {
            Some((v, rest)) => Some((PacketView::DisconnectResponse(v), rest)),
            None => None,
        },
        0x1 => match <login::EncryptionBeginResponse<'static> as MD<'static>>::spec_deserialize(s) {
            Some((v, rest)) => Some((PacketView::EncryptionBeginResponse(v), rest)),
            None => None,
        },
        0x2 => match <login::SuccessResponse<'static> as MD<'static>>::spec_deserialize(s) {
            Some((v, rest)) => Some((PacketView::SuccessResponse(v), rest)),
            None => None,
        },
        0x3 => match <login::CompressResponse as MD<'static>>::spec_deserialize(s) {
            Some((v, rest)) => Some((PacketView::CompressResponse(v), rest)),
            None => None,
        },
        0x4 => match <login::LoginPluginRequest<'static> as MD<'static>>::spec_deserialize(s) {
            Some((v, rest)) => Some((PacketView::LoginPluginRequest(v), rest)),
            None => None,
        },
        _ => None,
    }
}

/// Reads the packet of the login state sent by the server whose id is `id`.
fn read_packet_login_s2c<'r>(id: u32, reader: &mut &'r [u8]) -> (res: Result<Packet<'r>, ParseError>)
    ensures
        match spec_packet_login_s2c(id, old(reader)@) {
            Some((v, rest)) => (res matches Ok(p) && p.deep_view() == v && final(reader)@ == rest),
            None => res is Err,
        },
        !packet_login_s2c_known(id) ==> (res matches Err(e) && e == ParseError::UnknownPacket(id) && final(reader)@ == old(reader)@),
{
    proof {
        reveal(spec_packet_login_s2c);
    }
    match id {
        0x0 => {
            let p = <login::DisconnectResponse<'r> as MD<'r>>::deserialize(reader)?;
            Ok(Packet::DisconnectResponse(p))
        },
        0x1 => {
            let p = <login::EncryptionBeginResponse<'r> as MD<'r>>::deserialize(reader)?;
            Ok(Packet::EncryptionBeginResponse(p))
        },
        0x2 => {
            let p = <login::SuccessResponse<'r> as MD<'r>>::deserialize(reader)?;
            Ok(Packet::SuccessResponse(p))
        },
        0x3 => {
            let p = <login::CompressResponse as MD<'r>>::deserialize(reader)?;
            Ok(Packet::CompressResponse(p))
        },
        0x4 => {
            let p = <login::LoginPluginRequest<'r> as MD<'r>>::deserialize(reader)?;
            Ok(Packet::LoginPluginRequest(p))
        },
        _ => Err(ParseError::UnknownPacket(id)),
    }
}

/// Whether `id` is the id of a packet of the play state sent by the client.
pub open spec fn packet_play_c2s_known(id: u32) -> bool {
    id < 0x30
}

/// The packet of the play state sent by the client whose id is `id`, read from the
/// front of `s`; `None` for an unknown id or bytes that do not hold it.
#[verifier::opaque]
pub open spec fn spec_packet_play_c2s(id: u32, s: Seq<u8>) -> Option<(PacketView, Seq<u8>)> {
    match id {
        0x0 => match <play::TeleportConfirmRequest as MD<'static>>::spec_deserialize(s) {
            Some((v, rest)) => Some((PacketView::TeleportConfirmRequest(v), rest)),
            None => None,
        },
        0x1 => match <play::QueryBlockNbtRequest as MD<'static>>::spec_deserialize(s) {
            Some((v, rest)) => Some((PacketView::QueryBlockNbtRequest(v), rest)),
            None => None,
        },
        0x2 => match <play::SetDifficultyRequest as MD<'static>>::spec_deserialize(s) {
            Some((v, rest)) => Some((PacketView::SetDifficultyRequest(v), rest)),
            None => None,
        },
        0x3 => match <play::ChatRequest<'static> as MD<'static>>::spec_deserialize(s) {
            Some((v, rest)) => Some((PacketView::ChatRequest(v), rest)),
            None => None,
        },
        0x4 => match <play::ClientCommandRequest as MD<'static>>::spec_deserialize(s) {
            Some((v, rest)) => Some((PacketView::ClientCommandRequest(v), rest)),
            None => None,
        },
        0x5 => match <play::SettingsRequest<'static> as MD<'static>>::spec_deserialize(s) {
            Some((v, rest)) => Some((PacketView::SettingsRequest(v), rest)),
            None => None,
        },
        0x6 => match <play::TabCompleteRequest<'static> as MD<'static>>::spec_deserialize(s) {
            Some((v, rest)) => Some((PacketView::TabCompleteRequest(v), rest)),
            None => None,
        },
        0x7 => match <play::EnchantItemRequest as MD<'static>>::spec_deserialize(s) {
            Some((v, rest)) => Some((PacketView::EnchantItemRequest(v), rest)),
            None => None,
        },
        0x8 => match <play::WindowClickRequest<'static> as MD<'static>>::spec_deserialize(s) {
            Some((v, rest)) => Some((PacketView::WindowClickRequest(v), rest)),
            None => None,
        },
        0x9 => match <play::CloseWindowRequest as MD<'static>>::spec_deserialize(s) {
            Some((v, rest)) => Some((PacketView::CloseWindowRequest(v), rest)),
            None => None,
        },
        0xa => match <play::CustomPayloadRequest<'static> as MD<'static>>::spec_deserialize(s) {
            Some((v, rest)) => Some((PacketView::CustomPayloadRequest(v), rest)),
            None => None,
        },
        0xb => match <play::EditBookRequest<'static> as MD<'static>>::spec_deserialize(s) {
            Some((v, rest)) => Some((PacketView::EditBookRequest(v), rest)),
            None => None,
        },
        0xc => match <play::QueryEntityNbtRequest as MD<'static>>::spec_deserialize(s) {
            Some((v, rest)) => Some((PacketView::QueryEntityNbtRequest(v), rest)),
            None => None,
        },
        0xd => match <play::UseEntityRequest as MD<'static>>::spec_deserialize(s) {
            Some((v, rest)) => Some((PacketView::UseEntityRequest(v), rest)),
            None => None,
        },
        0xe => match <play::GenerateStructureRequest as MD<'static>>::spec_deserialize(s) {
            Some((v, rest)) => Some((PacketView::GenerateStructureRequest(v), rest)),
            None => None,
        },
        0xf => match <play::KeepAliveRequest as MD<'static>>::spec_deserialize(s) {
            Some((v, rest)) => Some((PacketView::KeepAliveRequest(v), rest)),
            None => None,
        },
        0x10 => match <play::LockDifficultyRequest as MD<'static>>::spec_deserialize(s) {
            Some((v, rest)) => Some((PacketView::LockDifficultyRequest(v), rest)),
            None => None,
        },
        0x11 => match <play::PositionRequest as MD<'static>>::spec_deserialize(s) {
            Some((v, rest)) => Some((PacketView::PositionRequest(v), rest)),
            None => None,
        },
        0x12 => match <play::PositionLookRequest as MD<'static>>::spec_deserialize(s) {
            Some((v, rest)) => Some((PacketView::PositionLookRequest(v), rest)),
            None => None,
        },
        0x13 => match <play::LookRequest as MD<'static>>::spec_deserialize(s) {
            Some((v, rest)) => Some((PacketView::LookRequest(v), rest)),
            None => None,
        },
        0x14 => match <play::FlyingRequest as MD<'static>>::spec_deserialize(s) {
            Some((v, rest)) => Some((PacketView::FlyingRequest(v), rest)),
            None => None,
        },
        0x15 => match <play::VehicleMoveRequest as MD<'static>>::spec_deserialize(s) {
            Some((v, rest)) => Some((PacketView::VehicleMoveRequest(v), rest)),
            None => None,
        },
        0x16 => match <play::SteerBoatRequest as MD<'static>>::spec_deserialize(s) {
            Some((v, rest)) => Some((PacketView::SteerBoatRequest(v), rest)),
            None => None,
        },
        0x17 => match <play::PickItemRequest as MD<'static>>::spec_deserialize(s) {
            Some((v, rest)) => Some((PacketView::PickItemRequest(v), rest)),
            None => None,
        },
        0x18 => match <play::CraftRecipeRequest<'static> as MD<'static>>::spec_deserialize(s) {
            Some((v, rest)) => Some((PacketView::CraftRecipeRequest(v), rest)),
            None => None,
        },
        0x19 => match <play::AbilitiesRequest as MD<'static>>::spec_deserialize(s) {
            Some((v, rest)) => Some((PacketView::AbilitiesRequest(v), rest)),
            None => None,
        },
        0x1a => match <play::BlockDigRequest as MD<'static>>::spec_deserialize(s) {
            Some((v, rest)) => Some((PacketView::BlockDigRequest(v), rest)),
            None => None,
        },
        0x1b => match <play::EntityActionRequest as MD<'static>>::spec_deserialize(s) {
            Some((v, rest)) => Some((PacketView::EntityActionRequest(v), rest)),
            None => None,
        },
        0x1c => match <play::SteerVehicleRequest as MD<'static>>::spec_deserialize(s) {
            Some((v, rest)) => Some((PacketView::SteerVehicleRequest(v), rest)),
            None => None,
        },
        0x1d => match <play::PongRequest as MD<'static>>::spec_deserialize(s) {
            Some((v, rest)) => Some((PacketView::PongRequest(v), rest)),
            None => None,
        },
        0x1e => match <play::RecipeBookRequest as MD<'static>>::spec_deserialize(s) {
            Some((v, rest)) => Some((PacketView::RecipeBookRequest(v), rest)),
            None => None,
        },
        0x1f => match <play::DisplayedRecipeRequest<'static> as MD<'static>>::spec_deserialize(s) {
            Some((v, rest)) => Some((PacketView::DisplayedRecipeRequest(v), rest)),
            None => None,
        },
        0x20 => match <play::NameItemRequest<'static> as MD<'static>>::spec_deserialize(s) {
            Some((v, rest)) => Some((PacketView::NameItemRequest(v), rest)),
            None => None,
        },
        0x21 => match <play::ResourcePackReceiveRequest as MD<'static>>::spec_deserialize(s) {
            Some((v, rest)) => Some((PacketView::ResourcePackReceiveRequest(v), rest)),
            None => None,
        },
        0x22 => match <play::AdvancementTabRequest as MD<'static>>::spec_deserialize(s) {
            Some((v, rest)) => Some((PacketView::AdvancementTabRequest(v), rest)),
            None => None,
        },
        0x23 => match <play::SelectTradeRequest as MD<'static>>::spec_deserialize(s) {
            Some((v, rest)) => Some((PacketView::SelectTradeRequest(v), rest)),
            None => None,
        },
        0x24 => match <play::SetBeaconEffectRequest as MD<'static>>::spec_deserialize(s) {
            Some((v, rest)) => Some((PacketView::SetBeaconEffectRequest(v), rest)),
            None => None,
        },
        0x25 => match <play::HeldItemSlotRequest as MD<'static>>::spec_deserialize(s) {
            Some((v, rest)) => Some((PacketView::HeldItemSlotRequest(v), rest)),
            None => None,
        },
        0x26 => match <play::UpdateCommandBlockRequest<'static> as MD<'static>>::spec_deserialize(s) {
            Some((v, rest)) => Some((PacketView::UpdateCommandBlockRequest(v), rest)),
            None => None,
        },
        0x27 => match <play::UpdateCommandBlockMinecartRequest<'static> as MD<'static>>::spec_deserialize(s) {
            Some((v, rest)) => Some((PacketView::UpdateCommandBlockMinecartRequest(v), rest)),
            None => None,
        },
        0x28 => match <play::SetCreativeSlotRequest<'static> as MD<'static>>::spec_deserialize(s) {
            Some((v, rest)) => Some((PacketView::SetCreativeSlotRequest(v), rest)),
            None => None,
        },
        0x29 => match <play::UpdateJigsawBlockRequest<'static> as MD<'static>>::spec_deserialize(s) {
            Some((v, rest)) => Some((PacketView::UpdateJigsawBlockRequest(v), rest)),
            None => None,
        },
        0x2a => match <play::UpdateStructureBlockRequest<'static> as MD<'static>>::spec_deserialize(s) {
            Some((v, rest)) => Some((PacketView::UpdateStructureBlockRequest(v), rest)),
            None => None,
        },
        0x2b => match <play::UpdateSignRequest<'static> as MD<'static>>::spec_deserialize(s) {
            Some((v, rest)) => Some((PacketView::UpdateSignRequest(v), rest)),
            None => None,
        },
        0x2c => match <play::ArmAnimationRequest as MD<'static>>::spec_deserialize(s) {
            Some((v, rest)) => Some((PacketView::ArmAnimationRequest(v), rest)),
            None => None,
        },
        0x2d => match <play::SpectateRequest as MD<'static>>::spec_deserialize(s) {
            Some((v, rest)) => Some((PacketView::SpectateRequest(v), rest)),
            None => None,
        },
        0x2e => match <play::BlockPlaceRequest as MD<'static>>::spec_deserialize(s) {
            Some((v, rest)) => Some((PacketView::BlockPlaceRequest(v), rest)),
            None => None,
        },
        0x2f => match <play::UseItemRequest as MD<'static>>::spec_deserialize(s) {
            Some((v, rest)) => Some((PacketView::UseItemRequest(v), rest)),
            None => None,
        },
        _ => None,
    }
}

/// Reads the packet of the play state sent by the client whose id is `id`, one of
/// the ids from `0x0` below `0x6`.
#[verifier::rlimit(50)]
fn read_packet_play_c2s_0<'r>(id: u32, reader: &mut &'r [u8]) -> (res: Result<Packet<'r>, ParseError>)
    requires
        0x0 <= id && id < 0x6,
    ensures
        match spec_packet_play_c2s(id, old(reader)@) {
            Some((v, rest)) => (res matches Ok(p) && p.deep_view() == v && final(reader)@ == rest),
            None => res is Err,
        },
        !packet_play_c2s_known(id) ==> (res matches Err(e) && e == ParseError::UnknownPacket(id) && final(reader)@ == old(reader)@),
{
    proof {
        reveal(spec_packet_play_c2s);
    }
    match id {
        0x0 => {
            let p = <play::TeleportConfirmRequest as MD<'r>>::deserialize(reader)?;
            Ok(Packet::TeleportConfirmRequest(p))
        },
        0x1 => {
            let p = <play::QueryBlockNbtRequest as MD<'r>>::deserialize(reader)?;
            Ok(Packet::QueryBlockNbtRequest(p))
        },
        0x2 => {
            let p = <play::SetDifficultyRequest as MD<'r>>::deserialize(reader)?;
            Ok(Packet::SetDifficultyRequest(p))
        },
        0x3 => {
            let p = <play::ChatRequest<'r> as MD<'r>>::deserialize(reader)?;
            Ok(Packet::ChatRequest(p))
        },
        0x4 => {
            let p = <play::ClientCommandRequest as MD<'r>>::deserialize(reader)?;
            Ok(Packet::ClientCommandRequest(p))
        },
        0x5 => {
            let p = <play::SettingsRequest<'r> as MD<'r>>::deserialize(reader)?;
            Ok(Packet::SettingsRequest(p))
        },
        _ => Err(ParseError::UnknownPacket(id)),
    }
}

/// Reads the packet of the play state sent by the client whose id is `id`, one of
/// the ids from `0x6` below `0xc`.
#[verifier::rlimit(50)]
fn read_packet_play_c2s_1<'r>(id: u32, reader: &mut &'r [u8]) -> (res: Result<Packet<'r>, ParseError>)
    requires
        0x6 <= id && id < 0xc,
    ensures
        match spec_packet_play_c2s(id, old(reader)@) {
            Some((v, rest)) => (res matches Ok(p) && p.deep_view() == v && final(reader)@ == rest),
            None => res is Err,
        },
        !packet_play_c2s_known(id) ==> (res matches Err(e) && e == ParseError::UnknownPacket(id) && final(reader)@ == old(reader)@),
{
    proof {
        reveal(spec_packet_play_c2s);
    }
    match id {
        0x6 => {
            let p = <play::TabCompleteRequest<'r> as MD<'r>>::deserialize(reader)?;
            Ok(Packet::TabCompleteRequest(p))
        },
        0x7 => {
            let p = <play::EnchantItemRequest as MD<'r>>::deserialize(reader)?;
            Ok(Packet::EnchantItemRequest(p))
        },
        0x8 => {
            let p = <play::WindowClickRequest<'r> as MD<'r>>::deserialize(reader)?;
            Ok(Packet::WindowClickRequest(p))
        },
        0x9 => {
            let p = <play::CloseWindowRequest as MD<'r>>::deserialize(reader)?;
            Ok(Packet::CloseWindowRequest(p))
        },
        0xa => {
            let p = <play::CustomPayloadRequest<'r> as MD<'r>>::deserialize(reader)?;
            Ok(Packet::CustomPayloadRequest(p))
        },
        0xb => {
            let p = <play::EditBookRequest<'r> as MD<'r>>::deserialize(reader)?;
            Ok(Packet::EditBookRequest(p))
        },
        _ => Err(ParseError::UnknownPacket(id)),
    }
}

/// Reads the packet of the play state sent by the client whose id is `id`, one of
/// the ids from `0xc` below `0x12`.
#[verifier::rlimit(50)]
fn read_packet_play_c2s_2<'r>(id: u32, reader: &mut &'r [u8]) -> (res: Result<Packet<'r>, ParseError>)
    requires
        0xc <= id && id < 0x12,
    ensures
        match spec_packet_play_c2s(id, old(reader)@) {
            Some((v, rest)) => (res matches Ok(p) && p.deep_view() == v && final(reader)@ == rest),
            None => res is Err,
        },
        !packet_play_c2s_known(id) ==> (res matches Err(e) && e == ParseError::UnknownPacket(id) && final(reader)@ == old(reader)@),
{
    proof {
        reveal(spec_packet_play_c2s);
    }
    match id {
        0xc => {
            let p = <play::QueryEntityNbtRequest as MD<'r>>::deserialize(reader)?;
            Ok(Packet::QueryEntityNbtRequest(p))
        },
        0xd => {
            let p = <play::UseEntityRequest as MD<'r>>::deserialize(reader)?;
            Ok(Packet::UseEntityRequest(p))
        },
        0xe => {
            let p = <play::GenerateStructureRequest as MD<'r>>::deserialize(reader)?;
            Ok(Packet::GenerateStructureRequest(p))
        },
        0xf => {
            let p = <play::KeepAliveRequest as MD<'r>>::deserialize(reader)?;
            Ok(Packet::KeepAliveRequest(p))
        },
        0x10 => {
            let p = <play::LockDifficultyRequest as MD<'r>>::deserialize(reader)?;
            Ok(Packet::LockDifficultyRequest(p))
        },
        0x11 => {
            let p = <play::PositionRequest as MD<'r>>::deserialize(reader)?;
            Ok(Packet::PositionRequest(p))
        },
        _ => Err(ParseError::UnknownPacket(id)),
    }
}

/// Reads the packet of the play state sent by the client whose id is `id`, one of
/// the ids from `0x12` below `0x18`.
#[verifier::rlimit(50)]
fn read_packet_play_c2s_3<'r>(id: u32, reader: &mut &'r [u8]) -> (res: Result<Packet<'r>, ParseError>)
    requires
        0x12 <= id && id < 0x18,
    ensures
        match spec_packet_play_c2s(id, old(reader)@) {
            Some((v, rest)) => (res matches Ok(p) && p.deep_view() == v && final(reader)@ == rest),
            None => res is Err,
        },
        !packet_play_c2s_known(id) ==> (res matches Err(e) && e == ParseError::UnknownPacket(id) && final(reader)@ == old(reader)@),
{
    proof {
        reveal(spec_packet_play_c2s);
    }
    match id {
        0x12 => {
            let p = <play::PositionLookRequest as MD<'r>>::deserialize(reader)?;
            Ok(Packet::PositionLookRequest(p))
        },
        0x13 => {
            let p = <play::LookRequest as MD<'r>>::deserialize(reader)?;
            Ok(Packet::LookRequest(p))
        },
        0x14 => {
            let p = <play::FlyingRequest as MD<'r>>::deserialize(reader)?;
            Ok(Packet::FlyingRequest(p))
        },
        0x15 => {
            let p = <play::VehicleMoveRequest as MD<'r>>::deserialize(reader)?;
            Ok(Packet::VehicleMoveRequest(p))
        },
        0x16 => {
            let p = <play::SteerBoatRequest as MD<'r>>::deserialize(reader)?;
            Ok(Packet::SteerBoatRequest(p))
        },
        0x17 => {
            let p = <play::PickItemRequest as MD<'r>>::deserialize(reader)?;
            Ok(Packet::PickItemRequest(p))
        },
        _ => Err(ParseError::UnknownPacket(id)),
    }
}

/// Reads the packet of the play state sent by the client whose id is `id`, one of
/// the ids from `0x18` below `0x1e`.
#[verifier::rlimit(50)]
fn read_packet_play_c2s_4<'r>(id: u32, reader: &mut &'r [u8]) -> (res: Result<Packet<'r>, ParseError>)
    requires
        0x18 <= id && id < 0x1e,
    ensures
        match spec_packet_play_c2s(id, old(reader)@) {
            Some((v, rest)) => (res matches Ok(p) && p.deep_view() == v && final(reader)@ == rest),
            None => res is Err,
        },
        !packet_play_c2s_known(id) ==> (res matches Err(e) && e == ParseError::UnknownPacket(id) && final(reader)@ == old(reader)@),
{
    proof {
        reveal(spec_packet_play_c2s);
    }
    match id {
        0x18 => {
            let p = <play::CraftRecipeRequest<'r> as MD<'r>>::deserialize(reader)?;
            Ok(Packet::CraftRecipeRequest(p))
        },
        0x19 => {
            let p = <play::AbilitiesRequest as MD<'r>>::deserialize(reader)?;
            Ok(Packet::AbilitiesRequest(p))
        },
        0x1a => {
            let p = <play::BlockDigRequest as MD<'r>>::deserialize(reader)?;
            Ok(Packet::BlockDigRequest(p))
        },
        0x1b => {
            let p = <play::EntityActionRequest as MD<'r>>::deserialize(reader)?;
            Ok(Packet::EntityActionRequest(p))
        },
        0x1c => {
            let p = <play::SteerVehicleRequest as MD<'r>>::deserialize(reader)?;
            Ok(Packet::SteerVehicleRequest(p))
        },
        0x1d => {
            let p = <play::PongRequest as MD<'r>>::deserialize(reader)?;
            Ok(Packet::PongRequest(p))
        },
        _ => Err(ParseError::UnknownPacket(id)),
    }
}

/// Reads the packet of the play state sent by the client whose id is `id`, one of
/// the ids from `0x1e` below `0x24`.
#[verifier::rlimit(50)]
fn read_packet_play_c2s_5<'r>(id: u32, reader: &mut &'r [u8]) -> (res: Result<Packet<'r>, ParseError>)
    requires
        0x1e <= id && id < 0x24,
    ensures
        match spec_packet_play_c2s(id, old(reader)@) {
            Some((v, rest)) => (res matches Ok(p) && p.deep_view() == v && final(reader)@ == rest),
            None => res is Err,
        },
        !packet_play_c2s_known(id) ==> (res matches Err(e) && e == ParseError::UnknownPacket(id) && final(reader)@ == old(reader)@),
{
    proof {
        reveal(spec_packet_play_c2s);
    }
    match id {
        0x1e => {
            let p = <play::RecipeBookRequest as MD<'r>>::deserialize(reader)?;
            Ok(Packet::RecipeBookRequest(p))
        },
        0x1f => {
            let p = <play::DisplayedRecipeRequest<'r> as MD<'r>>::deserialize(reader)?;
            Ok(Packet::DisplayedRecipeRequest(p))
        },
        0x20 => {
            let p = <play::NameItemRequest<'r> as MD<'r>>::deserialize(reader)?;
            Ok(Packet::NameItemRequest(p))
        },
        0x21 => {
            let p = <play::ResourcePackReceiveRequest as MD<'r>>::deserialize(reader)?;
            Ok(Packet::ResourcePackReceiveRequest(p))
        },
        0x22 => {
            let p = <play::AdvancementTabRequest as MD<'r>>::deserialize(reader)?;
            Ok(Packet::AdvancementTabRequest(p))
        },
        0x23 => {
            let p = <play::SelectTradeRequest as MD<'r>>::deserialize(reader)?;
            Ok(Packet::SelectTradeRequest(p))
        },
        _ => Err(ParseError::UnknownPacket(id)),
    }
}

/// Reads the packet of the play state sent by the client whose id is `id`, one of
/// the ids from `0x24` below `0x2a`.
#[verifier::rlimit(50)]
fn read_packet_play_c2s_6<'r>(id: u32, reader: &mut &'r [u8]) -> (res: Result<Packet<'r>, ParseError>)
    requires
        0x24 <= id && id < 0x2a,
    ensures
        match spec_packet_play_c2s(id, old(reader)@) {
            Some((v, rest)) => (res matches Ok(p) && p.deep_view() == v && final(reader)@ == rest),
            None => res is Err,
        },
        !packet_play_c2s_known(id) ==> (res matches Err(e) && e == ParseError::UnknownPacket(id) && final(reader)@ == old(reader)@),
{
    proof {
        reveal(spec_packet_play_c2s);
    }
    match id {
        0x24 => {
            let p = <play::SetBeaconEffectRequest as MD<'r>>::deserialize(reader)?;
            Ok(Packet::SetBeaconEffectRequest(p))
        },
        0x25 => {
            let p = <play::HeldItemSlotRequest as MD<'r>>::deserialize(reader)?;
            Ok(Packet::HeldItemSlotRequest(p))
        },
        0x26 => {
            let p = <play::UpdateCommandBlockRequest<'r> as MD<'r>>::deserialize(reader)?;
            Ok(Packet::UpdateCommandBlockRequest(p))
        },
        0x27 => {
            let p = <play::UpdateCommandBlockMinecartRequest<'r> as MD<'r>>::deserialize(reader)?;
            Ok(Packet::UpdateCommandBlockMinecartRequest(p))
        },
        0x28 => {
            let p = <play::SetCreativeSlotRequest<'r> as MD<'r>>::deserialize(reader)?;
            Ok(Packet::SetCreativeSlotRequest(p))
        },
        0x29 => {
            let p = <play::UpdateJigsawBlockRequest<'r> as MD<'r>>::deserialize(reader)?;
            Ok(Packet::UpdateJigsawBlockRequest(p))
        },
        _ => Err(ParseError::UnknownPacket(id)),
    }
}

/// Reads the packet of the play state sent by the client whose id is `id`, one of
/// the ids from `0x2a` on.
#[verifier::rlimit(50)]
fn read_packet_play_c2s_7<'r>(id: u32, reader: &mut &'r [u8]) -> (res: Result<Packet<'r>, ParseError>)
    requires
        0x2a <= id,
    ensures
        match spec_packet_play_c2s(id, old(reader)@) {
            Some((v, rest)) => (res matches Ok(p) && p.deep_view() == v && final(reader)@ == rest),
            None => res is Err,
        },
        !packet_play_c2s_known(id) ==> (res matches Err(e) && e == ParseError::UnknownPacket(id) && final(reader)@ == old(reader)@),
{
    proof {
        reveal(spec_packet_play_c2s);
    }
    match id {
        0x2a => {
            let p = <play::UpdateStructureBlockRequest<'r> as MD<'r>>::deserialize(reader)?;
            Ok(Packet::UpdateStructureBlockRequest(p))
        },
        0x2b => {
            let p = <play::UpdateSignRequest<'r> as MD<'r>>::deserialize(reader)?;
            Ok(Packet::UpdateSignRequest(p))
        },
        0x2c => {
            let p = <play::ArmAnimationRequest as MD<'r>>::deserialize(reader)?;
            Ok(Packet::ArmAnimationRequest(p))
        },
        0x2d => {
            let p = <play::SpectateRequest as MD<'r>>::deserialize(reader)?;
            Ok(Packet::SpectateRequest(p))
        },
        0x2e => {
            let p = <play::BlockPlaceRequest as MD<'r>>::deserialize(reader)?;
            Ok(Packet::BlockPlaceRequest(p))
        },
        0x2f => {
            let p = <play::UseItemRequest as MD<'r>>::deserialize(reader)?;
            Ok(Packet::UseItemRequest(p))
        },
        _ => Err(ParseError::UnknownPacket(id)),
    }
}

/// Reads the packet of the play state sent by the client whose id is `id`.
fn read_packet_play_c2s<'r>(id: u32, reader: &mut &'r [u8]) -> (res: Result<Packet<'r>, ParseError>)
    ensures
        match spec_packet_play_c2s(id, old(reader)@) {
            Some((v, rest)) => (res matches Ok(p) && p.deep_view() == v && final(reader)@ == rest),
            None => res is Err,
        },
        !packet_play_c2s_known(id) ==> (res matches Err(e) && e == ParseError::UnknownPacket(id) && final(reader)@ == old(reader)@),
{
    proof {
        reveal(spec_packet_play_c2s);
    }
    if id < 0x6 {
        read_packet_play_c2s_0(id, reader)
    } else if id < 0xc {
        read_packet_play_c2s_1(id, reader)
    } else if id < 0x12 {
        read_packet_play_c2s_2(id, reader)
    } else if id < 0x18 {
        read_packet_play_c2s_3(id, reader)
    } else if id < 0x1e {
        read_packet_play_c2s_4(id, reader)
    } else if id < 0x24 {
        read_packet_play_c2s_5(id, reader)
    } else if id < 0x2a {
        read_packet_play_c2s_6(id, reader)
    } else {
        read_packet_play_c2s_7(id, reader)
    }
}

/// Whether `id` is the id of a packet of the play state sent by the server.
pub open spec fn packet_play_s2c_known(id: u32) -> bool {
    id < 0x68
}

/// The packet of the play state sent by the server whose id is `id`, read from the
/// front of `s`; `None` for an unknown id or bytes that do not hold it.
#[verifier::opaque]
pub open spec fn spec_packet_play_s2c(id: u32, s: Seq<u8>) -> Option<(PacketView, Seq<u8>)> {
    match id {
        0x0 => match <play::SpawnEntityResponse as MD<'static>>::spec_deserialize(s) {
            Some((v, rest)) => Some((PacketView::SpawnEntityResponse(v), rest)),
            None => None,
        },
        0x1 => match <play::SpawnEntityExperienceOrbResponse as MD<'static>>::spec_deserialize(s) {
            Some((v, rest)) => Some((PacketView::SpawnEntityExperienceOrbResponse(v), rest)),
            None => None,
        },
        0x2 => match <play::SpawnEntityLivingResponse as MD<'static>>::spec_deserialize(s) {
            Some((v, rest)) => Some((PacketView::SpawnEntityLivingResponse(v), rest)),
            None => None,
        },
        0x3 => match <play::SpawnEntityPaintingResponse as MD<'static>>::spec_deserialize(s) {
            Some((v, rest)) => Some((PacketView::SpawnEntityPaintingResponse(v), rest)),
            None => None,
        },
        0x4 => match <play::NamedEntitySpawnResponse as MD<'static>>::spec_deserialize(s) {
            Some((v, rest)) => Some((PacketView::NamedEntitySpawnResponse(v), rest)),
            None => None,
        },
        0x5 => match <play::SculkVibrationSignalResponse as MD<'static>>::spec_deserialize(s) {
            Some((v, rest)) => Some((PacketView::SculkVibrationSignalResponse(v), rest)),
            None => None,
        },
        0x6 => match <play::AnimationResponse as MD<'static>>::spec_deserialize(s) {
            Some((v, rest)) => Some((PacketView::AnimationResponse(v), rest)),
            None => None,
        },
        0x7 => match <play::StatisticsResponse as MD<'static>>::spec_deserialize(s) {
            Some((v, rest)) => Some((PacketView::StatisticsResponse(v), rest)),
            None => None,
        },
        0x8 => match <play::AcknowledgePlayerDiggingResponse as MD<'static>>::spec_deserialize(s) {
            Some((v, rest)) => Some((PacketView::AcknowledgePlayerDiggingResponse(v), rest)),
            None => None,
        },
        0x9 => match <play::BlockBreakAnimationResponse as MD<'static>>::spec_deserialize(s) {
            Some((v, rest)) => Some((PacketView::BlockBreakAnimationResponse(v), rest)),
            None => None,
        },
        0xa => match <play::TileEntityDataResponse<'static> as MD<'static>>::spec_deserialize(s) {
            Some((v, rest)) => Some((PacketView::TileEntityDataResponse(v), rest)),
            None => None,
        },
        0xb => match <play::BlockActionResponse as MD<'static>>::spec_deserialize(s) {
            Some((v, rest)) => Some((PacketView::BlockActionResponse(v), rest)),
            None => None,
        },
        0xc => match <play::BlockChangeResponse as MD<'static>>::spec_deserialize(s) {
            Some((v, rest)) => Some((PacketView::BlockChangeResponse(v), rest)),
            None => None,
        },
        0xd => match <play::BossBarResponse as MD<'static>>::spec_deserialize(s) {
            Some((v, rest)) => Some((PacketView::BossBarResponse(v), rest)),
            None => None,
        },
        0xe => match <play::DifficultyResponse as MD<'static>>::spec_deserialize(s) {
            Some((v, rest)) => Some((PacketView::DifficultyResponse(v), rest)),
            None => None,
        },
        0xf => match <play::ChatResponse<'static> as MD<'static>>::spec_deserialize(s) {
            Some((v, rest)) => Some((PacketView::ChatResponse(v), rest)),
            None => None,
        },
        0x10 => match <play::ClearTitlesResponse as MD<'static>>::spec_deserialize(s) {
            Some((v, rest)) => Some((PacketView::ClearTitlesResponse(v), rest)),
            None => None,
        },
        0x11 => match <play::TabCompleteResponse<'static> as MD<'static>>::spec_deserialize(s) {
            Some((v, rest)) => Some((PacketView::TabCompleteResponse(v), rest)),
            None => None,
        },
        0x12 => match <play::DeclareCommandsResponse as MD<'static>>::spec_deserialize(s) {
            Some((v, rest)) => Some((PacketView::DeclareCommandsResponse(v), rest)),
            None => None,
        },
        0x13 => match <play::CloseWindowResponse as MD<'static>>::spec_deserialize(s) {
            Some((v, rest)) => Some((PacketView::CloseWindowResponse(v), rest)),
            None => None,
        },
        0x14 => match <play::WindowItemsResponse<'static> as MD<'static>>::spec_deserialize(s) {
            Some((v, rest)) => Some((PacketView::WindowItemsResponse(v), rest)),
            None => None,
        },
        0x15 => match <play::CraftProgressBarResponse as MD<'static>>::spec_deserialize(s) {
            Some((v, rest)) => Some((PacketView::CraftProgressBarResponse(v), rest)),
            None => None,
        },
        0x16 => match <play::SetSlotResponse<'static> as MD<'static>>::spec_deserialize(s) {
            Some((v, rest)) => Some((PacketView::SetSlotResponse(v), rest)),
            None => None,
        },
        0x17 => match <play::SetCooldownResponse as MD<'static>>::spec_deserialize(s) {
            Some((v, rest)) => Some((PacketView::SetCooldownResponse(v), rest)),
            None => None,
        },
        0x18 => match <play::CustomPayloadResponse<'static> as MD<'static>>::spec_deserialize(s) {
            Some((v, rest)) => Some((PacketView::CustomPayloadResponse(v), rest)),
            None => None,
        },
        0x19 => match <play::NamedSoundEffectResponse<'static> as MD<'static>>::spec_deserialize(s) {
            Some((v, rest)) => Some((PacketView::NamedSoundEffectResponse(v), rest)),
            None => None,
        },
        0x1a => match <play::KickDisconnectResponse<'static> as MD<'static>>::spec_deserialize(s) {
            Some((v, rest)) => Some((PacketView::KickDisconnectResponse(v), rest)),
            None => None,
        },
        0x1b => match <play::EntityStatusResponse as MD<'static>>::spec_deserialize(s) {
            Some((v, rest)) => Some((PacketView::EntityStatusResponse(v), rest)),
            None => None,
        },
        0x1c => match <play::ExplosionResponse as MD<'static>>::spec_deserialize(s) {
            Some((v, rest)) => Some((PacketView::ExplosionResponse(v), rest)),
            None => None,
        },
        0x1d => match <play::UnloadChunkResponse as MD<'static>>::spec_deserialize(s) {
            Some((v, rest)) => Some((PacketView::UnloadChunkResponse(v), rest)),
            None => None,
        },
        0x1e => match <play::GameStateChangeResponse as MD<'static>>::spec_deserialize(s) {
            Some((v, rest)) => Some((PacketView::GameStateChangeResponse(v), rest)),
            None => None,
        },
        0x1f => match <play::OpenHorseWindowResponse as MD<'static>>::spec_deserialize(s) {
            Some((v, rest)) => Some((PacketView::OpenHorseWindowResponse(v), rest)),
            None => None,
        },
        0x20 => match <play::InitializeWorldBorderResponse as MD<'static>>::spec_deserialize(s) {
            Some((v, rest)) => Some((PacketView::InitializeWorldBorderResponse(v), rest)),
            None => None,
        },
        0x21 => match <play::KeepAliveResponse as MD<'static>>::spec_deserialize(s) {
            Some((v, rest)) => Some((PacketView::KeepAliveResponse(v), rest)),
            None => None,
        },
        0x22 => match <play::MapChunkResponse<'static> as MD<'static>>::spec_deserialize(s) {
            Some((v, rest)) => Some((PacketView::MapChunkResponse(v), rest)),
            None => None,
        },
        0x23 => match <play::WorldEventResponse as MD<'static>>::spec_deserialize(s) {
            Some((v, rest)) => Some((PacketView::WorldEventResponse(v), rest)),
            None => None,
        },
        0x24 => match <play::WorldParticlesResponse as MD<'static>>::spec_deserialize(s) {
            Some((v, rest)) => Some((PacketView::WorldParticlesResponse(v), rest)),
            None => None,
        },
        0x25 => match <play::UpdateLightResponse<'static> as MD<'static>>::spec_deserialize(s) {
            Some((v, rest)) => Some((PacketView::UpdateLightResponse(v), rest)),
            None => None,
        },
        0x26 => match <play::LoginResponse<'static> as MD<'static>>::spec_deserialize(s) {
            Some((v, rest)) => Some((PacketView::LoginResponse(v), rest)),
            None => None,
        },
        0x27 => match <play::MapResponse as MD<'static>>::spec_deserialize(s) {
            Some((v, rest)) => Some((PacketView::MapResponse(v), rest)),
            None => None,
        },
        0x28 => match <play::TradeListResponse<'static> as MD<'static>>::spec_deserialize(s) {
            Some((v, rest)) => Some((PacketView::TradeListResponse(v), rest)),
            None => None,
        },
        0x29 => match <play::RelEntityMoveResponse as MD<'static>>::spec_deserialize(s) {
            Some((v, rest)) => Some((PacketView::RelEntityMoveResponse(v), rest)),
            None => None,
        },
        0x2a => match <play::EntityMoveLookResponse as MD<'static>>::spec_deserialize(s) {
            Some((v, rest)) => Some((PacketView::EntityMoveLookResponse(v), rest)),
            None => None,
        },
        0x2b => match <play::EntityLookResponse as MD<'static>>::spec_deserialize(s) {
            Some((v, rest)) => Some((PacketView::EntityLookResponse(v), rest)),
            None => None,
        },
        0x2c => match <play::VehicleMoveResponse as MD<'static>>::spec_deserialize(s) {
            Some((v, rest)) => Some((PacketView::VehicleMoveResponse(v), rest)),
            None => None,
        },
        0x2d => match <play::OpenBookResponse as MD<'static>>::spec_deserialize(s) {
            Some((v, rest)) => Some((PacketView::OpenBookResponse(v), rest)),
            None => None,
        },
        0x2e => match <play::OpenWindowResponse<'static> as MD<'static>>::spec_deserialize(s) {
            Some((v, rest)) => Some((PacketView::OpenWindowResponse(v), rest)),
            None => None,
        },
        0x2f => match <play::OpenSignEntityResponse as MD<'static>>::spec_deserialize(s) {
            Some((v, rest)) => Some((PacketView::OpenSignEntityResponse(v), rest)),
            None => None,
        },
        0x30 => match <play::PlayPingResponse as MD<'static>>::spec_deserialize(s) {
            Some((v, rest)) => Some((PacketView::PlayPingResponse(v), rest)),
            None => None,
        },
        0x31 => match <play::CraftRecipeResponse<'static> as MD<'static>>::spec_deserialize(s) {
            Some((v, rest)) => Some((PacketView::CraftRecipeResponse(v), rest)),
            None => None,
        },
        0x32 => match <play::AbilitiesResponse as MD<'static>>::spec_deserialize(s) {
            Some((v, rest)) => Some((PacketView::AbilitiesResponse(v), rest)),
            None => None,
        },
        0x33 => match <play::EndCombatEventResponse as MD<'static>>::spec_deserialize(s) {
            Some((v, rest)) => Some((PacketView::EndCombatEventResponse(v), rest)),
            None => None,
        },
        0x34 => match <play::EnterCombatEventResponse as MD<'static>>::spec_deserialize(s) {
            Some((v, rest)) => Some((PacketView::EnterCombatEventResponse(v), rest)),
            None => None,
        },
        0x35 => match <play::DeathCombatEventResponse<'static> as MD<'static>>::spec_deserialize(s) {
            Some((v, rest)) => Some((PacketView::DeathCombatEventResponse(v), rest)),
            None => None,
        },
        0x36 => match <play::PlayerInfoResponse as MD<'static>>::spec_deserialize(s) {
            Some((v, rest)) => Some((PacketView::PlayerInfoResponse(v), rest)),
            None => None,
        },
        0x37 => match <play::FacePlayerResponse as MD<'static>>::spec_deserialize(s) {
            Some((v, rest)) => Some((PacketView::FacePlayerResponse(v), rest)),
            None => None,
        },
        0x38 => match <play::PositionResponse as MD<'static>>::spec_deserialize(s) {
            Some((v, rest)) => Some((PacketView::PositionResponse(v), rest)),
            None => None,
        },
        0x39 => match <play::UnlockRecipesResponse as MD<'static>>::spec_deserialize(s) {
            Some((v, rest)) => Some((PacketView::UnlockRecipesResponse(v), rest)),
            None => None,
        },
        0x3a => match <play::EntityDestroyResponse as MD<'static>>::spec_deserialize(s) {
            Some((v, rest)) => Some((PacketView::EntityDestroyResponse(v), rest)),
            None => None,
        },
        0x3b => match <play::RemoveEntityEffectResponse as MD<'static>>::spec_deserialize(s) {
            Some((v, rest)) => Some((PacketView::RemoveEntityEffectResponse(v), rest)),
            None => None,
        },
        0x3c => match <play::ResourcePackSendResponse<'static> as MD<'static>>::spec_deserialize(s) {
            Some((v, rest)) => Some((PacketView::ResourcePackSendResponse(v), rest)),
            None => None,
        },
        0x3d => match <play::RespawnResponse<'static> as MD<'static>>::spec_deserialize(s) {
            Some((v, rest)) => Some((PacketView::RespawnResponse(v), rest)),
            None => None,
        },
        0x3e => match <play::EntityHeadRotationResponse as MD<'static>>::spec_deserialize(s) {
            Some((v, rest)) => Some((PacketView::EntityHeadRotationResponse(v), rest)),
            None => None,
        },
        0x3f => match <play::MultiBlockChangeResponse as MD<'static>>::spec_deserialize(s) {
            Some((v, rest)) => Some((PacketView::MultiBlockChangeResponse(v), rest)),
            None => None,
        },
        0x40 => match <play::SelectAdvancementTabResponse<'static> as MD<'static>>::spec_deserialize(s) {
            Some((v, rest)) => Some((PacketView::SelectAdvancementTabResponse(v), rest)),
            None => None,
        },
        0x41 => match <play::ActionBarResponse<'static> as MD<'static>>::spec_deserialize(s) {
            Some((v, rest)) => Some((PacketView::ActionBarResponse(v), rest)),
            None => None,
        },
        0x42 => match <play::WorldBorderCenterResponse as MD<'static>>::spec_deserialize(s) {
            Some((v, rest)) => Some((PacketView::WorldBorderCenterResponse(v), rest)),
            None => None,
        },
        0x43 => match <play::WorldBorderLerpSizeResponse as MD<'static>>::spec_deserialize(s) {
            Some((v, rest)) => Some((PacketView::WorldBorderLerpSizeResponse(v), rest)),
            None => None,
        },
        0x44 => match <play::WorldBorderSizeResponse as MD<'static>>::spec_deserialize(s) {
            Some((v, rest)) => Some((PacketView::WorldBorderSizeResponse(v), rest)),
            None => None,
        },
        0x45 => match <play::WorldBorderWarningDelayResponse as MD<'static>>::spec_deserialize(s) {
            Some((v, rest)) => Some((PacketView::WorldBorderWarningDelayResponse(v), rest)),
            None => None,
        },
        0x46 => match <play::WorldBorderWarningReachResponse as MD<'static>>::spec_deserialize(s) {
            Some((v, rest)) => Some((PacketView::WorldBorderWarningReachResponse(v), rest)),
            None => None,
        },
        0x47 => match <play::CameraResponse as MD<'static>>::spec_deserialize(s) {
            Some((v, rest)) => Some((PacketView::CameraResponse(v), rest)),
            None => None,
        },
        0x48 => match <play::HeldItemSlotResponse as MD<'static>>::spec_deserialize(s) {
            Some((v, rest)) => Some((PacketView::HeldItemSlotResponse(v), rest)),
            None => None,
        },
        0x49 => match <play::UpdateViewPositionResponse as MD<'static>>::spec_deserialize(s) {
            Some((v, rest)) => Some((PacketView::UpdateViewPositionResponse(v), rest)),
            None => None,
        },
        0x4a => match <play::UpdateViewDistanceResponse as MD<'static>>::spec_deserialize(s) {
            Some((v, rest)) => Some((PacketView::UpdateViewDistanceResponse(v), rest)),
            None => None,
        },
        0x4b => match <play::SpawnPositionResponse as MD<'static>>::spec_deserialize(s) {
            Some((v, rest)) => Some((PacketView::SpawnPositionResponse(v), rest)),
            None => None,
        },
        0x4c => match <play::ScoreboardDisplayObjectiveResponse<'static> as MD<'static>>::spec_deserialize(s) {
            Some((v, rest)) => Some((PacketView::ScoreboardDisplayObjectiveResponse(v), rest)),
            None => None,
        },
        0x4d => match <play::EntityMetadataResponse as MD<'static>>::spec_deserialize(s) {
            Some((v, rest)) => Some((PacketView::EntityMetadataResponse(v), rest)),
            None => None,
        },
        0x4e => match <play::AttachEntityResponse as MD<'static>>::spec_deserialize(s) {
            Some((v, rest)) => Some((PacketView::AttachEntityResponse(v), rest)),
            None => None,
        },
        0x4f => match <play::EntityVelocityResponse as MD<'static>>::spec_deserialize(s) {
            Some((v, rest)) => Some((PacketView::EntityVelocityResponse(v), rest)),
            None => None,
        },
        0x50 => match <play::EntityEquipmentResponse as MD<'static>>::spec_deserialize(s) {
            Some((v, rest)) => Some((PacketView::EntityEquipmentResponse(v), rest)),
            None => None,
        },
        0x51 => match <play::ExperienceResponse as MD<'static>>::spec_deserialize(s) {
            Some((v, rest)) => Some((PacketView::ExperienceResponse(v), rest)),
            None => None,
        },
        0x52 => match <play::UpdateHealthResponse as MD<'static>>::spec_deserialize(s) {
            Some((v, rest)) => Some((PacketView::UpdateHealthResponse(v), rest)),
            None => None,
        },
        0x53 => match <play::ScoreboardObjectiveResponse as MD<'static>>::spec_deserialize(s) {
            Some((v, rest)) => Some((PacketView::ScoreboardObjectiveResponse(v), rest)),
            None => None,
        },
        0x54 => match <play::SetPassengersResponse as MD<'static>>::spec_deserialize(s) {
            Some((v, rest)) => Some((PacketView::SetPassengersResponse(v), rest)),
            None => None,
        },
        0x55 => match <play::TeamsResponse as MD<'static>>::spec_deserialize(s) {
            Some((v, rest)) => Some((PacketView::TeamsResponse(v), rest)),
            None => None,
        },
        0x56 => match <play::ScoreboardScoreResponse as MD<'static>>::spec_deserialize(s) {
            Some((v, rest)) => Some((PacketView::ScoreboardScoreResponse(v), rest)),
            None => None,
        },
        0x57 => match <play::SimulationDistanceResponse as MD<'static>>::spec_deserialize(s) {
            Some((v, rest)) => Some((PacketView::SimulationDistanceResponse(v), rest)),
            None => None,
        },
        0x58 => match <play::SetTitleSubtitleResponse<'static> as MD<'static>>::spec_deserialize(s) {
            Some((v, rest)) => Some((PacketView::SetTitleSubtitleResponse(v), rest)),
            None => None,
        },
        0x59 => match <play::UpdateTimeResponse as MD<'static>>::spec_deserialize(s) {
            Some((v, rest)) => Some((PacketView::UpdateTimeResponse(v), rest)),
            None => None,
        },
        0x5a => match <play::SetTitleTextResponse<'static> as MD<'static>>::spec_deserialize(s) {
            Some((v, rest)) => Some((PacketView::SetTitleTextResponse(v), rest)),
            None => None,
        },
        0x5b => match <play::SetTitleTimeResponse as MD<'static>>::spec_deserialize(s) {
            Some((v, rest)) => Some((PacketView::SetTitleTimeResponse(v), rest)),
            None => None,
        },
        0x5c => match <play::EntitySoundEffectResponse as MD<'static>>::spec_deserialize(s) {
            Some((v, rest)) => Some((PacketView::EntitySoundEffectResponse(v), rest)),
            None => None,
        },
        0x5d => match <play::SoundEffectResponse as MD<'static>>::spec_deserialize(s) {
            Some((v, rest)) => Some((PacketView::SoundEffectResponse(v), rest)),
            None => None,
        },
        0x5e => match <play::StopSoundResponse as MD<'static>>::spec_deserialize(s) {
            Some((v, rest)) => Some((PacketView::StopSoundResponse(v), rest)),
            None => None,
        },
        0x5f => match <play::PlayerlistHeaderResponse<'static> as MD<'static>>::spec_deserialize(s) {
            Some((v, rest)) => Some((PacketView::PlayerlistHeaderResponse(v), rest)),
            None => None,
        },
        0x60 => match <play::NbtQueryResponse<'static> as MD<'static>>::spec_deserialize(s) {
            Some((v, rest)) => Some((PacketView::NbtQueryResponse(v), rest)),
            None => None,
        },
        0x61 => match <play::CollectResponse as MD<'static>>::spec_deserialize(s) {
            Some((v, rest)) => Some((PacketView::CollectResponse(v), rest)),
            None => None,
        },
        0x62 => match <play::EntityTeleportResponse as MD<'static>>::spec_deserialize(s) {
            Some((v, rest)) => Some((PacketView::EntityTeleportResponse(v), rest)),
            None => None,
        },
        0x63 => match <play::AdvancementsResponse as MD<'static>>::spec_deserialize(s) {
            Some((v, rest)) => Some((PacketView::AdvancementsResponse(v), rest)),
            None => None,
        },
        0x64 => match <play::EntityUpdateAttributesResponse<'static> as MD<'static>>::spec_deserialize(s) {
            Some((v, rest)) => Some((PacketView::EntityUpdateAttributesResponse(v), rest)),
            None => None,
        },
        0x65 => match <play::EntityEffectResponse as MD<'static>>::spec_deserialize(s) {
            Some((v, rest)) => Some((PacketView::EntityEffectResponse(v), rest)),
            None => None,
        },
        0x66 => match <play::DeclareRecipesResponse as MD<'static>>::spec_deserialize(s) {
            Some((v, rest)) => Some((PacketView::DeclareRecipesResponse(v), rest)),
            None => None,
        },
        0x67 => match <play::TagsResponse as MD<'static>>::spec_deserialize(s) {
            Some((v, rest)) => Some((PacketView::TagsResponse(v), rest)),
            None => None,
        },
        _ => None,
    }
}

/// Reads the packet of the play state sent by the server whose id is `id`, one of
/// the ids from `0x0` below `0x6`.
#[verifier::rlimit(50)]
fn read_packet_play_s2c_0<'r>(id: u32, reader: &mut &'r [u8]) -> (res: Result<Packet<'r>, ParseError>)
    requires
        0x0 <= id && id < 0x6,
    ensures
        match spec_packet_play_s2c(id, old(reader)@) {
            Some((v, rest)) => (res matches Ok(p) && p.deep_view() == v && final(reader)@ == rest),
            None => res is Err,
        },
        !packet_play_s2c_known(id) ==> (res matches Err(e) && e == ParseError::UnknownPacket(id) && final(reader)@ == old(reader)@),
{
    proof {
        reveal(spec_packet_play_s2c);
    }
    match id {
        0x0 => {
            let p = <play::SpawnEntityResponse as MD<'r>>::deserialize(reader)?;
            Ok(Packet::SpawnEntityResponse(p))
        },
        0x1 => {
            let p = <play::SpawnEntityExperienceOrbResponse as MD<'r>>::deserialize(reader)?;
            Ok(Packet::SpawnEntityExperienceOrbResponse(p))
        },
        0x2 => {
            let p = <play::SpawnEntityLivingResponse as MD<'r>>::deserialize(reader)?;
            Ok(Packet::SpawnEntityLivingResponse(p))
        },
        0x3 => {
            let p = <play::SpawnEntityPaintingResponse as MD<'r>>::deserialize(reader)?;
            Ok(Packet::SpawnEntityPaintingResponse(p))
        },
        0x4 => {
            let p = <play::NamedEntitySpawnResponse as MD<'r>>::deserialize(reader)?;
            Ok(Packet::NamedEntitySpawnResponse(p))
        },
        0x5 => {
            let p = <play::SculkVibrationSignalResponse as MD<'r>>::deserialize(reader)?;
            Ok(Packet::SculkVibrationSignalResponse(p))
        },
        _ => Err(ParseError::UnknownPacket(id)),
    }
}

/// Reads the packet of the play state sent by the server whose id is `id`, one of
/// the ids from `0x6` below `0xc`.
#[verifier::rlimit(50)]
fn read_packet_play_s2c_1<'r>(id: u32, reader: &mut &'r [u8]) -> (res: Result<Packet<'r>, ParseError>)
    requires
        0x6 <= id && id < 0xc,
    ensures
        match spec_packet_play_s2c(id, old(reader)@) {
            Some((v, rest)) => (res matches Ok(p) && p.deep_view() == v && final(reader)@ == rest),
            None => res is Err,
        },
        !packet_play_s2c_known(id) ==> (res matches Err(e) && e == ParseError::UnknownPacket(id) && final(reader)@ == old(reader)@),
{
    proof {
        reveal(spec_packet_play_s2c);
    }
    match id {
        0x6 => {
            let p = <play::AnimationResponse as MD<'r>>::deserialize(reader)?;
            Ok(Packet::AnimationResponse(p))
        },
        0x7 => {
            let p = <play::StatisticsResponse as MD<'r>>::deserialize(reader)?;
            Ok(Packet::StatisticsResponse(p))
        },
        0x8 => {
            let p = <play::AcknowledgePlayerDiggingResponse as MD<'r>>::deserialize(reader)?;
            Ok(Packet::AcknowledgePlayerDiggingResponse(p))
        },
        0x9 => {
            let p = <play::BlockBreakAnimationResponse as MD<'r>>::deserialize(reader)?;
            Ok(Packet::BlockBreakAnimationResponse(p))
        },
        0xa => {
            let p = <play::TileEntityDataResponse<'r> as MD<'r>>::deserialize(reader)?;
            Ok(Packet::TileEntityDataResponse(p))
        },
        0xb => {
            let p = <play::BlockActionResponse as MD<'r>>::deserialize(reader)?;
            Ok(Packet::BlockActionResponse(p))
        },
        _ => Err(ParseError::UnknownPacket(id)),
    }
}

/// Reads the packet of the play state sent by the server whose id is `id`, one of
/// the ids from `0xc` below `0x12`.
#[verifier::rlimit(50)]
fn read_packet_play_s2c_2<'r>(id: u32, reader: &mut &'r [u8]) -> (res: Result<Packet<'r>, ParseError>)
    requires
        0xc <= id && id < 0x12,
    ensures
        match spec_packet_play_s2c(id, old(reader)@) {
            Some((v, rest)) => (res matches Ok(p) && p.deep_view() == v && final(reader)@ == rest),
            None => res is Err,
        },
        !packet_play_s2c_known(id) ==> (res matches Err(e) && e == ParseError::UnknownPacket(id) && final(reader)@ == old(reader)@),
{
    proof {
        reveal(spec_packet_play_s2c);
    }
    match id {
        0xc => {
            let p = <play::BlockChangeResponse as MD<'r>>::deserialize(reader)?;
            Ok(Packet::BlockChangeResponse(p))
        },
        0xd => {
            let p = <play::BossBarResponse as MD<'r>>::deserialize(reader)?;
            Ok(Packet::BossBarResponse(p))
        },
        0xe => {
            let p = <play::DifficultyResponse as MD<'r>>::deserialize(reader)?;
            Ok(Packet::DifficultyResponse(p))
        },
        0xf => {
            let p = <play::ChatResponse<'r> as MD<'r>>::deserialize(reader)?;
            Ok(Packet::ChatResponse(p))
        },
        0x10 => {
            let p = <play::ClearTitlesResponse as MD<'r>>::deserialize(reader)?;
            Ok(Packet::ClearTitlesResponse(p))
        },
        0x11 => {
            let p = <play::TabCompleteResponse<'r> as MD<'r>>::deserialize(reader)?;
            Ok(Packet::TabCompleteResponse(p))
        },
        _ => Err(ParseError::UnknownPacket(id)),
    }
}

/// Reads the packet of the play state sent by the server whose id is `id`, one of
/// the ids from `0x12` below `0x18`.
#[verifier::rlimit(50)]
fn read_packet_play_s2c_3<'r>(id: u32, reader: &mut &'r [u8]) -> (res: Result<Packet<'r>, ParseError>)
    requires
        0x12 <= id && id < 0x18,
    ensures
        match spec_packet_play_s2c(id, old(reader)@) {
            Some((v, rest)) => (res matches Ok(p) && p.deep_view() == v && final(reader)@ == rest),
            None => res is Err,
        },
        !packet_play_s2c_known(id) ==> (res matches Err(e) && e == ParseError::UnknownPacket(id) && final(reader)@ == old(reader)@),
{
    proof {
        reveal(spec_packet_play_s2c);
    }
    match id {
        0x12 => {
            let p = <play::DeclareCommandsResponse as MD<'r>>::deserialize(reader)?;
            Ok(Packet::DeclareCommandsResponse(p))
        },
        0x13 => {
            let p = <play::CloseWindowResponse as MD<'r>>::deserialize(reader)?;
            Ok(Packet::CloseWindowResponse(p))
        },
        0x14 => {
            let p = <play::WindowItemsResponse<'r> as MD<'r>>::deserialize(reader)?;
            Ok(Packet::WindowItemsResponse(p))
        },
        0x15 => {
            let p = <play::CraftProgressBarResponse as MD<'r>>::deserialize(reader)?;
            Ok(Packet::CraftProgressBarResponse(p))
        },
        0x16 => {
            let p = <play::SetSlotResponse<'r> as MD<'r>>::deserialize(reader)?;
            Ok(Packet::SetSlotResponse(p))
        },
        0x17 => {
            let p = <play::SetCooldownResponse as MD<'r>>::deserialize(reader)?;
            Ok(Packet::SetCooldownResponse(p))
        },
        _ => Err(ParseError::UnknownPacket(id)),
    }
}

/// Reads the packet of the play state sent by the server whose id is `id`, one of
/// the ids from `0x18` below `0x1e`.
#[verifier::rlimit(50)]
fn read_packet_play_s2c_4<'r>(id: u32, reader: &mut &'r [u8]) -> (res: Result<Packet<'r>, ParseError>)
    requires
        0x18 <= id && id < 0x1e,
    ensures
        match spec_packet_play_s2c(id, old(reader)@) {
            Some((v, rest)) => (res matches Ok(p) && p.deep_view() == v && final(reader)@ == rest),
            None => res is Err,
        },
        !packet_play_s2c_known(id) ==> (res matches Err(e) && e == ParseError::UnknownPacket(id) && final(reader)@ == old(reader)@),
{
    proof {
        reveal(spec_packet_play_s2c);
    }
    match id {
        0x18 => {
            let p = <play::CustomPayloadResponse<'r> as MD<'r>>::deserialize(reader)?;
            Ok(Packet::CustomPayloadResponse(p))
        },
        0x19 => {
            let p = <play::NamedSoundEffectResponse<'r> as MD<'r>>::deserialize(reader)?;
            Ok(Packet::NamedSoundEffectResponse(p))
        },
        0x1a => {
            let p = <play::KickDisconnectResponse<'r> as MD<'r>>::deserialize(reader)?;
            Ok(Packet::KickDisconnectResponse(p))
        },
        0x1b => {
            let p = <play::EntityStatusResponse as MD<'r>>::deserialize(reader)?;
            Ok(Packet::EntityStatusResponse(p))
        },
        0x1c => {
            let p = <play::ExplosionResponse as MD<'r>>::deserialize(reader)?;
            Ok(Packet::ExplosionResponse(p))
        },
        0x1d => {
            let p = <play::UnloadChunkResponse as MD<'r>>::deserialize(reader)?;
            Ok(Packet::UnloadChunkResponse(p))
        },
        _ => Err(ParseError::UnknownPacket(id)),
    }
}

/// Reads the packet of the play state sent by the server whose id is `id`, one of
/// the ids from `0x1e` below `0x24`.
#[verifier::rlimit(50)]
fn read_packet_play_s2c_5<'r>(id: u32, reader: &mut &'r [u8]) -> (res: Result<Packet<'r>, ParseError>)
    requires
        0x1e <= id && id < 0x24,
    ensures
        match spec_packet_play_s2c(id, old(reader)@) {
            Some((v, rest)) => (res matches Ok(p) && p.deep_view() == v && final(reader)@ == rest),
            None => res is Err,
        },
        !packet_play_s2c_known(id) ==> (res matches Err(e) && e == ParseError::UnknownPacket(id) && final(reader)@ == old(reader)@),
{
    proof {
        reveal(spec_packet_play_s2c);
    }
    match id {
        0x1e => {
            let p = <play::GameStateChangeResponse as MD<'r>>::deserialize(reader)?;
            Ok(Packet::GameStateChangeResponse(p))
        },
        0x1f => {
            let p = <play::OpenHorseWindowResponse as MD<'r>>::deserialize(reader)?;
            Ok(Packet::OpenHorseWindowResponse(p))
        },
        0x20 => {
            let p = <play::InitializeWorldBorderResponse as MD<'r>>::deserialize(reader)?;
            Ok(Packet::InitializeWorldBorderResponse(p))
        },
        0x21 => {
            let p = <play::KeepAliveResponse as MD<'r>>::deserialize(reader)?;
            Ok(Packet::KeepAliveResponse(p))
        },
        0x22 => {
            let p = <play::MapChunkResponse<'r> as MD<'r>>::deserialize(reader)?;
            Ok(Packet::MapChunkResponse(p))
        },
        0x23 => {
            let p = <play::WorldEventResponse as MD<'r>>::deserialize(reader)?;
            Ok(Packet::WorldEventResponse(p))
        },
        _ => Err(ParseError::UnknownPacket(id)),
    }
}

/// Reads the packet of the play state sent by the server whose id is `id`, one of
/// the ids from `0x24` below `0x2a`.
#[verifier::rlimit(50)]
fn read_packet_play_s2c_6<'r>(id: u32, reader: &mut &'r [u8]) -> (res: Result<Packet<'r>, ParseError>)
    requires
        0x24 <= id && id < 0x2a,
    ensures
        match spec_packet_play_s2c(id, old(reader)@) {
            Some((v, rest)) => (res matches Ok(p) && p.deep_view() == v && final(reader)@ == rest),
            None => res is Err,
        },
        !packet_play_s2c_known(id) ==> (res matches Err(e) && e == ParseError::UnknownPacket(id) && final(reader)@ == old(reader)@),
{
    proof {
        reveal(spec_packet_play_s2c);
    }
    match id {
        0x24 => {
            let p = <play::WorldParticlesResponse as MD<'r>>::deserialize(reader)?;
            Ok(Packet::WorldParticlesResponse(p))
        },
        0x25 => {
            let p = <play::UpdateLightResponse<'r> as MD<'r>>::deserialize(reader)?;
            Ok(Packet::UpdateLightResponse(p))
        },
        0x26 => {
            let p = <play::LoginResponse<'r> as MD<'r>>::deserialize(reader)?;
            Ok(Packet::LoginResponse(p))
        },
        0x27 => {
            let p = <play::MapResponse as MD<'r>>::deserialize(reader)?;
            Ok(Packet::MapResponse(p))
        },
        0x28 => {
            let p = <play::TradeListResponse<'r> as MD<'r>>::deserialize(reader)?;
            Ok(Packet::TradeListResponse(p))
        },
        0x29 => {
            let p = <play::RelEntityMoveResponse as MD<'r>>::deserialize(reader)?;
            Ok(Packet::RelEntityMoveResponse(p))
        },
        _ => Err(ParseError::UnknownPacket(id)),
    }
}

/// Reads the packet of the play state sent by the server whose id is `id`, one of
/// the ids from `0x2a` below `0x30`.
#[verifier::rlimit(50)]
fn read_packet_play_s2c_7<'r>(id: u32, reader: &mut &'r [u8]) -> (res: Result<Packet<'r>, ParseError>)
    requires
        0x2a <= id && id < 0x30,
    ensures
        match spec_packet_play_s2c(id, old(reader)@) {
            Some((v, rest)) => (res matches Ok(p) && p.deep_view() == v && final(reader)@ == rest),
            None => res is Err,
        },
        !packet_play_s2c_known(id) ==> (res matches Err(e) && e == ParseError::UnknownPacket(id) && final(reader)@ == old(reader)@),
{
    proof {
        reveal(spec_packet_play_s2c);
    }
    match id {
        0x2a => {
            let p = <play::EntityMoveLookResponse as MD<'r>>::deserialize(reader)?;
            Ok(Packet::EntityMoveLookResponse(p))
        },
        0x2b => {
            let p = <play::EntityLookResponse as MD<'r>>::deserialize(reader)?;
            Ok(Packet::EntityLookResponse(p))
        },
        0x2c => {
            let p = <play::VehicleMoveResponse as MD<'r>>::deserialize(reader)?;
            Ok(Packet::VehicleMoveResponse(p))
        },
        0x2d => {
            let p = <play::OpenBookResponse as MD<'r>>::deserialize(reader)?;
            Ok(Packet::OpenBookResponse(p))
        },
        0x2e => {
            let p = <play::OpenWindowResponse<'r> as MD<'r>>::deserialize(reader)?;
            Ok(Packet::OpenWindowResponse(p))
        },
        0x2f => {
            let p = <play::OpenSignEntityResponse as MD<'r>>::deserialize(reader)?;
            Ok(Packet::OpenSignEntityResponse(p))
        },
        _ => Err(ParseError::UnknownPacket(id)),
    }
}

/// Reads the packet of the play state sent by the server whose id is `id`, one of
/// the ids from `0x30` below `0x36`.
#[verifier::rlimit(50)]
fn read_packet_play_s2c_8<'r>(id: u32, reader: &mut &'r [u8]) -> (res: Result<Packet<'r>, ParseError>)
    requires
        0x30 <= id && id < 0x36,
    ensures
        match spec_packet_play_s2c(id, old(reader)@) {
            Some((v, rest)) => (res matches Ok(p) && p.deep_view() == v && final(reader)@ == rest),
            None => res is Err,
        },
        !packet_play_s2c_known(id) ==> (res matches Err(e) && e == ParseError::UnknownPacket(id) && final(reader)@ == old(reader)@),
{
    proof {
        reveal(spec_packet_play_s2c);
    }
    match id {
        0x30 => {
            let p = <play::PlayPingResponse as MD<'r>>::deserialize(reader)?;
            Ok(Packet::PlayPingResponse(p))
        },
        0x31 => {
            let p = <play::CraftRecipeResponse<'r> as MD<'r>>::deserialize(reader)?;
            Ok(Packet::CraftRecipeResponse(p))
        },
        0x32 => {
            let p = <play::AbilitiesResponse as MD<'r>>::deserialize(reader)?;
            Ok(Packet::AbilitiesResponse(p))
        },
        0x33 => {
            let p = <play::EndCombatEventResponse as MD<'r>>::deserialize(reader)?;
            Ok(Packet::EndCombatEventResponse(p))
        },
        0x34 => {
            let p = <play::EnterCombatEventResponse as MD<'r>>::deserialize(reader)?;
            Ok(Packet::EnterCombatEventResponse(p))
        },
        0x35 => {
            let p = <play::DeathCombatEventResponse<'r> as MD<'r>>::deserialize(reader)?;
            Ok(Packet::DeathCombatEventResponse(p))
        },
        _ => Err(ParseError::UnknownPacket(id)),
    }
}

/// Reads the packet of the play state sent by the server whose id is `id`, one of
/// the ids from `0x36` below `0x3c`.
#[verifier::rlimit(50)]
fn read_packet_play_s2c_9<'r>(id: u32, reader: &mut &'r [u8]) -> (res: Result<Packet<'r>, ParseError>)
    requires
        0x36 <= id && id < 0x3c,
    ensures
        match spec_packet_play_s2c(id, old(reader)@) {
            Some((v, rest)) => (res matches Ok(p) && p.deep_view() == v && final(reader)@ == rest),
            None => res is Err,
        },
        !packet_play_s2c_known(id) ==> (res matches Err(e) && e == ParseError::UnknownPacket(id) && final(reader)@ == old(reader)@),
{
    proof {
        reveal(spec_packet_play_s2c);
    }
    match id {
        0x36 => {
            let p = <play::PlayerInfoResponse as MD<'r>>::deserialize(reader)?;
            Ok(Packet::PlayerInfoResponse(p))
        },
        0x37 => {
            let p = <play::FacePlayerResponse as MD<'r>>::deserialize(reader)?;
            Ok(Packet::FacePlayerResponse(p))
        },
        0x38 => {
            let p = <play::PositionResponse as MD<'r>>::deserialize(reader)?;
            Ok(Packet::PositionResponse(p))
        },
        0x39 => {
            let p = <play::UnlockRecipesResponse as MD<'r>>::deserialize(reader)?;
            Ok(Packet::UnlockRecipesResponse(p))
        },
        0x3a => {
            let p = <play::EntityDestroyResponse as MD<'r>>::deserialize(reader)?;
            Ok(Packet::EntityDestroyResponse(p))
        },
        0x3b => {
            let p = <play::RemoveEntityEffectResponse as MD<'r>>::deserialize(reader)?;
            Ok(Packet::RemoveEntityEffectResponse(p))
        },
        _ => Err(ParseError::UnknownPacket(id)),
    }
}

/// Reads the packet of the play state sent by the server whose id is `id`, one of
/// the ids from `0x3c` below `0x42`.
#[verifier::rlimit(50)]
fn read_packet_play_s2c_10<'r>(id: u32, reader: &mut &'r [u8]) -> (res: Result<Packet<'r>, ParseError>)
    requires
        0x3c <= id && id < 0x42,
    ensures
        match spec_packet_play_s2c(id, old(reader)@) {
            Some((v, rest)) => (res matches Ok(p) && p.deep_view() == v && final(reader)@ == rest),
            None => res is Err,
        },
        !packet_play_s2c_known(id) ==> (res matches Err(e) && e == ParseError::UnknownPacket(id) && final(reader)@ == old(reader)@),
{
    proof {
        reveal(spec_packet_play_s2c);
    }
    match id {
        0x3c => {
            let p = <play::ResourcePackSendResponse<'r> as MD<'r>>::deserialize(reader)?;
            Ok(Packet::ResourcePackSendResponse(p))
        },
        0x3d => {
            let p = <play::RespawnResponse<'r> as MD<'r>>::deserialize(reader)?;
            Ok(Packet::RespawnResponse(p))
        },
        0x3e => {
            let p = <play::EntityHeadRotationResponse as MD<'r>>::deserialize(reader)?;
            Ok(Packet::EntityHeadRotationResponse(p))
        },
        0x3f => {
            let p = <play::MultiBlockChangeResponse as MD<'r>>::deserialize(reader)?;
            Ok(Packet::MultiBlockChangeResponse(p))
        },
        0x40 => {
            let p = <play::SelectAdvancementTabResponse<'r> as MD<'r>>::deserialize(reader)?;
            Ok(Packet::SelectAdvancementTabResponse(p))
        },
        0x41 => {
            let p = <play::ActionBarResponse<'r> as MD<'r>>::deserialize(reader)?;
            Ok(Packet::ActionBarResponse(p))
        },
        _ => Err(ParseError::UnknownPacket(id)),
    }
}

/// Reads the packet of the play state sent by the server whose id is `id`, one of
/// the ids from `0x42` below `0x48`.
#[verifier::rlimit(50)]
fn read_packet_play_s2c_11<'r>(id: u32, reader: &mut &'r [u8]) -> (res: Result<Packet<'r>, ParseError>)
    requires
        0x42 <= id && id < 0x48,
    ensures
        match spec_packet_play_s2c(id, old(reader)@) {
            Some((v, rest)) => (res matches Ok(p) && p.deep_view() == v && final(reader)@ == rest),
            None => res is Err,
        },
        !packet_play_s2c_known(id) ==> (res matches Err(e) && e == ParseError::UnknownPacket(id) && final(reader)@ == old(reader)@),
{
    proof {
        reveal(spec_packet_play_s2c);
    }
    match id {
        0x42 => {
            let p = <play::WorldBorderCenterResponse as MD<'r>>::deserialize(reader)?;
            Ok(Packet::WorldBorderCenterResponse(p))
        },
        0x43 => {
            let p = <play::WorldBorderLerpSizeResponse as MD<'r>>::deserialize(reader)?;
            Ok(Packet::WorldBorderLerpSizeResponse(p))
        },
        0x44 => {
            let p = <play::WorldBorderSizeResponse as MD<'r>>::deserialize(reader)?;
            Ok(Packet::WorldBorderSizeResponse(p))
        },
        0x45 => {
            let p = <play::WorldBorderWarningDelayResponse as MD<'r>>::deserialize(reader)?;
            Ok(Packet::WorldBorderWarningDelayResponse(p))
        },
        0x46 => {
            let p = <play::WorldBorderWarningReachResponse as MD<'r>>::deserialize(reader)?;
            Ok(Packet::WorldBorderWarningReachResponse(p))
        },
        0x47 => {
            let p = <play::CameraResponse as MD<'r>>::deserialize(reader)?;
            Ok(Packet::CameraResponse(p))
        },
        _ => Err(ParseError::UnknownPacket(id)),
    }
}

/// Reads the packet of the play state sent by the server whose id is `id`, one of
/// the ids from `0x48` below `0x4e`.
#[verifier::rlimit(50)]
fn read_packet_play_s2c_12<'r>(id: u32, reader: &mut &'r [u8]) -> (res: Result<Packet<'r>, ParseError>)
    requires
        0x48 <= id && id < 0x4e,
    ensures
        match spec_packet_play_s2c(id, old(reader)@) {
            Some((v, rest)) => (res matches Ok(p) && p.deep_view() == v && final(reader)@ == rest),
            None => res is Err,
        },
        !packet_play_s2c_known(id) ==> (res matches Err(e) && e == ParseError::UnknownPacket(id) && final(reader)@ == old(reader)@),
{
    proof {
        reveal(spec_packet_play_s2c);
    }
    match id {
        0x48 => {
            let p = <play::HeldItemSlotResponse as MD<'r>>::deserialize(reader)?;
            Ok(Packet::HeldItemSlotResponse(p))
        },
        0x49 => {
            let p = <play::UpdateViewPositionResponse as MD<'r>>::deserialize(reader)?;
            Ok(Packet::UpdateViewPositionResponse(p))
        },
        0x4a => {
            let p = <play::UpdateViewDistanceResponse as MD<'r>>::deserialize(reader)?;
            Ok(Packet::UpdateViewDistanceResponse(p))
        },
        0x4b => {
            let p = <play::SpawnPositionResponse as MD<'r>>::deserialize(reader)?;
            Ok(Packet::SpawnPositionResponse(p))
        },
        0x4c => {
            let p = <play::ScoreboardDisplayObjectiveResponse<'r> as MD<'r>>::deserialize(reader)?;
            Ok(Packet::ScoreboardDisplayObjectiveResponse(p))
        },
        0x4d => {
            let p = <play::EntityMetadataResponse as MD<'r>>::deserialize(reader)?;
            Ok(Packet::EntityMetadataResponse(p))
        },
        _ => Err(ParseError::UnknownPacket(id)),
    }
}

/// Reads the packet of the play state sent by the server whose id is `id`, one of
/// the ids from `0x4e` below `0x54`.
#[verifier::rlimit(50)]
fn read_packet_play_s2c_13<'r>(id: u32, reader: &mut &'r [u8]) -> (res: Result<Packet<'r>, ParseError>)
    requires
        0x4e <= id && id < 0x54,
    ensures
        match spec_packet_play_s2c(id, old(reader)@) {
            Some((v, rest)) => (res matches Ok(p) && p.deep_view() == v && final(reader)@ == rest),
            None => res is Err,
        },
        !packet_play_s2c_known(id) ==> (res matches Err(e) && e == ParseError::UnknownPacket(id) && final(reader)@ == old(reader)@),
{
    proof {
        reveal(spec_packet_play_s2c);
    }
    match id {
        0x4e => {
            let p = <play::AttachEntityResponse as MD<'r>>::deserialize(reader)?;
            Ok(Packet::AttachEntityResponse(p))
        },
        0x4f => {
            let p = <play::EntityVelocityResponse as MD<'r>>::deserialize(reader)?;
            Ok(Packet::EntityVelocityResponse(p))
        },
        0x50 => {
            let p = <play::EntityEquipmentResponse as MD<'r>>::deserialize(reader)?;
            Ok(Packet::EntityEquipmentResponse(p))
        },
        0x51 => {
            let p = <play::ExperienceResponse as MD<'r>>::deserialize(reader)?;
            Ok(Packet::ExperienceResponse(p))
        },
        0x52 => {
            let p = <play::UpdateHealthResponse as MD<'r>>::deserialize(reader)?;
            Ok(Packet::UpdateHealthResponse(p))
        },
        0x53 => {
            let p = <play::ScoreboardObjectiveResponse as MD<'r>>::deserialize(reader)?;
            Ok(Packet::ScoreboardObjectiveResponse(p))
        },
        _ => Err(ParseError::UnknownPacket(id)),
    }
}

/// Reads the packet of the play state sent by the server whose id is `id`, one of
/// the ids from `0x54` below `0x5a`.
#[verifier::rlimit(50)]
fn read_packet_play_s2c_14<'r>(id: u32, reader: &mut &'r [u8]) -> (res: Result<Packet<'r>, ParseError>)
    requires
        0x54 <= id && id < 0x5a,
    ensures
        match spec_packet_play_s2c(id, old(reader)@) {
            Some((v, rest)) => (res matches Ok(p) && p.deep_view() == v && final(reader)@ == rest),
            None => res is Err,
        },
        !packet_play_s2c_known(id) ==> (res matches Err(e) && e == ParseError::UnknownPacket(id) && final(reader)@ == old(reader)@),
{
    proof {
        reveal(spec_packet_play_s2c);
    }
    match id {
        0x54 => {
            let p = <play::SetPassengersResponse as MD<'r>>::deserialize(reader)?;
            Ok(Packet::SetPassengersResponse(p))
        },
        0x55 => {
            let p = <play::TeamsResponse as MD<'r>>::deserialize(reader)?;
            Ok(Packet::TeamsResponse(p))
        },
        0x56 => {
            let p = <play::ScoreboardScoreResponse as MD<'r>>::deserialize(reader)?;
            Ok(Packet::ScoreboardScoreResponse(p))
        },
        0x57 => {
            let p = <play::SimulationDistanceResponse as MD<'r>>::deserialize(reader)?;
            Ok(Packet::SimulationDistanceResponse(p))
        },
        0x58 => {
            let p = <play::SetTitleSubtitleResponse<'r> as MD<'r>>::deserialize(reader)?;
            Ok(Packet::SetTitleSubtitleResponse(p))
        },
        0x59 => {
            let p = <play::UpdateTimeResponse as MD<'r>>::deserialize(reader)?;
            Ok(Packet::UpdateTimeResponse(p))
        },
        _ => Err(ParseError::UnknownPacket(id)),
    }
}

/// Reads the packet of the play state sent by the server whose id is `id`, one of
/// the ids from `0x5a` below `0x60`.
#[verifier::rlimit(50)]
fn read_packet_play_s2c_15<'r>(id: u32, reader: &mut &'r [u8]) -> (res: Result<Packet<'r>, ParseError>)
    requires
        0x5a <= id && id < 0x60,
    ensures
        match spec_packet_play_s2c(id, old(reader)@) {
            Some((v, rest)) => (res matches Ok(p) && p.deep_view() == v && final(reader)@ == rest),
            None => res is Err,
        },
        !packet_play_s2c_known(id) ==> (res matches Err(e) && e == ParseError::UnknownPacket(id) && final(reader)@ == old(reader)@),
{
    proof {
        reveal(spec_packet_play_s2c);
    }
    match id {
        0x5a => {
            let p = <play::SetTitleTextResponse<'r> as MD<'r>>::deserialize(reader)?;
            Ok(Packet::SetTitleTextResponse(p))
        },
        0x5b => {
            let p = <play::SetTitleTimeResponse as MD<'r>>::deserialize(reader)?;
            Ok(Packet::SetTitleTimeResponse(p))
        },
        0x5c => {
            let p = <play::EntitySoundEffectResponse as MD<'r>>::deserialize(reader)?;
            Ok(Packet::EntitySoundEffectResponse(p))
        },
        0x5d => {
            let p = <play::SoundEffectResponse as MD<'r>>::deserialize(reader)?;
            Ok(Packet::SoundEffectResponse(p))
        },
        0x5e => {
            let p = <play::StopSoundResponse as MD<'r>>::deserialize(reader)?;
            Ok(Packet::StopSoundResponse(p))
        },
        0x5f => {
            let p = <play::PlayerlistHeaderResponse<'r> as MD<'r>>::deserialize(reader)?;
            Ok(Packet::PlayerlistHeaderResponse(p))
        },
        _ => Err(ParseError::UnknownPacket(id)),
    }
}

/// Reads the packet of the play state sent by the server whose id is `id`, one of
/// the ids from `0x60` below `0x66`.
#[verifier::rlimit(50)]
fn read_packet_play_s2c_16<'r>(id: u32, reader: &mut &'r [u8]) -> (res: Result<Packet<'r>, ParseError>)
    requires
        0x60 <= id && id < 0x66,
    ensures
        match spec_packet_play_s2c(id, old(reader)@) {
            Some((v, rest)) => (res matches Ok(p) && p.deep_view() == v && final(reader)@ == rest),
            None => res is Err,
        },
        !packet_play_s2c_known(id) ==> (res matches Err(e) && e == ParseError::UnknownPacket(id) && final(reader)@ == old(reader)@),
{
    proof {
        reveal(spec_packet_play_s2c);
    }
    match id {
        0x60 => {
            let p = <play::NbtQueryResponse<'r> as MD<'r>>::deserialize(reader)?;
            Ok(Packet::NbtQueryResponse(p))
        },
        0x61 => {
            let p = <play::CollectResponse as MD<'r>>::deserialize(reader)?;
            Ok(Packet::CollectResponse(p))
        },
        0x62 => {
            let p = <play::EntityTeleportResponse as MD<'r>>::deserialize(reader)?;
            Ok(Packet::EntityTeleportResponse(p))
        },
        0x63 => {
            let p = <play::AdvancementsResponse as MD<'r>>::deserialize(reader)?;
            Ok(Packet::AdvancementsResponse(p))
        },
        0x64 => {
            let p = <play::EntityUpdateAttributesResponse<'r> as MD<'r>>::deserialize(reader)?;
            Ok(Packet::EntityUpdateAttributesResponse(p))
        },
        0x65 => {
            let p = <play::EntityEffectResponse as MD<'r>>::deserialize(reader)?;
            Ok(Packet::EntityEffectResponse(p))
        },
        _ => Err(ParseError::UnknownPacket(id)),
    }
}

/// Reads the packet of the play state sent by the server whose id is `id`, one of
/// the ids from `0x66` on.
#[verifier::rlimit(50)]
fn read_packet_play_s2c_17<'r>(id: u32, reader: &mut &'r [u8]) -> (res: Result<Packet<'r>, ParseError>)
    requires
        0x66 <= id,
    ensures
        match spec_packet_play_s2c(id, old(reader)@) {
            Some((v, rest)) => (res matches Ok(p) && p.deep_view() == v && final(reader)@ == rest),
            None => res is Err,
        },
        !packet_play_s2c_known(id) ==> (res matches Err(e) && e == ParseError::UnknownPacket(id) && final(reader)@ == old(reader)@),
{
    proof {
        reveal(spec_packet_play_s2c);
    }
    match id {
        0x66 => {
            let p = <play::DeclareRecipesResponse as MD<'r>>::deserialize(reader)?;
            Ok(Packet::DeclareRecipesResponse(p))
        },
        0x67 => {
            let p = <play::TagsResponse as MD<'r>>::deserialize(reader)?;
            Ok(Packet::TagsResponse(p))
        },
        _ => Err(ParseError::UnknownPacket(id)),
    }
}

/// Reads the packet of the play state sent by the server whose id is `id`.
fn read_packet_play_s2c<'r>(id: u32, reader: &mut &'r [u8]) -> (res: Result<Packet<'r>, ParseError>)
    ensures
        match spec_packet_play_s2c(id, old(reader)@) {
            Some((v, rest)) => (res matches Ok(p) && p.deep_view() == v && final(reader)@ == rest),
            None => res is Err,
        },
        !packet_play_s2c_known(id) ==> (res matches Err(e) && e == ParseError::UnknownPacket(id) && final(reader)@ == old(reader)@),
{
    proof {
        reveal(spec_packet_play_s2c);
    }
    if id < 0x6 {
        read_packet_play_s2c_0(id, reader)
    } else if id < 0xc {
        read_packet_play_s2c_1(id, reader)
    } else if id < 0x12 {
        read_packet_play_s2c_2(id, reader)
    } else if id < 0x18 {
        read_packet_play_s2c_3(id, reader)
    } else if id < 0x1e {
        read_packet_play_s2c_4(id, reader)
    } else if id < 0x24 {
        read_packet_play_s2c_5(id, reader)
    } else if id < 0x2a {
        read_packet_play_s2c_6(id, reader)
    } else if id < 0x30 {
        read_packet_play_s2c_7(id, reader)
    } else if id < 0x36 {
        read_packet_play_s2c_8(id, reader)
    } else if id < 0x3c {
        read_packet_play_s2c_9(id, reader)
    } else if id < 0x42 {
        read_packet_play_s2c_10(id, reader)
    } else if id < 0x48 {
        read_packet_play_s2c_11(id, reader)
    } else if id < 0x4e {
        read_packet_play_s2c_12(id, reader)
    } else if id < 0x54 {
        read_packet_play_s2c_13(id, reader)
    } else if id < 0x5a {
        read_packet_play_s2c_14(id, reader)
    } else if id < 0x60 {
        read_packet_play_s2c_15(id, reader)
    } else if id < 0x66 {
        read_packet_play_s2c_16(id, reader)
    } else {
        read_packet_play_s2c_17(id, reader)
    }
}

/// The packet that the bytes at the front of `s` hold, given the state of
/// the connection, the direction and the packet id; `None` when no such
/// packet is known or the bytes do not hold it.
pub open spec fn spec_de_packets(state: ConnectionState, direction: PacketDirection, id: u32, s: Seq<u8>) -> Option<(PacketView, Seq<u8>)> {
    match (state, direction) {
        (ConnectionState::Handshaking, PacketDirection::C2S) => spec_packet_handshaking_c2s(id, s),
        (ConnectionState::Status, PacketDirection::C2S) => spec_packet_status_c2s(id, s),
        (ConnectionState::Status, PacketDirection::S2C) => spec_packet_status_s2c(id, s),
        (ConnectionState::Login, PacketDirection::C2S) => spec_packet_login_c2s(id, s),
        (ConnectionState::Login, PacketDirection::S2C) => spec_packet_login_s2c(id, s),
        (ConnectionState::Play, PacketDirection::C2S) => spec_packet_play_c2s(id, s),
        (ConnectionState::Play, PacketDirection::S2C) => spec_packet_play_s2c(id, s),
        _ => None,
    }
}

/// Whether a packet is known under the state of the connection, the
/// direction and the packet id.
pub open spec fn de_packets_known(state: ConnectionState, direction: PacketDirection, id: u32) -> bool {
    match (state, direction) {
        (ConnectionState::Handshaking, PacketDirection::C2S) => packet_handshaking_c2s_known(id),
        (ConnectionState::Status, PacketDirection::C2S) => packet_status_c2s_known(id),
        (ConnectionState::Status, PacketDirection::S2C) => packet_status_s2c_known(id),
        (ConnectionState::Login, PacketDirection::C2S) => packet_login_c2s_known(id),
        (ConnectionState::Login, PacketDirection::S2C) => packet_login_s2c_known(id),
        (ConnectionState::Play, PacketDirection::C2S) => packet_play_c2s_known(id),
        (ConnectionState::Play, PacketDirection::S2C) => packet_play_s2c_known(id),
        _ => false,
    }
}

/// Reads the packet with id `id` that was sent in direction `direction`
/// while the connection was in state `state`; an unknown packet is an error.
pub fn de_packets<'r>(
    state: ConnectionState,
    direction: PacketDirection,
    id: u32,
    reader: &mut &'r [u8],
) -> (res: Result<Packet<'r>, ParseError>)
    ensures
        match spec_de_packets(state, direction, id, old(reader)@) {
            Some((v, rest)) => (res matches Ok(p) && p.deep_view() == v && final(reader)@ == rest),
            None => res is Err,
        },
        !de_packets_known(state, direction, id) ==> (res matches Err(e) && e == ParseError::UnknownPacket(id) && final(reader)@ == old(reader)@),
{
    match (state, direction) {
        (ConnectionState::Handshaking, PacketDirection::C2S) => read_packet_handshaking_c2s(id, reader),
        (ConnectionState::Status, PacketDirection::C2S) => read_packet_status_c2s(id, reader),
        (ConnectionState::Status, PacketDirection::S2C) => read_packet_status_s2c(id, reader),
        (ConnectionState::Login, PacketDirection::C2S) => read_packet_login_c2s(id, reader),
        (ConnectionState::Login, PacketDirection::S2C) => read_packet_login_s2c(id, reader),
        (ConnectionState::Play, PacketDirection::C2S) => read_packet_play_c2s(id, reader),
        (ConnectionState::Play, PacketDirection::S2C) => read_packet_play_s2c(id, reader),
        _ => Err(ParseError::UnknownPacket(id)),
    }
}

} // verus!
