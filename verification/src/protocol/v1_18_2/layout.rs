//! How each packet of the play state is laid out on the wire: its
//! fields, in order.
#![allow(unused_imports)]
use crate::protocol::de::{Position, MD};
use crate::protocol::varint::{varint_bytes, varlong_bytes};
use crate::protocol::{
    array_bytes, varint_field, lemma_array_decode, lemma_varint_array_decode, lemma_varint_field_roundtrip,
    lemma_varlong_array_decode, lemma_varlong_field_roundtrip, spec_i64_slice, varint_array_bytes, varlong_array_bytes,
    ChunkBlockEntity,
    IndexedNbt, IndexedOptionNbt, InventorySlot,
};
use vstd::seq_lib::lemma_concat_associative;
use crate::protocol::v1_18_2::play;
use vstd::prelude::*;

verus! {

/// A `TeleportConfirmRequest` is written as its fields in the protocol's order: `teleport_id`.
pub proof fn lemma_teleport_confirm_request_layout(v: play::TeleportConfirmRequest)
    ensures
        <play::TeleportConfirmRequest as MD<'static>>::spec_serialize(v) == varint_bytes(v.teleport_id as u32),
{
}

/// A `QueryBlockNbtRequest` is written as its fields in the protocol's order: `transaction_id` and `location`.
pub proof fn lemma_query_block_nbt_request_layout(v: play::QueryBlockNbtRequest)
    ensures
        <play::QueryBlockNbtRequest as MD<'static>>::spec_serialize(v) == varint_bytes(v.transaction_id as u32) + <Position as MD<'static>>::spec_serialize(v.location),
{
}

/// A `SetDifficultyRequest` is written as its fields in the protocol's order: `new_difficulty`.
pub proof fn lemma_set_difficulty_request_layout(v: play::SetDifficultyRequest)
    ensures
        <play::SetDifficultyRequest as MD<'static>>::spec_serialize(v) == <u8 as MD<'static>>::spec_serialize(v.new_difficulty),
{
}

/// A `QueryEntityNbtRequest` is written as its fields in the protocol's order: `transaction_id` and `entity_id`.
pub proof fn lemma_query_entity_nbt_request_layout(v: play::QueryEntityNbtRequest)
    ensures
        <play::QueryEntityNbtRequest as MD<'static>>::spec_serialize(v) == varint_bytes(v.transaction_id as u32) + varint_bytes(v.entity_id as u32),
{
}

/// A `PickItemRequest` is written as its fields in the protocol's order: `slot`.
pub proof fn lemma_pick_item_request_layout(v: play::PickItemRequest)
    ensures
        <play::PickItemRequest as MD<'static>>::spec_serialize(v) == varint_bytes(v.slot as u32),
{
}

/// A `NameItemRequest` is written as its fields in the protocol's order: `name`.
pub proof fn lemma_name_item_request_layout(v: play::NameItemRequestView)
    ensures
        <play::NameItemRequest<'static> as MD<'static>>::spec_serialize(v) == <&'static str as MD<'static>>::spec_serialize(v.name),
{
}

/// A `SelectTradeRequest` is written as its fields in the protocol's order: `slot`.
pub proof fn lemma_select_trade_request_layout(v: play::SelectTradeRequest)
    ensures
        <play::SelectTradeRequest as MD<'static>>::spec_serialize(v) == varint_bytes(v.slot as u32),
{
}

/// A `SetBeaconEffectRequest` is written as its fields in the protocol's order: `primary_effect` and `secondary_effect`.
pub proof fn lemma_set_beacon_effect_request_layout(v: play::SetBeaconEffectRequest)
    ensures
        <play::SetBeaconEffectRequest as MD<'static>>::spec_serialize(v) == varint_bytes(v.primary_effect as u32) + varint_bytes(v.secondary_effect as u32),
{
}

/// A `UpdateCommandBlockRequest` is written as its fields in the protocol's order: `location`, `command`, `mode` and `flags`.
pub proof fn lemma_update_command_block_request_layout(v: play::UpdateCommandBlockRequestView)
    ensures
        <play::UpdateCommandBlockRequest<'static> as MD<'static>>::spec_serialize(v) == <Position as MD<'static>>::spec_serialize(v.location) + <&'static str as MD<'static>>::spec_serialize(v.command) + varint_bytes(v.mode as u32) + <u8 as MD<'static>>::spec_serialize(v.flags),
{
}

/// A `UpdateCommandBlockMinecartRequest` is written as its fields in the protocol's order: `entity_id`, `command` and `track_output`.
pub proof fn lemma_update_command_block_minecart_request_layout(v: play::UpdateCommandBlockMinecartRequestView)
    ensures
        <play::UpdateCommandBlockMinecartRequest<'static> as MD<'static>>::spec_serialize(v) == varint_bytes(v.entity_id as u32) + <&'static str as MD<'static>>::spec_serialize(v.command) + <bool as MD<'static>>::spec_serialize(v.track_output),
{
}

/// A `UpdateStructureBlockRequest` is written as its fields in the protocol's order: `location`, `action`, `mode`, `name`, `offset_x`, `offset_y`, `offset_z`, `size_x`, `size_y`, `size_z`, `mirror`, `rotation`, `metadata`, `integrity`, `seed` and `flags`.
pub proof fn lemma_update_structure_block_request_layout(v: play::UpdateStructureBlockRequestView)
    ensures
        <play::UpdateStructureBlockRequest<'static> as MD<'static>>::spec_serialize(v) == <Position as MD<'static>>::spec_serialize(v.location) + varint_bytes(v.action as u32) + varint_bytes(v.mode as u32) + <&'static str as MD<'static>>::spec_serialize(v.name) + <i8 as MD<'static>>::spec_serialize(v.offset_x) + <i8 as MD<'static>>::spec_serialize(v.offset_y) + <i8 as MD<'static>>::spec_serialize(v.offset_z) + <i8 as MD<'static>>::spec_serialize(v.size_x) + <i8 as MD<'static>>::spec_serialize(v.size_y) + <i8 as MD<'static>>::spec_serialize(v.size_z) + varint_bytes(v.mirror as u32) + varint_bytes(v.rotation as u32) + <&'static str as MD<'static>>::spec_serialize(v.metadata) + <u32 as MD<'static>>::spec_serialize(v.integrity) + varlong_bytes(v.seed as u64) + <u8 as MD<'static>>::spec_serialize(v.flags),
{
}

/// A `TabCompleteRequest` is written as its fields in the protocol's order: `transaction_id` and `text`.
pub proof fn lemma_tab_complete_request_layout(v: play::TabCompleteRequestView)
    ensures
        <play::TabCompleteRequest<'static> as MD<'static>>::spec_serialize(v) == varint_bytes(v.transaction_id as u32) + <&'static str as MD<'static>>::spec_serialize(v.text),
{
}

/// A `ChatRequest` is written as its fields in the protocol's order: `message`.
pub proof fn lemma_chat_request_layout(v: play::ChatRequestView)
    ensures
        <play::ChatRequest<'static> as MD<'static>>::spec_serialize(v) == <&'static str as MD<'static>>::spec_serialize(v.message),
{
}

/// A `ClientCommandRequest` is written as its fields in the protocol's order: `action_id`.
pub proof fn lemma_client_command_request_layout(v: play::ClientCommandRequest)
    ensures
        <play::ClientCommandRequest as MD<'static>>::spec_serialize(v) == varint_bytes(v.action_id as u32),
{
}

/// A `SettingsRequest` is written as its fields in the protocol's order: `locale`, `view_distance`, `chat_flags`, `chat_colors`, `skin_parts`, `main_hand`, `enable_text_filtering` and `enable_server_listing`.
pub proof fn lemma_settings_request_layout(v: play::SettingsRequestView)
    ensures
        <play::SettingsRequest<'static> as MD<'static>>::spec_serialize(v) == <&'static str as MD<'static>>::spec_serialize(v.locale) + <i8 as MD<'static>>::spec_serialize(v.view_distance) + varint_bytes(v.chat_flags as u32) + <bool as MD<'static>>::spec_serialize(v.chat_colors) + <u8 as MD<'static>>::spec_serialize(v.skin_parts) + varint_bytes(v.main_hand as u32) + <bool as MD<'static>>::spec_serialize(v.enable_text_filtering) + <bool as MD<'static>>::spec_serialize(v.enable_server_listing),
{
}

/// A `EnchantItemRequest` is written as its fields in the protocol's order: `window_id` and `enchantment`.
pub proof fn lemma_enchant_item_request_layout(v: play::EnchantItemRequest)
    ensures
        <play::EnchantItemRequest as MD<'static>>::spec_serialize(v) == <i8 as MD<'static>>::spec_serialize(v.window_id) + <i8 as MD<'static>>::spec_serialize(v.enchantment),
{
}

/// A `WindowClickRequest_ChangedSlots` is written as its fields in the protocol's order: `location` and `item`.
pub proof fn lemma_window_click_request_changed_slots_layout(v: play::WindowClickRequest_ChangedSlotsView)
    ensures
        <play::WindowClickRequest_ChangedSlots<'static> as MD<'static>>::spec_serialize(v) == <i16 as MD<'static>>::spec_serialize(v.location) + <InventorySlot<'static> as MD<'static>>::spec_serialize(v.item),
{
}

/// A `CloseWindowRequest` is written as its fields in the protocol's order: `window_id`.
pub proof fn lemma_close_window_request_layout(v: play::CloseWindowRequest)
    ensures
        <play::CloseWindowRequest as MD<'static>>::spec_serialize(v) == <u8 as MD<'static>>::spec_serialize(v.window_id),
{
}

/// A `CustomPayloadRequest` is written as its fields in the protocol's order: `channel` and `data`.
pub proof fn lemma_custom_payload_request_layout(v: play::CustomPayloadRequestView)
    ensures
        <play::CustomPayloadRequest<'static> as MD<'static>>::spec_serialize(v) == <&'static str as MD<'static>>::spec_serialize(v.channel) + v.data,
{
}

/// A `GenerateStructureRequest` is written as its fields in the protocol's order: `location`, `levels` and `keep_jigsaws`.
pub proof fn lemma_generate_structure_request_layout(v: play::GenerateStructureRequest)
    ensures
        <play::GenerateStructureRequest as MD<'static>>::spec_serialize(v) == <Position as MD<'static>>::spec_serialize(v.location) + varint_bytes(v.levels as u32) + <bool as MD<'static>>::spec_serialize(v.keep_jigsaws),
{
}

/// A `KeepAliveRequest` is written as its fields in the protocol's order: `keep_alive_id`.
pub proof fn lemma_keep_alive_request_layout(v: play::KeepAliveRequest)
    ensures
        <play::KeepAliveRequest as MD<'static>>::spec_serialize(v) == <i64 as MD<'static>>::spec_serialize(v.keep_alive_id),
{
}

/// A `LockDifficultyRequest` is written as its fields in the protocol's order: `locked`.
pub proof fn lemma_lock_difficulty_request_layout(v: play::LockDifficultyRequest)
    ensures
        <play::LockDifficultyRequest as MD<'static>>::spec_serialize(v) == <bool as MD<'static>>::spec_serialize(v.locked),
{
}

/// A `PositionRequest` is written as its fields in the protocol's order: `x`, `y`, `z` and `on_ground`.
pub proof fn lemma_position_request_layout(v: play::PositionRequest)
    ensures
        <play::PositionRequest as MD<'static>>::spec_serialize(v) == <u64 as MD<'static>>::spec_serialize(v.x) + <u64 as MD<'static>>::spec_serialize(v.y) + <u64 as MD<'static>>::spec_serialize(v.z) + <bool as MD<'static>>::spec_serialize(v.on_ground),
{
}

/// A `PositionLookRequest` is written as its fields in the protocol's order: `x`, `y`, `z`, `yaw`, `pitch` and `on_ground`.
pub proof fn lemma_position_look_request_layout(v: play::PositionLookRequest)
    ensures
        <play::PositionLookRequest as MD<'static>>::spec_serialize(v) == <u64 as MD<'static>>::spec_serialize(v.x) + <u64 as MD<'static>>::spec_serialize(v.y) + <u64 as MD<'static>>::spec_serialize(v.z) + <u32 as MD<'static>>::spec_serialize(v.yaw) + <u32 as MD<'static>>::spec_serialize(v.pitch) + <bool as MD<'static>>::spec_serialize(v.on_ground),
{
}

/// A `LookRequest` is written as its fields in the protocol's order: `yaw`, `pitch` and `on_ground`.
pub proof fn lemma_look_request_layout(v: play::LookRequest)
    ensures
        <play::LookRequest as MD<'static>>::spec_serialize(v) == <u32 as MD<'static>>::spec_serialize(v.yaw) + <u32 as MD<'static>>::spec_serialize(v.pitch) + <bool as MD<'static>>::spec_serialize(v.on_ground),
{
}

/// A `FlyingRequest` is written as its fields in the protocol's order: `on_ground`.
pub proof fn lemma_flying_request_layout(v: play::FlyingRequest)
    ensures
        <play::FlyingRequest as MD<'static>>::spec_serialize(v) == <bool as MD<'static>>::spec_serialize(v.on_ground),
{
}

/// A `VehicleMoveRequest` is written as its fields in the protocol's order: `x`, `y`, `z`, `yaw` and `pitch`.
pub proof fn lemma_vehicle_move_request_layout(v: play::VehicleMoveRequest)
    ensures
        <play::VehicleMoveRequest as MD<'static>>::spec_serialize(v) == <u64 as MD<'static>>::spec_serialize(v.x) + <u64 as MD<'static>>::spec_serialize(v.y) + <u64 as MD<'static>>::spec_serialize(v.z) + <u32 as MD<'static>>::spec_serialize(v.yaw) + <u32 as MD<'static>>::spec_serialize(v.pitch),
{
}

/// A `SteerBoatRequest` is written as its fields in the protocol's order: `left_paddle` and `right_paddle`.
pub proof fn lemma_steer_boat_request_layout(v: play::SteerBoatRequest)
    ensures
        <play::SteerBoatRequest as MD<'static>>::spec_serialize(v) == <bool as MD<'static>>::spec_serialize(v.left_paddle) + <bool as MD<'static>>::spec_serialize(v.right_paddle),
{
}

/// A `CraftRecipeRequest` is written as its fields in the protocol's order: `window_id`, `recipe` and `make_all`.
pub proof fn lemma_craft_recipe_request_layout(v: play::CraftRecipeRequestView)
    ensures
        <play::CraftRecipeRequest<'static> as MD<'static>>::spec_serialize(v) == <i8 as MD<'static>>::spec_serialize(v.window_id) + <&'static str as MD<'static>>::spec_serialize(v.recipe) + <bool as MD<'static>>::spec_serialize(v.make_all),
{
}

/// A `AbilitiesRequest` is written as its fields in the protocol's order: `flags`.
pub proof fn lemma_abilities_request_layout(v: play::AbilitiesRequest)
    ensures
        <play::AbilitiesRequest as MD<'static>>::spec_serialize(v) == <i8 as MD<'static>>::spec_serialize(v.flags),
{
}

/// A `BlockDigRequest` is written as its fields in the protocol's order: `status`, `location` and `face`.
pub proof fn lemma_block_dig_request_layout(v: play::BlockDigRequest)
    ensures
        <play::BlockDigRequest as MD<'static>>::spec_serialize(v) == varint_bytes(v.status as u32) + <Position as MD<'static>>::spec_serialize(v.location) + <i8 as MD<'static>>::spec_serialize(v.face),
{
}

/// A `EntityActionRequest` is written as its fields in the protocol's order: `entity_id`, `action_id` and `jump_boost`.
pub proof fn lemma_entity_action_request_layout(v: play::EntityActionRequest)
    ensures
        <play::EntityActionRequest as MD<'static>>::spec_serialize(v) == varint_bytes(v.entity_id as u32) + varint_bytes(v.action_id as u32) + varint_bytes(v.jump_boost as u32),
{
}

/// A `SteerVehicleRequest` is written as its fields in the protocol's order: `sideways`, `forward` and `jump`.
pub proof fn lemma_steer_vehicle_request_layout(v: play::SteerVehicleRequest)
    ensures
        <play::SteerVehicleRequest as MD<'static>>::spec_serialize(v) == <u32 as MD<'static>>::spec_serialize(v.sideways) + <u32 as MD<'static>>::spec_serialize(v.forward) + <u8 as MD<'static>>::spec_serialize(v.jump),
{
}

/// A `DisplayedRecipeRequest` is written as its fields in the protocol's order: `recipe_id`.
pub proof fn lemma_displayed_recipe_request_layout(v: play::DisplayedRecipeRequestView)
    ensures
        <play::DisplayedRecipeRequest<'static> as MD<'static>>::spec_serialize(v) == <&'static str as MD<'static>>::spec_serialize(v.recipe_id),
{
}

/// A `RecipeBookRequest` is written as its fields in the protocol's order: `book_id`, `book_open` and `filter_active`.
pub proof fn lemma_recipe_book_request_layout(v: play::RecipeBookRequest)
    ensures
        <play::RecipeBookRequest as MD<'static>>::spec_serialize(v) == varint_bytes(v.book_id as u32) + <bool as MD<'static>>::spec_serialize(v.book_open) + <bool as MD<'static>>::spec_serialize(v.filter_active),
{
}

/// A `ResourcePackReceiveRequest` is written as its fields in the protocol's order: `result`.
pub proof fn lemma_resource_pack_receive_request_layout(v: play::ResourcePackReceiveRequest)
    ensures
        <play::ResourcePackReceiveRequest as MD<'static>>::spec_serialize(v) == varint_bytes(v.result as u32),
{
}

/// A `HeldItemSlotRequest` is written as its fields in the protocol's order: `slot_id`.
pub proof fn lemma_held_item_slot_request_layout(v: play::HeldItemSlotRequest)
    ensures
        <play::HeldItemSlotRequest as MD<'static>>::spec_serialize(v) == <i16 as MD<'static>>::spec_serialize(v.slot_id),
{
}

/// A `SetCreativeSlotRequest` is written as its fields in the protocol's order: `slot` and `item`.
pub proof fn lemma_set_creative_slot_request_layout(v: play::SetCreativeSlotRequestView)
    ensures
        <play::SetCreativeSlotRequest<'static> as MD<'static>>::spec_serialize(v) == <i16 as MD<'static>>::spec_serialize(v.slot) + <InventorySlot<'static> as MD<'static>>::spec_serialize(v.item),
{
}

/// A `UpdateJigsawBlockRequest` is written as its fields in the protocol's order: `location`, `name`, `target`, `pool`, `final_state` and `joint_type`.
pub proof fn lemma_update_jigsaw_block_request_layout(v: play::UpdateJigsawBlockRequestView)
    ensures
        <play::UpdateJigsawBlockRequest<'static> as MD<'static>>::spec_serialize(v) == <Position as MD<'static>>::spec_serialize(v.location) + <&'static str as MD<'static>>::spec_serialize(v.name) + <&'static str as MD<'static>>::spec_serialize(v.target) + <&'static str as MD<'static>>::spec_serialize(v.pool) + <&'static str as MD<'static>>::spec_serialize(v.final_state) + <&'static str as MD<'static>>::spec_serialize(v.joint_type),
{
}

/// A `UpdateSignRequest` is written as its fields in the protocol's order: `location`, `text_1`, `text_2`, `text_3` and `text_4`.
pub proof fn lemma_update_sign_request_layout(v: play::UpdateSignRequestView)
    ensures
        <play::UpdateSignRequest<'static> as MD<'static>>::spec_serialize(v) == <Position as MD<'static>>::spec_serialize(v.location) + <&'static str as MD<'static>>::spec_serialize(v.text_1) + <&'static str as MD<'static>>::spec_serialize(v.text_2) + <&'static str as MD<'static>>::spec_serialize(v.text_3) + <&'static str as MD<'static>>::spec_serialize(v.text_4),
{
}

/// A `ArmAnimationRequest` is written as its fields in the protocol's order: `hand`.
pub proof fn lemma_arm_animation_request_layout(v: play::ArmAnimationRequest)
    ensures
        <play::ArmAnimationRequest as MD<'static>>::spec_serialize(v) == varint_bytes(v.hand as u32),
{
}

/// A `SpectateRequest` is written as its fields in the protocol's order: `target`.
pub proof fn lemma_spectate_request_layout(v: play::SpectateRequest)
    ensures
        <play::SpectateRequest as MD<'static>>::spec_serialize(v) == <u128 as MD<'static>>::spec_serialize(v.target),
{
}

/// A `BlockPlaceRequest` is written as its fields in the protocol's order: `hand`, `location`, `direction`, `cursor_x`, `cursor_y`, `cursor_z` and `inside_block`.
pub proof fn lemma_block_place_request_layout(v: play::BlockPlaceRequest)
    ensures
        <play::BlockPlaceRequest as MD<'static>>::spec_serialize(v) == varint_bytes(v.hand as u32) + <Position as MD<'static>>::spec_serialize(v.location) + varint_bytes(v.direction as u32) + <u32 as MD<'static>>::spec_serialize(v.cursor_x) + <u32 as MD<'static>>::spec_serialize(v.cursor_y) + <u32 as MD<'static>>::spec_serialize(v.cursor_z) + <bool as MD<'static>>::spec_serialize(v.inside_block),
{
}

/// A `UseItemRequest` is written as its fields in the protocol's order: `hand`.
pub proof fn lemma_use_item_request_layout(v: play::UseItemRequest)
    ensures
        <play::UseItemRequest as MD<'static>>::spec_serialize(v) == varint_bytes(v.hand as u32),
{
}

/// A `AdvancementTabRequest` is written as its fields in the protocol's order (it has none).
pub proof fn lemma_advancement_tab_request_layout(v: play::AdvancementTabRequest)
    ensures
        <play::AdvancementTabRequest as MD<'static>>::spec_serialize(v) == Seq::<u8>::empty(),
{
}

/// A `PongRequest` is written as its fields in the protocol's order: `id`.
pub proof fn lemma_pong_request_layout(v: play::PongRequest)
    ensures
        <play::PongRequest as MD<'static>>::spec_serialize(v) == <i32 as MD<'static>>::spec_serialize(v.id),
{
}

/// A `SpawnEntityResponse` is written as its fields in the protocol's order: `entity_id`, `object_uuid`, `type_`, `x`, `y`, `z`, `pitch`, `yaw`, `object_data`, `velocity_x`, `velocity_y` and `velocity_z`.
pub proof fn lemma_spawn_entity_response_layout(v: play::SpawnEntityResponse)
    ensures
        <play::SpawnEntityResponse as MD<'static>>::spec_serialize(v) == varint_bytes(v.entity_id as u32) + <u128 as MD<'static>>::spec_serialize(v.object_uuid) + varint_bytes(v.type_ as u32) + <u64 as MD<'static>>::spec_serialize(v.x) + <u64 as MD<'static>>::spec_serialize(v.y) + <u64 as MD<'static>>::spec_serialize(v.z) + <i8 as MD<'static>>::spec_serialize(v.pitch) + <i8 as MD<'static>>::spec_serialize(v.yaw) + <i32 as MD<'static>>::spec_serialize(v.object_data) + <i16 as MD<'static>>::spec_serialize(v.velocity_x) + <i16 as MD<'static>>::spec_serialize(v.velocity_y) + <i16 as MD<'static>>::spec_serialize(v.velocity_z),
{
}

/// A `SpawnEntityExperienceOrbResponse` is written as its fields in the protocol's order: `entity_id`, `x`, `y`, `z` and `count`.
pub proof fn lemma_spawn_entity_experience_orb_response_layout(v: play::SpawnEntityExperienceOrbResponse)
    ensures
        <play::SpawnEntityExperienceOrbResponse as MD<'static>>::spec_serialize(v) == varint_bytes(v.entity_id as u32) + <u64 as MD<'static>>::spec_serialize(v.x) + <u64 as MD<'static>>::spec_serialize(v.y) + <u64 as MD<'static>>::spec_serialize(v.z) + <i16 as MD<'static>>::spec_serialize(v.count),
{
}

/// A `SpawnEntityLivingResponse` is written as its fields in the protocol's order: `entity_id`, `entity_uuid`, `type_`, `x`, `y`, `z`, `yaw`, `pitch`, `head_pitch`, `velocity_x`, `velocity_y` and `velocity_z`.
pub proof fn lemma_spawn_entity_living_response_layout(v: play::SpawnEntityLivingResponse)
    ensures
        <play::SpawnEntityLivingResponse as MD<'static>>::spec_serialize(v) == varint_bytes(v.entity_id as u32) + <u128 as MD<'static>>::spec_serialize(v.entity_uuid) + varint_bytes(v.type_ as u32) + <u64 as MD<'static>>::spec_serialize(v.x) + <u64 as MD<'static>>::spec_serialize(v.y) + <u64 as MD<'static>>::spec_serialize(v.z) + <i8 as MD<'static>>::spec_serialize(v.yaw) + <i8 as MD<'static>>::spec_serialize(v.pitch) + <i8 as MD<'static>>::spec_serialize(v.head_pitch) + <i16 as MD<'static>>::spec_serialize(v.velocity_x) + <i16 as MD<'static>>::spec_serialize(v.velocity_y) + <i16 as MD<'static>>::spec_serialize(v.velocity_z),
{
}

/// A `SpawnEntityPaintingResponse` is written as its fields in the protocol's order: `entity_id`, `entity_uuid`, `title`, `location` and `direction`.
pub proof fn lemma_spawn_entity_painting_response_layout(v: play::SpawnEntityPaintingResponse)
    ensures
        <play::SpawnEntityPaintingResponse as MD<'static>>::spec_serialize(v) == varint_bytes(v.entity_id as u32) + <u128 as MD<'static>>::spec_serialize(v.entity_uuid) + varint_bytes(v.title as u32) + <Position as MD<'static>>::spec_serialize(v.location) + <u8 as MD<'static>>::spec_serialize(v.direction),
{
}

/// A `NamedEntitySpawnResponse` is written as its fields in the protocol's order: `entity_id`, `player_uuid`, `x`, `y`, `z`, `yaw` and `pitch`.
pub proof fn lemma_named_entity_spawn_response_layout(v: play::NamedEntitySpawnResponse)
    ensures
        <play::NamedEntitySpawnResponse as MD<'static>>::spec_serialize(v) == varint_bytes(v.entity_id as u32) + <u128 as MD<'static>>::spec_serialize(v.player_uuid) + <u64 as MD<'static>>::spec_serialize(v.x) + <u64 as MD<'static>>::spec_serialize(v.y) + <u64 as MD<'static>>::spec_serialize(v.z) + <i8 as MD<'static>>::spec_serialize(v.yaw) + <i8 as MD<'static>>::spec_serialize(v.pitch),
{
}

/// A `AnimationResponse` is written as its fields in the protocol's order: `entity_id` and `animation`.
pub proof fn lemma_animation_response_layout(v: play::AnimationResponse)
    ensures
        <play::AnimationResponse as MD<'static>>::spec_serialize(v) == varint_bytes(v.entity_id as u32) + <u8 as MD<'static>>::spec_serialize(v.animation),
{
}

/// A `StatisticsResponse_Entries` is written as its fields in the protocol's order: `category_id`, `statistic_id` and `value`.
pub proof fn lemma_statistics_response_entries_layout(v: play::StatisticsResponse_Entries)
    ensures
        <play::StatisticsResponse_Entries as MD<'static>>::spec_serialize(v) == varint_bytes(v.category_id as u32) + varint_bytes(v.statistic_id as u32) + varint_bytes(v.value as u32),
{
}

/// A `AdvancementsResponse` is written as its fields in the protocol's order (it has none).
pub proof fn lemma_advancements_response_layout(v: play::AdvancementsResponse)
    ensures
        <play::AdvancementsResponse as MD<'static>>::spec_serialize(v) == Seq::<u8>::empty(),
{
}

/// A `BlockBreakAnimationResponse` is written as its fields in the protocol's order: `entity_id`, `location` and `destroy_stage`.
pub proof fn lemma_block_break_animation_response_layout(v: play::BlockBreakAnimationResponse)
    ensures
        <play::BlockBreakAnimationResponse as MD<'static>>::spec_serialize(v) == varint_bytes(v.entity_id as u32) + <Position as MD<'static>>::spec_serialize(v.location) + <i8 as MD<'static>>::spec_serialize(v.destroy_stage),
{
}

/// A `TileEntityDataResponse` is written as its fields in the protocol's order: `location`, `action` and `nbt_data`.
pub proof fn lemma_tile_entity_data_response_layout(v: play::TileEntityDataResponseView)
    ensures
        <play::TileEntityDataResponse<'static> as MD<'static>>::spec_serialize(v) == <Position as MD<'static>>::spec_serialize(v.location) + varint_bytes(v.action as u32) + <IndexedOptionNbt<'static> as MD<'static>>::spec_serialize(v.nbt_data),
{
}

/// A `BlockActionResponse` is written as its fields in the protocol's order: `location`, `byte_1`, `byte_2` and `block_id`.
pub proof fn lemma_block_action_response_layout(v: play::BlockActionResponse)
    ensures
        <play::BlockActionResponse as MD<'static>>::spec_serialize(v) == <Position as MD<'static>>::spec_serialize(v.location) + <u8 as MD<'static>>::spec_serialize(v.byte_1) + <u8 as MD<'static>>::spec_serialize(v.byte_2) + varint_bytes(v.block_id as u32),
{
}

/// A `BlockChangeResponse` is written as its fields in the protocol's order: `location` and `type_`.
pub proof fn lemma_block_change_response_layout(v: play::BlockChangeResponse)
    ensures
        <play::BlockChangeResponse as MD<'static>>::spec_serialize(v) == <Position as MD<'static>>::spec_serialize(v.location) + varint_bytes(v.type_ as u32),
{
}

/// A `BossBarResponse` is written as its fields in the protocol's order (it has none).
pub proof fn lemma_boss_bar_response_layout(v: play::BossBarResponse)
    ensures
        <play::BossBarResponse as MD<'static>>::spec_serialize(v) == Seq::<u8>::empty(),
{
}

/// A `DifficultyResponse` is written as its fields in the protocol's order: `difficulty` and `difficulty_locked`.
pub proof fn lemma_difficulty_response_layout(v: play::DifficultyResponse)
    ensures
        <play::DifficultyResponse as MD<'static>>::spec_serialize(v) == <u8 as MD<'static>>::spec_serialize(v.difficulty) + <bool as MD<'static>>::spec_serialize(v.difficulty_locked),
{
}

/// A `TabCompleteResponse_Matches` is written as its fields in the protocol's order: `match_` and `tooltip`.
pub proof fn lemma_tab_complete_response_matches_layout(v: play::TabCompleteResponse_MatchesView)
    ensures
        <play::TabCompleteResponse_Matches<'static> as MD<'static>>::spec_serialize(v) == <&'static str as MD<'static>>::spec_serialize(v.match_) + <Option<&'static str> as MD<'static>>::spec_serialize(v.tooltip),
{
}

/// A `DeclareCommandsResponse` is written as its fields in the protocol's order (it has none).
pub proof fn lemma_declare_commands_response_layout(v: play::DeclareCommandsResponse)
    ensures
        <play::DeclareCommandsResponse as MD<'static>>::spec_serialize(v) == Seq::<u8>::empty(),
{
}

/// A `FacePlayerResponse` is written as its fields in the protocol's order (it has none).
pub proof fn lemma_face_player_response_layout(v: play::FacePlayerResponse)
    ensures
        <play::FacePlayerResponse as MD<'static>>::spec_serialize(v) == Seq::<u8>::empty(),
{
}

/// A `NbtQueryResponse` is written as its fields in the protocol's order: `transaction_id` and `nbt`.
pub proof fn lemma_nbt_query_response_layout(v: play::NbtQueryResponseView)
    ensures
        <play::NbtQueryResponse<'static> as MD<'static>>::spec_serialize(v) == varint_bytes(v.transaction_id as u32) + <IndexedOptionNbt<'static> as MD<'static>>::spec_serialize(v.nbt),
{
}

/// A `ChatResponse` is written as its fields in the protocol's order: `message`, `position` and `sender`.
pub proof fn lemma_chat_response_layout(v: play::ChatResponseView)
    ensures
        <play::ChatResponse<'static> as MD<'static>>::spec_serialize(v) == <&'static str as MD<'static>>::spec_serialize(v.message) + <i8 as MD<'static>>::spec_serialize(v.position) + <u128 as MD<'static>>::spec_serialize(v.sender),
{
}

/// A `CloseWindowResponse` is written as its fields in the protocol's order: `window_id`.
pub proof fn lemma_close_window_response_layout(v: play::CloseWindowResponse)
    ensures
        <play::CloseWindowResponse as MD<'static>>::spec_serialize(v) == <u8 as MD<'static>>::spec_serialize(v.window_id),
{
}

/// A `OpenWindowResponse` is written as its fields in the protocol's order: `window_id`, `inventory_type` and `window_title`.
pub proof fn lemma_open_window_response_layout(v: play::OpenWindowResponseView)
    ensures
        <play::OpenWindowResponse<'static> as MD<'static>>::spec_serialize(v) == varint_bytes(v.window_id as u32) + varint_bytes(v.inventory_type as u32) + <&'static str as MD<'static>>::spec_serialize(v.window_title),
{
}

/// A `CraftProgressBarResponse` is written as its fields in the protocol's order: `window_id`, `property` and `value`.
pub proof fn lemma_craft_progress_bar_response_layout(v: play::CraftProgressBarResponse)
    ensures
        <play::CraftProgressBarResponse as MD<'static>>::spec_serialize(v) == <u8 as MD<'static>>::spec_serialize(v.window_id) + <i16 as MD<'static>>::spec_serialize(v.property) + <i16 as MD<'static>>::spec_serialize(v.value),
{
}

/// A `SetSlotResponse` is written as its fields in the protocol's order: `window_id`, `state_id`, `slot` and `item`.
pub proof fn lemma_set_slot_response_layout(v: play::SetSlotResponseView)
    ensures
        <play::SetSlotResponse<'static> as MD<'static>>::spec_serialize(v) == <i8 as MD<'static>>::spec_serialize(v.window_id) + varint_bytes(v.state_id as u32) + <i16 as MD<'static>>::spec_serialize(v.slot) + <InventorySlot<'static> as MD<'static>>::spec_serialize(v.item),
{
}

/// A `SetCooldownResponse` is written as its fields in the protocol's order: `item_id` and `cooldown_ticks`.
pub proof fn lemma_set_cooldown_response_layout(v: play::SetCooldownResponse)
    ensures
        <play::SetCooldownResponse as MD<'static>>::spec_serialize(v) == varint_bytes(v.item_id as u32) + varint_bytes(v.cooldown_ticks as u32),
{
}

/// A `CustomPayloadResponse` is written as its fields in the protocol's order: `channel` and `data`.
pub proof fn lemma_custom_payload_response_layout(v: play::CustomPayloadResponseView)
    ensures
        <play::CustomPayloadResponse<'static> as MD<'static>>::spec_serialize(v) == <&'static str as MD<'static>>::spec_serialize(v.channel) + v.data,
{
}

/// A `NamedSoundEffectResponse` is written as its fields in the protocol's order: `sound_name`, `sound_category`, `x`, `y`, `z`, `volume` and `pitch`.
pub proof fn lemma_named_sound_effect_response_layout(v: play::NamedSoundEffectResponseView)
    ensures
        <play::NamedSoundEffectResponse<'static> as MD<'static>>::spec_serialize(v) == <&'static str as MD<'static>>::spec_serialize(v.sound_name) + varint_bytes(v.sound_category as u32) + <i32 as MD<'static>>::spec_serialize(v.x) + <i32 as MD<'static>>::spec_serialize(v.y) + <i32 as MD<'static>>::spec_serialize(v.z) + <u32 as MD<'static>>::spec_serialize(v.volume) + <u32 as MD<'static>>::spec_serialize(v.pitch),
{
}

/// A `KickDisconnectResponse` is written as its fields in the protocol's order: `reason`.
pub proof fn lemma_kick_disconnect_response_layout(v: play::KickDisconnectResponseView)
    ensures
        <play::KickDisconnectResponse<'static> as MD<'static>>::spec_serialize(v) == <&'static str as MD<'static>>::spec_serialize(v.reason),
{
}

/// A `EntityStatusResponse` is written as its fields in the protocol's order: `entity_id` and `entity_status`.
pub proof fn lemma_entity_status_response_layout(v: play::EntityStatusResponse)
    ensures
        <play::EntityStatusResponse as MD<'static>>::spec_serialize(v) == <i32 as MD<'static>>::spec_serialize(v.entity_id) + <i8 as MD<'static>>::spec_serialize(v.entity_status),
{
}

/// A `ExplosionResponse_AffectedBlockOffsets` is written as its fields in the protocol's order: `x`, `y` and `z`.
pub proof fn lemma_explosion_response_affected_block_offsets_layout(v: play::ExplosionResponse_AffectedBlockOffsets)
    ensures
        <play::ExplosionResponse_AffectedBlockOffsets as MD<'static>>::spec_serialize(v) == <i8 as MD<'static>>::spec_serialize(v.x) + <i8 as MD<'static>>::spec_serialize(v.y) + <i8 as MD<'static>>::spec_serialize(v.z),
{
}

/// A `UnloadChunkResponse` is written as its fields in the protocol's order: `chunk_x` and `chunk_z`.
pub proof fn lemma_unload_chunk_response_layout(v: play::UnloadChunkResponse)
    ensures
        <play::UnloadChunkResponse as MD<'static>>::spec_serialize(v) == <i32 as MD<'static>>::spec_serialize(v.chunk_x) + <i32 as MD<'static>>::spec_serialize(v.chunk_z),
{
}

/// A `GameStateChangeResponse` is written as its fields in the protocol's order: `reason` and `game_mode`.
pub proof fn lemma_game_state_change_response_layout(v: play::GameStateChangeResponse)
    ensures
        <play::GameStateChangeResponse as MD<'static>>::spec_serialize(v) == <u8 as MD<'static>>::spec_serialize(v.reason) + <u32 as MD<'static>>::spec_serialize(v.game_mode),
{
}

/// A `OpenHorseWindowResponse` is written as its fields in the protocol's order: `window_id`, `nb_slots` and `entity_id`.
pub proof fn lemma_open_horse_window_response_layout(v: play::OpenHorseWindowResponse)
    ensures
        <play::OpenHorseWindowResponse as MD<'static>>::spec_serialize(v) == <u8 as MD<'static>>::spec_serialize(v.window_id) + varint_bytes(v.nb_slots as u32) + <i32 as MD<'static>>::spec_serialize(v.entity_id),
{
}

/// A `KeepAliveResponse` is written as its fields in the protocol's order: `keep_alive_id`.
pub proof fn lemma_keep_alive_response_layout(v: play::KeepAliveResponse)
    ensures
        <play::KeepAliveResponse as MD<'static>>::spec_serialize(v) == <i64 as MD<'static>>::spec_serialize(v.keep_alive_id),
{
}

/// A `WorldEventResponse` is written as its fields in the protocol's order: `effect_id`, `location`, `data` and `global`.
pub proof fn lemma_world_event_response_layout(v: play::WorldEventResponse)
    ensures
        <play::WorldEventResponse as MD<'static>>::spec_serialize(v) == <i32 as MD<'static>>::spec_serialize(v.effect_id) + <Position as MD<'static>>::spec_serialize(v.location) + <i32 as MD<'static>>::spec_serialize(v.data) + <bool as MD<'static>>::spec_serialize(v.global),
{
}

/// A `WorldParticlesResponse` is written as its fields in the protocol's order (it has none).
pub proof fn lemma_world_particles_response_layout(v: play::WorldParticlesResponse)
    ensures
        <play::WorldParticlesResponse as MD<'static>>::spec_serialize(v) == Seq::<u8>::empty(),
{
}

/// A `MapResponse` is written as its fields in the protocol's order (it has none).
pub proof fn lemma_map_response_layout(v: play::MapResponse)
    ensures
        <play::MapResponse as MD<'static>>::spec_serialize(v) == Seq::<u8>::empty(),
{
}

/// A `TradeListResponse_Trades` is written as its fields in the protocol's order: `input_item_1`, `output_item`, `input_item_2`, `trade_disabled`, `nb_trade_uses`, `maximum_nb_trade_uses`, `xp`, `special_price`, `price_multiplier` and `demand`.
pub proof fn lemma_trade_list_response_trades_layout(v: play::TradeListResponse_TradesView)
    ensures
        <play::TradeListResponse_Trades<'static> as MD<'static>>::spec_serialize(v) == <InventorySlot<'static> as MD<'static>>::spec_serialize(v.input_item_1) + <InventorySlot<'static> as MD<'static>>::spec_serialize(v.output_item) + <Option<InventorySlot<'static>> as MD<'static>>::spec_serialize(v.input_item_2) + <bool as MD<'static>>::spec_serialize(v.trade_disabled) + <i32 as MD<'static>>::spec_serialize(v.nb_trade_uses) + <i32 as MD<'static>>::spec_serialize(v.maximum_nb_trade_uses) + <i32 as MD<'static>>::spec_serialize(v.xp) + <i32 as MD<'static>>::spec_serialize(v.special_price) + <u32 as MD<'static>>::spec_serialize(v.price_multiplier) + <i32 as MD<'static>>::spec_serialize(v.demand),
{
}

/// A `RelEntityMoveResponse` is written as its fields in the protocol's order: `entity_id`, `d_x`, `d_y`, `d_z` and `on_ground`.
pub proof fn lemma_rel_entity_move_response_layout(v: play::RelEntityMoveResponse)
    ensures
        <play::RelEntityMoveResponse as MD<'static>>::spec_serialize(v) == varint_bytes(v.entity_id as u32) + <i16 as MD<'static>>::spec_serialize(v.d_x) + <i16 as MD<'static>>::spec_serialize(v.d_y) + <i16 as MD<'static>>::spec_serialize(v.d_z) + <bool as MD<'static>>::spec_serialize(v.on_ground),
{
}

/// A `EntityMoveLookResponse` is written as its fields in the protocol's order: `entity_id`, `d_x`, `d_y`, `d_z`, `yaw`, `pitch` and `on_ground`.
pub proof fn lemma_entity_move_look_response_layout(v: play::EntityMoveLookResponse)
    ensures
        <play::EntityMoveLookResponse as MD<'static>>::spec_serialize(v) == varint_bytes(v.entity_id as u32) + <i16 as MD<'static>>::spec_serialize(v.d_x) + <i16 as MD<'static>>::spec_serialize(v.d_y) + <i16 as MD<'static>>::spec_serialize(v.d_z) + <i8 as MD<'static>>::spec_serialize(v.yaw) + <i8 as MD<'static>>::spec_serialize(v.pitch) + <bool as MD<'static>>::spec_serialize(v.on_ground),
{
}

/// A `EntityLookResponse` is written as its fields in the protocol's order: `entity_id`, `yaw`, `pitch` and `on_ground`.
pub proof fn lemma_entity_look_response_layout(v: play::EntityLookResponse)
    ensures
        <play::EntityLookResponse as MD<'static>>::spec_serialize(v) == varint_bytes(v.entity_id as u32) + <i8 as MD<'static>>::spec_serialize(v.yaw) + <i8 as MD<'static>>::spec_serialize(v.pitch) + <bool as MD<'static>>::spec_serialize(v.on_ground),
{
}

/// A `VehicleMoveResponse` is written as its fields in the protocol's order: `x`, `y`, `z`, `yaw` and `pitch`.
pub proof fn lemma_vehicle_move_response_layout(v: play::VehicleMoveResponse)
    ensures
        <play::VehicleMoveResponse as MD<'static>>::spec_serialize(v) == <u64 as MD<'static>>::spec_serialize(v.x) + <u64 as MD<'static>>::spec_serialize(v.y) + <u64 as MD<'static>>::spec_serialize(v.z) + <u32 as MD<'static>>::spec_serialize(v.yaw) + <u32 as MD<'static>>::spec_serialize(v.pitch),
{
}

/// A `OpenBookResponse` is written as its fields in the protocol's order: `hand`.
pub proof fn lemma_open_book_response_layout(v: play::OpenBookResponse)
    ensures
        <play::OpenBookResponse as MD<'static>>::spec_serialize(v) == varint_bytes(v.hand as u32),
{
}

/// A `OpenSignEntityResponse` is written as its fields in the protocol's order: `location`.
pub proof fn lemma_open_sign_entity_response_layout(v: play::OpenSignEntityResponse)
    ensures
        <play::OpenSignEntityResponse as MD<'static>>::spec_serialize(v) == <Position as MD<'static>>::spec_serialize(v.location),
{
}

/// A `CraftRecipeResponse` is written as its fields in the protocol's order: `window_id` and `recipe`.
pub proof fn lemma_craft_recipe_response_layout(v: play::CraftRecipeResponseView)
    ensures
        <play::CraftRecipeResponse<'static> as MD<'static>>::spec_serialize(v) == <i8 as MD<'static>>::spec_serialize(v.window_id) + <&'static str as MD<'static>>::spec_serialize(v.recipe),
{
}

/// A `AbilitiesResponse` is written as its fields in the protocol's order: `flags`, `flying_speed` and `walking_speed`.
pub proof fn lemma_abilities_response_layout(v: play::AbilitiesResponse)
    ensures
        <play::AbilitiesResponse as MD<'static>>::spec_serialize(v) == <i8 as MD<'static>>::spec_serialize(v.flags) + <u32 as MD<'static>>::spec_serialize(v.flying_speed) + <u32 as MD<'static>>::spec_serialize(v.walking_speed),
{
}

/// A `EndCombatEventResponse` is written as its fields in the protocol's order: `duration` and `entity_id`.
pub proof fn lemma_end_combat_event_response_layout(v: play::EndCombatEventResponse)
    ensures
        <play::EndCombatEventResponse as MD<'static>>::spec_serialize(v) == varint_bytes(v.duration as u32) + <i32 as MD<'static>>::spec_serialize(v.entity_id),
{
}

/// A `EnterCombatEventResponse` is written as its fields in the protocol's order (it has none).
pub proof fn lemma_enter_combat_event_response_layout(v: play::EnterCombatEventResponse)
    ensures
        <play::EnterCombatEventResponse as MD<'static>>::spec_serialize(v) == Seq::<u8>::empty(),
{
}

/// A `DeathCombatEventResponse` is written as its fields in the protocol's order: `player_id`, `entity_id` and `message`.
pub proof fn lemma_death_combat_event_response_layout(v: play::DeathCombatEventResponseView)
    ensures
        <play::DeathCombatEventResponse<'static> as MD<'static>>::spec_serialize(v) == varint_bytes(v.player_id as u32) + <i32 as MD<'static>>::spec_serialize(v.entity_id) + <&'static str as MD<'static>>::spec_serialize(v.message),
{
}

/// A `PlayerInfoResponse_Data` is written as its fields in the protocol's order (it has none).
pub proof fn lemma_player_info_response_data_layout(v: play::PlayerInfoResponse_Data)
    ensures
        <play::PlayerInfoResponse_Data as MD<'static>>::spec_serialize(v) == Seq::<u8>::empty(),
{
}

/// A `PositionResponse` is written as its fields in the protocol's order: `x`, `y`, `z`, `yaw`, `pitch`, `flags`, `teleport_id` and `dismount_vehicle`.
pub proof fn lemma_position_response_layout(v: play::PositionResponse)
    ensures
        <play::PositionResponse as MD<'static>>::spec_serialize(v) == <u64 as MD<'static>>::spec_serialize(v.x) + <u64 as MD<'static>>::spec_serialize(v.y) + <u64 as MD<'static>>::spec_serialize(v.z) + <u32 as MD<'static>>::spec_serialize(v.yaw) + <u32 as MD<'static>>::spec_serialize(v.pitch) + <i8 as MD<'static>>::spec_serialize(v.flags) + varint_bytes(v.teleport_id as u32) + <bool as MD<'static>>::spec_serialize(v.dismount_vehicle),
{
}

/// A `UnlockRecipesResponse` is written as its fields in the protocol's order (it has none).
pub proof fn lemma_unlock_recipes_response_layout(v: play::UnlockRecipesResponse)
    ensures
        <play::UnlockRecipesResponse as MD<'static>>::spec_serialize(v) == Seq::<u8>::empty(),
{
}

/// A `RemoveEntityEffectResponse` is written as its fields in the protocol's order: `entity_id` and `effect_id`.
pub proof fn lemma_remove_entity_effect_response_layout(v: play::RemoveEntityEffectResponse)
    ensures
        <play::RemoveEntityEffectResponse as MD<'static>>::spec_serialize(v) == varint_bytes(v.entity_id as u32) + varint_bytes(v.effect_id as u32),
{
}

/// A `ResourcePackSendResponse` is written as its fields in the protocol's order: `url`, `hash`, `forced` and `prompt_message`.
pub proof fn lemma_resource_pack_send_response_layout(v: play::ResourcePackSendResponseView)
    ensures
        <play::ResourcePackSendResponse<'static> as MD<'static>>::spec_serialize(v) == <&'static str as MD<'static>>::spec_serialize(v.url) + <&'static str as MD<'static>>::spec_serialize(v.hash) + <bool as MD<'static>>::spec_serialize(v.forced) + <Option<&'static str> as MD<'static>>::spec_serialize(v.prompt_message),
{
}

/// A `RespawnResponse` is written as its fields in the protocol's order: `dimension`, `world_name`, `hashed_seed`, `gamemode`, `previous_gamemode`, `is_debug`, `is_flat` and `copy_metadata`.
pub proof fn lemma_respawn_response_layout(v: play::RespawnResponseView)
    ensures
        <play::RespawnResponse<'static> as MD<'static>>::spec_serialize(v) == <IndexedNbt<'static> as MD<'static>>::spec_serialize(v.dimension) + <&'static str as MD<'static>>::spec_serialize(v.world_name) + <i64 as MD<'static>>::spec_serialize(v.hashed_seed) + <u8 as MD<'static>>::spec_serialize(v.gamemode) + <u8 as MD<'static>>::spec_serialize(v.previous_gamemode) + <bool as MD<'static>>::spec_serialize(v.is_debug) + <bool as MD<'static>>::spec_serialize(v.is_flat) + <bool as MD<'static>>::spec_serialize(v.copy_metadata),
{
}

/// A `EntityHeadRotationResponse` is written as its fields in the protocol's order: `entity_id` and `head_yaw`.
pub proof fn lemma_entity_head_rotation_response_layout(v: play::EntityHeadRotationResponse)
    ensures
        <play::EntityHeadRotationResponse as MD<'static>>::spec_serialize(v) == varint_bytes(v.entity_id as u32) + <i8 as MD<'static>>::spec_serialize(v.head_yaw),
{
}

/// A `CameraResponse` is written as its fields in the protocol's order: `camera_id`.
pub proof fn lemma_camera_response_layout(v: play::CameraResponse)
    ensures
        <play::CameraResponse as MD<'static>>::spec_serialize(v) == varint_bytes(v.camera_id as u32),
{
}

/// A `HeldItemSlotResponse` is written as its fields in the protocol's order: `slot`.
pub proof fn lemma_held_item_slot_response_layout(v: play::HeldItemSlotResponse)
    ensures
        <play::HeldItemSlotResponse as MD<'static>>::spec_serialize(v) == <i8 as MD<'static>>::spec_serialize(v.slot),
{
}

/// A `UpdateViewPositionResponse` is written as its fields in the protocol's order: `chunk_x` and `chunk_z`.
pub proof fn lemma_update_view_position_response_layout(v: play::UpdateViewPositionResponse)
    ensures
        <play::UpdateViewPositionResponse as MD<'static>>::spec_serialize(v) == varint_bytes(v.chunk_x as u32) + varint_bytes(v.chunk_z as u32),
{
}

/// A `UpdateViewDistanceResponse` is written as its fields in the protocol's order: `view_distance`.
pub proof fn lemma_update_view_distance_response_layout(v: play::UpdateViewDistanceResponse)
    ensures
        <play::UpdateViewDistanceResponse as MD<'static>>::spec_serialize(v) == varint_bytes(v.view_distance as u32),
{
}

/// A `ScoreboardDisplayObjectiveResponse` is written as its fields in the protocol's order: `position` and `name`.
pub proof fn lemma_scoreboard_display_objective_response_layout(v: play::ScoreboardDisplayObjectiveResponseView)
    ensures
        <play::ScoreboardDisplayObjectiveResponse<'static> as MD<'static>>::spec_serialize(v) == <i8 as MD<'static>>::spec_serialize(v.position) + <&'static str as MD<'static>>::spec_serialize(v.name),
{
}

/// A `EntityMetadataResponse` is written as its fields in the protocol's order (it has none).
pub proof fn lemma_entity_metadata_response_layout(v: play::EntityMetadataResponse)
    ensures
        <play::EntityMetadataResponse as MD<'static>>::spec_serialize(v) == Seq::<u8>::empty(),
{
}

/// A `AttachEntityResponse` is written as its fields in the protocol's order: `entity_id` and `vehicle_id`.
pub proof fn lemma_attach_entity_response_layout(v: play::AttachEntityResponse)
    ensures
        <play::AttachEntityResponse as MD<'static>>::spec_serialize(v) == <i32 as MD<'static>>::spec_serialize(v.entity_id) + <i32 as MD<'static>>::spec_serialize(v.vehicle_id),
{
}

/// A `EntityVelocityResponse` is written as its fields in the protocol's order: `entity_id`, `velocity_x`, `velocity_y` and `velocity_z`.
pub proof fn lemma_entity_velocity_response_layout(v: play::EntityVelocityResponse)
    ensures
        <play::EntityVelocityResponse as MD<'static>>::spec_serialize(v) == varint_bytes(v.entity_id as u32) + <i16 as MD<'static>>::spec_serialize(v.velocity_x) + <i16 as MD<'static>>::spec_serialize(v.velocity_y) + <i16 as MD<'static>>::spec_serialize(v.velocity_z),
{
}

/// A `EntityEquipmentResponse` is written as its fields in the protocol's order (it has none).
pub proof fn lemma_entity_equipment_response_layout(v: play::EntityEquipmentResponse)
    ensures
        <play::EntityEquipmentResponse as MD<'static>>::spec_serialize(v) == Seq::<u8>::empty(),
{
}

/// A `ExperienceResponse` is written as its fields in the protocol's order: `experience_bar`, `level` and `total_experience`.
pub proof fn lemma_experience_response_layout(v: play::ExperienceResponse)
    ensures
        <play::ExperienceResponse as MD<'static>>::spec_serialize(v) == <u32 as MD<'static>>::spec_serialize(v.experience_bar) + varint_bytes(v.level as u32) + varint_bytes(v.total_experience as u32),
{
}

/// A `UpdateHealthResponse` is written as its fields in the protocol's order: `health`, `food` and `food_saturation`.
pub proof fn lemma_update_health_response_layout(v: play::UpdateHealthResponse)
    ensures
        <play::UpdateHealthResponse as MD<'static>>::spec_serialize(v) == <u32 as MD<'static>>::spec_serialize(v.health) + varint_bytes(v.food as u32) + <u32 as MD<'static>>::spec_serialize(v.food_saturation),
{
}

/// A `ScoreboardObjectiveResponse` is written as its fields in the protocol's order (it has none).
pub proof fn lemma_scoreboard_objective_response_layout(v: play::ScoreboardObjectiveResponse)
    ensures
        <play::ScoreboardObjectiveResponse as MD<'static>>::spec_serialize(v) == Seq::<u8>::empty(),
{
}

/// A `TeamsResponse` is written as its fields in the protocol's order (it has none).
pub proof fn lemma_teams_response_layout(v: play::TeamsResponse)
    ensures
        <play::TeamsResponse as MD<'static>>::spec_serialize(v) == Seq::<u8>::empty(),
{
}

/// A `ScoreboardScoreResponse` is written as its fields in the protocol's order (it has none).
pub proof fn lemma_scoreboard_score_response_layout(v: play::ScoreboardScoreResponse)
    ensures
        <play::ScoreboardScoreResponse as MD<'static>>::spec_serialize(v) == Seq::<u8>::empty(),
{
}

/// A `SpawnPositionResponse` is written as its fields in the protocol's order: `location` and `angle`.
pub proof fn lemma_spawn_position_response_layout(v: play::SpawnPositionResponse)
    ensures
        <play::SpawnPositionResponse as MD<'static>>::spec_serialize(v) == <Position as MD<'static>>::spec_serialize(v.location) + <u32 as MD<'static>>::spec_serialize(v.angle),
{
}

/// A `UpdateTimeResponse` is written as its fields in the protocol's order: `age` and `time`.
pub proof fn lemma_update_time_response_layout(v: play::UpdateTimeResponse)
    ensures
        <play::UpdateTimeResponse as MD<'static>>::spec_serialize(v) == <i64 as MD<'static>>::spec_serialize(v.age) + <i64 as MD<'static>>::spec_serialize(v.time),
{
}

/// A `EntitySoundEffectResponse` is written as its fields in the protocol's order: `sound_id`, `sound_category`, `entity_id`, `volume` and `pitch`.
pub proof fn lemma_entity_sound_effect_response_layout(v: play::EntitySoundEffectResponse)
    ensures
        <play::EntitySoundEffectResponse as MD<'static>>::spec_serialize(v) == varint_bytes(v.sound_id as u32) + varint_bytes(v.sound_category as u32) + varint_bytes(v.entity_id as u32) + <u32 as MD<'static>>::spec_serialize(v.volume) + <u32 as MD<'static>>::spec_serialize(v.pitch),
{
}

/// A `StopSoundResponse` is written as its fields in the protocol's order (it has none).
pub proof fn lemma_stop_sound_response_layout(v: play::StopSoundResponse)
    ensures
        <play::StopSoundResponse as MD<'static>>::spec_serialize(v) == Seq::<u8>::empty(),
{
}

/// A `SoundEffectResponse` is written as its fields in the protocol's order: `sound_id`, `sound_category`, `x`, `y`, `z`, `volume` and `pitch`.
pub proof fn lemma_sound_effect_response_layout(v: play::SoundEffectResponse)
    ensures
        <play::SoundEffectResponse as MD<'static>>::spec_serialize(v) == varint_bytes(v.sound_id as u32) + varint_bytes(v.sound_category as u32) + <i32 as MD<'static>>::spec_serialize(v.x) + <i32 as MD<'static>>::spec_serialize(v.y) + <i32 as MD<'static>>::spec_serialize(v.z) + <u32 as MD<'static>>::spec_serialize(v.volume) + <u32 as MD<'static>>::spec_serialize(v.pitch),
{
}

/// A `PlayerlistHeaderResponse` is written as its fields in the protocol's order: `header` and `footer`.
pub proof fn lemma_playerlist_header_response_layout(v: play::PlayerlistHeaderResponseView)
    ensures
        <play::PlayerlistHeaderResponse<'static> as MD<'static>>::spec_serialize(v) == <&'static str as MD<'static>>::spec_serialize(v.header) + <&'static str as MD<'static>>::spec_serialize(v.footer),
{
}

/// A `CollectResponse` is written as its fields in the protocol's order: `collected_entity_id`, `collector_entity_id` and `pickup_item_count`.
pub proof fn lemma_collect_response_layout(v: play::CollectResponse)
    ensures
        <play::CollectResponse as MD<'static>>::spec_serialize(v) == varint_bytes(v.collected_entity_id as u32) + varint_bytes(v.collector_entity_id as u32) + varint_bytes(v.pickup_item_count as u32),
{
}

/// A `EntityTeleportResponse` is written as its fields in the protocol's order: `entity_id`, `x`, `y`, `z`, `yaw`, `pitch` and `on_ground`.
pub proof fn lemma_entity_teleport_response_layout(v: play::EntityTeleportResponse)
    ensures
        <play::EntityTeleportResponse as MD<'static>>::spec_serialize(v) == varint_bytes(v.entity_id as u32) + <u64 as MD<'static>>::spec_serialize(v.x) + <u64 as MD<'static>>::spec_serialize(v.y) + <u64 as MD<'static>>::spec_serialize(v.z) + <i8 as MD<'static>>::spec_serialize(v.yaw) + <i8 as MD<'static>>::spec_serialize(v.pitch) + <bool as MD<'static>>::spec_serialize(v.on_ground),
{
}

/// A `EntityUpdateAttributesResponse_Modifiers` is written as its fields in the protocol's order: `uuid`, `amount` and `operation`.
pub proof fn lemma_entity_update_attributes_response_modifiers_layout(v: play::EntityUpdateAttributesResponse_Modifiers)
    ensures
        <play::EntityUpdateAttributesResponse_Modifiers as MD<'static>>::spec_serialize(v) == <u128 as MD<'static>>::spec_serialize(v.uuid) + <u64 as MD<'static>>::spec_serialize(v.amount) + <i8 as MD<'static>>::spec_serialize(v.operation),
{
}

/// A `EntityEffectResponse` is written as its fields in the protocol's order: `entity_id`, `effect_id`, `amplifier`, `duration` and `hide_particles`.
pub proof fn lemma_entity_effect_response_layout(v: play::EntityEffectResponse)
    ensures
        <play::EntityEffectResponse as MD<'static>>::spec_serialize(v) == varint_bytes(v.entity_id as u32) + varint_bytes(v.effect_id as u32) + <i8 as MD<'static>>::spec_serialize(v.amplifier) + varint_bytes(v.duration as u32) + <i8 as MD<'static>>::spec_serialize(v.hide_particles),
{
}

/// A `SelectAdvancementTabResponse` is written as its fields in the protocol's order: `id`.
pub proof fn lemma_select_advancement_tab_response_layout(v: play::SelectAdvancementTabResponseView)
    ensures
        <play::SelectAdvancementTabResponse<'static> as MD<'static>>::spec_serialize(v) == <Option<&'static str> as MD<'static>>::spec_serialize(v.id),
{
}

/// A `DeclareRecipesResponse_Recipes` is written as its fields in the protocol's order (it has none).
pub proof fn lemma_declare_recipes_response_recipes_layout(v: play::DeclareRecipesResponse_Recipes)
    ensures
        <play::DeclareRecipesResponse_Recipes as MD<'static>>::spec_serialize(v) == Seq::<u8>::empty(),
{
}

/// A `TagsResponse_Tags` is written as its fields in the protocol's order (it has none).
pub proof fn lemma_tags_response_tags_layout(v: play::TagsResponse_Tags)
    ensures
        <play::TagsResponse_Tags as MD<'static>>::spec_serialize(v) == Seq::<u8>::empty(),
{
}

/// A `AcknowledgePlayerDiggingResponse` is written as its fields in the protocol's order: `location`, `block`, `status` and `successful`.
pub proof fn lemma_acknowledge_player_digging_response_layout(v: play::AcknowledgePlayerDiggingResponse)
    ensures
        <play::AcknowledgePlayerDiggingResponse as MD<'static>>::spec_serialize(v) == <Position as MD<'static>>::spec_serialize(v.location) + varint_bytes(v.block as u32) + varint_bytes(v.status as u32) + <bool as MD<'static>>::spec_serialize(v.successful),
{
}

/// A `SculkVibrationSignalResponse` is written as its fields in the protocol's order (it has none).
pub proof fn lemma_sculk_vibration_signal_response_layout(v: play::SculkVibrationSignalResponse)
    ensures
        <play::SculkVibrationSignalResponse as MD<'static>>::spec_serialize(v) == Seq::<u8>::empty(),
{
}

/// A `ClearTitlesResponse` is written as its fields in the protocol's order: `reset`.
pub proof fn lemma_clear_titles_response_layout(v: play::ClearTitlesResponse)
    ensures
        <play::ClearTitlesResponse as MD<'static>>::spec_serialize(v) == <bool as MD<'static>>::spec_serialize(v.reset),
{
}

/// A `InitializeWorldBorderResponse` is written as its fields in the protocol's order: `x`, `z`, `old_diameter`, `new_diameter`, `speed`, `portal_teleport_boundary`, `warning_blocks` and `warning_time`.
pub proof fn lemma_initialize_world_border_response_layout(v: play::InitializeWorldBorderResponse)
    ensures
        <play::InitializeWorldBorderResponse as MD<'static>>::spec_serialize(v) == <u64 as MD<'static>>::spec_serialize(v.x) + <u64 as MD<'static>>::spec_serialize(v.z) + <u64 as MD<'static>>::spec_serialize(v.old_diameter) + <u64 as MD<'static>>::spec_serialize(v.new_diameter) + varlong_bytes(v.speed as u64) + varint_bytes(v.portal_teleport_boundary as u32) + varint_bytes(v.warning_blocks as u32) + varint_bytes(v.warning_time as u32),
{
}

/// A `ActionBarResponse` is written as its fields in the protocol's order: `text`.
pub proof fn lemma_action_bar_response_layout(v: play::ActionBarResponseView)
    ensures
        <play::ActionBarResponse<'static> as MD<'static>>::spec_serialize(v) == <&'static str as MD<'static>>::spec_serialize(v.text),
{
}

/// A `WorldBorderCenterResponse` is written as its fields in the protocol's order: `x` and `z`.
pub proof fn lemma_world_border_center_response_layout(v: play::WorldBorderCenterResponse)
    ensures
        <play::WorldBorderCenterResponse as MD<'static>>::spec_serialize(v) == <u64 as MD<'static>>::spec_serialize(v.x) + <u64 as MD<'static>>::spec_serialize(v.z),
{
}

/// A `WorldBorderLerpSizeResponse` is written as its fields in the protocol's order: `old_diameter`, `new_diameter` and `speed`.
pub proof fn lemma_world_border_lerp_size_response_layout(v: play::WorldBorderLerpSizeResponse)
    ensures
        <play::WorldBorderLerpSizeResponse as MD<'static>>::spec_serialize(v) == <u64 as MD<'static>>::spec_serialize(v.old_diameter) + <u64 as MD<'static>>::spec_serialize(v.new_diameter) + varlong_bytes(v.speed as u64),
{
}

/// A `WorldBorderSizeResponse` is written as its fields in the protocol's order: `diameter`.
pub proof fn lemma_world_border_size_response_layout(v: play::WorldBorderSizeResponse)
    ensures
        <play::WorldBorderSizeResponse as MD<'static>>::spec_serialize(v) == <u64 as MD<'static>>::spec_serialize(v.diameter),
{
}

/// A `WorldBorderWarningDelayResponse` is written as its fields in the protocol's order: `warning_time`.
pub proof fn lemma_world_border_warning_delay_response_layout(v: play::WorldBorderWarningDelayResponse)
    ensures
        <play::WorldBorderWarningDelayResponse as MD<'static>>::spec_serialize(v) == varint_bytes(v.warning_time as u32),
{
}

/// A `WorldBorderWarningReachResponse` is written as its fields in the protocol's order: `warning_blocks`.
pub proof fn lemma_world_border_warning_reach_response_layout(v: play::WorldBorderWarningReachResponse)
    ensures
        <play::WorldBorderWarningReachResponse as MD<'static>>::spec_serialize(v) == varint_bytes(v.warning_blocks as u32),
{
}

/// A `PlayPingResponse` is written as its fields in the protocol's order: `id`.
pub proof fn lemma_play_ping_response_layout(v: play::PlayPingResponse)
    ensures
        <play::PlayPingResponse as MD<'static>>::spec_serialize(v) == <i32 as MD<'static>>::spec_serialize(v.id),
{
}

/// A `SetTitleSubtitleResponse` is written as its fields in the protocol's order: `text`.
pub proof fn lemma_set_title_subtitle_response_layout(v: play::SetTitleSubtitleResponseView)
    ensures
        <play::SetTitleSubtitleResponse<'static> as MD<'static>>::spec_serialize(v) == <&'static str as MD<'static>>::spec_serialize(v.text),
{
}

/// A `SetTitleTextResponse` is written as its fields in the protocol's order: `text`.
pub proof fn lemma_set_title_text_response_layout(v: play::SetTitleTextResponseView)
    ensures
        <play::SetTitleTextResponse<'static> as MD<'static>>::spec_serialize(v) == <&'static str as MD<'static>>::spec_serialize(v.text),
{
}

/// A `SetTitleTimeResponse` is written as its fields in the protocol's order: `fade_in`, `stay` and `fade_out`.
pub proof fn lemma_set_title_time_response_layout(v: play::SetTitleTimeResponse)
    ensures
        <play::SetTitleTimeResponse as MD<'static>>::spec_serialize(v) == <i32 as MD<'static>>::spec_serialize(v.fade_in) + <i32 as MD<'static>>::spec_serialize(v.stay) + <i32 as MD<'static>>::spec_serialize(v.fade_out),
{
}

/// A `SimulationDistanceResponse` is written as its fields in the protocol's order: `distance`.
pub proof fn lemma_simulation_distance_response_layout(v: play::SimulationDistanceResponse)
    ensures
        <play::SimulationDistanceResponse as MD<'static>>::spec_serialize(v) == varint_bytes(v.distance as u32),
{
}

/// A `EditBookRequest` is read from its fields written in the protocol's order: `hand`, `pages` and `title`.
pub proof fn lemma_edit_book_request_decode(v: play::EditBookRequestView, rest: Seq<u8>)
    requires
        v.pages.len() <= i32::MAX,
        forall|i: int| 0 <= i < v.pages.len() ==> <&'static str as MD<'static>>::encodable(#[trigger] v.pages[i]),
        <Option<&'static str> as MD<'static>>::encodable(v.title),
    ensures
        <play::EditBookRequest<'static> as MD<'static>>::spec_deserialize(varint_bytes(v.hand as u32) + (varint_bytes(v.pages.len() as u32) + array_bytes::<'static, &'static str>(v.pages)) + <Option<&'static str> as MD<'static>>::spec_serialize(v.title) + rest) == Some((v, rest)),
{
    let b0 = varint_bytes(v.hand as u32);
    let b1 = (varint_bytes(v.pages.len() as u32) + array_bytes::<'static, &'static str>(v.pages));
    let b2 = <Option<&'static str> as MD<'static>>::spec_serialize(v.title);
    let t3 = rest;
    let t2 = b2 + t3;
    let t1 = b1 + t2;
    let t0 = b0 + t1;
    assert(b0 + b1 + b2 + rest =~= t0);
    lemma_varint_field_roundtrip(v.hand, t1);
    lemma_varint_field_roundtrip(v.pages.len() as i32, array_bytes::<'static, &'static str>(v.pages) + t2);
    assert((v.pages.len() as i32) as u32 == v.pages.len() as u32);
    assert((v.pages.len() as i32) as int == v.pages.len());
    assert(varint_bytes(v.pages.len() as u32) + (array_bytes::<'static, &'static str>(v.pages) + t2) =~= b1 + t2);
    lemma_array_decode::<'static, &'static str>(v.pages, t2);
    <Option<&'static str> as MD<'static>>::lemma_roundtrip(v.title, t3);
    lemma_concat_associative(b0 + b1, b2, t3);
    lemma_concat_associative(b0, b1, t2);
}

/// A `WindowClickRequest` is read from its fields written in the protocol's order: `window_id`, `state_id`, `slot`, `mouse_button`, `mode`, `changed_slots` and `cursor_item`.
#[verifier::rlimit(100)]
#[verifier::spinoff_prover]
pub proof fn lemma_window_click_request_decode(v: play::WindowClickRequestView, cursor_item_bytes: Seq<u8>, rest: Seq<u8>)
    requires
        <u8 as MD<'static>>::encodable(v.window_id),
        <i16 as MD<'static>>::encodable(v.slot),
        <i8 as MD<'static>>::encodable(v.mouse_button),
        v.changed_slots.len() <= i32::MAX,
        forall|i: int| 0 <= i < v.changed_slots.len() ==> <play::WindowClickRequest_ChangedSlots<'static> as MD<'static>>::encodable(#[trigger] v.changed_slots[i]),
        forall|r: Seq<u8>| #[trigger] <InventorySlot<'static> as MD<'static>>::spec_deserialize(cursor_item_bytes + r) == Some((v.cursor_item, r)),
    ensures
        <play::WindowClickRequest<'static> as MD<'static>>::spec_deserialize(<u8 as MD<'static>>::spec_serialize(v.window_id) + varint_bytes(v.state_id as u32) + <i16 as MD<'static>>::spec_serialize(v.slot) + <i8 as MD<'static>>::spec_serialize(v.mouse_button) + varint_bytes(v.mode as u32) + (varint_bytes(v.changed_slots.len() as u32) + array_bytes::<'static, play::WindowClickRequest_ChangedSlots<'static>>(v.changed_slots)) + cursor_item_bytes + rest) == Some((v, rest)),
{
    let b0 = <u8 as MD<'static>>::spec_serialize(v.window_id);
    let b1 = varint_bytes(v.state_id as u32);
    let b2 = <i16 as MD<'static>>::spec_serialize(v.slot);
    let b3 = <i8 as MD<'static>>::spec_serialize(v.mouse_button);
    let b4 = varint_bytes(v.mode as u32);
    let b5 = (varint_bytes(v.changed_slots.len() as u32) + array_bytes::<'static, play::WindowClickRequest_ChangedSlots<'static>>(v.changed_slots));
    let b6 = cursor_item_bytes;
    let t7 = rest;
    let t6 = b6 + t7;
    let t5 = b5 + t6;
    let t4 = b4 + t5;
    let t3 = b3 + t4;
    let t2 = b2 + t3;
    let t1 = b1 + t2;
    let t0 = b0 + t1;
    assert(b0 + b1 + b2 + b3 + b4 + b5 + b6 + rest =~= t0);
    <u8 as MD<'static>>::lemma_roundtrip(v.window_id, t1);
    lemma_varint_field_roundtrip(v.state_id, t2);
    <i16 as MD<'static>>::lemma_roundtrip(v.slot, t3);
    <i8 as MD<'static>>::lemma_roundtrip(v.mouse_button, t4);
    lemma_varint_field_roundtrip(v.mode, t5);
    lemma_varint_field_roundtrip(v.changed_slots.len() as i32, array_bytes::<'static, play::WindowClickRequest_ChangedSlots<'static>>(v.changed_slots) + t6);
    assert((v.changed_slots.len() as i32) as u32 == v.changed_slots.len() as u32);
    assert((v.changed_slots.len() as i32) as int == v.changed_slots.len());
    assert(varint_bytes(v.changed_slots.len() as u32) + (array_bytes::<'static, play::WindowClickRequest_ChangedSlots<'static>>(v.changed_slots) + t6) =~= b5 + t6);
    lemma_array_decode::<'static, play::WindowClickRequest_ChangedSlots<'static>>(v.changed_slots, t6);
    assert(<InventorySlot<'static> as MD<'static>>::spec_deserialize(cursor_item_bytes + t7) == Some((v.cursor_item, t7)));
    lemma_concat_associative(b0 + b1 + b2 + b3 + b4 + b5, b6, t7);
    lemma_concat_associative(b0 + b1 + b2 + b3 + b4, b5, t6);
    lemma_concat_associative(b0 + b1 + b2 + b3, b4, t5);
    lemma_concat_associative(b0 + b1 + b2, b3, t4);
    lemma_concat_associative(b0 + b1, b2, t3);
    lemma_concat_associative(b0, b1, t2);
}

/// A `StatisticsResponse` is read from its fields written in the protocol's order: `entries`.
pub proof fn lemma_statistics_response_decode(v: play::StatisticsResponseView, rest: Seq<u8>)
    requires
        v.entries.len() <= i32::MAX,
        forall|i: int| 0 <= i < v.entries.len() ==> <play::StatisticsResponse_Entries as MD<'static>>::encodable(#[trigger] v.entries[i]),
    ensures
        <play::StatisticsResponse as MD<'static>>::spec_deserialize((varint_bytes(v.entries.len() as u32) + array_bytes::<'static, play::StatisticsResponse_Entries>(v.entries)) + rest) == Some((v, rest)),
{
    let b0 = (varint_bytes(v.entries.len() as u32) + array_bytes::<'static, play::StatisticsResponse_Entries>(v.entries));
    let t1 = rest;
    let t0 = b0 + t1;
    assert(b0 + rest =~= t0);
    lemma_varint_field_roundtrip(v.entries.len() as i32, array_bytes::<'static, play::StatisticsResponse_Entries>(v.entries) + t1);
    assert((v.entries.len() as i32) as u32 == v.entries.len() as u32);
    assert((v.entries.len() as i32) as int == v.entries.len());
    assert(varint_bytes(v.entries.len() as u32) + (array_bytes::<'static, play::StatisticsResponse_Entries>(v.entries) + t1) =~= b0 + t1);
    lemma_array_decode::<'static, play::StatisticsResponse_Entries>(v.entries, t1);
}

/// A `TabCompleteResponse` is read from its fields written in the protocol's order: `transaction_id`, `start`, `length` and `matches`.
pub proof fn lemma_tab_complete_response_decode(v: play::TabCompleteResponseView, rest: Seq<u8>)
    requires
        v.matches.len() <= i32::MAX,
        forall|i: int| 0 <= i < v.matches.len() ==> <play::TabCompleteResponse_Matches<'static> as MD<'static>>::encodable(#[trigger] v.matches[i]),
    ensures
        <play::TabCompleteResponse<'static> as MD<'static>>::spec_deserialize(varint_bytes(v.transaction_id as u32) + varint_bytes(v.start as u32) + varint_bytes(v.length as u32) + (varint_bytes(v.matches.len() as u32) + array_bytes::<'static, play::TabCompleteResponse_Matches<'static>>(v.matches)) + rest) == Some((v, rest)),
{
    let b0 = varint_bytes(v.transaction_id as u32);
    let b1 = varint_bytes(v.start as u32);
    let b2 = varint_bytes(v.length as u32);
    let b3 = (varint_bytes(v.matches.len() as u32) + array_bytes::<'static, play::TabCompleteResponse_Matches<'static>>(v.matches));
    let t4 = rest;
    let t3 = b3 + t4;
    let t2 = b2 + t3;
    let t1 = b1 + t2;
    let t0 = b0 + t1;
    assert(b0 + b1 + b2 + b3 + rest =~= t0);
    lemma_varint_field_roundtrip(v.transaction_id, t1);
    lemma_varint_field_roundtrip(v.start, t2);
    lemma_varint_field_roundtrip(v.length, t3);
    lemma_varint_field_roundtrip(v.matches.len() as i32, array_bytes::<'static, play::TabCompleteResponse_Matches<'static>>(v.matches) + t4);
    assert((v.matches.len() as i32) as u32 == v.matches.len() as u32);
    assert((v.matches.len() as i32) as int == v.matches.len());
    assert(varint_bytes(v.matches.len() as u32) + (array_bytes::<'static, play::TabCompleteResponse_Matches<'static>>(v.matches) + t4) =~= b3 + t4);
    lemma_array_decode::<'static, play::TabCompleteResponse_Matches<'static>>(v.matches, t4);
    lemma_concat_associative(b0 + b1 + b2, b3, t4);
    lemma_concat_associative(b0 + b1, b2, t3);
    lemma_concat_associative(b0, b1, t2);
}

/// A `MultiBlockChangeResponse` is read from its fields written in the protocol's order: `chunk_coordinates`, `not_trust_edges` and `records`.
#[verifier::rlimit(100)]
#[verifier::spinoff_prover]
pub proof fn lemma_multi_block_change_response_decode(v: play::MultiBlockChangeResponseView, chunk_coordinates_bytes: Seq<u8>, rest: Seq<u8>)
    requires
        forall|r: Seq<u8>| #[trigger] <play::MultiBlockChangeResponse_ChunkCoordinates as MD<'static>>::spec_deserialize(chunk_coordinates_bytes + r) == Some((v.chunk_coordinates, r)),
        <bool as MD<'static>>::encodable(v.not_trust_edges),
        v.records.len() <= i32::MAX,
    ensures
        <play::MultiBlockChangeResponse as MD<'static>>::spec_deserialize(chunk_coordinates_bytes + <bool as MD<'static>>::spec_serialize(v.not_trust_edges) + (varint_bytes(v.records.len() as u32) + varlong_array_bytes(v.records)) + rest) == Some((v, rest)),
{
    let b0 = chunk_coordinates_bytes;
    let b1 = <bool as MD<'static>>::spec_serialize(v.not_trust_edges);
    let b2 = (varint_bytes(v.records.len() as u32) + varlong_array_bytes(v.records));
    let t3 = rest;
    let t2 = b2 + t3;
    let t1 = b1 + t2;
    let t0 = b0 + t1;
    assert(b0 + b1 + b2 + rest =~= t0);
    assert(<play::MultiBlockChangeResponse_ChunkCoordinates as MD<'static>>::spec_deserialize(chunk_coordinates_bytes + t1) == Some((v.chunk_coordinates, t1)));
    <bool as MD<'static>>::lemma_roundtrip(v.not_trust_edges, t2);
    lemma_varint_field_roundtrip(v.records.len() as i32, varlong_array_bytes(v.records) + t3);
    assert((v.records.len() as i32) as u32 == v.records.len() as u32);
    assert((v.records.len() as i32) as int == v.records.len());
    assert(varint_bytes(v.records.len() as u32) + (varlong_array_bytes(v.records) + t3) =~= b2 + t3);
    lemma_varlong_array_decode(v.records, t3);
    lemma_concat_associative(b0 + b1, b2, t3);
    lemma_concat_associative(b0, b1, t2);
}

/// A `WindowItemsResponse` is read from its fields written in the protocol's order: `window_id`, `state_id`, `items` and `carried_item`.
#[verifier::rlimit(100)]
#[verifier::spinoff_prover]
pub proof fn lemma_window_items_response_decode(v: play::WindowItemsResponseView, carried_item_bytes: Seq<u8>, rest: Seq<u8>)
    requires
        <u8 as MD<'static>>::encodable(v.window_id),
        v.items.len() <= i32::MAX,
        forall|i: int| 0 <= i < v.items.len() ==> <InventorySlot<'static> as MD<'static>>::encodable(#[trigger] v.items[i]),
        forall|r: Seq<u8>| #[trigger] <InventorySlot<'static> as MD<'static>>::spec_deserialize(carried_item_bytes + r) == Some((v.carried_item, r)),
    ensures
        <play::WindowItemsResponse<'static> as MD<'static>>::spec_deserialize(<u8 as MD<'static>>::spec_serialize(v.window_id) + varint_bytes(v.state_id as u32) + (varint_bytes(v.items.len() as u32) + array_bytes::<'static, InventorySlot<'static>>(v.items)) + carried_item_bytes + rest) == Some((v, rest)),
{
    let b0 = <u8 as MD<'static>>::spec_serialize(v.window_id);
    let b1 = varint_bytes(v.state_id as u32);
    let b2 = (varint_bytes(v.items.len() as u32) + array_bytes::<'static, InventorySlot<'static>>(v.items));
    let b3 = carried_item_bytes;
    let t4 = rest;
    let t3 = b3 + t4;
    let t2 = b2 + t3;
    let t1 = b1 + t2;
    let t0 = b0 + t1;
    assert(b0 + b1 + b2 + b3 + rest =~= t0);
    <u8 as MD<'static>>::lemma_roundtrip(v.window_id, t1);
    lemma_varint_field_roundtrip(v.state_id, t2);
    lemma_varint_field_roundtrip(v.items.len() as i32, array_bytes::<'static, InventorySlot<'static>>(v.items) + t3);
    assert((v.items.len() as i32) as u32 == v.items.len() as u32);
    assert((v.items.len() as i32) as int == v.items.len());
    assert(varint_bytes(v.items.len() as u32) + (array_bytes::<'static, InventorySlot<'static>>(v.items) + t3) =~= b2 + t3);
    lemma_array_decode::<'static, InventorySlot<'static>>(v.items, t3);
    assert(<InventorySlot<'static> as MD<'static>>::spec_deserialize(carried_item_bytes + t4) == Some((v.carried_item, t4)));
    lemma_concat_associative(b0 + b1 + b2, b3, t4);
    lemma_concat_associative(b0 + b1, b2, t3);
    lemma_concat_associative(b0, b1, t2);
}

/// A `ExplosionResponse` is read from its fields written in the protocol's order: `x`, `y`, `z`, `radius`, `affected_block_offsets`, `player_motion_x`, `player_motion_y` and `player_motion_z`.
pub proof fn lemma_explosion_response_decode(v: play::ExplosionResponseView, rest: Seq<u8>)
    requires
        <u32 as MD<'static>>::encodable(v.x),
        <u32 as MD<'static>>::encodable(v.y),
        <u32 as MD<'static>>::encodable(v.z),
        <u32 as MD<'static>>::encodable(v.radius),
        v.affected_block_offsets.len() <= i32::MAX,
        forall|i: int| 0 <= i < v.affected_block_offsets.len() ==> <play::ExplosionResponse_AffectedBlockOffsets as MD<'static>>::encodable(#[trigger] v.affected_block_offsets[i]),
        <u32 as MD<'static>>::encodable(v.player_motion_x),
        <u32 as MD<'static>>::encodable(v.player_motion_y),
        <u32 as MD<'static>>::encodable(v.player_motion_z),
    ensures
        <play::ExplosionResponse as MD<'static>>::spec_deserialize(<u32 as MD<'static>>::spec_serialize(v.x) + <u32 as MD<'static>>::spec_serialize(v.y) + <u32 as MD<'static>>::spec_serialize(v.z) + <u32 as MD<'static>>::spec_serialize(v.radius) + (varint_bytes(v.affected_block_offsets.len() as u32) + array_bytes::<'static, play::ExplosionResponse_AffectedBlockOffsets>(v.affected_block_offsets)) + <u32 as MD<'static>>::spec_serialize(v.player_motion_x) + <u32 as MD<'static>>::spec_serialize(v.player_motion_y) + <u32 as MD<'static>>::spec_serialize(v.player_motion_z) + rest) == Some((v, rest)),
{
    let b0 = <u32 as MD<'static>>::spec_serialize(v.x);
    let b1 = <u32 as MD<'static>>::spec_serialize(v.y);
    let b2 = <u32 as MD<'static>>::spec_serialize(v.z);
    let b3 = <u32 as MD<'static>>::spec_serialize(v.radius);
    let b4 = (varint_bytes(v.affected_block_offsets.len() as u32) + array_bytes::<'static, play::ExplosionResponse_AffectedBlockOffsets>(v.affected_block_offsets));
    let b5 = <u32 as MD<'static>>::spec_serialize(v.player_motion_x);
    let b6 = <u32 as MD<'static>>::spec_serialize(v.player_motion_y);
    let b7 = <u32 as MD<'static>>::spec_serialize(v.player_motion_z);
    let t8 = rest;
    let t7 = b7 + t8;
    let t6 = b6 + t7;
    let t5 = b5 + t6;
    let t4 = b4 + t5;
    let t3 = b3 + t4;
    let t2 = b2 + t3;
    let t1 = b1 + t2;
    let t0 = b0 + t1;
    assert(b0 + b1 + b2 + b3 + b4 + b5 + b6 + b7 + rest =~= t0);
    <u32 as MD<'static>>::lemma_roundtrip(v.x, t1);
    <u32 as MD<'static>>::lemma_roundtrip(v.y, t2);
    <u32 as MD<'static>>::lemma_roundtrip(v.z, t3);
    <u32 as MD<'static>>::lemma_roundtrip(v.radius, t4);
    lemma_varint_field_roundtrip(v.affected_block_offsets.len() as i32, array_bytes::<'static, play::ExplosionResponse_AffectedBlockOffsets>(v.affected_block_offsets) + t5);
    assert((v.affected_block_offsets.len() as i32) as u32 == v.affected_block_offsets.len() as u32);
    assert((v.affected_block_offsets.len() as i32) as int == v.affected_block_offsets.len());
    assert(varint_bytes(v.affected_block_offsets.len() as u32) + (array_bytes::<'static, play::ExplosionResponse_AffectedBlockOffsets>(v.affected_block_offsets) + t5) =~= b4 + t5);
    lemma_array_decode::<'static, play::ExplosionResponse_AffectedBlockOffsets>(v.affected_block_offsets, t5);
    <u32 as MD<'static>>::lemma_roundtrip(v.player_motion_x, t6);
    <u32 as MD<'static>>::lemma_roundtrip(v.player_motion_y, t7);
    <u32 as MD<'static>>::lemma_roundtrip(v.player_motion_z, t8);
    lemma_concat_associative(b0 + b1 + b2 + b3 + b4 + b5 + b6, b7, t8);
    lemma_concat_associative(b0 + b1 + b2 + b3 + b4 + b5, b6, t7);
    lemma_concat_associative(b0 + b1 + b2 + b3 + b4, b5, t6);
    lemma_concat_associative(b0 + b1 + b2 + b3, b4, t5);
    lemma_concat_associative(b0 + b1 + b2, b3, t4);
    lemma_concat_associative(b0 + b1, b2, t3);
    lemma_concat_associative(b0, b1, t2);
}

/// A `MapChunkResponse` is read from its fields written in the protocol's order: `x`, `z`, `heightmaps`, `chunk_data`, `block_entities`, `trust_edges`, `sky_light_mask`, `block_light_mask`, `empty_sky_light_mask`, `empty_block_light_mask`, `sky_light` and `block_light`.
#[verifier::rlimit(100)]
#[verifier::spinoff_prover]
pub proof fn lemma_map_chunk_response_decode(v: play::MapChunkResponseView, heightmaps_bytes: Seq<u8>, sky_light_mask_bytes: Seq<u8>, block_light_mask_bytes: Seq<u8>, empty_sky_light_mask_bytes: Seq<u8>, empty_block_light_mask_bytes: Seq<u8>, rest: Seq<u8>)
    requires
        <i32 as MD<'static>>::encodable(v.x),
        <i32 as MD<'static>>::encodable(v.z),
        forall|r: Seq<u8>| #[trigger] <IndexedNbt<'static> as MD<'static>>::spec_deserialize(heightmaps_bytes + r) == Some((v.heightmaps, r)),
        <&'static [u8] as MD<'static>>::encodable(v.chunk_data),
        v.block_entities.len() <= i32::MAX,
        forall|i: int| 0 <= i < v.block_entities.len() ==> <ChunkBlockEntity<'static> as MD<'static>>::encodable(#[trigger] v.block_entities[i]),
        <bool as MD<'static>>::encodable(v.trust_edges),
        v.sky_light_mask.len() <= i32::MAX,
        forall|r: Seq<u8>| #[trigger] spec_i64_slice(sky_light_mask_bytes + r, v.sky_light_mask.len() as int) == Some((v.sky_light_mask, r)),
        v.block_light_mask.len() <= i32::MAX,
        forall|r: Seq<u8>| #[trigger] spec_i64_slice(block_light_mask_bytes + r, v.block_light_mask.len() as int) == Some((v.block_light_mask, r)),
        v.empty_sky_light_mask.len() <= i32::MAX,
        forall|r: Seq<u8>| #[trigger] spec_i64_slice(empty_sky_light_mask_bytes + r, v.empty_sky_light_mask.len() as int) == Some((v.empty_sky_light_mask, r)),
        v.empty_block_light_mask.len() <= i32::MAX,
        forall|r: Seq<u8>| #[trigger] spec_i64_slice(empty_block_light_mask_bytes + r, v.empty_block_light_mask.len() as int) == Some((v.empty_block_light_mask, r)),
        v.sky_light.len() <= i32::MAX,
        forall|i: int| 0 <= i < v.sky_light.len() ==> <&'static [u8] as MD<'static>>::encodable(#[trigger] v.sky_light[i]),
        v.block_light.len() <= i32::MAX,
        forall|i: int| 0 <= i < v.block_light.len() ==> <&'static [u8] as MD<'static>>::encodable(#[trigger] v.block_light[i]),
    ensures
        <play::MapChunkResponse<'static> as MD<'static>>::spec_deserialize(<i32 as MD<'static>>::spec_serialize(v.x) + <i32 as MD<'static>>::spec_serialize(v.z) + heightmaps_bytes + <&'static [u8] as MD<'static>>::spec_serialize(v.chunk_data) + (varint_bytes(v.block_entities.len() as u32) + array_bytes::<'static, ChunkBlockEntity<'static>>(v.block_entities)) + <bool as MD<'static>>::spec_serialize(v.trust_edges) + (varint_bytes(v.sky_light_mask.len() as u32) + sky_light_mask_bytes) + (varint_bytes(v.block_light_mask.len() as u32) + block_light_mask_bytes) + (varint_bytes(v.empty_sky_light_mask.len() as u32) + empty_sky_light_mask_bytes) + (varint_bytes(v.empty_block_light_mask.len() as u32) + empty_block_light_mask_bytes) + (varint_bytes(v.sky_light.len() as u32) + array_bytes::<'static, &'static [u8]>(v.sky_light)) + (varint_bytes(v.block_light.len() as u32) + array_bytes::<'static, &'static [u8]>(v.block_light)) + rest) == Some((v, rest)),
{
    let b0 = <i32 as MD<'static>>::spec_serialize(v.x);
    let b1 = <i32 as MD<'static>>::spec_serialize(v.z);
    let b2 = heightmaps_bytes;
    let b3 = <&'static [u8] as MD<'static>>::spec_serialize(v.chunk_data);
    let b4 = (varint_bytes(v.block_entities.len() as u32) + array_bytes::<'static, ChunkBlockEntity<'static>>(v.block_entities));
    let b5 = <bool as MD<'static>>::spec_serialize(v.trust_edges);
    let b6 = (varint_bytes(v.sky_light_mask.len() as u32) + sky_light_mask_bytes);
    let b7 = (varint_bytes(v.block_light_mask.len() as u32) + block_light_mask_bytes);
    let b8 = (varint_bytes(v.empty_sky_light_mask.len() as u32) + empty_sky_light_mask_bytes);
    let b9 = (varint_bytes(v.empty_block_light_mask.len() as u32) + empty_block_light_mask_bytes);
    let b10 = (varint_bytes(v.sky_light.len() as u32) + array_bytes::<'static, &'static [u8]>(v.sky_light));
    let b11 = (varint_bytes(v.block_light.len() as u32) + array_bytes::<'static, &'static [u8]>(v.block_light));
    let t12 = rest;
    let t11 = b11 + t12;
    let t10 = b10 + t11;
    let t9 = b9 + t10;
    let t8 = b8 + t9;
    let t7 = b7 + t8;
    let t6 = b6 + t7;
    let t5 = b5 + t6;
    let t4 = b4 + t5;
    let t3 = b3 + t4;
    let t2 = b2 + t3;
    let t1 = b1 + t2;
    let t0 = b0 + t1;
    <i32 as MD<'static>>::lemma_roundtrip(v.x, t1);
    <i32 as MD<'static>>::lemma_roundtrip(v.z, t2);
    assert(<IndexedNbt<'static> as MD<'static>>::spec_deserialize(heightmaps_bytes + t3) == Some((v.heightmaps, t3)));
    <&'static [u8] as MD<'static>>::lemma_roundtrip(v.chunk_data, t4);
    assert(varint_field(b4 + t5) == Some((v.block_entities.len() as i32, array_bytes::<'static, ChunkBlockEntity<'static>>(v.block_entities) + t5)) && (v.block_entities.len() as i32) as int == v.block_entities.len()) by {
        lemma_varint_field_roundtrip(v.block_entities.len() as i32, array_bytes::<'static, ChunkBlockEntity<'static>>(v.block_entities) + t5);
        assert((v.block_entities.len() as i32) as u32 == v.block_entities.len() as u32);
        assert((v.block_entities.len() as i32) as int == v.block_entities.len());
        assert(varint_bytes(v.block_entities.len() as u32) + (array_bytes::<'static, ChunkBlockEntity<'static>>(v.block_entities) + t5) =~= b4 + t5);
    }
    lemma_array_decode::<'static, ChunkBlockEntity<'static>>(v.block_entities, t5);
    <bool as MD<'static>>::lemma_roundtrip(v.trust_edges, t6);
    assert(varint_field(b6 + t7) == Some((v.sky_light_mask.len() as i32, sky_light_mask_bytes + t7)) && (v.sky_light_mask.len() as i32) as int == v.sky_light_mask.len()) by {
        lemma_varint_field_roundtrip(v.sky_light_mask.len() as i32, sky_light_mask_bytes + t7);
        assert((v.sky_light_mask.len() as i32) as u32 == v.sky_light_mask.len() as u32);
        assert((v.sky_light_mask.len() as i32) as int == v.sky_light_mask.len());
        assert(varint_bytes(v.sky_light_mask.len() as u32) + (sky_light_mask_bytes + t7) =~= b6 + t7);
    }
    assert(spec_i64_slice(sky_light_mask_bytes + t7, v.sky_light_mask.len() as int) == Some((v.sky_light_mask, t7)));
    assert(varint_field(b7 + t8) == Some((v.block_light_mask.len() as i32, block_light_mask_bytes + t8)) && (v.block_light_mask.len() as i32) as int == v.block_light_mask.len()) by {
        lemma_varint_field_roundtrip(v.block_light_mask.len() as i32, block_light_mask_bytes + t8);
        assert((v.block_light_mask.len() as i32) as u32 == v.block_light_mask.len() as u32);
        assert((v.block_light_mask.len() as i32) as int == v.block_light_mask.len());
        assert(varint_bytes(v.block_light_mask.len() as u32) + (block_light_mask_bytes + t8) =~= b7 + t8);
    }
    assert(spec_i64_slice(block_light_mask_bytes + t8, v.block_light_mask.len() as int) == Some((v.block_light_mask, t8)));
    assert(varint_field(b8 + t9) == Some((v.empty_sky_light_mask.len() as i32, empty_sky_light_mask_bytes + t9)) && (v.empty_sky_light_mask.len() as i32) as int == v.empty_sky_light_mask.len()) by {
        lemma_varint_field_roundtrip(v.empty_sky_light_mask.len() as i32, empty_sky_light_mask_bytes + t9);
        assert((v.empty_sky_light_mask.len() as i32) as u32 == v.empty_sky_light_mask.len() as u32);
        assert((v.empty_sky_light_mask.len() as i32) as int == v.empty_sky_light_mask.len());
        assert(varint_bytes(v.empty_sky_light_mask.len() as u32) + (empty_sky_light_mask_bytes + t9) =~= b8 + t9);
    }
    assert(spec_i64_slice(empty_sky_light_mask_bytes + t9, v.empty_sky_light_mask.len() as int) == Some((v.empty_sky_light_mask, t9)));
    assert(varint_field(b9 + t10) == Some((v.empty_block_light_mask.len() as i32, empty_block_light_mask_bytes + t10)) && (v.empty_block_light_mask.len() as i32) as int == v.empty_block_light_mask.len()) by {
        lemma_varint_field_roundtrip(v.empty_block_light_mask.len() as i32, empty_block_light_mask_bytes + t10);
        assert((v.empty_block_light_mask.len() as i32) as u32 == v.empty_block_light_mask.len() as u32);
        assert((v.empty_block_light_mask.len() as i32) as int == v.empty_block_light_mask.len());
        assert(varint_bytes(v.empty_block_light_mask.len() as u32) + (empty_block_light_mask_bytes + t10) =~= b9 + t10);
    }
    assert(spec_i64_slice(empty_block_light_mask_bytes + t10, v.empty_block_light_mask.len() as int) == Some((v.empty_block_light_mask, t10)));
    assert(varint_field(b10 + t11) == Some((v.sky_light.len() as i32, array_bytes::<'static, &'static [u8]>(v.sky_light) + t11)) && (v.sky_light.len() as i32) as int == v.sky_light.len()) by {
        lemma_varint_field_roundtrip(v.sky_light.len() as i32, array_bytes::<'static, &'static [u8]>(v.sky_light) + t11);
        assert((v.sky_light.len() as i32) as u32 == v.sky_light.len() as u32);
        assert((v.sky_light.len() as i32) as int == v.sky_light.len());
        assert(varint_bytes(v.sky_light.len() as u32) + (array_bytes::<'static, &'static [u8]>(v.sky_light) + t11) =~= b10 + t11);
    }
    lemma_array_decode::<'static, &'static [u8]>(v.sky_light, t11);
    assert(varint_field(b11 + t12) == Some((v.block_light.len() as i32, array_bytes::<'static, &'static [u8]>(v.block_light) + t12)) && (v.block_light.len() as i32) as int == v.block_light.len()) by {
        lemma_varint_field_roundtrip(v.block_light.len() as i32, array_bytes::<'static, &'static [u8]>(v.block_light) + t12);
        assert((v.block_light.len() as i32) as u32 == v.block_light.len() as u32);
        assert((v.block_light.len() as i32) as int == v.block_light.len());
        assert(varint_bytes(v.block_light.len() as u32) + (array_bytes::<'static, &'static [u8]>(v.block_light) + t12) =~= b11 + t12);
    }
    lemma_array_decode::<'static, &'static [u8]>(v.block_light, t12);
    lemma_concat_associative(b0 + b1 + b2 + b3 + b4 + b5 + b6 + b7 + b8 + b9 + b10, b11, t12);
    lemma_concat_associative(b0 + b1 + b2 + b3 + b4 + b5 + b6 + b7 + b8 + b9, b10, t11);
    lemma_concat_associative(b0 + b1 + b2 + b3 + b4 + b5 + b6 + b7 + b8, b9, t10);
    lemma_concat_associative(b0 + b1 + b2 + b3 + b4 + b5 + b6 + b7, b8, t9);
    lemma_concat_associative(b0 + b1 + b2 + b3 + b4 + b5 + b6, b7, t8);
    lemma_concat_associative(b0 + b1 + b2 + b3 + b4 + b5, b6, t7);
    lemma_concat_associative(b0 + b1 + b2 + b3 + b4, b5, t6);
    lemma_concat_associative(b0 + b1 + b2 + b3, b4, t5);
    lemma_concat_associative(b0 + b1 + b2, b3, t4);
    lemma_concat_associative(b0 + b1, b2, t3);
    lemma_concat_associative(b0, b1, t2);
}

/// A `UpdateLightResponse` is read from its fields written in the protocol's order: `chunk_x`, `chunk_z`, `trust_edges`, `sky_light_mask`, `block_light_mask`, `empty_sky_light_mask`, `empty_block_light_mask`, `sky_light` and `block_light`.
#[verifier::rlimit(100)]
#[verifier::spinoff_prover]
pub proof fn lemma_update_light_response_decode(v: play::UpdateLightResponseView, sky_light_mask_bytes: Seq<u8>, block_light_mask_bytes: Seq<u8>, empty_sky_light_mask_bytes: Seq<u8>, empty_block_light_mask_bytes: Seq<u8>, rest: Seq<u8>)
    requires
        <bool as MD<'static>>::encodable(v.trust_edges),
        v.sky_light_mask.len() <= i32::MAX,
        forall|r: Seq<u8>| #[trigger] spec_i64_slice(sky_light_mask_bytes + r, v.sky_light_mask.len() as int) == Some((v.sky_light_mask, r)),
        v.block_light_mask.len() <= i32::MAX,
        forall|r: Seq<u8>| #[trigger] spec_i64_slice(block_light_mask_bytes + r, v.block_light_mask.len() as int) == Some((v.block_light_mask, r)),
        v.empty_sky_light_mask.len() <= i32::MAX,
        forall|r: Seq<u8>| #[trigger] spec_i64_slice(empty_sky_light_mask_bytes + r, v.empty_sky_light_mask.len() as int) == Some((v.empty_sky_light_mask, r)),
        v.empty_block_light_mask.len() <= i32::MAX,
        forall|r: Seq<u8>| #[trigger] spec_i64_slice(empty_block_light_mask_bytes + r, v.empty_block_light_mask.len() as int) == Some((v.empty_block_light_mask, r)),
        v.sky_light.len() <= i32::MAX,
        forall|i: int| 0 <= i < v.sky_light.len() ==> <&'static [u8] as MD<'static>>::encodable(#[trigger] v.sky_light[i]),
        v.block_light.len() <= i32::MAX,
        forall|i: int| 0 <= i < v.block_light.len() ==> <&'static [u8] as MD<'static>>::encodable(#[trigger] v.block_light[i]),
    ensures
        <play::UpdateLightResponse<'static> as MD<'static>>::spec_deserialize(varint_bytes(v.chunk_x as u32) + varint_bytes(v.chunk_z as u32) + <bool as MD<'static>>::spec_serialize(v.trust_edges) + (varint_bytes(v.sky_light_mask.len() as u32) + sky_light_mask_bytes) + (varint_bytes(v.block_light_mask.len() as u32) + block_light_mask_bytes) + (varint_bytes(v.empty_sky_light_mask.len() as u32) + empty_sky_light_mask_bytes) + (varint_bytes(v.empty_block_light_mask.len() as u32) + empty_block_light_mask_bytes) + (varint_bytes(v.sky_light.len() as u32) + array_bytes::<'static, &'static [u8]>(v.sky_light)) + (varint_bytes(v.block_light.len() as u32) + array_bytes::<'static, &'static [u8]>(v.block_light)) + rest) == Some((v, rest)),
{
    let b0 = varint_bytes(v.chunk_x as u32);
    let b1 = varint_bytes(v.chunk_z as u32);
    let b2 = <bool as MD<'static>>::spec_serialize(v.trust_edges);
    let b3 = (varint_bytes(v.sky_light_mask.len() as u32) + sky_light_mask_bytes);
    let b4 = (varint_bytes(v.block_light_mask.len() as u32) + block_light_mask_bytes);
    let b5 = (varint_bytes(v.empty_sky_light_mask.len() as u32) + empty_sky_light_mask_bytes);
    let b6 = (varint_bytes(v.empty_block_light_mask.len() as u32) + empty_block_light_mask_bytes);
    let b7 = (varint_bytes(v.sky_light.len() as u32) + array_bytes::<'static, &'static [u8]>(v.sky_light));
    let b8 = (varint_bytes(v.block_light.len() as u32) + array_bytes::<'static, &'static [u8]>(v.block_light));
    let t9 = rest;
    let t8 = b8 + t9;
    let t7 = b7 + t8;
    let t6 = b6 + t7;
    let t5 = b5 + t6;
    let t4 = b4 + t5;
    let t3 = b3 + t4;
    let t2 = b2 + t3;
    let t1 = b1 + t2;
    let t0 = b0 + t1;
    assert(b0 + b1 + b2 + b3 + b4 + b5 + b6 + b7 + b8 + rest =~= t0);
    lemma_varint_field_roundtrip(v.chunk_x, t1);
    lemma_varint_field_roundtrip(v.chunk_z, t2);
    <bool as MD<'static>>::lemma_roundtrip(v.trust_edges, t3);
    lemma_varint_field_roundtrip(v.sky_light_mask.len() as i32, sky_light_mask_bytes + t4);
    assert((v.sky_light_mask.len() as i32) as u32 == v.sky_light_mask.len() as u32);
    assert((v.sky_light_mask.len() as i32) as int == v.sky_light_mask.len());
    assert(varint_bytes(v.sky_light_mask.len() as u32) + (sky_light_mask_bytes + t4) =~= b3 + t4);
    assert(spec_i64_slice(sky_light_mask_bytes + t4, v.sky_light_mask.len() as int) == Some((v.sky_light_mask, t4)));
    lemma_varint_field_roundtrip(v.block_light_mask.len() as i32, block_light_mask_bytes + t5);
    assert((v.block_light_mask.len() as i32) as u32 == v.block_light_mask.len() as u32);
    assert((v.block_light_mask.len() as i32) as int == v.block_light_mask.len());
    assert(varint_bytes(v.block_light_mask.len() as u32) + (block_light_mask_bytes + t5) =~= b4 + t5);
    assert(spec_i64_slice(block_light_mask_bytes + t5, v.block_light_mask.len() as int) == Some((v.block_light_mask, t5)));
    lemma_varint_field_roundtrip(v.empty_sky_light_mask.len() as i32, empty_sky_light_mask_bytes + t6);
    assert((v.empty_sky_light_mask.len() as i32) as u32 == v.empty_sky_light_mask.len() as u32);
    assert((v.empty_sky_light_mask.len() as i32) as int == v.empty_sky_light_mask.len());
    assert(varint_bytes(v.empty_sky_light_mask.len() as u32) + (empty_sky_light_mask_bytes + t6) =~= b5 + t6);
    assert(spec_i64_slice(empty_sky_light_mask_bytes + t6, v.empty_sky_light_mask.len() as int) == Some((v.empty_sky_light_mask, t6)));
    lemma_varint_field_roundtrip(v.empty_block_light_mask.len() as i32, empty_block_light_mask_bytes + t7);
    assert((v.empty_block_light_mask.len() as i32) as u32 == v.empty_block_light_mask.len() as u32);
    assert((v.empty_block_light_mask.len() as i32) as int == v.empty_block_light_mask.len());
    assert(varint_bytes(v.empty_block_light_mask.len() as u32) + (empty_block_light_mask_bytes + t7) =~= b6 + t7);
    assert(spec_i64_slice(empty_block_light_mask_bytes + t7, v.empty_block_light_mask.len() as int) == Some((v.empty_block_light_mask, t7)));
    lemma_varint_field_roundtrip(v.sky_light.len() as i32, array_bytes::<'static, &'static [u8]>(v.sky_light) + t8);
    assert((v.sky_light.len() as i32) as u32 == v.sky_light.len() as u32);
    assert((v.sky_light.len() as i32) as int == v.sky_light.len());
    assert(varint_bytes(v.sky_light.len() as u32) + (array_bytes::<'static, &'static [u8]>(v.sky_light) + t8) =~= b7 + t8);
    lemma_array_decode::<'static, &'static [u8]>(v.sky_light, t8);
    lemma_varint_field_roundtrip(v.block_light.len() as i32, array_bytes::<'static, &'static [u8]>(v.block_light) + t9);
    assert((v.block_light.len() as i32) as u32 == v.block_light.len() as u32);
    assert((v.block_light.len() as i32) as int == v.block_light.len());
    assert(varint_bytes(v.block_light.len() as u32) + (array_bytes::<'static, &'static [u8]>(v.block_light) + t9) =~= b8 + t9);
    lemma_array_decode::<'static, &'static [u8]>(v.block_light, t9);
    lemma_concat_associative(b0 + b1 + b2 + b3 + b4 + b5 + b6 + b7, b8, t9);
    lemma_concat_associative(b0 + b1 + b2 + b3 + b4 + b5 + b6, b7, t8);
    lemma_concat_associative(b0 + b1 + b2 + b3 + b4 + b5, b6, t7);
    lemma_concat_associative(b0 + b1 + b2 + b3 + b4, b5, t6);
    lemma_concat_associative(b0 + b1 + b2 + b3, b4, t5);
    lemma_concat_associative(b0 + b1 + b2, b3, t4);
    lemma_concat_associative(b0 + b1, b2, t3);
    lemma_concat_associative(b0, b1, t2);
}

/// A `LoginResponse` is read from its fields written in the protocol's order: `entity_id`, `is_hardcore`, `game_mode`, `previous_game_mode`, `world_names`, `dimension_codec`, `dimension`, `world_name`, `hashed_seed`, `max_players`, `view_distance`, `simulation_distance`, `reduced_debug_info`, `enable_respawn_screen`, `is_debug` and `is_flat`.
#[verifier::rlimit(100)]
#[verifier::spinoff_prover]
pub proof fn lemma_login_response_decode(v: play::LoginResponseView, dimension_codec_bytes: Seq<u8>, dimension_bytes: Seq<u8>, rest: Seq<u8>)
    requires
        <i32 as MD<'static>>::encodable(v.entity_id),
        <bool as MD<'static>>::encodable(v.is_hardcore),
        <u8 as MD<'static>>::encodable(v.game_mode),
        <i8 as MD<'static>>::encodable(v.previous_game_mode),
        v.world_names.len() <= i32::MAX,
        forall|i: int| 0 <= i < v.world_names.len() ==> <&'static str as MD<'static>>::encodable(#[trigger] v.world_names[i]),
        forall|r: Seq<u8>| #[trigger] <IndexedNbt<'static> as MD<'static>>::spec_deserialize(dimension_codec_bytes + r) == Some((v.dimension_codec, r)),
        forall|r: Seq<u8>| #[trigger] <IndexedNbt<'static> as MD<'static>>::spec_deserialize(dimension_bytes + r) == Some((v.dimension, r)),
        <&'static str as MD<'static>>::encodable(v.world_name),
        <i64 as MD<'static>>::encodable(v.hashed_seed),
        <bool as MD<'static>>::encodable(v.reduced_debug_info),
        <bool as MD<'static>>::encodable(v.enable_respawn_screen),
        <bool as MD<'static>>::encodable(v.is_debug),
        <bool as MD<'static>>::encodable(v.is_flat),
    ensures
        <play::LoginResponse<'static> as MD<'static>>::spec_deserialize(<i32 as MD<'static>>::spec_serialize(v.entity_id) + <bool as MD<'static>>::spec_serialize(v.is_hardcore) + <u8 as MD<'static>>::spec_serialize(v.game_mode) + <i8 as MD<'static>>::spec_serialize(v.previous_game_mode) + (varint_bytes(v.world_names.len() as u32) + array_bytes::<'static, &'static str>(v.world_names)) + dimension_codec_bytes + dimension_bytes + <&'static str as MD<'static>>::spec_serialize(v.world_name) + <i64 as MD<'static>>::spec_serialize(v.hashed_seed) + varint_bytes(v.max_players as u32) + varint_bytes(v.view_distance as u32) + varint_bytes(v.simulation_distance as u32) + <bool as MD<'static>>::spec_serialize(v.reduced_debug_info) + <bool as MD<'static>>::spec_serialize(v.enable_respawn_screen) + <bool as MD<'static>>::spec_serialize(v.is_debug) + <bool as MD<'static>>::spec_serialize(v.is_flat) + rest) == Some((v, rest)),
{
    let b0 = <i32 as MD<'static>>::spec_serialize(v.entity_id);
    let b1 = <bool as MD<'static>>::spec_serialize(v.is_hardcore);
    let b2 = <u8 as MD<'static>>::spec_serialize(v.game_mode);
    let b3 = <i8 as MD<'static>>::spec_serialize(v.previous_game_mode);
    let b4 = (varint_bytes(v.world_names.len() as u32) + array_bytes::<'static, &'static str>(v.world_names));
    let b5 = dimension_codec_bytes;
    let b6 = dimension_bytes;
    let b7 = <&'static str as MD<'static>>::spec_serialize(v.world_name);
    let b8 = <i64 as MD<'static>>::spec_serialize(v.hashed_seed);
    let b9 = varint_bytes(v.max_players as u32);
    let b10 = varint_bytes(v.view_distance as u32);
    let b11 = varint_bytes(v.simulation_distance as u32);
    let b12 = <bool as MD<'static>>::spec_serialize(v.reduced_debug_info);
    let b13 = <bool as MD<'static>>::spec_serialize(v.enable_respawn_screen);
    let b14 = <bool as MD<'static>>::spec_serialize(v.is_debug);
    let b15 = <bool as MD<'static>>::spec_serialize(v.is_flat);
    let t16 = rest;
    let t15 = b15 + t16;
    let t14 = b14 + t15;
    let t13 = b13 + t14;
    let t12 = b12 + t13;
    let t11 = b11 + t12;
    let t10 = b10 + t11;
    let t9 = b9 + t10;
    let t8 = b8 + t9;
    let t7 = b7 + t8;
    let t6 = b6 + t7;
    let t5 = b5 + t6;
    let t4 = b4 + t5;
    let t3 = b3 + t4;
    let t2 = b2 + t3;
    let t1 = b1 + t2;
    let t0 = b0 + t1;
    <i32 as MD<'static>>::lemma_roundtrip(v.entity_id, t1);
    <bool as MD<'static>>::lemma_roundtrip(v.is_hardcore, t2);
    <u8 as MD<'static>>::lemma_roundtrip(v.game_mode, t3);
    <i8 as MD<'static>>::lemma_roundtrip(v.previous_game_mode, t4);
    assert(varint_field(b4 + t5) == Some((v.world_names.len() as i32, array_bytes::<'static, &'static str>(v.world_names) + t5)) && (v.world_names.len() as i32) as int == v.world_names.len()) by {
        lemma_varint_field_roundtrip(v.world_names.len() as i32, array_bytes::<'static, &'static str>(v.world_names) + t5);
        assert((v.world_names.len() as i32) as u32 == v.world_names.len() as u32);
        assert((v.world_names.len() as i32) as int == v.world_names.len());
        assert(varint_bytes(v.world_names.len() as u32) + (array_bytes::<'static, &'static str>(v.world_names) + t5) =~= b4 + t5);
    }
    lemma_array_decode::<'static, &'static str>(v.world_names, t5);
    assert(<IndexedNbt<'static> as MD<'static>>::spec_deserialize(dimension_codec_bytes + t6) == Some((v.dimension_codec, t6)));
    assert(<IndexedNbt<'static> as MD<'static>>::spec_deserialize(dimension_bytes + t7) == Some((v.dimension, t7)));
    <&'static str as MD<'static>>::lemma_roundtrip(v.world_name, t8);
    <i64 as MD<'static>>::lemma_roundtrip(v.hashed_seed, t9);
    lemma_varint_field_roundtrip(v.max_players, t10);
    lemma_varint_field_roundtrip(v.view_distance, t11);
    lemma_varint_field_roundtrip(v.simulation_distance, t12);
    <bool as MD<'static>>::lemma_roundtrip(v.reduced_debug_info, t13);
    <bool as MD<'static>>::lemma_roundtrip(v.enable_respawn_screen, t14);
    <bool as MD<'static>>::lemma_roundtrip(v.is_debug, t15);
    <bool as MD<'static>>::lemma_roundtrip(v.is_flat, t16);
    lemma_concat_associative(b0 + b1 + b2 + b3 + b4 + b5 + b6 + b7 + b8 + b9 + b10 + b11 + b12 + b13 + b14, b15, t16);
    lemma_concat_associative(b0 + b1 + b2 + b3 + b4 + b5 + b6 + b7 + b8 + b9 + b10 + b11 + b12 + b13, b14, t15);
    lemma_concat_associative(b0 + b1 + b2 + b3 + b4 + b5 + b6 + b7 + b8 + b9 + b10 + b11 + b12, b13, t14);
    lemma_concat_associative(b0 + b1 + b2 + b3 + b4 + b5 + b6 + b7 + b8 + b9 + b10 + b11, b12, t13);
    lemma_concat_associative(b0 + b1 + b2 + b3 + b4 + b5 + b6 + b7 + b8 + b9 + b10, b11, t12);
    lemma_concat_associative(b0 + b1 + b2 + b3 + b4 + b5 + b6 + b7 + b8 + b9, b10, t11);
    lemma_concat_associative(b0 + b1 + b2 + b3 + b4 + b5 + b6 + b7 + b8, b9, t10);
    lemma_concat_associative(b0 + b1 + b2 + b3 + b4 + b5 + b6 + b7, b8, t9);
    lemma_concat_associative(b0 + b1 + b2 + b3 + b4 + b5 + b6, b7, t8);
    lemma_concat_associative(b0 + b1 + b2 + b3 + b4 + b5, b6, t7);
    lemma_concat_associative(b0 + b1 + b2 + b3 + b4, b5, t6);
    lemma_concat_associative(b0 + b1 + b2 + b3, b4, t5);
    lemma_concat_associative(b0 + b1 + b2, b3, t4);
    lemma_concat_associative(b0 + b1, b2, t3);
    lemma_concat_associative(b0, b1, t2);
}

/// A `TradeListResponse` is read from its fields written in the protocol's order: `window_id`, `trades`, `villager_level`, `experience`, `is_regular_villager` and `can_restock`.
pub proof fn lemma_trade_list_response_decode(v: play::TradeListResponseView, rest: Seq<u8>)
    requires
        v.trades.len() <= 255,
        forall|i: int| 0 <= i < v.trades.len() ==> <play::TradeListResponse_Trades<'static> as MD<'static>>::encodable(#[trigger] v.trades[i]),
        <bool as MD<'static>>::encodable(v.is_regular_villager),
        <bool as MD<'static>>::encodable(v.can_restock),
    ensures
        <play::TradeListResponse<'static> as MD<'static>>::spec_deserialize(varint_bytes(v.window_id as u32) + (<u8 as MD<'static>>::spec_serialize(v.trades.len() as u8) + array_bytes::<'static, play::TradeListResponse_Trades<'static>>(v.trades)) + varint_bytes(v.villager_level as u32) + varint_bytes(v.experience as u32) + <bool as MD<'static>>::spec_serialize(v.is_regular_villager) + <bool as MD<'static>>::spec_serialize(v.can_restock) + rest) == Some((v, rest)),
{
    let b0 = varint_bytes(v.window_id as u32);
    let b1 = (<u8 as MD<'static>>::spec_serialize(v.trades.len() as u8) + array_bytes::<'static, play::TradeListResponse_Trades<'static>>(v.trades));
    let b2 = varint_bytes(v.villager_level as u32);
    let b3 = varint_bytes(v.experience as u32);
    let b4 = <bool as MD<'static>>::spec_serialize(v.is_regular_villager);
    let b5 = <bool as MD<'static>>::spec_serialize(v.can_restock);
    let t6 = rest;
    let t5 = b5 + t6;
    let t4 = b4 + t5;
    let t3 = b3 + t4;
    let t2 = b2 + t3;
    let t1 = b1 + t2;
    let t0 = b0 + t1;
    assert(b0 + b1 + b2 + b3 + b4 + b5 + rest =~= t0);
    lemma_varint_field_roundtrip(v.window_id, t1);
    <u8 as MD<'static>>::lemma_roundtrip(v.trades.len() as u8, array_bytes::<'static, play::TradeListResponse_Trades<'static>>(v.trades) + t2);
    assert(<u8 as MD<'static>>::spec_serialize(v.trades.len() as u8) + (array_bytes::<'static, play::TradeListResponse_Trades<'static>>(v.trades) + t2) =~= b1 + t2);
    assert((v.trades.len() as u8) as int == v.trades.len());
    lemma_array_decode::<'static, play::TradeListResponse_Trades<'static>>(v.trades, t2);
    lemma_varint_field_roundtrip(v.villager_level, t3);
    lemma_varint_field_roundtrip(v.experience, t4);
    <bool as MD<'static>>::lemma_roundtrip(v.is_regular_villager, t5);
    <bool as MD<'static>>::lemma_roundtrip(v.can_restock, t6);
    lemma_concat_associative(b0 + b1 + b2 + b3 + b4, b5, t6);
    lemma_concat_associative(b0 + b1 + b2 + b3, b4, t5);
    lemma_concat_associative(b0 + b1 + b2, b3, t4);
    lemma_concat_associative(b0 + b1, b2, t3);
    lemma_concat_associative(b0, b1, t2);
}

/// A `PlayerInfoResponse` is read from its fields written in the protocol's order: `action` and `data`.
pub proof fn lemma_player_info_response_decode(v: play::PlayerInfoResponseView, rest: Seq<u8>)
    requires
        v.data.len() <= i32::MAX,
        forall|i: int| 0 <= i < v.data.len() ==> <play::PlayerInfoResponse_Data as MD<'static>>::encodable(#[trigger] v.data[i]),
    ensures
        <play::PlayerInfoResponse as MD<'static>>::spec_deserialize(varint_bytes(v.action as u32) + (varint_bytes(v.data.len() as u32) + array_bytes::<'static, play::PlayerInfoResponse_Data>(v.data)) + rest) == Some((v, rest)),
{
    let b0 = varint_bytes(v.action as u32);
    let b1 = (varint_bytes(v.data.len() as u32) + array_bytes::<'static, play::PlayerInfoResponse_Data>(v.data));
    let t2 = rest;
    let t1 = b1 + t2;
    let t0 = b0 + t1;
    assert(b0 + b1 + rest =~= t0);
    lemma_varint_field_roundtrip(v.action, t1);
    lemma_varint_field_roundtrip(v.data.len() as i32, array_bytes::<'static, play::PlayerInfoResponse_Data>(v.data) + t2);
    assert((v.data.len() as i32) as u32 == v.data.len() as u32);
    assert((v.data.len() as i32) as int == v.data.len());
    assert(varint_bytes(v.data.len() as u32) + (array_bytes::<'static, play::PlayerInfoResponse_Data>(v.data) + t2) =~= b1 + t2);
    lemma_array_decode::<'static, play::PlayerInfoResponse_Data>(v.data, t2);
    lemma_concat_associative(b0, b1, t2);
}

/// A `EntityDestroyResponse` is read from its fields written in the protocol's order: `entity_ids`.
pub proof fn lemma_entity_destroy_response_decode(v: play::EntityDestroyResponseView, rest: Seq<u8>)
    requires
        v.entity_ids.len() <= i32::MAX,
    ensures
        <play::EntityDestroyResponse as MD<'static>>::spec_deserialize((varint_bytes(v.entity_ids.len() as u32) + varint_array_bytes(v.entity_ids)) + rest) == Some((v, rest)),
{
    let b0 = (varint_bytes(v.entity_ids.len() as u32) + varint_array_bytes(v.entity_ids));
    let t1 = rest;
    let t0 = b0 + t1;
    assert(b0 + rest =~= t0);
    lemma_varint_field_roundtrip(v.entity_ids.len() as i32, varint_array_bytes(v.entity_ids) + t1);
    assert((v.entity_ids.len() as i32) as u32 == v.entity_ids.len() as u32);
    assert((v.entity_ids.len() as i32) as int == v.entity_ids.len());
    assert(varint_bytes(v.entity_ids.len() as u32) + (varint_array_bytes(v.entity_ids) + t1) =~= b0 + t1);
    lemma_varint_array_decode(v.entity_ids, t1);
}

/// A `SetPassengersResponse` is read from its fields written in the protocol's order: `entity_id` and `passengers`.
pub proof fn lemma_set_passengers_response_decode(v: play::SetPassengersResponseView, rest: Seq<u8>)
    requires
        v.passengers.len() <= i32::MAX,
    ensures
        <play::SetPassengersResponse as MD<'static>>::spec_deserialize(varint_bytes(v.entity_id as u32) + (varint_bytes(v.passengers.len() as u32) + varint_array_bytes(v.passengers)) + rest) == Some((v, rest)),
{
    let b0 = varint_bytes(v.entity_id as u32);
    let b1 = (varint_bytes(v.passengers.len() as u32) + varint_array_bytes(v.passengers));
    let t2 = rest;
    let t1 = b1 + t2;
    let t0 = b0 + t1;
    assert(b0 + b1 + rest =~= t0);
    lemma_varint_field_roundtrip(v.entity_id, t1);
    lemma_varint_field_roundtrip(v.passengers.len() as i32, varint_array_bytes(v.passengers) + t2);
    assert((v.passengers.len() as i32) as u32 == v.passengers.len() as u32);
    assert((v.passengers.len() as i32) as int == v.passengers.len());
    assert(varint_bytes(v.passengers.len() as u32) + (varint_array_bytes(v.passengers) + t2) =~= b1 + t2);
    lemma_varint_array_decode(v.passengers, t2);
    lemma_concat_associative(b0, b1, t2);
}

/// A `EntityUpdateAttributesResponse_Properties` is read from its fields written in the protocol's order: `key`, `value` and `modifiers`.
pub proof fn lemma_entity_update_attributes_response_properties_decode(v: play::EntityUpdateAttributesResponse_PropertiesView, rest: Seq<u8>)
    requires
        <&'static str as MD<'static>>::encodable(v.key),
        <u64 as MD<'static>>::encodable(v.value),
        v.modifiers.len() <= i32::MAX,
        forall|i: int| 0 <= i < v.modifiers.len() ==> <play::EntityUpdateAttributesResponse_Modifiers as MD<'static>>::encodable(#[trigger] v.modifiers[i]),
    ensures
        <play::EntityUpdateAttributesResponse_Properties<'static> as MD<'static>>::spec_deserialize(<&'static str as MD<'static>>::spec_serialize(v.key) + <u64 as MD<'static>>::spec_serialize(v.value) + (varint_bytes(v.modifiers.len() as u32) + array_bytes::<'static, play::EntityUpdateAttributesResponse_Modifiers>(v.modifiers)) + rest) == Some((v, rest)),
{
    let b0 = <&'static str as MD<'static>>::spec_serialize(v.key);
    let b1 = <u64 as MD<'static>>::spec_serialize(v.value);
    let b2 = (varint_bytes(v.modifiers.len() as u32) + array_bytes::<'static, play::EntityUpdateAttributesResponse_Modifiers>(v.modifiers));
    let t3 = rest;
    let t2 = b2 + t3;
    let t1 = b1 + t2;
    let t0 = b0 + t1;
    assert(b0 + b1 + b2 + rest =~= t0);
    <&'static str as MD<'static>>::lemma_roundtrip(v.key, t1);
    <u64 as MD<'static>>::lemma_roundtrip(v.value, t2);
    lemma_varint_field_roundtrip(v.modifiers.len() as i32, array_bytes::<'static, play::EntityUpdateAttributesResponse_Modifiers>(v.modifiers) + t3);
    assert((v.modifiers.len() as i32) as u32 == v.modifiers.len() as u32);
    assert((v.modifiers.len() as i32) as int == v.modifiers.len());
    assert(varint_bytes(v.modifiers.len() as u32) + (array_bytes::<'static, play::EntityUpdateAttributesResponse_Modifiers>(v.modifiers) + t3) =~= b2 + t3);
    lemma_array_decode::<'static, play::EntityUpdateAttributesResponse_Modifiers>(v.modifiers, t3);
    lemma_concat_associative(b0 + b1, b2, t3);
    lemma_concat_associative(b0, b1, t2);
}

/// A `EntityUpdateAttributesResponse` is read from its fields written in the protocol's order: `entity_id` and `properties`.
pub proof fn lemma_entity_update_attributes_response_decode(v: play::EntityUpdateAttributesResponseView, rest: Seq<u8>)
    requires
        v.properties.len() <= i32::MAX,
        forall|i: int| 0 <= i < v.properties.len() ==> <play::EntityUpdateAttributesResponse_Properties<'static> as MD<'static>>::encodable(#[trigger] v.properties[i]),
    ensures
        <play::EntityUpdateAttributesResponse<'static> as MD<'static>>::spec_deserialize(varint_bytes(v.entity_id as u32) + (varint_bytes(v.properties.len() as u32) + array_bytes::<'static, play::EntityUpdateAttributesResponse_Properties<'static>>(v.properties)) + rest) == Some((v, rest)),
{
    let b0 = varint_bytes(v.entity_id as u32);
    let b1 = (varint_bytes(v.properties.len() as u32) + array_bytes::<'static, play::EntityUpdateAttributesResponse_Properties<'static>>(v.properties));
    let t2 = rest;
    let t1 = b1 + t2;
    let t0 = b0 + t1;
    assert(b0 + b1 + rest =~= t0);
    lemma_varint_field_roundtrip(v.entity_id, t1);
    lemma_varint_field_roundtrip(v.properties.len() as i32, array_bytes::<'static, play::EntityUpdateAttributesResponse_Properties<'static>>(v.properties) + t2);
    assert((v.properties.len() as i32) as u32 == v.properties.len() as u32);
    assert((v.properties.len() as i32) as int == v.properties.len());
    assert(varint_bytes(v.properties.len() as u32) + (array_bytes::<'static, play::EntityUpdateAttributesResponse_Properties<'static>>(v.properties) + t2) =~= b1 + t2);
    lemma_array_decode::<'static, play::EntityUpdateAttributesResponse_Properties<'static>>(v.properties, t2);
    lemma_concat_associative(b0, b1, t2);
}

/// A `DeclareRecipesResponse` is read from its fields written in the protocol's order: `recipes`.
pub proof fn lemma_declare_recipes_response_decode(v: play::DeclareRecipesResponseView, rest: Seq<u8>)
    requires
        v.recipes.len() <= i32::MAX,
        forall|i: int| 0 <= i < v.recipes.len() ==> <play::DeclareRecipesResponse_Recipes as MD<'static>>::encodable(#[trigger] v.recipes[i]),
    ensures
        <play::DeclareRecipesResponse as MD<'static>>::spec_deserialize((varint_bytes(v.recipes.len() as u32) + array_bytes::<'static, play::DeclareRecipesResponse_Recipes>(v.recipes)) + rest) == Some((v, rest)),
{
    let b0 = (varint_bytes(v.recipes.len() as u32) + array_bytes::<'static, play::DeclareRecipesResponse_Recipes>(v.recipes));
    let t1 = rest;
    let t0 = b0 + t1;
    assert(b0 + rest =~= t0);
    lemma_varint_field_roundtrip(v.recipes.len() as i32, array_bytes::<'static, play::DeclareRecipesResponse_Recipes>(v.recipes) + t1);
    assert((v.recipes.len() as i32) as u32 == v.recipes.len() as u32);
    assert((v.recipes.len() as i32) as int == v.recipes.len());
    assert(varint_bytes(v.recipes.len() as u32) + (array_bytes::<'static, play::DeclareRecipesResponse_Recipes>(v.recipes) + t1) =~= b0 + t1);
    lemma_array_decode::<'static, play::DeclareRecipesResponse_Recipes>(v.recipes, t1);
}

/// A `TagsResponse` is read from its fields written in the protocol's order: `tags`.
pub proof fn lemma_tags_response_decode(v: play::TagsResponseView, rest: Seq<u8>)
    requires
        v.tags.len() <= i32::MAX,
        forall|i: int| 0 <= i < v.tags.len() ==> <play::TagsResponse_Tags as MD<'static>>::encodable(#[trigger] v.tags[i]),
    ensures
        <play::TagsResponse as MD<'static>>::spec_deserialize((varint_bytes(v.tags.len() as u32) + array_bytes::<'static, play::TagsResponse_Tags>(v.tags)) + rest) == Some((v, rest)),
{
    let b0 = (varint_bytes(v.tags.len() as u32) + array_bytes::<'static, play::TagsResponse_Tags>(v.tags));
    let t1 = rest;
    let t0 = b0 + t1;
    assert(b0 + rest =~= t0);
    lemma_varint_field_roundtrip(v.tags.len() as i32, array_bytes::<'static, play::TagsResponse_Tags>(v.tags) + t1);
    assert((v.tags.len() as i32) as u32 == v.tags.len() as u32);
    assert((v.tags.len() as i32) as int == v.tags.len());
    assert(varint_bytes(v.tags.len() as u32) + (array_bytes::<'static, play::TagsResponse_Tags>(v.tags) + t1) =~= b0 + t1);
    lemma_array_decode::<'static, play::TagsResponse_Tags>(v.tags, t1);
}

/// A `QueryBlockNbtRequest` is read from its fields written in the protocol's order: `transaction_id` and `location`.
#[verifier::rlimit(100)]
#[verifier::spinoff_prover]
pub proof fn lemma_query_block_nbt_request_decode(v: play::QueryBlockNbtRequest, location_bytes: Seq<u8>, rest: Seq<u8>)
    requires
        forall|r: Seq<u8>| #[trigger] <Position as MD<'static>>::spec_deserialize(location_bytes + r) == Some((v.location, r)),
    ensures
        <play::QueryBlockNbtRequest as MD<'static>>::spec_deserialize(varint_bytes(v.transaction_id as u32) + location_bytes + rest) == Some((v, rest)),
{
    let b0 = varint_bytes(v.transaction_id as u32);
    let b1 = location_bytes;
    let t2 = rest;
    let t1 = b1 + t2;
    let t0 = b0 + t1;
    assert(b0 + b1 + rest =~= t0);
    lemma_varint_field_roundtrip(v.transaction_id, t1);
    assert(<Position as MD<'static>>::spec_deserialize(location_bytes + t2) == Some((v.location, t2)));
    lemma_concat_associative(b0, b1, t2);
}

/// A `UpdateCommandBlockRequest` is read from its fields written in the protocol's order: `location`, `command`, `mode` and `flags`.
#[verifier::rlimit(100)]
#[verifier::spinoff_prover]
pub proof fn lemma_update_command_block_request_decode(v: play::UpdateCommandBlockRequestView, location_bytes: Seq<u8>, rest: Seq<u8>)
    requires
        forall|r: Seq<u8>| #[trigger] <Position as MD<'static>>::spec_deserialize(location_bytes + r) == Some((v.location, r)),
        <&'static str as MD<'static>>::encodable(v.command),
        <u8 as MD<'static>>::encodable(v.flags),
    ensures
        <play::UpdateCommandBlockRequest<'static> as MD<'static>>::spec_deserialize(location_bytes + <&'static str as MD<'static>>::spec_serialize(v.command) + varint_bytes(v.mode as u32) + <u8 as MD<'static>>::spec_serialize(v.flags) + rest) == Some((v, rest)),
{
    let b0 = location_bytes;
    let b1 = <&'static str as MD<'static>>::spec_serialize(v.command);
    let b2 = varint_bytes(v.mode as u32);
    let b3 = <u8 as MD<'static>>::spec_serialize(v.flags);
    let t4 = rest;
    let t3 = b3 + t4;
    let t2 = b2 + t3;
    let t1 = b1 + t2;
    let t0 = b0 + t1;
    assert(b0 + b1 + b2 + b3 + rest =~= t0);
    assert(<Position as MD<'static>>::spec_deserialize(location_bytes + t1) == Some((v.location, t1)));
    <&'static str as MD<'static>>::lemma_roundtrip(v.command, t2);
    lemma_varint_field_roundtrip(v.mode, t3);
    <u8 as MD<'static>>::lemma_roundtrip(v.flags, t4);
    lemma_concat_associative(b0 + b1 + b2, b3, t4);
    lemma_concat_associative(b0 + b1, b2, t3);
    lemma_concat_associative(b0, b1, t2);
}

/// A `UpdateStructureBlockRequest` is read from its fields written in the protocol's order: `location`, `action`, `mode`, `name`, `offset_x`, `offset_y`, `offset_z`, `size_x`, `size_y`, `size_z`, `mirror`, `rotation`, `metadata`, `integrity`, `seed` and `flags`.
#[verifier::rlimit(100)]
#[verifier::spinoff_prover]
pub proof fn lemma_update_structure_block_request_decode(v: play::UpdateStructureBlockRequestView, location_bytes: Seq<u8>, rest: Seq<u8>)
    requires
        forall|r: Seq<u8>| #[trigger] <Position as MD<'static>>::spec_deserialize(location_bytes + r) == Some((v.location, r)),
        <&'static str as MD<'static>>::encodable(v.name),
        <i8 as MD<'static>>::encodable(v.offset_x),
        <i8 as MD<'static>>::encodable(v.offset_y),
        <i8 as MD<'static>>::encodable(v.offset_z),
        <i8 as MD<'static>>::encodable(v.size_x),
        <i8 as MD<'static>>::encodable(v.size_y),
        <i8 as MD<'static>>::encodable(v.size_z),
        <&'static str as MD<'static>>::encodable(v.metadata),
        <u32 as MD<'static>>::encodable(v.integrity),
        <u8 as MD<'static>>::encodable(v.flags),
    ensures
        <play::UpdateStructureBlockRequest<'static> as MD<'static>>::spec_deserialize(location_bytes + varint_bytes(v.action as u32) + varint_bytes(v.mode as u32) + <&'static str as MD<'static>>::spec_serialize(v.name) + <i8 as MD<'static>>::spec_serialize(v.offset_x) + <i8 as MD<'static>>::spec_serialize(v.offset_y) + <i8 as MD<'static>>::spec_serialize(v.offset_z) + <i8 as MD<'static>>::spec_serialize(v.size_x) + <i8 as MD<'static>>::spec_serialize(v.size_y) + <i8 as MD<'static>>::spec_serialize(v.size_z) + varint_bytes(v.mirror as u32) + varint_bytes(v.rotation as u32) + <&'static str as MD<'static>>::spec_serialize(v.metadata) + <u32 as MD<'static>>::spec_serialize(v.integrity) + varlong_bytes(v.seed as u64) + <u8 as MD<'static>>::spec_serialize(v.flags) + rest) == Some((v, rest)),
{
    let b0 = location_bytes;
    let b1 = varint_bytes(v.action as u32);
    let b2 = varint_bytes(v.mode as u32);
    let b3 = <&'static str as MD<'static>>::spec_serialize(v.name);
    let b4 = <i8 as MD<'static>>::spec_serialize(v.offset_x);
    let b5 = <i8 as MD<'static>>::spec_serialize(v.offset_y);
    let b6 = <i8 as MD<'static>>::spec_serialize(v.offset_z);
    let b7 = <i8 as MD<'static>>::spec_serialize(v.size_x);
    let b8 = <i8 as MD<'static>>::spec_serialize(v.size_y);
    let b9 = <i8 as MD<'static>>::spec_serialize(v.size_z);
    let b10 = varint_bytes(v.mirror as u32);
    let b11 = varint_bytes(v.rotation as u32);
    let b12 = <&'static str as MD<'static>>::spec_serialize(v.metadata);
    let b13 = <u32 as MD<'static>>::spec_serialize(v.integrity);
    let b14 = varlong_bytes(v.seed as u64);
    let b15 = <u8 as MD<'static>>::spec_serialize(v.flags);
    let t16 = rest;
    let t15 = b15 + t16;
    let t14 = b14 + t15;
    let t13 = b13 + t14;
    let t12 = b12 + t13;
    let t11 = b11 + t12;
    let t10 = b10 + t11;
    let t9 = b9 + t10;
    let t8 = b8 + t9;
    let t7 = b7 + t8;
    let t6 = b6 + t7;
    let t5 = b5 + t6;
    let t4 = b4 + t5;
    let t3 = b3 + t4;
    let t2 = b2 + t3;
    let t1 = b1 + t2;
    let t0 = b0 + t1;
    assert(b0 + b1 + b2 + b3 + b4 + b5 + b6 + b7 + b8 + b9 + b10 + b11 + b12 + b13 + b14 + b15 + rest =~= t0);
    assert(<Position as MD<'static>>::spec_deserialize(location_bytes + t1) == Some((v.location, t1)));
    lemma_varint_field_roundtrip(v.action, t2);
    lemma_varint_field_roundtrip(v.mode, t3);
    <&'static str as MD<'static>>::lemma_roundtrip(v.name, t4);
    <i8 as MD<'static>>::lemma_roundtrip(v.offset_x, t5);
    <i8 as MD<'static>>::lemma_roundtrip(v.offset_y, t6);
    <i8 as MD<'static>>::lemma_roundtrip(v.offset_z, t7);
    <i8 as MD<'static>>::lemma_roundtrip(v.size_x, t8);
    <i8 as MD<'static>>::lemma_roundtrip(v.size_y, t9);
    <i8 as MD<'static>>::lemma_roundtrip(v.size_z, t10);
    lemma_varint_field_roundtrip(v.mirror, t11);
    lemma_varint_field_roundtrip(v.rotation, t12);
    <&'static str as MD<'static>>::lemma_roundtrip(v.metadata, t13);
    <u32 as MD<'static>>::lemma_roundtrip(v.integrity, t14);
    lemma_varlong_field_roundtrip(v.seed, t15);
    <u8 as MD<'static>>::lemma_roundtrip(v.flags, t16);
    lemma_concat_associative(b0 + b1 + b2 + b3 + b4 + b5 + b6 + b7 + b8 + b9 + b10 + b11 + b12 + b13 + b14, b15, t16);
    lemma_concat_associative(b0 + b1 + b2 + b3 + b4 + b5 + b6 + b7 + b8 + b9 + b10 + b11 + b12 + b13, b14, t15);
    lemma_concat_associative(b0 + b1 + b2 + b3 + b4 + b5 + b6 + b7 + b8 + b9 + b10 + b11 + b12, b13, t14);
    lemma_concat_associative(b0 + b1 + b2 + b3 + b4 + b5 + b6 + b7 + b8 + b9 + b10 + b11, b12, t13);
    lemma_concat_associative(b0 + b1 + b2 + b3 + b4 + b5 + b6 + b7 + b8 + b9 + b10, b11, t12);
    lemma_concat_associative(b0 + b1 + b2 + b3 + b4 + b5 + b6 + b7 + b8 + b9, b10, t11);
    lemma_concat_associative(b0 + b1 + b2 + b3 + b4 + b5 + b6 + b7 + b8, b9, t10);
    lemma_concat_associative(b0 + b1 + b2 + b3 + b4 + b5 + b6 + b7, b8, t9);
    lemma_concat_associative(b0 + b1 + b2 + b3 + b4 + b5 + b6, b7, t8);
    lemma_concat_associative(b0 + b1 + b2 + b3 + b4 + b5, b6, t7);
    lemma_concat_associative(b0 + b1 + b2 + b3 + b4, b5, t6);
    lemma_concat_associative(b0 + b1 + b2 + b3, b4, t5);
    lemma_concat_associative(b0 + b1 + b2, b3, t4);
    lemma_concat_associative(b0 + b1, b2, t3);
    lemma_concat_associative(b0, b1, t2);
}

/// A `WindowClickRequest_ChangedSlots` is read from its fields written in the protocol's order: `location` and `item`.
#[verifier::rlimit(100)]
#[verifier::spinoff_prover]
pub proof fn lemma_window_click_request_changed_slots_decode(v: play::WindowClickRequest_ChangedSlotsView, item_bytes: Seq<u8>, rest: Seq<u8>)
    requires
        <i16 as MD<'static>>::encodable(v.location),
        forall|r: Seq<u8>| #[trigger] <InventorySlot<'static> as MD<'static>>::spec_deserialize(item_bytes + r) == Some((v.item, r)),
    ensures
        <play::WindowClickRequest_ChangedSlots<'static> as MD<'static>>::spec_deserialize(<i16 as MD<'static>>::spec_serialize(v.location) + item_bytes + rest) == Some((v, rest)),
{
    let b0 = <i16 as MD<'static>>::spec_serialize(v.location);
    let b1 = item_bytes;
    let t2 = rest;
    let t1 = b1 + t2;
    let t0 = b0 + t1;
    assert(b0 + b1 + rest =~= t0);
    <i16 as MD<'static>>::lemma_roundtrip(v.location, t1);
    assert(<InventorySlot<'static> as MD<'static>>::spec_deserialize(item_bytes + t2) == Some((v.item, t2)));
    lemma_concat_associative(b0, b1, t2);
}

/// A `GenerateStructureRequest` is read from its fields written in the protocol's order: `location`, `levels` and `keep_jigsaws`.
#[verifier::rlimit(100)]
#[verifier::spinoff_prover]
pub proof fn lemma_generate_structure_request_decode(v: play::GenerateStructureRequest, location_bytes: Seq<u8>, rest: Seq<u8>)
    requires
        forall|r: Seq<u8>| #[trigger] <Position as MD<'static>>::spec_deserialize(location_bytes + r) == Some((v.location, r)),
        <bool as MD<'static>>::encodable(v.keep_jigsaws),
    ensures
        <play::GenerateStructureRequest as MD<'static>>::spec_deserialize(location_bytes + varint_bytes(v.levels as u32) + <bool as MD<'static>>::spec_serialize(v.keep_jigsaws) + rest) == Some((v, rest)),
{
    let b0 = location_bytes;
    let b1 = varint_bytes(v.levels as u32);
    let b2 = <bool as MD<'static>>::spec_serialize(v.keep_jigsaws);
    let t3 = rest;
    let t2 = b2 + t3;
    let t1 = b1 + t2;
    let t0 = b0 + t1;
    assert(b0 + b1 + b2 + rest =~= t0);
    assert(<Position as MD<'static>>::spec_deserialize(location_bytes + t1) == Some((v.location, t1)));
    lemma_varint_field_roundtrip(v.levels, t2);
    <bool as MD<'static>>::lemma_roundtrip(v.keep_jigsaws, t3);
    lemma_concat_associative(b0 + b1, b2, t3);
    lemma_concat_associative(b0, b1, t2);
}

/// A `BlockDigRequest` is read from its fields written in the protocol's order: `status`, `location` and `face`.
#[verifier::rlimit(100)]
#[verifier::spinoff_prover]
pub proof fn lemma_block_dig_request_decode(v: play::BlockDigRequest, location_bytes: Seq<u8>, rest: Seq<u8>)
    requires
        forall|r: Seq<u8>| #[trigger] <Position as MD<'static>>::spec_deserialize(location_bytes + r) == Some((v.location, r)),
        <i8 as MD<'static>>::encodable(v.face),
    ensures
        <play::BlockDigRequest as MD<'static>>::spec_deserialize(varint_bytes(v.status as u32) + location_bytes + <i8 as MD<'static>>::spec_serialize(v.face) + rest) == Some((v, rest)),
{
    let b0 = varint_bytes(v.status as u32);
    let b1 = location_bytes;
    let b2 = <i8 as MD<'static>>::spec_serialize(v.face);
    let t3 = rest;
    let t2 = b2 + t3;
    let t1 = b1 + t2;
    let t0 = b0 + t1;
    assert(b0 + b1 + b2 + rest =~= t0);
    lemma_varint_field_roundtrip(v.status, t1);
    assert(<Position as MD<'static>>::spec_deserialize(location_bytes + t2) == Some((v.location, t2)));
    <i8 as MD<'static>>::lemma_roundtrip(v.face, t3);
    lemma_concat_associative(b0 + b1, b2, t3);
    lemma_concat_associative(b0, b1, t2);
}

/// A `SetCreativeSlotRequest` is read from its fields written in the protocol's order: `slot` and `item`.
#[verifier::rlimit(100)]
#[verifier::spinoff_prover]
pub proof fn lemma_set_creative_slot_request_decode(v: play::SetCreativeSlotRequestView, item_bytes: Seq<u8>, rest: Seq<u8>)
    requires
        <i16 as MD<'static>>::encodable(v.slot),
        forall|r: Seq<u8>| #[trigger] <InventorySlot<'static> as MD<'static>>::spec_deserialize(item_bytes + r) == Some((v.item, r)),
    ensures
        <play::SetCreativeSlotRequest<'static> as MD<'static>>::spec_deserialize(<i16 as MD<'static>>::spec_serialize(v.slot) + item_bytes + rest) == Some((v, rest)),
{
    let b0 = <i16 as MD<'static>>::spec_serialize(v.slot);
    let b1 = item_bytes;
    let t2 = rest;
    let t1 = b1 + t2;
    let t0 = b0 + t1;
    assert(b0 + b1 + rest =~= t0);
    <i16 as MD<'static>>::lemma_roundtrip(v.slot, t1);
    assert(<InventorySlot<'static> as MD<'static>>::spec_deserialize(item_bytes + t2) == Some((v.item, t2)));
    lemma_concat_associative(b0, b1, t2);
}

/// A `UpdateJigsawBlockRequest` is read from its fields written in the protocol's order: `location`, `name`, `target`, `pool`, `final_state` and `joint_type`.
#[verifier::rlimit(100)]
#[verifier::spinoff_prover]
pub proof fn lemma_update_jigsaw_block_request_decode(v: play::UpdateJigsawBlockRequestView, location_bytes: Seq<u8>, rest: Seq<u8>)
    requires
        forall|r: Seq<u8>| #[trigger] <Position as MD<'static>>::spec_deserialize(location_bytes + r) == Some((v.location, r)),
        <&'static str as MD<'static>>::encodable(v.name),
        <&'static str as MD<'static>>::encodable(v.target),
        <&'static str as MD<'static>>::encodable(v.pool),
        <&'static str as MD<'static>>::encodable(v.final_state),
        <&'static str as MD<'static>>::encodable(v.joint_type),
    ensures
        <play::UpdateJigsawBlockRequest<'static> as MD<'static>>::spec_deserialize(location_bytes + <&'static str as MD<'static>>::spec_serialize(v.name) + <&'static str as MD<'static>>::spec_serialize(v.target) + <&'static str as MD<'static>>::spec_serialize(v.pool) + <&'static str as MD<'static>>::spec_serialize(v.final_state) + <&'static str as MD<'static>>::spec_serialize(v.joint_type) + rest) == Some((v, rest)),
{
    let b0 = location_bytes;
    let b1 = <&'static str as MD<'static>>::spec_serialize(v.name);
    let b2 = <&'static str as MD<'static>>::spec_serialize(v.target);
    let b3 = <&'static str as MD<'static>>::spec_serialize(v.pool);
    let b4 = <&'static str as MD<'static>>::spec_serialize(v.final_state);
    let b5 = <&'static str as MD<'static>>::spec_serialize(v.joint_type);
    let t6 = rest;
    let t5 = b5 + t6;
    let t4 = b4 + t5;
    let t3 = b3 + t4;
    let t2 = b2 + t3;
    let t1 = b1 + t2;
    let t0 = b0 + t1;
    assert(b0 + b1 + b2 + b3 + b4 + b5 + rest =~= t0);
    assert(<Position as MD<'static>>::spec_deserialize(location_bytes + t1) == Some((v.location, t1)));
    <&'static str as MD<'static>>::lemma_roundtrip(v.name, t2);
    <&'static str as MD<'static>>::lemma_roundtrip(v.target, t3);
    <&'static str as MD<'static>>::lemma_roundtrip(v.pool, t4);
    <&'static str as MD<'static>>::lemma_roundtrip(v.final_state, t5);
    <&'static str as MD<'static>>::lemma_roundtrip(v.joint_type, t6);
    lemma_concat_associative(b0 + b1 + b2 + b3 + b4, b5, t6);
    lemma_concat_associative(b0 + b1 + b2 + b3, b4, t5);
    lemma_concat_associative(b0 + b1 + b2, b3, t4);
    lemma_concat_associative(b0 + b1, b2, t3);
    lemma_concat_associative(b0, b1, t2);
}

/// A `UpdateSignRequest` is read from its fields written in the protocol's order: `location`, `text_1`, `text_2`, `text_3` and `text_4`.
#[verifier::rlimit(100)]
#[verifier::spinoff_prover]
pub proof fn lemma_update_sign_request_decode(v: play::UpdateSignRequestView, location_bytes: Seq<u8>, rest: Seq<u8>)
    requires
        forall|r: Seq<u8>| #[trigger] <Position as MD<'static>>::spec_deserialize(location_bytes + r) == Some((v.location, r)),
        <&'static str as MD<'static>>::encodable(v.text_1),
        <&'static str as MD<'static>>::encodable(v.text_2),
        <&'static str as MD<'static>>::encodable(v.text_3),
        <&'static str as MD<'static>>::encodable(v.text_4),
    ensures
        <play::UpdateSignRequest<'static> as MD<'static>>::spec_deserialize(location_bytes + <&'static str as MD<'static>>::spec_serialize(v.text_1) + <&'static str as MD<'static>>::spec_serialize(v.text_2) + <&'static str as MD<'static>>::spec_serialize(v.text_3) + <&'static str as MD<'static>>::spec_serialize(v.text_4) + rest) == Some((v, rest)),
{
    let b0 = location_bytes;
    let b1 = <&'static str as MD<'static>>::spec_serialize(v.text_1);
    let b2 = <&'static str as MD<'static>>::spec_serialize(v.text_2);
    let b3 = <&'static str as MD<'static>>::spec_serialize(v.text_3);
    let b4 = <&'static str as MD<'static>>::spec_serialize(v.text_4);
    let t5 = rest;
    let t4 = b4 + t5;
    let t3 = b3 + t4;
    let t2 = b2 + t3;
    let t1 = b1 + t2;
    let t0 = b0 + t1;
    assert(b0 + b1 + b2 + b3 + b4 + rest =~= t0);
    assert(<Position as MD<'static>>::spec_deserialize(location_bytes + t1) == Some((v.location, t1)));
    <&'static str as MD<'static>>::lemma_roundtrip(v.text_1, t2);
    <&'static str as MD<'static>>::lemma_roundtrip(v.text_2, t3);
    <&'static str as MD<'static>>::lemma_roundtrip(v.text_3, t4);
    <&'static str as MD<'static>>::lemma_roundtrip(v.text_4, t5);
    lemma_concat_associative(b0 + b1 + b2 + b3, b4, t5);
    lemma_concat_associative(b0 + b1 + b2, b3, t4);
    lemma_concat_associative(b0 + b1, b2, t3);
    lemma_concat_associative(b0, b1, t2);
}

/// A `BlockPlaceRequest` is read from its fields written in the protocol's order: `hand`, `location`, `direction`, `cursor_x`, `cursor_y`, `cursor_z` and `inside_block`.
#[verifier::rlimit(100)]
#[verifier::spinoff_prover]
pub proof fn lemma_block_place_request_decode(v: play::BlockPlaceRequest, location_bytes: Seq<u8>, rest: Seq<u8>)
    requires
        forall|r: Seq<u8>| #[trigger] <Position as MD<'static>>::spec_deserialize(location_bytes + r) == Some((v.location, r)),
        <u32 as MD<'static>>::encodable(v.cursor_x),
        <u32 as MD<'static>>::encodable(v.cursor_y),
        <u32 as MD<'static>>::encodable(v.cursor_z),
        <bool as MD<'static>>::encodable(v.inside_block),
    ensures
        <play::BlockPlaceRequest as MD<'static>>::spec_deserialize(varint_bytes(v.hand as u32) + location_bytes + varint_bytes(v.direction as u32) + <u32 as MD<'static>>::spec_serialize(v.cursor_x) + <u32 as MD<'static>>::spec_serialize(v.cursor_y) + <u32 as MD<'static>>::spec_serialize(v.cursor_z) + <bool as MD<'static>>::spec_serialize(v.inside_block) + rest) == Some((v, rest)),
{
    let b0 = varint_bytes(v.hand as u32);
    let b1 = location_bytes;
    let b2 = varint_bytes(v.direction as u32);
    let b3 = <u32 as MD<'static>>::spec_serialize(v.cursor_x);
    let b4 = <u32 as MD<'static>>::spec_serialize(v.cursor_y);
    let b5 = <u32 as MD<'static>>::spec_serialize(v.cursor_z);
    let b6 = <bool as MD<'static>>::spec_serialize(v.inside_block);
    let t7 = rest;
    let t6 = b6 + t7;
    let t5 = b5 + t6;
    let t4 = b4 + t5;
    let t3 = b3 + t4;
    let t2 = b2 + t3;
    let t1 = b1 + t2;
    let t0 = b0 + t1;
    assert(b0 + b1 + b2 + b3 + b4 + b5 + b6 + rest =~= t0);
    lemma_varint_field_roundtrip(v.hand, t1);
    assert(<Position as MD<'static>>::spec_deserialize(location_bytes + t2) == Some((v.location, t2)));
    lemma_varint_field_roundtrip(v.direction, t3);
    <u32 as MD<'static>>::lemma_roundtrip(v.cursor_x, t4);
    <u32 as MD<'static>>::lemma_roundtrip(v.cursor_y, t5);
    <u32 as MD<'static>>::lemma_roundtrip(v.cursor_z, t6);
    <bool as MD<'static>>::lemma_roundtrip(v.inside_block, t7);
    lemma_concat_associative(b0 + b1 + b2 + b3 + b4 + b5, b6, t7);
    lemma_concat_associative(b0 + b1 + b2 + b3 + b4, b5, t6);
    lemma_concat_associative(b0 + b1 + b2 + b3, b4, t5);
    lemma_concat_associative(b0 + b1 + b2, b3, t4);
    lemma_concat_associative(b0 + b1, b2, t3);
    lemma_concat_associative(b0, b1, t2);
}

/// A `SpawnEntityPaintingResponse` is read from its fields written in the protocol's order: `entity_id`, `entity_uuid`, `title`, `location` and `direction`.
#[verifier::rlimit(100)]
#[verifier::spinoff_prover]
pub proof fn lemma_spawn_entity_painting_response_decode(v: play::SpawnEntityPaintingResponse, location_bytes: Seq<u8>, rest: Seq<u8>)
    requires
        <u128 as MD<'static>>::encodable(v.entity_uuid),
        forall|r: Seq<u8>| #[trigger] <Position as MD<'static>>::spec_deserialize(location_bytes + r) == Some((v.location, r)),
        <u8 as MD<'static>>::encodable(v.direction),
    ensures
        <play::SpawnEntityPaintingResponse as MD<'static>>::spec_deserialize(varint_bytes(v.entity_id as u32) + <u128 as MD<'static>>::spec_serialize(v.entity_uuid) + varint_bytes(v.title as u32) + location_bytes + <u8 as MD<'static>>::spec_serialize(v.direction) + rest) == Some((v, rest)),
{
    let b0 = varint_bytes(v.entity_id as u32);
    let b1 = <u128 as MD<'static>>::spec_serialize(v.entity_uuid);
    let b2 = varint_bytes(v.title as u32);
    let b3 = location_bytes;
    let b4 = <u8 as MD<'static>>::spec_serialize(v.direction);
    let t5 = rest;
    let t4 = b4 + t5;
    let t3 = b3 + t4;
    let t2 = b2 + t3;
    let t1 = b1 + t2;
    let t0 = b0 + t1;
    assert(b0 + b1 + b2 + b3 + b4 + rest =~= t0);
    lemma_varint_field_roundtrip(v.entity_id, t1);
    <u128 as MD<'static>>::lemma_roundtrip(v.entity_uuid, t2);
    lemma_varint_field_roundtrip(v.title, t3);
    assert(<Position as MD<'static>>::spec_deserialize(location_bytes + t4) == Some((v.location, t4)));
    <u8 as MD<'static>>::lemma_roundtrip(v.direction, t5);
    lemma_concat_associative(b0 + b1 + b2 + b3, b4, t5);
    lemma_concat_associative(b0 + b1 + b2, b3, t4);
    lemma_concat_associative(b0 + b1, b2, t3);
    lemma_concat_associative(b0, b1, t2);
}

/// A `BlockBreakAnimationResponse` is read from its fields written in the protocol's order: `entity_id`, `location` and `destroy_stage`.
#[verifier::rlimit(100)]
#[verifier::spinoff_prover]
pub proof fn lemma_block_break_animation_response_decode(v: play::BlockBreakAnimationResponse, location_bytes: Seq<u8>, rest: Seq<u8>)
    requires
        forall|r: Seq<u8>| #[trigger] <Position as MD<'static>>::spec_deserialize(location_bytes + r) == Some((v.location, r)),
        <i8 as MD<'static>>::encodable(v.destroy_stage),
    ensures
        <play::BlockBreakAnimationResponse as MD<'static>>::spec_deserialize(varint_bytes(v.entity_id as u32) + location_bytes + <i8 as MD<'static>>::spec_serialize(v.destroy_stage) + rest) == Some((v, rest)),
{
    let b0 = varint_bytes(v.entity_id as u32);
    let b1 = location_bytes;
    let b2 = <i8 as MD<'static>>::spec_serialize(v.destroy_stage);
    let t3 = rest;
    let t2 = b2 + t3;
    let t1 = b1 + t2;
    let t0 = b0 + t1;
    assert(b0 + b1 + b2 + rest =~= t0);
    lemma_varint_field_roundtrip(v.entity_id, t1);
    assert(<Position as MD<'static>>::spec_deserialize(location_bytes + t2) == Some((v.location, t2)));
    <i8 as MD<'static>>::lemma_roundtrip(v.destroy_stage, t3);
    lemma_concat_associative(b0 + b1, b2, t3);
    lemma_concat_associative(b0, b1, t2);
}

/// A `TileEntityDataResponse` is read from its fields written in the protocol's order: `location`, `action` and `nbt_data`.
#[verifier::rlimit(100)]
#[verifier::spinoff_prover]
pub proof fn lemma_tile_entity_data_response_decode(v: play::TileEntityDataResponseView, location_bytes: Seq<u8>, nbt_data_bytes: Seq<u8>, rest: Seq<u8>)
    requires
        forall|r: Seq<u8>| #[trigger] <Position as MD<'static>>::spec_deserialize(location_bytes + r) == Some((v.location, r)),
        forall|r: Seq<u8>| #[trigger] <IndexedOptionNbt<'static> as MD<'static>>::spec_deserialize(nbt_data_bytes + r) == Some((v.nbt_data, r)),
    ensures
        <play::TileEntityDataResponse<'static> as MD<'static>>::spec_deserialize(location_bytes + varint_bytes(v.action as u32) + nbt_data_bytes + rest) == Some((v, rest)),
{
    let b0 = location_bytes;
    let b1 = varint_bytes(v.action as u32);
    let b2 = nbt_data_bytes;
    let t3 = rest;
    let t2 = b2 + t3;
    let t1 = b1 + t2;
    let t0 = b0 + t1;
    assert(b0 + b1 + b2 + rest =~= t0);
    assert(<Position as MD<'static>>::spec_deserialize(location_bytes + t1) == Some((v.location, t1)));
    lemma_varint_field_roundtrip(v.action, t2);
    assert(<IndexedOptionNbt<'static> as MD<'static>>::spec_deserialize(nbt_data_bytes + t3) == Some((v.nbt_data, t3)));
    lemma_concat_associative(b0 + b1, b2, t3);
    lemma_concat_associative(b0, b1, t2);
}

/// A `BlockActionResponse` is read from its fields written in the protocol's order: `location`, `byte_1`, `byte_2` and `block_id`.
#[verifier::rlimit(100)]
#[verifier::spinoff_prover]
pub proof fn lemma_block_action_response_decode(v: play::BlockActionResponse, location_bytes: Seq<u8>, rest: Seq<u8>)
    requires
        forall|r: Seq<u8>| #[trigger] <Position as MD<'static>>::spec_deserialize(location_bytes + r) == Some((v.location, r)),
        <u8 as MD<'static>>::encodable(v.byte_1),
        <u8 as MD<'static>>::encodable(v.byte_2),
    ensures
        <play::BlockActionResponse as MD<'static>>::spec_deserialize(location_bytes + <u8 as MD<'static>>::spec_serialize(v.byte_1) + <u8 as MD<'static>>::spec_serialize(v.byte_2) + varint_bytes(v.block_id as u32) + rest) == Some((v, rest)),
{
    let b0 = location_bytes;
    let b1 = <u8 as MD<'static>>::spec_serialize(v.byte_1);
    let b2 = <u8 as MD<'static>>::spec_serialize(v.byte_2);
    let b3 = varint_bytes(v.block_id as u32);
    let t4 = rest;
    let t3 = b3 + t4;
    let t2 = b2 + t3;
    let t1 = b1 + t2;
    let t0 = b0 + t1;
    assert(b0 + b1 + b2 + b3 + rest =~= t0);
    assert(<Position as MD<'static>>::spec_deserialize(location_bytes + t1) == Some((v.location, t1)));
    <u8 as MD<'static>>::lemma_roundtrip(v.byte_1, t2);
    <u8 as MD<'static>>::lemma_roundtrip(v.byte_2, t3);
    lemma_varint_field_roundtrip(v.block_id, t4);
    lemma_concat_associative(b0 + b1 + b2, b3, t4);
    lemma_concat_associative(b0 + b1, b2, t3);
    lemma_concat_associative(b0, b1, t2);
}

/// A `BlockChangeResponse` is read from its fields written in the protocol's order: `location` and `type_`.
#[verifier::rlimit(100)]
#[verifier::spinoff_prover]
pub proof fn lemma_block_change_response_decode(v: play::BlockChangeResponse, location_bytes: Seq<u8>, rest: Seq<u8>)
    requires
        forall|r: Seq<u8>| #[trigger] <Position as MD<'static>>::spec_deserialize(location_bytes + r) == Some((v.location, r)),
    ensures
        <play::BlockChangeResponse as MD<'static>>::spec_deserialize(location_bytes + varint_bytes(v.type_ as u32) + rest) == Some((v, rest)),
{
    let b0 = location_bytes;
    let b1 = varint_bytes(v.type_ as u32);
    let t2 = rest;
    let t1 = b1 + t2;
    let t0 = b0 + t1;
    assert(b0 + b1 + rest =~= t0);
    assert(<Position as MD<'static>>::spec_deserialize(location_bytes + t1) == Some((v.location, t1)));
    lemma_varint_field_roundtrip(v.type_, t2);
    lemma_concat_associative(b0, b1, t2);
}

/// A `NbtQueryResponse` is read from its fields written in the protocol's order: `transaction_id` and `nbt`.
#[verifier::rlimit(100)]
#[verifier::spinoff_prover]
pub proof fn lemma_nbt_query_response_decode(v: play::NbtQueryResponseView, nbt_bytes: Seq<u8>, rest: Seq<u8>)
    requires
        forall|r: Seq<u8>| #[trigger] <IndexedOptionNbt<'static> as MD<'static>>::spec_deserialize(nbt_bytes + r) == Some((v.nbt, r)),
    ensures
        <play::NbtQueryResponse<'static> as MD<'static>>::spec_deserialize(varint_bytes(v.transaction_id as u32) + nbt_bytes + rest) == Some((v, rest)),
{
    let b0 = varint_bytes(v.transaction_id as u32);
    let b1 = nbt_bytes;
    let t2 = rest;
    let t1 = b1 + t2;
    let t0 = b0 + t1;
    assert(b0 + b1 + rest =~= t0);
    lemma_varint_field_roundtrip(v.transaction_id, t1);
    assert(<IndexedOptionNbt<'static> as MD<'static>>::spec_deserialize(nbt_bytes + t2) == Some((v.nbt, t2)));
    lemma_concat_associative(b0, b1, t2);
}

/// A `SetSlotResponse` is read from its fields written in the protocol's order: `window_id`, `state_id`, `slot` and `item`.
#[verifier::rlimit(100)]
#[verifier::spinoff_prover]
pub proof fn lemma_set_slot_response_decode(v: play::SetSlotResponseView, item_bytes: Seq<u8>, rest: Seq<u8>)
    requires
        <i8 as MD<'static>>::encodable(v.window_id),
        <i16 as MD<'static>>::encodable(v.slot),
        forall|r: Seq<u8>| #[trigger] <InventorySlot<'static> as MD<'static>>::spec_deserialize(item_bytes + r) == Some((v.item, r)),
    ensures
        <play::SetSlotResponse<'static> as MD<'static>>::spec_deserialize(<i8 as MD<'static>>::spec_serialize(v.window_id) + varint_bytes(v.state_id as u32) + <i16 as MD<'static>>::spec_serialize(v.slot) + item_bytes + rest) == Some((v, rest)),
{
    let b0 = <i8 as MD<'static>>::spec_serialize(v.window_id);
    let b1 = varint_bytes(v.state_id as u32);
    let b2 = <i16 as MD<'static>>::spec_serialize(v.slot);
    let b3 = item_bytes;
    let t4 = rest;
    let t3 = b3 + t4;
    let t2 = b2 + t3;
    let t1 = b1 + t2;
    let t0 = b0 + t1;
    assert(b0 + b1 + b2 + b3 + rest =~= t0);
    <i8 as MD<'static>>::lemma_roundtrip(v.window_id, t1);
    lemma_varint_field_roundtrip(v.state_id, t2);
    <i16 as MD<'static>>::lemma_roundtrip(v.slot, t3);
    assert(<InventorySlot<'static> as MD<'static>>::spec_deserialize(item_bytes + t4) == Some((v.item, t4)));
    lemma_concat_associative(b0 + b1 + b2, b3, t4);
    lemma_concat_associative(b0 + b1, b2, t3);
    lemma_concat_associative(b0, b1, t2);
}

/// A `WorldEventResponse` is read from its fields written in the protocol's order: `effect_id`, `location`, `data` and `global`.
#[verifier::rlimit(100)]
#[verifier::spinoff_prover]
pub proof fn lemma_world_event_response_decode(v: play::WorldEventResponse, location_bytes: Seq<u8>, rest: Seq<u8>)
    requires
        <i32 as MD<'static>>::encodable(v.effect_id),
        forall|r: Seq<u8>| #[trigger] <Position as MD<'static>>::spec_deserialize(location_bytes + r) == Some((v.location, r)),
        <i32 as MD<'static>>::encodable(v.data),
        <bool as MD<'static>>::encodable(v.global),
    ensures
        <play::WorldEventResponse as MD<'static>>::spec_deserialize(<i32 as MD<'static>>::spec_serialize(v.effect_id) + location_bytes + <i32 as MD<'static>>::spec_serialize(v.data) + <bool as MD<'static>>::spec_serialize(v.global) + rest) == Some((v, rest)),
{
    let b0 = <i32 as MD<'static>>::spec_serialize(v.effect_id);
    let b1 = location_bytes;
    let b2 = <i32 as MD<'static>>::spec_serialize(v.data);
    let b3 = <bool as MD<'static>>::spec_serialize(v.global);
    let t4 = rest;
    let t3 = b3 + t4;
    let t2 = b2 + t3;
    let t1 = b1 + t2;
    let t0 = b0 + t1;
    assert(b0 + b1 + b2 + b3 + rest =~= t0);
    <i32 as MD<'static>>::lemma_roundtrip(v.effect_id, t1);
    assert(<Position as MD<'static>>::spec_deserialize(location_bytes + t2) == Some((v.location, t2)));
    <i32 as MD<'static>>::lemma_roundtrip(v.data, t3);
    <bool as MD<'static>>::lemma_roundtrip(v.global, t4);
    lemma_concat_associative(b0 + b1 + b2, b3, t4);
    lemma_concat_associative(b0 + b1, b2, t3);
    lemma_concat_associative(b0, b1, t2);
}

/// A `TradeListResponse_Trades` is read from its fields written in the protocol's order: `input_item_1`, `output_item`, `input_item_2`, `trade_disabled`, `nb_trade_uses`, `maximum_nb_trade_uses`, `xp`, `special_price`, `price_multiplier` and `demand`.
#[verifier::rlimit(100)]
#[verifier::spinoff_prover]
pub proof fn lemma_trade_list_response_trades_decode(v: play::TradeListResponse_TradesView, input_item_1_bytes: Seq<u8>, output_item_bytes: Seq<u8>, rest: Seq<u8>)
    requires
        forall|r: Seq<u8>| #[trigger] <InventorySlot<'static> as MD<'static>>::spec_deserialize(input_item_1_bytes + r) == Some((v.input_item_1, r)),
        forall|r: Seq<u8>| #[trigger] <InventorySlot<'static> as MD<'static>>::spec_deserialize(output_item_bytes + r) == Some((v.output_item, r)),
        <Option<InventorySlot<'static>> as MD<'static>>::encodable(v.input_item_2),
        <bool as MD<'static>>::encodable(v.trade_disabled),
        <i32 as MD<'static>>::encodable(v.nb_trade_uses),
        <i32 as MD<'static>>::encodable(v.maximum_nb_trade_uses),
        <i32 as MD<'static>>::encodable(v.xp),
        <i32 as MD<'static>>::encodable(v.special_price),
        <u32 as MD<'static>>::encodable(v.price_multiplier),
        <i32 as MD<'static>>::encodable(v.demand),
    ensures
        <play::TradeListResponse_Trades<'static> as MD<'static>>::spec_deserialize(input_item_1_bytes + output_item_bytes + <Option<InventorySlot<'static>> as MD<'static>>::spec_serialize(v.input_item_2) + <bool as MD<'static>>::spec_serialize(v.trade_disabled) + <i32 as MD<'static>>::spec_serialize(v.nb_trade_uses) + <i32 as MD<'static>>::spec_serialize(v.maximum_nb_trade_uses) + <i32 as MD<'static>>::spec_serialize(v.xp) + <i32 as MD<'static>>::spec_serialize(v.special_price) + <u32 as MD<'static>>::spec_serialize(v.price_multiplier) + <i32 as MD<'static>>::spec_serialize(v.demand) + rest) == Some((v, rest)),
{
    let b0 = input_item_1_bytes;
    let b1 = output_item_bytes;
    let b2 = <Option<InventorySlot<'static>> as MD<'static>>::spec_serialize(v.input_item_2);
    let b3 = <bool as MD<'static>>::spec_serialize(v.trade_disabled);
    let b4 = <i32 as MD<'static>>::spec_serialize(v.nb_trade_uses);
    let b5 = <i32 as MD<'static>>::spec_serialize(v.maximum_nb_trade_uses);
    let b6 = <i32 as MD<'static>>::spec_serialize(v.xp);
    let b7 = <i32 as MD<'static>>::spec_serialize(v.special_price);
    let b8 = <u32 as MD<'static>>::spec_serialize(v.price_multiplier);
    let b9 = <i32 as MD<'static>>::spec_serialize(v.demand);
    let t10 = rest;
    let t9 = b9 + t10;
    let t8 = b8 + t9;
    let t7 = b7 + t8;
    let t6 = b6 + t7;
    let t5 = b5 + t6;
    let t4 = b4 + t5;
    let t3 = b3 + t4;
    let t2 = b2 + t3;
    let t1 = b1 + t2;
    let t0 = b0 + t1;
    assert(b0 + b1 + b2 + b3 + b4 + b5 + b6 + b7 + b8 + b9 + rest =~= t0);
    assert(<InventorySlot<'static> as MD<'static>>::spec_deserialize(input_item_1_bytes + t1) == Some((v.input_item_1, t1)));
    assert(<InventorySlot<'static> as MD<'static>>::spec_deserialize(output_item_bytes + t2) == Some((v.output_item, t2)));
    <Option<InventorySlot<'static>> as MD<'static>>::lemma_roundtrip(v.input_item_2, t3);
    <bool as MD<'static>>::lemma_roundtrip(v.trade_disabled, t4);
    <i32 as MD<'static>>::lemma_roundtrip(v.nb_trade_uses, t5);
    <i32 as MD<'static>>::lemma_roundtrip(v.maximum_nb_trade_uses, t6);
    <i32 as MD<'static>>::lemma_roundtrip(v.xp, t7);
    <i32 as MD<'static>>::lemma_roundtrip(v.special_price, t8);
    <u32 as MD<'static>>::lemma_roundtrip(v.price_multiplier, t9);
    <i32 as MD<'static>>::lemma_roundtrip(v.demand, t10);
    lemma_concat_associative(b0 + b1 + b2 + b3 + b4 + b5 + b6 + b7 + b8, b9, t10);
    lemma_concat_associative(b0 + b1 + b2 + b3 + b4 + b5 + b6 + b7, b8, t9);
    lemma_concat_associative(b0 + b1 + b2 + b3 + b4 + b5 + b6, b7, t8);
    lemma_concat_associative(b0 + b1 + b2 + b3 + b4 + b5, b6, t7);
    lemma_concat_associative(b0 + b1 + b2 + b3 + b4, b5, t6);
    lemma_concat_associative(b0 + b1 + b2 + b3, b4, t5);
    lemma_concat_associative(b0 + b1 + b2, b3, t4);
    lemma_concat_associative(b0 + b1, b2, t3);
    lemma_concat_associative(b0, b1, t2);
}

/// A `OpenSignEntityResponse` is read from its fields written in the protocol's order: `location`.
#[verifier::rlimit(100)]
#[verifier::spinoff_prover]
pub proof fn lemma_open_sign_entity_response_decode(v: play::OpenSignEntityResponse, location_bytes: Seq<u8>, rest: Seq<u8>)
    requires
        forall|r: Seq<u8>| #[trigger] <Position as MD<'static>>::spec_deserialize(location_bytes + r) == Some((v.location, r)),
    ensures
        <play::OpenSignEntityResponse as MD<'static>>::spec_deserialize(location_bytes + rest) == Some((v, rest)),
{
    let b0 = location_bytes;
    let t1 = rest;
    let t0 = b0 + t1;
    assert(b0 + rest =~= t0);
    assert(<Position as MD<'static>>::spec_deserialize(location_bytes + t1) == Some((v.location, t1)));
}

/// A `RespawnResponse` is read from its fields written in the protocol's order: `dimension`, `world_name`, `hashed_seed`, `gamemode`, `previous_gamemode`, `is_debug`, `is_flat` and `copy_metadata`.
#[verifier::rlimit(100)]
#[verifier::spinoff_prover]
pub proof fn lemma_respawn_response_decode(v: play::RespawnResponseView, dimension_bytes: Seq<u8>, rest: Seq<u8>)
    requires
        forall|r: Seq<u8>| #[trigger] <IndexedNbt<'static> as MD<'static>>::spec_deserialize(dimension_bytes + r) == Some((v.dimension, r)),
        <&'static str as MD<'static>>::encodable(v.world_name),
        <i64 as MD<'static>>::encodable(v.hashed_seed),
        <u8 as MD<'static>>::encodable(v.gamemode),
        <u8 as MD<'static>>::encodable(v.previous_gamemode),
        <bool as MD<'static>>::encodable(v.is_debug),
        <bool as MD<'static>>::encodable(v.is_flat),
        <bool as MD<'static>>::encodable(v.copy_metadata),
    ensures
        <play::RespawnResponse<'static> as MD<'static>>::spec_deserialize(dimension_bytes + <&'static str as MD<'static>>::spec_serialize(v.world_name) + <i64 as MD<'static>>::spec_serialize(v.hashed_seed) + <u8 as MD<'static>>::spec_serialize(v.gamemode) + <u8 as MD<'static>>::spec_serialize(v.previous_gamemode) + <bool as MD<'static>>::spec_serialize(v.is_debug) + <bool as MD<'static>>::spec_serialize(v.is_flat) + <bool as MD<'static>>::spec_serialize(v.copy_metadata) + rest) == Some((v, rest)),
{
    let b0 = dimension_bytes;
    let b1 = <&'static str as MD<'static>>::spec_serialize(v.world_name);
    let b2 = <i64 as MD<'static>>::spec_serialize(v.hashed_seed);
    let b3 = <u8 as MD<'static>>::spec_serialize(v.gamemode);
    let b4 = <u8 as MD<'static>>::spec_serialize(v.previous_gamemode);
    let b5 = <bool as MD<'static>>::spec_serialize(v.is_debug);
    let b6 = <bool as MD<'static>>::spec_serialize(v.is_flat);
    let b7 = <bool as MD<'static>>::spec_serialize(v.copy_metadata);
    let t8 = rest;
    let t7 = b7 + t8;
    let t6 = b6 + t7;
    let t5 = b5 + t6;
    let t4 = b4 + t5;
    let t3 = b3 + t4;
    let t2 = b2 + t3;
    let t1 = b1 + t2;
    let t0 = b0 + t1;
    assert(b0 + b1 + b2 + b3 + b4 + b5 + b6 + b7 + rest =~= t0);
    assert(<IndexedNbt<'static> as MD<'static>>::spec_deserialize(dimension_bytes + t1) == Some((v.dimension, t1)));
    <&'static str as MD<'static>>::lemma_roundtrip(v.world_name, t2);
    <i64 as MD<'static>>::lemma_roundtrip(v.hashed_seed, t3);
    <u8 as MD<'static>>::lemma_roundtrip(v.gamemode, t4);
    <u8 as MD<'static>>::lemma_roundtrip(v.previous_gamemode, t5);
    <bool as MD<'static>>::lemma_roundtrip(v.is_debug, t6);
    <bool as MD<'static>>::lemma_roundtrip(v.is_flat, t7);
    <bool as MD<'static>>::lemma_roundtrip(v.copy_metadata, t8);
    lemma_concat_associative(b0 + b1 + b2 + b3 + b4 + b5 + b6, b7, t8);
    lemma_concat_associative(b0 + b1 + b2 + b3 + b4 + b5, b6, t7);
    lemma_concat_associative(b0 + b1 + b2 + b3 + b4, b5, t6);
    lemma_concat_associative(b0 + b1 + b2 + b3, b4, t5);
    lemma_concat_associative(b0 + b1 + b2, b3, t4);
    lemma_concat_associative(b0 + b1, b2, t3);
    lemma_concat_associative(b0, b1, t2);
}

/// A `SpawnPositionResponse` is read from its fields written in the protocol's order: `location` and `angle`.
#[verifier::rlimit(100)]
#[verifier::spinoff_prover]
pub proof fn lemma_spawn_position_response_decode(v: play::SpawnPositionResponse, location_bytes: Seq<u8>, rest: Seq<u8>)
    requires
        forall|r: Seq<u8>| #[trigger] <Position as MD<'static>>::spec_deserialize(location_bytes + r) == Some((v.location, r)),
        <u32 as MD<'static>>::encodable(v.angle),
    ensures
        <play::SpawnPositionResponse as MD<'static>>::spec_deserialize(location_bytes + <u32 as MD<'static>>::spec_serialize(v.angle) + rest) == Some((v, rest)),
{
    let b0 = location_bytes;
    let b1 = <u32 as MD<'static>>::spec_serialize(v.angle);
    let t2 = rest;
    let t1 = b1 + t2;
    let t0 = b0 + t1;
    assert(b0 + b1 + rest =~= t0);
    assert(<Position as MD<'static>>::spec_deserialize(location_bytes + t1) == Some((v.location, t1)));
    <u32 as MD<'static>>::lemma_roundtrip(v.angle, t2);
    lemma_concat_associative(b0, b1, t2);
}

/// A `AcknowledgePlayerDiggingResponse` is read from its fields written in the protocol's order: `location`, `block`, `status` and `successful`.
#[verifier::rlimit(100)]
#[verifier::spinoff_prover]
pub proof fn lemma_acknowledge_player_digging_response_decode(v: play::AcknowledgePlayerDiggingResponse, location_bytes: Seq<u8>, rest: Seq<u8>)
    requires
        forall|r: Seq<u8>| #[trigger] <Position as MD<'static>>::spec_deserialize(location_bytes + r) == Some((v.location, r)),
        <bool as MD<'static>>::encodable(v.successful),
    ensures
        <play::AcknowledgePlayerDiggingResponse as MD<'static>>::spec_deserialize(location_bytes + varint_bytes(v.block as u32) + varint_bytes(v.status as u32) + <bool as MD<'static>>::spec_serialize(v.successful) + rest) == Some((v, rest)),
{
    let b0 = location_bytes;
    let b1 = varint_bytes(v.block as u32);
    let b2 = varint_bytes(v.status as u32);
    let b3 = <bool as MD<'static>>::spec_serialize(v.successful);
    let t4 = rest;
    let t3 = b3 + t4;
    let t2 = b2 + t3;
    let t1 = b1 + t2;
    let t0 = b0 + t1;
    assert(b0 + b1 + b2 + b3 + rest =~= t0);
    assert(<Position as MD<'static>>::spec_deserialize(location_bytes + t1) == Some((v.location, t1)));
    lemma_varint_field_roundtrip(v.block, t2);
    lemma_varint_field_roundtrip(v.status, t3);
    <bool as MD<'static>>::lemma_roundtrip(v.successful, t4);
    lemma_concat_associative(b0 + b1 + b2, b3, t4);
    lemma_concat_associative(b0 + b1, b2, t3);
    lemma_concat_associative(b0, b1, t2);
}

} // verus!
