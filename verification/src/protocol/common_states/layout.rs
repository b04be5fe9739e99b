//! How each packet of the states before play is laid out on the wire:
//! its fields, in order.
#![allow(unused_imports)]
use crate::protocol::de::{Position, MD};
use crate::protocol::varint::{varint_bytes, varlong_bytes};
use crate::protocol::{
    array_bytes, lemma_array_decode, lemma_varint_array_decode, lemma_varint_field_roundtrip,
    lemma_varlong_array_decode, lemma_varlong_field_roundtrip, spec_i64_slice, varint_array_bytes, varlong_array_bytes,
    ChunkBlockEntity,
    IndexedNbt, IndexedOptionNbt, InventorySlot,
};
use vstd::seq_lib::lemma_concat_associative;

use vstd::prelude::*;

verus! {

/// A `SetProtocolRequest` is written as its fields in the protocol's order: `protocol_version`, `server_host`, `server_port` and `next_state`.
pub proof fn lemma_set_protocol_request_layout(v: crate::protocol::common_states::handshaking::SetProtocolRequestView)
    ensures
        <crate::protocol::common_states::handshaking::SetProtocolRequest<'static> as MD<'static>>::spec_serialize(v) == varint_bytes(v.protocol_version as u32) + <&'static str as MD<'static>>::spec_serialize(v.server_host) + <u16 as MD<'static>>::spec_serialize(v.server_port) + varint_bytes(v.next_state as u32),
{
}

/// A `LegacyServerListPingRequest` is written as its fields in the protocol's order: `payload`.
pub proof fn lemma_legacy_server_list_ping_request_layout(v: crate::protocol::common_states::handshaking::LegacyServerListPingRequest)
    ensures
        <crate::protocol::common_states::handshaking::LegacyServerListPingRequest as MD<'static>>::spec_serialize(v) == <u8 as MD<'static>>::spec_serialize(v.payload),
{
}

/// A `PingStartRequest` is written as its fields in the protocol's order (it has none).
pub proof fn lemma_ping_start_request_layout(v: crate::protocol::common_states::status::PingStartRequest)
    ensures
        <crate::protocol::common_states::status::PingStartRequest as MD<'static>>::spec_serialize(v) == Seq::<u8>::empty(),
{
}

/// A `PingRequest` is written as its fields in the protocol's order: `time`.
pub proof fn lemma_ping_request_layout(v: crate::protocol::common_states::status::PingRequest)
    ensures
        <crate::protocol::common_states::status::PingRequest as MD<'static>>::spec_serialize(v) == <i64 as MD<'static>>::spec_serialize(v.time),
{
}

/// A `ServerInfoResponse` is written as its fields in the protocol's order: `response`.
pub proof fn lemma_server_info_response_layout(v: crate::protocol::common_states::status::ServerInfoResponseView)
    ensures
        <crate::protocol::common_states::status::ServerInfoResponse<'static> as MD<'static>>::spec_serialize(v) == <&'static str as MD<'static>>::spec_serialize(v.response),
{
}

/// A `PingResponse` is written as its fields in the protocol's order: `time`.
pub proof fn lemma_ping_response_layout(v: crate::protocol::common_states::status::PingResponse)
    ensures
        <crate::protocol::common_states::status::PingResponse as MD<'static>>::spec_serialize(v) == <i64 as MD<'static>>::spec_serialize(v.time),
{
}

/// A `LoginStartRequest` is written as its fields in the protocol's order: `username`.
pub proof fn lemma_login_start_request_layout(v: crate::protocol::common_states::login::LoginStartRequestView)
    ensures
        <crate::protocol::common_states::login::LoginStartRequest<'static> as MD<'static>>::spec_serialize(v) == <&'static str as MD<'static>>::spec_serialize(v.username),
{
}

/// A `EncryptionBeginRequest` is written as its fields in the protocol's order: `shared_secret` and `verify_token`.
pub proof fn lemma_encryption_begin_request_layout(v: crate::protocol::common_states::login::EncryptionBeginRequestView)
    ensures
        <crate::protocol::common_states::login::EncryptionBeginRequest<'static> as MD<'static>>::spec_serialize(v) == <&'static [u8] as MD<'static>>::spec_serialize(v.shared_secret) + <&'static [u8] as MD<'static>>::spec_serialize(v.verify_token),
{
}

/// A `LoginPluginResponse` is written as its fields in the protocol's order: `message_id` and `data`.
pub proof fn lemma_login_plugin_response_layout(v: crate::protocol::common_states::login::LoginPluginResponseView)
    ensures
        <crate::protocol::common_states::login::LoginPluginResponse<'static> as MD<'static>>::spec_serialize(v) == varint_bytes(v.message_id as u32) + <Option<&'static [u8]> as MD<'static>>::spec_serialize(v.data),
{
}

/// A `DisconnectResponse` is written as its fields in the protocol's order: `reason`.
pub proof fn lemma_disconnect_response_layout(v: crate::protocol::common_states::login::DisconnectResponseView)
    ensures
        <crate::protocol::common_states::login::DisconnectResponse<'static> as MD<'static>>::spec_serialize(v) == <&'static str as MD<'static>>::spec_serialize(v.reason),
{
}

/// A `EncryptionBeginResponse` is written as its fields in the protocol's order: `server_id`, `public_key` and `verify_token`.
pub proof fn lemma_encryption_begin_response_layout(v: crate::protocol::common_states::login::EncryptionBeginResponseView)
    ensures
        <crate::protocol::common_states::login::EncryptionBeginResponse<'static> as MD<'static>>::spec_serialize(v) == <&'static str as MD<'static>>::spec_serialize(v.server_id) + <&'static [u8] as MD<'static>>::spec_serialize(v.public_key) + <&'static [u8] as MD<'static>>::spec_serialize(v.verify_token),
{
}

/// A `SuccessResponse` is written as its fields in the protocol's order: `uuid` and `username`.
pub proof fn lemma_success_response_layout(v: crate::protocol::common_states::login::SuccessResponseView)
    ensures
        <crate::protocol::common_states::login::SuccessResponse<'static> as MD<'static>>::spec_serialize(v) == <u128 as MD<'static>>::spec_serialize(v.uuid) + <&'static str as MD<'static>>::spec_serialize(v.username),
{
}

/// A `CompressResponse` is written as its fields in the protocol's order: `threshold`.
pub proof fn lemma_compress_response_layout(v: crate::protocol::common_states::login::CompressResponse)
    ensures
        <crate::protocol::common_states::login::CompressResponse as MD<'static>>::spec_serialize(v) == varint_bytes(v.threshold as u32),
{
}

/// A `LoginPluginRequest` is written as its fields in the protocol's order: `message_id`, `channel` and `data`.
pub proof fn lemma_login_plugin_request_layout(v: crate::protocol::common_states::login::LoginPluginRequestView)
    ensures
        <crate::protocol::common_states::login::LoginPluginRequest<'static> as MD<'static>>::spec_serialize(v) == varint_bytes(v.message_id as u32) + <&'static str as MD<'static>>::spec_serialize(v.channel) + v.data,
{
}

} // verus!
