//! Packets of the login state.
#![allow(non_camel_case_types)]
#![allow(unused_imports)]
use crate::bytes::{push_slice, ParseError};
use crate::protocol::de::{lemma_slice_deep_view, lemma_write_after_header, lemma_write_next, Position, MD};
use crate::protocol::varint::{read_varint, read_varlong, varint_bytes, varlong_bytes, write_varint, write_varlong};
use crate::protocol::{
    lemma_varint_field_roundtrip, lemma_varlong_field_roundtrip, read_array, read_i64_slice, read_rest,
    read_varint_array, read_varlong_array, rest_field, spec_array, spec_i64_slice, spec_varint_array,
    spec_varlong_array, varint_field, varlong_field, ChunkBlockEntity, ChunkBlockEntityView, IndexedNbt,
    IndexedOptionNbt, InventorySlot, InventorySlotDataView, UnalignedSliceI64,
};
use vstd::prelude::*;
use vstd::seq_lib::lemma_concat_associative;

verus! {


/// Packet `0x0` of the login state, sent by the client.
#[derive(Debug)]
pub struct LoginStartRequest<'x> {
    pub username: &'x str,
}

/// What a `LoginStartRequest` holds.
pub struct LoginStartRequestView {
    pub username: Seq<char>,
}

impl<'x> DeepView for LoginStartRequest<'x> {
    type V = LoginStartRequestView;

    open spec fn deep_view(&self) -> LoginStartRequestView {
        LoginStartRequestView { username: self.username.deep_view() }
    }
}

impl<'x> MD<'x> for LoginStartRequest<'x> {
    open spec fn spec_deserialize(s0: Seq<u8>) -> Option<(LoginStartRequestView, Seq<u8>)> {
        match <&'x str as MD<'x>>::spec_deserialize(s0) {
            Some((username, s1)) => {
                Some((LoginStartRequestView { username }, s1))
            },
            None => None,
        }
    }

    open spec fn serializable() -> bool {
        <&'x str as MD<'x>>::serializable()
    }

    open spec fn spec_header() -> Seq<u8> {
        varint_bytes(0x0)
    }

    open spec fn takes_rest() -> bool {
        false
    }

    open spec fn spec_serialize(v: LoginStartRequestView) -> Seq<u8> {
        <&'x str as MD<'x>>::spec_serialize(v.username)
    }

    open spec fn encodable(v: LoginStartRequestView) -> bool {
        Self::serializable() && <&'x str as MD<'x>>::encodable(v.username)
    }

    proof fn lemma_roundtrip(v: LoginStartRequestView, rest: Seq<u8>) {
        let b0 = <&'x str as MD<'x>>::spec_serialize(v.username);
        let t1 = rest;
        let t0 = b0 + t1;
        assert(Self::spec_serialize(v) + rest == t0);
        <&'x str as MD<'x>>::lemma_roundtrip(v.username, t1);
    }

    fn deserialize(memory: &mut &'x [u8]) -> (res: Result<LoginStartRequest<'x>, ParseError>) {
        let username: &'x str = <&'x str as MD<'x>>::deserialize(memory)?;
        Ok(LoginStartRequest { username })
    }

    fn serialize(&self, writer: &mut Vec<u8>) {
        let ghost v = self.deep_view();
        write_varint(writer, 0x0);
        let ghost a = writer@;
        assert(old(writer)@ + Self::spec_header() =~= a);
        self.username.serialize(writer);
        proof {
            lemma_write_after_header(a, <&'x str as MD<'x>>::spec_header(), <&'x str as MD<'x>>::spec_serialize(v.username));
        }
    }
}

/// Packet `0x1` of the login state, sent by the client.
#[derive(Debug)]
pub struct EncryptionBeginRequest<'x> {
    pub shared_secret: &'x [u8],
    pub verify_token: &'x [u8],
}

/// What a `EncryptionBeginRequest` holds.
pub struct EncryptionBeginRequestView {
    pub shared_secret: Seq<u8>,
    pub verify_token: Seq<u8>,
}

impl<'x> DeepView for EncryptionBeginRequest<'x> {
    type V = EncryptionBeginRequestView;

    open spec fn deep_view(&self) -> EncryptionBeginRequestView {
        EncryptionBeginRequestView { shared_secret: self.shared_secret.deep_view(), verify_token: self.verify_token.deep_view() }
    }
}

impl<'x> MD<'x> for EncryptionBeginRequest<'x> {
    open spec fn spec_deserialize(s0: Seq<u8>) -> Option<(EncryptionBeginRequestView, Seq<u8>)> {
        match <&'x [u8] as MD<'x>>::spec_deserialize(s0) {
            Some((shared_secret, s1)) => {
                match <&'x [u8] as MD<'x>>::spec_deserialize(s1) {
                    Some((verify_token, s2)) => {
                        Some((EncryptionBeginRequestView { shared_secret, verify_token }, s2))
                    },
                    None => None,
                }
            },
            None => None,
        }
    }

    open spec fn serializable() -> bool {
        <&'x [u8] as MD<'x>>::serializable() && <&'x [u8] as MD<'x>>::serializable()
    }

    open spec fn spec_header() -> Seq<u8> {
        varint_bytes(0x1)
    }

    open spec fn takes_rest() -> bool {
        false
    }

    open spec fn spec_serialize(v: EncryptionBeginRequestView) -> Seq<u8> {
        <&'x [u8] as MD<'x>>::spec_serialize(v.shared_secret) + <&'x [u8] as MD<'x>>::spec_serialize(v.verify_token)
    }

    open spec fn encodable(v: EncryptionBeginRequestView) -> bool {
        Self::serializable() && <&'x [u8] as MD<'x>>::encodable(v.shared_secret) && <&'x [u8] as MD<'x>>::encodable(v.verify_token)
    }

    proof fn lemma_roundtrip(v: EncryptionBeginRequestView, rest: Seq<u8>) {
        let b0 = <&'x [u8] as MD<'x>>::spec_serialize(v.shared_secret);
        let b1 = <&'x [u8] as MD<'x>>::spec_serialize(v.verify_token);
        let t2 = rest;
        let t1 = b1 + t2;
        let t0 = b0 + t1;
        lemma_concat_associative(b0, b1, t2);
        <&'x [u8] as MD<'x>>::lemma_roundtrip(v.shared_secret, t1);
        <&'x [u8] as MD<'x>>::lemma_roundtrip(v.verify_token, t2);
    }

    fn deserialize(memory: &mut &'x [u8]) -> (res: Result<EncryptionBeginRequest<'x>, ParseError>) {
        let shared_secret: &'x [u8] = <&'x [u8] as MD<'x>>::deserialize(memory)?;
        let verify_token: &'x [u8] = <&'x [u8] as MD<'x>>::deserialize(memory)?;
        Ok(EncryptionBeginRequest { shared_secret, verify_token })
    }

    fn serialize(&self, writer: &mut Vec<u8>) {
        let ghost v = self.deep_view();
        write_varint(writer, 0x1);
        let ghost a = writer@;
        assert(old(writer)@ + Self::spec_header() =~= a);
        self.shared_secret.serialize(writer);
        proof {
            lemma_write_after_header(a, <&'x [u8] as MD<'x>>::spec_header(), <&'x [u8] as MD<'x>>::spec_serialize(v.shared_secret));
        }
        self.verify_token.serialize(writer);
        proof {
            lemma_write_next(a, <&'x [u8] as MD<'x>>::spec_serialize(v.shared_secret), <&'x [u8] as MD<'x>>::spec_header(), <&'x [u8] as MD<'x>>::spec_serialize(v.verify_token));
        }
    }
}

/// Packet `0x2` of the login state, sent by the client.
#[derive(Debug)]
pub struct LoginPluginResponse<'x> {
    pub message_id: i32,
    pub data: Option<&'x [u8]>,
}

/// What a `LoginPluginResponse` holds.
pub struct LoginPluginResponseView {
    pub message_id: i32,
    pub data: Option<Seq<u8>>,
}

impl<'x> DeepView for LoginPluginResponse<'x> {
    type V = LoginPluginResponseView;

    open spec fn deep_view(&self) -> LoginPluginResponseView {
        LoginPluginResponseView { message_id: self.message_id, data: self.data.deep_view() }
    }
}

impl<'x> MD<'x> for LoginPluginResponse<'x> {
    open spec fn spec_deserialize(s0: Seq<u8>) -> Option<(LoginPluginResponseView, Seq<u8>)> {
        match varint_field(s0) {
            Some((message_id, s1)) => {
                match <Option<&'x [u8]> as MD<'x>>::spec_deserialize(s1) {
                    Some((data, s2)) => {
                        Some((LoginPluginResponseView { message_id, data }, s2))
                    },
                    None => None,
                }
            },
            None => None,
        }
    }

    open spec fn serializable() -> bool {
        <Option<&'x [u8]> as MD<'x>>::serializable()
    }

    open spec fn spec_header() -> Seq<u8> {
        varint_bytes(0x2)
    }

    open spec fn takes_rest() -> bool {
        false
    }

    open spec fn spec_serialize(v: LoginPluginResponseView) -> Seq<u8> {
        varint_bytes(v.message_id as u32) + <Option<&'x [u8]> as MD<'x>>::spec_serialize(v.data)
    }

    open spec fn encodable(v: LoginPluginResponseView) -> bool {
        Self::serializable() && <Option<&'x [u8]> as MD<'x>>::encodable(v.data)
    }

    proof fn lemma_roundtrip(v: LoginPluginResponseView, rest: Seq<u8>) {
        let b0 = varint_bytes(v.message_id as u32);
        let b1 = <Option<&'x [u8]> as MD<'x>>::spec_serialize(v.data);
        let t2 = rest;
        let t1 = b1 + t2;
        let t0 = b0 + t1;
        lemma_concat_associative(b0, b1, t2);
        lemma_varint_field_roundtrip(v.message_id, t1);
        <Option<&'x [u8]> as MD<'x>>::lemma_roundtrip(v.data, t2);
    }

    fn deserialize(memory: &mut &'x [u8]) -> (res: Result<LoginPluginResponse<'x>, ParseError>) {
        let message_id: i32 = read_varint(memory)?;
        let data: Option<&'x [u8]> = <Option<&'x [u8]> as MD<'x>>::deserialize(memory)?;
        Ok(LoginPluginResponse { message_id, data })
    }

    fn serialize(&self, writer: &mut Vec<u8>) {
        let ghost v = self.deep_view();
        write_varint(writer, 0x2);
        let ghost a = writer@;
        assert(old(writer)@ + Self::spec_header() =~= a);
        write_varint(writer, self.message_id as u32);
        self.data.serialize(writer);
        proof {
            lemma_write_next(a, varint_bytes(v.message_id as u32), <Option<&'x [u8]> as MD<'x>>::spec_header(), <Option<&'x [u8]> as MD<'x>>::spec_serialize(v.data));
        }
    }
}

/// Packet `0x0` of the login state, sent by the server.
#[derive(Debug)]
pub struct DisconnectResponse<'x> {
    pub reason: &'x str,
}

/// What a `DisconnectResponse` holds.
pub struct DisconnectResponseView {
    pub reason: Seq<char>,
}

impl<'x> DeepView for DisconnectResponse<'x> {
    type V = DisconnectResponseView;

    open spec fn deep_view(&self) -> DisconnectResponseView {
        DisconnectResponseView { reason: self.reason.deep_view() }
    }
}

impl<'x> MD<'x> for DisconnectResponse<'x> {
    open spec fn spec_deserialize(s0: Seq<u8>) -> Option<(DisconnectResponseView, Seq<u8>)> {
        match <&'x str as MD<'x>>::spec_deserialize(s0) {
            Some((reason, s1)) => {
                Some((DisconnectResponseView { reason }, s1))
            },
            None => None,
        }
    }

    open spec fn serializable() -> bool {
        <&'x str as MD<'x>>::serializable()
    }

    open spec fn spec_header() -> Seq<u8> {
        varint_bytes(0x0)
    }

    open spec fn takes_rest() -> bool {
        false
    }

    open spec fn spec_serialize(v: DisconnectResponseView) -> Seq<u8> {
        <&'x str as MD<'x>>::spec_serialize(v.reason)
    }

    open spec fn encodable(v: DisconnectResponseView) -> bool {
        Self::serializable() && <&'x str as MD<'x>>::encodable(v.reason)
    }

    proof fn lemma_roundtrip(v: DisconnectResponseView, rest: Seq<u8>) {
        let b0 = <&'x str as MD<'x>>::spec_serialize(v.reason);
        let t1 = rest;
        let t0 = b0 + t1;
        assert(Self::spec_serialize(v) + rest == t0);
        <&'x str as MD<'x>>::lemma_roundtrip(v.reason, t1);
    }

    fn deserialize(memory: &mut &'x [u8]) -> (res: Result<DisconnectResponse<'x>, ParseError>) {
        let reason: &'x str = <&'x str as MD<'x>>::deserialize(memory)?;
        Ok(DisconnectResponse { reason })
    }

    fn serialize(&self, writer: &mut Vec<u8>) {
        let ghost v = self.deep_view();
        write_varint(writer, 0x0);
        let ghost a = writer@;
        assert(old(writer)@ + Self::spec_header() =~= a);
        self.reason.serialize(writer);
        proof {
            lemma_write_after_header(a, <&'x str as MD<'x>>::spec_header(), <&'x str as MD<'x>>::spec_serialize(v.reason));
        }
    }
}

/// Packet `0x1` of the login state, sent by the server.
#[derive(Debug)]
pub struct EncryptionBeginResponse<'x> {
    pub server_id: &'x str,
    pub public_key: &'x [u8],
    pub verify_token: &'x [u8],
}

/// What a `EncryptionBeginResponse` holds.
pub struct EncryptionBeginResponseView {
    pub server_id: Seq<char>,
    pub public_key: Seq<u8>,
    pub verify_token: Seq<u8>,
}

impl<'x> DeepView for EncryptionBeginResponse<'x> {
    type V = EncryptionBeginResponseView;

    open spec fn deep_view(&self) -> EncryptionBeginResponseView {
        EncryptionBeginResponseView { server_id: self.server_id.deep_view(), public_key: self.public_key.deep_view(), verify_token: self.verify_token.deep_view() }
    }
}

impl<'x> MD<'x> for EncryptionBeginResponse<'x> {
    open spec fn spec_deserialize(s0: Seq<u8>) -> Option<(EncryptionBeginResponseView, Seq<u8>)> {
        match <&'x str as MD<'x>>::spec_deserialize(s0) {
            Some((server_id, s1)) => {
                match <&'x [u8] as MD<'x>>::spec_deserialize(s1) {
                    Some((public_key, s2)) => {
                        match <&'x [u8] as MD<'x>>::spec_deserialize(s2) {
                            Some((verify_token, s3)) => {
                                Some((EncryptionBeginResponseView { server_id, public_key, verify_token }, s3))
                            },
                            None => None,
                        }
                    },
                    None => None,
                }
            },
            None => None,
        }
    }

    open spec fn serializable() -> bool {
        <&'x str as MD<'x>>::serializable() && <&'x [u8] as MD<'x>>::serializable() && <&'x [u8] as MD<'x>>::serializable()
    }

    open spec fn spec_header() -> Seq<u8> {
        varint_bytes(0x1)
    }

    open spec fn takes_rest() -> bool {
        false
    }

    open spec fn spec_serialize(v: EncryptionBeginResponseView) -> Seq<u8> {
        <&'x str as MD<'x>>::spec_serialize(v.server_id) + <&'x [u8] as MD<'x>>::spec_serialize(v.public_key) + <&'x [u8] as MD<'x>>::spec_serialize(v.verify_token)
    }

    open spec fn encodable(v: EncryptionBeginResponseView) -> bool {
        Self::serializable() && <&'x str as MD<'x>>::encodable(v.server_id) && <&'x [u8] as MD<'x>>::encodable(v.public_key) && <&'x [u8] as MD<'x>>::encodable(v.verify_token)
    }

    proof fn lemma_roundtrip(v: EncryptionBeginResponseView, rest: Seq<u8>) {
        let b0 = <&'x str as MD<'x>>::spec_serialize(v.server_id);
        let b1 = <&'x [u8] as MD<'x>>::spec_serialize(v.public_key);
        let b2 = <&'x [u8] as MD<'x>>::spec_serialize(v.verify_token);
        let t3 = rest;
        let t2 = b2 + t3;
        let t1 = b1 + t2;
        let t0 = b0 + t1;
        lemma_concat_associative(b0 + b1, b2, t3);
        lemma_concat_associative(b0, b1, t2);
        <&'x str as MD<'x>>::lemma_roundtrip(v.server_id, t1);
        <&'x [u8] as MD<'x>>::lemma_roundtrip(v.public_key, t2);
        <&'x [u8] as MD<'x>>::lemma_roundtrip(v.verify_token, t3);
    }

    fn deserialize(memory: &mut &'x [u8]) -> (res: Result<EncryptionBeginResponse<'x>, ParseError>) {
        let server_id: &'x str = <&'x str as MD<'x>>::deserialize(memory)?;
        let public_key: &'x [u8] = <&'x [u8] as MD<'x>>::deserialize(memory)?;
        let verify_token: &'x [u8] = <&'x [u8] as MD<'x>>::deserialize(memory)?;
        Ok(EncryptionBeginResponse { server_id, public_key, verify_token })
    }

    fn serialize(&self, writer: &mut Vec<u8>) {
        let ghost v = self.deep_view();
        write_varint(writer, 0x1);
        let ghost a = writer@;
        assert(old(writer)@ + Self::spec_header() =~= a);
        self.server_id.serialize(writer);
        proof {
            lemma_write_after_header(a, <&'x str as MD<'x>>::spec_header(), <&'x str as MD<'x>>::spec_serialize(v.server_id));
        }
        self.public_key.serialize(writer);
        proof {
            lemma_write_next(a, <&'x str as MD<'x>>::spec_serialize(v.server_id), <&'x [u8] as MD<'x>>::spec_header(), <&'x [u8] as MD<'x>>::spec_serialize(v.public_key));
        }
        self.verify_token.serialize(writer);
        proof {
            lemma_write_next(a, <&'x str as MD<'x>>::spec_serialize(v.server_id) + <&'x [u8] as MD<'x>>::spec_serialize(v.public_key), <&'x [u8] as MD<'x>>::spec_header(), <&'x [u8] as MD<'x>>::spec_serialize(v.verify_token));
        }
    }
}

/// Packet `0x2` of the login state, sent by the server.
#[derive(Debug)]
pub struct SuccessResponse<'x> {
    pub uuid: u128,
    pub username: &'x str,
}

/// What a `SuccessResponse` holds.
pub struct SuccessResponseView {
    pub uuid: u128,
    pub username: Seq<char>,
}

impl<'x> DeepView for SuccessResponse<'x> {
    type V = SuccessResponseView;

    open spec fn deep_view(&self) -> SuccessResponseView {
        SuccessResponseView { uuid: self.uuid, username: self.username.deep_view() }
    }
}

impl<'x> MD<'x> for SuccessResponse<'x> {
    open spec fn spec_deserialize(s0: Seq<u8>) -> Option<(SuccessResponseView, Seq<u8>)> {
        match <u128 as MD<'x>>::spec_deserialize(s0) {
            Some((uuid, s1)) => {
                match <&'x str as MD<'x>>::spec_deserialize(s1) {
                    Some((username, s2)) => {
                        Some((SuccessResponseView { uuid, username }, s2))
                    },
                    None => None,
                }
            },
            None => None,
        }
    }

    open spec fn serializable() -> bool {
        <u128 as MD<'x>>::serializable() && <&'x str as MD<'x>>::serializable()
    }

    open spec fn spec_header() -> Seq<u8> {
        varint_bytes(0x2)
    }

    open spec fn takes_rest() -> bool {
        false
    }

    open spec fn spec_serialize(v: SuccessResponseView) -> Seq<u8> {
        <u128 as MD<'x>>::spec_serialize(v.uuid) + <&'x str as MD<'x>>::spec_serialize(v.username)
    }

    open spec fn encodable(v: SuccessResponseView) -> bool {
        Self::serializable() && <u128 as MD<'x>>::encodable(v.uuid) && <&'x str as MD<'x>>::encodable(v.username)
    }

    proof fn lemma_roundtrip(v: SuccessResponseView, rest: Seq<u8>) {
        let b0 = <u128 as MD<'x>>::spec_serialize(v.uuid);
        let b1 = <&'x str as MD<'x>>::spec_serialize(v.username);
        let t2 = rest;
        let t1 = b1 + t2;
        let t0 = b0 + t1;
        lemma_concat_associative(b0, b1, t2);
        <u128 as MD<'x>>::lemma_roundtrip(v.uuid, t1);
        <&'x str as MD<'x>>::lemma_roundtrip(v.username, t2);
    }

    fn deserialize(memory: &mut &'x [u8]) -> (res: Result<SuccessResponse<'x>, ParseError>) {
        let uuid: u128 = <u128 as MD<'x>>::deserialize(memory)?;
        let username: &'x str = <&'x str as MD<'x>>::deserialize(memory)?;
        Ok(SuccessResponse { uuid, username })
    }

    fn serialize(&self, writer: &mut Vec<u8>) {
        let ghost v = self.deep_view();
        write_varint(writer, 0x2);
        let ghost a = writer@;
        assert(old(writer)@ + Self::spec_header() =~= a);
        self.uuid.serialize(writer);
        proof {
            lemma_write_after_header(a, <u128 as MD<'x>>::spec_header(), <u128 as MD<'x>>::spec_serialize(v.uuid));
        }
        self.username.serialize(writer);
        proof {
            lemma_write_next(a, <u128 as MD<'x>>::spec_serialize(v.uuid), <&'x str as MD<'x>>::spec_header(), <&'x str as MD<'x>>::spec_serialize(v.username));
        }
    }
}

/// Packet `0x3` of the login state, sent by the server.
#[derive(Debug)]
pub struct CompressResponse {
    pub threshold: i32,
}

impl DeepView for CompressResponse {
    type V = CompressResponse;

    open spec fn deep_view(&self) -> CompressResponse {
        *self
    }
}

impl<'x> MD<'x> for CompressResponse {
    open spec fn spec_deserialize(s0: Seq<u8>) -> Option<(CompressResponse, Seq<u8>)> {
        match varint_field(s0) {
            Some((threshold, s1)) => {
                Some((CompressResponse { threshold }, s1))
            },
            None => None,
        }
    }

    open spec fn serializable() -> bool {
        true
    }

    open spec fn spec_header() -> Seq<u8> {
        varint_bytes(0x3)
    }

    open spec fn takes_rest() -> bool {
        false
    }

    open spec fn spec_serialize(v: CompressResponse) -> Seq<u8> {
        varint_bytes(v.threshold as u32)
    }

    open spec fn encodable(v: CompressResponse) -> bool {
        Self::serializable()
    }

    proof fn lemma_roundtrip(v: CompressResponse, rest: Seq<u8>) {
        let b0 = varint_bytes(v.threshold as u32);
        let t1 = rest;
        let t0 = b0 + t1;
        assert(Self::spec_serialize(v) + rest == t0);
        lemma_varint_field_roundtrip(v.threshold, t1);
    }

    fn deserialize(memory: &mut &'x [u8]) -> (res: Result<CompressResponse, ParseError>) {
        let threshold: i32 = read_varint(memory)?;
        Ok(CompressResponse { threshold })
    }

    fn serialize(&self, writer: &mut Vec<u8>) {
        let ghost v = self.deep_view();
        write_varint(writer, 0x3);
        let ghost a = writer@;
        assert(old(writer)@ + Self::spec_header() =~= a);
        write_varint(writer, self.threshold as u32);
    }
}

/// Packet `0x4` of the login state, sent by the server.
#[derive(Debug)]
pub struct LoginPluginRequest<'x> {
    pub message_id: i32,
    pub channel: &'x str,
    pub data: &'x [u8],
}

/// What a `LoginPluginRequest` holds.
pub struct LoginPluginRequestView {
    pub message_id: i32,
    pub channel: Seq<char>,
    pub data: Seq<u8>,
}

impl<'x> DeepView for LoginPluginRequest<'x> {
    type V = LoginPluginRequestView;

    open spec fn deep_view(&self) -> LoginPluginRequestView {
        LoginPluginRequestView { message_id: self.message_id, channel: self.channel.deep_view(), data: self.data.deep_view() }
    }
}

impl<'x> MD<'x> for LoginPluginRequest<'x> {
    open spec fn spec_deserialize(s0: Seq<u8>) -> Option<(LoginPluginRequestView, Seq<u8>)> {
        match varint_field(s0) {
            Some((message_id, s1)) => {
                match <&'x str as MD<'x>>::spec_deserialize(s1) {
                    Some((channel, s2)) => {
                        match rest_field(s2) {
                            Some((data, s3)) => {
                                Some((LoginPluginRequestView { message_id, channel, data }, s3))
                            },
                            None => None,
                        }
                    },
                    None => None,
                }
            },
            None => None,
        }
    }

    open spec fn serializable() -> bool {
        <&'x str as MD<'x>>::serializable()
    }

    open spec fn spec_header() -> Seq<u8> {
        varint_bytes(0x4)
    }

    open spec fn takes_rest() -> bool {
        true
    }

    open spec fn spec_serialize(v: LoginPluginRequestView) -> Seq<u8> {
        varint_bytes(v.message_id as u32) + <&'x str as MD<'x>>::spec_serialize(v.channel) + v.data
    }

    open spec fn encodable(v: LoginPluginRequestView) -> bool {
        Self::serializable() && <&'x str as MD<'x>>::encodable(v.channel)
    }

    proof fn lemma_roundtrip(v: LoginPluginRequestView, rest: Seq<u8>) {
        let b0 = varint_bytes(v.message_id as u32);
        let b1 = <&'x str as MD<'x>>::spec_serialize(v.channel);
        let b2 = v.data;
        let t3 = rest;
        let t2 = b2 + t3;
        let t1 = b1 + t2;
        let t0 = b0 + t1;
        lemma_concat_associative(b0 + b1, b2, t3);
        lemma_concat_associative(b0, b1, t2);
        lemma_varint_field_roundtrip(v.message_id, t1);
        <&'x str as MD<'x>>::lemma_roundtrip(v.channel, t2);
        assert(b2 + rest =~= b2);
    }

    fn deserialize(memory: &mut &'x [u8]) -> (res: Result<LoginPluginRequest<'x>, ParseError>) {
        let message_id: i32 = read_varint(memory)?;
        let channel: &'x str = <&'x str as MD<'x>>::deserialize(memory)?;
        let data: &'x [u8] = read_rest(memory);
        Ok(LoginPluginRequest { message_id, channel, data })
    }

    fn serialize(&self, writer: &mut Vec<u8>) {
        let ghost v = self.deep_view();
        write_varint(writer, 0x4);
        let ghost a = writer@;
        assert(old(writer)@ + Self::spec_header() =~= a);
        write_varint(writer, self.message_id as u32);
        self.channel.serialize(writer);
        proof {
            lemma_write_next(a, varint_bytes(v.message_id as u32), <&'x str as MD<'x>>::spec_header(), <&'x str as MD<'x>>::spec_serialize(v.channel));
        }
        push_slice(writer, self.data);
        proof {
            lemma_slice_deep_view(self.data);
            lemma_concat_associative(a, varint_bytes(v.message_id as u32) + <&'x str as MD<'x>>::spec_serialize(v.channel), v.data);
        }
    }
}

} // verus!
