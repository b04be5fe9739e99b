//! Packets of the handshaking state.
#![allow(non_camel_case_types)]
#![allow(unused_imports)]
use crate::bytes::{push_slice, ParseError};
use crate::protocol::de::{lemma_slice_deep_view, lemma_write_after_header, lemma_write_next, Position, MD};
use crate::protocol::varint::{read_varint, read_varlong, varint_bytes, varlong_bytes, write_varint, write_varlong};
use crate::protocol::{
    lemma_varint_field_roundtrip, lemma_varlong_field_roundtrip, read_array, read_i64_slice, read_rest,
    read_varint_array, read_varlong_array, rest_field, spec_array, spec_i64_slice, spec_varint_array,
    spec_varlong_array, varint_field, varlong_field, ChunkBlockEntity, ChunkBlockEntityView, IndexedNbt,
    IndexedOptionNbt, InventorySlot, InventorySlotDataView, UnalignedSliceI64,
};
use vstd::prelude::*;
use vstd::seq_lib::lemma_concat_associative;

verus! {


/// Packet `0x0` of the handshaking state, sent by the client.
#[derive(Debug)]
pub struct SetProtocolRequest<'x> {
    pub protocol_version: i32,
    pub server_host: &'x str,
    pub server_port: u16,
    pub next_state: i32,
}

/// What a `SetProtocolRequest` holds.
pub struct SetProtocolRequestView {
    pub protocol_version: i32,
    pub server_host: Seq<char>,
    pub server_port: u16,
    pub next_state: i32,
}

impl<'x> DeepView for SetProtocolRequest<'x> {
    type V = SetProtocolRequestView;

    open spec fn deep_view(&self) -> SetProtocolRequestView {
        SetProtocolRequestView { protocol_version: self.protocol_version, server_host: self.server_host.deep_view(), server_port: self.server_port, next_state: self.next_state }
    }
}

impl<'x> MD<'x> for SetProtocolRequest<'x> {
    open spec fn spec_deserialize(s0: Seq<u8>) -> Option<(SetProtocolRequestView, Seq<u8>)> {
        match varint_field(s0) {
            Some((protocol_version, s1)) => {
                match <&'x str as MD<'x>>::spec_deserialize(s1) {
                    Some((server_host, s2)) => {
                        match <u16 as MD<'x>>::spec_deserialize(s2) {
                            Some((server_port, s3)) => {
                                match varint_field(s3) {
                                    Some((next_state, s4)) => {
                                        Some((SetProtocolRequestView { protocol_version, server_host, server_port, next_state }, s4))
                                    },
                                    None => None,
                                }
                            },
                            None => None,
                        }
                    },
                    None => None,
                }
            },
            None => None,
        }
    }

    open spec fn serializable() -> bool {
        <&'x str as MD<'x>>::serializable() && <u16 as MD<'x>>::serializable()
    }

    open spec fn spec_header() -> Seq<u8> {
        varint_bytes(0x0)
    }

    open spec fn takes_rest() -> bool {
        false
    }

    open spec fn spec_serialize(v: SetProtocolRequestView) -> Seq<u8> {
        varint_bytes(v.protocol_version as u32) + <&'x str as MD<'x>>::spec_serialize(v.server_host) + <u16 as MD<'x>>::spec_serialize(v.server_port) + varint_bytes(v.next_state as u32)
    }

    open spec fn encodable(v: SetProtocolRequestView) -> bool {
        Self::serializable() && <&'x str as MD<'x>>::encodable(v.server_host) && <u16 as MD<'x>>::encodable(v.server_port)
    }

    proof fn lemma_roundtrip(v: SetProtocolRequestView, rest: Seq<u8>) {
        let b0 = varint_bytes(v.protocol_version as u32);
        let b1 = <&'x str as MD<'x>>::spec_serialize(v.server_host);
        let b2 = <u16 as MD<'x>>::spec_serialize(v.server_port);
        let b3 = varint_bytes(v.next_state as u32);
        let t4 = rest;
        let t3 = b3 + t4;
        let t2 = b2 + t3;
        let t1 = b1 + t2;
        let t0 = b0 + t1;
        lemma_concat_associative(b0 + b1 + b2, b3, t4);
        lemma_concat_associative(b0 + b1, b2, t3);
        lemma_concat_associative(b0, b1, t2);
        lemma_varint_field_roundtrip(v.protocol_version, t1);
        <&'x str as MD<'x>>::lemma_roundtrip(v.server_host, t2);
        <u16 as MD<'x>>::lemma_roundtrip(v.server_port, t3);
        lemma_varint_field_roundtrip(v.next_state, t4);
    }

    fn deserialize(memory: &mut &'x [u8]) -> (res: Result<SetProtocolRequest<'x>, ParseError>) {
        let protocol_version: i32 = read_varint(memory)?;
        let server_host: &'x str = <&'x str as MD<'x>>::deserialize(memory)?;
        let server_port: u16 = <u16 as MD<'x>>::deserialize(memory)?;
        let next_state: i32 = read_varint(memory)?;
        Ok(SetProtocolRequest { protocol_version, server_host, server_port, next_state })
    }

    fn serialize(&self, writer: &mut Vec<u8>) {
        let ghost v = self.deep_view();
        write_varint(writer, 0x0);
        let ghost a = writer@;
        assert(old(writer)@ + Self::spec_header() =~= a);
        write_varint(writer, self.protocol_version as u32);
        self.server_host.serialize(writer);
        proof {
            lemma_write_next(a, varint_bytes(v.protocol_version as u32), <&'x str as MD<'x>>::spec_header(), <&'x str as MD<'x>>::spec_serialize(v.server_host));
        }
        self.server_port.serialize(writer);
        proof {
            lemma_write_next(a, varint_bytes(v.protocol_version as u32) + <&'x str as MD<'x>>::spec_serialize(v.server_host), <u16 as MD<'x>>::spec_header(), <u16 as MD<'x>>::spec_serialize(v.server_port));
        }
        write_varint(writer, self.next_state as u32);
        proof {
            lemma_concat_associative(a, varint_bytes(v.protocol_version as u32) + <&'x str as MD<'x>>::spec_serialize(v.server_host) + <u16 as MD<'x>>::spec_serialize(v.server_port), varint_bytes(v.next_state as u32));
        }
    }
}

/// Packet `0xfe` of the handshaking state, sent by the client.
#[derive(Debug)]
pub struct LegacyServerListPingRequest {
    pub payload: u8,
}

impl DeepView for LegacyServerListPingRequest {
    type V = LegacyServerListPingRequest;

    open spec fn deep_view(&self) -> LegacyServerListPingRequest {
        *self
    }
}

impl<'x> MD<'x> for LegacyServerListPingRequest {
    open spec fn spec_deserialize(s0: Seq<u8>) -> Option<(LegacyServerListPingRequest, Seq<u8>)> {
        match <u8 as MD<'x>>::spec_deserialize(s0) {
            Some((payload, s1)) => {
                Some((LegacyServerListPingRequest { payload }, s1))
            },
            None => None,
        }
    }

    open spec fn serializable() -> bool {
        <u8 as MD<'x>>::serializable()
    }

    open spec fn spec_header() -> Seq<u8> {
        varint_bytes(0xfe)
    }

    open spec fn takes_rest() -> bool {
        false
    }

    open spec fn spec_serialize(v: LegacyServerListPingRequest) -> Seq<u8> {
        <u8 as MD<'x>>::spec_serialize(v.payload)
    }

    open spec fn encodable(v: LegacyServerListPingRequest) -> bool {
        Self::serializable() && <u8 as MD<'x>>::encodable(v.payload)
    }

    proof fn lemma_roundtrip(v: LegacyServerListPingRequest, rest: Seq<u8>) {
        let b0 = <u8 as MD<'x>>::spec_serialize(v.payload);
        let t1 = rest;
        let t0 = b0 + t1;
        assert(Self::spec_serialize(v) + rest == t0);
        <u8 as MD<'x>>::lemma_roundtrip(v.payload, t1);
    }

    fn deserialize(memory: &mut &'x [u8]) -> (res: Result<LegacyServerListPingRequest, ParseError>) {
        let payload: u8 = <u8 as MD<'x>>::deserialize(memory)?;
        Ok(LegacyServerListPingRequest { payload })
    }

    fn serialize(&self, writer: &mut Vec<u8>) {
        let ghost v = self.deep_view();
        write_varint(writer, 0xfe);
        let ghost a = writer@;
        assert(old(writer)@ + Self::spec_header() =~= a);
        self.payload.serialize(writer);
        proof {
            lemma_write_after_header(a, <u8 as MD<'x>>::spec_header(), <u8 as MD<'x>>::spec_serialize(v.payload));
        }
    }
}

} // verus!
