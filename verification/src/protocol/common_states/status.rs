//! Packets of the status state.
#![allow(non_camel_case_types)]
#![allow(unused_imports)]
use crate::bytes::{push_slice, ParseError};
use crate::protocol::de::{lemma_slice_deep_view, lemma_write_after_header, lemma_write_next, Position, MD};
use crate::protocol::varint::{read_varint, read_varlong, varint_bytes, varlong_bytes, write_varint, write_varlong};
use crate::protocol::{
    lemma_varint_field_roundtrip, lemma_varlong_field_roundtrip, read_array, read_i64_slice, read_rest,
    read_varint_array, read_varlong_array, rest_field, spec_array, spec_i64_slice, spec_varint_array,
    spec_varlong_array, varint_field, varlong_field, ChunkBlockEntity, ChunkBlockEntityView, IndexedNbt,
    IndexedOptionNbt, InventorySlot, InventorySlotDataView, UnalignedSliceI64,
};
use vstd::prelude::*;
use vstd::seq_lib::lemma_concat_associative;

verus! {


/// Packet `0x0` of the status state, sent by the client.
#[derive(Debug)]
pub struct PingStartRequest {}

impl DeepView for PingStartRequest {
    type V = PingStartRequest;

    open spec fn deep_view(&self) -> PingStartRequest {
        *self
    }
}

impl<'x> MD<'x> for PingStartRequest {
    open spec fn spec_deserialize(s0: Seq<u8>) -> Option<(PingStartRequest, Seq<u8>)> {
        Some((PingStartRequest {}, s0))
    }

    open spec fn serializable() -> bool {
        true
    }

    open spec fn spec_header() -> Seq<u8> {
        varint_bytes(0x0)
    }

    open spec fn takes_rest() -> bool {
        false
    }

    open spec fn spec_serialize(v: PingStartRequest) -> Seq<u8> {
        Seq::empty()
    }

    open spec fn encodable(v: PingStartRequest) -> bool {
        Self::serializable()
    }

    proof fn lemma_roundtrip(v: PingStartRequest, rest: Seq<u8>) {
        assert(Seq::<u8>::empty() + rest =~= rest);
    }

    fn deserialize(memory: &mut &'x [u8]) -> (res: Result<PingStartRequest, ParseError>) {
        Ok(PingStartRequest {})
    }

    fn serialize(&self, writer: &mut Vec<u8>) {
        let ghost v = self.deep_view();
        write_varint(writer, 0x0);
        let ghost a = writer@;
        assert(old(writer)@ + Self::spec_header() =~= a);
        assert(a + Self::spec_serialize(v) =~= a);
    }
}

/// Packet `0x1` of the status state, sent by the client.
#[derive(Debug)]
pub struct PingRequest {
    pub time: i64,
}

impl DeepView for PingRequest {
    type V = PingRequest;

    open spec fn deep_view(&self) -> PingRequest {
        *self
    }
}

impl<'x> MD<'x> for PingRequest {
    open spec fn spec_deserialize(s0: Seq<u8>) -> Option<(PingRequest, Seq<u8>)> {
        match <i64 as MD<'x>>::spec_deserialize(s0) {
            Some((time, s1)) => {
                Some((PingRequest { time }, s1))
            },
            None => None,
        }
    }

    open spec fn serializable() -> bool {
        <i64 as MD<'x>>::serializable()
    }

    open spec fn spec_header() -> Seq<u8> {
        varint_bytes(0x1)
    }

    open spec fn takes_rest() -> bool {
        false
    }

    open spec fn spec_serialize(v: PingRequest) -> Seq<u8> {
        <i64 as MD<'x>>::spec_serialize(v.time)
    }

    open spec fn encodable(v: PingRequest) -> bool {
        Self::serializable() && <i64 as MD<'x>>::encodable(v.time)
    }

    proof fn lemma_roundtrip(v: PingRequest, rest: Seq<u8>) {
        let b0 = <i64 as MD<'x>>::spec_serialize(v.time);
        let t1 = rest;
        let t0 = b0 + t1;
        assert(Self::spec_serialize(v) + rest == t0);
        <i64 as MD<'x>>::lemma_roundtrip(v.time, t1);
    }

    fn deserialize(memory: &mut &'x [u8]) -> (res: Result<PingRequest, ParseError>) {
        let time: i64 = <i64 as MD<'x>>::deserialize(memory)?;
        Ok(PingRequest { time })
    }

    fn serialize(&self, writer: &mut Vec<u8>) {
        let ghost v = self.deep_view();
        write_varint(writer, 0x1);
        let ghost a = writer@;
        assert(old(writer)@ + Self::spec_header() =~= a);
        self.time.serialize(writer);
        proof {
            lemma_write_after_header(a, <i64 as MD<'x>>::spec_header(), <i64 as MD<'x>>::spec_serialize(v.time));
        }
    }
}

/// Packet `0x0` of the status state, sent by the server.
#[derive(Debug)]
pub struct ServerInfoResponse<'x> {
    pub response: &'x str,
}

/// What a `ServerInfoResponse` holds.
pub struct ServerInfoResponseView {
    pub response: Seq<char>,
}

impl<'x> DeepView for ServerInfoResponse<'x> {
    type V = ServerInfoResponseView;

    open spec fn deep_view(&self) -> ServerInfoResponseView {
        ServerInfoResponseView { response: self.response.deep_view() }
    }
}

impl<'x> MD<'x> for ServerInfoResponse<'x> {
    open spec fn spec_deserialize(s0: Seq<u8>) -> Option<(ServerInfoResponseView, Seq<u8>)> {
        match <&'x str as MD<'x>>::spec_deserialize(s0) {
            Some((response, s1)) => {
                Some((ServerInfoResponseView { response }, s1))
            },
            None => None,
        }
    }

    open spec fn serializable() -> bool {
        <&'x str as MD<'x>>::serializable()
    }

    open spec fn spec_header() -> Seq<u8> {
        varint_bytes(0x0)
    }

    open spec fn takes_rest() -> bool {
        false
    }

    open spec fn spec_serialize(v: ServerInfoResponseView) -> Seq<u8> {
        <&'x str as MD<'x>>::spec_serialize(v.response)
    }

    open spec fn encodable(v: ServerInfoResponseView) -> bool {
        Self::serializable() && <&'x str as MD<'x>>::encodable(v.response)
    }

    proof fn lemma_roundtrip(v: ServerInfoResponseView, rest: Seq<u8>) {
        let b0 = <&'x str as MD<'x>>::spec_serialize(v.response);
        let t1 = rest;
        let t0 = b0 + t1;
        assert(Self::spec_serialize(v) + rest == t0);
        <&'x str as MD<'x>>::lemma_roundtrip(v.response, t1);
    }

    fn deserialize(memory: &mut &'x [u8]) -> (res: Result<ServerInfoResponse<'x>, ParseError>) {
        let response: &'x str = <&'x str as MD<'x>>::deserialize(memory)?;
        Ok(ServerInfoResponse { response })
    }

    fn serialize(&self, writer: &mut Vec<u8>) {
        let ghost v = self.deep_view();
        write_varint(writer, 0x0);
        let ghost a = writer@;
        assert(old(writer)@ + Self::spec_header() =~= a);
        self.response.serialize(writer);
        proof {
            lemma_write_after_header(a, <&'x str as MD<'x>>::spec_header(), <&'x str as MD<'x>>::spec_serialize(v.response));
        }
    }
}

/// Packet `0x1` of the status state, sent by the server.
#[derive(Debug)]
pub struct PingResponse {
    pub time: i64,
}

impl DeepView for PingResponse {
    type V = PingResponse;

    open spec fn deep_view(&self) -> PingResponse {
        *self
    }
}

impl<'x> MD<'x> for PingResponse {
    open spec fn spec_deserialize(s0: Seq<u8>) -> Option<(PingResponse, Seq<u8>)> {
        match <i64 as MD<'x>>::spec_deserialize(s0) {
            Some((time, s1)) => {
                Some((PingResponse { time }, s1))
            },
            None => None,
        }
    }

    open spec fn serializable() -> bool {
        <i64 as MD<'x>>::serializable()
    }

    open spec fn spec_header() -> Seq<u8> {
        varint_bytes(0x1)
    }

    open spec fn takes_rest() -> bool {
        false
    }

    open spec fn spec_serialize(v: PingResponse) -> Seq<u8> {
        <i64 as MD<'x>>::spec_serialize(v.time)
    }

    open spec fn encodable(v: PingResponse) -> bool {
        Self::serializable() && <i64 as MD<'x>>::encodable(v.time)
    }

    proof fn lemma_roundtrip(v: PingResponse, rest: Seq<u8>) {
        let b0 = <i64 as MD<'x>>::spec_serialize(v.time);
        let t1 = rest;
        let t0 = b0 + t1;
        assert(Self::spec_serialize(v) + rest == t0);
        <i64 as MD<'x>>::lemma_roundtrip(v.time, t1);
    }

    fn deserialize(memory: &mut &'x [u8]) -> (res: Result<PingResponse, ParseError>) {
        let time: i64 = <i64 as MD<'x>>::deserialize(memory)?;
        Ok(PingResponse { time })
    }

    fn serialize(&self, writer: &mut Vec<u8>) {
        let ghost v = self.deep_view();
        write_varint(writer, 0x1);
        let ghost a = writer@;
        assert(old(writer)@ + Self::spec_header() =~= a);
        self.time.serialize(writer);
        proof {
            lemma_write_after_header(a, <i64 as MD<'x>>::spec_header(), <i64 as MD<'x>>::spec_serialize(v.time));
        }
    }
}

} // verus!
