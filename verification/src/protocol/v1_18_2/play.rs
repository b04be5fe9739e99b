//! Packets of the play state.
#![allow(non_camel_case_types)]
#![allow(unused_imports)]
use crate::bytes::{push_slice, ParseError};
use crate::protocol::de::{lemma_slice_deep_view, lemma_write_after_header, lemma_write_next, Position, MD};
use crate::protocol::varint::{read_varint, read_varlong, varint_bytes, varlong_bytes, write_varint, write_varlong};
use crate::protocol::{
    lemma_varint_field_roundtrip, lemma_varlong_field_roundtrip, read_array, read_i64_slice, read_rest,
    read_varint_array, read_varlong_array, rest_field, spec_array, spec_i64_slice, spec_varint_array,
    spec_varlong_array, varint_field, varlong_field, ChunkBlockEntity, ChunkBlockEntityView, IndexedNbt,
    IndexedOptionNbt, InventorySlot, InventorySlotDataView, UnalignedSliceI64,
};
use vstd::prelude::*;
use vstd::seq_lib::lemma_concat_associative;

verus! {


/// Packet `0x0` of the play state, sent by the client.
#[derive(Debug)]
pub struct TeleportConfirmRequest {
    pub teleport_id: i32,
}

impl DeepView for TeleportConfirmRequest {
    type V = TeleportConfirmRequest;

    open spec fn deep_view(&self) -> TeleportConfirmRequest {
        *self
    }
}

impl<'x> MD<'x> for TeleportConfirmRequest {
    open spec fn spec_deserialize(s0: Seq<u8>) -> Option<(TeleportConfirmRequest, Seq<u8>)> {
        match varint_field(s0) {
            Some((teleport_id, s1)) => {
                Some((TeleportConfirmRequest { teleport_id }, s1))
            },
            None => None,
        }
    }

    open spec fn serializable() -> bool {
        true
    }

    open spec fn spec_header() -> Seq<u8> {
        varint_bytes(0x0)
    }

    open spec fn takes_rest() -> bool {
        false
    }

    open spec fn spec_serialize(v: TeleportConfirmRequest) -> Seq<u8> {
        varint_bytes(v.teleport_id as u32)
    }

    open spec fn encodable(v: TeleportConfirmRequest) -> bool {
        Self::serializable()
    }

    proof fn lemma_roundtrip(v: TeleportConfirmRequest, rest: Seq<u8>) {
        let b0 = varint_bytes(v.teleport_id as u32);
        let t1 = rest;
        let t0 = b0 + t1;
        assert(Self::spec_serialize(v) + rest == t0);
        lemma_varint_field_roundtrip(v.teleport_id, t1);
    }

    fn deserialize(memory: &mut &'x [u8]) -> (res: Result<TeleportConfirmRequest, ParseError>) {
        let teleport_id: i32 = read_varint(memory)?;
        Ok(TeleportConfirmRequest { teleport_id })
    }

    fn serialize(&self, writer: &mut Vec<u8>) {
        let ghost v = self.deep_view();
        write_varint(writer, 0x0);
        let ghost a = writer@;
        assert(old(writer)@ + Self::spec_header() =~= a);
        write_varint(writer, self.teleport_id as u32);
    }
}

/// Packet `0x1` of the play state, sent by the client.
#[derive(Debug)]
pub struct QueryBlockNbtRequest {
    pub transaction_id: i32,
    pub location: Position,
}

impl DeepView for QueryBlockNbtRequest {
    type V = QueryBlockNbtRequest;

    open spec fn deep_view(&self) -> QueryBlockNbtRequest {
        *self
    }
}

impl<'x> MD<'x> for QueryBlockNbtRequest {
    open spec fn spec_deserialize(s0: Seq<u8>) -> Option<(QueryBlockNbtRequest, Seq<u8>)> {
        match varint_field(s0) {
            Some((transaction_id, s1)) => {
                match <Position as MD<'x>>::spec_deserialize(s1) {
                    Some((location, s2)) => {
                        Some((QueryBlockNbtRequest { transaction_id, location }, s2))
                    },
                    None => None,
                }
            },
            None => None,
        }
    }

    open spec fn serializable() -> bool {
        <Position as MD<'x>>::serializable()
    }

    open spec fn spec_header() -> Seq<u8> {
        varint_bytes(0x1)
    }

    open spec fn takes_rest() -> bool {
        false
    }

    open spec fn spec_serialize(v: QueryBlockNbtRequest) -> Seq<u8> {
        varint_bytes(v.transaction_id as u32) + <Position as MD<'x>>::spec_serialize(v.location)
    }

    open spec fn encodable(v: QueryBlockNbtRequest) -> bool {
        Self::serializable() && <Position as MD<'x>>::encodable(v.location)
    }

    proof fn lemma_roundtrip(v: QueryBlockNbtRequest, rest: Seq<u8>) {
        let b0 = varint_bytes(v.transaction_id as u32);
        let b1 = <Position as MD<'x>>::spec_serialize(v.location);
        let t2 = rest;
        let t1 = b1 + t2;
        let t0 = b0 + t1;
        lemma_concat_associative(b0, b1, t2);
        lemma_varint_field_roundtrip(v.transaction_id, t1);
        <Position as MD<'x>>::lemma_roundtrip(v.location, t2);
    }

    fn deserialize(memory: &mut &'x [u8]) -> (res: Result<QueryBlockNbtRequest, ParseError>) {
        let transaction_id: i32 = read_varint(memory)?;
        let location: Position = <Position as MD<'x>>::deserialize(memory)?;
        Ok(QueryBlockNbtRequest { transaction_id, location })
    }

    fn serialize(&self, writer: &mut Vec<u8>) {
        let ghost v = self.deep_view();
        write_varint(writer, 0x1);
        let ghost a = writer@;
        assert(old(writer)@ + Self::spec_header() =~= a);
        write_varint(writer, self.transaction_id as u32);
        self.location.serialize(writer);
        proof {
            lemma_write_next(a, varint_bytes(v.transaction_id as u32), <Position as MD<'x>>::spec_header(), <Position as MD<'x>>::spec_serialize(v.location));
        }
    }
}

/// Packet `0x2` of the play state, sent by the client.
#[derive(Debug)]
pub struct SetDifficultyRequest {
    pub new_difficulty: u8,
}

impl DeepView for SetDifficultyRequest {
    type V = SetDifficultyRequest;

    open spec fn deep_view(&self) -> SetDifficultyRequest {
        *self
    }
}

impl<'x> MD<'x> for SetDifficultyRequest {
    open spec fn spec_deserialize(s0: Seq<u8>) -> Option<(SetDifficultyRequest, Seq<u8>)> {
        match <u8 as MD<'x>>::spec_deserialize(s0) {
            Some((new_difficulty, s1)) => {
                Some((SetDifficultyRequest { new_difficulty }, s1))
            },
            None => None,
        }
    }

    open spec fn serializable() -> bool {
        <u8 as MD<'x>>::serializable()
    }

    open spec fn spec_header() -> Seq<u8> {
        varint_bytes(0x2)
    }

    open spec fn takes_rest() -> bool {
        false
    }

    open spec fn spec_serialize(v: SetDifficultyRequest) -> Seq<u8> {
        <u8 as MD<'x>>::spec_serialize(v.new_difficulty)
    }

    open spec fn encodable(v: SetDifficultyRequest) -> bool {
        Self::serializable() && <u8 as MD<'x>>::encodable(v.new_difficulty)
    }

    proof fn lemma_roundtrip(v: SetDifficultyRequest, rest: Seq<u8>) {
        let b0 = <u8 as MD<'x>>::spec_serialize(v.new_difficulty);
        let t1 = rest;
        let t0 = b0 + t1;
        assert(Self::spec_serialize(v) + rest == t0);
        <u8 as MD<'x>>::lemma_roundtrip(v.new_difficulty, t1);
    }

    fn deserialize(memory: &mut &'x [u8]) -> (res: Result<SetDifficultyRequest, ParseError>) {
        let new_difficulty: u8 = <u8 as MD<'x>>::deserialize(memory)?;
        Ok(SetDifficultyRequest { new_difficulty })
    }

    fn serialize(&self, writer: &mut Vec<u8>) {
        let ghost v = self.deep_view();
        write_varint(writer, 0x2);
        let ghost a = writer@;
        assert(old(writer)@ + Self::spec_header() =~= a);
        self.new_difficulty.serialize(writer);
        proof {
            lemma_write_after_header(a, <u8 as MD<'x>>::spec_header(), <u8 as MD<'x>>::spec_serialize(v.new_difficulty));
        }
    }
}

/// Packet `0xb` of the play state, sent by the client.
#[derive(Debug)]
pub struct EditBookRequest<'x> {
    pub hand: i32,
    pub pages: Vec<&'x str>,
    pub title: Option<&'x str>,
}

/// What a `EditBookRequest` holds.
pub struct EditBookRequestView {
    pub hand: i32,
    pub pages: Seq<Seq<char>>,
    pub title: Option<Seq<char>>,
}

impl<'x> DeepView for EditBookRequest<'x> {
    type V = EditBookRequestView;

    open spec fn deep_view(&self) -> EditBookRequestView {
        EditBookRequestView { hand: self.hand, pages: self.pages.deep_view(), title: self.title.deep_view() }
    }
}

impl<'x> MD<'x> for EditBookRequest<'x> {
    open spec fn spec_deserialize(s0: Seq<u8>) -> Option<(EditBookRequestView, Seq<u8>)> {
        match varint_field(s0) {
            Some((hand, s1)) => {
                match varint_field(s1) {
                    Some((pages_count, s2)) => {
                        match spec_array::<'x, &'x str>(s2, pages_count as int) {
                            Some((pages, s3)) => {
                                match <Option<&'x str> as MD<'x>>::spec_deserialize(s3) {
                                    Some((title, s4)) => {
                                        Some((EditBookRequestView { hand, pages, title }, s4))
                                    },
                                    None => None,
                                }
                            },
                            None => None,
                        }
                    },
                    None => None,
                }
            },
            None => None,
        }
    }

    open spec fn serializable() -> bool {
        false
    }

    open spec fn spec_header() -> Seq<u8> {
        Seq::empty()
    }

    open spec fn takes_rest() -> bool {
        false
    }

    open spec fn spec_serialize(v: EditBookRequestView) -> Seq<u8> {
        Seq::empty()
    }

    open spec fn encodable(v: EditBookRequestView) -> bool {
        Self::serializable()
    }

    proof fn lemma_roundtrip(v: EditBookRequestView, rest: Seq<u8>) {
    }

    fn deserialize(memory: &mut &'x [u8]) -> (res: Result<EditBookRequest<'x>, ParseError>) {
        let hand: i32 = read_varint(memory)?;
        let pages_count: i32 = read_varint(memory)?;
        let pages: Vec<&'x str> = read_array(memory, pages_count)?;
        let title: Option<&'x str> = <Option<&'x str> as MD<'x>>::deserialize(memory)?;
        Ok(EditBookRequest { hand, pages, title })
    }

    fn serialize(&self, writer: &mut Vec<u8>) {
    }
}

/// Packet `0xc` of the play state, sent by the client.
#[derive(Debug)]
pub struct QueryEntityNbtRequest {
    pub transaction_id: i32,
    pub entity_id: i32,
}

impl DeepView for QueryEntityNbtRequest {
    type V = QueryEntityNbtRequest;

    open spec fn deep_view(&self) -> QueryEntityNbtRequest {
        *self
    }
}

impl<'x> MD<'x> for QueryEntityNbtRequest {
    open spec fn spec_deserialize(s0: Seq<u8>) -> Option<(QueryEntityNbtRequest, Seq<u8>)> {
        match varint_field(s0) {
            Some((transaction_id, s1)) => {
                match varint_field(s1) {
                    Some((entity_id, s2)) => {
                        Some((QueryEntityNbtRequest { transaction_id, entity_id }, s2))
                    },
                    None => None,
                }
            },
            None => None,
        }
    }

    open spec fn serializable() -> bool {
        true
    }

    open spec fn spec_header() -> Seq<u8> {
        varint_bytes(0xc)
    }

    open spec fn takes_rest() -> bool {
        false
    }

    open spec fn spec_serialize(v: QueryEntityNbtRequest) -> Seq<u8> {
        varint_bytes(v.transaction_id as u32) + varint_bytes(v.entity_id as u32)
    }

    open spec fn encodable(v: QueryEntityNbtRequest) -> bool {
        Self::serializable()
    }

    proof fn lemma_roundtrip(v: QueryEntityNbtRequest, rest: Seq<u8>) {
        let b0 = varint_bytes(v.transaction_id as u32);
        let b1 = varint_bytes(v.entity_id as u32);
        let t2 = rest;
        let t1 = b1 + t2;
        let t0 = b0 + t1;
        lemma_concat_associative(b0, b1, t2);
        lemma_varint_field_roundtrip(v.transaction_id, t1);
        lemma_varint_field_roundtrip(v.entity_id, t2);
    }

    fn deserialize(memory: &mut &'x [u8]) -> (res: Result<QueryEntityNbtRequest, ParseError>) {
        let transaction_id: i32 = read_varint(memory)?;
        let entity_id: i32 = read_varint(memory)?;
        Ok(QueryEntityNbtRequest { transaction_id, entity_id })
    }

    fn serialize(&self, writer: &mut Vec<u8>) {
        let ghost v = self.deep_view();
        write_varint(writer, 0xc);
        let ghost a = writer@;
        assert(old(writer)@ + Self::spec_header() =~= a);
        write_varint(writer, self.transaction_id as u32);
        write_varint(writer, self.entity_id as u32);
        proof {
            lemma_concat_associative(a, varint_bytes(v.transaction_id as u32), varint_bytes(v.entity_id as u32));
        }
    }
}

/// Packet `0x17` of the play state, sent by the client.
#[derive(Debug)]
pub struct PickItemRequest {
    pub slot: i32,
}

impl DeepView for PickItemRequest {
    type V = PickItemRequest;

    open spec fn deep_view(&self) -> PickItemRequest {
        *self
    }
}

impl<'x> MD<'x> for PickItemRequest {
    open spec fn spec_deserialize(s0: Seq<u8>) -> Option<(PickItemRequest, Seq<u8>)> {
        match varint_field(s0) {
            Some((slot, s1)) => {
                Some((PickItemRequest { slot }, s1))
            },
            None => None,
        }
    }

    open spec fn serializable() -> bool {
        true
    }

    open spec fn spec_header() -> Seq<u8> {
        varint_bytes(0x17)
    }

    open spec fn takes_rest() -> bool {
        false
    }

    open spec fn spec_serialize(v: PickItemRequest) -> Seq<u8> {
        varint_bytes(v.slot as u32)
    }

    open spec fn encodable(v: PickItemRequest) -> bool {
        Self::serializable()
    }

    proof fn lemma_roundtrip(v: PickItemRequest, rest: Seq<u8>) {
        let b0 = varint_bytes(v.slot as u32);
        let t1 = rest;
        let t0 = b0 + t1;
        assert(Self::spec_serialize(v) + rest == t0);
        lemma_varint_field_roundtrip(v.slot, t1);
    }

    fn deserialize(memory: &mut &'x [u8]) -> (res: Result<PickItemRequest, ParseError>) {
        let slot: i32 = read_varint(memory)?;
        Ok(PickItemRequest { slot })
    }

    fn serialize(&self, writer: &mut Vec<u8>) {
        let ghost v = self.deep_view();
        write_varint(writer, 0x17);
        let ghost a = writer@;
        assert(old(writer)@ + Self::spec_header() =~= a);
        write_varint(writer, self.slot as u32);
    }
}

/// Packet `0x20` of the play state, sent by the client.
#[derive(Debug)]
pub struct NameItemRequest<'x> {
    pub name: &'x str,
}

/// What a `NameItemRequest` holds.
pub struct NameItemRequestView {
    pub name: Seq<char>,
}

impl<'x> DeepView for NameItemRequest<'x> {
    type V = NameItemRequestView;

    open spec fn deep_view(&self) -> NameItemRequestView {
        NameItemRequestView { name: self.name.deep_view() }
    }
}

impl<'x> MD<'x> for NameItemRequest<'x> {
    open spec fn spec_deserialize(s0: Seq<u8>) -> Option<(NameItemRequestView, Seq<u8>)> {
        match <&'x str as MD<'x>>::spec_deserialize(s0) {
            Some((name, s1)) => {
                Some((NameItemRequestView { name }, s1))
            },
            None => None,
        }
    }

    open spec fn serializable() -> bool {
        <&'x str as MD<'x>>::serializable()
    }

    open spec fn spec_header() -> Seq<u8> {
        varint_bytes(0x20)
    }

    open spec fn takes_rest() -> bool {
        false
    }

    open spec fn spec_serialize(v: NameItemRequestView) -> Seq<u8> {
        <&'x str as MD<'x>>::spec_serialize(v.name)
    }

    open spec fn encodable(v: NameItemRequestView) -> bool {
        Self::serializable() && <&'x str as MD<'x>>::encodable(v.name)
    }

    proof fn lemma_roundtrip(v: NameItemRequestView, rest: Seq<u8>) {
        let b0 = <&'x str as MD<'x>>::spec_serialize(v.name);
        let t1 = rest;
        let t0 = b0 + t1;
        assert(Self::spec_serialize(v) + rest == t0);
        <&'x str as MD<'x>>::lemma_roundtrip(v.name, t1);
    }

    fn deserialize(memory: &mut &'x [u8]) -> (res: Result<NameItemRequest<'x>, ParseError>) {
        let name: &'x str = <&'x str as MD<'x>>::deserialize(memory)?;
        Ok(NameItemRequest { name })
    }

    fn serialize(&self, writer: &mut Vec<u8>) {
        let ghost v = self.deep_view();
        write_varint(writer, 0x20);
        let ghost a = writer@;
        assert(old(writer)@ + Self::spec_header() =~= a);
        self.name.serialize(writer);
        proof {
            lemma_write_after_header(a, <&'x str as MD<'x>>::spec_header(), <&'x str as MD<'x>>::spec_serialize(v.name));
        }
    }
}

/// Packet `0x23` of the play state, sent by the client.
#[derive(Debug)]
pub struct SelectTradeRequest {
    pub slot: i32,
}

impl DeepView for SelectTradeRequest {
    type V = SelectTradeRequest;

    open spec fn deep_view(&self) -> SelectTradeRequest {
        *self
    }
}

impl<'x> MD<'x> for SelectTradeRequest {
    open spec fn spec_deserialize(s0: Seq<u8>) -> Option<(SelectTradeRequest, Seq<u8>)> {
        match varint_field(s0) {
            Some((slot, s1)) => {
                Some((SelectTradeRequest { slot }, s1))
            },
            None => None,
        }
    }

    open spec fn serializable() -> bool {
        true
    }

    open spec fn spec_header() -> Seq<u8> {
        varint_bytes(0x23)
    }

    open spec fn takes_rest() -> bool {
        false
    }

    open spec fn spec_serialize(v: SelectTradeRequest) -> Seq<u8> {
        varint_bytes(v.slot as u32)
    }

    open spec fn encodable(v: SelectTradeRequest) -> bool {
        Self::serializable()
    }

    proof fn lemma_roundtrip(v: SelectTradeRequest, rest: Seq<u8>) {
        let b0 = varint_bytes(v.slot as u32);
        let t1 = rest;
        let t0 = b0 + t1;
        assert(Self::spec_serialize(v) + rest == t0);
        lemma_varint_field_roundtrip(v.slot, t1);
    }

    fn deserialize(memory: &mut &'x [u8]) -> (res: Result<SelectTradeRequest, ParseError>) {
        let slot: i32 = read_varint(memory)?;
        Ok(SelectTradeRequest { slot })
    }

    fn serialize(&self, writer: &mut Vec<u8>) {
        let ghost v = self.deep_view();
        write_varint(writer, 0x23);
        let ghost a = writer@;
        assert(old(writer)@ + Self::spec_header() =~= a);
        write_varint(writer, self.slot as u32);
    }
}

/// Packet `0x24` of the play state, sent by the client.
#[derive(Debug)]
pub struct SetBeaconEffectRequest {
    pub primary_effect: i32,
    pub secondary_effect: i32,
}

impl DeepView for SetBeaconEffectRequest {
    type V = SetBeaconEffectRequest;

    open spec fn deep_view(&self) -> SetBeaconEffectRequest {
        *self
    }
}

impl<'x> MD<'x> for SetBeaconEffectRequest {
    open spec fn spec_deserialize(s0: Seq<u8>) -> Option<(SetBeaconEffectRequest, Seq<u8>)> {
        match varint_field(s0) {
            Some((primary_effect, s1)) => {
                match varint_field(s1) {
                    Some((secondary_effect, s2)) => {
                        Some((SetBeaconEffectRequest { primary_effect, secondary_effect }, s2))
                    },
                    None => None,
                }
            },
            None => None,
        }
    }

    open spec fn serializable() -> bool {
        true
    }

    open spec fn spec_header() -> Seq<u8> {
        varint_bytes(0x24)
    }

    open spec fn takes_rest() -> bool {
        false
    }

    open spec fn spec_serialize(v: SetBeaconEffectRequest) -> Seq<u8> {
        varint_bytes(v.primary_effect as u32) + varint_bytes(v.secondary_effect as u32)
    }

    open spec fn encodable(v: SetBeaconEffectRequest) -> bool {
        Self::serializable()
    }

    proof fn lemma_roundtrip(v: SetBeaconEffectRequest, rest: Seq<u8>) {
        let b0 = varint_bytes(v.primary_effect as u32);
        let b1 = varint_bytes(v.secondary_effect as u32);
        let t2 = rest;
        let t1 = b1 + t2;
        let t0 = b0 + t1;
        lemma_concat_associative(b0, b1, t2);
        lemma_varint_field_roundtrip(v.primary_effect, t1);
        lemma_varint_field_roundtrip(v.secondary_effect, t2);
    }

    fn deserialize(memory: &mut &'x [u8]) -> (res: Result<SetBeaconEffectRequest, ParseError>) {
        let primary_effect: i32 = read_varint(memory)?;
        let secondary_effect: i32 = read_varint(memory)?;
        Ok(SetBeaconEffectRequest { primary_effect, secondary_effect })
    }

    fn serialize(&self, writer: &mut Vec<u8>) {
        let ghost v = self.deep_view();
        write_varint(writer, 0x24);
        let ghost a = writer@;
        assert(old(writer)@ + Self::spec_header() =~= a);
        write_varint(writer, self.primary_effect as u32);
        write_varint(writer, self.secondary_effect as u32);
        proof {
            lemma_concat_associative(a, varint_bytes(v.primary_effect as u32), varint_bytes(v.secondary_effect as u32));
        }
    }
}

/// Packet `0x26` of the play state, sent by the client.
#[derive(Debug)]
pub struct UpdateCommandBlockRequest<'x> {
    pub location: Position,
    pub command: &'x str,
    pub mode: i32,
    pub flags: u8,
}

/// What a `UpdateCommandBlockRequest` holds.
pub struct UpdateCommandBlockRequestView {
    pub location: Position,
    pub command: Seq<char>,
    pub mode: i32,
    pub flags: u8,
}

impl<'x> DeepView for UpdateCommandBlockRequest<'x> {
    type V = UpdateCommandBlockRequestView;

    open spec fn deep_view(&self) -> UpdateCommandBlockRequestView {
        UpdateCommandBlockRequestView { location: self.location, command: self.command.deep_view(), mode: self.mode, flags: self.flags }
    }
}

impl<'x> MD<'x> for UpdateCommandBlockRequest<'x> {
    open spec fn spec_deserialize(s0: Seq<u8>) -> Option<(UpdateCommandBlockRequestView, Seq<u8>)> {
        match <Position as MD<'x>>::spec_deserialize(s0) {
            Some((location, s1)) => {
                match <&'x str as MD<'x>>::spec_deserialize(s1) {
                    Some((command, s2)) => {
                        match varint_field(s2) {
                            Some((mode, s3)) => {
                                match <u8 as MD<'x>>::spec_deserialize(s3) {
                                    Some((flags, s4)) => {
                                        Some((UpdateCommandBlockRequestView { location, command, mode, flags }, s4))
                                    },
                                    None => None,
                                }
                            },
                            None => None,
                        }
                    },
                    None => None,
                }
            },
            None => None,
        }
    }

    open spec fn serializable() -> bool {
        <Position as MD<'x>>::serializable() && <&'x str as MD<'x>>::serializable() && <u8 as MD<'x>>::serializable()
    }

    open spec fn spec_header() -> Seq<u8> {
        varint_bytes(0x26)
    }

    open spec fn takes_rest() -> bool {
        false
    }

    open spec fn spec_serialize(v: UpdateCommandBlockRequestView) -> Seq<u8> {
        <Position as MD<'x>>::spec_serialize(v.location) + <&'x str as MD<'x>>::spec_serialize(v.command) + varint_bytes(v.mode as u32) + <u8 as MD<'x>>::spec_serialize(v.flags)
    }

    open spec fn encodable(v: UpdateCommandBlockRequestView) -> bool {
        Self::serializable() && <Position as MD<'x>>::encodable(v.location) && <&'x str as MD<'x>>::encodable(v.command) && <u8 as MD<'x>>::encodable(v.flags)
    }

    proof fn lemma_roundtrip(v: UpdateCommandBlockRequestView, rest: Seq<u8>) {
        let b0 = <Position as MD<'x>>::spec_serialize(v.location);
        let b1 = <&'x str as MD<'x>>::spec_serialize(v.command);
        let b2 = varint_bytes(v.mode as u32);
        let b3 = <u8 as MD<'x>>::spec_serialize(v.flags);
        let t4 = rest;
        let t3 = b3 + t4;
        let t2 = b2 + t3;
        let t1 = b1 + t2;
        let t0 = b0 + t1;
        lemma_concat_associative(b0 + b1 + b2, b3, t4);
        lemma_concat_associative(b0 + b1, b2, t3);
        lemma_concat_associative(b0, b1, t2);
        <Position as MD<'x>>::lemma_roundtrip(v.location, t1);
        <&'x str as MD<'x>>::lemma_roundtrip(v.command, t2);
        lemma_varint_field_roundtrip(v.mode, t3);
        <u8 as MD<'x>>::lemma_roundtrip(v.flags, t4);
    }

    fn deserialize(memory: &mut &'x [u8]) -> (res: Result<UpdateCommandBlockRequest<'x>, ParseError>) {
        let location: Position = <Position as MD<'x>>::deserialize(memory)?;
        let command: &'x str = <&'x str as MD<'x>>::deserialize(memory)?;
        let mode: i32 = read_varint(memory)?;
        let flags: u8 = <u8 as MD<'x>>::deserialize(memory)?;
        Ok(UpdateCommandBlockRequest { location, command, mode, flags })
    }

    fn serialize(&self, writer: &mut Vec<u8>) {
        let ghost v = self.deep_view();
        write_varint(writer, 0x26);
        let ghost a = writer@;
        assert(old(writer)@ + Self::spec_header() =~= a);
        self.location.serialize(writer);
        proof {
            lemma_write_after_header(a, <Position as MD<'x>>::spec_header(), <Position as MD<'x>>::spec_serialize(v.location));
        }
        self.command.serialize(writer);
        proof {
            lemma_write_next(a, <Position as MD<'x>>::spec_serialize(v.location), <&'x str as MD<'x>>::spec_header(), <&'x str as MD<'x>>::spec_serialize(v.command));
        }
        write_varint(writer, self.mode as u32);
        proof {
            lemma_concat_associative(a, <Position as MD<'x>>::spec_serialize(v.location) + <&'x str as MD<'x>>::spec_serialize(v.command), varint_bytes(v.mode as u32));
        }
        self.flags.serialize(writer);
        proof {
            lemma_write_next(a, <Position as MD<'x>>::spec_serialize(v.location) + <&'x str as MD<'x>>::spec_serialize(v.command) + varint_bytes(v.mode as u32), <u8 as MD<'x>>::spec_header(), <u8 as MD<'x>>::spec_serialize(v.flags));
        }
    }
}

/// Packet `0x27` of the play state, sent by the client.
#[derive(Debug)]
pub struct UpdateCommandBlockMinecartRequest<'x> {
    pub entity_id: i32,
    pub command: &'x str,
    pub track_output: bool,
}

/// What a `UpdateCommandBlockMinecartRequest` holds.
pub struct UpdateCommandBlockMinecartRequestView {
    pub entity_id: i32,
    pub command: Seq<char>,
    pub track_output: bool,
}

impl<'x> DeepView for UpdateCommandBlockMinecartRequest<'x> {
    type V = UpdateCommandBlockMinecartRequestView;

    open spec fn deep_view(&self) -> UpdateCommandBlockMinecartRequestView {
        UpdateCommandBlockMinecartRequestView { entity_id: self.entity_id, command: self.command.deep_view(), track_output: self.track_output }
    }
}

impl<'x> MD<'x> for UpdateCommandBlockMinecartRequest<'x> {
    open spec fn spec_deserialize(s0: Seq<u8>) -> Option<(UpdateCommandBlockMinecartRequestView, Seq<u8>)> {
        match varint_field(s0) {
            Some((entity_id, s1)) => {
                match <&'x str as MD<'x>>::spec_deserialize(s1) {
                    Some((command, s2)) => {
                        match <bool as MD<'x>>::spec_deserialize(s2) {
                            Some((track_output, s3)) => {
                                Some((UpdateCommandBlockMinecartRequestView { entity_id, command, track_output }, s3))
                            },
                            None => None,
                        }
                    },
                    None => None,
                }
            },
            None => None,
        }
    }

    open spec fn serializable() -> bool {
        <&'x str as MD<'x>>::serializable() && <bool as MD<'x>>::serializable()
    }

    open spec fn spec_header() -> Seq<u8> {
        varint_bytes(0x27)
    }

    open spec fn takes_rest() -> bool {
        false
    }

    open spec fn spec_serialize(v: UpdateCommandBlockMinecartRequestView) -> Seq<u8> {
        varint_bytes(v.entity_id as u32) + <&'x str as MD<'x>>::spec_serialize(v.command) + <bool as MD<'x>>::spec_serialize(v.track_output)
    }

    open spec fn encodable(v: UpdateCommandBlockMinecartRequestView) -> bool {
        Self::serializable() && <&'x str as MD<'x>>::encodable(v.command) && <bool as MD<'x>>::encodable(v.track_output)
    }

    proof fn lemma_roundtrip(v: UpdateCommandBlockMinecartRequestView, rest: Seq<u8>) {
        let b0 = varint_bytes(v.entity_id as u32);
        let b1 = <&'x str as MD<'x>>::spec_serialize(v.command);
        let b2 = <bool as MD<'x>>::spec_serialize(v.track_output);
        let t3 = rest;
        let t2 = b2 + t3;
        let t1 = b1 + t2;
        let t0 = b0 + t1;
        lemma_concat_associative(b0 + b1, b2, t3);
        lemma_concat_associative(b0, b1, t2);
        lemma_varint_field_roundtrip(v.entity_id, t1);
        <&'x str as MD<'x>>::lemma_roundtrip(v.command, t2);
        <bool as MD<'x>>::lemma_roundtrip(v.track_output, t3);
    }

    fn deserialize(memory: &mut &'x [u8]) -> (res: Result<UpdateCommandBlockMinecartRequest<'x>, ParseError>) {
        let entity_id: i32 = read_varint(memory)?;
        let command: &'x str = <&'x str as MD<'x>>::deserialize(memory)?;
        let track_output: bool = <bool as MD<'x>>::deserialize(memory)?;
        Ok(UpdateCommandBlockMinecartRequest { entity_id, command, track_output })
    }

    fn serialize(&self, writer: &mut Vec<u8>) {
        let ghost v = self.deep_view();
        write_varint(writer, 0x27);
        let ghost a = writer@;
        assert(old(writer)@ + Self::spec_header() =~= a);
        write_varint(writer, self.entity_id as u32);
        self.command.serialize(writer);
        proof {
            lemma_write_next(a, varint_bytes(v.entity_id as u32), <&'x str as MD<'x>>::spec_header(), <&'x str as MD<'x>>::spec_serialize(v.command));
        }
        self.track_output.serialize(writer);
        proof {
            lemma_write_next(a, varint_bytes(v.entity_id as u32) + <&'x str as MD<'x>>::spec_serialize(v.command), <bool as MD<'x>>::spec_header(), <bool as MD<'x>>::spec_serialize(v.track_output));
        }
    }
}

/// Packet `0x2a` of the play state, sent by the client.
#[derive(Debug)]
pub struct UpdateStructureBlockRequest<'x> {
    pub location: Position,
    pub action: i32,
    pub mode: i32,
    pub name: &'x str,
    pub offset_x: i8,
    pub offset_y: i8,
    pub offset_z: i8,
    pub size_x: i8,
    pub size_y: i8,
    pub size_z: i8,
    pub mirror: i32,
    pub rotation: i32,
    pub metadata: &'x str,
    /// The IEEE 754 bits of the `f32` value.
    pub integrity: u32,
    pub seed: i64,
    pub flags: u8,
}

/// What a `UpdateStructureBlockRequest` holds.
pub struct UpdateStructureBlockRequestView {
    pub location: Position,
    pub action: i32,
    pub mode: i32,
    pub name: Seq<char>,
    pub offset_x: i8,
    pub offset_y: i8,
    pub offset_z: i8,
    pub size_x: i8,
    pub size_y: i8,
    pub size_z: i8,
    pub mirror: i32,
    pub rotation: i32,
    pub metadata: Seq<char>,
    pub integrity: u32,
    pub seed: i64,
    pub flags: u8,
}

impl<'x> DeepView for UpdateStructureBlockRequest<'x> {
    type V = UpdateStructureBlockRequestView;

    open spec fn deep_view(&self) -> UpdateStructureBlockRequestView {
        UpdateStructureBlockRequestView { location: self.location, action: self.action, mode: self.mode, name: self.name.deep_view(), offset_x: self.offset_x, offset_y: self.offset_y, offset_z: self.offset_z, size_x: self.size_x, size_y: self.size_y, size_z: self.size_z, mirror: self.mirror, rotation: self.rotation, metadata: self.metadata.deep_view(), integrity: self.integrity, seed: self.seed, flags: self.flags }
    }
}

impl<'x> MD<'x> for UpdateStructureBlockRequest<'x> {
    open spec fn spec_deserialize(s0: Seq<u8>) -> Option<(UpdateStructureBlockRequestView, Seq<u8>)> {
        match <Position as MD<'x>>::spec_deserialize(s0) {
            Some((location, s1)) => {
                match varint_field(s1) {
                    Some((action, s2)) => {
                        match varint_field(s2) {
                            Some((mode, s3)) => {
                                match <&'x str as MD<'x>>::spec_deserialize(s3) {
                                    Some((name, s4)) => {
                                        match <i8 as MD<'x>>::spec_deserialize(s4) {
                                            Some((offset_x, s5)) => {
                                                match <i8 as MD<'x>>::spec_deserialize(s5) {
                                                    Some((offset_y, s6)) => {
                                                        match <i8 as MD<'x>>::spec_deserialize(s6) {
                                                            Some((offset_z, s7)) => {
                                                                match <i8 as MD<'x>>::spec_deserialize(s7) {
                                                                    Some((size_x, s8)) => {
                                                                        match <i8 as MD<'x>>::spec_deserialize(s8) {
                                                                            Some((size_y, s9)) => {
                                                                                match <i8 as MD<'x>>::spec_deserialize(s9) {
                                                                                    Some((size_z, s10)) => {
                                                                                        match varint_field(s10) {
                                                                                            Some((mirror, s11)) => {
                                                                                                match varint_field(s11) {
                                                                                                    Some((rotation, s12)) => {
                                                                                                        match <&'x str as MD<'x>>::spec_deserialize(s12) {
                                                                                                            Some((metadata, s13)) => {
                                                                                                                match <u32 as MD<'x>>::spec_deserialize(s13) {
                                                                                                                    Some((integrity, s14)) => {
                                                                                                                        match varlong_field(s14) {
                                                                                                                            Some((seed, s15)) => {
                                                                                                                                match <u8 as MD<'x>>::spec_deserialize(s15) {
                                                                                                                                    Some((flags, s16)) => {
                                                                                                                                        Some((UpdateStructureBlockRequestView { location, action, mode, name, offset_x, offset_y, offset_z, size_x, size_y, size_z, mirror, rotation, metadata, integrity, seed, flags }, s16))
                                                                                                                                    },
                                                                                                                                    None => None,
                                                                                                                                }
                                                                                                                            },
                                                                                                                            None => None,
                                                                                                                        }
                                                                                                                    },
                                                                                                                    None => None,
                                                                                                                }
                                                                                                            },
                                                                                                            None => None,
                                                                                                        }
                                                                                                    },
                                                                                                    None => None,
                                                                                                }
                                                                                            },
                                                                                            None => None,
                                                                                        }
                                                                                    },
                                                                                    None => None,
                                                                                }
                                                                            },
                                                                            None => None,
                                                                        }
                                                                    },
                                                                    None => None,
                                                                }
                                                            },
                                                            None => None,
                                                        }
                                                    },
                                                    None => None,
                                                }
                                            },
                                            None => None,
                                        }
                                    },
                                    None => None,
                                }
                            },
                            None => None,
                        }
                    },
                    None => None,
                }
            },
            None => None,
        }
    }

    open spec fn serializable() -> bool {
        <Position as MD<'x>>::serializable() && <&'x str as MD<'x>>::serializable() && <i8 as MD<'x>>::serializable() && <i8 as MD<'x>>::serializable() && <i8 as MD<'x>>::serializable() && <i8 as MD<'x>>::serializable() && <i8 as MD<'x>>::serializable() && <i8 as MD<'x>>::serializable() && <&'x str as MD<'x>>::serializable() && <u32 as MD<'x>>::serializable() && <u8 as MD<'x>>::serializable()
    }

    open spec fn spec_header() -> Seq<u8> {
        varint_bytes(0x2a)
    }

    open spec fn takes_rest() -> bool {
        false
    }

    open spec fn spec_serialize(v: UpdateStructureBlockRequestView) -> Seq<u8> {
        <Position as MD<'x>>::spec_serialize(v.location) + varint_bytes(v.action as u32) + varint_bytes(v.mode as u32) + <&'x str as MD<'x>>::spec_serialize(v.name) + <i8 as MD<'x>>::spec_serialize(v.offset_x) + <i8 as MD<'x>>::spec_serialize(v.offset_y) + <i8 as MD<'x>>::spec_serialize(v.offset_z) + <i8 as MD<'x>>::spec_serialize(v.size_x) + <i8 as MD<'x>>::spec_serialize(v.size_y) + <i8 as MD<'x>>::spec_serialize(v.size_z) + varint_bytes(v.mirror as u32) + varint_bytes(v.rotation as u32) + <&'x str as MD<'x>>::spec_serialize(v.metadata) + <u32 as MD<'x>>::spec_serialize(v.integrity) + varlong_bytes(v.seed as u64) + <u8 as MD<'x>>::spec_serialize(v.flags)
    }

    open spec fn encodable(v: UpdateStructureBlockRequestView) -> bool {
        Self::serializable() && <Position as MD<'x>>::encodable(v.location) && <&'x str as MD<'x>>::encodable(v.name) && <i8 as MD<'x>>::encodable(v.offset_x) && <i8 as MD<'x>>::encodable(v.offset_y) && <i8 as MD<'x>>::encodable(v.offset_z) && <i8 as MD<'x>>::encodable(v.size_x) && <i8 as MD<'x>>::encodable(v.size_y) && <i8 as MD<'x>>::encodable(v.size_z) && <&'x str as MD<'x>>::encodable(v.metadata) && <u32 as MD<'x>>::encodable(v.integrity) && <u8 as MD<'x>>::encodable(v.flags)
    }

    proof fn lemma_roundtrip(v: UpdateStructureBlockRequestView, rest: Seq<u8>) {
        let b0 = <Position as MD<'x>>::spec_serialize(v.location);
        let b1 = varint_bytes(v.action as u32);
        let b2 = varint_bytes(v.mode as u32);
        let b3 = <&'x str as MD<'x>>::spec_serialize(v.name);
        let b4 = <i8 as MD<'x>>::spec_serialize(v.offset_x);
        let b5 = <i8 as MD<'x>>::spec_serialize(v.offset_y);
        let b6 = <i8 as MD<'x>>::spec_serialize(v.offset_z);
        let b7 = <i8 as MD<'x>>::spec_serialize(v.size_x);
        let b8 = <i8 as MD<'x>>::spec_serialize(v.size_y);
        let b9 = <i8 as MD<'x>>::spec_serialize(v.size_z);
        let b10 = varint_bytes(v.mirror as u32);
        let b11 = varint_bytes(v.rotation as u32);
        let b12 = <&'x str as MD<'x>>::spec_serialize(v.metadata);
        let b13 = <u32 as MD<'x>>::spec_serialize(v.integrity);
        let b14 = varlong_bytes(v.seed as u64);
        let b15 = <u8 as MD<'x>>::spec_serialize(v.flags);
        let t16 = rest;
        let t15 = b15 + t16;
        let t14 = b14 + t15;
        let t13 = b13 + t14;
        let t12 = b12 + t13;
        let t11 = b11 + t12;
        let t10 = b10 + t11;
        let t9 = b9 + t10;
        let t8 = b8 + t9;
        let t7 = b7 + t8;
        let t6 = b6 + t7;
        let t5 = b5 + t6;
        let t4 = b4 + t5;
        let t3 = b3 + t4;
        let t2 = b2 + t3;
        let t1 = b1 + t2;
        let t0 = b0 + t1;
        lemma_concat_associative(b0 + b1 + b2 + b3 + b4 + b5 + b6 + b7 + b8 + b9 + b10 + b11 + b12 + b13 + b14, b15, t16);
        lemma_concat_associative(b0 + b1 + b2 + b3 + b4 + b5 + b6 + b7 + b8 + b9 + b10 + b11 + b12 + b13, b14, t15);
        lemma_concat_associative(b0 + b1 + b2 + b3 + b4 + b5 + b6 + b7 + b8 + b9 + b10 + b11 + b12, b13, t14);
        lemma_concat_associative(b0 + b1 + b2 + b3 + b4 + b5 + b6 + b7 + b8 + b9 + b10 + b11, b12, t13);
        lemma_concat_associative(b0 + b1 + b2 + b3 + b4 + b5 + b6 + b7 + b8 + b9 + b10, b11, t12);
        lemma_concat_associative(b0 + b1 + b2 + b3 + b4 + b5 + b6 + b7 + b8 + b9, b10, t11);
        lemma_concat_associative(b0 + b1 + b2 + b3 + b4 + b5 + b6 + b7 + b8, b9, t10);
        lemma_concat_associative(b0 + b1 + b2 + b3 + b4 + b5 + b6 + b7, b8, t9);
        lemma_concat_associative(b0 + b1 + b2 + b3 + b4 + b5 + b6, b7, t8);
        lemma_concat_associative(b0 + b1 + b2 + b3 + b4 + b5, b6, t7);
        lemma_concat_associative(b0 + b1 + b2 + b3 + b4, b5, t6);
        lemma_concat_associative(b0 + b1 + b2 + b3, b4, t5);
        lemma_concat_associative(b0 + b1 + b2, b3, t4);
        lemma_concat_associative(b0 + b1, b2, t3);
        lemma_concat_associative(b0, b1, t2);
        <Position as MD<'x>>::lemma_roundtrip(v.location, t1);
        lemma_varint_field_roundtrip(v.action, t2);
        lemma_varint_field_roundtrip(v.mode, t3);
        <&'x str as MD<'x>>::lemma_roundtrip(v.name, t4);
        <i8 as MD<'x>>::lemma_roundtrip(v.offset_x, t5);
        <i8 as MD<'x>>::lemma_roundtrip(v.offset_y, t6);
        <i8 as MD<'x>>::lemma_roundtrip(v.offset_z, t7);
        <i8 as MD<'x>>::lemma_roundtrip(v.size_x, t8);
        <i8 as MD<'x>>::lemma_roundtrip(v.size_y, t9);
        <i8 as MD<'x>>::lemma_roundtrip(v.size_z, t10);
        lemma_varint_field_roundtrip(v.mirror, t11);
        lemma_varint_field_roundtrip(v.rotation, t12);
        <&'x str as MD<'x>>::lemma_roundtrip(v.metadata, t13);
        <u32 as MD<'x>>::lemma_roundtrip(v.integrity, t14);
        lemma_varlong_field_roundtrip(v.seed, t15);
        <u8 as MD<'x>>::lemma_roundtrip(v.flags, t16);
    }

    fn deserialize(memory: &mut &'x [u8]) -> (res: Result<UpdateStructureBlockRequest<'x>, ParseError>) {
        let location: Position = <Position as MD<'x>>::deserialize(memory)?;
        let action: i32 = read_varint(memory)?;
        let mode: i32 = read_varint(memory)?;
        let name: &'x str = <&'x str as MD<'x>>::deserialize(memory)?;
        let offset_x: i8 = <i8 as MD<'x>>::deserialize(memory)?;
        let offset_y: i8 = <i8 as MD<'x>>::deserialize(memory)?;
        let offset_z: i8 = <i8 as MD<'x>>::deserialize(memory)?;
        let size_x: i8 = <i8 as MD<'x>>::deserialize(memory)?;
        let size_y: i8 = <i8 as MD<'x>>::deserialize(memory)?;
        let size_z: i8 = <i8 as MD<'x>>::deserialize(memory)?;
        let mirror: i32 = read_varint(memory)?;
        let rotation: i32 = read_varint(memory)?;
        let metadata: &'x str = <&'x str as MD<'x>>::deserialize(memory)?;
        let integrity: u32 = <u32 as MD<'x>>::deserialize(memory)?;
        let seed: i64 = read_varlong(memory)?;
        let flags: u8 = <u8 as MD<'x>>::deserialize(memory)?;
        Ok(UpdateStructureBlockRequest { location, action, mode, name, offset_x, offset_y, offset_z, size_x, size_y, size_z, mirror, rotation, metadata, integrity, seed, flags })
    }

    fn serialize(&self, writer: &mut Vec<u8>) {
        let ghost v = self.deep_view();
        write_varint(writer, 0x2a);
        let ghost a = writer@;
        assert(old(writer)@ + Self::spec_header() =~= a);
        self.location.serialize(writer);
        proof {
            lemma_write_after_header(a, <Position as MD<'x>>::spec_header(), <Position as MD<'x>>::spec_serialize(v.location));
        }
        write_varint(writer, self.action as u32);
        proof {
            lemma_concat_associative(a, <Position as MD<'x>>::spec_serialize(v.location), varint_bytes(v.action as u32));
        }
        write_varint(writer, self.mode as u32);
        proof {
            lemma_concat_associative(a, <Position as MD<'x>>::spec_serialize(v.location) + varint_bytes(v.action as u32), varint_bytes(v.mode as u32));
        }
        self.name.serialize(writer);
        proof {
            lemma_write_next(a, <Position as MD<'x>>::spec_serialize(v.location) + varint_bytes(v.action as u32) + varint_bytes(v.mode as u32), <&'x str as MD<'x>>::spec_header(), <&'x str as MD<'x>>::spec_serialize(v.name));
        }
        self.offset_x.serialize(writer);
        proof {
            lemma_write_next(a, <Position as MD<'x>>::spec_serialize(v.location) + varint_bytes(v.action as u32) + varint_bytes(v.mode as u32) + <&'x str as MD<'x>>::spec_serialize(v.name), <i8 as MD<'x>>::spec_header(), <i8 as MD<'x>>::spec_serialize(v.offset_x));
        }
        self.offset_y.serialize(writer);
        proof {
            lemma_write_next(a, <Position as MD<'x>>::spec_serialize(v.location) + varint_bytes(v.action as u32) + varint_bytes(v.mode as u32) + <&'x str as MD<'x>>::spec_serialize(v.name) + <i8 as MD<'x>>::spec_serialize(v.offset_x), <i8 as MD<'x>>::spec_header(), <i8 as MD<'x>>::spec_serialize(v.offset_y));
        }
        self.offset_z.serialize(writer);
        proof {
            lemma_write_next(a, <Position as MD<'x>>::spec_serialize(v.location) + varint_bytes(v.action as u32) + varint_bytes(v.mode as u32) + <&'x str as MD<'x>>::spec_serialize(v.name) + <i8 as MD<'x>>::spec_serialize(v.offset_x) + <i8 as MD<'x>>::spec_serialize(v.offset_y), <i8 as MD<'x>>::spec_header(), <i8 as MD<'x>>::spec_serialize(v.offset_z));
        }
        self.size_x.serialize(writer);
        proof {
            lemma_write_next(a, <Position as MD<'x>>::spec_serialize(v.location) + varint_bytes(v.action as u32) + varint_bytes(v.mode as u32) + <&'x str as MD<'x>>::spec_serialize(v.name) + <i8 as MD<'x>>::spec_serialize(v.offset_x) + <i8 as MD<'x>>::spec_serialize(v.offset_y) + <i8 as MD<'x>>::spec_serialize(v.offset_z), <i8 as MD<'x>>::spec_header(), <i8 as MD<'x>>::spec_serialize(v.size_x));
        }
        self.size_y.serialize(writer);
        proof {
            lemma_write_next(a, <Position as MD<'x>>::spec_serialize(v.location) + varint_bytes(v.action as u32) + varint_bytes(v.mode as u32) + <&'x str as MD<'x>>::spec_serialize(v.name) + <i8 as MD<'x>>::spec_serialize(v.offset_x) + <i8 as MD<'x>>::spec_serialize(v.offset_y) + <i8 as MD<'x>>::spec_serialize(v.offset_z) + <i8 as MD<'x>>::spec_serialize(v.size_x), <i8 as MD<'x>>::spec_header(), <i8 as MD<'x>>::spec_serialize(v.size_y));
        }
        self.size_z.serialize(writer);
        proof {
            lemma_write_next(a, <Position as MD<'x>>::spec_serialize(v.location) + varint_bytes(v.action as u32) + varint_bytes(v.mode as u32) + <&'x str as MD<'x>>::spec_serialize(v.name) + <i8 as MD<'x>>::spec_serialize(v.offset_x) + <i8 as MD<'x>>::spec_serialize(v.offset_y) + <i8 as MD<'x>>::spec_serialize(v.offset_z) + <i8 as MD<'x>>::spec_serialize(v.size_x) + <i8 as MD<'x>>::spec_serialize(v.size_y), <i8 as MD<'x>>::spec_header(), <i8 as MD<'x>>::spec_serialize(v.size_z));
        }
        write_varint(writer, self.mirror as u32);
        proof {
            lemma_concat_associative(a, <Position as MD<'x>>::spec_serialize(v.location) + varint_bytes(v.action as u32) + varint_bytes(v.mode as u32) + <&'x str as MD<'x>>::spec_serialize(v.name) + <i8 as MD<'x>>::spec_serialize(v.offset_x) + <i8 as MD<'x>>::spec_serialize(v.offset_y) + <i8 as MD<'x>>::spec_serialize(v.offset_z) + <i8 as MD<'x>>::spec_serialize(v.size_x) + <i8 as MD<'x>>::spec_serialize(v.size_y) + <i8 as MD<'x>>::spec_serialize(v.size_z), varint_bytes(v.mirror as u32));
        }
        write_varint(writer, self.rotation as u32);
        proof {
            lemma_concat_associative(a, <Position as MD<'x>>::spec_serialize(v.location) + varint_bytes(v.action as u32) + varint_bytes(v.mode as u32) + <&'x str as MD<'x>>::spec_serialize(v.name) + <i8 as MD<'x>>::spec_serialize(v.offset_x) + <i8 as MD<'x>>::spec_serialize(v.offset_y) + <i8 as MD<'x>>::spec_serialize(v.offset_z) + <i8 as MD<'x>>::spec_serialize(v.size_x) + <i8 as MD<'x>>::spec_serialize(v.size_y) + <i8 as MD<'x>>::spec_serialize(v.size_z) + varint_bytes(v.mirror as u32), varint_bytes(v.rotation as u32));
        }
        self.metadata.serialize(writer);
        proof {
            lemma_write_next(a, <Position as MD<'x>>::spec_serialize(v.location) + varint_bytes(v.action as u32) + varint_bytes(v.mode as u32) + <&'x str as MD<'x>>::spec_serialize(v.name) + <i8 as MD<'x>>::spec_serialize(v.offset_x) + <i8 as MD<'x>>::spec_serialize(v.offset_y) + <i8 as MD<'x>>::spec_serialize(v.offset_z) + <i8 as MD<'x>>::spec_serialize(v.size_x) + <i8 as MD<'x>>::spec_serialize(v.size_y) + <i8 as MD<'x>>::spec_serialize(v.size_z) + varint_bytes(v.mirror as u32) + varint_bytes(v.rotation as u32), <&'x str as MD<'x>>::spec_header(), <&'x str as MD<'x>>::spec_serialize(v.metadata));
        }
        self.integrity.serialize(writer);
        proof {
            lemma_write_next(a, <Position as MD<'x>>::spec_serialize(v.location) + varint_bytes(v.action as u32) + varint_bytes(v.mode as u32) + <&'x str as MD<'x>>::spec_serialize(v.name) + <i8 as MD<'x>>::spec_serialize(v.offset_x) + <i8 as MD<'x>>::spec_serialize(v.offset_y) + <i8 as MD<'x>>::spec_serialize(v.offset_z) + <i8 as MD<'x>>::spec_serialize(v.size_x) + <i8 as MD<'x>>::spec_serialize(v.size_y) + <i8 as MD<'x>>::spec_serialize(v.size_z) + varint_bytes(v.mirror as u32) + varint_bytes(v.rotation as u32) + <&'x str as MD<'x>>::spec_serialize(v.metadata), <u32 as MD<'x>>::spec_header(), <u32 as MD<'x>>::spec_serialize(v.integrity));
        }
        write_varlong(writer, self.seed as u64);
        proof {
            lemma_concat_associative(a, <Position as MD<'x>>::spec_serialize(v.location) + varint_bytes(v.action as u32) + varint_bytes(v.mode as u32) + <&'x str as MD<'x>>::spec_serialize(v.name) + <i8 as MD<'x>>::spec_serialize(v.offset_x) + <i8 as MD<'x>>::spec_serialize(v.offset_y) + <i8 as MD<'x>>::spec_serialize(v.offset_z) + <i8 as MD<'x>>::spec_serialize(v.size_x) + <i8 as MD<'x>>::spec_serialize(v.size_y) + <i8 as MD<'x>>::spec_serialize(v.size_z) + varint_bytes(v.mirror as u32) + varint_bytes(v.rotation as u32) + <&'x str as MD<'x>>::spec_serialize(v.metadata) + <u32 as MD<'x>>::spec_serialize(v.integrity), varlong_bytes(v.seed as u64));
        }
        self.flags.serialize(writer);
        proof {
            lemma_write_next(a, <Position as MD<'x>>::spec_serialize(v.location) + varint_bytes(v.action as u32) + varint_bytes(v.mode as u32) + <&'x str as MD<'x>>::spec_serialize(v.name) + <i8 as MD<'x>>::spec_serialize(v.offset_x) + <i8 as MD<'x>>::spec_serialize(v.offset_y) + <i8 as MD<'x>>::spec_serialize(v.offset_z) + <i8 as MD<'x>>::spec_serialize(v.size_x) + <i8 as MD<'x>>::spec_serialize(v.size_y) + <i8 as MD<'x>>::spec_serialize(v.size_z) + varint_bytes(v.mirror as u32) + varint_bytes(v.rotation as u32) + <&'x str as MD<'x>>::spec_serialize(v.metadata) + <u32 as MD<'x>>::spec_serialize(v.integrity) + varlong_bytes(v.seed as u64), <u8 as MD<'x>>::spec_header(), <u8 as MD<'x>>::spec_serialize(v.flags));
        }
    }
}

/// Packet `0x6` of the play state, sent by the client.
#[derive(Debug)]
pub struct TabCompleteRequest<'x> {
    pub transaction_id: i32,
    pub text: &'x str,
}

/// What a `TabCompleteRequest` holds.
pub struct TabCompleteRequestView {
    pub transaction_id: i32,
    pub text: Seq<char>,
}

impl<'x> DeepView for TabCompleteRequest<'x> {
    type V = TabCompleteRequestView;

    open spec fn deep_view(&self) -> TabCompleteRequestView {
        TabCompleteRequestView { transaction_id: self.transaction_id, text: self.text.deep_view() }
    }
}

impl<'x> MD<'x> for TabCompleteRequest<'x> {
    open spec fn spec_deserialize(s0: Seq<u8>) -> Option<(TabCompleteRequestView, Seq<u8>)> {
        match varint_field(s0) {
            Some((transaction_id, s1)) => {
                match <&'x str as MD<'x>>::spec_deserialize(s1) {
                    Some((text, s2)) => {
                        Some((TabCompleteRequestView { transaction_id, text }, s2))
                    },
                    None => None,
                }
            },
            None => None,
        }
    }

    open spec fn serializable() -> bool {
        <&'x str as MD<'x>>::serializable()
    }

    open spec fn spec_header() -> Seq<u8> {
        varint_bytes(0x6)
    }

    open spec fn takes_rest() -> bool {
        false
    }

    open spec fn spec_serialize(v: TabCompleteRequestView) -> Seq<u8> {
        varint_bytes(v.transaction_id as u32) + <&'x str as MD<'x>>::spec_serialize(v.text)
    }

    open spec fn encodable(v: TabCompleteRequestView) -> bool {
        Self::serializable() && <&'x str as MD<'x>>::encodable(v.text)
    }

    proof fn lemma_roundtrip(v: TabCompleteRequestView, rest: Seq<u8>) {
        let b0 = varint_bytes(v.transaction_id as u32);
        let b1 = <&'x str as MD<'x>>::spec_serialize(v.text);
        let t2 = rest;
        let t1 = b1 + t2;
        let t0 = b0 + t1;
        lemma_concat_associative(b0, b1, t2);
        lemma_varint_field_roundtrip(v.transaction_id, t1);
        <&'x str as MD<'x>>::lemma_roundtrip(v.text, t2);
    }

    fn deserialize(memory: &mut &'x [u8]) -> (res: Result<TabCompleteRequest<'x>, ParseError>) {
        let transaction_id: i32 = read_varint(memory)?;
        let text: &'x str = <&'x str as MD<'x>>::deserialize(memory)?;
        Ok(TabCompleteRequest { transaction_id, text })
    }

    fn serialize(&self, writer: &mut Vec<u8>) {
        let ghost v = self.deep_view();
        write_varint(writer, 0x6);
        let ghost a = writer@;
        assert(old(writer)@ + Self::spec_header() =~= a);
        write_varint(writer, self.transaction_id as u32);
        self.text.serialize(writer);
        proof {
            lemma_write_next(a, varint_bytes(v.transaction_id as u32), <&'x str as MD<'x>>::spec_header(), <&'x str as MD<'x>>::spec_serialize(v.text));
        }
    }
}

/// Packet `0x3` of the play state, sent by the client.
#[derive(Debug)]
pub struct ChatRequest<'x> {
    pub message: &'x str,
}

/// What a `ChatRequest` holds.
pub struct ChatRequestView {
    pub message: Seq<char>,
}

impl<'x> DeepView for ChatRequest<'x> {
    type V = ChatRequestView;

    open spec fn deep_view(&self) -> ChatRequestView {
        ChatRequestView { message: self.message.deep_view() }
    }
}

impl<'x> MD<'x> for ChatRequest<'x> {
    open spec fn spec_deserialize(s0: Seq<u8>) -> Option<(ChatRequestView, Seq<u8>)> {
        match <&'x str as MD<'x>>::spec_deserialize(s0) {
            Some((message, s1)) => {
                Some((ChatRequestView { message }, s1))
            },
            None => None,
        }
    }

    open spec fn serializable() -> bool {
        <&'x str as MD<'x>>::serializable()
    }

    open spec fn spec_header() -> Seq<u8> {
        varint_bytes(0x3)
    }

    open spec fn takes_rest() -> bool {
        false
    }

    open spec fn spec_serialize(v: ChatRequestView) -> Seq<u8> {
        <&'x str as MD<'x>>::spec_serialize(v.message)
    }

    open spec fn encodable(v: ChatRequestView) -> bool {
        Self::serializable() && <&'x str as MD<'x>>::encodable(v.message)
    }

    proof fn lemma_roundtrip(v: ChatRequestView, rest: Seq<u8>) {
        let b0 = <&'x str as MD<'x>>::spec_serialize(v.message);
        let t1 = rest;
        let t0 = b0 + t1;
        assert(Self::spec_serialize(v) + rest == t0);
        <&'x str as MD<'x>>::lemma_roundtrip(v.message, t1);
    }

    fn deserialize(memory: &mut &'x [u8]) -> (res: Result<ChatRequest<'x>, ParseError>) {
        let message: &'x str = <&'x str as MD<'x>>::deserialize(memory)?;
        Ok(ChatRequest { message })
    }

    fn serialize(&self, writer: &mut Vec<u8>) {
        let ghost v = self.deep_view();
        write_varint(writer, 0x3);
        let ghost a = writer@;
        assert(old(writer)@ + Self::spec_header() =~= a);
        self.message.serialize(writer);
        proof {
            lemma_write_after_header(a, <&'x str as MD<'x>>::spec_header(), <&'x str as MD<'x>>::spec_serialize(v.message));
        }
    }
}

/// Packet `0x4` of the play state, sent by the client.
#[derive(Debug)]
pub struct ClientCommandRequest {
    pub action_id: i32,
}

impl DeepView for ClientCommandRequest {
    type V = ClientCommandRequest;

    open spec fn deep_view(&self) -> ClientCommandRequest {
        *self
    }
}

impl<'x> MD<'x> for ClientCommandRequest {
    open spec fn spec_deserialize(s0: Seq<u8>) -> Option<(ClientCommandRequest, Seq<u8>)> {
        match varint_field(s0) {
            Some((action_id, s1)) => {
                Some((ClientCommandRequest { action_id }, s1))
            },
            None => None,
        }
    }

    open spec fn serializable() -> bool {
        true
    }

    open spec fn spec_header() -> Seq<u8> {
        varint_bytes(0x4)
    }

    open spec fn takes_rest() -> bool {
        false
    }

    open spec fn spec_serialize(v: ClientCommandRequest) -> Seq<u8> {
        varint_bytes(v.action_id as u32)
    }

    open spec fn encodable(v: ClientCommandRequest) -> bool {
        Self::serializable()
    }

    proof fn lemma_roundtrip(v: ClientCommandRequest, rest: Seq<u8>) {
        let b0 = varint_bytes(v.action_id as u32);
        let t1 = rest;
        let t0 = b0 + t1;
        assert(Self::spec_serialize(v) + rest == t0);
        lemma_varint_field_roundtrip(v.action_id, t1);
    }

    fn deserialize(memory: &mut &'x [u8]) -> (res: Result<ClientCommandRequest, ParseError>) {
        let action_id: i32 = read_varint(memory)?;
        Ok(ClientCommandRequest { action_id })
    }

    fn serialize(&self, writer: &mut Vec<u8>) {
        let ghost v = self.deep_view();
        write_varint(writer, 0x4);
        let ghost a = writer@;
        assert(old(writer)@ + Self::spec_header() =~= a);
        write_varint(writer, self.action_id as u32);
    }
}

/// Packet `0x5` of the play state, sent by the client.
#[derive(Debug)]
pub struct SettingsRequest<'x> {
    pub locale: &'x str,
    pub view_distance: i8,
    pub chat_flags: i32,
    pub chat_colors: bool,
    pub skin_parts: u8,
    pub main_hand: i32,
    pub enable_text_filtering: bool,
    pub enable_server_listing: bool,
}

/// What a `SettingsRequest` holds.
pub struct SettingsRequestView {
    pub locale: Seq<char>,
    pub view_distance: i8,
    pub chat_flags: i32,
    pub chat_colors: bool,
    pub skin_parts: u8,
    pub main_hand: i32,
    pub enable_text_filtering: bool,
    pub enable_server_listing: bool,
}

impl<'x> DeepView for SettingsRequest<'x> {
    type V = SettingsRequestView;

    open spec fn deep_view(&self) -> SettingsRequestView {
        SettingsRequestView { locale: self.locale.deep_view(), view_distance: self.view_distance, chat_flags: self.chat_flags, chat_colors: self.chat_colors, skin_parts: self.skin_parts, main_hand: self.main_hand, enable_text_filtering: self.enable_text_filtering, enable_server_listing: self.enable_server_listing }
    }
}

impl<'x> MD<'x> for SettingsRequest<'x> {
    open spec fn spec_deserialize(s0: Seq<u8>) -> Option<(SettingsRequestView, Seq<u8>)> {
        match <&'x str as MD<'x>>::spec_deserialize(s0) {
            Some((locale, s1)) => {
                match <i8 as MD<'x>>::spec_deserialize(s1) {
                    Some((view_distance, s2)) => {
                        match varint_field(s2) {
                            Some((chat_flags, s3)) => {
                                match <bool as MD<'x>>::spec_deserialize(s3) {
                                    Some((chat_colors, s4)) => {
                                        match <u8 as MD<'x>>::spec_deserialize(s4) {
                                            Some((skin_parts, s5)) => {
                                                match varint_field(s5) {
                                                    Some((main_hand, s6)) => {
                                                        match <bool as MD<'x>>::spec_deserialize(s6) {
                                                            Some((enable_text_filtering, s7)) => {
                                                                match <bool as MD<'x>>::spec_deserialize(s7) {
                                                                    Some((enable_server_listing, s8)) => {
                                                                        Some((SettingsRequestView { locale, view_distance, chat_flags, chat_colors, skin_parts, main_hand, enable_text_filtering, enable_server_listing }, s8))
                                                                    },
                                                                    None => None,
                                                                }
                                                            },
                                                            None => None,
                                                        }
                                                    },
                                                    None => None,
                                                }
                                            },
                                            None => None,
                                        }
                                    },
                                    None => None,
                                }
                            },
                            None => None,
                        }
                    },
                    None => None,
                }
            },
            None => None,
        }
    }

    open spec fn serializable() -> bool {
        <&'x str as MD<'x>>::serializable() && <i8 as MD<'x>>::serializable() && <bool as MD<'x>>::serializable() && <u8 as MD<'x>>::serializable() && <bool as MD<'x>>::serializable() && <bool as MD<'x>>::serializable()
    }

    open spec fn spec_header() -> Seq<u8> {
        varint_bytes(0x5)
    }

    open spec fn takes_rest() -> bool {
        false
    }

    open spec fn spec_serialize(v: SettingsRequestView) -> Seq<u8> {
        <&'x str as MD<'x>>::spec_serialize(v.locale) + <i8 as MD<'x>>::spec_serialize(v.view_distance) + varint_bytes(v.chat_flags as u32) + <bool as MD<'x>>::spec_serialize(v.chat_colors) + <u8 as MD<'x>>::spec_serialize(v.skin_parts) + varint_bytes(v.main_hand as u32) + <bool as MD<'x>>::spec_serialize(v.enable_text_filtering) + <bool as MD<'x>>::spec_serialize(v.enable_server_listing)
    }

    open spec fn encodable(v: SettingsRequestView) -> bool {
        Self::serializable() && <&'x str as MD<'x>>::encodable(v.locale) && <i8 as MD<'x>>::encodable(v.view_distance) && <bool as MD<'x>>::encodable(v.chat_colors) && <u8 as MD<'x>>::encodable(v.skin_parts) && <bool as MD<'x>>::encodable(v.enable_text_filtering) && <bool as MD<'x>>::encodable(v.enable_server_listing)
    }

    proof fn lemma_roundtrip(v: SettingsRequestView, rest: Seq<u8>) {
        let b0 = <&'x str as MD<'x>>::spec_serialize(v.locale);
        let b1 = <i8 as MD<'x>>::spec_serialize(v.view_distance);
        let b2 = varint_bytes(v.chat_flags as u32);
        let b3 = <bool as MD<'x>>::spec_serialize(v.chat_colors);
        let b4 = <u8 as MD<'x>>::spec_serialize(v.skin_parts);
        let b5 = varint_bytes(v.main_hand as u32);
        let b6 = <bool as MD<'x>>::spec_serialize(v.enable_text_filtering);
        let b7 = <bool as MD<'x>>::spec_serialize(v.enable_server_listing);
        let t8 = rest;
        let t7 = b7 + t8;
        let t6 = b6 + t7;
        let t5 = b5 + t6;
        let t4 = b4 + t5;
        let t3 = b3 + t4;
        let t2 = b2 + t3;
        let t1 = b1 + t2;
        let t0 = b0 + t1;
        lemma_concat_associative(b0 + b1 + b2 + b3 + b4 + b5 + b6, b7, t8);
        lemma_concat_associative(b0 + b1 + b2 + b3 + b4 + b5, b6, t7);
        lemma_concat_associative(b0 + b1 + b2 + b3 + b4, b5, t6);
        lemma_concat_associative(b0 + b1 + b2 + b3, b4, t5);
        lemma_concat_associative(b0 + b1 + b2, b3, t4);
        lemma_concat_associative(b0 + b1, b2, t3);
        lemma_concat_associative(b0, b1, t2);
        <&'x str as MD<'x>>::lemma_roundtrip(v.locale, t1);
        <i8 as MD<'x>>::lemma_roundtrip(v.view_distance, t2);
        lemma_varint_field_roundtrip(v.chat_flags, t3);
        <bool as MD<'x>>::lemma_roundtrip(v.chat_colors, t4);
        <u8 as MD<'x>>::lemma_roundtrip(v.skin_parts, t5);
        lemma_varint_field_roundtrip(v.main_hand, t6);
        <bool as MD<'x>>::lemma_roundtrip(v.enable_text_filtering, t7);
        <bool as MD<'x>>::lemma_roundtrip(v.enable_server_listing, t8);
    }

    fn deserialize(memory: &mut &'x [u8]) -> (res: Result<SettingsRequest<'x>, ParseError>) {
        let locale: &'x str = <&'x str as MD<'x>>::deserialize(memory)?;
        let view_distance: i8 = <i8 as MD<'x>>::deserialize(memory)?;
        let chat_flags: i32 = read_varint(memory)?;
        let chat_colors: bool = <bool as MD<'x>>::deserialize(memory)?;
        let skin_parts: u8 = <u8 as MD<'x>>::deserialize(memory)?;
        let main_hand: i32 = read_varint(memory)?;
        let enable_text_filtering: bool = <bool as MD<'x>>::deserialize(memory)?;
        let enable_server_listing: bool = <bool as MD<'x>>::deserialize(memory)?;
        Ok(SettingsRequest { locale, view_distance, chat_flags, chat_colors, skin_parts, main_hand, enable_text_filtering, enable_server_listing })
    }

    fn serialize(&self, writer: &mut Vec<u8>) {
        let ghost v = self.deep_view();
        write_varint(writer, 0x5);
        let ghost a = writer@;
        assert(old(writer)@ + Self::spec_header() =~= a);
        self.locale.serialize(writer);
        proof {
            lemma_write_after_header(a, <&'x str as MD<'x>>::spec_header(), <&'x str as MD<'x>>::spec_serialize(v.locale));
        }
        self.view_distance.serialize(writer);
        proof {
            lemma_write_next(a, <&'x str as MD<'x>>::spec_serialize(v.locale), <i8 as MD<'x>>::spec_header(), <i8 as MD<'x>>::spec_serialize(v.view_distance));
        }
        write_varint(writer, self.chat_flags as u32);
        proof {
            lemma_concat_associative(a, <&'x str as MD<'x>>::spec_serialize(v.locale) + <i8 as MD<'x>>::spec_serialize(v.view_distance), varint_bytes(v.chat_flags as u32));
        }
        self.chat_colors.serialize(writer);
        proof {
            lemma_write_next(a, <&'x str as MD<'x>>::spec_serialize(v.locale) + <i8 as MD<'x>>::spec_serialize(v.view_distance) + varint_bytes(v.chat_flags as u32), <bool as MD<'x>>::spec_header(), <bool as MD<'x>>::spec_serialize(v.chat_colors));
        }
        self.skin_parts.serialize(writer);
        proof {
            lemma_write_next(a, <&'x str as MD<'x>>::spec_serialize(v.locale) + <i8 as MD<'x>>::spec_serialize(v.view_distance) + varint_bytes(v.chat_flags as u32) + <bool as MD<'x>>::spec_serialize(v.chat_colors), <u8 as MD<'x>>::spec_header(), <u8 as MD<'x>>::spec_serialize(v.skin_parts));
        }
        write_varint(writer, self.main_hand as u32);
        proof {
            lemma_concat_associative(a, <&'x str as MD<'x>>::spec_serialize(v.locale) + <i8 as MD<'x>>::spec_serialize(v.view_distance) + varint_bytes(v.chat_flags as u32) + <bool as MD<'x>>::spec_serialize(v.chat_colors) + <u8 as MD<'x>>::spec_serialize(v.skin_parts), varint_bytes(v.main_hand as u32));
        }
        self.enable_text_filtering.serialize(writer);
        proof {
            lemma_write_next(a, <&'x str as MD<'x>>::spec_serialize(v.locale) + <i8 as MD<'x>>::spec_serialize(v.view_distance) + varint_bytes(v.chat_flags as u32) + <bool as MD<'x>>::spec_serialize(v.chat_colors) + <u8 as MD<'x>>::spec_serialize(v.skin_parts) + varint_bytes(v.main_hand as u32), <bool as MD<'x>>::spec_header(), <bool as MD<'x>>::spec_serialize(v.enable_text_filtering));
        }
        self.enable_server_listing.serialize(writer);
        proof {
            lemma_write_next(a, <&'x str as MD<'x>>::spec_serialize(v.locale) + <i8 as MD<'x>>::spec_serialize(v.view_distance) + varint_bytes(v.chat_flags as u32) + <bool as MD<'x>>::spec_serialize(v.chat_colors) + <u8 as MD<'x>>::spec_serialize(v.skin_parts) + varint_bytes(v.main_hand as u32) + <bool as MD<'x>>::spec_serialize(v.enable_text_filtering), <bool as MD<'x>>::spec_header(), <bool as MD<'x>>::spec_serialize(v.enable_server_listing));
        }
    }
}

/// Packet `0x7` of the play state, sent by the client.
#[derive(Debug)]
pub struct EnchantItemRequest {
    pub window_id: i8,
    pub enchantment: i8,
}

impl DeepView for EnchantItemRequest {
    type V = EnchantItemRequest;

    open spec fn deep_view(&self) -> EnchantItemRequest {
        *self
    }
}

impl<'x> MD<'x> for EnchantItemRequest {
    open spec fn spec_deserialize(s0: Seq<u8>) -> Option<(EnchantItemRequest, Seq<u8>)> {
        match <i8 as MD<'x>>::spec_deserialize(s0) {
            Some((window_id, s1)) => {
                match <i8 as MD<'x>>::spec_deserialize(s1) {
                    Some((enchantment, s2)) => {
                        Some((EnchantItemRequest { window_id, enchantment }, s2))
                    },
                    None => None,
                }
            },
            None => None,
        }
    }

    open spec fn serializable() -> bool {
        <i8 as MD<'x>>::serializable() && <i8 as MD<'x>>::serializable()
    }

    open spec fn spec_header() -> Seq<u8> {
        varint_bytes(0x7)
    }

    open spec fn takes_rest() -> bool {
        false
    }

    open spec fn spec_serialize(v: EnchantItemRequest) -> Seq<u8> {
        <i8 as MD<'x>>::spec_serialize(v.window_id) + <i8 as MD<'x>>::spec_serialize(v.enchantment)
    }

    open spec fn encodable(v: EnchantItemRequest) -> bool {
        Self::serializable() && <i8 as MD<'x>>::encodable(v.window_id) && <i8 as MD<'x>>::encodable(v.enchantment)
    }

    proof fn lemma_roundtrip(v: EnchantItemRequest, rest: Seq<u8>) {
        let b0 = <i8 as MD<'x>>::spec_serialize(v.window_id);
        let b1 = <i8 as MD<'x>>::spec_serialize(v.enchantment);
        let t2 = rest;
        let t1 = b1 + t2;
        let t0 = b0 + t1;
        lemma_concat_associative(b0, b1, t2);
        <i8 as MD<'x>>::lemma_roundtrip(v.window_id, t1);
        <i8 as MD<'x>>::lemma_roundtrip(v.enchantment, t2);
    }

    fn deserialize(memory: &mut &'x [u8]) -> (res: Result<EnchantItemRequest, ParseError>) {
        let window_id: i8 = <i8 as MD<'x>>::deserialize(memory)?;
        let enchantment: i8 = <i8 as MD<'x>>::deserialize(memory)?;
        Ok(EnchantItemRequest { window_id, enchantment })
    }

    fn serialize(&self, writer: &mut Vec<u8>) {
        let ghost v = self.deep_view();
        write_varint(writer, 0x7);
        let ghost a = writer@;
        assert(old(writer)@ + Self::spec_header() =~= a);
        self.window_id.serialize(writer);
        proof {
            lemma_write_after_header(a, <i8 as MD<'x>>::spec_header(), <i8 as MD<'x>>::spec_serialize(v.window_id));
        }
        self.enchantment.serialize(writer);
        proof {
            lemma_write_next(a, <i8 as MD<'x>>::spec_serialize(v.window_id), <i8 as MD<'x>>::spec_header(), <i8 as MD<'x>>::spec_serialize(v.enchantment));
        }
    }
}

#[derive(Debug)]
pub struct WindowClickRequest_ChangedSlots<'x> {
    pub location: i16,
    pub item: InventorySlot<'x>,
}

/// What a `WindowClickRequest_ChangedSlots` holds.
pub struct WindowClickRequest_ChangedSlotsView {
    pub location: i16,
    pub item: Option<InventorySlotDataView>,
}

impl<'x> DeepView for WindowClickRequest_ChangedSlots<'x> {
    type V = WindowClickRequest_ChangedSlotsView;

    open spec fn deep_view(&self) -> WindowClickRequest_ChangedSlotsView {
        WindowClickRequest_ChangedSlotsView { location: self.location, item: self.item.deep_view() }
    }
}

impl<'x> MD<'x> for WindowClickRequest_ChangedSlots<'x> {
    open spec fn spec_deserialize(s0: Seq<u8>) -> Option<(WindowClickRequest_ChangedSlotsView, Seq<u8>)> {
        match <i16 as MD<'x>>::spec_deserialize(s0) {
            Some((location, s1)) => {
                match <InventorySlot<'x> as MD<'x>>::spec_deserialize(s1) {
                    Some((item, s2)) => {
                        Some((WindowClickRequest_ChangedSlotsView { location, item }, s2))
                    },
                    None => None,
                }
            },
            None => None,
        }
    }

    open spec fn serializable() -> bool {
        <i16 as MD<'x>>::serializable() && <InventorySlot<'x> as MD<'x>>::serializable()
    }

    open spec fn spec_header() -> Seq<u8> {
        Seq::empty()
    }

    open spec fn takes_rest() -> bool {
        false
    }

    open spec fn spec_serialize(v: WindowClickRequest_ChangedSlotsView) -> Seq<u8> {
        <i16 as MD<'x>>::spec_serialize(v.location) + <InventorySlot<'x> as MD<'x>>::spec_serialize(v.item)
    }

    open spec fn encodable(v: WindowClickRequest_ChangedSlotsView) -> bool {
        Self::serializable() && <i16 as MD<'x>>::encodable(v.location) && <InventorySlot<'x> as MD<'x>>::encodable(v.item)
    }

    proof fn lemma_roundtrip(v: WindowClickRequest_ChangedSlotsView, rest: Seq<u8>) {
        let b0 = <i16 as MD<'x>>::spec_serialize(v.location);
        let b1 = <InventorySlot<'x> as MD<'x>>::spec_serialize(v.item);
        let t2 = rest;
        let t1 = b1 + t2;
        let t0 = b0 + t1;
        lemma_concat_associative(b0, b1, t2);
        <i16 as MD<'x>>::lemma_roundtrip(v.location, t1);
        <InventorySlot<'x> as MD<'x>>::lemma_roundtrip(v.item, t2);
    }

    fn deserialize(memory: &mut &'x [u8]) -> (res: Result<WindowClickRequest_ChangedSlots<'x>, ParseError>) {
        let location: i16 = <i16 as MD<'x>>::deserialize(memory)?;
        let item: InventorySlot<'x> = <InventorySlot<'x> as MD<'x>>::deserialize(memory)?;
        Ok(WindowClickRequest_ChangedSlots { location, item })
    }

    fn serialize(&self, writer: &mut Vec<u8>) {
        let ghost v = self.deep_view();
        let ghost a = writer@;
        assert(old(writer)@ + Self::spec_header() =~= a);
        self.location.serialize(writer);
        proof {
            lemma_write_after_header(a, <i16 as MD<'x>>::spec_header(), <i16 as MD<'x>>::spec_serialize(v.location));
        }
        self.item.serialize(writer);
        proof {
            lemma_write_next(a, <i16 as MD<'x>>::spec_serialize(v.location), <InventorySlot<'x> as MD<'x>>::spec_header(), <InventorySlot<'x> as MD<'x>>::spec_serialize(v.item));
        }
    }
}

/// Packet `0x8` of the play state, sent by the client.
#[derive(Debug)]
pub struct WindowClickRequest<'x> {
    pub window_id: u8,
    pub state_id: i32,
    pub slot: i16,
    pub mouse_button: i8,
    pub mode: i32,
    pub changed_slots: Vec<WindowClickRequest_ChangedSlots<'x>>,
    pub cursor_item: InventorySlot<'x>,
}

/// What a `WindowClickRequest` holds.
pub struct WindowClickRequestView {
    pub window_id: u8,
    pub state_id: i32,
    pub slot: i16,
    pub mouse_button: i8,
    pub mode: i32,
    pub changed_slots: Seq<WindowClickRequest_ChangedSlotsView>,
    pub cursor_item: Option<InventorySlotDataView>,
}

impl<'x> DeepView for WindowClickRequest<'x> {
    type V = WindowClickRequestView;

    open spec fn deep_view(&self) -> WindowClickRequestView {
        WindowClickRequestView { window_id: self.window_id, state_id: self.state_id, slot: self.slot, mouse_button: self.mouse_button, mode: self.mode, changed_slots: self.changed_slots.deep_view(), cursor_item: self.cursor_item.deep_view() }
    }
}

impl<'x> MD<'x> for WindowClickRequest<'x> {
    open spec fn spec_deserialize(s0: Seq<u8>) -> Option<(WindowClickRequestView, Seq<u8>)> {
        match <u8 as MD<'x>>::spec_deserialize(s0) {
            Some((window_id, s1)) => {
                match varint_field(s1) {
                    Some((state_id, s2)) => {
                        match <i16 as MD<'x>>::spec_deserialize(s2) {
                            Some((slot, s3)) => {
                                match <i8 as MD<'x>>::spec_deserialize(s3) {
                                    Some((mouse_button, s4)) => {
                                        match varint_field(s4) {
                                            Some((mode, s5)) => {
                                                match varint_field(s5) {
                                                    Some((changed_slots_count, s6)) => {
                                                        match spec_array::<'x, WindowClickRequest_ChangedSlots<'x>>(s6, changed_slots_count as int) {
                                                            Some((changed_slots, s7)) => {
                                                                match <InventorySlot<'x> as MD<'x>>::spec_deserialize(s7) {
                                                                    Some((cursor_item, s8)) => {
                                                                        Some((WindowClickRequestView { window_id, state_id, slot, mouse_button, mode, changed_slots, cursor_item }, s8))
                                                                    },
                                                                    None => None,
                                                                }
                                                            },
                                                            None => None,
                                                        }
                                                    },
                                                    None => None,
                                                }
                                            },
                                            None => None,
                                        }
                                    },
                                    None => None,
                                }
                            },
                            None => None,
                        }
                    },
                    None => None,
                }
            },
            None => None,
        }
    }

    open spec fn serializable() -> bool {
        false
    }

    open spec fn spec_header() -> Seq<u8> {
        Seq::empty()
    }

    open spec fn takes_rest() -> bool {
        false
    }

    open spec fn spec_serialize(v: WindowClickRequestView) -> Seq<u8> {
        Seq::empty()
    }

    open spec fn encodable(v: WindowClickRequestView) -> bool {
        Self::serializable()
    }

    proof fn lemma_roundtrip(v: WindowClickRequestView, rest: Seq<u8>) {
    }

    fn deserialize(memory: &mut &'x [u8]) -> (res: Result<WindowClickRequest<'x>, ParseError>) {
        let window_id: u8 = <u8 as MD<'x>>::deserialize(memory)?;
        let state_id: i32 = read_varint(memory)?;
        let slot: i16 = <i16 as MD<'x>>::deserialize(memory)?;
        let mouse_button: i8 = <i8 as MD<'x>>::deserialize(memory)?;
        let mode: i32 = read_varint(memory)?;
        let changed_slots_count: i32 = read_varint(memory)?;
        let changed_slots: Vec<WindowClickRequest_ChangedSlots<'x>> = read_array(memory, changed_slots_count)?;
        let cursor_item: InventorySlot<'x> = <InventorySlot<'x> as MD<'x>>::deserialize(memory)?;
        Ok(WindowClickRequest { window_id, state_id, slot, mouse_button, mode, changed_slots, cursor_item })
    }

    fn serialize(&self, writer: &mut Vec<u8>) {
    }
}

/// Packet `0x9` of the play state, sent by the client.
#[derive(Debug)]
pub struct CloseWindowRequest {
    pub window_id: u8,
}

impl DeepView for CloseWindowRequest {
    type V = CloseWindowRequest;

    open spec fn deep_view(&self) -> CloseWindowRequest {
        *self
    }
}

impl<'x> MD<'x> for CloseWindowRequest {
    open spec fn spec_deserialize(s0: Seq<u8>) -> Option<(CloseWindowRequest, Seq<u8>)> {
        match <u8 as MD<'x>>::spec_deserialize(s0) {
            Some((window_id, s1)) => {
                Some((CloseWindowRequest { window_id }, s1))
            },
            None => None,
        }
    }

    open spec fn serializable() -> bool {
        <u8 as MD<'x>>::serializable()
    }

    open spec fn spec_header() -> Seq<u8> {
        varint_bytes(0x9)
    }

    open spec fn takes_rest() -> bool {
        false
    }

    open spec fn spec_serialize(v: CloseWindowRequest) -> Seq<u8> {
        <u8 as MD<'x>>::spec_serialize(v.window_id)
    }

    open spec fn encodable(v: CloseWindowRequest) -> bool {
        Self::serializable() && <u8 as MD<'x>>::encodable(v.window_id)
    }

    proof fn lemma_roundtrip(v: CloseWindowRequest, rest: Seq<u8>) {
        let b0 = <u8 as MD<'x>>::spec_serialize(v.window_id);
        let t1 = rest;
        let t0 = b0 + t1;
        assert(Self::spec_serialize(v) + rest == t0);
        <u8 as MD<'x>>::lemma_roundtrip(v.window_id, t1);
    }

    fn deserialize(memory: &mut &'x [u8]) -> (res: Result<CloseWindowRequest, ParseError>) {
        let window_id: u8 = <u8 as MD<'x>>::deserialize(memory)?;
        Ok(CloseWindowRequest { window_id })
    }

    fn serialize(&self, writer: &mut Vec<u8>) {
        let ghost v = self.deep_view();
        write_varint(writer, 0x9);
        let ghost a = writer@;
        assert(old(writer)@ + Self::spec_header() =~= a);
        self.window_id.serialize(writer);
        proof {
            lemma_write_after_header(a, <u8 as MD<'x>>::spec_header(), <u8 as MD<'x>>::spec_serialize(v.window_id));
        }
    }
}

/// Packet `0xa` of the play state, sent by the client.
#[derive(Debug)]
pub struct CustomPayloadRequest<'x> {
    pub channel: &'x str,
    pub data: &'x [u8],
}

/// What a `CustomPayloadRequest` holds.
pub struct CustomPayloadRequestView {
    pub channel: Seq<char>,
    pub data: Seq<u8>,
}

impl<'x> DeepView for CustomPayloadRequest<'x> {
    type V = CustomPayloadRequestView;

    open spec fn deep_view(&self) -> CustomPayloadRequestView {
        CustomPayloadRequestView { channel: self.channel.deep_view(), data: self.data.deep_view() }
    }
}

impl<'x> MD<'x> for CustomPayloadRequest<'x> {
    open spec fn spec_deserialize(s0: Seq<u8>) -> Option<(CustomPayloadRequestView, Seq<u8>)> {
        match <&'x str as MD<'x>>::spec_deserialize(s0) {
            Some((channel, s1)) => {
                match rest_field(s1) {
                    Some((data, s2)) => {
                        Some((CustomPayloadRequestView { channel, data }, s2))
                    },
                    None => None,
                }
            },
            None => None,
        }
    }

    open spec fn serializable() -> bool {
        <&'x str as MD<'x>>::serializable()
    }

    open spec fn spec_header() -> Seq<u8> {
        varint_bytes(0xa)
    }

    open spec fn takes_rest() -> bool {
        true
    }

    open spec fn spec_serialize(v: CustomPayloadRequestView) -> Seq<u8> {
        <&'x str as MD<'x>>::spec_serialize(v.channel) + v.data
    }

    open spec fn encodable(v: CustomPayloadRequestView) -> bool {
        Self::serializable() && <&'x str as MD<'x>>::encodable(v.channel)
    }

    proof fn lemma_roundtrip(v: CustomPayloadRequestView, rest: Seq<u8>) {
        let b0 = <&'x str as MD<'x>>::spec_serialize(v.channel);
        let b1 = v.data;
        let t2 = rest;
        let t1 = b1 + t2;
        let t0 = b0 + t1;
        lemma_concat_associative(b0, b1, t2);
        <&'x str as MD<'x>>::lemma_roundtrip(v.channel, t1);
        assert(b1 + rest =~= b1);
    }

    fn deserialize(memory: &mut &'x [u8]) -> (res: Result<CustomPayloadRequest<'x>, ParseError>) {
        let channel: &'x str = <&'x str as MD<'x>>::deserialize(memory)?;
        let data: &'x [u8] = read_rest(memory);
        Ok(CustomPayloadRequest { channel, data })
    }

    fn serialize(&self, writer: &mut Vec<u8>) {
        let ghost v = self.deep_view();
        write_varint(writer, 0xa);
        let ghost a = writer@;
        assert(old(writer)@ + Self::spec_header() =~= a);
        self.channel.serialize(writer);
        proof {
            lemma_write_after_header(a, <&'x str as MD<'x>>::spec_header(), <&'x str as MD<'x>>::spec_serialize(v.channel));
        }
        push_slice(writer, self.data);
        proof {
            lemma_slice_deep_view(self.data);
            lemma_concat_associative(a, <&'x str as MD<'x>>::spec_serialize(v.channel), v.data);
        }
    }
}

/// Where on an entity a player interacts.
#[derive(Debug)]
pub struct Coords {
    /// The IEEE 754 bits of the `f32` value.
    pub x: u32,
    /// The IEEE 754 bits of the `f32` value.
    pub y: u32,
    /// The IEEE 754 bits of the `f32` value.
    pub z: u32,
}

impl DeepView for Coords {
    type V = Coords;

    open spec fn deep_view(&self) -> Coords {
        *self
    }
}

/// What a player does to an entity.
#[derive(Debug)]
pub enum UseEntityKind {
    Interact,
    Attack,
    InteractAt(Coords),
}

impl DeepView for UseEntityKind {
    type V = UseEntityKind;

    open spec fn deep_view(&self) -> UseEntityKind {
        *self
    }
}

/// The action that follows an action number at the front of `s`: number 0
/// (interact) carries the hand, number 1 (attack) nothing, number 2
/// (interact at) three coordinates and the hand. The hand is read and not
/// kept. Any other number is refused.
pub open spec fn spec_use_entity_kind(kind: i32, s: Seq<u8>) -> Option<(UseEntityKind, Seq<u8>)> {
    if kind == 0 {
        match varint_field(s) {
            Some((_hand, s1)) => Some((UseEntityKind::Interact, s1)),
            None => None,
        }
    } else if kind == 1 {
        Some((UseEntityKind::Attack, s))
    } else if kind == 2 {
        match <u32 as MD<'static>>::spec_deserialize(s) {
            Some((x, s1)) => match <u32 as MD<'static>>::spec_deserialize(s1) {
                Some((y, s2)) => match <u32 as MD<'static>>::spec_deserialize(s2) {
                    Some((z, s3)) => match varint_field(s3) {
                        Some((_hand, s4)) => Some((UseEntityKind::InteractAt(Coords { x, y, z }), s4)),
                        None => None,
                    },
                    None => None,
                },
                None => None,
            },
            None => None,
        }
    } else {
        None
    }
}

/// Reads the action that action number `kind` announces.
pub fn read_use_entity_kind(memory: &mut &[u8], kind: i32) -> (res: Result<UseEntityKind, ParseError>)
    ensures
        match spec_use_entity_kind(kind, old(memory)@) {
            Some((k, rest)) => res == Ok::<UseEntityKind, ParseError>(k) && final(memory)@ == rest,
            None => res is Err,
        },
        kind < 0 || kind > 2 ==> (res matches Err(e) && e == ParseError::UnknownUseEntityKind(kind)
            && final(memory)@ == old(memory)@),
{
    if kind == 0 {
        let _hand: i32 = read_varint(memory)?;
        Ok(UseEntityKind::Interact)
    } else if kind == 1 {
        Ok(UseEntityKind::Attack)
    } else if kind == 2 {
        let x: u32 = <u32 as MD>::deserialize(memory)?;
        let y: u32 = <u32 as MD>::deserialize(memory)?;
        let z: u32 = <u32 as MD>::deserialize(memory)?;
        let _hand: i32 = read_varint(memory)?;
        Ok(UseEntityKind::InteractAt(Coords { x, y, z }))
    } else {
        Err(ParseError::UnknownUseEntityKind(kind))
    }
}

/// Packet `0xd` of the play state, sent by the client.
#[derive(Debug)]
pub struct UseEntityRequest {
    pub entity_id: i32,
    pub kind: UseEntityKind,
    pub sneaking: bool,
}

impl DeepView for UseEntityRequest {
    type V = UseEntityRequest;

    open spec fn deep_view(&self) -> UseEntityRequest {
        *self
    }
}

impl<'x> MD<'x> for UseEntityRequest {
    open spec fn spec_deserialize(s0: Seq<u8>) -> Option<(UseEntityRequest, Seq<u8>)> {
        match varint_field(s0) {
            Some((entity_id, s1)) => match varint_field(s1) {
                Some((kind_number, s2)) => match spec_use_entity_kind(kind_number, s2) {
                    Some((kind, s3)) => match <bool as MD<'x>>::spec_deserialize(s3) {
                        Some((sneaking, s4)) => Some((UseEntityRequest { entity_id, kind, sneaking }, s4)),
                        None => None,
                    },
                    None => None,
                },
                None => None,
            },
            None => None,
        }
    }

    open spec fn serializable() -> bool {
        false
    }

    open spec fn spec_header() -> Seq<u8> {
        Seq::empty()
    }

    open spec fn takes_rest() -> bool {
        false
    }

    open spec fn spec_serialize(v: UseEntityRequest) -> Seq<u8> {
        Seq::empty()
    }

    open spec fn encodable(v: UseEntityRequest) -> bool {
        Self::serializable()
    }

    proof fn lemma_roundtrip(v: UseEntityRequest, rest: Seq<u8>) {
    }

    fn deserialize(memory: &mut &'x [u8]) -> (res: Result<UseEntityRequest, ParseError>)
        ensures
            match varint_field(old(memory)@) {
                Some((_, s1)) => match varint_field(s1) {
                    Some((k, _)) => (k < 0 || k > 2) ==> (res matches Err(e) && e
                        == ParseError::UnknownUseEntityKind(k)),
                    None => true,
                },
                None => true,
            },
    {
        let entity_id: i32 = read_varint(memory)?;
        let kind_number: i32 = read_varint(memory)?;
        let kind: UseEntityKind = read_use_entity_kind(memory, kind_number)?;
        let sneaking: bool = <bool as MD<'x>>::deserialize(memory)?;
        Ok(UseEntityRequest { entity_id, kind, sneaking })
    }

    fn serialize(&self, writer: &mut Vec<u8>) {
    }
}

/// Packet `0xe` of the play state, sent by the client.
#[derive(Debug)]
pub struct GenerateStructureRequest {
    pub location: Position,
    pub levels: i32,
    pub keep_jigsaws: bool,
}

impl DeepView for GenerateStructureRequest {
    type V = GenerateStructureRequest;

    open spec fn deep_view(&self) -> GenerateStructureRequest {
        *self
    }
}

impl<'x> MD<'x> for GenerateStructureRequest {
    open spec fn spec_deserialize(s0: Seq<u8>) -> Option<(GenerateStructureRequest, Seq<u8>)> {
        match <Position as MD<'x>>::spec_deserialize(s0) {
            Some((location, s1)) => {
                match varint_field(s1) {
                    Some((levels, s2)) => {
                        match <bool as MD<'x>>::spec_deserialize(s2) {
                            Some((keep_jigsaws, s3)) => {
                                Some((GenerateStructureRequest { location, levels, keep_jigsaws }, s3))
                            },
                            None => None,
                        }
                    },
                    None => None,
                }
            },
            None => None,
        }
    }

    open spec fn serializable() -> bool {
        <Position as MD<'x>>::serializable() && <bool as MD<'x>>::serializable()
    }

    open spec fn spec_header() -> Seq<u8> {
        varint_bytes(0xe)
    }

    open spec fn takes_rest() -> bool {
        false
    }

    open spec fn spec_serialize(v: GenerateStructureRequest) -> Seq<u8> {
        <Position as MD<'x>>::spec_serialize(v.location) + varint_bytes(v.levels as u32) + <bool as MD<'x>>::spec_serialize(v.keep_jigsaws)
    }

    open spec fn encodable(v: GenerateStructureRequest) -> bool {
        Self::serializable() && <Position as MD<'x>>::encodable(v.location) && <bool as MD<'x>>::encodable(v.keep_jigsaws)
    }

    proof fn lemma_roundtrip(v: GenerateStructureRequest, rest: Seq<u8>) {
        let b0 = <Position as MD<'x>>::spec_serialize(v.location);
        let b1 = varint_bytes(v.levels as u32);
        let b2 = <bool as MD<'x>>::spec_serialize(v.keep_jigsaws);
        let t3 = rest;
        let t2 = b2 + t3;
        let t1 = b1 + t2;
        let t0 = b0 + t1;
        lemma_concat_associative(b0 + b1, b2, t3);
        lemma_concat_associative(b0, b1, t2);
        <Position as MD<'x>>::lemma_roundtrip(v.location, t1);
        lemma_varint_field_roundtrip(v.levels, t2);
        <bool as MD<'x>>::lemma_roundtrip(v.keep_jigsaws, t3);
    }

    fn deserialize(memory: &mut &'x [u8]) -> (res: Result<GenerateStructureRequest, ParseError>) {
        let location: Position = <Position as MD<'x>>::deserialize(memory)?;
        let levels: i32 = read_varint(memory)?;
        let keep_jigsaws: bool = <bool as MD<'x>>::deserialize(memory)?;
        Ok(GenerateStructureRequest { location, levels, keep_jigsaws })
    }

    fn serialize(&self, writer: &mut Vec<u8>) {
        let ghost v = self.deep_view();
        write_varint(writer, 0xe);
        let ghost a = writer@;
        assert(old(writer)@ + Self::spec_header() =~= a);
        self.location.serialize(writer);
        proof {
            lemma_write_after_header(a, <Position as MD<'x>>::spec_header(), <Position as MD<'x>>::spec_serialize(v.location));
        }
        write_varint(writer, self.levels as u32);
        proof {
            lemma_concat_associative(a, <Position as MD<'x>>::spec_serialize(v.location), varint_bytes(v.levels as u32));
        }
        self.keep_jigsaws.serialize(writer);
        proof {
            lemma_write_next(a, <Position as MD<'x>>::spec_serialize(v.location) + varint_bytes(v.levels as u32), <bool as MD<'x>>::spec_header(), <bool as MD<'x>>::spec_serialize(v.keep_jigsaws));
        }
    }
}

/// Packet `0xf` of the play state, sent by the client.
#[derive(Debug)]
pub struct KeepAliveRequest {
    pub keep_alive_id: i64,
}

impl DeepView for KeepAliveRequest {
    type V = KeepAliveRequest;

    open spec fn deep_view(&self) -> KeepAliveRequest {
        *self
    }
}

impl<'x> MD<'x> for KeepAliveRequest {
    open spec fn spec_deserialize(s0: Seq<u8>) -> Option<(KeepAliveRequest, Seq<u8>)> {
        match <i64 as MD<'x>>::spec_deserialize(s0) {
            Some((keep_alive_id, s1)) => {
                Some((KeepAliveRequest { keep_alive_id }, s1))
            },
            None => None,
        }
    }

    open spec fn serializable() -> bool {
        <i64 as MD<'x>>::serializable()
    }

    open spec fn spec_header() -> Seq<u8> {
        varint_bytes(0xf)
    }

    open spec fn takes_rest() -> bool {
        false
    }

    open spec fn spec_serialize(v: KeepAliveRequest) -> Seq<u8> {
        <i64 as MD<'x>>::spec_serialize(v.keep_alive_id)
    }

    open spec fn encodable(v: KeepAliveRequest) -> bool {
        Self::serializable() && <i64 as MD<'x>>::encodable(v.keep_alive_id)
    }

    proof fn lemma_roundtrip(v: KeepAliveRequest, rest: Seq<u8>) {
        let b0 = <i64 as MD<'x>>::spec_serialize(v.keep_alive_id);
        let t1 = rest;
        let t0 = b0 + t1;
        assert(Self::spec_serialize(v) + rest == t0);
        <i64 as MD<'x>>::lemma_roundtrip(v.keep_alive_id, t1);
    }

    fn deserialize(memory: &mut &'x [u8]) -> (res: Result<KeepAliveRequest, ParseError>) {
        let keep_alive_id: i64 = <i64 as MD<'x>>::deserialize(memory)?;
        Ok(KeepAliveRequest { keep_alive_id })
    }

    fn serialize(&self, writer: &mut Vec<u8>) {
        let ghost v = self.deep_view();
        write_varint(writer, 0xf);
        let ghost a = writer@;
        assert(old(writer)@ + Self::spec_header() =~= a);
        self.keep_alive_id.serialize(writer);
        proof {
            lemma_write_after_header(a, <i64 as MD<'x>>::spec_header(), <i64 as MD<'x>>::spec_serialize(v.keep_alive_id));
        }
    }
}

/// Packet `0x10` of the play state, sent by the client.
#[derive(Debug)]
pub struct LockDifficultyRequest {
    pub locked: bool,
}

impl DeepView for LockDifficultyRequest {
    type V = LockDifficultyRequest;

    open spec fn deep_view(&self) -> LockDifficultyRequest {
        *self
    }
}

impl<'x> MD<'x> for LockDifficultyRequest {
    open spec fn spec_deserialize(s0: Seq<u8>) -> Option<(LockDifficultyRequest, Seq<u8>)> {
        match <bool as MD<'x>>::spec_deserialize(s0) {
            Some((locked, s1)) => {
                Some((LockDifficultyRequest { locked }, s1))
            },
            None => None,
        }
    }

    open spec fn serializable() -> bool {
        <bool as MD<'x>>::serializable()
    }

    open spec fn spec_header() -> Seq<u8> {
        varint_bytes(0x10)
    }

    open spec fn takes_rest() -> bool {
        false
    }

    open spec fn spec_serialize(v: LockDifficultyRequest) -> Seq<u8> {
        <bool as MD<'x>>::spec_serialize(v.locked)
    }

    open spec fn encodable(v: LockDifficultyRequest) -> bool {
        Self::serializable() && <bool as MD<'x>>::encodable(v.locked)
    }

    proof fn lemma_roundtrip(v: LockDifficultyRequest, rest: Seq<u8>) {
        let b0 = <bool as MD<'x>>::spec_serialize(v.locked);
        let t1 = rest;
        let t0 = b0 + t1;
        assert(Self::spec_serialize(v) + rest == t0);
        <bool as MD<'x>>::lemma_roundtrip(v.locked, t1);
    }

    fn deserialize(memory: &mut &'x [u8]) -> (res: Result<LockDifficultyRequest, ParseError>) {
        let locked: bool = <bool as MD<'x>>::deserialize(memory)?;
        Ok(LockDifficultyRequest { locked })
    }

    fn serialize(&self, writer: &mut Vec<u8>) {
        let ghost v = self.deep_view();
        write_varint(writer, 0x10);
        let ghost a = writer@;
        assert(old(writer)@ + Self::spec_header() =~= a);
        self.locked.serialize(writer);
        proof {
            lemma_write_after_header(a, <bool as MD<'x>>::spec_header(), <bool as MD<'x>>::spec_serialize(v.locked));
        }
    }
}

/// Packet `0x11` of the play state, sent by the client.
#[derive(Debug)]
pub struct PositionRequest {
    /// The IEEE 754 bits of the `f64` value.
    pub x: u64,
    /// The IEEE 754 bits of the `f64` value.
    pub y: u64,
    /// The IEEE 754 bits of the `f64` value.
    pub z: u64,
    pub on_ground: bool,
}

impl DeepView for PositionRequest {
    type V = PositionRequest;

    open spec fn deep_view(&self) -> PositionRequest {
        *self
    }
}

impl<'x> MD<'x> for PositionRequest {
    open spec fn spec_deserialize(s0: Seq<u8>) -> Option<(PositionRequest, Seq<u8>)> {
        match <u64 as MD<'x>>::spec_deserialize(s0) {
            Some((x, s1)) => {
                match <u64 as MD<'x>>::spec_deserialize(s1) {
                    Some((y, s2)) => {
                        match <u64 as MD<'x>>::spec_deserialize(s2) {
                            Some((z, s3)) => {
                                match <bool as MD<'x>>::spec_deserialize(s3) {
                                    Some((on_ground, s4)) => {
                                        Some((PositionRequest { x, y, z, on_ground }, s4))
                                    },
                                    None => None,
                                }
                            },
                            None => None,
                        }
                    },
                    None => None,
                }
            },
            None => None,
        }
    }

    open spec fn serializable() -> bool {
        <u64 as MD<'x>>::serializable() && <u64 as MD<'x>>::serializable() && <u64 as MD<'x>>::serializable() && <bool as MD<'x>>::serializable()
    }

    open spec fn spec_header() -> Seq<u8> {
        varint_bytes(0x11)
    }

    open spec fn takes_rest() -> bool {
        false
    }

    open spec fn spec_serialize(v: PositionRequest) -> Seq<u8> {
        <u64 as MD<'x>>::spec_serialize(v.x) + <u64 as MD<'x>>::spec_serialize(v.y) + <u64 as MD<'x>>::spec_serialize(v.z) + <bool as MD<'x>>::spec_serialize(v.on_ground)
    }

    open spec fn encodable(v: PositionRequest) -> bool {
        Self::serializable() && <u64 as MD<'x>>::encodable(v.x) && <u64 as MD<'x>>::encodable(v.y) && <u64 as MD<'x>>::encodable(v.z) && <bool as MD<'x>>::encodable(v.on_ground)
    }

    proof fn lemma_roundtrip(v: PositionRequest, rest: Seq<u8>) {
        let b0 = <u64 as MD<'x>>::spec_serialize(v.x);
        let b1 = <u64 as MD<'x>>::spec_serialize(v.y);
        let b2 = <u64 as MD<'x>>::spec_serialize(v.z);
        let b3 = <bool as MD<'x>>::spec_serialize(v.on_ground);
        let t4 = rest;
        let t3 = b3 + t4;
        let t2 = b2 + t3;
        let t1 = b1 + t2;
        let t0 = b0 + t1;
        lemma_concat_associative(b0 + b1 + b2, b3, t4);
        lemma_concat_associative(b0 + b1, b2, t3);
        lemma_concat_associative(b0, b1, t2);
        <u64 as MD<'x>>::lemma_roundtrip(v.x, t1);
        <u64 as MD<'x>>::lemma_roundtrip(v.y, t2);
        <u64 as MD<'x>>::lemma_roundtrip(v.z, t3);
        <bool as MD<'x>>::lemma_roundtrip(v.on_ground, t4);
    }

    fn deserialize(memory: &mut &'x [u8]) -> (res: Result<PositionRequest, ParseError>) {
        let x: u64 = <u64 as MD<'x>>::deserialize(memory)?;
        let y: u64 = <u64 as MD<'x>>::deserialize(memory)?;
        let z: u64 = <u64 as MD<'x>>::deserialize(memory)?;
        let on_ground: bool = <bool as MD<'x>>::deserialize(memory)?;
        Ok(PositionRequest { x, y, z, on_ground })
    }

    fn serialize(&self, writer: &mut Vec<u8>) {
        let ghost v = self.deep_view();
        write_varint(writer, 0x11);
        let ghost a = writer@;
        assert(old(writer)@ + Self::spec_header() =~= a);
        self.x.serialize(writer);
        proof {
            lemma_write_after_header(a, <u64 as MD<'x>>::spec_header(), <u64 as MD<'x>>::spec_serialize(v.x));
        }
        self.y.serialize(writer);
        proof {
            lemma_write_next(a, <u64 as MD<'x>>::spec_serialize(v.x), <u64 as MD<'x>>::spec_header(), <u64 as MD<'x>>::spec_serialize(v.y));
        }
        self.z.serialize(writer);
        proof {
            lemma_write_next(a, <u64 as MD<'x>>::spec_serialize(v.x) + <u64 as MD<'x>>::spec_serialize(v.y), <u64 as MD<'x>>::spec_header(), <u64 as MD<'x>>::spec_serialize(v.z));
        }
        self.on_ground.serialize(writer);
        proof {
            lemma_write_next(a, <u64 as MD<'x>>::spec_serialize(v.x) + <u64 as MD<'x>>::spec_serialize(v.y) + <u64 as MD<'x>>::spec_serialize(v.z), <bool as MD<'x>>::spec_header(), <bool as MD<'x>>::spec_serialize(v.on_ground));
        }
    }
}

/// Packet `0x12` of the play state, sent by the client.
#[derive(Debug)]
pub struct PositionLookRequest {
    /// The IEEE 754 bits of the `f64` value.
    pub x: u64,
    /// The IEEE 754 bits of the `f64` value.
    pub y: u64,
    /// The IEEE 754 bits of the `f64` value.
    pub z: u64,
    /// The IEEE 754 bits of the `f32` value.
    pub yaw: u32,
    /// The IEEE 754 bits of the `f32` value.
    pub pitch: u32,
    pub on_ground: bool,
}

impl DeepView for PositionLookRequest {
    type V = PositionLookRequest;

    open spec fn deep_view(&self) -> PositionLookRequest {
        *self
    }
}

impl<'x> MD<'x> for PositionLookRequest {
    open spec fn spec_deserialize(s0: Seq<u8>) -> Option<(PositionLookRequest, Seq<u8>)> {
        match <u64 as MD<'x>>::spec_deserialize(s0) {
            Some((x, s1)) => {
                match <u64 as MD<'x>>::spec_deserialize(s1) {
                    Some((y, s2)) => {
                        match <u64 as MD<'x>>::spec_deserialize(s2) {
                            Some((z, s3)) => {
                                match <u32 as MD<'x>>::spec_deserialize(s3) {
                                    Some((yaw, s4)) => {
                                        match <u32 as MD<'x>>::spec_deserialize(s4) {
                                            Some((pitch, s5)) => {
                                                match <bool as MD<'x>>::spec_deserialize(s5) {
                                                    Some((on_ground, s6)) => {
                                                        Some((PositionLookRequest { x, y, z, yaw, pitch, on_ground }, s6))
                                                    },
                                                    None => None,
                                                }
                                            },
                                            None => None,
                                        }
                                    },
                                    None => None,
                                }
                            },
                            None => None,
                        }
                    },
                    None => None,
                }
            },
            None => None,
        }
    }

    open spec fn serializable() -> bool {
        <u64 as MD<'x>>::serializable() && <u64 as MD<'x>>::serializable() && <u64 as MD<'x>>::serializable() && <u32 as MD<'x>>::serializable() && <u32 as MD<'x>>::serializable() && <bool as MD<'x>>::serializable()
    }

    open spec fn spec_header() -> Seq<u8> {
        varint_bytes(0x12)
    }

    open spec fn takes_rest() -> bool {
        false
    }

    open spec fn spec_serialize(v: PositionLookRequest) -> Seq<u8> {
        <u64 as MD<'x>>::spec_serialize(v.x) + <u64 as MD<'x>>::spec_serialize(v.y) + <u64 as MD<'x>>::spec_serialize(v.z) + <u32 as MD<'x>>::spec_serialize(v.yaw) + <u32 as MD<'x>>::spec_serialize(v.pitch) + <bool as MD<'x>>::spec_serialize(v.on_ground)
    }

    open spec fn encodable(v: PositionLookRequest) -> bool {
        Self::serializable() && <u64 as MD<'x>>::encodable(v.x) && <u64 as MD<'x>>::encodable(v.y) && <u64 as MD<'x>>::encodable(v.z) && <u32 as MD<'x>>::encodable(v.yaw) && <u32 as MD<'x>>::encodable(v.pitch) && <bool as MD<'x>>::encodable(v.on_ground)
    }

    proof fn lemma_roundtrip(v: PositionLookRequest, rest: Seq<u8>) {
        let b0 = <u64 as MD<'x>>::spec_serialize(v.x);
        let b1 = <u64 as MD<'x>>::spec_serialize(v.y);
        let b2 = <u64 as MD<'x>>::spec_serialize(v.z);
        let b3 = <u32 as MD<'x>>::spec_serialize(v.yaw);
        let b4 = <u32 as MD<'x>>::spec_serialize(v.pitch);
        let b5 = <bool as MD<'x>>::spec_serialize(v.on_ground);
        let t6 = rest;
        let t5 = b5 + t6;
        let t4 = b4 + t5;
        let t3 = b3 + t4;
        let t2 = b2 + t3;
        let t1 = b1 + t2;
        let t0 = b0 + t1;
        lemma_concat_associative(b0 + b1 + b2 + b3 + b4, b5, t6);
        lemma_concat_associative(b0 + b1 + b2 + b3, b4, t5);
        lemma_concat_associative(b0 + b1 + b2, b3, t4);
        lemma_concat_associative(b0 + b1, b2, t3);
        lemma_concat_associative(b0, b1, t2);
        <u64 as MD<'x>>::lemma_roundtrip(v.x, t1);
        <u64 as MD<'x>>::lemma_roundtrip(v.y, t2);
        <u64 as MD<'x>>::lemma_roundtrip(v.z, t3);
        <u32 as MD<'x>>::lemma_roundtrip(v.yaw, t4);
        <u32 as MD<'x>>::lemma_roundtrip(v.pitch, t5);
        <bool as MD<'x>>::lemma_roundtrip(v.on_ground, t6);
    }

    fn deserialize(memory: &mut &'x [u8]) -> (res: Result<PositionLookRequest, ParseError>) {
        let x: u64 = <u64 as MD<'x>>::deserialize(memory)?;
        let y: u64 = <u64 as MD<'x>>::deserialize(memory)?;
        let z: u64 = <u64 as MD<'x>>::deserialize(memory)?;
        let yaw: u32 = <u32 as MD<'x>>::deserialize(memory)?;
        let pitch: u32 = <u32 as MD<'x>>::deserialize(memory)?;
        let on_ground: bool = <bool as MD<'x>>::deserialize(memory)?;
        Ok(PositionLookRequest { x, y, z, yaw, pitch, on_ground })
    }

    fn serialize(&self, writer: &mut Vec<u8>) {
        let ghost v = self.deep_view();
        write_varint(writer, 0x12);
        let ghost a = writer@;
        assert(old(writer)@ + Self::spec_header() =~= a);
        self.x.serialize(writer);
        proof {
            lemma_write_after_header(a, <u64 as MD<'x>>::spec_header(), <u64 as MD<'x>>::spec_serialize(v.x));
        }
        self.y.serialize(writer);
        proof {
            lemma_write_next(a, <u64 as MD<'x>>::spec_serialize(v.x), <u64 as MD<'x>>::spec_header(), <u64 as MD<'x>>::spec_serialize(v.y));
        }
        self.z.serialize(writer);
        proof {
            lemma_write_next(a, <u64 as MD<'x>>::spec_serialize(v.x) + <u64 as MD<'x>>::spec_serialize(v.y), <u64 as MD<'x>>::spec_header(), <u64 as MD<'x>>::spec_serialize(v.z));
        }
        self.yaw.serialize(writer);
        proof {
            lemma_write_next(a, <u64 as MD<'x>>::spec_serialize(v.x) + <u64 as MD<'x>>::spec_serialize(v.y) + <u64 as MD<'x>>::spec_serialize(v.z), <u32 as MD<'x>>::spec_header(), <u32 as MD<'x>>::spec_serialize(v.yaw));
        }
        self.pitch.serialize(writer);
        proof {
            lemma_write_next(a, <u64 as MD<'x>>::spec_serialize(v.x) + <u64 as MD<'x>>::spec_serialize(v.y) + <u64 as MD<'x>>::spec_serialize(v.z) + <u32 as MD<'x>>::spec_serialize(v.yaw), <u32 as MD<'x>>::spec_header(), <u32 as MD<'x>>::spec_serialize(v.pitch));
        }
        self.on_ground.serialize(writer);
        proof {
            lemma_write_next(a, <u64 as MD<'x>>::spec_serialize(v.x) + <u64 as MD<'x>>::spec_serialize(v.y) + <u64 as MD<'x>>::spec_serialize(v.z) + <u32 as MD<'x>>::spec_serialize(v.yaw) + <u32 as MD<'x>>::spec_serialize(v.pitch), <bool as MD<'x>>::spec_header(), <bool as MD<'x>>::spec_serialize(v.on_ground));
        }
    }
}

/// Packet `0x13` of the play state, sent by the client.
#[derive(Debug)]
pub struct LookRequest {
    /// The IEEE 754 bits of the `f32` value.
    pub yaw: u32,
    /// The IEEE 754 bits of the `f32` value.
    pub pitch: u32,
    pub on_ground: bool,
}

impl DeepView for LookRequest {
    type V = LookRequest;

    open spec fn deep_view(&self) -> LookRequest {
        *self
    }
}

impl<'x> MD<'x> for LookRequest {
    open spec fn spec_deserialize(s0: Seq<u8>) -> Option<(LookRequest, Seq<u8>)> {
        match <u32 as MD<'x>>::spec_deserialize(s0) {
            Some((yaw, s1)) => {
                match <u32 as MD<'x>>::spec_deserialize(s1) {
                    Some((pitch, s2)) => {
                        match <bool as MD<'x>>::spec_deserialize(s2) {
                            Some((on_ground, s3)) => {
                                Some((LookRequest { yaw, pitch, on_ground }, s3))
                            },
                            None => None,
                        }
                    },
                    None => None,
                }
            },
            None => None,
        }
    }

    open spec fn serializable() -> bool {
        <u32 as MD<'x>>::serializable() && <u32 as MD<'x>>::serializable() && <bool as MD<'x>>::serializable()
    }

    open spec fn spec_header() -> Seq<u8> {
        varint_bytes(0x13)
    }

    open spec fn takes_rest() -> bool {
        false
    }

    open spec fn spec_serialize(v: LookRequest) -> Seq<u8> {
        <u32 as MD<'x>>::spec_serialize(v.yaw) + <u32 as MD<'x>>::spec_serialize(v.pitch) + <bool as MD<'x>>::spec_serialize(v.on_ground)
    }

    open spec fn encodable(v: LookRequest) -> bool {
        Self::serializable() && <u32 as MD<'x>>::encodable(v.yaw) && <u32 as MD<'x>>::encodable(v.pitch) && <bool as MD<'x>>::encodable(v.on_ground)
    }

    proof fn lemma_roundtrip(v: LookRequest, rest: Seq<u8>) {
        let b0 = <u32 as MD<'x>>::spec_serialize(v.yaw);
        let b1 = <u32 as MD<'x>>::spec_serialize(v.pitch);
        let b2 = <bool as MD<'x>>::spec_serialize(v.on_ground);
        let t3 = rest;
        let t2 = b2 + t3;
        let t1 = b1 + t2;
        let t0 = b0 + t1;
        lemma_concat_associative(b0 + b1, b2, t3);
        lemma_concat_associative(b0, b1, t2);
        <u32 as MD<'x>>::lemma_roundtrip(v.yaw, t1);
        <u32 as MD<'x>>::lemma_roundtrip(v.pitch, t2);
        <bool as MD<'x>>::lemma_roundtrip(v.on_ground, t3);
    }

    fn deserialize(memory: &mut &'x [u8]) -> (res: Result<LookRequest, ParseError>) {
        let yaw: u32 = <u32 as MD<'x>>::deserialize(memory)?;
        let pitch: u32 = <u32 as MD<'x>>::deserialize(memory)?;
        let on_ground: bool = <bool as MD<'x>>::deserialize(memory)?;
        Ok(LookRequest { yaw, pitch, on_ground })
    }

    fn serialize(&self, writer: &mut Vec<u8>) {
        let ghost v = self.deep_view();
        write_varint(writer, 0x13);
        let ghost a = writer@;
        assert(old(writer)@ + Self::spec_header() =~= a);
        self.yaw.serialize(writer);
        proof {
            lemma_write_after_header(a, <u32 as MD<'x>>::spec_header(), <u32 as MD<'x>>::spec_serialize(v.yaw));
        }
        self.pitch.serialize(writer);
        proof {
            lemma_write_next(a, <u32 as MD<'x>>::spec_serialize(v.yaw), <u32 as MD<'x>>::spec_header(), <u32 as MD<'x>>::spec_serialize(v.pitch));
        }
        self.on_ground.serialize(writer);
        proof {
            lemma_write_next(a, <u32 as MD<'x>>::spec_serialize(v.yaw) + <u32 as MD<'x>>::spec_serialize(v.pitch), <bool as MD<'x>>::spec_header(), <bool as MD<'x>>::spec_serialize(v.on_ground));
        }
    }
}

/// Packet `0x14` of the play state, sent by the client.
#[derive(Debug)]
pub struct FlyingRequest {
    pub on_ground: bool,
}

impl DeepView for FlyingRequest {
    type V = FlyingRequest;

    open spec fn deep_view(&self) -> FlyingRequest {
        *self
    }
}

impl<'x> MD<'x> for FlyingRequest {
    open spec fn spec_deserialize(s0: Seq<u8>) -> Option<(FlyingRequest, Seq<u8>)> {
        match <bool as MD<'x>>::spec_deserialize(s0) {
            Some((on_ground, s1)) => {
                Some((FlyingRequest { on_ground }, s1))
            },
            None => None,
        }
    }

    open spec fn serializable() -> bool {
        <bool as MD<'x>>::serializable()
    }

    open spec fn spec_header() -> Seq<u8> {
        varint_bytes(0x14)
    }

    open spec fn takes_rest() -> bool {
        false
    }

    open spec fn spec_serialize(v: FlyingRequest) -> Seq<u8> {
        <bool as MD<'x>>::spec_serialize(v.on_ground)
    }

    open spec fn encodable(v: FlyingRequest) -> bool {
        Self::serializable() && <bool as MD<'x>>::encodable(v.on_ground)
    }

    proof fn lemma_roundtrip(v: FlyingRequest, rest: Seq<u8>) {
        let b0 = <bool as MD<'x>>::spec_serialize(v.on_ground);
        let t1 = rest;
        let t0 = b0 + t1;
        assert(Self::spec_serialize(v) + rest == t0);
        <bool as MD<'x>>::lemma_roundtrip(v.on_ground, t1);
    }

    fn deserialize(memory: &mut &'x [u8]) -> (res: Result<FlyingRequest, ParseError>) {
        let on_ground: bool = <bool as MD<'x>>::deserialize(memory)?;
        Ok(FlyingRequest { on_ground })
    }

    fn serialize(&self, writer: &mut Vec<u8>) {
        let ghost v = self.deep_view();
        write_varint(writer, 0x14);
        let ghost a = writer@;
        assert(old(writer)@ + Self::spec_header() =~= a);
        self.on_ground.serialize(writer);
        proof {
            lemma_write_after_header(a, <bool as MD<'x>>::spec_header(), <bool as MD<'x>>::spec_serialize(v.on_ground));
        }
    }
}

/// Packet `0x15` of the play state, sent by the client.
#[derive(Debug)]
pub struct VehicleMoveRequest {
    /// The IEEE 754 bits of the `f64` value.
    pub x: u64,
    /// The IEEE 754 bits of the `f64` value.
    pub y: u64,
    /// The IEEE 754 bits of the `f64` value.
    pub z: u64,
    /// The IEEE 754 bits of the `f32` value.
    pub yaw: u32,
    /// The IEEE 754 bits of the `f32` value.
    pub pitch: u32,
}

impl DeepView for VehicleMoveRequest {
    type V = VehicleMoveRequest;

    open spec fn deep_view(&self) -> VehicleMoveRequest {
        *self
    }
}

impl<'x> MD<'x> for VehicleMoveRequest {
    open spec fn spec_deserialize(s0: Seq<u8>) -> Option<(VehicleMoveRequest, Seq<u8>)> {
        match <u64 as MD<'x>>::spec_deserialize(s0) {
            Some((x, s1)) => {
                match <u64 as MD<'x>>::spec_deserialize(s1) {
                    Some((y, s2)) => {
                        match <u64 as MD<'x>>::spec_deserialize(s2) {
                            Some((z, s3)) => {
                                match <u32 as MD<'x>>::spec_deserialize(s3) {
                                    Some((yaw, s4)) => {
                                        match <u32 as MD<'x>>::spec_deserialize(s4) {
                                            Some((pitch, s5)) => {
                                                Some((VehicleMoveRequest { x, y, z, yaw, pitch }, s5))
                                            },
                                            None => None,
                                        }
                                    },
                                    None => None,
                                }
                            },
                            None => None,
                        }
                    },
                    None => None,
                }
            },
            None => None,
        }
    }

    open spec fn serializable() -> bool {
        <u64 as MD<'x>>::serializable() && <u64 as MD<'x>>::serializable() && <u64 as MD<'x>>::serializable() && <u32 as MD<'x>>::serializable() && <u32 as MD<'x>>::serializable()
    }

    open spec fn spec_header() -> Seq<u8> {
        varint_bytes(0x15)
    }

    open spec fn takes_rest() -> bool {
        false
    }

    open spec fn spec_serialize(v: VehicleMoveRequest) -> Seq<u8> {
        <u64 as MD<'x>>::spec_serialize(v.x) + <u64 as MD<'x>>::spec_serialize(v.y) + <u64 as MD<'x>>::spec_serialize(v.z) + <u32 as MD<'x>>::spec_serialize(v.yaw) + <u32 as MD<'x>>::spec_serialize(v.pitch)
    }

    open spec fn encodable(v: VehicleMoveRequest) -> bool {
        Self::serializable() && <u64 as MD<'x>>::encodable(v.x) && <u64 as MD<'x>>::encodable(v.y) && <u64 as MD<'x>>::encodable(v.z) && <u32 as MD<'x>>::encodable(v.yaw) && <u32 as MD<'x>>::encodable(v.pitch)
    }

    proof fn lemma_roundtrip(v: VehicleMoveRequest, rest: Seq<u8>) {
        let b0 = <u64 as MD<'x>>::spec_serialize(v.x);
        let b1 = <u64 as MD<'x>>::spec_serialize(v.y);
        let b2 = <u64 as MD<'x>>::spec_serialize(v.z);
        let b3 = <u32 as MD<'x>>::spec_serialize(v.yaw);
        let b4 = <u32 as MD<'x>>::spec_serialize(v.pitch);
        let t5 = rest;
        let t4 = b4 + t5;
        let t3 = b3 + t4;
        let t2 = b2 + t3;
        let t1 = b1 + t2;
        let t0 = b0 + t1;
        lemma_concat_associative(b0 + b1 + b2 + b3, b4, t5);
        lemma_concat_associative(b0 + b1 + b2, b3, t4);
        lemma_concat_associative(b0 + b1, b2, t3);
        lemma_concat_associative(b0, b1, t2);
        <u64 as MD<'x>>::lemma_roundtrip(v.x, t1);
        <u64 as MD<'x>>::lemma_roundtrip(v.y, t2);
        <u64 as MD<'x>>::lemma_roundtrip(v.z, t3);
        <u32 as MD<'x>>::lemma_roundtrip(v.yaw, t4);
        <u32 as MD<'x>>::lemma_roundtrip(v.pitch, t5);
    }

    fn deserialize(memory: &mut &'x [u8]) -> (res: Result<VehicleMoveRequest, ParseError>) {
        let x: u64 = <u64 as MD<'x>>::deserialize(memory)?;
        let y: u64 = <u64 as MD<'x>>::deserialize(memory)?;
        let z: u64 = <u64 as MD<'x>>::deserialize(memory)?;
        let yaw: u32 = <u32 as MD<'x>>::deserialize(memory)?;
        let pitch: u32 = <u32 as MD<'x>>::deserialize(memory)?;
        Ok(VehicleMoveRequest { x, y, z, yaw, pitch })
    }

    fn serialize(&self, writer: &mut Vec<u8>) {
        let ghost v = self.deep_view();
        write_varint(writer, 0x15);
        let ghost a = writer@;
        assert(old(writer)@ + Self::spec_header() =~= a);
        self.x.serialize(writer);
        proof {
            lemma_write_after_header(a, <u64 as MD<'x>>::spec_header(), <u64 as MD<'x>>::spec_serialize(v.x));
        }
        self.y.serialize(writer);
        proof {
            lemma_write_next(a, <u64 as MD<'x>>::spec_serialize(v.x), <u64 as MD<'x>>::spec_header(), <u64 as MD<'x>>::spec_serialize(v.y));
        }
        self.z.serialize(writer);
        proof {
            lemma_write_next(a, <u64 as MD<'x>>::spec_serialize(v.x) + <u64 as MD<'x>>::spec_serialize(v.y), <u64 as MD<'x>>::spec_header(), <u64 as MD<'x>>::spec_serialize(v.z));
        }
        self.yaw.serialize(writer);
        proof {
            lemma_write_next(a, <u64 as MD<'x>>::spec_serialize(v.x) + <u64 as MD<'x>>::spec_serialize(v.y) + <u64 as MD<'x>>::spec_serialize(v.z), <u32 as MD<'x>>::spec_header(), <u32 as MD<'x>>::spec_serialize(v.yaw));
        }
        self.pitch.serialize(writer);
        proof {
            lemma_write_next(a, <u64 as MD<'x>>::spec_serialize(v.x) + <u64 as MD<'x>>::spec_serialize(v.y) + <u64 as MD<'x>>::spec_serialize(v.z) + <u32 as MD<'x>>::spec_serialize(v.yaw), <u32 as MD<'x>>::spec_header(), <u32 as MD<'x>>::spec_serialize(v.pitch));
        }
    }
}

/// Packet `0x16` of the play state, sent by the client.
#[derive(Debug)]
pub struct SteerBoatRequest {
    pub left_paddle: bool,
    pub right_paddle: bool,
}

impl DeepView for SteerBoatRequest {
    type V = SteerBoatRequest;

    open spec fn deep_view(&self) -> SteerBoatRequest {
        *self
    }
}

impl<'x> MD<'x> for SteerBoatRequest {
    open spec fn spec_deserialize(s0: Seq<u8>) -> Option<(SteerBoatRequest, Seq<u8>)> {
        match <bool as MD<'x>>::spec_deserialize(s0) {
            Some((left_paddle, s1)) => {
                match <bool as MD<'x>>::spec_deserialize(s1) {
                    Some((right_paddle, s2)) => {
                        Some((SteerBoatRequest { left_paddle, right_paddle }, s2))
                    },
                    None => None,
                }
            },
            None => None,
        }
    }

    open spec fn serializable() -> bool {
        <bool as MD<'x>>::serializable() && <bool as MD<'x>>::serializable()
    }

    open spec fn spec_header() -> Seq<u8> {
        varint_bytes(0x16)
    }

    open spec fn takes_rest() -> bool {
        false
    }

    open spec fn spec_serialize(v: SteerBoatRequest) -> Seq<u8> {
        <bool as MD<'x>>::spec_serialize(v.left_paddle) + <bool as MD<'x>>::spec_serialize(v.right_paddle)
    }

    open spec fn encodable(v: SteerBoatRequest) -> bool {
        Self::serializable() && <bool as MD<'x>>::encodable(v.left_paddle) && <bool as MD<'x>>::encodable(v.right_paddle)
    }

    proof fn lemma_roundtrip(v: SteerBoatRequest, rest: Seq<u8>) {
        let b0 = <bool as MD<'x>>::spec_serialize(v.left_paddle);
        let b1 = <bool as MD<'x>>::spec_serialize(v.right_paddle);
        let t2 = rest;
        let t1 = b1 + t2;
        let t0 = b0 + t1;
        lemma_concat_associative(b0, b1, t2);
        <bool as MD<'x>>::lemma_roundtrip(v.left_paddle, t1);
        <bool as MD<'x>>::lemma_roundtrip(v.right_paddle, t2);
    }

    fn deserialize(memory: &mut &'x [u8]) -> (res: Result<SteerBoatRequest, ParseError>) {
        let left_paddle: bool = <bool as MD<'x>>::deserialize(memory)?;
        let right_paddle: bool = <bool as MD<'x>>::deserialize(memory)?;
        Ok(SteerBoatRequest { left_paddle, right_paddle })
    }

    fn serialize(&self, writer: &mut Vec<u8>) {
        let ghost v = self.deep_view();
        write_varint(writer, 0x16);
        let ghost a = writer@;
        assert(old(writer)@ + Self::spec_header() =~= a);
        self.left_paddle.serialize(writer);
        proof {
            lemma_write_after_header(a, <bool as MD<'x>>::spec_header(), <bool as MD<'x>>::spec_serialize(v.left_paddle));
        }
        self.right_paddle.serialize(writer);
        proof {
            lemma_write_next(a, <bool as MD<'x>>::spec_serialize(v.left_paddle), <bool as MD<'x>>::spec_header(), <bool as MD<'x>>::spec_serialize(v.right_paddle));
        }
    }
}

/// Packet `0x18` of the play state, sent by the client.
#[derive(Debug)]
pub struct CraftRecipeRequest<'x> {
    pub window_id: i8,
    pub recipe: &'x str,
    pub make_all: bool,
}

/// What a `CraftRecipeRequest` holds.
pub struct CraftRecipeRequestView {
    pub window_id: i8,
    pub recipe: Seq<char>,
    pub make_all: bool,
}

impl<'x> DeepView for CraftRecipeRequest<'x> {
    type V = CraftRecipeRequestView;

    open spec fn deep_view(&self) -> CraftRecipeRequestView {
        CraftRecipeRequestView { window_id: self.window_id, recipe: self.recipe.deep_view(), make_all: self.make_all }
    }
}

impl<'x> MD<'x> for CraftRecipeRequest<'x> {
    open spec fn spec_deserialize(s0: Seq<u8>) -> Option<(CraftRecipeRequestView, Seq<u8>)> {
        match <i8 as MD<'x>>::spec_deserialize(s0) {
            Some((window_id, s1)) => {
                match <&'x str as MD<'x>>::spec_deserialize(s1) {
                    Some((recipe, s2)) => {
                        match <bool as MD<'x>>::spec_deserialize(s2) {
                            Some((make_all, s3)) => {
                                Some((CraftRecipeRequestView { window_id, recipe, make_all }, s3))
                            },
                            None => None,
                        }
                    },
                    None => None,
                }
            },
            None => None,
        }
    }

    open spec fn serializable() -> bool {
        <i8 as MD<'x>>::serializable() && <&'x str as MD<'x>>::serializable() && <bool as MD<'x>>::serializable()
    }

    open spec fn spec_header() -> Seq<u8> {
        varint_bytes(0x18)
    }

    open spec fn takes_rest() -> bool {
        false
    }

    open spec fn spec_serialize(v: CraftRecipeRequestView) -> Seq<u8> {
        <i8 as MD<'x>>::spec_serialize(v.window_id) + <&'x str as MD<'x>>::spec_serialize(v.recipe) + <bool as MD<'x>>::spec_serialize(v.make_all)
    }

    open spec fn encodable(v: CraftRecipeRequestView) -> bool {
        Self::serializable() && <i8 as MD<'x>>::encodable(v.window_id) && <&'x str as MD<'x>>::encodable(v.recipe) && <bool as MD<'x>>::encodable(v.make_all)
    }

    proof fn lemma_roundtrip(v: CraftRecipeRequestView, rest: Seq<u8>) {
        let b0 = <i8 as MD<'x>>::spec_serialize(v.window_id);
        let b1 = <&'x str as MD<'x>>::spec_serialize(v.recipe);
        let b2 = <bool as MD<'x>>::spec_serialize(v.make_all);
        let t3 = rest;
        let t2 = b2 + t3;
        let t1 = b1 + t2;
        let t0 = b0 + t1;
        lemma_concat_associative(b0 + b1, b2, t3);
        lemma_concat_associative(b0, b1, t2);
        <i8 as MD<'x>>::lemma_roundtrip(v.window_id, t1);
        <&'x str as MD<'x>>::lemma_roundtrip(v.recipe, t2);
        <bool as MD<'x>>::lemma_roundtrip(v.make_all, t3);
    }

    fn deserialize(memory: &mut &'x [u8]) -> (res: Result<CraftRecipeRequest<'x>, ParseError>) {
        let window_id: i8 = <i8 as MD<'x>>::deserialize(memory)?;
        let recipe: &'x str = <&'x str as MD<'x>>::deserialize(memory)?;
        let make_all: bool = <bool as MD<'x>>::deserialize(memory)?;
        Ok(CraftRecipeRequest { window_id, recipe, make_all })
    }

    fn serialize(&self, writer: &mut Vec<u8>) {
        let ghost v = self.deep_view();
        write_varint(writer, 0x18);
        let ghost a = writer@;
        assert(old(writer)@ + Self::spec_header() =~= a);
        self.window_id.serialize(writer);
        proof {
            lemma_write_after_header(a, <i8 as MD<'x>>::spec_header(), <i8 as MD<'x>>::spec_serialize(v.window_id));
        }
        self.recipe.serialize(writer);
        proof {
            lemma_write_next(a, <i8 as MD<'x>>::spec_serialize(v.window_id), <&'x str as MD<'x>>::spec_header(), <&'x str as MD<'x>>::spec_serialize(v.recipe));
        }
        self.make_all.serialize(writer);
        proof {
            lemma_write_next(a, <i8 as MD<'x>>::spec_serialize(v.window_id) + <&'x str as MD<'x>>::spec_serialize(v.recipe), <bool as MD<'x>>::spec_header(), <bool as MD<'x>>::spec_serialize(v.make_all));
        }
    }
}

/// Packet `0x19` of the play state, sent by the client.
#[derive(Debug)]
pub struct AbilitiesRequest {
    pub flags: i8,
}

impl DeepView for AbilitiesRequest {
    type V = AbilitiesRequest;

    open spec fn deep_view(&self) -> AbilitiesRequest {
        *self
    }
}

impl<'x> MD<'x> for AbilitiesRequest {
    open spec fn spec_deserialize(s0: Seq<u8>) -> Option<(AbilitiesRequest, Seq<u8>)> {
        match <i8 as MD<'x>>::spec_deserialize(s0) {
            Some((flags, s1)) => {
                Some((AbilitiesRequest { flags }, s1))
            },
            None => None,
        }
    }

    open spec fn serializable() -> bool {
        <i8 as MD<'x>>::serializable()
    }

    open spec fn spec_header() -> Seq<u8> {
        varint_bytes(0x19)
    }

    open spec fn takes_rest() -> bool {
        false
    }

    open spec fn spec_serialize(v: AbilitiesRequest) -> Seq<u8> {
        <i8 as MD<'x>>::spec_serialize(v.flags)
    }

    open spec fn encodable(v: AbilitiesRequest) -> bool {
        Self::serializable() && <i8 as MD<'x>>::encodable(v.flags)
    }

    proof fn lemma_roundtrip(v: AbilitiesRequest, rest: Seq<u8>) {
        let b0 = <i8 as MD<'x>>::spec_serialize(v.flags);
        let t1 = rest;
        let t0 = b0 + t1;
        assert(Self::spec_serialize(v) + rest == t0);
        <i8 as MD<'x>>::lemma_roundtrip(v.flags, t1);
    }

    fn deserialize(memory: &mut &'x [u8]) -> (res: Result<AbilitiesRequest, ParseError>) {
        let flags: i8 = <i8 as MD<'x>>::deserialize(memory)?;
        Ok(AbilitiesRequest { flags })
    }

    fn serialize(&self, writer: &mut Vec<u8>) {
        let ghost v = self.deep_view();
        write_varint(writer, 0x19);
        let ghost a = writer@;
        assert(old(writer)@ + Self::spec_header() =~= a);
        self.flags.serialize(writer);
        proof {
            lemma_write_after_header(a, <i8 as MD<'x>>::spec_header(), <i8 as MD<'x>>::spec_serialize(v.flags));
        }
    }
}

/// Packet `0x1a` of the play state, sent by the client.
#[derive(Debug)]
pub struct BlockDigRequest {
    pub status: i32,
    pub location: Position,
    pub face: i8,
}

impl DeepView for BlockDigRequest {
    type V = BlockDigRequest;

    open spec fn deep_view(&self) -> BlockDigRequest {
        *self
    }
}

impl<'x> MD<'x> for BlockDigRequest {
    open spec fn spec_deserialize(s0: Seq<u8>) -> Option<(BlockDigRequest, Seq<u8>)> {
        match varint_field(s0) {
            Some((status, s1)) => {
                match <Position as MD<'x>>::spec_deserialize(s1) {
                    Some((location, s2)) => {
                        match <i8 as MD<'x>>::spec_deserialize(s2) {
                            Some((face, s3)) => {
                                Some((BlockDigRequest { status, location, face }, s3))
                            },
                            None => None,
                        }
                    },
                    None => None,
                }
            },
            None => None,
        }
    }

    open spec fn serializable() -> bool {
        <Position as MD<'x>>::serializable() && <i8 as MD<'x>>::serializable()
    }

    open spec fn spec_header() -> Seq<u8> {
        varint_bytes(0x1a)
    }

    open spec fn takes_rest() -> bool {
        false
    }

    open spec fn spec_serialize(v: BlockDigRequest) -> Seq<u8> {
        varint_bytes(v.status as u32) + <Position as MD<'x>>::spec_serialize(v.location) + <i8 as MD<'x>>::spec_serialize(v.face)
    }

    open spec fn encodable(v: BlockDigRequest) -> bool {
        Self::serializable() && <Position as MD<'x>>::encodable(v.location) && <i8 as MD<'x>>::encodable(v.face)
    }

    proof fn lemma_roundtrip(v: BlockDigRequest, rest: Seq<u8>) {
        let b0 = varint_bytes(v.status as u32);
        let b1 = <Position as MD<'x>>::spec_serialize(v.location);
        let b2 = <i8 as MD<'x>>::spec_serialize(v.face);
        let t3 = rest;
        let t2 = b2 + t3;
        let t1 = b1 + t2;
        let t0 = b0 + t1;
        lemma_concat_associative(b0 + b1, b2, t3);
        lemma_concat_associative(b0, b1, t2);
        lemma_varint_field_roundtrip(v.status, t1);
        <Position as MD<'x>>::lemma_roundtrip(v.location, t2);
        <i8 as MD<'x>>::lemma_roundtrip(v.face, t3);
    }

    fn deserialize(memory: &mut &'x [u8]) -> (res: Result<BlockDigRequest, ParseError>) {
        let status: i32 = read_varint(memory)?;
        let location: Position = <Position as MD<'x>>::deserialize(memory)?;
        let face: i8 = <i8 as MD<'x>>::deserialize(memory)?;
        Ok(BlockDigRequest { status, location, face })
    }

    fn serialize(&self, writer: &mut Vec<u8>) {
        let ghost v = self.deep_view();
        write_varint(writer, 0x1a);
        let ghost a = writer@;
        assert(old(writer)@ + Self::spec_header() =~= a);
        write_varint(writer, self.status as u32);
        self.location.serialize(writer);
        proof {
            lemma_write_next(a, varint_bytes(v.status as u32), <Position as MD<'x>>::spec_header(), <Position as MD<'x>>::spec_serialize(v.location));
        }
        self.face.serialize(writer);
        proof {
            lemma_write_next(a, varint_bytes(v.status as u32) + <Position as MD<'x>>::spec_serialize(v.location), <i8 as MD<'x>>::spec_header(), <i8 as MD<'x>>::spec_serialize(v.face));
        }
    }
}

/// Packet `0x1b` of the play state, sent by the client.
#[derive(Debug)]
pub struct EntityActionRequest {
    pub entity_id: i32,
    pub action_id: i32,
    pub jump_boost: i32,
}

impl DeepView for EntityActionRequest {
    type V = EntityActionRequest;

    open spec fn deep_view(&self) -> EntityActionRequest {
        *self
    }
}

impl<'x> MD<'x> for EntityActionRequest {
    open spec fn spec_deserialize(s0: Seq<u8>) -> Option<(EntityActionRequest, Seq<u8>)> {
        match varint_field(s0) {
            Some((entity_id, s1)) => {
                match varint_field(s1) {
                    Some((action_id, s2)) => {
                        match varint_field(s2) {
                            Some((jump_boost, s3)) => {
                                Some((EntityActionRequest { entity_id, action_id, jump_boost }, s3))
                            },
                            None => None,
                        }
                    },
                    None => None,
                }
            },
            None => None,
        }
    }

    open spec fn serializable() -> bool {
        true
    }

    open spec fn spec_header() -> Seq<u8> {
        varint_bytes(0x1b)
    }

    open spec fn takes_rest() -> bool {
        false
    }

    open spec fn spec_serialize(v: EntityActionRequest) -> Seq<u8> {
        varint_bytes(v.entity_id as u32) + varint_bytes(v.action_id as u32) + varint_bytes(v.jump_boost as u32)
    }

    open spec fn encodable(v: EntityActionRequest) -> bool {
        Self::serializable()
    }

    proof fn lemma_roundtrip(v: EntityActionRequest, rest: Seq<u8>) {
        let b0 = varint_bytes(v.entity_id as u32);
        let b1 = varint_bytes(v.action_id as u32);
        let b2 = varint_bytes(v.jump_boost as u32);
        let t3 = rest;
        let t2 = b2 + t3;
        let t1 = b1 + t2;
        let t0 = b0 + t1;
        lemma_concat_associative(b0 + b1, b2, t3);
        lemma_concat_associative(b0, b1, t2);
        lemma_varint_field_roundtrip(v.entity_id, t1);
        lemma_varint_field_roundtrip(v.action_id, t2);
        lemma_varint_field_roundtrip(v.jump_boost, t3);
    }

    fn deserialize(memory: &mut &'x [u8]) -> (res: Result<EntityActionRequest, ParseError>) {
        let entity_id: i32 = read_varint(memory)?;
        let action_id: i32 = read_varint(memory)?;
        let jump_boost: i32 = read_varint(memory)?;
        Ok(EntityActionRequest { entity_id, action_id, jump_boost })
    }

    fn serialize(&self, writer: &mut Vec<u8>) {
        let ghost v = self.deep_view();
        write_varint(writer, 0x1b);
        let ghost a = writer@;
        assert(old(writer)@ + Self::spec_header() =~= a);
        write_varint(writer, self.entity_id as u32);
        write_varint(writer, self.action_id as u32);
        proof {
            lemma_concat_associative(a, varint_bytes(v.entity_id as u32), varint_bytes(v.action_id as u32));
        }
        write_varint(writer, self.jump_boost as u32);
        proof {
            lemma_concat_associative(a, varint_bytes(v.entity_id as u32) + varint_bytes(v.action_id as u32), varint_bytes(v.jump_boost as u32));
        }
    }
}

/// Packet `0x1c` of the play state, sent by the client.
#[derive(Debug)]
pub struct SteerVehicleRequest {
    /// The IEEE 754 bits of the `f32` value.
    pub sideways: u32,
    /// The IEEE 754 bits of the `f32` value.
    pub forward: u32,
    pub jump: u8,
}

impl DeepView for SteerVehicleRequest {
    type V = SteerVehicleRequest;

    open spec fn deep_view(&self) -> SteerVehicleRequest {
        *self
    }
}

impl<'x> MD<'x> for SteerVehicleRequest {
    open spec fn spec_deserialize(s0: Seq<u8>) -> Option<(SteerVehicleRequest, Seq<u8>)> {
        match <u32 as MD<'x>>::spec_deserialize(s0) {
            Some((sideways, s1)) => {
                match <u32 as MD<'x>>::spec_deserialize(s1) {
                    Some((forward, s2)) => {
                        match <u8 as MD<'x>>::spec_deserialize(s2) {
                            Some((jump, s3)) => {
                                Some((SteerVehicleRequest { sideways, forward, jump }, s3))
                            },
                            None => None,
                        }
                    },
                    None => None,
                }
            },
            None => None,
        }
    }

    open spec fn serializable() -> bool {
        <u32 as MD<'x>>::serializable() && <u32 as MD<'x>>::serializable() && <u8 as MD<'x>>::serializable()
    }

    open spec fn spec_header() -> Seq<u8> {
        varint_bytes(0x1c)
    }

    open spec fn takes_rest() -> bool {
        false
    }

    open spec fn spec_serialize(v: SteerVehicleRequest) -> Seq<u8> {
        <u32 as MD<'x>>::spec_serialize(v.sideways) + <u32 as MD<'x>>::spec_serialize(v.forward) + <u8 as MD<'x>>::spec_serialize(v.jump)
    }

    open spec fn encodable(v: SteerVehicleRequest) -> bool {
        Self::serializable() && <u32 as MD<'x>>::encodable(v.sideways) && <u32 as MD<'x>>::encodable(v.forward) && <u8 as MD<'x>>::encodable(v.jump)
    }

    proof fn lemma_roundtrip(v: SteerVehicleRequest, rest: Seq<u8>) {
        let b0 = <u32 as MD<'x>>::spec_serialize(v.sideways);
        let b1 = <u32 as MD<'x>>::spec_serialize(v.forward);
        let b2 = <u8 as MD<'x>>::spec_serialize(v.jump);
        let t3 = rest;
        let t2 = b2 + t3;
        let t1 = b1 + t2;
        let t0 = b0 + t1;
        lemma_concat_associative(b0 + b1, b2, t3);
        lemma_concat_associative(b0, b1, t2);
        <u32 as MD<'x>>::lemma_roundtrip(v.sideways, t1);
        <u32 as MD<'x>>::lemma_roundtrip(v.forward, t2);
        <u8 as MD<'x>>::lemma_roundtrip(v.jump, t3);
    }

    fn deserialize(memory: &mut &'x [u8]) -> (res: Result<SteerVehicleRequest, ParseError>) {
        let sideways: u32 = <u32 as MD<'x>>::deserialize(memory)?;
        let forward: u32 = <u32 as MD<'x>>::deserialize(memory)?;
        let jump: u8 = <u8 as MD<'x>>::deserialize(memory)?;
        Ok(SteerVehicleRequest { sideways, forward, jump })
    }

    fn serialize(&self, writer: &mut Vec<u8>) {
        let ghost v = self.deep_view();
        write_varint(writer, 0x1c);
        let ghost a = writer@;
        assert(old(writer)@ + Self::spec_header() =~= a);
        self.sideways.serialize(writer);
        proof {
            lemma_write_after_header(a, <u32 as MD<'x>>::spec_header(), <u32 as MD<'x>>::spec_serialize(v.sideways));
        }
        self.forward.serialize(writer);
        proof {
            lemma_write_next(a, <u32 as MD<'x>>::spec_serialize(v.sideways), <u32 as MD<'x>>::spec_header(), <u32 as MD<'x>>::spec_serialize(v.forward));
        }
        self.jump.serialize(writer);
        proof {
            lemma_write_next(a, <u32 as MD<'x>>::spec_serialize(v.sideways) + <u32 as MD<'x>>::spec_serialize(v.forward), <u8 as MD<'x>>::spec_header(), <u8 as MD<'x>>::spec_serialize(v.jump));
        }
    }
}

/// Packet `0x1f` of the play state, sent by the client.
#[derive(Debug)]
pub struct DisplayedRecipeRequest<'x> {
    pub recipe_id: &'x str,
}

/// What a `DisplayedRecipeRequest` holds.
pub struct DisplayedRecipeRequestView {
    pub recipe_id: Seq<char>,
}

impl<'x> DeepView for DisplayedRecipeRequest<'x> {
    type V = DisplayedRecipeRequestView;

    open spec fn deep_view(&self) -> DisplayedRecipeRequestView {
        DisplayedRecipeRequestView { recipe_id: self.recipe_id.deep_view() }
    }
}

impl<'x> MD<'x> for DisplayedRecipeRequest<'x> {
    open spec fn spec_deserialize(s0: Seq<u8>) -> Option<(DisplayedRecipeRequestView, Seq<u8>)> {
        match <&'x str as MD<'x>>::spec_deserialize(s0) {
            Some((recipe_id, s1)) => {
                Some((DisplayedRecipeRequestView { recipe_id }, s1))
            },
            None => None,
        }
    }

    open spec fn serializable() -> bool {
        <&'x str as MD<'x>>::serializable()
    }

    open spec fn spec_header() -> Seq<u8> {
        varint_bytes(0x1f)
    }

    open spec fn takes_rest() -> bool {
        false
    }

    open spec fn spec_serialize(v: DisplayedRecipeRequestView) -> Seq<u8> {
        <&'x str as MD<'x>>::spec_serialize(v.recipe_id)
    }

    open spec fn encodable(v: DisplayedRecipeRequestView) -> bool {
        Self::serializable() && <&'x str as MD<'x>>::encodable(v.recipe_id)
    }

    proof fn lemma_roundtrip(v: DisplayedRecipeRequestView, rest: Seq<u8>) {
        let b0 = <&'x str as MD<'x>>::spec_serialize(v.recipe_id);
        let t1 = rest;
        let t0 = b0 + t1;
        assert(Self::spec_serialize(v) + rest == t0);
        <&'x str as MD<'x>>::lemma_roundtrip(v.recipe_id, t1);
    }

    fn deserialize(memory: &mut &'x [u8]) -> (res: Result<DisplayedRecipeRequest<'x>, ParseError>) {
        let recipe_id: &'x str = <&'x str as MD<'x>>::deserialize(memory)?;
        Ok(DisplayedRecipeRequest { recipe_id })
    }

    fn serialize(&self, writer: &mut Vec<u8>) {
        let ghost v = self.deep_view();
        write_varint(writer, 0x1f);
        let ghost a = writer@;
        assert(old(writer)@ + Self::spec_header() =~= a);
        self.recipe_id.serialize(writer);
        proof {
            lemma_write_after_header(a, <&'x str as MD<'x>>::spec_header(), <&'x str as MD<'x>>::spec_serialize(v.recipe_id));
        }
    }
}

/// Packet `0x1e` of the play state, sent by the client.
#[derive(Debug)]
pub struct RecipeBookRequest {
    pub book_id: i32,
    pub book_open: bool,
    pub filter_active: bool,
}

impl DeepView for RecipeBookRequest {
    type V = RecipeBookRequest;

    open spec fn deep_view(&self) -> RecipeBookRequest {
        *self
    }
}

impl<'x> MD<'x> for RecipeBookRequest {
    open spec fn spec_deserialize(s0: Seq<u8>) -> Option<(RecipeBookRequest, Seq<u8>)> {
        match varint_field(s0) {
            Some((book_id, s1)) => {
                match <bool as MD<'x>>::spec_deserialize(s1) {
                    Some((book_open, s2)) => {
                        match <bool as MD<'x>>::spec_deserialize(s2) {
                            Some((filter_active, s3)) => {
                                Some((RecipeBookRequest { book_id, book_open, filter_active }, s3))
                            },
                            None => None,
                        }
                    },
                    None => None,
                }
            },
            None => None,
        }
    }

    open spec fn serializable() -> bool {
        <bool as MD<'x>>::serializable() && <bool as MD<'x>>::serializable()
    }

    open spec fn spec_header() -> Seq<u8> {
        varint_bytes(0x1e)
    }

    open spec fn takes_rest() -> bool {
        false
    }

    open spec fn spec_serialize(v: RecipeBookRequest) -> Seq<u8> {
        varint_bytes(v.book_id as u32) + <bool as MD<'x>>::spec_serialize(v.book_open) + <bool as MD<'x>>::spec_serialize(v.filter_active)
    }

    open spec fn encodable(v: RecipeBookRequest) -> bool {
        Self::serializable() && <bool as MD<'x>>::encodable(v.book_open) && <bool as MD<'x>>::encodable(v.filter_active)
    }

    proof fn lemma_roundtrip(v: RecipeBookRequest, rest: Seq<u8>) {
        let b0 = varint_bytes(v.book_id as u32);
        let b1 = <bool as MD<'x>>::spec_serialize(v.book_open);
        let b2 = <bool as MD<'x>>::spec_serialize(v.filter_active);
        let t3 = rest;
        let t2 = b2 + t3;
        let t1 = b1 + t2;
        let t0 = b0 + t1;
        lemma_concat_associative(b0 + b1, b2, t3);
        lemma_concat_associative(b0, b1, t2);
        lemma_varint_field_roundtrip(v.book_id, t1);
        <bool as MD<'x>>::lemma_roundtrip(v.book_open, t2);
        <bool as MD<'x>>::lemma_roundtrip(v.filter_active, t3);
    }

    fn deserialize(memory: &mut &'x [u8]) -> (res: Result<RecipeBookRequest, ParseError>) {
        let book_id: i32 = read_varint(memory)?;
        let book_open: bool = <bool as MD<'x>>::deserialize(memory)?;
        let filter_active: bool = <bool as MD<'x>>::deserialize(memory)?;
        Ok(RecipeBookRequest { book_id, book_open, filter_active })
    }

    fn serialize(&self, writer: &mut Vec<u8>) {
        let ghost v = self.deep_view();
        write_varint(writer, 0x1e);
        let ghost a = writer@;
        assert(old(writer)@ + Self::spec_header() =~= a);
        write_varint(writer, self.book_id as u32);
        self.book_open.serialize(writer);
        proof {
            lemma_write_next(a, varint_bytes(v.book_id as u32), <bool as MD<'x>>::spec_header(), <bool as MD<'x>>::spec_serialize(v.book_open));
        }
        self.filter_active.serialize(writer);
        proof {
            lemma_write_next(a, varint_bytes(v.book_id as u32) + <bool as MD<'x>>::spec_serialize(v.book_open), <bool as MD<'x>>::spec_header(), <bool as MD<'x>>::spec_serialize(v.filter_active));
        }
    }
}

/// Packet `0x21` of the play state, sent by the client.
#[derive(Debug)]
pub struct ResourcePackReceiveRequest {
    pub result: i32,
}

impl DeepView for ResourcePackReceiveRequest {
    type V = ResourcePackReceiveRequest;

    open spec fn deep_view(&self) -> ResourcePackReceiveRequest {
        *self
    }
}

impl<'x> MD<'x> for ResourcePackReceiveRequest {
    open spec fn spec_deserialize(s0: Seq<u8>) -> Option<(ResourcePackReceiveRequest, Seq<u8>)> {
        match varint_field(s0) {
            Some((result, s1)) => {
                Some((ResourcePackReceiveRequest { result }, s1))
            },
            None => None,
        }
    }

    open spec fn serializable() -> bool {
        true
    }

    open spec fn spec_header() -> Seq<u8> {
        varint_bytes(0x21)
    }

    open spec fn takes_rest() -> bool {
        false
    }

    open spec fn spec_serialize(v: ResourcePackReceiveRequest) -> Seq<u8> {
        varint_bytes(v.result as u32)
    }

    open spec fn encodable(v: ResourcePackReceiveRequest) -> bool {
        Self::serializable()
    }

    proof fn lemma_roundtrip(v: ResourcePackReceiveRequest, rest: Seq<u8>) {
        let b0 = varint_bytes(v.result as u32);
        let t1 = rest;
        let t0 = b0 + t1;
        assert(Self::spec_serialize(v) + rest == t0);
        lemma_varint_field_roundtrip(v.result, t1);
    }

    fn deserialize(memory: &mut &'x [u8]) -> (res: Result<ResourcePackReceiveRequest, ParseError>) {
        let result: i32 = read_varint(memory)?;
        Ok(ResourcePackReceiveRequest { result })
    }

    fn serialize(&self, writer: &mut Vec<u8>) {
        let ghost v = self.deep_view();
        write_varint(writer, 0x21);
        let ghost a = writer@;
        assert(old(writer)@ + Self::spec_header() =~= a);
        write_varint(writer, self.result as u32);
    }
}

/// Packet `0x25` of the play state, sent by the client.
#[derive(Debug)]
pub struct HeldItemSlotRequest {
    pub slot_id: i16,
}

impl DeepView for HeldItemSlotRequest {
    type V = HeldItemSlotRequest;

    open spec fn deep_view(&self) -> HeldItemSlotRequest {
        *self
    }
}

impl<'x> MD<'x> for HeldItemSlotRequest {
    open spec fn spec_deserialize(s0: Seq<u8>) -> Option<(HeldItemSlotRequest, Seq<u8>)> {
        match <i16 as MD<'x>>::spec_deserialize(s0) {
            Some((slot_id, s1)) => {
                Some((HeldItemSlotRequest { slot_id }, s1))
            },
            None => None,
        }
    }

    open spec fn serializable() -> bool {
        <i16 as MD<'x>>::serializable()
    }

    open spec fn spec_header() -> Seq<u8> {
        varint_bytes(0x25)
    }

    open spec fn takes_rest() -> bool {
        false
    }

    open spec fn spec_serialize(v: HeldItemSlotRequest) -> Seq<u8> {
        <i16 as MD<'x>>::spec_serialize(v.slot_id)
    }

    open spec fn encodable(v: HeldItemSlotRequest) -> bool {
        Self::serializable() && <i16 as MD<'x>>::encodable(v.slot_id)
    }

    proof fn lemma_roundtrip(v: HeldItemSlotRequest, rest: Seq<u8>) {
        let b0 = <i16 as MD<'x>>::spec_serialize(v.slot_id);
        let t1 = rest;
        let t0 = b0 + t1;
        assert(Self::spec_serialize(v) + rest == t0);
        <i16 as MD<'x>>::lemma_roundtrip(v.slot_id, t1);
    }

    fn deserialize(memory: &mut &'x [u8]) -> (res: Result<HeldItemSlotRequest, ParseError>) {
        let slot_id: i16 = <i16 as MD<'x>>::deserialize(memory)?;
        Ok(HeldItemSlotRequest { slot_id })
    }

    fn serialize(&self, writer: &mut Vec<u8>) {
        let ghost v = self.deep_view();
        write_varint(writer, 0x25);
        let ghost a = writer@;
        assert(old(writer)@ + Self::spec_header() =~= a);
        self.slot_id.serialize(writer);
        proof {
            lemma_write_after_header(a, <i16 as MD<'x>>::spec_header(), <i16 as MD<'x>>::spec_serialize(v.slot_id));
        }
    }
}

/// Packet `0x28` of the play state, sent by the client.
#[derive(Debug)]
pub struct SetCreativeSlotRequest<'x> {
    pub slot: i16,
    pub item: InventorySlot<'x>,
}

/// What a `SetCreativeSlotRequest` holds.
pub struct SetCreativeSlotRequestView {
    pub slot: i16,
    pub item: Option<InventorySlotDataView>,
}

impl<'x> DeepView for SetCreativeSlotRequest<'x> {
    type V = SetCreativeSlotRequestView;

    open spec fn deep_view(&self) -> SetCreativeSlotRequestView {
        SetCreativeSlotRequestView { slot: self.slot, item: self.item.deep_view() }
    }
}

impl<'x> MD<'x> for SetCreativeSlotRequest<'x> {
    open spec fn spec_deserialize(s0: Seq<u8>) -> Option<(SetCreativeSlotRequestView, Seq<u8>)> {
        match <i16 as MD<'x>>::spec_deserialize(s0) {
            Some((slot, s1)) => {
                match <InventorySlot<'x> as MD<'x>>::spec_deserialize(s1) {
                    Some((item, s2)) => {
                        Some((SetCreativeSlotRequestView { slot, item }, s2))
                    },
                    None => None,
                }
            },
            None => None,
        }
    }

    open spec fn serializable() -> bool {
        <i16 as MD<'x>>::serializable() && <InventorySlot<'x> as MD<'x>>::serializable()
    }

    open spec fn spec_header() -> Seq<u8> {
        varint_bytes(0x28)
    }

    open spec fn takes_rest() -> bool {
        false
    }

    open spec fn spec_serialize(v: SetCreativeSlotRequestView) -> Seq<u8> {
        <i16 as MD<'x>>::spec_serialize(v.slot) + <InventorySlot<'x> as MD<'x>>::spec_serialize(v.item)
    }

    open spec fn encodable(v: SetCreativeSlotRequestView) -> bool {
        Self::serializable() && <i16 as MD<'x>>::encodable(v.slot) && <InventorySlot<'x> as MD<'x>>::encodable(v.item)
    }

    proof fn lemma_roundtrip(v: SetCreativeSlotRequestView, rest: Seq<u8>) {
        let b0 = <i16 as MD<'x>>::spec_serialize(v.slot);
        let b1 = <InventorySlot<'x> as MD<'x>>::spec_serialize(v.item);
        let t2 = rest;
        let t1 = b1 + t2;
        let t0 = b0 + t1;
        lemma_concat_associative(b0, b1, t2);
        <i16 as MD<'x>>::lemma_roundtrip(v.slot, t1);
        <InventorySlot<'x> as MD<'x>>::lemma_roundtrip(v.item, t2);
    }

    fn deserialize(memory: &mut &'x [u8]) -> (res: Result<SetCreativeSlotRequest<'x>, ParseError>) {
        let slot: i16 = <i16 as MD<'x>>::deserialize(memory)?;
        let item: InventorySlot<'x> = <InventorySlot<'x> as MD<'x>>::deserialize(memory)?;
        Ok(SetCreativeSlotRequest { slot, item })
    }

    fn serialize(&self, writer: &mut Vec<u8>) {
        let ghost v = self.deep_view();
        write_varint(writer, 0x28);
        let ghost a = writer@;
        assert(old(writer)@ + Self::spec_header() =~= a);
        self.slot.serialize(writer);
        proof {
            lemma_write_after_header(a, <i16 as MD<'x>>::spec_header(), <i16 as MD<'x>>::spec_serialize(v.slot));
        }
        self.item.serialize(writer);
        proof {
            lemma_write_next(a, <i16 as MD<'x>>::spec_serialize(v.slot), <InventorySlot<'x> as MD<'x>>::spec_header(), <InventorySlot<'x> as MD<'x>>::spec_serialize(v.item));
        }
    }
}

/// Packet `0x29` of the play state, sent by the client.
#[derive(Debug)]
pub struct UpdateJigsawBlockRequest<'x> {
    pub location: Position,
    pub name: &'x str,
    pub target: &'x str,
    pub pool: &'x str,
    pub final_state: &'x str,
    pub joint_type: &'x str,
}

/// What a `UpdateJigsawBlockRequest` holds.
pub struct UpdateJigsawBlockRequestView {
    pub location: Position,
    pub name: Seq<char>,
    pub target: Seq<char>,
    pub pool: Seq<char>,
    pub final_state: Seq<char>,
    pub joint_type: Seq<char>,
}

impl<'x> DeepView for UpdateJigsawBlockRequest<'x> {
    type V = UpdateJigsawBlockRequestView;

    open spec fn deep_view(&self) -> UpdateJigsawBlockRequestView {
        UpdateJigsawBlockRequestView { location: self.location, name: self.name.deep_view(), target: self.target.deep_view(), pool: self.pool.deep_view(), final_state: self.final_state.deep_view(), joint_type: self.joint_type.deep_view() }
    }
}

impl<'x> MD<'x> for UpdateJigsawBlockRequest<'x> {
    open spec fn spec_deserialize(s0: Seq<u8>) -> Option<(UpdateJigsawBlockRequestView, Seq<u8>)> {
        match <Position as MD<'x>>::spec_deserialize(s0) {
            Some((location, s1)) => {
                match <&'x str as MD<'x>>::spec_deserialize(s1) {
                    Some((name, s2)) => {
                        match <&'x str as MD<'x>>::spec_deserialize(s2) {
                            Some((target, s3)) => {
                                match <&'x str as MD<'x>>::spec_deserialize(s3) {
                                    Some((pool, s4)) => {
                                        match <&'x str as MD<'x>>::spec_deserialize(s4) {
                                            Some((final_state, s5)) => {
                                                match <&'x str as MD<'x>>::spec_deserialize(s5) {
                                                    Some((joint_type, s6)) => {
                                                        Some((UpdateJigsawBlockRequestView { location, name, target, pool, final_state, joint_type }, s6))
                                                    },
                                                    None => None,
                                                }
                                            },
                                            None => None,
                                        }
                                    },
                                    None => None,
                                }
                            },
                            None => None,
                        }
                    },
                    None => None,
                }
            },
            None => None,
        }
    }

    open spec fn serializable() -> bool {
        <Position as MD<'x>>::serializable() && <&'x str as MD<'x>>::serializable() && <&'x str as MD<'x>>::serializable() && <&'x str as MD<'x>>::serializable() && <&'x str as MD<'x>>::serializable() && <&'x str as MD<'x>>::serializable()
    }

    open spec fn spec_header() -> Seq<u8> {
        varint_bytes(0x29)
    }

    open spec fn takes_rest() -> bool {
        false
    }

    open spec fn spec_serialize(v: UpdateJigsawBlockRequestView) -> Seq<u8> {
        <Position as MD<'x>>::spec_serialize(v.location) + <&'x str as MD<'x>>::spec_serialize(v.name) + <&'x str as MD<'x>>::spec_serialize(v.target) + <&'x str as MD<'x>>::spec_serialize(v.pool) + <&'x str as MD<'x>>::spec_serialize(v.final_state) + <&'x str as MD<'x>>::spec_serialize(v.joint_type)
    }

    open spec fn encodable(v: UpdateJigsawBlockRequestView) -> bool {
        Self::serializable() && <Position as MD<'x>>::encodable(v.location) && <&'x str as MD<'x>>::encodable(v.name) && <&'x str as MD<'x>>::encodable(v.target) && <&'x str as MD<'x>>::encodable(v.pool) && <&'x str as MD<'x>>::encodable(v.final_state) && <&'x str as MD<'x>>::encodable(v.joint_type)
    }

    proof fn lemma_roundtrip(v: UpdateJigsawBlockRequestView, rest: Seq<u8>) {
        let b0 = <Position as MD<'x>>::spec_serialize(v.location);
        let b1 = <&'x str as MD<'x>>::spec_serialize(v.name);
        let b2 = <&'x str as MD<'x>>::spec_serialize(v.target);
        let b3 = <&'x str as MD<'x>>::spec_serialize(v.pool);
        let b4 = <&'x str as MD<'x>>::spec_serialize(v.final_state);
        let b5 = <&'x str as MD<'x>>::spec_serialize(v.joint_type);
        let t6 = rest;
        let t5 = b5 + t6;
        let t4 = b4 + t5;
        let t3 = b3 + t4;
        let t2 = b2 + t3;
        let t1 = b1 + t2;
        let t0 = b0 + t1;
        lemma_concat_associative(b0 + b1 + b2 + b3 + b4, b5, t6);
        lemma_concat_associative(b0 + b1 + b2 + b3, b4, t5);
        lemma_concat_associative(b0 + b1 + b2, b3, t4);
        lemma_concat_associative(b0 + b1, b2, t3);
        lemma_concat_associative(b0, b1, t2);
        <Position as MD<'x>>::lemma_roundtrip(v.location, t1);
        <&'x str as MD<'x>>::lemma_roundtrip(v.name, t2);
        <&'x str as MD<'x>>::lemma_roundtrip(v.target, t3);
        <&'x str as MD<'x>>::lemma_roundtrip(v.pool, t4);
        <&'x str as MD<'x>>::lemma_roundtrip(v.final_state, t5);
        <&'x str as MD<'x>>::lemma_roundtrip(v.joint_type, t6);
    }

    fn deserialize(memory: &mut &'x [u8]) -> (res: Result<UpdateJigsawBlockRequest<'x>, ParseError>) {
        let location: Position = <Position as MD<'x>>::deserialize(memory)?;
        let name: &'x str = <&'x str as MD<'x>>::deserialize(memory)?;
        let target: &'x str = <&'x str as MD<'x>>::deserialize(memory)?;
        let pool: &'x str = <&'x str as MD<'x>>::deserialize(memory)?;
        let final_state: &'x str = <&'x str as MD<'x>>::deserialize(memory)?;
        let joint_type: &'x str = <&'x str as MD<'x>>::deserialize(memory)?;
        Ok(UpdateJigsawBlockRequest { location, name, target, pool, final_state, joint_type })
    }

    fn serialize(&self, writer: &mut Vec<u8>) {
        let ghost v = self.deep_view();
        write_varint(writer, 0x29);
        let ghost a = writer@;
        assert(old(writer)@ + Self::spec_header() =~= a);
        self.location.serialize(writer);
        proof {
            lemma_write_after_header(a, <Position as MD<'x>>::spec_header(), <Position as MD<'x>>::spec_serialize(v.location));
        }
        self.name.serialize(writer);
        proof {
            lemma_write_next(a, <Position as MD<'x>>::spec_serialize(v.location), <&'x str as MD<'x>>::spec_header(), <&'x str as MD<'x>>::spec_serialize(v.name));
        }
        self.target.serialize(writer);
        proof {
            lemma_write_next(a, <Position as MD<'x>>::spec_serialize(v.location) + <&'x str as MD<'x>>::spec_serialize(v.name), <&'x str as MD<'x>>::spec_header(), <&'x str as MD<'x>>::spec_serialize(v.target));
        }
        self.pool.serialize(writer);
        proof {
            lemma_write_next(a, <Position as MD<'x>>::spec_serialize(v.location) + <&'x str as MD<'x>>::spec_serialize(v.name) + <&'x str as MD<'x>>::spec_serialize(v.target), <&'x str as MD<'x>>::spec_header(), <&'x str as MD<'x>>::spec_serialize(v.pool));
        }
        self.final_state.serialize(writer);
        proof {
            lemma_write_next(a, <Position as MD<'x>>::spec_serialize(v.location) + <&'x str as MD<'x>>::spec_serialize(v.name) + <&'x str as MD<'x>>::spec_serialize(v.target) + <&'x str as MD<'x>>::spec_serialize(v.pool), <&'x str as MD<'x>>::spec_header(), <&'x str as MD<'x>>::spec_serialize(v.final_state));
        }
        self.joint_type.serialize(writer);
        proof {
            lemma_write_next(a, <Position as MD<'x>>::spec_serialize(v.location) + <&'x str as MD<'x>>::spec_serialize(v.name) + <&'x str as MD<'x>>::spec_serialize(v.target) + <&'x str as MD<'x>>::spec_serialize(v.pool) + <&'x str as MD<'x>>::spec_serialize(v.final_state), <&'x str as MD<'x>>::spec_header(), <&'x str as MD<'x>>::spec_serialize(v.joint_type));
        }
    }
}

/// Packet `0x2b` of the play state, sent by the client.
#[derive(Debug)]
pub struct UpdateSignRequest<'x> {
    pub location: Position,
    pub text_1: &'x str,
    pub text_2: &'x str,
    pub text_3: &'x str,
    pub text_4: &'x str,
}

/// What a `UpdateSignRequest` holds.
pub struct UpdateSignRequestView {
    pub location: Position,
    pub text_1: Seq<char>,
    pub text_2: Seq<char>,
    pub text_3: Seq<char>,
    pub text_4: Seq<char>,
}

impl<'x> DeepView for UpdateSignRequest<'x> {
    type V = UpdateSignRequestView;

    open spec fn deep_view(&self) -> UpdateSignRequestView {
        UpdateSignRequestView { location: self.location, text_1: self.text_1.deep_view(), text_2: self.text_2.deep_view(), text_3: self.text_3.deep_view(), text_4: self.text_4.deep_view() }
    }
}

impl<'x> MD<'x> for UpdateSignRequest<'x> {
    open spec fn spec_deserialize(s0: Seq<u8>) -> Option<(UpdateSignRequestView, Seq<u8>)> {
        match <Position as MD<'x>>::spec_deserialize(s0) {
            Some((location, s1)) => {
                match <&'x str as MD<'x>>::spec_deserialize(s1) {
                    Some((text_1, s2)) => {
                        match <&'x str as MD<'x>>::spec_deserialize(s2) {
                            Some((text_2, s3)) => {
                                match <&'x str as MD<'x>>::spec_deserialize(s3) {
                                    Some((text_3, s4)) => {
                                        match <&'x str as MD<'x>>::spec_deserialize(s4) {
                                            Some((text_4, s5)) => {
                                                Some((UpdateSignRequestView { location, text_1, text_2, text_3, text_4 }, s5))
                                            },
                                            None => None,
                                        }
                                    },
                                    None => None,
                                }
                            },
                            None => None,
                        }
                    },
                    None => None,
                }
            },
            None => None,
        }
    }

    open spec fn serializable() -> bool {
        <Position as MD<'x>>::serializable() && <&'x str as MD<'x>>::serializable() && <&'x str as MD<'x>>::serializable() && <&'x str as MD<'x>>::serializable() && <&'x str as MD<'x>>::serializable()
    }

    open spec fn spec_header() -> Seq<u8> {
        varint_bytes(0x2b)
    }

    open spec fn takes_rest() -> bool {
        false
    }

    open spec fn spec_serialize(v: UpdateSignRequestView) -> Seq<u8> {
        <Position as MD<'x>>::spec_serialize(v.location) + <&'x str as MD<'x>>::spec_serialize(v.text_1) + <&'x str as MD<'x>>::spec_serialize(v.text_2) + <&'x str as MD<'x>>::spec_serialize(v.text_3) + <&'x str as MD<'x>>::spec_serialize(v.text_4)
    }

    open spec fn encodable(v: UpdateSignRequestView) -> bool {
        Self::serializable() && <Position as MD<'x>>::encodable(v.location) && <&'x str as MD<'x>>::encodable(v.text_1) && <&'x str as MD<'x>>::encodable(v.text_2) && <&'x str as MD<'x>>::encodable(v.text_3) && <&'x str as MD<'x>>::encodable(v.text_4)
    }

    proof fn lemma_roundtrip(v: UpdateSignRequestView, rest: Seq<u8>) {
        let b0 = <Position as MD<'x>>::spec_serialize(v.location);
        let b1 = <&'x str as MD<'x>>::spec_serialize(v.text_1);
        let b2 = <&'x str as MD<'x>>::spec_serialize(v.text_2);
        let b3 = <&'x str as MD<'x>>::spec_serialize(v.text_3);
        let b4 = <&'x str as MD<'x>>::spec_serialize(v.text_4);
        let t5 = rest;
        let t4 = b4 + t5;
        let t3 = b3 + t4;
        let t2 = b2 + t3;
        let t1 = b1 + t2;
        let t0 = b0 + t1;
        lemma_concat_associative(b0 + b1 + b2 + b3, b4, t5);
        lemma_concat_associative(b0 + b1 + b2, b3, t4);
        lemma_concat_associative(b0 + b1, b2, t3);
        lemma_concat_associative(b0, b1, t2);
        <Position as MD<'x>>::lemma_roundtrip(v.location, t1);
        <&'x str as MD<'x>>::lemma_roundtrip(v.text_1, t2);
        <&'x str as MD<'x>>::lemma_roundtrip(v.text_2, t3);
        <&'x str as MD<'x>>::lemma_roundtrip(v.text_3, t4);
        <&'x str as MD<'x>>::lemma_roundtrip(v.text_4, t5);
    }

    fn deserialize(memory: &mut &'x [u8]) -> (res: Result<UpdateSignRequest<'x>, ParseError>) {
        let location: Position = <Position as MD<'x>>::deserialize(memory)?;
        let text_1: &'x str = <&'x str as MD<'x>>::deserialize(memory)?;
        let text_2: &'x str = <&'x str as MD<'x>>::deserialize(memory)?;
        let text_3: &'x str = <&'x str as MD<'x>>::deserialize(memory)?;
        let text_4: &'x str = <&'x str as MD<'x>>::deserialize(memory)?;
        Ok(UpdateSignRequest { location, text_1, text_2, text_3, text_4 })
    }

    fn serialize(&self, writer: &mut Vec<u8>) {
        let ghost v = self.deep_view();
        write_varint(writer, 0x2b);
        let ghost a = writer@;
        assert(old(writer)@ + Self::spec_header() =~= a);
        self.location.serialize(writer);
        proof {
            lemma_write_after_header(a, <Position as MD<'x>>::spec_header(), <Position as MD<'x>>::spec_serialize(v.location));
        }
        self.text_1.serialize(writer);
        proof {
            lemma_write_next(a, <Position as MD<'x>>::spec_serialize(v.location), <&'x str as MD<'x>>::spec_header(), <&'x str as MD<'x>>::spec_serialize(v.text_1));
        }
        self.text_2.serialize(writer);
        proof {
            lemma_write_next(a, <Position as MD<'x>>::spec_serialize(v.location) + <&'x str as MD<'x>>::spec_serialize(v.text_1), <&'x str as MD<'x>>::spec_header(), <&'x str as MD<'x>>::spec_serialize(v.text_2));
        }
        self.text_3.serialize(writer);
        proof {
            lemma_write_next(a, <Position as MD<'x>>::spec_serialize(v.location) + <&'x str as MD<'x>>::spec_serialize(v.text_1) + <&'x str as MD<'x>>::spec_serialize(v.text_2), <&'x str as MD<'x>>::spec_header(), <&'x str as MD<'x>>::spec_serialize(v.text_3));
        }
        self.text_4.serialize(writer);
        proof {
            lemma_write_next(a, <Position as MD<'x>>::spec_serialize(v.location) + <&'x str as MD<'x>>::spec_serialize(v.text_1) + <&'x str as MD<'x>>::spec_serialize(v.text_2) + <&'x str as MD<'x>>::spec_serialize(v.text_3), <&'x str as MD<'x>>::spec_header(), <&'x str as MD<'x>>::spec_serialize(v.text_4));
        }
    }
}

/// Packet `0x2c` of the play state, sent by the client.
#[derive(Debug)]
pub struct ArmAnimationRequest {
    pub hand: i32,
}

impl DeepView for ArmAnimationRequest {
    type V = ArmAnimationRequest;

    open spec fn deep_view(&self) -> ArmAnimationRequest {
        *self
    }
}

impl<'x> MD<'x> for ArmAnimationRequest {
    open spec fn spec_deserialize(s0: Seq<u8>) -> Option<(ArmAnimationRequest, Seq<u8>)> {
        match varint_field(s0) {
            Some((hand, s1)) => {
                Some((ArmAnimationRequest { hand }, s1))
            },
            None => None,
        }
    }

    open spec fn serializable() -> bool {
        true
    }

    open spec fn spec_header() -> Seq<u8> {
        varint_bytes(0x2c)
    }

    open spec fn takes_rest() -> bool {
        false
    }

    open spec fn spec_serialize(v: ArmAnimationRequest) -> Seq<u8> {
        varint_bytes(v.hand as u32)
    }

    open spec fn encodable(v: ArmAnimationRequest) -> bool {
        Self::serializable()
    }

    proof fn lemma_roundtrip(v: ArmAnimationRequest, rest: Seq<u8>) {
        let b0 = varint_bytes(v.hand as u32);
        let t1 = rest;
        let t0 = b0 + t1;
        assert(Self::spec_serialize(v) + rest == t0);
        lemma_varint_field_roundtrip(v.hand, t1);
    }

    fn deserialize(memory: &mut &'x [u8]) -> (res: Result<ArmAnimationRequest, ParseError>) {
        let hand: i32 = read_varint(memory)?;
        Ok(ArmAnimationRequest { hand })
    }

    fn serialize(&self, writer: &mut Vec<u8>) {
        let ghost v = self.deep_view();
        write_varint(writer, 0x2c);
        let ghost a = writer@;
        assert(old(writer)@ + Self::spec_header() =~= a);
        write_varint(writer, self.hand as u32);
    }
}

/// Packet `0x2d` of the play state, sent by the client.
#[derive(Debug)]
pub struct SpectateRequest {
    pub target: u128,
}

impl DeepView for SpectateRequest {
    type V = SpectateRequest;

    open spec fn deep_view(&self) -> SpectateRequest {
        *self
    }
}

impl<'x> MD<'x> for SpectateRequest {
    open spec fn spec_deserialize(s0: Seq<u8>) -> Option<(SpectateRequest, Seq<u8>)> {
        match <u128 as MD<'x>>::spec_deserialize(s0) {
            Some((target, s1)) => {
                Some((SpectateRequest { target }, s1))
            },
            None => None,
        }
    }

    open spec fn serializable() -> bool {
        <u128 as MD<'x>>::serializable()
    }

    open spec fn spec_header() -> Seq<u8> {
        varint_bytes(0x2d)
    }

    open spec fn takes_rest() -> bool {
        false
    }

    open spec fn spec_serialize(v: SpectateRequest) -> Seq<u8> {
        <u128 as MD<'x>>::spec_serialize(v.target)
    }

    open spec fn encodable(v: SpectateRequest) -> bool {
        Self::serializable() && <u128 as MD<'x>>::encodable(v.target)
    }

    proof fn lemma_roundtrip(v: SpectateRequest, rest: Seq<u8>) {
        let b0 = <u128 as MD<'x>>::spec_serialize(v.target);
        let t1 = rest;
        let t0 = b0 + t1;
        assert(Self::spec_serialize(v) + rest == t0);
        <u128 as MD<'x>>::lemma_roundtrip(v.target, t1);
    }

    fn deserialize(memory: &mut &'x [u8]) -> (res: Result<SpectateRequest, ParseError>) {
        let target: u128 = <u128 as MD<'x>>::deserialize(memory)?;
        Ok(SpectateRequest { target })
    }

    fn serialize(&self, writer: &mut Vec<u8>) {
        let ghost v = self.deep_view();
        write_varint(writer, 0x2d);
        let ghost a = writer@;
        assert(old(writer)@ + Self::spec_header() =~= a);
        self.target.serialize(writer);
        proof {
            lemma_write_after_header(a, <u128 as MD<'x>>::spec_header(), <u128 as MD<'x>>::spec_serialize(v.target));
        }
    }
}

/// Packet `0x2e` of the play state, sent by the client.
#[derive(Debug)]
pub struct BlockPlaceRequest {
    pub hand: i32,
    pub location: Position,
    pub direction: i32,
    /// The IEEE 754 bits of the `f32` value.
    pub cursor_x: u32,
    /// The IEEE 754 bits of the `f32` value.
    pub cursor_y: u32,
    /// The IEEE 754 bits of the `f32` value.
    pub cursor_z: u32,
    pub inside_block: bool,
}

impl DeepView for BlockPlaceRequest {
    type V = BlockPlaceRequest;

    open spec fn deep_view(&self) -> BlockPlaceRequest {
        *self
    }
}

impl<'x> MD<'x> for BlockPlaceRequest {
    open spec fn spec_deserialize(s0: Seq<u8>) -> Option<(BlockPlaceRequest, Seq<u8>)> {
        match varint_field(s0) {
            Some((hand, s1)) => {
                match <Position as MD<'x>>::spec_deserialize(s1) {
                    Some((location, s2)) => {
                        match varint_field(s2) {
                            Some((direction, s3)) => {
                                match <u32 as MD<'x>>::spec_deserialize(s3) {
                                    Some((cursor_x, s4)) => {
                                        match <u32 as MD<'x>>::spec_deserialize(s4) {
                                            Some((cursor_y, s5)) => {
                                                match <u32 as MD<'x>>::spec_deserialize(s5) {
                                                    Some((cursor_z, s6)) => {
                                                        match <bool as MD<'x>>::spec_deserialize(s6) {
                                                            Some((inside_block, s7)) => {
                                                                Some((BlockPlaceRequest { hand, location, direction, cursor_x, cursor_y, cursor_z, inside_block }, s7))
                                                            },
                                                            None => None,
                                                        }
                                                    },
                                                    None => None,
                                                }
                                            },
                                            None => None,
                                        }
                                    },
                                    None => None,
                                }
                            },
                            None => None,
                        }
                    },
                    None => None,
                }
            },
            None => None,
        }
    }

    open spec fn serializable() -> bool {
        <Position as MD<'x>>::serializable() && <u32 as MD<'x>>::serializable() && <u32 as MD<'x>>::serializable() && <u32 as MD<'x>>::serializable() && <bool as MD<'x>>::serializable()
    }

    open spec fn spec_header() -> Seq<u8> {
        varint_bytes(0x2e)
    }

    open spec fn takes_rest() -> bool {
        false
    }

    open spec fn spec_serialize(v: BlockPlaceRequest) -> Seq<u8> {
        varint_bytes(v.hand as u32) + <Position as MD<'x>>::spec_serialize(v.location) + varint_bytes(v.direction as u32) + <u32 as MD<'x>>::spec_serialize(v.cursor_x) + <u32 as MD<'x>>::spec_serialize(v.cursor_y) + <u32 as MD<'x>>::spec_serialize(v.cursor_z) + <bool as MD<'x>>::spec_serialize(v.inside_block)
    }

    open spec fn encodable(v: BlockPlaceRequest) -> bool {
        Self::serializable() && <Position as MD<'x>>::encodable(v.location) && <u32 as MD<'x>>::encodable(v.cursor_x) && <u32 as MD<'x>>::encodable(v.cursor_y) && <u32 as MD<'x>>::encodable(v.cursor_z) && <bool as MD<'x>>::encodable(v.inside_block)
    }

    proof fn lemma_roundtrip(v: BlockPlaceRequest, rest: Seq<u8>) {
        let b0 = varint_bytes(v.hand as u32);
        let b1 = <Position as MD<'x>>::spec_serialize(v.location);
        let b2 = varint_bytes(v.direction as u32);
        let b3 = <u32 as MD<'x>>::spec_serialize(v.cursor_x);
        let b4 = <u32 as MD<'x>>::spec_serialize(v.cursor_y);
        let b5 = <u32 as MD<'x>>::spec_serialize(v.cursor_z);
        let b6 = <bool as MD<'x>>::spec_serialize(v.inside_block);
        let t7 = rest;
        let t6 = b6 + t7;
        let t5 = b5 + t6;
        let t4 = b4 + t5;
        let t3 = b3 + t4;
        let t2 = b2 + t3;
        let t1 = b1 + t2;
        let t0 = b0 + t1;
        lemma_concat_associative(b0 + b1 + b2 + b3 + b4 + b5, b6, t7);
        lemma_concat_associative(b0 + b1 + b2 + b3 + b4, b5, t6);
        lemma_concat_associative(b0 + b1 + b2 + b3, b4, t5);
        lemma_concat_associative(b0 + b1 + b2, b3, t4);
        lemma_concat_associative(b0 + b1, b2, t3);
        lemma_concat_associative(b0, b1, t2);
        lemma_varint_field_roundtrip(v.hand, t1);
        <Position as MD<'x>>::lemma_roundtrip(v.location, t2);
        lemma_varint_field_roundtrip(v.direction, t3);
        <u32 as MD<'x>>::lemma_roundtrip(v.cursor_x, t4);
        <u32 as MD<'x>>::lemma_roundtrip(v.cursor_y, t5);
        <u32 as MD<'x>>::lemma_roundtrip(v.cursor_z, t6);
        <bool as MD<'x>>::lemma_roundtrip(v.inside_block, t7);
    }

    fn deserialize(memory: &mut &'x [u8]) -> (res: Result<BlockPlaceRequest, ParseError>) {
        let hand: i32 = read_varint(memory)?;
        let location: Position = <Position as MD<'x>>::deserialize(memory)?;
        let direction: i32 = read_varint(memory)?;
        let cursor_x: u32 = <u32 as MD<'x>>::deserialize(memory)?;
        let cursor_y: u32 = <u32 as MD<'x>>::deserialize(memory)?;
        let cursor_z: u32 = <u32 as MD<'x>>::deserialize(memory)?;
        let inside_block: bool = <bool as MD<'x>>::deserialize(memory)?;
        Ok(BlockPlaceRequest { hand, location, direction, cursor_x, cursor_y, cursor_z, inside_block })
    }

    fn serialize(&self, writer: &mut Vec<u8>) {
        let ghost v = self.deep_view();
        write_varint(writer, 0x2e);
        let ghost a = writer@;
        assert(old(writer)@ + Self::spec_header() =~= a);
        write_varint(writer, self.hand as u32);
        self.location.serialize(writer);
        proof {
            lemma_write_next(a, varint_bytes(v.hand as u32), <Position as MD<'x>>::spec_header(), <Position as MD<'x>>::spec_serialize(v.location));
        }
        write_varint(writer, self.direction as u32);
        proof {
            lemma_concat_associative(a, varint_bytes(v.hand as u32) + <Position as MD<'x>>::spec_serialize(v.location), varint_bytes(v.direction as u32));
        }
        self.cursor_x.serialize(writer);
        proof {
            lemma_write_next(a, varint_bytes(v.hand as u32) + <Position as MD<'x>>::spec_serialize(v.location) + varint_bytes(v.direction as u32), <u32 as MD<'x>>::spec_header(), <u32 as MD<'x>>::spec_serialize(v.cursor_x));
        }
        self.cursor_y.serialize(writer);
        proof {
            lemma_write_next(a, varint_bytes(v.hand as u32) + <Position as MD<'x>>::spec_serialize(v.location) + varint_bytes(v.direction as u32) + <u32 as MD<'x>>::spec_serialize(v.cursor_x), <u32 as MD<'x>>::spec_header(), <u32 as MD<'x>>::spec_serialize(v.cursor_y));
        }
        self.cursor_z.serialize(writer);
        proof {
            lemma_write_next(a, varint_bytes(v.hand as u32) + <Position as MD<'x>>::spec_serialize(v.location) + varint_bytes(v.direction as u32) + <u32 as MD<'x>>::spec_serialize(v.cursor_x) + <u32 as MD<'x>>::spec_serialize(v.cursor_y), <u32 as MD<'x>>::spec_header(), <u32 as MD<'x>>::spec_serialize(v.cursor_z));
        }
        self.inside_block.serialize(writer);
        proof {
            lemma_write_next(a, varint_bytes(v.hand as u32) + <Position as MD<'x>>::spec_serialize(v.location) + varint_bytes(v.direction as u32) + <u32 as MD<'x>>::spec_serialize(v.cursor_x) + <u32 as MD<'x>>::spec_serialize(v.cursor_y) + <u32 as MD<'x>>::spec_serialize(v.cursor_z), <bool as MD<'x>>::spec_header(), <bool as MD<'x>>::spec_serialize(v.inside_block));
        }
    }
}

/// Packet `0x2f` of the play state, sent by the client.
#[derive(Debug)]
pub struct UseItemRequest {
    pub hand: i32,
}

impl DeepView for UseItemRequest {
    type V = UseItemRequest;

    open spec fn deep_view(&self) -> UseItemRequest {
        *self
    }
}

impl<'x> MD<'x> for UseItemRequest {
    open spec fn spec_deserialize(s0: Seq<u8>) -> Option<(UseItemRequest, Seq<u8>)> {
        match varint_field(s0) {
            Some((hand, s1)) => {
                Some((UseItemRequest { hand }, s1))
            },
            None => None,
        }
    }

    open spec fn serializable() -> bool {
        true
    }

    open spec fn spec_header() -> Seq<u8> {
        varint_bytes(0x2f)
    }

    open spec fn takes_rest() -> bool {
        false
    }

    open spec fn spec_serialize(v: UseItemRequest) -> Seq<u8> {
        varint_bytes(v.hand as u32)
    }

    open spec fn encodable(v: UseItemRequest) -> bool {
        Self::serializable()
    }

    proof fn lemma_roundtrip(v: UseItemRequest, rest: Seq<u8>) {
        let b0 = varint_bytes(v.hand as u32);
        let t1 = rest;
        let t0 = b0 + t1;
        assert(Self::spec_serialize(v) + rest == t0);
        lemma_varint_field_roundtrip(v.hand, t1);
    }

    fn deserialize(memory: &mut &'x [u8]) -> (res: Result<UseItemRequest, ParseError>) {
        let hand: i32 = read_varint(memory)?;
        Ok(UseItemRequest { hand })
    }

    fn serialize(&self, writer: &mut Vec<u8>) {
        let ghost v = self.deep_view();
        write_varint(writer, 0x2f);
        let ghost a = writer@;
        assert(old(writer)@ + Self::spec_header() =~= a);
        write_varint(writer, self.hand as u32);
    }
}

/// Packet `0x22` of the play state, sent by the client.
/// Its fields are not decoded: nothing is read for it.
#[derive(Debug)]
pub struct AdvancementTabRequest {}

impl DeepView for AdvancementTabRequest {
    type V = AdvancementTabRequest;

    open spec fn deep_view(&self) -> AdvancementTabRequest {
        *self
    }
}

impl<'x> MD<'x> for AdvancementTabRequest {
    open spec fn spec_deserialize(s0: Seq<u8>) -> Option<(AdvancementTabRequest, Seq<u8>)> {
        Some((AdvancementTabRequest {}, s0))
    }

    open spec fn serializable() -> bool {
        true
    }

    open spec fn spec_header() -> Seq<u8> {
        varint_bytes(0x22)
    }

    open spec fn takes_rest() -> bool {
        false
    }

    open spec fn spec_serialize(v: AdvancementTabRequest) -> Seq<u8> {
        Seq::empty()
    }

    open spec fn encodable(v: AdvancementTabRequest) -> bool {
        Self::serializable()
    }

    proof fn lemma_roundtrip(v: AdvancementTabRequest, rest: Seq<u8>) {
        assert(Seq::<u8>::empty() + rest =~= rest);
    }

    fn deserialize(memory: &mut &'x [u8]) -> (res: Result<AdvancementTabRequest, ParseError>) {
        Ok(AdvancementTabRequest {})
    }

    fn serialize(&self, writer: &mut Vec<u8>) {
        let ghost v = self.deep_view();
        write_varint(writer, 0x22);
        let ghost a = writer@;
        assert(old(writer)@ + Self::spec_header() =~= a);
        assert(a + Self::spec_serialize(v) =~= a);
    }
}

/// Packet `0x1d` of the play state, sent by the client.
#[derive(Debug)]
pub struct PongRequest {
    pub id: i32,
}

impl DeepView for PongRequest {
    type V = PongRequest;

    open spec fn deep_view(&self) -> PongRequest {
        *self
    }
}

impl<'x> MD<'x> for PongRequest {
    open spec fn spec_deserialize(s0: Seq<u8>) -> Option<(PongRequest, Seq<u8>)> {
        match <i32 as MD<'x>>::spec_deserialize(s0) {
            Some((id, s1)) => {
                Some((PongRequest { id }, s1))
            },
            None => None,
        }
    }

    open spec fn serializable() -> bool {
        <i32 as MD<'x>>::serializable()
    }

    open spec fn spec_header() -> Seq<u8> {
        varint_bytes(0x1d)
    }

    open spec fn takes_rest() -> bool {
        false
    }

    open spec fn spec_serialize(v: PongRequest) -> Seq<u8> {
        <i32 as MD<'x>>::spec_serialize(v.id)
    }

    open spec fn encodable(v: PongRequest) -> bool {
        Self::serializable() && <i32 as MD<'x>>::encodable(v.id)
    }

    proof fn lemma_roundtrip(v: PongRequest, rest: Seq<u8>) {
        let b0 = <i32 as MD<'x>>::spec_serialize(v.id);
        let t1 = rest;
        let t0 = b0 + t1;
        assert(Self::spec_serialize(v) + rest == t0);
        <i32 as MD<'x>>::lemma_roundtrip(v.id, t1);
    }

    fn deserialize(memory: &mut &'x [u8]) -> (res: Result<PongRequest, ParseError>) {
        let id: i32 = <i32 as MD<'x>>::deserialize(memory)?;
        Ok(PongRequest { id })
    }

    fn serialize(&self, writer: &mut Vec<u8>) {
        let ghost v = self.deep_view();
        write_varint(writer, 0x1d);
        let ghost a = writer@;
        assert(old(writer)@ + Self::spec_header() =~= a);
        self.id.serialize(writer);
        proof {
            lemma_write_after_header(a, <i32 as MD<'x>>::spec_header(), <i32 as MD<'x>>::spec_serialize(v.id));
        }
    }
}

/// Packet `0x0` of the play state, sent by the server.
#[derive(Debug)]
pub struct SpawnEntityResponse {
    pub entity_id: i32,
    pub object_uuid: u128,
    pub type_: i32,
    /// The IEEE 754 bits of the `f64` value.
    pub x: u64,
    /// The IEEE 754 bits of the `f64` value.
    pub y: u64,
    /// The IEEE 754 bits of the `f64` value.
    pub z: u64,
    pub pitch: i8,
    pub yaw: i8,
    pub object_data: i32,
    pub velocity_x: i16,
    pub velocity_y: i16,
    pub velocity_z: i16,
}

impl DeepView for SpawnEntityResponse {
    type V = SpawnEntityResponse;

    open spec fn deep_view(&self) -> SpawnEntityResponse {
        *self
    }
}

impl<'x> MD<'x> for SpawnEntityResponse {
    open spec fn spec_deserialize(s0: Seq<u8>) -> Option<(SpawnEntityResponse, Seq<u8>)> {
        match varint_field(s0) {
            Some((entity_id, s1)) => {
                match <u128 as MD<'x>>::spec_deserialize(s1) {
                    Some((object_uuid, s2)) => {
                        match varint_field(s2) {
                            Some((type_, s3)) => {
                                match <u64 as MD<'x>>::spec_deserialize(s3) {
                                    Some((x, s4)) => {
                                        match <u64 as MD<'x>>::spec_deserialize(s4) {
                                            Some((y, s5)) => {
                                                match <u64 as MD<'x>>::spec_deserialize(s5) {
                                                    Some((z, s6)) => {
                                                        match <i8 as MD<'x>>::spec_deserialize(s6) {
                                                            Some((pitch, s7)) => {
                                                                match <i8 as MD<'x>>::spec_deserialize(s7) {
                                                                    Some((yaw, s8)) => {
                                                                        match <i32 as MD<'x>>::spec_deserialize(s8) {
                                                                            Some((object_data, s9)) => {
                                                                                match <i16 as MD<'x>>::spec_deserialize(s9) {
                                                                                    Some((velocity_x, s10)) => {
                                                                                        match <i16 as MD<'x>>::spec_deserialize(s10) {
                                                                                            Some((velocity_y, s11)) => {
                                                                                                match <i16 as MD<'x>>::spec_deserialize(s11) {
                                                                                                    Some((velocity_z, s12)) => {
                                                                                                        Some((SpawnEntityResponse { entity_id, object_uuid, type_, x, y, z, pitch, yaw, object_data, velocity_x, velocity_y, velocity_z }, s12))
                                                                                                    },
                                                                                                    None => None,
                                                                                                }
                                                                                            },
                                                                                            None => None,
                                                                                        }
                                                                                    },
                                                                                    None => None,
                                                                                }
                                                                            },
                                                                            None => None,
                                                                        }
                                                                    },
                                                                    None => None,
                                                                }
                                                            },
                                                            None => None,
                                                        }
                                                    },
                                                    None => None,
                                                }
                                            },
                                            None => None,
                                        }
                                    },
                                    None => None,
                                }
                            },
                            None => None,
                        }
                    },
                    None => None,
                }
            },
            None => None,
        }
    }

    open spec fn serializable() -> bool {
        <u128 as MD<'x>>::serializable() && <u64 as MD<'x>>::serializable() && <u64 as MD<'x>>::serializable() && <u64 as MD<'x>>::serializable() && <i8 as MD<'x>>::serializable() && <i8 as MD<'x>>::serializable() && <i32 as MD<'x>>::serializable() && <i16 as MD<'x>>::serializable() && <i16 as MD<'x>>::serializable() && <i16 as MD<'x>>::serializable()
    }

    open spec fn spec_header() -> Seq<u8> {
        varint_bytes(0x0)
    }

    open spec fn takes_rest() -> bool {
        false
    }

    open spec fn spec_serialize(v: SpawnEntityResponse) -> Seq<u8> {
        varint_bytes(v.entity_id as u32) + <u128 as MD<'x>>::spec_serialize(v.object_uuid) + varint_bytes(v.type_ as u32) + <u64 as MD<'x>>::spec_serialize(v.x) + <u64 as MD<'x>>::spec_serialize(v.y) + <u64 as MD<'x>>::spec_serialize(v.z) + <i8 as MD<'x>>::spec_serialize(v.pitch) + <i8 as MD<'x>>::spec_serialize(v.yaw) + <i32 as MD<'x>>::spec_serialize(v.object_data) + <i16 as MD<'x>>::spec_serialize(v.velocity_x) + <i16 as MD<'x>>::spec_serialize(v.velocity_y) + <i16 as MD<'x>>::spec_serialize(v.velocity_z)
    }

    open spec fn encodable(v: SpawnEntityResponse) -> bool {
        Self::serializable() && <u128 as MD<'x>>::encodable(v.object_uuid) && <u64 as MD<'x>>::encodable(v.x) && <u64 as MD<'x>>::encodable(v.y) && <u64 as MD<'x>>::encodable(v.z) && <i8 as MD<'x>>::encodable(v.pitch) && <i8 as MD<'x>>::encodable(v.yaw) && <i32 as MD<'x>>::encodable(v.object_data) && <i16 as MD<'x>>::encodable(v.velocity_x) && <i16 as MD<'x>>::encodable(v.velocity_y) && <i16 as MD<'x>>::encodable(v.velocity_z)
    }

    proof fn lemma_roundtrip(v: SpawnEntityResponse, rest: Seq<u8>) {
        let b0 = varint_bytes(v.entity_id as u32);
        let b1 = <u128 as MD<'x>>::spec_serialize(v.object_uuid);
        let b2 = varint_bytes(v.type_ as u32);
        let b3 = <u64 as MD<'x>>::spec_serialize(v.x);
        let b4 = <u64 as MD<'x>>::spec_serialize(v.y);
        let b5 = <u64 as MD<'x>>::spec_serialize(v.z);
        let b6 = <i8 as MD<'x>>::spec_serialize(v.pitch);
        let b7 = <i8 as MD<'x>>::spec_serialize(v.yaw);
        let b8 = <i32 as MD<'x>>::spec_serialize(v.object_data);
        let b9 = <i16 as MD<'x>>::spec_serialize(v.velocity_x);
        let b10 = <i16 as MD<'x>>::spec_serialize(v.velocity_y);
        let b11 = <i16 as MD<'x>>::spec_serialize(v.velocity_z);
        let t12 = rest;
        let t11 = b11 + t12;
        let t10 = b10 + t11;
        let t9 = b9 + t10;
        let t8 = b8 + t9;
        let t7 = b7 + t8;
        let t6 = b6 + t7;
        let t5 = b5 + t6;
        let t4 = b4 + t5;
        let t3 = b3 + t4;
        let t2 = b2 + t3;
        let t1 = b1 + t2;
        let t0 = b0 + t1;
        lemma_concat_associative(b0 + b1 + b2 + b3 + b4 + b5 + b6 + b7 + b8 + b9 + b10, b11, t12);
        lemma_concat_associative(b0 + b1 + b2 + b3 + b4 + b5 + b6 + b7 + b8 + b9, b10, t11);
        lemma_concat_associative(b0 + b1 + b2 + b3 + b4 + b5 + b6 + b7 + b8, b9, t10);
        lemma_concat_associative(b0 + b1 + b2 + b3 + b4 + b5 + b6 + b7, b8, t9);
        lemma_concat_associative(b0 + b1 + b2 + b3 + b4 + b5 + b6, b7, t8);
        lemma_concat_associative(b0 + b1 + b2 + b3 + b4 + b5, b6, t7);
        lemma_concat_associative(b0 + b1 + b2 + b3 + b4, b5, t6);
        lemma_concat_associative(b0 + b1 + b2 + b3, b4, t5);
        lemma_concat_associative(b0 + b1 + b2, b3, t4);
        lemma_concat_associative(b0 + b1, b2, t3);
        lemma_concat_associative(b0, b1, t2);
        lemma_varint_field_roundtrip(v.entity_id, t1);
        <u128 as MD<'x>>::lemma_roundtrip(v.object_uuid, t2);
        lemma_varint_field_roundtrip(v.type_, t3);
        <u64 as MD<'x>>::lemma_roundtrip(v.x, t4);
        <u64 as MD<'x>>::lemma_roundtrip(v.y, t5);
        <u64 as MD<'x>>::lemma_roundtrip(v.z, t6);
        <i8 as MD<'x>>::lemma_roundtrip(v.pitch, t7);
        <i8 as MD<'x>>::lemma_roundtrip(v.yaw, t8);
        <i32 as MD<'x>>::lemma_roundtrip(v.object_data, t9);
        <i16 as MD<'x>>::lemma_roundtrip(v.velocity_x, t10);
        <i16 as MD<'x>>::lemma_roundtrip(v.velocity_y, t11);
        <i16 as MD<'x>>::lemma_roundtrip(v.velocity_z, t12);
    }

    fn deserialize(memory: &mut &'x [u8]) -> (res: Result<SpawnEntityResponse, ParseError>) {
        let entity_id: i32 = read_varint(memory)?;
        let object_uuid: u128 = <u128 as MD<'x>>::deserialize(memory)?;
        let type_: i32 = read_varint(memory)?;
        let x: u64 = <u64 as MD<'x>>::deserialize(memory)?;
        let y: u64 = <u64 as MD<'x>>::deserialize(memory)?;
        let z: u64 = <u64 as MD<'x>>::deserialize(memory)?;
        let pitch: i8 = <i8 as MD<'x>>::deserialize(memory)?;
        let yaw: i8 = <i8 as MD<'x>>::deserialize(memory)?;
        let object_data: i32 = <i32 as MD<'x>>::deserialize(memory)?;
        let velocity_x: i16 = <i16 as MD<'x>>::deserialize(memory)?;
        let velocity_y: i16 = <i16 as MD<'x>>::deserialize(memory)?;
        let velocity_z: i16 = <i16 as MD<'x>>::deserialize(memory)?;
        Ok(SpawnEntityResponse { entity_id, object_uuid, type_, x, y, z, pitch, yaw, object_data, velocity_x, velocity_y, velocity_z })
    }

    fn serialize(&self, writer: &mut Vec<u8>) {
        let ghost v = self.deep_view();
        write_varint(writer, 0x0);
        let ghost a = writer@;
        assert(old(writer)@ + Self::spec_header() =~= a);
        write_varint(writer, self.entity_id as u32);
        self.object_uuid.serialize(writer);
        proof {
            lemma_write_next(a, varint_bytes(v.entity_id as u32), <u128 as MD<'x>>::spec_header(), <u128 as MD<'x>>::spec_serialize(v.object_uuid));
        }
        write_varint(writer, self.type_ as u32);
        proof {
            lemma_concat_associative(a, varint_bytes(v.entity_id as u32) + <u128 as MD<'x>>::spec_serialize(v.object_uuid), varint_bytes(v.type_ as u32));
        }
        self.x.serialize(writer);
        proof {
            lemma_write_next(a, varint_bytes(v.entity_id as u32) + <u128 as MD<'x>>::spec_serialize(v.object_uuid) + varint_bytes(v.type_ as u32), <u64 as MD<'x>>::spec_header(), <u64 as MD<'x>>::spec_serialize(v.x));
        }
        self.y.serialize(writer);
        proof {
            lemma_write_next(a, varint_bytes(v.entity_id as u32) + <u128 as MD<'x>>::spec_serialize(v.object_uuid) + varint_bytes(v.type_ as u32) + <u64 as MD<'x>>::spec_serialize(v.x), <u64 as MD<'x>>::spec_header(), <u64 as MD<'x>>::spec_serialize(v.y));
        }
        self.z.serialize(writer);
        proof {
            lemma_write_next(a, varint_bytes(v.entity_id as u32) + <u128 as MD<'x>>::spec_serialize(v.object_uuid) + varint_bytes(v.type_ as u32) + <u64 as MD<'x>>::spec_serialize(v.x) + <u64 as MD<'x>>::spec_serialize(v.y), <u64 as MD<'x>>::spec_header(), <u64 as MD<'x>>::spec_serialize(v.z));
        }
        self.pitch.serialize(writer);
        proof {
            lemma_write_next(a, varint_bytes(v.entity_id as u32) + <u128 as MD<'x>>::spec_serialize(v.object_uuid) + varint_bytes(v.type_ as u32) + <u64 as MD<'x>>::spec_serialize(v.x) + <u64 as MD<'x>>::spec_serialize(v.y) + <u64 as MD<'x>>::spec_serialize(v.z), <i8 as MD<'x>>::spec_header(), <i8 as MD<'x>>::spec_serialize(v.pitch));
        }
        self.yaw.serialize(writer);
        proof {
            lemma_write_next(a, varint_bytes(v.entity_id as u32) + <u128 as MD<'x>>::spec_serialize(v.object_uuid) + varint_bytes(v.type_ as u32) + <u64 as MD<'x>>::spec_serialize(v.x) + <u64 as MD<'x>>::spec_serialize(v.y) + <u64 as MD<'x>>::spec_serialize(v.z) + <i8 as MD<'x>>::spec_serialize(v.pitch), <i8 as MD<'x>>::spec_header(), <i8 as MD<'x>>::spec_serialize(v.yaw));
        }
        self.object_data.serialize(writer);
        proof {
            lemma_write_next(a, varint_bytes(v.entity_id as u32) + <u128 as MD<'x>>::spec_serialize(v.object_uuid) + varint_bytes(v.type_ as u32) + <u64 as MD<'x>>::spec_serialize(v.x) + <u64 as MD<'x>>::spec_serialize(v.y) + <u64 as MD<'x>>::spec_serialize(v.z) + <i8 as MD<'x>>::spec_serialize(v.pitch) + <i8 as MD<'x>>::spec_serialize(v.yaw), <i32 as MD<'x>>::spec_header(), <i32 as MD<'x>>::spec_serialize(v.object_data));
        }
        self.velocity_x.serialize(writer);
        proof {
            lemma_write_next(a, varint_bytes(v.entity_id as u32) + <u128 as MD<'x>>::spec_serialize(v.object_uuid) + varint_bytes(v.type_ as u32) + <u64 as MD<'x>>::spec_serialize(v.x) + <u64 as MD<'x>>::spec_serialize(v.y) + <u64 as MD<'x>>::spec_serialize(v.z) + <i8 as MD<'x>>::spec_serialize(v.pitch) + <i8 as MD<'x>>::spec_serialize(v.yaw) + <i32 as MD<'x>>::spec_serialize(v.object_data), <i16 as MD<'x>>::spec_header(), <i16 as MD<'x>>::spec_serialize(v.velocity_x));
        }
        self.velocity_y.serialize(writer);
        proof {
            lemma_write_next(a, varint_bytes(v.entity_id as u32) + <u128 as MD<'x>>::spec_serialize(v.object_uuid) + varint_bytes(v.type_ as u32) + <u64 as MD<'x>>::spec_serialize(v.x) + <u64 as MD<'x>>::spec_serialize(v.y) + <u64 as MD<'x>>::spec_serialize(v.z) + <i8 as MD<'x>>::spec_serialize(v.pitch) + <i8 as MD<'x>>::spec_serialize(v.yaw) + <i32 as MD<'x>>::spec_serialize(v.object_data) + <i16 as MD<'x>>::spec_serialize(v.velocity_x), <i16 as MD<'x>>::spec_header(), <i16 as MD<'x>>::spec_serialize(v.velocity_y));
        }
        self.velocity_z.serialize(writer);
        proof {
            lemma_write_next(a, varint_bytes(v.entity_id as u32) + <u128 as MD<'x>>::spec_serialize(v.object_uuid) + varint_bytes(v.type_ as u32) + <u64 as MD<'x>>::spec_serialize(v.x) + <u64 as MD<'x>>::spec_serialize(v.y) + <u64 as MD<'x>>::spec_serialize(v.z) + <i8 as MD<'x>>::spec_serialize(v.pitch) + <i8 as MD<'x>>::spec_serialize(v.yaw) + <i32 as MD<'x>>::spec_serialize(v.object_data) + <i16 as MD<'x>>::spec_serialize(v.velocity_x) + <i16 as MD<'x>>::spec_serialize(v.velocity_y), <i16 as MD<'x>>::spec_header(), <i16 as MD<'x>>::spec_serialize(v.velocity_z));
        }
    }
}

/// Packet `0x1` of the play state, sent by the server.
#[derive(Debug)]
pub struct SpawnEntityExperienceOrbResponse {
    pub entity_id: i32,
    /// The IEEE 754 bits of the `f64` value.
    pub x: u64,
    /// The IEEE 754 bits of the `f64` value.
    pub y: u64,
    /// The IEEE 754 bits of the `f64` value.
    pub z: u64,
    pub count: i16,
}

impl DeepView for SpawnEntityExperienceOrbResponse {
    type V = SpawnEntityExperienceOrbResponse;

    open spec fn deep_view(&self) -> SpawnEntityExperienceOrbResponse {
        *self
    }
}

impl<'x> MD<'x> for SpawnEntityExperienceOrbResponse {
    open spec fn spec_deserialize(s0: Seq<u8>) -> Option<(SpawnEntityExperienceOrbResponse, Seq<u8>)> {
        match varint_field(s0) {
            Some((entity_id, s1)) => {
                match <u64 as MD<'x>>::spec_deserialize(s1) {
                    Some((x, s2)) => {
                        match <u64 as MD<'x>>::spec_deserialize(s2) {
                            Some((y, s3)) => {
                                match <u64 as MD<'x>>::spec_deserialize(s3) {
                                    Some((z, s4)) => {
                                        match <i16 as MD<'x>>::spec_deserialize(s4) {
                                            Some((count, s5)) => {
                                                Some((SpawnEntityExperienceOrbResponse { entity_id, x, y, z, count }, s5))
                                            },
                                            None => None,
                                        }
                                    },
                                    None => None,
                                }
                            },
                            None => None,
                        }
                    },
                    None => None,
                }
            },
            None => None,
        }
    }

    open spec fn serializable() -> bool {
        <u64 as MD<'x>>::serializable() && <u64 as MD<'x>>::serializable() && <u64 as MD<'x>>::serializable() && <i16 as MD<'x>>::serializable()
    }

    open spec fn spec_header() -> Seq<u8> {
        varint_bytes(0x1)
    }

    open spec fn takes_rest() -> bool {
        false
    }

    open spec fn spec_serialize(v: SpawnEntityExperienceOrbResponse) -> Seq<u8> {
        varint_bytes(v.entity_id as u32) + <u64 as MD<'x>>::spec_serialize(v.x) + <u64 as MD<'x>>::spec_serialize(v.y) + <u64 as MD<'x>>::spec_serialize(v.z) + <i16 as MD<'x>>::spec_serialize(v.count)
    }

    open spec fn encodable(v: SpawnEntityExperienceOrbResponse) -> bool {
        Self::serializable() && <u64 as MD<'x>>::encodable(v.x) && <u64 as MD<'x>>::encodable(v.y) && <u64 as MD<'x>>::encodable(v.z) && <i16 as MD<'x>>::encodable(v.count)
    }

    proof fn lemma_roundtrip(v: SpawnEntityExperienceOrbResponse, rest: Seq<u8>) {
        let b0 = varint_bytes(v.entity_id as u32);
        let b1 = <u64 as MD<'x>>::spec_serialize(v.x);
        let b2 = <u64 as MD<'x>>::spec_serialize(v.y);
        let b3 = <u64 as MD<'x>>::spec_serialize(v.z);
        let b4 = <i16 as MD<'x>>::spec_serialize(v.count);
        let t5 = rest;
        let t4 = b4 + t5;
        let t3 = b3 + t4;
        let t2 = b2 + t3;
        let t1 = b1 + t2;
        let t0 = b0 + t1;
        lemma_concat_associative(b0 + b1 + b2 + b3, b4, t5);
        lemma_concat_associative(b0 + b1 + b2, b3, t4);
        lemma_concat_associative(b0 + b1, b2, t3);
        lemma_concat_associative(b0, b1, t2);
        lemma_varint_field_roundtrip(v.entity_id, t1);
        <u64 as MD<'x>>::lemma_roundtrip(v.x, t2);
        <u64 as MD<'x>>::lemma_roundtrip(v.y, t3);
        <u64 as MD<'x>>::lemma_roundtrip(v.z, t4);
        <i16 as MD<'x>>::lemma_roundtrip(v.count, t5);
    }

    fn deserialize(memory: &mut &'x [u8]) -> (res: Result<SpawnEntityExperienceOrbResponse, ParseError>) {
        let entity_id: i32 = read_varint(memory)?;
        let x: u64 = <u64 as MD<'x>>::deserialize(memory)?;
        let y: u64 = <u64 as MD<'x>>::deserialize(memory)?;
        let z: u64 = <u64 as MD<'x>>::deserialize(memory)?;
        let count: i16 = <i16 as MD<'x>>::deserialize(memory)?;
        Ok(SpawnEntityExperienceOrbResponse { entity_id, x, y, z, count })
    }

    fn serialize(&self, writer: &mut Vec<u8>) {
        let ghost v = self.deep_view();
        write_varint(writer, 0x1);
        let ghost a = writer@;
        assert(old(writer)@ + Self::spec_header() =~= a);
        write_varint(writer, self.entity_id as u32);
        self.x.serialize(writer);
        proof {
            lemma_write_next(a, varint_bytes(v.entity_id as u32), <u64 as MD<'x>>::spec_header(), <u64 as MD<'x>>::spec_serialize(v.x));
        }
        self.y.serialize(writer);
        proof {
            lemma_write_next(a, varint_bytes(v.entity_id as u32) + <u64 as MD<'x>>::spec_serialize(v.x), <u64 as MD<'x>>::spec_header(), <u64 as MD<'x>>::spec_serialize(v.y));
        }
        self.z.serialize(writer);
        proof {
            lemma_write_next(a, varint_bytes(v.entity_id as u32) + <u64 as MD<'x>>::spec_serialize(v.x) + <u64 as MD<'x>>::spec_serialize(v.y), <u64 as MD<'x>>::spec_header(), <u64 as MD<'x>>::spec_serialize(v.z));
        }
        self.count.serialize(writer);
        proof {
            lemma_write_next(a, varint_bytes(v.entity_id as u32) + <u64 as MD<'x>>::spec_serialize(v.x) + <u64 as MD<'x>>::spec_serialize(v.y) + <u64 as MD<'x>>::spec_serialize(v.z), <i16 as MD<'x>>::spec_header(), <i16 as MD<'x>>::spec_serialize(v.count));
        }
    }
}

/// Packet `0x2` of the play state, sent by the server.
#[derive(Debug)]
pub struct SpawnEntityLivingResponse {
    pub entity_id: i32,
    pub entity_uuid: u128,
    pub type_: i32,
    /// The IEEE 754 bits of the `f64` value.
    pub x: u64,
    /// The IEEE 754 bits of the `f64` value.
    pub y: u64,
    /// The IEEE 754 bits of the `f64` value.
    pub z: u64,
    pub yaw: i8,
    pub pitch: i8,
    pub head_pitch: i8,
    pub velocity_x: i16,
    pub velocity_y: i16,
    pub velocity_z: i16,
}

impl DeepView for SpawnEntityLivingResponse {
    type V = SpawnEntityLivingResponse;

    open spec fn deep_view(&self) -> SpawnEntityLivingResponse {
        *self
    }
}

impl<'x> MD<'x> for SpawnEntityLivingResponse {
    open spec fn spec_deserialize(s0: Seq<u8>) -> Option<(SpawnEntityLivingResponse, Seq<u8>)> {
        match varint_field(s0) {
            Some((entity_id, s1)) => {
                match <u128 as MD<'x>>::spec_deserialize(s1) {
                    Some((entity_uuid, s2)) => {
                        match varint_field(s2) {
                            Some((type_, s3)) => {
                                match <u64 as MD<'x>>::spec_deserialize(s3) {
                                    Some((x, s4)) => {
                                        match <u64 as MD<'x>>::spec_deserialize(s4) {
                                            Some((y, s5)) => {
                                                match <u64 as MD<'x>>::spec_deserialize(s5) {
                                                    Some((z, s6)) => {
                                                        match <i8 as MD<'x>>::spec_deserialize(s6) {
                                                            Some((yaw, s7)) => {
                                                                match <i8 as MD<'x>>::spec_deserialize(s7) {
                                                                    Some((pitch, s8)) => {
                                                                        match <i8 as MD<'x>>::spec_deserialize(s8) {
                                                                            Some((head_pitch, s9)) => {
                                                                                match <i16 as MD<'x>>::spec_deserialize(s9) {
                                                                                    Some((velocity_x, s10)) => {
                                                                                        match <i16 as MD<'x>>::spec_deserialize(s10) {
                                                                                            Some((velocity_y, s11)) => {
                                                                                                match <i16 as MD<'x>>::spec_deserialize(s11) {
                                                                                                    Some((velocity_z, s12)) => {
                                                                                                        Some((SpawnEntityLivingResponse { entity_id, entity_uuid, type_, x, y, z, yaw, pitch, head_pitch, velocity_x, velocity_y, velocity_z }, s12))
                                                                                                    },
                                                                                                    None => None,
                                                                                                }
                                                                                            },
                                                                                            None => None,
                                                                                        }
                                                                                    },
                                                                                    None => None,
                                                                                }
                                                                            },
                                                                            None => None,
                                                                        }
                                                                    },
                                                                    None => None,
                                                                }
                                                            },
                                                            None => None,
                                                        }
                                                    },
                                                    None => None,
                                                }
                                            },
                                            None => None,
                                        }
                                    },
                                    None => None,
                                }
                            },
                            None => None,
                        }
                    },
                    None => None,
                }
            },
            None => None,
        }
    }

    open spec fn serializable() -> bool {
        <u128 as MD<'x>>::serializable() && <u64 as MD<'x>>::serializable() && <u64 as MD<'x>>::serializable() && <u64 as MD<'x>>::serializable() && <i8 as MD<'x>>::serializable() && <i8 as MD<'x>>::serializable() && <i8 as MD<'x>>::serializable() && <i16 as MD<'x>>::serializable() && <i16 as MD<'x>>::serializable() && <i16 as MD<'x>>::serializable()
    }

    open spec fn spec_header() -> Seq<u8> {
        varint_bytes(0x2)
    }

    open spec fn takes_rest() -> bool {
        false
    }

    open spec fn spec_serialize(v: SpawnEntityLivingResponse) -> Seq<u8> {
        varint_bytes(v.entity_id as u32) + <u128 as MD<'x>>::spec_serialize(v.entity_uuid) + varint_bytes(v.type_ as u32) + <u64 as MD<'x>>::spec_serialize(v.x) + <u64 as MD<'x>>::spec_serialize(v.y) + <u64 as MD<'x>>::spec_serialize(v.z) + <i8 as MD<'x>>::spec_serialize(v.yaw) + <i8 as MD<'x>>::spec_serialize(v.pitch) + <i8 as MD<'x>>::spec_serialize(v.head_pitch) + <i16 as MD<'x>>::spec_serialize(v.velocity_x) + <i16 as MD<'x>>::spec_serialize(v.velocity_y) + <i16 as MD<'x>>::spec_serialize(v.velocity_z)
    }

    open spec fn encodable(v: SpawnEntityLivingResponse) -> bool {
        Self::serializable() && <u128 as MD<'x>>::encodable(v.entity_uuid) && <u64 as MD<'x>>::encodable(v.x) && <u64 as MD<'x>>::encodable(v.y) && <u64 as MD<'x>>::encodable(v.z) && <i8 as MD<'x>>::encodable(v.yaw) && <i8 as MD<'x>>::encodable(v.pitch) && <i8 as MD<'x>>::encodable(v.head_pitch) && <i16 as MD<'x>>::encodable(v.velocity_x) && <i16 as MD<'x>>::encodable(v.velocity_y) && <i16 as MD<'x>>::encodable(v.velocity_z)
    }

    proof fn lemma_roundtrip(v: SpawnEntityLivingResponse, rest: Seq<u8>) {
        let b0 = varint_bytes(v.entity_id as u32);
        let b1 = <u128 as MD<'x>>::spec_serialize(v.entity_uuid);
        let b2 = varint_bytes(v.type_ as u32);
        let b3 = <u64 as MD<'x>>::spec_serialize(v.x);
        let b4 = <u64 as MD<'x>>::spec_serialize(v.y);
        let b5 = <u64 as MD<'x>>::spec_serialize(v.z);
        let b6 = <i8 as MD<'x>>::spec_serialize(v.yaw);
        let b7 = <i8 as MD<'x>>::spec_serialize(v.pitch);
        let b8 = <i8 as MD<'x>>::spec_serialize(v.head_pitch);
        let b9 = <i16 as MD<'x>>::spec_serialize(v.velocity_x);
        let b10 = <i16 as MD<'x>>::spec_serialize(v.velocity_y);
        let b11 = <i16 as MD<'x>>::spec_serialize(v.velocity_z);
        let t12 = rest;
        let t11 = b11 + t12;
        let t10 = b10 + t11;
        let t9 = b9 + t10;
        let t8 = b8 + t9;
        let t7 = b7 + t8;
        let t6 = b6 + t7;
        let t5 = b5 + t6;
        let t4 = b4 + t5;
        let t3 = b3 + t4;
        let t2 = b2 + t3;
        let t1 = b1 + t2;
        let t0 = b0 + t1;
        lemma_concat_associative(b0 + b1 + b2 + b3 + b4 + b5 + b6 + b7 + b8 + b9 + b10, b11, t12);
        lemma_concat_associative(b0 + b1 + b2 + b3 + b4 + b5 + b6 + b7 + b8 + b9, b10, t11);
        lemma_concat_associative(b0 + b1 + b2 + b3 + b4 + b5 + b6 + b7 + b8, b9, t10);
        lemma_concat_associative(b0 + b1 + b2 + b3 + b4 + b5 + b6 + b7, b8, t9);
        lemma_concat_associative(b0 + b1 + b2 + b3 + b4 + b5 + b6, b7, t8);
        lemma_concat_associative(b0 + b1 + b2 + b3 + b4 + b5, b6, t7);
        lemma_concat_associative(b0 + b1 + b2 + b3 + b4, b5, t6);
        lemma_concat_associative(b0 + b1 + b2 + b3, b4, t5);
        lemma_concat_associative(b0 + b1 + b2, b3, t4);
        lemma_concat_associative(b0 + b1, b2, t3);
        lemma_concat_associative(b0, b1, t2);
        lemma_varint_field_roundtrip(v.entity_id, t1);
        <u128 as MD<'x>>::lemma_roundtrip(v.entity_uuid, t2);
        lemma_varint_field_roundtrip(v.type_, t3);
        <u64 as MD<'x>>::lemma_roundtrip(v.x, t4);
        <u64 as MD<'x>>::lemma_roundtrip(v.y, t5);
        <u64 as MD<'x>>::lemma_roundtrip(v.z, t6);
        <i8 as MD<'x>>::lemma_roundtrip(v.yaw, t7);
        <i8 as MD<'x>>::lemma_roundtrip(v.pitch, t8);
        <i8 as MD<'x>>::lemma_roundtrip(v.head_pitch, t9);
        <i16 as MD<'x>>::lemma_roundtrip(v.velocity_x, t10);
        <i16 as MD<'x>>::lemma_roundtrip(v.velocity_y, t11);
        <i16 as MD<'x>>::lemma_roundtrip(v.velocity_z, t12);
    }

    fn deserialize(memory: &mut &'x [u8]) -> (res: Result<SpawnEntityLivingResponse, ParseError>) {
        let entity_id: i32 = read_varint(memory)?;
        let entity_uuid: u128 = <u128 as MD<'x>>::deserialize(memory)?;
        let type_: i32 = read_varint(memory)?;
        let x: u64 = <u64 as MD<'x>>::deserialize(memory)?;
        let y: u64 = <u64 as MD<'x>>::deserialize(memory)?;
        let z: u64 = <u64 as MD<'x>>::deserialize(memory)?;
        let yaw: i8 = <i8 as MD<'x>>::deserialize(memory)?;
        let pitch: i8 = <i8 as MD<'x>>::deserialize(memory)?;
        let head_pitch: i8 = <i8 as MD<'x>>::deserialize(memory)?;
        let velocity_x: i16 = <i16 as MD<'x>>::deserialize(memory)?;
        let velocity_y: i16 = <i16 as MD<'x>>::deserialize(memory)?;
        let velocity_z: i16 = <i16 as MD<'x>>::deserialize(memory)?;
        Ok(SpawnEntityLivingResponse { entity_id, entity_uuid, type_, x, y, z, yaw, pitch, head_pitch, velocity_x, velocity_y, velocity_z })
    }

    fn serialize(&self, writer: &mut Vec<u8>) {
        let ghost v = self.deep_view();
        write_varint(writer, 0x2);
        let ghost a = writer@;
        assert(old(writer)@ + Self::spec_header() =~= a);
        write_varint(writer, self.entity_id as u32);
        self.entity_uuid.serialize(writer);
        proof {
            lemma_write_next(a, varint_bytes(v.entity_id as u32), <u128 as MD<'x>>::spec_header(), <u128 as MD<'x>>::spec_serialize(v.entity_uuid));
        }
        write_varint(writer, self.type_ as u32);
        proof {
            lemma_concat_associative(a, varint_bytes(v.entity_id as u32) + <u128 as MD<'x>>::spec_serialize(v.entity_uuid), varint_bytes(v.type_ as u32));
        }
        self.x.serialize(writer);
        proof {
            lemma_write_next(a, varint_bytes(v.entity_id as u32) + <u128 as MD<'x>>::spec_serialize(v.entity_uuid) + varint_bytes(v.type_ as u32), <u64 as MD<'x>>::spec_header(), <u64 as MD<'x>>::spec_serialize(v.x));
        }
        self.y.serialize(writer);
        proof {
            lemma_write_next(a, varint_bytes(v.entity_id as u32) + <u128 as MD<'x>>::spec_serialize(v.entity_uuid) + varint_bytes(v.type_ as u32) + <u64 as MD<'x>>::spec_serialize(v.x), <u64 as MD<'x>>::spec_header(), <u64 as MD<'x>>::spec_serialize(v.y));
        }
        self.z.serialize(writer);
        proof {
            lemma_write_next(a, varint_bytes(v.entity_id as u32) + <u128 as MD<'x>>::spec_serialize(v.entity_uuid) + varint_bytes(v.type_ as u32) + <u64 as MD<'x>>::spec_serialize(v.x) + <u64 as MD<'x>>::spec_serialize(v.y), <u64 as MD<'x>>::spec_header(), <u64 as MD<'x>>::spec_serialize(v.z));
        }
        self.yaw.serialize(writer);
        proof {
            lemma_write_next(a, varint_bytes(v.entity_id as u32) + <u128 as MD<'x>>::spec_serialize(v.entity_uuid) + varint_bytes(v.type_ as u32) + <u64 as MD<'x>>::spec_serialize(v.x) + <u64 as MD<'x>>::spec_serialize(v.y) + <u64 as MD<'x>>::spec_serialize(v.z), <i8 as MD<'x>>::spec_header(), <i8 as MD<'x>>::spec_serialize(v.yaw));
        }
        self.pitch.serialize(writer);
        proof {
            lemma_write_next(a, varint_bytes(v.entity_id as u32) + <u128 as MD<'x>>::spec_serialize(v.entity_uuid) + varint_bytes(v.type_ as u32) + <u64 as MD<'x>>::spec_serialize(v.x) + <u64 as MD<'x>>::spec_serialize(v.y) + <u64 as MD<'x>>::spec_serialize(v.z) + <i8 as MD<'x>>::spec_serialize(v.yaw), <i8 as MD<'x>>::spec_header(), <i8 as MD<'x>>::spec_serialize(v.pitch));
        }
        self.head_pitch.serialize(writer);
        proof {
            lemma_write_next(a, varint_bytes(v.entity_id as u32) + <u128 as MD<'x>>::spec_serialize(v.entity_uuid) + varint_bytes(v.type_ as u32) + <u64 as MD<'x>>::spec_serialize(v.x) + <u64 as MD<'x>>::spec_serialize(v.y) + <u64 as MD<'x>>::spec_serialize(v.z) + <i8 as MD<'x>>::spec_serialize(v.yaw) + <i8 as MD<'x>>::spec_serialize(v.pitch), <i8 as MD<'x>>::spec_header(), <i8 as MD<'x>>::spec_serialize(v.head_pitch));
        }
        self.velocity_x.serialize(writer);
        proof {
            lemma_write_next(a, varint_bytes(v.entity_id as u32) + <u128 as MD<'x>>::spec_serialize(v.entity_uuid) + varint_bytes(v.type_ as u32) + <u64 as MD<'x>>::spec_serialize(v.x) + <u64 as MD<'x>>::spec_serialize(v.y) + <u64 as MD<'x>>::spec_serialize(v.z) + <i8 as MD<'x>>::spec_serialize(v.yaw) + <i8 as MD<'x>>::spec_serialize(v.pitch) + <i8 as MD<'x>>::spec_serialize(v.head_pitch), <i16 as MD<'x>>::spec_header(), <i16 as MD<'x>>::spec_serialize(v.velocity_x));
        }
        self.velocity_y.serialize(writer);
        proof {
            lemma_write_next(a, varint_bytes(v.entity_id as u32) + <u128 as MD<'x>>::spec_serialize(v.entity_uuid) + varint_bytes(v.type_ as u32) + <u64 as MD<'x>>::spec_serialize(v.x) + <u64 as MD<'x>>::spec_serialize(v.y) + <u64 as MD<'x>>::spec_serialize(v.z) + <i8 as MD<'x>>::spec_serialize(v.yaw) + <i8 as MD<'x>>::spec_serialize(v.pitch) + <i8 as MD<'x>>::spec_serialize(v.head_pitch) + <i16 as MD<'x>>::spec_serialize(v.velocity_x), <i16 as MD<'x>>::spec_header(), <i16 as MD<'x>>::spec_serialize(v.velocity_y));
        }
        self.velocity_z.serialize(writer);
        proof {
            lemma_write_next(a, varint_bytes(v.entity_id as u32) + <u128 as MD<'x>>::spec_serialize(v.entity_uuid) + varint_bytes(v.type_ as u32) + <u64 as MD<'x>>::spec_serialize(v.x) + <u64 as MD<'x>>::spec_serialize(v.y) + <u64 as MD<'x>>::spec_serialize(v.z) + <i8 as MD<'x>>::spec_serialize(v.yaw) + <i8 as MD<'x>>::spec_serialize(v.pitch) + <i8 as MD<'x>>::spec_serialize(v.head_pitch) + <i16 as MD<'x>>::spec_serialize(v.velocity_x) + <i16 as MD<'x>>::spec_serialize(v.velocity_y), <i16 as MD<'x>>::spec_header(), <i16 as MD<'x>>::spec_serialize(v.velocity_z));
        }
    }
}

/// Packet `0x3` of the play state, sent by the server.
#[derive(Debug)]
pub struct SpawnEntityPaintingResponse {
    pub entity_id: i32,
    pub entity_uuid: u128,
    pub title: i32,
    pub location: Position,
    pub direction: u8,
}

impl DeepView for SpawnEntityPaintingResponse {
    type V = SpawnEntityPaintingResponse;

    open spec fn deep_view(&self) -> SpawnEntityPaintingResponse {
        *self
    }
}

impl<'x> MD<'x> for SpawnEntityPaintingResponse {
    open spec fn spec_deserialize(s0: Seq<u8>) -> Option<(SpawnEntityPaintingResponse, Seq<u8>)> {
        match varint_field(s0) {
            Some((entity_id, s1)) => {
                match <u128 as MD<'x>>::spec_deserialize(s1) {
                    Some((entity_uuid, s2)) => {
                        match varint_field(s2) {
                            Some((title, s3)) => {
                                match <Position as MD<'x>>::spec_deserialize(s3) {
                                    Some((location, s4)) => {
                                        match <u8 as MD<'x>>::spec_deserialize(s4) {
                                            Some((direction, s5)) => {
                                                Some((SpawnEntityPaintingResponse { entity_id, entity_uuid, title, location, direction }, s5))
                                            },
                                            None => None,
                                        }
                                    },
                                    None => None,
                                }
                            },
                            None => None,
                        }
                    },
                    None => None,
                }
            },
            None => None,
        }
    }

    open spec fn serializable() -> bool {
        <u128 as MD<'x>>::serializable() && <Position as MD<'x>>::serializable() && <u8 as MD<'x>>::serializable()
    }

    open spec fn spec_header() -> Seq<u8> {
        varint_bytes(0x3)
    }

    open spec fn takes_rest() -> bool {
        false
    }

    open spec fn spec_serialize(v: SpawnEntityPaintingResponse) -> Seq<u8> {
        varint_bytes(v.entity_id as u32) + <u128 as MD<'x>>::spec_serialize(v.entity_uuid) + varint_bytes(v.title as u32) + <Position as MD<'x>>::spec_serialize(v.location) + <u8 as MD<'x>>::spec_serialize(v.direction)
    }

    open spec fn encodable(v: SpawnEntityPaintingResponse) -> bool {
        Self::serializable() && <u128 as MD<'x>>::encodable(v.entity_uuid) && <Position as MD<'x>>::encodable(v.location) && <u8 as MD<'x>>::encodable(v.direction)
    }

    proof fn lemma_roundtrip(v: SpawnEntityPaintingResponse, rest: Seq<u8>) {
        let b0 = varint_bytes(v.entity_id as u32);
        let b1 = <u128 as MD<'x>>::spec_serialize(v.entity_uuid);
        let b2 = varint_bytes(v.title as u32);
        let b3 = <Position as MD<'x>>::spec_serialize(v.location);
        let b4 = <u8 as MD<'x>>::spec_serialize(v.direction);
        let t5 = rest;
        let t4 = b4 + t5;
        let t3 = b3 + t4;
        let t2 = b2 + t3;
        let t1 = b1 + t2;
        let t0 = b0 + t1;
        lemma_concat_associative(b0 + b1 + b2 + b3, b4, t5);
        lemma_concat_associative(b0 + b1 + b2, b3, t4);
        lemma_concat_associative(b0 + b1, b2, t3);
        lemma_concat_associative(b0, b1, t2);
        lemma_varint_field_roundtrip(v.entity_id, t1);
        <u128 as MD<'x>>::lemma_roundtrip(v.entity_uuid, t2);
        lemma_varint_field_roundtrip(v.title, t3);
        <Position as MD<'x>>::lemma_roundtrip(v.location, t4);
        <u8 as MD<'x>>::lemma_roundtrip(v.direction, t5);
    }

    fn deserialize(memory: &mut &'x [u8]) -> (res: Result<SpawnEntityPaintingResponse, ParseError>) {
        let entity_id: i32 = read_varint(memory)?;
        let entity_uuid: u128 = <u128 as MD<'x>>::deserialize(memory)?;
        let title: i32 = read_varint(memory)?;
        let location: Position = <Position as MD<'x>>::deserialize(memory)?;
        let direction: u8 = <u8 as MD<'x>>::deserialize(memory)?;
        Ok(SpawnEntityPaintingResponse { entity_id, entity_uuid, title, location, direction })
    }

    fn serialize(&self, writer: &mut Vec<u8>) {
        let ghost v = self.deep_view();
        write_varint(writer, 0x3);
        let ghost a = writer@;
        assert(old(writer)@ + Self::spec_header() =~= a);
        write_varint(writer, self.entity_id as u32);
        self.entity_uuid.serialize(writer);
        proof {
            lemma_write_next(a, varint_bytes(v.entity_id as u32), <u128 as MD<'x>>::spec_header(), <u128 as MD<'x>>::spec_serialize(v.entity_uuid));
        }
        write_varint(writer, self.title as u32);
        proof {
            lemma_concat_associative(a, varint_bytes(v.entity_id as u32) + <u128 as MD<'x>>::spec_serialize(v.entity_uuid), varint_bytes(v.title as u32));
        }
        self.location.serialize(writer);
        proof {
            lemma_write_next(a, varint_bytes(v.entity_id as u32) + <u128 as MD<'x>>::spec_serialize(v.entity_uuid) + varint_bytes(v.title as u32), <Position as MD<'x>>::spec_header(), <Position as MD<'x>>::spec_serialize(v.location));
        }
        self.direction.serialize(writer);
        proof {
            lemma_write_next(a, varint_bytes(v.entity_id as u32) + <u128 as MD<'x>>::spec_serialize(v.entity_uuid) + varint_bytes(v.title as u32) + <Position as MD<'x>>::spec_serialize(v.location), <u8 as MD<'x>>::spec_header(), <u8 as MD<'x>>::spec_serialize(v.direction));
        }
    }
}

/// Packet `0x4` of the play state, sent by the server.
#[derive(Debug)]
pub struct NamedEntitySpawnResponse {
    pub entity_id: i32,
    pub player_uuid: u128,
    /// The IEEE 754 bits of the `f64` value.
    pub x: u64,
    /// The IEEE 754 bits of the `f64` value.
    pub y: u64,
    /// The IEEE 754 bits of the `f64` value.
    pub z: u64,
    pub yaw: i8,
    pub pitch: i8,
}

impl DeepView for NamedEntitySpawnResponse {
    type V = NamedEntitySpawnResponse;

    open spec fn deep_view(&self) -> NamedEntitySpawnResponse {
        *self
    }
}

impl<'x> MD<'x> for NamedEntitySpawnResponse {
    open spec fn spec_deserialize(s0: Seq<u8>) -> Option<(NamedEntitySpawnResponse, Seq<u8>)> {
        match varint_field(s0) {
            Some((entity_id, s1)) => {
                match <u128 as MD<'x>>::spec_deserialize(s1) {
                    Some((player_uuid, s2)) => {
                        match <u64 as MD<'x>>::spec_deserialize(s2) {
                            Some((x, s3)) => {
                                match <u64 as MD<'x>>::spec_deserialize(s3) {
                                    Some((y, s4)) => {
                                        match <u64 as MD<'x>>::spec_deserialize(s4) {
                                            Some((z, s5)) => {
                                                match <i8 as MD<'x>>::spec_deserialize(s5) {
                                                    Some((yaw, s6)) => {
                                                        match <i8 as MD<'x>>::spec_deserialize(s6) {
                                                            Some((pitch, s7)) => {
                                                                Some((NamedEntitySpawnResponse { entity_id, player_uuid, x, y, z, yaw, pitch }, s7))
                                                            },
                                                            None => None,
                                                        }
                                                    },
                                                    None => None,
                                                }
                                            },
                                            None => None,
                                        }
                                    },
                                    None => None,
                                }
                            },
                            None => None,
                        }
                    },
                    None => None,
                }
            },
            None => None,
        }
    }

    open spec fn serializable() -> bool {
        <u128 as MD<'x>>::serializable() && <u64 as MD<'x>>::serializable() && <u64 as MD<'x>>::serializable() && <u64 as MD<'x>>::serializable() && <i8 as MD<'x>>::serializable() && <i8 as MD<'x>>::serializable()
    }

    open spec fn spec_header() -> Seq<u8> {
        varint_bytes(0x4)
    }

    open spec fn takes_rest() -> bool {
        false
    }

    open spec fn spec_serialize(v: NamedEntitySpawnResponse) -> Seq<u8> {
        varint_bytes(v.entity_id as u32) + <u128 as MD<'x>>::spec_serialize(v.player_uuid) + <u64 as MD<'x>>::spec_serialize(v.x) + <u64 as MD<'x>>::spec_serialize(v.y) + <u64 as MD<'x>>::spec_serialize(v.z) + <i8 as MD<'x>>::spec_serialize(v.yaw) + <i8 as MD<'x>>::spec_serialize(v.pitch)
    }

    open spec fn encodable(v: NamedEntitySpawnResponse) -> bool {
        Self::serializable() && <u128 as MD<'x>>::encodable(v.player_uuid) && <u64 as MD<'x>>::encodable(v.x) && <u64 as MD<'x>>::encodable(v.y) && <u64 as MD<'x>>::encodable(v.z) && <i8 as MD<'x>>::encodable(v.yaw) && <i8 as MD<'x>>::encodable(v.pitch)
    }

    proof fn lemma_roundtrip(v: NamedEntitySpawnResponse, rest: Seq<u8>) {
        let b0 = varint_bytes(v.entity_id as u32);
        let b1 = <u128 as MD<'x>>::spec_serialize(v.player_uuid);
        let b2 = <u64 as MD<'x>>::spec_serialize(v.x);
        let b3 = <u64 as MD<'x>>::spec_serialize(v.y);
        let b4 = <u64 as MD<'x>>::spec_serialize(v.z);
        let b5 = <i8 as MD<'x>>::spec_serialize(v.yaw);
        let b6 = <i8 as MD<'x>>::spec_serialize(v.pitch);
        let t7 = rest;
        let t6 = b6 + t7;
        let t5 = b5 + t6;
        let t4 = b4 + t5;
        let t3 = b3 + t4;
        let t2 = b2 + t3;
        let t1 = b1 + t2;
        let t0 = b0 + t1;
        lemma_concat_associative(b0 + b1 + b2 + b3 + b4 + b5, b6, t7);
        lemma_concat_associative(b0 + b1 + b2 + b3 + b4, b5, t6);
        lemma_concat_associative(b0 + b1 + b2 + b3, b4, t5);
        lemma_concat_associative(b0 + b1 + b2, b3, t4);
        lemma_concat_associative(b0 + b1, b2, t3);
        lemma_concat_associative(b0, b1, t2);
        lemma_varint_field_roundtrip(v.entity_id, t1);
        <u128 as MD<'x>>::lemma_roundtrip(v.player_uuid, t2);
        <u64 as MD<'x>>::lemma_roundtrip(v.x, t3);
        <u64 as MD<'x>>::lemma_roundtrip(v.y, t4);
        <u64 as MD<'x>>::lemma_roundtrip(v.z, t5);
        <i8 as MD<'x>>::lemma_roundtrip(v.yaw, t6);
        <i8 as MD<'x>>::lemma_roundtrip(v.pitch, t7);
    }

    fn deserialize(memory: &mut &'x [u8]) -> (res: Result<NamedEntitySpawnResponse, ParseError>) {
        let entity_id: i32 = read_varint(memory)?;
        let player_uuid: u128 = <u128 as MD<'x>>::deserialize(memory)?;
        let x: u64 = <u64 as MD<'x>>::deserialize(memory)?;
        let y: u64 = <u64 as MD<'x>>::deserialize(memory)?;
        let z: u64 = <u64 as MD<'x>>::deserialize(memory)?;
        let yaw: i8 = <i8 as MD<'x>>::deserialize(memory)?;
        let pitch: i8 = <i8 as MD<'x>>::deserialize(memory)?;
        Ok(NamedEntitySpawnResponse { entity_id, player_uuid, x, y, z, yaw, pitch })
    }

    fn serialize(&self, writer: &mut Vec<u8>) {
        let ghost v = self.deep_view();
        write_varint(writer, 0x4);
        let ghost a = writer@;
        assert(old(writer)@ + Self::spec_header() =~= a);
        write_varint(writer, self.entity_id as u32);
        self.player_uuid.serialize(writer);
        proof {
            lemma_write_next(a, varint_bytes(v.entity_id as u32), <u128 as MD<'x>>::spec_header(), <u128 as MD<'x>>::spec_serialize(v.player_uuid));
        }
        self.x.serialize(writer);
        proof {
            lemma_write_next(a, varint_bytes(v.entity_id as u32) + <u128 as MD<'x>>::spec_serialize(v.player_uuid), <u64 as MD<'x>>::spec_header(), <u64 as MD<'x>>::spec_serialize(v.x));
        }
        self.y.serialize(writer);
        proof {
            lemma_write_next(a, varint_bytes(v.entity_id as u32) + <u128 as MD<'x>>::spec_serialize(v.player_uuid) + <u64 as MD<'x>>::spec_serialize(v.x), <u64 as MD<'x>>::spec_header(), <u64 as MD<'x>>::spec_serialize(v.y));
        }
        self.z.serialize(writer);
        proof {
            lemma_write_next(a, varint_bytes(v.entity_id as u32) + <u128 as MD<'x>>::spec_serialize(v.player_uuid) + <u64 as MD<'x>>::spec_serialize(v.x) + <u64 as MD<'x>>::spec_serialize(v.y), <u64 as MD<'x>>::spec_header(), <u64 as MD<'x>>::spec_serialize(v.z));
        }
        self.yaw.serialize(writer);
        proof {
            lemma_write_next(a, varint_bytes(v.entity_id as u32) + <u128 as MD<'x>>::spec_serialize(v.player_uuid) + <u64 as MD<'x>>::spec_serialize(v.x) + <u64 as MD<'x>>::spec_serialize(v.y) + <u64 as MD<'x>>::spec_serialize(v.z), <i8 as MD<'x>>::spec_header(), <i8 as MD<'x>>::spec_serialize(v.yaw));
        }
        self.pitch.serialize(writer);
        proof {
            lemma_write_next(a, varint_bytes(v.entity_id as u32) + <u128 as MD<'x>>::spec_serialize(v.player_uuid) + <u64 as MD<'x>>::spec_serialize(v.x) + <u64 as MD<'x>>::spec_serialize(v.y) + <u64 as MD<'x>>::spec_serialize(v.z) + <i8 as MD<'x>>::spec_serialize(v.yaw), <i8 as MD<'x>>::spec_header(), <i8 as MD<'x>>::spec_serialize(v.pitch));
        }
    }
}

/// Packet `0x6` of the play state, sent by the server.
#[derive(Debug)]
pub struct AnimationResponse {
    pub entity_id: i32,
    pub animation: u8,
}

impl DeepView for AnimationResponse {
    type V = AnimationResponse;

    open spec fn deep_view(&self) -> AnimationResponse {
        *self
    }
}

impl<'x> MD<'x> for AnimationResponse {
    open spec fn spec_deserialize(s0: Seq<u8>) -> Option<(AnimationResponse, Seq<u8>)> {
        match varint_field(s0) {
            Some((entity_id, s1)) => {
                match <u8 as MD<'x>>::spec_deserialize(s1) {
                    Some((animation, s2)) => {
                        Some((AnimationResponse { entity_id, animation }, s2))
                    },
                    None => None,
                }
            },
            None => None,
        }
    }

    open spec fn serializable() -> bool {
        <u8 as MD<'x>>::serializable()
    }

    open spec fn spec_header() -> Seq<u8> {
        varint_bytes(0x6)
    }

    open spec fn takes_rest() -> bool {
        false
    }

    open spec fn spec_serialize(v: AnimationResponse) -> Seq<u8> {
        varint_bytes(v.entity_id as u32) + <u8 as MD<'x>>::spec_serialize(v.animation)
    }

    open spec fn encodable(v: AnimationResponse) -> bool {
        Self::serializable() && <u8 as MD<'x>>::encodable(v.animation)
    }

    proof fn lemma_roundtrip(v: AnimationResponse, rest: Seq<u8>) {
        let b0 = varint_bytes(v.entity_id as u32);
        let b1 = <u8 as MD<'x>>::spec_serialize(v.animation);
        let t2 = rest;
        let t1 = b1 + t2;
        let t0 = b0 + t1;
        lemma_concat_associative(b0, b1, t2);
        lemma_varint_field_roundtrip(v.entity_id, t1);
        <u8 as MD<'x>>::lemma_roundtrip(v.animation, t2);
    }

    fn deserialize(memory: &mut &'x [u8]) -> (res: Result<AnimationResponse, ParseError>) {
        let entity_id: i32 = read_varint(memory)?;
        let animation: u8 = <u8 as MD<'x>>::deserialize(memory)?;
        Ok(AnimationResponse { entity_id, animation })
    }

    fn serialize(&self, writer: &mut Vec<u8>) {
        let ghost v = self.deep_view();
        write_varint(writer, 0x6);
        let ghost a = writer@;
        assert(old(writer)@ + Self::spec_header() =~= a);
        write_varint(writer, self.entity_id as u32);
        self.animation.serialize(writer);
        proof {
            lemma_write_next(a, varint_bytes(v.entity_id as u32), <u8 as MD<'x>>::spec_header(), <u8 as MD<'x>>::spec_serialize(v.animation));
        }
    }
}

#[derive(Debug)]
pub struct StatisticsResponse_Entries {
    pub category_id: i32,
    pub statistic_id: i32,
    pub value: i32,
}

impl DeepView for StatisticsResponse_Entries {
    type V = StatisticsResponse_Entries;

    open spec fn deep_view(&self) -> StatisticsResponse_Entries {
        *self
    }
}

impl<'x> MD<'x> for StatisticsResponse_Entries {
    open spec fn spec_deserialize(s0: Seq<u8>) -> Option<(StatisticsResponse_Entries, Seq<u8>)> {
        match varint_field(s0) {
            Some((category_id, s1)) => {
                match varint_field(s1) {
                    Some((statistic_id, s2)) => {
                        match varint_field(s2) {
                            Some((value, s3)) => {
                                Some((StatisticsResponse_Entries { category_id, statistic_id, value }, s3))
                            },
                            None => None,
                        }
                    },
                    None => None,
                }
            },
            None => None,
        }
    }

    open spec fn serializable() -> bool {
        true
    }

    open spec fn spec_header() -> Seq<u8> {
        Seq::empty()
    }

    open spec fn takes_rest() -> bool {
        false
    }

    open spec fn spec_serialize(v: StatisticsResponse_Entries) -> Seq<u8> {
        varint_bytes(v.category_id as u32) + varint_bytes(v.statistic_id as u32) + varint_bytes(v.value as u32)
    }

    open spec fn encodable(v: StatisticsResponse_Entries) -> bool {
        Self::serializable()
    }

    proof fn lemma_roundtrip(v: StatisticsResponse_Entries, rest: Seq<u8>) {
        let b0 = varint_bytes(v.category_id as u32);
        let b1 = varint_bytes(v.statistic_id as u32);
        let b2 = varint_bytes(v.value as u32);
        let t3 = rest;
        let t2 = b2 + t3;
        let t1 = b1 + t2;
        let t0 = b0 + t1;
        lemma_concat_associative(b0 + b1, b2, t3);
        lemma_concat_associative(b0, b1, t2);
        lemma_varint_field_roundtrip(v.category_id, t1);
        lemma_varint_field_roundtrip(v.statistic_id, t2);
        lemma_varint_field_roundtrip(v.value, t3);
    }

    fn deserialize(memory: &mut &'x [u8]) -> (res: Result<StatisticsResponse_Entries, ParseError>) {
        let category_id: i32 = read_varint(memory)?;
        let statistic_id: i32 = read_varint(memory)?;
        let value: i32 = read_varint(memory)?;
        Ok(StatisticsResponse_Entries { category_id, statistic_id, value })
    }

    fn serialize(&self, writer: &mut Vec<u8>) {
        let ghost v = self.deep_view();
        let ghost a = writer@;
        assert(old(writer)@ + Self::spec_header() =~= a);
        write_varint(writer, self.category_id as u32);
        write_varint(writer, self.statistic_id as u32);
        proof {
            lemma_concat_associative(a, varint_bytes(v.category_id as u32), varint_bytes(v.statistic_id as u32));
        }
        write_varint(writer, self.value as u32);
        proof {
            lemma_concat_associative(a, varint_bytes(v.category_id as u32) + varint_bytes(v.statistic_id as u32), varint_bytes(v.value as u32));
        }
    }
}

/// Packet `0x7` of the play state, sent by the server.
#[derive(Debug)]
pub struct StatisticsResponse {
    pub entries: Vec<StatisticsResponse_Entries>,
}

/// What a `StatisticsResponse` holds.
pub struct StatisticsResponseView {
    pub entries: Seq<StatisticsResponse_Entries>,
}

impl<'x> DeepView for StatisticsResponse {
    type V = StatisticsResponseView;

    open spec fn deep_view(&self) -> StatisticsResponseView {
        StatisticsResponseView { entries: self.entries.deep_view() }
    }
}

impl<'x> MD<'x> for StatisticsResponse {
    open spec fn spec_deserialize(s0: Seq<u8>) -> Option<(StatisticsResponseView, Seq<u8>)> {
        match varint_field(s0) {
            Some((entries_count, s1)) => {
                match spec_array::<'x, StatisticsResponse_Entries>(s1, entries_count as int) {
                    Some((entries, s2)) => {
                        Some((StatisticsResponseView { entries }, s2))
                    },
                    None => None,
                }
            },
            None => None,
        }
    }

    open spec fn serializable() -> bool {
        false
    }

    open spec fn spec_header() -> Seq<u8> {
        Seq::empty()
    }

    open spec fn takes_rest() -> bool {
        false
    }

    open spec fn spec_serialize(v: StatisticsResponseView) -> Seq<u8> {
        Seq::empty()
    }

    open spec fn encodable(v: StatisticsResponseView) -> bool {
        Self::serializable()
    }

    proof fn lemma_roundtrip(v: StatisticsResponseView, rest: Seq<u8>) {
    }

    fn deserialize(memory: &mut &'x [u8]) -> (res: Result<StatisticsResponse, ParseError>) {
        let entries_count: i32 = read_varint(memory)?;
        let entries: Vec<StatisticsResponse_Entries> = read_array(memory, entries_count)?;
        Ok(StatisticsResponse { entries })
    }

    fn serialize(&self, writer: &mut Vec<u8>) {
    }
}

/// Packet `0x63` of the play state, sent by the server.
/// Its fields are not decoded: nothing is read for it.
#[derive(Debug)]
pub struct AdvancementsResponse {}

impl DeepView for AdvancementsResponse {
    type V = AdvancementsResponse;

    open spec fn deep_view(&self) -> AdvancementsResponse {
        *self
    }
}

impl<'x> MD<'x> for AdvancementsResponse {
    open spec fn spec_deserialize(s0: Seq<u8>) -> Option<(AdvancementsResponse, Seq<u8>)> {
        Some((AdvancementsResponse {}, s0))
    }

    open spec fn serializable() -> bool {
        true
    }

    open spec fn spec_header() -> Seq<u8> {
        varint_bytes(0x63)
    }

    open spec fn takes_rest() -> bool {
        false
    }

    open spec fn spec_serialize(v: AdvancementsResponse) -> Seq<u8> {
        Seq::empty()
    }

    open spec fn encodable(v: AdvancementsResponse) -> bool {
        Self::serializable()
    }

    proof fn lemma_roundtrip(v: AdvancementsResponse, rest: Seq<u8>) {
        assert(Seq::<u8>::empty() + rest =~= rest);
    }

    fn deserialize(memory: &mut &'x [u8]) -> (res: Result<AdvancementsResponse, ParseError>) {
        Ok(AdvancementsResponse {})
    }

    fn serialize(&self, writer: &mut Vec<u8>) {
        let ghost v = self.deep_view();
        write_varint(writer, 0x63);
        let ghost a = writer@;
        assert(old(writer)@ + Self::spec_header() =~= a);
        assert(a + Self::spec_serialize(v) =~= a);
    }
}

/// Packet `0x9` of the play state, sent by the server.
#[derive(Debug)]
pub struct BlockBreakAnimationResponse {
    pub entity_id: i32,
    pub location: Position,
    pub destroy_stage: i8,
}

impl DeepView for BlockBreakAnimationResponse {
    type V = BlockBreakAnimationResponse;

    open spec fn deep_view(&self) -> BlockBreakAnimationResponse {
        *self
    }
}

impl<'x> MD<'x> for BlockBreakAnimationResponse {
    open spec fn spec_deserialize(s0: Seq<u8>) -> Option<(BlockBreakAnimationResponse, Seq<u8>)> {
        match varint_field(s0) {
            Some((entity_id, s1)) => {
                match <Position as MD<'x>>::spec_deserialize(s1) {
                    Some((location, s2)) => {
                        match <i8 as MD<'x>>::spec_deserialize(s2) {
                            Some((destroy_stage, s3)) => {
                                Some((BlockBreakAnimationResponse { entity_id, location, destroy_stage }, s3))
                            },
                            None => None,
                        }
                    },
                    None => None,
                }
            },
            None => None,
        }
    }

    open spec fn serializable() -> bool {
        <Position as MD<'x>>::serializable() && <i8 as MD<'x>>::serializable()
    }

    open spec fn spec_header() -> Seq<u8> {
        varint_bytes(0x9)
    }

    open spec fn takes_rest() -> bool {
        false
    }

    open spec fn spec_serialize(v: BlockBreakAnimationResponse) -> Seq<u8> {
        varint_bytes(v.entity_id as u32) + <Position as MD<'x>>::spec_serialize(v.location) + <i8 as MD<'x>>::spec_serialize(v.destroy_stage)
    }

    open spec fn encodable(v: BlockBreakAnimationResponse) -> bool {
        Self::serializable() && <Position as MD<'x>>::encodable(v.location) && <i8 as MD<'x>>::encodable(v.destroy_stage)
    }

    proof fn lemma_roundtrip(v: BlockBreakAnimationResponse, rest: Seq<u8>) {
        let b0 = varint_bytes(v.entity_id as u32);
        let b1 = <Position as MD<'x>>::spec_serialize(v.location);
        let b2 = <i8 as MD<'x>>::spec_serialize(v.destroy_stage);
        let t3 = rest;
        let t2 = b2 + t3;
        let t1 = b1 + t2;
        let t0 = b0 + t1;
        lemma_concat_associative(b0 + b1, b2, t3);
        lemma_concat_associative(b0, b1, t2);
        lemma_varint_field_roundtrip(v.entity_id, t1);
        <Position as MD<'x>>::lemma_roundtrip(v.location, t2);
        <i8 as MD<'x>>::lemma_roundtrip(v.destroy_stage, t3);
    }

    fn deserialize(memory: &mut &'x [u8]) -> (res: Result<BlockBreakAnimationResponse, ParseError>) {
        let entity_id: i32 = read_varint(memory)?;
        let location: Position = <Position as MD<'x>>::deserialize(memory)?;
        let destroy_stage: i8 = <i8 as MD<'x>>::deserialize(memory)?;
        Ok(BlockBreakAnimationResponse { entity_id, location, destroy_stage })
    }

    fn serialize(&self, writer: &mut Vec<u8>) {
        let ghost v = self.deep_view();
        write_varint(writer, 0x9);
        let ghost a = writer@;
        assert(old(writer)@ + Self::spec_header() =~= a);
        write_varint(writer, self.entity_id as u32);
        self.location.serialize(writer);
        proof {
            lemma_write_next(a, varint_bytes(v.entity_id as u32), <Position as MD<'x>>::spec_header(), <Position as MD<'x>>::spec_serialize(v.location));
        }
        self.destroy_stage.serialize(writer);
        proof {
            lemma_write_next(a, varint_bytes(v.entity_id as u32) + <Position as MD<'x>>::spec_serialize(v.location), <i8 as MD<'x>>::spec_header(), <i8 as MD<'x>>::spec_serialize(v.destroy_stage));
        }
    }
}

/// Packet `0xa` of the play state, sent by the server.
#[derive(Debug)]
pub struct TileEntityDataResponse<'x> {
    pub location: Position,
    pub action: i32,
    pub nbt_data: IndexedOptionNbt<'x>,
}

/// What a `TileEntityDataResponse` holds.
pub struct TileEntityDataResponseView {
    pub location: Position,
    pub action: i32,
    pub nbt_data: Option<Seq<u8>>,
}

impl<'x> DeepView for TileEntityDataResponse<'x> {
    type V = TileEntityDataResponseView;

    open spec fn deep_view(&self) -> TileEntityDataResponseView {
        TileEntityDataResponseView { location: self.location, action: self.action, nbt_data: self.nbt_data.deep_view() }
    }
}

impl<'x> MD<'x> for TileEntityDataResponse<'x> {
    open spec fn spec_deserialize(s0: Seq<u8>) -> Option<(TileEntityDataResponseView, Seq<u8>)> {
        match <Position as MD<'x>>::spec_deserialize(s0) {
            Some((location, s1)) => {
                match varint_field(s1) {
                    Some((action, s2)) => {
                        match <IndexedOptionNbt<'x> as MD<'x>>::spec_deserialize(s2) {
                            Some((nbt_data, s3)) => {
                                Some((TileEntityDataResponseView { location, action, nbt_data }, s3))
                            },
                            None => None,
                        }
                    },
                    None => None,
                }
            },
            None => None,
        }
    }

    open spec fn serializable() -> bool {
        <Position as MD<'x>>::serializable() && <IndexedOptionNbt<'x> as MD<'x>>::serializable()
    }

    open spec fn spec_header() -> Seq<u8> {
        varint_bytes(0xa)
    }

    open spec fn takes_rest() -> bool {
        false
    }

    open spec fn spec_serialize(v: TileEntityDataResponseView) -> Seq<u8> {
        <Position as MD<'x>>::spec_serialize(v.location) + varint_bytes(v.action as u32) + <IndexedOptionNbt<'x> as MD<'x>>::spec_serialize(v.nbt_data)
    }

    open spec fn encodable(v: TileEntityDataResponseView) -> bool {
        Self::serializable() && <Position as MD<'x>>::encodable(v.location) && <IndexedOptionNbt<'x> as MD<'x>>::encodable(v.nbt_data)
    }

    proof fn lemma_roundtrip(v: TileEntityDataResponseView, rest: Seq<u8>) {
        let b0 = <Position as MD<'x>>::spec_serialize(v.location);
        let b1 = varint_bytes(v.action as u32);
        let b2 = <IndexedOptionNbt<'x> as MD<'x>>::spec_serialize(v.nbt_data);
        let t3 = rest;
        let t2 = b2 + t3;
        let t1 = b1 + t2;
        let t0 = b0 + t1;
        lemma_concat_associative(b0 + b1, b2, t3);
        lemma_concat_associative(b0, b1, t2);
        <Position as MD<'x>>::lemma_roundtrip(v.location, t1);
        lemma_varint_field_roundtrip(v.action, t2);
        <IndexedOptionNbt<'x> as MD<'x>>::lemma_roundtrip(v.nbt_data, t3);
    }

    fn deserialize(memory: &mut &'x [u8]) -> (res: Result<TileEntityDataResponse<'x>, ParseError>) {
        let location: Position = <Position as MD<'x>>::deserialize(memory)?;
        let action: i32 = read_varint(memory)?;
        let nbt_data: IndexedOptionNbt<'x> = <IndexedOptionNbt<'x> as MD<'x>>::deserialize(memory)?;
        Ok(TileEntityDataResponse { location, action, nbt_data })
    }

    fn serialize(&self, writer: &mut Vec<u8>) {
        let ghost v = self.deep_view();
        write_varint(writer, 0xa);
        let ghost a = writer@;
        assert(old(writer)@ + Self::spec_header() =~= a);
        self.location.serialize(writer);
        proof {
            lemma_write_after_header(a, <Position as MD<'x>>::spec_header(), <Position as MD<'x>>::spec_serialize(v.location));
        }
        write_varint(writer, self.action as u32);
        proof {
            lemma_concat_associative(a, <Position as MD<'x>>::spec_serialize(v.location), varint_bytes(v.action as u32));
        }
        self.nbt_data.serialize(writer);
        proof {
            lemma_write_next(a, <Position as MD<'x>>::spec_serialize(v.location) + varint_bytes(v.action as u32), <IndexedOptionNbt<'x> as MD<'x>>::spec_header(), <IndexedOptionNbt<'x> as MD<'x>>::spec_serialize(v.nbt_data));
        }
    }
}

/// Packet `0xb` of the play state, sent by the server.
#[derive(Debug)]
pub struct BlockActionResponse {
    pub location: Position,
    pub byte_1: u8,
    pub byte_2: u8,
    pub block_id: i32,
}

impl DeepView for BlockActionResponse {
    type V = BlockActionResponse;

    open spec fn deep_view(&self) -> BlockActionResponse {
        *self
    }
}

impl<'x> MD<'x> for BlockActionResponse {
    open spec fn spec_deserialize(s0: Seq<u8>) -> Option<(BlockActionResponse, Seq<u8>)> {
        match <Position as MD<'x>>::spec_deserialize(s0) {
            Some((location, s1)) => {
                match <u8 as MD<'x>>::spec_deserialize(s1) {
                    Some((byte_1, s2)) => {
                        match <u8 as MD<'x>>::spec_deserialize(s2) {
                            Some((byte_2, s3)) => {
                                match varint_field(s3) {
                                    Some((block_id, s4)) => {
                                        Some((BlockActionResponse { location, byte_1, byte_2, block_id }, s4))
                                    },
                                    None => None,
                                }
                            },
                            None => None,
                        }
                    },
                    None => None,
                }
            },
            None => None,
        }
    }

    open spec fn serializable() -> bool {
        <Position as MD<'x>>::serializable() && <u8 as MD<'x>>::serializable() && <u8 as MD<'x>>::serializable()
    }

    open spec fn spec_header() -> Seq<u8> {
        varint_bytes(0xb)
    }

    open spec fn takes_rest() -> bool {
        false
    }

    open spec fn spec_serialize(v: BlockActionResponse) -> Seq<u8> {
        <Position as MD<'x>>::spec_serialize(v.location) + <u8 as MD<'x>>::spec_serialize(v.byte_1) + <u8 as MD<'x>>::spec_serialize(v.byte_2) + varint_bytes(v.block_id as u32)
    }

    open spec fn encodable(v: BlockActionResponse) -> bool {
        Self::serializable() && <Position as MD<'x>>::encodable(v.location) && <u8 as MD<'x>>::encodable(v.byte_1) && <u8 as MD<'x>>::encodable(v.byte_2)
    }

    proof fn lemma_roundtrip(v: BlockActionResponse, rest: Seq<u8>) {
        let b0 = <Position as MD<'x>>::spec_serialize(v.location);
        let b1 = <u8 as MD<'x>>::spec_serialize(v.byte_1);
        let b2 = <u8 as MD<'x>>::spec_serialize(v.byte_2);
        let b3 = varint_bytes(v.block_id as u32);
        let t4 = rest;
        let t3 = b3 + t4;
        let t2 = b2 + t3;
        let t1 = b1 + t2;
        let t0 = b0 + t1;
        lemma_concat_associative(b0 + b1 + b2, b3, t4);
        lemma_concat_associative(b0 + b1, b2, t3);
        lemma_concat_associative(b0, b1, t2);
        <Position as MD<'x>>::lemma_roundtrip(v.location, t1);
        <u8 as MD<'x>>::lemma_roundtrip(v.byte_1, t2);
        <u8 as MD<'x>>::lemma_roundtrip(v.byte_2, t3);
        lemma_varint_field_roundtrip(v.block_id, t4);
    }

    fn deserialize(memory: &mut &'x [u8]) -> (res: Result<BlockActionResponse, ParseError>) {
        let location: Position = <Position as MD<'x>>::deserialize(memory)?;
        let byte_1: u8 = <u8 as MD<'x>>::deserialize(memory)?;
        let byte_2: u8 = <u8 as MD<'x>>::deserialize(memory)?;
        let block_id: i32 = read_varint(memory)?;
        Ok(BlockActionResponse { location, byte_1, byte_2, block_id })
    }

    fn serialize(&self, writer: &mut Vec<u8>) {
        let ghost v = self.deep_view();
        write_varint(writer, 0xb);
        let ghost a = writer@;
        assert(old(writer)@ + Self::spec_header() =~= a);
        self.location.serialize(writer);
        proof {
            lemma_write_after_header(a, <Position as MD<'x>>::spec_header(), <Position as MD<'x>>::spec_serialize(v.location));
        }
        self.byte_1.serialize(writer);
        proof {
            lemma_write_next(a, <Position as MD<'x>>::spec_serialize(v.location), <u8 as MD<'x>>::spec_header(), <u8 as MD<'x>>::spec_serialize(v.byte_1));
        }
        self.byte_2.serialize(writer);
        proof {
            lemma_write_next(a, <Position as MD<'x>>::spec_serialize(v.location) + <u8 as MD<'x>>::spec_serialize(v.byte_1), <u8 as MD<'x>>::spec_header(), <u8 as MD<'x>>::spec_serialize(v.byte_2));
        }
        write_varint(writer, self.block_id as u32);
        proof {
            lemma_concat_associative(a, <Position as MD<'x>>::spec_serialize(v.location) + <u8 as MD<'x>>::spec_serialize(v.byte_1) + <u8 as MD<'x>>::spec_serialize(v.byte_2), varint_bytes(v.block_id as u32));
        }
    }
}

/// Packet `0xc` of the play state, sent by the server.
#[derive(Debug)]
pub struct BlockChangeResponse {
    pub location: Position,
    pub type_: i32,
}

impl DeepView for BlockChangeResponse {
    type V = BlockChangeResponse;

    open spec fn deep_view(&self) -> BlockChangeResponse {
        *self
    }
}

impl<'x> MD<'x> for BlockChangeResponse {
    open spec fn spec_deserialize(s0: Seq<u8>) -> Option<(BlockChangeResponse, Seq<u8>)> {
        match <Position as MD<'x>>::spec_deserialize(s0) {
            Some((location, s1)) => {
                match varint_field(s1) {
                    Some((type_, s2)) => {
                        Some((BlockChangeResponse { location, type_ }, s2))
                    },
                    None => None,
                }
            },
            None => None,
        }
    }

    open spec fn serializable() -> bool {
        <Position as MD<'x>>::serializable()
    }

    open spec fn spec_header() -> Seq<u8> {
        varint_bytes(0xc)
    }

    open spec fn takes_rest() -> bool {
        false
    }

    open spec fn spec_serialize(v: BlockChangeResponse) -> Seq<u8> {
        <Position as MD<'x>>::spec_serialize(v.location) + varint_bytes(v.type_ as u32)
    }

    open spec fn encodable(v: BlockChangeResponse) -> bool {
        Self::serializable() && <Position as MD<'x>>::encodable(v.location)
    }

    proof fn lemma_roundtrip(v: BlockChangeResponse, rest: Seq<u8>) {
        let b0 = <Position as MD<'x>>::spec_serialize(v.location);
        let b1 = varint_bytes(v.type_ as u32);
        let t2 = rest;
        let t1 = b1 + t2;
        let t0 = b0 + t1;
        lemma_concat_associative(b0, b1, t2);
        <Position as MD<'x>>::lemma_roundtrip(v.location, t1);
        lemma_varint_field_roundtrip(v.type_, t2);
    }

    fn deserialize(memory: &mut &'x [u8]) -> (res: Result<BlockChangeResponse, ParseError>) {
        let location: Position = <Position as MD<'x>>::deserialize(memory)?;
        let type_: i32 = read_varint(memory)?;
        Ok(BlockChangeResponse { location, type_ })
    }

    fn serialize(&self, writer: &mut Vec<u8>) {
        let ghost v = self.deep_view();
        write_varint(writer, 0xc);
        let ghost a = writer@;
        assert(old(writer)@ + Self::spec_header() =~= a);
        self.location.serialize(writer);
        proof {
            lemma_write_after_header(a, <Position as MD<'x>>::spec_header(), <Position as MD<'x>>::spec_serialize(v.location));
        }
        write_varint(writer, self.type_ as u32);
        proof {
            lemma_concat_associative(a, <Position as MD<'x>>::spec_serialize(v.location), varint_bytes(v.type_ as u32));
        }
    }
}

/// Packet `0xd` of the play state, sent by the server.
/// Its fields are not decoded: nothing is read for it.
#[derive(Debug)]
pub struct BossBarResponse {}

impl DeepView for BossBarResponse {
    type V = BossBarResponse;

    open spec fn deep_view(&self) -> BossBarResponse {
        *self
    }
}

impl<'x> MD<'x> for BossBarResponse {
    open spec fn spec_deserialize(s0: Seq<u8>) -> Option<(BossBarResponse, Seq<u8>)> {
        Some((BossBarResponse {}, s0))
    }

    open spec fn serializable() -> bool {
        true
    }

    open spec fn spec_header() -> Seq<u8> {
        varint_bytes(0xd)
    }

    open spec fn takes_rest() -> bool {
        false
    }

    open spec fn spec_serialize(v: BossBarResponse) -> Seq<u8> {
        Seq::empty()
    }

    open spec fn encodable(v: BossBarResponse) -> bool {
        Self::serializable()
    }

    proof fn lemma_roundtrip(v: BossBarResponse, rest: Seq<u8>) {
        assert(Seq::<u8>::empty() + rest =~= rest);
    }

    fn deserialize(memory: &mut &'x [u8]) -> (res: Result<BossBarResponse, ParseError>) {
        Ok(BossBarResponse {})
    }

    fn serialize(&self, writer: &mut Vec<u8>) {
        let ghost v = self.deep_view();
        write_varint(writer, 0xd);
        let ghost a = writer@;
        assert(old(writer)@ + Self::spec_header() =~= a);
        assert(a + Self::spec_serialize(v) =~= a);
    }
}

/// Packet `0xe` of the play state, sent by the server.
#[derive(Debug)]
pub struct DifficultyResponse {
    pub difficulty: u8,
    pub difficulty_locked: bool,
}

impl DeepView for DifficultyResponse {
    type V = DifficultyResponse;

    open spec fn deep_view(&self) -> DifficultyResponse {
        *self
    }
}

impl<'x> MD<'x> for DifficultyResponse {
    open spec fn spec_deserialize(s0: Seq<u8>) -> Option<(DifficultyResponse, Seq<u8>)> {
        match <u8 as MD<'x>>::spec_deserialize(s0) {
            Some((difficulty, s1)) => {
                match <bool as MD<'x>>::spec_deserialize(s1) {
                    Some((difficulty_locked, s2)) => {
                        Some((DifficultyResponse { difficulty, difficulty_locked }, s2))
                    },
                    None => None,
                }
            },
            None => None,
        }
    }

    open spec fn serializable() -> bool {
        <u8 as MD<'x>>::serializable() && <bool as MD<'x>>::serializable()
    }

    open spec fn spec_header() -> Seq<u8> {
        varint_bytes(0xe)
    }

    open spec fn takes_rest() -> bool {
        false
    }

    open spec fn spec_serialize(v: DifficultyResponse) -> Seq<u8> {
        <u8 as MD<'x>>::spec_serialize(v.difficulty) + <bool as MD<'x>>::spec_serialize(v.difficulty_locked)
    }

    open spec fn encodable(v: DifficultyResponse) -> bool {
        Self::serializable() && <u8 as MD<'x>>::encodable(v.difficulty) && <bool as MD<'x>>::encodable(v.difficulty_locked)
    }

    proof fn lemma_roundtrip(v: DifficultyResponse, rest: Seq<u8>) {
        let b0 = <u8 as MD<'x>>::spec_serialize(v.difficulty);
        let b1 = <bool as MD<'x>>::spec_serialize(v.difficulty_locked);
        let t2 = rest;
        let t1 = b1 + t2;
        let t0 = b0 + t1;
        lemma_concat_associative(b0, b1, t2);
        <u8 as MD<'x>>::lemma_roundtrip(v.difficulty, t1);
        <bool as MD<'x>>::lemma_roundtrip(v.difficulty_locked, t2);
    }

    fn deserialize(memory: &mut &'x [u8]) -> (res: Result<DifficultyResponse, ParseError>) {
        let difficulty: u8 = <u8 as MD<'x>>::deserialize(memory)?;
        let difficulty_locked: bool = <bool as MD<'x>>::deserialize(memory)?;
        Ok(DifficultyResponse { difficulty, difficulty_locked })
    }

    fn serialize(&self, writer: &mut Vec<u8>) {
        let ghost v = self.deep_view();
        write_varint(writer, 0xe);
        let ghost a = writer@;
        assert(old(writer)@ + Self::spec_header() =~= a);
        self.difficulty.serialize(writer);
        proof {
            lemma_write_after_header(a, <u8 as MD<'x>>::spec_header(), <u8 as MD<'x>>::spec_serialize(v.difficulty));
        }
        self.difficulty_locked.serialize(writer);
        proof {
            lemma_write_next(a, <u8 as MD<'x>>::spec_serialize(v.difficulty), <bool as MD<'x>>::spec_header(), <bool as MD<'x>>::spec_serialize(v.difficulty_locked));
        }
    }
}

#[derive(Debug)]
pub struct TabCompleteResponse_Matches<'x> {
    pub match_: &'x str,
    pub tooltip: Option<&'x str>,
}

/// What a `TabCompleteResponse_Matches` holds.
pub struct TabCompleteResponse_MatchesView {
    pub match_: Seq<char>,
    pub tooltip: Option<Seq<char>>,
}

impl<'x> DeepView for TabCompleteResponse_Matches<'x> {
    type V = TabCompleteResponse_MatchesView;

    open spec fn deep_view(&self) -> TabCompleteResponse_MatchesView {
        TabCompleteResponse_MatchesView { match_: self.match_.deep_view(), tooltip: self.tooltip.deep_view() }
    }
}

impl<'x> MD<'x> for TabCompleteResponse_Matches<'x> {
    open spec fn spec_deserialize(s0: Seq<u8>) -> Option<(TabCompleteResponse_MatchesView, Seq<u8>)> {
        match <&'x str as MD<'x>>::spec_deserialize(s0) {
            Some((match_, s1)) => {
                match <Option<&'x str> as MD<'x>>::spec_deserialize(s1) {
                    Some((tooltip, s2)) => {
                        Some((TabCompleteResponse_MatchesView { match_, tooltip }, s2))
                    },
                    None => None,
                }
            },
            None => None,
        }
    }

    open spec fn serializable() -> bool {
        <&'x str as MD<'x>>::serializable() && <Option<&'x str> as MD<'x>>::serializable()
    }

    open spec fn spec_header() -> Seq<u8> {
        Seq::empty()
    }

    open spec fn takes_rest() -> bool {
        false
    }

    open spec fn spec_serialize(v: TabCompleteResponse_MatchesView) -> Seq<u8> {
        <&'x str as MD<'x>>::spec_serialize(v.match_) + <Option<&'x str> as MD<'x>>::spec_serialize(v.tooltip)
    }

    open spec fn encodable(v: TabCompleteResponse_MatchesView) -> bool {
        Self::serializable() && <&'x str as MD<'x>>::encodable(v.match_) && <Option<&'x str> as MD<'x>>::encodable(v.tooltip)
    }

    proof fn lemma_roundtrip(v: TabCompleteResponse_MatchesView, rest: Seq<u8>) {
        let b0 = <&'x str as MD<'x>>::spec_serialize(v.match_);
        let b1 = <Option<&'x str> as MD<'x>>::spec_serialize(v.tooltip);
        let t2 = rest;
        let t1 = b1 + t2;
        let t0 = b0 + t1;
        lemma_concat_associative(b0, b1, t2);
        <&'x str as MD<'x>>::lemma_roundtrip(v.match_, t1);
        <Option<&'x str> as MD<'x>>::lemma_roundtrip(v.tooltip, t2);
    }

    fn deserialize(memory: &mut &'x [u8]) -> (res: Result<TabCompleteResponse_Matches<'x>, ParseError>) {
        let match_: &'x str = <&'x str as MD<'x>>::deserialize(memory)?;
        let tooltip: Option<&'x str> = <Option<&'x str> as MD<'x>>::deserialize(memory)?;
        Ok(TabCompleteResponse_Matches { match_, tooltip })
    }

    fn serialize(&self, writer: &mut Vec<u8>) {
        let ghost v = self.deep_view();
        let ghost a = writer@;
        assert(old(writer)@ + Self::spec_header() =~= a);
        self.match_.serialize(writer);
        proof {
            lemma_write_after_header(a, <&'x str as MD<'x>>::spec_header(), <&'x str as MD<'x>>::spec_serialize(v.match_));
        }
        self.tooltip.serialize(writer);
        proof {
            lemma_write_next(a, <&'x str as MD<'x>>::spec_serialize(v.match_), <Option<&'x str> as MD<'x>>::spec_header(), <Option<&'x str> as MD<'x>>::spec_serialize(v.tooltip));
        }
    }
}

/// Packet `0x11` of the play state, sent by the server.
#[derive(Debug)]
pub struct TabCompleteResponse<'x> {
    pub transaction_id: i32,
    pub start: i32,
    pub length: i32,
    pub matches: Vec<TabCompleteResponse_Matches<'x>>,
}

/// What a `TabCompleteResponse` holds.
pub struct TabCompleteResponseView {
    pub transaction_id: i32,
    pub start: i32,
    pub length: i32,
    pub matches: Seq<TabCompleteResponse_MatchesView>,
}

impl<'x> DeepView for TabCompleteResponse<'x> {
    type V = TabCompleteResponseView;

    open spec fn deep_view(&self) -> TabCompleteResponseView {
        TabCompleteResponseView { transaction_id: self.transaction_id, start: self.start, length: self.length, matches: self.matches.deep_view() }
    }
}

impl<'x> MD<'x> for TabCompleteResponse<'x> {
    open spec fn spec_deserialize(s0: Seq<u8>) -> Option<(TabCompleteResponseView, Seq<u8>)> {
        match varint_field(s0) {
            Some((transaction_id, s1)) => {
                match varint_field(s1) {
                    Some((start, s2)) => {
                        match varint_field(s2) {
                            Some((length, s3)) => {
                                match varint_field(s3) {
                                    Some((matches_count, s4)) => {
                                        match spec_array::<'x, TabCompleteResponse_Matches<'x>>(s4, matches_count as int) {
                                            Some((matches, s5)) => {
                                                Some((TabCompleteResponseView { transaction_id, start, length, matches }, s5))
                                            },
                                            None => None,
                                        }
                                    },
                                    None => None,
                                }
                            },
                            None => None,
                        }
                    },
                    None => None,
                }
            },
            None => None,
        }
    }

    open spec fn serializable() -> bool {
        false
    }

    open spec fn spec_header() -> Seq<u8> {
        Seq::empty()
    }

    open spec fn takes_rest() -> bool {
        false
    }

    open spec fn spec_serialize(v: TabCompleteResponseView) -> Seq<u8> {
        Seq::empty()
    }

    open spec fn encodable(v: TabCompleteResponseView) -> bool {
        Self::serializable()
    }

    proof fn lemma_roundtrip(v: TabCompleteResponseView, rest: Seq<u8>) {
    }

    fn deserialize(memory: &mut &'x [u8]) -> (res: Result<TabCompleteResponse<'x>, ParseError>) {
        let transaction_id: i32 = read_varint(memory)?;
        let start: i32 = read_varint(memory)?;
        let length: i32 = read_varint(memory)?;
        let matches_count: i32 = read_varint(memory)?;
        let matches: Vec<TabCompleteResponse_Matches<'x>> = read_array(memory, matches_count)?;
        Ok(TabCompleteResponse { transaction_id, start, length, matches })
    }

    fn serialize(&self, writer: &mut Vec<u8>) {
    }
}

/// Packet `0x12` of the play state, sent by the server.
/// Its fields are not decoded: nothing is read for it.
#[derive(Debug)]
pub struct DeclareCommandsResponse {}

impl DeepView for DeclareCommandsResponse {
    type V = DeclareCommandsResponse;

    open spec fn deep_view(&self) -> DeclareCommandsResponse {
        *self
    }
}

impl<'x> MD<'x> for DeclareCommandsResponse {
    open spec fn spec_deserialize(s0: Seq<u8>) -> Option<(DeclareCommandsResponse, Seq<u8>)> {
        Some((DeclareCommandsResponse {}, s0))
    }

    open spec fn serializable() -> bool {
        true
    }

    open spec fn spec_header() -> Seq<u8> {
        varint_bytes(0x12)
    }

    open spec fn takes_rest() -> bool {
        false
    }

    open spec fn spec_serialize(v: DeclareCommandsResponse) -> Seq<u8> {
        Seq::empty()
    }

    open spec fn encodable(v: DeclareCommandsResponse) -> bool {
        Self::serializable()
    }

    proof fn lemma_roundtrip(v: DeclareCommandsResponse, rest: Seq<u8>) {
        assert(Seq::<u8>::empty() + rest =~= rest);
    }

    fn deserialize(memory: &mut &'x [u8]) -> (res: Result<DeclareCommandsResponse, ParseError>) {
        Ok(DeclareCommandsResponse {})
    }

    fn serialize(&self, writer: &mut Vec<u8>) {
        let ghost v = self.deep_view();
        write_varint(writer, 0x12);
        let ghost a = writer@;
        assert(old(writer)@ + Self::spec_header() =~= a);
        assert(a + Self::spec_serialize(v) =~= a);
    }
}

/// Packet `0x37` of the play state, sent by the server.
/// Its fields are not decoded: nothing is read for it.
#[derive(Debug)]
pub struct FacePlayerResponse {}

impl DeepView for FacePlayerResponse {
    type V = FacePlayerResponse;

    open spec fn deep_view(&self) -> FacePlayerResponse {
        *self
    }
}

impl<'x> MD<'x> for FacePlayerResponse {
    open spec fn spec_deserialize(s0: Seq<u8>) -> Option<(FacePlayerResponse, Seq<u8>)> {
        Some((FacePlayerResponse {}, s0))
    }

    open spec fn serializable() -> bool {
        true
    }

    open spec fn spec_header() -> Seq<u8> {
        varint_bytes(0x37)
    }

    open spec fn takes_rest() -> bool {
        false
    }

    open spec fn spec_serialize(v: FacePlayerResponse) -> Seq<u8> {
        Seq::empty()
    }

    open spec fn encodable(v: FacePlayerResponse) -> bool {
        Self::serializable()
    }

    proof fn lemma_roundtrip(v: FacePlayerResponse, rest: Seq<u8>) {
        assert(Seq::<u8>::empty() + rest =~= rest);
    }

    fn deserialize(memory: &mut &'x [u8]) -> (res: Result<FacePlayerResponse, ParseError>) {
        Ok(FacePlayerResponse {})
    }

    fn serialize(&self, writer: &mut Vec<u8>) {
        let ghost v = self.deep_view();
        write_varint(writer, 0x37);
        let ghost a = writer@;
        assert(old(writer)@ + Self::spec_header() =~= a);
        assert(a + Self::spec_serialize(v) =~= a);
    }
}

/// Packet `0x60` of the play state, sent by the server.
#[derive(Debug)]
pub struct NbtQueryResponse<'x> {
    pub transaction_id: i32,
    pub nbt: IndexedOptionNbt<'x>,
}

/// What a `NbtQueryResponse` holds.
pub struct NbtQueryResponseView {
    pub transaction_id: i32,
    pub nbt: Option<Seq<u8>>,
}

impl<'x> DeepView for NbtQueryResponse<'x> {
    type V = NbtQueryResponseView;

    open spec fn deep_view(&self) -> NbtQueryResponseView {
        NbtQueryResponseView { transaction_id: self.transaction_id, nbt: self.nbt.deep_view() }
    }
}

impl<'x> MD<'x> for NbtQueryResponse<'x> {
    open spec fn spec_deserialize(s0: Seq<u8>) -> Option<(NbtQueryResponseView, Seq<u8>)> {
        match varint_field(s0) {
            Some((transaction_id, s1)) => {
                match <IndexedOptionNbt<'x> as MD<'x>>::spec_deserialize(s1) {
                    Some((nbt, s2)) => {
                        Some((NbtQueryResponseView { transaction_id, nbt }, s2))
                    },
                    None => None,
                }
            },
            None => None,
        }
    }

    open spec fn serializable() -> bool {
        <IndexedOptionNbt<'x> as MD<'x>>::serializable()
    }

    open spec fn spec_header() -> Seq<u8> {
        varint_bytes(0x60)
    }

    open spec fn takes_rest() -> bool {
        false
    }

    open spec fn spec_serialize(v: NbtQueryResponseView) -> Seq<u8> {
        varint_bytes(v.transaction_id as u32) + <IndexedOptionNbt<'x> as MD<'x>>::spec_serialize(v.nbt)
    }

    open spec fn encodable(v: NbtQueryResponseView) -> bool {
        Self::serializable() && <IndexedOptionNbt<'x> as MD<'x>>::encodable(v.nbt)
    }

    proof fn lemma_roundtrip(v: NbtQueryResponseView, rest: Seq<u8>) {
        let b0 = varint_bytes(v.transaction_id as u32);
        let b1 = <IndexedOptionNbt<'x> as MD<'x>>::spec_serialize(v.nbt);
        let t2 = rest;
        let t1 = b1 + t2;
        let t0 = b0 + t1;
        lemma_concat_associative(b0, b1, t2);
        lemma_varint_field_roundtrip(v.transaction_id, t1);
        <IndexedOptionNbt<'x> as MD<'x>>::lemma_roundtrip(v.nbt, t2);
    }

    fn deserialize(memory: &mut &'x [u8]) -> (res: Result<NbtQueryResponse<'x>, ParseError>) {
        let transaction_id: i32 = read_varint(memory)?;
        let nbt: IndexedOptionNbt<'x> = <IndexedOptionNbt<'x> as MD<'x>>::deserialize(memory)?;
        Ok(NbtQueryResponse { transaction_id, nbt })
    }

    fn serialize(&self, writer: &mut Vec<u8>) {
        let ghost v = self.deep_view();
        write_varint(writer, 0x60);
        let ghost a = writer@;
        assert(old(writer)@ + Self::spec_header() =~= a);
        write_varint(writer, self.transaction_id as u32);
        self.nbt.serialize(writer);
        proof {
            lemma_write_next(a, varint_bytes(v.transaction_id as u32), <IndexedOptionNbt<'x> as MD<'x>>::spec_header(), <IndexedOptionNbt<'x> as MD<'x>>::spec_serialize(v.nbt));
        }
    }
}

/// Packet `0xf` of the play state, sent by the server.
#[derive(Debug)]
pub struct ChatResponse<'x> {
    pub message: &'x str,
    pub position: i8,
    pub sender: u128,
}

/// What a `ChatResponse` holds.
pub struct ChatResponseView {
    pub message: Seq<char>,
    pub position: i8,
    pub sender: u128,
}

impl<'x> DeepView for ChatResponse<'x> {
    type V = ChatResponseView;

    open spec fn deep_view(&self) -> ChatResponseView {
        ChatResponseView { message: self.message.deep_view(), position: self.position, sender: self.sender }
    }
}

impl<'x> MD<'x> for ChatResponse<'x> {
    open spec fn spec_deserialize(s0: Seq<u8>) -> Option<(ChatResponseView, Seq<u8>)> {
        match <&'x str as MD<'x>>::spec_deserialize(s0) {
            Some((message, s1)) => {
                match <i8 as MD<'x>>::spec_deserialize(s1) {
                    Some((position, s2)) => {
                        match <u128 as MD<'x>>::spec_deserialize(s2) {
                            Some((sender, s3)) => {
                                Some((ChatResponseView { message, position, sender }, s3))
                            },
                            None => None,
                        }
                    },
                    None => None,
                }
            },
            None => None,
        }
    }

    open spec fn serializable() -> bool {
        <&'x str as MD<'x>>::serializable() && <i8 as MD<'x>>::serializable() && <u128 as MD<'x>>::serializable()
    }

    open spec fn spec_header() -> Seq<u8> {
        varint_bytes(0xf)
    }

    open spec fn takes_rest() -> bool {
        false
    }

    open spec fn spec_serialize(v: ChatResponseView) -> Seq<u8> {
        <&'x str as MD<'x>>::spec_serialize(v.message) + <i8 as MD<'x>>::spec_serialize(v.position) + <u128 as MD<'x>>::spec_serialize(v.sender)
    }

    open spec fn encodable(v: ChatResponseView) -> bool {
        Self::serializable() && <&'x str as MD<'x>>::encodable(v.message) && <i8 as MD<'x>>::encodable(v.position) && <u128 as MD<'x>>::encodable(v.sender)
    }

    proof fn lemma_roundtrip(v: ChatResponseView, rest: Seq<u8>) {
        let b0 = <&'x str as MD<'x>>::spec_serialize(v.message);
        let b1 = <i8 as MD<'x>>::spec_serialize(v.position);
        let b2 = <u128 as MD<'x>>::spec_serialize(v.sender);
        let t3 = rest;
        let t2 = b2 + t3;
        let t1 = b1 + t2;
        let t0 = b0 + t1;
        lemma_concat_associative(b0 + b1, b2, t3);
        lemma_concat_associative(b0, b1, t2);
        <&'x str as MD<'x>>::lemma_roundtrip(v.message, t1);
        <i8 as MD<'x>>::lemma_roundtrip(v.position, t2);
        <u128 as MD<'x>>::lemma_roundtrip(v.sender, t3);
    }

    fn deserialize(memory: &mut &'x [u8]) -> (res: Result<ChatResponse<'x>, ParseError>) {
        let message: &'x str = <&'x str as MD<'x>>::deserialize(memory)?;
        let position: i8 = <i8 as MD<'x>>::deserialize(memory)?;
        let sender: u128 = <u128 as MD<'x>>::deserialize(memory)?;
        Ok(ChatResponse { message, position, sender })
    }

    fn serialize(&self, writer: &mut Vec<u8>) {
        let ghost v = self.deep_view();
        write_varint(writer, 0xf);
        let ghost a = writer@;
        assert(old(writer)@ + Self::spec_header() =~= a);
        self.message.serialize(writer);
        proof {
            lemma_write_after_header(a, <&'x str as MD<'x>>::spec_header(), <&'x str as MD<'x>>::spec_serialize(v.message));
        }
        self.position.serialize(writer);
        proof {
            lemma_write_next(a, <&'x str as MD<'x>>::spec_serialize(v.message), <i8 as MD<'x>>::spec_header(), <i8 as MD<'x>>::spec_serialize(v.position));
        }
        self.sender.serialize(writer);
        proof {
            lemma_write_next(a, <&'x str as MD<'x>>::spec_serialize(v.message) + <i8 as MD<'x>>::spec_serialize(v.position), <u128 as MD<'x>>::spec_header(), <u128 as MD<'x>>::spec_serialize(v.sender));
        }
    }
}

#[derive(Debug)]
pub struct MultiBlockChangeResponse_ChunkCoordinates {
    pub x: u32,
    pub z: u32,
    pub y: u32,
}

impl DeepView for MultiBlockChangeResponse_ChunkCoordinates {
    type V = MultiBlockChangeResponse_ChunkCoordinates;

    open spec fn deep_view(&self) -> MultiBlockChangeResponse_ChunkCoordinates {
        *self
    }
}

impl<'x> MD<'x> for MultiBlockChangeResponse_ChunkCoordinates {
    open spec fn spec_deserialize(s0: Seq<u8>) -> Option<(MultiBlockChangeResponse_ChunkCoordinates, Seq<u8>)> {
        match <i64 as MD<'x>>::spec_deserialize(s0) {
            Some((value, s1)) => {
                let x = ((value << 42) >> 42) as u32;
                let z = ((value << 20) >> 42) as u32;
                let y = ((value << 0) >> 44) as u32;
                Some((MultiBlockChangeResponse_ChunkCoordinates { x, z, y }, s1))
            },
            None => None,
        }
    }

    open spec fn serializable() -> bool {
        false
    }

    open spec fn spec_header() -> Seq<u8> {
        Seq::empty()
    }

    open spec fn takes_rest() -> bool {
        false
    }

    open spec fn spec_serialize(v: MultiBlockChangeResponse_ChunkCoordinates) -> Seq<u8> {
        Seq::empty()
    }

    open spec fn encodable(v: MultiBlockChangeResponse_ChunkCoordinates) -> bool {
        Self::serializable()
    }

    proof fn lemma_roundtrip(v: MultiBlockChangeResponse_ChunkCoordinates, rest: Seq<u8>) {
    }

    fn deserialize(memory: &mut &'x [u8]) -> (res: Result<MultiBlockChangeResponse_ChunkCoordinates, ParseError>) {
        let value: i64 = <i64 as MD<'x>>::deserialize(memory)?;
        let x: u32 = ((value << 42) >> 42) as u32;
        let z: u32 = ((value << 20) >> 42) as u32;
        let y: u32 = ((value << 0) >> 44) as u32;
        Ok(MultiBlockChangeResponse_ChunkCoordinates { x, z, y })
    }

    fn serialize(&self, writer: &mut Vec<u8>) {
    }
}

/// Packet `0x3f` of the play state, sent by the server.
#[derive(Debug)]
pub struct MultiBlockChangeResponse {
    pub chunk_coordinates: MultiBlockChangeResponse_ChunkCoordinates,
    pub not_trust_edges: bool,
    pub records: Vec<i64>,
}

/// What a `MultiBlockChangeResponse` holds.
pub struct MultiBlockChangeResponseView {
    pub chunk_coordinates: MultiBlockChangeResponse_ChunkCoordinates,
    pub not_trust_edges: bool,
    pub records: Seq<i64>,
}

impl<'x> DeepView for MultiBlockChangeResponse {
    type V = MultiBlockChangeResponseView;

    open spec fn deep_view(&self) -> MultiBlockChangeResponseView {
        MultiBlockChangeResponseView { chunk_coordinates: self.chunk_coordinates.deep_view(), not_trust_edges: self.not_trust_edges, records: self.records@ }
    }
}

impl<'x> MD<'x> for MultiBlockChangeResponse {
    open spec fn spec_deserialize(s0: Seq<u8>) -> Option<(MultiBlockChangeResponseView, Seq<u8>)> {
        match <MultiBlockChangeResponse_ChunkCoordinates as MD<'x>>::spec_deserialize(s0) {
            Some((chunk_coordinates, s1)) => {
                match <bool as MD<'x>>::spec_deserialize(s1) {
                    Some((not_trust_edges, s2)) => {
                        match varint_field(s2) {
                            Some((records_count, s3)) => {
                                match spec_varlong_array(s3, records_count as int) {
                                    Some((records, s4)) => {
                                        Some((MultiBlockChangeResponseView { chunk_coordinates, not_trust_edges, records }, s4))
                                    },
                                    None => None,
                                }
                            },
                            None => None,
                        }
                    },
                    None => None,
                }
            },
            None => None,
        }
    }

    open spec fn serializable() -> bool {
        false
    }

    open spec fn spec_header() -> Seq<u8> {
        Seq::empty()
    }

    open spec fn takes_rest() -> bool {
        false
    }

    open spec fn spec_serialize(v: MultiBlockChangeResponseView) -> Seq<u8> {
        Seq::empty()
    }

    open spec fn encodable(v: MultiBlockChangeResponseView) -> bool {
        Self::serializable()
    }

    proof fn lemma_roundtrip(v: MultiBlockChangeResponseView, rest: Seq<u8>) {
    }

    fn deserialize(memory: &mut &'x [u8]) -> (res: Result<MultiBlockChangeResponse, ParseError>) {
        let chunk_coordinates: MultiBlockChangeResponse_ChunkCoordinates = <MultiBlockChangeResponse_ChunkCoordinates as MD<'x>>::deserialize(memory)?;
        let not_trust_edges: bool = <bool as MD<'x>>::deserialize(memory)?;
        let records_count: i32 = read_varint(memory)?;
        let records: Vec<i64> = read_varlong_array(memory, records_count)?;
        Ok(MultiBlockChangeResponse { chunk_coordinates, not_trust_edges, records })
    }

    fn serialize(&self, writer: &mut Vec<u8>) {
    }
}

/// Packet `0x13` of the play state, sent by the server.
#[derive(Debug)]
pub struct CloseWindowResponse {
    pub window_id: u8,
}

impl DeepView for CloseWindowResponse {
    type V = CloseWindowResponse;

    open spec fn deep_view(&self) -> CloseWindowResponse {
        *self
    }
}

impl<'x> MD<'x> for CloseWindowResponse {
    open spec fn spec_deserialize(s0: Seq<u8>) -> Option<(CloseWindowResponse, Seq<u8>)> {
        match <u8 as MD<'x>>::spec_deserialize(s0) {
            Some((window_id, s1)) => {
                Some((CloseWindowResponse { window_id }, s1))
            },
            None => None,
        }
    }

    open spec fn serializable() -> bool {
        <u8 as MD<'x>>::serializable()
    }

    open spec fn spec_header() -> Seq<u8> {
        varint_bytes(0x13)
    }

    open spec fn takes_rest() -> bool {
        false
    }

    open spec fn spec_serialize(v: CloseWindowResponse) -> Seq<u8> {
        <u8 as MD<'x>>::spec_serialize(v.window_id)
    }

    open spec fn encodable(v: CloseWindowResponse) -> bool {
        Self::serializable() && <u8 as MD<'x>>::encodable(v.window_id)
    }

    proof fn lemma_roundtrip(v: CloseWindowResponse, rest: Seq<u8>) {
        let b0 = <u8 as MD<'x>>::spec_serialize(v.window_id);
        let t1 = rest;
        let t0 = b0 + t1;
        assert(Self::spec_serialize(v) + rest == t0);
        <u8 as MD<'x>>::lemma_roundtrip(v.window_id, t1);
    }

    fn deserialize(memory: &mut &'x [u8]) -> (res: Result<CloseWindowResponse, ParseError>) {
        let window_id: u8 = <u8 as MD<'x>>::deserialize(memory)?;
        Ok(CloseWindowResponse { window_id })
    }

    fn serialize(&self, writer: &mut Vec<u8>) {
        let ghost v = self.deep_view();
        write_varint(writer, 0x13);
        let ghost a = writer@;
        assert(old(writer)@ + Self::spec_header() =~= a);
        self.window_id.serialize(writer);
        proof {
            lemma_write_after_header(a, <u8 as MD<'x>>::spec_header(), <u8 as MD<'x>>::spec_serialize(v.window_id));
        }
    }
}

/// Packet `0x2e` of the play state, sent by the server.
#[derive(Debug)]
pub struct OpenWindowResponse<'x> {
    pub window_id: i32,
    pub inventory_type: i32,
    pub window_title: &'x str,
}

/// What a `OpenWindowResponse` holds.
pub struct OpenWindowResponseView {
    pub window_id: i32,
    pub inventory_type: i32,
    pub window_title: Seq<char>,
}

impl<'x> DeepView for OpenWindowResponse<'x> {
    type V = OpenWindowResponseView;

    open spec fn deep_view(&self) -> OpenWindowResponseView {
        OpenWindowResponseView { window_id: self.window_id, inventory_type: self.inventory_type, window_title: self.window_title.deep_view() }
    }
}

impl<'x> MD<'x> for OpenWindowResponse<'x> {
    open spec fn spec_deserialize(s0: Seq<u8>) -> Option<(OpenWindowResponseView, Seq<u8>)> {
        match varint_field(s0) {
            Some((window_id, s1)) => {
                match varint_field(s1) {
                    Some((inventory_type, s2)) => {
                        match <&'x str as MD<'x>>::spec_deserialize(s2) {
                            Some((window_title, s3)) => {
                                Some((OpenWindowResponseView { window_id, inventory_type, window_title }, s3))
                            },
                            None => None,
                        }
                    },
                    None => None,
                }
            },
            None => None,
        }
    }

    open spec fn serializable() -> bool {
        <&'x str as MD<'x>>::serializable()
    }

    open spec fn spec_header() -> Seq<u8> {
        varint_bytes(0x2e)
    }

    open spec fn takes_rest() -> bool {
        false
    }

    open spec fn spec_serialize(v: OpenWindowResponseView) -> Seq<u8> {
        varint_bytes(v.window_id as u32) + varint_bytes(v.inventory_type as u32) + <&'x str as MD<'x>>::spec_serialize(v.window_title)
    }

    open spec fn encodable(v: OpenWindowResponseView) -> bool {
        Self::serializable() && <&'x str as MD<'x>>::encodable(v.window_title)
    }

    proof fn lemma_roundtrip(v: OpenWindowResponseView, rest: Seq<u8>) {
        let b0 = varint_bytes(v.window_id as u32);
        let b1 = varint_bytes(v.inventory_type as u32);
        let b2 = <&'x str as MD<'x>>::spec_serialize(v.window_title);
        let t3 = rest;
        let t2 = b2 + t3;
        let t1 = b1 + t2;
        let t0 = b0 + t1;
        lemma_concat_associative(b0 + b1, b2, t3);
        lemma_concat_associative(b0, b1, t2);
        lemma_varint_field_roundtrip(v.window_id, t1);
        lemma_varint_field_roundtrip(v.inventory_type, t2);
        <&'x str as MD<'x>>::lemma_roundtrip(v.window_title, t3);
    }

    fn deserialize(memory: &mut &'x [u8]) -> (res: Result<OpenWindowResponse<'x>, ParseError>) {
        let window_id: i32 = read_varint(memory)?;
        let inventory_type: i32 = read_varint(memory)?;
        let window_title: &'x str = <&'x str as MD<'x>>::deserialize(memory)?;
        Ok(OpenWindowResponse { window_id, inventory_type, window_title })
    }

    fn serialize(&self, writer: &mut Vec<u8>) {
        let ghost v = self.deep_view();
        write_varint(writer, 0x2e);
        let ghost a = writer@;
        assert(old(writer)@ + Self::spec_header() =~= a);
        write_varint(writer, self.window_id as u32);
        write_varint(writer, self.inventory_type as u32);
        proof {
            lemma_concat_associative(a, varint_bytes(v.window_id as u32), varint_bytes(v.inventory_type as u32));
        }
        self.window_title.serialize(writer);
        proof {
            lemma_write_next(a, varint_bytes(v.window_id as u32) + varint_bytes(v.inventory_type as u32), <&'x str as MD<'x>>::spec_header(), <&'x str as MD<'x>>::spec_serialize(v.window_title));
        }
    }
}

/// Packet `0x14` of the play state, sent by the server.
#[derive(Debug)]
pub struct WindowItemsResponse<'x> {
    pub window_id: u8,
    pub state_id: i32,
    pub items: Vec<InventorySlot<'x>>,
    pub carried_item: InventorySlot<'x>,
}

/// What a `WindowItemsResponse` holds.
pub struct WindowItemsResponseView {
    pub window_id: u8,
    pub state_id: i32,
    pub items: Seq<Option<InventorySlotDataView>>,
    pub carried_item: Option<InventorySlotDataView>,
}

impl<'x> DeepView for WindowItemsResponse<'x> {
    type V = WindowItemsResponseView;

    open spec fn deep_view(&self) -> WindowItemsResponseView {
        WindowItemsResponseView { window_id: self.window_id, state_id: self.state_id, items: self.items.deep_view(), carried_item: self.carried_item.deep_view() }
    }
}

impl<'x> MD<'x> for WindowItemsResponse<'x> {
    open spec fn spec_deserialize(s0: Seq<u8>) -> Option<(WindowItemsResponseView, Seq<u8>)> {
        match <u8 as MD<'x>>::spec_deserialize(s0) {
            Some((window_id, s1)) => {
                match varint_field(s1) {
                    Some((state_id, s2)) => {
                        match varint_field(s2) {
                            Some((items_count, s3)) => {
                                match spec_array::<'x, InventorySlot<'x>>(s3, items_count as int) {
                                    Some((items, s4)) => {
                                        match <InventorySlot<'x> as MD<'x>>::spec_deserialize(s4) {
                                            Some((carried_item, s5)) => {
                                                Some((WindowItemsResponseView { window_id, state_id, items, carried_item }, s5))
                                            },
                                            None => None,
                                        }
                                    },
                                    None => None,
                                }
                            },
                            None => None,
                        }
                    },
                    None => None,
                }
            },
            None => None,
        }
    }

    open spec fn serializable() -> bool {
        false
    }

    open spec fn spec_header() -> Seq<u8> {
        Seq::empty()
    }

    open spec fn takes_rest() -> bool {
        false
    }

    open spec fn spec_serialize(v: WindowItemsResponseView) -> Seq<u8> {
        Seq::empty()
    }

    open spec fn encodable(v: WindowItemsResponseView) -> bool {
        Self::serializable()
    }

    proof fn lemma_roundtrip(v: WindowItemsResponseView, rest: Seq<u8>) {
    }

    fn deserialize(memory: &mut &'x [u8]) -> (res: Result<WindowItemsResponse<'x>, ParseError>) {
        let window_id: u8 = <u8 as MD<'x>>::deserialize(memory)?;
        let state_id: i32 = read_varint(memory)?;
        let items_count: i32 = read_varint(memory)?;
        let items: Vec<InventorySlot<'x>> = read_array(memory, items_count)?;
        let carried_item: InventorySlot<'x> = <InventorySlot<'x> as MD<'x>>::deserialize(memory)?;
        Ok(WindowItemsResponse { window_id, state_id, items, carried_item })
    }

    fn serialize(&self, writer: &mut Vec<u8>) {
    }
}

/// Packet `0x15` of the play state, sent by the server.
#[derive(Debug)]
pub struct CraftProgressBarResponse {
    pub window_id: u8,
    pub property: i16,
    pub value: i16,
}

impl DeepView for CraftProgressBarResponse {
    type V = CraftProgressBarResponse;

    open spec fn deep_view(&self) -> CraftProgressBarResponse {
        *self
    }
}

impl<'x> MD<'x> for CraftProgressBarResponse {
    open spec fn spec_deserialize(s0: Seq<u8>) -> Option<(CraftProgressBarResponse, Seq<u8>)> {
        match <u8 as MD<'x>>::spec_deserialize(s0) {
            Some((window_id, s1)) => {
                match <i16 as MD<'x>>::spec_deserialize(s1) {
                    Some((property, s2)) => {
                        match <i16 as MD<'x>>::spec_deserialize(s2) {
                            Some((value, s3)) => {
                                Some((CraftProgressBarResponse { window_id, property, value }, s3))
                            },
                            None => None,
                        }
                    },
                    None => None,
                }
            },
            None => None,
        }
    }

    open spec fn serializable() -> bool {
        <u8 as MD<'x>>::serializable() && <i16 as MD<'x>>::serializable() && <i16 as MD<'x>>::serializable()
    }

    open spec fn spec_header() -> Seq<u8> {
        varint_bytes(0x15)
    }

    open spec fn takes_rest() -> bool {
        false
    }

    open spec fn spec_serialize(v: CraftProgressBarResponse) -> Seq<u8> {
        <u8 as MD<'x>>::spec_serialize(v.window_id) + <i16 as MD<'x>>::spec_serialize(v.property) + <i16 as MD<'x>>::spec_serialize(v.value)
    }

    open spec fn encodable(v: CraftProgressBarResponse) -> bool {
        Self::serializable() && <u8 as MD<'x>>::encodable(v.window_id) && <i16 as MD<'x>>::encodable(v.property) && <i16 as MD<'x>>::encodable(v.value)
    }

    proof fn lemma_roundtrip(v: CraftProgressBarResponse, rest: Seq<u8>) {
        let b0 = <u8 as MD<'x>>::spec_serialize(v.window_id);
        let b1 = <i16 as MD<'x>>::spec_serialize(v.property);
        let b2 = <i16 as MD<'x>>::spec_serialize(v.value);
        let t3 = rest;
        let t2 = b2 + t3;
        let t1 = b1 + t2;
        let t0 = b0 + t1;
        lemma_concat_associative(b0 + b1, b2, t3);
        lemma_concat_associative(b0, b1, t2);
        <u8 as MD<'x>>::lemma_roundtrip(v.window_id, t1);
        <i16 as MD<'x>>::lemma_roundtrip(v.property, t2);
        <i16 as MD<'x>>::lemma_roundtrip(v.value, t3);
    }

    fn deserialize(memory: &mut &'x [u8]) -> (res: Result<CraftProgressBarResponse, ParseError>) {
        let window_id: u8 = <u8 as MD<'x>>::deserialize(memory)?;
        let property: i16 = <i16 as MD<'x>>::deserialize(memory)?;
        let value: i16 = <i16 as MD<'x>>::deserialize(memory)?;
        Ok(CraftProgressBarResponse { window_id, property, value })
    }

    fn serialize(&self, writer: &mut Vec<u8>) {
        let ghost v = self.deep_view();
        write_varint(writer, 0x15);
        let ghost a = writer@;
        assert(old(writer)@ + Self::spec_header() =~= a);
        self.window_id.serialize(writer);
        proof {
            lemma_write_after_header(a, <u8 as MD<'x>>::spec_header(), <u8 as MD<'x>>::spec_serialize(v.window_id));
        }
        self.property.serialize(writer);
        proof {
            lemma_write_next(a, <u8 as MD<'x>>::spec_serialize(v.window_id), <i16 as MD<'x>>::spec_header(), <i16 as MD<'x>>::spec_serialize(v.property));
        }
        self.value.serialize(writer);
        proof {
            lemma_write_next(a, <u8 as MD<'x>>::spec_serialize(v.window_id) + <i16 as MD<'x>>::spec_serialize(v.property), <i16 as MD<'x>>::spec_header(), <i16 as MD<'x>>::spec_serialize(v.value));
        }
    }
}

/// Packet `0x16` of the play state, sent by the server.
#[derive(Debug)]
pub struct SetSlotResponse<'x> {
    pub window_id: i8,
    pub state_id: i32,
    pub slot: i16,
    pub item: InventorySlot<'x>,
}

/// What a `SetSlotResponse` holds.
pub struct SetSlotResponseView {
    pub window_id: i8,
    pub state_id: i32,
    pub slot: i16,
    pub item: Option<InventorySlotDataView>,
}

impl<'x> DeepView for SetSlotResponse<'x> {
    type V = SetSlotResponseView;

    open spec fn deep_view(&self) -> SetSlotResponseView {
        SetSlotResponseView { window_id: self.window_id, state_id: self.state_id, slot: self.slot, item: self.item.deep_view() }
    }
}

impl<'x> MD<'x> for SetSlotResponse<'x> {
    open spec fn spec_deserialize(s0: Seq<u8>) -> Option<(SetSlotResponseView, Seq<u8>)> {
        match <i8 as MD<'x>>::spec_deserialize(s0) {
            Some((window_id, s1)) => {
                match varint_field(s1) {
                    Some((state_id, s2)) => {
                        match <i16 as MD<'x>>::spec_deserialize(s2) {
                            Some((slot, s3)) => {
                                match <InventorySlot<'x> as MD<'x>>::spec_deserialize(s3) {
                                    Some((item, s4)) => {
                                        Some((SetSlotResponseView { window_id, state_id, slot, item }, s4))
                                    },
                                    None => None,
                                }
                            },
                            None => None,
                        }
                    },
                    None => None,
                }
            },
            None => None,
        }
    }

    open spec fn serializable() -> bool {
        <i8 as MD<'x>>::serializable() && <i16 as MD<'x>>::serializable() && <InventorySlot<'x> as MD<'x>>::serializable()
    }

    open spec fn spec_header() -> Seq<u8> {
        varint_bytes(0x16)
    }

    open spec fn takes_rest() -> bool {
        false
    }

    open spec fn spec_serialize(v: SetSlotResponseView) -> Seq<u8> {
        <i8 as MD<'x>>::spec_serialize(v.window_id) + varint_bytes(v.state_id as u32) + <i16 as MD<'x>>::spec_serialize(v.slot) + <InventorySlot<'x> as MD<'x>>::spec_serialize(v.item)
    }

    open spec fn encodable(v: SetSlotResponseView) -> bool {
        Self::serializable() && <i8 as MD<'x>>::encodable(v.window_id) && <i16 as MD<'x>>::encodable(v.slot) && <InventorySlot<'x> as MD<'x>>::encodable(v.item)
    }

    proof fn lemma_roundtrip(v: SetSlotResponseView, rest: Seq<u8>) {
        let b0 = <i8 as MD<'x>>::spec_serialize(v.window_id);
        let b1 = varint_bytes(v.state_id as u32);
        let b2 = <i16 as MD<'x>>::spec_serialize(v.slot);
        let b3 = <InventorySlot<'x> as MD<'x>>::spec_serialize(v.item);
        let t4 = rest;
        let t3 = b3 + t4;
        let t2 = b2 + t3;
        let t1 = b1 + t2;
        let t0 = b0 + t1;
        lemma_concat_associative(b0 + b1 + b2, b3, t4);
        lemma_concat_associative(b0 + b1, b2, t3);
        lemma_concat_associative(b0, b1, t2);
        <i8 as MD<'x>>::lemma_roundtrip(v.window_id, t1);
        lemma_varint_field_roundtrip(v.state_id, t2);
        <i16 as MD<'x>>::lemma_roundtrip(v.slot, t3);
        <InventorySlot<'x> as MD<'x>>::lemma_roundtrip(v.item, t4);
    }

    fn deserialize(memory: &mut &'x [u8]) -> (res: Result<SetSlotResponse<'x>, ParseError>) {
        let window_id: i8 = <i8 as MD<'x>>::deserialize(memory)?;
        let state_id: i32 = read_varint(memory)?;
        let slot: i16 = <i16 as MD<'x>>::deserialize(memory)?;
        let item: InventorySlot<'x> = <InventorySlot<'x> as MD<'x>>::deserialize(memory)?;
        Ok(SetSlotResponse { window_id, state_id, slot, item })
    }

    fn serialize(&self, writer: &mut Vec<u8>) {
        let ghost v = self.deep_view();
        write_varint(writer, 0x16);
        let ghost a = writer@;
        assert(old(writer)@ + Self::spec_header() =~= a);
        self.window_id.serialize(writer);
        proof {
            lemma_write_after_header(a, <i8 as MD<'x>>::spec_header(), <i8 as MD<'x>>::spec_serialize(v.window_id));
        }
        write_varint(writer, self.state_id as u32);
        proof {
            lemma_concat_associative(a, <i8 as MD<'x>>::spec_serialize(v.window_id), varint_bytes(v.state_id as u32));
        }
        self.slot.serialize(writer);
        proof {
            lemma_write_next(a, <i8 as MD<'x>>::spec_serialize(v.window_id) + varint_bytes(v.state_id as u32), <i16 as MD<'x>>::spec_header(), <i16 as MD<'x>>::spec_serialize(v.slot));
        }
        self.item.serialize(writer);
        proof {
            lemma_write_next(a, <i8 as MD<'x>>::spec_serialize(v.window_id) + varint_bytes(v.state_id as u32) + <i16 as MD<'x>>::spec_serialize(v.slot), <InventorySlot<'x> as MD<'x>>::spec_header(), <InventorySlot<'x> as MD<'x>>::spec_serialize(v.item));
        }
    }
}

/// Packet `0x17` of the play state, sent by the server.
#[derive(Debug)]
pub struct SetCooldownResponse {
    pub item_id: i32,
    pub cooldown_ticks: i32,
}

impl DeepView for SetCooldownResponse {
    type V = SetCooldownResponse;

    open spec fn deep_view(&self) -> SetCooldownResponse {
        *self
    }
}

impl<'x> MD<'x> for SetCooldownResponse {
    open spec fn spec_deserialize(s0: Seq<u8>) -> Option<(SetCooldownResponse, Seq<u8>)> {
        match varint_field(s0) {
            Some((item_id, s1)) => {
                match varint_field(s1) {
                    Some((cooldown_ticks, s2)) => {
                        Some((SetCooldownResponse { item_id, cooldown_ticks }, s2))
                    },
                    None => None,
                }
            },
            None => None,
        }
    }

    open spec fn serializable() -> bool {
        true
    }

    open spec fn spec_header() -> Seq<u8> {
        varint_bytes(0x17)
    }

    open spec fn takes_rest() -> bool {
        false
    }

    open spec fn spec_serialize(v: SetCooldownResponse) -> Seq<u8> {
        varint_bytes(v.item_id as u32) + varint_bytes(v.cooldown_ticks as u32)
    }

    open spec fn encodable(v: SetCooldownResponse) -> bool {
        Self::serializable()
    }

    proof fn lemma_roundtrip(v: SetCooldownResponse, rest: Seq<u8>) {
        let b0 = varint_bytes(v.item_id as u32);
        let b1 = varint_bytes(v.cooldown_ticks as u32);
        let t2 = rest;
        let t1 = b1 + t2;
        let t0 = b0 + t1;
        lemma_concat_associative(b0, b1, t2);
        lemma_varint_field_roundtrip(v.item_id, t1);
        lemma_varint_field_roundtrip(v.cooldown_ticks, t2);
    }

    fn deserialize(memory: &mut &'x [u8]) -> (res: Result<SetCooldownResponse, ParseError>) {
        let item_id: i32 = read_varint(memory)?;
        let cooldown_ticks: i32 = read_varint(memory)?;
        Ok(SetCooldownResponse { item_id, cooldown_ticks })
    }

    fn serialize(&self, writer: &mut Vec<u8>) {
        let ghost v = self.deep_view();
        write_varint(writer, 0x17);
        let ghost a = writer@;
        assert(old(writer)@ + Self::spec_header() =~= a);
        write_varint(writer, self.item_id as u32);
        write_varint(writer, self.cooldown_ticks as u32);
        proof {
            lemma_concat_associative(a, varint_bytes(v.item_id as u32), varint_bytes(v.cooldown_ticks as u32));
        }
    }
}

/// Packet `0x18` of the play state, sent by the server.
#[derive(Debug)]
pub struct CustomPayloadResponse<'x> {
    pub channel: &'x str,
    pub data: &'x [u8],
}

/// What a `CustomPayloadResponse` holds.
pub struct CustomPayloadResponseView {
    pub channel: Seq<char>,
    pub data: Seq<u8>,
}

impl<'x> DeepView for CustomPayloadResponse<'x> {
    type V = CustomPayloadResponseView;

    open spec fn deep_view(&self) -> CustomPayloadResponseView {
        CustomPayloadResponseView { channel: self.channel.deep_view(), data: self.data.deep_view() }
    }
}

impl<'x> MD<'x> for CustomPayloadResponse<'x> {
    open spec fn spec_deserialize(s0: Seq<u8>) -> Option<(CustomPayloadResponseView, Seq<u8>)> {
        match <&'x str as MD<'x>>::spec_deserialize(s0) {
            Some((channel, s1)) => {
                match rest_field(s1) {
                    Some((data, s2)) => {
                        Some((CustomPayloadResponseView { channel, data }, s2))
                    },
                    None => None,
                }
            },
            None => None,
        }
    }

    open spec fn serializable() -> bool {
        <&'x str as MD<'x>>::serializable()
    }

    open spec fn spec_header() -> Seq<u8> {
        varint_bytes(0x18)
    }

    open spec fn takes_rest() -> bool {
        true
    }

    open spec fn spec_serialize(v: CustomPayloadResponseView) -> Seq<u8> {
        <&'x str as MD<'x>>::spec_serialize(v.channel) + v.data
    }

    open spec fn encodable(v: CustomPayloadResponseView) -> bool {
        Self::serializable() && <&'x str as MD<'x>>::encodable(v.channel)
    }

    proof fn lemma_roundtrip(v: CustomPayloadResponseView, rest: Seq<u8>) {
        let b0 = <&'x str as MD<'x>>::spec_serialize(v.channel);
        let b1 = v.data;
        let t2 = rest;
        let t1 = b1 + t2;
        let t0 = b0 + t1;
        lemma_concat_associative(b0, b1, t2);
        <&'x str as MD<'x>>::lemma_roundtrip(v.channel, t1);
        assert(b1 + rest =~= b1);
    }

    fn deserialize(memory: &mut &'x [u8]) -> (res: Result<CustomPayloadResponse<'x>, ParseError>) {
        let channel: &'x str = <&'x str as MD<'x>>::deserialize(memory)?;
        let data: &'x [u8] = read_rest(memory);
        Ok(CustomPayloadResponse { channel, data })
    }

    fn serialize(&self, writer: &mut Vec<u8>) {
        let ghost v = self.deep_view();
        write_varint(writer, 0x18);
        let ghost a = writer@;
        assert(old(writer)@ + Self::spec_header() =~= a);
        self.channel.serialize(writer);
        proof {
            lemma_write_after_header(a, <&'x str as MD<'x>>::spec_header(), <&'x str as MD<'x>>::spec_serialize(v.channel));
        }
        push_slice(writer, self.data);
        proof {
            lemma_slice_deep_view(self.data);
            lemma_concat_associative(a, <&'x str as MD<'x>>::spec_serialize(v.channel), v.data);
        }
    }
}

/// Packet `0x19` of the play state, sent by the server.
#[derive(Debug)]
pub struct NamedSoundEffectResponse<'x> {
    pub sound_name: &'x str,
    pub sound_category: i32,
    pub x: i32,
    pub y: i32,
    pub z: i32,
    /// The IEEE 754 bits of the `f32` value.
    pub volume: u32,
    /// The IEEE 754 bits of the `f32` value.
    pub pitch: u32,
}

/// What a `NamedSoundEffectResponse` holds.
pub struct NamedSoundEffectResponseView {
    pub sound_name: Seq<char>,
    pub sound_category: i32,
    pub x: i32,
    pub y: i32,
    pub z: i32,
    pub volume: u32,
    pub pitch: u32,
}

impl<'x> DeepView for NamedSoundEffectResponse<'x> {
    type V = NamedSoundEffectResponseView;

    open spec fn deep_view(&self) -> NamedSoundEffectResponseView {
        NamedSoundEffectResponseView { sound_name: self.sound_name.deep_view(), sound_category: self.sound_category, x: self.x, y: self.y, z: self.z, volume: self.volume, pitch: self.pitch }
    }
}

impl<'x> MD<'x> for NamedSoundEffectResponse<'x> {
    open spec fn spec_deserialize(s0: Seq<u8>) -> Option<(NamedSoundEffectResponseView, Seq<u8>)> {
        match <&'x str as MD<'x>>::spec_deserialize(s0) {
            Some((sound_name, s1)) => {
                match varint_field(s1) {
                    Some((sound_category, s2)) => {
                        match <i32 as MD<'x>>::spec_deserialize(s2) {
                            Some((x, s3)) => {
                                match <i32 as MD<'x>>::spec_deserialize(s3) {
                                    Some((y, s4)) => {
                                        match <i32 as MD<'x>>::spec_deserialize(s4) {
                                            Some((z, s5)) => {
                                                match <u32 as MD<'x>>::spec_deserialize(s5) {
                                                    Some((volume, s6)) => {
                                                        match <u32 as MD<'x>>::spec_deserialize(s6) {
                                                            Some((pitch, s7)) => {
                                                                Some((NamedSoundEffectResponseView { sound_name, sound_category, x, y, z, volume, pitch }, s7))
                                                            },
                                                            None => None,
                                                        }
                                                    },
                                                    None => None,
                                                }
                                            },
                                            None => None,
                                        }
                                    },
                                    None => None,
                                }
                            },
                            None => None,
                        }
                    },
                    None => None,
                }
            },
            None => None,
        }
    }

    open spec fn serializable() -> bool {
        <&'x str as MD<'x>>::serializable() && <i32 as MD<'x>>::serializable() && <i32 as MD<'x>>::serializable() && <i32 as MD<'x>>::serializable() && <u32 as MD<'x>>::serializable() && <u32 as MD<'x>>::serializable()
    }

    open spec fn spec_header() -> Seq<u8> {
        varint_bytes(0x19)
    }

    open spec fn takes_rest() -> bool {
        false
    }

    open spec fn spec_serialize(v: NamedSoundEffectResponseView) -> Seq<u8> {
        <&'x str as MD<'x>>::spec_serialize(v.sound_name) + varint_bytes(v.sound_category as u32) + <i32 as MD<'x>>::spec_serialize(v.x) + <i32 as MD<'x>>::spec_serialize(v.y) + <i32 as MD<'x>>::spec_serialize(v.z) + <u32 as MD<'x>>::spec_serialize(v.volume) + <u32 as MD<'x>>::spec_serialize(v.pitch)
    }

    open spec fn encodable(v: NamedSoundEffectResponseView) -> bool {
        Self::serializable() && <&'x str as MD<'x>>::encodable(v.sound_name) && <i32 as MD<'x>>::encodable(v.x) && <i32 as MD<'x>>::encodable(v.y) && <i32 as MD<'x>>::encodable(v.z) && <u32 as MD<'x>>::encodable(v.volume) && <u32 as MD<'x>>::encodable(v.pitch)
    }

    proof fn lemma_roundtrip(v: NamedSoundEffectResponseView, rest: Seq<u8>) {
        let b0 = <&'x str as MD<'x>>::spec_serialize(v.sound_name);
        let b1 = varint_bytes(v.sound_category as u32);
        let b2 = <i32 as MD<'x>>::spec_serialize(v.x);
        let b3 = <i32 as MD<'x>>::spec_serialize(v.y);
        let b4 = <i32 as MD<'x>>::spec_serialize(v.z);
        let b5 = <u32 as MD<'x>>::spec_serialize(v.volume);
        let b6 = <u32 as MD<'x>>::spec_serialize(v.pitch);
        let t7 = rest;
        let t6 = b6 + t7;
        let t5 = b5 + t6;
        let t4 = b4 + t5;
        let t3 = b3 + t4;
        let t2 = b2 + t3;
        let t1 = b1 + t2;
        let t0 = b0 + t1;
        lemma_concat_associative(b0 + b1 + b2 + b3 + b4 + b5, b6, t7);
        lemma_concat_associative(b0 + b1 + b2 + b3 + b4, b5, t6);
        lemma_concat_associative(b0 + b1 + b2 + b3, b4, t5);
        lemma_concat_associative(b0 + b1 + b2, b3, t4);
        lemma_concat_associative(b0 + b1, b2, t3);
        lemma_concat_associative(b0, b1, t2);
        <&'x str as MD<'x>>::lemma_roundtrip(v.sound_name, t1);
        lemma_varint_field_roundtrip(v.sound_category, t2);
        <i32 as MD<'x>>::lemma_roundtrip(v.x, t3);
        <i32 as MD<'x>>::lemma_roundtrip(v.y, t4);
        <i32 as MD<'x>>::lemma_roundtrip(v.z, t5);
        <u32 as MD<'x>>::lemma_roundtrip(v.volume, t6);
        <u32 as MD<'x>>::lemma_roundtrip(v.pitch, t7);
    }

    fn deserialize(memory: &mut &'x [u8]) -> (res: Result<NamedSoundEffectResponse<'x>, ParseError>) {
        let sound_name: &'x str = <&'x str as MD<'x>>::deserialize(memory)?;
        let sound_category: i32 = read_varint(memory)?;
        let x: i32 = <i32 as MD<'x>>::deserialize(memory)?;
        let y: i32 = <i32 as MD<'x>>::deserialize(memory)?;
        let z: i32 = <i32 as MD<'x>>::deserialize(memory)?;
        let volume: u32 = <u32 as MD<'x>>::deserialize(memory)?;
        let pitch: u32 = <u32 as MD<'x>>::deserialize(memory)?;
        Ok(NamedSoundEffectResponse { sound_name, sound_category, x, y, z, volume, pitch })
    }

    fn serialize(&self, writer: &mut Vec<u8>) {
        let ghost v = self.deep_view();
        write_varint(writer, 0x19);
        let ghost a = writer@;
        assert(old(writer)@ + Self::spec_header() =~= a);
        self.sound_name.serialize(writer);
        proof {
            lemma_write_after_header(a, <&'x str as MD<'x>>::spec_header(), <&'x str as MD<'x>>::spec_serialize(v.sound_name));
        }
        write_varint(writer, self.sound_category as u32);
        proof {
            lemma_concat_associative(a, <&'x str as MD<'x>>::spec_serialize(v.sound_name), varint_bytes(v.sound_category as u32));
        }
        self.x.serialize(writer);
        proof {
            lemma_write_next(a, <&'x str as MD<'x>>::spec_serialize(v.sound_name) + varint_bytes(v.sound_category as u32), <i32 as MD<'x>>::spec_header(), <i32 as MD<'x>>::spec_serialize(v.x));
        }
        self.y.serialize(writer);
        proof {
            lemma_write_next(a, <&'x str as MD<'x>>::spec_serialize(v.sound_name) + varint_bytes(v.sound_category as u32) + <i32 as MD<'x>>::spec_serialize(v.x), <i32 as MD<'x>>::spec_header(), <i32 as MD<'x>>::spec_serialize(v.y));
        }
        self.z.serialize(writer);
        proof {
            lemma_write_next(a, <&'x str as MD<'x>>::spec_serialize(v.sound_name) + varint_bytes(v.sound_category as u32) + <i32 as MD<'x>>::spec_serialize(v.x) + <i32 as MD<'x>>::spec_serialize(v.y), <i32 as MD<'x>>::spec_header(), <i32 as MD<'x>>::spec_serialize(v.z));
        }
        self.volume.serialize(writer);
        proof {
            lemma_write_next(a, <&'x str as MD<'x>>::spec_serialize(v.sound_name) + varint_bytes(v.sound_category as u32) + <i32 as MD<'x>>::spec_serialize(v.x) + <i32 as MD<'x>>::spec_serialize(v.y) + <i32 as MD<'x>>::spec_serialize(v.z), <u32 as MD<'x>>::spec_header(), <u32 as MD<'x>>::spec_serialize(v.volume));
        }
        self.pitch.serialize(writer);
        proof {
            lemma_write_next(a, <&'x str as MD<'x>>::spec_serialize(v.sound_name) + varint_bytes(v.sound_category as u32) + <i32 as MD<'x>>::spec_serialize(v.x) + <i32 as MD<'x>>::spec_serialize(v.y) + <i32 as MD<'x>>::spec_serialize(v.z) + <u32 as MD<'x>>::spec_serialize(v.volume), <u32 as MD<'x>>::spec_header(), <u32 as MD<'x>>::spec_serialize(v.pitch));
        }
    }
}

/// Packet `0x1a` of the play state, sent by the server.
#[derive(Debug)]
pub struct KickDisconnectResponse<'x> {
    pub reason: &'x str,
}

/// What a `KickDisconnectResponse` holds.
pub struct KickDisconnectResponseView {
    pub reason: Seq<char>,
}

impl<'x> DeepView for KickDisconnectResponse<'x> {
    type V = KickDisconnectResponseView;

    open spec fn deep_view(&self) -> KickDisconnectResponseView {
        KickDisconnectResponseView { reason: self.reason.deep_view() }
    }
}

impl<'x> MD<'x> for KickDisconnectResponse<'x> {
    open spec fn spec_deserialize(s0: Seq<u8>) -> Option<(KickDisconnectResponseView, Seq<u8>)> {
        match <&'x str as MD<'x>>::spec_deserialize(s0) {
            Some((reason, s1)) => {
                Some((KickDisconnectResponseView { reason }, s1))
            },
            None => None,
        }
    }

    open spec fn serializable() -> bool {
        <&'x str as MD<'x>>::serializable()
    }

    open spec fn spec_header() -> Seq<u8> {
        varint_bytes(0x1a)
    }

    open spec fn takes_rest() -> bool {
        false
    }

    open spec fn spec_serialize(v: KickDisconnectResponseView) -> Seq<u8> {
        <&'x str as MD<'x>>::spec_serialize(v.reason)
    }

    open spec fn encodable(v: KickDisconnectResponseView) -> bool {
        Self::serializable() && <&'x str as MD<'x>>::encodable(v.reason)
    }

    proof fn lemma_roundtrip(v: KickDisconnectResponseView, rest: Seq<u8>) {
        let b0 = <&'x str as MD<'x>>::spec_serialize(v.reason);
        let t1 = rest;
        let t0 = b0 + t1;
        assert(Self::spec_serialize(v) + rest == t0);
        <&'x str as MD<'x>>::lemma_roundtrip(v.reason, t1);
    }

    fn deserialize(memory: &mut &'x [u8]) -> (res: Result<KickDisconnectResponse<'x>, ParseError>) {
        let reason: &'x str = <&'x str as MD<'x>>::deserialize(memory)?;
        Ok(KickDisconnectResponse { reason })
    }

    fn serialize(&self, writer: &mut Vec<u8>) {
        let ghost v = self.deep_view();
        write_varint(writer, 0x1a);
        let ghost a = writer@;
        assert(old(writer)@ + Self::spec_header() =~= a);
        self.reason.serialize(writer);
        proof {
            lemma_write_after_header(a, <&'x str as MD<'x>>::spec_header(), <&'x str as MD<'x>>::spec_serialize(v.reason));
        }
    }
}

/// Packet `0x1b` of the play state, sent by the server.
#[derive(Debug)]
pub struct EntityStatusResponse {
    pub entity_id: i32,
    pub entity_status: i8,
}

impl DeepView for EntityStatusResponse {
    type V = EntityStatusResponse;

    open spec fn deep_view(&self) -> EntityStatusResponse {
        *self
    }
}

impl<'x> MD<'x> for EntityStatusResponse {
    open spec fn spec_deserialize(s0: Seq<u8>) -> Option<(EntityStatusResponse, Seq<u8>)> {
        match <i32 as MD<'x>>::spec_deserialize(s0) {
            Some((entity_id, s1)) => {
                match <i8 as MD<'x>>::spec_deserialize(s1) {
                    Some((entity_status, s2)) => {
                        Some((EntityStatusResponse { entity_id, entity_status }, s2))
                    },
                    None => None,
                }
            },
            None => None,
        }
    }

    open spec fn serializable() -> bool {
        <i32 as MD<'x>>::serializable() && <i8 as MD<'x>>::serializable()
    }

    open spec fn spec_header() -> Seq<u8> {
        varint_bytes(0x1b)
    }

    open spec fn takes_rest() -> bool {
        false
    }

    open spec fn spec_serialize(v: EntityStatusResponse) -> Seq<u8> {
        <i32 as MD<'x>>::spec_serialize(v.entity_id) + <i8 as MD<'x>>::spec_serialize(v.entity_status)
    }

    open spec fn encodable(v: EntityStatusResponse) -> bool {
        Self::serializable() && <i32 as MD<'x>>::encodable(v.entity_id) && <i8 as MD<'x>>::encodable(v.entity_status)
    }

    proof fn lemma_roundtrip(v: EntityStatusResponse, rest: Seq<u8>) {
        let b0 = <i32 as MD<'x>>::spec_serialize(v.entity_id);
        let b1 = <i8 as MD<'x>>::spec_serialize(v.entity_status);
        let t2 = rest;
        let t1 = b1 + t2;
        let t0 = b0 + t1;
        lemma_concat_associative(b0, b1, t2);
        <i32 as MD<'x>>::lemma_roundtrip(v.entity_id, t1);
        <i8 as MD<'x>>::lemma_roundtrip(v.entity_status, t2);
    }

    fn deserialize(memory: &mut &'x [u8]) -> (res: Result<EntityStatusResponse, ParseError>) {
        let entity_id: i32 = <i32 as MD<'x>>::deserialize(memory)?;
        let entity_status: i8 = <i8 as MD<'x>>::deserialize(memory)?;
        Ok(EntityStatusResponse { entity_id, entity_status })
    }

    fn serialize(&self, writer: &mut Vec<u8>) {
        let ghost v = self.deep_view();
        write_varint(writer, 0x1b);
        let ghost a = writer@;
        assert(old(writer)@ + Self::spec_header() =~= a);
        self.entity_id.serialize(writer);
        proof {
            lemma_write_after_header(a, <i32 as MD<'x>>::spec_header(), <i32 as MD<'x>>::spec_serialize(v.entity_id));
        }
        self.entity_status.serialize(writer);
        proof {
            lemma_write_next(a, <i32 as MD<'x>>::spec_serialize(v.entity_id), <i8 as MD<'x>>::spec_header(), <i8 as MD<'x>>::spec_serialize(v.entity_status));
        }
    }
}

#[derive(Debug)]
pub struct ExplosionResponse_AffectedBlockOffsets {
    pub x: i8,
    pub y: i8,
    pub z: i8,
}

impl DeepView for ExplosionResponse_AffectedBlockOffsets {
    type V = ExplosionResponse_AffectedBlockOffsets;

    open spec fn deep_view(&self) -> ExplosionResponse_AffectedBlockOffsets {
        *self
    }
}

impl<'x> MD<'x> for ExplosionResponse_AffectedBlockOffsets {
    open spec fn spec_deserialize(s0: Seq<u8>) -> Option<(ExplosionResponse_AffectedBlockOffsets, Seq<u8>)> {
        match <i8 as MD<'x>>::spec_deserialize(s0) {
            Some((x, s1)) => {
                match <i8 as MD<'x>>::spec_deserialize(s1) {
                    Some((y, s2)) => {
                        match <i8 as MD<'x>>::spec_deserialize(s2) {
                            Some((z, s3)) => {
                                Some((ExplosionResponse_AffectedBlockOffsets { x, y, z }, s3))
                            },
                            None => None,
                        }
                    },
                    None => None,
                }
            },
            None => None,
        }
    }

    open spec fn serializable() -> bool {
        <i8 as MD<'x>>::serializable() && <i8 as MD<'x>>::serializable() && <i8 as MD<'x>>::serializable()
    }

    open spec fn spec_header() -> Seq<u8> {
        Seq::empty()
    }

    open spec fn takes_rest() -> bool {
        false
    }

    open spec fn spec_serialize(v: ExplosionResponse_AffectedBlockOffsets) -> Seq<u8> {
        <i8 as MD<'x>>::spec_serialize(v.x) + <i8 as MD<'x>>::spec_serialize(v.y) + <i8 as MD<'x>>::spec_serialize(v.z)
    }

    open spec fn encodable(v: ExplosionResponse_AffectedBlockOffsets) -> bool {
        Self::serializable() && <i8 as MD<'x>>::encodable(v.x) && <i8 as MD<'x>>::encodable(v.y) && <i8 as MD<'x>>::encodable(v.z)
    }

    proof fn lemma_roundtrip(v: ExplosionResponse_AffectedBlockOffsets, rest: Seq<u8>) {
        let b0 = <i8 as MD<'x>>::spec_serialize(v.x);
        let b1 = <i8 as MD<'x>>::spec_serialize(v.y);
        let b2 = <i8 as MD<'x>>::spec_serialize(v.z);
        let t3 = rest;
        let t2 = b2 + t3;
        let t1 = b1 + t2;
        let t0 = b0 + t1;
        lemma_concat_associative(b0 + b1, b2, t3);
        lemma_concat_associative(b0, b1, t2);
        <i8 as MD<'x>>::lemma_roundtrip(v.x, t1);
        <i8 as MD<'x>>::lemma_roundtrip(v.y, t2);
        <i8 as MD<'x>>::lemma_roundtrip(v.z, t3);
    }

    fn deserialize(memory: &mut &'x [u8]) -> (res: Result<ExplosionResponse_AffectedBlockOffsets, ParseError>) {
        let x: i8 = <i8 as MD<'x>>::deserialize(memory)?;
        let y: i8 = <i8 as MD<'x>>::deserialize(memory)?;
        let z: i8 = <i8 as MD<'x>>::deserialize(memory)?;
        Ok(ExplosionResponse_AffectedBlockOffsets { x, y, z })
    }

    fn serialize(&self, writer: &mut Vec<u8>) {
        let ghost v = self.deep_view();
        let ghost a = writer@;
        assert(old(writer)@ + Self::spec_header() =~= a);
        self.x.serialize(writer);
        proof {
            lemma_write_after_header(a, <i8 as MD<'x>>::spec_header(), <i8 as MD<'x>>::spec_serialize(v.x));
        }
        self.y.serialize(writer);
        proof {
            lemma_write_next(a, <i8 as MD<'x>>::spec_serialize(v.x), <i8 as MD<'x>>::spec_header(), <i8 as MD<'x>>::spec_serialize(v.y));
        }
        self.z.serialize(writer);
        proof {
            lemma_write_next(a, <i8 as MD<'x>>::spec_serialize(v.x) + <i8 as MD<'x>>::spec_serialize(v.y), <i8 as MD<'x>>::spec_header(), <i8 as MD<'x>>::spec_serialize(v.z));
        }
    }
}

/// Packet `0x1c` of the play state, sent by the server.
#[derive(Debug)]
pub struct ExplosionResponse {
    /// The IEEE 754 bits of the `f32` value.
    pub x: u32,
    /// The IEEE 754 bits of the `f32` value.
    pub y: u32,
    /// The IEEE 754 bits of the `f32` value.
    pub z: u32,
    /// The IEEE 754 bits of the `f32` value.
    pub radius: u32,
    pub affected_block_offsets: Vec<ExplosionResponse_AffectedBlockOffsets>,
    /// The IEEE 754 bits of the `f32` value.
    pub player_motion_x: u32,
    /// The IEEE 754 bits of the `f32` value.
    pub player_motion_y: u32,
    /// The IEEE 754 bits of the `f32` value.
    pub player_motion_z: u32,
}

/// What a `ExplosionResponse` holds.
pub struct ExplosionResponseView {
    pub x: u32,
    pub y: u32,
    pub z: u32,
    pub radius: u32,
    pub affected_block_offsets: Seq<ExplosionResponse_AffectedBlockOffsets>,
    pub player_motion_x: u32,
    pub player_motion_y: u32,
    pub player_motion_z: u32,
}

impl<'x> DeepView for ExplosionResponse {
    type V = ExplosionResponseView;

    open spec fn deep_view(&self) -> ExplosionResponseView {
        ExplosionResponseView { x: self.x, y: self.y, z: self.z, radius: self.radius, affected_block_offsets: self.affected_block_offsets.deep_view(), player_motion_x: self.player_motion_x, player_motion_y: self.player_motion_y, player_motion_z: self.player_motion_z }
    }
}

impl<'x> MD<'x> for ExplosionResponse {
    open spec fn spec_deserialize(s0: Seq<u8>) -> Option<(ExplosionResponseView, Seq<u8>)> {
        match <u32 as MD<'x>>::spec_deserialize(s0) {
            Some((x, s1)) => {
                match <u32 as MD<'x>>::spec_deserialize(s1) {
                    Some((y, s2)) => {
                        match <u32 as MD<'x>>::spec_deserialize(s2) {
                            Some((z, s3)) => {
                                match <u32 as MD<'x>>::spec_deserialize(s3) {
                                    Some((radius, s4)) => {
                                        match varint_field(s4) {
                                            Some((affected_block_offsets_count, s5)) => {
                                                match spec_array::<'x, ExplosionResponse_AffectedBlockOffsets>(s5, affected_block_offsets_count as int) {
                                                    Some((affected_block_offsets, s6)) => {
                                                        match <u32 as MD<'x>>::spec_deserialize(s6) {
                                                            Some((player_motion_x, s7)) => {
                                                                match <u32 as MD<'x>>::spec_deserialize(s7) {
                                                                    Some((player_motion_y, s8)) => {
                                                                        match <u32 as MD<'x>>::spec_deserialize(s8) {
                                                                            Some((player_motion_z, s9)) => {
                                                                                Some((ExplosionResponseView { x, y, z, radius, affected_block_offsets, player_motion_x, player_motion_y, player_motion_z }, s9))
                                                                            },
                                                                            None => None,
                                                                        }
                                                                    },
                                                                    None => None,
                                                                }
                                                            },
                                                            None => None,
                                                        }
                                                    },
                                                    None => None,
                                                }
                                            },
                                            None => None,
                                        }
                                    },
                                    None => None,
                                }
                            },
                            None => None,
                        }
                    },
                    None => None,
                }
            },
            None => None,
        }
    }

    open spec fn serializable() -> bool {
        false
    }

    open spec fn spec_header() -> Seq<u8> {
        Seq::empty()
    }

    open spec fn takes_rest() -> bool {
        false
    }

    open spec fn spec_serialize(v: ExplosionResponseView) -> Seq<u8> {
        Seq::empty()
    }

    open spec fn encodable(v: ExplosionResponseView) -> bool {
        Self::serializable()
    }

    proof fn lemma_roundtrip(v: ExplosionResponseView, rest: Seq<u8>) {
    }

    fn deserialize(memory: &mut &'x [u8]) -> (res: Result<ExplosionResponse, ParseError>) {
        let x: u32 = <u32 as MD<'x>>::deserialize(memory)?;
        let y: u32 = <u32 as MD<'x>>::deserialize(memory)?;
        let z: u32 = <u32 as MD<'x>>::deserialize(memory)?;
        let radius: u32 = <u32 as MD<'x>>::deserialize(memory)?;
        let affected_block_offsets_count: i32 = read_varint(memory)?;
        let affected_block_offsets: Vec<ExplosionResponse_AffectedBlockOffsets> = read_array(memory, affected_block_offsets_count)?;
        let player_motion_x: u32 = <u32 as MD<'x>>::deserialize(memory)?;
        let player_motion_y: u32 = <u32 as MD<'x>>::deserialize(memory)?;
        let player_motion_z: u32 = <u32 as MD<'x>>::deserialize(memory)?;
        Ok(ExplosionResponse { x, y, z, radius, affected_block_offsets, player_motion_x, player_motion_y, player_motion_z })
    }

    fn serialize(&self, writer: &mut Vec<u8>) {
    }
}

/// Packet `0x1d` of the play state, sent by the server.
#[derive(Debug)]
pub struct UnloadChunkResponse {
    pub chunk_x: i32,
    pub chunk_z: i32,
}

impl DeepView for UnloadChunkResponse {
    type V = UnloadChunkResponse;

    open spec fn deep_view(&self) -> UnloadChunkResponse {
        *self
    }
}

impl<'x> MD<'x> for UnloadChunkResponse {
    open spec fn spec_deserialize(s0: Seq<u8>) -> Option<(UnloadChunkResponse, Seq<u8>)> {
        match <i32 as MD<'x>>::spec_deserialize(s0) {
            Some((chunk_x, s1)) => {
                match <i32 as MD<'x>>::spec_deserialize(s1) {
                    Some((chunk_z, s2)) => {
                        Some((UnloadChunkResponse { chunk_x, chunk_z }, s2))
                    },
                    None => None,
                }
            },
            None => None,
        }
    }

    open spec fn serializable() -> bool {
        <i32 as MD<'x>>::serializable() && <i32 as MD<'x>>::serializable()
    }

    open spec fn spec_header() -> Seq<u8> {
        varint_bytes(0x1d)
    }

    open spec fn takes_rest() -> bool {
        false
    }

    open spec fn spec_serialize(v: UnloadChunkResponse) -> Seq<u8> {
        <i32 as MD<'x>>::spec_serialize(v.chunk_x) + <i32 as MD<'x>>::spec_serialize(v.chunk_z)
    }

    open spec fn encodable(v: UnloadChunkResponse) -> bool {
        Self::serializable() && <i32 as MD<'x>>::encodable(v.chunk_x) && <i32 as MD<'x>>::encodable(v.chunk_z)
    }

    proof fn lemma_roundtrip(v: UnloadChunkResponse, rest: Seq<u8>) {
        let b0 = <i32 as MD<'x>>::spec_serialize(v.chunk_x);
        let b1 = <i32 as MD<'x>>::spec_serialize(v.chunk_z);
        let t2 = rest;
        let t1 = b1 + t2;
        let t0 = b0 + t1;
        lemma_concat_associative(b0, b1, t2);
        <i32 as MD<'x>>::lemma_roundtrip(v.chunk_x, t1);
        <i32 as MD<'x>>::lemma_roundtrip(v.chunk_z, t2);
    }

    fn deserialize(memory: &mut &'x [u8]) -> (res: Result<UnloadChunkResponse, ParseError>) {
        let chunk_x: i32 = <i32 as MD<'x>>::deserialize(memory)?;
        let chunk_z: i32 = <i32 as MD<'x>>::deserialize(memory)?;
        Ok(UnloadChunkResponse { chunk_x, chunk_z })
    }

    fn serialize(&self, writer: &mut Vec<u8>) {
        let ghost v = self.deep_view();
        write_varint(writer, 0x1d);
        let ghost a = writer@;
        assert(old(writer)@ + Self::spec_header() =~= a);
        self.chunk_x.serialize(writer);
        proof {
            lemma_write_after_header(a, <i32 as MD<'x>>::spec_header(), <i32 as MD<'x>>::spec_serialize(v.chunk_x));
        }
        self.chunk_z.serialize(writer);
        proof {
            lemma_write_next(a, <i32 as MD<'x>>::spec_serialize(v.chunk_x), <i32 as MD<'x>>::spec_header(), <i32 as MD<'x>>::spec_serialize(v.chunk_z));
        }
    }
}

/// Packet `0x1e` of the play state, sent by the server.
#[derive(Debug)]
pub struct GameStateChangeResponse {
    pub reason: u8,
    /// The IEEE 754 bits of the `f32` value.
    pub game_mode: u32,
}

impl DeepView for GameStateChangeResponse {
    type V = GameStateChangeResponse;

    open spec fn deep_view(&self) -> GameStateChangeResponse {
        *self
    }
}

impl<'x> MD<'x> for GameStateChangeResponse {
    open spec fn spec_deserialize(s0: Seq<u8>) -> Option<(GameStateChangeResponse, Seq<u8>)> {
        match <u8 as MD<'x>>::spec_deserialize(s0) {
            Some((reason, s1)) => {
                match <u32 as MD<'x>>::spec_deserialize(s1) {
                    Some((game_mode, s2)) => {
                        Some((GameStateChangeResponse { reason, game_mode }, s2))
                    },
                    None => None,
                }
            },
            None => None,
        }
    }

    open spec fn serializable() -> bool {
        <u8 as MD<'x>>::serializable() && <u32 as MD<'x>>::serializable()
    }

    open spec fn spec_header() -> Seq<u8> {
        varint_bytes(0x1e)
    }

    open spec fn takes_rest() -> bool {
        false
    }

    open spec fn spec_serialize(v: GameStateChangeResponse) -> Seq<u8> {
        <u8 as MD<'x>>::spec_serialize(v.reason) + <u32 as MD<'x>>::spec_serialize(v.game_mode)
    }

    open spec fn encodable(v: GameStateChangeResponse) -> bool {
        Self::serializable() && <u8 as MD<'x>>::encodable(v.reason) && <u32 as MD<'x>>::encodable(v.game_mode)
    }

    proof fn lemma_roundtrip(v: GameStateChangeResponse, rest: Seq<u8>) {
        let b0 = <u8 as MD<'x>>::spec_serialize(v.reason);
        let b1 = <u32 as MD<'x>>::spec_serialize(v.game_mode);
        let t2 = rest;
        let t1 = b1 + t2;
        let t0 = b0 + t1;
        lemma_concat_associative(b0, b1, t2);
        <u8 as MD<'x>>::lemma_roundtrip(v.reason, t1);
        <u32 as MD<'x>>::lemma_roundtrip(v.game_mode, t2);
    }

    fn deserialize(memory: &mut &'x [u8]) -> (res: Result<GameStateChangeResponse, ParseError>) {
        let reason: u8 = <u8 as MD<'x>>::deserialize(memory)?;
        let game_mode: u32 = <u32 as MD<'x>>::deserialize(memory)?;
        Ok(GameStateChangeResponse { reason, game_mode })
    }

    fn serialize(&self, writer: &mut Vec<u8>) {
        let ghost v = self.deep_view();
        write_varint(writer, 0x1e);
        let ghost a = writer@;
        assert(old(writer)@ + Self::spec_header() =~= a);
        self.reason.serialize(writer);
        proof {
            lemma_write_after_header(a, <u8 as MD<'x>>::spec_header(), <u8 as MD<'x>>::spec_serialize(v.reason));
        }
        self.game_mode.serialize(writer);
        proof {
            lemma_write_next(a, <u8 as MD<'x>>::spec_serialize(v.reason), <u32 as MD<'x>>::spec_header(), <u32 as MD<'x>>::spec_serialize(v.game_mode));
        }
    }
}

/// Packet `0x1f` of the play state, sent by the server.
#[derive(Debug)]
pub struct OpenHorseWindowResponse {
    pub window_id: u8,
    pub nb_slots: i32,
    pub entity_id: i32,
}

impl DeepView for OpenHorseWindowResponse {
    type V = OpenHorseWindowResponse;

    open spec fn deep_view(&self) -> OpenHorseWindowResponse {
        *self
    }
}

impl<'x> MD<'x> for OpenHorseWindowResponse {
    open spec fn spec_deserialize(s0: Seq<u8>) -> Option<(OpenHorseWindowResponse, Seq<u8>)> {
        match <u8 as MD<'x>>::spec_deserialize(s0) {
            Some((window_id, s1)) => {
                match varint_field(s1) {
                    Some((nb_slots, s2)) => {
                        match <i32 as MD<'x>>::spec_deserialize(s2) {
                            Some((entity_id, s3)) => {
                                Some((OpenHorseWindowResponse { window_id, nb_slots, entity_id }, s3))
                            },
                            None => None,
                        }
                    },
                    None => None,
                }
            },
            None => None,
        }
    }

    open spec fn serializable() -> bool {
        <u8 as MD<'x>>::serializable() && <i32 as MD<'x>>::serializable()
    }

    open spec fn spec_header() -> Seq<u8> {
        varint_bytes(0x1f)
    }

    open spec fn takes_rest() -> bool {
        false
    }

    open spec fn spec_serialize(v: OpenHorseWindowResponse) -> Seq<u8> {
        <u8 as MD<'x>>::spec_serialize(v.window_id) + varint_bytes(v.nb_slots as u32) + <i32 as MD<'x>>::spec_serialize(v.entity_id)
    }

    open spec fn encodable(v: OpenHorseWindowResponse) -> bool {
        Self::serializable() && <u8 as MD<'x>>::encodable(v.window_id) && <i32 as MD<'x>>::encodable(v.entity_id)
    }

    proof fn lemma_roundtrip(v: OpenHorseWindowResponse, rest: Seq<u8>) {
        let b0 = <u8 as MD<'x>>::spec_serialize(v.window_id);
        let b1 = varint_bytes(v.nb_slots as u32);
        let b2 = <i32 as MD<'x>>::spec_serialize(v.entity_id);
        let t3 = rest;
        let t2 = b2 + t3;
        let t1 = b1 + t2;
        let t0 = b0 + t1;
        lemma_concat_associative(b0 + b1, b2, t3);
        lemma_concat_associative(b0, b1, t2);
        <u8 as MD<'x>>::lemma_roundtrip(v.window_id, t1);
        lemma_varint_field_roundtrip(v.nb_slots, t2);
        <i32 as MD<'x>>::lemma_roundtrip(v.entity_id, t3);
    }

    fn deserialize(memory: &mut &'x [u8]) -> (res: Result<OpenHorseWindowResponse, ParseError>) {
        let window_id: u8 = <u8 as MD<'x>>::deserialize(memory)?;
        let nb_slots: i32 = read_varint(memory)?;
        let entity_id: i32 = <i32 as MD<'x>>::deserialize(memory)?;
        Ok(OpenHorseWindowResponse { window_id, nb_slots, entity_id })
    }

    fn serialize(&self, writer: &mut Vec<u8>) {
        let ghost v = self.deep_view();
        write_varint(writer, 0x1f);
        let ghost a = writer@;
        assert(old(writer)@ + Self::spec_header() =~= a);
        self.window_id.serialize(writer);
        proof {
            lemma_write_after_header(a, <u8 as MD<'x>>::spec_header(), <u8 as MD<'x>>::spec_serialize(v.window_id));
        }
        write_varint(writer, self.nb_slots as u32);
        proof {
            lemma_concat_associative(a, <u8 as MD<'x>>::spec_serialize(v.window_id), varint_bytes(v.nb_slots as u32));
        }
        self.entity_id.serialize(writer);
        proof {
            lemma_write_next(a, <u8 as MD<'x>>::spec_serialize(v.window_id) + varint_bytes(v.nb_slots as u32), <i32 as MD<'x>>::spec_header(), <i32 as MD<'x>>::spec_serialize(v.entity_id));
        }
    }
}

/// Packet `0x21` of the play state, sent by the server.
#[derive(Debug)]
pub struct KeepAliveResponse {
    pub keep_alive_id: i64,
}

impl DeepView for KeepAliveResponse {
    type V = KeepAliveResponse;

    open spec fn deep_view(&self) -> KeepAliveResponse {
        *self
    }
}

impl<'x> MD<'x> for KeepAliveResponse {
    open spec fn spec_deserialize(s0: Seq<u8>) -> Option<(KeepAliveResponse, Seq<u8>)> {
        match <i64 as MD<'x>>::spec_deserialize(s0) {
            Some((keep_alive_id, s1)) => {
                Some((KeepAliveResponse { keep_alive_id }, s1))
            },
            None => None,
        }
    }

    open spec fn serializable() -> bool {
        <i64 as MD<'x>>::serializable()
    }

    open spec fn spec_header() -> Seq<u8> {
        varint_bytes(0x21)
    }

    open spec fn takes_rest() -> bool {
        false
    }

    open spec fn spec_serialize(v: KeepAliveResponse) -> Seq<u8> {
        <i64 as MD<'x>>::spec_serialize(v.keep_alive_id)
    }

    open spec fn encodable(v: KeepAliveResponse) -> bool {
        Self::serializable() && <i64 as MD<'x>>::encodable(v.keep_alive_id)
    }

    proof fn lemma_roundtrip(v: KeepAliveResponse, rest: Seq<u8>) {
        let b0 = <i64 as MD<'x>>::spec_serialize(v.keep_alive_id);
        let t1 = rest;
        let t0 = b0 + t1;
        assert(Self::spec_serialize(v) + rest == t0);
        <i64 as MD<'x>>::lemma_roundtrip(v.keep_alive_id, t1);
    }

    fn deserialize(memory: &mut &'x [u8]) -> (res: Result<KeepAliveResponse, ParseError>) {
        let keep_alive_id: i64 = <i64 as MD<'x>>::deserialize(memory)?;
        Ok(KeepAliveResponse { keep_alive_id })
    }

    fn serialize(&self, writer: &mut Vec<u8>) {
        let ghost v = self.deep_view();
        write_varint(writer, 0x21);
        let ghost a = writer@;
        assert(old(writer)@ + Self::spec_header() =~= a);
        self.keep_alive_id.serialize(writer);
        proof {
            lemma_write_after_header(a, <i64 as MD<'x>>::spec_header(), <i64 as MD<'x>>::spec_serialize(v.keep_alive_id));
        }
    }
}

/// Packet `0x22` of the play state, sent by the server.
#[derive(Debug)]
pub struct MapChunkResponse<'x> {
    pub x: i32,
    pub z: i32,
    pub heightmaps: IndexedNbt<'x>,
    pub chunk_data: &'x [u8],
    pub block_entities: Vec<ChunkBlockEntity<'x>>,
    pub trust_edges: bool,
    pub sky_light_mask: UnalignedSliceI64<'x>,
    pub block_light_mask: UnalignedSliceI64<'x>,
    pub empty_sky_light_mask: UnalignedSliceI64<'x>,
    pub empty_block_light_mask: UnalignedSliceI64<'x>,
    pub sky_light: Vec<&'x [u8]>,
    pub block_light: Vec<&'x [u8]>,
}

/// What a `MapChunkResponse` holds.
pub struct MapChunkResponseView {
    pub x: i32,
    pub z: i32,
    pub heightmaps: Seq<u8>,
    pub chunk_data: Seq<u8>,
    pub block_entities: Seq<ChunkBlockEntityView>,
    pub trust_edges: bool,
    pub sky_light_mask: Seq<i64>,
    pub block_light_mask: Seq<i64>,
    pub empty_sky_light_mask: Seq<i64>,
    pub empty_block_light_mask: Seq<i64>,
    pub sky_light: Seq<Seq<u8>>,
    pub block_light: Seq<Seq<u8>>,
}

impl<'x> DeepView for MapChunkResponse<'x> {
    type V = MapChunkResponseView;

    open spec fn deep_view(&self) -> MapChunkResponseView {
        MapChunkResponseView { x: self.x, z: self.z, heightmaps: self.heightmaps.deep_view(), chunk_data: self.chunk_data.deep_view(), block_entities: self.block_entities.deep_view(), trust_edges: self.trust_edges, sky_light_mask: self.sky_light_mask.deep_view(), block_light_mask: self.block_light_mask.deep_view(), empty_sky_light_mask: self.empty_sky_light_mask.deep_view(), empty_block_light_mask: self.empty_block_light_mask.deep_view(), sky_light: self.sky_light.deep_view(), block_light: self.block_light.deep_view() }
    }
}

impl<'x> MD<'x> for MapChunkResponse<'x> {
    open spec fn spec_deserialize(s0: Seq<u8>) -> Option<(MapChunkResponseView, Seq<u8>)> {
        match <i32 as MD<'x>>::spec_deserialize(s0) {
            Some((x, s1)) => {
                match <i32 as MD<'x>>::spec_deserialize(s1) {
                    Some((z, s2)) => {
                        match <IndexedNbt<'x> as MD<'x>>::spec_deserialize(s2) {
                            Some((heightmaps, s3)) => {
                                match <&'x [u8] as MD<'x>>::spec_deserialize(s3) {
                                    Some((chunk_data, s4)) => {
                                        match varint_field(s4) {
                                            Some((block_entities_count, s5)) => {
                                                match spec_array::<'x, ChunkBlockEntity<'x>>(s5, block_entities_count as int) {
                                                    Some((block_entities, s6)) => {
                                                        match <bool as MD<'x>>::spec_deserialize(s6) {
                                                            Some((trust_edges, s7)) => {
                                                                match varint_field(s7) {
                                                                    Some((sky_light_mask_count, s8)) => {
                                                                        match spec_i64_slice(s8, sky_light_mask_count as int) {
                                                                            Some((sky_light_mask, s9)) => {
                                                                                match varint_field(s9) {
                                                                                    Some((block_light_mask_count, s10)) => {
                                                                                        match spec_i64_slice(s10, block_light_mask_count as int) {
                                                                                            Some((block_light_mask, s11)) => {
                                                                                                match varint_field(s11) {
                                                                                                    Some((empty_sky_light_mask_count, s12)) => {
                                                                                                        match spec_i64_slice(s12, empty_sky_light_mask_count as int) {
                                                                                                            Some((empty_sky_light_mask, s13)) => {
                                                                                                                match varint_field(s13) {
                                                                                                                    Some((empty_block_light_mask_count, s14)) => {
                                                                                                                        match spec_i64_slice(s14, empty_block_light_mask_count as int) {
                                                                                                                            Some((empty_block_light_mask, s15)) => {
                                                                                                                                match varint_field(s15) {
                                                                                                                                    Some((sky_light_count, s16)) => {
                                                                                                                                        match spec_array::<'x, &'x [u8]>(s16, sky_light_count as int) {
                                                                                                                                            Some((sky_light, s17)) => {
                                                                                                                                                match varint_field(s17) {
                                                                                                                                                    Some((block_light_count, s18)) => {
                                                                                                                                                        match spec_array::<'x, &'x [u8]>(s18, block_light_count as int) {
                                                                                                                                                            Some((block_light, s19)) => {
                                                                                                                                                                Some((MapChunkResponseView { x, z, heightmaps, chunk_data, block_entities, trust_edges, sky_light_mask, block_light_mask, empty_sky_light_mask, empty_block_light_mask, sky_light, block_light }, s19))
                                                                                                                                                            },
                                                                                                                                                            None => None,
                                                                                                                                                        }
                                                                                                                                                    },
                                                                                                                                                    None => None,
                                                                                                                                                }
                                                                                                                                            },
                                                                                                                                            None => None,
                                                                                                                                        }
                                                                                                                                    },
                                                                                                                                    None => None,
                                                                                                                                }
                                                                                                                            },
                                                                                                                            None => None,
                                                                                                                        }
                                                                                                                    },
                                                                                                                    None => None,
                                                                                                                }
                                                                                                            },
                                                                                                            None => None,
                                                                                                        }
                                                                                                    },
                                                                                                    None => None,
                                                                                                }
                                                                                            },
                                                                                            None => None,
                                                                                        }
                                                                                    },
                                                                                    None => None,
                                                                                }
                                                                            },
                                                                            None => None,
                                                                        }
                                                                    },
                                                                    None => None,
                                                                }
                                                            },
                                                            None => None,
                                                        }
                                                    },
                                                    None => None,
                                                }
                                            },
                                            None => None,
                                        }
                                    },
                                    None => None,
                                }
                            },
                            None => None,
                        }
                    },
                    None => None,
                }
            },
            None => None,
        }
    }

    open spec fn serializable() -> bool {
        false
    }

    open spec fn spec_header() -> Seq<u8> {
        Seq::empty()
    }

    open spec fn takes_rest() -> bool {
        false
    }

    open spec fn spec_serialize(v: MapChunkResponseView) -> Seq<u8> {
        Seq::empty()
    }

    open spec fn encodable(v: MapChunkResponseView) -> bool {
        Self::serializable()
    }

    proof fn lemma_roundtrip(v: MapChunkResponseView, rest: Seq<u8>) {
    }

    fn deserialize(memory: &mut &'x [u8]) -> (res: Result<MapChunkResponse<'x>, ParseError>) {
        let x: i32 = <i32 as MD<'x>>::deserialize(memory)?;
        let z: i32 = <i32 as MD<'x>>::deserialize(memory)?;
        let heightmaps: IndexedNbt<'x> = <IndexedNbt<'x> as MD<'x>>::deserialize(memory)?;
        let chunk_data: &'x [u8] = <&'x [u8] as MD<'x>>::deserialize(memory)?;
        let block_entities_count: i32 = read_varint(memory)?;
        let block_entities: Vec<ChunkBlockEntity<'x>> = read_array(memory, block_entities_count)?;
        let trust_edges: bool = <bool as MD<'x>>::deserialize(memory)?;
        let sky_light_mask_count: i32 = read_varint(memory)?;
        let sky_light_mask: UnalignedSliceI64<'x> = read_i64_slice(memory, sky_light_mask_count)?;
        let block_light_mask_count: i32 = read_varint(memory)?;
        let block_light_mask: UnalignedSliceI64<'x> = read_i64_slice(memory, block_light_mask_count)?;
        let empty_sky_light_mask_count: i32 = read_varint(memory)?;
        let empty_sky_light_mask: UnalignedSliceI64<'x> = read_i64_slice(memory, empty_sky_light_mask_count)?;
        let empty_block_light_mask_count: i32 = read_varint(memory)?;
        let empty_block_light_mask: UnalignedSliceI64<'x> = read_i64_slice(memory, empty_block_light_mask_count)?;
        let sky_light_count: i32 = read_varint(memory)?;
        let sky_light: Vec<&'x [u8]> = read_array(memory, sky_light_count)?;
        let block_light_count: i32 = read_varint(memory)?;
        let block_light: Vec<&'x [u8]> = read_array(memory, block_light_count)?;
        Ok(MapChunkResponse { x, z, heightmaps, chunk_data, block_entities, trust_edges, sky_light_mask, block_light_mask, empty_sky_light_mask, empty_block_light_mask, sky_light, block_light })
    }

    fn serialize(&self, writer: &mut Vec<u8>) {
    }
}

/// Packet `0x23` of the play state, sent by the server.
#[derive(Debug)]
pub struct WorldEventResponse {
    pub effect_id: i32,
    pub location: Position,
    pub data: i32,
    pub global: bool,
}

impl DeepView for WorldEventResponse {
    type V = WorldEventResponse;

    open spec fn deep_view(&self) -> WorldEventResponse {
        *self
    }
}

impl<'x> MD<'x> for WorldEventResponse {
    open spec fn spec_deserialize(s0: Seq<u8>) -> Option<(WorldEventResponse, Seq<u8>)> {
        match <i32 as MD<'x>>::spec_deserialize(s0) {
            Some((effect_id, s1)) => {
                match <Position as MD<'x>>::spec_deserialize(s1) {
                    Some((location, s2)) => {
                        match <i32 as MD<'x>>::spec_deserialize(s2) {
                            Some((data, s3)) => {
                                match <bool as MD<'x>>::spec_deserialize(s3) {
                                    Some((global, s4)) => {
                                        Some((WorldEventResponse { effect_id, location, data, global }, s4))
                                    },
                                    None => None,
                                }
                            },
                            None => None,
                        }
                    },
                    None => None,
                }
            },
            None => None,
        }
    }

    open spec fn serializable() -> bool {
        <i32 as MD<'x>>::serializable() && <Position as MD<'x>>::serializable() && <i32 as MD<'x>>::serializable() && <bool as MD<'x>>::serializable()
    }

    open spec fn spec_header() -> Seq<u8> {
        varint_bytes(0x23)
    }

    open spec fn takes_rest() -> bool {
        false
    }

    open spec fn spec_serialize(v: WorldEventResponse) -> Seq<u8> {
        <i32 as MD<'x>>::spec_serialize(v.effect_id) + <Position as MD<'x>>::spec_serialize(v.location) + <i32 as MD<'x>>::spec_serialize(v.data) + <bool as MD<'x>>::spec_serialize(v.global)
    }

    open spec fn encodable(v: WorldEventResponse) -> bool {
        Self::serializable() && <i32 as MD<'x>>::encodable(v.effect_id) && <Position as MD<'x>>::encodable(v.location) && <i32 as MD<'x>>::encodable(v.data) && <bool as MD<'x>>::encodable(v.global)
    }

    proof fn lemma_roundtrip(v: WorldEventResponse, rest: Seq<u8>) {
        let b0 = <i32 as MD<'x>>::spec_serialize(v.effect_id);
        let b1 = <Position as MD<'x>>::spec_serialize(v.location);
        let b2 = <i32 as MD<'x>>::spec_serialize(v.data);
        let b3 = <bool as MD<'x>>::spec_serialize(v.global);
        let t4 = rest;
        let t3 = b3 + t4;
        let t2 = b2 + t3;
        let t1 = b1 + t2;
        let t0 = b0 + t1;
        lemma_concat_associative(b0 + b1 + b2, b3, t4);
        lemma_concat_associative(b0 + b1, b2, t3);
        lemma_concat_associative(b0, b1, t2);
        <i32 as MD<'x>>::lemma_roundtrip(v.effect_id, t1);
        <Position as MD<'x>>::lemma_roundtrip(v.location, t2);
        <i32 as MD<'x>>::lemma_roundtrip(v.data, t3);
        <bool as MD<'x>>::lemma_roundtrip(v.global, t4);
    }

    fn deserialize(memory: &mut &'x [u8]) -> (res: Result<WorldEventResponse, ParseError>) {
        let effect_id: i32 = <i32 as MD<'x>>::deserialize(memory)?;
        let location: Position = <Position as MD<'x>>::deserialize(memory)?;
        let data: i32 = <i32 as MD<'x>>::deserialize(memory)?;
        let global: bool = <bool as MD<'x>>::deserialize(memory)?;
        Ok(WorldEventResponse { effect_id, location, data, global })
    }

    fn serialize(&self, writer: &mut Vec<u8>) {
        let ghost v = self.deep_view();
        write_varint(writer, 0x23);
        let ghost a = writer@;
        assert(old(writer)@ + Self::spec_header() =~= a);
        self.effect_id.serialize(writer);
        proof {
            lemma_write_after_header(a, <i32 as MD<'x>>::spec_header(), <i32 as MD<'x>>::spec_serialize(v.effect_id));
        }
        self.location.serialize(writer);
        proof {
            lemma_write_next(a, <i32 as MD<'x>>::spec_serialize(v.effect_id), <Position as MD<'x>>::spec_header(), <Position as MD<'x>>::spec_serialize(v.location));
        }
        self.data.serialize(writer);
        proof {
            lemma_write_next(a, <i32 as MD<'x>>::spec_serialize(v.effect_id) + <Position as MD<'x>>::spec_serialize(v.location), <i32 as MD<'x>>::spec_header(), <i32 as MD<'x>>::spec_serialize(v.data));
        }
        self.global.serialize(writer);
        proof {
            lemma_write_next(a, <i32 as MD<'x>>::spec_serialize(v.effect_id) + <Position as MD<'x>>::spec_serialize(v.location) + <i32 as MD<'x>>::spec_serialize(v.data), <bool as MD<'x>>::spec_header(), <bool as MD<'x>>::spec_serialize(v.global));
        }
    }
}

/// Packet `0x24` of the play state, sent by the server.
/// Its fields are not decoded: nothing is read for it.
#[derive(Debug)]
pub struct WorldParticlesResponse {}

impl DeepView for WorldParticlesResponse {
    type V = WorldParticlesResponse;

    open spec fn deep_view(&self) -> WorldParticlesResponse {
        *self
    }
}

impl<'x> MD<'x> for WorldParticlesResponse {
    open spec fn spec_deserialize(s0: Seq<u8>) -> Option<(WorldParticlesResponse, Seq<u8>)> {
        Some((WorldParticlesResponse {}, s0))
    }

    open spec fn serializable() -> bool {
        true
    }

    open spec fn spec_header() -> Seq<u8> {
        varint_bytes(0x24)
    }

    open spec fn takes_rest() -> bool {
        false
    }

    open spec fn spec_serialize(v: WorldParticlesResponse) -> Seq<u8> {
        Seq::empty()
    }

    open spec fn encodable(v: WorldParticlesResponse) -> bool {
        Self::serializable()
    }

    proof fn lemma_roundtrip(v: WorldParticlesResponse, rest: Seq<u8>) {
        assert(Seq::<u8>::empty() + rest =~= rest);
    }

    fn deserialize(memory: &mut &'x [u8]) -> (res: Result<WorldParticlesResponse, ParseError>) {
        Ok(WorldParticlesResponse {})
    }

    fn serialize(&self, writer: &mut Vec<u8>) {
        let ghost v = self.deep_view();
        write_varint(writer, 0x24);
        let ghost a = writer@;
        assert(old(writer)@ + Self::spec_header() =~= a);
        assert(a + Self::spec_serialize(v) =~= a);
    }
}

/// Packet `0x25` of the play state, sent by the server.
#[derive(Debug)]
pub struct UpdateLightResponse<'x> {
    pub chunk_x: i32,
    pub chunk_z: i32,
    pub trust_edges: bool,
    pub sky_light_mask: UnalignedSliceI64<'x>,
    pub block_light_mask: UnalignedSliceI64<'x>,
    pub empty_sky_light_mask: UnalignedSliceI64<'x>,
    pub empty_block_light_mask: UnalignedSliceI64<'x>,
    pub sky_light: Vec<&'x [u8]>,
    pub block_light: Vec<&'x [u8]>,
}

/// What a `UpdateLightResponse` holds.
pub struct UpdateLightResponseView {
    pub chunk_x: i32,
    pub chunk_z: i32,
    pub trust_edges: bool,
    pub sky_light_mask: Seq<i64>,
    pub block_light_mask: Seq<i64>,
    pub empty_sky_light_mask: Seq<i64>,
    pub empty_block_light_mask: Seq<i64>,
    pub sky_light: Seq<Seq<u8>>,
    pub block_light: Seq<Seq<u8>>,
}

impl<'x> DeepView for UpdateLightResponse<'x> {
    type V = UpdateLightResponseView;

    open spec fn deep_view(&self) -> UpdateLightResponseView {
        UpdateLightResponseView { chunk_x: self.chunk_x, chunk_z: self.chunk_z, trust_edges: self.trust_edges, sky_light_mask: self.sky_light_mask.deep_view(), block_light_mask: self.block_light_mask.deep_view(), empty_sky_light_mask: self.empty_sky_light_mask.deep_view(), empty_block_light_mask: self.empty_block_light_mask.deep_view(), sky_light: self.sky_light.deep_view(), block_light: self.block_light.deep_view() }
    }
}

impl<'x> MD<'x> for UpdateLightResponse<'x> {
    open spec fn spec_deserialize(s0: Seq<u8>) -> Option<(UpdateLightResponseView, Seq<u8>)> {
        match varint_field(s0) {
            Some((chunk_x, s1)) => {
                match varint_field(s1) {
                    Some((chunk_z, s2)) => {
                        match <bool as MD<'x>>::spec_deserialize(s2) {
                            Some((trust_edges, s3)) => {
                                match varint_field(s3) {
                                    Some((sky_light_mask_count, s4)) => {
                                        match spec_i64_slice(s4, sky_light_mask_count as int) {
                                            Some((sky_light_mask, s5)) => {
                                                match varint_field(s5) {
                                                    Some((block_light_mask_count, s6)) => {
                                                        match spec_i64_slice(s6, block_light_mask_count as int) {
                                                            Some((block_light_mask, s7)) => {
                                                                match varint_field(s7) {
                                                                    Some((empty_sky_light_mask_count, s8)) => {
                                                                        match spec_i64_slice(s8, empty_sky_light_mask_count as int) {
                                                                            Some((empty_sky_light_mask, s9)) => {
                                                                                match varint_field(s9) {
                                                                                    Some((empty_block_light_mask_count, s10)) => {
                                                                                        match spec_i64_slice(s10, empty_block_light_mask_count as int) {
                                                                                            Some((empty_block_light_mask, s11)) => {
                                                                                                match varint_field(s11) {
                                                                                                    Some((sky_light_count, s12)) => {
                                                                                                        match spec_array::<'x, &'x [u8]>(s12, sky_light_count as int) {
                                                                                                            Some((sky_light, s13)) => {
                                                                                                                match varint_field(s13) {
                                                                                                                    Some((block_light_count, s14)) => {
                                                                                                                        match spec_array::<'x, &'x [u8]>(s14, block_light_count as int) {
                                                                                                                            Some((block_light, s15)) => {
                                                                                                                                Some((UpdateLightResponseView { chunk_x, chunk_z, trust_edges, sky_light_mask, block_light_mask, empty_sky_light_mask, empty_block_light_mask, sky_light, block_light }, s15))
                                                                                                                            },
                                                                                                                            None => None,
                                                                                                                        }
                                                                                                                    },
                                                                                                                    None => None,
                                                                                                                }
                                                                                                            },
                                                                                                            None => None,
                                                                                                        }
                                                                                                    },
                                                                                                    None => None,
                                                                                                }
                                                                                            },
                                                                                            None => None,
                                                                                        }
                                                                                    },
                                                                                    None => None,
                                                                                }
                                                                            },
                                                                            None => None,
                                                                        }
                                                                    },
                                                                    None => None,
                                                                }
                                                            },
                                                            None => None,
                                                        }
                                                    },
                                                    None => None,
                                                }
                                            },
                                            None => None,
                                        }
                                    },
                                    None => None,
                                }
                            },
                            None => None,
                        }
                    },
                    None => None,
                }
            },
            None => None,
        }
    }

    open spec fn serializable() -> bool {
        false
    }

    open spec fn spec_header() -> Seq<u8> {
        Seq::empty()
    }

    open spec fn takes_rest() -> bool {
        false
    }

    open spec fn spec_serialize(v: UpdateLightResponseView) -> Seq<u8> {
        Seq::empty()
    }

    open spec fn encodable(v: UpdateLightResponseView) -> bool {
        Self::serializable()
    }

    proof fn lemma_roundtrip(v: UpdateLightResponseView, rest: Seq<u8>) {
    }

    fn deserialize(memory: &mut &'x [u8]) -> (res: Result<UpdateLightResponse<'x>, ParseError>) {
        let chunk_x: i32 = read_varint(memory)?;
        let chunk_z: i32 = read_varint(memory)?;
        let trust_edges: bool = <bool as MD<'x>>::deserialize(memory)?;
        let sky_light_mask_count: i32 = read_varint(memory)?;
        let sky_light_mask: UnalignedSliceI64<'x> = read_i64_slice(memory, sky_light_mask_count)?;
        let block_light_mask_count: i32 = read_varint(memory)?;
        let block_light_mask: UnalignedSliceI64<'x> = read_i64_slice(memory, block_light_mask_count)?;
        let empty_sky_light_mask_count: i32 = read_varint(memory)?;
        let empty_sky_light_mask: UnalignedSliceI64<'x> = read_i64_slice(memory, empty_sky_light_mask_count)?;
        let empty_block_light_mask_count: i32 = read_varint(memory)?;
        let empty_block_light_mask: UnalignedSliceI64<'x> = read_i64_slice(memory, empty_block_light_mask_count)?;
        let sky_light_count: i32 = read_varint(memory)?;
        let sky_light: Vec<&'x [u8]> = read_array(memory, sky_light_count)?;
        let block_light_count: i32 = read_varint(memory)?;
        let block_light: Vec<&'x [u8]> = read_array(memory, block_light_count)?;
        Ok(UpdateLightResponse { chunk_x, chunk_z, trust_edges, sky_light_mask, block_light_mask, empty_sky_light_mask, empty_block_light_mask, sky_light, block_light })
    }

    fn serialize(&self, writer: &mut Vec<u8>) {
    }
}

/// Packet `0x26` of the play state, sent by the server.
#[derive(Debug)]
pub struct LoginResponse<'x> {
    pub entity_id: i32,
    pub is_hardcore: bool,
    pub game_mode: u8,
    pub previous_game_mode: i8,
    pub world_names: Vec<&'x str>,
    pub dimension_codec: IndexedNbt<'x>,
    pub dimension: IndexedNbt<'x>,
    pub world_name: &'x str,
    pub hashed_seed: i64,
    pub max_players: i32,
    pub view_distance: i32,
    pub simulation_distance: i32,
    pub reduced_debug_info: bool,
    pub enable_respawn_screen: bool,
    pub is_debug: bool,
    pub is_flat: bool,
}

/// What a `LoginResponse` holds.
pub struct LoginResponseView {
    pub entity_id: i32,
    pub is_hardcore: bool,
    pub game_mode: u8,
    pub previous_game_mode: i8,
    pub world_names: Seq<Seq<char>>,
    pub dimension_codec: Seq<u8>,
    pub dimension: Seq<u8>,
    pub world_name: Seq<char>,
    pub hashed_seed: i64,
    pub max_players: i32,
    pub view_distance: i32,
    pub simulation_distance: i32,
    pub reduced_debug_info: bool,
    pub enable_respawn_screen: bool,
    pub is_debug: bool,
    pub is_flat: bool,
}

impl<'x> DeepView for LoginResponse<'x> {
    type V = LoginResponseView;

    open spec fn deep_view(&self) -> LoginResponseView {
        LoginResponseView { entity_id: self.entity_id, is_hardcore: self.is_hardcore, game_mode: self.game_mode, previous_game_mode: self.previous_game_mode, world_names: self.world_names.deep_view(), dimension_codec: self.dimension_codec.deep_view(), dimension: self.dimension.deep_view(), world_name: self.world_name.deep_view(), hashed_seed: self.hashed_seed, max_players: self.max_players, view_distance: self.view_distance, simulation_distance: self.simulation_distance, reduced_debug_info: self.reduced_debug_info, enable_respawn_screen: self.enable_respawn_screen, is_debug: self.is_debug, is_flat: self.is_flat }
    }
}

impl<'x> MD<'x> for LoginResponse<'x> {
    open spec fn spec_deserialize(s0: Seq<u8>) -> Option<(LoginResponseView, Seq<u8>)> {
        match <i32 as MD<'x>>::spec_deserialize(s0) {
            Some((entity_id, s1)) => {
                match <bool as MD<'x>>::spec_deserialize(s1) {
                    Some((is_hardcore, s2)) => {
                        match <u8 as MD<'x>>::spec_deserialize(s2) {
                            Some((game_mode, s3)) => {
                                match <i8 as MD<'x>>::spec_deserialize(s3) {
                                    Some((previous_game_mode, s4)) => {
                                        match varint_field(s4) {
                                            Some((world_names_count, s5)) => {
                                                match spec_array::<'x, &'x str>(s5, world_names_count as int) {
                                                    Some((world_names, s6)) => {
                                                        match <IndexedNbt<'x> as MD<'x>>::spec_deserialize(s6) {
                                                            Some((dimension_codec, s7)) => {
                                                                match <IndexedNbt<'x> as MD<'x>>::spec_deserialize(s7) {
                                                                    Some((dimension, s8)) => {
                                                                        match <&'x str as MD<'x>>::spec_deserialize(s8) {
                                                                            Some((world_name, s9)) => {
                                                                                match <i64 as MD<'x>>::spec_deserialize(s9) {
                                                                                    Some((hashed_seed, s10)) => {
                                                                                        match varint_field(s10) {
                                                                                            Some((max_players, s11)) => {
                                                                                                match varint_field(s11) {
                                                                                                    Some((view_distance, s12)) => {
                                                                                                        match varint_field(s12) {
                                                                                                            Some((simulation_distance, s13)) => {
                                                                                                                match <bool as MD<'x>>::spec_deserialize(s13) {
                                                                                                                    Some((reduced_debug_info, s14)) => {
                                                                                                                        match <bool as MD<'x>>::spec_deserialize(s14) {
                                                                                                                            Some((enable_respawn_screen, s15)) => {
                                                                                                                                match <bool as MD<'x>>::spec_deserialize(s15) {
                                                                                                                                    Some((is_debug, s16)) => {
                                                                                                                                        match <bool as MD<'x>>::spec_deserialize(s16) {
                                                                                                                                            Some((is_flat, s17)) => {
                                                                                                                                                Some((LoginResponseView { entity_id, is_hardcore, game_mode, previous_game_mode, world_names, dimension_codec, dimension, world_name, hashed_seed, max_players, view_distance, simulation_distance, reduced_debug_info, enable_respawn_screen, is_debug, is_flat }, s17))
                                                                                                                                            },
                                                                                                                                            None => None,
                                                                                                                                        }
                                                                                                                                    },
                                                                                                                                    None => None,
                                                                                                                                }
                                                                                                                            },
                                                                                                                            None => None,
                                                                                                                        }
                                                                                                                    },
                                                                                                                    None => None,
                                                                                                                }
                                                                                                            },
                                                                                                            None => None,
                                                                                                        }
                                                                                                    },
                                                                                                    None => None,
                                                                                                }
                                                                                            },
                                                                                            None => None,
                                                                                        }
                                                                                    },
                                                                                    None => None,
                                                                                }
                                                                            },
                                                                            None => None,
                                                                        }
                                                                    },
                                                                    None => None,
                                                                }
                                                            },
                                                            None => None,
                                                        }
                                                    },
                                                    None => None,
                                                }
                                            },
                                            None => None,
                                        }
                                    },
                                    None => None,
                                }
                            },
                            None => None,
                        }
                    },
                    None => None,
                }
            },
            None => None,
        }
    }

    open spec fn serializable() -> bool {
        false
    }

    open spec fn spec_header() -> Seq<u8> {
        Seq::empty()
    }

    open spec fn takes_rest() -> bool {
        false
    }

    open spec fn spec_serialize(v: LoginResponseView) -> Seq<u8> {
        Seq::empty()
    }

    open spec fn encodable(v: LoginResponseView) -> bool {
        Self::serializable()
    }

    proof fn lemma_roundtrip(v: LoginResponseView, rest: Seq<u8>) {
    }

    fn deserialize(memory: &mut &'x [u8]) -> (res: Result<LoginResponse<'x>, ParseError>) {
        let entity_id: i32 = <i32 as MD<'x>>::deserialize(memory)?;
        let is_hardcore: bool = <bool as MD<'x>>::deserialize(memory)?;
        let game_mode: u8 = <u8 as MD<'x>>::deserialize(memory)?;
        let previous_game_mode: i8 = <i8 as MD<'x>>::deserialize(memory)?;
        let world_names_count: i32 = read_varint(memory)?;
        let world_names: Vec<&'x str> = read_array(memory, world_names_count)?;
        let dimension_codec: IndexedNbt<'x> = <IndexedNbt<'x> as MD<'x>>::deserialize(memory)?;
        let dimension: IndexedNbt<'x> = <IndexedNbt<'x> as MD<'x>>::deserialize(memory)?;
        let world_name: &'x str = <&'x str as MD<'x>>::deserialize(memory)?;
        let hashed_seed: i64 = <i64 as MD<'x>>::deserialize(memory)?;
        let max_players: i32 = read_varint(memory)?;
        let view_distance: i32 = read_varint(memory)?;
        let simulation_distance: i32 = read_varint(memory)?;
        let reduced_debug_info: bool = <bool as MD<'x>>::deserialize(memory)?;
        let enable_respawn_screen: bool = <bool as MD<'x>>::deserialize(memory)?;
        let is_debug: bool = <bool as MD<'x>>::deserialize(memory)?;
        let is_flat: bool = <bool as MD<'x>>::deserialize(memory)?;
        Ok(LoginResponse { entity_id, is_hardcore, game_mode, previous_game_mode, world_names, dimension_codec, dimension, world_name, hashed_seed, max_players, view_distance, simulation_distance, reduced_debug_info, enable_respawn_screen, is_debug, is_flat })
    }

    fn serialize(&self, writer: &mut Vec<u8>) {
    }
}

/// Packet `0x27` of the play state, sent by the server.
/// Its fields are not decoded: nothing is read for it.
#[derive(Debug)]
pub struct MapResponse {}

impl DeepView for MapResponse {
    type V = MapResponse;

    open spec fn deep_view(&self) -> MapResponse {
        *self
    }
}

impl<'x> MD<'x> for MapResponse {
    open spec fn spec_deserialize(s0: Seq<u8>) -> Option<(MapResponse, Seq<u8>)> {
        Some((MapResponse {}, s0))
    }

    open spec fn serializable() -> bool {
        true
    }

    open spec fn spec_header() -> Seq<u8> {
        varint_bytes(0x27)
    }

    open spec fn takes_rest() -> bool {
        false
    }

    open spec fn spec_serialize(v: MapResponse) -> Seq<u8> {
        Seq::empty()
    }

    open spec fn encodable(v: MapResponse) -> bool {
        Self::serializable()
    }

    proof fn lemma_roundtrip(v: MapResponse, rest: Seq<u8>) {
        assert(Seq::<u8>::empty() + rest =~= rest);
    }

    fn deserialize(memory: &mut &'x [u8]) -> (res: Result<MapResponse, ParseError>) {
        Ok(MapResponse {})
    }

    fn serialize(&self, writer: &mut Vec<u8>) {
        let ghost v = self.deep_view();
        write_varint(writer, 0x27);
        let ghost a = writer@;
        assert(old(writer)@ + Self::spec_header() =~= a);
        assert(a + Self::spec_serialize(v) =~= a);
    }
}

#[derive(Debug)]
pub struct TradeListResponse_Trades<'x> {
    pub input_item_1: InventorySlot<'x>,
    pub output_item: InventorySlot<'x>,
    pub input_item_2: Option<InventorySlot<'x>>,
    pub trade_disabled: bool,
    pub nb_trade_uses: i32,
    pub maximum_nb_trade_uses: i32,
    pub xp: i32,
    pub special_price: i32,
    /// The IEEE 754 bits of the `f32` value.
    pub price_multiplier: u32,
    pub demand: i32,
}

/// What a `TradeListResponse_Trades` holds.
pub struct TradeListResponse_TradesView {
    pub input_item_1: Option<InventorySlotDataView>,
    pub output_item: Option<InventorySlotDataView>,
    pub input_item_2: Option<Option<InventorySlotDataView>>,
    pub trade_disabled: bool,
    pub nb_trade_uses: i32,
    pub maximum_nb_trade_uses: i32,
    pub xp: i32,
    pub special_price: i32,
    pub price_multiplier: u32,
    pub demand: i32,
}

impl<'x> DeepView for TradeListResponse_Trades<'x> {
    type V = TradeListResponse_TradesView;

    open spec fn deep_view(&self) -> TradeListResponse_TradesView {
        TradeListResponse_TradesView { input_item_1: self.input_item_1.deep_view(), output_item: self.output_item.deep_view(), input_item_2: self.input_item_2.deep_view(), trade_disabled: self.trade_disabled, nb_trade_uses: self.nb_trade_uses, maximum_nb_trade_uses: self.maximum_nb_trade_uses, xp: self.xp, special_price: self.special_price, price_multiplier: self.price_multiplier, demand: self.demand }
    }
}

impl<'x> MD<'x> for TradeListResponse_Trades<'x> {
    open spec fn spec_deserialize(s0: Seq<u8>) -> Option<(TradeListResponse_TradesView, Seq<u8>)> {
        match <InventorySlot<'x> as MD<'x>>::spec_deserialize(s0) {
            Some((input_item_1, s1)) => {
                match <InventorySlot<'x> as MD<'x>>::spec_deserialize(s1) {
                    Some((output_item, s2)) => {
                        match <Option<InventorySlot<'x>> as MD<'x>>::spec_deserialize(s2) {
                            Some((input_item_2, s3)) => {
                                match <bool as MD<'x>>::spec_deserialize(s3) {
                                    Some((trade_disabled, s4)) => {
                                        match <i32 as MD<'x>>::spec_deserialize(s4) {
                                            Some((nb_trade_uses, s5)) => {
                                                match <i32 as MD<'x>>::spec_deserialize(s5) {
                                                    Some((maximum_nb_trade_uses, s6)) => {
                                                        match <i32 as MD<'x>>::spec_deserialize(s6) {
                                                            Some((xp, s7)) => {
                                                                match <i32 as MD<'x>>::spec_deserialize(s7) {
                                                                    Some((special_price, s8)) => {
                                                                        match <u32 as MD<'x>>::spec_deserialize(s8) {
                                                                            Some((price_multiplier, s9)) => {
                                                                                match <i32 as MD<'x>>::spec_deserialize(s9) {
                                                                                    Some((demand, s10)) => {
                                                                                        Some((TradeListResponse_TradesView { input_item_1, output_item, input_item_2, trade_disabled, nb_trade_uses, maximum_nb_trade_uses, xp, special_price, price_multiplier, demand }, s10))
                                                                                    },
                                                                                    None => None,
                                                                                }
                                                                            },
                                                                            None => None,
                                                                        }
                                                                    },
                                                                    None => None,
                                                                }
                                                            },
                                                            None => None,
                                                        }
                                                    },
                                                    None => None,
                                                }
                                            },
                                            None => None,
                                        }
                                    },
                                    None => None,
                                }
                            },
                            None => None,
                        }
                    },
                    None => None,
                }
            },
            None => None,
        }
    }

    open spec fn serializable() -> bool {
        <InventorySlot<'x> as MD<'x>>::serializable() && <InventorySlot<'x> as MD<'x>>::serializable() && <Option<InventorySlot<'x>> as MD<'x>>::serializable() && <bool as MD<'x>>::serializable() && <i32 as MD<'x>>::serializable() && <i32 as MD<'x>>::serializable() && <i32 as MD<'x>>::serializable() && <i32 as MD<'x>>::serializable() && <u32 as MD<'x>>::serializable() && <i32 as MD<'x>>::serializable()
    }

    open spec fn spec_header() -> Seq<u8> {
        Seq::empty()
    }

    open spec fn takes_rest() -> bool {
        false
    }

    open spec fn spec_serialize(v: TradeListResponse_TradesView) -> Seq<u8> {
        <InventorySlot<'x> as MD<'x>>::spec_serialize(v.input_item_1) + <InventorySlot<'x> as MD<'x>>::spec_serialize(v.output_item) + <Option<InventorySlot<'x>> as MD<'x>>::spec_serialize(v.input_item_2) + <bool as MD<'x>>::spec_serialize(v.trade_disabled) + <i32 as MD<'x>>::spec_serialize(v.nb_trade_uses) + <i32 as MD<'x>>::spec_serialize(v.maximum_nb_trade_uses) + <i32 as MD<'x>>::spec_serialize(v.xp) + <i32 as MD<'x>>::spec_serialize(v.special_price) + <u32 as MD<'x>>::spec_serialize(v.price_multiplier) + <i32 as MD<'x>>::spec_serialize(v.demand)
    }

    open spec fn encodable(v: TradeListResponse_TradesView) -> bool {
        Self::serializable() && <InventorySlot<'x> as MD<'x>>::encodable(v.input_item_1) && <InventorySlot<'x> as MD<'x>>::encodable(v.output_item) && <Option<InventorySlot<'x>> as MD<'x>>::encodable(v.input_item_2) && <bool as MD<'x>>::encodable(v.trade_disabled) && <i32 as MD<'x>>::encodable(v.nb_trade_uses) && <i32 as MD<'x>>::encodable(v.maximum_nb_trade_uses) && <i32 as MD<'x>>::encodable(v.xp) && <i32 as MD<'x>>::encodable(v.special_price) && <u32 as MD<'x>>::encodable(v.price_multiplier) && <i32 as MD<'x>>::encodable(v.demand)
    }

    proof fn lemma_roundtrip(v: TradeListResponse_TradesView, rest: Seq<u8>) {
        let b0 = <InventorySlot<'x> as MD<'x>>::spec_serialize(v.input_item_1);
        let b1 = <InventorySlot<'x> as MD<'x>>::spec_serialize(v.output_item);
        let b2 = <Option<InventorySlot<'x>> as MD<'x>>::spec_serialize(v.input_item_2);
        let b3 = <bool as MD<'x>>::spec_serialize(v.trade_disabled);
        let b4 = <i32 as MD<'x>>::spec_serialize(v.nb_trade_uses);
        let b5 = <i32 as MD<'x>>::spec_serialize(v.maximum_nb_trade_uses);
        let b6 = <i32 as MD<'x>>::spec_serialize(v.xp);
        let b7 = <i32 as MD<'x>>::spec_serialize(v.special_price);
        let b8 = <u32 as MD<'x>>::spec_serialize(v.price_multiplier);
        let b9 = <i32 as MD<'x>>::spec_serialize(v.demand);
        let t10 = rest;
        let t9 = b9 + t10;
        let t8 = b8 + t9;
        let t7 = b7 + t8;
        let t6 = b6 + t7;
        let t5 = b5 + t6;
        let t4 = b4 + t5;
        let t3 = b3 + t4;
        let t2 = b2 + t3;
        let t1 = b1 + t2;
        let t0 = b0 + t1;
        lemma_concat_associative(b0 + b1 + b2 + b3 + b4 + b5 + b6 + b7 + b8, b9, t10);
        lemma_concat_associative(b0 + b1 + b2 + b3 + b4 + b5 + b6 + b7, b8, t9);
        lemma_concat_associative(b0 + b1 + b2 + b3 + b4 + b5 + b6, b7, t8);
        lemma_concat_associative(b0 + b1 + b2 + b3 + b4 + b5, b6, t7);
        lemma_concat_associative(b0 + b1 + b2 + b3 + b4, b5, t6);
        lemma_concat_associative(b0 + b1 + b2 + b3, b4, t5);
        lemma_concat_associative(b0 + b1 + b2, b3, t4);
        lemma_concat_associative(b0 + b1, b2, t3);
        lemma_concat_associative(b0, b1, t2);
        <InventorySlot<'x> as MD<'x>>::lemma_roundtrip(v.input_item_1, t1);
        <InventorySlot<'x> as MD<'x>>::lemma_roundtrip(v.output_item, t2);
        <Option<InventorySlot<'x>> as MD<'x>>::lemma_roundtrip(v.input_item_2, t3);
        <bool as MD<'x>>::lemma_roundtrip(v.trade_disabled, t4);
        <i32 as MD<'x>>::lemma_roundtrip(v.nb_trade_uses, t5);
        <i32 as MD<'x>>::lemma_roundtrip(v.maximum_nb_trade_uses, t6);
        <i32 as MD<'x>>::lemma_roundtrip(v.xp, t7);
        <i32 as MD<'x>>::lemma_roundtrip(v.special_price, t8);
        <u32 as MD<'x>>::lemma_roundtrip(v.price_multiplier, t9);
        <i32 as MD<'x>>::lemma_roundtrip(v.demand, t10);
    }

    fn deserialize(memory: &mut &'x [u8]) -> (res: Result<TradeListResponse_Trades<'x>, ParseError>) {
        let input_item_1: InventorySlot<'x> = <InventorySlot<'x> as MD<'x>>::deserialize(memory)?;
        let output_item: InventorySlot<'x> = <InventorySlot<'x> as MD<'x>>::deserialize(memory)?;
        let input_item_2: Option<InventorySlot<'x>> = <Option<InventorySlot<'x>> as MD<'x>>::deserialize(memory)?;
        let trade_disabled: bool = <bool as MD<'x>>::deserialize(memory)?;
        let nb_trade_uses: i32 = <i32 as MD<'x>>::deserialize(memory)?;
        let maximum_nb_trade_uses: i32 = <i32 as MD<'x>>::deserialize(memory)?;
        let xp: i32 = <i32 as MD<'x>>::deserialize(memory)?;
        let special_price: i32 = <i32 as MD<'x>>::deserialize(memory)?;
        let price_multiplier: u32 = <u32 as MD<'x>>::deserialize(memory)?;
        let demand: i32 = <i32 as MD<'x>>::deserialize(memory)?;
        Ok(TradeListResponse_Trades { input_item_1, output_item, input_item_2, trade_disabled, nb_trade_uses, maximum_nb_trade_uses, xp, special_price, price_multiplier, demand })
    }

    fn serialize(&self, writer: &mut Vec<u8>) {
        let ghost v = self.deep_view();
        let ghost a = writer@;
        assert(old(writer)@ + Self::spec_header() =~= a);
        self.input_item_1.serialize(writer);
        proof {
            lemma_write_after_header(a, <InventorySlot<'x> as MD<'x>>::spec_header(), <InventorySlot<'x> as MD<'x>>::spec_serialize(v.input_item_1));
        }
        self.output_item.serialize(writer);
        proof {
            lemma_write_next(a, <InventorySlot<'x> as MD<'x>>::spec_serialize(v.input_item_1), <InventorySlot<'x> as MD<'x>>::spec_header(), <InventorySlot<'x> as MD<'x>>::spec_serialize(v.output_item));
        }
        self.input_item_2.serialize(writer);
        proof {
            lemma_write_next(a, <InventorySlot<'x> as MD<'x>>::spec_serialize(v.input_item_1) + <InventorySlot<'x> as MD<'x>>::spec_serialize(v.output_item), <Option<InventorySlot<'x>> as MD<'x>>::spec_header(), <Option<InventorySlot<'x>> as MD<'x>>::spec_serialize(v.input_item_2));
        }
        self.trade_disabled.serialize(writer);
        proof {
            lemma_write_next(a, <InventorySlot<'x> as MD<'x>>::spec_serialize(v.input_item_1) + <InventorySlot<'x> as MD<'x>>::spec_serialize(v.output_item) + <Option<InventorySlot<'x>> as MD<'x>>::spec_serialize(v.input_item_2), <bool as MD<'x>>::spec_header(), <bool as MD<'x>>::spec_serialize(v.trade_disabled));
        }
        self.nb_trade_uses.serialize(writer);
        proof {
            lemma_write_next(a, <InventorySlot<'x> as MD<'x>>::spec_serialize(v.input_item_1) + <InventorySlot<'x> as MD<'x>>::spec_serialize(v.output_item) + <Option<InventorySlot<'x>> as MD<'x>>::spec_serialize(v.input_item_2) + <bool as MD<'x>>::spec_serialize(v.trade_disabled), <i32 as MD<'x>>::spec_header(), <i32 as MD<'x>>::spec_serialize(v.nb_trade_uses));
        }
        self.maximum_nb_trade_uses.serialize(writer);
        proof {
            lemma_write_next(a, <InventorySlot<'x> as MD<'x>>::spec_serialize(v.input_item_1) + <InventorySlot<'x> as MD<'x>>::spec_serialize(v.output_item) + <Option<InventorySlot<'x>> as MD<'x>>::spec_serialize(v.input_item_2) + <bool as MD<'x>>::spec_serialize(v.trade_disabled) + <i32 as MD<'x>>::spec_serialize(v.nb_trade_uses), <i32 as MD<'x>>::spec_header(), <i32 as MD<'x>>::spec_serialize(v.maximum_nb_trade_uses));
        }
        self.xp.serialize(writer);
        proof {
            lemma_write_next(a, <InventorySlot<'x> as MD<'x>>::spec_serialize(v.input_item_1) + <InventorySlot<'x> as MD<'x>>::spec_serialize(v.output_item) + <Option<InventorySlot<'x>> as MD<'x>>::spec_serialize(v.input_item_2) + <bool as MD<'x>>::spec_serialize(v.trade_disabled) + <i32 as MD<'x>>::spec_serialize(v.nb_trade_uses) + <i32 as MD<'x>>::spec_serialize(v.maximum_nb_trade_uses), <i32 as MD<'x>>::spec_header(), <i32 as MD<'x>>::spec_serialize(v.xp));
        }
        self.special_price.serialize(writer);
        proof {
            lemma_write_next(a, <InventorySlot<'x> as MD<'x>>::spec_serialize(v.input_item_1) + <InventorySlot<'x> as MD<'x>>::spec_serialize(v.output_item) + <Option<InventorySlot<'x>> as MD<'x>>::spec_serialize(v.input_item_2) + <bool as MD<'x>>::spec_serialize(v.trade_disabled) + <i32 as MD<'x>>::spec_serialize(v.nb_trade_uses) + <i32 as MD<'x>>::spec_serialize(v.maximum_nb_trade_uses) + <i32 as MD<'x>>::spec_serialize(v.xp), <i32 as MD<'x>>::spec_header(), <i32 as MD<'x>>::spec_serialize(v.special_price));
        }
        self.price_multiplier.serialize(writer);
        proof {
            lemma_write_next(a, <InventorySlot<'x> as MD<'x>>::spec_serialize(v.input_item_1) + <InventorySlot<'x> as MD<'x>>::spec_serialize(v.output_item) + <Option<InventorySlot<'x>> as MD<'x>>::spec_serialize(v.input_item_2) + <bool as MD<'x>>::spec_serialize(v.trade_disabled) + <i32 as MD<'x>>::spec_serialize(v.nb_trade_uses) + <i32 as MD<'x>>::spec_serialize(v.maximum_nb_trade_uses) + <i32 as MD<'x>>::spec_serialize(v.xp) + <i32 as MD<'x>>::spec_serialize(v.special_price), <u32 as MD<'x>>::spec_header(), <u32 as MD<'x>>::spec_serialize(v.price_multiplier));
        }
        self.demand.serialize(writer);
        proof {
            lemma_write_next(a, <InventorySlot<'x> as MD<'x>>::spec_serialize(v.input_item_1) + <InventorySlot<'x> as MD<'x>>::spec_serialize(v.output_item) + <Option<InventorySlot<'x>> as MD<'x>>::spec_serialize(v.input_item_2) + <bool as MD<'x>>::spec_serialize(v.trade_disabled) + <i32 as MD<'x>>::spec_serialize(v.nb_trade_uses) + <i32 as MD<'x>>::spec_serialize(v.maximum_nb_trade_uses) + <i32 as MD<'x>>::spec_serialize(v.xp) + <i32 as MD<'x>>::spec_serialize(v.special_price) + <u32 as MD<'x>>::spec_serialize(v.price_multiplier), <i32 as MD<'x>>::spec_header(), <i32 as MD<'x>>::spec_serialize(v.demand));
        }
    }
}

/// Packet `0x28` of the play state, sent by the server.
#[derive(Debug)]
pub struct TradeListResponse<'x> {
    pub window_id: i32,
    pub trades: Vec<TradeListResponse_Trades<'x>>,
    pub villager_level: i32,
    pub experience: i32,
    pub is_regular_villager: bool,
    pub can_restock: bool,
}

/// What a `TradeListResponse` holds.
pub struct TradeListResponseView {
    pub window_id: i32,
    pub trades: Seq<TradeListResponse_TradesView>,
    pub villager_level: i32,
    pub experience: i32,
    pub is_regular_villager: bool,
    pub can_restock: bool,
}

impl<'x> DeepView for TradeListResponse<'x> {
    type V = TradeListResponseView;

    open spec fn deep_view(&self) -> TradeListResponseView {
        TradeListResponseView { window_id: self.window_id, trades: self.trades.deep_view(), villager_level: self.villager_level, experience: self.experience, is_regular_villager: self.is_regular_villager, can_restock: self.can_restock }
    }
}

impl<'x> MD<'x> for TradeListResponse<'x> {
    open spec fn spec_deserialize(s0: Seq<u8>) -> Option<(TradeListResponseView, Seq<u8>)> {
        match varint_field(s0) {
            Some((window_id, s1)) => {
                match <u8 as MD<'x>>::spec_deserialize(s1) {
                    Some((trades_count, s2)) => {
                        match spec_array::<'x, TradeListResponse_Trades<'x>>(s2, trades_count as int) {
                            Some((trades, s3)) => {
                                match varint_field(s3) {
                                    Some((villager_level, s4)) => {
                                        match varint_field(s4) {
                                            Some((experience, s5)) => {
                                                match <bool as MD<'x>>::spec_deserialize(s5) {
                                                    Some((is_regular_villager, s6)) => {
                                                        match <bool as MD<'x>>::spec_deserialize(s6) {
                                                            Some((can_restock, s7)) => {
                                                                Some((TradeListResponseView { window_id, trades, villager_level, experience, is_regular_villager, can_restock }, s7))
                                                            },
                                                            None => None,
                                                        }
                                                    },
                                                    None => None,
                                                }
                                            },
                                            None => None,
                                        }
                                    },
                                    None => None,
                                }
                            },
                            None => None,
                        }
                    },
                    None => None,
                }
            },
            None => None,
        }
    }

    open spec fn serializable() -> bool {
        false
    }

    open spec fn spec_header() -> Seq<u8> {
        Seq::empty()
    }

    open spec fn takes_rest() -> bool {
        false
    }

    open spec fn spec_serialize(v: TradeListResponseView) -> Seq<u8> {
        Seq::empty()
    }

    open spec fn encodable(v: TradeListResponseView) -> bool {
        Self::serializable()
    }

    proof fn lemma_roundtrip(v: TradeListResponseView, rest: Seq<u8>) {
    }

    fn deserialize(memory: &mut &'x [u8]) -> (res: Result<TradeListResponse<'x>, ParseError>) {
        let window_id: i32 = read_varint(memory)?;
        let trades_count: u8 = <u8 as MD<'x>>::deserialize(memory)?;
        let trades: Vec<TradeListResponse_Trades<'x>> = read_array(memory, trades_count as i32)?;
        let villager_level: i32 = read_varint(memory)?;
        let experience: i32 = read_varint(memory)?;
        let is_regular_villager: bool = <bool as MD<'x>>::deserialize(memory)?;
        let can_restock: bool = <bool as MD<'x>>::deserialize(memory)?;
        Ok(TradeListResponse { window_id, trades, villager_level, experience, is_regular_villager, can_restock })
    }

    fn serialize(&self, writer: &mut Vec<u8>) {
    }
}

/// Packet `0x29` of the play state, sent by the server.
#[derive(Debug)]
pub struct RelEntityMoveResponse {
    pub entity_id: i32,
    pub d_x: i16,
    pub d_y: i16,
    pub d_z: i16,
    pub on_ground: bool,
}

impl DeepView for RelEntityMoveResponse {
    type V = RelEntityMoveResponse;

    open spec fn deep_view(&self) -> RelEntityMoveResponse {
        *self
    }
}

impl<'x> MD<'x> for RelEntityMoveResponse {
    open spec fn spec_deserialize(s0: Seq<u8>) -> Option<(RelEntityMoveResponse, Seq<u8>)> {
        match varint_field(s0) {
            Some((entity_id, s1)) => {
                match <i16 as MD<'x>>::spec_deserialize(s1) {
                    Some((d_x, s2)) => {
                        match <i16 as MD<'x>>::spec_deserialize(s2) {
                            Some((d_y, s3)) => {
                                match <i16 as MD<'x>>::spec_deserialize(s3) {
                                    Some((d_z, s4)) => {
                                        match <bool as MD<'x>>::spec_deserialize(s4) {
                                            Some((on_ground, s5)) => {
                                                Some((RelEntityMoveResponse { entity_id, d_x, d_y, d_z, on_ground }, s5))
                                            },
                                            None => None,
                                        }
                                    },
                                    None => None,
                                }
                            },
                            None => None,
                        }
                    },
                    None => None,
                }
            },
            None => None,
        }
    }

    open spec fn serializable() -> bool {
        <i16 as MD<'x>>::serializable() && <i16 as MD<'x>>::serializable() && <i16 as MD<'x>>::serializable() && <bool as MD<'x>>::serializable()
    }

    open spec fn spec_header() -> Seq<u8> {
        varint_bytes(0x29)
    }

    open spec fn takes_rest() -> bool {
        false
    }

    open spec fn spec_serialize(v: RelEntityMoveResponse) -> Seq<u8> {
        varint_bytes(v.entity_id as u32) + <i16 as MD<'x>>::spec_serialize(v.d_x) + <i16 as MD<'x>>::spec_serialize(v.d_y) + <i16 as MD<'x>>::spec_serialize(v.d_z) + <bool as MD<'x>>::spec_serialize(v.on_ground)
    }

    open spec fn encodable(v: RelEntityMoveResponse) -> bool {
        Self::serializable() && <i16 as MD<'x>>::encodable(v.d_x) && <i16 as MD<'x>>::encodable(v.d_y) && <i16 as MD<'x>>::encodable(v.d_z) && <bool as MD<'x>>::encodable(v.on_ground)
    }

    proof fn lemma_roundtrip(v: RelEntityMoveResponse, rest: Seq<u8>) {
        let b0 = varint_bytes(v.entity_id as u32);
        let b1 = <i16 as MD<'x>>::spec_serialize(v.d_x);
        let b2 = <i16 as MD<'x>>::spec_serialize(v.d_y);
        let b3 = <i16 as MD<'x>>::spec_serialize(v.d_z);
        let b4 = <bool as MD<'x>>::spec_serialize(v.on_ground);
        let t5 = rest;
        let t4 = b4 + t5;
        let t3 = b3 + t4;
        let t2 = b2 + t3;
        let t1 = b1 + t2;
        let t0 = b0 + t1;
        lemma_concat_associative(b0 + b1 + b2 + b3, b4, t5);
        lemma_concat_associative(b0 + b1 + b2, b3, t4);
        lemma_concat_associative(b0 + b1, b2, t3);
        lemma_concat_associative(b0, b1, t2);
        lemma_varint_field_roundtrip(v.entity_id, t1);
        <i16 as MD<'x>>::lemma_roundtrip(v.d_x, t2);
        <i16 as MD<'x>>::lemma_roundtrip(v.d_y, t3);
        <i16 as MD<'x>>::lemma_roundtrip(v.d_z, t4);
        <bool as MD<'x>>::lemma_roundtrip(v.on_ground, t5);
    }

    fn deserialize(memory: &mut &'x [u8]) -> (res: Result<RelEntityMoveResponse, ParseError>) {
        let entity_id: i32 = read_varint(memory)?;
        let d_x: i16 = <i16 as MD<'x>>::deserialize(memory)?;
        let d_y: i16 = <i16 as MD<'x>>::deserialize(memory)?;
        let d_z: i16 = <i16 as MD<'x>>::deserialize(memory)?;
        let on_ground: bool = <bool as MD<'x>>::deserialize(memory)?;
        Ok(RelEntityMoveResponse { entity_id, d_x, d_y, d_z, on_ground })
    }

    fn serialize(&self, writer: &mut Vec<u8>) {
        let ghost v = self.deep_view();
        write_varint(writer, 0x29);
        let ghost a = writer@;
        assert(old(writer)@ + Self::spec_header() =~= a);
        write_varint(writer, self.entity_id as u32);
        self.d_x.serialize(writer);
        proof {
            lemma_write_next(a, varint_bytes(v.entity_id as u32), <i16 as MD<'x>>::spec_header(), <i16 as MD<'x>>::spec_serialize(v.d_x));
        }
        self.d_y.serialize(writer);
        proof {
            lemma_write_next(a, varint_bytes(v.entity_id as u32) + <i16 as MD<'x>>::spec_serialize(v.d_x), <i16 as MD<'x>>::spec_header(), <i16 as MD<'x>>::spec_serialize(v.d_y));
        }
        self.d_z.serialize(writer);
        proof {
            lemma_write_next(a, varint_bytes(v.entity_id as u32) + <i16 as MD<'x>>::spec_serialize(v.d_x) + <i16 as MD<'x>>::spec_serialize(v.d_y), <i16 as MD<'x>>::spec_header(), <i16 as MD<'x>>::spec_serialize(v.d_z));
        }
        self.on_ground.serialize(writer);
        proof {
            lemma_write_next(a, varint_bytes(v.entity_id as u32) + <i16 as MD<'x>>::spec_serialize(v.d_x) + <i16 as MD<'x>>::spec_serialize(v.d_y) + <i16 as MD<'x>>::spec_serialize(v.d_z), <bool as MD<'x>>::spec_header(), <bool as MD<'x>>::spec_serialize(v.on_ground));
        }
    }
}

/// Packet `0x2a` of the play state, sent by the server.
#[derive(Debug)]
pub struct EntityMoveLookResponse {
    pub entity_id: i32,
    pub d_x: i16,
    pub d_y: i16,
    pub d_z: i16,
    pub yaw: i8,
    pub pitch: i8,
    pub on_ground: bool,
}

impl DeepView for EntityMoveLookResponse {
    type V = EntityMoveLookResponse;

    open spec fn deep_view(&self) -> EntityMoveLookResponse {
        *self
    }
}

impl<'x> MD<'x> for EntityMoveLookResponse {
    open spec fn spec_deserialize(s0: Seq<u8>) -> Option<(EntityMoveLookResponse, Seq<u8>)> {
        match varint_field(s0) {
            Some((entity_id, s1)) => {
                match <i16 as MD<'x>>::spec_deserialize(s1) {
                    Some((d_x, s2)) => {
                        match <i16 as MD<'x>>::spec_deserialize(s2) {
                            Some((d_y, s3)) => {
                                match <i16 as MD<'x>>::spec_deserialize(s3) {
                                    Some((d_z, s4)) => {
                                        match <i8 as MD<'x>>::spec_deserialize(s4) {
                                            Some((yaw, s5)) => {
                                                match <i8 as MD<'x>>::spec_deserialize(s5) {
                                                    Some((pitch, s6)) => {
                                                        match <bool as MD<'x>>::spec_deserialize(s6) {
                                                            Some((on_ground, s7)) => {
                                                                Some((EntityMoveLookResponse { entity_id, d_x, d_y, d_z, yaw, pitch, on_ground }, s7))
                                                            },
                                                            None => None,
                                                        }
                                                    },
                                                    None => None,
                                                }
                                            },
                                            None => None,
                                        }
                                    },
                                    None => None,
                                }
                            },
                            None => None,
                        }
                    },
                    None => None,
                }
            },
            None => None,
        }
    }

    open spec fn serializable() -> bool {
        <i16 as MD<'x>>::serializable() && <i16 as MD<'x>>::serializable() && <i16 as MD<'x>>::serializable() && <i8 as MD<'x>>::serializable() && <i8 as MD<'x>>::serializable() && <bool as MD<'x>>::serializable()
    }

    open spec fn spec_header() -> Seq<u8> {
        varint_bytes(0x2a)
    }

    open spec fn takes_rest() -> bool {
        false
    }

    open spec fn spec_serialize(v: EntityMoveLookResponse) -> Seq<u8> {
        varint_bytes(v.entity_id as u32) + <i16 as MD<'x>>::spec_serialize(v.d_x) + <i16 as MD<'x>>::spec_serialize(v.d_y) + <i16 as MD<'x>>::spec_serialize(v.d_z) + <i8 as MD<'x>>::spec_serialize(v.yaw) + <i8 as MD<'x>>::spec_serialize(v.pitch) + <bool as MD<'x>>::spec_serialize(v.on_ground)
    }

    open spec fn encodable(v: EntityMoveLookResponse) -> bool {
        Self::serializable() && <i16 as MD<'x>>::encodable(v.d_x) && <i16 as MD<'x>>::encodable(v.d_y) && <i16 as MD<'x>>::encodable(v.d_z) && <i8 as MD<'x>>::encodable(v.yaw) && <i8 as MD<'x>>::encodable(v.pitch) && <bool as MD<'x>>::encodable(v.on_ground)
    }

    proof fn lemma_roundtrip(v: EntityMoveLookResponse, rest: Seq<u8>) {
        let b0 = varint_bytes(v.entity_id as u32);
        let b1 = <i16 as MD<'x>>::spec_serialize(v.d_x);
        let b2 = <i16 as MD<'x>>::spec_serialize(v.d_y);
        let b3 = <i16 as MD<'x>>::spec_serialize(v.d_z);
        let b4 = <i8 as MD<'x>>::spec_serialize(v.yaw);
        let b5 = <i8 as MD<'x>>::spec_serialize(v.pitch);
        let b6 = <bool as MD<'x>>::spec_serialize(v.on_ground);
        let t7 = rest;
        let t6 = b6 + t7;
        let t5 = b5 + t6;
        let t4 = b4 + t5;
        let t3 = b3 + t4;
        let t2 = b2 + t3;
        let t1 = b1 + t2;
        let t0 = b0 + t1;
        lemma_concat_associative(b0 + b1 + b2 + b3 + b4 + b5, b6, t7);
        lemma_concat_associative(b0 + b1 + b2 + b3 + b4, b5, t6);
        lemma_concat_associative(b0 + b1 + b2 + b3, b4, t5);
        lemma_concat_associative(b0 + b1 + b2, b3, t4);
        lemma_concat_associative(b0 + b1, b2, t3);
        lemma_concat_associative(b0, b1, t2);
        lemma_varint_field_roundtrip(v.entity_id, t1);
        <i16 as MD<'x>>::lemma_roundtrip(v.d_x, t2);
        <i16 as MD<'x>>::lemma_roundtrip(v.d_y, t3);
        <i16 as MD<'x>>::lemma_roundtrip(v.d_z, t4);
        <i8 as MD<'x>>::lemma_roundtrip(v.yaw, t5);
        <i8 as MD<'x>>::lemma_roundtrip(v.pitch, t6);
        <bool as MD<'x>>::lemma_roundtrip(v.on_ground, t7);
    }

    fn deserialize(memory: &mut &'x [u8]) -> (res: Result<EntityMoveLookResponse, ParseError>) {
        let entity_id: i32 = read_varint(memory)?;
        let d_x: i16 = <i16 as MD<'x>>::deserialize(memory)?;
        let d_y: i16 = <i16 as MD<'x>>::deserialize(memory)?;
        let d_z: i16 = <i16 as MD<'x>>::deserialize(memory)?;
        let yaw: i8 = <i8 as MD<'x>>::deserialize(memory)?;
        let pitch: i8 = <i8 as MD<'x>>::deserialize(memory)?;
        let on_ground: bool = <bool as MD<'x>>::deserialize(memory)?;
        Ok(EntityMoveLookResponse { entity_id, d_x, d_y, d_z, yaw, pitch, on_ground })
    }

    fn serialize(&self, writer: &mut Vec<u8>) {
        let ghost v = self.deep_view();
        write_varint(writer, 0x2a);
        let ghost a = writer@;
        assert(old(writer)@ + Self::spec_header() =~= a);
        write_varint(writer, self.entity_id as u32);
        self.d_x.serialize(writer);
        proof {
            lemma_write_next(a, varint_bytes(v.entity_id as u32), <i16 as MD<'x>>::spec_header(), <i16 as MD<'x>>::spec_serialize(v.d_x));
        }
        self.d_y.serialize(writer);
        proof {
            lemma_write_next(a, varint_bytes(v.entity_id as u32) + <i16 as MD<'x>>::spec_serialize(v.d_x), <i16 as MD<'x>>::spec_header(), <i16 as MD<'x>>::spec_serialize(v.d_y));
        }
        self.d_z.serialize(writer);
        proof {
            lemma_write_next(a, varint_bytes(v.entity_id as u32) + <i16 as MD<'x>>::spec_serialize(v.d_x) + <i16 as MD<'x>>::spec_serialize(v.d_y), <i16 as MD<'x>>::spec_header(), <i16 as MD<'x>>::spec_serialize(v.d_z));
        }
        self.yaw.serialize(writer);
        proof {
            lemma_write_next(a, varint_bytes(v.entity_id as u32) + <i16 as MD<'x>>::spec_serialize(v.d_x) + <i16 as MD<'x>>::spec_serialize(v.d_y) + <i16 as MD<'x>>::spec_serialize(v.d_z), <i8 as MD<'x>>::spec_header(), <i8 as MD<'x>>::spec_serialize(v.yaw));
        }
        self.pitch.serialize(writer);
        proof {
            lemma_write_next(a, varint_bytes(v.entity_id as u32) + <i16 as MD<'x>>::spec_serialize(v.d_x) + <i16 as MD<'x>>::spec_serialize(v.d_y) + <i16 as MD<'x>>::spec_serialize(v.d_z) + <i8 as MD<'x>>::spec_serialize(v.yaw), <i8 as MD<'x>>::spec_header(), <i8 as MD<'x>>::spec_serialize(v.pitch));
        }
        self.on_ground.serialize(writer);
        proof {
            lemma_write_next(a, varint_bytes(v.entity_id as u32) + <i16 as MD<'x>>::spec_serialize(v.d_x) + <i16 as MD<'x>>::spec_serialize(v.d_y) + <i16 as MD<'x>>::spec_serialize(v.d_z) + <i8 as MD<'x>>::spec_serialize(v.yaw) + <i8 as MD<'x>>::spec_serialize(v.pitch), <bool as MD<'x>>::spec_header(), <bool as MD<'x>>::spec_serialize(v.on_ground));
        }
    }
}

/// Packet `0x2b` of the play state, sent by the server.
#[derive(Debug)]
pub struct EntityLookResponse {
    pub entity_id: i32,
    pub yaw: i8,
    pub pitch: i8,
    pub on_ground: bool,
}

impl DeepView for EntityLookResponse {
    type V = EntityLookResponse;

    open spec fn deep_view(&self) -> EntityLookResponse {
        *self
    }
}

impl<'x> MD<'x> for EntityLookResponse {
    open spec fn spec_deserialize(s0: Seq<u8>) -> Option<(EntityLookResponse, Seq<u8>)> {
        match varint_field(s0) {
            Some((entity_id, s1)) => {
                match <i8 as MD<'x>>::spec_deserialize(s1) {
                    Some((yaw, s2)) => {
                        match <i8 as MD<'x>>::spec_deserialize(s2) {
                            Some((pitch, s3)) => {
                                match <bool as MD<'x>>::spec_deserialize(s3) {
                                    Some((on_ground, s4)) => {
                                        Some((EntityLookResponse { entity_id, yaw, pitch, on_ground }, s4))
                                    },
                                    None => None,
                                }
                            },
                            None => None,
                        }
                    },
                    None => None,
                }
            },
            None => None,
        }
    }

    open spec fn serializable() -> bool {
        <i8 as MD<'x>>::serializable() && <i8 as MD<'x>>::serializable() && <bool as MD<'x>>::serializable()
    }

    open spec fn spec_header() -> Seq<u8> {
        varint_bytes(0x2b)
    }

    open spec fn takes_rest() -> bool {
        false
    }

    open spec fn spec_serialize(v: EntityLookResponse) -> Seq<u8> {
        varint_bytes(v.entity_id as u32) + <i8 as MD<'x>>::spec_serialize(v.yaw) + <i8 as MD<'x>>::spec_serialize(v.pitch) + <bool as MD<'x>>::spec_serialize(v.on_ground)
    }

    open spec fn encodable(v: EntityLookResponse) -> bool {
        Self::serializable() && <i8 as MD<'x>>::encodable(v.yaw) && <i8 as MD<'x>>::encodable(v.pitch) && <bool as MD<'x>>::encodable(v.on_ground)
    }

    proof fn lemma_roundtrip(v: EntityLookResponse, rest: Seq<u8>) {
        let b0 = varint_bytes(v.entity_id as u32);
        let b1 = <i8 as MD<'x>>::spec_serialize(v.yaw);
        let b2 = <i8 as MD<'x>>::spec_serialize(v.pitch);
        let b3 = <bool as MD<'x>>::spec_serialize(v.on_ground);
        let t4 = rest;
        let t3 = b3 + t4;
        let t2 = b2 + t3;
        let t1 = b1 + t2;
        let t0 = b0 + t1;
        lemma_concat_associative(b0 + b1 + b2, b3, t4);
        lemma_concat_associative(b0 + b1, b2, t3);
        lemma_concat_associative(b0, b1, t2);
        lemma_varint_field_roundtrip(v.entity_id, t1);
        <i8 as MD<'x>>::lemma_roundtrip(v.yaw, t2);
        <i8 as MD<'x>>::lemma_roundtrip(v.pitch, t3);
        <bool as MD<'x>>::lemma_roundtrip(v.on_ground, t4);
    }

    fn deserialize(memory: &mut &'x [u8]) -> (res: Result<EntityLookResponse, ParseError>) {
        let entity_id: i32 = read_varint(memory)?;
        let yaw: i8 = <i8 as MD<'x>>::deserialize(memory)?;
        let pitch: i8 = <i8 as MD<'x>>::deserialize(memory)?;
        let on_ground: bool = <bool as MD<'x>>::deserialize(memory)?;
        Ok(EntityLookResponse { entity_id, yaw, pitch, on_ground })
    }

    fn serialize(&self, writer: &mut Vec<u8>) {
        let ghost v = self.deep_view();
        write_varint(writer, 0x2b);
        let ghost a = writer@;
        assert(old(writer)@ + Self::spec_header() =~= a);
        write_varint(writer, self.entity_id as u32);
        self.yaw.serialize(writer);
        proof {
            lemma_write_next(a, varint_bytes(v.entity_id as u32), <i8 as MD<'x>>::spec_header(), <i8 as MD<'x>>::spec_serialize(v.yaw));
        }
        self.pitch.serialize(writer);
        proof {
            lemma_write_next(a, varint_bytes(v.entity_id as u32) + <i8 as MD<'x>>::spec_serialize(v.yaw), <i8 as MD<'x>>::spec_header(), <i8 as MD<'x>>::spec_serialize(v.pitch));
        }
        self.on_ground.serialize(writer);
        proof {
            lemma_write_next(a, varint_bytes(v.entity_id as u32) + <i8 as MD<'x>>::spec_serialize(v.yaw) + <i8 as MD<'x>>::spec_serialize(v.pitch), <bool as MD<'x>>::spec_header(), <bool as MD<'x>>::spec_serialize(v.on_ground));
        }
    }
}

/// Packet `0x2c` of the play state, sent by the server.
#[derive(Debug)]
pub struct VehicleMoveResponse {
    /// The IEEE 754 bits of the `f64` value.
    pub x: u64,
    /// The IEEE 754 bits of the `f64` value.
    pub y: u64,
    /// The IEEE 754 bits of the `f64` value.
    pub z: u64,
    /// The IEEE 754 bits of the `f32` value.
    pub yaw: u32,
    /// The IEEE 754 bits of the `f32` value.
    pub pitch: u32,
}

impl DeepView for VehicleMoveResponse {
    type V = VehicleMoveResponse;

    open spec fn deep_view(&self) -> VehicleMoveResponse {
        *self
    }
}

impl<'x> MD<'x> for VehicleMoveResponse {
    open spec fn spec_deserialize(s0: Seq<u8>) -> Option<(VehicleMoveResponse, Seq<u8>)> {
        match <u64 as MD<'x>>::spec_deserialize(s0) {
            Some((x, s1)) => {
                match <u64 as MD<'x>>::spec_deserialize(s1) {
                    Some((y, s2)) => {
                        match <u64 as MD<'x>>::spec_deserialize(s2) {
                            Some((z, s3)) => {
                                match <u32 as MD<'x>>::spec_deserialize(s3) {
                                    Some((yaw, s4)) => {
                                        match <u32 as MD<'x>>::spec_deserialize(s4) {
                                            Some((pitch, s5)) => {
                                                Some((VehicleMoveResponse { x, y, z, yaw, pitch }, s5))
                                            },
                                            None => None,
                                        }
                                    },
                                    None => None,
                                }
                            },
                            None => None,
                        }
                    },
                    None => None,
                }
            },
            None => None,
        }
    }

    open spec fn serializable() -> bool {
        <u64 as MD<'x>>::serializable() && <u64 as MD<'x>>::serializable() && <u64 as MD<'x>>::serializable() && <u32 as MD<'x>>::serializable() && <u32 as MD<'x>>::serializable()
    }

    open spec fn spec_header() -> Seq<u8> {
        varint_bytes(0x2c)
    }

    open spec fn takes_rest() -> bool {
        false
    }

    open spec fn spec_serialize(v: VehicleMoveResponse) -> Seq<u8> {
        <u64 as MD<'x>>::spec_serialize(v.x) + <u64 as MD<'x>>::spec_serialize(v.y) + <u64 as MD<'x>>::spec_serialize(v.z) + <u32 as MD<'x>>::spec_serialize(v.yaw) + <u32 as MD<'x>>::spec_serialize(v.pitch)
    }

    open spec fn encodable(v: VehicleMoveResponse) -> bool {
        Self::serializable() && <u64 as MD<'x>>::encodable(v.x) && <u64 as MD<'x>>::encodable(v.y) && <u64 as MD<'x>>::encodable(v.z) && <u32 as MD<'x>>::encodable(v.yaw) && <u32 as MD<'x>>::encodable(v.pitch)
    }

    proof fn lemma_roundtrip(v: VehicleMoveResponse, rest: Seq<u8>) {
        let b0 = <u64 as MD<'x>>::spec_serialize(v.x);
        let b1 = <u64 as MD<'x>>::spec_serialize(v.y);
        let b2 = <u64 as MD<'x>>::spec_serialize(v.z);
        let b3 = <u32 as MD<'x>>::spec_serialize(v.yaw);
        let b4 = <u32 as MD<'x>>::spec_serialize(v.pitch);
        let t5 = rest;
        let t4 = b4 + t5;
        let t3 = b3 + t4;
        let t2 = b2 + t3;
        let t1 = b1 + t2;
        let t0 = b0 + t1;
        lemma_concat_associative(b0 + b1 + b2 + b3, b4, t5);
        lemma_concat_associative(b0 + b1 + b2, b3, t4);
        lemma_concat_associative(b0 + b1, b2, t3);
        lemma_concat_associative(b0, b1, t2);
        <u64 as MD<'x>>::lemma_roundtrip(v.x, t1);
        <u64 as MD<'x>>::lemma_roundtrip(v.y, t2);
        <u64 as MD<'x>>::lemma_roundtrip(v.z, t3);
        <u32 as MD<'x>>::lemma_roundtrip(v.yaw, t4);
        <u32 as MD<'x>>::lemma_roundtrip(v.pitch, t5);
    }

    fn deserialize(memory: &mut &'x [u8]) -> (res: Result<VehicleMoveResponse, ParseError>) {
        let x: u64 = <u64 as MD<'x>>::deserialize(memory)?;
        let y: u64 = <u64 as MD<'x>>::deserialize(memory)?;
        let z: u64 = <u64 as MD<'x>>::deserialize(memory)?;
        let yaw: u32 = <u32 as MD<'x>>::deserialize(memory)?;
        let pitch: u32 = <u32 as MD<'x>>::deserialize(memory)?;
        Ok(VehicleMoveResponse { x, y, z, yaw, pitch })
    }

    fn serialize(&self, writer: &mut Vec<u8>) {
        let ghost v = self.deep_view();
        write_varint(writer, 0x2c);
        let ghost a = writer@;
        assert(old(writer)@ + Self::spec_header() =~= a);
        self.x.serialize(writer);
        proof {
            lemma_write_after_header(a, <u64 as MD<'x>>::spec_header(), <u64 as MD<'x>>::spec_serialize(v.x));
        }
        self.y.serialize(writer);
        proof {
            lemma_write_next(a, <u64 as MD<'x>>::spec_serialize(v.x), <u64 as MD<'x>>::spec_header(), <u64 as MD<'x>>::spec_serialize(v.y));
        }
        self.z.serialize(writer);
        proof {
            lemma_write_next(a, <u64 as MD<'x>>::spec_serialize(v.x) + <u64 as MD<'x>>::spec_serialize(v.y), <u64 as MD<'x>>::spec_header(), <u64 as MD<'x>>::spec_serialize(v.z));
        }
        self.yaw.serialize(writer);
        proof {
            lemma_write_next(a, <u64 as MD<'x>>::spec_serialize(v.x) + <u64 as MD<'x>>::spec_serialize(v.y) + <u64 as MD<'x>>::spec_serialize(v.z), <u32 as MD<'x>>::spec_header(), <u32 as MD<'x>>::spec_serialize(v.yaw));
        }
        self.pitch.serialize(writer);
        proof {
            lemma_write_next(a, <u64 as MD<'x>>::spec_serialize(v.x) + <u64 as MD<'x>>::spec_serialize(v.y) + <u64 as MD<'x>>::spec_serialize(v.z) + <u32 as MD<'x>>::spec_serialize(v.yaw), <u32 as MD<'x>>::spec_header(), <u32 as MD<'x>>::spec_serialize(v.pitch));
        }
    }
}

/// Packet `0x2d` of the play state, sent by the server.
#[derive(Debug)]
pub struct OpenBookResponse {
    pub hand: i32,
}

impl DeepView for OpenBookResponse {
    type V = OpenBookResponse;

    open spec fn deep_view(&self) -> OpenBookResponse {
        *self
    }
}

impl<'x> MD<'x> for OpenBookResponse {
    open spec fn spec_deserialize(s0: Seq<u8>) -> Option<(OpenBookResponse, Seq<u8>)> {
        match varint_field(s0) {
            Some((hand, s1)) => {
                Some((OpenBookResponse { hand }, s1))
            },
            None => None,
        }
    }

    open spec fn serializable() -> bool {
        true
    }

    open spec fn spec_header() -> Seq<u8> {
        varint_bytes(0x2d)
    }

    open spec fn takes_rest() -> bool {
        false
    }

    open spec fn spec_serialize(v: OpenBookResponse) -> Seq<u8> {
        varint_bytes(v.hand as u32)
    }

    open spec fn encodable(v: OpenBookResponse) -> bool {
        Self::serializable()
    }

    proof fn lemma_roundtrip(v: OpenBookResponse, rest: Seq<u8>) {
        let b0 = varint_bytes(v.hand as u32);
        let t1 = rest;
        let t0 = b0 + t1;
        assert(Self::spec_serialize(v) + rest == t0);
        lemma_varint_field_roundtrip(v.hand, t1);
    }

    fn deserialize(memory: &mut &'x [u8]) -> (res: Result<OpenBookResponse, ParseError>) {
        let hand: i32 = read_varint(memory)?;
        Ok(OpenBookResponse { hand })
    }

    fn serialize(&self, writer: &mut Vec<u8>) {
        let ghost v = self.deep_view();
        write_varint(writer, 0x2d);
        let ghost a = writer@;
        assert(old(writer)@ + Self::spec_header() =~= a);
        write_varint(writer, self.hand as u32);
    }
}

/// Packet `0x2f` of the play state, sent by the server.
#[derive(Debug)]
pub struct OpenSignEntityResponse {
    pub location: Position,
}

impl DeepView for OpenSignEntityResponse {
    type V = OpenSignEntityResponse;

    open spec fn deep_view(&self) -> OpenSignEntityResponse {
        *self
    }
}

impl<'x> MD<'x> for OpenSignEntityResponse {
    open spec fn spec_deserialize(s0: Seq<u8>) -> Option<(OpenSignEntityResponse, Seq<u8>)> {
        match <Position as MD<'x>>::spec_deserialize(s0) {
            Some((location, s1)) => {
                Some((OpenSignEntityResponse { location }, s1))
            },
            None => None,
        }
    }

    open spec fn serializable() -> bool {
        <Position as MD<'x>>::serializable()
    }

    open spec fn spec_header() -> Seq<u8> {
        varint_bytes(0x2f)
    }

    open spec fn takes_rest() -> bool {
        false
    }

    open spec fn spec_serialize(v: OpenSignEntityResponse) -> Seq<u8> {
        <Position as MD<'x>>::spec_serialize(v.location)
    }

    open spec fn encodable(v: OpenSignEntityResponse) -> bool {
        Self::serializable() && <Position as MD<'x>>::encodable(v.location)
    }

    proof fn lemma_roundtrip(v: OpenSignEntityResponse, rest: Seq<u8>) {
        let b0 = <Position as MD<'x>>::spec_serialize(v.location);
        let t1 = rest;
        let t0 = b0 + t1;
        assert(Self::spec_serialize(v) + rest == t0);
        <Position as MD<'x>>::lemma_roundtrip(v.location, t1);
    }

    fn deserialize(memory: &mut &'x [u8]) -> (res: Result<OpenSignEntityResponse, ParseError>) {
        let location: Position = <Position as MD<'x>>::deserialize(memory)?;
        Ok(OpenSignEntityResponse { location })
    }

    fn serialize(&self, writer: &mut Vec<u8>) {
        let ghost v = self.deep_view();
        write_varint(writer, 0x2f);
        let ghost a = writer@;
        assert(old(writer)@ + Self::spec_header() =~= a);
        self.location.serialize(writer);
        proof {
            lemma_write_after_header(a, <Position as MD<'x>>::spec_header(), <Position as MD<'x>>::spec_serialize(v.location));
        }
    }
}

/// Packet `0x31` of the play state, sent by the server.
#[derive(Debug)]
pub struct CraftRecipeResponse<'x> {
    pub window_id: i8,
    pub recipe: &'x str,
}

/// What a `CraftRecipeResponse` holds.
pub struct CraftRecipeResponseView {
    pub window_id: i8,
    pub recipe: Seq<char>,
}

impl<'x> DeepView for CraftRecipeResponse<'x> {
    type V = CraftRecipeResponseView;

    open spec fn deep_view(&self) -> CraftRecipeResponseView {
        CraftRecipeResponseView { window_id: self.window_id, recipe: self.recipe.deep_view() }
    }
}

impl<'x> MD<'x> for CraftRecipeResponse<'x> {
    open spec fn spec_deserialize(s0: Seq<u8>) -> Option<(CraftRecipeResponseView, Seq<u8>)> {
        match <i8 as MD<'x>>::spec_deserialize(s0) {
            Some((window_id, s1)) => {
                match <&'x str as MD<'x>>::spec_deserialize(s1) {
                    Some((recipe, s2)) => {
                        Some((CraftRecipeResponseView { window_id, recipe }, s2))
                    },
                    None => None,
                }
            },
            None => None,
        }
    }

    open spec fn serializable() -> bool {
        <i8 as MD<'x>>::serializable() && <&'x str as MD<'x>>::serializable()
    }

    open spec fn spec_header() -> Seq<u8> {
        varint_bytes(0x31)
    }

    open spec fn takes_rest() -> bool {
        false
    }

    open spec fn spec_serialize(v: CraftRecipeResponseView) -> Seq<u8> {
        <i8 as MD<'x>>::spec_serialize(v.window_id) + <&'x str as MD<'x>>::spec_serialize(v.recipe)
    }

    open spec fn encodable(v: CraftRecipeResponseView) -> bool {
        Self::serializable() && <i8 as MD<'x>>::encodable(v.window_id) && <&'x str as MD<'x>>::encodable(v.recipe)
    }

    proof fn lemma_roundtrip(v: CraftRecipeResponseView, rest: Seq<u8>) {
        let b0 = <i8 as MD<'x>>::spec_serialize(v.window_id);
        let b1 = <&'x str as MD<'x>>::spec_serialize(v.recipe);
        let t2 = rest;
        let t1 = b1 + t2;
        let t0 = b0 + t1;
        lemma_concat_associative(b0, b1, t2);
        <i8 as MD<'x>>::lemma_roundtrip(v.window_id, t1);
        <&'x str as MD<'x>>::lemma_roundtrip(v.recipe, t2);
    }

    fn deserialize(memory: &mut &'x [u8]) -> (res: Result<CraftRecipeResponse<'x>, ParseError>) {
        let window_id: i8 = <i8 as MD<'x>>::deserialize(memory)?;
        let recipe: &'x str = <&'x str as MD<'x>>::deserialize(memory)?;
        Ok(CraftRecipeResponse { window_id, recipe })
    }

    fn serialize(&self, writer: &mut Vec<u8>) {
        let ghost v = self.deep_view();
        write_varint(writer, 0x31);
        let ghost a = writer@;
        assert(old(writer)@ + Self::spec_header() =~= a);
        self.window_id.serialize(writer);
        proof {
            lemma_write_after_header(a, <i8 as MD<'x>>::spec_header(), <i8 as MD<'x>>::spec_serialize(v.window_id));
        }
        self.recipe.serialize(writer);
        proof {
            lemma_write_next(a, <i8 as MD<'x>>::spec_serialize(v.window_id), <&'x str as MD<'x>>::spec_header(), <&'x str as MD<'x>>::spec_serialize(v.recipe));
        }
    }
}

/// Packet `0x32` of the play state, sent by the server.
#[derive(Debug)]
pub struct AbilitiesResponse {
    pub flags: i8,
    /// The IEEE 754 bits of the `f32` value.
    pub flying_speed: u32,
    /// The IEEE 754 bits of the `f32` value.
    pub walking_speed: u32,
}

impl DeepView for AbilitiesResponse {
    type V = AbilitiesResponse;

    open spec fn deep_view(&self) -> AbilitiesResponse {
        *self
    }
}

impl<'x> MD<'x> for AbilitiesResponse {
    open spec fn spec_deserialize(s0: Seq<u8>) -> Option<(AbilitiesResponse, Seq<u8>)> {
        match <i8 as MD<'x>>::spec_deserialize(s0) {
            Some((flags, s1)) => {
                match <u32 as MD<'x>>::spec_deserialize(s1) {
                    Some((flying_speed, s2)) => {
                        match <u32 as MD<'x>>::spec_deserialize(s2) {
                            Some((walking_speed, s3)) => {
                                Some((AbilitiesResponse { flags, flying_speed, walking_speed }, s3))
                            },
                            None => None,
                        }
                    },
                    None => None,
                }
            },
            None => None,
        }
    }

    open spec fn serializable() -> bool {
        <i8 as MD<'x>>::serializable() && <u32 as MD<'x>>::serializable() && <u32 as MD<'x>>::serializable()
    }

    open spec fn spec_header() -> Seq<u8> {
        varint_bytes(0x32)
    }

    open spec fn takes_rest() -> bool {
        false
    }

    open spec fn spec_serialize(v: AbilitiesResponse) -> Seq<u8> {
        <i8 as MD<'x>>::spec_serialize(v.flags) + <u32 as MD<'x>>::spec_serialize(v.flying_speed) + <u32 as MD<'x>>::spec_serialize(v.walking_speed)
    }

    open spec fn encodable(v: AbilitiesResponse) -> bool {
        Self::serializable() && <i8 as MD<'x>>::encodable(v.flags) && <u32 as MD<'x>>::encodable(v.flying_speed) && <u32 as MD<'x>>::encodable(v.walking_speed)
    }

    proof fn lemma_roundtrip(v: AbilitiesResponse, rest: Seq<u8>) {
        let b0 = <i8 as MD<'x>>::spec_serialize(v.flags);
        let b1 = <u32 as MD<'x>>::spec_serialize(v.flying_speed);
        let b2 = <u32 as MD<'x>>::spec_serialize(v.walking_speed);
        let t3 = rest;
        let t2 = b2 + t3;
        let t1 = b1 + t2;
        let t0 = b0 + t1;
        lemma_concat_associative(b0 + b1, b2, t3);
        lemma_concat_associative(b0, b1, t2);
        <i8 as MD<'x>>::lemma_roundtrip(v.flags, t1);
        <u32 as MD<'x>>::lemma_roundtrip(v.flying_speed, t2);
        <u32 as MD<'x>>::lemma_roundtrip(v.walking_speed, t3);
    }

    fn deserialize(memory: &mut &'x [u8]) -> (res: Result<AbilitiesResponse, ParseError>) {
        let flags: i8 = <i8 as MD<'x>>::deserialize(memory)?;
        let flying_speed: u32 = <u32 as MD<'x>>::deserialize(memory)?;
        let walking_speed: u32 = <u32 as MD<'x>>::deserialize(memory)?;
        Ok(AbilitiesResponse { flags, flying_speed, walking_speed })
    }

    fn serialize(&self, writer: &mut Vec<u8>) {
        let ghost v = self.deep_view();
        write_varint(writer, 0x32);
        let ghost a = writer@;
        assert(old(writer)@ + Self::spec_header() =~= a);
        self.flags.serialize(writer);
        proof {
            lemma_write_after_header(a, <i8 as MD<'x>>::spec_header(), <i8 as MD<'x>>::spec_serialize(v.flags));
        }
        self.flying_speed.serialize(writer);
        proof {
            lemma_write_next(a, <i8 as MD<'x>>::spec_serialize(v.flags), <u32 as MD<'x>>::spec_header(), <u32 as MD<'x>>::spec_serialize(v.flying_speed));
        }
        self.walking_speed.serialize(writer);
        proof {
            lemma_write_next(a, <i8 as MD<'x>>::spec_serialize(v.flags) + <u32 as MD<'x>>::spec_serialize(v.flying_speed), <u32 as MD<'x>>::spec_header(), <u32 as MD<'x>>::spec_serialize(v.walking_speed));
        }
    }
}

/// Packet `0x33` of the play state, sent by the server.
#[derive(Debug)]
pub struct EndCombatEventResponse {
    pub duration: i32,
    pub entity_id: i32,
}

impl DeepView for EndCombatEventResponse {
    type V = EndCombatEventResponse;

    open spec fn deep_view(&self) -> EndCombatEventResponse {
        *self
    }
}

impl<'x> MD<'x> for EndCombatEventResponse {
    open spec fn spec_deserialize(s0: Seq<u8>) -> Option<(EndCombatEventResponse, Seq<u8>)> {
        match varint_field(s0) {
            Some((duration, s1)) => {
                match <i32 as MD<'x>>::spec_deserialize(s1) {
                    Some((entity_id, s2)) => {
                        Some((EndCombatEventResponse { duration, entity_id }, s2))
                    },
                    None => None,
                }
            },
            None => None,
        }
    }

    open spec fn serializable() -> bool {
        <i32 as MD<'x>>::serializable()
    }

    open spec fn spec_header() -> Seq<u8> {
        varint_bytes(0x33)
    }

    open spec fn takes_rest() -> bool {
        false
    }

    open spec fn spec_serialize(v: EndCombatEventResponse) -> Seq<u8> {
        varint_bytes(v.duration as u32) + <i32 as MD<'x>>::spec_serialize(v.entity_id)
    }

    open spec fn encodable(v: EndCombatEventResponse) -> bool {
        Self::serializable() && <i32 as MD<'x>>::encodable(v.entity_id)
    }

    proof fn lemma_roundtrip(v: EndCombatEventResponse, rest: Seq<u8>) {
        let b0 = varint_bytes(v.duration as u32);
        let b1 = <i32 as MD<'x>>::spec_serialize(v.entity_id);
        let t2 = rest;
        let t1 = b1 + t2;
        let t0 = b0 + t1;
        lemma_concat_associative(b0, b1, t2);
        lemma_varint_field_roundtrip(v.duration, t1);
        <i32 as MD<'x>>::lemma_roundtrip(v.entity_id, t2);
    }

    fn deserialize(memory: &mut &'x [u8]) -> (res: Result<EndCombatEventResponse, ParseError>) {
        let duration: i32 = read_varint(memory)?;
        let entity_id: i32 = <i32 as MD<'x>>::deserialize(memory)?;
        Ok(EndCombatEventResponse { duration, entity_id })
    }

    fn serialize(&self, writer: &mut Vec<u8>) {
        let ghost v = self.deep_view();
        write_varint(writer, 0x33);
        let ghost a = writer@;
        assert(old(writer)@ + Self::spec_header() =~= a);
        write_varint(writer, self.duration as u32);
        self.entity_id.serialize(writer);
        proof {
            lemma_write_next(a, varint_bytes(v.duration as u32), <i32 as MD<'x>>::spec_header(), <i32 as MD<'x>>::spec_serialize(v.entity_id));
        }
    }
}

/// Packet `0x34` of the play state, sent by the server.
#[derive(Debug)]
pub struct EnterCombatEventResponse {}

impl DeepView for EnterCombatEventResponse {
    type V = EnterCombatEventResponse;

    open spec fn deep_view(&self) -> EnterCombatEventResponse {
        *self
    }
}

impl<'x> MD<'x> for EnterCombatEventResponse {
    open spec fn spec_deserialize(s0: Seq<u8>) -> Option<(EnterCombatEventResponse, Seq<u8>)> {
        Some((EnterCombatEventResponse {}, s0))
    }

    open spec fn serializable() -> bool {
        true
    }

    open spec fn spec_header() -> Seq<u8> {
        varint_bytes(0x34)
    }

    open spec fn takes_rest() -> bool {
        false
    }

    open spec fn spec_serialize(v: EnterCombatEventResponse) -> Seq<u8> {
        Seq::empty()
    }

    open spec fn encodable(v: EnterCombatEventResponse) -> bool {
        Self::serializable()
    }

    proof fn lemma_roundtrip(v: EnterCombatEventResponse, rest: Seq<u8>) {
        assert(Seq::<u8>::empty() + rest =~= rest);
    }

    fn deserialize(memory: &mut &'x [u8]) -> (res: Result<EnterCombatEventResponse, ParseError>) {
        Ok(EnterCombatEventResponse {})
    }

    fn serialize(&self, writer: &mut Vec<u8>) {
        let ghost v = self.deep_view();
        write_varint(writer, 0x34);
        let ghost a = writer@;
        assert(old(writer)@ + Self::spec_header() =~= a);
        assert(a + Self::spec_serialize(v) =~= a);
    }
}

/// Packet `0x35` of the play state, sent by the server.
#[derive(Debug)]
pub struct DeathCombatEventResponse<'x> {
    pub player_id: i32,
    pub entity_id: i32,
    pub message: &'x str,
}

/// What a `DeathCombatEventResponse` holds.
pub struct DeathCombatEventResponseView {
    pub player_id: i32,
    pub entity_id: i32,
    pub message: Seq<char>,
}

impl<'x> DeepView for DeathCombatEventResponse<'x> {
    type V = DeathCombatEventResponseView;

    open spec fn deep_view(&self) -> DeathCombatEventResponseView {
        DeathCombatEventResponseView { player_id: self.player_id, entity_id: self.entity_id, message: self.message.deep_view() }
    }
}

impl<'x> MD<'x> for DeathCombatEventResponse<'x> {
    open spec fn spec_deserialize(s0: Seq<u8>) -> Option<(DeathCombatEventResponseView, Seq<u8>)> {
        match varint_field(s0) {
            Some((player_id, s1)) => {
                match <i32 as MD<'x>>::spec_deserialize(s1) {
                    Some((entity_id, s2)) => {
                        match <&'x str as MD<'x>>::spec_deserialize(s2) {
                            Some((message, s3)) => {
                                Some((DeathCombatEventResponseView { player_id, entity_id, message }, s3))
                            },
                            None => None,
                        }
                    },
                    None => None,
                }
            },
            None => None,
        }
    }

    open spec fn serializable() -> bool {
        <i32 as MD<'x>>::serializable() && <&'x str as MD<'x>>::serializable()
    }

    open spec fn spec_header() -> Seq<u8> {
        varint_bytes(0x35)
    }

    open spec fn takes_rest() -> bool {
        false
    }

    open spec fn spec_serialize(v: DeathCombatEventResponseView) -> Seq<u8> {
        varint_bytes(v.player_id as u32) + <i32 as MD<'x>>::spec_serialize(v.entity_id) + <&'x str as MD<'x>>::spec_serialize(v.message)
    }

    open spec fn encodable(v: DeathCombatEventResponseView) -> bool {
        Self::serializable() && <i32 as MD<'x>>::encodable(v.entity_id) && <&'x str as MD<'x>>::encodable(v.message)
    }

    proof fn lemma_roundtrip(v: DeathCombatEventResponseView, rest: Seq<u8>) {
        let b0 = varint_bytes(v.player_id as u32);
        let b1 = <i32 as MD<'x>>::spec_serialize(v.entity_id);
        let b2 = <&'x str as MD<'x>>::spec_serialize(v.message);
        let t3 = rest;
        let t2 = b2 + t3;
        let t1 = b1 + t2;
        let t0 = b0 + t1;
        lemma_concat_associative(b0 + b1, b2, t3);
        lemma_concat_associative(b0, b1, t2);
        lemma_varint_field_roundtrip(v.player_id, t1);
        <i32 as MD<'x>>::lemma_roundtrip(v.entity_id, t2);
        <&'x str as MD<'x>>::lemma_roundtrip(v.message, t3);
    }

    fn deserialize(memory: &mut &'x [u8]) -> (res: Result<DeathCombatEventResponse<'x>, ParseError>) {
        let player_id: i32 = read_varint(memory)?;
        let entity_id: i32 = <i32 as MD<'x>>::deserialize(memory)?;
        let message: &'x str = <&'x str as MD<'x>>::deserialize(memory)?;
        Ok(DeathCombatEventResponse { player_id, entity_id, message })
    }

    fn serialize(&self, writer: &mut Vec<u8>) {
        let ghost v = self.deep_view();
        write_varint(writer, 0x35);
        let ghost a = writer@;
        assert(old(writer)@ + Self::spec_header() =~= a);
        write_varint(writer, self.player_id as u32);
        self.entity_id.serialize(writer);
        proof {
            lemma_write_next(a, varint_bytes(v.player_id as u32), <i32 as MD<'x>>::spec_header(), <i32 as MD<'x>>::spec_serialize(v.entity_id));
        }
        self.message.serialize(writer);
        proof {
            lemma_write_next(a, varint_bytes(v.player_id as u32) + <i32 as MD<'x>>::spec_serialize(v.entity_id), <&'x str as MD<'x>>::spec_header(), <&'x str as MD<'x>>::spec_serialize(v.message));
        }
    }
}

/// Its fields are not decoded: nothing is read for it.
#[derive(Debug)]
pub struct PlayerInfoResponse_Data {}

impl DeepView for PlayerInfoResponse_Data {
    type V = PlayerInfoResponse_Data;

    open spec fn deep_view(&self) -> PlayerInfoResponse_Data {
        *self
    }
}

impl<'x> MD<'x> for PlayerInfoResponse_Data {
    open spec fn spec_deserialize(s0: Seq<u8>) -> Option<(PlayerInfoResponse_Data, Seq<u8>)> {
        Some((PlayerInfoResponse_Data {}, s0))
    }

    open spec fn serializable() -> bool {
        true
    }

    open spec fn spec_header() -> Seq<u8> {
        Seq::empty()
    }

    open spec fn takes_rest() -> bool {
        false
    }

    open spec fn spec_serialize(v: PlayerInfoResponse_Data) -> Seq<u8> {
        Seq::empty()
    }

    open spec fn encodable(v: PlayerInfoResponse_Data) -> bool {
        Self::serializable()
    }

    proof fn lemma_roundtrip(v: PlayerInfoResponse_Data, rest: Seq<u8>) {
        assert(Seq::<u8>::empty() + rest =~= rest);
    }

    fn deserialize(memory: &mut &'x [u8]) -> (res: Result<PlayerInfoResponse_Data, ParseError>) {
        Ok(PlayerInfoResponse_Data {})
    }

    fn serialize(&self, writer: &mut Vec<u8>) {
        let ghost v = self.deep_view();
        let ghost a = writer@;
        assert(old(writer)@ + Self::spec_header() =~= a);
        assert(a + Self::spec_serialize(v) =~= a);
    }
}

/// Packet `0x36` of the play state, sent by the server.
#[derive(Debug)]
pub struct PlayerInfoResponse {
    pub action: i32,
    pub data: Vec<PlayerInfoResponse_Data>,
}

/// What a `PlayerInfoResponse` holds.
pub struct PlayerInfoResponseView {
    pub action: i32,
    pub data: Seq<PlayerInfoResponse_Data>,
}

impl<'x> DeepView for PlayerInfoResponse {
    type V = PlayerInfoResponseView;

    open spec fn deep_view(&self) -> PlayerInfoResponseView {
        PlayerInfoResponseView { action: self.action, data: self.data.deep_view() }
    }
}

impl<'x> MD<'x> for PlayerInfoResponse {
    open spec fn spec_deserialize(s0: Seq<u8>) -> Option<(PlayerInfoResponseView, Seq<u8>)> {
        match varint_field(s0) {
            Some((action, s1)) => {
                match varint_field(s1) {
                    Some((data_count, s2)) => {
                        match spec_array::<'x, PlayerInfoResponse_Data>(s2, data_count as int) {
                            Some((data, s3)) => {
                                Some((PlayerInfoResponseView { action, data }, s3))
                            },
                            None => None,
                        }
                    },
                    None => None,
                }
            },
            None => None,
        }
    }

    open spec fn serializable() -> bool {
        false
    }

    open spec fn spec_header() -> Seq<u8> {
        Seq::empty()
    }

    open spec fn takes_rest() -> bool {
        false
    }

    open spec fn spec_serialize(v: PlayerInfoResponseView) -> Seq<u8> {
        Seq::empty()
    }

    open spec fn encodable(v: PlayerInfoResponseView) -> bool {
        Self::serializable()
    }

    proof fn lemma_roundtrip(v: PlayerInfoResponseView, rest: Seq<u8>) {
    }

    fn deserialize(memory: &mut &'x [u8]) -> (res: Result<PlayerInfoResponse, ParseError>) {
        let action: i32 = read_varint(memory)?;
        let data_count: i32 = read_varint(memory)?;
        let data: Vec<PlayerInfoResponse_Data> = read_array(memory, data_count)?;
        Ok(PlayerInfoResponse { action, data })
    }

    fn serialize(&self, writer: &mut Vec<u8>) {
    }
}

/// Packet `0x38` of the play state, sent by the server.
#[derive(Debug)]
pub struct PositionResponse {
    /// The IEEE 754 bits of the `f64` value.
    pub x: u64,
    /// The IEEE 754 bits of the `f64` value.
    pub y: u64,
    /// The IEEE 754 bits of the `f64` value.
    pub z: u64,
    /// The IEEE 754 bits of the `f32` value.
    pub yaw: u32,
    /// The IEEE 754 bits of the `f32` value.
    pub pitch: u32,
    pub flags: i8,
    pub teleport_id: i32,
    pub dismount_vehicle: bool,
}

impl DeepView for PositionResponse {
    type V = PositionResponse;

    open spec fn deep_view(&self) -> PositionResponse {
        *self
    }
}

impl<'x> MD<'x> for PositionResponse {
    open spec fn spec_deserialize(s0: Seq<u8>) -> Option<(PositionResponse, Seq<u8>)> {
        match <u64 as MD<'x>>::spec_deserialize(s0) {
            Some((x, s1)) => {
                match <u64 as MD<'x>>::spec_deserialize(s1) {
                    Some((y, s2)) => {
                        match <u64 as MD<'x>>::spec_deserialize(s2) {
                            Some((z, s3)) => {
                                match <u32 as MD<'x>>::spec_deserialize(s3) {
                                    Some((yaw, s4)) => {
                                        match <u32 as MD<'x>>::spec_deserialize(s4) {
                                            Some((pitch, s5)) => {
                                                match <i8 as MD<'x>>::spec_deserialize(s5) {
                                                    Some((flags, s6)) => {
                                                        match varint_field(s6) {
                                                            Some((teleport_id, s7)) => {
                                                                match <bool as MD<'x>>::spec_deserialize(s7) {
                                                                    Some((dismount_vehicle, s8)) => {
                                                                        Some((PositionResponse { x, y, z, yaw, pitch, flags, teleport_id, dismount_vehicle }, s8))
                                                                    },
                                                                    None => None,
                                                                }
                                                            },
                                                            None => None,
                                                        }
                                                    },
                                                    None => None,
                                                }
                                            },
                                            None => None,
                                        }
                                    },
                                    None => None,
                                }
                            },
                            None => None,
                        }
                    },
                    None => None,
                }
            },
            None => None,
        }
    }

    open spec fn serializable() -> bool {
        <u64 as MD<'x>>::serializable() && <u64 as MD<'x>>::serializable() && <u64 as MD<'x>>::serializable() && <u32 as MD<'x>>::serializable() && <u32 as MD<'x>>::serializable() && <i8 as MD<'x>>::serializable() && <bool as MD<'x>>::serializable()
    }

    open spec fn spec_header() -> Seq<u8> {
        varint_bytes(0x38)
    }

    open spec fn takes_rest() -> bool {
        false
    }

    open spec fn spec_serialize(v: PositionResponse) -> Seq<u8> {
        <u64 as MD<'x>>::spec_serialize(v.x) + <u64 as MD<'x>>::spec_serialize(v.y) + <u64 as MD<'x>>::spec_serialize(v.z) + <u32 as MD<'x>>::spec_serialize(v.yaw) + <u32 as MD<'x>>::spec_serialize(v.pitch) + <i8 as MD<'x>>::spec_serialize(v.flags) + varint_bytes(v.teleport_id as u32) + <bool as MD<'x>>::spec_serialize(v.dismount_vehicle)
    }

    open spec fn encodable(v: PositionResponse) -> bool {
        Self::serializable() && <u64 as MD<'x>>::encodable(v.x) && <u64 as MD<'x>>::encodable(v.y) && <u64 as MD<'x>>::encodable(v.z) && <u32 as MD<'x>>::encodable(v.yaw) && <u32 as MD<'x>>::encodable(v.pitch) && <i8 as MD<'x>>::encodable(v.flags) && <bool as MD<'x>>::encodable(v.dismount_vehicle)
    }

    proof fn lemma_roundtrip(v: PositionResponse, rest: Seq<u8>) {
        let b0 = <u64 as MD<'x>>::spec_serialize(v.x);
        let b1 = <u64 as MD<'x>>::spec_serialize(v.y);
        let b2 = <u64 as MD<'x>>::spec_serialize(v.z);
        let b3 = <u32 as MD<'x>>::spec_serialize(v.yaw);
        let b4 = <u32 as MD<'x>>::spec_serialize(v.pitch);
        let b5 = <i8 as MD<'x>>::spec_serialize(v.flags);
        let b6 = varint_bytes(v.teleport_id as u32);
        let b7 = <bool as MD<'x>>::spec_serialize(v.dismount_vehicle);
        let t8 = rest;
        let t7 = b7 + t8;
        let t6 = b6 + t7;
        let t5 = b5 + t6;
        let t4 = b4 + t5;
        let t3 = b3 + t4;
        let t2 = b2 + t3;
        let t1 = b1 + t2;
        let t0 = b0 + t1;
        lemma_concat_associative(b0 + b1 + b2 + b3 + b4 + b5 + b6, b7, t8);
        lemma_concat_associative(b0 + b1 + b2 + b3 + b4 + b5, b6, t7);
        lemma_concat_associative(b0 + b1 + b2 + b3 + b4, b5, t6);
        lemma_concat_associative(b0 + b1 + b2 + b3, b4, t5);
        lemma_concat_associative(b0 + b1 + b2, b3, t4);
        lemma_concat_associative(b0 + b1, b2, t3);
        lemma_concat_associative(b0, b1, t2);
        <u64 as MD<'x>>::lemma_roundtrip(v.x, t1);
        <u64 as MD<'x>>::lemma_roundtrip(v.y, t2);
        <u64 as MD<'x>>::lemma_roundtrip(v.z, t3);
        <u32 as MD<'x>>::lemma_roundtrip(v.yaw, t4);
        <u32 as MD<'x>>::lemma_roundtrip(v.pitch, t5);
        <i8 as MD<'x>>::lemma_roundtrip(v.flags, t6);
        lemma_varint_field_roundtrip(v.teleport_id, t7);
        <bool as MD<'x>>::lemma_roundtrip(v.dismount_vehicle, t8);
    }

    fn deserialize(memory: &mut &'x [u8]) -> (res: Result<PositionResponse, ParseError>) {
        let x: u64 = <u64 as MD<'x>>::deserialize(memory)?;
        let y: u64 = <u64 as MD<'x>>::deserialize(memory)?;
        let z: u64 = <u64 as MD<'x>>::deserialize(memory)?;
        let yaw: u32 = <u32 as MD<'x>>::deserialize(memory)?;
        let pitch: u32 = <u32 as MD<'x>>::deserialize(memory)?;
        let flags: i8 = <i8 as MD<'x>>::deserialize(memory)?;
        let teleport_id: i32 = read_varint(memory)?;
        let dismount_vehicle: bool = <bool as MD<'x>>::deserialize(memory)?;
        Ok(PositionResponse { x, y, z, yaw, pitch, flags, teleport_id, dismount_vehicle })
    }

    fn serialize(&self, writer: &mut Vec<u8>) {
        let ghost v = self.deep_view();
        write_varint(writer, 0x38);
        let ghost a = writer@;
        assert(old(writer)@ + Self::spec_header() =~= a);
        self.x.serialize(writer);
        proof {
            lemma_write_after_header(a, <u64 as MD<'x>>::spec_header(), <u64 as MD<'x>>::spec_serialize(v.x));
        }
        self.y.serialize(writer);
        proof {
            lemma_write_next(a, <u64 as MD<'x>>::spec_serialize(v.x), <u64 as MD<'x>>::spec_header(), <u64 as MD<'x>>::spec_serialize(v.y));
        }
        self.z.serialize(writer);
        proof {
            lemma_write_next(a, <u64 as MD<'x>>::spec_serialize(v.x) + <u64 as MD<'x>>::spec_serialize(v.y), <u64 as MD<'x>>::spec_header(), <u64 as MD<'x>>::spec_serialize(v.z));
        }
        self.yaw.serialize(writer);
        proof {
            lemma_write_next(a, <u64 as MD<'x>>::spec_serialize(v.x) + <u64 as MD<'x>>::spec_serialize(v.y) + <u64 as MD<'x>>::spec_serialize(v.z), <u32 as MD<'x>>::spec_header(), <u32 as MD<'x>>::spec_serialize(v.yaw));
        }
        self.pitch.serialize(writer);
        proof {
            lemma_write_next(a, <u64 as MD<'x>>::spec_serialize(v.x) + <u64 as MD<'x>>::spec_serialize(v.y) + <u64 as MD<'x>>::spec_serialize(v.z) + <u32 as MD<'x>>::spec_serialize(v.yaw), <u32 as MD<'x>>::spec_header(), <u32 as MD<'x>>::spec_serialize(v.pitch));
        }
        self.flags.serialize(writer);
        proof {
            lemma_write_next(a, <u64 as MD<'x>>::spec_serialize(v.x) + <u64 as MD<'x>>::spec_serialize(v.y) + <u64 as MD<'x>>::spec_serialize(v.z) + <u32 as MD<'x>>::spec_serialize(v.yaw) + <u32 as MD<'x>>::spec_serialize(v.pitch), <i8 as MD<'x>>::spec_header(), <i8 as MD<'x>>::spec_serialize(v.flags));
        }
        write_varint(writer, self.teleport_id as u32);
        proof {
            lemma_concat_associative(a, <u64 as MD<'x>>::spec_serialize(v.x) + <u64 as MD<'x>>::spec_serialize(v.y) + <u64 as MD<'x>>::spec_serialize(v.z) + <u32 as MD<'x>>::spec_serialize(v.yaw) + <u32 as MD<'x>>::spec_serialize(v.pitch) + <i8 as MD<'x>>::spec_serialize(v.flags), varint_bytes(v.teleport_id as u32));
        }
        self.dismount_vehicle.serialize(writer);
        proof {
            lemma_write_next(a, <u64 as MD<'x>>::spec_serialize(v.x) + <u64 as MD<'x>>::spec_serialize(v.y) + <u64 as MD<'x>>::spec_serialize(v.z) + <u32 as MD<'x>>::spec_serialize(v.yaw) + <u32 as MD<'x>>::spec_serialize(v.pitch) + <i8 as MD<'x>>::spec_serialize(v.flags) + varint_bytes(v.teleport_id as u32), <bool as MD<'x>>::spec_header(), <bool as MD<'x>>::spec_serialize(v.dismount_vehicle));
        }
    }
}

/// Packet `0x39` of the play state, sent by the server.
/// Its fields are not decoded: nothing is read for it.
#[derive(Debug)]
pub struct UnlockRecipesResponse {}

impl DeepView for UnlockRecipesResponse {
    type V = UnlockRecipesResponse;

    open spec fn deep_view(&self) -> UnlockRecipesResponse {
        *self
    }
}

impl<'x> MD<'x> for UnlockRecipesResponse {
    open spec fn spec_deserialize(s0: Seq<u8>) -> Option<(UnlockRecipesResponse, Seq<u8>)> {
        Some((UnlockRecipesResponse {}, s0))
    }

    open spec fn serializable() -> bool {
        true
    }

    open spec fn spec_header() -> Seq<u8> {
        varint_bytes(0x39)
    }

    open spec fn takes_rest() -> bool {
        false
    }

    open spec fn spec_serialize(v: UnlockRecipesResponse) -> Seq<u8> {
        Seq::empty()
    }

    open spec fn encodable(v: UnlockRecipesResponse) -> bool {
        Self::serializable()
    }

    proof fn lemma_roundtrip(v: UnlockRecipesResponse, rest: Seq<u8>) {
        assert(Seq::<u8>::empty() + rest =~= rest);
    }

    fn deserialize(memory: &mut &'x [u8]) -> (res: Result<UnlockRecipesResponse, ParseError>) {
        Ok(UnlockRecipesResponse {})
    }

    fn serialize(&self, writer: &mut Vec<u8>) {
        let ghost v = self.deep_view();
        write_varint(writer, 0x39);
        let ghost a = writer@;
        assert(old(writer)@ + Self::spec_header() =~= a);
        assert(a + Self::spec_serialize(v) =~= a);
    }
}

/// Packet `0x3a` of the play state, sent by the server.
#[derive(Debug)]
pub struct EntityDestroyResponse {
    pub entity_ids: Vec<i32>,
}

/// What a `EntityDestroyResponse` holds.
pub struct EntityDestroyResponseView {
    pub entity_ids: Seq<i32>,
}

impl<'x> DeepView for EntityDestroyResponse {
    type V = EntityDestroyResponseView;

    open spec fn deep_view(&self) -> EntityDestroyResponseView {
        EntityDestroyResponseView { entity_ids: self.entity_ids@ }
    }
}

impl<'x> MD<'x> for EntityDestroyResponse {
    open spec fn spec_deserialize(s0: Seq<u8>) -> Option<(EntityDestroyResponseView, Seq<u8>)> {
        match varint_field(s0) {
            Some((entity_ids_count, s1)) => {
                match spec_varint_array(s1, entity_ids_count as int) {
                    Some((entity_ids, s2)) => {
                        Some((EntityDestroyResponseView { entity_ids }, s2))
                    },
                    None => None,
                }
            },
            None => None,
        }
    }

    open spec fn serializable() -> bool {
        false
    }

    open spec fn spec_header() -> Seq<u8> {
        Seq::empty()
    }

    open spec fn takes_rest() -> bool {
        false
    }

    open spec fn spec_serialize(v: EntityDestroyResponseView) -> Seq<u8> {
        Seq::empty()
    }

    open spec fn encodable(v: EntityDestroyResponseView) -> bool {
        Self::serializable()
    }

    proof fn lemma_roundtrip(v: EntityDestroyResponseView, rest: Seq<u8>) {
    }

    fn deserialize(memory: &mut &'x [u8]) -> (res: Result<EntityDestroyResponse, ParseError>) {
        let entity_ids_count: i32 = read_varint(memory)?;
        let entity_ids: Vec<i32> = read_varint_array(memory, entity_ids_count)?;
        Ok(EntityDestroyResponse { entity_ids })
    }

    fn serialize(&self, writer: &mut Vec<u8>) {
    }
}

/// Packet `0x3b` of the play state, sent by the server.
#[derive(Debug)]
pub struct RemoveEntityEffectResponse {
    pub entity_id: i32,
    pub effect_id: i32,
}

impl DeepView for RemoveEntityEffectResponse {
    type V = RemoveEntityEffectResponse;

    open spec fn deep_view(&self) -> RemoveEntityEffectResponse {
        *self
    }
}

impl<'x> MD<'x> for RemoveEntityEffectResponse {
    open spec fn spec_deserialize(s0: Seq<u8>) -> Option<(RemoveEntityEffectResponse, Seq<u8>)> {
        match varint_field(s0) {
            Some((entity_id, s1)) => {
                match varint_field(s1) {
                    Some((effect_id, s2)) => {
                        Some((RemoveEntityEffectResponse { entity_id, effect_id }, s2))
                    },
                    None => None,
                }
            },
            None => None,
        }
    }

    open spec fn serializable() -> bool {
        true
    }

    open spec fn spec_header() -> Seq<u8> {
        varint_bytes(0x3b)
    }

    open spec fn takes_rest() -> bool {
        false
    }

    open spec fn spec_serialize(v: RemoveEntityEffectResponse) -> Seq<u8> {
        varint_bytes(v.entity_id as u32) + varint_bytes(v.effect_id as u32)
    }

    open spec fn encodable(v: RemoveEntityEffectResponse) -> bool {
        Self::serializable()
    }

    proof fn lemma_roundtrip(v: RemoveEntityEffectResponse, rest: Seq<u8>) {
        let b0 = varint_bytes(v.entity_id as u32);
        let b1 = varint_bytes(v.effect_id as u32);
        let t2 = rest;
        let t1 = b1 + t2;
        let t0 = b0 + t1;
        lemma_concat_associative(b0, b1, t2);
        lemma_varint_field_roundtrip(v.entity_id, t1);
        lemma_varint_field_roundtrip(v.effect_id, t2);
    }

    fn deserialize(memory: &mut &'x [u8]) -> (res: Result<RemoveEntityEffectResponse, ParseError>) {
        let entity_id: i32 = read_varint(memory)?;
        let effect_id: i32 = read_varint(memory)?;
        Ok(RemoveEntityEffectResponse { entity_id, effect_id })
    }

    fn serialize(&self, writer: &mut Vec<u8>) {
        let ghost v = self.deep_view();
        write_varint(writer, 0x3b);
        let ghost a = writer@;
        assert(old(writer)@ + Self::spec_header() =~= a);
        write_varint(writer, self.entity_id as u32);
        write_varint(writer, self.effect_id as u32);
        proof {
            lemma_concat_associative(a, varint_bytes(v.entity_id as u32), varint_bytes(v.effect_id as u32));
        }
    }
}

/// Packet `0x3c` of the play state, sent by the server.
#[derive(Debug)]
pub struct ResourcePackSendResponse<'x> {
    pub url: &'x str,
    pub hash: &'x str,
    pub forced: bool,
    pub prompt_message: Option<&'x str>,
}

/// What a `ResourcePackSendResponse` holds.
pub struct ResourcePackSendResponseView {
    pub url: Seq<char>,
    pub hash: Seq<char>,
    pub forced: bool,
    pub prompt_message: Option<Seq<char>>,
}

impl<'x> DeepView for ResourcePackSendResponse<'x> {
    type V = ResourcePackSendResponseView;

    open spec fn deep_view(&self) -> ResourcePackSendResponseView {
        ResourcePackSendResponseView { url: self.url.deep_view(), hash: self.hash.deep_view(), forced: self.forced, prompt_message: self.prompt_message.deep_view() }
    }
}

impl<'x> MD<'x> for ResourcePackSendResponse<'x> {
    open spec fn spec_deserialize(s0: Seq<u8>) -> Option<(ResourcePackSendResponseView, Seq<u8>)> {
        match <&'x str as MD<'x>>::spec_deserialize(s0) {
            Some((url, s1)) => {
                match <&'x str as MD<'x>>::spec_deserialize(s1) {
                    Some((hash, s2)) => {
                        match <bool as MD<'x>>::spec_deserialize(s2) {
                            Some((forced, s3)) => {
                                match <Option<&'x str> as MD<'x>>::spec_deserialize(s3) {
                                    Some((prompt_message, s4)) => {
                                        Some((ResourcePackSendResponseView { url, hash, forced, prompt_message }, s4))
                                    },
                                    None => None,
                                }
                            },
                            None => None,
                        }
                    },
                    None => None,
                }
            },
            None => None,
        }
    }

    open spec fn serializable() -> bool {
        <&'x str as MD<'x>>::serializable() && <&'x str as MD<'x>>::serializable() && <bool as MD<'x>>::serializable() && <Option<&'x str> as MD<'x>>::serializable()
    }

    open spec fn spec_header() -> Seq<u8> {
        varint_bytes(0x3c)
    }

    open spec fn takes_rest() -> bool {
        false
    }

    open spec fn spec_serialize(v: ResourcePackSendResponseView) -> Seq<u8> {
        <&'x str as MD<'x>>::spec_serialize(v.url) + <&'x str as MD<'x>>::spec_serialize(v.hash) + <bool as MD<'x>>::spec_serialize(v.forced) + <Option<&'x str> as MD<'x>>::spec_serialize(v.prompt_message)
    }

    open spec fn encodable(v: ResourcePackSendResponseView) -> bool {
        Self::serializable() && <&'x str as MD<'x>>::encodable(v.url) && <&'x str as MD<'x>>::encodable(v.hash) && <bool as MD<'x>>::encodable(v.forced) && <Option<&'x str> as MD<'x>>::encodable(v.prompt_message)
    }

    proof fn lemma_roundtrip(v: ResourcePackSendResponseView, rest: Seq<u8>) {
        let b0 = <&'x str as MD<'x>>::spec_serialize(v.url);
        let b1 = <&'x str as MD<'x>>::spec_serialize(v.hash);
        let b2 = <bool as MD<'x>>::spec_serialize(v.forced);
        let b3 = <Option<&'x str> as MD<'x>>::spec_serialize(v.prompt_message);
        let t4 = rest;
        let t3 = b3 + t4;
        let t2 = b2 + t3;
        let t1 = b1 + t2;
        let t0 = b0 + t1;
        lemma_concat_associative(b0 + b1 + b2, b3, t4);
        lemma_concat_associative(b0 + b1, b2, t3);
        lemma_concat_associative(b0, b1, t2);
        <&'x str as MD<'x>>::lemma_roundtrip(v.url, t1);
        <&'x str as MD<'x>>::lemma_roundtrip(v.hash, t2);
        <bool as MD<'x>>::lemma_roundtrip(v.forced, t3);
        <Option<&'x str> as MD<'x>>::lemma_roundtrip(v.prompt_message, t4);
    }

    fn deserialize(memory: &mut &'x [u8]) -> (res: Result<ResourcePackSendResponse<'x>, ParseError>) {
        let url: &'x str = <&'x str as MD<'x>>::deserialize(memory)?;
        let hash: &'x str = <&'x str as MD<'x>>::deserialize(memory)?;
        let forced: bool = <bool as MD<'x>>::deserialize(memory)?;
        let prompt_message: Option<&'x str> = <Option<&'x str> as MD<'x>>::deserialize(memory)?;
        Ok(ResourcePackSendResponse { url, hash, forced, prompt_message })
    }

    fn serialize(&self, writer: &mut Vec<u8>) {
        let ghost v = self.deep_view();
        write_varint(writer, 0x3c);
        let ghost a = writer@;
        assert(old(writer)@ + Self::spec_header() =~= a);
        self.url.serialize(writer);
        proof {
            lemma_write_after_header(a, <&'x str as MD<'x>>::spec_header(), <&'x str as MD<'x>>::spec_serialize(v.url));
        }
        self.hash.serialize(writer);
        proof {
            lemma_write_next(a, <&'x str as MD<'x>>::spec_serialize(v.url), <&'x str as MD<'x>>::spec_header(), <&'x str as MD<'x>>::spec_serialize(v.hash));
        }
        self.forced.serialize(writer);
        proof {
            lemma_write_next(a, <&'x str as MD<'x>>::spec_serialize(v.url) + <&'x str as MD<'x>>::spec_serialize(v.hash), <bool as MD<'x>>::spec_header(), <bool as MD<'x>>::spec_serialize(v.forced));
        }
        self.prompt_message.serialize(writer);
        proof {
            lemma_write_next(a, <&'x str as MD<'x>>::spec_serialize(v.url) + <&'x str as MD<'x>>::spec_serialize(v.hash) + <bool as MD<'x>>::spec_serialize(v.forced), <Option<&'x str> as MD<'x>>::spec_header(), <Option<&'x str> as MD<'x>>::spec_serialize(v.prompt_message));
        }
    }
}

/// Packet `0x3d` of the play state, sent by the server.
#[derive(Debug)]
pub struct RespawnResponse<'x> {
    pub dimension: IndexedNbt<'x>,
    pub world_name: &'x str,
    pub hashed_seed: i64,
    pub gamemode: u8,
    pub previous_gamemode: u8,
    pub is_debug: bool,
    pub is_flat: bool,
    pub copy_metadata: bool,
}

/// What a `RespawnResponse` holds.
pub struct RespawnResponseView {
    pub dimension: Seq<u8>,
    pub world_name: Seq<char>,
    pub hashed_seed: i64,
    pub gamemode: u8,
    pub previous_gamemode: u8,
    pub is_debug: bool,
    pub is_flat: bool,
    pub copy_metadata: bool,
}

impl<'x> DeepView for RespawnResponse<'x> {
    type V = RespawnResponseView;

    open spec fn deep_view(&self) -> RespawnResponseView {
        RespawnResponseView { dimension: self.dimension.deep_view(), world_name: self.world_name.deep_view(), hashed_seed: self.hashed_seed, gamemode: self.gamemode, previous_gamemode: self.previous_gamemode, is_debug: self.is_debug, is_flat: self.is_flat, copy_metadata: self.copy_metadata }
    }
}

impl<'x> MD<'x> for RespawnResponse<'x> {
    open spec fn spec_deserialize(s0: Seq<u8>) -> Option<(RespawnResponseView, Seq<u8>)> {
        match <IndexedNbt<'x> as MD<'x>>::spec_deserialize(s0) {
            Some((dimension, s1)) => {
                match <&'x str as MD<'x>>::spec_deserialize(s1) {
                    Some((world_name, s2)) => {
                        match <i64 as MD<'x>>::spec_deserialize(s2) {
                            Some((hashed_seed, s3)) => {
                                match <u8 as MD<'x>>::spec_deserialize(s3) {
                                    Some((gamemode, s4)) => {
                                        match <u8 as MD<'x>>::spec_deserialize(s4) {
                                            Some((previous_gamemode, s5)) => {
                                                match <bool as MD<'x>>::spec_deserialize(s5) {
                                                    Some((is_debug, s6)) => {
                                                        match <bool as MD<'x>>::spec_deserialize(s6) {
                                                            Some((is_flat, s7)) => {
                                                                match <bool as MD<'x>>::spec_deserialize(s7) {
                                                                    Some((copy_metadata, s8)) => {
                                                                        Some((RespawnResponseView { dimension, world_name, hashed_seed, gamemode, previous_gamemode, is_debug, is_flat, copy_metadata }, s8))
                                                                    },
                                                                    None => None,
                                                                }
                                                            },
                                                            None => None,
                                                        }
                                                    },
                                                    None => None,
                                                }
                                            },
                                            None => None,
                                        }
                                    },
                                    None => None,
                                }
                            },
                            None => None,
                        }
                    },
                    None => None,
                }
            },
            None => None,
        }
    }

    open spec fn serializable() -> bool {
        <IndexedNbt<'x> as MD<'x>>::serializable() && <&'x str as MD<'x>>::serializable() && <i64 as MD<'x>>::serializable() && <u8 as MD<'x>>::serializable() && <u8 as MD<'x>>::serializable() && <bool as MD<'x>>::serializable() && <bool as MD<'x>>::serializable() && <bool as MD<'x>>::serializable()
    }

    open spec fn spec_header() -> Seq<u8> {
        varint_bytes(0x3d)
    }

    open spec fn takes_rest() -> bool {
        false
    }

    open spec fn spec_serialize(v: RespawnResponseView) -> Seq<u8> {
        <IndexedNbt<'x> as MD<'x>>::spec_serialize(v.dimension) + <&'x str as MD<'x>>::spec_serialize(v.world_name) + <i64 as MD<'x>>::spec_serialize(v.hashed_seed) + <u8 as MD<'x>>::spec_serialize(v.gamemode) + <u8 as MD<'x>>::spec_serialize(v.previous_gamemode) + <bool as MD<'x>>::spec_serialize(v.is_debug) + <bool as MD<'x>>::spec_serialize(v.is_flat) + <bool as MD<'x>>::spec_serialize(v.copy_metadata)
    }

    open spec fn encodable(v: RespawnResponseView) -> bool {
        Self::serializable() && <IndexedNbt<'x> as MD<'x>>::encodable(v.dimension) && <&'x str as MD<'x>>::encodable(v.world_name) && <i64 as MD<'x>>::encodable(v.hashed_seed) && <u8 as MD<'x>>::encodable(v.gamemode) && <u8 as MD<'x>>::encodable(v.previous_gamemode) && <bool as MD<'x>>::encodable(v.is_debug) && <bool as MD<'x>>::encodable(v.is_flat) && <bool as MD<'x>>::encodable(v.copy_metadata)
    }

    proof fn lemma_roundtrip(v: RespawnResponseView, rest: Seq<u8>) {
        let b0 = <IndexedNbt<'x> as MD<'x>>::spec_serialize(v.dimension);
        let b1 = <&'x str as MD<'x>>::spec_serialize(v.world_name);
        let b2 = <i64 as MD<'x>>::spec_serialize(v.hashed_seed);
        let b3 = <u8 as MD<'x>>::spec_serialize(v.gamemode);
        let b4 = <u8 as MD<'x>>::spec_serialize(v.previous_gamemode);
        let b5 = <bool as MD<'x>>::spec_serialize(v.is_debug);
        let b6 = <bool as MD<'x>>::spec_serialize(v.is_flat);
        let b7 = <bool as MD<'x>>::spec_serialize(v.copy_metadata);
        let t8 = rest;
        let t7 = b7 + t8;
        let t6 = b6 + t7;
        let t5 = b5 + t6;
        let t4 = b4 + t5;
        let t3 = b3 + t4;
        let t2 = b2 + t3;
        let t1 = b1 + t2;
        let t0 = b0 + t1;
        lemma_concat_associative(b0 + b1 + b2 + b3 + b4 + b5 + b6, b7, t8);
        lemma_concat_associative(b0 + b1 + b2 + b3 + b4 + b5, b6, t7);
        lemma_concat_associative(b0 + b1 + b2 + b3 + b4, b5, t6);
        lemma_concat_associative(b0 + b1 + b2 + b3, b4, t5);
        lemma_concat_associative(b0 + b1 + b2, b3, t4);
        lemma_concat_associative(b0 + b1, b2, t3);
        lemma_concat_associative(b0, b1, t2);
        <IndexedNbt<'x> as MD<'x>>::lemma_roundtrip(v.dimension, t1);
        <&'x str as MD<'x>>::lemma_roundtrip(v.world_name, t2);
        <i64 as MD<'x>>::lemma_roundtrip(v.hashed_seed, t3);
        <u8 as MD<'x>>::lemma_roundtrip(v.gamemode, t4);
        <u8 as MD<'x>>::lemma_roundtrip(v.previous_gamemode, t5);
        <bool as MD<'x>>::lemma_roundtrip(v.is_debug, t6);
        <bool as MD<'x>>::lemma_roundtrip(v.is_flat, t7);
        <bool as MD<'x>>::lemma_roundtrip(v.copy_metadata, t8);
    }

    fn deserialize(memory: &mut &'x [u8]) -> (res: Result<RespawnResponse<'x>, ParseError>) {
        let dimension: IndexedNbt<'x> = <IndexedNbt<'x> as MD<'x>>::deserialize(memory)?;
        let world_name: &'x str = <&'x str as MD<'x>>::deserialize(memory)?;
        let hashed_seed: i64 = <i64 as MD<'x>>::deserialize(memory)?;
        let gamemode: u8 = <u8 as MD<'x>>::deserialize(memory)?;
        let previous_gamemode: u8 = <u8 as MD<'x>>::deserialize(memory)?;
        let is_debug: bool = <bool as MD<'x>>::deserialize(memory)?;
        let is_flat: bool = <bool as MD<'x>>::deserialize(memory)?;
        let copy_metadata: bool = <bool as MD<'x>>::deserialize(memory)?;
        Ok(RespawnResponse { dimension, world_name, hashed_seed, gamemode, previous_gamemode, is_debug, is_flat, copy_metadata })
    }

    fn serialize(&self, writer: &mut Vec<u8>) {
        let ghost v = self.deep_view();
        write_varint(writer, 0x3d);
        let ghost a = writer@;
        assert(old(writer)@ + Self::spec_header() =~= a);
        self.dimension.serialize(writer);
        proof {
            lemma_write_after_header(a, <IndexedNbt<'x> as MD<'x>>::spec_header(), <IndexedNbt<'x> as MD<'x>>::spec_serialize(v.dimension));
        }
        self.world_name.serialize(writer);
        proof {
            lemma_write_next(a, <IndexedNbt<'x> as MD<'x>>::spec_serialize(v.dimension), <&'x str as MD<'x>>::spec_header(), <&'x str as MD<'x>>::spec_serialize(v.world_name));
        }
        self.hashed_seed.serialize(writer);
        proof {
            lemma_write_next(a, <IndexedNbt<'x> as MD<'x>>::spec_serialize(v.dimension) + <&'x str as MD<'x>>::spec_serialize(v.world_name), <i64 as MD<'x>>::spec_header(), <i64 as MD<'x>>::spec_serialize(v.hashed_seed));
        }
        self.gamemode.serialize(writer);
        proof {
            lemma_write_next(a, <IndexedNbt<'x> as MD<'x>>::spec_serialize(v.dimension) + <&'x str as MD<'x>>::spec_serialize(v.world_name) + <i64 as MD<'x>>::spec_serialize(v.hashed_seed), <u8 as MD<'x>>::spec_header(), <u8 as MD<'x>>::spec_serialize(v.gamemode));
        }
        self.previous_gamemode.serialize(writer);
        proof {
            lemma_write_next(a, <IndexedNbt<'x> as MD<'x>>::spec_serialize(v.dimension) + <&'x str as MD<'x>>::spec_serialize(v.world_name) + <i64 as MD<'x>>::spec_serialize(v.hashed_seed) + <u8 as MD<'x>>::spec_serialize(v.gamemode), <u8 as MD<'x>>::spec_header(), <u8 as MD<'x>>::spec_serialize(v.previous_gamemode));
        }
        self.is_debug.serialize(writer);
        proof {
            lemma_write_next(a, <IndexedNbt<'x> as MD<'x>>::spec_serialize(v.dimension) + <&'x str as MD<'x>>::spec_serialize(v.world_name) + <i64 as MD<'x>>::spec_serialize(v.hashed_seed) + <u8 as MD<'x>>::spec_serialize(v.gamemode) + <u8 as MD<'x>>::spec_serialize(v.previous_gamemode), <bool as MD<'x>>::spec_header(), <bool as MD<'x>>::spec_serialize(v.is_debug));
        }
        self.is_flat.serialize(writer);
        proof {
            lemma_write_next(a, <IndexedNbt<'x> as MD<'x>>::spec_serialize(v.dimension) + <&'x str as MD<'x>>::spec_serialize(v.world_name) + <i64 as MD<'x>>::spec_serialize(v.hashed_seed) + <u8 as MD<'x>>::spec_serialize(v.gamemode) + <u8 as MD<'x>>::spec_serialize(v.previous_gamemode) + <bool as MD<'x>>::spec_serialize(v.is_debug), <bool as MD<'x>>::spec_header(), <bool as MD<'x>>::spec_serialize(v.is_flat));
        }
        self.copy_metadata.serialize(writer);
        proof {
            lemma_write_next(a, <IndexedNbt<'x> as MD<'x>>::spec_serialize(v.dimension) + <&'x str as MD<'x>>::spec_serialize(v.world_name) + <i64 as MD<'x>>::spec_serialize(v.hashed_seed) + <u8 as MD<'x>>::spec_serialize(v.gamemode) + <u8 as MD<'x>>::spec_serialize(v.previous_gamemode) + <bool as MD<'x>>::spec_serialize(v.is_debug) + <bool as MD<'x>>::spec_serialize(v.is_flat), <bool as MD<'x>>::spec_header(), <bool as MD<'x>>::spec_serialize(v.copy_metadata));
        }
    }
}

/// Packet `0x3e` of the play state, sent by the server.
#[derive(Debug)]
pub struct EntityHeadRotationResponse {
    pub entity_id: i32,
    pub head_yaw: i8,
}

impl DeepView for EntityHeadRotationResponse {
    type V = EntityHeadRotationResponse;

    open spec fn deep_view(&self) -> EntityHeadRotationResponse {
        *self
    }
}

impl<'x> MD<'x> for EntityHeadRotationResponse {
    open spec fn spec_deserialize(s0: Seq<u8>) -> Option<(EntityHeadRotationResponse, Seq<u8>)> {
        match varint_field(s0) {
            Some((entity_id, s1)) => {
                match <i8 as MD<'x>>::spec_deserialize(s1) {
                    Some((head_yaw, s2)) => {
                        Some((EntityHeadRotationResponse { entity_id, head_yaw }, s2))
                    },
                    None => None,
                }
            },
            None => None,
        }
    }

    open spec fn serializable() -> bool {
        <i8 as MD<'x>>::serializable()
    }

    open spec fn spec_header() -> Seq<u8> {
        varint_bytes(0x3e)
    }

    open spec fn takes_rest() -> bool {
        false
    }

    open spec fn spec_serialize(v: EntityHeadRotationResponse) -> Seq<u8> {
        varint_bytes(v.entity_id as u32) + <i8 as MD<'x>>::spec_serialize(v.head_yaw)
    }

    open spec fn encodable(v: EntityHeadRotationResponse) -> bool {
        Self::serializable() && <i8 as MD<'x>>::encodable(v.head_yaw)
    }

    proof fn lemma_roundtrip(v: EntityHeadRotationResponse, rest: Seq<u8>) {
        let b0 = varint_bytes(v.entity_id as u32);
        let b1 = <i8 as MD<'x>>::spec_serialize(v.head_yaw);
        let t2 = rest;
        let t1 = b1 + t2;
        let t0 = b0 + t1;
        lemma_concat_associative(b0, b1, t2);
        lemma_varint_field_roundtrip(v.entity_id, t1);
        <i8 as MD<'x>>::lemma_roundtrip(v.head_yaw, t2);
    }

    fn deserialize(memory: &mut &'x [u8]) -> (res: Result<EntityHeadRotationResponse, ParseError>) {
        let entity_id: i32 = read_varint(memory)?;
        let head_yaw: i8 = <i8 as MD<'x>>::deserialize(memory)?;
        Ok(EntityHeadRotationResponse { entity_id, head_yaw })
    }

    fn serialize(&self, writer: &mut Vec<u8>) {
        let ghost v = self.deep_view();
        write_varint(writer, 0x3e);
        let ghost a = writer@;
        assert(old(writer)@ + Self::spec_header() =~= a);
        write_varint(writer, self.entity_id as u32);
        self.head_yaw.serialize(writer);
        proof {
            lemma_write_next(a, varint_bytes(v.entity_id as u32), <i8 as MD<'x>>::spec_header(), <i8 as MD<'x>>::spec_serialize(v.head_yaw));
        }
    }
}

/// Packet `0x47` of the play state, sent by the server.
#[derive(Debug)]
pub struct CameraResponse {
    pub camera_id: i32,
}

impl DeepView for CameraResponse {
    type V = CameraResponse;

    open spec fn deep_view(&self) -> CameraResponse {
        *self
    }
}

impl<'x> MD<'x> for CameraResponse {
    open spec fn spec_deserialize(s0: Seq<u8>) -> Option<(CameraResponse, Seq<u8>)> {
        match varint_field(s0) {
            Some((camera_id, s1)) => {
                Some((CameraResponse { camera_id }, s1))
            },
            None => None,
        }
    }

    open spec fn serializable() -> bool {
        true
    }

    open spec fn spec_header() -> Seq<u8> {
        varint_bytes(0x47)
    }

    open spec fn takes_rest() -> bool {
        false
    }

    open spec fn spec_serialize(v: CameraResponse) -> Seq<u8> {
        varint_bytes(v.camera_id as u32)
    }

    open spec fn encodable(v: CameraResponse) -> bool {
        Self::serializable()
    }

    proof fn lemma_roundtrip(v: CameraResponse, rest: Seq<u8>) {
        let b0 = varint_bytes(v.camera_id as u32);
        let t1 = rest;
        let t0 = b0 + t1;
        assert(Self::spec_serialize(v) + rest == t0);
        lemma_varint_field_roundtrip(v.camera_id, t1);
    }

    fn deserialize(memory: &mut &'x [u8]) -> (res: Result<CameraResponse, ParseError>) {
        let camera_id: i32 = read_varint(memory)?;
        Ok(CameraResponse { camera_id })
    }

    fn serialize(&self, writer: &mut Vec<u8>) {
        let ghost v = self.deep_view();
        write_varint(writer, 0x47);
        let ghost a = writer@;
        assert(old(writer)@ + Self::spec_header() =~= a);
        write_varint(writer, self.camera_id as u32);
    }
}

/// Packet `0x48` of the play state, sent by the server.
#[derive(Debug)]
pub struct HeldItemSlotResponse {
    pub slot: i8,
}

impl DeepView for HeldItemSlotResponse {
    type V = HeldItemSlotResponse;

    open spec fn deep_view(&self) -> HeldItemSlotResponse {
        *self
    }
}

impl<'x> MD<'x> for HeldItemSlotResponse {
    open spec fn spec_deserialize(s0: Seq<u8>) -> Option<(HeldItemSlotResponse, Seq<u8>)> {
        match <i8 as MD<'x>>::spec_deserialize(s0) {
            Some((slot, s1)) => {
                Some((HeldItemSlotResponse { slot }, s1))
            },
            None => None,
        }
    }

    open spec fn serializable() -> bool {
        <i8 as MD<'x>>::serializable()
    }

    open spec fn spec_header() -> Seq<u8> {
        varint_bytes(0x48)
    }

    open spec fn takes_rest() -> bool {
        false
    }

    open spec fn spec_serialize(v: HeldItemSlotResponse) -> Seq<u8> {
        <i8 as MD<'x>>::spec_serialize(v.slot)
    }

    open spec fn encodable(v: HeldItemSlotResponse) -> bool {
        Self::serializable() && <i8 as MD<'x>>::encodable(v.slot)
    }

    proof fn lemma_roundtrip(v: HeldItemSlotResponse, rest: Seq<u8>) {
        let b0 = <i8 as MD<'x>>::spec_serialize(v.slot);
        let t1 = rest;
        let t0 = b0 + t1;
        assert(Self::spec_serialize(v) + rest == t0);
        <i8 as MD<'x>>::lemma_roundtrip(v.slot, t1);
    }

    fn deserialize(memory: &mut &'x [u8]) -> (res: Result<HeldItemSlotResponse, ParseError>) {
        let slot: i8 = <i8 as MD<'x>>::deserialize(memory)?;
        Ok(HeldItemSlotResponse { slot })
    }

    fn serialize(&self, writer: &mut Vec<u8>) {
        let ghost v = self.deep_view();
        write_varint(writer, 0x48);
        let ghost a = writer@;
        assert(old(writer)@ + Self::spec_header() =~= a);
        self.slot.serialize(writer);
        proof {
            lemma_write_after_header(a, <i8 as MD<'x>>::spec_header(), <i8 as MD<'x>>::spec_serialize(v.slot));
        }
    }
}

/// Packet `0x49` of the play state, sent by the server.
#[derive(Debug)]
pub struct UpdateViewPositionResponse {
    pub chunk_x: i32,
    pub chunk_z: i32,
}

impl DeepView for UpdateViewPositionResponse {
    type V = UpdateViewPositionResponse;

    open spec fn deep_view(&self) -> UpdateViewPositionResponse {
        *self
    }
}

impl<'x> MD<'x> for UpdateViewPositionResponse {
    open spec fn spec_deserialize(s0: Seq<u8>) -> Option<(UpdateViewPositionResponse, Seq<u8>)> {
        match varint_field(s0) {
            Some((chunk_x, s1)) => {
                match varint_field(s1) {
                    Some((chunk_z, s2)) => {
                        Some((UpdateViewPositionResponse { chunk_x, chunk_z }, s2))
                    },
                    None => None,
                }
            },
            None => None,
        }
    }

    open spec fn serializable() -> bool {
        true
    }

    open spec fn spec_header() -> Seq<u8> {
        varint_bytes(0x49)
    }

    open spec fn takes_rest() -> bool {
        false
    }

    open spec fn spec_serialize(v: UpdateViewPositionResponse) -> Seq<u8> {
        varint_bytes(v.chunk_x as u32) + varint_bytes(v.chunk_z as u32)
    }

    open spec fn encodable(v: UpdateViewPositionResponse) -> bool {
        Self::serializable()
    }

    proof fn lemma_roundtrip(v: UpdateViewPositionResponse, rest: Seq<u8>) {
        let b0 = varint_bytes(v.chunk_x as u32);
        let b1 = varint_bytes(v.chunk_z as u32);
        let t2 = rest;
        let t1 = b1 + t2;
        let t0 = b0 + t1;
        lemma_concat_associative(b0, b1, t2);
        lemma_varint_field_roundtrip(v.chunk_x, t1);
        lemma_varint_field_roundtrip(v.chunk_z, t2);
    }

    fn deserialize(memory: &mut &'x [u8]) -> (res: Result<UpdateViewPositionResponse, ParseError>) {
        let chunk_x: i32 = read_varint(memory)?;
        let chunk_z: i32 = read_varint(memory)?;
        Ok(UpdateViewPositionResponse { chunk_x, chunk_z })
    }

    fn serialize(&self, writer: &mut Vec<u8>) {
        let ghost v = self.deep_view();
        write_varint(writer, 0x49);
        let ghost a = writer@;
        assert(old(writer)@ + Self::spec_header() =~= a);
        write_varint(writer, self.chunk_x as u32);
        write_varint(writer, self.chunk_z as u32);
        proof {
            lemma_concat_associative(a, varint_bytes(v.chunk_x as u32), varint_bytes(v.chunk_z as u32));
        }
    }
}

/// Packet `0x4a` of the play state, sent by the server.
#[derive(Debug)]
pub struct UpdateViewDistanceResponse {
    pub view_distance: i32,
}

impl DeepView for UpdateViewDistanceResponse {
    type V = UpdateViewDistanceResponse;

    open spec fn deep_view(&self) -> UpdateViewDistanceResponse {
        *self
    }
}

impl<'x> MD<'x> for UpdateViewDistanceResponse {
    open spec fn spec_deserialize(s0: Seq<u8>) -> Option<(UpdateViewDistanceResponse, Seq<u8>)> {
        match varint_field(s0) {
            Some((view_distance, s1)) => {
                Some((UpdateViewDistanceResponse { view_distance }, s1))
            },
            None => None,
        }
    }

    open spec fn serializable() -> bool {
        true
    }

    open spec fn spec_header() -> Seq<u8> {
        varint_bytes(0x4a)
    }

    open spec fn takes_rest() -> bool {
        false
    }

    open spec fn spec_serialize(v: UpdateViewDistanceResponse) -> Seq<u8> {
        varint_bytes(v.view_distance as u32)
    }

    open spec fn encodable(v: UpdateViewDistanceResponse) -> bool {
        Self::serializable()
    }

    proof fn lemma_roundtrip(v: UpdateViewDistanceResponse, rest: Seq<u8>) {
        let b0 = varint_bytes(v.view_distance as u32);
        let t1 = rest;
        let t0 = b0 + t1;
        assert(Self::spec_serialize(v) + rest == t0);
        lemma_varint_field_roundtrip(v.view_distance, t1);
    }

    fn deserialize(memory: &mut &'x [u8]) -> (res: Result<UpdateViewDistanceResponse, ParseError>) {
        let view_distance: i32 = read_varint(memory)?;
        Ok(UpdateViewDistanceResponse { view_distance })
    }

    fn serialize(&self, writer: &mut Vec<u8>) {
        let ghost v = self.deep_view();
        write_varint(writer, 0x4a);
        let ghost a = writer@;
        assert(old(writer)@ + Self::spec_header() =~= a);
        write_varint(writer, self.view_distance as u32);
    }
}

/// Packet `0x4c` of the play state, sent by the server.
#[derive(Debug)]
pub struct ScoreboardDisplayObjectiveResponse<'x> {
    pub position: i8,
    pub name: &'x str,
}

/// What a `ScoreboardDisplayObjectiveResponse` holds.
pub struct ScoreboardDisplayObjectiveResponseView {
    pub position: i8,
    pub name: Seq<char>,
}

impl<'x> DeepView for ScoreboardDisplayObjectiveResponse<'x> {
    type V = ScoreboardDisplayObjectiveResponseView;

    open spec fn deep_view(&self) -> ScoreboardDisplayObjectiveResponseView {
        ScoreboardDisplayObjectiveResponseView { position: self.position, name: self.name.deep_view() }
    }
}

impl<'x> MD<'x> for ScoreboardDisplayObjectiveResponse<'x> {
    open spec fn spec_deserialize(s0: Seq<u8>) -> Option<(ScoreboardDisplayObjectiveResponseView, Seq<u8>)> {
        match <i8 as MD<'x>>::spec_deserialize(s0) {
            Some((position, s1)) => {
                match <&'x str as MD<'x>>::spec_deserialize(s1) {
                    Some((name, s2)) => {
                        Some((ScoreboardDisplayObjectiveResponseView { position, name }, s2))
                    },
                    None => None,
                }
            },
            None => None,
        }
    }

    open spec fn serializable() -> bool {
        <i8 as MD<'x>>::serializable() && <&'x str as MD<'x>>::serializable()
    }

    open spec fn spec_header() -> Seq<u8> {
        varint_bytes(0x4c)
    }

    open spec fn takes_rest() -> bool {
        false
    }

    open spec fn spec_serialize(v: ScoreboardDisplayObjectiveResponseView) -> Seq<u8> {
        <i8 as MD<'x>>::spec_serialize(v.position) + <&'x str as MD<'x>>::spec_serialize(v.name)
    }

    open spec fn encodable(v: ScoreboardDisplayObjectiveResponseView) -> bool {
        Self::serializable() && <i8 as MD<'x>>::encodable(v.position) && <&'x str as MD<'x>>::encodable(v.name)
    }

    proof fn lemma_roundtrip(v: ScoreboardDisplayObjectiveResponseView, rest: Seq<u8>) {
        let b0 = <i8 as MD<'x>>::spec_serialize(v.position);
        let b1 = <&'x str as MD<'x>>::spec_serialize(v.name);
        let t2 = rest;
        let t1 = b1 + t2;
        let t0 = b0 + t1;
        lemma_concat_associative(b0, b1, t2);
        <i8 as MD<'x>>::lemma_roundtrip(v.position, t1);
        <&'x str as MD<'x>>::lemma_roundtrip(v.name, t2);
    }

    fn deserialize(memory: &mut &'x [u8]) -> (res: Result<ScoreboardDisplayObjectiveResponse<'x>, ParseError>) {
        let position: i8 = <i8 as MD<'x>>::deserialize(memory)?;
        let name: &'x str = <&'x str as MD<'x>>::deserialize(memory)?;
        Ok(ScoreboardDisplayObjectiveResponse { position, name })
    }

    fn serialize(&self, writer: &mut Vec<u8>) {
        let ghost v = self.deep_view();
        write_varint(writer, 0x4c);
        let ghost a = writer@;
        assert(old(writer)@ + Self::spec_header() =~= a);
        self.position.serialize(writer);
        proof {
            lemma_write_after_header(a, <i8 as MD<'x>>::spec_header(), <i8 as MD<'x>>::spec_serialize(v.position));
        }
        self.name.serialize(writer);
        proof {
            lemma_write_next(a, <i8 as MD<'x>>::spec_serialize(v.position), <&'x str as MD<'x>>::spec_header(), <&'x str as MD<'x>>::spec_serialize(v.name));
        }
    }
}

/// Packet `0x4d` of the play state, sent by the server.
/// Its fields are not decoded: nothing is read for it.
#[derive(Debug)]
pub struct EntityMetadataResponse {}

impl DeepView for EntityMetadataResponse {
    type V = EntityMetadataResponse;

    open spec fn deep_view(&self) -> EntityMetadataResponse {
        *self
    }
}

impl<'x> MD<'x> for EntityMetadataResponse {
    open spec fn spec_deserialize(s0: Seq<u8>) -> Option<(EntityMetadataResponse, Seq<u8>)> {
        Some((EntityMetadataResponse {}, s0))
    }

    open spec fn serializable() -> bool {
        true
    }

    open spec fn spec_header() -> Seq<u8> {
        varint_bytes(0x4d)
    }

    open spec fn takes_rest() -> bool {
        false
    }

    open spec fn spec_serialize(v: EntityMetadataResponse) -> Seq<u8> {
        Seq::empty()
    }

    open spec fn encodable(v: EntityMetadataResponse) -> bool {
        Self::serializable()
    }

    proof fn lemma_roundtrip(v: EntityMetadataResponse, rest: Seq<u8>) {
        assert(Seq::<u8>::empty() + rest =~= rest);
    }

    fn deserialize(memory: &mut &'x [u8]) -> (res: Result<EntityMetadataResponse, ParseError>) {
        Ok(EntityMetadataResponse {})
    }

    fn serialize(&self, writer: &mut Vec<u8>) {
        let ghost v = self.deep_view();
        write_varint(writer, 0x4d);
        let ghost a = writer@;
        assert(old(writer)@ + Self::spec_header() =~= a);
        assert(a + Self::spec_serialize(v) =~= a);
    }
}

/// Packet `0x4e` of the play state, sent by the server.
#[derive(Debug)]
pub struct AttachEntityResponse {
    pub entity_id: i32,
    pub vehicle_id: i32,
}

impl DeepView for AttachEntityResponse {
    type V = AttachEntityResponse;

    open spec fn deep_view(&self) -> AttachEntityResponse {
        *self
    }
}

impl<'x> MD<'x> for AttachEntityResponse {
    open spec fn spec_deserialize(s0: Seq<u8>) -> Option<(AttachEntityResponse, Seq<u8>)> {
        match <i32 as MD<'x>>::spec_deserialize(s0) {
            Some((entity_id, s1)) => {
                match <i32 as MD<'x>>::spec_deserialize(s1) {
                    Some((vehicle_id, s2)) => {
                        Some((AttachEntityResponse { entity_id, vehicle_id }, s2))
                    },
                    None => None,
                }
            },
            None => None,
        }
    }

    open spec fn serializable() -> bool {
        <i32 as MD<'x>>::serializable() && <i32 as MD<'x>>::serializable()
    }

    open spec fn spec_header() -> Seq<u8> {
        varint_bytes(0x4e)
    }

    open spec fn takes_rest() -> bool {
        false
    }

    open spec fn spec_serialize(v: AttachEntityResponse) -> Seq<u8> {
        <i32 as MD<'x>>::spec_serialize(v.entity_id) + <i32 as MD<'x>>::spec_serialize(v.vehicle_id)
    }

    open spec fn encodable(v: AttachEntityResponse) -> bool {
        Self::serializable() && <i32 as MD<'x>>::encodable(v.entity_id) && <i32 as MD<'x>>::encodable(v.vehicle_id)
    }

    proof fn lemma_roundtrip(v: AttachEntityResponse, rest: Seq<u8>) {
        let b0 = <i32 as MD<'x>>::spec_serialize(v.entity_id);
        let b1 = <i32 as MD<'x>>::spec_serialize(v.vehicle_id);
        let t2 = rest;
        let t1 = b1 + t2;
        let t0 = b0 + t1;
        lemma_concat_associative(b0, b1, t2);
        <i32 as MD<'x>>::lemma_roundtrip(v.entity_id, t1);
        <i32 as MD<'x>>::lemma_roundtrip(v.vehicle_id, t2);
    }

    fn deserialize(memory: &mut &'x [u8]) -> (res: Result<AttachEntityResponse, ParseError>) {
        let entity_id: i32 = <i32 as MD<'x>>::deserialize(memory)?;
        let vehicle_id: i32 = <i32 as MD<'x>>::deserialize(memory)?;
        Ok(AttachEntityResponse { entity_id, vehicle_id })
    }

    fn serialize(&self, writer: &mut Vec<u8>) {
        let ghost v = self.deep_view();
        write_varint(writer, 0x4e);
        let ghost a = writer@;
        assert(old(writer)@ + Self::spec_header() =~= a);
        self.entity_id.serialize(writer);
        proof {
            lemma_write_after_header(a, <i32 as MD<'x>>::spec_header(), <i32 as MD<'x>>::spec_serialize(v.entity_id));
        }
        self.vehicle_id.serialize(writer);
        proof {
            lemma_write_next(a, <i32 as MD<'x>>::spec_serialize(v.entity_id), <i32 as MD<'x>>::spec_header(), <i32 as MD<'x>>::spec_serialize(v.vehicle_id));
        }
    }
}

/// Packet `0x4f` of the play state, sent by the server.
#[derive(Debug)]
pub struct EntityVelocityResponse {
    pub entity_id: i32,
    pub velocity_x: i16,
    pub velocity_y: i16,
    pub velocity_z: i16,
}

impl DeepView for EntityVelocityResponse {
    type V = EntityVelocityResponse;

    open spec fn deep_view(&self) -> EntityVelocityResponse {
        *self
    }
}

impl<'x> MD<'x> for EntityVelocityResponse {
    open spec fn spec_deserialize(s0: Seq<u8>) -> Option<(EntityVelocityResponse, Seq<u8>)> {
        match varint_field(s0) {
            Some((entity_id, s1)) => {
                match <i16 as MD<'x>>::spec_deserialize(s1) {
                    Some((velocity_x, s2)) => {
                        match <i16 as MD<'x>>::spec_deserialize(s2) {
                            Some((velocity_y, s3)) => {
                                match <i16 as MD<'x>>::spec_deserialize(s3) {
                                    Some((velocity_z, s4)) => {
                                        Some((EntityVelocityResponse { entity_id, velocity_x, velocity_y, velocity_z }, s4))
                                    },
                                    None => None,
                                }
                            },
                            None => None,
                        }
                    },
                    None => None,
                }
            },
            None => None,
        }
    }

    open spec fn serializable() -> bool {
        <i16 as MD<'x>>::serializable() && <i16 as MD<'x>>::serializable() && <i16 as MD<'x>>::serializable()
    }

    open spec fn spec_header() -> Seq<u8> {
        varint_bytes(0x4f)
    }

    open spec fn takes_rest() -> bool {
        false
    }

    open spec fn spec_serialize(v: EntityVelocityResponse) -> Seq<u8> {
        varint_bytes(v.entity_id as u32) + <i16 as MD<'x>>::spec_serialize(v.velocity_x) + <i16 as MD<'x>>::spec_serialize(v.velocity_y) + <i16 as MD<'x>>::spec_serialize(v.velocity_z)
    }

    open spec fn encodable(v: EntityVelocityResponse) -> bool {
        Self::serializable() && <i16 as MD<'x>>::encodable(v.velocity_x) && <i16 as MD<'x>>::encodable(v.velocity_y) && <i16 as MD<'x>>::encodable(v.velocity_z)
    }

    proof fn lemma_roundtrip(v: EntityVelocityResponse, rest: Seq<u8>) {
        let b0 = varint_bytes(v.entity_id as u32);
        let b1 = <i16 as MD<'x>>::spec_serialize(v.velocity_x);
        let b2 = <i16 as MD<'x>>::spec_serialize(v.velocity_y);
        let b3 = <i16 as MD<'x>>::spec_serialize(v.velocity_z);
        let t4 = rest;
        let t3 = b3 + t4;
        let t2 = b2 + t3;
        let t1 = b1 + t2;
        let t0 = b0 + t1;
        lemma_concat_associative(b0 + b1 + b2, b3, t4);
        lemma_concat_associative(b0 + b1, b2, t3);
        lemma_concat_associative(b0, b1, t2);
        lemma_varint_field_roundtrip(v.entity_id, t1);
        <i16 as MD<'x>>::lemma_roundtrip(v.velocity_x, t2);
        <i16 as MD<'x>>::lemma_roundtrip(v.velocity_y, t3);
        <i16 as MD<'x>>::lemma_roundtrip(v.velocity_z, t4);
    }

    fn deserialize(memory: &mut &'x [u8]) -> (res: Result<EntityVelocityResponse, ParseError>) {
        let entity_id: i32 = read_varint(memory)?;
        let velocity_x: i16 = <i16 as MD<'x>>::deserialize(memory)?;
        let velocity_y: i16 = <i16 as MD<'x>>::deserialize(memory)?;
        let velocity_z: i16 = <i16 as MD<'x>>::deserialize(memory)?;
        Ok(EntityVelocityResponse { entity_id, velocity_x, velocity_y, velocity_z })
    }

    fn serialize(&self, writer: &mut Vec<u8>) {
        let ghost v = self.deep_view();
        write_varint(writer, 0x4f);
        let ghost a = writer@;
        assert(old(writer)@ + Self::spec_header() =~= a);
        write_varint(writer, self.entity_id as u32);
        self.velocity_x.serialize(writer);
        proof {
            lemma_write_next(a, varint_bytes(v.entity_id as u32), <i16 as MD<'x>>::spec_header(), <i16 as MD<'x>>::spec_serialize(v.velocity_x));
        }
        self.velocity_y.serialize(writer);
        proof {
            lemma_write_next(a, varint_bytes(v.entity_id as u32) + <i16 as MD<'x>>::spec_serialize(v.velocity_x), <i16 as MD<'x>>::spec_header(), <i16 as MD<'x>>::spec_serialize(v.velocity_y));
        }
        self.velocity_z.serialize(writer);
        proof {
            lemma_write_next(a, varint_bytes(v.entity_id as u32) + <i16 as MD<'x>>::spec_serialize(v.velocity_x) + <i16 as MD<'x>>::spec_serialize(v.velocity_y), <i16 as MD<'x>>::spec_header(), <i16 as MD<'x>>::spec_serialize(v.velocity_z));
        }
    }
}

/// Packet `0x50` of the play state, sent by the server.
/// Its fields are not decoded: nothing is read for it.
#[derive(Debug)]
pub struct EntityEquipmentResponse {}

impl DeepView for EntityEquipmentResponse {
    type V = EntityEquipmentResponse;

    open spec fn deep_view(&self) -> EntityEquipmentResponse {
        *self
    }
}

impl<'x> MD<'x> for EntityEquipmentResponse {
    open spec fn spec_deserialize(s0: Seq<u8>) -> Option<(EntityEquipmentResponse, Seq<u8>)> {
        Some((EntityEquipmentResponse {}, s0))
    }

    open spec fn serializable() -> bool {
        true
    }

    open spec fn spec_header() -> Seq<u8> {
        varint_bytes(0x50)
    }

    open spec fn takes_rest() -> bool {
        false
    }

    open spec fn spec_serialize(v: EntityEquipmentResponse) -> Seq<u8> {
        Seq::empty()
    }

    open spec fn encodable(v: EntityEquipmentResponse) -> bool {
        Self::serializable()
    }

    proof fn lemma_roundtrip(v: EntityEquipmentResponse, rest: Seq<u8>) {
        assert(Seq::<u8>::empty() + rest =~= rest);
    }

    fn deserialize(memory: &mut &'x [u8]) -> (res: Result<EntityEquipmentResponse, ParseError>) {
        Ok(EntityEquipmentResponse {})
    }

    fn serialize(&self, writer: &mut Vec<u8>) {
        let ghost v = self.deep_view();
        write_varint(writer, 0x50);
        let ghost a = writer@;
        assert(old(writer)@ + Self::spec_header() =~= a);
        assert(a + Self::spec_serialize(v) =~= a);
    }
}

/// Packet `0x51` of the play state, sent by the server.
#[derive(Debug)]
pub struct ExperienceResponse {
    /// The IEEE 754 bits of the `f32` value.
    pub experience_bar: u32,
    pub level: i32,
    pub total_experience: i32,
}

impl DeepView for ExperienceResponse {
    type V = ExperienceResponse;

    open spec fn deep_view(&self) -> ExperienceResponse {
        *self
    }
}

impl<'x> MD<'x> for ExperienceResponse {
    open spec fn spec_deserialize(s0: Seq<u8>) -> Option<(ExperienceResponse, Seq<u8>)> {
        match <u32 as MD<'x>>::spec_deserialize(s0) {
            Some((experience_bar, s1)) => {
                match varint_field(s1) {
                    Some((level, s2)) => {
                        match varint_field(s2) {
                            Some((total_experience, s3)) => {
                                Some((ExperienceResponse { experience_bar, level, total_experience }, s3))
                            },
                            None => None,
                        }
                    },
                    None => None,
                }
            },
            None => None,
        }
    }

    open spec fn serializable() -> bool {
        <u32 as MD<'x>>::serializable()
    }

    open spec fn spec_header() -> Seq<u8> {
        varint_bytes(0x51)
    }

    open spec fn takes_rest() -> bool {
        false
    }

    open spec fn spec_serialize(v: ExperienceResponse) -> Seq<u8> {
        <u32 as MD<'x>>::spec_serialize(v.experience_bar) + varint_bytes(v.level as u32) + varint_bytes(v.total_experience as u32)
    }

    open spec fn encodable(v: ExperienceResponse) -> bool {
        Self::serializable() && <u32 as MD<'x>>::encodable(v.experience_bar)
    }

    proof fn lemma_roundtrip(v: ExperienceResponse, rest: Seq<u8>) {
        let b0 = <u32 as MD<'x>>::spec_serialize(v.experience_bar);
        let b1 = varint_bytes(v.level as u32);
        let b2 = varint_bytes(v.total_experience as u32);
        let t3 = rest;
        let t2 = b2 + t3;
        let t1 = b1 + t2;
        let t0 = b0 + t1;
        lemma_concat_associative(b0 + b1, b2, t3);
        lemma_concat_associative(b0, b1, t2);
        <u32 as MD<'x>>::lemma_roundtrip(v.experience_bar, t1);
        lemma_varint_field_roundtrip(v.level, t2);
        lemma_varint_field_roundtrip(v.total_experience, t3);
    }

    fn deserialize(memory: &mut &'x [u8]) -> (res: Result<ExperienceResponse, ParseError>) {
        let experience_bar: u32 = <u32 as MD<'x>>::deserialize(memory)?;
        let level: i32 = read_varint(memory)?;
        let total_experience: i32 = read_varint(memory)?;
        Ok(ExperienceResponse { experience_bar, level, total_experience })
    }

    fn serialize(&self, writer: &mut Vec<u8>) {
        let ghost v = self.deep_view();
        write_varint(writer, 0x51);
        let ghost a = writer@;
        assert(old(writer)@ + Self::spec_header() =~= a);
        self.experience_bar.serialize(writer);
        proof {
            lemma_write_after_header(a, <u32 as MD<'x>>::spec_header(), <u32 as MD<'x>>::spec_serialize(v.experience_bar));
        }
        write_varint(writer, self.level as u32);
        proof {
            lemma_concat_associative(a, <u32 as MD<'x>>::spec_serialize(v.experience_bar), varint_bytes(v.level as u32));
        }
        write_varint(writer, self.total_experience as u32);
        proof {
            lemma_concat_associative(a, <u32 as MD<'x>>::spec_serialize(v.experience_bar) + varint_bytes(v.level as u32), varint_bytes(v.total_experience as u32));
        }
    }
}

/// Packet `0x52` of the play state, sent by the server.
#[derive(Debug)]
pub struct UpdateHealthResponse {
    /// The IEEE 754 bits of the `f32` value.
    pub health: u32,
    pub food: i32,
    /// The IEEE 754 bits of the `f32` value.
    pub food_saturation: u32,
}

impl DeepView for UpdateHealthResponse {
    type V = UpdateHealthResponse;

    open spec fn deep_view(&self) -> UpdateHealthResponse {
        *self
    }
}

impl<'x> MD<'x> for UpdateHealthResponse {
    open spec fn spec_deserialize(s0: Seq<u8>) -> Option<(UpdateHealthResponse, Seq<u8>)> {
        match <u32 as MD<'x>>::spec_deserialize(s0) {
            Some((health, s1)) => {
                match varint_field(s1) {
                    Some((food, s2)) => {
                        match <u32 as MD<'x>>::spec_deserialize(s2) {
                            Some((food_saturation, s3)) => {
                                Some((UpdateHealthResponse { health, food, food_saturation }, s3))
                            },
                            None => None,
                        }
                    },
                    None => None,
                }
            },
            None => None,
        }
    }

    open spec fn serializable() -> bool {
        <u32 as MD<'x>>::serializable() && <u32 as MD<'x>>::serializable()
    }

    open spec fn spec_header() -> Seq<u8> {
        varint_bytes(0x52)
    }

    open spec fn takes_rest() -> bool {
        false
    }

    open spec fn spec_serialize(v: UpdateHealthResponse) -> Seq<u8> {
        <u32 as MD<'x>>::spec_serialize(v.health) + varint_bytes(v.food as u32) + <u32 as MD<'x>>::spec_serialize(v.food_saturation)
    }

    open spec fn encodable(v: UpdateHealthResponse) -> bool {
        Self::serializable() && <u32 as MD<'x>>::encodable(v.health) && <u32 as MD<'x>>::encodable(v.food_saturation)
    }

    proof fn lemma_roundtrip(v: UpdateHealthResponse, rest: Seq<u8>) {
        let b0 = <u32 as MD<'x>>::spec_serialize(v.health);
        let b1 = varint_bytes(v.food as u32);
        let b2 = <u32 as MD<'x>>::spec_serialize(v.food_saturation);
        let t3 = rest;
        let t2 = b2 + t3;
        let t1 = b1 + t2;
        let t0 = b0 + t1;
        lemma_concat_associative(b0 + b1, b2, t3);
        lemma_concat_associative(b0, b1, t2);
        <u32 as MD<'x>>::lemma_roundtrip(v.health, t1);
        lemma_varint_field_roundtrip(v.food, t2);
        <u32 as MD<'x>>::lemma_roundtrip(v.food_saturation, t3);
    }

    fn deserialize(memory: &mut &'x [u8]) -> (res: Result<UpdateHealthResponse, ParseError>) {
        let health: u32 = <u32 as MD<'x>>::deserialize(memory)?;
        let food: i32 = read_varint(memory)?;
        let food_saturation: u32 = <u32 as MD<'x>>::deserialize(memory)?;
        Ok(UpdateHealthResponse { health, food, food_saturation })
    }

    fn serialize(&self, writer: &mut Vec<u8>) {
        let ghost v = self.deep_view();
        write_varint(writer, 0x52);
        let ghost a = writer@;
        assert(old(writer)@ + Self::spec_header() =~= a);
        self.health.serialize(writer);
        proof {
            lemma_write_after_header(a, <u32 as MD<'x>>::spec_header(), <u32 as MD<'x>>::spec_serialize(v.health));
        }
        write_varint(writer, self.food as u32);
        proof {
            lemma_concat_associative(a, <u32 as MD<'x>>::spec_serialize(v.health), varint_bytes(v.food as u32));
        }
        self.food_saturation.serialize(writer);
        proof {
            lemma_write_next(a, <u32 as MD<'x>>::spec_serialize(v.health) + varint_bytes(v.food as u32), <u32 as MD<'x>>::spec_header(), <u32 as MD<'x>>::spec_serialize(v.food_saturation));
        }
    }
}

/// Packet `0x53` of the play state, sent by the server.
/// Its fields are not decoded: nothing is read for it.
#[derive(Debug)]
pub struct ScoreboardObjectiveResponse {}

impl DeepView for ScoreboardObjectiveResponse {
    type V = ScoreboardObjectiveResponse;

    open spec fn deep_view(&self) -> ScoreboardObjectiveResponse {
        *self
    }
}

impl<'x> MD<'x> for ScoreboardObjectiveResponse {
    open spec fn spec_deserialize(s0: Seq<u8>) -> Option<(ScoreboardObjectiveResponse, Seq<u8>)> {
        Some((ScoreboardObjectiveResponse {}, s0))
    }

    open spec fn serializable() -> bool {
        true
    }

    open spec fn spec_header() -> Seq<u8> {
        varint_bytes(0x53)
    }

    open spec fn takes_rest() -> bool {
        false
    }

    open spec fn spec_serialize(v: ScoreboardObjectiveResponse) -> Seq<u8> {
        Seq::empty()
    }

    open spec fn encodable(v: ScoreboardObjectiveResponse) -> bool {
        Self::serializable()
    }

    proof fn lemma_roundtrip(v: ScoreboardObjectiveResponse, rest: Seq<u8>) {
        assert(Seq::<u8>::empty() + rest =~= rest);
    }

    fn deserialize(memory: &mut &'x [u8]) -> (res: Result<ScoreboardObjectiveResponse, ParseError>) {
        Ok(ScoreboardObjectiveResponse {})
    }

    fn serialize(&self, writer: &mut Vec<u8>) {
        let ghost v = self.deep_view();
        write_varint(writer, 0x53);
        let ghost a = writer@;
        assert(old(writer)@ + Self::spec_header() =~= a);
        assert(a + Self::spec_serialize(v) =~= a);
    }
}

/// Packet `0x54` of the play state, sent by the server.
#[derive(Debug)]
pub struct SetPassengersResponse {
    pub entity_id: i32,
    pub passengers: Vec<i32>,
}

/// What a `SetPassengersResponse` holds.
pub struct SetPassengersResponseView {
    pub entity_id: i32,
    pub passengers: Seq<i32>,
}

impl<'x> DeepView for SetPassengersResponse {
    type V = SetPassengersResponseView;

    open spec fn deep_view(&self) -> SetPassengersResponseView {
        SetPassengersResponseView { entity_id: self.entity_id, passengers: self.passengers@ }
    }
}

impl<'x> MD<'x> for SetPassengersResponse {
    open spec fn spec_deserialize(s0: Seq<u8>) -> Option<(SetPassengersResponseView, Seq<u8>)> {
        match varint_field(s0) {
            Some((entity_id, s1)) => {
                match varint_field(s1) {
                    Some((passengers_count, s2)) => {
                        match spec_varint_array(s2, passengers_count as int) {
                            Some((passengers, s3)) => {
                                Some((SetPassengersResponseView { entity_id, passengers }, s3))
                            },
                            None => None,
                        }
                    },
                    None => None,
                }
            },
            None => None,
        }
    }

    open spec fn serializable() -> bool {
        false
    }

    open spec fn spec_header() -> Seq<u8> {
        Seq::empty()
    }

    open spec fn takes_rest() -> bool {
        false
    }

    open spec fn spec_serialize(v: SetPassengersResponseView) -> Seq<u8> {
        Seq::empty()
    }

    open spec fn encodable(v: SetPassengersResponseView) -> bool {
        Self::serializable()
    }

    proof fn lemma_roundtrip(v: SetPassengersResponseView, rest: Seq<u8>) {
    }

    fn deserialize(memory: &mut &'x [u8]) -> (res: Result<SetPassengersResponse, ParseError>) {
        let entity_id: i32 = read_varint(memory)?;
        let passengers_count: i32 = read_varint(memory)?;
        let passengers: Vec<i32> = read_varint_array(memory, passengers_count)?;
        Ok(SetPassengersResponse { entity_id, passengers })
    }

    fn serialize(&self, writer: &mut Vec<u8>) {
    }
}

/// Packet `0x55` of the play state, sent by the server.
/// Its fields are not decoded: nothing is read for it.
#[derive(Debug)]
pub struct TeamsResponse {}

impl DeepView for TeamsResponse {
    type V = TeamsResponse;

    open spec fn deep_view(&self) -> TeamsResponse {
        *self
    }
}

impl<'x> MD<'x> for TeamsResponse {
    open spec fn spec_deserialize(s0: Seq<u8>) -> Option<(TeamsResponse, Seq<u8>)> {
        Some((TeamsResponse {}, s0))
    }

    open spec fn serializable() -> bool {
        true
    }

    open spec fn spec_header() -> Seq<u8> {
        varint_bytes(0x55)
    }

    open spec fn takes_rest() -> bool {
        false
    }

    open spec fn spec_serialize(v: TeamsResponse) -> Seq<u8> {
        Seq::empty()
    }

    open spec fn encodable(v: TeamsResponse) -> bool {
        Self::serializable()
    }

    proof fn lemma_roundtrip(v: TeamsResponse, rest: Seq<u8>) {
        assert(Seq::<u8>::empty() + rest =~= rest);
    }

    fn deserialize(memory: &mut &'x [u8]) -> (res: Result<TeamsResponse, ParseError>) {
        Ok(TeamsResponse {})
    }

    fn serialize(&self, writer: &mut Vec<u8>) {
        let ghost v = self.deep_view();
        write_varint(writer, 0x55);
        let ghost a = writer@;
        assert(old(writer)@ + Self::spec_header() =~= a);
        assert(a + Self::spec_serialize(v) =~= a);
    }
}

/// Packet `0x56` of the play state, sent by the server.
/// Its fields are not decoded: nothing is read for it.
#[derive(Debug)]
pub struct ScoreboardScoreResponse {}

impl DeepView for ScoreboardScoreResponse {
    type V = ScoreboardScoreResponse;

    open spec fn deep_view(&self) -> ScoreboardScoreResponse {
        *self
    }
}

impl<'x> MD<'x> for ScoreboardScoreResponse {
    open spec fn spec_deserialize(s0: Seq<u8>) -> Option<(ScoreboardScoreResponse, Seq<u8>)> {
        Some((ScoreboardScoreResponse {}, s0))
    }

    open spec fn serializable() -> bool {
        true
    }

    open spec fn spec_header() -> Seq<u8> {
        varint_bytes(0x56)
    }

    open spec fn takes_rest() -> bool {
        false
    }

    open spec fn spec_serialize(v: ScoreboardScoreResponse) -> Seq<u8> {
        Seq::empty()
    }

    open spec fn encodable(v: ScoreboardScoreResponse) -> bool {
        Self::serializable()
    }

    proof fn lemma_roundtrip(v: ScoreboardScoreResponse, rest: Seq<u8>) {
        assert(Seq::<u8>::empty() + rest =~= rest);
    }

    fn deserialize(memory: &mut &'x [u8]) -> (res: Result<ScoreboardScoreResponse, ParseError>) {
        Ok(ScoreboardScoreResponse {})
    }

    fn serialize(&self, writer: &mut Vec<u8>) {
        let ghost v = self.deep_view();
        write_varint(writer, 0x56);
        let ghost a = writer@;
        assert(old(writer)@ + Self::spec_header() =~= a);
        assert(a + Self::spec_serialize(v) =~= a);
    }
}

/// Packet `0x4b` of the play state, sent by the server.
#[derive(Debug)]
pub struct SpawnPositionResponse {
    pub location: Position,
    /// The IEEE 754 bits of the `f32` value.
    pub angle: u32,
}

impl DeepView for SpawnPositionResponse {
    type V = SpawnPositionResponse;

    open spec fn deep_view(&self) -> SpawnPositionResponse {
        *self
    }
}

impl<'x> MD<'x> for SpawnPositionResponse {
    open spec fn spec_deserialize(s0: Seq<u8>) -> Option<(SpawnPositionResponse, Seq<u8>)> {
        match <Position as MD<'x>>::spec_deserialize(s0) {
            Some((location, s1)) => {
                match <u32 as MD<'x>>::spec_deserialize(s1) {
                    Some((angle, s2)) => {
                        Some((SpawnPositionResponse { location, angle }, s2))
                    },
                    None => None,
                }
            },
            None => None,
        }
    }

    open spec fn serializable() -> bool {
        <Position as MD<'x>>::serializable() && <u32 as MD<'x>>::serializable()
    }

    open spec fn spec_header() -> Seq<u8> {
        varint_bytes(0x4b)
    }

    open spec fn takes_rest() -> bool {
        false
    }

    open spec fn spec_serialize(v: SpawnPositionResponse) -> Seq<u8> {
        <Position as MD<'x>>::spec_serialize(v.location) + <u32 as MD<'x>>::spec_serialize(v.angle)
    }

    open spec fn encodable(v: SpawnPositionResponse) -> bool {
        Self::serializable() && <Position as MD<'x>>::encodable(v.location) && <u32 as MD<'x>>::encodable(v.angle)
    }

    proof fn lemma_roundtrip(v: SpawnPositionResponse, rest: Seq<u8>) {
        let b0 = <Position as MD<'x>>::spec_serialize(v.location);
        let b1 = <u32 as MD<'x>>::spec_serialize(v.angle);
        let t2 = rest;
        let t1 = b1 + t2;
        let t0 = b0 + t1;
        lemma_concat_associative(b0, b1, t2);
        <Position as MD<'x>>::lemma_roundtrip(v.location, t1);
        <u32 as MD<'x>>::lemma_roundtrip(v.angle, t2);
    }

    fn deserialize(memory: &mut &'x [u8]) -> (res: Result<SpawnPositionResponse, ParseError>) {
        let location: Position = <Position as MD<'x>>::deserialize(memory)?;
        let angle: u32 = <u32 as MD<'x>>::deserialize(memory)?;
        Ok(SpawnPositionResponse { location, angle })
    }

    fn serialize(&self, writer: &mut Vec<u8>) {
        let ghost v = self.deep_view();
        write_varint(writer, 0x4b);
        let ghost a = writer@;
        assert(old(writer)@ + Self::spec_header() =~= a);
        self.location.serialize(writer);
        proof {
            lemma_write_after_header(a, <Position as MD<'x>>::spec_header(), <Position as MD<'x>>::spec_serialize(v.location));
        }
        self.angle.serialize(writer);
        proof {
            lemma_write_next(a, <Position as MD<'x>>::spec_serialize(v.location), <u32 as MD<'x>>::spec_header(), <u32 as MD<'x>>::spec_serialize(v.angle));
        }
    }
}

/// Packet `0x59` of the play state, sent by the server.
#[derive(Debug)]
pub struct UpdateTimeResponse {
    pub age: i64,
    pub time: i64,
}

impl DeepView for UpdateTimeResponse {
    type V = UpdateTimeResponse;

    open spec fn deep_view(&self) -> UpdateTimeResponse {
        *self
    }
}

impl<'x> MD<'x> for UpdateTimeResponse {
    open spec fn spec_deserialize(s0: Seq<u8>) -> Option<(UpdateTimeResponse, Seq<u8>)> {
        match <i64 as MD<'x>>::spec_deserialize(s0) {
            Some((age, s1)) => {
                match <i64 as MD<'x>>::spec_deserialize(s1) {
                    Some((time, s2)) => {
                        Some((UpdateTimeResponse { age, time }, s2))
                    },
                    None => None,
                }
            },
            None => None,
        }
    }

    open spec fn serializable() -> bool {
        <i64 as MD<'x>>::serializable() && <i64 as MD<'x>>::serializable()
    }

    open spec fn spec_header() -> Seq<u8> {
        varint_bytes(0x59)
    }

    open spec fn takes_rest() -> bool {
        false
    }

    open spec fn spec_serialize(v: UpdateTimeResponse) -> Seq<u8> {
        <i64 as MD<'x>>::spec_serialize(v.age) + <i64 as MD<'x>>::spec_serialize(v.time)
    }

    open spec fn encodable(v: UpdateTimeResponse) -> bool {
        Self::serializable() && <i64 as MD<'x>>::encodable(v.age) && <i64 as MD<'x>>::encodable(v.time)
    }

    proof fn lemma_roundtrip(v: UpdateTimeResponse, rest: Seq<u8>) {
        let b0 = <i64 as MD<'x>>::spec_serialize(v.age);
        let b1 = <i64 as MD<'x>>::spec_serialize(v.time);
        let t2 = rest;
        let t1 = b1 + t2;
        let t0 = b0 + t1;
        lemma_concat_associative(b0, b1, t2);
        <i64 as MD<'x>>::lemma_roundtrip(v.age, t1);
        <i64 as MD<'x>>::lemma_roundtrip(v.time, t2);
    }

    fn deserialize(memory: &mut &'x [u8]) -> (res: Result<UpdateTimeResponse, ParseError>) {
        let age: i64 = <i64 as MD<'x>>::deserialize(memory)?;
        let time: i64 = <i64 as MD<'x>>::deserialize(memory)?;
        Ok(UpdateTimeResponse { age, time })
    }

    fn serialize(&self, writer: &mut Vec<u8>) {
        let ghost v = self.deep_view();
        write_varint(writer, 0x59);
        let ghost a = writer@;
        assert(old(writer)@ + Self::spec_header() =~= a);
        self.age.serialize(writer);
        proof {
            lemma_write_after_header(a, <i64 as MD<'x>>::spec_header(), <i64 as MD<'x>>::spec_serialize(v.age));
        }
        self.time.serialize(writer);
        proof {
            lemma_write_next(a, <i64 as MD<'x>>::spec_serialize(v.age), <i64 as MD<'x>>::spec_header(), <i64 as MD<'x>>::spec_serialize(v.time));
        }
    }
}

/// Packet `0x5c` of the play state, sent by the server.
#[derive(Debug)]
pub struct EntitySoundEffectResponse {
    pub sound_id: i32,
    pub sound_category: i32,
    pub entity_id: i32,
    /// The IEEE 754 bits of the `f32` value.
    pub volume: u32,
    /// The IEEE 754 bits of the `f32` value.
    pub pitch: u32,
}

impl DeepView for EntitySoundEffectResponse {
    type V = EntitySoundEffectResponse;

    open spec fn deep_view(&self) -> EntitySoundEffectResponse {
        *self
    }
}

impl<'x> MD<'x> for EntitySoundEffectResponse {
    open spec fn spec_deserialize(s0: Seq<u8>) -> Option<(EntitySoundEffectResponse, Seq<u8>)> {
        match varint_field(s0) {
            Some((sound_id, s1)) => {
                match varint_field(s1) {
                    Some((sound_category, s2)) => {
                        match varint_field(s2) {
                            Some((entity_id, s3)) => {
                                match <u32 as MD<'x>>::spec_deserialize(s3) {
                                    Some((volume, s4)) => {
                                        match <u32 as MD<'x>>::spec_deserialize(s4) {
                                            Some((pitch, s5)) => {
                                                Some((EntitySoundEffectResponse { sound_id, sound_category, entity_id, volume, pitch }, s5))
                                            },
                                            None => None,
                                        }
                                    },
                                    None => None,
                                }
                            },
                            None => None,
                        }
                    },
                    None => None,
                }
            },
            None => None,
        }
    }

    open spec fn serializable() -> bool {
        <u32 as MD<'x>>::serializable() && <u32 as MD<'x>>::serializable()
    }

    open spec fn spec_header() -> Seq<u8> {
        varint_bytes(0x5c)
    }

    open spec fn takes_rest() -> bool {
        false
    }

    open spec fn spec_serialize(v: EntitySoundEffectResponse) -> Seq<u8> {
        varint_bytes(v.sound_id as u32) + varint_bytes(v.sound_category as u32) + varint_bytes(v.entity_id as u32) + <u32 as MD<'x>>::spec_serialize(v.volume) + <u32 as MD<'x>>::spec_serialize(v.pitch)
    }

    open spec fn encodable(v: EntitySoundEffectResponse) -> bool {
        Self::serializable() && <u32 as MD<'x>>::encodable(v.volume) && <u32 as MD<'x>>::encodable(v.pitch)
    }

    proof fn lemma_roundtrip(v: EntitySoundEffectResponse, rest: Seq<u8>) {
        let b0 = varint_bytes(v.sound_id as u32);
        let b1 = varint_bytes(v.sound_category as u32);
        let b2 = varint_bytes(v.entity_id as u32);
        let b3 = <u32 as MD<'x>>::spec_serialize(v.volume);
        let b4 = <u32 as MD<'x>>::spec_serialize(v.pitch);
        let t5 = rest;
        let t4 = b4 + t5;
        let t3 = b3 + t4;
        let t2 = b2 + t3;
        let t1 = b1 + t2;
        let t0 = b0 + t1;
        lemma_concat_associative(b0 + b1 + b2 + b3, b4, t5);
        lemma_concat_associative(b0 + b1 + b2, b3, t4);
        lemma_concat_associative(b0 + b1, b2, t3);
        lemma_concat_associative(b0, b1, t2);
        lemma_varint_field_roundtrip(v.sound_id, t1);
        lemma_varint_field_roundtrip(v.sound_category, t2);
        lemma_varint_field_roundtrip(v.entity_id, t3);
        <u32 as MD<'x>>::lemma_roundtrip(v.volume, t4);
        <u32 as MD<'x>>::lemma_roundtrip(v.pitch, t5);
    }

    fn deserialize(memory: &mut &'x [u8]) -> (res: Result<EntitySoundEffectResponse, ParseError>) {
        let sound_id: i32 = read_varint(memory)?;
        let sound_category: i32 = read_varint(memory)?;
        let entity_id: i32 = read_varint(memory)?;
        let volume: u32 = <u32 as MD<'x>>::deserialize(memory)?;
        let pitch: u32 = <u32 as MD<'x>>::deserialize(memory)?;
        Ok(EntitySoundEffectResponse { sound_id, sound_category, entity_id, volume, pitch })
    }

    fn serialize(&self, writer: &mut Vec<u8>) {
        let ghost v = self.deep_view();
        write_varint(writer, 0x5c);
        let ghost a = writer@;
        assert(old(writer)@ + Self::spec_header() =~= a);
        write_varint(writer, self.sound_id as u32);
        write_varint(writer, self.sound_category as u32);
        proof {
            lemma_concat_associative(a, varint_bytes(v.sound_id as u32), varint_bytes(v.sound_category as u32));
        }
        write_varint(writer, self.entity_id as u32);
        proof {
            lemma_concat_associative(a, varint_bytes(v.sound_id as u32) + varint_bytes(v.sound_category as u32), varint_bytes(v.entity_id as u32));
        }
        self.volume.serialize(writer);
        proof {
            lemma_write_next(a, varint_bytes(v.sound_id as u32) + varint_bytes(v.sound_category as u32) + varint_bytes(v.entity_id as u32), <u32 as MD<'x>>::spec_header(), <u32 as MD<'x>>::spec_serialize(v.volume));
        }
        self.pitch.serialize(writer);
        proof {
            lemma_write_next(a, varint_bytes(v.sound_id as u32) + varint_bytes(v.sound_category as u32) + varint_bytes(v.entity_id as u32) + <u32 as MD<'x>>::spec_serialize(v.volume), <u32 as MD<'x>>::spec_header(), <u32 as MD<'x>>::spec_serialize(v.pitch));
        }
    }
}

/// Packet `0x5e` of the play state, sent by the server.
/// Its fields are not decoded: nothing is read for it.
#[derive(Debug)]
pub struct StopSoundResponse {}

impl DeepView for StopSoundResponse {
    type V = StopSoundResponse;

    open spec fn deep_view(&self) -> StopSoundResponse {
        *self
    }
}

impl<'x> MD<'x> for StopSoundResponse {
    open spec fn spec_deserialize(s0: Seq<u8>) -> Option<(StopSoundResponse, Seq<u8>)> {
        Some((StopSoundResponse {}, s0))
    }

    open spec fn serializable() -> bool {
        true
    }

    open spec fn spec_header() -> Seq<u8> {
        varint_bytes(0x5e)
    }

    open spec fn takes_rest() -> bool {
        false
    }

    open spec fn spec_serialize(v: StopSoundResponse) -> Seq<u8> {
        Seq::empty()
    }

    open spec fn encodable(v: StopSoundResponse) -> bool {
        Self::serializable()
    }

    proof fn lemma_roundtrip(v: StopSoundResponse, rest: Seq<u8>) {
        assert(Seq::<u8>::empty() + rest =~= rest);
    }

    fn deserialize(memory: &mut &'x [u8]) -> (res: Result<StopSoundResponse, ParseError>) {
        Ok(StopSoundResponse {})
    }

    fn serialize(&self, writer: &mut Vec<u8>) {
        let ghost v = self.deep_view();
        write_varint(writer, 0x5e);
        let ghost a = writer@;
        assert(old(writer)@ + Self::spec_header() =~= a);
        assert(a + Self::spec_serialize(v) =~= a);
    }
}

/// Packet `0x5d` of the play state, sent by the server.
#[derive(Debug)]
pub struct SoundEffectResponse {
    pub sound_id: i32,
    pub sound_category: i32,
    pub x: i32,
    pub y: i32,
    pub z: i32,
    /// The IEEE 754 bits of the `f32` value.
    pub volume: u32,
    /// The IEEE 754 bits of the `f32` value.
    pub pitch: u32,
}

impl DeepView for SoundEffectResponse {
    type V = SoundEffectResponse;

    open spec fn deep_view(&self) -> SoundEffectResponse {
        *self
    }
}

impl<'x> MD<'x> for SoundEffectResponse {
    open spec fn spec_deserialize(s0: Seq<u8>) -> Option<(SoundEffectResponse, Seq<u8>)> {
        match varint_field(s0) {
            Some((sound_id, s1)) => {
                match varint_field(s1) {
                    Some((sound_category, s2)) => {
                        match <i32 as MD<'x>>::spec_deserialize(s2) {
                            Some((x, s3)) => {
                                match <i32 as MD<'x>>::spec_deserialize(s3) {
                                    Some((y, s4)) => {
                                        match <i32 as MD<'x>>::spec_deserialize(s4) {
                                            Some((z, s5)) => {
                                                match <u32 as MD<'x>>::spec_deserialize(s5) {
                                                    Some((volume, s6)) => {
                                                        match <u32 as MD<'x>>::spec_deserialize(s6) {
                                                            Some((pitch, s7)) => {
                                                                Some((SoundEffectResponse { sound_id, sound_category, x, y, z, volume, pitch }, s7))
                                                            },
                                                            None => None,
                                                        }
                                                    },
                                                    None => None,
                                                }
                                            },
                                            None => None,
                                        }
                                    },
                                    None => None,
                                }
                            },
                            None => None,
                        }
                    },
                    None => None,
                }
            },
            None => None,
        }
    }

    open spec fn serializable() -> bool {
        <i32 as MD<'x>>::serializable() && <i32 as MD<'x>>::serializable() && <i32 as MD<'x>>::serializable() && <u32 as MD<'x>>::serializable() && <u32 as MD<'x>>::serializable()
    }

    open spec fn spec_header() -> Seq<u8> {
        varint_bytes(0x5d)
    }

    open spec fn takes_rest() -> bool {
        false
    }

    open spec fn spec_serialize(v: SoundEffectResponse) -> Seq<u8> {
        varint_bytes(v.sound_id as u32) + varint_bytes(v.sound_category as u32) + <i32 as MD<'x>>::spec_serialize(v.x) + <i32 as MD<'x>>::spec_serialize(v.y) + <i32 as MD<'x>>::spec_serialize(v.z) + <u32 as MD<'x>>::spec_serialize(v.volume) + <u32 as MD<'x>>::spec_serialize(v.pitch)
    }

    open spec fn encodable(v: SoundEffectResponse) -> bool {
        Self::serializable() && <i32 as MD<'x>>::encodable(v.x) && <i32 as MD<'x>>::encodable(v.y) && <i32 as MD<'x>>::encodable(v.z) && <u32 as MD<'x>>::encodable(v.volume) && <u32 as MD<'x>>::encodable(v.pitch)
    }

    proof fn lemma_roundtrip(v: SoundEffectResponse, rest: Seq<u8>) {
        let b0 = varint_bytes(v.sound_id as u32);
        let b1 = varint_bytes(v.sound_category as u32);
        let b2 = <i32 as MD<'x>>::spec_serialize(v.x);
        let b3 = <i32 as MD<'x>>::spec_serialize(v.y);
        let b4 = <i32 as MD<'x>>::spec_serialize(v.z);
        let b5 = <u32 as MD<'x>>::spec_serialize(v.volume);
        let b6 = <u32 as MD<'x>>::spec_serialize(v.pitch);
        let t7 = rest;
        let t6 = b6 + t7;
        let t5 = b5 + t6;
        let t4 = b4 + t5;
        let t3 = b3 + t4;
        let t2 = b2 + t3;
        let t1 = b1 + t2;
        let t0 = b0 + t1;
        lemma_concat_associative(b0 + b1 + b2 + b3 + b4 + b5, b6, t7);
        lemma_concat_associative(b0 + b1 + b2 + b3 + b4, b5, t6);
        lemma_concat_associative(b0 + b1 + b2 + b3, b4, t5);
        lemma_concat_associative(b0 + b1 + b2, b3, t4);
        lemma_concat_associative(b0 + b1, b2, t3);
        lemma_concat_associative(b0, b1, t2);
        lemma_varint_field_roundtrip(v.sound_id, t1);
        lemma_varint_field_roundtrip(v.sound_category, t2);
        <i32 as MD<'x>>::lemma_roundtrip(v.x, t3);
        <i32 as MD<'x>>::lemma_roundtrip(v.y, t4);
        <i32 as MD<'x>>::lemma_roundtrip(v.z, t5);
        <u32 as MD<'x>>::lemma_roundtrip(v.volume, t6);
        <u32 as MD<'x>>::lemma_roundtrip(v.pitch, t7);
    }

    fn deserialize(memory: &mut &'x [u8]) -> (res: Result<SoundEffectResponse, ParseError>) {
        let sound_id: i32 = read_varint(memory)?;
        let sound_category: i32 = read_varint(memory)?;
        let x: i32 = <i32 as MD<'x>>::deserialize(memory)?;
        let y: i32 = <i32 as MD<'x>>::deserialize(memory)?;
        let z: i32 = <i32 as MD<'x>>::deserialize(memory)?;
        let volume: u32 = <u32 as MD<'x>>::deserialize(memory)?;
        let pitch: u32 = <u32 as MD<'x>>::deserialize(memory)?;
        Ok(SoundEffectResponse { sound_id, sound_category, x, y, z, volume, pitch })
    }

    fn serialize(&self, writer: &mut Vec<u8>) {
        let ghost v = self.deep_view();
        write_varint(writer, 0x5d);
        let ghost a = writer@;
        assert(old(writer)@ + Self::spec_header() =~= a);
        write_varint(writer, self.sound_id as u32);
        write_varint(writer, self.sound_category as u32);
        proof {
            lemma_concat_associative(a, varint_bytes(v.sound_id as u32), varint_bytes(v.sound_category as u32));
        }
        self.x.serialize(writer);
        proof {
            lemma_write_next(a, varint_bytes(v.sound_id as u32) + varint_bytes(v.sound_category as u32), <i32 as MD<'x>>::spec_header(), <i32 as MD<'x>>::spec_serialize(v.x));
        }
        self.y.serialize(writer);
        proof {
            lemma_write_next(a, varint_bytes(v.sound_id as u32) + varint_bytes(v.sound_category as u32) + <i32 as MD<'x>>::spec_serialize(v.x), <i32 as MD<'x>>::spec_header(), <i32 as MD<'x>>::spec_serialize(v.y));
        }
        self.z.serialize(writer);
        proof {
            lemma_write_next(a, varint_bytes(v.sound_id as u32) + varint_bytes(v.sound_category as u32) + <i32 as MD<'x>>::spec_serialize(v.x) + <i32 as MD<'x>>::spec_serialize(v.y), <i32 as MD<'x>>::spec_header(), <i32 as MD<'x>>::spec_serialize(v.z));
        }
        self.volume.serialize(writer);
        proof {
            lemma_write_next(a, varint_bytes(v.sound_id as u32) + varint_bytes(v.sound_category as u32) + <i32 as MD<'x>>::spec_serialize(v.x) + <i32 as MD<'x>>::spec_serialize(v.y) + <i32 as MD<'x>>::spec_serialize(v.z), <u32 as MD<'x>>::spec_header(), <u32 as MD<'x>>::spec_serialize(v.volume));
        }
        self.pitch.serialize(writer);
        proof {
            lemma_write_next(a, varint_bytes(v.sound_id as u32) + varint_bytes(v.sound_category as u32) + <i32 as MD<'x>>::spec_serialize(v.x) + <i32 as MD<'x>>::spec_serialize(v.y) + <i32 as MD<'x>>::spec_serialize(v.z) + <u32 as MD<'x>>::spec_serialize(v.volume), <u32 as MD<'x>>::spec_header(), <u32 as MD<'x>>::spec_serialize(v.pitch));
        }
    }
}

/// Packet `0x5f` of the play state, sent by the server.
#[derive(Debug)]
pub struct PlayerlistHeaderResponse<'x> {
    pub header: &'x str,
    pub footer: &'x str,
}

/// What a `PlayerlistHeaderResponse` holds.
pub struct PlayerlistHeaderResponseView {
    pub header: Seq<char>,
    pub footer: Seq<char>,
}

impl<'x> DeepView for PlayerlistHeaderResponse<'x> {
    type V = PlayerlistHeaderResponseView;

    open spec fn deep_view(&self) -> PlayerlistHeaderResponseView {
        PlayerlistHeaderResponseView { header: self.header.deep_view(), footer: self.footer.deep_view() }
    }
}

impl<'x> MD<'x> for PlayerlistHeaderResponse<'x> {
    open spec fn spec_deserialize(s0: Seq<u8>) -> Option<(PlayerlistHeaderResponseView, Seq<u8>)> {
        match <&'x str as MD<'x>>::spec_deserialize(s0) {
            Some((header, s1)) => {
                match <&'x str as MD<'x>>::spec_deserialize(s1) {
                    Some((footer, s2)) => {
                        Some((PlayerlistHeaderResponseView { header, footer }, s2))
                    },
                    None => None,
                }
            },
            None => None,
        }
    }

    open spec fn serializable() -> bool {
        <&'x str as MD<'x>>::serializable() && <&'x str as MD<'x>>::serializable()
    }

    open spec fn spec_header() -> Seq<u8> {
        varint_bytes(0x5f)
    }

    open spec fn takes_rest() -> bool {
        false
    }

    open spec fn spec_serialize(v: PlayerlistHeaderResponseView) -> Seq<u8> {
        <&'x str as MD<'x>>::spec_serialize(v.header) + <&'x str as MD<'x>>::spec_serialize(v.footer)
    }

    open spec fn encodable(v: PlayerlistHeaderResponseView) -> bool {
        Self::serializable() && <&'x str as MD<'x>>::encodable(v.header) && <&'x str as MD<'x>>::encodable(v.footer)
    }

    proof fn lemma_roundtrip(v: PlayerlistHeaderResponseView, rest: Seq<u8>) {
        let b0 = <&'x str as MD<'x>>::spec_serialize(v.header);
        let b1 = <&'x str as MD<'x>>::spec_serialize(v.footer);
        let t2 = rest;
        let t1 = b1 + t2;
        let t0 = b0 + t1;
        lemma_concat_associative(b0, b1, t2);
        <&'x str as MD<'x>>::lemma_roundtrip(v.header, t1);
        <&'x str as MD<'x>>::lemma_roundtrip(v.footer, t2);
    }

    fn deserialize(memory: &mut &'x [u8]) -> (res: Result<PlayerlistHeaderResponse<'x>, ParseError>) {
        let header: &'x str = <&'x str as MD<'x>>::deserialize(memory)?;
        let footer: &'x str = <&'x str as MD<'x>>::deserialize(memory)?;
        Ok(PlayerlistHeaderResponse { header, footer })
    }

    fn serialize(&self, writer: &mut Vec<u8>) {
        let ghost v = self.deep_view();
        write_varint(writer, 0x5f);
        let ghost a = writer@;
        assert(old(writer)@ + Self::spec_header() =~= a);
        self.header.serialize(writer);
        proof {
            lemma_write_after_header(a, <&'x str as MD<'x>>::spec_header(), <&'x str as MD<'x>>::spec_serialize(v.header));
        }
        self.footer.serialize(writer);
        proof {
            lemma_write_next(a, <&'x str as MD<'x>>::spec_serialize(v.header), <&'x str as MD<'x>>::spec_header(), <&'x str as MD<'x>>::spec_serialize(v.footer));
        }
    }
}

/// Packet `0x61` of the play state, sent by the server.
#[derive(Debug)]
pub struct CollectResponse {
    pub collected_entity_id: i32,
    pub collector_entity_id: i32,
    pub pickup_item_count: i32,
}

impl DeepView for CollectResponse {
    type V = CollectResponse;

    open spec fn deep_view(&self) -> CollectResponse {
        *self
    }
}

impl<'x> MD<'x> for CollectResponse {
    open spec fn spec_deserialize(s0: Seq<u8>) -> Option<(CollectResponse, Seq<u8>)> {
        match varint_field(s0) {
            Some((collected_entity_id, s1)) => {
                match varint_field(s1) {
                    Some((collector_entity_id, s2)) => {
                        match varint_field(s2) {
                            Some((pickup_item_count, s3)) => {
                                Some((CollectResponse { collected_entity_id, collector_entity_id, pickup_item_count }, s3))
                            },
                            None => None,
                        }
                    },
                    None => None,
                }
            },
            None => None,
        }
    }

    open spec fn serializable() -> bool {
        true
    }

    open spec fn spec_header() -> Seq<u8> {
        varint_bytes(0x61)
    }

    open spec fn takes_rest() -> bool {
        false
    }

    open spec fn spec_serialize(v: CollectResponse) -> Seq<u8> {
        varint_bytes(v.collected_entity_id as u32) + varint_bytes(v.collector_entity_id as u32) + varint_bytes(v.pickup_item_count as u32)
    }

    open spec fn encodable(v: CollectResponse) -> bool {
        Self::serializable()
    }

    proof fn lemma_roundtrip(v: CollectResponse, rest: Seq<u8>) {
        let b0 = varint_bytes(v.collected_entity_id as u32);
        let b1 = varint_bytes(v.collector_entity_id as u32);
        let b2 = varint_bytes(v.pickup_item_count as u32);
        let t3 = rest;
        let t2 = b2 + t3;
        let t1 = b1 + t2;
        let t0 = b0 + t1;
        lemma_concat_associative(b0 + b1, b2, t3);
        lemma_concat_associative(b0, b1, t2);
        lemma_varint_field_roundtrip(v.collected_entity_id, t1);
        lemma_varint_field_roundtrip(v.collector_entity_id, t2);
        lemma_varint_field_roundtrip(v.pickup_item_count, t3);
    }

    fn deserialize(memory: &mut &'x [u8]) -> (res: Result<CollectResponse, ParseError>) {
        let collected_entity_id: i32 = read_varint(memory)?;
        let collector_entity_id: i32 = read_varint(memory)?;
        let pickup_item_count: i32 = read_varint(memory)?;
        Ok(CollectResponse { collected_entity_id, collector_entity_id, pickup_item_count })
    }

    fn serialize(&self, writer: &mut Vec<u8>) {
        let ghost v = self.deep_view();
        write_varint(writer, 0x61);
        let ghost a = writer@;
        assert(old(writer)@ + Self::spec_header() =~= a);
        write_varint(writer, self.collected_entity_id as u32);
        write_varint(writer, self.collector_entity_id as u32);
        proof {
            lemma_concat_associative(a, varint_bytes(v.collected_entity_id as u32), varint_bytes(v.collector_entity_id as u32));
        }
        write_varint(writer, self.pickup_item_count as u32);
        proof {
            lemma_concat_associative(a, varint_bytes(v.collected_entity_id as u32) + varint_bytes(v.collector_entity_id as u32), varint_bytes(v.pickup_item_count as u32));
        }
    }
}

/// Packet `0x62` of the play state, sent by the server.
#[derive(Debug)]
pub struct EntityTeleportResponse {
    pub entity_id: i32,
    /// The IEEE 754 bits of the `f64` value.
    pub x: u64,
    /// The IEEE 754 bits of the `f64` value.
    pub y: u64,
    /// The IEEE 754 bits of the `f64` value.
    pub z: u64,
    pub yaw: i8,
    pub pitch: i8,
    pub on_ground: bool,
}

impl DeepView for EntityTeleportResponse {
    type V = EntityTeleportResponse;

    open spec fn deep_view(&self) -> EntityTeleportResponse {
        *self
    }
}

impl<'x> MD<'x> for EntityTeleportResponse {
    open spec fn spec_deserialize(s0: Seq<u8>) -> Option<(EntityTeleportResponse, Seq<u8>)> {
        match varint_field(s0) {
            Some((entity_id, s1)) => {
                match <u64 as MD<'x>>::spec_deserialize(s1) {
                    Some((x, s2)) => {
                        match <u64 as MD<'x>>::spec_deserialize(s2) {
                            Some((y, s3)) => {
                                match <u64 as MD<'x>>::spec_deserialize(s3) {
                                    Some((z, s4)) => {
                                        match <i8 as MD<'x>>::spec_deserialize(s4) {
                                            Some((yaw, s5)) => {
                                                match <i8 as MD<'x>>::spec_deserialize(s5) {
                                                    Some((pitch, s6)) => {
                                                        match <bool as MD<'x>>::spec_deserialize(s6) {
                                                            Some((on_ground, s7)) => {
                                                                Some((EntityTeleportResponse { entity_id, x, y, z, yaw, pitch, on_ground }, s7))
                                                            },
                                                            None => None,
                                                        }
                                                    },
                                                    None => None,
                                                }
                                            },
                                            None => None,
                                        }
                                    },
                                    None => None,
                                }
                            },
                            None => None,
                        }
                    },
                    None => None,
                }
            },
            None => None,
        }
    }

    open spec fn serializable() -> bool {
        <u64 as MD<'x>>::serializable() && <u64 as MD<'x>>::serializable() && <u64 as MD<'x>>::serializable() && <i8 as MD<'x>>::serializable() && <i8 as MD<'x>>::serializable() && <bool as MD<'x>>::serializable()
    }

    open spec fn spec_header() -> Seq<u8> {
        varint_bytes(0x62)
    }

    open spec fn takes_rest() -> bool {
        false
    }

    open spec fn spec_serialize(v: EntityTeleportResponse) -> Seq<u8> {
        varint_bytes(v.entity_id as u32) + <u64 as MD<'x>>::spec_serialize(v.x) + <u64 as MD<'x>>::spec_serialize(v.y) + <u64 as MD<'x>>::spec_serialize(v.z) + <i8 as MD<'x>>::spec_serialize(v.yaw) + <i8 as MD<'x>>::spec_serialize(v.pitch) + <bool as MD<'x>>::spec_serialize(v.on_ground)
    }

    open spec fn encodable(v: EntityTeleportResponse) -> bool {
        Self::serializable() && <u64 as MD<'x>>::encodable(v.x) && <u64 as MD<'x>>::encodable(v.y) && <u64 as MD<'x>>::encodable(v.z) && <i8 as MD<'x>>::encodable(v.yaw) && <i8 as MD<'x>>::encodable(v.pitch) && <bool as MD<'x>>::encodable(v.on_ground)
    }

    proof fn lemma_roundtrip(v: EntityTeleportResponse, rest: Seq<u8>) {
        let b0 = varint_bytes(v.entity_id as u32);
        let b1 = <u64 as MD<'x>>::spec_serialize(v.x);
        let b2 = <u64 as MD<'x>>::spec_serialize(v.y);
        let b3 = <u64 as MD<'x>>::spec_serialize(v.z);
        let b4 = <i8 as MD<'x>>::spec_serialize(v.yaw);
        let b5 = <i8 as MD<'x>>::spec_serialize(v.pitch);
        let b6 = <bool as MD<'x>>::spec_serialize(v.on_ground);
        let t7 = rest;
        let t6 = b6 + t7;
        let t5 = b5 + t6;
        let t4 = b4 + t5;
        let t3 = b3 + t4;
        let t2 = b2 + t3;
        let t1 = b1 + t2;
        let t0 = b0 + t1;
        lemma_concat_associative(b0 + b1 + b2 + b3 + b4 + b5, b6, t7);
        lemma_concat_associative(b0 + b1 + b2 + b3 + b4, b5, t6);
        lemma_concat_associative(b0 + b1 + b2 + b3, b4, t5);
        lemma_concat_associative(b0 + b1 + b2, b3, t4);
        lemma_concat_associative(b0 + b1, b2, t3);
        lemma_concat_associative(b0, b1, t2);
        lemma_varint_field_roundtrip(v.entity_id, t1);
        <u64 as MD<'x>>::lemma_roundtrip(v.x, t2);
        <u64 as MD<'x>>::lemma_roundtrip(v.y, t3);
        <u64 as MD<'x>>::lemma_roundtrip(v.z, t4);
        <i8 as MD<'x>>::lemma_roundtrip(v.yaw, t5);
        <i8 as MD<'x>>::lemma_roundtrip(v.pitch, t6);
        <bool as MD<'x>>::lemma_roundtrip(v.on_ground, t7);
    }

    fn deserialize(memory: &mut &'x [u8]) -> (res: Result<EntityTeleportResponse, ParseError>) {
        let entity_id: i32 = read_varint(memory)?;
        let x: u64 = <u64 as MD<'x>>::deserialize(memory)?;
        let y: u64 = <u64 as MD<'x>>::deserialize(memory)?;
        let z: u64 = <u64 as MD<'x>>::deserialize(memory)?;
        let yaw: i8 = <i8 as MD<'x>>::deserialize(memory)?;
        let pitch: i8 = <i8 as MD<'x>>::deserialize(memory)?;
        let on_ground: bool = <bool as MD<'x>>::deserialize(memory)?;
        Ok(EntityTeleportResponse { entity_id, x, y, z, yaw, pitch, on_ground })
    }

    fn serialize(&self, writer: &mut Vec<u8>) {
        let ghost v = self.deep_view();
        write_varint(writer, 0x62);
        let ghost a = writer@;
        assert(old(writer)@ + Self::spec_header() =~= a);
        write_varint(writer, self.entity_id as u32);
        self.x.serialize(writer);
        proof {
            lemma_write_next(a, varint_bytes(v.entity_id as u32), <u64 as MD<'x>>::spec_header(), <u64 as MD<'x>>::spec_serialize(v.x));
        }
        self.y.serialize(writer);
        proof {
            lemma_write_next(a, varint_bytes(v.entity_id as u32) + <u64 as MD<'x>>::spec_serialize(v.x), <u64 as MD<'x>>::spec_header(), <u64 as MD<'x>>::spec_serialize(v.y));
        }
        self.z.serialize(writer);
        proof {
            lemma_write_next(a, varint_bytes(v.entity_id as u32) + <u64 as MD<'x>>::spec_serialize(v.x) + <u64 as MD<'x>>::spec_serialize(v.y), <u64 as MD<'x>>::spec_header(), <u64 as MD<'x>>::spec_serialize(v.z));
        }
        self.yaw.serialize(writer);
        proof {
            lemma_write_next(a, varint_bytes(v.entity_id as u32) + <u64 as MD<'x>>::spec_serialize(v.x) + <u64 as MD<'x>>::spec_serialize(v.y) + <u64 as MD<'x>>::spec_serialize(v.z), <i8 as MD<'x>>::spec_header(), <i8 as MD<'x>>::spec_serialize(v.yaw));
        }
        self.pitch.serialize(writer);
        proof {
            lemma_write_next(a, varint_bytes(v.entity_id as u32) + <u64 as MD<'x>>::spec_serialize(v.x) + <u64 as MD<'x>>::spec_serialize(v.y) + <u64 as MD<'x>>::spec_serialize(v.z) + <i8 as MD<'x>>::spec_serialize(v.yaw), <i8 as MD<'x>>::spec_header(), <i8 as MD<'x>>::spec_serialize(v.pitch));
        }
        self.on_ground.serialize(writer);
        proof {
            lemma_write_next(a, varint_bytes(v.entity_id as u32) + <u64 as MD<'x>>::spec_serialize(v.x) + <u64 as MD<'x>>::spec_serialize(v.y) + <u64 as MD<'x>>::spec_serialize(v.z) + <i8 as MD<'x>>::spec_serialize(v.yaw) + <i8 as MD<'x>>::spec_serialize(v.pitch), <bool as MD<'x>>::spec_header(), <bool as MD<'x>>::spec_serialize(v.on_ground));
        }
    }
}

#[derive(Debug)]
pub struct EntityUpdateAttributesResponse_Modifiers {
    pub uuid: u128,
    /// The IEEE 754 bits of the `f64` value.
    pub amount: u64,
    pub operation: i8,
}

impl DeepView for EntityUpdateAttributesResponse_Modifiers {
    type V = EntityUpdateAttributesResponse_Modifiers;

    open spec fn deep_view(&self) -> EntityUpdateAttributesResponse_Modifiers {
        *self
    }
}

impl<'x> MD<'x> for EntityUpdateAttributesResponse_Modifiers {
    open spec fn spec_deserialize(s0: Seq<u8>) -> Option<(EntityUpdateAttributesResponse_Modifiers, Seq<u8>)> {
        match <u128 as MD<'x>>::spec_deserialize(s0) {
            Some((uuid, s1)) => {
                match <u64 as MD<'x>>::spec_deserialize(s1) {
                    Some((amount, s2)) => {
                        match <i8 as MD<'x>>::spec_deserialize(s2) {
                            Some((operation, s3)) => {
                                Some((EntityUpdateAttributesResponse_Modifiers { uuid, amount, operation }, s3))
                            },
                            None => None,
                        }
                    },
                    None => None,
                }
            },
            None => None,
        }
    }

    open spec fn serializable() -> bool {
        <u128 as MD<'x>>::serializable() && <u64 as MD<'x>>::serializable() && <i8 as MD<'x>>::serializable()
    }

    open spec fn spec_header() -> Seq<u8> {
        Seq::empty()
    }

    open spec fn takes_rest() -> bool {
        false
    }

    open spec fn spec_serialize(v: EntityUpdateAttributesResponse_Modifiers) -> Seq<u8> {
        <u128 as MD<'x>>::spec_serialize(v.uuid) + <u64 as MD<'x>>::spec_serialize(v.amount) + <i8 as MD<'x>>::spec_serialize(v.operation)
    }

    open spec fn encodable(v: EntityUpdateAttributesResponse_Modifiers) -> bool {
        Self::serializable() && <u128 as MD<'x>>::encodable(v.uuid) && <u64 as MD<'x>>::encodable(v.amount) && <i8 as MD<'x>>::encodable(v.operation)
    }

    proof fn lemma_roundtrip(v: EntityUpdateAttributesResponse_Modifiers, rest: Seq<u8>) {
        let b0 = <u128 as MD<'x>>::spec_serialize(v.uuid);
        let b1 = <u64 as MD<'x>>::spec_serialize(v.amount);
        let b2 = <i8 as MD<'x>>::spec_serialize(v.operation);
        let t3 = rest;
        let t2 = b2 + t3;
        let t1 = b1 + t2;
        let t0 = b0 + t1;
        lemma_concat_associative(b0 + b1, b2, t3);
        lemma_concat_associative(b0, b1, t2);
        <u128 as MD<'x>>::lemma_roundtrip(v.uuid, t1);
        <u64 as MD<'x>>::lemma_roundtrip(v.amount, t2);
        <i8 as MD<'x>>::lemma_roundtrip(v.operation, t3);
    }

    fn deserialize(memory: &mut &'x [u8]) -> (res: Result<EntityUpdateAttributesResponse_Modifiers, ParseError>) {
        let uuid: u128 = <u128 as MD<'x>>::deserialize(memory)?;
        let amount: u64 = <u64 as MD<'x>>::deserialize(memory)?;
        let operation: i8 = <i8 as MD<'x>>::deserialize(memory)?;
        Ok(EntityUpdateAttributesResponse_Modifiers { uuid, amount, operation })
    }

    fn serialize(&self, writer: &mut Vec<u8>) {
        let ghost v = self.deep_view();
        let ghost a = writer@;
        assert(old(writer)@ + Self::spec_header() =~= a);
        self.uuid.serialize(writer);
        proof {
            lemma_write_after_header(a, <u128 as MD<'x>>::spec_header(), <u128 as MD<'x>>::spec_serialize(v.uuid));
        }
        self.amount.serialize(writer);
        proof {
            lemma_write_next(a, <u128 as MD<'x>>::spec_serialize(v.uuid), <u64 as MD<'x>>::spec_header(), <u64 as MD<'x>>::spec_serialize(v.amount));
        }
        self.operation.serialize(writer);
        proof {
            lemma_write_next(a, <u128 as MD<'x>>::spec_serialize(v.uuid) + <u64 as MD<'x>>::spec_serialize(v.amount), <i8 as MD<'x>>::spec_header(), <i8 as MD<'x>>::spec_serialize(v.operation));
        }
    }
}

#[derive(Debug)]
pub struct EntityUpdateAttributesResponse_Properties<'x> {
    pub key: &'x str,
    /// The IEEE 754 bits of the `f64` value.
    pub value: u64,
    pub modifiers: Vec<EntityUpdateAttributesResponse_Modifiers>,
}

/// What a `EntityUpdateAttributesResponse_Properties` holds.
pub struct EntityUpdateAttributesResponse_PropertiesView {
    pub key: Seq<char>,
    pub value: u64,
    pub modifiers: Seq<EntityUpdateAttributesResponse_Modifiers>,
}

impl<'x> DeepView for EntityUpdateAttributesResponse_Properties<'x> {
    type V = EntityUpdateAttributesResponse_PropertiesView;

    open spec fn deep_view(&self) -> EntityUpdateAttributesResponse_PropertiesView {
        EntityUpdateAttributesResponse_PropertiesView { key: self.key.deep_view(), value: self.value, modifiers: self.modifiers.deep_view() }
    }
}

impl<'x> MD<'x> for EntityUpdateAttributesResponse_Properties<'x> {
    open spec fn spec_deserialize(s0: Seq<u8>) -> Option<(EntityUpdateAttributesResponse_PropertiesView, Seq<u8>)> {
        match <&'x str as MD<'x>>::spec_deserialize(s0) {
            Some((key, s1)) => {
                match <u64 as MD<'x>>::spec_deserialize(s1) {
                    Some((value, s2)) => {
                        match varint_field(s2) {
                            Some((modifiers_count, s3)) => {
                                match spec_array::<'x, EntityUpdateAttributesResponse_Modifiers>(s3, modifiers_count as int) {
                                    Some((modifiers, s4)) => {
                                        Some((EntityUpdateAttributesResponse_PropertiesView { key, value, modifiers }, s4))
                                    },
                                    None => None,
                                }
                            },
                            None => None,
                        }
                    },
                    None => None,
                }
            },
            None => None,
        }
    }

    open spec fn serializable() -> bool {
        false
    }

    open spec fn spec_header() -> Seq<u8> {
        Seq::empty()
    }

    open spec fn takes_rest() -> bool {
        false
    }

    open spec fn spec_serialize(v: EntityUpdateAttributesResponse_PropertiesView) -> Seq<u8> {
        Seq::empty()
    }

    open spec fn encodable(v: EntityUpdateAttributesResponse_PropertiesView) -> bool {
        Self::serializable()
    }

    proof fn lemma_roundtrip(v: EntityUpdateAttributesResponse_PropertiesView, rest: Seq<u8>) {
    }

    fn deserialize(memory: &mut &'x [u8]) -> (res: Result<EntityUpdateAttributesResponse_Properties<'x>, ParseError>) {
        let key: &'x str = <&'x str as MD<'x>>::deserialize(memory)?;
        let value: u64 = <u64 as MD<'x>>::deserialize(memory)?;
        let modifiers_count: i32 = read_varint(memory)?;
        let modifiers: Vec<EntityUpdateAttributesResponse_Modifiers> = read_array(memory, modifiers_count)?;
        Ok(EntityUpdateAttributesResponse_Properties { key, value, modifiers })
    }

    fn serialize(&self, writer: &mut Vec<u8>) {
    }
}

/// Packet `0x64` of the play state, sent by the server.
#[derive(Debug)]
pub struct EntityUpdateAttributesResponse<'x> {
    pub entity_id: i32,
    pub properties: Vec<EntityUpdateAttributesResponse_Properties<'x>>,
}

/// What a `EntityUpdateAttributesResponse` holds.
pub struct EntityUpdateAttributesResponseView {
    pub entity_id: i32,
    pub properties: Seq<EntityUpdateAttributesResponse_PropertiesView>,
}

impl<'x> DeepView for EntityUpdateAttributesResponse<'x> {
    type V = EntityUpdateAttributesResponseView;

    open spec fn deep_view(&self) -> EntityUpdateAttributesResponseView {
        EntityUpdateAttributesResponseView { entity_id: self.entity_id, properties: self.properties.deep_view() }
    }
}

impl<'x> MD<'x> for EntityUpdateAttributesResponse<'x> {
    open spec fn spec_deserialize(s0: Seq<u8>) -> Option<(EntityUpdateAttributesResponseView, Seq<u8>)> {
        match varint_field(s0) {
            Some((entity_id, s1)) => {
                match varint_field(s1) {
                    Some((properties_count, s2)) => {
                        match spec_array::<'x, EntityUpdateAttributesResponse_Properties<'x>>(s2, properties_count as int) {
                            Some((properties, s3)) => {
                                Some((EntityUpdateAttributesResponseView { entity_id, properties }, s3))
                            },
                            None => None,
                        }
                    },
                    None => None,
                }
            },
            None => None,
        }
    }

    open spec fn serializable() -> bool {
        false
    }

    open spec fn spec_header() -> Seq<u8> {
        Seq::empty()
    }

    open spec fn takes_rest() -> bool {
        false
    }

    open spec fn spec_serialize(v: EntityUpdateAttributesResponseView) -> Seq<u8> {
        Seq::empty()
    }

    open spec fn encodable(v: EntityUpdateAttributesResponseView) -> bool {
        Self::serializable()
    }

    proof fn lemma_roundtrip(v: EntityUpdateAttributesResponseView, rest: Seq<u8>) {
    }

    fn deserialize(memory: &mut &'x [u8]) -> (res: Result<EntityUpdateAttributesResponse<'x>, ParseError>) {
        let entity_id: i32 = read_varint(memory)?;
        let properties_count: i32 = read_varint(memory)?;
        let properties: Vec<EntityUpdateAttributesResponse_Properties<'x>> = read_array(memory, properties_count)?;
        Ok(EntityUpdateAttributesResponse { entity_id, properties })
    }

    fn serialize(&self, writer: &mut Vec<u8>) {
    }
}

/// Packet `0x65` of the play state, sent by the server.
#[derive(Debug)]
pub struct EntityEffectResponse {
    pub entity_id: i32,
    pub effect_id: i32,
    pub amplifier: i8,
    pub duration: i32,
    pub hide_particles: i8,
}

impl DeepView for EntityEffectResponse {
    type V = EntityEffectResponse;

    open spec fn deep_view(&self) -> EntityEffectResponse {
        *self
    }
}

impl<'x> MD<'x> for EntityEffectResponse {
    open spec fn spec_deserialize(s0: Seq<u8>) -> Option<(EntityEffectResponse, Seq<u8>)> {
        match varint_field(s0) {
            Some((entity_id, s1)) => {
                match varint_field(s1) {
                    Some((effect_id, s2)) => {
                        match <i8 as MD<'x>>::spec_deserialize(s2) {
                            Some((amplifier, s3)) => {
                                match varint_field(s3) {
                                    Some((duration, s4)) => {
                                        match <i8 as MD<'x>>::spec_deserialize(s4) {
                                            Some((hide_particles, s5)) => {
                                                Some((EntityEffectResponse { entity_id, effect_id, amplifier, duration, hide_particles }, s5))
                                            },
                                            None => None,
                                        }
                                    },
                                    None => None,
                                }
                            },
                            None => None,
                        }
                    },
                    None => None,
                }
            },
            None => None,
        }
    }

    open spec fn serializable() -> bool {
        <i8 as MD<'x>>::serializable() && <i8 as MD<'x>>::serializable()
    }

    open spec fn spec_header() -> Seq<u8> {
        varint_bytes(0x65)
    }

    open spec fn takes_rest() -> bool {
        false
    }

    open spec fn spec_serialize(v: EntityEffectResponse) -> Seq<u8> {
        varint_bytes(v.entity_id as u32) + varint_bytes(v.effect_id as u32) + <i8 as MD<'x>>::spec_serialize(v.amplifier) + varint_bytes(v.duration as u32) + <i8 as MD<'x>>::spec_serialize(v.hide_particles)
    }

    open spec fn encodable(v: EntityEffectResponse) -> bool {
        Self::serializable() && <i8 as MD<'x>>::encodable(v.amplifier) && <i8 as MD<'x>>::encodable(v.hide_particles)
    }

    proof fn lemma_roundtrip(v: EntityEffectResponse, rest: Seq<u8>) {
        let b0 = varint_bytes(v.entity_id as u32);
        let b1 = varint_bytes(v.effect_id as u32);
        let b2 = <i8 as MD<'x>>::spec_serialize(v.amplifier);
        let b3 = varint_bytes(v.duration as u32);
        let b4 = <i8 as MD<'x>>::spec_serialize(v.hide_particles);
        let t5 = rest;
        let t4 = b4 + t5;
        let t3 = b3 + t4;
        let t2 = b2 + t3;
        let t1 = b1 + t2;
        let t0 = b0 + t1;
        lemma_concat_associative(b0 + b1 + b2 + b3, b4, t5);
        lemma_concat_associative(b0 + b1 + b2, b3, t4);
        lemma_concat_associative(b0 + b1, b2, t3);
        lemma_concat_associative(b0, b1, t2);
        lemma_varint_field_roundtrip(v.entity_id, t1);
        lemma_varint_field_roundtrip(v.effect_id, t2);
        <i8 as MD<'x>>::lemma_roundtrip(v.amplifier, t3);
        lemma_varint_field_roundtrip(v.duration, t4);
        <i8 as MD<'x>>::lemma_roundtrip(v.hide_particles, t5);
    }

    fn deserialize(memory: &mut &'x [u8]) -> (res: Result<EntityEffectResponse, ParseError>) {
        let entity_id: i32 = read_varint(memory)?;
        let effect_id: i32 = read_varint(memory)?;
        let amplifier: i8 = <i8 as MD<'x>>::deserialize(memory)?;
        let duration: i32 = read_varint(memory)?;
        let hide_particles: i8 = <i8 as MD<'x>>::deserialize(memory)?;
        Ok(EntityEffectResponse { entity_id, effect_id, amplifier, duration, hide_particles })
    }

    fn serialize(&self, writer: &mut Vec<u8>) {
        let ghost v = self.deep_view();
        write_varint(writer, 0x65);
        let ghost a = writer@;
        assert(old(writer)@ + Self::spec_header() =~= a);
        write_varint(writer, self.entity_id as u32);
        write_varint(writer, self.effect_id as u32);
        proof {
            lemma_concat_associative(a, varint_bytes(v.entity_id as u32), varint_bytes(v.effect_id as u32));
        }
        self.amplifier.serialize(writer);
        proof {
            lemma_write_next(a, varint_bytes(v.entity_id as u32) + varint_bytes(v.effect_id as u32), <i8 as MD<'x>>::spec_header(), <i8 as MD<'x>>::spec_serialize(v.amplifier));
        }
        write_varint(writer, self.duration as u32);
        proof {
            lemma_concat_associative(a, varint_bytes(v.entity_id as u32) + varint_bytes(v.effect_id as u32) + <i8 as MD<'x>>::spec_serialize(v.amplifier), varint_bytes(v.duration as u32));
        }
        self.hide_particles.serialize(writer);
        proof {
            lemma_write_next(a, varint_bytes(v.entity_id as u32) + varint_bytes(v.effect_id as u32) + <i8 as MD<'x>>::spec_serialize(v.amplifier) + varint_bytes(v.duration as u32), <i8 as MD<'x>>::spec_header(), <i8 as MD<'x>>::spec_serialize(v.hide_particles));
        }
    }
}

/// Packet `0x40` of the play state, sent by the server.
#[derive(Debug)]
pub struct SelectAdvancementTabResponse<'x> {
    pub id: Option<&'x str>,
}

/// What a `SelectAdvancementTabResponse` holds.
pub struct SelectAdvancementTabResponseView {
    pub id: Option<Seq<char>>,
}

impl<'x> DeepView for SelectAdvancementTabResponse<'x> {
    type V = SelectAdvancementTabResponseView;

    open spec fn deep_view(&self) -> SelectAdvancementTabResponseView {
        SelectAdvancementTabResponseView { id: self.id.deep_view() }
    }
}

impl<'x> MD<'x> for SelectAdvancementTabResponse<'x> {
    open spec fn spec_deserialize(s0: Seq<u8>) -> Option<(SelectAdvancementTabResponseView, Seq<u8>)> {
        match <Option<&'x str> as MD<'x>>::spec_deserialize(s0) {
            Some((id, s1)) => {
                Some((SelectAdvancementTabResponseView { id }, s1))
            },
            None => None,
        }
    }

    open spec fn serializable() -> bool {
        <Option<&'x str> as MD<'x>>::serializable()
    }

    open spec fn spec_header() -> Seq<u8> {
        varint_bytes(0x40)
    }

    open spec fn takes_rest() -> bool {
        false
    }

    open spec fn spec_serialize(v: SelectAdvancementTabResponseView) -> Seq<u8> {
        <Option<&'x str> as MD<'x>>::spec_serialize(v.id)
    }

    open spec fn encodable(v: SelectAdvancementTabResponseView) -> bool {
        Self::serializable() && <Option<&'x str> as MD<'x>>::encodable(v.id)
    }

    proof fn lemma_roundtrip(v: SelectAdvancementTabResponseView, rest: Seq<u8>) {
        let b0 = <Option<&'x str> as MD<'x>>::spec_serialize(v.id);
        let t1 = rest;
        let t0 = b0 + t1;
        assert(Self::spec_serialize(v) + rest == t0);
        <Option<&'x str> as MD<'x>>::lemma_roundtrip(v.id, t1);
    }

    fn deserialize(memory: &mut &'x [u8]) -> (res: Result<SelectAdvancementTabResponse<'x>, ParseError>) {
        let id: Option<&'x str> = <Option<&'x str> as MD<'x>>::deserialize(memory)?;
        Ok(SelectAdvancementTabResponse { id })
    }

    fn serialize(&self, writer: &mut Vec<u8>) {
        let ghost v = self.deep_view();
        write_varint(writer, 0x40);
        let ghost a = writer@;
        assert(old(writer)@ + Self::spec_header() =~= a);
        self.id.serialize(writer);
        proof {
            lemma_write_after_header(a, <Option<&'x str> as MD<'x>>::spec_header(), <Option<&'x str> as MD<'x>>::spec_serialize(v.id));
        }
    }
}

/// Its fields are not decoded: nothing is read for it.
#[derive(Debug)]
pub struct DeclareRecipesResponse_Recipes {}

impl DeepView for DeclareRecipesResponse_Recipes {
    type V = DeclareRecipesResponse_Recipes;

    open spec fn deep_view(&self) -> DeclareRecipesResponse_Recipes {
        *self
    }
}

impl<'x> MD<'x> for DeclareRecipesResponse_Recipes {
    open spec fn spec_deserialize(s0: Seq<u8>) -> Option<(DeclareRecipesResponse_Recipes, Seq<u8>)> {
        Some((DeclareRecipesResponse_Recipes {}, s0))
    }

    open spec fn serializable() -> bool {
        true
    }

    open spec fn spec_header() -> Seq<u8> {
        Seq::empty()
    }

    open spec fn takes_rest() -> bool {
        false
    }

    open spec fn spec_serialize(v: DeclareRecipesResponse_Recipes) -> Seq<u8> {
        Seq::empty()
    }

    open spec fn encodable(v: DeclareRecipesResponse_Recipes) -> bool {
        Self::serializable()
    }

    proof fn lemma_roundtrip(v: DeclareRecipesResponse_Recipes, rest: Seq<u8>) {
        assert(Seq::<u8>::empty() + rest =~= rest);
    }

    fn deserialize(memory: &mut &'x [u8]) -> (res: Result<DeclareRecipesResponse_Recipes, ParseError>) {
        Ok(DeclareRecipesResponse_Recipes {})
    }

    fn serialize(&self, writer: &mut Vec<u8>) {
        let ghost v = self.deep_view();
        let ghost a = writer@;
        assert(old(writer)@ + Self::spec_header() =~= a);
        assert(a + Self::spec_serialize(v) =~= a);
    }
}

/// Packet `0x66` of the play state, sent by the server.
#[derive(Debug)]
pub struct DeclareRecipesResponse {
    pub recipes: Vec<DeclareRecipesResponse_Recipes>,
}

/// What a `DeclareRecipesResponse` holds.
pub struct DeclareRecipesResponseView {
    pub recipes: Seq<DeclareRecipesResponse_Recipes>,
}

impl<'x> DeepView for DeclareRecipesResponse {
    type V = DeclareRecipesResponseView;

    open spec fn deep_view(&self) -> DeclareRecipesResponseView {
        DeclareRecipesResponseView { recipes: self.recipes.deep_view() }
    }
}

impl<'x> MD<'x> for DeclareRecipesResponse {
    open spec fn spec_deserialize(s0: Seq<u8>) -> Option<(DeclareRecipesResponseView, Seq<u8>)> {
        match varint_field(s0) {
            Some((recipes_count, s1)) => {
                match spec_array::<'x, DeclareRecipesResponse_Recipes>(s1, recipes_count as int) {
                    Some((recipes, s2)) => {
                        Some((DeclareRecipesResponseView { recipes }, s2))
                    },
                    None => None,
                }
            },
            None => None,
        }
    }

    open spec fn serializable() -> bool {
        false
    }

    open spec fn spec_header() -> Seq<u8> {
        Seq::empty()
    }

    open spec fn takes_rest() -> bool {
        false
    }

    open spec fn spec_serialize(v: DeclareRecipesResponseView) -> Seq<u8> {
        Seq::empty()
    }

    open spec fn encodable(v: DeclareRecipesResponseView) -> bool {
        Self::serializable()
    }

    proof fn lemma_roundtrip(v: DeclareRecipesResponseView, rest: Seq<u8>) {
    }

    fn deserialize(memory: &mut &'x [u8]) -> (res: Result<DeclareRecipesResponse, ParseError>) {
        let recipes_count: i32 = read_varint(memory)?;
        let recipes: Vec<DeclareRecipesResponse_Recipes> = read_array(memory, recipes_count)?;
        Ok(DeclareRecipesResponse { recipes })
    }

    fn serialize(&self, writer: &mut Vec<u8>) {
    }
}

/// Its fields are not decoded: nothing is read for it.
#[derive(Debug)]
pub struct TagsResponse_Tags {}

impl DeepView for TagsResponse_Tags {
    type V = TagsResponse_Tags;

    open spec fn deep_view(&self) -> TagsResponse_Tags {
        *self
    }
}

impl<'x> MD<'x> for TagsResponse_Tags {
    open spec fn spec_deserialize(s0: Seq<u8>) -> Option<(TagsResponse_Tags, Seq<u8>)> {
        Some((TagsResponse_Tags {}, s0))
    }

    open spec fn serializable() -> bool {
        true
    }

    open spec fn spec_header() -> Seq<u8> {
        Seq::empty()
    }

    open spec fn takes_rest() -> bool {
        false
    }

    open spec fn spec_serialize(v: TagsResponse_Tags) -> Seq<u8> {
        Seq::empty()
    }

    open spec fn encodable(v: TagsResponse_Tags) -> bool {
        Self::serializable()
    }

    proof fn lemma_roundtrip(v: TagsResponse_Tags, rest: Seq<u8>) {
        assert(Seq::<u8>::empty() + rest =~= rest);
    }

    fn deserialize(memory: &mut &'x [u8]) -> (res: Result<TagsResponse_Tags, ParseError>) {
        Ok(TagsResponse_Tags {})
    }

    fn serialize(&self, writer: &mut Vec<u8>) {
        let ghost v = self.deep_view();
        let ghost a = writer@;
        assert(old(writer)@ + Self::spec_header() =~= a);
        assert(a + Self::spec_serialize(v) =~= a);
    }
}

/// Packet `0x67` of the play state, sent by the server.
#[derive(Debug)]
pub struct TagsResponse {
    pub tags: Vec<TagsResponse_Tags>,
}

/// What a `TagsResponse` holds.
pub struct TagsResponseView {
    pub tags: Seq<TagsResponse_Tags>,
}

impl<'x> DeepView for TagsResponse {
    type V = TagsResponseView;

    open spec fn deep_view(&self) -> TagsResponseView {
        TagsResponseView { tags: self.tags.deep_view() }
    }
}

impl<'x> MD<'x> for TagsResponse {
    open spec fn spec_deserialize(s0: Seq<u8>) -> Option<(TagsResponseView, Seq<u8>)> {
        match varint_field(s0) {
            Some((tags_count, s1)) => {
                match spec_array::<'x, TagsResponse_Tags>(s1, tags_count as int) {
                    Some((tags, s2)) => {
                        Some((TagsResponseView { tags }, s2))
                    },
                    None => None,
                }
            },
            None => None,
        }
    }

    open spec fn serializable() -> bool {
        false
    }

    open spec fn spec_header() -> Seq<u8> {
        Seq::empty()
    }

    open spec fn takes_rest() -> bool {
        false
    }

    open spec fn spec_serialize(v: TagsResponseView) -> Seq<u8> {
        Seq::empty()
    }

    open spec fn encodable(v: TagsResponseView) -> bool {
        Self::serializable()
    }

    proof fn lemma_roundtrip(v: TagsResponseView, rest: Seq<u8>) {
    }

    fn deserialize(memory: &mut &'x [u8]) -> (res: Result<TagsResponse, ParseError>) {
        let tags_count: i32 = read_varint(memory)?;
        let tags: Vec<TagsResponse_Tags> = read_array(memory, tags_count)?;
        Ok(TagsResponse { tags })
    }

    fn serialize(&self, writer: &mut Vec<u8>) {
    }
}

/// Packet `0x8` of the play state, sent by the server.
#[derive(Debug)]
pub struct AcknowledgePlayerDiggingResponse {
    pub location: Position,
    pub block: i32,
    pub status: i32,
    pub successful: bool,
}

impl DeepView for AcknowledgePlayerDiggingResponse {
    type V = AcknowledgePlayerDiggingResponse;

    open spec fn deep_view(&self) -> AcknowledgePlayerDiggingResponse {
        *self
    }
}

impl<'x> MD<'x> for AcknowledgePlayerDiggingResponse {
    open spec fn spec_deserialize(s0: Seq<u8>) -> Option<(AcknowledgePlayerDiggingResponse, Seq<u8>)> {
        match <Position as MD<'x>>::spec_deserialize(s0) {
            Some((location, s1)) => {
                match varint_field(s1) {
                    Some((block, s2)) => {
                        match varint_field(s2) {
                            Some((status, s3)) => {
                                match <bool as MD<'x>>::spec_deserialize(s3) {
                                    Some((successful, s4)) => {
                                        Some((AcknowledgePlayerDiggingResponse { location, block, status, successful }, s4))
                                    },
                                    None => None,
                                }
                            },
                            None => None,
                        }
                    },
                    None => None,
                }
            },
            None => None,
        }
    }

    open spec fn serializable() -> bool {
        <Position as MD<'x>>::serializable() && <bool as MD<'x>>::serializable()
    }

    open spec fn spec_header() -> Seq<u8> {
        varint_bytes(0x8)
    }

    open spec fn takes_rest() -> bool {
        false
    }

    open spec fn spec_serialize(v: AcknowledgePlayerDiggingResponse) -> Seq<u8> {
        <Position as MD<'x>>::spec_serialize(v.location) + varint_bytes(v.block as u32) + varint_bytes(v.status as u32) + <bool as MD<'x>>::spec_serialize(v.successful)
    }

    open spec fn encodable(v: AcknowledgePlayerDiggingResponse) -> bool {
        Self::serializable() && <Position as MD<'x>>::encodable(v.location) && <bool as MD<'x>>::encodable(v.successful)
    }

    proof fn lemma_roundtrip(v: AcknowledgePlayerDiggingResponse, rest: Seq<u8>) {
        let b0 = <Position as MD<'x>>::spec_serialize(v.location);
        let b1 = varint_bytes(v.block as u32);
        let b2 = varint_bytes(v.status as u32);
        let b3 = <bool as MD<'x>>::spec_serialize(v.successful);
        let t4 = rest;
        let t3 = b3 + t4;
        let t2 = b2 + t3;
        let t1 = b1 + t2;
        let t0 = b0 + t1;
        lemma_concat_associative(b0 + b1 + b2, b3, t4);
        lemma_concat_associative(b0 + b1, b2, t3);
        lemma_concat_associative(b0, b1, t2);
        <Position as MD<'x>>::lemma_roundtrip(v.location, t1);
        lemma_varint_field_roundtrip(v.block, t2);
        lemma_varint_field_roundtrip(v.status, t3);
        <bool as MD<'x>>::lemma_roundtrip(v.successful, t4);
    }

    fn deserialize(memory: &mut &'x [u8]) -> (res: Result<AcknowledgePlayerDiggingResponse, ParseError>) {
        let location: Position = <Position as MD<'x>>::deserialize(memory)?;
        let block: i32 = read_varint(memory)?;
        let status: i32 = read_varint(memory)?;
        let successful: bool = <bool as MD<'x>>::deserialize(memory)?;
        Ok(AcknowledgePlayerDiggingResponse { location, block, status, successful })
    }

    fn serialize(&self, writer: &mut Vec<u8>) {
        let ghost v = self.deep_view();
        write_varint(writer, 0x8);
        let ghost a = writer@;
        assert(old(writer)@ + Self::spec_header() =~= a);
        self.location.serialize(writer);
        proof {
            lemma_write_after_header(a, <Position as MD<'x>>::spec_header(), <Position as MD<'x>>::spec_serialize(v.location));
        }
        write_varint(writer, self.block as u32);
        proof {
            lemma_concat_associative(a, <Position as MD<'x>>::spec_serialize(v.location), varint_bytes(v.block as u32));
        }
        write_varint(writer, self.status as u32);
        proof {
            lemma_concat_associative(a, <Position as MD<'x>>::spec_serialize(v.location) + varint_bytes(v.block as u32), varint_bytes(v.status as u32));
        }
        self.successful.serialize(writer);
        proof {
            lemma_write_next(a, <Position as MD<'x>>::spec_serialize(v.location) + varint_bytes(v.block as u32) + varint_bytes(v.status as u32), <bool as MD<'x>>::spec_header(), <bool as MD<'x>>::spec_serialize(v.successful));
        }
    }
}

/// Packet `0x5` of the play state, sent by the server.
/// Its fields are not decoded: nothing is read for it.
#[derive(Debug)]
pub struct SculkVibrationSignalResponse {}

impl DeepView for SculkVibrationSignalResponse {
    type V = SculkVibrationSignalResponse;

    open spec fn deep_view(&self) -> SculkVibrationSignalResponse {
        *self
    }
}

impl<'x> MD<'x> for SculkVibrationSignalResponse {
    open spec fn spec_deserialize(s0: Seq<u8>) -> Option<(SculkVibrationSignalResponse, Seq<u8>)> {
        Some((SculkVibrationSignalResponse {}, s0))
    }

    open spec fn serializable() -> bool {
        true
    }

    open spec fn spec_header() -> Seq<u8> {
        varint_bytes(0x5)
    }

    open spec fn takes_rest() -> bool {
        false
    }

    open spec fn spec_serialize(v: SculkVibrationSignalResponse) -> Seq<u8> {
        Seq::empty()
    }

    open spec fn encodable(v: SculkVibrationSignalResponse) -> bool {
        Self::serializable()
    }

    proof fn lemma_roundtrip(v: SculkVibrationSignalResponse, rest: Seq<u8>) {
        assert(Seq::<u8>::empty() + rest =~= rest);
    }

    fn deserialize(memory: &mut &'x [u8]) -> (res: Result<SculkVibrationSignalResponse, ParseError>) {
        Ok(SculkVibrationSignalResponse {})
    }

    fn serialize(&self, writer: &mut Vec<u8>) {
        let ghost v = self.deep_view();
        write_varint(writer, 0x5);
        let ghost a = writer@;
        assert(old(writer)@ + Self::spec_header() =~= a);
        assert(a + Self::spec_serialize(v) =~= a);
    }
}

/// Packet `0x10` of the play state, sent by the server.
#[derive(Debug)]
pub struct ClearTitlesResponse {
    pub reset: bool,
}

impl DeepView for ClearTitlesResponse {
    type V = ClearTitlesResponse;

    open spec fn deep_view(&self) -> ClearTitlesResponse {
        *self
    }
}

impl<'x> MD<'x> for ClearTitlesResponse {
    open spec fn spec_deserialize(s0: Seq<u8>) -> Option<(ClearTitlesResponse, Seq<u8>)> {
        match <bool as MD<'x>>::spec_deserialize(s0) {
            Some((reset, s1)) => {
                Some((ClearTitlesResponse { reset }, s1))
            },
            None => None,
        }
    }

    open spec fn serializable() -> bool {
        <bool as MD<'x>>::serializable()
    }

    open spec fn spec_header() -> Seq<u8> {
        varint_bytes(0x10)
    }

    open spec fn takes_rest() -> bool {
        false
    }

    open spec fn spec_serialize(v: ClearTitlesResponse) -> Seq<u8> {
        <bool as MD<'x>>::spec_serialize(v.reset)
    }

    open spec fn encodable(v: ClearTitlesResponse) -> bool {
        Self::serializable() && <bool as MD<'x>>::encodable(v.reset)
    }

    proof fn lemma_roundtrip(v: ClearTitlesResponse, rest: Seq<u8>) {
        let b0 = <bool as MD<'x>>::spec_serialize(v.reset);
        let t1 = rest;
        let t0 = b0 + t1;
        assert(Self::spec_serialize(v) + rest == t0);
        <bool as MD<'x>>::lemma_roundtrip(v.reset, t1);
    }

    fn deserialize(memory: &mut &'x [u8]) -> (res: Result<ClearTitlesResponse, ParseError>) {
        let reset: bool = <bool as MD<'x>>::deserialize(memory)?;
        Ok(ClearTitlesResponse { reset })
    }

    fn serialize(&self, writer: &mut Vec<u8>) {
        let ghost v = self.deep_view();
        write_varint(writer, 0x10);
        let ghost a = writer@;
        assert(old(writer)@ + Self::spec_header() =~= a);
        self.reset.serialize(writer);
        proof {
            lemma_write_after_header(a, <bool as MD<'x>>::spec_header(), <bool as MD<'x>>::spec_serialize(v.reset));
        }
    }
}

/// Packet `0x20` of the play state, sent by the server.
#[derive(Debug)]
pub struct InitializeWorldBorderResponse {
    /// The IEEE 754 bits of the `f64` value.
    pub x: u64,
    /// The IEEE 754 bits of the `f64` value.
    pub z: u64,
    /// The IEEE 754 bits of the `f64` value.
    pub old_diameter: u64,
    /// The IEEE 754 bits of the `f64` value.
    pub new_diameter: u64,
    pub speed: i64,
    pub portal_teleport_boundary: i32,
    pub warning_blocks: i32,
    pub warning_time: i32,
}

impl DeepView for InitializeWorldBorderResponse {
    type V = InitializeWorldBorderResponse;

    open spec fn deep_view(&self) -> InitializeWorldBorderResponse {
        *self
    }
}

impl<'x> MD<'x> for InitializeWorldBorderResponse {
    open spec fn spec_deserialize(s0: Seq<u8>) -> Option<(InitializeWorldBorderResponse, Seq<u8>)> {
        match <u64 as MD<'x>>::spec_deserialize(s0) {
            Some((x, s1)) => {
                match <u64 as MD<'x>>::spec_deserialize(s1) {
                    Some((z, s2)) => {
                        match <u64 as MD<'x>>::spec_deserialize(s2) {
                            Some((old_diameter, s3)) => {
                                match <u64 as MD<'x>>::spec_deserialize(s3) {
                                    Some((new_diameter, s4)) => {
                                        match varlong_field(s4) {
                                            Some((speed, s5)) => {
                                                match varint_field(s5) {
                                                    Some((portal_teleport_boundary, s6)) => {
                                                        match varint_field(s6) {
                                                            Some((warning_blocks, s7)) => {
                                                                match varint_field(s7) {
                                                                    Some((warning_time, s8)) => {
                                                                        Some((InitializeWorldBorderResponse { x, z, old_diameter, new_diameter, speed, portal_teleport_boundary, warning_blocks, warning_time }, s8))
                                                                    },
                                                                    None => None,
                                                                }
                                                            },
                                                            None => None,
                                                        }
                                                    },
                                                    None => None,
                                                }
                                            },
                                            None => None,
                                        }
                                    },
                                    None => None,
                                }
                            },
                            None => None,
                        }
                    },
                    None => None,
                }
            },
            None => None,
        }
    }

    open spec fn serializable() -> bool {
        <u64 as MD<'x>>::serializable() && <u64 as MD<'x>>::serializable() && <u64 as MD<'x>>::serializable() && <u64 as MD<'x>>::serializable()
    }

    open spec fn spec_header() -> Seq<u8> {
        varint_bytes(0x20)
    }

    open spec fn takes_rest() -> bool {
        false
    }

    open spec fn spec_serialize(v: InitializeWorldBorderResponse) -> Seq<u8> {
        <u64 as MD<'x>>::spec_serialize(v.x) + <u64 as MD<'x>>::spec_serialize(v.z) + <u64 as MD<'x>>::spec_serialize(v.old_diameter) + <u64 as MD<'x>>::spec_serialize(v.new_diameter) + varlong_bytes(v.speed as u64) + varint_bytes(v.portal_teleport_boundary as u32) + varint_bytes(v.warning_blocks as u32) + varint_bytes(v.warning_time as u32)
    }

    open spec fn encodable(v: InitializeWorldBorderResponse) -> bool {
        Self::serializable() && <u64 as MD<'x>>::encodable(v.x) && <u64 as MD<'x>>::encodable(v.z) && <u64 as MD<'x>>::encodable(v.old_diameter) && <u64 as MD<'x>>::encodable(v.new_diameter)
    }

    proof fn lemma_roundtrip(v: InitializeWorldBorderResponse, rest: Seq<u8>) {
        let b0 = <u64 as MD<'x>>::spec_serialize(v.x);
        let b1 = <u64 as MD<'x>>::spec_serialize(v.z);
        let b2 = <u64 as MD<'x>>::spec_serialize(v.old_diameter);
        let b3 = <u64 as MD<'x>>::spec_serialize(v.new_diameter);
        let b4 = varlong_bytes(v.speed as u64);
        let b5 = varint_bytes(v.portal_teleport_boundary as u32);
        let b6 = varint_bytes(v.warning_blocks as u32);
        let b7 = varint_bytes(v.warning_time as u32);
        let t8 = rest;
        let t7 = b7 + t8;
        let t6 = b6 + t7;
        let t5 = b5 + t6;
        let t4 = b4 + t5;
        let t3 = b3 + t4;
        let t2 = b2 + t3;
        let t1 = b1 + t2;
        let t0 = b0 + t1;
        lemma_concat_associative(b0 + b1 + b2 + b3 + b4 + b5 + b6, b7, t8);
        lemma_concat_associative(b0 + b1 + b2 + b3 + b4 + b5, b6, t7);
        lemma_concat_associative(b0 + b1 + b2 + b3 + b4, b5, t6);
        lemma_concat_associative(b0 + b1 + b2 + b3, b4, t5);
        lemma_concat_associative(b0 + b1 + b2, b3, t4);
        lemma_concat_associative(b0 + b1, b2, t3);
        lemma_concat_associative(b0, b1, t2);
        <u64 as MD<'x>>::lemma_roundtrip(v.x, t1);
        <u64 as MD<'x>>::lemma_roundtrip(v.z, t2);
        <u64 as MD<'x>>::lemma_roundtrip(v.old_diameter, t3);
        <u64 as MD<'x>>::lemma_roundtrip(v.new_diameter, t4);
        lemma_varlong_field_roundtrip(v.speed, t5);
        lemma_varint_field_roundtrip(v.portal_teleport_boundary, t6);
        lemma_varint_field_roundtrip(v.warning_blocks, t7);
        lemma_varint_field_roundtrip(v.warning_time, t8);
    }

    fn deserialize(memory: &mut &'x [u8]) -> (res: Result<InitializeWorldBorderResponse, ParseError>) {
        let x: u64 = <u64 as MD<'x>>::deserialize(memory)?;
        let z: u64 = <u64 as MD<'x>>::deserialize(memory)?;
        let old_diameter: u64 = <u64 as MD<'x>>::deserialize(memory)?;
        let new_diameter: u64 = <u64 as MD<'x>>::deserialize(memory)?;
        let speed: i64 = read_varlong(memory)?;
        let portal_teleport_boundary: i32 = read_varint(memory)?;
        let warning_blocks: i32 = read_varint(memory)?;
        let warning_time: i32 = read_varint(memory)?;
        Ok(InitializeWorldBorderResponse { x, z, old_diameter, new_diameter, speed, portal_teleport_boundary, warning_blocks, warning_time })
    }

    fn serialize(&self, writer: &mut Vec<u8>) {
        let ghost v = self.deep_view();
        write_varint(writer, 0x20);
        let ghost a = writer@;
        assert(old(writer)@ + Self::spec_header() =~= a);
        self.x.serialize(writer);
        proof {
            lemma_write_after_header(a, <u64 as MD<'x>>::spec_header(), <u64 as MD<'x>>::spec_serialize(v.x));
        }
        self.z.serialize(writer);
        proof {
            lemma_write_next(a, <u64 as MD<'x>>::spec_serialize(v.x), <u64 as MD<'x>>::spec_header(), <u64 as MD<'x>>::spec_serialize(v.z));
        }
        self.old_diameter.serialize(writer);
        proof {
            lemma_write_next(a, <u64 as MD<'x>>::spec_serialize(v.x) + <u64 as MD<'x>>::spec_serialize(v.z), <u64 as MD<'x>>::spec_header(), <u64 as MD<'x>>::spec_serialize(v.old_diameter));
        }
        self.new_diameter.serialize(writer);
        proof {
            lemma_write_next(a, <u64 as MD<'x>>::spec_serialize(v.x) + <u64 as MD<'x>>::spec_serialize(v.z) + <u64 as MD<'x>>::spec_serialize(v.old_diameter), <u64 as MD<'x>>::spec_header(), <u64 as MD<'x>>::spec_serialize(v.new_diameter));
        }
        write_varlong(writer, self.speed as u64);
        proof {
            lemma_concat_associative(a, <u64 as MD<'x>>::spec_serialize(v.x) + <u64 as MD<'x>>::spec_serialize(v.z) + <u64 as MD<'x>>::spec_serialize(v.old_diameter) + <u64 as MD<'x>>::spec_serialize(v.new_diameter), varlong_bytes(v.speed as u64));
        }
        write_varint(writer, self.portal_teleport_boundary as u32);
        proof {
            lemma_concat_associative(a, <u64 as MD<'x>>::spec_serialize(v.x) + <u64 as MD<'x>>::spec_serialize(v.z) + <u64 as MD<'x>>::spec_serialize(v.old_diameter) + <u64 as MD<'x>>::spec_serialize(v.new_diameter) + varlong_bytes(v.speed as u64), varint_bytes(v.portal_teleport_boundary as u32));
        }
        write_varint(writer, self.warning_blocks as u32);
        proof {
            lemma_concat_associative(a, <u64 as MD<'x>>::spec_serialize(v.x) + <u64 as MD<'x>>::spec_serialize(v.z) + <u64 as MD<'x>>::spec_serialize(v.old_diameter) + <u64 as MD<'x>>::spec_serialize(v.new_diameter) + varlong_bytes(v.speed as u64) + varint_bytes(v.portal_teleport_boundary as u32), varint_bytes(v.warning_blocks as u32));
        }
        write_varint(writer, self.warning_time as u32);
        proof {
            lemma_concat_associative(a, <u64 as MD<'x>>::spec_serialize(v.x) + <u64 as MD<'x>>::spec_serialize(v.z) + <u64 as MD<'x>>::spec_serialize(v.old_diameter) + <u64 as MD<'x>>::spec_serialize(v.new_diameter) + varlong_bytes(v.speed as u64) + varint_bytes(v.portal_teleport_boundary as u32) + varint_bytes(v.warning_blocks as u32), varint_bytes(v.warning_time as u32));
        }
    }
}

/// Packet `0x41` of the play state, sent by the server.
#[derive(Debug)]
pub struct ActionBarResponse<'x> {
    pub text: &'x str,
}

/// What a `ActionBarResponse` holds.
pub struct ActionBarResponseView {
    pub text: Seq<char>,
}

impl<'x> DeepView for ActionBarResponse<'x> {
    type V = ActionBarResponseView;

    open spec fn deep_view(&self) -> ActionBarResponseView {
        ActionBarResponseView { text: self.text.deep_view() }
    }
}

impl<'x> MD<'x> for ActionBarResponse<'x> {
    open spec fn spec_deserialize(s0: Seq<u8>) -> Option<(ActionBarResponseView, Seq<u8>)> {
        match <&'x str as MD<'x>>::spec_deserialize(s0) {
            Some((text, s1)) => {
                Some((ActionBarResponseView { text }, s1))
            },
            None => None,
        }
    }

    open spec fn serializable() -> bool {
        <&'x str as MD<'x>>::serializable()
    }

    open spec fn spec_header() -> Seq<u8> {
        varint_bytes(0x41)
    }

    open spec fn takes_rest() -> bool {
        false
    }

    open spec fn spec_serialize(v: ActionBarResponseView) -> Seq<u8> {
        <&'x str as MD<'x>>::spec_serialize(v.text)
    }

    open spec fn encodable(v: ActionBarResponseView) -> bool {
        Self::serializable() && <&'x str as MD<'x>>::encodable(v.text)
    }

    proof fn lemma_roundtrip(v: ActionBarResponseView, rest: Seq<u8>) {
        let b0 = <&'x str as MD<'x>>::spec_serialize(v.text);
        let t1 = rest;
        let t0 = b0 + t1;
        assert(Self::spec_serialize(v) + rest == t0);
        <&'x str as MD<'x>>::lemma_roundtrip(v.text, t1);
    }

    fn deserialize(memory: &mut &'x [u8]) -> (res: Result<ActionBarResponse<'x>, ParseError>) {
        let text: &'x str = <&'x str as MD<'x>>::deserialize(memory)?;
        Ok(ActionBarResponse { text })
    }

    fn serialize(&self, writer: &mut Vec<u8>) {
        let ghost v = self.deep_view();
        write_varint(writer, 0x41);
        let ghost a = writer@;
        assert(old(writer)@ + Self::spec_header() =~= a);
        self.text.serialize(writer);
        proof {
            lemma_write_after_header(a, <&'x str as MD<'x>>::spec_header(), <&'x str as MD<'x>>::spec_serialize(v.text));
        }
    }
}

/// Packet `0x42` of the play state, sent by the server.
#[derive(Debug)]
pub struct WorldBorderCenterResponse {
    /// The IEEE 754 bits of the `f64` value.
    pub x: u64,
    /// The IEEE 754 bits of the `f64` value.
    pub z: u64,
}

impl DeepView for WorldBorderCenterResponse {
    type V = WorldBorderCenterResponse;

    open spec fn deep_view(&self) -> WorldBorderCenterResponse {
        *self
    }
}

impl<'x> MD<'x> for WorldBorderCenterResponse {
    open spec fn spec_deserialize(s0: Seq<u8>) -> Option<(WorldBorderCenterResponse, Seq<u8>)> {
        match <u64 as MD<'x>>::spec_deserialize(s0) {
            Some((x, s1)) => {
                match <u64 as MD<'x>>::spec_deserialize(s1) {
                    Some((z, s2)) => {
                        Some((WorldBorderCenterResponse { x, z }, s2))
                    },
                    None => None,
                }
            },
            None => None,
        }
    }

    open spec fn serializable() -> bool {
        <u64 as MD<'x>>::serializable() && <u64 as MD<'x>>::serializable()
    }

    open spec fn spec_header() -> Seq<u8> {
        varint_bytes(0x42)
    }

    open spec fn takes_rest() -> bool {
        false
    }

    open spec fn spec_serialize(v: WorldBorderCenterResponse) -> Seq<u8> {
        <u64 as MD<'x>>::spec_serialize(v.x) + <u64 as MD<'x>>::spec_serialize(v.z)
    }

    open spec fn encodable(v: WorldBorderCenterResponse) -> bool {
        Self::serializable() && <u64 as MD<'x>>::encodable(v.x) && <u64 as MD<'x>>::encodable(v.z)
    }

    proof fn lemma_roundtrip(v: WorldBorderCenterResponse, rest: Seq<u8>) {
        let b0 = <u64 as MD<'x>>::spec_serialize(v.x);
        let b1 = <u64 as MD<'x>>::spec_serialize(v.z);
        let t2 = rest;
        let t1 = b1 + t2;
        let t0 = b0 + t1;
        lemma_concat_associative(b0, b1, t2);
        <u64 as MD<'x>>::lemma_roundtrip(v.x, t1);
        <u64 as MD<'x>>::lemma_roundtrip(v.z, t2);
    }

    fn deserialize(memory: &mut &'x [u8]) -> (res: Result<WorldBorderCenterResponse, ParseError>) {
        let x: u64 = <u64 as MD<'x>>::deserialize(memory)?;
        let z: u64 = <u64 as MD<'x>>::deserialize(memory)?;
        Ok(WorldBorderCenterResponse { x, z })
    }

    fn serialize(&self, writer: &mut Vec<u8>) {
        let ghost v = self.deep_view();
        write_varint(writer, 0x42);
        let ghost a = writer@;
        assert(old(writer)@ + Self::spec_header() =~= a);
        self.x.serialize(writer);
        proof {
            lemma_write_after_header(a, <u64 as MD<'x>>::spec_header(), <u64 as MD<'x>>::spec_serialize(v.x));
        }
        self.z.serialize(writer);
        proof {
            lemma_write_next(a, <u64 as MD<'x>>::spec_serialize(v.x), <u64 as MD<'x>>::spec_header(), <u64 as MD<'x>>::spec_serialize(v.z));
        }
    }
}

/// Packet `0x43` of the play state, sent by the server.
#[derive(Debug)]
pub struct WorldBorderLerpSizeResponse {
    /// The IEEE 754 bits of the `f64` value.
    pub old_diameter: u64,
    /// The IEEE 754 bits of the `f64` value.
    pub new_diameter: u64,
    pub speed: i64,
}

impl DeepView for WorldBorderLerpSizeResponse {
    type V = WorldBorderLerpSizeResponse;

    open spec fn deep_view(&self) -> WorldBorderLerpSizeResponse {
        *self
    }
}

impl<'x> MD<'x> for WorldBorderLerpSizeResponse {
    open spec fn spec_deserialize(s0: Seq<u8>) -> Option<(WorldBorderLerpSizeResponse, Seq<u8>)> {
        match <u64 as MD<'x>>::spec_deserialize(s0) {
            Some((old_diameter, s1)) => {
                match <u64 as MD<'x>>::spec_deserialize(s1) {
                    Some((new_diameter, s2)) => {
                        match varlong_field(s2) {
                            Some((speed, s3)) => {
                                Some((WorldBorderLerpSizeResponse { old_diameter, new_diameter, speed }, s3))
                            },
                            None => None,
                        }
                    },
                    None => None,
                }
            },
            None => None,
        }
    }

    open spec fn serializable() -> bool {
        <u64 as MD<'x>>::serializable() && <u64 as MD<'x>>::serializable()
    }

    open spec fn spec_header() -> Seq<u8> {
        varint_bytes(0x43)
    }

    open spec fn takes_rest() -> bool {
        false
    }

    open spec fn spec_serialize(v: WorldBorderLerpSizeResponse) -> Seq<u8> {
        <u64 as MD<'x>>::spec_serialize(v.old_diameter) + <u64 as MD<'x>>::spec_serialize(v.new_diameter) + varlong_bytes(v.speed as u64)
    }

    open spec fn encodable(v: WorldBorderLerpSizeResponse) -> bool {
        Self::serializable() && <u64 as MD<'x>>::encodable(v.old_diameter) && <u64 as MD<'x>>::encodable(v.new_diameter)
    }

    proof fn lemma_roundtrip(v: WorldBorderLerpSizeResponse, rest: Seq<u8>) {
        let b0 = <u64 as MD<'x>>::spec_serialize(v.old_diameter);
        let b1 = <u64 as MD<'x>>::spec_serialize(v.new_diameter);
        let b2 = varlong_bytes(v.speed as u64);
        let t3 = rest;
        let t2 = b2 + t3;
        let t1 = b1 + t2;
        let t0 = b0 + t1;
        lemma_concat_associative(b0 + b1, b2, t3);
        lemma_concat_associative(b0, b1, t2);
        <u64 as MD<'x>>::lemma_roundtrip(v.old_diameter, t1);
        <u64 as MD<'x>>::lemma_roundtrip(v.new_diameter, t2);
        lemma_varlong_field_roundtrip(v.speed, t3);
    }

    fn deserialize(memory: &mut &'x [u8]) -> (res: Result<WorldBorderLerpSizeResponse, ParseError>) {
        let old_diameter: u64 = <u64 as MD<'x>>::deserialize(memory)?;
        let new_diameter: u64 = <u64 as MD<'x>>::deserialize(memory)?;
        let speed: i64 = read_varlong(memory)?;
        Ok(WorldBorderLerpSizeResponse { old_diameter, new_diameter, speed })
    }

    fn serialize(&self, writer: &mut Vec<u8>) {
        let ghost v = self.deep_view();
        write_varint(writer, 0x43);
        let ghost a = writer@;
        assert(old(writer)@ + Self::spec_header() =~= a);
        self.old_diameter.serialize(writer);
        proof {
            lemma_write_after_header(a, <u64 as MD<'x>>::spec_header(), <u64 as MD<'x>>::spec_serialize(v.old_diameter));
        }
        self.new_diameter.serialize(writer);
        proof {
            lemma_write_next(a, <u64 as MD<'x>>::spec_serialize(v.old_diameter), <u64 as MD<'x>>::spec_header(), <u64 as MD<'x>>::spec_serialize(v.new_diameter));
        }
        write_varlong(writer, self.speed as u64);
        proof {
            lemma_concat_associative(a, <u64 as MD<'x>>::spec_serialize(v.old_diameter) + <u64 as MD<'x>>::spec_serialize(v.new_diameter), varlong_bytes(v.speed as u64));
        }
    }
}

/// Packet `0x44` of the play state, sent by the server.
#[derive(Debug)]
pub struct WorldBorderSizeResponse {
    /// The IEEE 754 bits of the `f64` value.
    pub diameter: u64,
}

impl DeepView for WorldBorderSizeResponse {
    type V = WorldBorderSizeResponse;

    open spec fn deep_view(&self) -> WorldBorderSizeResponse {
        *self
    }
}

impl<'x> MD<'x> for WorldBorderSizeResponse {
    open spec fn spec_deserialize(s0: Seq<u8>) -> Option<(WorldBorderSizeResponse, Seq<u8>)> {
        match <u64 as MD<'x>>::spec_deserialize(s0) {
            Some((diameter, s1)) => {
                Some((WorldBorderSizeResponse { diameter }, s1))
            },
            None => None,
        }
    }

    open spec fn serializable() -> bool {
        <u64 as MD<'x>>::serializable()
    }

    open spec fn spec_header() -> Seq<u8> {
        varint_bytes(0x44)
    }

    open spec fn takes_rest() -> bool {
        false
    }

    open spec fn spec_serialize(v: WorldBorderSizeResponse) -> Seq<u8> {
        <u64 as MD<'x>>::spec_serialize(v.diameter)
    }

    open spec fn encodable(v: WorldBorderSizeResponse) -> bool {
        Self::serializable() && <u64 as MD<'x>>::encodable(v.diameter)
    }

    proof fn lemma_roundtrip(v: WorldBorderSizeResponse, rest: Seq<u8>) {
        let b0 = <u64 as MD<'x>>::spec_serialize(v.diameter);
        let t1 = rest;
        let t0 = b0 + t1;
        assert(Self::spec_serialize(v) + rest == t0);
        <u64 as MD<'x>>::lemma_roundtrip(v.diameter, t1);
    }

    fn deserialize(memory: &mut &'x [u8]) -> (res: Result<WorldBorderSizeResponse, ParseError>) {
        let diameter: u64 = <u64 as MD<'x>>::deserialize(memory)?;
        Ok(WorldBorderSizeResponse { diameter })
    }

    fn serialize(&self, writer: &mut Vec<u8>) {
        let ghost v = self.deep_view();
        write_varint(writer, 0x44);
        let ghost a = writer@;
        assert(old(writer)@ + Self::spec_header() =~= a);
        self.diameter.serialize(writer);
        proof {
            lemma_write_after_header(a, <u64 as MD<'x>>::spec_header(), <u64 as MD<'x>>::spec_serialize(v.diameter));
        }
    }
}

/// Packet `0x45` of the play state, sent by the server.
#[derive(Debug)]
pub struct WorldBorderWarningDelayResponse {
    pub warning_time: i32,
}

impl DeepView for WorldBorderWarningDelayResponse {
    type V = WorldBorderWarningDelayResponse;

    open spec fn deep_view(&self) -> WorldBorderWarningDelayResponse {
        *self
    }
}

impl<'x> MD<'x> for WorldBorderWarningDelayResponse {
    open spec fn spec_deserialize(s0: Seq<u8>) -> Option<(WorldBorderWarningDelayResponse, Seq<u8>)> {
        match varint_field(s0) {
            Some((warning_time, s1)) => {
                Some((WorldBorderWarningDelayResponse { warning_time }, s1))
            },
            None => None,
        }
    }

    open spec fn serializable() -> bool {
        true
    }

    open spec fn spec_header() -> Seq<u8> {
        varint_bytes(0x45)
    }

    open spec fn takes_rest() -> bool {
        false
    }

    open spec fn spec_serialize(v: WorldBorderWarningDelayResponse) -> Seq<u8> {
        varint_bytes(v.warning_time as u32)
    }

    open spec fn encodable(v: WorldBorderWarningDelayResponse) -> bool {
        Self::serializable()
    }

    proof fn lemma_roundtrip(v: WorldBorderWarningDelayResponse, rest: Seq<u8>) {
        let b0 = varint_bytes(v.warning_time as u32);
        let t1 = rest;
        let t0 = b0 + t1;
        assert(Self::spec_serialize(v) + rest == t0);
        lemma_varint_field_roundtrip(v.warning_time, t1);
    }

    fn deserialize(memory: &mut &'x [u8]) -> (res: Result<WorldBorderWarningDelayResponse, ParseError>) {
        let warning_time: i32 = read_varint(memory)?;
        Ok(WorldBorderWarningDelayResponse { warning_time })
    }

    fn serialize(&self, writer: &mut Vec<u8>) {
        let ghost v = self.deep_view();
        write_varint(writer, 0x45);
        let ghost a = writer@;
        assert(old(writer)@ + Self::spec_header() =~= a);
        write_varint(writer, self.warning_time as u32);
    }
}

/// Packet `0x46` of the play state, sent by the server.
#[derive(Debug)]
pub struct WorldBorderWarningReachResponse {
    pub warning_blocks: i32,
}

impl DeepView for WorldBorderWarningReachResponse {
    type V = WorldBorderWarningReachResponse;

    open spec fn deep_view(&self) -> WorldBorderWarningReachResponse {
        *self
    }
}

impl<'x> MD<'x> for WorldBorderWarningReachResponse {
    open spec fn spec_deserialize(s0: Seq<u8>) -> Option<(WorldBorderWarningReachResponse, Seq<u8>)> {
        match varint_field(s0) {
            Some((warning_blocks, s1)) => {
                Some((WorldBorderWarningReachResponse { warning_blocks }, s1))
            },
            None => None,
        }
    }

    open spec fn serializable() -> bool {
        true
    }

    open spec fn spec_header() -> Seq<u8> {
        varint_bytes(0x46)
    }

    open spec fn takes_rest() -> bool {
        false
    }

    open spec fn spec_serialize(v: WorldBorderWarningReachResponse) -> Seq<u8> {
        varint_bytes(v.warning_blocks as u32)
    }

    open spec fn encodable(v: WorldBorderWarningReachResponse) -> bool {
        Self::serializable()
    }

    proof fn lemma_roundtrip(v: WorldBorderWarningReachResponse, rest: Seq<u8>) {
        let b0 = varint_bytes(v.warning_blocks as u32);
        let t1 = rest;
        let t0 = b0 + t1;
        assert(Self::spec_serialize(v) + rest == t0);
        lemma_varint_field_roundtrip(v.warning_blocks, t1);
    }

    fn deserialize(memory: &mut &'x [u8]) -> (res: Result<WorldBorderWarningReachResponse, ParseError>) {
        let warning_blocks: i32 = read_varint(memory)?;
        Ok(WorldBorderWarningReachResponse { warning_blocks })
    }

    fn serialize(&self, writer: &mut Vec<u8>) {
        let ghost v = self.deep_view();
        write_varint(writer, 0x46);
        let ghost a = writer@;
        assert(old(writer)@ + Self::spec_header() =~= a);
        write_varint(writer, self.warning_blocks as u32);
    }
}

/// Packet `0x30` of the play state, sent by the server.
#[derive(Debug)]
pub struct PlayPingResponse {
    pub id: i32,
}

impl DeepView for PlayPingResponse {
    type V = PlayPingResponse;

    open spec fn deep_view(&self) -> PlayPingResponse {
        *self
    }
}

impl<'x> MD<'x> for PlayPingResponse {
    open spec fn spec_deserialize(s0: Seq<u8>) -> Option<(PlayPingResponse, Seq<u8>)> {
        match <i32 as MD<'x>>::spec_deserialize(s0) {
            Some((id, s1)) => {
                Some((PlayPingResponse { id }, s1))
            },
            None => None,
        }
    }

    open spec fn serializable() -> bool {
        <i32 as MD<'x>>::serializable()
    }

    open spec fn spec_header() -> Seq<u8> {
        varint_bytes(0x30)
    }

    open spec fn takes_rest() -> bool {
        false
    }

    open spec fn spec_serialize(v: PlayPingResponse) -> Seq<u8> {
        <i32 as MD<'x>>::spec_serialize(v.id)
    }

    open spec fn encodable(v: PlayPingResponse) -> bool {
        Self::serializable() && <i32 as MD<'x>>::encodable(v.id)
    }

    proof fn lemma_roundtrip(v: PlayPingResponse, rest: Seq<u8>) {
        let b0 = <i32 as MD<'x>>::spec_serialize(v.id);
        let t1 = rest;
        let t0 = b0 + t1;
        assert(Self::spec_serialize(v) + rest == t0);
        <i32 as MD<'x>>::lemma_roundtrip(v.id, t1);
    }

    fn deserialize(memory: &mut &'x [u8]) -> (res: Result<PlayPingResponse, ParseError>) {
        let id: i32 = <i32 as MD<'x>>::deserialize(memory)?;
        Ok(PlayPingResponse { id })
    }

    fn serialize(&self, writer: &mut Vec<u8>) {
        let ghost v = self.deep_view();
        write_varint(writer, 0x30);
        let ghost a = writer@;
        assert(old(writer)@ + Self::spec_header() =~= a);
        self.id.serialize(writer);
        proof {
            lemma_write_after_header(a, <i32 as MD<'x>>::spec_header(), <i32 as MD<'x>>::spec_serialize(v.id));
        }
    }
}

/// Packet `0x58` of the play state, sent by the server.
#[derive(Debug)]
pub struct SetTitleSubtitleResponse<'x> {
    pub text: &'x str,
}

/// What a `SetTitleSubtitleResponse` holds.
pub struct SetTitleSubtitleResponseView {
    pub text: Seq<char>,
}

impl<'x> DeepView for SetTitleSubtitleResponse<'x> {
    type V = SetTitleSubtitleResponseView;

    open spec fn deep_view(&self) -> SetTitleSubtitleResponseView {
        SetTitleSubtitleResponseView { text: self.text.deep_view() }
    }
}

impl<'x> MD<'x> for SetTitleSubtitleResponse<'x> {
    open spec fn spec_deserialize(s0: Seq<u8>) -> Option<(SetTitleSubtitleResponseView, Seq<u8>)> {
        match <&'x str as MD<'x>>::spec_deserialize(s0) {
            Some((text, s1)) => {
                Some((SetTitleSubtitleResponseView { text }, s1))
            },
            None => None,
        }
    }

    open spec fn serializable() -> bool {
        <&'x str as MD<'x>>::serializable()
    }

    open spec fn spec_header() -> Seq<u8> {
        varint_bytes(0x58)
    }

    open spec fn takes_rest() -> bool {
        false
    }

    open spec fn spec_serialize(v: SetTitleSubtitleResponseView) -> Seq<u8> {
        <&'x str as MD<'x>>::spec_serialize(v.text)
    }

    open spec fn encodable(v: SetTitleSubtitleResponseView) -> bool {
        Self::serializable() && <&'x str as MD<'x>>::encodable(v.text)
    }

    proof fn lemma_roundtrip(v: SetTitleSubtitleResponseView, rest: Seq<u8>) {
        let b0 = <&'x str as MD<'x>>::spec_serialize(v.text);
        let t1 = rest;
        let t0 = b0 + t1;
        assert(Self::spec_serialize(v) + rest == t0);
        <&'x str as MD<'x>>::lemma_roundtrip(v.text, t1);
    }

    fn deserialize(memory: &mut &'x [u8]) -> (res: Result<SetTitleSubtitleResponse<'x>, ParseError>) {
        let text: &'x str = <&'x str as MD<'x>>::deserialize(memory)?;
        Ok(SetTitleSubtitleResponse { text })
    }

    fn serialize(&self, writer: &mut Vec<u8>) {
        let ghost v = self.deep_view();
        write_varint(writer, 0x58);
        let ghost a = writer@;
        assert(old(writer)@ + Self::spec_header() =~= a);
        self.text.serialize(writer);
        proof {
            lemma_write_after_header(a, <&'x str as MD<'x>>::spec_header(), <&'x str as MD<'x>>::spec_serialize(v.text));
        }
    }
}

/// Packet `0x5a` of the play state, sent by the server.
#[derive(Debug)]
pub struct SetTitleTextResponse<'x> {
    pub text: &'x str,
}

/// What a `SetTitleTextResponse` holds.
pub struct SetTitleTextResponseView {
    pub text: Seq<char>,
}

impl<'x> DeepView for SetTitleTextResponse<'x> {
    type V = SetTitleTextResponseView;

    open spec fn deep_view(&self) -> SetTitleTextResponseView {
        SetTitleTextResponseView { text: self.text.deep_view() }
    }
}

impl<'x> MD<'x> for SetTitleTextResponse<'x> {
    open spec fn spec_deserialize(s0: Seq<u8>) -> Option<(SetTitleTextResponseView, Seq<u8>)> {
        match <&'x str as MD<'x>>::spec_deserialize(s0) {
            Some((text, s1)) => {
                Some((SetTitleTextResponseView { text }, s1))
            },
            None => None,
        }
    }

    open spec fn serializable() -> bool {
        <&'x str as MD<'x>>::serializable()
    }

    open spec fn spec_header() -> Seq<u8> {
        varint_bytes(0x5a)
    }

    open spec fn takes_rest() -> bool {
        false
    }

    open spec fn spec_serialize(v: SetTitleTextResponseView) -> Seq<u8> {
        <&'x str as MD<'x>>::spec_serialize(v.text)
    }

    open spec fn encodable(v: SetTitleTextResponseView) -> bool {
        Self::serializable() && <&'x str as MD<'x>>::encodable(v.text)
    }

    proof fn lemma_roundtrip(v: SetTitleTextResponseView, rest: Seq<u8>) {
        let b0 = <&'x str as MD<'x>>::spec_serialize(v.text);
        let t1 = rest;
        let t0 = b0 + t1;
        assert(Self::spec_serialize(v) + rest == t0);
        <&'x str as MD<'x>>::lemma_roundtrip(v.text, t1);
    }

    fn deserialize(memory: &mut &'x [u8]) -> (res: Result<SetTitleTextResponse<'x>, ParseError>) {
        let text: &'x str = <&'x str as MD<'x>>::deserialize(memory)?;
        Ok(SetTitleTextResponse { text })
    }

    fn serialize(&self, writer: &mut Vec<u8>) {
        let ghost v = self.deep_view();
        write_varint(writer, 0x5a);
        let ghost a = writer@;
        assert(old(writer)@ + Self::spec_header() =~= a);
        self.text.serialize(writer);
        proof {
            lemma_write_after_header(a, <&'x str as MD<'x>>::spec_header(), <&'x str as MD<'x>>::spec_serialize(v.text));
        }
    }
}

/// Packet `0x5b` of the play state, sent by the server.
#[derive(Debug)]
pub struct SetTitleTimeResponse {
    pub fade_in: i32,
    pub stay: i32,
    pub fade_out: i32,
}

impl DeepView for SetTitleTimeResponse {
    type V = SetTitleTimeResponse;

    open spec fn deep_view(&self) -> SetTitleTimeResponse {
        *self
    }
}

impl<'x> MD<'x> for SetTitleTimeResponse {
    open spec fn spec_deserialize(s0: Seq<u8>) -> Option<(SetTitleTimeResponse, Seq<u8>)> {
        match <i32 as MD<'x>>::spec_deserialize(s0) {
            Some((fade_in, s1)) => {
                match <i32 as MD<'x>>::spec_deserialize(s1) {
                    Some((stay, s2)) => {
                        match <i32 as MD<'x>>::spec_deserialize(s2) {
                            Some((fade_out, s3)) => {
                                Some((SetTitleTimeResponse { fade_in, stay, fade_out }, s3))
                            },
                            None => None,
                        }
                    },
                    None => None,
                }
            },
            None => None,
        }
    }

    open spec fn serializable() -> bool {
        <i32 as MD<'x>>::serializable() && <i32 as MD<'x>>::serializable() && <i32 as MD<'x>>::serializable()
    }

    open spec fn spec_header() -> Seq<u8> {
        varint_bytes(0x5b)
    }

    open spec fn takes_rest() -> bool {
        false
    }

    open spec fn spec_serialize(v: SetTitleTimeResponse) -> Seq<u8> {
        <i32 as MD<'x>>::spec_serialize(v.fade_in) + <i32 as MD<'x>>::spec_serialize(v.stay) + <i32 as MD<'x>>::spec_serialize(v.fade_out)
    }

    open spec fn encodable(v: SetTitleTimeResponse) -> bool {
        Self::serializable() && <i32 as MD<'x>>::encodable(v.fade_in) && <i32 as MD<'x>>::encodable(v.stay) && <i32 as MD<'x>>::encodable(v.fade_out)
    }

    proof fn lemma_roundtrip(v: SetTitleTimeResponse, rest: Seq<u8>) {
        let b0 = <i32 as MD<'x>>::spec_serialize(v.fade_in);
        let b1 = <i32 as MD<'x>>::spec_serialize(v.stay);
        let b2 = <i32 as MD<'x>>::spec_serialize(v.fade_out);
        let t3 = rest;
        let t2 = b2 + t3;
        let t1 = b1 + t2;
        let t0 = b0 + t1;
        lemma_concat_associative(b0 + b1, b2, t3);
        lemma_concat_associative(b0, b1, t2);
        <i32 as MD<'x>>::lemma_roundtrip(v.fade_in, t1);
        <i32 as MD<'x>>::lemma_roundtrip(v.stay, t2);
        <i32 as MD<'x>>::lemma_roundtrip(v.fade_out, t3);
    }

    fn deserialize(memory: &mut &'x [u8]) -> (res: Result<SetTitleTimeResponse, ParseError>) {
        let fade_in: i32 = <i32 as MD<'x>>::deserialize(memory)?;
        let stay: i32 = <i32 as MD<'x>>::deserialize(memory)?;
        let fade_out: i32 = <i32 as MD<'x>>::deserialize(memory)?;
        Ok(SetTitleTimeResponse { fade_in, stay, fade_out })
    }

    fn serialize(&self, writer: &mut Vec<u8>) {
        let ghost v = self.deep_view();
        write_varint(writer, 0x5b);
        let ghost a = writer@;
        assert(old(writer)@ + Self::spec_header() =~= a);
        self.fade_in.serialize(writer);
        proof {
            lemma_write_after_header(a, <i32 as MD<'x>>::spec_header(), <i32 as MD<'x>>::spec_serialize(v.fade_in));
        }
        self.stay.serialize(writer);
        proof {
            lemma_write_next(a, <i32 as MD<'x>>::spec_serialize(v.fade_in), <i32 as MD<'x>>::spec_header(), <i32 as MD<'x>>::spec_serialize(v.stay));
        }
        self.fade_out.serialize(writer);
        proof {
            lemma_write_next(a, <i32 as MD<'x>>::spec_serialize(v.fade_in) + <i32 as MD<'x>>::spec_serialize(v.stay), <i32 as MD<'x>>::spec_header(), <i32 as MD<'x>>::spec_serialize(v.fade_out));
        }
    }
}

/// Packet `0x57` of the play state, sent by the server.
#[derive(Debug)]
pub struct SimulationDistanceResponse {
    pub distance: i32,
}

impl DeepView for SimulationDistanceResponse {
    type V = SimulationDistanceResponse;

    open spec fn deep_view(&self) -> SimulationDistanceResponse {
        *self
    }
}

impl<'x> MD<'x> for SimulationDistanceResponse {
    open spec fn spec_deserialize(s0: Seq<u8>) -> Option<(SimulationDistanceResponse, Seq<u8>)> {
        match varint_field(s0) {
            Some((distance, s1)) => {
                Some((SimulationDistanceResponse { distance }, s1))
            },
            None => None,
        }
    }

    open spec fn serializable() -> bool {
        true
    }

    open spec fn spec_header() -> Seq<u8> {
        varint_bytes(0x57)
    }

    open spec fn takes_rest() -> bool {
        false
    }

    open spec fn spec_serialize(v: SimulationDistanceResponse) -> Seq<u8> {
        varint_bytes(v.distance as u32)
    }

    open spec fn encodable(v: SimulationDistanceResponse) -> bool {
        Self::serializable()
    }

    proof fn lemma_roundtrip(v: SimulationDistanceResponse, rest: Seq<u8>) {
        let b0 = varint_bytes(v.distance as u32);
        let t1 = rest;
        let t0 = b0 + t1;
        assert(Self::spec_serialize(v) + rest == t0);
        lemma_varint_field_roundtrip(v.distance, t1);
    }

    fn deserialize(memory: &mut &'x [u8]) -> (res: Result<SimulationDistanceResponse, ParseError>) {
        let distance: i32 = read_varint(memory)?;
        Ok(SimulationDistanceResponse { distance })
    }

    fn serialize(&self, writer: &mut Vec<u8>) {
        let ghost v = self.deep_view();
        write_varint(writer, 0x57);
        let ghost a = writer@;
        assert(old(writer)@ + Self::spec_header() =~= a);
        write_varint(writer, self.distance as u32);
    }
}

} // verus!
