//! The packet layer of the protocol: connection states, packet directions,
//! the field types shared by packets, and framing.

pub mod common_states;
pub mod de;
pub mod states;
pub mod v1_18_2;
pub mod varint;

pub use crate::protocol::states::{handshaking, login, status, Handshaking, Login, Status};

use crate::bytes::{MemoryExt, ParseError};
use crate::nbt::{self, spec_skip, spec_skip_option};
use crate::protocol::de::{cautious_size, spec_u8, MD};
use crate::protocol::varint::{read_varint, read_varint_with_size, lemma_varint_len, read_varlong, spec_varint, spec_varlong, varint_bytes, varlong_bytes, lemma_varint_roundtrip, lemma_varlong_roundtrip};
use vstd::prelude::*;

verus! {

/// The state of a connection, which decides how packet ids are read.
#[derive(Debug, Clone, Copy, PartialEq, Eq)]
pub enum ConnectionState {
    Handshaking,
    Status,
    Login,
    Play,
}

/// Who sent a packet: the client to the server, or the server to the
/// client.
#[derive(Debug, Clone, Copy, PartialEq, Eq)]
pub enum PacketDirection {
    C2S,
    S2C,
}

impl PacketDirection {
    /// The direction that the byte `value` stands for: 0 for `C2S`, 1 for
    /// `S2C`.
    pub fn try_from_u8(value: u8) -> (res: Result<PacketDirection, ParseError>)
        ensures
            value == 0 ==> res == Ok::<PacketDirection, ParseError>(PacketDirection::C2S),
            value == 1 ==> res == Ok::<PacketDirection, ParseError>(PacketDirection::S2C),
            value > 1 ==> res is Err,
    {
        if value == 0 {
            Ok(PacketDirection::C2S)
        } else if value == 1 {
            Ok(PacketDirection::S2C)
        } else {
            Err(ParseError::Invalid)
        }
    }

    /// The byte that stands for this direction.
    pub fn as_u8(self) -> (res: u8)
        ensures
            self == PacketDirection::C2S ==> res == 0,
            self == PacketDirection::S2C ==> res == 1,
    {
        match self {
            PacketDirection::C2S => 0,
            PacketDirection::S2C => 1,
        }
    }
}

/// The id of a packet, read from the wire.
#[derive(Debug, Clone, Copy, PartialEq, Eq)]
pub struct PacketId(pub u32);

// ---------------------------------------------------------------------------
// Framing: a packet on the wire is its length as a varint, then that many
// bytes. With compression on, those bytes start with the length of the
// uncompressed data as a varint; when that is not zero, a zlib stream
// follows.

/// A packet found at the front of a buffer.
pub struct PacketData<'x> {
    pub id: PacketId,
    /// The bytes that the packet spans in the buffer, its length included.
    pub total_size: usize,
    /// The packet's fields, and whatever followed them.
    pub data: &'x [u8],
}

/// Whether `bytes` begins with a whole packet: a length, as a varint that is
/// not negative, followed by at least that many bytes.
pub open spec fn frame_is_complete(bytes: Seq<u8>) -> bool {
    match spec_varint(bytes) {
        Some((length, n)) => 0 <= length && n + length <= bytes.len(),
        None => false,
    }
}

/// The bytes that the packet at the front of `bytes` spans: its length, and
/// the length varint itself.
pub open spec fn frame_size(bytes: Seq<u8>) -> int {
    match spec_varint(bytes) {
        Some((length, n)) => length + n,
        None => 0,
    }
}

/// What zlib decompression (flate2's `ZlibDecoder`, read to its end) makes
/// of the zlib stream at the front of `compressed`; `None` when the stream is
/// corrupt or ends early.
pub uninterp spec fn zlib_decompressed(compressed: Seq<u8>) -> Option<Seq<u8>>;

/// The body of the packet at the front of `bytes`: what follows the length,
/// decompressed when compression is on and the data length is not zero;
/// `None` when the data length cannot be read or the data cannot be
/// decompressed.
pub open spec fn packet_body(bytes: Seq<u8>, compression: bool) -> Option<Seq<u8>> {
    match spec_varint(bytes) {
        Some((_length, n)) => {
            let after = bytes.skip(n as int);
            if compression {
                match varint_field(after) {
                    Some((data_length, rest)) => if data_length != 0 {
                        zlib_decompressed(rest)
                    } else {
                        Some(rest)
                    },
                    None => None,
                }
            } else {
                Some(after)
            }
        },
        None => None,
    }
}

/// Decompresses the zlib stream at the front of `compressed` with flate2's
/// `ZlibDecoder`, reading it to its end. The contract claims only that the
/// outcome depends on the bytes alone (`zlib_decompressed`).
#[verifier::external_body]
fn zlib_decompress(compressed: &[u8]) -> (res: Option<Vec<u8>>)
    ensures
        match zlib_decompressed(compressed@) {
            Some(d) => (res matches Some(v) && v@ == d),
            None => res is None,
        },
{
    let mut out: Vec<u8> = Vec::new();
    let mut decoder = flate2::read::ZlibDecoder::new(compressed);
    match std::io::Read::read_to_end(&mut decoder, &mut out) {
        Ok(_) => Some(out),
        Err(_) => None,
    }
}

/// Whether `bytes` begins with a whole packet.
fn has_enough_bytes(bytes: &[u8]) -> (res: bool)
    ensures
        res == frame_is_complete(bytes@),
{
    let mut tmp: &[u8] = bytes;
    match read_varint_with_size(&mut tmp) {
        Ok((value, size)) => {
            proof {
                lemma_varint_len(bytes@);
            }
            0 <= value && (value as usize) <= bytes.len() - size
        },
        Err(_) => false,
    }
}

/// The packet whose body (what follows its length, decompressed if it was
/// compressed) is `body`: its id as a varint, then its data.
pub fn packet_info_from_body<'r>(body: &'r [u8], total_size: usize) -> (res: Result<PacketData<'r>, ParseError>)
    ensures
        match varint_field(body@) {
            Some((id, data)) => (res matches Ok(p) && p.id.0 == id as u32 && p.total_size == total_size
                && p.data@ == data),
            None => res is Err,
        },
{
    let mut reader: &'r [u8] = body;
    let id = read_varint(&mut reader)?;
    Ok(PacketData { id: PacketId(id as u32), total_size, data: reader })
}

/// Whether the packet at the front of `bytes` is compressed: compression is
/// on and its data length is not zero.
pub open spec fn frame_is_compressed(bytes: Seq<u8>, compression: bool) -> bool {
    &&& compression
    &&& spec_varint(bytes) matches Some((_length, n))
    &&& varint_field(bytes.skip(n as int)) matches Some((data_length, _rest))
    &&& data_length != 0
}

/// Finds the packet at the front of `buffer`: `None` until `buffer` holds it
/// whole. With `compression` on, a packet whose data length is not zero is
/// decompressed into `tmp`, and its data is read from there.
pub fn read_packet_info<'r>(buffer: &'r [u8], tmp: &'r mut Vec<u8>, compression: bool) -> (res: Result<
    Option<PacketData<'r>>,
    ParseError,
>)
    ensures
        !frame_is_complete(buffer@) ==> (res matches Ok(None) && final(tmp)@ == old(tmp)@),
        frame_is_complete(buffer@) && !frame_is_compressed(buffer@, compression) ==> final(tmp)@ == old(
            tmp,
        )@,
        frame_is_complete(buffer@) && frame_is_compressed(buffer@, compression) && res is Ok ==> Some(
            final(tmp)@,
        ) == packet_body(buffer@, compression),
        frame_is_complete(buffer@) ==> match packet_body(buffer@, compression) {
            Some(body) => match varint_field(body) {
                Some((id, data)) => (res matches Ok(Some(p)) && p.id.0 == id as u32 && p.total_size
                    == frame_size(buffer@) && p.data@ == data),
                None => res is Err,
            },
            None => res is Err,
        },
{
    if !has_enough_bytes(buffer) {
        return Ok(None);
    }
    proof {
        lemma_varint_len(buffer@);
    }
    let mut reader: &'r [u8] = buffer;
    let (length, length_size) = read_varint_with_size(&mut reader)?;
    let total_size = length as usize + length_size;
    if compression {
        let data_length = read_varint(&mut reader)?;
        if data_length != 0 {
            match zlib_decompress(reader) {
                Some(v) => {
                    *tmp = v;
                },
                None => {
                    return Err(ParseError::Invalid);
                },
            }
            let decompressed: &'r Vec<u8> = tmp;
            let body: &'r [u8] = decompressed.as_slice();
            let info = packet_info_from_body(body, total_size)?;
            return Ok(Some(info));
        }
    }
    let info = packet_info_from_body(reader, total_size)?;
    Ok(Some(info))
}

// ---------------------------------------------------------------------------
// Fields read as varints, varlongs, or the rest of the input.

/// A varint field at the front of `s`, and what follows it.
pub open spec fn varint_field(s: Seq<u8>) -> Option<(i32, Seq<u8>)> {
    match spec_varint(s) {
        Some((v, n)) => Some((v, s.skip(n as int))),
        None => None,
    }
}

/// A varlong field at the front of `s`, and what follows it.
pub open spec fn varlong_field(s: Seq<u8>) -> Option<(i64, Seq<u8>)> {
    match spec_varlong(s) {
        Some((v, n)) => Some((v, s.skip(n as int))),
        None => None,
    }
}

/// A varint field written from `x` (as the `u32` with the same bits) is
/// read back as `x`.
pub proof fn lemma_varint_field_roundtrip(x: i32, rest: Seq<u8>)
    ensures
        varint_field(varint_bytes(x as u32) + rest) == Some((x, rest)),
{
    let w = varint_bytes(x as u32);
    lemma_varint_roundtrip(x as u32, rest);
    assert((x as u32) as i32 == x) by (bit_vector);
    assert((w + rest).skip(w.len() as int) =~= rest);
}

/// A varlong field written from `x` is read back as `x`.
pub proof fn lemma_varlong_field_roundtrip(x: i64, rest: Seq<u8>)
    ensures
        varlong_field(varlong_bytes(x as u64) + rest) == Some((x, rest)),
{
    let w = varlong_bytes(x as u64);
    lemma_varlong_roundtrip(x as u64, rest);
    assert((x as u64) as i64 == x) by (bit_vector);
    assert((w + rest).skip(w.len() as int) =~= rest);
}

/// A field that takes all the bytes that are left.
pub open spec fn rest_field(s: Seq<u8>) -> Option<(Seq<u8>, Seq<u8>)> {
    Some((s, Seq::empty()))
}

/// Takes all the bytes left in `reader`.
pub fn read_rest<'x>(reader: &mut &'x [u8]) -> (res: &'x [u8])
    ensures
        res.deep_view() == old(reader)@,
        final(reader)@ == Seq::<u8>::empty(),
{
    let r: &'x [u8] = *reader;
    *reader = vstd::slice::slice_subrange(r, r.len(), r.len());
    assert(r.deep_view() =~= r@);
    r
}

/// `count` values of type `T` one after another at the front of `s`
/// (none when `count` is not positive), and what follows them.
pub open spec fn spec_array<'x, T: MD<'x>>(s: Seq<u8>, count: int) -> Option<(Seq<T::V>, Seq<u8>)>
    decreases count,
{
    if count <= 0 {
        Some((Seq::empty(), s))
    } else {
        match T::spec_deserialize(s) {
            Some((v, r)) => match spec_array::<'x, T>(r, count - 1) {
                Some((vs, r2)) => Some((seq![v] + vs, r2)),
                None => None,
            },
            None => None,
        }
    }
}

/// The bytes of values of type `T` written one after another.
pub open spec fn array_bytes<'x, T: MD<'x>>(items: Seq<T::V>) -> Seq<u8>
    decreases items.len(),
{
    if items.len() == 0 {
        Seq::empty()
    } else {
        T::spec_serialize(items[0]) + array_bytes::<'x, T>(items.drop_first())
    }
}

/// Values written one after another are read back in order, whatever
/// follows them.
pub proof fn lemma_array_decode<'x, T: MD<'x>>(items: Seq<T::V>, rest: Seq<u8>)
    requires
        !T::takes_rest(),
        forall|i: int| 0 <= i < items.len() ==> T::encodable(#[trigger] items[i]),
    ensures
        spec_array::<'x, T>(array_bytes::<'x, T>(items) + rest, items.len() as int) == Some((items, rest)),
    decreases items.len(),
{
    if items.len() > 0 {
        let tail = items.drop_first();
        assert forall|i: int| 0 <= i < tail.len() implies T::encodable(#[trigger] tail[i]) by {
            assert(tail[i] == items[i + 1]);
        }
        lemma_array_decode::<'x, T>(tail, rest);
        let b = T::spec_serialize(items[0]);
        let t = array_bytes::<'x, T>(tail) + rest;
        T::lemma_roundtrip(items[0], t);
        assert(array_bytes::<'x, T>(items) + rest =~= b + t);
        assert(seq![items[0]] + tail =~= items);
    }
}

/// The bytes of varints written one after another.
pub open spec fn varint_array_bytes(items: Seq<i32>) -> Seq<u8>
    decreases items.len(),
{
    if items.len() == 0 {
        Seq::empty()
    } else {
        varint_bytes(items[0] as u32) + varint_array_bytes(items.drop_first())
    }
}

/// Varints written one after another are read back in order.
pub proof fn lemma_varint_array_decode(items: Seq<i32>, rest: Seq<u8>)
    ensures
        spec_varint_array(varint_array_bytes(items) + rest, items.len() as int) == Some((items, rest)),
    decreases items.len(),
{
    if items.len() > 0 {
        let tail = items.drop_first();
        lemma_varint_array_decode(tail, rest);
        let t = varint_array_bytes(tail) + rest;
        lemma_varint_field_roundtrip(items[0], t);
        assert(varint_array_bytes(items) + rest =~= varint_bytes(items[0] as u32) + t);
        assert(seq![items[0]] + tail =~= items);
    }
}

/// The bytes of varlongs written one after another.
pub open spec fn varlong_array_bytes(items: Seq<i64>) -> Seq<u8>
    decreases items.len(),
{
    if items.len() == 0 {
        Seq::empty()
    } else {
        varlong_bytes(items[0] as u64) + varlong_array_bytes(items.drop_first())
    }
}

/// Varlongs written one after another are read back in order.
pub proof fn lemma_varlong_array_decode(items: Seq<i64>, rest: Seq<u8>)
    ensures
        spec_varlong_array(varlong_array_bytes(items) + rest, items.len() as int) == Some((items, rest)),
    decreases items.len(),
{
    if items.len() > 0 {
        let tail = items.drop_first();
        lemma_varlong_array_decode(tail, rest);
        let t = varlong_array_bytes(tail) + rest;
        lemma_varlong_field_roundtrip(items[0], t);
        assert(varlong_array_bytes(items) + rest =~= varlong_bytes(items[0] as u64) + t);
        assert(seq![items[0]] + tail =~= items);
    }
}

/// Reads `count` values of type `T` (none when `count` is not positive).
pub fn read_array<'x, T: MD<'x>>(reader: &mut &'x [u8], count: i32) -> (res: Result<Vec<T>, ParseError>)
    ensures
        match spec_array::<'x, T>(old(reader)@, count as int) {
            Some((vs, r)) => (res matches Ok(v) && v.deep_view() == vs && final(reader)@ == r),
            None => res is Err,
        },
{
    let mut out: Vec<T> = Vec::with_capacity(cautious_size(count as usize));
    let mut i: i32 = 0;
    assert(out.deep_view() =~= Seq::<T::V>::empty());
    while i < count
        invariant
            0 <= i,
            count > 0 ==> i <= count,
            spec_array::<'x, T>(old(reader)@, count as int) == match spec_array::<'x, T>(reader@, count - i) {
                Some((vs, r)) => Some((out.deep_view() + vs, r)),
                None => None,
            },
        decreases count - i,
    {
        let ghost before = out.deep_view();
        let x = T::deserialize(reader)?;
        let ghost xv = x.deep_view();
        out.push(x);
        i = i + 1;
        proof {
            assert(out.deep_view() =~= before.push(xv));
            match spec_array::<'x, T>(reader@, count - i) {
                Some((vs, r)) => {
                    assert(before + (seq![xv] + vs) =~= out.deep_view() + vs);
                },
                None => {},
            }
        }
    }
    proof {
        assert(out.deep_view() + Seq::<T::V>::empty() =~= out.deep_view());
    }
    Ok(out)
}

/// `count` varints one after another at the front of `s`.
pub open spec fn spec_varint_array(s: Seq<u8>, count: int) -> Option<(Seq<i32>, Seq<u8>)>
    decreases count,
{
    if count <= 0 {
        Some((Seq::empty(), s))
    } else {
        match varint_field(s) {
            Some((v, r)) => match spec_varint_array(r, count - 1) {
                Some((vs, r2)) => Some((seq![v] + vs, r2)),
                None => None,
            },
            None => None,
        }
    }
}

/// Reads `count` varints (none when `count` is not positive).
pub fn read_varint_array(reader: &mut &[u8], count: i32) -> (res: Result<Vec<i32>, ParseError>)
    ensures
        match spec_varint_array(old(reader)@, count as int) {
            Some((vs, r)) => (res matches Ok(v) && v@ == vs && final(reader)@ == r),
            None => res is Err,
        },
{
    let mut out: Vec<i32> = Vec::with_capacity(cautious_size(count as usize));
    let mut i: i32 = 0;
    while i < count
        invariant
            0 <= i,
            count > 0 ==> i <= count,
            spec_varint_array(old(reader)@, count as int) == match spec_varint_array(reader@, count - i) {
                Some((vs, r)) => Some((out@ + vs, r)),
                None => None,
            },
        decreases count - i,
    {
        let ghost before = out@;
        let x = read_varint(reader)?;
        out.push(x);
        i = i + 1;
        proof {
            match spec_varint_array(reader@, count - i) {
                Some((vs, r)) => {
                    assert(before + (seq![x] + vs) =~= out@ + vs);
                },
                None => {},
            }
        }
    }
    assert(out@ + Seq::<i32>::empty() =~= out@);
    Ok(out)
}

/// `count` varlongs one after another at the front of `s`.
pub open spec fn spec_varlong_array(s: Seq<u8>, count: int) -> Option<(Seq<i64>, Seq<u8>)>
    decreases count,
{
    if count <= 0 {
        Some((Seq::empty(), s))
    } else {
        match varlong_field(s) {
            Some((v, r)) => match spec_varlong_array(r, count - 1) {
                Some((vs, r2)) => Some((seq![v] + vs, r2)),
                None => None,
            },
            None => None,
        }
    }
}

/// Reads `count` varlongs (none when `count` is not positive).
pub fn read_varlong_array(reader: &mut &[u8], count: i32) -> (res: Result<Vec<i64>, ParseError>)
    ensures
        match spec_varlong_array(old(reader)@, count as int) {
            Some((vs, r)) => (res matches Ok(v) && v@ == vs && final(reader)@ == r),
            None => res is Err,
        },
{
    let mut out: Vec<i64> = Vec::with_capacity(cautious_size(count as usize));
    let mut i: i32 = 0;
    while i < count
        invariant
            0 <= i,
            count > 0 ==> i <= count,
            spec_varlong_array(old(reader)@, count as int) == match spec_varlong_array(reader@, count - i) {
                Some((vs, r)) => Some((out@ + vs, r)),
                None => None,
            },
        decreases count - i,
    {
        let ghost before = out@;
        let x = read_varlong(reader)?;
        out.push(x);
        i = i + 1;
        proof {
            match spec_varlong_array(reader@, count - i) {
                Some((vs, r)) => {
                    assert(before + (seq![x] + vs) =~= out@ + vs);
                },
                None => {},
            }
        }
    }
    assert(out@ + Seq::<i64>::empty() =~= out@);
    Ok(out)
}

// ---------------------------------------------------------------------------
// Inventory slots and embedded NBT, kept as the bytes they span.

/// The item in a slot that is not empty.
#[derive(Debug)]
pub struct InventorySlotData<'x> {
    pub item_id: i32,
    pub count: u8,
    /// The encoded NBT root tag of the item, when it has one.
    pub nbt: Option<&'x [u8]>,
}

/// What an `InventorySlotData` holds.
pub struct InventorySlotDataView {
    pub item_id: i32,
    pub count: u8,
    pub nbt: Option<Seq<u8>>,
}

impl<'x> DeepView for InventorySlotData<'x> {
    type V = InventorySlotDataView;

    open spec fn deep_view(&self) -> InventorySlotDataView {
        InventorySlotDataView { item_id: self.item_id, count: self.count, nbt: self.nbt.deep_view() }
    }
}

/// An inventory slot: empty, or an item.
#[derive(Debug)]
pub struct InventorySlot<'x> {
    pub data: Option<InventorySlotData<'x>>,
}

impl<'x> DeepView for InventorySlot<'x> {
    type V = Option<InventorySlotDataView>;

    open spec fn deep_view(&self) -> Option<InventorySlotDataView> {
        self.data.deep_view()
    }
}

/// The first `s.len() - r.len()` bytes of `s`: what was taken from `s`
/// when `r` is left.
pub open spec fn taken(s: Seq<u8>, r: Seq<u8>) -> Seq<u8> {
    s.take(s.len() - r.len())
}

/// An inventory slot at the front of `s`: a boolean; when it is `true`, a
/// varint item id, a count byte, and an optional NBT root tag.
pub open spec fn spec_slot(s: Seq<u8>) -> Option<(Option<InventorySlotDataView>, Seq<u8>)> {
    match <bool as MD>::spec_deserialize(s) {
        Some((present, s1)) => if !present {
            Some((None, s1))
        } else {
            match varint_field(s1) {
                Some((item_id, s2)) => match spec_u8(s2) {
                    Some((count, s3)) => match spec_skip_option(s3) {
                        Some((has_nbt, s4)) => Some((
                            Some(InventorySlotDataView {
                                item_id,
                                count,
                                nbt: if has_nbt {
                                    Some(taken(s3, s4))
                                } else {
                                    None
                                },
                            }),
                            s4,
                        )),
                        None => None,
                    },
                    None => None,
                },
                None => None,
            }
        },
        None => None,
    }
}

proof fn lemma_prefix_deep_view(b: &[u8], s: Seq<u8>, n: int)
    requires
        b@ == s.subrange(0, n),
    ensures
        b.deep_view() == s.take(n),
{
    assert(b.deep_view() =~= s.take(n));
}

impl<'x> MD<'x> for InventorySlot<'x> {
    open spec fn spec_deserialize(s: Seq<u8>) -> Option<(Option<InventorySlotDataView>, Seq<u8>)> {
        spec_slot(s)
    }

    /// Slots are only read.
    open spec fn serializable() -> bool {
        false
    }

    open spec fn spec_header() -> Seq<u8> {
        Seq::empty()
    }

    open spec fn takes_rest() -> bool {
        false
    }

    open spec fn spec_serialize(v: Option<InventorySlotDataView>) -> Seq<u8> {
        Seq::empty()
    }

    open spec fn encodable(v: Option<InventorySlotDataView>) -> bool {
        false
    }

    proof fn lemma_roundtrip(v: Option<InventorySlotDataView>, rest: Seq<u8>) {
    }

    fn deserialize(memory: &mut &'x [u8]) -> (res: Result<InventorySlot<'x>, ParseError>) {
        let present: bool = <bool as MD>::deserialize(memory)?;
        let data = if present {
            let item_id = read_varint(memory)?;
            let count: u8 = <u8 as MD>::deserialize(memory)?;
            let before_nbt: &'x [u8] = *memory;
            let nbt = if nbt::skip_option(memory)? {
                let size = before_nbt.len() - memory.len();
                let b = vstd::slice::slice_subrange(before_nbt, 0, size);
                proof {
                    lemma_prefix_deep_view(b, before_nbt@, size as int);
                }
                Some(b)
            } else {
                None
            };
            Some(InventorySlotData { item_id, count, nbt })
        } else {
            None
        };
        Ok(InventorySlot { data })
    }

    fn serialize(&self, writer: &mut Vec<u8>) {
    }
}

/// An NBT root tag, kept as the bytes it spans.
#[derive(Debug)]
pub struct IndexedNbt<'x> {
    pub nbt: &'x [u8],
}

impl<'x> DeepView for IndexedNbt<'x> {
    type V = Seq<u8>;

    open spec fn deep_view(&self) -> Seq<u8> {
        self.nbt.deep_view()
    }
}

impl<'x> MD<'x> for IndexedNbt<'x> {
    /// The bytes of one NBT root tag.
    open spec fn spec_deserialize(s: Seq<u8>) -> Option<(Seq<u8>, Seq<u8>)> {
        match spec_skip(s) {
            Some(r) => Some((taken(s, r), r)),
            None => None,
        }
    }

    /// Tags are only read.
    open spec fn serializable() -> bool {
        false
    }

    open spec fn spec_header() -> Seq<u8> {
        Seq::empty()
    }

    open spec fn takes_rest() -> bool {
        false
    }

    open spec fn spec_serialize(v: Seq<u8>) -> Seq<u8> {
        Seq::empty()
    }

    open spec fn encodable(v: Seq<u8>) -> bool {
        false
    }

    proof fn lemma_roundtrip(v: Seq<u8>, rest: Seq<u8>) {
    }

    fn deserialize(memory: &mut &'x [u8]) -> (res: Result<IndexedNbt<'x>, ParseError>) {
        let tmp: &'x [u8] = *memory;
        nbt::skip(memory)?;
        let size = tmp.len() - memory.len();
        let nbt = vstd::slice::slice_subrange(tmp, 0, size);
        proof {
            lemma_prefix_deep_view(nbt, tmp@, size as int);
        }
        Ok(IndexedNbt { nbt })
    }

    fn serialize(&self, writer: &mut Vec<u8>) {
    }
}

/// An optional NBT root tag, kept as the bytes it spans.
#[derive(Debug)]
pub struct IndexedOptionNbt<'x> {
    pub nbt: Option<&'x [u8]>,
}

impl<'x> DeepView for IndexedOptionNbt<'x> {
    type V = Option<Seq<u8>>;

    open spec fn deep_view(&self) -> Option<Seq<u8>> {
        self.nbt.deep_view()
    }
}

/// An optional NBT root tag at the front of `s`: its bytes when present.
pub open spec fn spec_option_nbt(s: Seq<u8>) -> Option<(Option<Seq<u8>>, Seq<u8>)> {
    match spec_skip_option(s) {
        Some((has, r)) => Some((
            if has {
                Some(taken(s, r))
            } else {
                None
            },
            r,
        )),
        None => None,
    }
}

impl<'x> MD<'x> for IndexedOptionNbt<'x> {
    open spec fn spec_deserialize(s: Seq<u8>) -> Option<(Option<Seq<u8>>, Seq<u8>)> {
        spec_option_nbt(s)
    }

    /// Tags are only read.
    open spec fn serializable() -> bool {
        false
    }

    open spec fn spec_header() -> Seq<u8> {
        Seq::empty()
    }

    open spec fn takes_rest() -> bool {
        false
    }

    open spec fn spec_serialize(v: Option<Seq<u8>>) -> Seq<u8> {
        Seq::empty()
    }

    open spec fn encodable(v: Option<Seq<u8>>) -> bool {
        false
    }

    proof fn lemma_roundtrip(v: Option<Seq<u8>>, rest: Seq<u8>) {
    }

    fn deserialize(memory: &mut &'x [u8]) -> (res: Result<IndexedOptionNbt<'x>, ParseError>) {
        let tmp: &'x [u8] = *memory;
        let nbt = if nbt::skip_option(memory)? {
            let size = tmp.len() - memory.len();
            let b = vstd::slice::slice_subrange(tmp, 0, size);
            proof {
                lemma_prefix_deep_view(b, tmp@, size as int);
            }
            Some(b)
        } else {
            None
        };
        Ok(IndexedOptionNbt { nbt })
    }

    fn serialize(&self, writer: &mut Vec<u8>) {
    }
}

/// A block entity in a chunk packet.
#[derive(Debug)]
pub struct ChunkBlockEntity<'x> {
    x: u8,
    z: u8,
    y: i16,
    type_: i32,
    nbt_data: IndexedOptionNbt<'x>,
}

/// What a `ChunkBlockEntity` holds.
pub struct ChunkBlockEntityView {
    pub x: u8,
    pub z: u8,
    pub y: i16,
    pub type_: i32,
    pub nbt_data: Option<Seq<u8>>,
}

impl<'x> DeepView for ChunkBlockEntity<'x> {
    type V = ChunkBlockEntityView;

    closed spec fn deep_view(&self) -> ChunkBlockEntityView {
        ChunkBlockEntityView {
            x: self.x,
            z: self.z,
            y: self.y,
            type_: self.type_,
            nbt_data: self.nbt_data.deep_view(),
        }
    }
}

/// A block entity at the front of `s`: a byte with x in its low four bits
/// and z in its high four, a big-endian `i16` y, a varint type, and an
/// optional NBT root tag.
pub open spec fn spec_chunk_block_entity(s: Seq<u8>) -> Option<(ChunkBlockEntityView, Seq<u8>)> {
    match spec_u8(s) {
        Some((xz, s1)) => match <i16 as MD>::spec_deserialize(s1) {
            Some((y, s2)) => match varint_field(s2) {
                Some((type_, s3)) => match spec_option_nbt(s3) {
                    Some((nbt_data, s4)) => Some((
                        ChunkBlockEntityView { x: xz & 0b1111, z: xz >> 4, y, type_, nbt_data },
                        s4,
                    )),
                    None => None,
                },
                None => None,
            },
            None => None,
        },
        None => None,
    }
}

impl<'x> MD<'x> for ChunkBlockEntity<'x> {
    open spec fn spec_deserialize(s: Seq<u8>) -> Option<(ChunkBlockEntityView, Seq<u8>)> {
        spec_chunk_block_entity(s)
    }

    /// Block entities are only read.
    open spec fn serializable() -> bool {
        false
    }

    open spec fn spec_header() -> Seq<u8> {
        Seq::empty()
    }

    open spec fn takes_rest() -> bool {
        false
    }

    open spec fn spec_serialize(v: ChunkBlockEntityView) -> Seq<u8> {
        Seq::empty()
    }

    open spec fn encodable(v: ChunkBlockEntityView) -> bool {
        false
    }

    proof fn lemma_roundtrip(v: ChunkBlockEntityView, rest: Seq<u8>) {
    }

    fn deserialize(memory: &mut &'x [u8]) -> (res: Result<ChunkBlockEntity<'x>, ParseError>) {
        let xz: u8 = <u8 as MD>::deserialize(memory)?;
        let x = xz & 0b1111;
        let z = xz >> 4;
        let y: i16 = <i16 as MD>::deserialize(memory)?;
        let type_ = read_varint(memory)?;
        let nbt_data = <IndexedOptionNbt as MD>::deserialize(memory)?;
        Ok(ChunkBlockEntity { x, z, y, type_, nbt_data })
    }

    fn serialize(&self, writer: &mut Vec<u8>) {
    }
}

// ---------------------------------------------------------------------------
// Arrays of big-endian i64 kept as bytes.

/// The big-endian `i64` values of `b`, eight bytes each.
pub open spec fn be_i64_seq(b: Seq<u8>) -> Seq<i64> {
    Seq::new(b.len() / 8, |i: int| crate::protocol::de::be_u64(b.subrange(8 * i, 8 * i + 8)) as i64)
}

/// Big-endian `i64` values read in place from the bytes that hold them.
#[derive(Debug, Clone, Copy)]
pub struct UnalignedSliceI64<'x> {
    inner: &'x [u8],
}

impl<'x> DeepView for UnalignedSliceI64<'x> {
    type V = Seq<i64>;

    closed spec fn deep_view(&self) -> Seq<i64> {
        be_i64_seq(self.inner@)
    }
}

impl<'x> UnalignedSliceI64<'x> {
    /// The values held by `buffer`, whose length must be a multiple of 8.
    pub fn new(buffer: &'x [u8]) -> (res: UnalignedSliceI64<'x>)
        requires
            buffer@.len() % 8 == 0,
        ensures
            res.deep_view() == be_i64_seq(buffer@),
            res.deep_view().len() * 8 == buffer@.len(),
    {
        UnalignedSliceI64 { inner: buffer }
    }

    /// The number of values.
    pub fn len(&self) -> (res: usize)
        ensures
            res == self.deep_view().len(),
    {
        self.inner.len() / 8
    }

    /// The value at `index`.
    pub fn get(&self, index: usize) -> (res: i64)
        requires
            index < self.deep_view().len(),
        ensures
            res == self.deep_view()[index as int],
    {
        let n = self.inner.len();
        assert(8 * index + 8 <= n) by (nonlinear_arith)
            requires
                index < n / 8,
        ;
        let mut r: &[u8] = vstd::slice::slice_subrange(self.inner, 8 * index, 8 * index + 8);
        let v: i64 = match <i64 as MD>::deserialize(&mut r) {
            Ok(v) => v,
            Err(_) => 0,
        };
        v
    }
}

/// `count` big-endian `i64` values at the front of `s`, kept in place; a
/// negative count fails.
pub open spec fn spec_i64_slice(s: Seq<u8>, count: int) -> Option<(Seq<i64>, Seq<u8>)> {
    if 0 <= count && 8 * count <= s.len() {
        Some((be_i64_seq(s.take(8 * count)), s.skip(8 * count)))
    } else {
        None
    }
}

/// Reads `count` big-endian `i64` values in place.
pub fn read_i64_slice<'x>(reader: &mut &'x [u8], count: i32) -> (res: Result<UnalignedSliceI64<'x>, ParseError>)
    ensures
        match spec_i64_slice(old(reader)@, count as int) {
            Some((vs, r)) => (res matches Ok(v) && v.deep_view() == vs && final(reader)@ == r),
            None => res is Err,
        },
{
    if count < 0 {
        return Err(ParseError::Invalid);
    }
    let size: u64 = (count as u64) * 8;
    if size > reader.len() as u64 {
        return Err(ParseError::Invalid);
    }
    let mem = reader.read_mem(size as usize)?;
    Ok(UnalignedSliceI64::new(mem))
}

} // verus!
