//! Decoding and encoding the field types of packets: big-endian integers,
//! booleans, length-prefixed byte strings and UTF-8 strings, optional
//! values, and packed block positions.
use crate::bytes::{push_slice, MemoryExt, ParseError};
use crate::protocol::varint::{
    lemma_varint_roundtrip, read_varint, spec_varint, varint_bytes, write_varint, lemma_varint_len,
};
use vstd::prelude::*;
use vstd::utf8::{decode_utf8, encode_utf8, valid_utf8};

verus! {

broadcast use vstd::utf8::encode_utf8_valid_utf8, vstd::utf8::encode_utf8_decode_utf8;

/// The big-endian `u16` in the first 2 bytes of `s`.
pub open spec fn be_u16(s: Seq<u8>) -> u16
    recommends
        s.len() >= 2,
{
    (s[0] as u16) << 8u16 | (s[1] as u16)
}

/// The 2 big-endian bytes of `x`.
pub open spec fn u16_be_bytes(x: u16) -> Seq<u8> {
    seq![(x >> 8u16) as u8, x as u8]
}

/// The big-endian bytes of `x` read back as `x`.
pub proof fn lemma_be_u16_roundtrip(x: u16)
    ensures
        u16_be_bytes(x).len() == 2,
        be_u16(u16_be_bytes(x)) == x,
{
    let s = u16_be_bytes(x);
    assert(be_u16(s) == (((x >> 8u16) as u8) as u16) << 8u16 | ((x as u8) as u16));
    assert((((x >> 8u16) as u8) as u16) << 8u16 | ((x as u8) as u16) == x) by (bit_vector);
}

/// Reads a big-endian `u16` from the front of `reader` and advances past it.
pub fn take_be_u16(reader: &mut &[u8]) -> (res: Result<u16, ParseError>)
    ensures
        old(reader)@.len() >= 2 ==> res == Ok::<u16, ParseError>(be_u16(old(reader)@)) && final(reader)@ == old(reader)@.skip(2),
        old(reader)@.len() < 2 ==> res is Err && final(reader)@ == old(reader)@,
{
    let r: &[u8] = *reader;
    if r.len() < 2 {
        return Err(ParseError::Invalid);
    }
    let v = ((r[0] as u16) << 8u16) | (r[1] as u16);
    *reader = vstd::slice::slice_subrange(r, 2, r.len());
    Ok(v)
}

/// Appends the big-endian bytes of `x` to `writer`.
pub fn put_be_u16(writer: &mut Vec<u8>, x: u16)
    ensures
        final(writer)@ == old(writer)@ + u16_be_bytes(x),
{
    writer.push((x >> 8u16) as u8);
    writer.push(x as u8);
    assert(writer@ =~= old(writer)@ + u16_be_bytes(x));
}

/// The big-endian `u32` in the first 4 bytes of `s`.
pub open spec fn be_u32(s: Seq<u8>) -> u32
    recommends
        s.len() >= 4,
{
    (s[0] as u32) << 24u32 | (s[1] as u32) << 16u32 | (s[2] as u32) << 8u32 | (s[3] as u32)
}

/// The 4 big-endian bytes of `x`.
pub open spec fn u32_be_bytes(x: u32) -> Seq<u8> {
    seq![(x >> 24u32) as u8, (x >> 16u32) as u8, (x >> 8u32) as u8, x as u8]
}

/// The big-endian bytes of `x` read back as `x`.
pub proof fn lemma_be_u32_roundtrip(x: u32)
    ensures
        u32_be_bytes(x).len() == 4,
        be_u32(u32_be_bytes(x)) == x,
{
    let s = u32_be_bytes(x);
    assert(be_u32(s) == (((x >> 24u32) as u8) as u32) << 24u32 | (((x >> 16u32) as u8) as u32) << 16u32 | (((x >> 8u32) as u8) as u32) << 8u32 | ((x as u8) as u32));
    assert((((x >> 24u32) as u8) as u32) << 24u32 | (((x >> 16u32) as u8) as u32) << 16u32 | (((x >> 8u32) as u8) as u32) << 8u32 | ((x as u8) as u32) == x) by (bit_vector);
}

/// Reads a big-endian `u32` from the front of `reader` and advances past it.
pub fn take_be_u32(reader: &mut &[u8]) -> (res: Result<u32, ParseError>)
    ensures
        old(reader)@.len() >= 4 ==> res == Ok::<u32, ParseError>(be_u32(old(reader)@)) && final(reader)@ == old(reader)@.skip(4),
        old(reader)@.len() < 4 ==> res is Err && final(reader)@ == old(reader)@,
{
    let r: &[u8] = *reader;
    if r.len() < 4 {
        return Err(ParseError::Invalid);
    }
    let v = ((r[0] as u32) << 24u32) | ((r[1] as u32) << 16u32) | ((r[2] as u32) << 8u32) | (r[3] as u32);
    *reader = vstd::slice::slice_subrange(r, 4, r.len());
    Ok(v)
}

/// Appends the big-endian bytes of `x` to `writer`.
pub fn put_be_u32(writer: &mut Vec<u8>, x: u32)
    ensures
        final(writer)@ == old(writer)@ + u32_be_bytes(x),
{
    writer.push((x >> 24u32) as u8);
    writer.push((x >> 16u32) as u8);
    writer.push((x >> 8u32) as u8);
    writer.push(x as u8);
    assert(writer@ =~= old(writer)@ + u32_be_bytes(x));
}

/// The big-endian `u64` in the first 8 bytes of `s`.
pub open spec fn be_u64(s: Seq<u8>) -> u64
    recommends
        s.len() >= 8,
{
    (s[0] as u64) << 56u64 | (s[1] as u64) << 48u64 | (s[2] as u64) << 40u64 | (s[3] as u64) << 32u64 | (s[4] as u64) << 24u64 | (s[5] as u64) << 16u64 | (s[6] as u64) << 8u64 | (s[7] as u64)
}

/// The 8 big-endian bytes of `x`.
pub open spec fn u64_be_bytes(x: u64) -> Seq<u8> {
    seq![(x >> 56u64) as u8, (x >> 48u64) as u8, (x >> 40u64) as u8, (x >> 32u64) as u8, (x >> 24u64) as u8, (x >> 16u64) as u8, (x >> 8u64) as u8, x as u8]
}

/// The big-endian bytes of `x` read back as `x`.
pub proof fn lemma_be_u64_roundtrip(x: u64)
    ensures
        u64_be_bytes(x).len() == 8,
        be_u64(u64_be_bytes(x)) == x,
{
    let s = u64_be_bytes(x);
    assert(be_u64(s) == (((x >> 56u64) as u8) as u64) << 56u64 | (((x >> 48u64) as u8) as u64) << 48u64 | (((x >> 40u64) as u8) as u64) << 40u64 | (((x >> 32u64) as u8) as u64) << 32u64 | (((x >> 24u64) as u8) as u64) << 24u64 | (((x >> 16u64) as u8) as u64) << 16u64 | (((x >> 8u64) as u8) as u64) << 8u64 | ((x as u8) as u64));
    assert((((x >> 56u64) as u8) as u64) << 56u64 | (((x >> 48u64) as u8) as u64) << 48u64 | (((x >> 40u64) as u8) as u64) << 40u64 | (((x >> 32u64) as u8) as u64) << 32u64 | (((x >> 24u64) as u8) as u64) << 24u64 | (((x >> 16u64) as u8) as u64) << 16u64 | (((x >> 8u64) as u8) as u64) << 8u64 | ((x as u8) as u64) == x) by (bit_vector);
}

/// Reads a big-endian `u64` from the front of `reader` and advances past it.
pub fn take_be_u64(reader: &mut &[u8]) -> (res: Result<u64, ParseError>)
    ensures
        old(reader)@.len() >= 8 ==> res == Ok::<u64, ParseError>(be_u64(old(reader)@)) && final(reader)@ == old(reader)@.skip(8),
        old(reader)@.len() < 8 ==> res is Err && final(reader)@ == old(reader)@,
{
    let r: &[u8] = *reader;
    if r.len() < 8 {
        return Err(ParseError::Invalid);
    }
    let v = ((r[0] as u64) << 56u64) | ((r[1] as u64) << 48u64) | ((r[2] as u64) << 40u64) | ((r[3] as u64) << 32u64) | ((r[4] as u64) << 24u64) | ((r[5] as u64) << 16u64) | ((r[6] as u64) << 8u64) | (r[7] as u64);
    *reader = vstd::slice::slice_subrange(r, 8, r.len());
    Ok(v)
}

/// Appends the big-endian bytes of `x` to `writer`.
pub fn put_be_u64(writer: &mut Vec<u8>, x: u64)
    ensures
        final(writer)@ == old(writer)@ + u64_be_bytes(x),
{
    writer.push((x >> 56u64) as u8);
    writer.push((x >> 48u64) as u8);
    writer.push((x >> 40u64) as u8);
    writer.push((x >> 32u64) as u8);
    writer.push((x >> 24u64) as u8);
    writer.push((x >> 16u64) as u8);
    writer.push((x >> 8u64) as u8);
    writer.push(x as u8);
    assert(writer@ =~= old(writer)@ + u64_be_bytes(x));
}

/// The big-endian `u128` in the first 16 bytes of `s`.
pub open spec fn be_u128(s: Seq<u8>) -> u128
    recommends
        s.len() >= 16,
{
    (s[0] as u128) << 120u128 | (s[1] as u128) << 112u128 | (s[2] as u128) << 104u128 | (s[3] as u128) << 96u128 | (s[4] as u128) << 88u128 | (s[5] as u128) << 80u128 | (s[6] as u128) << 72u128 | (s[7] as u128) << 64u128 | (s[8] as u128) << 56u128 | (s[9] as u128) << 48u128 | (s[10] as u128) << 40u128 | (s[11] as u128) << 32u128 | (s[12] as u128) << 24u128 | (s[13] as u128) << 16u128 | (s[14] as u128) << 8u128 | (s[15] as u128)
}

/// The 16 big-endian bytes of `x`.
pub open spec fn u128_be_bytes(x: u128) -> Seq<u8> {
    seq![(x >> 120u128) as u8, (x >> 112u128) as u8, (x >> 104u128) as u8, (x >> 96u128) as u8, (x >> 88u128) as u8, (x >> 80u128) as u8, (x >> 72u128) as u8, (x >> 64u128) as u8, (x >> 56u128) as u8, (x >> 48u128) as u8, (x >> 40u128) as u8, (x >> 32u128) as u8, (x >> 24u128) as u8, (x >> 16u128) as u8, (x >> 8u128) as u8, x as u8]
}

/// The big-endian bytes of `x` read back as `x`.
pub proof fn lemma_be_u128_roundtrip(x: u128)
    ensures
        u128_be_bytes(x).len() == 16,
        be_u128(u128_be_bytes(x)) == x,
{
    let s = u128_be_bytes(x);
    assert(be_u128(s) == (((x >> 120u128) as u8) as u128) << 120u128 | (((x >> 112u128) as u8) as u128) << 112u128 | (((x >> 104u128) as u8) as u128) << 104u128 | (((x >> 96u128) as u8) as u128) << 96u128 | (((x >> 88u128) as u8) as u128) << 88u128 | (((x >> 80u128) as u8) as u128) << 80u128 | (((x >> 72u128) as u8) as u128) << 72u128 | (((x >> 64u128) as u8) as u128) << 64u128 | (((x >> 56u128) as u8) as u128) << 56u128 | (((x >> 48u128) as u8) as u128) << 48u128 | (((x >> 40u128) as u8) as u128) << 40u128 | (((x >> 32u128) as u8) as u128) << 32u128 | (((x >> 24u128) as u8) as u128) << 24u128 | (((x >> 16u128) as u8) as u128) << 16u128 | (((x >> 8u128) as u8) as u128) << 8u128 | ((x as u8) as u128));
    assert((((x >> 120u128) as u8) as u128) << 120u128 | (((x >> 112u128) as u8) as u128) << 112u128 | (((x >> 104u128) as u8) as u128) << 104u128 | (((x >> 96u128) as u8) as u128) << 96u128 | (((x >> 88u128) as u8) as u128) << 88u128 | (((x >> 80u128) as u8) as u128) << 80u128 | (((x >> 72u128) as u8) as u128) << 72u128 | (((x >> 64u128) as u8) as u128) << 64u128 | (((x >> 56u128) as u8) as u128) << 56u128 | (((x >> 48u128) as u8) as u128) << 48u128 | (((x >> 40u128) as u8) as u128) << 40u128 | (((x >> 32u128) as u8) as u128) << 32u128 | (((x >> 24u128) as u8) as u128) << 24u128 | (((x >> 16u128) as u8) as u128) << 16u128 | (((x >> 8u128) as u8) as u128) << 8u128 | ((x as u8) as u128) == x) by (bit_vector);
}

/// Reads a big-endian `u128` from the front of `reader` and advances past it.
pub fn take_be_u128(reader: &mut &[u8]) -> (res: Result<u128, ParseError>)
    ensures
        old(reader)@.len() >= 16 ==> res == Ok::<u128, ParseError>(be_u128(old(reader)@)) && final(reader)@ == old(reader)@.skip(16),
        old(reader)@.len() < 16 ==> res is Err && final(reader)@ == old(reader)@,
{
    let r: &[u8] = *reader;
    if r.len() < 16 {
        return Err(ParseError::Invalid);
    }
    let v = ((r[0] as u128) << 120u128) | ((r[1] as u128) << 112u128) | ((r[2] as u128) << 104u128) | ((r[3] as u128) << 96u128) | ((r[4] as u128) << 88u128) | ((r[5] as u128) << 80u128) | ((r[6] as u128) << 72u128) | ((r[7] as u128) << 64u128) | ((r[8] as u128) << 56u128) | ((r[9] as u128) << 48u128) | ((r[10] as u128) << 40u128) | ((r[11] as u128) << 32u128) | ((r[12] as u128) << 24u128) | ((r[13] as u128) << 16u128) | ((r[14] as u128) << 8u128) | (r[15] as u128);
    *reader = vstd::slice::slice_subrange(r, 16, r.len());
    Ok(v)
}

/// Appends the big-endian bytes of `x` to `writer`.
pub fn put_be_u128(writer: &mut Vec<u8>, x: u128)
    ensures
        final(writer)@ == old(writer)@ + u128_be_bytes(x),
{
    writer.push((x >> 120u128) as u8);
    writer.push((x >> 112u128) as u8);
    writer.push((x >> 104u128) as u8);
    writer.push((x >> 96u128) as u8);
    writer.push((x >> 88u128) as u8);
    writer.push((x >> 80u128) as u8);
    writer.push((x >> 72u128) as u8);
    writer.push((x >> 64u128) as u8);
    writer.push((x >> 56u128) as u8);
    writer.push((x >> 48u128) as u8);
    writer.push((x >> 40u128) as u8);
    writer.push((x >> 32u128) as u8);
    writer.push((x >> 24u128) as u8);
    writer.push((x >> 16u128) as u8);
    writer.push((x >> 8u128) as u8);
    writer.push(x as u8);
    assert(writer@ =~= old(writer)@ + u128_be_bytes(x));
}

/// A value that packets carry: how it is read from the front of a byte
/// slice and how it is written.
pub trait MD<'x>: Sized + DeepView {
    /// What the bytes at the front of `s` decode to, with the bytes after
    /// them; `None` when they do not hold a value of this type.
    spec fn spec_deserialize(s: Seq<u8>) -> Option<(Self::V, Seq<u8>)>;

    /// Whether values of this type can be written.
    spec fn serializable() -> bool;

    /// The bytes that `serialize` writes before every value: a packet's id
    /// for packets, nothing for the types of fields.
    spec fn spec_header() -> Seq<u8>;

    /// The bytes that encode a value, which `deserialize` reads.
    spec fn spec_serialize(v: Self::V) -> Seq<u8>;

    /// Whether a value extends to the end of the bytes it is read from.
    spec fn takes_rest() -> bool;

    /// Whether a value is read back as it was written (its lengths fit the
    /// length fields).
    spec fn encodable(v: Self::V) -> bool;

    /// A written value is read back: the bytes written for `v`, followed by
    /// anything, decode to `v` and leave exactly what followed.
    proof fn lemma_roundtrip(v: Self::V, rest: Seq<u8>)
        requires
            Self::encodable(v),
            Self::takes_rest() ==> rest.len() == 0,
        ensures
            Self::spec_deserialize(Self::spec_serialize(v) + rest) == Some((v, rest)),
    ;

    /// Reads a value from the front of `memory` and advances `memory` past it.
    fn deserialize(memory: &mut &'x [u8]) -> (res: Result<Self, ParseError>)
        ensures
            match Self::spec_deserialize(old(memory)@) {
                Some((v, rest)) => (res matches Ok(x) && x.deep_view() == v && final(memory)@
                    == rest),
                None => res is Err,
            },
    ;

    /// Appends the encoding of `self` to `writer`.
    fn serialize(&self, writer: &mut Vec<u8>)
        requires
            Self::serializable(),
        ensures
            final(writer)@ == old(writer)@ + Self::spec_header() + Self::spec_serialize(
                self.deep_view(),
            ),
    ;
}

/// Reads one byte from the front of `reader`.
pub fn read_u8(reader: &mut &[u8]) -> (res: Result<u8, ParseError>)
    ensures
        old(reader)@.len() >= 1 ==> res == Ok::<u8, ParseError>(old(reader)@[0]) && final(reader)@
            == old(reader)@.skip(1),
        old(reader)@.len() < 1 ==> res == Err::<u8, ParseError>(ParseError::Invalid) && final(reader)@ == old(reader)@,
{
    let r: &[u8] = *reader;
    if r.len() < 1 {
        return Err(ParseError::Invalid);
    }
    let v = r[0];
    *reader = vstd::slice::slice_subrange(r, 1, r.len());
    Ok(v)
}

/// One byte, read as itself.
pub open spec fn spec_u8(s: Seq<u8>) -> Option<(u8, Seq<u8>)> {
    if s.len() >= 1 {
        Some((s[0], s.skip(1)))
    } else {
        None
    }
}

impl<'x> MD<'x> for u8 {
    open spec fn spec_deserialize(s: Seq<u8>) -> Option<(u8, Seq<u8>)> {
        spec_u8(s)
    }

    open spec fn serializable() -> bool {
        true
    }

    open spec fn spec_header() -> Seq<u8> {
        Seq::empty()
    }

    open spec fn takes_rest() -> bool {
        false
    }

    open spec fn spec_serialize(v: u8) -> Seq<u8> {
        seq![v]
    }

    open spec fn encodable(v: u8) -> bool {
        true
    }

    proof fn lemma_roundtrip(v: u8, rest: Seq<u8>) {
        assert((seq![v] + rest).skip(1) =~= rest);
    }

    fn deserialize(memory: &mut &'x [u8]) -> (res: Result<u8, ParseError>) {
        read_u8(memory)
    }

    fn serialize(&self, writer: &mut Vec<u8>) {
        writer.push(*self);
        assert(writer@ =~= old(writer)@ + seq![*self]);
    }
}

impl<'x> MD<'x> for i8 {
    open spec fn spec_deserialize(s: Seq<u8>) -> Option<(i8, Seq<u8>)> {
        match spec_u8(s) {
            Some((b, rest)) => Some((b as i8, rest)),
            None => None,
        }
    }

    open spec fn serializable() -> bool {
        true
    }

    open spec fn spec_header() -> Seq<u8> {
        Seq::empty()
    }

    open spec fn takes_rest() -> bool {
        false
    }

    open spec fn spec_serialize(v: i8) -> Seq<u8> {
        seq![v as u8]
    }

    open spec fn encodable(v: i8) -> bool {
        true
    }

    proof fn lemma_roundtrip(v: i8, rest: Seq<u8>) {
        assert((seq![v as u8] + rest).skip(1) =~= rest);
        assert((v as u8) as i8 == v) by (bit_vector);
    }

    fn deserialize(memory: &mut &'x [u8]) -> (res: Result<i8, ParseError>) {
        match read_u8(memory) {
            Ok(value) => Ok(value as i8),
            Err(e) => Err(e),
        }
    }

    fn serialize(&self, writer: &mut Vec<u8>) {
        writer.push(*self as u8);
        assert(writer@ =~= old(writer)@ + seq![*self as u8]);
    }
}

impl<'x> MD<'x> for bool {
    /// Any byte other than zero reads as `true`.
    open spec fn spec_deserialize(s: Seq<u8>) -> Option<(bool, Seq<u8>)> {
        match spec_u8(s) {
            Some((b, rest)) => Some((b != 0, rest)),
            None => None,
        }
    }

    open spec fn serializable() -> bool {
        true
    }

    open spec fn spec_header() -> Seq<u8> {
        Seq::empty()
    }

    open spec fn takes_rest() -> bool {
        false
    }

    open spec fn spec_serialize(v: bool) -> Seq<u8> {
        seq![if v { 1u8 } else { 0u8 }]
    }

    open spec fn encodable(v: bool) -> bool {
        true
    }

    proof fn lemma_roundtrip(v: bool, rest: Seq<u8>) {
        assert((Self::spec_serialize(v) + rest).skip(1) =~= rest);
    }

    fn deserialize(memory: &mut &'x [u8]) -> (res: Result<bool, ParseError>) {
        match read_u8(memory) {
            Ok(value) => Ok(value != 0),
            Err(e) => Err(e),
        }
    }

    fn serialize(&self, writer: &mut Vec<u8>) {
        let b: u8 = if *self {
            1
        } else {
            0
        };
        writer.push(b);
        assert(writer@ =~= old(writer)@ + seq![b]);
    }
}

impl<'x> MD<'x> for u16 {
    /// 2 bytes, most significant first.
    open spec fn spec_deserialize(s: Seq<u8>) -> Option<(u16, Seq<u8>)> {
        if s.len() >= 2 {
            Some((be_u16(s), s.skip(2)))
        } else {
            None
        }
    }

    open spec fn serializable() -> bool {
        true
    }

    open spec fn spec_header() -> Seq<u8> {
        Seq::empty()
    }

    open spec fn takes_rest() -> bool {
        false
    }

    open spec fn spec_serialize(v: u16) -> Seq<u8> {
        u16_be_bytes(v)
    }

    open spec fn encodable(v: u16) -> bool {
        true
    }

    proof fn lemma_roundtrip(v: u16, rest: Seq<u8>) {
        lemma_be_u16_roundtrip(v);
        let w = u16_be_bytes(v);
        assert((w + rest).subrange(0, 2) =~= w);
        assert(be_u16(w + rest) == be_u16(w));
        assert((w + rest).skip(2) =~= rest);
    }

    fn deserialize(memory: &mut &'x [u8]) -> (res: Result<u16, ParseError>) {
        take_be_u16(memory)
    }

    fn serialize(&self, writer: &mut Vec<u8>) {
        put_be_u16(writer, *self);
    }
}

impl<'x> MD<'x> for u32 {
    /// 4 bytes, most significant first.
    open spec fn spec_deserialize(s: Seq<u8>) -> Option<(u32, Seq<u8>)> {
        if s.len() >= 4 {
            Some((be_u32(s), s.skip(4)))
        } else {
            None
        }
    }

    open spec fn serializable() -> bool {
        true
    }

    open spec fn spec_header() -> Seq<u8> {
        Seq::empty()
    }

    open spec fn takes_rest() -> bool {
        false
    }

    open spec fn spec_serialize(v: u32) -> Seq<u8> {
        u32_be_bytes(v)
    }

    open spec fn encodable(v: u32) -> bool {
        true
    }

    proof fn lemma_roundtrip(v: u32, rest: Seq<u8>) {
        lemma_be_u32_roundtrip(v);
        let w = u32_be_bytes(v);
        assert((w + rest).subrange(0, 4) =~= w);
        assert(be_u32(w + rest) == be_u32(w));
        assert((w + rest).skip(4) =~= rest);
    }

    fn deserialize(memory: &mut &'x [u8]) -> (res: Result<u32, ParseError>) {
        take_be_u32(memory)
    }

    fn serialize(&self, writer: &mut Vec<u8>) {
        put_be_u32(writer, *self);
    }
}

impl<'x> MD<'x> for u64 {
    /// 8 bytes, most significant first.
    open spec fn spec_deserialize(s: Seq<u8>) -> Option<(u64, Seq<u8>)> {
        if s.len() >= 8 {
            Some((be_u64(s), s.skip(8)))
        } else {
            None
        }
    }

    open spec fn serializable() -> bool {
        true
    }

    open spec fn spec_header() -> Seq<u8> {
        Seq::empty()
    }

    open spec fn takes_rest() -> bool {
        false
    }

    open spec fn spec_serialize(v: u64) -> Seq<u8> {
        u64_be_bytes(v)
    }

    open spec fn encodable(v: u64) -> bool {
        true
    }

    proof fn lemma_roundtrip(v: u64, rest: Seq<u8>) {
        lemma_be_u64_roundtrip(v);
        let w = u64_be_bytes(v);
        assert((w + rest).subrange(0, 8) =~= w);
        assert(be_u64(w + rest) == be_u64(w));
        assert((w + rest).skip(8) =~= rest);
    }

    fn deserialize(memory: &mut &'x [u8]) -> (res: Result<u64, ParseError>) {
        take_be_u64(memory)
    }

    fn serialize(&self, writer: &mut Vec<u8>) {
        put_be_u64(writer, *self);
    }
}

impl<'x> MD<'x> for u128 {
    /// 16 bytes, most significant first.
    open spec fn spec_deserialize(s: Seq<u8>) -> Option<(u128, Seq<u8>)> {
        if s.len() >= 16 {
            Some((be_u128(s), s.skip(16)))
        } else {
            None
        }
    }

    open spec fn serializable() -> bool {
        true
    }

    open spec fn spec_header() -> Seq<u8> {
        Seq::empty()
    }

    open spec fn takes_rest() -> bool {
        false
    }

    open spec fn spec_serialize(v: u128) -> Seq<u8> {
        u128_be_bytes(v)
    }

    open spec fn encodable(v: u128) -> bool {
        true
    }

    proof fn lemma_roundtrip(v: u128, rest: Seq<u8>) {
        lemma_be_u128_roundtrip(v);
        let w = u128_be_bytes(v);
        assert((w + rest).subrange(0, 16) =~= w);
        assert(be_u128(w + rest) == be_u128(w));
        assert((w + rest).skip(16) =~= rest);
    }

    fn deserialize(memory: &mut &'x [u8]) -> (res: Result<u128, ParseError>) {
        take_be_u128(memory)
    }

    fn serialize(&self, writer: &mut Vec<u8>) {
        put_be_u128(writer, *self);
    }
}

impl<'x> MD<'x> for i16 {
    /// 2 bytes, most significant first.
    open spec fn spec_deserialize(s: Seq<u8>) -> Option<(i16, Seq<u8>)> {
        if s.len() >= 2 {
            Some((be_u16(s) as i16, s.skip(2)))
        } else {
            None
        }
    }

    open spec fn serializable() -> bool {
        true
    }

    open spec fn spec_header() -> Seq<u8> {
        Seq::empty()
    }

    open spec fn takes_rest() -> bool {
        false
    }

    open spec fn spec_serialize(v: i16) -> Seq<u8> {
        u16_be_bytes(v as u16)
    }

    open spec fn encodable(v: i16) -> bool {
        true
    }

    proof fn lemma_roundtrip(v: i16, rest: Seq<u8>) {
        lemma_be_u16_roundtrip(v as u16);
        let w = u16_be_bytes(v as u16);
        assert((w + rest).subrange(0, 2) =~= w);
        assert(be_u16(w + rest) == be_u16(w));
        assert((w + rest).skip(2) =~= rest);
        assert((v as u16) as i16 == v) by (bit_vector);
    }

    fn deserialize(memory: &mut &'x [u8]) -> (res: Result<i16, ParseError>) {
        match take_be_u16(memory) {
            Ok(value) => Ok(value as i16),
            Err(e) => Err(e),
        }
    }

    fn serialize(&self, writer: &mut Vec<u8>) {
        put_be_u16(writer, *self as u16);
    }
}

impl<'x> MD<'x> for i32 {
    /// 4 bytes, most significant first.
    open spec fn spec_deserialize(s: Seq<u8>) -> Option<(i32, Seq<u8>)> {
        if s.len() >= 4 {
            Some((be_u32(s) as i32, s.skip(4)))
        } else {
            None
        }
    }

    open spec fn serializable() -> bool {
        true
    }

    open spec fn spec_header() -> Seq<u8> {
        Seq::empty()
    }

    open spec fn takes_rest() -> bool {
        false
    }

    open spec fn spec_serialize(v: i32) -> Seq<u8> {
        u32_be_bytes(v as u32)
    }

    open spec fn encodable(v: i32) -> bool {
        true
    }

    proof fn lemma_roundtrip(v: i32, rest: Seq<u8>) {
        lemma_be_u32_roundtrip(v as u32);
        let w = u32_be_bytes(v as u32);
        assert((w + rest).subrange(0, 4) =~= w);
        assert(be_u32(w + rest) == be_u32(w));
        assert((w + rest).skip(4) =~= rest);
        assert((v as u32) as i32 == v) by (bit_vector);
    }

    fn deserialize(memory: &mut &'x [u8]) -> (res: Result<i32, ParseError>) {
        let ghost s = memory@;
        let res = take_be_u32(memory);
        match res {
            Ok(value) => {
                assert(Self::spec_deserialize(s) == Some((value as i32, s.skip(4))));
                Ok(value as i32)
            },
            Err(e) => Err(e),
        }
    }

    fn serialize(&self, writer: &mut Vec<u8>) {
        put_be_u32(writer, *self as u32);
    }
}

impl<'x> MD<'x> for i64 {
    /// 8 bytes, most significant first.
    open spec fn spec_deserialize(s: Seq<u8>) -> Option<(i64, Seq<u8>)> {
        if s.len() >= 8 {
            Some((be_u64(s) as i64, s.skip(8)))
        } else {
            None
        }
    }

    open spec fn serializable() -> bool {
        true
    }

    open spec fn spec_header() -> Seq<u8> {
        Seq::empty()
    }

    open spec fn takes_rest() -> bool {
        false
    }

    open spec fn spec_serialize(v: i64) -> Seq<u8> {
        u64_be_bytes(v as u64)
    }

    open spec fn encodable(v: i64) -> bool {
        true
    }

    proof fn lemma_roundtrip(v: i64, rest: Seq<u8>) {
        lemma_be_u64_roundtrip(v as u64);
        let w = u64_be_bytes(v as u64);
        assert((w + rest).subrange(0, 8) =~= w);
        assert(be_u64(w + rest) == be_u64(w));
        assert((w + rest).skip(8) =~= rest);
        assert((v as u64) as i64 == v) by (bit_vector);
    }

    fn deserialize(memory: &mut &'x [u8]) -> (res: Result<i64, ParseError>) {
        match take_be_u64(memory) {
            Ok(value) => Ok(value as i64),
            Err(e) => Err(e),
        }
    }

    fn serialize(&self, writer: &mut Vec<u8>) {
        put_be_u64(writer, *self as u64);
    }
}

/// A length-prefixed byte string at the front of `s`: a varint length,
/// which must not be negative, then that many bytes.
pub open spec fn spec_byte_string(s: Seq<u8>) -> Option<(Seq<u8>, Seq<u8>)> {
    match spec_varint(s) {
        Some((len, n)) => if len >= 0 && n + len <= s.len() {
            Some((s.subrange(n as int, n + len), s.skip(n + len)))
        } else {
            None
        },
        None => None,
    }
}

/// The bytes written for the byte string `b`: its length as a varint, then
/// its bytes.
pub open spec fn byte_string_bytes(b: Seq<u8>) -> Seq<u8> {
    varint_bytes(b.len() as u32) + b
}

/// A byte string of fewer than 2^31 bytes is read back as written.
pub proof fn lemma_byte_string_roundtrip(b: Seq<u8>, rest: Seq<u8>)
    requires
        b.len() <= i32::MAX,
    ensures
        spec_byte_string(byte_string_bytes(b) + rest) == Some((b, rest)),
{
    let l = b.len() as u32;
    let w = varint_bytes(l);
    let all = byte_string_bytes(b) + rest;
    assert(all =~= w + (b + rest));
    lemma_varint_roundtrip(l, b + rest);
    assert(l as i32 == b.len());
    assert(all.subrange(w.len() as int, (w.len() + b.len()) as int) =~= b);
    assert(all.skip((w.len() + b.len()) as int) =~= rest);
}

/// A byte slice's deep view is its view.
pub proof fn lemma_slice_deep_view(b: &[u8])
    ensures
        b.deep_view() == b@,
{
    assert(b.deep_view() =~= b@);
}

/// Bytes written after an empty header follow what was there before.
pub proof fn lemma_write_after_header(before: Seq<u8>, header: Seq<u8>, written: Seq<u8>)
    requires
        header.len() == 0,
    ensures
        before + header + written == before + written,
{
    assert(before + header =~= before);
}

/// Appending a field, with its empty header, to the fields written so far.
pub proof fn lemma_write_next(before: Seq<u8>, done: Seq<u8>, header: Seq<u8>, written: Seq<u8>)
    requires
        header.len() == 0,
    ensures
        (before + done) + header + written == before + (done + written),
{
    assert((before + done) + header =~= before + done);
    vstd::seq_lib::lemma_concat_associative(before, done, written);
}

impl<'x> MD<'x> for &'x [u8] {
    open spec fn spec_deserialize(s: Seq<u8>) -> Option<(Seq<u8>, Seq<u8>)> {
        spec_byte_string(s)
    }

    open spec fn serializable() -> bool {
        true
    }

    open spec fn spec_header() -> Seq<u8> {
        Seq::empty()
    }

    open spec fn takes_rest() -> bool {
        false
    }

    open spec fn spec_serialize(v: Seq<u8>) -> Seq<u8> {
        byte_string_bytes(v)
    }

    open spec fn encodable(v: Seq<u8>) -> bool {
        v.len() <= i32::MAX
    }

    proof fn lemma_roundtrip(v: Seq<u8>, rest: Seq<u8>) {
        lemma_byte_string_roundtrip(v, rest);
    }

    fn deserialize(memory: &mut &'x [u8]) -> (res: Result<&'x [u8], ParseError>) {
        let ghost s = memory@;
        proof {
            lemma_varint_len(s);
            assert(Self::spec_deserialize(s) == spec_byte_string(s));
        }
        let len = read_varint(memory)?;
        if len < 0 {
            return Err(ParseError::Invalid);
        }
        let size = len as usize;
        let r = memory.read_mem(size);
        match r {
            Ok(b) => {
                proof {
                    lemma_slice_deep_view(b);
                    let n = (spec_varint(s)->0).1;
                    assert(b@ =~= s.subrange(n as int, n + len));
                    assert(memory@ =~= s.skip(n + len));
                }
                Ok(b)
            },
            Err(e) => Err(e),
        }
    }

    fn serialize(&self, writer: &mut Vec<u8>) {
        proof {
            lemma_slice_deep_view(*self);
        }
        write_varint(writer, self.len() as u32);
        push_slice(writer, *self);
        assert(writer@ =~= old(writer)@ + byte_string_bytes(self@));
    }
}

/// `std::str::from_utf8`: the bytes as a string slice when they are valid
/// UTF-8; the string's UTF-8 encoding is then exactly those bytes.
#[verifier::external_body]
pub(crate) fn str_from_utf8<'a>(bytes: &'a [u8]) -> (res: Option<&'a str>)
    ensures
        res is Some <==> valid_utf8(bytes@),
        res matches Some(s) ==> encode_utf8(s@) == bytes@,
{
    std::str::from_utf8(bytes).ok()
}

/// A UTF-8 string at the front of `s`: a byte string whose bytes are valid
/// UTF-8.
pub open spec fn spec_string(s: Seq<u8>) -> Option<(Seq<char>, Seq<u8>)> {
    match spec_byte_string(s) {
        Some((b, rest)) => if valid_utf8(b) {
            Some((decode_utf8(b), rest))
        } else {
            None
        },
        None => None,
    }
}

impl<'x> MD<'x> for &'x str {
    open spec fn spec_deserialize(s: Seq<u8>) -> Option<(Seq<char>, Seq<u8>)> {
        spec_string(s)
    }

    open spec fn serializable() -> bool {
        true
    }

    open spec fn spec_header() -> Seq<u8> {
        Seq::empty()
    }

    open spec fn takes_rest() -> bool {
        false
    }

    open spec fn spec_serialize(v: Seq<char>) -> Seq<u8> {
        byte_string_bytes(encode_utf8(v))
    }

    open spec fn encodable(v: Seq<char>) -> bool {
        encode_utf8(v).len() <= i32::MAX
    }

    proof fn lemma_roundtrip(v: Seq<char>, rest: Seq<u8>) {
        lemma_byte_string_roundtrip(encode_utf8(v), rest);
    }

    fn deserialize(memory: &mut &'x [u8]) -> (res: Result<&'x str, ParseError>) {
        let slice: &'x [u8] = <&'x [u8] as MD<'x>>::deserialize(memory)?;
        proof {
            lemma_slice_deep_view(slice);
        }
        match str_from_utf8(slice) {
            Some(s) => Ok(s),
            None => Err(ParseError::Invalid),
        }
    }

    fn serialize(&self, writer: &mut Vec<u8>) {
        let b: &[u8] = self.as_bytes();
        proof {
            lemma_slice_deep_view(b);
        }
        b.serialize(writer);
    }
}

impl<'x, T: MD<'x>> MD<'x> for Option<T> {
    /// A boolean, then the value when the boolean is `true`.
    open spec fn spec_deserialize(s: Seq<u8>) -> Option<(Option<T::V>, Seq<u8>)> {
        match <bool as MD<'x>>::spec_deserialize(s) {
            Some((present, rest)) => if present {
                match T::spec_deserialize(rest) {
                    Some((v, rest2)) => Some((Some(v), rest2)),
                    None => None,
                }
            } else {
                Some((None, rest))
            },
            None => None,
        }
    }

    open spec fn serializable() -> bool {
        T::serializable()
    }

    open spec fn spec_header() -> Seq<u8> {
        Seq::empty()
    }

    open spec fn takes_rest() -> bool {
        false
    }

    open spec fn spec_serialize(v: Option<T::V>) -> Seq<u8> {
        match v {
            Some(x) => seq![1u8] + T::spec_header() + T::spec_serialize(x),
            None => seq![0u8],
        }
    }

    open spec fn encodable(v: Option<T::V>) -> bool {
        match v {
            Some(x) => T::encodable(x) && T::spec_header().len() == 0 && !T::takes_rest(),
            None => true,
        }
    }

    proof fn lemma_roundtrip(v: Option<T::V>, rest: Seq<u8>) {
        match v {
            Some(x) => {
                T::lemma_roundtrip(x, rest);
                let w = T::spec_serialize(x);
                assert(T::spec_header() =~= Seq::<u8>::empty());
                assert(Self::spec_serialize(v) + rest =~= seq![1u8] + (w + rest));
                assert((seq![1u8] + (w + rest)).skip(1) =~= w + rest);
            },
            None => {
                assert((seq![0u8] + rest).skip(1) =~= rest);
            },
        }
    }

    fn deserialize(memory: &mut &'x [u8]) -> (res: Result<Option<T>, ParseError>) {
        let b: bool = <bool as MD<'x>>::deserialize(memory)?;
        let result = if b {
            Some(T::deserialize(memory)?)
        } else {
            None
        };
        Ok(result)
    }

    fn serialize(&self, writer: &mut Vec<u8>) {
        match self {
            None => {
                false.serialize(writer);
            },
            Some(x) => {
                true.serialize(writer);
                x.serialize(writer);
                assert(writer@ =~= old(writer)@ + Self::spec_serialize(self.deep_view()));
            },
        }
    }
}

/// A block position packed in 64 bits: x in the top 26 bits, z in the
/// next 26, y in the low 12, each a signed number.
#[derive(Debug, Clone, Copy, PartialEq, Eq)]
pub struct Position {
    pub x: i32,
    pub y: i32,
    pub z: i32,
}

impl DeepView for Position {
    type V = Position;

    open spec fn deep_view(&self) -> Position {
        *self
    }
}

/// The position that the packed 64 bits `val` hold.
pub open spec fn position_from_bits(val: i64) -> Position {
    Position { x: (val >> 38) as i32, y: ((val << 52) >> 52) as i32, z: ((val << 26) >> 38) as i32 }
}

impl<'x> MD<'x> for Position {
    open spec fn spec_deserialize(s: Seq<u8>) -> Option<(Position, Seq<u8>)> {
        match <i64 as MD<'x>>::spec_deserialize(s) {
            Some((val, rest)) => Some((position_from_bits(val), rest)),
            None => None,
        }
    }

    /// Positions are only read.
    open spec fn serializable() -> bool {
        false
    }

    open spec fn spec_header() -> Seq<u8> {
        Seq::empty()
    }

    open spec fn takes_rest() -> bool {
        false
    }

    open spec fn spec_serialize(v: Position) -> Seq<u8> {
        Seq::empty()
    }

    open spec fn encodable(v: Position) -> bool {
        false
    }

    proof fn lemma_roundtrip(v: Position, rest: Seq<u8>) {
    }

    fn deserialize(memory: &mut &'x [u8]) -> (res: Result<Position, ParseError>) {
        let val: i64 = <i64 as MD<'x>>::deserialize(memory)?;
        let x = (val >> 38) as i32;
        let y = ((val << 52) >> 52) as i32;
        let z = ((val << 26) >> 38) as i32;
        Ok(Position { x, y, z })
    }

    fn serialize(&self, writer: &mut Vec<u8>) {
    }
}

/// The most items reserved up front for a count read from the wire.
pub const CAUTIOUS_LIMIT: usize = 4096;

/// The capacity to reserve for `size` items announced by a peer: at most
/// 4096, so that a large announced count does not reserve memory up front.
pub fn cautious_size(size: usize) -> (res: usize)
    ensures
        res == if size < 4096 {
            size
        } else {
            4096
        },
{
    if size < CAUTIOUS_LIMIT {
        size
    } else {
        CAUTIOUS_LIMIT
    }
}

} // verus!
