//! Named Binary Tag (NBT) data: reading an encoded tag, or walking over it
//! without building it to find where it ends.
//!
//! A tag's payload is read according to its kind: 1 byte, 2 short, 3 int,
//! 4 long, 5 float, 6 double (fixed widths), 7 byte array and 11 int array
//! and 12 long array (an `i32` count, then the items), 8 string (a `u16`
//! length, then the bytes), 9 list (a kind byte, an `i32` count, then that
//! many payloads of that kind), 10 compound (named tags, each a kind byte,
//! a string name and a payload, up to a kind byte 0). All numbers are
//! big-endian.
use crate::bytes::{MemoryExt, ParseError, ReadSkip};
use crate::text::str_eq;
use crate::protocol::de::{be_u16, be_u32, be_u64, read_u8, str_from_utf8, take_be_u32, take_be_u64, MD};
use vstd::prelude::*;
use vstd::utf8::{decode_utf8, valid_utf8};

verus! {

broadcast use vstd::utf8::encode_utf8_valid_utf8, vstd::utf8::encode_utf8_decode_utf8;

/// What is left of `s` after its first `n` bytes, when it has them.
pub open spec fn skip_fixed(s: Seq<u8>, n: int) -> Option<Seq<u8>> {
    if 0 <= n <= s.len() {
        Some(s.skip(n))
    } else {
        None
    }
}

/// The `i32` stored big-endian at the front of `s`.
pub open spec fn be_i32(s: Seq<u8>) -> i32 {
    be_u32(s) as i32
}

/// What is left after an NBT string (a `u16` length, then the bytes).
pub open spec fn string_rest(s: Seq<u8>) -> Option<Seq<u8>> {
    if s.len() >= 2 {
        skip_fixed(s.skip(2), be_u16(s) as int)
    } else {
        None
    }
}

/// What is left after `count` items of `width` bytes each behind an `i32`
/// count at the front of `s`; a count below zero means no items.
pub open spec fn array_rest(s: Seq<u8>, width: int) -> Option<Seq<u8>> {
    if s.len() >= 4 {
        let count = be_i32(s);
        if count <= 0 {
            Some(s.skip(4))
        } else {
            skip_fixed(s.skip(4), width * count)
        }
    } else {
        None
    }
}

/// What is left of `s` after the payload of one tag of kind `kind`;
/// `None` when `s` does not start with such a payload.
pub open spec fn tag_rest(kind: u8, s: Seq<u8>) -> Option<Seq<u8>>
    decreases s.len(), 1nat, 0int,
{
    if kind == 1 {
        skip_fixed(s, 1)
    } else if kind == 2 {
        skip_fixed(s, 2)
    } else if kind == 3 || kind == 5 {
        skip_fixed(s, 4)
    } else if kind == 4 || kind == 6 {
        skip_fixed(s, 8)
    } else if kind == 7 {
        if s.len() >= 4 {
            let size = be_i32(s);
            if size < 0 {
                None
            } else {
                skip_fixed(s.skip(4), size as int)
            }
        } else {
            None
        }
    } else if kind == 8 {
        string_rest(s)
    } else if kind == 9 {
        if s.len() >= 5 {
            list_rest(s[0], be_i32(s.skip(1)) as int, s.skip(5))
        } else {
            None
        }
    } else if kind == 10 {
        compound_rest(s)
    } else if kind == 11 {
        array_rest(s, 4)
    } else if kind == 12 {
        array_rest(s, 8)
    } else {
        None
    }
}

/// What is left after `count` payloads of kind `kind`.
pub open spec fn list_rest(kind: u8, count: int, s: Seq<u8>) -> Option<Seq<u8>>
    decreases s.len(), 2nat, count,
{
    if count <= 0 {
        Some(s)
    } else {
        match tag_rest(kind, s) {
            Some(r) => if r.len() <= s.len() {
                list_rest(kind, count - 1, r)
            } else {
                None
            },
            None => None,
        }
    }
}

/// What is left after the named tags of a compound and the zero byte that
/// ends them.
pub open spec fn compound_rest(s: Seq<u8>) -> Option<Seq<u8>>
    decreases s.len(), 0nat, 0int,
{
    if s.len() < 1 {
        None
    } else if s[0] == 0 {
        Some(s.skip(1))
    } else {
        match string_rest(s.skip(1)) {
            Some(s2) => match tag_rest(s[0], s2) {
                Some(r) => if r.len() <= s2.len() {
                    compound_rest(r)
                } else {
                    None
                },
                None => None,
            },
            None => None,
        }
    }
}

/// What is left after a root tag whose kind byte `tag` was already read:
/// the kind must be compound (10), followed by its name and its payload.
pub open spec fn start_rest(tag: u8, s: Seq<u8>) -> Option<Seq<u8>> {
    if tag != 10 {
        None
    } else {
        match string_rest(s) {
            Some(s2) => tag_rest(10, s2),
            None => None,
        }
    }
}

/// What is left after a root tag: a kind byte, then as in `start_rest`.
pub open spec fn spec_skip(s: Seq<u8>) -> Option<Seq<u8>> {
    if s.len() < 1 {
        None
    } else {
        start_rest(s[0], s.skip(1))
    }
}

/// Whether an optional root tag is present (its kind byte is not zero), and
/// what is left after it.
pub open spec fn spec_skip_option(s: Seq<u8>) -> Option<(bool, Seq<u8>)> {
    if s.len() < 1 {
        None
    } else if s[0] == 0 {
        Some((false, s.skip(1)))
    } else {
        match start_rest(s[0], s.skip(1)) {
            Some(r) => Some((true, r)),
            None => None,
        }
    }
}

fn read_i32_be(reader: &mut &[u8]) -> (res: Result<i32, ParseError>)
    ensures
        old(reader)@.len() >= 4 ==> res == Ok::<i32, ParseError>(be_i32(old(reader)@))
            && final(reader)@ == old(reader)@.skip(4),
        old(reader)@.len() < 4 ==> res is Err,
{
    <i32 as MD>::deserialize(reader)
}

fn read_u16_be(reader: &mut &[u8]) -> (res: Result<u16, ParseError>)
    ensures
        old(reader)@.len() >= 2 ==> res == Ok::<u16, ParseError>(be_u16(old(reader)@))
            && final(reader)@ == old(reader)@.skip(2),
        old(reader)@.len() < 2 ==> res is Err,
{
    <u16 as MD>::deserialize(reader)
}

fn skip_string(reader: &mut &[u8]) -> (res: Result<(), ParseError>)
    ensures
        match string_rest(old(reader)@) {
            Some(r) => res is Ok && final(reader)@ == r,
            None => res is Err,
        },
{
    let size = read_u16_be(reader)?;
    reader.skip_all(size as usize)
}

/// Skips `count` items of `width` bytes behind an `i32` count.
fn skip_array(reader: &mut &[u8], width: u64) -> (res: Result<(), ParseError>)
    requires
        width == 4 || width == 8,
    ensures
        match array_rest(old(reader)@, width as int) {
            Some(r) => res is Ok && final(reader)@ == r,
            None => res is Err,
        },
{
    let size = read_i32_be(reader)?;
    if size <= 0 {
        return Ok(());
    }
    let total: u64 = (size as u64) * width;
    if total > reader.len() as u64 {
        return Err(ParseError::Invalid);
    }
    reader.skip_all(total as usize)
}

/// Skips a tag of kind `tag` (its payload, without kind or name) at the
/// front of `reader`.
pub fn skip_impl(reader: &mut &[u8], tag: u8) -> (res: Result<(), ParseError>)
    ensures
        match tag_rest(tag, old(reader)@) {
            Some(r) => res is Ok && final(reader)@ == r && r.len() <= old(reader)@.len(),
            None => res is Err,
        },
        tag == 0 || tag > 12 ==> (res == Err::<(), ParseError>(ParseError::UnknownTag(tag)) && final(reader)@
            == old(reader)@),
    decreases old(reader)@.len(),
{
    let ghost s = reader@;
    if tag == 1 {
        reader.skip_all(1)
    } else if tag == 2 {
        reader.skip_all(2)
    } else if tag == 3 || tag == 5 {
        reader.skip_all(4)
    } else if tag == 4 || tag == 6 {
        reader.skip_all(8)
    } else if tag == 7 {
        let size = read_i32_be(reader)?;
        if size < 0 {
            return Err(ParseError::Invalid);
        }
        reader.skip_all(size as usize)
    } else if tag == 8 {
        skip_string(reader)
    } else if tag == 9 {
        let kind = read_u8(reader)?;
        let size = read_i32_be(reader)?;
        let ghost body = reader@;
        assert(body =~= s.skip(5));
        assert(s.skip(1)[0] == s[1]);
        let mut i: i32 = 0;
        while i < size
            invariant
                tag == 9,
                s == old(reader)@,
                s.len() >= 5,
                kind == s[0],
                size == be_i32(s.skip(1)),
                body == s.skip(5),
                0 <= i,
                size > 0 ==> i <= size,
                reader@.len() <= body.len(),
                body.len() < s.len(),
                list_rest(kind, size as int, body) == list_rest(kind, size - i, reader@),
            decreases size - i,
        {
            let ghost before = reader@;
            skip_impl(reader, kind)?;
            i = i + 1;
        }
        Ok(())
    } else if tag == 10 {
        loop
            invariant_except_break
                compound_rest(s) == compound_rest(reader@),
            invariant
                tag == 10,
                s == old(reader)@,
                reader@.len() <= s.len(),
            ensures
                compound_rest(s) == Some(reader@),
            decreases reader@.len(),
        {
            let ghost before = reader@;
            let kind = read_u8(reader)?;
            if kind == 0 {
                break ;
            }
            skip_string(reader)?;
            skip_impl(reader, kind)?;
        }
        Ok(())
    } else if tag == 11 {
        skip_array(reader, 4)
    } else if tag == 12 {
        skip_array(reader, 8)
    } else {
        Err(ParseError::UnknownTag(tag))
    }
}

fn skip_start(reader: &mut &[u8], tag: u8) -> (res: Result<(), ParseError>)
    ensures
        match start_rest(tag, old(reader)@) {
            Some(r) => res is Ok && final(reader)@ == r && r.len() <= old(reader)@.len(),
            None => res is Err,
        },
        tag != 10 ==> res == Err::<(), ParseError>(ParseError::NotCompoundRoot(tag)),
{
    if tag != 10 {
        return Err(ParseError::NotCompoundRoot(tag));
    }
    skip_string(reader)?;
    skip_impl(reader, tag)?;
    Ok(())
}

/// Skips an optional root tag at the front of `reader`; returns whether it
/// was present.
pub fn skip_option(reader: &mut &[u8]) -> (res: Result<bool, ParseError>)
    ensures
        match spec_skip_option(old(reader)@) {
            Some((present, r)) => res == Ok::<bool, ParseError>(present) && final(reader)@ == r
                && r.len() <= old(reader)@.len(),
            None => res is Err,
        },
        old(reader)@.len() >= 1 && old(reader)@[0] != 0 && old(reader)@[0] != 10 ==> res == Err::<bool, ParseError>(
            ParseError::NotCompoundRoot(old(reader)@[0]),
        ),
{
    let tag = read_u8(reader)?;
    let r = if tag == 0 {
        false
    } else {
        skip_start(reader, tag)?;
        true
    };
    Ok(r)
}

/// Skips a root tag at the front of `reader`.
pub fn skip(reader: &mut &[u8]) -> (res: Result<(), ParseError>)
    ensures
        match spec_skip(old(reader)@) {
            Some(r) => res is Ok && final(reader)@ == r && r.len() <= old(reader)@.len(),
            None => res is Err,
        },
        old(reader)@.len() == 0 ==> res == Err::<(), ParseError>(ParseError::Invalid),
        old(reader)@.len() >= 1 && old(reader)@[0] != 10 ==> res == Err::<(), ParseError>(
            ParseError::NotCompoundRoot(old(reader)@[0]),
        ),
{
    let tag = read_u8(reader)?;
    skip_start(reader, tag)
}

// ---------------------------------------------------------------------------
// Reading tags.

/// A tag, with the strings and byte arrays that it holds borrowed from the
/// encoded bytes.
#[derive(Debug)]
pub enum Tag<'n> {
    Byte(i8),
    Short(i16),
    Int(i32),
    Long(i64),
    /// The IEEE 754 bits of the `f32` value.
    Float(u32),
    /// The IEEE 754 bits of the `f64` value.
    Double(u64),
    ByteArray(&'n [u8]),
    String(&'n str),
    List(Vec<Tag<'n>>),
    /// The named tags of a compound in the order they were read. A later tag
    /// shadows an earlier one of the same name (see `TagView::lookup`).
    Compound(Vec<(&'n str, Tag<'n>)>),
    IntArray(Vec<i32>),
    LongArray(Vec<i64>),
}

/// A root tag: a named compound.
#[derive(Debug)]
pub struct RootTag<'n> {
    pub name: &'n str,
    pub tag: Tag<'n>,
}

/// What a `Tag` holds.
pub enum TagView {
    Byte(i8),
    Short(i16),
    Int(i32),
    Long(i64),
    Float(u32),
    Double(u64),
    ByteArray(Seq<u8>),
    String(Seq<char>),
    List(Seq<TagView>),
    Compound(Seq<(Seq<char>, TagView)>),
    IntArray(Seq<i32>),
    LongArray(Seq<i64>),
}

/// The value that a named tag of a compound has: the last one of that name.
pub open spec fn entries_lookup(entries: Seq<(Seq<char>, TagView)>, name: Seq<char>) -> Option<TagView>
    decreases entries.len(),
{
    if entries.len() == 0 {
        None
    } else if entries.last().0 == name {
        Some(entries.last().1)
    } else {
        entries_lookup(entries.drop_last(), name)
    }
}

/// What a tag holds.
pub open spec fn tag_view<'n>(t: Tag<'n>) -> TagView
    decreases t,
{
    match t {
        Tag::Byte(x) => TagView::Byte(x),
        Tag::Short(x) => TagView::Short(x),
        Tag::Int(x) => TagView::Int(x),
        Tag::Long(x) => TagView::Long(x),
        Tag::Float(x) => TagView::Float(x),
        Tag::Double(x) => TagView::Double(x),
        Tag::ByteArray(b) => TagView::ByteArray(b@),
        Tag::String(s) => TagView::String(s@),
        Tag::List(v) => TagView::List(tags_view(v@)),
        Tag::Compound(v) => TagView::Compound(entries_view(v@)),
        Tag::IntArray(v) => TagView::IntArray(v@),
        Tag::LongArray(v) => TagView::LongArray(v@),
    }
}

/// What a sequence of tags holds.
pub open spec fn tags_view<'n>(ts: Seq<Tag<'n>>) -> Seq<TagView>
    decreases ts,
{
    if ts.len() == 0 {
        Seq::empty()
    } else {
        tags_view(ts.drop_last()).push(tag_view(ts.last()))
    }
}

/// What the named tags of a compound hold.
pub open spec fn entries_view<'n>(es: Seq<(&'n str, Tag<'n>)>) -> Seq<(Seq<char>, TagView)>
    decreases es,
{
    if es.len() == 0 {
        Seq::empty()
    } else {
        entries_view(es.drop_last()).push((es.last().0@, tag_view(es.last().1)))
    }
}

/// An NBT string at the front of `s` (a `u16` length, then that many bytes
/// of UTF-8), and what follows it.
pub open spec fn spec_nbt_string(s: Seq<u8>) -> Option<(Seq<char>, Seq<u8>)> {
    if s.len() < 2 {
        None
    } else {
        let n = be_u16(s) as int;
        if s.len() - 2 < n {
            None
        } else {
            let b = s.subrange(2, 2 + n);
            if valid_utf8(b) {
                Some((decode_utf8(b), s.skip(2 + n)))
            } else {
                None
            }
        }
    }
}

/// `count` big-endian `i32` values at the front of `s`.
pub open spec fn spec_int_items(count: int, s: Seq<u8>) -> Option<(Seq<i32>, Seq<u8>)>
    decreases count,
{
    if count <= 0 {
        Some((Seq::empty(), s))
    } else if s.len() < 4 {
        None
    } else {
        match spec_int_items(count - 1, s.skip(4)) {
            Some((vs, r)) => Some((seq![be_i32(s)] + vs, r)),
            None => None,
        }
    }
}

/// `count` big-endian `i64` values at the front of `s`.
pub open spec fn spec_long_items(count: int, s: Seq<u8>) -> Option<(Seq<i64>, Seq<u8>)>
    decreases count,
{
    if count <= 0 {
        Some((Seq::empty(), s))
    } else if s.len() < 8 {
        None
    } else {
        match spec_long_items(count - 1, s.skip(8)) {
            Some((vs, r)) => Some((seq![be_u64(s) as i64] + vs, r)),
            None => None,
        }
    }
}

/// The payload of a tag of kind `kind` at the front of `s`, and what
/// follows it; `None` when `s` does not start with one. A negative size of
/// an array or a list is refused.
pub open spec fn spec_tag(kind: u8, s: Seq<u8>) -> Option<(TagView, Seq<u8>)>
    decreases s.len(), 1nat, 0int,
{
    if kind == 1 {
        if s.len() >= 1 { Some((TagView::Byte(s[0] as i8), s.skip(1))) } else { None }
    } else if kind == 2 {
        if s.len() >= 2 { Some((TagView::Short(be_u16(s) as i16), s.skip(2))) } else { None }
    } else if kind == 3 {
        if s.len() >= 4 { Some((TagView::Int(be_i32(s)), s.skip(4))) } else { None }
    } else if kind == 4 {
        if s.len() >= 8 { Some((TagView::Long(be_u64(s) as i64), s.skip(8))) } else { None }
    } else if kind == 5 {
        if s.len() >= 4 { Some((TagView::Float(be_u32(s)), s.skip(4))) } else { None }
    } else if kind == 6 {
        if s.len() >= 8 { Some((TagView::Double(be_u64(s)), s.skip(8))) } else { None }
    } else if kind == 7 {
        if s.len() < 4 || be_i32(s) < 0 || s.len() - 4 < be_i32(s) {
            None
        } else {
            Some((TagView::ByteArray(s.subrange(4, 4 + be_i32(s))), s.skip(4 + be_i32(s))))
        }
    } else if kind == 8 {
        match spec_nbt_string(s) {
            Some((x, r)) => Some((TagView::String(x), r)),
            None => None,
        }
    } else if kind == 9 {
        if s.len() < 5 || be_i32(s.skip(1)) < 0 {
            None
        } else {
            match spec_list_items(s[0], be_i32(s.skip(1)) as int, s.skip(5)) {
                Some((vs, r)) => Some((TagView::List(vs), r)),
                None => None,
            }
        }
    } else if kind == 10 {
        match spec_compound_entries(s) {
            Some((es, r)) => Some((TagView::Compound(es), r)),
            None => None,
        }
    } else if kind == 11 {
        if s.len() < 4 || be_i32(s) < 0 {
            None
        } else {
            match spec_int_items(be_i32(s) as int, s.skip(4)) {
                Some((vs, r)) => Some((TagView::IntArray(vs), r)),
                None => None,
            }
        }
    } else if kind == 12 {
        if s.len() < 4 || be_i32(s) < 0 {
            None
        } else {
            match spec_long_items(be_i32(s) as int, s.skip(4)) {
                Some((vs, r)) => Some((TagView::LongArray(vs), r)),
                None => None,
            }
        }
    } else {
        None
    }
}

/// `count` payloads of kind `kind` at the front of `s`.
pub open spec fn spec_list_items(kind: u8, count: int, s: Seq<u8>) -> Option<(Seq<TagView>, Seq<u8>)>
    decreases s.len(), 2nat, count,
{
    if count <= 0 {
        Some((Seq::empty(), s))
    } else {
        match spec_tag(kind, s) {
            Some((v, r)) => if r.len() <= s.len() {
                match spec_list_items(kind, count - 1, r) {
                    Some((vs, r2)) => Some((seq![v] + vs, r2)),
                    None => None,
                }
            } else {
                None
            },
            None => None,
        }
    }
}

/// The named tags of a compound at the front of `s`, up to the zero byte
/// that ends them, and what follows that byte.
pub open spec fn spec_compound_entries(s: Seq<u8>) -> Option<(Seq<(Seq<char>, TagView)>, Seq<u8>)>
    decreases s.len(), 0nat, 0int,
{
    if s.len() < 1 {
        None
    } else if s[0] == 0 {
        Some((Seq::empty(), s.skip(1)))
    } else {
        match spec_nbt_string(s.skip(1)) {
            Some((name, s2)) => match spec_tag(s[0], s2) {
                Some((v, r)) => if r.len() <= s2.len() {
                    match spec_compound_entries(r) {
                        Some((es, r3)) => Some((seq![(name, v)] + es, r3)),
                        None => None,
                    }
                } else {
                    None
                },
                None => None,
            },
            None => None,
        }
    }
}

/// A root tag whose kind byte `tag` was already read: the kind must be
/// compound (10); then its name and its payload.
pub open spec fn spec_read_start(tag: u8, s: Seq<u8>) -> Option<(Seq<char>, TagView, Seq<u8>)> {
    if tag != 10 {
        None
    } else {
        match spec_nbt_string(s) {
            Some((name, s2)) => match spec_tag(10, s2) {
                Some((v, r)) => Some((name, v, r)),
                None => None,
            },
            None => None,
        }
    }
}

/// The root tag at the front of `s`: a kind byte, then as in
/// `spec_read_start`.
pub open spec fn spec_read(s: Seq<u8>) -> Option<(Seq<char>, TagView, Seq<u8>)> {
    if s.len() < 1 {
        None
    } else {
        spec_read_start(s[0], s.skip(1))
    }
}

/// An optional root tag at the front of `s`: a kind byte 0 for none, else
/// as in `spec_read`.
pub open spec fn spec_read_option(s: Seq<u8>) -> Option<(Option<(Seq<char>, TagView)>, Seq<u8>)> {
    if s.len() < 1 {
        None
    } else if s[0] == 0 {
        Some((None, s.skip(1)))
    } else {
        match spec_read_start(s[0], s.skip(1)) {
            Some((name, v, r)) => Some((Some((name, v)), r)),
            None => None,
        }
    }
}

fn read_string<'n>(reader: &mut &'n [u8]) -> (res: Result<&'n str, ParseError>)
    ensures
        match spec_nbt_string(old(reader)@) {
            Some((x, r)) => (res matches Ok(t) && t@ == x && final(reader)@ == r),
            None => res is Err,
        },
{
    let ghost s = reader@;
    let size = read_u16_be(reader)?;
    let bytes = reader.read_mem(size as usize)?;
    proof {
        assert(bytes@ =~= s.subrange(2, 2 + size));
        assert(reader@ =~= s.skip(2 + size));
    }
    match str_from_utf8(bytes) {
        Some(t) => Ok(t),
        None => Err(ParseError::Invalid),
    }
}

fn read_int_items(reader: &mut &[u8], count: i32) -> (res: Result<Vec<i32>, ParseError>)
    ensures
        match spec_int_items(count as int, old(reader)@) {
            Some((vs, r)) => (res matches Ok(v) && v@ == vs && final(reader)@ == r && r.len() <= old(
                reader,
            )@.len()),
            None => res is Err,
        },
{
    let mut values: Vec<i32> = Vec::new();
    let mut i: i32 = 0;
    while i < count
        invariant
            0 <= i,
            count > 0 ==> i <= count,
            reader@.len() <= old(reader)@.len(),
            spec_int_items(count as int, old(reader)@) == match spec_int_items(count - i, reader@) {
                Some((vs, r)) => Some((values@ + vs, r)),
                None => None,
            },
        decreases count - i,
    {
        let ghost before = values@;
        let x = read_i32_be(reader)?;
        values.push(x);
        i = i + 1;
        proof {
            match spec_int_items(count - i, reader@) {
                Some((vs, r)) => {
                    assert(before + (seq![x] + vs) =~= values@ + vs);
                },
                None => {},
            }
        }
    }
    assert(values@ + Seq::<i32>::empty() =~= values@);
    Ok(values)
}

fn read_long_items(reader: &mut &[u8], count: i32) -> (res: Result<Vec<i64>, ParseError>)
    ensures
        match spec_long_items(count as int, old(reader)@) {
            Some((vs, r)) => (res matches Ok(v) && v@ == vs && final(reader)@ == r && r.len() <= old(
                reader,
            )@.len()),
            None => res is Err,
        },
{
    let mut values: Vec<i64> = Vec::new();
    let mut i: i32 = 0;
    while i < count
        invariant
            0 <= i,
            count > 0 ==> i <= count,
            reader@.len() <= old(reader)@.len(),
            spec_long_items(count as int, old(reader)@) == match spec_long_items(count - i, reader@) {
                Some((vs, r)) => Some((values@ + vs, r)),
                None => None,
            },
        decreases count - i,
    {
        let ghost before = values@;
        let x = take_be_u64(reader)?;
        values.push(x as i64);
        i = i + 1;
        proof {
            match spec_long_items(count - i, reader@) {
                Some((vs, r)) => {
                    assert(before + (seq![x as i64] + vs) =~= values@ + vs);
                },
                None => {},
            }
        }
    }
    assert(values@ + Seq::<i64>::empty() =~= values@);
    Ok(values)
}

/// Reads a tag of kind `tag` (its payload, without kind or name) from the
/// front of `reader`.
pub fn read_impl<'n>(reader: &mut &'n [u8], tag: u8) -> (res: Result<Tag<'n>, ParseError>)
    ensures
        match spec_tag(tag, old(reader)@) {
            Some((v, r)) => (res matches Ok(t) && tag_view(t) == v && final(reader)@ == r && r.len()
                <= old(reader)@.len()),
            None => res is Err,
        },
        tag == 0 || tag > 12 ==> (res == Err::<Tag<'n>, ParseError>(ParseError::UnknownTag(tag)) && final(reader)@
            == old(reader)@),
    decreases old(reader)@.len(),
{
    let ghost s = reader@;
    if tag == 1 {
        let x = read_u8(reader)?;
        Ok(Tag::Byte(x as i8))
    } else if tag == 2 {
        let x = read_u16_be(reader)?;
        Ok(Tag::Short(x as i16))
    } else if tag == 3 {
        let x = read_i32_be(reader)?;
        Ok(Tag::Int(x))
    } else if tag == 4 {
        let x = take_be_u64(reader)?;
        Ok(Tag::Long(x as i64))
    } else if tag == 5 {
        let x = take_be_u32(reader)?;
        Ok(Tag::Float(x))
    } else if tag == 6 {
        let x = take_be_u64(reader)?;
        Ok(Tag::Double(x))
    } else if tag == 7 {
        let size = read_i32_be(reader)?;
        if size < 0 {
            return Err(ParseError::Invalid);
        }
        let bytes = reader.read_mem(size as usize)?;
        proof {
            assert(bytes@ =~= s.subrange(4, 4 + size));
            assert(reader@ =~= s.skip(4 + size));
        }
        Ok(Tag::ByteArray(bytes))
    } else if tag == 8 {
        let x = read_string(reader)?;
        Ok(Tag::String(x))
    } else if tag == 9 {
        let kind = read_u8(reader)?;
        let size = read_i32_be(reader)?;
        let ghost body = reader@;
        assert(body =~= s.skip(5));
        assert(s.skip(1)[0] == s[1]);
        if size < 0 {
            return Err(ParseError::Invalid);
        }
        let mut values: Vec<Tag<'n>> = Vec::new();
        let mut i: i32 = 0;
        while i < size
            invariant
                tag == 9,
                s == old(reader)@,
                s.len() >= 5,
                kind == s[0],
                size == be_i32(s.skip(1)),
                body == s.skip(5),
                0 <= i <= size,
                reader@.len() <= body.len(),
                body.len() < s.len(),
                spec_list_items(kind, size as int, body) == match spec_list_items(kind, size - i, reader@) {
                    Some((vs, r)) => Some((tags_view(values@) + vs, r)),
                    None => None,
                },
            decreases size - i,
        {
            let ghost before = values@;
            let t = read_impl(reader, kind)?;
            values.push(t);
            i = i + 1;
            proof {
                assert(values@.drop_last() =~= before);
                match spec_list_items(kind, size - i, reader@) {
                    Some((vs, r)) => {
                        assert(tags_view(before) + (seq![tag_view(t)] + vs) =~= tags_view(values@) + vs);
                    },
                    None => {},
                }
            }
        }
        assert(tags_view(values@) + Seq::<TagView>::empty() =~= tags_view(values@));
        Ok(Tag::List(values))
    } else if tag == 10 {
        let mut entries: Vec<(&'n str, Tag<'n>)> = Vec::new();
        loop
            invariant_except_break
                spec_compound_entries(s) == match spec_compound_entries(reader@) {
                    Some((es, r)) => Some((entries_view(entries@) + es, r)),
                    None => None,
                },
            invariant
                tag == 10,
                s == old(reader)@,
                reader@.len() <= s.len(),
            ensures
                spec_compound_entries(s) == Some((entries_view(entries@), reader@)),
            decreases reader@.len(),
        {
            let ghost before = entries@;
            let ghost at = reader@;
            let kind = read_u8(reader)?;
            if kind == 0 {
                assert(entries_view(entries@) + Seq::<(Seq<char>, TagView)>::empty() =~= entries_view(entries@));
                break ;
            }
            let name = read_string(reader)?;
            let t = read_impl(reader, kind)?;
            entries.push((name, t));
            proof {
                assert(entries@.drop_last() =~= before);
                match spec_compound_entries(reader@) {
                    Some((es, r)) => {
                        assert(entries_view(before) + (seq![(name@, tag_view(t))] + es) =~= entries_view(entries@) + es);
                    },
                    None => {},
                }
            }
        }
        Ok(Tag::Compound(entries))
    } else if tag == 11 {
        let size = read_i32_be(reader)?;
        if size < 0 {
            return Err(ParseError::Invalid);
        }
        let values = read_int_items(reader, size)?;
        Ok(Tag::IntArray(values))
    } else if tag == 12 {
        let size = read_i32_be(reader)?;
        if size < 0 {
            return Err(ParseError::Invalid);
        }
        let values = read_long_items(reader, size)?;
        Ok(Tag::LongArray(values))
    } else {
        Err(ParseError::UnknownTag(tag))
    }
}

fn read_start<'n>(reader: &mut &'n [u8], tag: u8) -> (res: Result<RootTag<'n>, ParseError>)
    ensures
        match spec_read_start(tag, old(reader)@) {
            Some((name, v, r)) => (res matches Ok(t) && t.name@ == name && tag_view(t.tag) == v
                && final(reader)@ == r),
            None => res is Err,
        },
        tag != 10 ==> res == Err::<RootTag<'n>, ParseError>(ParseError::NotCompoundRoot(tag)),
{
    if tag != 10 {
        return Err(ParseError::NotCompoundRoot(tag));
    }
    let name = read_string(reader)?;
    let tag = read_impl(reader, tag)?;
    Ok(RootTag { name, tag })
}

/// Reads an optional root tag from the front of `reader`: `None` when its
/// kind byte is zero.
pub fn read_option<'n>(reader: &mut &'n [u8]) -> (res: Result<Option<RootTag<'n>>, ParseError>)
    ensures
        match spec_read_option(old(reader)@) {
            Some((None, r)) => (res matches Ok(None) && final(reader)@ == r),
            Some((Some((name, v)), r)) => (res matches Ok(Some(t)) && t.name@ == name && tag_view(
                t.tag,
            ) == v && final(reader)@ == r),
            None => res is Err,
        },
        old(reader)@.len() >= 1 && old(reader)@[0] != 0 && old(reader)@[0] != 10 ==> res == Err::<
            Option<RootTag<'n>>,
            ParseError,
        >(ParseError::NotCompoundRoot(old(reader)@[0])),
{
    let tag = read_u8(reader)?;
    if tag == 0 {
        Ok(None)
    } else {
        let t = read_start(reader, tag)?;
        Ok(Some(t))
    }
}

/// Reads a root tag from the front of `reader`.
pub fn read<'n>(reader: &mut &'n [u8]) -> (res: Result<RootTag<'n>, ParseError>)
    ensures
        match spec_read(old(reader)@) {
            Some((name, v, r)) => (res matches Ok(t) && t.name@ == name && tag_view(t.tag) == v
                && final(reader)@ == r),
            None => res is Err,
        },
        old(reader)@.len() == 0 ==> res == Err::<RootTag<'n>, ParseError>(ParseError::Invalid),
        old(reader)@.len() >= 1 && old(reader)@[0] != 10 ==> res == Err::<RootTag<'n>, ParseError>(
            ParseError::NotCompoundRoot(old(reader)@[0]),
        ),
{
    let tag = read_u8(reader)?;
    read_start(reader, tag)
}

/// The views of the first `n` tags are the first `n` views.
pub proof fn lemma_tags_view_take<'n>(ts: Seq<Tag<'n>>, n: int)
    requires
        0 <= n <= ts.len(),
    ensures
        tags_view(ts.take(n)) == tags_view(ts).take(n),
        tags_view(ts).len() == ts.len(),
    decreases ts.len(),
{
    if ts.len() == 0 {
        assert(ts.take(n) =~= ts);
        assert(tags_view(ts).take(n) =~= tags_view(ts));
    } else {
        lemma_tags_view_take(ts.drop_last(), if n < ts.len() { n } else { 0 });
        if n == ts.len() {
            assert(ts.take(n) =~= ts);
            assert(tags_view(ts).take(n) =~= tags_view(ts));
        } else {
            assert(ts.take(n) =~= ts.drop_last().take(n));
            assert(tags_view(ts).take(n) =~= tags_view(ts.drop_last()).take(n));
        }
    }
}

/// The name of the kind of a tag.
pub open spec fn kind_name(v: TagView) -> Seq<char> {
    match v {
        TagView::Byte(_) => "byte"@,
        TagView::Short(_) => "short"@,
        TagView::Int(_) => "int"@,
        TagView::Long(_) => "long"@,
        TagView::Float(_) => "float"@,
        TagView::Double(_) => "double"@,
        TagView::ByteArray(_) => "byte_array"@,
        TagView::String(_) => "string"@,
        TagView::List(_) => "list"@,
        TagView::Compound(_) => "compound"@,
        TagView::IntArray(_) => "int_array"@,
        TagView::LongArray(_) => "long_array"@,
    }
}

impl<'n> Tag<'n> {
    /// The name of this tag's kind.
    pub fn tag_name(&self) -> (res: &'static str)
        ensures
            res@ == kind_name(tag_view(*self)),
    {
        match self {
            Tag::Byte(_) => "byte",
            Tag::Short(_) => "short",
            Tag::Int(_) => "int",
            Tag::Long(_) => "long",
            Tag::Float(_) => "float",
            Tag::Double(_) => "double",
            Tag::ByteArray(_) => "byte_array",
            Tag::String(_) => "string",
            Tag::List(_) => "list",
            Tag::Compound(_) => "compound",
            Tag::IntArray(_) => "int_array",
            Tag::LongArray(_) => "long_array",
        }
    }

    /// The named tags of a compound; any other tag is an error.
    pub fn compound(self) -> (res: Result<Vec<(&'n str, Tag<'n>)>, ParseError>)
        ensures
            match self {
                Tag::Compound(v) => res == Ok::<Vec<(&'n str, Tag<'n>)>, ParseError>(v),
                _ => res is Err,
            },
    {
        match self {
            Tag::Compound(v) => Ok(v),
            _ => Err(ParseError::Invalid),
        }
    }

    /// The tags of a list; any other tag is an error.
    pub fn list(self) -> (res: Result<Vec<Tag<'n>>, ParseError>)
        ensures
            match self {
                Tag::List(v) => res == Ok::<Vec<Tag<'n>>, ParseError>(v),
                _ => res is Err,
            },
    {
        match self {
            Tag::List(v) => Ok(v),
            _ => Err(ParseError::Invalid),
        }
    }

    /// The text of a string tag; any other tag is an error.
    pub fn string(self) -> (res: Result<&'n str, ParseError>)
        ensures
            match self {
                Tag::String(x) => res == Ok::<&'n str, ParseError>(x),
                _ => res is Err,
            },
    {
        match self {
            Tag::String(x) => Ok(x),
            _ => Err(ParseError::Invalid),
        }
    }

    /// The value of a byte tag; any other tag is an error.
    pub fn byte(self) -> (res: Result<i8, ParseError>)
        ensures
            match self {
                Tag::Byte(x) => res == Ok::<i8, ParseError>(x),
                _ => res is Err,
            },
    {
        match self {
            Tag::Byte(x) => Ok(x),
            _ => Err(ParseError::Invalid),
        }
    }

    /// The value of a short tag; any other tag is an error.
    pub fn short(self) -> (res: Result<i16, ParseError>)
        ensures
            match self {
                Tag::Short(x) => res == Ok::<i16, ParseError>(x),
                _ => res is Err,
            },
    {
        match self {
            Tag::Short(x) => Ok(x),
            _ => Err(ParseError::Invalid),
        }
    }

    /// The value of an int tag; any other tag is an error.
    pub fn int_value(self) -> (res: Result<i32, ParseError>)
        ensures
            match self {
                Tag::Int(x) => res == Ok::<i32, ParseError>(x),
                _ => res is Err,
            },
    {
        match self {
            Tag::Int(x) => Ok(x),
            _ => Err(ParseError::Invalid),
        }
    }
}

/// The tag of name `name` among the named tags of a compound: the last one
/// of that name, as a map from names to tags would keep it.
pub fn lookup<'a, 'n>(entries: &'a [(&'n str, Tag<'n>)], name: &str) -> (res: Option<&'a Tag<'n>>)
    ensures
        match entries_lookup(entries_view(entries@), name@) {
            Some(v) => (res matches Some(t) && tag_view(*t) == v),
            None => res is None,
        },
{
    let mut i: usize = entries.len();
    assert(entries@.take(i as int) =~= entries@);
    while i > 0
        invariant
            i <= entries@.len(),
            entries_lookup(entries_view(entries@), name@) == entries_lookup(
                entries_view(entries@.take(i as int)),
                name@,
            ),
        decreases i,
    {
        let ghost prefix = entries@.take(i as int);
        assert(prefix.drop_last() =~= entries@.take(i - 1));
        let ghost pv = entries_view(prefix);
        assert(pv == entries_view(prefix.drop_last()).push((prefix.last().0@, tag_view(prefix.last().1))));
        assert(pv.drop_last() =~= entries_view(prefix.drop_last()));
        if str_eq(entries[i - 1].0, name) {
            return Some(&entries[i - 1].1);
        }
        i = i - 1;
    }
    None
}

// ---------------------------------------------------------------------------
// Reading and skipping agree.

proof fn lemma_string_read_skip(s: Seq<u8>)
    ensures
        spec_nbt_string(s) matches Some((_, r)) ==> string_rest(s) == Some(r),
{
    if s.len() >= 2 && s.len() - 2 >= be_u16(s) {
        assert(s.skip(2).skip(be_u16(s) as int) =~= s.skip(2 + be_u16(s)));
    }
}

proof fn lemma_int_items_rest(count: int, t: Seq<u8>)
    ensures
        spec_int_items(count, t) matches Some((_, r)) ==> (count > 0 ==> 4 * count <= t.len() && r == t.skip(
            4 * count,
        )) && (count <= 0 ==> r == t),
    decreases count,
{
    if count > 0 && t.len() >= 4 {
        lemma_int_items_rest(count - 1, t.skip(4));
        if count - 1 > 0 && 4 * count <= t.len() {
            assert(t.skip(4).skip(4 * (count - 1)) =~= t.skip(4 * count));
        } else if count == 1 {
            assert(t.skip(4) =~= t.skip(4 * count));
        }
    }
}

proof fn lemma_long_items_rest(count: int, t: Seq<u8>)
    ensures
        spec_long_items(count, t) matches Some((_, r)) ==> (count > 0 ==> 8 * count <= t.len() && r == t.skip(
            8 * count,
        )) && (count <= 0 ==> r == t),
    decreases count,
{
    if count > 0 && t.len() >= 8 {
        lemma_long_items_rest(count - 1, t.skip(8));
        if count - 1 > 0 && 8 * count <= t.len() {
            assert(t.skip(8).skip(8 * (count - 1)) =~= t.skip(8 * count));
        } else if count == 1 {
            assert(t.skip(8) =~= t.skip(8 * count));
        }
    }
}

/// Skipping a tag of any kind stops exactly where reading it stops: whenever
/// a tag of kind `kind` is read from the front of `s`, skipping it succeeds
/// and leaves the same bytes.
pub proof fn lemma_tag_read_skip(kind: u8, s: Seq<u8>)
    ensures
        spec_tag(kind, s) matches Some((_, r)) ==> tag_rest(kind, s) == Some(r),
    decreases s.len(), 1nat, 0int,
{
    if kind == 7 {
        if s.len() >= 4 && be_i32(s) >= 0 && s.len() - 4 >= be_i32(s) {
            assert(s.skip(4).skip(be_i32(s) as int) =~= s.skip(4 + be_i32(s)));
        }
    } else if kind == 8 {
        lemma_string_read_skip(s);
    } else if kind == 9 {
        if s.len() >= 5 && be_i32(s.skip(1)) >= 0 {
            lemma_list_read_skip(s[0], be_i32(s.skip(1)) as int, s.skip(5));
        }
    } else if kind == 10 {
        lemma_compound_read_skip(s);
    } else if kind == 11 {
        if s.len() >= 4 && be_i32(s) >= 0 {
            lemma_int_items_rest(be_i32(s) as int, s.skip(4));
        }
    } else if kind == 12 {
        if s.len() >= 4 && be_i32(s) >= 0 {
            lemma_long_items_rest(be_i32(s) as int, s.skip(4));
        }
    }
}

proof fn lemma_list_read_skip(kind: u8, count: int, s: Seq<u8>)
    ensures
        spec_list_items(kind, count, s) matches Some((_, r)) ==> list_rest(kind, count, s) == Some(r),
    decreases s.len(), 2nat, count,
{
    if count > 0 {
        lemma_tag_read_skip(kind, s);
        if let Some((_, r)) = spec_tag(kind, s) {
            if r.len() <= s.len() {
                lemma_list_read_skip(kind, count - 1, r);
            }
        }
    }
}

proof fn lemma_compound_read_skip(s: Seq<u8>)
    ensures
        spec_compound_entries(s) matches Some((_, r)) ==> compound_rest(s) == Some(r),
    decreases s.len(), 0nat, 0int,
{
    if s.len() >= 1 && s[0] != 0 {
        lemma_string_read_skip(s.skip(1));
        if let Some((_, s2)) = spec_nbt_string(s.skip(1)) {
            lemma_tag_read_skip(s[0], s2);
            if let Some((_, r)) = spec_tag(s[0], s2) {
                if r.len() <= s2.len() {
                    lemma_compound_read_skip(r);
                }
            }
        }
    }
}

/// Skipping a root tag stops exactly where reading it stops: whenever `read`
/// reads a tag, `skip` succeeds and leaves the same bytes (and likewise for
/// the optional forms).
pub proof fn lemma_read_skip_agree(s: Seq<u8>)
    ensures
        spec_read(s) matches Some((_, _, r)) ==> spec_skip(s) == Some(r),
        spec_read_option(s) matches Some((t, r)) ==> spec_skip_option(s) == Some((t is Some, r)),
{
    if s.len() >= 1 && s[0] == 10 {
        lemma_string_read_skip(s.skip(1));
        if let Some((_, s2)) = spec_nbt_string(s.skip(1)) {
            lemma_tag_read_skip(10, s2);
        }
    }
}

} // verus!
