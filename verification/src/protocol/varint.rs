//! Variable-length integers of the Minecraft protocol: seven data bits per
//! byte, least significant group first, the high bit of a byte set when
//! another byte follows. A varint takes at most 5 bytes, a varlong at most 10.
use crate::bytes::ParseError;
use vstd::prelude::*;

verus! {

/// Index one past the first byte of `s`, at or after `i` and before `max`,
/// whose high bit is clear: the length of the group that ends there.
pub open spec fn terminator_from(s: Seq<u8>, i: nat, max: nat) -> Option<nat>
    decreases max - i,
{
    if i >= max || i >= s.len() {
        None
    } else if s[i as int] < 0x80 {
        Some(i + 1)
    } else {
        terminator_from(s, i + 1, max)
    }
}

/// The low seven bits of the first `n` bytes of `s`, each group shifted
/// left by seven bits per position, truncated to 32 bits.
pub open spec fn group_value32(s: Seq<u8>, n: nat) -> u32
    decreases n,
{
    if n == 0 {
        0
    } else {
        group_value32(s, (n - 1) as nat) | (((s[n - 1] & 0x7f) as u32) << ((7 * (n - 1)) as u32))
    }
}

/// Same as `group_value32`, truncated to 64 bits.
pub open spec fn group_value64(s: Seq<u8>, n: nat) -> u64
    decreases n,
{
    if n == 0 {
        0
    } else {
        group_value64(s, (n - 1) as nat) | (((s[n - 1] & 0x7f) as u64) << ((7 * (n - 1)) as u64))
    }
}

/// What a varint at the front of `s` decodes to: its value and its length
/// in bytes, or `None` when no byte among the first five ends it.
pub open spec fn spec_varint(s: Seq<u8>) -> Option<(i32, nat)> {
    match terminator_from(s, 0, 5) {
        Some(n) => Some((group_value32(s, n) as i32, n)),
        None => None,
    }
}

/// What a varlong at the front of `s` decodes to, or `None` when no byte
/// among the first ten ends it.
pub open spec fn spec_varlong(s: Seq<u8>) -> Option<(i64, nat)> {
    match terminator_from(s, 0, 10) {
        Some(n) => Some((group_value64(s, n) as i64, n)),
        None => None,
    }
}

/// The bytes that encode `v` as a varint.
pub open spec fn varint_bytes(v: u32) -> Seq<u8>
    decreases v,
{
    let lo = (v & 0x7f) as u8;
    let hi = v >> 7;
    if hi == 0 {
        seq![lo]
    } else {
        proof {
            assert(v >> 7 != 0 ==> v >> 7 < v) by (bit_vector);
        }
        seq![lo | 0x80] + varint_bytes(hi)
    }
}

/// The bytes that encode `v` as a varlong.
pub open spec fn varlong_bytes(v: u64) -> Seq<u8>
    decreases v,
{
    let lo = (v & 0x7f) as u8;
    let hi = v >> 7;
    if hi == 0 {
        seq![lo]
    } else {
        proof {
            assert(v >> 7 != 0 ==> v >> 7 < v) by (bit_vector);
        }
        seq![lo | 0x80] + varlong_bytes(hi)
    }
}

proof fn lemma_terminator_prefix(s: Seq<u8>, t: Seq<u8>, i: nat, max: nat, n: nat)
    requires
        terminator_from(s, i, max) == Some(n),
        n <= t.len(),
        t.subrange(0, n as int) == s.subrange(0, n as int),
    ensures
        terminator_from(t, i, max) == Some(n),
    decreases max - i,
{
    lemma_terminator_bound(s, i, max);
    assert(t[i as int] == t.subrange(0, n as int)[i as int]);
    assert(s[i as int] == s.subrange(0, n as int)[i as int]);
    if s[i as int] >= 0x80 {
        lemma_terminator_prefix(s, t, i + 1, max, n);
    }
}

proof fn lemma_group32_prefix(s: Seq<u8>, t: Seq<u8>, n: nat, m: nat)
    requires
        n <= m,
        m <= s.len(),
        m <= t.len(),
        t.subrange(0, m as int) == s.subrange(0, m as int),
    ensures
        group_value32(t, n) == group_value32(s, n),
    decreases n,
{
    if n > 0 {
        assert(t[n - 1] == t.subrange(0, m as int)[n - 1]);
        assert(s[n - 1] == s.subrange(0, m as int)[n - 1]);
        lemma_group32_prefix(s, t, (n - 1) as nat, m);
    }
}

proof fn lemma_group64_prefix(s: Seq<u8>, t: Seq<u8>, n: nat, m: nat)
    requires
        n <= m,
        m <= s.len(),
        m <= t.len(),
        t.subrange(0, m as int) == s.subrange(0, m as int),
    ensures
        group_value64(t, n) == group_value64(s, n),
    decreases n,
{
    if n > 0 {
        assert(t[n - 1] == t.subrange(0, m as int)[n - 1]);
        assert(s[n - 1] == s.subrange(0, m as int)[n - 1]);
        lemma_group64_prefix(s, t, (n - 1) as nat, m);
    }
}

/// A varint decodes only from the bytes it spans: bytes after it do not
/// change what it decodes to.
pub proof fn lemma_varint_prefix(s: Seq<u8>, rest: Seq<u8>)
    requires
        spec_varint(s) is Some,
    ensures
        spec_varint(s + rest) == spec_varint(s),
{
    let n = terminator_from(s, 0, 5)->0;
    lemma_terminator_bound(s, 0, 5);
    assert((s + rest).subrange(0, n as int) =~= s.subrange(0, n as int));
    lemma_terminator_prefix(s, s + rest, 0, 5, n);
    lemma_group32_prefix(s, s + rest, n, n);
}

proof fn lemma_terminator_bound(s: Seq<u8>, i: nat, max: nat)
    ensures
        terminator_from(s, i, max) matches Some(n) ==> i < n <= max && n <= s.len() && s[n - 1]
            < 0x80,
    decreases max - i,
{
    if !(i >= max || i >= s.len()) && s[i as int] >= 0x80 {
        lemma_terminator_bound(s, i + 1, max);
    }
}

proof fn lemma_varint_bytes_shape(v: u32)
    ensures
        1 <= varint_bytes(v).len() <= 5,
        terminator_from(varint_bytes(v), 0, 5) == Some(varint_bytes(v).len()),
        group_value32(varint_bytes(v), varint_bytes(v).len()) == v,
{
    reveal_with_fuel(terminator_from, 6);
    reveal_with_fuel(group_value32, 6);
    let v1 = v >> 7;
    let v2 = v1 >> 7;
    let v3 = v2 >> 7;
    let v4 = v3 >> 7;
    let t0 = (v & 0x7f) as u8;
    let t1 = (v1 & 0x7f) as u8;
    let t2 = (v2 & 0x7f) as u8;
    let t3 = (v3 & 0x7f) as u8;
    let t4 = (v4 & 0x7f) as u8;
    assert(v4 >> 7 == 0) by (bit_vector)
        requires
            v1 == v >> 7,
            v2 == v1 >> 7,
            v3 == v2 >> 7,
            v4 == v3 >> 7,
    ;
    assert(t0 < 0x80 && t1 < 0x80 && t2 < 0x80 && t3 < 0x80 && t4 < 0x80
        && (t0 | 0x80) >= 0x80 && (t1 | 0x80) >= 0x80 && (t2 | 0x80) >= 0x80 && (t3 | 0x80) >= 0x80
        && (t0 | 0x80) & 0x7f == t0 && (t1 | 0x80) & 0x7f == t1 && (t2 | 0x80) & 0x7f == t2
        && (t3 | 0x80) & 0x7f == t3 && t0 & 0x7f == t0 && t1 & 0x7f == t1 && t2 & 0x7f == t2
        && t3 & 0x7f == t3 && t4 & 0x7f == t4) by (bit_vector)
        requires
            t0 == (v & 0x7f) as u8,
            t1 == (v1 & 0x7f) as u8,
            t2 == (v2 & 0x7f) as u8,
            t3 == (v3 & 0x7f) as u8,
            t4 == (v4 & 0x7f) as u8,
    ;
    assert(v4 >> 7 == 0);
    assert(varint_bytes(v4) == seq![t4]);
    if v1 == 0 {
        assert(varint_bytes(v) =~= seq![t0]);
        assert((0u32 | (t0 as u32) << 0u32) == v) by (bit_vector)
            requires
                t0 == (v & 0x7f) as u8,
                v >> 7 == 0,
        ;
    } else if v2 == 0 {
        assert(varint_bytes(v1) == seq![t1]);
        assert(varint_bytes(v) =~= seq![t0 | 0x80, t1]);
        assert((0u32 | (t0 as u32) << 0u32) | (t1 as u32) << 7u32 == v) by (bit_vector)
            requires
                t0 == (v & 0x7f) as u8,
                t1 == ((v >> 7) & 0x7f) as u8,
                v >> 7 >> 7 == 0,
        ;
    } else if v3 == 0 {
        assert(varint_bytes(v2) == seq![t2]);
        assert(varint_bytes(v1) =~= seq![t1 | 0x80, t2]);
        assert(varint_bytes(v) =~= seq![t0 | 0x80, t1 | 0x80, t2]);
        assert(((0u32 | (t0 as u32) << 0u32) | (t1 as u32) << 7u32) | (t2 as u32) << 14u32 == v)
            by (bit_vector)
            requires
                t0 == (v & 0x7f) as u8,
                t1 == ((v >> 7) & 0x7f) as u8,
                t2 == ((v >> 7 >> 7) & 0x7f) as u8,
                v >> 7 >> 7 >> 7 == 0,
        ;
    } else if v4 == 0 {
        assert(varint_bytes(v3) == seq![t3]);
        assert(varint_bytes(v2) =~= seq![t2 | 0x80, t3]);
        assert(varint_bytes(v1) =~= seq![t1 | 0x80, t2 | 0x80, t3]);
        assert(varint_bytes(v) =~= seq![t0 | 0x80, t1 | 0x80, t2 | 0x80, t3]);
        assert((((0u32 | (t0 as u32) << 0u32) | (t1 as u32) << 7u32) | (t2 as u32) << 14u32) | (
        t3 as u32) << 21u32 == v) by (bit_vector)
            requires
                t0 == (v & 0x7f) as u8,
                t1 == ((v >> 7) & 0x7f) as u8,
                t2 == ((v >> 7 >> 7) & 0x7f) as u8,
                t3 == ((v >> 7 >> 7 >> 7) & 0x7f) as u8,
                v >> 7 >> 7 >> 7 >> 7 == 0,
        ;
    } else {
        assert(varint_bytes(v3) =~= seq![t3 | 0x80, t4]);
        assert(varint_bytes(v2) =~= seq![t2 | 0x80, t3 | 0x80, t4]);
        assert(varint_bytes(v1) =~= seq![t1 | 0x80, t2 | 0x80, t3 | 0x80, t4]);
        assert(varint_bytes(v) =~= seq![t0 | 0x80, t1 | 0x80, t2 | 0x80, t3 | 0x80, t4]);
        assert(((((0u32 | (t0 as u32) << 0u32) | (t1 as u32) << 7u32) | (t2 as u32) << 14u32) | (
        t3 as u32) << 21u32) | (t4 as u32) << 28u32 == v) by (bit_vector)
            requires
                t0 == (v & 0x7f) as u8,
                t1 == ((v >> 7) & 0x7f) as u8,
                t2 == ((v >> 7 >> 7) & 0x7f) as u8,
                t3 == ((v >> 7 >> 7 >> 7) & 0x7f) as u8,
                t4 == ((v >> 7 >> 7 >> 7 >> 7) & 0x7f) as u8,
        ;
    }
}

/// Reading back a written varint: the bytes that encode `v`, followed by
/// anything, decode to `v` (as the signed value with the same bits) and
/// span exactly those bytes.
pub proof fn lemma_varint_roundtrip(v: u32, rest: Seq<u8>)
    ensures
        spec_varint(varint_bytes(v) + rest) == Some((v as i32, varint_bytes(v).len())),
{
    lemma_varint_bytes_shape(v);
    lemma_varint_prefix(varint_bytes(v), rest);
}

/// A varint is at most five bytes long.
pub proof fn lemma_varint_len(s: Seq<u8>)
    ensures
        spec_varint(s) matches Some((_, n)) ==> 1 <= n <= 5 && n <= s.len(),
{
    lemma_terminator_bound(s, 0, 5);
}

/// A varlong is at most ten bytes long.
pub proof fn lemma_varlong_len(s: Seq<u8>)
    ensures
        spec_varlong(s) matches Some((_, n)) ==> 1 <= n <= 10 && n <= s.len(),
{
    lemma_terminator_bound(s, 0, 10);
}

proof fn lemma_terminator_shift(s: Seq<u8>, i: nat, max: nat)
    requires
        s.len() >= 1,
    ensures
        terminator_from(s, i + 1, max + 1) == match terminator_from(s.drop_first(), i, max) {
            Some(n) => Some(n + 1),
            None => None::<nat>,
        },
    decreases max - i,
{
    if !(i >= max || i >= s.drop_first().len()) {
        assert(s.drop_first()[i as int] == s[(i + 1) as int]);
        if s[(i + 1) as int] >= 0x80 {
            lemma_terminator_shift(s, i + 1, max);
        }
    }
}

proof fn lemma_group64_drop_first(s: Seq<u8>, n: nat)
    requires
        1 <= n <= 10,
        n <= s.len(),
    ensures
        group_value64(s, n) == ((s[0] & 0x7f) as u64) | (group_value64(s.drop_first(), (n - 1) as nat)
            << 7u64),
    decreases n,
{
    let t0 = (s[0] & 0x7f) as u64;
    if n == 1 {
        assert(group_value64(s.drop_first(), 0) == 0);
        assert((0u64 | t0 << 0u64) == t0 | (0u64 << 7u64)) by (bit_vector);
        assert(group_value64(s, 0) == 0);
        assert(group_value64(s, 1) == (0u64 | t0 << 0u64));
    } else {
        lemma_group64_drop_first(s, (n - 1) as nat);
        let a = group_value64(s.drop_first(), (n - 2) as nat);
        let t = (s[n - 1] & 0x7f) as u64;
        assert(s.drop_first()[n - 2] == s[n - 1]);
        let k = (7 * (n - 2)) as u64;
        assert(k <= 56);
        assert((t0 | (a << 7u64)) | (t << (k + 7) as u64) == t0 | ((a | (t << k)) << 7u64))
            by (bit_vector)
            requires
                k <= 56,
        ;
        assert((7 * (n - 1)) as u64 == (k + 7) as u64);
        assert(group_value64(s.drop_first(), (n - 1) as nat) == a | (t << k));
        assert(group_value64(s, n) == (t0 | (a << 7u64)) | (t << (k + 7) as u64));
    }
}

proof fn lemma_varlong_bytes_shape(v: u64, c: nat)
    requires
        1 <= c <= 10,
        c < 10 ==> v >> ((7 * c) as u64) == 0,
    ensures
        1 <= varlong_bytes(v).len() <= c,
        terminator_from(varlong_bytes(v), 0, c) == Some(varlong_bytes(v).len()),
        group_value64(varlong_bytes(v), varlong_bytes(v).len()) == v,
    decreases c,
{
    let lo = (v & 0x7f) as u8;
    let hi = v >> 7;
    let b = varlong_bytes(v);
    assert(lo < 0x80 && (lo | 0x80) >= 0x80 && (lo | 0x80) & 0x7f == lo && lo & 0x7f == lo)
        by (bit_vector)
        requires
            lo == (v & 0x7f) as u8,
    ;
    if hi == 0 {
        assert(b =~= seq![lo]);
        reveal_with_fuel(group_value64, 2);
        assert((0u64 | (lo as u64) << 0u64) == v) by (bit_vector)
            requires
                lo == (v & 0x7f) as u8,
                v >> 7 == 0,
        ;
    } else {
        assert(v >> 7 != 0 ==> v >> 7 < v) by (bit_vector);
        if c == 1 {
            assert(false);
        }
        let k = (7 * c) as u64;
        if c < 10 {
            assert((v >> 7) >> ((k - 7) as u64) == 0) by (bit_vector)
                requires
                    7 <= k <= 63,
                    v >> k == 0,
            ;
        } else {
            assert((v >> 7) >> 63u64 == 0) by (bit_vector);
        }
        assert((7 * (c - 1) as nat) as u64 == (k - 7) as u64);
        lemma_varlong_bytes_shape(hi, (c - 1) as nat);
        let tail = varlong_bytes(hi);
        assert(b =~= seq![lo | 0x80] + tail);
        assert(b.drop_first() =~= tail);
        lemma_terminator_shift(b, 0, (c - 1) as nat);
        lemma_group64_drop_first(b, b.len());
        assert((lo as u64) | (hi << 7u64) == v) by (bit_vector)
            requires
                lo == (v & 0x7f) as u8,
                hi == v >> 7,
        ;
    }
}

/// Reading back a written varlong: the bytes that encode `v`, followed by
/// anything, decode to `v` (as the signed value with the same bits) and
/// span exactly those bytes.
pub proof fn lemma_varlong_roundtrip(v: u64, rest: Seq<u8>)
    ensures
        spec_varlong(varlong_bytes(v) + rest) == Some((v as i64, varlong_bytes(v).len())),
{
    lemma_varlong_bytes_shape(v, 10);
    lemma_varlong_prefix(varlong_bytes(v), rest);
}

/// A varlong decodes only from the bytes it spans.
pub proof fn lemma_varlong_prefix(s: Seq<u8>, rest: Seq<u8>)
    requires
        spec_varlong(s) is Some,
    ensures
        spec_varlong(s + rest) == spec_varlong(s),
{
    let n = terminator_from(s, 0, 10)->0;
    lemma_terminator_bound(s, 0, 10);
    assert((s + rest).subrange(0, n as int) =~= s.subrange(0, n as int));
    lemma_terminator_prefix(s, s + rest, 0, 10, n);
    lemma_group64_prefix(s, s + rest, n, n);
}

/// Reads a varint from the front of `reader`, returning its value and its
/// length in bytes, and advances `reader` past it.
pub fn read_varint_with_size(reader: &mut &[u8]) -> (res: Result<(i32, usize), ParseError>)
    ensures
        match spec_varint(old(reader)@) {
            Some((v, n)) => res == Ok::<(i32, usize), ParseError>((v, n as usize))
                && final(reader)@ == old(reader)@.skip(n as int),
            None => res is Err && final(reader)@ == old(reader)@,
        },
{
    let r: &[u8] = *reader;
    let mut result: u32 = 0;
    let mut i: usize = 0;
    proof {
        lemma_terminator_bound(r@, 0, 5);
    }
    loop
        invariant_except_break
            i < 5,
            result == group_value32(r@, i as nat),
            terminator_from(r@, 0, 5) == terminator_from(r@, i as nat, 5),
        invariant
            r@ == old(reader)@,
            *reader == r,
        ensures
            1 <= i <= 5,
            i <= r@.len(),
            result == group_value32(r@, i as nat),
            terminator_from(r@, 0, 5) == Some(i as nat),
        decreases 5 - i,
    {
        if i >= r.len() {
            return Err(ParseError::Invalid);
        }
        let read = r[i];
        let value = read & 0x7f;
        result = result | ((value as u32) << (7 * i as u32));
        i = i + 1;
        if read < 0x80 {
            break ;
        }
        if i == 5 {
            return Err(ParseError::Invalid);
        }
    }
    *reader = vstd::slice::slice_subrange(r, i, r.len());
    Ok((result as i32, i))
}

/// Reads a varint from the front of `reader` and advances `reader` past it.
pub fn read_varint(reader: &mut &[u8]) -> (res: Result<i32, ParseError>)
    ensures
        match spec_varint(old(reader)@) {
            Some((v, n)) => res == Ok::<i32, ParseError>(v) && final(reader)@ == old(
                reader,
            )@.skip(n as int),
            None => res is Err && final(reader)@ == old(reader)@,
        },
{
    let (value, _) = read_varint_with_size(reader)?;
    Ok(value)
}

/// Reads a varlong from the front of `reader` and advances `reader` past it.
pub fn read_varlong(reader: &mut &[u8]) -> (res: Result<i64, ParseError>)
    ensures
        match spec_varlong(old(reader)@) {
            Some((v, n)) => res == Ok::<i64, ParseError>(v) && final(reader)@ == old(
                reader,
            )@.skip(n as int),
            None => res is Err && final(reader)@ == old(reader)@,
        },
{
    let r: &[u8] = *reader;
    let mut result: u64 = 0;
    let mut i: usize = 0;
    loop
        invariant_except_break
            i < 10,
            result == group_value64(r@, i as nat),
            terminator_from(r@, 0, 10) == terminator_from(r@, i as nat, 10),
        invariant
            r@ == old(reader)@,
            *reader == r,
        ensures
            1 <= i <= 10,
            i <= r@.len(),
            result == group_value64(r@, i as nat),
            terminator_from(r@, 0, 10) == Some(i as nat),
        decreases 10 - i,
    {
        if i >= r.len() {
            return Err(ParseError::Invalid);
        }
        let read = r[i];
        let value = read & 0x7f;
        result = result | ((value as u64) << (7 * i as u64));
        i = i + 1;
        if read < 0x80 {
            break ;
        }
        if i == 10 {
            return Err(ParseError::Invalid);
        }
    }
    *reader = vstd::slice::slice_subrange(r, i, r.len());
    Ok(result as i64)
}

/// Appends the varint encoding of `value` to `writer` and returns the
/// number of bytes written.
pub fn write_varint_with_size(writer: &mut Vec<u8>, value: u32) -> (count: u32)
    ensures
        final(writer)@ == old(writer)@ + varint_bytes(value),
        count == varint_bytes(value).len(),
{
    let mut value = value;
    let mut count: u32 = 0;
    let ghost start = old(writer)@;
    let ghost orig = value;
    proof {
        lemma_varint_bytes_shape(orig);
    }
    loop
        invariant_except_break
            writer@ + varint_bytes(value) == start + varint_bytes(orig),
            count + varint_bytes(value).len() == varint_bytes(orig).len(),
        invariant
            varint_bytes(orig).len() <= 5,
        ensures
            writer@ == start + varint_bytes(orig),
            count == varint_bytes(orig).len(),
        decreases value,
    {
        let mut temp = (value & 0x7f) as u8;
        assert(value & 0x7f < 0x80) by (bit_vector);
        let ghost prev = value;
        value = value >> 7;
        proof {
            assert(prev >> 7 != 0 ==> prev >> 7 < prev) by (bit_vector);
        }
        if value != 0 {
            temp = temp | 0x80;
        }
        writer.push(temp);
        count = count + 1;
        assert(varint_bytes(prev) == seq![temp] + if value == 0 {
            Seq::<u8>::empty()
        } else {
            varint_bytes(value)
        });
        if value == 0 {
            assert(writer@ =~= start + varint_bytes(orig));
            break ;
        }
        assert(writer@ + varint_bytes(value) =~= start + varint_bytes(orig));
    }
    count
}

/// Appends the varint encoding of `value` to `writer`.
pub fn write_varint(writer: &mut Vec<u8>, value: u32)
    ensures
        final(writer)@ == old(writer)@ + varint_bytes(value),
{
    write_varint_with_size(writer, value);
}

/// Appends the varlong encoding of `value` to `writer`.
pub fn write_varlong(writer: &mut Vec<u8>, value: u64)
    ensures
        final(writer)@ == old(writer)@ + varlong_bytes(value),
{
    let mut value = value;
    let ghost start = old(writer)@;
    let ghost orig = value;
    loop
        invariant_except_break
            writer@ + varlong_bytes(value) == start + varlong_bytes(orig),
        ensures
            writer@ == start + varlong_bytes(orig),
        decreases value,
    {
        let mut temp = (value & 0x7f) as u8;
        assert(value & 0x7f < 0x80) by (bit_vector);
        let ghost prev = value;
        value = value >> 7;
        proof {
            assert(prev >> 7 != 0 ==> prev >> 7 < prev) by (bit_vector);
        }
        if value != 0 {
            temp = temp | 0x80;
        }
        writer.push(temp);
        assert(varlong_bytes(prev) == seq![temp] + if value == 0 {
            Seq::<u8>::empty()
        } else {
            varlong_bytes(value)
        });
        if value == 0 {
            assert(writer@ =~= start + varlong_bytes(orig));
            break ;
        }
        assert(writer@ + varlong_bytes(value) =~= start + varlong_bytes(orig));
    }
}

} // verus!
