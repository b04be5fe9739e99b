//! Packets as a recording stores them on disk: the size of what follows as a
//! big-endian `u32`, the packet id as a big-endian `u32`, the direction as
//! one byte, then the packet's data.
use crate::bytes::{push_slice, MemoryExt, ParseError};
use crate::protocol::de::{
    be_u32, lemma_be_u32_roundtrip, take_be_u32, u32_be_bytes, put_be_u32, read_u8, MD,
};
use crate::protocol::PacketDirection;
use vstd::prelude::*;

verus! {

/// A packet of a recording.
pub struct DiskPacket<'p> {
    pub id: u32,
    pub direction: PacketDirection,
    pub data: &'p [u8],
}

/// The byte that stands for a direction.
pub open spec fn direction_byte(direction: PacketDirection) -> u8 {
    match direction {
        PacketDirection::C2S => 0,
        PacketDirection::S2C => 1,
    }
}

/// The direction that a byte stands for, if any.
pub open spec fn byte_direction(b: u8) -> Option<PacketDirection> {
    if b == 0 {
        Some(PacketDirection::C2S)
    } else if b == 1 {
        Some(PacketDirection::S2C)
    } else {
        None
    }
}

/// The bytes stored for a packet with id `id`, direction `direction` and
/// data `data`.
pub open spec fn disk_packet_bytes(id: u32, direction: PacketDirection, data: Seq<u8>) -> Seq<u8> {
    u32_be_bytes((5 + data.len()) as u32) + u32_be_bytes(id) + seq![direction_byte(direction)] + data
}

/// The packet stored at the front of `s` (its id, direction and data), with
/// the bytes after it; `None` when `s` is too short, the direction byte is
/// neither 0 nor 1, or the size is below 5.
pub open spec fn spec_disk_packet(s: Seq<u8>) -> Option<(u32, PacketDirection, Seq<u8>, Seq<u8>)> {
    if s.len() < 9 {
        None
    } else {
        let size = be_u32(s);
        let id = be_u32(s.skip(4));
        match byte_direction(s[8]) {
            Some(direction) => if size < 5 || s.len() - 9 < size - 5 {
                None
            } else {
                Some((id, direction, s.subrange(9, 4 + size), s.skip(4 + size)))
            },
            None => None,
        }
    }
}

/// Whether `buf` begins with a whole stored packet: a size, and at least
/// that many bytes after it.
pub open spec fn spec_disk_has_enough_bytes(buf: Seq<u8>) -> bool {
    buf.len() >= 4 && be_u32(buf) + 4 <= buf.len()
}

impl<'p> DiskPacket<'p> {
    /// Appends the stored form of this packet to `writer`.
    pub fn write(&self, writer: &mut Vec<u8>)
        requires
            self.data@.len() + 5 <= u32::MAX,
        ensures
            final(writer)@ == old(writer)@ + disk_packet_bytes(self.id, self.direction, self.data@),
    {
        let size: u32 = 4 + 1 + self.data.len() as u32;
        put_be_u32(writer, size);
        put_be_u32(writer, self.id);
        writer.push(self.direction.as_u8());
        push_slice(writer, self.data);
        assert(writer@ =~= old(writer)@ + disk_packet_bytes(self.id, self.direction, self.data@));
    }

    /// Reads the stored packet at the front of `reader` and advances `reader`
    /// past it.
    pub fn read(reader: &'p mut &[u8]) -> (res: Result<DiskPacket<'p>, ParseError>)
        ensures
            match spec_disk_packet(old(reader)@) {
                Some((id, direction, data, rest)) => (res matches Ok(p) && p.id == id && p.direction
                    == direction && p.data@ == data && final(reader)@ == rest),
                None => res is Err,
            },
    {
        let ghost s = reader@;
        let size: u32 = take_be_u32(reader)?;
        let id: u32 = take_be_u32(reader)?;
        let direction: u8 = read_u8(reader)?;
        let direction = PacketDirection::try_from_u8(direction)?;
        if size < 5 {
            return Err(ParseError::Invalid);
        }
        proof {
            assert(s.skip(4).skip(4) =~= s.skip(8));
            assert(s.skip(4)[0] == s[4] && s.skip(4)[3] == s[7]);
            assert(be_u32(s.skip(4)) == be_u32(s.skip(4)));
            assert(s.skip(8)[0] == s[8]);
        }
        let data = reader.read_mem((size - 5) as usize)?;
        proof {
            assert(data@ =~= s.subrange(9, 4 + size));
            assert(reader@ =~= s.skip(4 + size));
        }
        Ok(DiskPacket { id, direction, data })
    }

    /// Whether `buf` begins with a whole stored packet.
    pub fn has_enough_bytes(buf: &[u8]) -> (res: bool)
        ensures
            res == spec_disk_has_enough_bytes(buf@),
    {
        if buf.len() < 4 {
            return false;
        }
        let size = ((buf[0] as u32) << 24u32) | ((buf[1] as u32) << 16u32) | ((buf[2] as u32) << 8u32) | (buf[3] as u32);
        (size as u64) + 4 <= buf.len() as u64
    }
}

/// A stored packet reads back as it was written, and what followed it is
/// left: `read` undoes `write`.
pub proof fn lemma_disk_packet_roundtrip(id: u32, direction: PacketDirection, data: Seq<u8>, rest: Seq<u8>)
    requires
        data.len() + 5 <= u32::MAX,
    ensures
        spec_disk_packet(disk_packet_bytes(id, direction, data) + rest) == Some((id, direction, data, rest)),
        spec_disk_has_enough_bytes(disk_packet_bytes(id, direction, data) + rest),
{
    let size = (5 + data.len()) as u32;
    let s = disk_packet_bytes(id, direction, data) + rest;
    lemma_be_u32_roundtrip(size);
    lemma_be_u32_roundtrip(id);
    assert(s.subrange(0, 4) =~= u32_be_bytes(size));
    assert(be_u32(s) == be_u32(u32_be_bytes(size)));
    assert(s.skip(4).subrange(0, 4) =~= u32_be_bytes(id));
    assert(be_u32(s.skip(4)) == be_u32(u32_be_bytes(id)));
    assert(s[8] == direction_byte(direction));
    assert(s.subrange(9, 4 + size) =~= data);
    assert(s.skip(4 + size) =~= rest);
}

} // verus!
