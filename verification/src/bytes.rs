//! Reading from the front of a byte slice, and appending to a byte vector.
use crate::protocol::PacketDirection;
use vstd::prelude::*;

verus! {

/// The errors of the readers of this library, each with what its message
/// names.
#[derive(Debug, Clone, PartialEq, Eq)]
pub enum ParseError {
    /// The bytes end before the value does, or do not hold a value of the
    /// expected shape.
    Invalid,
    /// An NBT tag of an unknown kind.
    UnknownTag(u8),
    /// An NBT stream that starts with a tag of this kind, not a compound.
    NotCompoundRoot(u8),
    /// A key that a map does not hold.
    UnknownKey,
    /// An enchantment name that is not known.
    UnknownEnchantment(String),
    /// A packet id that the handshaking state does not know.
    UnknownHandshakingPacket(u32),
    /// A packet id that the status state does not know.
    UnknownStatusPacket(u32),
    /// A packet id that the login state does not know in that direction.
    UnknownLoginPacket(u32, PacketDirection),
    /// A packet id that the protocol does not know in that state and
    /// direction.
    UnknownPacket(u32),
    /// A kind of use-entity packet that is not known.
    UnknownUseEntityKind(i32),
    /// Two servers of the configuration with this name.
    DuplicatedServerName(String),
    /// Several servers and none of them the default.
    DefaultServerNotSet,
    /// An account of a type that is not known.
    UnknownAccountType(String),
    /// No account with this name.
    AccountNotFound(String),
    /// No server with this name.
    UnknownServer(String),
    /// A handshake that asks for a state other than status (1) or login (2).
    UnknownNextState(i32),
}

/// Appends the bytes of `bytes` to `out`.
pub fn push_slice(out: &mut Vec<u8>, bytes: &[u8])
    ensures
        final(out)@ == old(out)@ + bytes@,
{
    let ghost start = old(out)@;
    let mut i: usize = 0;
    while i < bytes.len()
        invariant
            i <= bytes@.len(),
            out@ == start + bytes@.take(i as int),
        decreases bytes@.len() - i,
    {
        out.push(bytes[i]);
        i = i + 1;
        assert(out@ =~= start + bytes@.take(i as int));
    }
    assert(bytes@.take(i as int) =~= bytes@);
}

/// Taking bytes from the front of a byte slice.
pub trait MemoryExt<'x> {
    /// Takes `size` bytes from the front, or fails when fewer are left.
    fn read_mem(&mut self, size: usize) -> Result<&'x [u8], ParseError>;
}

impl<'x> MemoryExt<'x> for &'x [u8] {
    fn read_mem(&mut self, size: usize) -> (res: Result<&'x [u8], ParseError>)
        ensures
            size <= old(self)@.len() ==> (res matches Ok(b) && b@ == old(self)@.take(size as int)
                && final(self)@ == old(self)@.skip(size as int)),
            size > old(self)@.len() ==> res is Err && final(self)@ == old(self)@,
    {
        let r: &'x [u8] = *self;
        if size > r.len() {
            return Err(ParseError::Invalid);
        }
        let b = vstd::slice::slice_subrange(r, 0, size);
        *self = vstd::slice::slice_subrange(r, size, r.len());
        Ok(b)
    }
}

/// Skipping bytes at the front of a reader.
pub trait ReadSkip {
    /// Drops `size` bytes from the front, or fails when fewer are left.
    fn skip_all(&mut self, size: usize) -> Result<(), ParseError>;
}

impl<'x> ReadSkip for &'x [u8] {
    fn skip_all(&mut self, size: usize) -> (res: Result<(), ParseError>)
        ensures
            size <= old(self)@.len() ==> res is Ok && final(self)@ == old(self)@.skip(size as int),
            size > old(self)@.len() ==> res is Err && final(self)@ == old(self)@,
    {
        let r: &'x [u8] = *self;
        if size > r.len() {
            return Err(ParseError::Invalid);
        }
        *self = vstd::slice::slice_subrange(r, size, r.len());
        Ok(())
    }
}

} // verus!
