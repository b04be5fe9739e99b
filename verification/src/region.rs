//! Region files: a header sector that says, for each of the chunks of the
//! region, in which sectors of the file it is stored.
use crate::bytes::ParseError;
use crate::protocol::de::be_u32;
use bitvec::order::Lsb0;
use bitvec::vec::BitVec;
use vstd::prelude::*;

verus! {

/// The size of a sector of a region file, in bytes.
pub const SECTOR_SIZE: usize = 4096;

/// The number of chunks in a region.
pub const CHUNKS_PER_REGION: usize = 1024;

/// A bit vector of bitvec (`BitVec`), one bit per sector of a region file:
/// whether the sector is in use.
#[verifier::external_body]
pub struct SectorMap {
    inner: BitVec<usize, Lsb0>,
}

/// The bits that a sector map holds.
pub uninterp spec fn bits(v: SectorMap) -> Seq<bool>;

impl SectorMap {
    /// `BitVec::new`: an empty bit vector.
    #[verifier::external_body]
    fn new() -> (res: SectorMap)
        ensures
            bits(res) == Seq::<bool>::empty(),
    {
        SectorMap { inner: BitVec::new() }
    }

    /// `BitVec::resize`: the bit vector cut to `new_len` bits, or extended to
    /// them with copies of `value`. The source panics beyond `usize::MAX >> 3`
    /// bits, which `requires` leaves out.
    #[verifier::external_body]
    fn resize(&mut self, new_len: usize, value: bool)
        requires
            new_len <= usize::MAX / 8,
        ensures
            bits(*final(self)) == if new_len <= bits(*old(self)).len() {
                bits(*old(self)).take(new_len as int)
            } else {
                bits(*old(self)) + Seq::new((new_len - bits(*old(self)).len()) as nat, |_i: int| value)
            },
    {
        self.inner.resize(new_len, value)
    }

    /// `BitSlice::set`: the bit at `index` becomes `value`. The source panics
    /// for an index out of bounds, which `requires` leaves out.
    #[verifier::external_body]
    fn set(&mut self, index: usize, value: bool)
        requires
            index < bits(*old(self)).len(),
        ensures
            bits(*final(self)) == bits(*old(self)).update(index as int, value),
    {
        self.inner.set(index, value)
    }

    /// Indexing a `BitVec`: the bit at `index`. The source panics for an
    /// index out of bounds, which `requires` leaves out.
    #[verifier::external_body]
    pub(crate) fn get(&self, index: usize) -> (res: bool)
        requires
            index < bits(*self).len(),
        ensures
            res == bits(*self)[index as int],
    {
        self.inner[index]
    }

    /// `BitVec::len`: the number of bits.
    #[verifier::external_body]
    pub(crate) fn len(&self) -> (res: usize)
        ensures
            res == bits(*self).len(),
    {
        self.inner.len()
    }

    /// The bits, in order: whether each sector is in use.
    pub fn to_vec(&self) -> (res: Vec<bool>)
        ensures
            res@ == bits(*self),
    {
        let n = self.len();
        let mut res: Vec<bool> = Vec::new();
        let mut i: usize = 0;
        while i < n
            invariant
                n == bits(*self).len(),
                i <= n,
                res@ == bits(*self).take(i as int),
            decreases n - i,
        {
            res.push(self.get(i));
            i = i + 1;
            assert(res@ =~= bits(*self).take(i as int));
        }
        assert(res@ =~= bits(*self));
        res
    }
}

/// Where chunk `chunk_index` is stored, as the header says: the sector it
/// starts at (3 bytes, big-endian) and how many sectors it spans (1 byte).
pub open spec fn spec_sector_loc_and_size(header: Seq<u8>, chunk_index: int) -> (int, int) {
    let off = chunk_index * 4;
    ((header[off] as int) * 65536 + (header[off + 1] as int) * 256 + (header[off + 2] as int), header[off
        + 3] as int)
}

/// Where chunk `chunk_index` is stored, in sectors.
pub fn sector_loc_and_size(header: &[u8], chunk_index: usize) -> (res: (usize, usize))
    requires
        header@.len() == SECTOR_SIZE,
        chunk_index < CHUNKS_PER_REGION,
    ensures
        res.0 == spec_sector_loc_and_size(header@, chunk_index as int).0,
        res.1 == spec_sector_loc_and_size(header@, chunk_index as int).1,
{
    let off = chunk_index * 4;
    let size = header[off + 3] as usize;
    let loc = (header[off] as usize) * 65536 + (header[off + 1] as usize) * 256 + (header[off + 2] as usize);
    (loc, size)
}

/// Whether chunk `c` is stored in sector `s`.
pub open spec fn chunk_covers(header: Seq<u8>, c: int, s: int) -> bool {
    let (loc, size) = spec_sector_loc_and_size(header, c);
    loc <= s < loc + size
}

/// Whether one of the chunks before chunk `chunk_index` is stored in sector
/// `s`.
pub open spec fn claimed_before(header: Seq<u8>, chunk_index: int, s: int) -> bool {
    exists|c: int| 0 <= c < chunk_index && #[trigger] chunk_covers(header, c, s)
}

/// Whether sector `s` is past the header sectors and none of the chunks
/// before chunk `chunk_index` is stored in it.
pub open spec fn unclaimed(header: Seq<u8>, chunk_index: int, s: int) -> bool {
    s >= 2 && !claimed_before(header, chunk_index, s)
}

/// Whether the header places every chunk within the file's sectors, past
/// the two header sectors, and no two chunks in the same sector.
pub open spec fn sectors_valid(header: Seq<u8>, number_of_sectors: int) -> bool {
    &&& forall|c: int|
        0 <= c < CHUNKS_PER_REGION ==> {
            let (loc, size) = #[trigger] spec_sector_loc_and_size(header, c);
            loc + size <= number_of_sectors && (size > 0 ==> loc >= 2)
        }
    &&& forall|c1: int, c2: int, s: int|
        0 <= c1 < c2 < CHUNKS_PER_REGION ==> !(#[trigger] chunk_covers(header, c1, s) && #[trigger] chunk_covers(
            header,
            c2,
            s,
        ))
}

/// The sectors in use: the two header sectors and those of the chunks.
pub open spec fn sectors_used(header: Seq<u8>, number_of_sectors: int) -> Seq<bool> {
    Seq::new(
        number_of_sectors as nat,
        |s: int| s < 2 || exists|c: int| 0 <= c < CHUNKS_PER_REGION && #[trigger] chunk_covers(header, c, s),
    )
}

/// The map of the sectors that a region file of `number_of_sectors` sectors
/// uses; an error when a chunk lies beyond the file or shares a sector with
/// another chunk or the header.
pub fn sectors_map(header: &[u8], number_of_sectors: usize) -> (res: Result<SectorMap, ParseError>)
    requires
        header@.len() == SECTOR_SIZE,
        2 <= number_of_sectors <= usize::MAX / 8,
    ensures
        sectors_valid(header@, number_of_sectors as int) ==> (res matches Ok(v) && bits(v) == sectors_used(
            header@,
            number_of_sectors as int,
        )),
        !sectors_valid(header@, number_of_sectors as int) ==> res is Err,
{
    let ghost h = header@;
    let ghost n = number_of_sectors as int;
    let mut sectors = SectorMap::new();
    sectors.resize(number_of_sectors, false);
    sectors.set(0, true);
    sectors.set(1, true);
    let mut chunk_index: usize = 0;
    while chunk_index < CHUNKS_PER_REGION
        invariant
            h == header@,
            n == number_of_sectors,
            header@.len() == SECTOR_SIZE,
            2 <= number_of_sectors <= usize::MAX / 8,
            chunk_index <= CHUNKS_PER_REGION,
            bits(sectors).len() == n,
            forall|s: int| 0 <= s < n ==> #[trigger] bits(sectors)[s] == (s < 2 || claimed_before(h, chunk_index as int, s)),
            forall|c: int|
                0 <= c < chunk_index ==> {
                    let (loc, size) = #[trigger] spec_sector_loc_and_size(h, c);
                    loc + size <= n && (size > 0 ==> loc >= 2)
                },
            forall|c1: int, c2: int, s: int|
                0 <= c1 < c2 < chunk_index ==> !(#[trigger] chunk_covers(h, c1, s) && #[trigger] chunk_covers(
                    h,
                    c2,
                    s,
                )),
        decreases CHUNKS_PER_REGION - chunk_index,
    {
        let (loc, size) = sector_loc_and_size(header, chunk_index);
        if loc + size > number_of_sectors {
            assert(!sectors_valid(h, n)) by {
                let t = spec_sector_loc_and_size(h, chunk_index as int);
            }
            return Err(ParseError::Invalid);
        }
        let mut i: usize = 0;
        while i < size
            invariant
                h == header@,
                n == number_of_sectors,
                header@.len() == SECTOR_SIZE,
                chunk_index < CHUNKS_PER_REGION,
                (loc as int, size as int) == spec_sector_loc_and_size(h, chunk_index as int),
                loc + size <= n,
                i <= size,
                bits(sectors).len() == n,
                forall|s: int|
                    0 <= s < n ==> #[trigger] bits(sectors)[s] == (s < 2 || claimed_before(h, chunk_index as int, s)
                        || (loc <= s < loc + i)),
                forall|s: int| loc <= s < loc + i ==> #[trigger] unclaimed(h, chunk_index as int, s),
            decreases size - i,
        {
            let off = loc + i;
            if sectors.get(off) {
                proof {
                    let s = off as int;
                    assert(chunk_covers(h, chunk_index as int, s));
                    if s >= 2 {
                        assert(claimed_before(h, chunk_index as int, s));
                        let c = choose|c: int| 0 <= c < chunk_index && #[trigger] chunk_covers(h, c, s);
                        assert(chunk_covers(h, c, s) && chunk_covers(h, chunk_index as int, s));
                    } else {
                        let t = spec_sector_loc_and_size(h, chunk_index as int);
                    }
                }
                return Err(ParseError::Invalid);
            }
            assert(unclaimed(h, chunk_index as int, off as int));
            let ghost prev_i = i as int;
            sectors.set(off, true);
            i = i + 1;
            assert forall|s: int| loc <= s < loc + i implies #[trigger] unclaimed(h, chunk_index as int, s) by {
                if s < loc + prev_i {
                    assert(loc <= s < loc + prev_i);
                }
            }
        }
        proof {
            if size > 0 {
                let s0 = loc as int;
                assert(loc <= s0 < loc + size);
                assert(unclaimed(h, chunk_index as int, s0));
            }
            assert forall|s: int| 0 <= s < n implies #[trigger] bits(sectors)[s] == (s < 2 || claimed_before(
                h,
                chunk_index + 1,
                s,
            )) by {
                if loc <= s < loc + size {
                    assert(chunk_covers(h, chunk_index as int, s));
                }
                if claimed_before(h, chunk_index + 1, s) {
                    let c = choose|c: int| 0 <= c < chunk_index + 1 && #[trigger] chunk_covers(h, c, s);
                    if c == chunk_index {
                        assert(loc <= s < loc + size);
                    } else {
                        assert(claimed_before(h, chunk_index as int, s));
                    }
                }
                if claimed_before(h, chunk_index as int, s) {
                    let c = choose|c: int| 0 <= c < chunk_index && #[trigger] chunk_covers(h, c, s);
                    assert(chunk_covers(h, c, s));
                }
            }
            assert forall|c1: int, c2: int, s: int|
                0 <= c1 < c2 < chunk_index + 1 implies !(#[trigger] chunk_covers(h, c1, s)
                && #[trigger] chunk_covers(h, c2, s)) by {
                if c2 == chunk_index && chunk_covers(h, c1, s) && chunk_covers(h, c2, s) {
                    assert(loc <= s < loc + size);
                    assert(!unclaimed(h, chunk_index as int, s));
                }
            }
        }
        chunk_index = chunk_index + 1;
    }
    Ok(sectors)
}

/// What flate2's writing `ZlibDecoder` writes into an empty vector when
/// `compressed` is written to it whole and it is then finished; `None` when
/// the writing or the finishing fails.
pub uninterp spec fn zlib_write_decoded(compressed: Seq<u8>) -> Option<Seq<u8>>;

/// Decompresses `compressed` by writing it whole to flate2's writing
/// `ZlibDecoder` over an empty vector and finishing it. The contract claims
/// only that the outcome depends on the bytes alone (`zlib_write_decoded`).
#[verifier::external_body]
fn zlib_decode_written(compressed: &[u8]) -> (res: Option<Vec<u8>>)
    ensures
        match zlib_write_decoded(compressed@) {
            Some(d) => (res matches Some(v) && v@ == d),
            None => res is None,
        },
{
    let mut decoder = flate2::write::ZlibDecoder::new(Vec::new());
    match std::io::Write::write_all(&mut decoder, compressed) {
        Ok(()) => {},
        Err(_) => return None,
    }
    decoder.finish().ok()
}

/// The zlib stream of the chunk whose sectors are `sectors`: after a 4-byte
/// big-endian length, which counts the compression byte, comes the
/// compression byte, which must be 2 (zlib), and then the stream; `None`
/// when the bytes are too short for that length or the compression is not
/// zlib.
pub open spec fn chunk_stream(sectors: Seq<u8>) -> Option<Seq<u8>> {
    if sectors.len() < 5 || sectors[4] != 2 {
        None
    } else if be_u32(sectors) - 1 > sectors.len() - 5 {
        None
    } else {
        Some(sectors.subrange(5, 4 + be_u32(sectors)))
    }
}

/// The chunk data stored in the sectors `sectors` of a region file,
/// decompressed; an error when the compression is not zlib, the length
/// goes past the sectors, or the stream is corrupt. A length of zero has no
/// compression byte to count, which `requires` leaves out.
pub fn chunk_payload(sectors: &[u8]) -> (res: Result<Vec<u8>, ParseError>)
    requires
        sectors@.len() >= 4 ==> be_u32(sectors@) >= 1,
    ensures
        match chunk_stream(sectors@) {
            Some(stream) => match zlib_write_decoded(stream) {
                Some(d) => (res matches Ok(v) && v@ == d),
                None => res is Err,
            },
            None => res is Err,
        },
{
    if sectors.len() < 5 {
        return Err(ParseError::Invalid);
    }
    let size: u32 = ((sectors[0] as u32) << 24u32) | ((sectors[1] as u32) << 16u32) | ((sectors[2] as u32) << 8u32)
        | (sectors[3] as u32);
    let size: u32 = size - 1;
    if sectors[4] != 2 {
        return Err(ParseError::Invalid);
    }
    if size as usize > sectors.len() - 5 {
        return Err(ParseError::Invalid);
    }
    let stream = vstd::slice::slice_subrange(sectors, 5, 5 + size as usize);
    match zlib_decode_written(stream) {
        Some(v) => Ok(v),
        None => Err(ParseError::Invalid),
    }
}

} // verus!
