use dune::region::{chunk_payload, sector_loc_and_size, sectors_map, SECTOR_SIZE};
use std::io::Write;

fn header(chunks: &[(usize, u32, u8)]) -> Vec<u8> {
    let mut h = vec![0u8; SECTOR_SIZE];
    for (index, loc, size) in chunks {
        let off = index * 4;
        h[off] = (loc >> 16) as u8;
        h[off + 1] = (loc >> 8) as u8;
        h[off + 2] = *loc as u8;
        h[off + 3] = *size;
    }
    h
}

#[test]
fn sector_locations() {
    let h = header(&[(5, 0x010203, 7)]);
    assert_eq!(sector_loc_and_size(&h, 5), (0x010203, 7));
    assert_eq!(sector_loc_and_size(&h, 0), (0, 0));
}

#[test]
fn sector_map_of_valid_header() {
    let h = header(&[(0, 2, 1), (1, 3, 2)]);
    let map = sectors_map(&h, 7).unwrap();
    assert_eq!(map.to_vec(), vec![true, true, true, true, true, false, false]);
}

#[test]
fn sector_map_errors() {
    // two chunks in sector 3
    let h = header(&[(0, 2, 2), (1, 3, 1)]);
    assert!(sectors_map(&h, 8).is_err());
    // a chunk past the end of the file
    let h = header(&[(0, 6, 2)]);
    assert!(sectors_map(&h, 7).is_err());
    // a chunk in a header sector
    let h = header(&[(9, 1, 1)]);
    assert!(sectors_map(&h, 7).is_err());
}

fn zlib(data: &[u8]) -> Vec<u8> {
    let mut e = flate2::write::ZlibEncoder::new(Vec::new(), flate2::Compression::default());
    e.write_all(data).unwrap();
    e.finish().unwrap()
}

#[test]
fn chunk_payload_decompresses() {
    let stream = zlib(b"chunk nbt");
    let mut sectors = ((stream.len() + 1) as u32).to_be_bytes().to_vec();
    sectors.push(2);
    sectors.extend_from_slice(&stream);
    sectors.resize(SECTOR_SIZE, 0);
    assert_eq!(chunk_payload(&sectors).unwrap(), b"chunk nbt");

    let mut gzip = sectors.clone();
    gzip[4] = 1;
    assert!(chunk_payload(&gzip).is_err());
    let mut long = sectors.clone();
    long[0] = 0x10;
    assert!(chunk_payload(&long).is_err());
    let mut corrupt = sectors.clone();
    corrupt[6] ^= 0xff;
    assert!(chunk_payload(&corrupt).is_err());
    assert!(chunk_payload(&[0, 0, 0, 1]).is_err());
}
