use dune::chunk::{read_chunk, BlockEntityKind, ItemSlotExtra};

fn name(out: &mut Vec<u8>, n: &str) {
    out.extend_from_slice(&(n.len() as u16).to_be_bytes());
    out.extend_from_slice(n.as_bytes());
}

fn string_payload(s: &str) -> Vec<u8> {
    let mut v = Vec::new();
    name(&mut v, s);
    v
}

fn named(kind: u8, n: &str, payload: Vec<u8>) -> Vec<u8> {
    let mut v = vec![kind];
    name(&mut v, n);
    v.extend(payload);
    v
}

fn compound(entries: Vec<Vec<u8>>) -> Vec<u8> {
    let mut v: Vec<u8> = entries.concat();
    v.push(0);
    v
}

fn list(kind: u8, items: Vec<Vec<u8>>) -> Vec<u8> {
    let mut v = vec![kind];
    v.extend_from_slice(&(items.len() as i32).to_be_bytes());
    v.extend(items.concat());
    v
}

fn int_tag(n: &str, x: i32) -> Vec<u8> {
    named(3, n, x.to_be_bytes().to_vec())
}

fn string(n: &str, s: &str) -> Vec<u8> {
    named(8, n, string_payload(s))
}

fn position(x: i32, y: i32, z: i32) -> Vec<Vec<u8>> {
    vec![int_tag("x", x), int_tag("y", y), int_tag("z", z)]
}

fn chunk_bytes(version: i32, entities: Vec<Vec<u8>>) -> Vec<u8> {
    named(10, "", compound(vec![int_tag("DataVersion", version), named(9, "block_entities", list(10, entities))]))
}

#[test]
fn block_entities_of_a_chunk() {
    let mut sign = vec![string("id", "minecraft:sign")];
    sign.extend(position(1, 64, -3));
    sign.push(string("Text1", r#"{"text":"Hello"}"#));
    sign.push(string("Text2", r#""world""#));
    sign.push(string("Text3", r#"{"text":""}"#));
    sign.push(string("Text4", r#"{"text":"§ax","extra":[{"text":"y"}]}"#));

    let book = compound(vec![
        string("id", "minecraft:written_book"),
        named(1, "Count", vec![1]),
        named(
            10,
            "tag",
            compound(vec![
                named(9, "pages", list(8, vec![string_payload(r#"{"text":"page one"}"#)])),
                string("title", "T"),
                string("author", "A"),
            ]),
        ),
    ]);
    let stone = compound(vec![
        string("id", "minecraft:stone"),
        named(1, "Count", vec![64]),
        named(10, "tag", compound(vec![int_tag("Damage", 3)])),
    ]);
    let mut chest = vec![string("id", "minecraft:chest")];
    chest.extend(position(0, 1, 2));
    chest.push(named(9, "Items", list(10, vec![book, stone])));

    let mut beacon = vec![string("id", "minecraft:beacon")];
    beacon.extend(position(5, 5, 5));
    let mut bell = vec![string("id", "minecraft:bell")];
    bell.extend(position(7, 8, 9));

    let bytes = chunk_bytes(2975, vec![compound(sign), compound(chest), compound(beacon), compound(bell)]);
    let chunk = read_chunk(&bytes).unwrap();
    assert_eq!(chunk.block_entities.len(), 3);

    let e = &chunk.block_entities[0];
    assert_eq!((e.position.x, e.position.y, e.position.z), (1, 64, -3));
    match &e.kind {
        BlockEntityKind::Sign(s) => assert_eq!(s.text, vec!["Hello", "world", "", "xy"]),
        _ => panic!("not a sign"),
    }
    match &chunk.block_entities[1].kind {
        BlockEntityKind::Storage(s) => {
            assert_eq!(s.items.len(), 2);
            assert_eq!(s.items[0].item, "minecraft:written_book");
            assert_eq!(s.items[0].count, 1);
            match &s.items[0].extra {
                Some(ItemSlotExtra::Book(b)) => {
                    assert_eq!(b.pages, vec!["page one"]);
                    assert_eq!(b.title, Some("T"));
                    assert_eq!(b.author, Some("A"));
                },
                _ => panic!("not a book"),
            }
            assert_eq!(s.items[1].item, "minecraft:stone");
            assert_eq!(s.items[1].count, 64);
            match &s.items[1].extra {
                Some(ItemSlotExtra::Unknown(es)) => assert_eq!(es.len(), 1),
                _ => panic!("no data"),
            }
        },
        _ => panic!("not storage"),
    }
    let e = &chunk.block_entities[2];
    assert!(matches!(e.kind, BlockEntityKind::Bell));
    assert_eq!((e.position.x, e.position.y, e.position.z), (7, 8, 9));
}

#[test]
fn old_chunks_keep_entities_in_level() {
    let mut bed = vec![string("id", "minecraft:bed")];
    bed.extend(position(1, 2, 3));
    let bytes = named(
        10,
        "",
        compound(vec![
            int_tag("DataVersion", 1343),
            named(10, "Level", compound(vec![named(9, "TileEntities", list(10, vec![compound(bed)]))])),
        ]),
    );
    let chunk = read_chunk(&bytes).unwrap();
    assert_eq!(chunk.block_entities.len(), 1);
    assert!(matches!(chunk.block_entities[0].kind, BlockEntityKind::Bed));

    let bytes = named(10, "", compound(vec![int_tag("DataVersion", 1343), named(10, "Level", compound(vec![]))]));
    assert_eq!(read_chunk(&bytes).unwrap().block_entities.len(), 0);
}

#[test]
fn chunk_layout_errors() {
    // no data version
    assert!(read_chunk(&named(10, "", compound(vec![]))).is_err());
    // a negative item count
    let item = compound(vec![string("id", "minecraft:stone"), named(1, "Count", vec![0xff])]);
    let mut chest = vec![string("id", "minecraft:barrel")];
    chest.extend(position(0, 0, 0));
    chest.push(named(9, "Items", list(10, vec![item])));
    assert!(read_chunk(&chunk_bytes(2975, vec![compound(chest)])).is_err());
    // a sign line that is not JSON
    let mut sign = vec![string("id", "minecraft:sign")];
    sign.extend(position(0, 0, 0));
    for k in ["Text1", "Text2", "Text3"] {
        sign.push(string(k, r#""a""#));
    }
    sign.push(string("Text4", "{oops"));
    assert!(read_chunk(&chunk_bytes(2975, vec![compound(sign)])).is_err());
    // an id outside the minecraft namespace is left out
    let mut other = vec![string("id", "mod:sign")];
    other.extend(position(0, 0, 0));
    assert_eq!(read_chunk(&chunk_bytes(2975, vec![compound(other)])).unwrap().block_entities.len(), 0);
}
