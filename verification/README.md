# dune

A library for the Minecraft network protocol (version 1.18.2) and the data
it carries, verified with Verus, and a small command-line tool around it.

- `src/protocol`: varints, the field types of packets, every packet of the
  handshaking, status, login and play states (reading, and writing where
  packets can be written), telling packets apart by state, direction and
  id, and finding packets in a byte stream (with zlib compression).
- `src/nbt.rs`: reading NBT tags, and skipping over them.
- `src/disk.rs`: packets as recordings store them.
- `src/chat.rs`: chat components read from JSON text (serde_json reads the
  text), and the text they display.
- `src/region.rs`, `src/chunk.rs`: the sector table of region files, the
  zlib stream of a chunk, and the block entities of a chunk (signs, storage
  blocks and their items, beds, bells).
- `src/enchantments.rs`, `src/item.rs`: enchantments, and what item NBT data
  says about them.
- `src/config.rs`, `src/launchers.rs`: the tool's configuration, and the
  credentials that a launcher stores.
- `src/data_gen.rs`: the naming and numbering rules of the item tables.
- `src/record.rs`: the decisions of the recording proxy: which reader a
  connection's packets go through, and how each packet that starts a
  connection changes its state and what is sent on.
- `app/`: the tool (`dune config`, `dune auth`, `dune nbt <file>`,
  `dune chat <json>`, `dune signs <region directory>`): file access, the
  configuration's JSON with serde, and printing.

Every function in `src/` has a contract. Verus proves it, except for the
few functions marked `#[verifier::external_body]`, which call flate2,
bitvec, serde_json or std and whose contracts are assumed: each says in its
doc comment what it claims of the call. The proof functions named
`lemma_*` state the laws that hold across functions, such as reading back
what was written. Errors name what went wrong (`bytes::ParseError`,
`chat::ChatError`), and each contract says which error comes on which
input where the original's message depends on it.
