//! Chunks as region files store them: an NBT compound whose block entities
//! (signs, storage blocks with their items, beds, bells) are read here.
use crate::bytes::ParseError;
use crate::chat::{chat_text, json_parsed, parse_chat, spec_parse_component};
use crate::nbt::{
    entries_lookup, entries_view, lemma_tags_view_take, lookup, read, spec_read, tag_view, tags_view, Tag, TagView,
};
use crate::text::{rest_is, starts_with};
use vstd::prelude::*;
use vstd::string::StringExecFns;

verus! {

// ---------------------------------------------------------------------------
// What a chunk holds.

/// The position of a block.
#[derive(Debug, Clone, Copy, PartialEq, Eq, Structural)]
pub struct PositionInt {
    pub x: i32,
    pub y: i32,
    pub z: i32,
}

/// A book: its title and author (written books only) and the text of its
/// pages.
#[derive(Debug)]
pub struct Book<'x> {
    pub title: Option<&'x str>,
    pub author: Option<&'x str>,
    pub pages: Vec<String>,
}

/// What the NBT data of an item says beyond its id and count.
#[derive(Debug)]
pub enum ItemSlotExtra<'x> {
    Book(Book<'x>),
    Unknown(Vec<(&'x str, Tag<'x>)>),
}

/// An item in a storage block: its id (such as `minecraft:stone`), how many,
/// and what its NBT data says.
#[derive(Debug)]
pub struct ItemSlot<'x> {
    pub item: &'x str,
    pub count: u8,
    pub extra: Option<ItemSlotExtra<'x>>,
}

/// A sign: the text of its four lines.
pub struct Sign {
    pub text: Vec<String>,
}

/// The items of a chest, barrel, furnace or the like.
pub struct Storage<'x> {
    pub items: Vec<ItemSlot<'x>>,
}

/// The kinds of block entities that are read.
pub enum BlockEntityKind<'x> {
    Sign(Sign),
    Storage(Storage<'x>),
    Bed,
    Bell,
}

/// A block entity and where it stands.
pub struct BlockEntity<'x> {
    pub position: PositionInt,
    pub kind: BlockEntityKind<'x>,
}

/// The block entities of a chunk.
pub struct Chunk<'x> {
    pub block_entities: Vec<BlockEntity<'x>>,
}

/// What a `Book` holds.
pub struct BookView {
    pub title: Option<Seq<char>>,
    pub author: Option<Seq<char>>,
    pub pages: Seq<Seq<char>>,
}

/// What an `ItemSlotExtra` holds.
pub enum ItemExtraView {
    Book(BookView),
    Unknown(Seq<(Seq<char>, TagView)>),
}

/// What an `ItemSlot` holds.
pub struct ItemSlotView {
    pub item: Seq<char>,
    pub count: u8,
    pub extra: Option<ItemExtraView>,
}

/// What a `BlockEntityKind` holds.
pub enum KindView {
    Sign(Seq<Seq<char>>),
    Storage(Seq<ItemSlotView>),
    Bed,
    Bell,
}

/// What a `BlockEntity` holds.
pub struct BlockEntityView {
    pub position: PositionInt,
    pub kind: KindView,
}

/// What a sequence of strings holds.
pub open spec fn strings_view(v: Seq<String>) -> Seq<Seq<char>> {
    Seq::new(v.len(), |i: int| v[i]@)
}

/// What an `ItemSlotExtra` holds.
pub open spec fn extra_view<'x>(e: ItemSlotExtra<'x>) -> ItemExtraView {
    match e {
        ItemSlotExtra::Book(b) => ItemExtraView::Book(
            BookView {
                title: match b.title { Some(t) => Some(t@), None => None },
                author: match b.author { Some(a) => Some(a@), None => None },
                pages: strings_view(b.pages@),
            },
        ),
        ItemSlotExtra::Unknown(es) => ItemExtraView::Unknown(entries_view(es@)),
    }
}

/// What an `ItemSlot` holds.
pub open spec fn item_view<'x>(i: ItemSlot<'x>) -> ItemSlotView {
    ItemSlotView {
        item: i.item@,
        count: i.count,
        extra: match i.extra { Some(e) => Some(extra_view(e)), None => None },
    }
}

/// What a sequence of items holds.
pub open spec fn items_view<'x>(v: Seq<ItemSlot<'x>>) -> Seq<ItemSlotView> {
    Seq::new(v.len(), |i: int| item_view(v[i]))
}

/// What a `BlockEntityKind` holds.
pub open spec fn kind_view<'x>(k: BlockEntityKind<'x>) -> KindView {
    match k {
        BlockEntityKind::Sign(s) => KindView::Sign(strings_view(s.text@)),
        BlockEntityKind::Storage(s) => KindView::Storage(items_view(s.items@)),
        BlockEntityKind::Bed => KindView::Bed,
        BlockEntityKind::Bell => KindView::Bell,
    }
}

/// What a `BlockEntity` holds.
pub open spec fn entity_view<'x>(e: BlockEntity<'x>) -> BlockEntityView {
    BlockEntityView { position: e.position, kind: kind_view(e.kind) }
}

/// What a sequence of block entities holds.
pub open spec fn entities_view<'x>(v: Seq<BlockEntity<'x>>) -> Seq<BlockEntityView> {
    Seq::new(v.len(), |i: int| entity_view(v[i]))
}

// ---------------------------------------------------------------------------
// The layout of the NBT data.

/// The text of a string tag.
pub open spec fn tag_str(t: Option<TagView>) -> Option<Seq<char>> {
    match t {
        Some(TagView::String(s)) => Some(s),
        _ => None,
    }
}

/// The value of an int tag.
pub open spec fn tag_int(t: Option<TagView>) -> Option<i32> {
    match t {
        Some(TagView::Int(x)) => Some(x),
        _ => None,
    }
}

/// The text that a chat message written as JSON displays.
pub open spec fn chat_line(json: Seq<char>) -> Option<Seq<char>> {
    match json_parsed(json) {
        Some(v) => match spec_parse_component(v) {
            Ok(c) => chat_text(c),
            Err(_) => None,
        },
        None => None,
    }
}

/// The ids written with the `minecraft:` namespace.
pub open spec fn namespaced(id: Seq<char>, name: Seq<char>) -> bool {
    id == "minecraft:"@ + name
}

/// The text of a page: as it is written in a book being written, the text
/// that its JSON displays in a written book.
pub open spec fn spec_page(t: TagView, written: bool) -> Option<Seq<char>> {
    match t {
        TagView::String(s) => if written { chat_line(s) } else { Some(s) },
        _ => None,
    }
}

/// The text of the pages `ts`.
pub open spec fn spec_pages(ts: Seq<TagView>, written: bool) -> Option<Seq<Seq<char>>>
    decreases ts.len(),
{
    if ts.len() == 0 {
        Some(Seq::empty())
    } else {
        match (spec_pages(ts.drop_last(), written), spec_page(ts.last(), written)) {
            (Some(ps), Some(p)) => Some(ps.push(p)),
            _ => None,
        }
    }
}

/// What the NBT data `es` of the item `id` says: a book's pages (and the
/// title and author of a written book), or the data itself for any other
/// item.
pub open spec fn spec_item_extra(es: Seq<(Seq<char>, TagView)>, id: Seq<char>) -> Option<ItemExtraView> {
    let written = namespaced(id, "written_book"@);
    if namespaced(id, "writable_book"@) || written {
        match entries_lookup(es, "pages"@) {
            Some(TagView::List(ts)) => match spec_pages(ts, written) {
                Some(pages) => if written {
                    match (tag_str(entries_lookup(es, "title"@)), tag_str(entries_lookup(es, "author"@))) {
                        (Some(t), Some(a)) => Some(
                            ItemExtraView::Book(BookView { title: Some(t), author: Some(a), pages }),
                        ),
                        _ => None,
                    }
                } else {
                    Some(ItemExtraView::Book(BookView { title: None, author: None, pages }))
                },
                None => None,
            },
            _ => None,
        }
    } else {
        Some(ItemExtraView::Unknown(es))
    }
}

/// An item of a storage block: a namespaced id, a count that is not
/// negative, and optional NBT data.
pub open spec fn spec_item(t: TagView) -> Option<ItemSlotView> {
    match t {
        TagView::Compound(es) => match (tag_str(entries_lookup(es, "id"@)), entries_lookup(es, "Count"@)) {
            (Some(id), Some(TagView::Byte(c))) => if id.len() >= 10 && id.take(10) == "minecraft:"@ && c >= 0 {
                match entries_lookup(es, "tag"@) {
                    None => Some(ItemSlotView { item: id, count: c as u8, extra: None }),
                    Some(TagView::Compound(tes)) => match spec_item_extra(tes, id) {
                        Some(e) => Some(ItemSlotView { item: id, count: c as u8, extra: Some(e) }),
                        None => None,
                    },
                    _ => None,
                }
            } else {
                None
            },
            _ => None,
        },
        _ => None,
    }
}

/// The items `ts` of a storage block.
pub open spec fn spec_items(ts: Seq<TagView>) -> Option<Seq<ItemSlotView>>
    decreases ts.len(),
{
    if ts.len() == 0 {
        Some(Seq::empty())
    } else {
        match (spec_items(ts.drop_last()), spec_item(ts.last())) {
            (Some(is), Some(i)) => Some(is.push(i)),
            _ => None,
        }
    }
}

/// A list tag that may be missing, in which case it is empty.
pub open spec fn optional_list(t: Option<TagView>) -> Option<Seq<TagView>> {
    match t {
        None => Some(Seq::empty()),
        Some(TagView::List(ts)) => Some(ts),
        Some(_) => None,
    }
}

/// The block entities whose items are read.
pub open spec fn is_storage(id: Seq<char>) -> bool {
    ||| namespaced(id, "chest"@)
    ||| namespaced(id, "trapped_chest"@)
    ||| namespaced(id, "barrel"@)
    ||| namespaced(id, "hopper"@)
    ||| namespaced(id, "dispenser"@)
    ||| namespaced(id, "dropper"@)
    ||| namespaced(id, "furnace"@)
    ||| namespaced(id, "blast_furnace"@)
    ||| namespaced(id, "smoker"@)
    ||| namespaced(id, "brewing_stand"@)
}

/// The text of the four lines of a sign.
pub open spec fn spec_sign_lines(es: Seq<(Seq<char>, TagView)>) -> Option<Seq<Seq<char>>> {
    match (
        tag_str(entries_lookup(es, "Text1"@)),
        tag_str(entries_lookup(es, "Text2"@)),
        tag_str(entries_lookup(es, "Text3"@)),
        tag_str(entries_lookup(es, "Text4"@)),
    ) {
        (Some(j1), Some(j2), Some(j3), Some(j4)) => match (chat_line(j1), chat_line(j2), chat_line(j3), chat_line(j4)) {
            (Some(l1), Some(l2), Some(l3), Some(l4)) => Some(seq![l1, l2, l3, l4]),
            _ => None,
        },
        _ => None,
    }
}

/// What the block entity of id `id` with data `es` is: `Some(None)` for one
/// that is not read.
pub open spec fn spec_kind(id: Seq<char>, es: Seq<(Seq<char>, TagView)>) -> Option<Option<KindView>> {
    if namespaced(id, "sign"@) {
        match spec_sign_lines(es) {
            Some(ls) => Some(Some(KindView::Sign(ls))),
            None => None,
        }
    } else if is_storage(id) {
        match optional_list(entries_lookup(es, "Items"@)) {
            Some(ts) => match spec_items(ts) {
                Some(items) => Some(Some(KindView::Storage(items))),
                None => None,
            },
            None => None,
        }
    } else if namespaced(id, "bed"@) {
        Some(Some(KindView::Bed))
    } else if namespaced(id, "bell"@) {
        Some(Some(KindView::Bell))
    } else {
        Some(None)
    }
}

/// A block entity: an id, a position, and what its kind holds; `Some(None)`
/// for one that is not read.
pub open spec fn spec_entity(t: TagView) -> Option<Option<BlockEntityView>> {
    match t {
        TagView::Compound(es) => match (
            tag_str(entries_lookup(es, "id"@)),
            tag_int(entries_lookup(es, "x"@)),
            tag_int(entries_lookup(es, "y"@)),
            tag_int(entries_lookup(es, "z"@)),
        ) {
            (Some(id), Some(x), Some(y), Some(z)) => match spec_kind(id, es) {
                Some(Some(k)) => Some(Some(BlockEntityView { position: PositionInt { x, y, z }, kind: k })),
                Some(None) => Some(None),
                None => None,
            },
            _ => None,
        },
        _ => None,
    }
}

/// The block entities `ts` that are read, in order.
pub open spec fn spec_entities(ts: Seq<TagView>) -> Option<Seq<BlockEntityView>>
    decreases ts.len(),
{
    if ts.len() == 0 {
        Some(Seq::empty())
    } else {
        match (spec_entities(ts.drop_last()), spec_entity(ts.last())) {
            (Some(bs), Some(Some(b))) => Some(bs.push(b)),
            (Some(bs), Some(None)) => Some(bs),
            _ => None,
        }
    }
}

/// The list of block entities of a chunk: `block_entities` from data
/// version 2860 (1.18) on, `Level.TileEntities` (which may be missing)
/// before.
pub open spec fn spec_entity_list(es: Seq<(Seq<char>, TagView)>) -> Option<Seq<TagView>> {
    match tag_int(entries_lookup(es, "DataVersion"@)) {
        Some(version) => if version >= 2860 {
            match entries_lookup(es, "block_entities"@) {
                Some(TagView::List(ts)) => Some(ts),
                _ => None,
            }
        } else {
            match entries_lookup(es, "Level"@) {
                Some(TagView::Compound(les)) => optional_list(entries_lookup(les, "TileEntities"@)),
                _ => None,
            }
        },
        None => None,
    }
}

/// The block entities of the chunk whose root tag is `root`.
pub open spec fn spec_chunk(root: TagView) -> Option<Seq<BlockEntityView>> {
    match root {
        TagView::Compound(es) => match spec_entity_list(es) {
            Some(ts) => spec_entities(ts),
            None => None,
        },
        _ => None,
    }
}

// ---------------------------------------------------------------------------
// Reading.

/// What an optional tag holds.
pub open spec fn opt_view<'a, 'n>(t: Option<&'a Tag<'n>>) -> Option<TagView> {
    match t {
        Some(x) => Some(tag_view(*x)),
        None => None,
    }
}

/// The position of the last entry named `name`.
fn find_last<'n>(es: &[(&'n str, Tag<'n>)], name: &str) -> (res: Option<usize>)
    ensures
        match entries_lookup(entries_view(es@), name@) {
            Some(v) => (res matches Some(i) && i < es@.len() && tag_view(es@[i as int].1) == v),
            None => res is None,
        },
{
    let mut i: usize = es.len();
    assert(es@.take(i as int) =~= es@);
    while i > 0
        invariant
            i <= es@.len(),
            entries_lookup(entries_view(es@), name@) == entries_lookup(entries_view(es@.take(i as int)), name@),
        decreases i,
    {
        let ghost prefix = es@.take(i as int);
        assert(prefix.drop_last() =~= es@.take(i - 1));
        let ghost pv = entries_view(prefix);
        assert(pv == entries_view(prefix.drop_last()).push((prefix.last().0@, tag_view(prefix.last().1))));
        assert(pv.drop_last() =~= entries_view(prefix.drop_last()));
        if crate::text::str_eq(es[i - 1].0, name) {
            return Some(i - 1);
        }
        i = i - 1;
    }
    None
}

/// Takes the tag named `name` out of the entries of a compound, as a map
/// gives up the value of a key.
fn take_tag<'n>(es: &mut Vec<(&'n str, Tag<'n>)>, name: &str) -> (res: Option<Tag<'n>>)
    ensures
        match entries_lookup(entries_view(old(es)@), name@) {
            Some(v) => (res matches Some(t) && tag_view(t) == v),
            None => res is None,
        },
{
    match find_last(es.as_slice(), name) {
        Some(i) => {
            let (_, t) = es.remove(i);
            Some(t)
        },
        None => None,
    }
}

/// The text of an optional string tag.
fn opt_str<'a, 'n>(t: Option<&'a Tag<'n>>) -> (res: Option<&'n str>)
    ensures
        match tag_str(opt_view(t)) {
            Some(s) => (res matches Some(x) && x@ == s),
            None => res is None,
        },
{
    match t {
        Some(Tag::String(s)) => Some(*s),
        _ => None,
    }
}

/// Whether `id` is `name` in the `minecraft:` namespace.
fn is_namespaced(id: &str, name: &str) -> (res: bool)
    ensures
        res == namespaced(id@, name@),
{
    proof {
        reveal_strlit("minecraft:");
    }
    let n = id.unicode_len();
    if !starts_with(id, n, "minecraft:") {
        proof {
            if id@ == "minecraft:"@ + name@ {
                assert(id@.take(10) =~= "minecraft:"@);
            }
        }
        return false;
    }
    let r = rest_is(id, n, 10, name);
    proof {
        if r {
            assert(id@ =~= "minecraft:"@ + name@);
        }
        if id@ == "minecraft:"@ + name@ {
            assert(id@.skip(10) =~= name@);
        }
    }
    r
}

/// The text that a chat message written as JSON displays.
fn read_chat_line(json: &str) -> (res: Option<String>)
    ensures
        match chat_line(json@) {
            Some(l) => (res matches Some(s) && s@ == l),
            None => res is None,
        },
{
    match parse_chat(json) {
        Ok(c) => c.to_text(),
        Err(_) => None,
    }
}

proof fn lemma_tags_view_next<'n>(ts: Seq<Tag<'n>>, i: int)
    requires
        0 <= i < ts.len(),
    ensures
        tags_view(ts.take(i + 1)) == tags_view(ts.take(i)).push(tag_view(ts[i])),
{
    assert(ts.take(i + 1).drop_last() =~= ts.take(i));
}

proof fn lemma_pages_prefix(ts: Seq<TagView>, n: int, written: bool)
    requires
        0 <= n <= ts.len(),
        spec_pages(ts.take(n), written) is None,
    ensures
        spec_pages(ts, written) is None,
    decreases ts.len(),
{
    if n < ts.len() {
        assert(ts.drop_last().take(n) =~= ts.take(n));
        lemma_pages_prefix(ts.drop_last(), n, written);
    } else {
        assert(ts.take(n) =~= ts);
    }
}

proof fn lemma_items_prefix(ts: Seq<TagView>, n: int)
    requires
        0 <= n <= ts.len(),
        spec_items(ts.take(n)) is None,
    ensures
        spec_items(ts) is None,
    decreases ts.len(),
{
    if n < ts.len() {
        assert(ts.drop_last().take(n) =~= ts.take(n));
        lemma_items_prefix(ts.drop_last(), n);
    } else {
        assert(ts.take(n) =~= ts);
    }
}

proof fn lemma_entities_prefix(ts: Seq<TagView>, n: int)
    requires
        0 <= n <= ts.len(),
        spec_entities(ts.take(n)) is None,
    ensures
        spec_entities(ts) is None,
    decreases ts.len(),
{
    if n < ts.len() {
        assert(ts.drop_last().take(n) =~= ts.take(n));
        lemma_entities_prefix(ts.drop_last(), n);
    } else {
        assert(ts.take(n) =~= ts);
    }
}

/// The text of the pages of a book.
fn read_pages<'n>(ts: &Vec<Tag<'n>>, written: bool) -> (res: Option<Vec<String>>)
    ensures
        match spec_pages(tags_view(ts@), written) {
            Some(ps) => (res matches Some(v) && strings_view(v@) == ps),
            None => res is None,
        },
{
    let mut pages: Vec<String> = Vec::new();
    let mut i: usize = 0;
    assert(ts@.take(0) =~= Seq::<Tag<'n>>::empty());
    assert(strings_view(pages@) =~= Seq::<Seq<char>>::empty());
    while i < ts.len()
        invariant
            i <= ts@.len(),
            spec_pages(tags_view(ts@.take(i as int)), written) == Some(strings_view(pages@)),
        decreases ts@.len() - i,
    {
        proof {
            lemma_tags_view_next(ts@, i as int);
        }
        let page = match &ts[i] {
            Tag::String(s) => if written {
                read_chat_line(s)
            } else {
                Some(String::from_str(s))
            },
            _ => None,
        };
        match page {
            Some(p) => {
                assert(tags_view(ts@.take(i as int)).push(tag_view(ts@[i as int])).drop_last() =~= tags_view(
                    ts@.take(i as int),
                ));
                let ghost before = pages@;
                pages.push(p);
                assert(strings_view(pages@) =~= strings_view(before).push(p@));
            },
            None => {
                proof {
                    lemma_tags_view_take(ts@, i as int + 1);
                    lemma_pages_prefix(tags_view(ts@), i as int + 1, written);
                }
                return None;
            },
        }
        i = i + 1;
    }
    assert(ts@.take(i as int) =~= ts@);
    Some(pages)
}

/// What the NBT data `es` of the item `id` says.
fn read_item_extra<'n>(es: Vec<(&'n str, Tag<'n>)>, id: &'n str) -> (res: Option<ItemSlotExtra<'n>>)
    ensures
        match spec_item_extra(entries_view(es@), id@) {
            Some(e) => (res matches Some(x) && extra_view(x) == e),
            None => res is None,
        },
{
    let written = is_namespaced(id, "written_book");
    if is_namespaced(id, "writable_book") || written {
        let pages = match lookup(es.as_slice(), "pages") {
            Some(Tag::List(ts)) => read_pages(ts, written),
            _ => None,
        };
        let pages = match pages {
            Some(p) => p,
            None => {
                return None;
            },
        };
        if written {
            let title = opt_str(lookup(es.as_slice(), "title"));
            let author = opt_str(lookup(es.as_slice(), "author"));
            match (title, author) {
                (Some(t), Some(a)) => Some(ItemSlotExtra::Book(Book { title: Some(t), author: Some(a), pages })),
                _ => None,
            }
        } else {
            Some(ItemSlotExtra::Book(Book { title: None, author: None, pages }))
        }
    } else {
        Some(ItemSlotExtra::Unknown(es))
    }
}

/// An item of a storage block.
fn read_item<'n>(t: Tag<'n>) -> (res: Option<ItemSlot<'n>>)
    ensures
        match spec_item(tag_view(t)) {
            Some(i) => (res matches Some(x) && item_view(x) == i),
            None => res is None,
        },
{
    proof {
        reveal_strlit("minecraft:");
    }
    match t {
        Tag::Compound(mut es) => {
            let id = match opt_str(lookup(es.as_slice(), "id")) {
                Some(id) => id,
                None => {
                    return None;
                },
            };
            let count = match lookup(es.as_slice(), "Count") {
                Some(Tag::Byte(c)) => *c,
                _ => {
                    return None;
                },
            };
            if !starts_with(id, id.unicode_len(), "minecraft:") || count < 0 {
                return None;
            }
            let extra = match take_tag(&mut es, "tag") {
                None => None,
                Some(Tag::Compound(tes)) => match read_item_extra(tes, id) {
                    Some(e) => Some(e),
                    None => {
                        return None;
                    },
                },
                Some(_) => {
                    return None;
                },
            };
            Some(ItemSlot { item: id, count: count as u8, extra })
        },
        _ => None,
    }
}

/// The items of a storage block.
fn read_items<'n>(ts: Vec<Tag<'n>>) -> (res: Option<Vec<ItemSlot<'n>>>)
    ensures
        match spec_items(tags_view(ts@)) {
            Some(is) => (res matches Some(v) && items_view(v@) == is),
            None => res is None,
        },
{
    let ghost all = ts@;
    let mut rest = ts;
    let mut items: Vec<ItemSlot<'n>> = Vec::new();
    let mut i: usize = 0;
    assert(all.take(0) =~= Seq::<Tag<'n>>::empty());
    assert(items_view(items@) =~= Seq::<ItemSlotView>::empty());
    assert(all.skip(0) =~= all);
    let n = rest.len();
    while i < n
        invariant
            all == ts@,
            n == all.len(),
            i <= all.len(),
            rest@ == all.skip(i as int),
            spec_items(tags_view(all.take(i as int))) == Some(items_view(items@)),
        decreases n - i,
    {
        proof {
            lemma_tags_view_next(all, i as int);
        }
        let t = rest.remove(0);
        assert(t == all[i as int]);
        assert(rest@ =~= all.skip(i as int + 1));
        match read_item(t) {
            Some(x) => {
                assert(tags_view(all.take(i as int)).push(tag_view(all[i as int])).drop_last() =~= tags_view(
                    all.take(i as int),
                ));
                let ghost before = items@;
                items.push(x);
                assert(items_view(items@) =~= items_view(before).push(item_view(x)));
            },
            None => {
                proof {
                    assert(tags_view(all.take(i as int)).push(tag_view(all[i as int])).drop_last() =~= tags_view(
                        all.take(i as int),
                    ));
                    assert(spec_item(tag_view(all[i as int])) is None);
                    assert(spec_items(tags_view(all.take(i as int + 1))) is None);
                    lemma_tags_view_take(all, i as int + 1);
                    lemma_items_prefix(tags_view(all), i as int + 1);
                    assert(spec_items(tags_view(all)) is None);
                }
                return None;
            },
        }
        i = i + 1;
    }
    assert(all.take(i as int) =~= all);
    Some(items)
}

/// The text of the four lines of a sign.
fn read_sign_lines<'n>(es: &Vec<(&'n str, Tag<'n>)>) -> (res: Option<Vec<String>>)
    ensures
        match spec_sign_lines(entries_view(es@)) {
            Some(ls) => (res matches Some(v) && strings_view(v@) == ls),
            None => res is None,
        },
{
    let j1 = opt_str(lookup(es.as_slice(), "Text1"));
    let j2 = opt_str(lookup(es.as_slice(), "Text2"));
    let j3 = opt_str(lookup(es.as_slice(), "Text3"));
    let j4 = opt_str(lookup(es.as_slice(), "Text4"));
    match (j1, j2, j3, j4) {
        (Some(j1), Some(j2), Some(j3), Some(j4)) => {
            match (read_chat_line(j1), read_chat_line(j2), read_chat_line(j3), read_chat_line(j4)) {
                (Some(l1), Some(l2), Some(l3), Some(l4)) => {
                    let v = vec![l1, l2, l3, l4];
                    assert(strings_view(v@) =~= seq![l1@, l2@, l3@, l4@]);
                    Some(v)
                },
                _ => None,
            }
        },
        _ => None,
    }
}

/// What the block entity of id `id` with data `es` is; `Some(None)` for one
/// that is not read.
fn read_kind<'n>(id: &'n str, es: Vec<(&'n str, Tag<'n>)>) -> (res: Option<Option<BlockEntityKind<'n>>>)
    ensures
        match spec_kind(id@, entries_view(es@)) {
            Some(Some(k)) => (res matches Some(Some(x)) && kind_view(x) == k),
            Some(None) => res matches Some(None),
            None => res is None,
        },
{
    let mut es = es;
    let ghost ev = entries_view(es@);
    if is_namespaced(id, "sign") {
        match read_sign_lines(&es) {
            Some(text) => Some(Some(BlockEntityKind::Sign(Sign { text }))),
            None => None,
        }
    } else if is_namespaced(id, "chest") || is_namespaced(id, "trapped_chest") || is_namespaced(id, "barrel")
        || is_namespaced(id, "hopper") || is_namespaced(id, "dispenser") || is_namespaced(id, "dropper")
        || is_namespaced(id, "furnace") || is_namespaced(id, "blast_furnace") || is_namespaced(id, "smoker")
        || is_namespaced(id, "brewing_stand") {
        let ts = match take_tag(&mut es, "Items") {
            None => Vec::new(),
            Some(Tag::List(ts)) => ts,
            Some(_) => {
                return None;
            },
        };
        assert(tags_view(ts@) == optional_list(entries_lookup(ev, "Items"@)).unwrap());
        match read_items(ts) {
            Some(items) => Some(Some(BlockEntityKind::Storage(Storage { items }))),
            None => None,
        }
    } else if is_namespaced(id, "bed") {
        Some(Some(BlockEntityKind::Bed))
    } else if is_namespaced(id, "bell") {
        Some(Some(BlockEntityKind::Bell))
    } else {
        Some(None)
    }
}

/// A block entity; `Some(None)` for one that is not read.
fn read_entity<'n>(t: Tag<'n>) -> (res: Option<Option<BlockEntity<'n>>>)
    ensures
        match spec_entity(tag_view(t)) {
            Some(Some(b)) => (res matches Some(Some(x)) && entity_view(x) == b),
            Some(None) => res matches Some(None),
            None => res is None,
        },
{
    match t {
        Tag::Compound(es) => {
            let id = opt_str(lookup(es.as_slice(), "id"));
            let x = match lookup(es.as_slice(), "x") {
                Some(Tag::Int(v)) => Some(*v),
                _ => None,
            };
            let y = match lookup(es.as_slice(), "y") {
                Some(Tag::Int(v)) => Some(*v),
                _ => None,
            };
            let z = match lookup(es.as_slice(), "z") {
                Some(Tag::Int(v)) => Some(*v),
                _ => None,
            };
            match (id, x, y, z) {
                (Some(id), Some(x), Some(y), Some(z)) => match read_kind(id, es) {
                    Some(Some(kind)) => Some(Some(BlockEntity { position: PositionInt { x, y, z }, kind })),
                    Some(None) => Some(None),
                    None => None,
                },
                _ => None,
            }
        },
        _ => None,
    }
}

/// The block entities of a list, in order, leaving out those not read.
fn read_entities<'n>(ts: Vec<Tag<'n>>) -> (res: Option<Vec<BlockEntity<'n>>>)
    ensures
        match spec_entities(tags_view(ts@)) {
            Some(bs) => (res matches Some(v) && entities_view(v@) == bs),
            None => res is None,
        },
{
    let ghost all = ts@;
    let mut rest = ts;
    let mut out: Vec<BlockEntity<'n>> = Vec::new();
    let mut i: usize = 0;
    assert(all.take(0) =~= Seq::<Tag<'n>>::empty());
    assert(entities_view(out@) =~= Seq::<BlockEntityView>::empty());
    assert(all.skip(0) =~= all);
    let n = rest.len();
    while i < n
        invariant
            all == ts@,
            n == all.len(),
            i <= all.len(),
            rest@ == all.skip(i as int),
            spec_entities(tags_view(all.take(i as int))) == Some(entities_view(out@)),
        decreases n - i,
    {
        proof {
            lemma_tags_view_next(all, i as int);
        }
        let t = rest.remove(0);
        assert(t == all[i as int]);
        assert(rest@ =~= all.skip(i as int + 1));
        match read_entity(t) {
            Some(Some(b)) => {
                assert(tags_view(all.take(i as int)).push(tag_view(all[i as int])).drop_last() =~= tags_view(
                    all.take(i as int),
                ));
                let ghost before = out@;
                out.push(b);
                assert(entities_view(out@) =~= entities_view(before).push(entity_view(b)));
            },
            Some(None) => {
                assert(tags_view(all.take(i as int)).push(tag_view(all[i as int])).drop_last() =~= tags_view(
                    all.take(i as int),
                ));
            },
            None => {
                proof {
                    assert(tags_view(all.take(i as int)).push(tag_view(all[i as int])).drop_last() =~= tags_view(
                        all.take(i as int),
                    ));
                    lemma_tags_view_take(all, i as int + 1);
                    lemma_entities_prefix(tags_view(all), i as int + 1);
                }
                return None;
            },
        }
        i = i + 1;
    }
    assert(all.take(i as int) =~= all);
    Some(out)
}

/// Reads the block entities of a chunk from its NBT data (decompressed, as
/// `region::chunk_payload` gives it): signs with the text of their lines,
/// storage blocks with their items, beds and bells. Other block entities
/// are left out; a layout that does not match is an error.
pub fn read_chunk<'x>(buf: &'x [u8]) -> (res: Result<Chunk<'x>, ParseError>)
    ensures
        match spec_read(buf@) {
            Some((_, root, _)) => match spec_chunk(root) {
                Some(bs) => (res matches Ok(c) && entities_view(c.block_entities@) == bs),
                None => res is Err,
            },
            None => res is Err,
        },
{
    let mut reader: &'x [u8] = buf;
    let root = read(&mut reader)?;
    let mut es = match root.tag {
        Tag::Compound(es) => es,
        _ => {
            return Err(ParseError::Invalid);
        },
    };
    let ghost ev = entries_view(es@);
    let version = match lookup(es.as_slice(), "DataVersion") {
        Some(Tag::Int(v)) => *v,
        _ => {
            return Err(ParseError::Invalid);
        },
    };
    let list = if version >= 2860 {
        match take_tag(&mut es, "block_entities") {
            Some(Tag::List(ts)) => ts,
            _ => {
                return Err(ParseError::Invalid);
            },
        }
    } else {
        match take_tag(&mut es, "Level") {
            Some(Tag::Compound(les)) => {
                let mut les = les;
                match take_tag(&mut les, "TileEntities") {
                    None => Vec::new(),
                    Some(Tag::List(ts)) => ts,
                    Some(_) => {
                        return Err(ParseError::Invalid);
                    },
                }
            },
            _ => {
                return Err(ParseError::Invalid);
            },
        }
    };
    assert(spec_entity_list(ev) == Some(tags_view(list@)));
    match read_entities(list) {
        Some(block_entities) => Ok(Chunk { block_entities }),
        None => Err(ParseError::Invalid),
    }
}

/// The storage blocks (chest, trapped chest, barrel, hopper, dispenser,
/// dropper, furnace, blast furnace, smoker, brewing stand) are read with
/// their position and the items of their `Items` list; none is left out.
pub proof fn lemma_storage_blocks_read(name: Seq<char>, es: Seq<(Seq<char>, TagView)>, x: i32, y: i32, z: i32, items: Seq<ItemSlotView>)
    requires
        name == "chest"@ || name == "trapped_chest"@ || name == "barrel"@ || name == "hopper"@ || name == "dispenser"@ || name == "dropper"@ || name == "furnace"@ || name == "blast_furnace"@ || name == "smoker"@ || name == "brewing_stand"@,
        entries_lookup(es, "id"@) == Some(TagView::String("minecraft:"@ + name)),
        entries_lookup(es, "x"@) == Some(TagView::Int(x)),
        entries_lookup(es, "y"@) == Some(TagView::Int(y)),
        entries_lookup(es, "z"@) == Some(TagView::Int(z)),
        match optional_list(entries_lookup(es, "Items"@)) {
            Some(ts) => spec_items(ts) == Some(items),
            None => false,
        },
    ensures
        spec_entity(TagView::Compound(es)) == Some(Some(
            BlockEntityView { position: PositionInt { x, y, z }, kind: KindView::Storage(items) },
        )),
{
    reveal_strlit("chest");
    reveal_strlit("trapped_chest");
    reveal_strlit("barrel");
    reveal_strlit("hopper");
    reveal_strlit("dispenser");
    reveal_strlit("dropper");
    reveal_strlit("furnace");
    reveal_strlit("blast_furnace");
    reveal_strlit("smoker");
    reveal_strlit("brewing_stand");
    reveal_strlit("sign");
    reveal_strlit("minecraft:");
    let id = "minecraft:"@ + name;
    assert(id.skip(10) =~= name);
    if namespaced(id, "sign"@) {
        assert(("minecraft:"@ + "sign"@).skip(10) =~= "sign"@);
        assert(name == "sign"@);
        assert(name.len() != 4 || name[0] != 's' || name[1] != 'i');
    }
    assert(is_storage(id));
}

/// A sign is read with its position and the text of its four lines,
/// `Text1` to `Text4` in that order.
pub proof fn lemma_sign_read(es: Seq<(Seq<char>, TagView)>, x: i32, y: i32, z: i32, j1: Seq<char>, j2: Seq<char>, j3: Seq<char>, j4: Seq<char>, l1: Seq<char>, l2: Seq<char>, l3: Seq<char>, l4: Seq<char>)
    requires
        entries_lookup(es, "id"@) == Some(TagView::String("minecraft:sign"@)),
        entries_lookup(es, "x"@) == Some(TagView::Int(x)),
        entries_lookup(es, "y"@) == Some(TagView::Int(y)),
        entries_lookup(es, "z"@) == Some(TagView::Int(z)),
        entries_lookup(es, "Text1"@) == Some(TagView::String(j1)),
        entries_lookup(es, "Text2"@) == Some(TagView::String(j2)),
        entries_lookup(es, "Text3"@) == Some(TagView::String(j3)),
        entries_lookup(es, "Text4"@) == Some(TagView::String(j4)),
        chat_line(j1) == Some(l1),
        chat_line(j2) == Some(l2),
        chat_line(j3) == Some(l3),
        chat_line(j4) == Some(l4),
    ensures
        spec_entity(TagView::Compound(es)) == Some(Some(
            BlockEntityView { position: PositionInt { x, y, z }, kind: KindView::Sign(seq![l1, l2, l3, l4]) },
        )),
{
    reveal_strlit("sign");
    reveal_strlit("minecraft:");
    reveal_strlit("minecraft:sign");
    assert("minecraft:sign"@ =~= "minecraft:"@ + "sign"@);
}

/// Beds and bells are read with their position, as what they are.
pub proof fn lemma_beds_and_bells_read(name: Seq<char>, es: Seq<(Seq<char>, TagView)>, x: i32, y: i32, z: i32)
    requires
        name == "bed"@ || name == "bell"@,
        entries_lookup(es, "id"@) == Some(TagView::String("minecraft:"@ + name)),
        entries_lookup(es, "x"@) == Some(TagView::Int(x)),
        entries_lookup(es, "y"@) == Some(TagView::Int(y)),
        entries_lookup(es, "z"@) == Some(TagView::Int(z)),
    ensures
        spec_entity(TagView::Compound(es)) == Some(Some(
            BlockEntityView { position: PositionInt { x, y, z }, kind: if name == "bed"@ { KindView::Bed } else { KindView::Bell } },
        )),
{
    reveal_strlit("chest");
    reveal_strlit("trapped_chest");
    reveal_strlit("barrel");
    reveal_strlit("hopper");
    reveal_strlit("dispenser");
    reveal_strlit("dropper");
    reveal_strlit("furnace");
    reveal_strlit("blast_furnace");
    reveal_strlit("smoker");
    reveal_strlit("brewing_stand");
    reveal_strlit("sign");
    reveal_strlit("bed");
    reveal_strlit("bell");
    reveal_strlit("minecraft:");
    let id = "minecraft:"@ + name;
    lemma_namespaced_name(name, "sign"@);
    lemma_namespaced_name(name, "chest"@);
    lemma_namespaced_name(name, "trapped_chest"@);
    lemma_namespaced_name(name, "barrel"@);
    lemma_namespaced_name(name, "hopper"@);
    lemma_namespaced_name(name, "dispenser"@);
    lemma_namespaced_name(name, "dropper"@);
    lemma_namespaced_name(name, "furnace"@);
    lemma_namespaced_name(name, "blast_furnace"@);
    lemma_namespaced_name(name, "smoker"@);
    lemma_namespaced_name(name, "brewing_stand"@);
    lemma_namespaced_name(name, "bed"@);
    assert(name != "sign"@) by {
        if name == "bell"@ {
            assert(name[1] != "sign"@[1]);
        }
    }
    assert(!is_storage(id));
    assert(namespaced(id, "bed"@) == (name == "bed"@));
}

/// An id names one block only.
proof fn lemma_namespaced_name(name: Seq<char>, n: Seq<char>)
    ensures
        namespaced("minecraft:"@ + name, n) == (name == n),
{
    reveal_strlit("minecraft:");
    if namespaced("minecraft:"@ + name, n) {
        assert(("minecraft:"@ + name).skip(10) =~= name);
        assert(("minecraft:"@ + n).skip(10) =~= n);
    }
}

} // verus!
