//! What the NBT data of an item says about it: its stored enchantments.
use crate::bytes::ParseError;
use crate::enchantments::{spec_enchantment, Enchantment};
use crate::nbt::{entries_lookup, entries_view, lemma_tags_view_take, lookup, tag_view, tags_view, Tag, TagView};
use crate::protocol::{InventorySlot, InventorySlotData};
use vstd::prelude::*;

verus! {

/// An enchantment of an item, with its level.
#[derive(Debug, Clone, Copy, PartialEq, Eq)]
pub struct EnchantmentData {
    pub enchantment: Enchantment,
    pub level: u8,
}

/// What the NBT data of an item says about it.
#[derive(Debug)]
pub struct InventorySlotAttrs {
    pub enchantments: Vec<EnchantmentData>,
}

/// The item in a slot, if the slot is given and not empty.
pub fn get_item_opt<'x>(item: Option<InventorySlot<'x>>) -> (res: Option<InventorySlotData<'x>>)
    ensures
        match item {
            Some(slot) => res == slot.data,
            None => res is None,
        },
{
    match item {
        Some(slot) => slot.data,
        None => None,
    }
}

/// An enchantment as a stored enchantment of an item describes it: a
/// compound with a short `lvl` between 0 and 255 and a string `id` that
/// names a known enchantment.
pub open spec fn spec_enchantment_data(v: TagView) -> Option<EnchantmentData> {
    match v {
        TagView::Compound(es) => match entries_lookup(es, "lvl"@) {
            Some(TagView::Short(level)) => match entries_lookup(es, "id"@) {
                Some(TagView::String(id)) => match spec_enchantment(id) {
                    Some(e) => if 0 <= level <= 255 {
                        Some(EnchantmentData { enchantment: e, level: level as u8 })
                    } else {
                        None
                    },
                    None => None,
                },
                _ => None,
            },
            _ => None,
        },
        _ => None,
    }
}

/// The enchantments that a list of tags describes, in order; `None` when
/// one of them does not describe an enchantment.
pub open spec fn spec_enchantment_list(items: Seq<TagView>) -> Option<Seq<EnchantmentData>>
    decreases items.len(),
{
    if items.len() == 0 {
        Some(Seq::empty())
    } else {
        match spec_enchantment_list(items.drop_last()) {
            Some(es) => match spec_enchantment_data(items.last()) {
                Some(e) => Some(es.push(e)),
                None => None,
            },
            None => None,
        }
    }
}

/// The enchantments that the NBT data of an item stores: none without a
/// `StoredEnchantments` tag, else those that its list describes.
pub open spec fn spec_item_enchantments(entries: Seq<(Seq<char>, TagView)>) -> Option<Seq<EnchantmentData>> {
    match entries_lookup(entries, "StoredEnchantments"@) {
        None => Some(Seq::empty()),
        Some(TagView::List(items)) => spec_enchantment_list(items),
        Some(_) => None,
    }
}

fn read_enchantment_data<'n>(tag: &Tag<'n>) -> (res: Result<EnchantmentData, ParseError>)
    ensures
        match spec_enchantment_data(tag_view(*tag)) {
            Some(e) => res == Ok::<EnchantmentData, ParseError>(e),
            None => res is Err,
        },
{
    let entries = match tag {
        Tag::Compound(entries) => entries,
        _ => {
            return Err(ParseError::Invalid);
        },
    };
    let level: i16 = match lookup(entries.as_slice(), "lvl") {
        Some(Tag::Short(x)) => *x,
        _ => {
            return Err(ParseError::Invalid);
        },
    };
    let id: &str = match lookup(entries.as_slice(), "id") {
        Some(Tag::String(x)) => *x,
        _ => {
            return Err(ParseError::Invalid);
        },
    };
    let enchantment = Enchantment::from(id)?;
    if level < 0 || level > 255 {
        return Err(ParseError::Invalid);
    }
    Ok(EnchantmentData { enchantment, level: level as u8 })
}

/// Reads what the named tags `map` of an item's NBT data say about it.
pub fn deserialize_item_nbt<'n>(map: &[(&'n str, Tag<'n>)]) -> (res: Result<InventorySlotAttrs, ParseError>)
    ensures
        match spec_item_enchantments(entries_view(map@)) {
            Some(es) => (res matches Ok(a) && a.enchantments@ == es),
            None => res is Err,
        },
{
    let mut enchantments: Vec<EnchantmentData> = Vec::new();
    match lookup(map, "StoredEnchantments") {
        None => {},
        Some(Tag::List(items)) => {
            let mut i: usize = 0;
            while i < items.len()
                invariant
                    i <= items@.len(),
                    spec_enchantment_list(tags_view(items@.take(i as int))) == Some(enchantments@),
                    spec_item_enchantments(entries_view(map@)) == spec_enchantment_list(tags_view(items@)),
                decreases items@.len() - i,
            {
                let ghost prefix = items@.take(i + 1);
                assert(prefix.drop_last() =~= items@.take(i as int));
                assert(tags_view(prefix).drop_last() =~= tags_view(items@.take(i as int)));
                let e = read_enchantment_data(&items[i]);
                match e {
                    Ok(e) => {
                        enchantments.push(e);
                    },
                    Err(_) => {
                        proof {
                            lemma_tags_view_take(items@, i + 1);
                            lemma_enchantment_list_prefix(tags_view(items@), i + 1);
                        }
                        return Err(ParseError::Invalid);
                    },
                }
                i = i + 1;
            }
            assert(items@.take(i as int) =~= items@);
        },
        Some(_) => {
            return Err(ParseError::Invalid);
        },
    }
    Ok(InventorySlotAttrs { enchantments })
}

/// Where the list of tags fails to describe enchantments in a prefix, it
/// fails as a whole.
proof fn lemma_enchantment_list_prefix(items: Seq<TagView>, n: int)
    requires
        0 <= n <= items.len(),
        spec_enchantment_list(items.take(n)) is None,
    ensures
        spec_enchantment_list(items) is None,
    decreases items.len() - n,
{
    if n < items.len() {
        assert(items.take(n + 1).drop_last() =~= items.take(n));
        lemma_enchantment_list_prefix(items, n + 1);
    } else {
        assert(items.take(n) =~= items);
    }
}

/// The Roman numeral of an enchantment level from 0 to 5 (none for 0).
pub fn to_roman(number: u8) -> (res: &'static str)
    requires
        number <= 5,
    ensures
        number == 0 ==> res@ == ""@,
        number == 1 ==> res@ == "I"@,
        number == 2 ==> res@ == "II"@,
        number == 3 ==> res@ == "III"@,
        number == 4 ==> res@ == "IV"@,
        number == 5 ==> res@ == "V"@,
{
    match number {
        0 => "",
        1 => "I",
        2 => "II",
        3 => "III",
        4 => "IV",
        _ => "V",
    }
}

} // verus!
