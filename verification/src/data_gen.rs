//! The rules by which the item and enchantment tables are kept: names of
//! game data become Rust names, and the names that a new game version adds
//! get the next free ids.
use crate::text::{push_char, str_eq};
use vstd::prelude::*;
use vstd::string::StringExecFns;

verus! {

/// A character with an ASCII lowercase letter made uppercase.
pub open spec fn ascii_upper(c: char) -> char {
    if 'a' <= c && c <= 'z' {
        ((c as int) - 32) as char
    } else {
        c
    }
}

/// A snake-case name in title case, as `title_case` makes it: the first
/// character is made uppercase; an underscore is dropped and makes the
/// character after it uppercase, and that character is kept even when it
/// is an underscore itself.
pub open spec fn spec_title_case(s: Seq<char>, next_is_upper: bool) -> Seq<char>
    decreases s.len(),
{
    if s.len() == 0 {
        Seq::empty()
    } else if next_is_upper {
        seq![ascii_upper(s[0])] + spec_title_case(s.skip(1), false)
    } else if s[0] == '_' {
        spec_title_case(s.skip(1), true)
    } else {
        seq![s[0]] + spec_title_case(s.skip(1), false)
    }
}

fn to_ascii_upper(c: char) -> (res: char)
    ensures
        res == ascii_upper(c),
{
    if 'a' <= c && c <= 'z' {
        let code: u8 = (c as u8) - 32;
        code as char
    } else {
        c
    }
}

/// The title-case form of a snake-case name, such as `BaneOfArthropods`
/// for `bane_of_arthropods`.
pub fn title_case(input: &str) -> (res: String)
    ensures
        res@ == spec_title_case(input@, true),
{
    let n = input.unicode_len();
    let mut res = String::new();
    let mut next_is_upper = true;
    let mut i: usize = 0;
    assert(input@.skip(0) =~= input@);
    assert(res@ + spec_title_case(input@, true) =~= spec_title_case(input@, true));
    while i < n
        invariant
            i <= n,
            n == input@.len(),
            res@ + spec_title_case(input@.skip(i as int), next_is_upper) == spec_title_case(input@, true),
        decreases n - i,
    {
        let c = input.get_char(i);
        let ghost t = input@.skip(i as int);
        assert(t.skip(1) =~= input@.skip(i + 1));
        let ghost before = res@;
        if next_is_upper {
            let u = to_ascii_upper(c);
            push_char(&mut res, u);
            next_is_upper = false;
            assert(before + (seq![u] + spec_title_case(t.skip(1), false)) =~= res@ + spec_title_case(
                t.skip(1),
                false,
            ));
        } else if c == '_' {
            next_is_upper = true;
        } else {
            push_char(&mut res, c);
            assert(before + (seq![c] + spec_title_case(t.skip(1), false)) =~= res@ + spec_title_case(
                t.skip(1),
                false,
            ));
        }
        i = i + 1;
    }
    assert(input@.skip(n as int) =~= Seq::<char>::empty());
    assert(res@ + Seq::<char>::empty() =~= res@);
    res
}

/// An item of the table that every version's items are mapped to.
pub struct OutItemsJson {
    pub name: String,
    pub display_name: String,
    pub id: u16,
}

/// An item as a game version lists it.
pub struct InItemsJson<'x> {
    pub name: String,
    pub display_name: &'x str,
    pub id: u16,
}

/// What a table item holds: its name, display name and id.
pub open spec fn out_item_view(i: OutItemsJson) -> (Seq<char>, Seq<char>, u16) {
    (i.name@, i.display_name@, i.id)
}

/// The table after a version item is added: unchanged when an item of that
/// name is already there, else the item is appended with the table's
/// length (in 16 bits) as its id.
pub open spec fn add_item(table: Seq<(Seq<char>, Seq<char>, u16)>, name: Seq<char>, display_name: Seq<char>) -> Seq<
    (Seq<char>, Seq<char>, u16),
> {
    if exists|k: int| 0 <= k < table.len() && (#[trigger] table[k]).0 == name {
        table
    } else {
        table.push((name, display_name, table.len() as u16))
    }
}

/// The table after the items of a version are added in order.
pub open spec fn add_items(table: Seq<(Seq<char>, Seq<char>, u16)>, items: Seq<InItemsJson>) -> Seq<
    (Seq<char>, Seq<char>, u16),
>
    decreases items.len(),
{
    if items.len() == 0 {
        table
    } else {
        add_item(add_items(table, items.drop_last()), items.last().name@, items.last().display_name@)
    }
}

/// Adds to the table the items of a version whose names it does not hold
/// yet, in order, each with the next id.
pub fn add_new_items(items: &mut Vec<OutItemsJson>, in_items: &[InItemsJson])
    ensures
        final(items)@.map_values(|i: OutItemsJson| out_item_view(i)) == add_items(
            old(items)@.map_values(|i: OutItemsJson| out_item_view(i)),
            in_items@,
        ),
{
    let ghost start = items@.map_values(|i: OutItemsJson| out_item_view(i));
    let mut j: usize = 0;
    assert(in_items@.take(0) =~= Seq::<InItemsJson>::empty());
    while j < in_items.len()
        invariant
            j <= in_items@.len(),
            items@.map_values(|i: OutItemsJson| out_item_view(i)) == add_items(start, in_items@.take(j as int)),
        decreases in_items@.len() - j,
    {
        let ghost table = items@.map_values(|i: OutItemsJson| out_item_view(i));
        let incoming = &in_items[j];
        let mut found = false;
        let mut k: usize = 0;
        while k < items.len()
            invariant
                k <= items@.len(),
                table == items@.map_values(|i: OutItemsJson| out_item_view(i)),
                !found ==> forall|m: int| 0 <= m < k ==> (#[trigger] table[m]).0 != incoming.name@,
                found ==> exists|m: int| 0 <= m < table.len() && (#[trigger] table[m]).0 == incoming.name@,
            decreases items@.len() - k,
        {
            if !found && str_eq(items[k].name.as_str(), incoming.name.as_str()) {
                assert(table[k as int].0 == incoming.name@);
                found = true;
            }
            k = k + 1;
        }
        if !found {
            let id = items.len() as u16;
            items.push(
                OutItemsJson {
                    name: String::from_str(incoming.name.as_str()),
                    display_name: String::from_str(incoming.display_name),
                    id,
                },
            );
            assert(items@.map_values(|i: OutItemsJson| out_item_view(i)) =~= table.push(
                (incoming.name@, incoming.display_name@, table.len() as u16),
            ));
        }
        assert(in_items@.take(j + 1).drop_last() =~= in_items@.take(j as int));
        j = j + 1;
    }
    assert(in_items@.take(j as int) =~= in_items@);
}

/// Merging the items of versions into a table whose ids are the positions
/// of its items keeps that: the items already there stay first and in
/// order, each new item's id is its position (in 16 bits), and no two
/// items share a name when none did before.
pub proof fn lemma_add_items_ids(table: Seq<(Seq<char>, Seq<char>, u16)>, items: Seq<InItemsJson>)
    requires
        forall|k: int| 0 <= k < table.len() ==> (#[trigger] table[k]).2 == k as u16,
        forall|i: int, j: int| 0 <= i < j < table.len() ==> (#[trigger] table[i]).0 != (#[trigger] table[j]).0,
    ensures
        add_items(table, items).len() >= table.len(),
        add_items(table, items).take(table.len() as int) == table,
        forall|k: int|
            0 <= k < add_items(table, items).len() ==> (#[trigger] add_items(table, items)[k]).2 == k as u16,
        forall|i: int, j: int|
            0 <= i < j < add_items(table, items).len() ==> (#[trigger] add_items(table, items)[i]).0 != (
            #[trigger] add_items(table, items)[j]).0,
    decreases items.len(),
{
    if items.len() == 0 {
        assert(add_items(table, items).take(table.len() as int) =~= table);
    } else {
        lemma_add_items_ids(table, items.drop_last());
        let before = add_items(table, items.drop_last());
        let r = add_items(table, items);
        assert(r == add_item(before, items.last().name@, items.last().display_name@));
        assert(r.take(table.len() as int) =~= table) by {
            assert(before.take(table.len() as int) =~= table);
        }
    }
}

} // verus!
