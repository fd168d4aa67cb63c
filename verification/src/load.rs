//! Construction-time helpers of the database: language-table selection,
//! text-table lookup, referential-completeness checking, and display-name
//! resolution.

use vstd::prelude::*;

use crate::db::{
    all_refs_known, deconstruct_refs_known, display_name, fabricate_refs_known, id_known,
    interesting_merchants, item_refs_known, req_ref_known, spec_interesting_merchants,
    store_display_name, table_for, text_lookup,
};
use crate::items;
use crate::items::{Deconstruct, Fabricate, Item, Language, RequiredItem};

verus! {

/// The first text table listed for a language.
pub(crate) fn find_table<'a>(
    texts: &'a Vec<(Language, Vec<(String, String)>)>,
    lang: Language,
) -> (r: Option<&'a Vec<(String, String)>>)
    ensures
        match r {
            Some(t) => table_for(texts@, lang) == Some(t@),
            None => table_for(texts@, lang) is None,
        },
{
    let n = texts.len();
    let mut i: usize = 0;
    while i < n
        invariant
            n == texts@.len(),
            i <= n,
            table_for(texts@, lang) == table_for(texts@.skip(i as int), lang),
        decreases n - i,
    {
        if texts[i].0 == lang {
            proof {
                assert(texts@.skip(i as int)[0] == texts@[i as int]);
            }
            return Some(&texts[i].1);
        }
        proof {
            assert(texts@.skip(i as int).drop_first() =~= texts@.skip(i as int + 1));
        }
        i = i + 1;
    }
    None
}

/// The first entry under a key in a flat text table.
pub(crate) fn lookup_text<'a>(table: &'a Vec<(String, String)>, key: &String) -> (r: Option<
    &'a String,
>)
    ensures
        match r {
            Some(s) => text_lookup(table@, key@) == Some(s@),
            None => text_lookup(table@, key@) is None,
        },
{
    let n = table.len();
    let mut i: usize = 0;
    proof {
        assert(table@.skip(0) =~= table@);
    }
    while i < n
        invariant
            n == table@.len(),
            i <= n,
            text_lookup(table@, key@) == text_lookup(table@.skip(i as int), key@),
        decreases n - i,
    {
        if table[i].0 == *key {
            proof {
                assert(table@.skip(i as int)[0] == table@[i as int]);
            }
            return Some(&table[i].1);
        }
        proof {
            assert(table@.skip(i as int).drop_first() =~= table@.skip(i as int + 1));
        }
        i = i + 1;
    }
    None
}

/// Whether some item of the list carries this identifier.
fn id_exists(item_list: &Vec<Item>, id: &String) -> (r: bool)
    ensures
        r == id_known(item_list@, id@),
{
    let n = item_list.len();
    let mut i: usize = 0;
    while i < n
        invariant
            n == item_list@.len(),
            i <= n,
            forall|k: int| 0 <= k < i ==> (#[trigger] item_list@[k]).id@ != id@,
        decreases n - i,
    {
        if item_list[i].id == *id {
            assert(item_list@[i as int].id@ == id@);
            return true;
        }
        i = i + 1;
    }
    false
}

/// Whether a required input names a known item.
fn req_ref_ok(item_list: &Vec<Item>, req: &RequiredItem) -> (r: bool)
    ensures
        r == req_ref_known(item_list@, *req),
{
    match &req.item {
        items::ItemRef::Id(s) => id_exists(item_list, s),
        items::ItemRef::Tag(_) => true,
    }
}

/// Whether every concrete reference of a fabrication recipe names a known
/// item.
fn fabricate_refs_ok(item_list: &Vec<Item>, f: &Fabricate) -> (r: bool)
    ensures
        r == fabricate_refs_known(item_list@, *f),
{
    let n = f.required_items.len();
    let mut k: usize = 0;
    while k < n
        invariant
            n == f.required_items@.len(),
            k <= n,
            forall|m: int| 0 <= m < k ==> req_ref_known(item_list@, #[trigger] f.required_items@[m]),
        decreases n - k,
    {
        if !req_ref_ok(item_list, &f.required_items[k]) {
            return false;
        }
        k = k + 1;
    }
    true
}

/// Whether every concrete reference of a deconstruction recipe names a known
/// item.
fn deconstruct_refs_ok(item_list: &Vec<Item>, d: &Deconstruct) -> (r: bool)
    ensures
        r == deconstruct_refs_known(item_list@, *d),
{
    let n = d.required_items.len();
    let mut k: usize = 0;
    while k < n
        invariant
            n == d.required_items@.len(),
            k <= n,
            forall|m: int| 0 <= m < k ==> req_ref_known(item_list@, #[trigger] d.required_items@[m]),
        decreases n - k,
    {
        if !req_ref_ok(item_list, &d.required_items[k]) {
            return false;
        }
        k = k + 1;
    }
    let np = d.items.len();
    let mut k: usize = 0;
    while k < np
        invariant
            np == d.items@.len(),
            k <= np,
            forall|m: int|
                0 <= m < d.required_items@.len() ==> req_ref_known(
                    item_list@,
                    #[trigger] d.required_items@[m],
                ),
            forall|m: int| 0 <= m < k ==> id_known(item_list@, (#[trigger] d.items@[m]).id@),
        decreases np - k,
    {
        if !id_exists(item_list, &d.items[k].id) {
            return false;
        }
        k = k + 1;
    }
    true
}

/// Whether every concrete reference of one item's recipes names a known item.
fn item_refs_ok(item_list: &Vec<Item>, it: &Item) -> (r: bool)
    ensures
        r == item_refs_known(item_list@, *it),
{
    let nf = it.fabricate.len();
    let mut j: usize = 0;
    while j < nf
        invariant
            nf == it.fabricate@.len(),
            j <= nf,
            forall|m: int|
                0 <= m < j ==> fabricate_refs_known(item_list@, #[trigger] it.fabricate@[m]),
        decreases nf - j,
    {
        if !fabricate_refs_ok(item_list, &it.fabricate[j]) {
            return false;
        }
        j = j + 1;
    }
    let nd = it.deconstruct.len();
    let mut j: usize = 0;
    while j < nd
        invariant
            nd == it.deconstruct@.len(),
            j <= nd,
            forall|m: int|
                0 <= m < it.fabricate@.len() ==> fabricate_refs_known(
                    item_list@,
                    #[trigger] it.fabricate@[m],
                ),
            forall|m: int|
                0 <= m < j ==> deconstruct_refs_known(item_list@, #[trigger] it.deconstruct@[m]),
        decreases nd - j,
    {
        if !deconstruct_refs_ok(item_list, &it.deconstruct[j]) {
            return false;
        }
        j = j + 1;
    }
    true
}

/// Whether every concrete recipe reference in the whole item list names a
/// known item.
pub(crate) fn check_refs(item_list: &Vec<Item>) -> (r: bool)
    ensures
        r == all_refs_known(item_list@),
{
    let n = item_list.len();
    let mut i: usize = 0;
    while i < n
        invariant
            n == item_list@.len(),
            i <= n,
            forall|k: int| 0 <= k < i ==> item_refs_known(item_list@, #[trigger] item_list@[k]),
        decreases n - i,
    {
        if !item_refs_ok(item_list, &item_list[i]) {
            return false;
        }
        i = i + 1;
    }
    true
}

/// Resolve every item's display name against the text table, falling back to
/// the raw identifier.
pub(crate) fn resolve_names(table: &Vec<(String, String)>, item_list: &Vec<Item>) -> (names: Vec<
    String,
>)
    ensures
        names@.len() == item_list@.len(),
        forall|h: int|
            0 <= h < item_list@.len() ==> (#[trigger] names@[h])@ == display_name(
                table@,
                item_list@[h],
            ),
{
    let n = item_list.len();
    let mut names: Vec<String> = Vec::new();
    let mut h: usize = 0;
    while h < n
        invariant
            n == item_list@.len(),
            h <= n,
            names@.len() == h,
            forall|k: int|
                0 <= k < h ==> (#[trigger] names@[k])@ == display_name(table@, item_list@[k]),
        decreases n - h,
    {
        let key = item_list[h].name_text_key();
        match lookup_text(table, &key) {
            Some(s) => names.push(s.clone()),
            None => names.push(item_list[h].id.clone()),
        }
        h = h + 1;
    }
    names
}

/// Resolve every tracked store's display name against the text table, falling
/// back to the raw key.
pub(crate) fn resolve_store_names(table: &Vec<(String, String)>) -> (names: Vec<String>)
    ensures
        names@.len() == spec_interesting_merchants().len(),
        forall|s: int|
            0 <= s < spec_interesting_merchants().len() ==> (#[trigger] names@[s])@
                == store_display_name(table@, spec_interesting_merchants()[s]),
{
    let merchants = interesting_merchants();
    let n = merchants.len();
    let mut names: Vec<String> = Vec::new();
    let mut s: usize = 0;
    while s < n
        invariant
            n == spec_interesting_merchants().len(),
            merchants@ == spec_interesting_merchants(),
            s <= n,
            names@.len() == s,
            forall|k: int|
                0 <= k < s ==> (#[trigger] names@[k])@ == store_display_name(
                    table@,
                    spec_interesting_merchants()[k],
                ),
        decreases n - s,
    {
        let key = merchants[s].name_text_key();
        match lookup_text(table, &key) {
            Some(t) => names.push(t.clone()),
            None => names.push(key),
        }
        s = s + 1;
    }
    names
}

} // verus!
