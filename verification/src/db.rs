//! The database facade: the object constructed once at startup from the raw
//! item database, owning the interner, the item table, both cross-reference
//! indexes and the translation tables, and answering all queries.

use std::rc::Rc;

use vstd::prelude::*;

use crate::interner::Interner;
use crate::items;
use crate::items::{Deconstruct, Fabricate, Item, ItemDB, Language, StoreIdentifier};

verus! {

/// An opaque, copyable, totally ordered handle to one item of the database
/// that issued it. Handles are only meaningful together with that same
/// database.
#[derive(Debug, Clone, Copy, PartialEq, Eq, Structural, PartialOrd, Ord, Hash)]
pub struct ItemRef {
    item_id: usize,
}

impl ItemRef {
    /// The handle's index into the item table.
    pub closed spec fn spec_id(self) -> int {
        self.item_id as int
    }

    /// Make the handle for an item-table index.
    pub(crate) fn from_handle(h: usize) -> (r: Self)
        ensures
            r.spec_id() == h,
    {
        ItemRef { item_id: h }
    }
}

/// A handle is nothing but its index: two handles with the same index are
/// the same handle.
pub broadcast proof fn lemma_item_ref_injective(a: ItemRef, b: ItemRef)
    ensures
        #[trigger] a.spec_id() == #[trigger] b.spec_id() ==> a == b,
{
}

/// A handle to one fabrication recipe: the item owning it, and the recipe's
/// index in that item's fabrication list.
#[derive(Debug, Clone, Copy, PartialEq, Eq, Structural)]
pub struct FabricateRef {
    pub item_ref: ItemRef,
    pub idx: usize,
}

/// A handle to one deconstruction recipe: the item owning it, and the
/// recipe's index in that item's deconstruction list.
#[derive(Debug, Clone, Copy, PartialEq, Eq, Structural)]
pub struct DeconstructRef {
    pub item_ref: ItemRef,
    pub idx: usize,
}

/// A handle to one recipe of either kind.
#[derive(Debug, Clone, Copy, PartialEq, Eq, Structural)]
pub enum ProcessRef {
    Fabricate(FabricateRef),
    Deconstruct(DeconstructRef),
}

/// One fuzzy-search hit: the matched item, its relevance score, and the
/// character positions of the display name that matched the query.
#[derive(Debug, Clone, PartialEq)]
pub struct SearchResult {
    pub item_ref: ItemRef,
    pub score: i64,
    pub indices: Vec<usize>,
}

/// Errors a database can fail to load with. Each is fatal: the application
/// cannot run with a partially loaded database.
#[derive(Debug, Clone, Copy, PartialEq, Eq, Structural)]
pub enum LoadError {
    /// The raw database has no text table for the requested language.
    MissingLanguageTable,
    /// Two items share an identifier.
    DuplicateItemId,
    /// A recipe names a required input or a produced output whose identifier
    /// is not in the item list.
    UnknownItemReference,
}

/// Whether a required input is the concrete item `id` (a tag never is).
pub open spec fn req_item_is(r: items::RequiredItem, id: Seq<char>) -> bool {
    match r.item {
        items::ItemRef::Id(s) => s@ == id,
        items::ItemRef::Tag(_) => false,
    }
}

/// Whether a fabrication recipe lists the concrete item `id` as a required
/// input.
pub open spec fn fabricate_lists_input(f: Fabricate, id: Seq<char>) -> bool {
    exists|k: int|
        0 <= k < f.required_items@.len() && req_item_is(#[trigger] f.required_items@[k], id)
}

/// Whether a deconstruction recipe lists the concrete item `id` as a required
/// input.
pub open spec fn deconstruct_lists_input(d: Deconstruct, id: Seq<char>) -> bool {
    exists|k: int|
        0 <= k < d.required_items@.len() && req_item_is(#[trigger] d.required_items@[k], id)
}

/// Whether a deconstruction recipe yields the item `id` among its outputs.
pub open spec fn deconstruct_yields(d: Deconstruct, id: Seq<char>) -> bool {
    exists|k: int| 0 <= k < d.items@.len() && (#[trigger] d.items@[k]).id@ == id
}

/// Whether a fabrication handle points into the item table.
pub open spec fn valid_fabricate_ref(item_list: Seq<Item>, f: FabricateRef) -> bool {
    0 <= f.item_ref.spec_id() < item_list.len() && f.idx
        < item_list[f.item_ref.spec_id()].fabricate@.len()
}

/// Whether a deconstruction handle points into the item table.
pub open spec fn valid_deconstruct_ref(item_list: Seq<Item>, d: DeconstructRef) -> bool {
    0 <= d.item_ref.spec_id() < item_list.len() && d.idx
        < item_list[d.item_ref.spec_id()].deconstruct@.len()
}

/// Whether a process handle is valid and its recipe consumes the concrete
/// item `id` as a required input.
pub open spec fn process_uses(item_list: Seq<Item>, id: Seq<char>, p: ProcessRef) -> bool {
    match p {
        ProcessRef::Fabricate(f) => valid_fabricate_ref(item_list, f) && fabricate_lists_input(
            item_list[f.item_ref.spec_id()].fabricate@[f.idx as int],
            id,
        ),
        ProcessRef::Deconstruct(d) => valid_deconstruct_ref(item_list, d)
            && deconstruct_lists_input(item_list[d.item_ref.spec_id()].deconstruct@[d.idx as int], id),
    }
}

/// Whether a process handle is valid and its recipe produces the item `id`:
/// a fabrication recipe produces the item that owns it, a deconstruction
/// recipe produces its listed outputs.
pub open spec fn process_produces(item_list: Seq<Item>, id: Seq<char>, p: ProcessRef) -> bool {
    match p {
        ProcessRef::Fabricate(f) => valid_fabricate_ref(item_list, f)
            && item_list[f.item_ref.spec_id()].id@ == id,
        ProcessRef::Deconstruct(d) => valid_deconstruct_ref(item_list, d) && deconstruct_yields(
            item_list[d.item_ref.spec_id()].deconstruct@[d.idx as int],
            id,
        ),
    }
}

/// No two positions hold the same value.
pub open spec fn no_dups(s: Seq<ProcessRef>) -> bool {
    forall|i: int, j: int| 0 <= i < j < s.len() ==> s[i] != s[j]
}

/// The item a process handle belongs to.
pub open spec fn process_ref_owner(p: ProcessRef) -> int {
    match p {
        ProcessRef::Fabricate(f) => f.item_ref.spec_id(),
        ProcessRef::Deconstruct(d) => d.item_ref.spec_id(),
    }
}

/// A process handle's kind, as the builder enumerates them: fabrications
/// before deconstructions.
pub open spec fn process_ref_kind(p: ProcessRef) -> int {
    match p {
        ProcessRef::Fabricate(_) => 0,
        ProcessRef::Deconstruct(_) => 1,
    }
}

/// A process handle's index in its recipe list.
pub open spec fn process_ref_idx(p: ProcessRef) -> int {
    match p {
        ProcessRef::Fabricate(f) => f.idx as int,
        ProcessRef::Deconstruct(d) => d.idx as int,
    }
}

/// The builder's enumeration order over process handles: by owning item,
/// fabrications before deconstructions, then by recipe index.
pub open spec fn process_ref_lt(a: ProcessRef, b: ProcessRef) -> bool {
    process_ref_owner(a) < process_ref_owner(b) || (process_ref_owner(a) == process_ref_owner(b)
        && (process_ref_kind(a) < process_ref_kind(b) || (process_ref_kind(a) == process_ref_kind(
        b,
    ) && process_ref_idx(a) < process_ref_idx(b))))
}

/// The list stands in strictly ascending enumeration order (which is the
/// order the handles were inserted in).
pub open spec fn enumeration_ordered(s: Seq<ProcessRef>) -> bool {
    forall|i: int, j: int| 0 <= i < j < s.len() ==> process_ref_lt(s[i], s[j])
}

/// What one used-by index entry promises: absent exactly when no recipe
/// consumes the item; otherwise a non-empty, duplicate-free list holding
/// exactly the handles of the recipes that consume it.
pub open spec fn used_by_entry_wf(
    item_list: Seq<Item>,
    id: Seq<char>,
    entry: Option<Seq<ProcessRef>>,
) -> bool {
    match entry {
        Some(l) => l.len() > 0 && no_dups(l) && enumeration_ordered(l) && forall|p: ProcessRef|
            #![trigger l.contains(p)]
            #![trigger process_uses(item_list, id, p)]
            l.contains(p) <==> process_uses(item_list, id, p),
        None => forall|p: ProcessRef| !process_uses(item_list, id, p),
    }
}

/// What one produced-by index entry promises, dually.
pub open spec fn produced_by_entry_wf(
    item_list: Seq<Item>,
    id: Seq<char>,
    entry: Option<Seq<ProcessRef>>,
) -> bool {
    match entry {
        Some(l) => l.len() > 0 && no_dups(l) && enumeration_ordered(l) && forall|p: ProcessRef|
            #![trigger l.contains(p)]
            #![trigger process_produces(item_list, id, p)]
            l.contains(p) <==> process_produces(item_list, id, p),
        None => forall|p: ProcessRef| !process_produces(item_list, id, p),
    }
}

/// A flat table of resolved display names, keyed by dense handle.
#[derive(Debug)]
pub struct Translations {
    names: Vec<String>,
}

impl Translations {
    /// The resolved names, by handle.
    pub closed spec fn names_seq(self) -> Seq<Seq<char>> {
        self.names.deep_view()
    }

    /// The display name stored under a handle. Never fails: fallbacks were
    /// already resolved when the table was built.
    pub fn get_name(&self, key: usize) -> (r: &str)
        requires
            key < self.names_seq().len(),
        ensures
            r@ == self.names_seq()[key as int],
    {
        self.names[key].as_str()
    }

    /// The display name under a handle, as a cheaply shareable string.
    pub fn get_name_rc(&self, key: usize) -> (r: Rc<String>)
        requires
            key < self.names_seq().len(),
        ensures
            r@ == self.names_seq()[key as int],
    {
        Rc::new(self.names[key].clone())
    }

    /// Build a table from already-resolved names.
    pub fn from_names(names: Vec<String>) -> (r: Self)
        ensures
            r.names_seq() == names.deep_view(),
    {
        Translations { names }
    }
}

/// Display names of items, keyed by item handle.
#[derive(Debug)]
pub struct ItemTranslations {
    translations: Translations,
}

impl ItemTranslations {
    /// The resolved item names, by handle.
    pub closed spec fn names_seq(self) -> Seq<Seq<char>> {
        self.translations.names_seq()
    }

    /// An item's display name.
    pub fn get_name(&self, item_ref: ItemRef) -> (r: &str)
        requires
            0 <= item_ref.spec_id() < self.names_seq().len(),
        ensures
            r@ == self.names_seq()[item_ref.spec_id()],
    {
        self.translations.get_name(item_ref.item_id)
    }

    /// An item's display name, as a cheaply shareable string.
    pub fn get_name_rc(&self, item_ref: ItemRef) -> (r: Rc<String>)
        requires
            0 <= item_ref.spec_id() < self.names_seq().len(),
        ensures
            r@ == self.names_seq()[item_ref.spec_id()],
    {
        self.translations.get_name_rc(item_ref.item_id)
    }

    /// Wrap an already-built name table.
    pub fn new(translations: Translations) -> (r: Self)
        ensures
            r.names_seq() == translations.names_seq(),
    {
        ItemTranslations { translations }
    }
}

/// The item database: the interner, the item table, both cross-reference
/// indexes, and the translation tables. Built once by [`DB::from`] and
/// immutable afterwards.
#[derive(Debug)]
pub struct DB {
    item_ids: Interner,
    items: Vec<Item>,
    items_used_by: Vec<Option<Vec<ProcessRef>>>,
    items_produced_by: Vec<Option<Vec<ProcessRef>>>,
    item_translations: ItemTranslations,
    store_translations: Translations,
}

impl DB {
    /// The item table, by handle.
    pub closed spec fn items_seq(self) -> Seq<Item> {
        self.items@
    }

    /// The interned item identifiers, by handle.
    pub closed spec fn ids_seq(self) -> Seq<Seq<char>> {
        self.item_ids.view()
    }

    /// The resolved item display names, by handle.
    pub closed spec fn names_seq(self) -> Seq<Seq<char>> {
        self.item_translations.names_seq()
    }

    /// The used-by index, by handle.
    pub closed spec fn used_by_seq(self) -> Seq<Option<Seq<ProcessRef>>> {
        Seq::new(
            self.items_used_by@.len(),
            |i: int|
                match self.items_used_by@[i] {
                    Some(v) => Some(v@),
                    None => None,
                },
        )
    }

    /// The produced-by index, by handle.
    pub closed spec fn produced_by_seq(self) -> Seq<Option<Seq<ProcessRef>>> {
        Seq::new(
            self.items_produced_by@.len(),
            |i: int|
                match self.items_produced_by@[i] {
                    Some(v) => Some(v@),
                    None => None,
                },
        )
    }

    /// The resolved store display names, keyed by position in
    /// [`spec_interesting_merchants`].
    pub closed spec fn store_names_seq(self) -> Seq<Seq<char>> {
        self.store_translations.names_seq()
    }

    /// Everything the construction of a database establishes and every later
    /// query relies on: all tables are parallel, identifiers are unique and
    /// agree with the interner, and both cross-reference indexes hold exactly
    /// the recipe handles the item list demands.
    pub open spec fn wf(self) -> bool {
        let n = self.items_seq().len();
        &&& self.ids_seq().len() == n
        &&& self.names_seq().len() == n
        &&& self.used_by_seq().len() == n
        &&& self.produced_by_seq().len() == n
        &&& self.store_names_seq().len() == spec_interesting_merchants().len()
        &&& forall|i: int| 0 <= i < n ==> (#[trigger] self.items_seq()[i].id@) == self.ids_seq()[i]
        &&& forall|i: int, j: int|
            0 <= i < j < n ==> self.ids_seq()[i] != self.ids_seq()[j]
        &&& forall|h: int|
            0 <= h < n ==> used_by_entry_wf(
                self.items_seq(),
                self.ids_seq()[h],
                #[trigger] self.used_by_seq()[h],
            )
        &&& forall|h: int|
            0 <= h < n ==> produced_by_entry_wf(
                self.items_seq(),
                self.ids_seq()[h],
                #[trigger] self.produced_by_seq()[h],
            )
    }

    /// Build the database from a raw item database: intern the identifiers,
    /// keep the item table, resolve the item and store display names against
    /// the English text table, and build both cross-reference indexes.
    ///
    /// Loading succeeds exactly when the English text table is present, the
    /// item identifiers are unique, and every concrete recipe reference names
    /// a known item; each failure is fatal and reported as the corresponding
    /// error.
    pub fn from(itemdb: ItemDB) -> (r: Result<DB, LoadError>)
        ensures
            r is Ok <==> (table_for(itemdb.texts@, Language::English) is Some && ids_distinct(
                itemdb.items@,
            ) && all_refs_known(itemdb.items@)),
            match r {
                Ok(db) => {
                    &&& db.wf()
                    &&& db.items_seq() == itemdb.items@
                    &&& forall|h: int|
                        0 <= h < itemdb.items@.len() ==> #[trigger] db.names_seq()[h]
                            == display_name(english_table(itemdb.texts@), itemdb.items@[h])
                    &&& forall|s: int|
                        0 <= s < spec_interesting_merchants().len()
                            ==> #[trigger] db.store_names_seq()[s] == store_display_name(
                            english_table(itemdb.texts@),
                            spec_interesting_merchants()[s],
                        )
                },
                Err(e) => match e {
                    LoadError::MissingLanguageTable => table_for(
                        itemdb.texts@,
                        Language::English,
                    ) is None,
                    LoadError::DuplicateItemId => table_for(itemdb.texts@, Language::English) is Some
                        && !ids_distinct(itemdb.items@),
                    LoadError::UnknownItemReference => table_for(
                        itemdb.texts@,
                        Language::English,
                    ) is Some && ids_distinct(itemdb.items@) && !all_refs_known(itemdb.items@),
                },
            },
    {
        let table = match crate::load::find_table(&itemdb.texts, Language::English) {
            Some(t) => t,
            None => {
                return Err(LoadError::MissingLanguageTable);
            },
        };
        let n = itemdb.items.len();
        let mut ids = Interner::new();
        let mut i: usize = 0;
        while i < n
            invariant
                n == itemdb.items@.len(),
                i <= n,
                ids.view().len() == i,
                ids.distinct(),
                forall|k: int| 0 <= k < i ==> ids.view()[k] == (#[trigger] itemdb.items@[k]).id@,
                table_for(itemdb.texts@, Language::English) is Some,
            decreases n - i,
        {
            match ids.resolve(itemdb.items[i].id.as_str()) {
                Some(h) => {
                    proof {
                        assert(itemdb.items@[h as int].id@ == itemdb.items@[i as int].id@);
                        assert(!ids_distinct(itemdb.items@));
                    }
                    return Err(LoadError::DuplicateItemId);
                },
                None => {
                    ids.intern(itemdb.items[i].id.as_str());
                },
            }
            i = i + 1;
        }
        proof {
            assert(ids_distinct(itemdb.items@)) by {
                assert forall|a: int, b: int| 0 <= a < b < n implies (
                #[trigger] itemdb.items@[a]).id@ != (#[trigger] itemdb.items@[b]).id@ by {
                    assert(ids.view()[a] == itemdb.items@[a].id@);
                    assert(ids.view()[b] == itemdb.items@[b].id@);
                }
            }
        }
        if !crate::load::check_refs(&itemdb.items) {
            return Err(LoadError::UnknownItemReference);
        }
        let names = crate::load::resolve_names(table, &itemdb.items);
        let store_names = crate::load::resolve_store_names(table);
        let indexes = crate::index::build_indexes(&itemdb.items);
        let db = DB {
            item_ids: ids,
            items: itemdb.items,
            items_used_by: indexes.0,
            items_produced_by: indexes.1,
            item_translations: ItemTranslations::new(Translations::from_names(names)),
            store_translations: Translations::from_names(store_names),
        };
        proof {
            assert forall|h: int| 0 <= h < db.items_seq().len() implies used_by_entry_wf(
                db.items_seq(),
                db.ids_seq()[h],
                #[trigger] db.used_by_seq()[h],
            ) by {
                assert(db.ids_seq()[h] == db.items_seq()[h].id@);
                assert(db.used_by_seq()[h] == crate::index::row_view(db.items_used_by@[h]));
            }
            assert forall|h: int| 0 <= h < db.items_seq().len() implies produced_by_entry_wf(
                db.items_seq(),
                db.ids_seq()[h],
                #[trigger] db.produced_by_seq()[h],
            ) by {
                assert(db.ids_seq()[h] == db.items_seq()[h].id@);
                assert(db.produced_by_seq()[h] == crate::index::row_view(db.items_produced_by@[h]));
            }
        }
        Ok(db)
    }

    /// The item a handle points to. Must only be called with a handle issued
    /// by this same database.
    pub fn get_item(&self, item_ref: ItemRef) -> (r: &Item)
        requires
            self.wf(),
            0 <= item_ref.spec_id() < self.items_seq().len(),
        ensures
            *r == self.items_seq()[item_ref.spec_id()],
    {
        &self.items[item_ref.item_id]
    }

    /// A handle for an identifier, or nothing when the identifier names no
    /// item of this database.
    pub fn new_item_ref(&self, id_str: &str) -> (r: Option<ItemRef>)
        requires
            self.wf(),
        ensures
            match r {
                Some(ir) => 0 <= ir.spec_id() < self.items_seq().len() && self.items_seq()[ir.spec_id()].id@
                    == id_str@,
                None => forall|i: int|
                    0 <= i < self.items_seq().len() ==> (#[trigger] self.items_seq()[i].id@) != id_str@,
            },
    {
        match self.item_ids.resolve(id_str) {
            Some(h) => Some(ItemRef { item_id: h }),
            None => None,
        }
    }

    /// The fabrication recipe a handle points to. The handle must have been
    /// enumerated from this database, so its index is in bounds.
    pub fn get_fabricate(&self, fabricate_ref: &FabricateRef) -> (r: &Fabricate)
        requires
            self.wf(),
            valid_fabricate_ref(self.items_seq(), *fabricate_ref),
        ensures
            *r == self.items_seq()[fabricate_ref.item_ref.spec_id()].fabricate@[fabricate_ref.idx as int],
    {
        let item = &self.items[fabricate_ref.item_ref.item_id];
        &item.fabricate[fabricate_ref.idx]
    }

    /// The deconstruction recipe a handle points to. The handle must have
    /// been enumerated from this database, so its index is in bounds.
    pub fn get_deconstruct(&self, deconstruct_ref: &DeconstructRef) -> (r: &Deconstruct)
        requires
            self.wf(),
            valid_deconstruct_ref(self.items_seq(), *deconstruct_ref),
        ensures
            *r == self.items_seq()[deconstruct_ref.item_ref.spec_id()].deconstruct@[deconstruct_ref.idx as int],
    {
        let item = &self.items[deconstruct_ref.item_ref.item_id];
        &item.deconstruct[deconstruct_ref.idx]
    }

    /// The recipes that consume this item as a concrete required input, or
    /// nothing when no recipe does.
    pub fn get_used_by(&self, item_ref: ItemRef) -> (r: Option<&Vec<ProcessRef>>)
        requires
            self.wf(),
            0 <= item_ref.spec_id() < self.items_seq().len(),
        ensures
            match r {
                Some(l) => self.used_by_seq()[item_ref.spec_id()] == Some(l@),
                None => self.used_by_seq()[item_ref.spec_id()] is None,
            },
    {
        let entry: &Option<Vec<ProcessRef>> = &self.items_used_by[item_ref.item_id];
        match entry {
            Some(l) => Some(l),
            None => None,
        }
    }

    /// An item's resolved display name. Never fails: a missing translation
    /// already fell back to the raw identifier when the database was built.
    pub fn get_item_name(&self, item_ref: ItemRef) -> (r: &str)
        requires
            self.wf(),
            0 <= item_ref.spec_id() < self.items_seq().len(),
        ensures
            r@ == self.names_seq()[item_ref.spec_id()],
    {
        self.item_translations.get_name(item_ref)
    }

    /// An item's resolved display name, as a cheaply shareable string.
    pub fn get_item_name_rc(&self, item_ref: ItemRef) -> (r: Rc<String>)
        requires
            self.wf(),
            0 <= item_ref.spec_id() < self.items_seq().len(),
        ensures
            r@ == self.names_seq()[item_ref.spec_id()],
    {
        self.item_translations.get_name_rc(item_ref)
    }

    /// A store's resolved display name, by position in
    /// [`spec_interesting_merchants`].
    pub fn get_store_name(&self, slot: usize) -> (r: &str)
        requires
            self.wf(),
            slot < spec_interesting_merchants().len(),
        ensures
            r@ == self.store_names_seq()[slot as int],
    {
        self.store_translations.get_name(slot)
    }

    /// Fuzzy-search the item display names. Every item whose name the matcher
    /// accepts for the query appears exactly once, with the matcher's score
    /// and highlight positions; the result is ordered by non-increasing
    /// score. Ties keep ascending handle order, so one call is deterministic.
    /// An item whose whole display name equals the query is always among the
    /// results. An empty query matches every item with score zero.
    pub fn search(&self, query: &str) -> (results: Vec<SearchResult>)
        requires
            self.wf(),
        ensures
            sorted_by_score_desc(results@),
            sorted_lexicographic(results@),
            forall|k: int|
                0 <= k < results@.len() ==> result_matches(*self, query@, #[trigger] results@[k]),
            forall|g: int|
                0 <= g < self.items_seq().len() && (#[trigger] crate::matcher::fuzzy_match_of(
                    self.names_seq()[g],
                    query@,
                )) is Some ==> has_handle(results@, g),
            forall|k1: int, k2: int|
                0 <= k1 < k2 < results@.len() ==> results@[k1].item_ref != results@[k2].item_ref,
            forall|g: int|
                0 <= g < self.items_seq().len() && (#[trigger] self.names_seq()[g]) == query@
                    ==> has_handle(results@, g),
            query@.len() == 0 ==> (forall|g: int|
                0 <= g < self.items_seq().len() ==> has_handle(results@, g)) && (forall|k: int|
                0 <= k < results@.len() ==> (#[trigger] results@[k]).score == 0),
    {
        let n = self.items.len();
        let mut cands: Vec<SearchResult> = Vec::new();
        let mut h: usize = 0;
        while h < n
            invariant
                self.wf(),
                n == self.items_seq().len(),
                h <= n,
                forall|k: int|
                    0 <= k < cands@.len() ==> result_matches(*self, query@, #[trigger] cands@[k]),
                forall|k1: int, k2: int|
                    0 <= k1 < k2 < cands@.len() ==> cands@[k1].item_ref.spec_id()
                        < cands@[k2].item_ref.spec_id(),
                forall|k: int|
                    0 <= k < cands@.len() ==> (#[trigger] cands@[k]).item_ref.spec_id() < h,
                forall|g: int|
                    0 <= g < h && (#[trigger] crate::matcher::fuzzy_match_of(
                        self.names_seq()[g],
                        query@,
                    )) is Some ==> has_handle(cands@, g),
                forall|g: int|
                    0 <= g < h && (#[trigger] self.names_seq()[g]) == query@
                        ==> crate::matcher::fuzzy_match_of(self.names_seq()[g], query@) is Some,
                query@.len() == 0 ==> forall|g: int|
                    0 <= g < h ==> ((#[trigger] crate::matcher::fuzzy_match_of(
                        self.names_seq()[g],
                        query@,
                    )) matches Some(si) && si.0 == 0),
            decreases n - h,
        {
            let item_ref = ItemRef { item_id: h };
            let name = self.item_translations.get_name(item_ref);
            match crate::matcher::fuzzy_indices(name, query) {
                Some(si) => {
                    let ghost prev = cands@;
                    let hit = SearchResult { item_ref, score: si.0, indices: si.1 };
                    cands.push(hit);
                    proof {
                        assert(has_handle(cands@, h as int)) by {
                            assert(cands@[cands@.len() - 1].item_ref.spec_id() == h as int);
                        }
                        assert forall|g: int| 0 <= g < h && has_handle(prev, g) implies has_handle(
                            cands@,
                            g,
                        ) by {
                            let k = choose|k: int|
                                0 <= k < prev.len() && (#[trigger] prev[k]).item_ref.spec_id() == g;
                            assert(cands@[k].item_ref.spec_id() == g);
                        }
                    }
                },
                None => {},
            }
            h = h + 1;
        }
        let mut out: Vec<SearchResult> = Vec::new();
        while cands.len() > 0
            invariant
                self.wf(),
                n == self.items_seq().len(),
                forall|k: int|
                    0 <= k < cands@.len() ==> result_matches(*self, query@, #[trigger] cands@[k]),
                forall|k: int|
                    0 <= k < out@.len() ==> result_matches(*self, query@, #[trigger] out@[k]),
                sorted_lexicographic(out@),
                forall|k1: int, k2: int|
                    0 <= k1 < k2 < cands@.len() ==> cands@[k1].item_ref.spec_id()
                        < cands@[k2].item_ref.spec_id(),
                forall|k1: int, k2: int|
                    0 <= k1 < out@.len() && 0 <= k2 < cands@.len() ==> out@[k1].item_ref.spec_id()
                        < cands@[k2].item_ref.spec_id(),
                forall|g: int|
                    0 <= g < n && (#[trigger] crate::matcher::fuzzy_match_of(
                        self.names_seq()[g],
                        query@,
                    )) is Some ==> has_handle(out@, g) || has_handle(cands@, g),
                forall|g: int|
                    0 <= g < n && (#[trigger] self.names_seq()[g]) == query@
                        ==> crate::matcher::fuzzy_match_of(self.names_seq()[g], query@) is Some,
                query@.len() == 0 ==> forall|g: int|
                    0 <= g < n ==> ((#[trigger] crate::matcher::fuzzy_match_of(
                        self.names_seq()[g],
                        query@,
                    )) matches Some(si) && si.0 == 0),
            decreases cands.len(),
        {
            let ghost prev_c = cands@;
            let ghost prev_out = out@;
            let x = cands.remove(0);
            let mut pos: usize = 0;
            while pos < out.len() && out[pos].score >= x.score
                invariant
                    pos <= out@.len(),
                    forall|m: int| 0 <= m < pos ==> out@[m].score >= x.score,
                decreases out@.len() - pos,
            {
                pos = pos + 1;
            }
            out.insert(pos, x);
            proof {
                assert(x == prev_c[0]);
                prev_c.remove_ensures(0);
                assert(cands@ =~= prev_c.drop_first());
                prev_out.insert_ensures(pos as int, x);
                assert(sorted_lexicographic(out@)) by {
                    assert forall|i: int, j: int| 0 <= i < j < out@.len() implies (out@[i].score
                        > out@[j].score || (out@[i].score == out@[j].score
                        && out@[i].item_ref.spec_id() < out@[j].item_ref.spec_id())) by {
                        if j == pos as int {
                            assert(out@[i] == prev_out[i]);
                            assert(prev_out[i].score >= x.score);
                        } else if i == pos as int {
                            assert(out@[j] == prev_out[j - 1]);
                            assert(prev_out[pos as int].score < x.score);
                            if j - 1 > pos as int {
                                assert(prev_out[j - 1].score <= prev_out[pos as int].score);
                            }
                        } else if i < pos as int && j > pos as int {
                            assert(out@[i] == prev_out[i]);
                            assert(out@[j] == prev_out[j - 1]);
                        }
                    }
                }
                assert forall|g: int|
                    0 <= g < n && (#[trigger] crate::matcher::fuzzy_match_of(
                        self.names_seq()[g],
                        query@,
                    )) is Some implies has_handle(out@, g) || has_handle(cands@, g) by {
                    if has_handle(prev_out, g) {
                        let k = choose|k: int|
                            0 <= k < prev_out.len() && (#[trigger] prev_out[k]).item_ref.spec_id()
                                == g;
                        if k < pos as int {
                            assert(out@[k].item_ref.spec_id() == g);
                        } else {
                            assert(out@[k + 1].item_ref.spec_id() == g);
                        }
                    } else {
                        let k = choose|k: int|
                            0 <= k < prev_c.len() && (#[trigger] prev_c[k]).item_ref.spec_id() == g;
                        if k == 0 {
                            assert(out@[pos as int].item_ref.spec_id() == g);
                        } else {
                            assert(cands@[k - 1].item_ref.spec_id() == g);
                        }
                    }
                }
            }
        }
        proof {
            assert forall|k1: int, k2: int| 0 <= k1 < k2 < out@.len() implies out@[k1].item_ref
                != out@[k2].item_ref by {
                if out@[k1].item_ref == out@[k2].item_ref {
                    assert(result_matches(*self, query@, out@[k1]));
                    assert(result_matches(*self, query@, out@[k2]));
                    assert(out@[k1].score == out@[k2].score);
                }
            }
            if query@.len() == 0 {
                assert forall|g: int| 0 <= g < n implies has_handle(out@, g) by {
                    assert(crate::matcher::fuzzy_match_of(self.names_seq()[g], query@) is Some);
                }
                assert forall|k: int| 0 <= k < out@.len() implies (#[trigger] out@[k]).score
                    == 0 by {
                    assert(result_matches(*self, query@, out@[k]));
                    let g = out@[k].item_ref.spec_id();
                    assert(crate::matcher::fuzzy_match_of(self.names_seq()[g], query@) matches Some(
                        si,
                    ) && si.0 == 0);
                }
            }
        }
        out
    }

    /// The recipes that produce this item, or nothing when no recipe does.
    pub fn get_produced_by(&self, item_ref: ItemRef) -> (r: Option<&Vec<ProcessRef>>)
        requires
            self.wf(),
            0 <= item_ref.spec_id() < self.items_seq().len(),
        ensures
            match r {
                Some(l) => self.produced_by_seq()[item_ref.spec_id()] == Some(l@),
                None => self.produced_by_seq()[item_ref.spec_id()] is None,
            },
    {
        let entry: &Option<Vec<ProcessRef>> = &self.items_produced_by[item_ref.item_id];
        match entry {
            Some(l) => Some(l),
            None => None,
        }
    }
}

/// Whether one search hit is truthful for this database and query: its handle
/// is valid and its score and highlight positions are exactly what the fuzzy
/// matcher yields for that item's display name.
pub open spec fn result_matches(db: DB, query: Seq<char>, r: SearchResult) -> bool {
    0 <= r.item_ref.spec_id() < db.items_seq().len() && crate::matcher::fuzzy_match_of(
        db.names_seq()[r.item_ref.spec_id()],
        query,
    ) == Some((r.score, r.indices@))
}

/// Scores never increase along the list.
pub open spec fn sorted_by_score_desc(s: Seq<SearchResult>) -> bool {
    forall|i: int, j: int| 0 <= i < j < s.len() ==> s[i].score >= s[j].score
}

/// The full result order: strictly descending score, ties in ascending
/// handle order. Together with the membership clauses this pins the result
/// list uniquely.
pub open spec fn sorted_lexicographic(s: Seq<SearchResult>) -> bool {
    forall|i: int, j: int|
        0 <= i < j < s.len() ==> (s[i].score > s[j].score || (s[i].score == s[j].score
            && s[i].item_ref.spec_id() < s[j].item_ref.spec_id()))
}

/// Whether some hit in the list points at the item with this handle.
pub open spec fn has_handle(s: Seq<SearchResult>, g: int) -> bool {
    exists|k: int| 0 <= k < s.len() && (#[trigger] s[k]).item_ref.spec_id() == g
}

/// The text table of a language: the first table listed for it, if any.
pub open spec fn table_for(
    texts: Seq<(Language, Vec<(String, String)>)>,
    lang: Language,
) -> Option<Seq<(String, String)>>
    decreases texts.len(),
{
    if texts.len() == 0 {
        None
    } else if texts[0].0 == lang {
        Some(texts[0].1@)
    } else {
        table_for(texts.drop_first(), lang)
    }
}

/// The English text table, or an empty table when none is listed.
pub open spec fn english_table(texts: Seq<(Language, Vec<(String, String)>)>) -> Seq<
    (String, String),
> {
    match table_for(texts, Language::English) {
        Some(t) => t,
        None => Seq::empty(),
    }
}

/// A key's entry in a flat text table: the first entry under it, if any.
pub open spec fn text_lookup(table: Seq<(String, String)>, key: Seq<char>) -> Option<Seq<char>>
    decreases table.len(),
{
    if table.len() == 0 {
        None
    } else if table[0].0@ == key {
        Some(table[0].1@)
    } else {
        text_lookup(table.drop_first(), key)
    }
}

/// An item's display name: its name key's entry in the text table, falling
/// back to the raw item identifier when the key has no entry.
pub open spec fn display_name(table: Seq<(String, String)>, item: Item) -> Seq<char> {
    match text_lookup(table, items::spec_item_name_key(item)) {
        Some(s) => s,
        None => item.id@,
    }
}

/// A store's display name: its name key's entry in the text table, falling
/// back to the raw key when it has no entry.
pub open spec fn store_display_name(table: Seq<(String, String)>, store: StoreIdentifier) -> Seq<
    char,
> {
    match text_lookup(table, items::spec_store_name_key(store)) {
        Some(s) => s,
        None => items::spec_store_name_key(store),
    }
}

/// No two items of a raw database share an identifier.
pub open spec fn ids_distinct(item_list: Seq<Item>) -> bool {
    forall|i: int, j: int|
        0 <= i < j < item_list.len() ==> (#[trigger] item_list[i]).id@ != (
        #[trigger] item_list[j]).id@
}

/// Whether some item of the list carries this identifier.
pub open spec fn id_known(item_list: Seq<Item>, id: Seq<char>) -> bool {
    exists|i: int| 0 <= i < item_list.len() && (#[trigger] item_list[i]).id@ == id
}

/// Whether a required input names a known item (a tag refers to no item).
pub open spec fn req_ref_known(item_list: Seq<Item>, r: items::RequiredItem) -> bool {
    match r.item {
        items::ItemRef::Id(s) => id_known(item_list, s@),
        items::ItemRef::Tag(_) => true,
    }
}

/// Whether every concrete reference of a fabrication recipe names a known
/// item.
pub open spec fn fabricate_refs_known(item_list: Seq<Item>, f: Fabricate) -> bool {
    forall|k: int|
        0 <= k < f.required_items@.len() ==> req_ref_known(
            item_list,
            #[trigger] f.required_items@[k],
        )
}

/// Whether every concrete reference of a deconstruction recipe names a known
/// item.
pub open spec fn deconstruct_refs_known(item_list: Seq<Item>, d: Deconstruct) -> bool {
    &&& forall|k: int|
        0 <= k < d.required_items@.len() ==> req_ref_known(
            item_list,
            #[trigger] d.required_items@[k],
        )
    &&& forall|k: int|
        0 <= k < d.items@.len() ==> id_known(item_list, (#[trigger] d.items@[k]).id@)
}

/// Whether every concrete reference of one item's recipes names a known item.
pub open spec fn item_refs_known(item_list: Seq<Item>, it: Item) -> bool {
    &&& forall|j: int|
        0 <= j < it.fabricate@.len() ==> fabricate_refs_known(item_list, #[trigger] it.fabricate@[j])
    &&& forall|j: int|
        0 <= j < it.deconstruct@.len() ==> deconstruct_refs_known(
            item_list,
            #[trigger] it.deconstruct@[j],
        )
}

/// Whether every concrete recipe reference in the whole database names a
/// known item (full referential completeness of the raw input).
pub open spec fn all_refs_known(item_list: Seq<Item>) -> bool {
    forall|i: int| 0 <= i < item_list.len() ==> item_refs_known(item_list, #[trigger] item_list[i])
}

/// The stores whose pricing and names the database tracks, in display order.
pub open spec fn spec_interesting_merchants() -> Seq<StoreIdentifier> {
    seq![
        StoreIdentifier::MerchantOutpost,
        StoreIdentifier::MerchantCity,
        StoreIdentifier::MerchantResearch,
        StoreIdentifier::MerchantMilitary,
        StoreIdentifier::MerchantMine,
        StoreIdentifier::MerchantMedical,
        StoreIdentifier::MerchantEngineering,
        StoreIdentifier::MerchantArmory,
        StoreIdentifier::MerchantClown,
        StoreIdentifier::MerchantHusk,
    ]
}

/// Law (referential integrity): every handle in an item's used-by list is a
/// valid recipe reference whose recipe lists that item as a concrete required
/// input, and every handle in its produced-by list is a valid recipe
/// reference whose recipe produces it.
pub proof fn lemma_cross_reference_integrity(db: DB, h: int, p: ProcessRef)
    requires
        db.wf(),
        0 <= h < db.items_seq().len(),
    ensures
        (db.used_by_seq()[h] matches Some(l) && l.contains(p)) ==> process_uses(
            db.items_seq(),
            db.ids_seq()[h],
            p,
        ),
        (db.produced_by_seq()[h] matches Some(l) && l.contains(p)) ==> process_produces(
            db.items_seq(),
            db.ids_seq()[h],
            p,
        ),
{
}

/// Law (no duplicate cross-references): an item's used-by and produced-by
/// lists never hold the same recipe handle twice, however often the recipe
/// mentions the item.
pub proof fn lemma_no_duplicate_references(db: DB, h: int)
    requires
        db.wf(),
        0 <= h < db.items_seq().len(),
    ensures
        db.used_by_seq()[h] matches Some(l) ==> no_dups(l),
        db.produced_by_seq()[h] matches Some(l) ==> no_dups(l),
{
}

/// Law (index completeness): every recipe that consumes an item stands in
/// that item's used-by list and every recipe that produces it stands in its
/// produced-by list; an item's entry is absent exactly when no recipe touches
/// it that way.
pub proof fn lemma_index_completeness(db: DB, h: int, p: ProcessRef)
    requires
        db.wf(),
        0 <= h < db.items_seq().len(),
    ensures
        process_uses(db.items_seq(), db.ids_seq()[h], p) ==> (db.used_by_seq()[h] matches Some(l)
            && l.contains(p)),
        process_produces(db.items_seq(), db.ids_seq()[h], p) ==> (db.produced_by_seq()[h] matches Some(
            l,
        ) && l.contains(p)),
{
}

/// Law (index order): each cross-reference list stands in the builder's
/// enumeration order: by owning item, fabrications before deconstructions,
/// then by recipe index. Together with completeness this pins each list
/// uniquely.
pub proof fn lemma_index_enumeration_order(db: DB, h: int)
    requires
        db.wf(),
        0 <= h < db.items_seq().len(),
    ensures
        db.used_by_seq()[h] matches Some(l) ==> enumeration_ordered(l),
        db.produced_by_seq()[h] matches Some(l) ==> enumeration_ordered(l),
{
}

/// Law (round trip): the handle issued for an identifier dereferences to the
/// item bearing exactly that identifier.
pub proof fn lemma_item_ref_round_trip(db: DB, h: int, id: Seq<char>)
    requires
        db.wf(),
        0 <= h < db.items_seq().len(),
        db.ids_seq()[h] == id,
    ensures
        db.items_seq()[h].id@ == id,
{
}

/// Law (translation fallback): a name key with no entry in the text table
/// resolves to the raw item identifier; one with an entry resolves to exactly
/// that entry's string.
pub proof fn lemma_translation_fallback(table: Seq<(String, String)>, item: Item)
    ensures
        text_lookup(table, items::spec_item_name_key(item)) is None ==> display_name(table, item)
            == item.id@,
        forall|s: Seq<char>|
            text_lookup(table, items::spec_item_name_key(item)) == Some(s) ==> display_name(
                table,
                item,
            ) == s,
{
}

/// The stores whose pricing and names the database tracks, in display order.
/// The store translation table is keyed by position in this list.
pub fn interesting_merchants() -> (r: Vec<StoreIdentifier>)
    ensures
        r@ == spec_interesting_merchants(),
{
    let mut v: Vec<StoreIdentifier> = Vec::new();
    v.push(StoreIdentifier::MerchantOutpost);
    v.push(StoreIdentifier::MerchantCity);
    v.push(StoreIdentifier::MerchantResearch);
    v.push(StoreIdentifier::MerchantMilitary);
    v.push(StoreIdentifier::MerchantMine);
    v.push(StoreIdentifier::MerchantMedical);
    v.push(StoreIdentifier::MerchantEngineering);
    v.push(StoreIdentifier::MerchantArmory);
    v.push(StoreIdentifier::MerchantClown);
    v.push(StoreIdentifier::MerchantHusk);
    proof {
        assert(v@ =~= spec_interesting_merchants());
    }
    v
}

} // verus!
