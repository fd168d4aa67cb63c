//! The cross-reference index builder: a construction-time pass over the full
//! item list that produces, for each item, the recipes that consume it
//! (used-by) and the recipes that produce it (produced-by).

use vstd::prelude::*;

use crate::db::{
    deconstruct_lists_input, deconstruct_yields, enumeration_ordered, fabricate_lists_input,
    no_dups, process_produces, process_ref_lt, process_uses, produced_by_entry_wf, req_item_is,
    used_by_entry_wf, DeconstructRef, FabricateRef, ItemRef, ProcessRef,
};
use crate::items;
use crate::items::{Deconstruct, Fabricate, Item};

verus! {

broadcast use vstd::seq_lib::lemma_seq_contains_after_push, crate::db::lemma_item_ref_injective;

/// The view of one optional index row.
pub(crate) open spec fn row_view(row: Option<Vec<ProcessRef>>) -> Option<Seq<ProcessRef>> {
    match row {
        Some(v) => Some(v@),
        None => None,
    }
}

/// Whether a process handle was already enumerated when the builder's walk
/// stands at item `i`, fabrication recipe `jf`, deconstruction recipe `jd`.
spec fn enumerated_before(p: ProcessRef, i: int, jf: int, jd: int) -> bool {
    match p {
        ProcessRef::Fabricate(f) => f.item_ref.spec_id() < i || (f.item_ref.spec_id() == i
            && (f.idx as int) < jf),
        ProcessRef::Deconstruct(d) => d.item_ref.spec_id() < i || (d.item_ref.spec_id() == i
            && (d.idx as int) < jd),
    }
}

/// Whether a fabrication recipe lists `id` as a concrete required input.
fn fabricate_requires(f: &Fabricate, id: &String) -> (r: bool)
    ensures
        r == fabricate_lists_input(*f, id@),
{
    let n = f.required_items.len();
    let mut k: usize = 0;
    while k < n
        invariant
            n == f.required_items@.len(),
            k <= n,
            forall|m: int| 0 <= m < k ==> !req_item_is(#[trigger] f.required_items@[m], id@),
        decreases n - k,
    {
        match &f.required_items[k].item {
            items::ItemRef::Id(s) => {
                if *s == *id {
                    assert(req_item_is(f.required_items@[k as int], id@));
                    return true;
                }
            },
            items::ItemRef::Tag(_) => {},
        }
        k = k + 1;
    }
    false
}

/// Whether a deconstruction recipe lists `id` as a concrete required input.
fn deconstruct_requires(d: &Deconstruct, id: &String) -> (r: bool)
    ensures
        r == deconstruct_lists_input(*d, id@),
{
    let n = d.required_items.len();
    let mut k: usize = 0;
    while k < n
        invariant
            n == d.required_items@.len(),
            k <= n,
            forall|m: int| 0 <= m < k ==> !req_item_is(#[trigger] d.required_items@[m], id@),
        decreases n - k,
    {
        match &d.required_items[k].item {
            items::ItemRef::Id(s) => {
                if *s == *id {
                    assert(req_item_is(d.required_items@[k as int], id@));
                    return true;
                }
            },
            items::ItemRef::Tag(_) => {},
        }
        k = k + 1;
    }
    false
}

/// Whether a deconstruction recipe yields `id` among its outputs.
fn deconstruct_produces(d: &Deconstruct, id: &String) -> (r: bool)
    ensures
        r == deconstruct_yields(*d, id@),
{
    let n = d.items.len();
    let mut k: usize = 0;
    while k < n
        invariant
            n == d.items@.len(),
            k <= n,
            forall|m: int| 0 <= m < k ==> (#[trigger] d.items@[m]).id@ != id@,
        decreases n - k,
    {
        if d.items[k].id == *id {
            assert(d.items@[k as int].id@ == id@);
            return true;
        }
        k = k + 1;
    }
    false
}

/// Appending a fresh handle keeps a list duplicate-free.
proof fn lemma_push_no_dups(l: Seq<ProcessRef>, p: ProcessRef)
    requires
        no_dups(l),
        !l.contains(p),
    ensures
        no_dups(l.push(p)),
{
    let l2 = l.push(p);
    assert forall|i: int, j: int| 0 <= i < j < l2.len() implies l2[i] != l2[j] by {
        if j == l.len() {
            assert(l.contains(l[i]));
        }
    }
}

/// All the recipes that consume the item `id` as a concrete required input,
/// in enumeration order, each at most once.
fn collect_used_by(item_list: &Vec<Item>, id: &String) -> (l: Vec<ProcessRef>)
    ensures
        no_dups(l@),
        enumeration_ordered(l@),
        forall|p: ProcessRef|
            #![trigger l@.contains(p)]
            #![trigger process_uses(item_list@, id@, p)]
            l@.contains(p) <==> process_uses(item_list@, id@, p),
{
    let n = item_list.len();
    let mut l: Vec<ProcessRef> = Vec::new();
    let mut i: usize = 0;
    while i < n
        invariant
            n == item_list@.len(),
            i <= n,
            no_dups(l@),
            enumeration_ordered(l@),
            forall|p: ProcessRef| #[trigger]
                l@.contains(p) ==> process_uses(item_list@, id@, p) && enumerated_before(
                    p,
                    i as int,
                    0,
                    0,
                ),
            forall|p: ProcessRef| #[trigger]
                process_uses(item_list@, id@, p) && enumerated_before(p, i as int, 0, 0)
                    ==> l@.contains(p),
        decreases n - i,
    {
        let item = &item_list[i];
        let nf = item.fabricate.len();
        let mut j: usize = 0;
        while j < nf
            invariant
                n == item_list@.len(),
                i < n,
                *item == item_list@[i as int],
                nf == item.fabricate@.len(),
                j <= nf,
                no_dups(l@),
                enumeration_ordered(l@),
            enumeration_ordered(l@),
                forall|p: ProcessRef| #[trigger]
                    l@.contains(p) ==> process_uses(item_list@, id@, p) && enumerated_before(
                        p,
                        i as int,
                        j as int,
                        0,
                    ),
                forall|p: ProcessRef| #[trigger]
                    process_uses(item_list@, id@, p) && enumerated_before(p, i as int, j as int, 0)
                        ==> l@.contains(p),
            decreases nf - j,
        {
            if fabricate_requires(&item.fabricate[j], id) {
                let p = ProcessRef::Fabricate(
                    FabricateRef { item_ref: ItemRef::from_handle(i), idx: j },
                );
                proof {
                    assert(!l@.contains(p));
                    lemma_push_no_dups(l@, p);
                    assert forall|a: int| 0 <= a < l@.len() implies process_ref_lt(
                        l@[a],
                        p,
                    ) by {
                        assert(l@.contains(l@[a]));
                    }
                }
                l.push(p);
            }
            j = j + 1;
        }
        let nd = item.deconstruct.len();
        let mut j: usize = 0;
        while j < nd
            invariant
                n == item_list@.len(),
                i < n,
                *item == item_list@[i as int],
                nf == item.fabricate@.len(),
                nd == item.deconstruct@.len(),
                j <= nd,
                no_dups(l@),
                enumeration_ordered(l@),
            enumeration_ordered(l@),
                forall|p: ProcessRef| #[trigger]
                    l@.contains(p) ==> process_uses(item_list@, id@, p) && enumerated_before(
                        p,
                        i as int,
                        nf as int,
                        j as int,
                    ),
                forall|p: ProcessRef| #[trigger]
                    process_uses(item_list@, id@, p) && enumerated_before(
                        p,
                        i as int,
                        nf as int,
                        j as int,
                    ) ==> l@.contains(p),
            decreases nd - j,
        {
            if deconstruct_requires(&item.deconstruct[j], id) {
                let p = ProcessRef::Deconstruct(
                    DeconstructRef { item_ref: ItemRef::from_handle(i), idx: j },
                );
                proof {
                    assert(!l@.contains(p));
                    lemma_push_no_dups(l@, p);
                    assert forall|a: int| 0 <= a < l@.len() implies process_ref_lt(
                        l@[a],
                        p,
                    ) by {
                        assert(l@.contains(l@[a]));
                    }
                }
                l.push(p);
            }
            j = j + 1;
        }
        i = i + 1;
    }
    l
}

/// All the recipes that produce the item `id`, in enumeration order, each at
/// most once: every fabrication recipe of the item itself, and every
/// deconstruction recipe listing it as an output.
fn collect_produced_by(item_list: &Vec<Item>, id: &String) -> (l: Vec<ProcessRef>)
    ensures
        no_dups(l@),
        enumeration_ordered(l@),
        forall|p: ProcessRef|
            #![trigger l@.contains(p)]
            #![trigger process_produces(item_list@, id@, p)]
            l@.contains(p) <==> process_produces(item_list@, id@, p),
{
    let n = item_list.len();
    let mut l: Vec<ProcessRef> = Vec::new();
    let mut i: usize = 0;
    while i < n
        invariant
            n == item_list@.len(),
            i <= n,
            no_dups(l@),
            enumeration_ordered(l@),
            forall|p: ProcessRef| #[trigger]
                l@.contains(p) ==> process_produces(item_list@, id@, p) && enumerated_before(
                    p,
                    i as int,
                    0,
                    0,
                ),
            forall|p: ProcessRef| #[trigger]
                process_produces(item_list@, id@, p) && enumerated_before(p, i as int, 0, 0)
                    ==> l@.contains(p),
        decreases n - i,
    {
        let item = &item_list[i];
        let owner_match = item.id == *id;
        let nf = item.fabricate.len();
        let mut j: usize = 0;
        while j < nf
            invariant
                n == item_list@.len(),
                i < n,
                *item == item_list@[i as int],
                owner_match == (item.id@ == id@),
                nf == item.fabricate@.len(),
                j <= nf,
                no_dups(l@),
                enumeration_ordered(l@),
            enumeration_ordered(l@),
                forall|p: ProcessRef| #[trigger]
                    l@.contains(p) ==> process_produces(item_list@, id@, p) && enumerated_before(
                        p,
                        i as int,
                        j as int,
                        0,
                    ),
                forall|p: ProcessRef| #[trigger]
                    process_produces(item_list@, id@, p) && enumerated_before(
                        p,
                        i as int,
                        j as int,
                        0,
                    ) ==> l@.contains(p),
            decreases nf - j,
        {
            if owner_match {
                let p = ProcessRef::Fabricate(
                    FabricateRef { item_ref: ItemRef::from_handle(i), idx: j },
                );
                proof {
                    assert(!l@.contains(p));
                    lemma_push_no_dups(l@, p);
                    assert forall|a: int| 0 <= a < l@.len() implies process_ref_lt(
                        l@[a],
                        p,
                    ) by {
                        assert(l@.contains(l@[a]));
                    }
                }
                l.push(p);
            }
            j = j + 1;
        }
        let nd = item.deconstruct.len();
        let mut j: usize = 0;
        while j < nd
            invariant
                n == item_list@.len(),
                i < n,
                *item == item_list@[i as int],
                nf == item.fabricate@.len(),
                nd == item.deconstruct@.len(),
                j <= nd,
                no_dups(l@),
                enumeration_ordered(l@),
            enumeration_ordered(l@),
                forall|p: ProcessRef| #[trigger]
                    l@.contains(p) ==> process_produces(item_list@, id@, p) && enumerated_before(
                        p,
                        i as int,
                        nf as int,
                        j as int,
                    ),
                forall|p: ProcessRef| #[trigger]
                    process_produces(item_list@, id@, p) && enumerated_before(
                        p,
                        i as int,
                        nf as int,
                        j as int,
                    ) ==> l@.contains(p),
            decreases nd - j,
        {
            if deconstruct_produces(&item.deconstruct[j], id) {
                let p = ProcessRef::Deconstruct(
                    DeconstructRef { item_ref: ItemRef::from_handle(i), idx: j },
                );
                proof {
                    assert(!l@.contains(p));
                    lemma_push_no_dups(l@, p);
                    assert forall|a: int| 0 <= a < l@.len() implies process_ref_lt(
                        l@[a],
                        p,
                    ) by {
                        assert(l@.contains(l@[a]));
                    }
                }
                l.push(p);
            }
            j = j + 1;
        }
        i = i + 1;
    }
    l
}

/// Build both cross-reference indexes in one pass over the item list. An
/// item's row is absent exactly when no recipe touches it.
pub(crate) fn build_indexes(item_list: &Vec<Item>) -> (r: (
    Vec<Option<Vec<ProcessRef>>>,
    Vec<Option<Vec<ProcessRef>>>,
))
    ensures
        r.0@.len() == item_list@.len(),
        r.1@.len() == item_list@.len(),
        forall|h: int|
            0 <= h < item_list@.len() ==> used_by_entry_wf(
                item_list@,
                item_list@[h].id@,
                row_view(#[trigger] r.0@[h]),
            ),
        forall|h: int|
            0 <= h < item_list@.len() ==> produced_by_entry_wf(
                item_list@,
                item_list@[h].id@,
                row_view(#[trigger] r.1@[h]),
            ),
{
    let n = item_list.len();
    let mut used_by: Vec<Option<Vec<ProcessRef>>> = Vec::new();
    let mut produced_by: Vec<Option<Vec<ProcessRef>>> = Vec::new();
    let mut h: usize = 0;
    while h < n
        invariant
            n == item_list@.len(),
            h <= n,
            used_by@.len() == h,
            produced_by@.len() == h,
            forall|k: int|
                0 <= k < h ==> used_by_entry_wf(
                    item_list@,
                    item_list@[k].id@,
                    row_view(#[trigger] used_by@[k]),
                ),
            forall|k: int|
                0 <= k < h ==> produced_by_entry_wf(
                    item_list@,
                    item_list@[k].id@,
                    row_view(#[trigger] produced_by@[k]),
                ),
        decreases n - h,
    {
        let used = collect_used_by(item_list, &item_list[h].id);
        if used.len() == 0 {
            proof {
                assert forall|p: ProcessRef| !process_uses(
                    item_list@,
                    item_list@[h as int].id@,
                    p,
                ) by {
                    if process_uses(item_list@, item_list@[h as int].id@, p) {
                        assert(used@.contains(p));
                    }
                }
            }
            used_by.push(None);
        } else {
            used_by.push(Some(used));
        }
        let produced = collect_produced_by(item_list, &item_list[h].id);
        if produced.len() == 0 {
            proof {
                assert forall|p: ProcessRef| !process_produces(
                    item_list@,
                    item_list@[h as int].id@,
                    p,
                ) by {
                    if process_produces(item_list@, item_list@[h as int].id@, p) {
                        assert(produced@.contains(p));
                    }
                }
            }
            produced_by.push(None);
        } else {
            produced_by.push(Some(produced));
        }
        h = h + 1;
    }
    (used_by, produced_by)
}

} // verus!
