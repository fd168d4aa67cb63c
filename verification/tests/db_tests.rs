use barohead::db::{FabricateRef, LoadError, ProcessRef, DB};
use barohead::items::{
    Deconstruct, Fabricate, Fabricator, Item, ItemDB, ItemRef, Language, ProducedItem,
    RequiredItem, StoreIdentifier,
};

fn simple_item(id: &str) -> Item {
    Item {
        id: id.to_string(),
        nameidentifier: None,
        fabricate: vec![],
        deconstruct: vec![],
        price: None,
    }
}

fn require_id(id: &str) -> RequiredItem {
    RequiredItem {
        item: ItemRef::Id(id.to_string()),
        amount: 1,
        condition: None,
    }
}

fn fabricate(required: Vec<RequiredItem>) -> Fabricate {
    Fabricate {
        suitable_fabricators: vec![Fabricator::Fabricator],
        time: 10_000,
        required_items: required,
        required_skills: vec![],
        requires_recipe: false,
        out_condition: 1_000,
        amount: 1,
        recycle: false,
    }
}

fn deconstruct(required: Vec<RequiredItem>, produced: Vec<&str>) -> Deconstruct {
    Deconstruct {
        time: 5_000,
        required_items: required,
        required_skills: vec![],
        items: produced
            .into_iter()
            .map(|id| ProducedItem {
                id: id.to_string(),
                amount: 1,
                mincondition: None,
            })
            .collect(),
    }
}

fn text(key: &str, value: &str) -> (String, String) {
    (key.to_string(), value.to_string())
}

fn load(items: Vec<Item>, texts: Vec<(String, String)>) -> DB {
    DB::from(ItemDB {
        texts: vec![(Language::English, texts)],
        items,
    })
    .unwrap()
}

#[test]
fn round_trip_item_refs() {
    let db = load(
        vec![simple_item("a"), simple_item("b"), simple_item("c")],
        vec![],
    );
    for id in ["a", "b", "c"] {
        let r = db.new_item_ref(id).unwrap();
        assert_eq!(db.get_item(r).id, id);
    }
    assert!(db.new_item_ref("zz").is_none());
    assert!(db.new_item_ref("").is_none());
}

#[test]
fn item_refs_are_stable() {
    let db = load(vec![simple_item("a"), simple_item("b")], vec![]);
    let r1 = db.new_item_ref("b").unwrap();
    let r2 = db.new_item_ref("b").unwrap();
    assert_eq!(r1, r2);
    assert_ne!(r1, db.new_item_ref("a").unwrap());
}

#[test]
fn index_completeness_end_to_end() {
    // Item a's fabrication recipe requires b and produces a; c is untouched.
    let mut a = simple_item("a");
    a.fabricate = vec![fabricate(vec![require_id("b")])];
    let db = load(vec![a, simple_item("b"), simple_item("c")], vec![]);

    let a_ref = db.new_item_ref("a").unwrap();
    let b_ref = db.new_item_ref("b").unwrap();
    let c_ref = db.new_item_ref("c").unwrap();

    let fab_ref = ProcessRef::Fabricate(FabricateRef {
        item_ref: a_ref,
        idx: 0,
    });
    let used_by_b = db.get_used_by(b_ref).unwrap();
    assert_eq!(*used_by_b, vec![fab_ref.clone()]);
    let produced_by_a = db.get_produced_by(a_ref).unwrap();
    assert_eq!(*produced_by_a, vec![fab_ref]);

    assert!(db.get_used_by(c_ref).is_none());
    assert!(db.get_produced_by(c_ref).is_none());
    assert!(db.get_used_by(a_ref).is_none());
    assert!(db.get_produced_by(b_ref).is_none());
}

#[test]
fn used_by_dereferences_to_consuming_recipe() {
    let mut a = simple_item("a");
    a.fabricate = vec![fabricate(vec![require_id("b")])];
    let db = load(vec![a, simple_item("b")], vec![]);
    let b_ref = db.new_item_ref("b").unwrap();
    let used_by = db.get_used_by(b_ref).unwrap().clone();
    match &used_by[0] {
        ProcessRef::Fabricate(fref) => {
            let recipe = db.get_fabricate(fref);
            assert_eq!(recipe.required_items[0].item, ItemRef::Id("b".to_string()));
        }
        other => panic!("expected a fabrication reference, got {:?}", other),
    }
}

#[test]
fn duplicate_required_items_collapse() {
    // The recipe lists b twice; the used-by index holds one entry.
    let mut a = simple_item("a");
    a.fabricate = vec![fabricate(vec![require_id("b"), require_id("b")])];
    let db = load(vec![a, simple_item("b")], vec![]);
    let b_ref = db.new_item_ref("b").unwrap();
    assert_eq!(db.get_used_by(b_ref).unwrap().len(), 1);
}

#[test]
fn deconstruct_cross_references() {
    let mut a = simple_item("a");
    a.deconstruct = vec![deconstruct(vec![require_id("b")], vec!["c", "c"])];
    let db = load(vec![a, simple_item("b"), simple_item("c")], vec![]);
    let a_ref = db.new_item_ref("a").unwrap();
    let b_ref = db.new_item_ref("b").unwrap();
    let c_ref = db.new_item_ref("c").unwrap();

    let used_by_b = db.get_used_by(b_ref).unwrap();
    assert_eq!(used_by_b.len(), 1);
    // The recipe lists c twice among its outputs; one index entry results.
    let produced_by_c = db.get_produced_by(c_ref).unwrap();
    assert_eq!(produced_by_c.len(), 1);
    match &produced_by_c[0] {
        ProcessRef::Deconstruct(dref) => {
            assert_eq!(dref.item_ref, a_ref);
            assert_eq!(dref.idx, 0);
            let recipe = db.get_deconstruct(dref);
            assert_eq!(recipe.items[0].id, "c");
        }
        other => panic!("expected a deconstruction reference, got {:?}", other),
    }
    // A deconstruction of a produces c, so a's own produced-by stays empty
    // unless it can be fabricated.
    assert!(db.get_produced_by(a_ref).is_none());
}

#[test]
fn cross_references_keep_enumeration_order() {
    // Both of a's recipes and b's recipe consume x: the used-by list walks
    // the items in order, fabrications before deconstructions.
    let mut a = simple_item("a");
    a.fabricate = vec![fabricate(vec![require_id("x")])];
    a.deconstruct = vec![deconstruct(vec![require_id("x")], vec!["b"])];
    let mut b = simple_item("b");
    b.fabricate = vec![fabricate(vec![require_id("x")])];
    let db = load(vec![a, b, simple_item("x")], vec![]);

    let a_ref = db.new_item_ref("a").unwrap();
    let b_ref = db.new_item_ref("b").unwrap();
    let x_ref = db.new_item_ref("x").unwrap();
    let used_by_x = db.get_used_by(x_ref).unwrap();
    assert_eq!(
        *used_by_x,
        vec![
            ProcessRef::Fabricate(FabricateRef {
                item_ref: a_ref,
                idx: 0
            }),
            ProcessRef::Deconstruct(barohead::db::DeconstructRef {
                item_ref: a_ref,
                idx: 0
            }),
            ProcessRef::Fabricate(FabricateRef {
                item_ref: b_ref,
                idx: 0
            }),
        ]
    );
}

#[test]
fn tag_inputs_do_not_index() {
    let mut a = simple_item("a");
    a.fabricate = vec![fabricate(vec![RequiredItem {
        item: ItemRef::Tag("metal".to_string()),
        amount: 1,
        condition: None,
    }])];
    let db = load(vec![a], vec![]);
    let a_ref = db.new_item_ref("a").unwrap();
    // The tag resolves to no item, so nothing is used by the recipe; the
    // recipe still produces a.
    assert!(db.get_used_by(a_ref).is_none());
    assert_eq!(db.get_produced_by(a_ref).unwrap().len(), 1);
}

#[test]
fn load_missing_language_table() {
    let r = DB::from(ItemDB {
        texts: vec![],
        items: vec![simple_item("a")],
    });
    assert_eq!(r.unwrap_err(), LoadError::MissingLanguageTable);
}

#[test]
fn load_duplicate_item_id() {
    let r = DB::from(ItemDB {
        texts: vec![(Language::English, vec![])],
        items: vec![simple_item("a"), simple_item("b"), simple_item("a")],
    });
    assert_eq!(r.unwrap_err(), LoadError::DuplicateItemId);
}

#[test]
fn load_unknown_item_reference() {
    let mut a = simple_item("a");
    a.fabricate = vec![fabricate(vec![require_id("ghost")])];
    let r = DB::from(ItemDB {
        texts: vec![(Language::English, vec![])],
        items: vec![a],
    });
    assert_eq!(r.unwrap_err(), LoadError::UnknownItemReference);
}

#[test]
fn load_unknown_produced_reference() {
    let mut a = simple_item("a");
    a.deconstruct = vec![deconstruct(vec![], vec!["ghost"])];
    let r = DB::from(ItemDB {
        texts: vec![(Language::English, vec![])],
        items: vec![a],
    });
    assert_eq!(r.unwrap_err(), LoadError::UnknownItemReference);
}

#[test]
fn translation_fallback() {
    let mut c = simple_item("c");
    c.nameidentifier = Some("cx".to_string());
    let db = load(
        vec![simple_item("a"), simple_item("b"), c],
        vec![
            text("entityname.a", "Alpha Hammer"),
            text("entityname.cx", "Gamma Wrench"),
        ],
    );
    let a_ref = db.new_item_ref("a").unwrap();
    let b_ref = db.new_item_ref("b").unwrap();
    let c_ref = db.new_item_ref("c").unwrap();
    // A key with an entry yields exactly that entry.
    assert_eq!(db.get_item_name(a_ref), "Alpha Hammer");
    // A key with no entry falls back to the raw identifier.
    assert_eq!(db.get_item_name(b_ref), "b");
    // The explicit name identifier is used for the lookup when present.
    assert_eq!(db.get_item_name(c_ref), "Gamma Wrench");
    assert_eq!(*db.get_item_name_rc(a_ref), "Alpha Hammer");
}

#[test]
fn store_names_resolve_with_fallback() {
    let db = load(
        vec![simple_item("a")],
        vec![text("storename.merchantoutpost", "Outpost Shop")],
    );
    let merchants = barohead::db::interesting_merchants();
    assert_eq!(merchants.len(), 10);
    assert_eq!(merchants[0], StoreIdentifier::MerchantOutpost);
    assert_eq!(db.get_store_name(0), "Outpost Shop");
    // No entry: the raw key is the fallback.
    assert_eq!(merchants[5], StoreIdentifier::MerchantMedical);
    assert_eq!(db.get_store_name(5), "storename.merchantmedical");
}

#[test]
fn name_text_keys() {
    let a = simple_item("a");
    assert_eq!(a.name_text_key(), "entityname.a");
    let mut c = simple_item("c");
    c.nameidentifier = Some("cx".to_string());
    assert_eq!(c.name_text_key(), "entityname.cx");
    assert_eq!(StoreIdentifier::MerchantHusk.internal_name(), "merchanthusk");
    assert_eq!(
        StoreIdentifier::MerchantHusk.name_text_key(),
        "storename.merchanthusk"
    );
}
