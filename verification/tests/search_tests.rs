use barohead::db::DB;
use barohead::interner::Interner;
use barohead::items::{Item, ItemDB, Language};

fn named_item(id: &str, name: &str) -> (Item, (String, String)) {
    let item = Item {
        id: id.to_string(),
        nameidentifier: None,
        fabricate: vec![],
        deconstruct: vec![],
        price: None,
    };
    let entry = (format!("entityname.{}", id), name.to_string());
    (item, entry)
}

fn load_named(items: Vec<(&str, &str)>) -> DB {
    let mut list = vec![];
    let mut texts = vec![];
    for (id, name) in items {
        let (item, entry) = named_item(id, name);
        list.push(item);
        texts.push(entry);
    }
    DB::from(ItemDB {
        texts: vec![(Language::English, texts)],
        items: list,
    })
    .unwrap()
}

#[test]
fn search_exact_name_is_best() {
    let db = load_named(vec![
        ("steel", "Steel Bar"),
        ("copper", "Copper Wire"),
        ("stray", "Stray Elbat Reets"),
    ]);
    let results = db.search("Steel Bar");
    assert!(!results.is_empty());
    let steel = db.new_item_ref("steel").unwrap();
    assert_eq!(results[0].item_ref, steel);
    assert!(results[0].score > 0);
}

#[test]
fn search_absent_returns_empty() {
    let db = load_named(vec![("steel", "Steel Bar"), ("copper", "Copper Wire")]);
    assert!(db.search("zzzqqq").is_empty());
}

#[test]
fn search_results_sorted_by_score() {
    let db = load_named(vec![
        ("one", "abc"),
        ("two", "a b c scattered"),
        ("three", "xaxbxcx"),
        ("four", "cabbage"),
    ]);
    let results = db.search("abc");
    assert!(results.len() >= 3);
    for pair in results.windows(2) {
        assert!(pair[0].score >= pair[1].score);
    }
}

#[test]
fn search_empty_query_matches_everything_with_zero_score() {
    let db = load_named(vec![("steel", "Steel Bar"), ("copper", "Copper Wire")]);
    let results = db.search("");
    assert_eq!(results.len(), 2);
    for r in &results {
        assert_eq!(r.score, 0);
        assert!(r.indices.is_empty());
    }
}

#[test]
fn search_each_item_appears_once() {
    let db = load_named(vec![("steel", "Steel Bar"), ("stale", "Stale Beer")]);
    let results = db.search("s");
    assert_eq!(results.len(), 2);
    assert_ne!(results[0].item_ref, results[1].item_ref);
}

#[test]
fn search_ties_keep_load_order() {
    let db = load_named(vec![
        ("later", "Same Name"),
        ("earlier", "Same Name"),
    ]);
    let results = db.search("Same Name");
    assert_eq!(results.len(), 2);
    assert_eq!(results[0].score, results[1].score);
    // Equal scores keep the items' load order.
    let later = db.new_item_ref("later").unwrap();
    let earlier = db.new_item_ref("earlier").unwrap();
    assert_eq!(results[0].item_ref, later);
    assert_eq!(results[1].item_ref, earlier);
}

#[test]
fn search_reports_highlight_positions() {
    let db = load_named(vec![("steel", "Steel Bar")]);
    let results = db.search("Steel");
    assert_eq!(results.len(), 1);
    assert_eq!(results[0].indices, vec![0, 1, 2, 3, 4]);
}

#[test]
fn search_matches_gapped_subsequence() {
    let db = load_named(vec![("steel", "Steel Bar"), ("copper", "Copper Wire")]);
    let results = db.search("slbr");
    assert_eq!(results.len(), 1);
    let steel = db.new_item_ref("steel").unwrap();
    assert_eq!(results[0].item_ref, steel);
}

#[test]
fn search_uses_resolved_names_not_identifiers() {
    // The identifier would not match the query; the display name does.
    let db = load_named(vec![("itm_001", "Welding Torch")]);
    let results = db.search("Welding");
    assert_eq!(results.len(), 1);
    assert!(db.search("itm_001").is_empty());
}

#[test]
fn interner_assigns_dense_stable_handles() {
    let mut interner = Interner::new();
    assert_eq!(interner.len(), 0);
    let a = interner.intern("a");
    let b = interner.intern("b");
    assert_eq!(a, 0);
    assert_eq!(b, 1);
    // Interning is idempotent.
    assert_eq!(interner.intern("a"), a);
    assert_eq!(interner.len(), 2);
    assert_eq!(interner.resolve("b"), Some(b));
    assert_eq!(interner.resolve("c"), None);
    assert_eq!(interner.lookup(1), "b");
}
