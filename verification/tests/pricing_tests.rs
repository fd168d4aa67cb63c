use barohead::items::{Price, PriceModifier, StoreIdentifier};
use barohead::pricing::StoreSummary;

fn plain_price(base: i32, sold: bool) -> Price {
    Price {
        baseprice: base,
        sold,
        modifiers: vec![],
    }
}

fn with_modifier(base: i32, sold: bool, store: StoreIdentifier, m: PriceModifier) -> Price {
    Price {
        baseprice: base,
        sold,
        modifiers: vec![(store, m)],
    }
}

#[test]
fn base_price_at_ordinary_store() {
    let price = plain_price(100, true);
    let s = StoreSummary::for_store(&price, StoreIdentifier::MerchantOutpost);
    assert_eq!(s.sell, Some(100));
    assert_eq!(s.buy, 30);
}

#[test]
fn specialist_store_without_modifier_does_not_sell() {
    let price = plain_price(100, true);
    let s = StoreSummary::for_store(&price, StoreIdentifier::MerchantClown);
    assert_eq!(s.sell, None);
    assert_eq!(s.buy, 30);
}

#[test]
fn half_multiplier_applies_at_both_store_classes() {
    let m = PriceModifier {
        multiplier: Some(500),
        sold: Some(true),
    };
    for store in [
        StoreIdentifier::MerchantOutpost,
        StoreIdentifier::MerchantClown,
    ] {
        let price = with_modifier(100, true, store, m.clone());
        let s = StoreSummary::for_store(&price, store);
        assert_eq!(s.sell, Some(50));
        assert_eq!(s.buy, 15);
    }
}

#[test]
fn unsold_item_at_ordinary_store() {
    let price = plain_price(100, false);
    let s = StoreSummary::for_store(&price, StoreIdentifier::MerchantCity);
    assert_eq!(s.sell, None);
    assert_eq!(s.buy, 30);
}

#[test]
fn modifier_sold_override_wins_at_ordinary_store() {
    let m = PriceModifier {
        multiplier: None,
        sold: Some(false),
    };
    let price = with_modifier(100, true, StoreIdentifier::MerchantCity, m);
    let s = StoreSummary::for_store(&price, StoreIdentifier::MerchantCity);
    assert_eq!(s.sell, None);
    assert_eq!(s.buy, 30);
}

#[test]
fn specialist_needs_explicit_sold() {
    // A modifier that stays silent about sellability does not make a
    // specialist store sell.
    let m = PriceModifier {
        multiplier: Some(2_000),
        sold: None,
    };
    let price = with_modifier(100, true, StoreIdentifier::MerchantMedical, m);
    let s = StoreSummary::for_store(&price, StoreIdentifier::MerchantMedical);
    assert_eq!(s.sell, None);
    assert_eq!(s.buy, 60);
}

#[test]
fn modifier_for_other_store_is_ignored() {
    let m = PriceModifier {
        multiplier: Some(500),
        sold: Some(true),
    };
    let price = with_modifier(100, true, StoreIdentifier::MerchantMine, m);
    let s = StoreSummary::for_store(&price, StoreIdentifier::MerchantOutpost);
    assert_eq!(s.sell, Some(100));
    assert_eq!(s.buy, 30);
}

#[test]
fn buy_price_truncates_toward_zero() {
    let s = StoreSummary::for_store(&plain_price(333, true), StoreIdentifier::MerchantCity);
    assert_eq!(s.sell, Some(333));
    assert_eq!(s.buy, 99);
    let s = StoreSummary::for_store(&plain_price(1, true), StoreIdentifier::MerchantCity);
    assert_eq!(s.sell, Some(1));
    assert_eq!(s.buy, 0);
    let s = StoreSummary::for_store(&plain_price(-105, true), StoreIdentifier::MerchantCity);
    assert_eq!(s.sell, Some(-105));
    assert_eq!(s.buy, -31);
}

#[test]
fn fractional_multiplier_truncates() {
    let m = PriceModifier {
        multiplier: Some(333),
        sold: Some(true),
    };
    let price = with_modifier(100, true, StoreIdentifier::MerchantCity, m);
    let s = StoreSummary::for_store(&price, StoreIdentifier::MerchantCity);
    // 100 * 0.333 = 33.3 -> 33; buy is 0.3 * 33.3 = 9.99 -> 9.
    assert_eq!(s.sell, Some(33));
    assert_eq!(s.buy, 9);
}

#[test]
fn specialist_store_set_is_exact() {
    let specialist = [
        StoreIdentifier::MerchantMedical,
        StoreIdentifier::MerchantEngineering,
        StoreIdentifier::MerchantArmory,
        StoreIdentifier::MerchantClown,
        StoreIdentifier::MerchantHusk,
    ];
    let ordinary = [
        StoreIdentifier::MerchantOutpost,
        StoreIdentifier::MerchantCity,
        StoreIdentifier::MerchantResearch,
        StoreIdentifier::MerchantMilitary,
        StoreIdentifier::MerchantMine,
        StoreIdentifier::MerchantTutorial,
    ];
    for store in specialist {
        assert!(StoreSummary::is_specialist_merchant(store));
    }
    for store in ordinary {
        assert!(!StoreSummary::is_specialist_merchant(store));
    }
}
