//! The item data model: an item, its fabrication and deconstruction recipes,
//! and its store pricing, exactly as they arrive in the raw database.
//!
//! Fractional quantities of the source data (recipe times, condition bounds,
//! price multipliers) are stored in thousandths, so that every field is an
//! integer and the pricing arithmetic is exact.

use vstd::prelude::*;
use vstd::string::StringExecFns;

verus! {

/// Languages a text table may be provided in.
#[derive(Debug, Clone, Copy, PartialEq, Eq, Structural)]
pub enum Language {
    English,
}

/// Machines that can run a fabrication recipe.
#[derive(Debug, Clone, Copy, PartialEq, Eq, Structural)]
pub enum Fabricator {
    Fabricator,
    MedicalFabricator,
    VendingMachine,
}

/// Skills a recipe may require a level in.
#[derive(Debug, Clone, Copy, PartialEq, Eq, Structural)]
pub enum Skill {
    Engineering,
    Electrical,
    Medical,
    Mechanical,
    Weapons,
    Helm,
}

/// The stores whose pricing the database tracks.
#[derive(Debug, Clone, Copy, PartialEq, Eq, Structural)]
pub enum StoreIdentifier {
    MerchantOutpost,
    MerchantCity,
    MerchantResearch,
    MerchantMilitary,
    MerchantMine,
    MerchantMedical,
    MerchantEngineering,
    MerchantArmory,
    MerchantClown,
    MerchantHusk,
    MerchantTutorial,
}

/// A reference from a recipe to a required input: either a concrete item
/// identifier, or a free-form capability tag. Tags are never resolved to a
/// specific item; they render as text.
#[derive(Debug, Clone, PartialEq)]
pub enum ItemRef {
    Tag(String),
    Id(String),
}

/// Condition bounds on a required input, in thousandths.
#[derive(Debug, Clone, PartialEq)]
pub struct ConditionRange {
    pub min: Option<u32>,
    pub max: Option<u32>,
}

/// One required input of a recipe.
#[derive(Debug, Clone, PartialEq)]
pub struct RequiredItem {
    pub item: ItemRef,
    pub amount: i32,
    pub condition: Option<ConditionRange>,
}

/// One output of a deconstruction recipe. The minimum condition is in
/// thousandths.
#[derive(Debug, Clone, PartialEq)]
pub struct ProducedItem {
    pub id: String,
    pub amount: i32,
    pub mincondition: Option<u32>,
}

/// A recipe that fabricates the item owning it. The time and the output
/// condition are in thousandths (of a second, and of full condition).
#[derive(Debug, Clone, PartialEq)]
pub struct Fabricate {
    pub suitable_fabricators: Vec<Fabricator>,
    pub time: u32,
    pub required_items: Vec<RequiredItem>,
    pub required_skills: Vec<(Skill, i32)>,
    pub requires_recipe: bool,
    pub out_condition: u32,
    pub amount: i32,
    pub recycle: bool,
}

/// A recipe that breaks the item owning it down into other items. Which
/// outputs apply may depend on the input's condition in the source game;
/// deliberately, all possible outputs are listed unconditionally here.
#[derive(Debug, Clone, PartialEq)]
pub struct Deconstruct {
    pub time: u32,
    pub required_items: Vec<RequiredItem>,
    pub required_skills: Vec<(Skill, i32)>,
    pub items: Vec<ProducedItem>,
}

/// A per-store pricing override: a price multiplier in thousandths, and an
/// explicit sellability override.
#[derive(Debug, Clone, PartialEq)]
pub struct PriceModifier {
    pub multiplier: Option<u32>,
    pub sold: Option<bool>,
}

/// An item's pricing: base price, default sellability, and per-store
/// overrides (at most one per store; the first entry for a store wins).
#[derive(Debug, Clone, PartialEq)]
pub struct Price {
    pub baseprice: i32,
    pub sold: bool,
    pub modifiers: Vec<(StoreIdentifier, PriceModifier)>,
}

/// One item: a globally unique identifier, an optional explicit name-lookup
/// key (the identifier is used when absent), its recipes, and its pricing.
#[derive(Debug, Clone, PartialEq)]
pub struct Item {
    pub id: String,
    pub nameidentifier: Option<String>,
    pub fabricate: Vec<Fabricate>,
    pub deconstruct: Vec<Deconstruct>,
    pub price: Option<Price>,
}

/// The raw database a `DB` is loaded from: per-language flat text tables and
/// the full item list.
#[derive(Debug, Clone, PartialEq)]
pub struct ItemDB {
    pub texts: Vec<(Language, Vec<(String, String)>)>,
    pub items: Vec<Item>,
}

/// The identifier an item's display name is looked up under: the explicit
/// name identifier when present, the item identifier otherwise.
pub open spec fn spec_name_key_id(item: Item) -> Seq<char> {
    match item.nameidentifier {
        Some(n) => n@,
        None => item.id@,
    }
}

/// The canonical text-table key of an item's display name.
pub open spec fn spec_item_name_key(item: Item) -> Seq<char> {
    "entityname."@ + spec_name_key_id(item)
}

impl Item {
    /// The text-table key this item's display name is resolved under.
    pub fn name_text_key(&self) -> (r: String)
        ensures
            r@ == spec_item_name_key(*self),
    {
        let mut key: String = "entityname.".to_owned();
        match &self.nameidentifier {
            Some(n) => key.append(n.as_str()),
            None => key.append(self.id.as_str()),
        }
        key
    }
}

/// The internal (lower-case) name of a store.
pub open spec fn spec_internal_name(store: StoreIdentifier) -> Seq<char> {
    match store {
        StoreIdentifier::MerchantOutpost => "merchantoutpost"@,
        StoreIdentifier::MerchantCity => "merchantcity"@,
        StoreIdentifier::MerchantResearch => "merchantresearch"@,
        StoreIdentifier::MerchantMilitary => "merchantmilitary"@,
        StoreIdentifier::MerchantMine => "merchantmine"@,
        StoreIdentifier::MerchantMedical => "merchantmedical"@,
        StoreIdentifier::MerchantEngineering => "merchantengineering"@,
        StoreIdentifier::MerchantArmory => "merchantarmory"@,
        StoreIdentifier::MerchantClown => "merchantclown"@,
        StoreIdentifier::MerchantHusk => "merchanthusk"@,
        StoreIdentifier::MerchantTutorial => "merchanttutorial"@,
    }
}

/// The canonical text-table key of a store's display name.
pub open spec fn spec_store_name_key(store: StoreIdentifier) -> Seq<char> {
    "storename."@ + spec_internal_name(store)
}

impl StoreIdentifier {
    /// This store's internal name.
    pub fn internal_name(self) -> (r: &'static str)
        ensures
            r@ == spec_internal_name(self),
    {
        match self {
            StoreIdentifier::MerchantOutpost => "merchantoutpost",
            StoreIdentifier::MerchantCity => "merchantcity",
            StoreIdentifier::MerchantResearch => "merchantresearch",
            StoreIdentifier::MerchantMilitary => "merchantmilitary",
            StoreIdentifier::MerchantMine => "merchantmine",
            StoreIdentifier::MerchantMedical => "merchantmedical",
            StoreIdentifier::MerchantEngineering => "merchantengineering",
            StoreIdentifier::MerchantArmory => "merchantarmory",
            StoreIdentifier::MerchantClown => "merchantclown",
            StoreIdentifier::MerchantHusk => "merchanthusk",
            StoreIdentifier::MerchantTutorial => "merchanttutorial",
        }
    }

    /// The text-table key this store's display name is resolved under.
    pub fn name_text_key(&self) -> (r: String)
        ensures
            r@ == spec_store_name_key(*self),
    {
        let mut key: String = "storename.".to_owned();
        key.append(self.internal_name());
        key
    }
}

} // verus!
