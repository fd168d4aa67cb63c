//! An in-memory, immutable database of craftable items for a crafting/economy
//! browser: fuzzy name search, bidirectional cross-reference indexes between
//! items and the recipes that consume or produce them, and cheap copyable
//! reference handles for navigation.

pub mod db;
mod index;
mod load;
pub mod interner;
pub mod items;
pub mod matcher;
pub mod pricing;
