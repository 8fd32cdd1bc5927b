//! Record types that several catalogs share.

use vstd::prelude::*;

verus! {

/// A description that holds in one region.
#[derive(Default, Debug, Clone, PartialEq)]
pub struct Description {
    pub region: RegionEnum,
    pub description: String,
}

/// A rarity that holds in one region.
#[derive(Default, Debug, Clone, PartialEq)]
pub struct Rarity {
    pub region: RegionEnum,
    pub rarity: i64,
}

#[derive(Default, Debug, Clone, PartialEq)]
pub enum RarityEnum {
    Epic,
    Legendary,
    Mythic,
    #[default]
    NoRarity,
    Rare,
    Transcendent,
    Ultimate,
}

#[derive(Default, Debug, Clone, PartialEq)]
pub enum RegionEnum {
    #[default]
    Empty,
    Id,
    Ph,
    RegionTencent,
    Riot,
    Sg,
    Tencent,
    Th,
    Tw,
    Vn,
}

} // verus!
