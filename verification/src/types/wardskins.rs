//! The catalogs of ward skins and of ward skin sets.

use crate::client::client_trait::AssetsTask;
use crate::types::common::{Rarity, RegionEnum};
use crate::types::common_trait::{
    file_of, paths_of_all, push_all, push_file, AssetsTypeTrait, CollecTasks, ToTasks,
};
use crate::types::utils::{AssetsType, Config};
use vstd::prelude::*;

verus! {

#[derive(Default, Debug, Clone, PartialEq)]
pub struct WardSkins(pub Vec<WardSkin>);

#[derive(Default, Debug, Clone, PartialEq)]
pub struct WardSkin {
    pub id: i64,
    pub name: String,
    pub description: String,
    pub ward_image_path: String,
    pub ward_shadow_image_path: String,
    pub is_legacy: bool,
    pub regional_descriptions: Vec<RegionalDescription>,
    pub rarities: Vec<Rarity>,
}

#[derive(Default, Debug, Clone, PartialEq)]
pub struct RegionalDescription {
    pub region: RegionEnum,
    pub description: String,
}

#[derive(Default, Debug, Clone, PartialEq)]
pub struct WardSkinSets(pub Vec<WardSkinSet>);

#[derive(Default, Debug, Clone, PartialEq)]
pub struct WardSkinSet {
    pub id: i64,
    pub hidden: bool,
    pub display_name: String,
    pub description: String,
    pub wards: Vec<i64>,
}

impl AssetsTypeTrait for WardSkins {
    open spec fn catalog() -> AssetsType {
        AssetsType::WardSkins
    }

    fn assets_type() -> (t: AssetsType) {
        AssetsType::WardSkins
    }
}

impl AssetsTypeTrait for WardSkinSets {
    open spec fn catalog() -> AssetsType {
        AssetsType::WardSkinSets
    }

    fn assets_type() -> (t: AssetsType) {
        AssetsType::WardSkinSets
    }
}

impl ToTasks for WardSkin {
    /// The ward first, then its shadow.
    open spec fn asset_paths(&self) -> Seq<Seq<char>> {
        file_of(self.ward_image_path@) + file_of(self.ward_shadow_image_path@)
    }

    fn to_tasks(&self, config: &Config) -> (tasks: Vec<AssetsTask>) {
        let mut tasks = Vec::new();
        push_file(&mut tasks, &self.ward_image_path, config);
        push_file(&mut tasks, &self.ward_shadow_image_path, config);
        tasks
    }
}

impl CollecTasks for WardSkins {
    open spec fn all_asset_paths(&self) -> Seq<Seq<char>> {
        paths_of_all(self.0@)
    }

    fn collect_tasks(&self, config: &Config) -> (tasks: Vec<AssetsTask>) {
        let mut tasks = Vec::new();
        push_all(&mut tasks, &self.0, config);
        tasks
    }
}

} // verus!
