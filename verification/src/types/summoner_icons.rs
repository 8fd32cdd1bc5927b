//! The catalogs of summoner icons and of icon sets.

use crate::client::client_trait::AssetsTask;
use crate::types::common::{Description, Rarity};
use crate::types::common_trait::{
    file_of_option, paths_of_all, push_all, push_file_option, AssetsTypeTrait, CollecTasks,
    ToTasks,
};
use crate::types::utils::{AssetsType, Config};
use vstd::prelude::*;

verus! {

#[derive(Default, Debug, Clone, PartialEq)]
pub struct SummonerIcons(pub Vec<SummonerIcon>);

#[derive(Default, Debug, Clone, PartialEq)]
pub struct SummonerIcon {
    pub id: i64,
    pub title: String,
    pub year_released: i64,
    pub is_legacy: bool,
    pub image_path: Option<String>,
    pub descriptions: Vec<Description>,
    pub rarities: Vec<Rarity>,
    pub disabled_regions: Vec<String>,
    pub esports_team: Option<String>,
    pub esports_region: Option<String>,
    pub esports_event: Option<String>,
}

#[derive(Default, Debug, Clone, PartialEq)]
pub struct SummonerIconSets(pub Vec<SummonerIconSet>);

#[derive(Default, Debug, Clone, PartialEq)]
pub struct SummonerIconSet {
    pub id: i64,
    pub hidden: bool,
    pub display_name: String,
    pub description: String,
    pub icons: Vec<i64>,
}

impl AssetsTypeTrait for SummonerIcons {
    open spec fn catalog() -> AssetsType {
        AssetsType::SummonerIcons
    }

    fn assets_type() -> (t: AssetsType) {
        AssetsType::SummonerIcons
    }
}

impl AssetsTypeTrait for SummonerIconSets {
    open spec fn catalog() -> AssetsType {
        AssetsType::SummonerIconSets
    }

    fn assets_type() -> (t: AssetsType) {
        AssetsType::SummonerIconSets
    }
}

impl ToTasks for SummonerIcon {
    open spec fn asset_paths(&self) -> Seq<Seq<char>> {
        file_of_option(self.image_path.deep_view())
    }

    fn to_tasks(&self, config: &Config) -> (tasks: Vec<AssetsTask>) {
        let mut tasks = Vec::new();
        push_file_option(&mut tasks, &self.image_path, config);
        tasks
    }
}

impl CollecTasks for SummonerIcons {
    open spec fn all_asset_paths(&self) -> Seq<Seq<char>> {
        paths_of_all(self.0@)
    }

    fn collect_tasks(&self, config: &Config) -> (tasks: Vec<AssetsTask>) {
        let mut tasks = Vec::new();
        push_all(&mut tasks, &self.0, config);
        tasks
    }
}

impl CollecTasks for SummonerIconSets {
    /// A set lists icons by number and names no file of its own.
    open spec fn all_asset_paths(&self) -> Seq<Seq<char>> {
        Seq::empty()
    }

    fn collect_tasks(&self, _config: &Config) -> (tasks: Vec<AssetsTask>) {
        Vec::new()
    }
}

} // verus!
