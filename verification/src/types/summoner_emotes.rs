//! The catalog of summoner emotes.

use crate::client::client_trait::AssetsTask;
use crate::types::common_trait::{
    file_of, paths_of_all, push_all, push_file, AssetsTypeTrait, CollecTasks, ToTasks,
};
use crate::types::utils::{AssetsType, Config};
use vstd::prelude::*;

verus! {

#[derive(Default, Debug, Clone, PartialEq)]
pub struct SummonerEmotes(pub Vec<SummonerEmote>);

#[derive(Default, Debug, Clone, PartialEq)]
pub struct SummonerEmote {
    pub id: i64,
    pub name: String,
    pub inventory_icon: String,
    pub description: String,
}

impl AssetsTypeTrait for SummonerEmotes {
    open spec fn catalog() -> AssetsType {
        AssetsType::SummonerEmotes
    }

    fn assets_type() -> (t: AssetsType) {
        AssetsType::SummonerEmotes
    }
}

impl ToTasks for SummonerEmote {
    open spec fn asset_paths(&self) -> Seq<Seq<char>> {
        file_of(self.inventory_icon@)
    }

    fn to_tasks(&self, config: &Config) -> (tasks: Vec<AssetsTask>) {
        let mut tasks = Vec::new();
        push_file(&mut tasks, &self.inventory_icon, config);
        tasks
    }
}

impl CollecTasks for SummonerEmotes {
    open spec fn all_asset_paths(&self) -> Seq<Seq<char>> {
        paths_of_all(self.0@)
    }

    fn collect_tasks(&self, config: &Config) -> (tasks: Vec<AssetsTask>) {
        let mut tasks = Vec::new();
        push_all(&mut tasks, &self.0, config);
        tasks
    }
}

} // verus!
