//! The catalog of summoner banners: flags and frames.

use crate::client::client_trait::AssetsTask;
use crate::types::common_trait::{
    file_of, paths_of_all, push_all, push_file, AssetsTypeTrait, CollecTasks, ToTasks,
};
use crate::types::utils::{AssetsType, Config};
use vstd::prelude::*;

verus! {

#[derive(Default, Debug, Clone, PartialEq)]
pub struct SummonerBanners {
    pub banner_flags: Vec<BannerFlag>,
    pub banner_frames: Vec<BannerFrame>,
}

#[derive(Default, Debug, Clone, PartialEq)]
pub struct BannerFlag {
    pub level: i64,
    pub theme: String,
    pub name: String,
    pub inventory_icon: String,
    pub profile_icon: String,
}

#[derive(Default, Debug, Clone, PartialEq)]
pub struct BannerFrame {
    pub level: i64,
    pub name: String,
    pub inventory_icon: String,
}

impl AssetsTypeTrait for SummonerBanners {
    open spec fn catalog() -> AssetsType {
        AssetsType::SummonerBanners
    }

    fn assets_type() -> (t: AssetsType) {
        AssetsType::SummonerBanners
    }
}

impl ToTasks for BannerFlag {
    open spec fn asset_paths(&self) -> Seq<Seq<char>> {
        file_of(self.inventory_icon@) + file_of(self.profile_icon@)
    }

    fn to_tasks(&self, config: &Config) -> (tasks: Vec<AssetsTask>) {
        let mut tasks = Vec::new();
        push_file(&mut tasks, &self.inventory_icon, config);
        push_file(&mut tasks, &self.profile_icon, config);
        tasks
    }
}

impl ToTasks for BannerFrame {
    open spec fn asset_paths(&self) -> Seq<Seq<char>> {
        file_of(self.inventory_icon@)
    }

    fn to_tasks(&self, config: &Config) -> (tasks: Vec<AssetsTask>) {
        let mut tasks = Vec::new();
        push_file(&mut tasks, &self.inventory_icon, config);
        tasks
    }
}

impl CollecTasks for SummonerBanners {
    /// Flags first, then frames.
    open spec fn all_asset_paths(&self) -> Seq<Seq<char>> {
        paths_of_all(self.banner_flags@) + paths_of_all(self.banner_frames@)
    }

    fn collect_tasks(&self, config: &Config) -> (tasks: Vec<AssetsTask>) {
        let mut tasks = Vec::new();
        push_all(&mut tasks, &self.banner_flags, config);
        push_all(&mut tasks, &self.banner_frames, config);
        tasks
    }
}

} // verus!
