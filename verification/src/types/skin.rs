//! The catalogs of champion skins and of skin lines.

use crate::client::client_trait::{task_views, tasks_for, AssetsTask};
use crate::types::common::{Description, Rarity, RarityEnum};
use crate::types::common_trait::{
    file_of, file_of_option, paths_of_all, push_all, push_file, push_file_option, AssetsTypeTrait,
    CollecTasks, ToTasks,
};
use crate::types::utils::{AssetsType, Config};
use vstd::prelude::*;

verus! {

/// The catalog of skins: each skin under the key by which the mirror lists
/// it, in the order of the document.
#[derive(Default, Debug, Clone, PartialEq)]
pub struct Skins(pub Vec<(String, Skin)>);

#[derive(Default, Debug, Clone, PartialEq)]
pub struct Skin {
    pub id: i64,
    pub is_base: bool,
    pub name: String,
    pub splash_path: String,
    pub uncentered_splash_path: String,
    pub tile_path: String,
    pub load_screen_path: String,
    pub load_screen_vintage_path: Option<String>,
    pub skin_type: SkinType,
    pub rarity: RarityEnum,
    pub is_legacy: bool,
    pub splash_video_path: Option<String>,
    pub collection_splash_video_path: Option<String>,
    pub collection_card_hover_video_path: Option<String>,
    pub features_text: Option<String>,
    pub chroma_path: Option<String>,
    pub emblems: Option<String>,
    pub region_rarity_id: i64,
    pub rarity_gem_path: Option<String>,
    pub skin_lines: Option<Vec<SkinLineId>>,
    pub description: Option<String>,
    pub chromas: Option<Vec<Chroma>>,
    pub skin_augments: Option<SkinAugments>,
    pub quest_skin_info: Option<QuestSkinInfo>,
}

#[derive(Default, Debug, Clone, PartialEq)]
pub struct SkinLineId {
    pub id: i32,
}

#[derive(Default, Debug, Clone, PartialEq)]
pub struct Chroma {
    pub id: i64,
    pub name: String,
    pub chroma_path: String,
    pub colors: Vec<String>,
    pub descriptions: Vec<Description>,
    pub rarities: Vec<Rarity>,
    pub skin_augments: Option<SkinAugments>,
}

#[derive(Default, Debug, Clone, PartialEq)]
pub struct SkinAugments {
    pub borders: Borders,
    pub augments: Option<Vec<Augment>>,
}

#[derive(Default, Debug, Clone, PartialEq)]
pub struct Borders {
    pub layer0: Option<Vec<Layer>>,
    pub layer1: Option<Vec<Layer>>,
}

#[derive(Default, Debug, Clone, PartialEq)]
pub struct Layer {
    pub content_id: String,
    pub layer: i64,
    pub priority: i64,
    pub border_path: String,
}

#[derive(Default, Debug, Clone, PartialEq)]
pub struct Augment {
    pub content_id: String,
    pub overlays: Vec<Overlay>,
}

#[derive(Default, Debug, Clone, PartialEq)]
pub struct Overlay {
    pub centered_lcoverlay_path: String,
    pub uncentered_lcoverlay_path: String,
    pub social_card_lcoverlay_path: String,
    pub tile_lcoverlay_path: String,
}

#[derive(Default, Debug, Clone, PartialEq)]
pub struct QuestSkinInfo {
    pub name: String,
    pub product_type: String,
    pub collection_description: String,
    pub description_info: Vec<DescriptionInfo>,
    pub splash_path: String,
    pub uncentered_splash_path: String,
    pub tile_path: String,
    pub collection_card_path: String,
    pub tiers: Vec<Tier>,
}

#[derive(Default, Debug, Clone, PartialEq)]
pub struct Tier {
    pub id: i64,
    pub name: String,
    pub stage: i64,
    pub description: String,
    pub splash_path: String,
    pub uncentered_splash_path: String,
    pub tile_path: String,
    pub load_screen_path: String,
    pub short_name: String,
    pub splash_video_path: Option<String>,
    pub collection_splash_video_path: Option<String>,
    pub collection_card_hover_video_path: Option<String>,
    pub skin_augments: Option<SkinAugments>,
    pub load_screen_vintage_path: Option<String>,
}

#[derive(Default, Debug, Clone, PartialEq)]
pub struct DescriptionInfo {
    pub title: String,
    pub description: String,
    pub icon_path: String,
}

#[derive(Default, Debug, Clone, PartialEq)]
pub enum SkinType {
    #[default]
    Empty,
    Ultimate,
}

/// The catalog of skin lines.
#[derive(Default, Debug, Clone, PartialEq)]
pub struct Skinlines(pub Vec<Skinline>);

#[derive(Default, Debug, Clone, PartialEq)]
pub struct Skinline {
    pub id: i64,
    pub name: String,
    pub description: String,
}

impl Skins {
    /// No key stands twice in the catalog.
    pub open spec fn keys_distinct(&self) -> bool {
        forall|i: int, j: int|
            0 <= i < j < self.0@.len() ==> (#[trigger] self.0@[i]).0@ != (#[trigger] self.0@[j]).0@
    }

    /// The place of the first entry under `key`, or the number of entries
    /// where there is none.
    pub open spec fn place_of(&self, key: Seq<char>) -> int {
        first_under(self.0@, key, 0)
    }

    /// The skin that the catalog lists under `key`: the first, should the
    /// key stand more than once.
    pub fn get(&self, key: &str) -> (found: Option<&Skin>)
        ensures
            self.place_of(key@) == self.0@.len() ==> found is None,
            self.place_of(key@) < self.0@.len() ==> found == Some(&self.0@[self.place_of(key@)].1),
    {
        let wanted = String::from_str(key);
        let mut i: usize = 0;
        while i < self.0.len()
            invariant
                i <= self.0.len(),
                wanted@ == key@,
                first_under(self.0@, key@, 0) == first_under(self.0@, key@, i as int),
            decreases self.0.len() - i,
        {
            if self.0[i].0 == wanted {
                return Some(&self.0[i].1);
            }
            i = i + 1;
        }
        None
    }
}

/// The place of the first of `entries` under `key` at or after `from`, or
/// the number of entries where there is none.
pub open spec fn first_under(entries: Seq<(String, Skin)>, key: Seq<char>, from: int) -> int
    decreases entries.len() - from,
{
    if from < 0 || from >= entries.len() {
        entries.len() as int
    } else if entries[from].0@ == key {
        from
    } else {
        first_under(entries, key, from + 1)
    }
}

/// The first entry under a key is under that key, and no entry before it is;
/// where no entry is found, none is under the key.
pub proof fn lemma_first_under(entries: Seq<(String, Skin)>, key: Seq<char>, from: int)
    requires
        0 <= from <= entries.len(),
    ensures
        from <= first_under(entries, key, from) <= entries.len(),
        first_under(entries, key, from) < entries.len() ==> entries[first_under(
            entries,
            key,
            from,
        )].0@ == key,
        forall|i: int| from <= i < first_under(entries, key, from) ==> (#[trigger] entries[i]).0@ != key,
    decreases entries.len() - from,
{
    if from < entries.len() && entries[from].0@ != key {
        lemma_first_under(entries, key, from + 1);
    }
}

/// In a catalog whose keys are distinct, every entry is the one that is
/// found under its key.
pub proof fn lemma_distinct_keys_find_their_entry(skins: Skins, at: int)
    requires
        skins.keys_distinct(),
        0 <= at < skins.0@.len(),
    ensures
        skins.place_of(skins.0@[at].0@) == at,
{
    lemma_first_under(skins.0@, skins.0@[at].0@, 0);
}

impl AssetsTypeTrait for Skins {
    open spec fn catalog() -> AssetsType {
        AssetsType::Skins
    }

    fn assets_type() -> (t: AssetsType) {
        AssetsType::Skins
    }
}

impl AssetsTypeTrait for Skinlines {
    open spec fn catalog() -> AssetsType {
        AssetsType::Skinlines
    }

    fn assets_type() -> (t: AssetsType) {
        AssetsType::Skinlines
    }
}

impl ToTasks for Chroma {
    open spec fn asset_paths(&self) -> Seq<Seq<char>> {
        file_of(self.chroma_path@)
    }

    fn to_tasks(&self, config: &Config) -> (tasks: Vec<AssetsTask>) {
        let mut tasks = Vec::new();
        push_file(&mut tasks, &self.chroma_path, config);
        tasks
    }
}

/// The asset files of the chromas of a skin, chroma by chroma.
pub open spec fn chroma_paths(chromas: Option<Vec<Chroma>>) -> Seq<Seq<char>> {
    match chromas {
        Some(chromas) => paths_of_all(chromas@),
        None => Seq::empty(),
    }
}

impl ToTasks for Skin {
    /// The chroma sheet, the chromas, the two splashes, the tile and the
    /// loading screen, then the vintage loading screen. Videos are left out.
    open spec fn asset_paths(&self) -> Seq<Seq<char>> {
        file_of_option(self.chroma_path.deep_view()) + chroma_paths(self.chromas) + file_of(
            self.splash_path@,
        ) + file_of(self.uncentered_splash_path@) + file_of(self.tile_path@) + file_of(
            self.load_screen_path@,
        ) + file_of_option(self.load_screen_vintage_path.deep_view())
    }

    fn to_tasks(&self, config: &Config) -> (tasks: Vec<AssetsTask>) {
        let mut tasks = Vec::new();
        push_file_option(&mut tasks, &self.chroma_path, config);
        match &self.chromas {
            Some(chromas) => push_all(&mut tasks, chromas, config),
            None => {},
        }
        push_file(&mut tasks, &self.splash_path, config);
        push_file(&mut tasks, &self.uncentered_splash_path, config);
        push_file(&mut tasks, &self.tile_path, config);
        push_file(&mut tasks, &self.load_screen_path, config);
        push_file_option(&mut tasks, &self.load_screen_vintage_path, config);
        tasks
    }
}

/// The skins of a catalog, without their keys.
pub open spec fn keyed_skin_paths(entries: Seq<(String, Skin)>) -> Seq<Seq<char>>
    decreases entries.len(),
{
    if entries.len() == 0 {
        Seq::empty()
    } else {
        keyed_skin_paths(entries.drop_last()) + entries.last().1.asset_paths()
    }
}

impl CollecTasks for Skins {
    open spec fn all_asset_paths(&self) -> Seq<Seq<char>> {
        keyed_skin_paths(self.0@)
    }

    fn collect_tasks(&self, config: &Config) -> (tasks: Vec<AssetsTask>) {
        let mut tasks = Vec::new();
        let mut i: usize = 0;
        while i < self.0.len()
            invariant
                i <= self.0.len(),
                task_views(tasks@) == tasks_for(keyed_skin_paths(self.0@.take(i as int)), config@),
            decreases self.0.len() - i,
        {
            let ghost before = tasks@;
            let mut more = self.0[i].1.to_tasks(config);
            tasks.append(&mut more);
            proof {
                let taken = self.0@.take(i + 1);
                assert(taken.drop_last() =~= self.0@.take(i as int));
                assert(task_views(tasks@) =~= task_views(before) + tasks_for(
                    self.0@[i as int].1.asset_paths(),
                    config@,
                ));
            }
            i = i + 1;
        }
        assert(self.0@.take(self.0@.len() as int) =~= self.0@);
        tasks
    }
}

} // verus!
