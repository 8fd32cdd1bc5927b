//! The catalog of loot: items, recipes, tables and bundles.

use crate::client::client_trait::{task_views, tasks_for, AssetsTask};
use crate::types::common_trait::{paths_of_all, push_all, AssetsTypeTrait, CollecTasks, ToTasks};
use crate::types::utils::{AssetsType, Config};
use vstd::prelude::*;

verus! {

#[derive(Default, Debug, Clone, PartialEq)]
pub struct Loot {
    pub loot_items: Vec<LootItem>,
    pub loot_recipes: Vec<LootRecipe>,
    pub loot_tables: Vec<LootTable>,
    pub loot_bundles: Vec<LootBundle>,
    pub loot_token_bank_cards: Vec<LootTokenBankCard>,
}

#[derive(Default, Debug, Clone, PartialEq)]
pub struct LootItem {
    pub id: String,
    pub name: String,
    pub description: String,
    pub image: String,
    pub start_date: String,
    pub end_date: String,
    pub mapped_store_id: i64,
    pub lifetime_max: i64,
    pub auto_redeem: bool,
    pub rarity: RarityField,
    pub type_field: TypeField,
    pub recipe_menu_active: Option<String>,
    pub recipe_menu_title: Option<String>,
    pub recipe_menu_subtitle: Option<String>,
}

#[derive(Default, Debug, Clone, PartialEq)]
pub enum RarityField {
    #[default]
    Default,
    Epic,
    Legendary,
    Mythic,
}

#[derive(Default, Debug, Clone, PartialEq)]
pub enum TypeField {
    #[default]
    Boost,
    Chest,
    Companion,
    Currency,
    Material,
    Skin,
    SkinRental,
    Statstone,
    StatstoneShard,
    SummonerIcon,
    TftDamageSkin,
    TftMapSkin,
    WardSkin,
}

#[derive(Default, Debug, Clone, PartialEq)]
pub struct LootRecipe {
    pub id: String,
    pub description: String,
    pub context_menu_text: String,
    pub requirement_text: String,
    pub image_path: String,
    pub intro_video_path: String,
    pub loop_video_path: String,
    pub outro_video_path: String,
    pub has_visible_loot_odds: bool,
    pub outputs: Vec<Output>,
}

#[derive(Default, Debug, Clone, PartialEq)]
pub struct Output {
    pub loot_id: String,
    pub localized_description: String,
}

#[derive(Default, Debug, Clone, PartialEq)]
pub struct LootTable {
    pub id: String,
    pub description: String,
    pub description_long: String,
    pub image: String,
    pub drop_chance: Vec<DropChance>,
}

#[derive(Default, Debug, Clone, PartialEq)]
pub struct DropChance {
    pub loot_id: String,
    pub localized_description: String,
}

#[derive(Default, Debug, Clone, PartialEq)]
pub struct LootBundle {
    pub id: String,
    pub description: String,
    pub description_long: String,
    pub image: String,
    pub contents: Vec<Content>,
}

#[derive(Default, Debug, Clone, PartialEq)]
pub struct Content {
    pub query: Query,
    pub quantity_expression: String,
    pub localized_description: String,
}

#[derive(Default, Debug, Clone, PartialEq)]
pub struct Query {
    pub loot_id: String,
}

#[derive(Default, Debug, Clone, PartialEq)]
pub struct LootTokenBankCard {
    pub loot_item_name: String,
    pub backsplash_image_path: String,
    pub button_text: String,
    pub non_premium_cap_currency_id: String,
    pub premium_cap_currency_id: String,
    pub title_text: String,
    pub token_icon_path: String,
    pub tooltip_description_text: String,
    pub tooltip_splash_path: String,
    pub tooltip_title_text: String,
    pub unlock_item_id: String,
    pub unlock_item_type: String,
    pub activation_date: String,
    pub deactivation_date: String,
    pub store_link_item: String,
    pub store_link_type: String,
}

impl AssetsTypeTrait for Loot {
    open spec fn catalog() -> AssetsType {
        AssetsType::Loot
    }

    fn assets_type() -> (t: AssetsType) {
        AssetsType::Loot
    }
}

/// The single task of an entry whose image is taken as it stands, whether or
/// not it names a file.
fn image_task(image: &String, config: &Config) -> (tasks: Vec<AssetsTask>)
    ensures
        task_views(tasks@) == tasks_for(seq![image@], config@),
{
    let mut tasks = Vec::new();
    tasks.push(AssetsTask::from_path_config(image.as_str(), config));
    tasks
}

impl ToTasks for LootItem {
    open spec fn asset_paths(&self) -> Seq<Seq<char>> {
        seq![self.image@]
    }

    fn to_tasks(&self, config: &Config) -> (tasks: Vec<AssetsTask>) {
        image_task(&self.image, config)
    }
}

impl ToTasks for LootRecipe {
    open spec fn asset_paths(&self) -> Seq<Seq<char>> {
        seq![self.image_path@]
    }

    fn to_tasks(&self, config: &Config) -> (tasks: Vec<AssetsTask>) {
        image_task(&self.image_path, config)
    }
}

impl ToTasks for LootTable {
    open spec fn asset_paths(&self) -> Seq<Seq<char>> {
        seq![self.image@]
    }

    fn to_tasks(&self, config: &Config) -> (tasks: Vec<AssetsTask>) {
        image_task(&self.image, config)
    }
}

impl ToTasks for LootBundle {
    open spec fn asset_paths(&self) -> Seq<Seq<char>> {
        seq![self.image@]
    }

    fn to_tasks(&self, config: &Config) -> (tasks: Vec<AssetsTask>) {
        image_task(&self.image, config)
    }
}

impl CollecTasks for Loot {
    /// Items first, then recipes, tables and bundles. Token bank cards name
    /// no file that is fetched.
    open spec fn all_asset_paths(&self) -> Seq<Seq<char>> {
        paths_of_all(self.loot_items@) + paths_of_all(self.loot_recipes@) + paths_of_all(
            self.loot_tables@,
        ) + paths_of_all(self.loot_bundles@)
    }

    fn collect_tasks(&self, config: &Config) -> (tasks: Vec<AssetsTask>) {
        let mut tasks = Vec::new();
        push_all(&mut tasks, &self.loot_items, config);
        push_all(&mut tasks, &self.loot_recipes, config);
        push_all(&mut tasks, &self.loot_tables, config);
        push_all(&mut tasks, &self.loot_bundles, config);
        tasks
    }
}

} // verus!
