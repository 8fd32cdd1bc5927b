//! The names that callers use most, in one place.

pub use crate::client::client_trait::{Action, AssetsTask, ClientTrait, Event, State};
pub use crate::client::download_client::DownloadClient;
pub use crate::client::fetch_client::{
    is_success, receive, refuse, Attempt, FetchClient, Header, Method, Reception, Request,
};
pub use crate::client::r2_client::{MissingVariable, R2Client, UploadRequest};
pub use crate::error::LfaError;
pub use crate::types::common::{Description, Rarity, RarityEnum, RegionEnum};
pub use crate::types::common_trait::{AssetsTypeTrait, CollecTasks, FilterEmptyAssets, ToTasks};
pub use crate::types::loot::{
    Content, DropChance, Loot, LootBundle, LootItem, LootRecipe, LootTable, LootTokenBankCard,
    Output, Query, RarityField, TypeField,
};
pub use crate::types::skin::{
    Augment, Borders, Chroma, DescriptionInfo, Layer, Overlay, QuestSkinInfo, Skin, SkinAugments,
    SkinLineId, SkinType, Skinline, Skinlines, Skins, Tier,
};
pub use crate::types::summoner_banners::{BannerFlag, BannerFrame, SummonerBanners};
pub use crate::types::summoner_emotes::{SummonerEmote, SummonerEmotes};
pub use crate::types::summoner_icons::{
    SummonerIcon, SummonerIconSet, SummonerIconSets, SummonerIcons,
};
pub use crate::types::utils::{
    get_assets_url, get_catalog_url, get_cdragon_url, get_latest_version, AssetsType, Config,
    LanguageType,
};
pub use crate::types::wardskins::{
    RegionalDescription, WardSkin, WardSkinSet, WardSkinSets, WardSkins,
};
