//! Catalog documents, the request context, and what turns one into tasks.

pub mod common;
pub mod common_trait;
pub mod loot;
pub mod skin;
pub mod summoner_banners;
pub mod summoner_emotes;
pub mod summoner_icons;
pub mod utils;
pub mod wardskins;
