use league_fan_assets::client::client_trait::AssetsTask;
use league_fan_assets::types::common_trait::{
    is_repeated, AssetsTypeTrait, CollecTasks, FilterEmptyAssets, ToTasks, ASSETS_PREFIX,
};
use league_fan_assets::types::loot::{Loot, LootBundle, LootItem, LootRecipe, LootTable};
use league_fan_assets::types::skin::{Chroma, Skin, Skinlines, Skins};
use league_fan_assets::types::summoner_banners::{BannerFlag, BannerFrame, SummonerBanners};
use league_fan_assets::types::summoner_emotes::{SummonerEmote, SummonerEmotes};
use league_fan_assets::types::summoner_icons::{
    SummonerIcon, SummonerIconSet, SummonerIconSets, SummonerIcons,
};
use league_fan_assets::types::utils::{AssetsType, Config, LanguageType};
use league_fan_assets::types::wardskins::{WardSkin, WardSkinSets, WardSkins};

const EMPTY: &str = "/lol-game-data/assets/";

fn config() -> Config {
    Config::new(Some("14.21.1".to_string()), LanguageType::ChineseChina, None)
}

fn paths(tasks: &[AssetsTask]) -> Vec<&str> {
    tasks.iter().map(|t| t.path.as_str()).collect()
}

fn expected(path: &str) -> AssetsTask {
    AssetsTask::from_path_config(path, &config())
}

#[test]
fn prefix_alone_names_no_file() {
    assert_eq!(ASSETS_PREFIX, EMPTY);
    assert_eq!(String::new().filter_empty_assets(), None);
    assert_eq!(EMPTY.to_string().filter_empty_assets(), None);
    assert_eq!(format!("{}{}", EMPTY, EMPTY).filter_empty_assets(), None);
    assert_eq!(format!("{}{}{}", EMPTY, EMPTY, EMPTY).filter_empty_assets(), None);
}

#[test]
fn anything_else_names_a_file() {
    for path in [
        "/lol-game-data/assets/a.png",
        "/lol-game-data/assets//lol-game-data/assets/a",
        "/lol-game-data/assets",
        "/lol-game-data/assets//",
        "/lol-game-data/assets//lol-game-data/assets",
        "a",
        "/",
        " /lol-game-data/assets/",
    ] {
        assert_eq!(path.to_string().filter_empty_assets(), Some(path.to_string()));
    }
}

#[test]
fn repetition_agrees_with_trimming() {
    for s in ["", "ab", "abab", "aba", "ababa", "b", "abb", "ababab", "éé", "é"] {
        for unit in ["ab", "a", "é", ""] {
            let trimmed: &str = if unit.is_empty() { s } else { s.trim_start_matches(unit) };
            assert_eq!(is_repeated(s, unit), trimmed.is_empty(), "{:?} of {:?}", s, unit);
        }
    }
}

fn skin() -> Skin {
    Skin {
        id: 1000,
        name: "Annie".to_string(),
        splash_path: "/lol-game-data/assets/splash.jpg".to_string(),
        uncentered_splash_path: "/lol-game-data/assets/uncentered.jpg".to_string(),
        tile_path: "/lol-game-data/assets/tile.jpg".to_string(),
        load_screen_path: "/lol-game-data/assets/load.jpg".to_string(),
        load_screen_vintage_path: Some("/lol-game-data/assets/vintage.jpg".to_string()),
        chroma_path: Some("/lol-game-data/assets/chroma.png".to_string()),
        splash_video_path: Some("/lol-game-data/assets/video.webm".to_string()),
        chromas: Some(vec![
            Chroma { id: 1, chroma_path: "/lol-game-data/assets/c1.png".to_string(), ..Chroma::default() },
            Chroma { id: 2, chroma_path: EMPTY.to_string(), ..Chroma::default() },
            Chroma { id: 3, chroma_path: "/lol-game-data/assets/c3.png".to_string(), ..Chroma::default() },
        ]),
        ..Skin::default()
    }
}

#[test]
fn skin_tasks_come_in_order() {
    let tasks = skin().to_tasks(&config());
    assert_eq!(
        paths(&tasks),
        vec![
            "/lol-game-data/assets/chroma.png",
            "/lol-game-data/assets/c1.png",
            "/lol-game-data/assets/c3.png",
            "/lol-game-data/assets/splash.jpg",
            "/lol-game-data/assets/uncentered.jpg",
            "/lol-game-data/assets/tile.jpg",
            "/lol-game-data/assets/load.jpg",
            "/lol-game-data/assets/vintage.jpg",
        ]
    );
    for task in &tasks {
        assert_eq!(*task, expected(&task.path));
    }
}

#[test]
fn skin_without_files_has_no_tasks() {
    let bare = Skin {
        splash_path: EMPTY.to_string(),
        uncentered_splash_path: String::new(),
        tile_path: EMPTY.to_string(),
        load_screen_path: format!("{}{}", EMPTY, EMPTY),
        load_screen_vintage_path: Some(EMPTY.to_string()),
        chroma_path: None,
        chromas: Some(Vec::new()),
        ..Skin::default()
    };
    assert!(bare.to_tasks(&config()).is_empty());
    assert!(Skin::default().to_tasks(&config()).is_empty());
}

#[test]
fn skins_are_collected_entry_by_entry() {
    let second = Skin {
        tile_path: "/lol-game-data/assets/other.jpg".to_string(),
        ..Skin::default()
    };
    let skins = Skins(vec![("1000".to_string(), skin()), ("1001".to_string(), second)]);
    let tasks = skins.collect_tasks(&config());
    assert_eq!(tasks.len(), 9);
    assert_eq!(tasks[..8], skin().to_tasks(&config())[..]);
    assert_eq!(tasks[8], expected("/lol-game-data/assets/other.jpg"));
    assert!(Skins::default().collect_tasks(&config()).is_empty());
}

#[test]
fn loot_images_are_taken_as_they_stand() {
    let item = LootItem { image: EMPTY.to_string(), ..LootItem::default() };
    assert_eq!(item.to_tasks(&config()), vec![expected(EMPTY)]);
    let recipe = LootRecipe { image_path: String::new(), ..LootRecipe::default() };
    assert_eq!(recipe.to_tasks(&config()), vec![expected("")]);
    let table = LootTable { image: "t.png".to_string(), ..LootTable::default() };
    assert_eq!(table.to_tasks(&config()), vec![expected("t.png")]);
    let bundle = LootBundle { image: "b.png".to_string(), ..LootBundle::default() };
    assert_eq!(bundle.to_tasks(&config()), vec![expected("b.png")]);
}

#[test]
fn loot_is_collected_items_recipes_tables_bundles() {
    let loot = Loot {
        loot_bundles: vec![LootBundle { image: "bundle".to_string(), ..LootBundle::default() }],
        loot_tables: vec![LootTable { image: "table".to_string(), ..LootTable::default() }],
        loot_recipes: vec![
            LootRecipe { image_path: "recipe1".to_string(), ..LootRecipe::default() },
            LootRecipe { image_path: "recipe2".to_string(), ..LootRecipe::default() },
        ],
        loot_items: vec![
            LootItem { image: "item1".to_string(), ..LootItem::default() },
            LootItem { image: "item2".to_string(), ..LootItem::default() },
        ],
        loot_token_bank_cards: vec![Default::default()],
    };
    let tasks = loot.collect_tasks(&config());
    assert_eq!(paths(&tasks), vec!["item1", "item2", "recipe1", "recipe2", "table", "bundle"]);
    assert!(Loot::default().collect_tasks(&config()).is_empty());
}

#[test]
fn banner_tasks_are_flags_then_frames() {
    let flag = BannerFlag {
        inventory_icon: "/lol-game-data/assets/flag_inv.png".to_string(),
        profile_icon: "/lol-game-data/assets/flag_profile.png".to_string(),
        ..BannerFlag::default()
    };
    let empty_flag = BannerFlag {
        inventory_icon: EMPTY.to_string(),
        profile_icon: "/lol-game-data/assets/only_profile.png".to_string(),
        ..BannerFlag::default()
    };
    let frame = BannerFrame {
        inventory_icon: "/lol-game-data/assets/frame.png".to_string(),
        ..BannerFrame::default()
    };
    assert_eq!(
        paths(&flag.to_tasks(&config())),
        vec!["/lol-game-data/assets/flag_inv.png", "/lol-game-data/assets/flag_profile.png"]
    );
    assert_eq!(paths(&frame.to_tasks(&config())), vec!["/lol-game-data/assets/frame.png"]);
    let banners = SummonerBanners {
        banner_frames: vec![frame, BannerFrame::default()],
        banner_flags: vec![flag, empty_flag],
    };
    assert_eq!(
        paths(&banners.collect_tasks(&config())),
        vec![
            "/lol-game-data/assets/flag_inv.png",
            "/lol-game-data/assets/flag_profile.png",
            "/lol-game-data/assets/only_profile.png",
            "/lol-game-data/assets/frame.png",
        ]
    );
}

#[test]
fn emote_tasks_skip_missing_icons() {
    let emotes = SummonerEmotes(vec![
        SummonerEmote { id: 0, inventory_icon: EMPTY.to_string(), ..SummonerEmote::default() },
        SummonerEmote {
            id: 10,
            name: "Mastery 10+".to_string(),
            inventory_icon: "/lol-game-data/assets/em.png".to_string(),
            ..SummonerEmote::default()
        },
    ]);
    assert!(emotes.0[0].to_tasks(&config()).is_empty());
    assert_eq!(
        emotes.collect_tasks(&config()),
        vec![expected("/lol-game-data/assets/em.png")]
    );
}

#[test]
fn icon_tasks_need_a_path_that_names_a_file() {
    let with = SummonerIcon {
        image_path: Some("/lol-game-data/assets/icon.jpg".to_string()),
        ..SummonerIcon::default()
    };
    let without = SummonerIcon { image_path: None, ..SummonerIcon::default() };
    let empty = SummonerIcon { image_path: Some(EMPTY.to_string()), ..SummonerIcon::default() };
    assert_eq!(with.to_tasks(&config()), vec![expected("/lol-game-data/assets/icon.jpg")]);
    assert!(without.to_tasks(&config()).is_empty());
    assert!(empty.to_tasks(&config()).is_empty());
    let icons = SummonerIcons(vec![without, with.clone(), empty, with]);
    assert_eq!(icons.collect_tasks(&config()).len(), 2);
}

#[test]
fn icon_sets_name_no_files() {
    let sets = SummonerIconSets(vec![SummonerIconSet {
        id: 100,
        display_name: "Special Events".to_string(),
        icons: vec![1, 2, 3],
        ..SummonerIconSet::default()
    }]);
    assert!(sets.collect_tasks(&config()).is_empty());
}

#[test]
fn ward_tasks_are_ward_then_shadow() {
    let ward = WardSkin {
        ward_image_path: "/lol-game-data/assets/ward.png".to_string(),
        ward_shadow_image_path: "/lol-game-data/assets/shadow.png".to_string(),
        ..WardSkin::default()
    };
    let shadow_only = WardSkin {
        ward_image_path: EMPTY.to_string(),
        ward_shadow_image_path: "/lol-game-data/assets/shadow2.png".to_string(),
        ..WardSkin::default()
    };
    let wards = WardSkins(vec![ward, shadow_only]);
    assert_eq!(
        paths(&wards.collect_tasks(&config())),
        vec![
            "/lol-game-data/assets/ward.png",
            "/lol-game-data/assets/shadow.png",
            "/lol-game-data/assets/shadow2.png",
        ]
    );
}

#[test]
fn every_catalog_knows_its_kind() {
    assert_eq!(Loot::assets_type(), AssetsType::Loot);
    assert_eq!(Skins::assets_type(), AssetsType::Skins);
    assert_eq!(Skinlines::assets_type(), AssetsType::Skinlines);
    assert_eq!(SummonerBanners::assets_type(), AssetsType::SummonerBanners);
    assert_eq!(SummonerEmotes::assets_type(), AssetsType::SummonerEmotes);
    assert_eq!(SummonerIcons::assets_type(), AssetsType::SummonerIcons);
    assert_eq!(SummonerIconSets::assets_type(), AssetsType::SummonerIconSets);
    assert_eq!(WardSkins::assets_type(), AssetsType::WardSkins);
    assert_eq!(WardSkinSets::assets_type(), AssetsType::WardSkinSets);
}
