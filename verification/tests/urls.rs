use league_fan_assets::client::client_trait::AssetsTask;
use league_fan_assets::types::utils::{
    get_assets_url, get_catalog_url, get_cdragon_url, get_latest_version, get_version_segment,
    truncate_version, AssetsType, Config, LanguageType, DDRAGON_VERSIONS_URL,
};

#[test]
fn version_is_cut_to_major_minor() {
    assert_eq!(truncate_version("14.21.1"), "14.21");
    assert_eq!(truncate_version("1.2.3.4"), "1.2");
    assert_eq!(truncate_version("14.21"), "14.21");
    assert_eq!(truncate_version("14"), "14");
}

#[test]
fn version_edge_cases_follow_the_dots() {
    assert_eq!(truncate_version(""), "");
    assert_eq!(truncate_version("14."), "14.");
    assert_eq!(truncate_version(".."), ".");
    assert_eq!(truncate_version(".5.6"), ".5");
    assert_eq!(truncate_version("é.ü.ß"), "é.ü");
}

#[test]
fn version_segment_is_latest_without_a_version() {
    assert_eq!(get_version_segment(&None), "latest");
    assert_eq!(get_version_segment(&Some("14.21.1".to_string())), "14.21");
}

#[test]
fn catalog_url_without_version_uses_latest() {
    let url = get_assets_url(AssetsType::Loot, LanguageType::ChineseChina, None);
    assert_eq!(
        url,
        "https://raw.communitydragon.org/latest/plugins/rcp-be-lol-game-data/global/zh_cn/v1/loot.json"
    );
}

#[test]
fn catalog_url_with_version_uses_major_minor() {
    let url = get_assets_url(
        AssetsType::SummonerIconSets,
        LanguageType::Default,
        Some("14.21.1".to_string()),
    );
    assert_eq!(
        url,
        "https://raw.communitydragon.org/14.21/plugins/rcp-be-lol-game-data/global/default/v1/summoner-icon-sets.json"
    );
}

#[test]
fn catalog_url_in_a_context() {
    let config = Config::new(Some("13.1.2".to_string()), LanguageType::Japanese, None);
    assert_eq!(
        get_catalog_url(AssetsType::WardSkins, &config),
        get_assets_url(AssetsType::WardSkins, LanguageType::Japanese, Some("13.1.2".to_string()))
    );
}

#[test]
fn asset_url_with_version() {
    let config = Config::new(Some("14.21.1".to_string()), LanguageType::Default, None);
    let url = get_cdragon_url("a.png", &config);
    assert_eq!(
        url,
        "https://raw.communitydragon.org/14.21/plugins/rcp-be-lol-game-data/global/default/assets/a.png"
    );
}

#[test]
fn asset_url_takes_the_path_as_it_stands() {
    let config = Config::new(None, LanguageType::Korean, Some("out".to_string()));
    let url = get_cdragon_url("/lol-game-data/assets/ASSETS/Loot/x.png", &config);
    assert_eq!(
        url,
        "https://raw.communitydragon.org/latest/plugins/rcp-be-lol-game-data/global/ko_kr/assets//lol-game-data/assets/ASSETS/Loot/x.png"
    );
}

#[test]
fn resolving_twice_gives_the_same_url() {
    let config = Config::new(Some("14.21.1".to_string()), LanguageType::Thai, None);
    let same = Config::new(Some(String::from("14.21.1")), LanguageType::Thai, None);
    let path = String::from("loot/chest.png");
    assert_eq!(get_cdragon_url("loot/chest.png", &config), get_cdragon_url(&path, &same));
    assert_eq!(get_cdragon_url("", &config), get_cdragon_url("", &same));
}

#[test]
fn every_language_has_its_own_segment() {
    let all = [
        (LanguageType::Default, "default"),
        (LanguageType::Arabic, "ar_ae"),
        (LanguageType::Czech, "cs_cz"),
        (LanguageType::German, "de_de"),
        (LanguageType::Greek, "el_gr"),
        (LanguageType::EnglishAustralia, "en_au"),
        (LanguageType::EnglishGreatBritain, "en_gb"),
        (LanguageType::EnglishPhilippines, "en_ph"),
        (LanguageType::EnglishSingapore, "en_sg"),
        (LanguageType::SpanishArgentina, "es_ar"),
        (LanguageType::SpanishSpain, "es_es"),
        (LanguageType::SpanishMexico, "es_mx"),
        (LanguageType::FrenchFrance, "fr_fr"),
        (LanguageType::Hungarian, "hu_hu"),
        (LanguageType::Italian, "it_it"),
        (LanguageType::Japanese, "ja_jp"),
        (LanguageType::Korean, "ko_kr"),
        (LanguageType::Polish, "pl_pl"),
        (LanguageType::PortugueseBrazil, "pt_br"),
        (LanguageType::Romanian, "ro_ro"),
        (LanguageType::Russian, "ru_ru"),
        (LanguageType::Thai, "th_th"),
        (LanguageType::Turkish, "tr_tr"),
        (LanguageType::Vietnamese, "vi_vn"),
        (LanguageType::ChineseChina, "zh_cn"),
        (LanguageType::ChineseMalaysia, "zh_my"),
        (LanguageType::ChineseTaiwan, "zh_tw"),
    ];
    for (i, (language, segment)) in all.iter().enumerate() {
        assert_eq!(language.as_str(), *segment);
        for (other, _) in all.iter().skip(i + 1) {
            assert_ne!(language.as_str(), other.as_str());
        }
    }
    assert_eq!(LanguageType::default(), LanguageType::Default);
}

#[test]
fn every_catalog_has_its_file_name() {
    assert_eq!(AssetsType::Loot.as_str(), "loot.json");
    assert_eq!(AssetsType::Skins.as_str(), "skins.json");
    assert_eq!(AssetsType::Skinlines.as_str(), "skinlines.json");
    assert_eq!(AssetsType::SummonerEmotes.as_str(), "summoner-emotes.json");
    assert_eq!(AssetsType::SummonerBanners.as_str(), "summoner-banners.json");
    assert_eq!(AssetsType::SummonerIcons.as_str(), "summoner-icons.json");
    assert_eq!(AssetsType::SummonerIconSets.as_str(), "summoner-icon-sets.json");
    assert_eq!(AssetsType::WardSkins.as_str(), "ward-skins.json");
    assert_eq!(AssetsType::WardSkinSets.as_str(), "ward-skin-sets.json");
}

#[test]
fn default_context_is_the_fallback_context() {
    let config = Config::default();
    assert_eq!(config.version, None);
    assert_eq!(config.language, LanguageType::Default);
    assert_eq!(config.base_path, None);
    assert_eq!(Config::fallback(), config);
}

#[test]
fn context_keeps_what_it_is_given() {
    let config = Config::new(
        Some("14.21.1".to_string()),
        LanguageType::ChineseChina,
        Some("assets-out".to_string()),
    );
    assert_eq!(config.version.as_deref(), Some("14.21.1"));
    assert_eq!(config.language, LanguageType::ChineseChina);
    assert_eq!(config.base_path.as_deref(), Some("assets-out"));
}

#[test]
fn task_from_path_has_primary_and_fallback() {
    let config = Config::new(Some("14.21.1".to_string()), LanguageType::ChineseChina, None);
    let task = AssetsTask::from_path_config("/loot/a.png", &config);
    assert_eq!(
        task.url,
        "https://raw.communitydragon.org/14.21/plugins/rcp-be-lol-game-data/global/zh_cn/assets//loot/a.png"
    );
    assert_eq!(
        task.fallback_url.as_deref(),
        Some("https://raw.communitydragon.org/latest/plugins/rcp-be-lol-game-data/global/default/assets//loot/a.png")
    );
    assert_eq!(task.path, "/loot/a.png");
}

#[test]
fn task_keeps_what_it_is_given() {
    let task = AssetsTask::new("u".to_string(), None, "p".to_string());
    assert_eq!(task.url, "u");
    assert_eq!(task.fallback_url, None);
    assert_eq!(task.path, "p");
}

#[test]
fn destination_drops_every_leading_separator() {
    let key = |path: &str| AssetsTask::new(String::new(), None, path.to_string()).destination();
    assert_eq!(key("/assets/a.png"), "assets/a.png");
    assert_eq!(key("///a/b"), "a/b");
    assert_eq!(key("a/b/"), "a/b/");
    assert_eq!(key("//"), "");
    assert_eq!(key(""), "");
}

#[test]
fn latest_version_is_the_first_listed() {
    let versions = vec!["14.21.1".to_string(), "14.20.1".to_string()];
    assert_eq!(get_latest_version(&versions), Some("14.21.1".to_string()));
    assert_eq!(get_latest_version(&Vec::new()), None);
    assert_eq!(DDRAGON_VERSIONS_URL, "https://ddragon.leagueoflegends.com/api/versions.json");
}
