//! The request context and the construction of mirror URLs from it.

use vstd::prelude::*;

verus! {

/// Root of the mirror that serves catalogs and asset files; it ends in the
/// separator after which the version segment stands.
pub const COMMUNITY_DRAGON_URL: &'static str = "https://raw.communitydragon.org/";

/// Address of the list of released game versions, newest first.
pub const DDRAGON_VERSIONS_URL: &'static str =
    "https://ddragon.leagueoflegends.com/api/versions.json";

/// Version segment of a context that names no version.
pub const LATEST: &'static str = "latest";

/// What stands between the version segment and the language segment.
pub const PLUGIN_PATH: &'static str = "/plugins/rcp-be-lol-game-data/global/";

/// What stands between the language segment and a catalog's file name.
pub const CATALOG_PATH: &'static str = "/v1/";

/// What stands between the language segment and an asset's path.
pub const ASSETS_PATH: &'static str = "/assets/";

/// The catalogs that the mirror publishes.
#[derive(Default, Debug, Clone, Copy, PartialEq)]
pub enum AssetsType {
    #[default]
    Loot,
    Skins,
    Skinlines,
    SummonerEmotes,
    SummonerBanners,
    SummonerIcons,
    SummonerIconSets,
    WardSkins,
    WardSkinSets,
}

impl AssetsType {
    /// File name of the catalog on the mirror.
    pub open spec fn file_name(self) -> Seq<char> {
        match self {
            AssetsType::Loot => "loot.json"@,
            AssetsType::Skins => "skins.json"@,
            AssetsType::Skinlines => "skinlines.json"@,
            AssetsType::SummonerEmotes => "summoner-emotes.json"@,
            AssetsType::SummonerBanners => "summoner-banners.json"@,
            AssetsType::SummonerIcons => "summoner-icons.json"@,
            AssetsType::SummonerIconSets => "summoner-icon-sets.json"@,
            AssetsType::WardSkins => "ward-skins.json"@,
            AssetsType::WardSkinSets => "ward-skin-sets.json"@,
        }
    }

    pub fn as_str(&self) -> (name: &'static str)
        ensures
            name@ == self.file_name(),
    {
        match self {
            AssetsType::Loot => "loot.json",
            AssetsType::Skins => "skins.json",
            AssetsType::Skinlines => "skinlines.json",
            AssetsType::SummonerEmotes => "summoner-emotes.json",
            AssetsType::SummonerBanners => "summoner-banners.json",
            AssetsType::SummonerIcons => "summoner-icons.json",
            AssetsType::SummonerIconSets => "summoner-icon-sets.json",
            AssetsType::WardSkins => "ward-skins.json",
            AssetsType::WardSkinSets => "ward-skin-sets.json",
        }
    }
}

/// The locales in which the mirror serves its content.
#[derive(Default, Debug, Clone, Copy, PartialEq)]
pub enum LanguageType {
    #[default]
    Default,
    Arabic,
    Czech,
    German,
    Greek,
    EnglishAustralia,
    EnglishGreatBritain,
    EnglishPhilippines,
    EnglishSingapore,
    SpanishArgentina,
    SpanishSpain,
    SpanishMexico,
    FrenchFrance,
    Hungarian,
    Italian,
    Japanese,
    Korean,
    Polish,
    PortugueseBrazil,
    Romanian,
    Russian,
    Thai,
    Turkish,
    Vietnamese,
    ChineseChina,
    ChineseMalaysia,
    ChineseTaiwan,
}

impl LanguageType {
    /// Path segment under which the mirror keeps the locale.
    pub open spec fn segment(self) -> Seq<char> {
        match self {
            LanguageType::Default => "default"@,
            LanguageType::Arabic => "ar_ae"@,
            LanguageType::Czech => "cs_cz"@,
            LanguageType::German => "de_de"@,
            LanguageType::Greek => "el_gr"@,
            LanguageType::EnglishAustralia => "en_au"@,
            LanguageType::EnglishGreatBritain => "en_gb"@,
            LanguageType::EnglishPhilippines => "en_ph"@,
            LanguageType::EnglishSingapore => "en_sg"@,
            LanguageType::SpanishArgentina => "es_ar"@,
            LanguageType::SpanishSpain => "es_es"@,
            LanguageType::SpanishMexico => "es_mx"@,
            LanguageType::FrenchFrance => "fr_fr"@,
            LanguageType::Hungarian => "hu_hu"@,
            LanguageType::Italian => "it_it"@,
            LanguageType::Japanese => "ja_jp"@,
            LanguageType::Korean => "ko_kr"@,
            LanguageType::Polish => "pl_pl"@,
            LanguageType::PortugueseBrazil => "pt_br"@,
            LanguageType::Romanian => "ro_ro"@,
            LanguageType::Russian => "ru_ru"@,
            LanguageType::Thai => "th_th"@,
            LanguageType::Turkish => "tr_tr"@,
            LanguageType::Vietnamese => "vi_vn"@,
            LanguageType::ChineseChina => "zh_cn"@,
            LanguageType::ChineseMalaysia => "zh_my"@,
            LanguageType::ChineseTaiwan => "zh_tw"@,
        }
    }

    pub fn as_str(&self) -> (segment: &'static str)
        ensures
            segment@ == self.segment(),
    {
        match self {
            LanguageType::Default => "default",
            LanguageType::Arabic => "ar_ae",
            LanguageType::Czech => "cs_cz",
            LanguageType::German => "de_de",
            LanguageType::Greek => "el_gr",
            LanguageType::EnglishAustralia => "en_au",
            LanguageType::EnglishGreatBritain => "en_gb",
            LanguageType::EnglishPhilippines => "en_ph",
            LanguageType::EnglishSingapore => "en_sg",
            LanguageType::SpanishArgentina => "es_ar",
            LanguageType::SpanishSpain => "es_es",
            LanguageType::SpanishMexico => "es_mx",
            LanguageType::FrenchFrance => "fr_fr",
            LanguageType::Hungarian => "hu_hu",
            LanguageType::Italian => "it_it",
            LanguageType::Japanese => "ja_jp",
            LanguageType::Korean => "ko_kr",
            LanguageType::Polish => "pl_pl",
            LanguageType::PortugueseBrazil => "pt_br",
            LanguageType::Romanian => "ro_ro",
            LanguageType::Russian => "ru_ru",
            LanguageType::Thai => "th_th",
            LanguageType::Turkish => "tr_tr",
            LanguageType::Vietnamese => "vi_vn",
            LanguageType::ChineseChina => "zh_cn",
            LanguageType::ChineseMalaysia => "zh_my",
            LanguageType::ChineseTaiwan => "zh_tw",
        }
    }
}

/// A character that a language segment is written with: a small letter or
/// an underscore.
pub open spec fn is_segment_char(c: char) -> bool {
    ('a' <= c && c <= 'z') || c == '_'
}

/// Every language has a segment of its own: it is not empty, it is written
/// in small letters and underscores alone, and no other language has the
/// same.
pub proof fn lemma_language_segments(language: LanguageType, other: LanguageType)
    ensures
        language.segment().len() > 0,
        forall|i: int|
            0 <= i < language.segment().len() ==> is_segment_char(
                #[trigger] language.segment()[i],
            ),
        language != other ==> language.segment() != other.segment(),
{
    reveal_strlit("default");
    reveal_strlit("ar_ae");
    reveal_strlit("cs_cz");
    reveal_strlit("de_de");
    reveal_strlit("el_gr");
    reveal_strlit("en_au");
    reveal_strlit("en_gb");
    reveal_strlit("en_ph");
    reveal_strlit("en_sg");
    reveal_strlit("es_ar");
    reveal_strlit("es_es");
    reveal_strlit("es_mx");
    reveal_strlit("fr_fr");
    reveal_strlit("hu_hu");
    reveal_strlit("it_it");
    reveal_strlit("ja_jp");
    reveal_strlit("ko_kr");
    reveal_strlit("pl_pl");
    reveal_strlit("pt_br");
    reveal_strlit("ro_ro");
    reveal_strlit("ru_ru");
    reveal_strlit("th_th");
    reveal_strlit("tr_tr");
    reveal_strlit("vi_vn");
    reveal_strlit("zh_cn");
    reveal_strlit("zh_my");
    reveal_strlit("zh_tw");
    let a = language.segment();
    let b = other.segment();
    if language != other && a.len() == b.len() {
        assert(a[0] != b[0] || a[1] != b[1] || a[3] != b[3] || a[4] != b[4]);
    }
}

/// The context in which URLs are resolved: fixed once per run.
#[derive(Default, Debug, Clone, PartialEq)]
pub struct Config {
    /// Game-content version; `None` stands for the newest one.
    pub version: Option<String>,
    pub language: LanguageType,
    /// Directory under which downloaded files are kept.
    pub base_path: Option<String>,
}

/// The mathematical value of a [`Config`].
pub struct ConfigView {
    pub version: Option<Seq<char>>,
    pub language: LanguageType,
    pub base_path: Option<Seq<char>>,
}

impl View for Config {
    type V = ConfigView;

    open spec fn view(&self) -> ConfigView {
        ConfigView {
            version: self.version.deep_view(),
            language: self.language,
            base_path: self.base_path.deep_view(),
        }
    }
}

/// The context of fallback URLs: default language, no version.
pub open spec fn fallback_context() -> ConfigView {
    ConfigView { version: None, language: LanguageType::Default, base_path: None }
}

impl Config {
    pub fn default() -> (config: Self)
        ensures
            config@ == fallback_context(),
    {
        Self { version: None, language: LanguageType::Default, base_path: None }
    }

    pub fn new(version: Option<String>, language: LanguageType, base_path: Option<String>) -> (config:
        Self)
        ensures
            config.version == version,
            config.language == language,
            config.base_path == base_path,
    {
        Self { version, language, base_path }
    }

    /// The context from which fallback URLs are built.
    pub fn fallback() -> (config: Self)
        ensures
            config@ == fallback_context(),
    {
        Self::default()
    }
}

/// Index of the first `'.'` of `s` at or after `from`, or the length of `s`
/// when there is none.
pub open spec fn next_dot(s: Seq<char>, from: int) -> int
    decreases s.len() - from,
{
    if from < 0 || from >= s.len() {
        s.len() as int
    } else if s[from] == '.' {
        from
    } else {
        next_dot(s, from + 1)
    }
}

/// The major.minor part of a version: what stands before its second `'.'`,
/// or all of it when it has fewer than two.
pub open spec fn major_minor(version: Seq<char>) -> Seq<char> {
    version.take(next_dot(version, next_dot(version, 0) + 1))
}

/// The path segment that selects a version on the mirror.
pub open spec fn version_segment(version: Option<Seq<char>>) -> Seq<char> {
    match version {
        Some(v) => major_minor(v),
        None => LATEST@,
    }
}

/// A stretch of `s` that holds no `'.'` is skipped by the search: if none of
/// `s[from..at]` is a dot, and `at` is a dot or the end of `s`, the search
/// from `from` ends at `at`.
pub proof fn lemma_next_dot(s: Seq<char>, from: int, at: int)
    requires
        0 <= from <= at <= s.len(),
        forall|i: int| from <= i < at ==> s[i] != '.',
        at < s.len() ==> s[at] == '.',
    ensures
        next_dot(s, from) == at,
    decreases at - from,
{
    if from < at {
        lemma_next_dot(s, from + 1, at);
    }
}

/// A version of three or more fields is cut down to its first two: where
/// neither `major` nor `minor` holds a dot, the segment of
/// `major.minor.rest` is `major.minor`, whatever `rest` holds. Without a
/// version the segment is `latest`.
pub proof fn lemma_version_segment_is_major_minor(
    major: Seq<char>,
    minor: Seq<char>,
    rest: Seq<char>,
)
    requires
        !major.contains('.'),
        !minor.contains('.'),
    ensures
        version_segment(Some(major + seq!['.'] + minor + seq!['.'] + rest)) == major + seq!['.']
            + minor,
        version_segment(None) == "latest"@,
{
    let version = major + seq!['.'] + minor + seq!['.'] + rest;
    let first = major.len() as int;
    let second = first + 1 + minor.len();
    assert forall|i: int| 0 <= i < first implies version[i] != '.' by {
        assert(version[i] == major[i]);
    }
    lemma_next_dot(version, 0, first);
    assert forall|i: int| first + 1 <= i < second implies version[i] != '.' by {
        assert(version[i] == minor[i - first - 1]);
    }
    lemma_next_dot(version, first + 1, second);
    assert(version.take(second) =~= major + seq!['.'] + minor);
}

/// Address of a catalog document.
pub open spec fn assets_url(
    assets_type: AssetsType,
    language: LanguageType,
    version: Option<Seq<char>>,
) -> Seq<char> {
    COMMUNITY_DRAGON_URL@ + version_segment(version) + PLUGIN_PATH@ + language.segment()
        + CATALOG_PATH@ + assets_type.file_name()
}

/// Address of the asset file at `path` in the context `config`.
pub open spec fn cdragon_url(path: Seq<char>, config: ConfigView) -> Seq<char> {
    COMMUNITY_DRAGON_URL@ + version_segment(config.version) + PLUGIN_PATH@
        + config.language.segment() + ASSETS_PATH@ + path
}

/// Resolution is a function of what its arguments hold: two paths that
/// read the same, in two contexts that hold the same, resolve to the same
/// address, for the asset and for its fallback alike.
pub proof fn lemma_resolve_is_deterministic(
    path: &str,
    config: Config,
    other_path: &str,
    other_config: Config,
)
    requires
        path@ == other_path@,
        config@ == other_config@,
    ensures
        cdragon_url(path@, config@) == cdragon_url(other_path@, other_config@),
        cdragon_url(path@, fallback_context()) == cdragon_url(other_path@, fallback_context()),
{
}

/// An address is made of the mirror's root, the version segment, the
/// language segment and the path, and of nothing else that depends on the
/// context: it starts with the root and ends with the path.
pub proof fn lemma_resolve_frames_the_path(path: Seq<char>, config: ConfigView)
    ensures
        COMMUNITY_DRAGON_URL@.is_prefix_of(cdragon_url(path, config)),
        path.is_suffix_of(cdragon_url(path, config)),
        cdragon_url(path, config).len() >= COMMUNITY_DRAGON_URL@.len() + path.len(),
{
}

/// In one context, the address tells the path: two paths that resolve to
/// the same address are the same path.
pub proof fn lemma_resolve_tells_the_path(
    path: Seq<char>,
    other_path: Seq<char>,
    config: ConfigView,
)
    requires
        cdragon_url(path, config) == cdragon_url(other_path, config),
    ensures
        path == other_path,
{
    let front = COMMUNITY_DRAGON_URL@ + version_segment(config.version) + PLUGIN_PATH@
        + config.language.segment() + ASSETS_PATH@;
    assert(path =~= (front + path).skip(front.len() as int));
    assert(other_path =~= (front + other_path).skip(front.len() as int));
}

/// Finds the first `'.'` at or after `from`.
fn find_dot(s: &str, from: usize, len: usize) -> (at: usize)
    requires
        len == s@.len(),
        from <= len,
    ensures
        at == next_dot(s@, from as int),
        from <= at <= len,
{
    let mut at: usize = from;
    while at < len && s.get_char(at) != '.'
        invariant
            len == s@.len(),
            from <= at <= len,
            next_dot(s@, at as int) == next_dot(s@, from as int),
        decreases len - at,
    {
        at = at + 1;
    }
    at
}

/// Cuts a version down to its major.minor part.
pub fn truncate_version(version: &str) -> (short: String)
    ensures
        short@ == major_minor(version@),
{
    let len = version.unicode_len();
    let first = find_dot(version, 0, len);
    let second = if first < len {
        find_dot(version, first + 1, len)
    } else {
        len
    };
    String::from_str(version.substring_char(0, second))
}

/// The version segment of a URL: `"latest"` without a version, else the
/// version's major.minor part.
pub fn get_version_segment(version: &Option<String>) -> (segment: String)
    ensures
        segment@ == version_segment(version.deep_view()),
{
    match version {
        Some(v) => truncate_version(v.as_str()),
        None => String::from_str(LATEST),
    }
}

/// Builds the address of a catalog document for a version that is only
/// looked at.
fn build_assets_url(assets_type: AssetsType, language: LanguageType, version: &Option<String>) -> (url:
    String)
    ensures
        url@ == assets_url(assets_type, language, version.deep_view()),
{
    let segment = get_version_segment(version);
    let mut url = String::from_str(COMMUNITY_DRAGON_URL);
    url.append(segment.as_str());
    url.append(PLUGIN_PATH);
    url.append(language.as_str());
    url.append(CATALOG_PATH);
    url.append(assets_type.as_str());
    url
}

/// Builds the address of a catalog document.
pub fn get_assets_url(assets_type: AssetsType, language: LanguageType, version: Option<String>) -> (url:
    String)
    ensures
        url@ == assets_url(assets_type, language, version.deep_view()),
{
    build_assets_url(assets_type, language, &version)
}

/// Builds the address of a catalog document in the context `config`.
pub fn get_catalog_url(assets_type: AssetsType, config: &Config) -> (url: String)
    ensures
        url@ == assets_url(assets_type, config@.language, config@.version),
{
    build_assets_url(assets_type, config.language, &config.version)
}

/// The newest of the released versions, which are listed newest first;
/// nothing where none is listed.
pub fn get_latest_version(versions: &Vec<String>) -> (latest: Option<String>)
    ensures
        versions.len() == 0 ==> latest is None,
        versions.len() > 0 ==> latest == Some(versions[0]),
{
    if versions.len() == 0 {
        None
    } else {
        Some(versions[0].clone())
    }
}

/// Builds the address of the asset file at `path`.
pub fn get_cdragon_url(path: &str, config: &Config) -> (url: String)
    ensures
        url@ == cdragon_url(path@, config@),
{
    let segment = get_version_segment(&config.version);
    let mut url = String::from_str(COMMUNITY_DRAGON_URL);
    url.append(segment.as_str());
    url.append(PLUGIN_PATH);
    url.append(config.language.as_str());
    url.append(ASSETS_PATH);
    url.append(path);
    url
}

} // verus!
