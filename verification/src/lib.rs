//! A typed client library for the Pexels REST API.
//!
//! The library covers the request-building and response-mapping layer of the
//! client: builders that accumulate optional query parameters and render them
//! into fully qualified URLs, decoders that map an HTTP status code and JSON
//! body to a typed result, and a closed error taxonomy over the ways a call
//! can fail.  The network transport itself lives outside this crate; callers
//! hand each decoder the status code and body text that came back.
use vstd::prelude::*;

pub mod client;
pub mod collections;
pub mod domain;
pub mod json;
pub mod photos;
pub mod query;
pub mod strutil;
pub mod videos;

pub use domain::models::Collection;
pub use domain::models::CollectionsResponse;
pub use domain::models::MediaPhoto;
pub use domain::models::MediaResponse;
pub use domain::models::MediaVideo;
pub use domain::models::Photo;
pub use domain::models::PhotoSrc;
pub use domain::models::PhotosResponse;
pub use domain::models::User;
pub use domain::models::Video;
pub use domain::models::VideoFile;
pub use domain::models::VideoPicture;
pub use domain::models::VideoResponse;
pub use collections::featured::Featured;
pub use collections::featured::FeaturedBuilder;
pub use collections::items::Collections;
pub use collections::items::CollectionsBuilder;
pub use collections::media::Media;
pub use collections::media::MediaBuilder;
pub use photos::curated::Curated;
pub use photos::curated::CuratedBuilder;
pub use photos::photo::FetchPhoto;
pub use photos::photo::FetchPhotoBuilder;
pub use photos::search::Color;
pub use photos::search::Hex;
pub use photos::search::Search;
pub use photos::search::SearchBuilder;
pub use videos::popular::Popular;
pub use videos::popular::PopularBuilder;
pub use videos::search::Search as VideoSearch;
pub use videos::search::SearchBuilder as VideoSearchBuilder;
pub use videos::video::FetchVideo;
pub use videos::video::FetchVideoBuilder;

use crate::strutil::lower_chars;
use vstd::string::StringExecFns;

verus! {

/// Result type returned by the URI builders.
pub type BuilderResult = Result<String, PexelsError>;

/// Desired photo orientation.
/// Supported values: `landscape`, `portrait`, `square`.
#[derive(Debug, PartialEq, Eq, Structural, Clone, Copy)]
pub enum Orientation {
    Landscape,
    Portrait,
    Square,
}

impl Orientation {
    /// The canonical query-string form of each variant.
    pub open spec fn canonical(self) -> Seq<char> {
        match self {
            Orientation::Landscape => "landscape"@,
            Orientation::Portrait => "portrait"@,
            Orientation::Square => "square"@,
        }
    }

    pub fn as_str(&self) -> (r: &'static str)
        ensures
            r@ == self.canonical(),
    {
        match self {
            Orientation::Landscape => "landscape",
            Orientation::Portrait => "portrait",
            Orientation::Square => "square",
        }
    }

    /// What parsing an orientation string yields: the comparison is
    /// ASCII-case-insensitive, and anything unrecognized is rejected with the
    /// orientation-specific parse error.
    pub open spec fn parse_spec(s: Seq<char>) -> Result<Orientation, PexelsError> {
        if lower_chars(s) == "landscape"@ {
            Ok(Orientation::Landscape)
        } else if lower_chars(s) == "portrait"@ {
            Ok(Orientation::Portrait)
        } else if lower_chars(s) == "square"@ {
            Ok(Orientation::Square)
        } else {
            Err(PexelsError::ParseOrientationError)
        }
    }

    pub fn from_str(s: &str) -> (r: Result<Orientation, PexelsError>)
        ensures
            r == Orientation::parse_spec(s@),
    {
        if crate::strutil::eq_lower(s, "landscape") {
            Ok(Orientation::Landscape)
        } else if crate::strutil::eq_lower(s, "portrait") {
            Ok(Orientation::Portrait)
        } else if crate::strutil::eq_lower(s, "square") {
            Ok(Orientation::Square)
        } else {
            Err(PexelsError::ParseOrientationError)
        }
    }
}

impl core::str::FromStr for Orientation {
    type Err = PexelsError;

    fn from_str(s: &str) -> Result<Orientation, PexelsError> {
        Orientation::from_str(s)
    }
}

/// Parsing any canonical orientation string, in any character case, gives
/// back the same variant.
pub proof fn lemma_orientation_round_trip(o: Orientation)
    ensures
        Orientation::parse_spec(o.canonical()) == Ok::<Orientation, PexelsError>(o),
{
    reveal_strlit("landscape");
    reveal_strlit("portrait");
    reveal_strlit("square");
    lemma_lower_fixed("landscape"@);
    lemma_lower_fixed("portrait"@);
    lemma_lower_fixed("square"@);
}

/// Orientation parsing is ASCII-case-insensitive: folding the input first
/// never changes the outcome.
pub proof fn lemma_orientation_case_insensitive(s: Seq<char>)
    ensures
        Orientation::parse_spec(lower_chars(s)) == Orientation::parse_spec(s),
{
    crate::strutil::lemma_lower_chars_idempotent(s);
}

/// Specifies the order of items in a media collection.
/// Supported values: `asc`, `desc`.
#[derive(Debug, PartialEq, Eq, Structural, Clone, Copy)]
pub enum MediaSort {
    Asc,
    Desc,
}

impl MediaSort {
    /// The canonical query-string form of each variant.
    pub open spec fn canonical(self) -> Seq<char> {
        match self {
            MediaSort::Asc => "asc"@,
            MediaSort::Desc => "desc"@,
        }
    }

    pub fn as_str(&self) -> (r: &'static str)
        ensures
            r@ == self.canonical(),
    {
        match self {
            MediaSort::Asc => "asc",
            MediaSort::Desc => "desc",
        }
    }

    /// What parsing a sort-order string yields, ASCII-case-insensitively.
    pub open spec fn parse_spec(s: Seq<char>) -> Result<MediaSort, PexelsError> {
        if lower_chars(s) == "asc"@ {
            Ok(MediaSort::Asc)
        } else if lower_chars(s) == "desc"@ {
            Ok(MediaSort::Desc)
        } else {
            Err(PexelsError::ParseMediaSortError)
        }
    }

    pub fn from_str(s: &str) -> (r: Result<MediaSort, PexelsError>)
        ensures
            r == MediaSort::parse_spec(s@),
    {
        if crate::strutil::eq_lower(s, "asc") {
            Ok(MediaSort::Asc)
        } else if crate::strutil::eq_lower(s, "desc") {
            Ok(MediaSort::Desc)
        } else {
            Err(PexelsError::ParseMediaSortError)
        }
    }
}

impl core::str::FromStr for MediaSort {
    type Err = PexelsError;

    fn from_str(s: &str) -> Result<MediaSort, PexelsError> {
        MediaSort::from_str(s)
    }
}

/// Parsing any canonical sort string, in any character case, gives back the
/// same variant.
pub proof fn lemma_media_sort_round_trip(m: MediaSort)
    ensures
        MediaSort::parse_spec(m.canonical()) == Ok::<MediaSort, PexelsError>(m),
{
    reveal_strlit("asc");
    reveal_strlit("desc");
    lemma_lower_fixed("asc"@);
    lemma_lower_fixed("desc"@);
}

/// Sort-order parsing is ASCII-case-insensitive.
pub proof fn lemma_media_sort_case_insensitive(s: Seq<char>)
    ensures
        MediaSort::parse_spec(lower_chars(s)) == MediaSort::parse_spec(s),
{
    crate::strutil::lemma_lower_chars_idempotent(s);
}

/// Specifies the type of media to request from a collection.
/// `Empty` stands for no filter and contributes no query parameter.
#[derive(Debug, PartialEq, Eq, Structural, Clone, Copy)]
pub enum MediaType {
    Photo,
    Video,
    Empty,
}

impl MediaType {
    /// The canonical query-string form of each variant.
    pub open spec fn canonical(self) -> Seq<char> {
        match self {
            MediaType::Photo => "photos"@,
            MediaType::Video => "videos"@,
            MediaType::Empty => ""@,
        }
    }

    pub fn as_str(&self) -> (r: &'static str)
        ensures
            r@ == self.canonical(),
    {
        match self {
            MediaType::Photo => "photos",
            MediaType::Video => "videos",
            MediaType::Empty => "",
        }
    }

    /// What parsing a media-type string yields: both the singular and the
    /// canonical plural form of each filter are accepted,
    /// ASCII-case-insensitively, and the empty string selects no filter.
    pub open spec fn parse_spec(s: Seq<char>) -> Result<MediaType, PexelsError> {
        if lower_chars(s) == "photo"@ || lower_chars(s) == "photos"@ {
            Ok(MediaType::Photo)
        } else if lower_chars(s) == "video"@ || lower_chars(s) == "videos"@ {
            Ok(MediaType::Video)
        } else if lower_chars(s) == ""@ {
            Ok(MediaType::Empty)
        } else {
            Err(PexelsError::ParseMediaTypeError)
        }
    }

    pub fn from_str(s: &str) -> (r: Result<MediaType, PexelsError>)
        ensures
            r == MediaType::parse_spec(s@),
    {
        if crate::strutil::eq_lower(s, "photo") || crate::strutil::eq_lower(s, "photos") {
            Ok(MediaType::Photo)
        } else if crate::strutil::eq_lower(s, "video") || crate::strutil::eq_lower(s, "videos") {
            Ok(MediaType::Video)
        } else if crate::strutil::eq_lower(s, "") {
            Ok(MediaType::Empty)
        } else {
            Err(PexelsError::ParseMediaTypeError)
        }
    }
}

impl core::str::FromStr for MediaType {
    type Err = PexelsError;

    fn from_str(s: &str) -> Result<MediaType, PexelsError> {
        MediaType::from_str(s)
    }
}

/// Parsing any canonical media-type string, in any character case, gives
/// back the same variant.
pub proof fn lemma_media_type_round_trip(m: MediaType)
    ensures
        MediaType::parse_spec(m.canonical()) == Ok::<MediaType, PexelsError>(m),
{
    reveal_strlit("photo");
    reveal_strlit("photos");
    reveal_strlit("video");
    reveal_strlit("videos");
    reveal_strlit("");
    lemma_lower_fixed("photo"@);
    lemma_lower_fixed("photos"@);
    lemma_lower_fixed("video"@);
    lemma_lower_fixed("videos"@);
    lemma_lower_fixed(""@);
    assert("videos"@[0] != "photos"@[0]);
    assert("videos"@ != "photos"@);
}

/// Media-type parsing is ASCII-case-insensitive.
pub proof fn lemma_media_type_case_insensitive(s: Seq<char>)
    ensures
        MediaType::parse_spec(lower_chars(s)) == MediaType::parse_spec(s),
{
    crate::strutil::lemma_lower_chars_idempotent(s);
}

/// Specifies the minimum size for photos or videos.
/// Supported values: `large`, `medium`, `small`.
#[derive(Debug, PartialEq, Eq, Structural, Clone, Copy)]
pub enum Size {
    Large,
    Medium,
    Small,
}

impl Size {
    /// The canonical query-string form of each variant.
    pub open spec fn canonical(self) -> Seq<char> {
        match self {
            Size::Large => "large"@,
            Size::Medium => "medium"@,
            Size::Small => "small"@,
        }
    }

    pub fn as_str(&self) -> (r: &'static str)
        ensures
            r@ == self.canonical(),
    {
        match self {
            Size::Large => "large",
            Size::Medium => "medium",
            Size::Small => "small",
        }
    }

    /// What parsing a size string yields, ASCII-case-insensitively.
    pub open spec fn parse_spec(s: Seq<char>) -> Result<Size, PexelsError> {
        if lower_chars(s) == "large"@ {
            Ok(Size::Large)
        } else if lower_chars(s) == "medium"@ {
            Ok(Size::Medium)
        } else if lower_chars(s) == "small"@ {
            Ok(Size::Small)
        } else {
            Err(PexelsError::ParseSizeError)
        }
    }

    pub fn from_str(s: &str) -> (r: Result<Size, PexelsError>)
        ensures
            r == Size::parse_spec(s@),
    {
        if crate::strutil::eq_lower(s, "large") {
            Ok(Size::Large)
        } else if crate::strutil::eq_lower(s, "medium") {
            Ok(Size::Medium)
        } else if crate::strutil::eq_lower(s, "small") {
            Ok(Size::Small)
        } else {
            Err(PexelsError::ParseSizeError)
        }
    }
}

impl core::str::FromStr for Size {
    type Err = PexelsError;

    fn from_str(s: &str) -> Result<Size, PexelsError> {
        Size::from_str(s)
    }
}

/// Parsing any canonical size string, in any character case, gives back the
/// same variant.
pub proof fn lemma_size_round_trip(z: Size)
    ensures
        Size::parse_spec(z.canonical()) == Ok::<Size, PexelsError>(z),
{
    reveal_strlit("large");
    reveal_strlit("medium");
    reveal_strlit("small");
    lemma_lower_fixed("large"@);
    lemma_lower_fixed("medium"@);
    lemma_lower_fixed("small"@);
    assert("small"@[0] != "large"@[0]);
    assert("small"@ != "large"@);
}

/// Size parsing is ASCII-case-insensitive.
pub proof fn lemma_size_case_insensitive(s: Seq<char>)
    ensures
        Size::parse_spec(lower_chars(s)) == Size::parse_spec(s),
{
    crate::strutil::lemma_lower_chars_idempotent(s);
}

/// Errors that can occur while interacting with the Pexels API.
///
/// The taxonomy is closed: transport failure, JSON decode failure, URL parse
/// failure, missing credentials, an invalid hex color filter, one parse error
/// per enumeration kind, authentication failure, rate limiting, a missing
/// resource, and a generic API failure carrying the raw status code.
/// Wrapped transport and parse failures are carried as their rendered
/// messages, so equality between two errors of the same kind compares those
/// messages; errors of different kinds are never equal.
#[derive(Debug, Clone)]
pub enum PexelsError {
    RequestError(String),
    JsonParseError(String),
    EnvVarError(String),
    ApiKeyNotFound,
    ParseError(String),
    HexColorCodeError(String),
    ParseMediaTypeError,
    ParseMediaSortError,
    ParseOrientationError,
    ParseSizeError,
    ParseLocaleError,
    AuthError(String),
    RateLimitError,
    NotFound(String),
    ApiError(String),
}

impl PexelsError {
    /// The rendered message of each error kind.
    pub open spec fn message_spec(self) -> Seq<char> {
        match self {
            PexelsError::RequestError(m) => "Failed to send HTTP request: "@ + m@,
            PexelsError::JsonParseError(m) => "Failed to parse JSON response: "@ + m@,
            PexelsError::EnvVarError(m) => "API key not found in environment variables: "@ + m@,
            PexelsError::ApiKeyNotFound => "API key not found in environment variables"@,
            PexelsError::ParseError(m) => "Failed to parse URL: "@ + m@,
            PexelsError::HexColorCodeError(m) => "Invalid hex color code: "@ + m@,
            PexelsError::ParseMediaTypeError => "Failed to parse media type: invalid value"@,
            PexelsError::ParseMediaSortError => "Failed to parse media sort: invalid value"@,
            PexelsError::ParseOrientationError => "Failed to parse orientation: invalid value"@,
            PexelsError::ParseSizeError => "Failed to parse size: invalid value"@,
            PexelsError::ParseLocaleError => "Failed to parse locale: invalid value"@,
            PexelsError::AuthError(m) => "Authentication failed: "@ + m@,
            PexelsError::RateLimitError => "Rate limit exceeded"@,
            PexelsError::NotFound(m) => m@,
            PexelsError::ApiError(m) => m@,
        }
    }

    /// Renders the error as a human-readable message.
    pub fn message(&self) -> (r: String)
        ensures
            r@ == self.message_spec(),
    {
        match self {
            PexelsError::RequestError(m) => concat_str("Failed to send HTTP request: ", m),
            PexelsError::JsonParseError(m) => concat_str("Failed to parse JSON response: ", m),
            PexelsError::EnvVarError(m) => concat_str(
                "API key not found in environment variables: ",
                m,
            ),
            PexelsError::ApiKeyNotFound => copy_str("API key not found in environment variables"),
            PexelsError::ParseError(m) => concat_str("Failed to parse URL: ", m),
            PexelsError::HexColorCodeError(m) => concat_str("Invalid hex color code: ", m),
            PexelsError::ParseMediaTypeError => copy_str(
                "Failed to parse media type: invalid value",
            ),
            PexelsError::ParseMediaSortError => copy_str(
                "Failed to parse media sort: invalid value",
            ),
            PexelsError::ParseOrientationError => copy_str(
                "Failed to parse orientation: invalid value",
            ),
            PexelsError::ParseSizeError => copy_str("Failed to parse size: invalid value"),
            PexelsError::ParseLocaleError => copy_str("Failed to parse locale: invalid value"),
            PexelsError::AuthError(m) => concat_str("Authentication failed: ", m),
            PexelsError::RateLimitError => copy_str("Rate limit exceeded"),
            PexelsError::NotFound(m) => copy_str(m.as_str()),
            PexelsError::ApiError(m) => copy_str(m.as_str()),
        }
    }
}

pub(crate) fn copy_str(s: &str) -> (r: String)
    ensures
        r@ == s@,
{
    String::from_str(s)
}

pub(crate) fn concat_str(prefix: &str, tail: &String) -> (r: String)
    ensures
        r@ == prefix@ + tail@,
{
    let mut r = String::from_str(prefix);
    r.append(tail.as_str());
    r
}

impl PartialEq for PexelsError {
    /// Two errors are equal when they are of the same kind and carry the
    /// same rendered message or payload.
    fn eq(&self, other: &Self) -> bool {
        match (self, other) {
            (PexelsError::RequestError(a), PexelsError::RequestError(b)) => *a == *b,
            (PexelsError::JsonParseError(a), PexelsError::JsonParseError(b)) => *a == *b,
            (PexelsError::EnvVarError(a), PexelsError::EnvVarError(b)) => *a == *b,
            (PexelsError::ApiKeyNotFound, PexelsError::ApiKeyNotFound) => true,
            (PexelsError::ParseError(a), PexelsError::ParseError(b)) => *a == *b,
            (PexelsError::HexColorCodeError(a), PexelsError::HexColorCodeError(b)) => *a == *b,
            (PexelsError::ParseMediaTypeError, PexelsError::ParseMediaTypeError) => true,
            (PexelsError::ParseMediaSortError, PexelsError::ParseMediaSortError) => true,
            (PexelsError::ParseOrientationError, PexelsError::ParseOrientationError) => true,
            (PexelsError::ParseSizeError, PexelsError::ParseSizeError) => true,
            (PexelsError::ParseLocaleError, PexelsError::ParseLocaleError) => true,
            (PexelsError::AuthError(a), PexelsError::AuthError(b)) => *a == *b,
            (PexelsError::RateLimitError, PexelsError::RateLimitError) => true,
            (PexelsError::NotFound(a), PexelsError::NotFound(b)) => *a == *b,
            (PexelsError::ApiError(a), PexelsError::ApiError(b)) => *a == *b,
            _ => false,
        }
    }
}

impl vstd::std_specs::cmp::PartialEqSpecImpl for PexelsError {
    open spec fn obeys_eq_spec() -> bool {
        true
    }

    open spec fn eq_spec(&self, other: &PexelsError) -> bool {
        match (self, other) {
            (PexelsError::RequestError(a), PexelsError::RequestError(b)) => a@ == b@,
            (PexelsError::JsonParseError(a), PexelsError::JsonParseError(b)) => a@ == b@,
            (PexelsError::EnvVarError(a), PexelsError::EnvVarError(b)) => a@ == b@,
            (PexelsError::ApiKeyNotFound, PexelsError::ApiKeyNotFound) => true,
            (PexelsError::ParseError(a), PexelsError::ParseError(b)) => a@ == b@,
            (PexelsError::HexColorCodeError(a), PexelsError::HexColorCodeError(b)) => a@ == b@,
            (PexelsError::ParseMediaTypeError, PexelsError::ParseMediaTypeError) => true,
            (PexelsError::ParseMediaSortError, PexelsError::ParseMediaSortError) => true,
            (PexelsError::ParseOrientationError, PexelsError::ParseOrientationError) => true,
            (PexelsError::ParseSizeError, PexelsError::ParseSizeError) => true,
            (PexelsError::ParseLocaleError, PexelsError::ParseLocaleError) => true,
            (PexelsError::AuthError(a), PexelsError::AuthError(b)) => a@ == b@,
            (PexelsError::RateLimitError, PexelsError::RateLimitError) => true,
            (PexelsError::NotFound(a), PexelsError::NotFound(b)) => a@ == b@,
            (PexelsError::ApiError(a), PexelsError::ApiError(b)) => a@ == b@,
            _ => false,
        }
    }
}

/// Specifies the locale of a search query.
///
/// Every variant renders to its standard BCP 47 tag, including the Russian
/// locale, which renders as `ru-RU`.
#[allow(non_camel_case_types)]
#[derive(Debug, PartialEq, Eq, Structural, Clone, Copy)]
pub enum Locale {
    en_US,
    pt_BR,
    es_ES,
    ca_ES,
    de_DE,
    it_IT,
    fr_FR,
    sv_SE,
    id_ID,
    pl_PL,
    ja_JP,
    zh_TW,
    zh_CN,
    ko_KR,
    th_TH,
    nl_NL,
    hu_HU,
    vi_VN,
    cs_CZ,
    da_DK,
    fi_FI,
    uk_UA,
    el_GR,
    ro_RO,
    nb_NO,
    sk_SK,
    tr_TR,
    ru_RU,
}

impl Locale {
    /// The canonical query-string form of each variant.
    pub open spec fn canonical(self) -> Seq<char> {
        match self {
            Locale::en_US => "en-US"@,
            Locale::pt_BR => "pt-BR"@,
            Locale::es_ES => "es-ES"@,
            Locale::ca_ES => "ca-ES"@,
            Locale::de_DE => "de-DE"@,
            Locale::it_IT => "it-IT"@,
            Locale::fr_FR => "fr-FR"@,
            Locale::sv_SE => "sv-SE"@,
            Locale::id_ID => "id-ID"@,
            Locale::pl_PL => "pl-PL"@,
            Locale::ja_JP => "ja-JP"@,
            Locale::zh_TW => "zh-TW"@,
            Locale::zh_CN => "zh-CN"@,
            Locale::ko_KR => "ko-KR"@,
            Locale::th_TH => "th-TH"@,
            Locale::nl_NL => "nl-NL"@,
            Locale::hu_HU => "hu-HU"@,
            Locale::vi_VN => "vi-VN"@,
            Locale::cs_CZ => "cs-CZ"@,
            Locale::da_DK => "da-DK"@,
            Locale::fi_FI => "fi-FI"@,
            Locale::uk_UA => "uk-UA"@,
            Locale::el_GR => "el-GR"@,
            Locale::ro_RO => "ro-RO"@,
            Locale::nb_NO => "nb-NO"@,
            Locale::sk_SK => "sk-SK"@,
            Locale::tr_TR => "tr-TR"@,
            Locale::ru_RU => "ru-RU"@,
        }
    }

    pub fn as_str(&self) -> (r: &'static str)
        ensures
            r@ == self.canonical(),
    {
        match self {
            Locale::en_US => "en-US",
            Locale::pt_BR => "pt-BR",
            Locale::es_ES => "es-ES",
            Locale::ca_ES => "ca-ES",
            Locale::de_DE => "de-DE",
            Locale::it_IT => "it-IT",
            Locale::fr_FR => "fr-FR",
            Locale::sv_SE => "sv-SE",
            Locale::id_ID => "id-ID",
            Locale::pl_PL => "pl-PL",
            Locale::ja_JP => "ja-JP",
            Locale::zh_TW => "zh-TW",
            Locale::zh_CN => "zh-CN",
            Locale::ko_KR => "ko-KR",
            Locale::th_TH => "th-TH",
            Locale::nl_NL => "nl-NL",
            Locale::hu_HU => "hu-HU",
            Locale::vi_VN => "vi-VN",
            Locale::cs_CZ => "cs-CZ",
            Locale::da_DK => "da-DK",
            Locale::fi_FI => "fi-FI",
            Locale::uk_UA => "uk-UA",
            Locale::el_GR => "el-GR",
            Locale::ro_RO => "ro-RO",
            Locale::nb_NO => "nb-NO",
            Locale::sk_SK => "sk-SK",
            Locale::tr_TR => "tr-TR",
            Locale::ru_RU => "ru-RU",
        }
    }

    /// What parsing a locale tag yields, ASCII-case-insensitively.
    pub open spec fn parse_spec(s: Seq<char>) -> Result<Locale, PexelsError> {
        if lower_chars(s) == "en-us"@ {
            Ok(Locale::en_US)
        } else if lower_chars(s) == "pt-br"@ {
            Ok(Locale::pt_BR)
        } else if lower_chars(s) == "es-es"@ {
            Ok(Locale::es_ES)
        } else if lower_chars(s) == "ca-es"@ {
            Ok(Locale::ca_ES)
        } else if lower_chars(s) == "de-de"@ {
            Ok(Locale::de_DE)
        } else if lower_chars(s) == "it-it"@ {
            Ok(Locale::it_IT)
        } else if lower_chars(s) == "fr-fr"@ {
            Ok(Locale::fr_FR)
        } else if lower_chars(s) == "sv-se"@ {
            Ok(Locale::sv_SE)
        } else if lower_chars(s) == "id-id"@ {
            Ok(Locale::id_ID)
        } else if lower_chars(s) == "pl-pl"@ {
            Ok(Locale::pl_PL)
        } else if lower_chars(s) == "ja-jp"@ {
            Ok(Locale::ja_JP)
        } else if lower_chars(s) == "zh-tw"@ {
            Ok(Locale::zh_TW)
        } else if lower_chars(s) == "zh-cn"@ {
            Ok(Locale::zh_CN)
        } else if lower_chars(s) == "ko-kr"@ {
            Ok(Locale::ko_KR)
        } else if lower_chars(s) == "th-th"@ {
            Ok(Locale::th_TH)
        } else if lower_chars(s) == "nl-nl"@ {
            Ok(Locale::nl_NL)
        } else if lower_chars(s) == "hu-hu"@ {
            Ok(Locale::hu_HU)
        } else if lower_chars(s) == "vi-vn"@ {
            Ok(Locale::vi_VN)
        } else if lower_chars(s) == "cs-cz"@ {
            Ok(Locale::cs_CZ)
        } else if lower_chars(s) == "da-dk"@ {
            Ok(Locale::da_DK)
        } else if lower_chars(s) == "fi-fi"@ {
            Ok(Locale::fi_FI)
        } else if lower_chars(s) == "uk-ua"@ {
            Ok(Locale::uk_UA)
        } else if lower_chars(s) == "el-gr"@ {
            Ok(Locale::el_GR)
        } else if lower_chars(s) == "ro-ro"@ {
            Ok(Locale::ro_RO)
        } else if lower_chars(s) == "nb-no"@ {
            Ok(Locale::nb_NO)
        } else if lower_chars(s) == "sk-sk"@ {
            Ok(Locale::sk_SK)
        } else if lower_chars(s) == "tr-tr"@ {
            Ok(Locale::tr_TR)
        } else if lower_chars(s) == "ru-ru"@ {
            Ok(Locale::ru_RU)
        } else {
            Err(PexelsError::ParseLocaleError)
        }
    }

    pub fn from_str(s: &str) -> (r: Result<Locale, PexelsError>)
        ensures
            r == Locale::parse_spec(s@),
    {
        if crate::strutil::eq_lower(s, "en-us") {
            Ok(Locale::en_US)
        } else if crate::strutil::eq_lower(s, "pt-br") {
            Ok(Locale::pt_BR)
        } else if crate::strutil::eq_lower(s, "es-es") {
            Ok(Locale::es_ES)
        } else if crate::strutil::eq_lower(s, "ca-es") {
            Ok(Locale::ca_ES)
        } else if crate::strutil::eq_lower(s, "de-de") {
            Ok(Locale::de_DE)
        } else if crate::strutil::eq_lower(s, "it-it") {
            Ok(Locale::it_IT)
        } else if crate::strutil::eq_lower(s, "fr-fr") {
            Ok(Locale::fr_FR)
        } else if crate::strutil::eq_lower(s, "sv-se") {
            Ok(Locale::sv_SE)
        } else if crate::strutil::eq_lower(s, "id-id") {
            Ok(Locale::id_ID)
        } else if crate::strutil::eq_lower(s, "pl-pl") {
            Ok(Locale::pl_PL)
        } else if crate::strutil::eq_lower(s, "ja-jp") {
            Ok(Locale::ja_JP)
        } else if crate::strutil::eq_lower(s, "zh-tw") {
            Ok(Locale::zh_TW)
        } else if crate::strutil::eq_lower(s, "zh-cn") {
            Ok(Locale::zh_CN)
        } else if crate::strutil::eq_lower(s, "ko-kr") {
            Ok(Locale::ko_KR)
        } else if crate::strutil::eq_lower(s, "th-th") {
            Ok(Locale::th_TH)
        } else if crate::strutil::eq_lower(s, "nl-nl") {
            Ok(Locale::nl_NL)
        } else if crate::strutil::eq_lower(s, "hu-hu") {
            Ok(Locale::hu_HU)
        } else if crate::strutil::eq_lower(s, "vi-vn") {
            Ok(Locale::vi_VN)
        } else if crate::strutil::eq_lower(s, "cs-cz") {
            Ok(Locale::cs_CZ)
        } else if crate::strutil::eq_lower(s, "da-dk") {
            Ok(Locale::da_DK)
        } else if crate::strutil::eq_lower(s, "fi-fi") {
            Ok(Locale::fi_FI)
        } else if crate::strutil::eq_lower(s, "uk-ua") {
            Ok(Locale::uk_UA)
        } else if crate::strutil::eq_lower(s, "el-gr") {
            Ok(Locale::el_GR)
        } else if crate::strutil::eq_lower(s, "ro-ro") {
            Ok(Locale::ro_RO)
        } else if crate::strutil::eq_lower(s, "nb-no") {
            Ok(Locale::nb_NO)
        } else if crate::strutil::eq_lower(s, "sk-sk") {
            Ok(Locale::sk_SK)
        } else if crate::strutil::eq_lower(s, "tr-tr") {
            Ok(Locale::tr_TR)
        } else if crate::strutil::eq_lower(s, "ru-ru") {
            Ok(Locale::ru_RU)
        } else {
            Err(PexelsError::ParseLocaleError)
        }
    }
}

impl core::str::FromStr for Locale {
    type Err = PexelsError;

    fn from_str(s: &str) -> Result<Locale, PexelsError> {
        Locale::from_str(s)
    }
}

/// Parsing any canonical locale tag, in any character case, gives back the
/// same variant.
#[verifier::rlimit(60)]
pub proof fn lemma_locale_round_trip(l: Locale)
    ensures
        Locale::parse_spec(l.canonical()) == Ok::<Locale, PexelsError>(l),
{
    reveal_strlit("en-US");
    reveal_strlit("en-us");
    reveal_strlit("pt-BR");
    reveal_strlit("pt-br");
    reveal_strlit("es-ES");
    reveal_strlit("es-es");
    reveal_strlit("ca-ES");
    reveal_strlit("ca-es");
    reveal_strlit("de-DE");
    reveal_strlit("de-de");
    reveal_strlit("it-IT");
    reveal_strlit("it-it");
    reveal_strlit("fr-FR");
    reveal_strlit("fr-fr");
    reveal_strlit("sv-SE");
    reveal_strlit("sv-se");
    reveal_strlit("id-ID");
    reveal_strlit("id-id");
    reveal_strlit("pl-PL");
    reveal_strlit("pl-pl");
    reveal_strlit("ja-JP");
    reveal_strlit("ja-jp");
    reveal_strlit("zh-TW");
    reveal_strlit("zh-tw");
    reveal_strlit("zh-CN");
    reveal_strlit("zh-cn");
    reveal_strlit("ko-KR");
    reveal_strlit("ko-kr");
    reveal_strlit("th-TH");
    reveal_strlit("th-th");
    reveal_strlit("nl-NL");
    reveal_strlit("nl-nl");
    reveal_strlit("hu-HU");
    reveal_strlit("hu-hu");
    reveal_strlit("vi-VN");
    reveal_strlit("vi-vn");
    reveal_strlit("cs-CZ");
    reveal_strlit("cs-cz");
    reveal_strlit("da-DK");
    reveal_strlit("da-dk");
    reveal_strlit("fi-FI");
    reveal_strlit("fi-fi");
    reveal_strlit("uk-UA");
    reveal_strlit("uk-ua");
    reveal_strlit("el-GR");
    reveal_strlit("el-gr");
    reveal_strlit("ro-RO");
    reveal_strlit("ro-ro");
    reveal_strlit("nb-NO");
    reveal_strlit("nb-no");
    reveal_strlit("sk-SK");
    reveal_strlit("sk-sk");
    reveal_strlit("tr-TR");
    reveal_strlit("tr-tr");
    reveal_strlit("ru-RU");
    reveal_strlit("ru-ru");
    lemma_lower_canonical_pair("en-US"@, "en-us"@);
    lemma_lower_canonical_pair("pt-BR"@, "pt-br"@);
    lemma_lower_canonical_pair("es-ES"@, "es-es"@);
    lemma_lower_canonical_pair("ca-ES"@, "ca-es"@);
    lemma_lower_canonical_pair("de-DE"@, "de-de"@);
    lemma_lower_canonical_pair("it-IT"@, "it-it"@);
    lemma_lower_canonical_pair("fr-FR"@, "fr-fr"@);
    lemma_lower_canonical_pair("sv-SE"@, "sv-se"@);
    lemma_lower_canonical_pair("id-ID"@, "id-id"@);
    lemma_lower_canonical_pair("pl-PL"@, "pl-pl"@);
    lemma_lower_canonical_pair("ja-JP"@, "ja-jp"@);
    lemma_lower_canonical_pair("zh-TW"@, "zh-tw"@);
    lemma_lower_canonical_pair("zh-CN"@, "zh-cn"@);
    lemma_lower_canonical_pair("ko-KR"@, "ko-kr"@);
    lemma_lower_canonical_pair("th-TH"@, "th-th"@);
    lemma_lower_canonical_pair("nl-NL"@, "nl-nl"@);
    lemma_lower_canonical_pair("hu-HU"@, "hu-hu"@);
    lemma_lower_canonical_pair("vi-VN"@, "vi-vn"@);
    lemma_lower_canonical_pair("cs-CZ"@, "cs-cz"@);
    lemma_lower_canonical_pair("da-DK"@, "da-dk"@);
    lemma_lower_canonical_pair("fi-FI"@, "fi-fi"@);
    lemma_lower_canonical_pair("uk-UA"@, "uk-ua"@);
    lemma_lower_canonical_pair("el-GR"@, "el-gr"@);
    lemma_lower_canonical_pair("ro-RO"@, "ro-ro"@);
    lemma_lower_canonical_pair("nb-NO"@, "nb-no"@);
    lemma_lower_canonical_pair("sk-SK"@, "sk-sk"@);
    lemma_lower_canonical_pair("tr-TR"@, "tr-tr"@);
    lemma_lower_canonical_pair("ru-RU"@, "ru-ru"@);
    assert(("en-us"@)[0] == 'e' && ("en-us"@)[1] == 'n' && ("en-us"@)[3] == 'u' && ("en-us"@)[4] == 's');
    assert(("pt-br"@)[0] == 'p' && ("pt-br"@)[1] == 't' && ("pt-br"@)[3] == 'b' && ("pt-br"@)[4] == 'r');
    assert(("es-es"@)[0] == 'e' && ("es-es"@)[1] == 's' && ("es-es"@)[3] == 'e' && ("es-es"@)[4] == 's');
    assert(("ca-es"@)[0] == 'c' && ("ca-es"@)[1] == 'a' && ("ca-es"@)[3] == 'e' && ("ca-es"@)[4] == 's');
    assert(("de-de"@)[0] == 'd' && ("de-de"@)[1] == 'e' && ("de-de"@)[3] == 'd' && ("de-de"@)[4] == 'e');
    assert(("it-it"@)[0] == 'i' && ("it-it"@)[1] == 't' && ("it-it"@)[3] == 'i' && ("it-it"@)[4] == 't');
    assert(("fr-fr"@)[0] == 'f' && ("fr-fr"@)[1] == 'r' && ("fr-fr"@)[3] == 'f' && ("fr-fr"@)[4] == 'r');
    assert(("sv-se"@)[0] == 's' && ("sv-se"@)[1] == 'v' && ("sv-se"@)[3] == 's' && ("sv-se"@)[4] == 'e');
    assert(("id-id"@)[0] == 'i' && ("id-id"@)[1] == 'd' && ("id-id"@)[3] == 'i' && ("id-id"@)[4] == 'd');
    assert(("pl-pl"@)[0] == 'p' && ("pl-pl"@)[1] == 'l' && ("pl-pl"@)[3] == 'p' && ("pl-pl"@)[4] == 'l');
    assert(("ja-jp"@)[0] == 'j' && ("ja-jp"@)[1] == 'a' && ("ja-jp"@)[3] == 'j' && ("ja-jp"@)[4] == 'p');
    assert(("zh-tw"@)[0] == 'z' && ("zh-tw"@)[1] == 'h' && ("zh-tw"@)[3] == 't' && ("zh-tw"@)[4] == 'w');
    assert(("zh-cn"@)[0] == 'z' && ("zh-cn"@)[1] == 'h' && ("zh-cn"@)[3] == 'c' && ("zh-cn"@)[4] == 'n');
    assert(("ko-kr"@)[0] == 'k' && ("ko-kr"@)[1] == 'o' && ("ko-kr"@)[3] == 'k' && ("ko-kr"@)[4] == 'r');
    assert(("th-th"@)[0] == 't' && ("th-th"@)[1] == 'h' && ("th-th"@)[3] == 't' && ("th-th"@)[4] == 'h');
    assert(("nl-nl"@)[0] == 'n' && ("nl-nl"@)[1] == 'l' && ("nl-nl"@)[3] == 'n' && ("nl-nl"@)[4] == 'l');
    assert(("hu-hu"@)[0] == 'h' && ("hu-hu"@)[1] == 'u' && ("hu-hu"@)[3] == 'h' && ("hu-hu"@)[4] == 'u');
    assert(("vi-vn"@)[0] == 'v' && ("vi-vn"@)[1] == 'i' && ("vi-vn"@)[3] == 'v' && ("vi-vn"@)[4] == 'n');
    assert(("cs-cz"@)[0] == 'c' && ("cs-cz"@)[1] == 's' && ("cs-cz"@)[3] == 'c' && ("cs-cz"@)[4] == 'z');
    assert(("da-dk"@)[0] == 'd' && ("da-dk"@)[1] == 'a' && ("da-dk"@)[3] == 'd' && ("da-dk"@)[4] == 'k');
    assert(("fi-fi"@)[0] == 'f' && ("fi-fi"@)[1] == 'i' && ("fi-fi"@)[3] == 'f' && ("fi-fi"@)[4] == 'i');
    assert(("uk-ua"@)[0] == 'u' && ("uk-ua"@)[1] == 'k' && ("uk-ua"@)[3] == 'u' && ("uk-ua"@)[4] == 'a');
    assert(("el-gr"@)[0] == 'e' && ("el-gr"@)[1] == 'l' && ("el-gr"@)[3] == 'g' && ("el-gr"@)[4] == 'r');
    assert(("ro-ro"@)[0] == 'r' && ("ro-ro"@)[1] == 'o' && ("ro-ro"@)[3] == 'r' && ("ro-ro"@)[4] == 'o');
    assert(("nb-no"@)[0] == 'n' && ("nb-no"@)[1] == 'b' && ("nb-no"@)[3] == 'n' && ("nb-no"@)[4] == 'o');
    assert(("sk-sk"@)[0] == 's' && ("sk-sk"@)[1] == 'k' && ("sk-sk"@)[3] == 's' && ("sk-sk"@)[4] == 'k');
    assert(("tr-tr"@)[0] == 't' && ("tr-tr"@)[1] == 'r' && ("tr-tr"@)[3] == 't' && ("tr-tr"@)[4] == 'r');
    assert(("ru-ru"@)[0] == 'r' && ("ru-ru"@)[1] == 'u' && ("ru-ru"@)[3] == 'r' && ("ru-ru"@)[4] == 'u');
}

/// Locale parsing is ASCII-case-insensitive.
pub proof fn lemma_locale_case_insensitive(s: Seq<char>)
    ensures
        Locale::parse_spec(lower_chars(s)) == Locale::parse_spec(s),
{
    crate::strutil::lemma_lower_chars_idempotent(s);
}

/// A five-character tag whose letters fold pointwise to the lower-case tag.
proof fn lemma_lower_canonical_pair(mixed: Seq<char>, lower: Seq<char>)
    requires
        mixed.len() == lower.len(),
        forall|i: int|
            0 <= i < mixed.len() ==> crate::strutil::lower_char(#[trigger] mixed[i]) == lower[i],
    ensures
        lower_chars(mixed) == lower,
{
    assert(lower_chars(mixed) =~= lower);
}

/// A sequence whose characters contain no ASCII upper-case letter folds to
/// itself.
proof fn lemma_lower_fixed(s: Seq<char>)
    requires
        forall|i: int| 0 <= i < s.len() ==> !('A' <= #[trigger] s[i] && s[i] <= 'Z'),
    ensures
        lower_chars(s) == s,
{
    assert(lower_chars(s) =~= s);
}

} // verus!
