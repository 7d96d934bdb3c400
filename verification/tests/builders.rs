//! URI rendering of every endpoint builder: unset fields contribute no
//! query key, set fields render once in their canonical form, and the
//! rendered URL is the same every time.
use pexels_api::{Color, CollectionsBuilder, CuratedBuilder, FeaturedBuilder, FetchPhotoBuilder,
    FetchVideoBuilder, Hex, MediaBuilder, MediaSort, MediaType, Orientation, PopularBuilder,
    SearchBuilder, Size, VideoSearchBuilder};

#[test]
fn photo_test_id() {
    let uri = FetchPhotoBuilder::new().id(123).build();
    assert_eq!("https://api.pexels.com/v1/photos/123", uri.create_uri().unwrap());
}

#[test]
fn video_test_id() {
    let uri = FetchVideoBuilder::new().id(123).build();
    assert_eq!("https://api.pexels.com/videos/videos/123", uri.create_uri().unwrap());
}

#[test]
fn test_min_width() {
    let uri = PopularBuilder::new().min_width(1).build();
    assert_eq!("https://api.pexels.com/videos/popular?min_width=1", uri.create_uri().unwrap());
}

#[test]
fn test_min_height() {
    let uri = PopularBuilder::new().min_height(1).build();
    assert_eq!("https://api.pexels.com/videos/popular?min_height=1", uri.create_uri().unwrap());
}

#[test]
fn test_min_duration() {
    let uri = PopularBuilder::new().min_duration(10).build();
    assert_eq!("https://api.pexels.com/videos/popular?min_duration=10", uri.create_uri().unwrap());
}

#[test]
fn test_max_duration() {
    let uri = PopularBuilder::new().max_duration(100).build();
    assert_eq!("https://api.pexels.com/videos/popular?max_duration=100", uri.create_uri().unwrap());
}

#[test]
fn test_page() {
    let uri = PopularBuilder::new().page(1).build();
    assert_eq!("https://api.pexels.com/videos/popular?page=1", uri.create_uri().unwrap());
}

#[test]
fn test_per_page() {
    let uri = PopularBuilder::new().per_page(1).build();
    assert_eq!("https://api.pexels.com/videos/popular?per_page=1", uri.create_uri().unwrap());
}

#[test]
fn test_featured_uri() {
    let empty = FeaturedBuilder::new().build();
    assert_eq!("https://api.pexels.com/v1/collections/featured", empty.create_uri().unwrap());
    let both = FeaturedBuilder::new().page(2).per_page(5).build();
    assert_eq!(
        "https://api.pexels.com/v1/collections/featured?page=2&per_page=5",
        both.create_uri().unwrap()
    );
}

#[test]
fn test_collections_uri() {
    let empty = CollectionsBuilder::new().build();
    assert_eq!("https://api.pexels.com/v1/collections", empty.create_uri().unwrap());
    let both = CollectionsBuilder::new().per_page(15).page(1).build();
    assert_eq!(
        "https://api.pexels.com/v1/collections?page=1&per_page=15",
        both.create_uri().unwrap()
    );
}

#[test]
fn test_curated_uri() {
    let empty = CuratedBuilder::new().build();
    assert_eq!("https://api.pexels.com/v1/curated", empty.create_uri().unwrap());
    let one = CuratedBuilder::new().per_page(1).build();
    assert_eq!("https://api.pexels.com/v1/curated?per_page=1", one.create_uri().unwrap());
}

#[test]
fn test_media_uri() {
    let full = MediaBuilder::new()
        .id(String::from("tszhfva"))
        .media_type(MediaType::Photo)
        .sort(MediaSort::Asc)
        .page(1)
        .per_page(15)
        .build();
    assert_eq!(
        "https://api.pexels.com/v1/collections/tszhfva?type=photos&sort=asc&page=1&per_page=15",
        full.create_uri().unwrap()
    );
}

#[test]
fn test_media_uri_empty_type_filter() {
    let m = MediaBuilder::new().id(String::from("abc")).media_type(MediaType::Empty).build();
    assert_eq!("https://api.pexels.com/v1/collections/abc", m.create_uri().unwrap());
}

#[test]
fn test_search_uri() {
    let s = SearchBuilder::new()
        .query("mountains")
        .page(1)
        .per_page(15)
        .orientation(Orientation::Landscape)
        .build();
    assert_eq!(
        "https://api.pexels.com/v1/search?query=mountains&page=1&per_page=15&orientation=landscape",
        s.create_uri().unwrap()
    );
}

#[test]
fn test_search_uri_encodes_query() {
    let s = SearchBuilder::new().query("blue sky & sea").build();
    assert_eq!(
        "https://api.pexels.com/v1/search?query=blue+sky+%26+sea",
        s.create_uri().unwrap()
    );
}

#[test]
fn test_search_uri_hex_color() {
    let hex = Hex::new("#ff0000").unwrap();
    let s = SearchBuilder::new().query("sunset").color(Color::Hex(hex)).build();
    assert_eq!(
        "https://api.pexels.com/v1/search?query=sunset&color=%23ff0000",
        s.create_uri().unwrap()
    );
}

#[test]
fn test_search_uri_named_color_and_locale() {
    let s = SearchBuilder::new()
        .query("sea")
        .size(Size::Large)
        .color(Color::Turquoise)
        .locale(pexels_api::Locale::ru_RU)
        .build();
    assert_eq!(
        "https://api.pexels.com/v1/search?query=sea&size=large&color=turquoise&locale=ru-RU",
        s.create_uri().unwrap()
    );
}

#[test]
fn test_video_search_uri() {
    let s = VideoSearchBuilder::new()
        .query("nature")
        .page(2)
        .per_page(10)
        .orientation(Orientation::Portrait)
        .size(Size::Small)
        .build();
    assert_eq!(
        "https://api.pexels.com/videos/search?query=nature&page=2&per_page=10&orientation=portrait&size=small",
        s.create_uri().unwrap()
    );
}

#[test]
fn test_invalid_hex_color() {
    assert!(matches!(
        Hex::new("ff0000"),
        Err(pexels_api::PexelsError::HexColorCodeError(_))
    ));
    assert!(matches!(
        Hex::new("#ff000g"),
        Err(pexels_api::PexelsError::HexColorCodeError(_))
    ));
}

#[test]
fn test_render_deterministic() {
    let a = PopularBuilder::new().min_width(640).page(3).build();
    let b = PopularBuilder::new().min_width(640).page(3).build();
    assert_eq!(a.create_uri().unwrap(), b.create_uri().unwrap());
    assert_eq!(a.create_uri().unwrap(), a.create_uri().unwrap());
}

#[test]
fn test_default_builder_urls() {
    assert_eq!(
        "https://api.pexels.com/v1/search?query=",
        SearchBuilder::new().build().create_uri().unwrap()
    );
    assert_eq!(
        "https://api.pexels.com/videos/search?query=",
        VideoSearchBuilder::new().build().create_uri().unwrap()
    );
    assert_eq!(
        "https://api.pexels.com/videos/popular",
        PopularBuilder::new().build().create_uri().unwrap()
    );
    assert_eq!(
        "https://api.pexels.com/v1/photos/0",
        FetchPhotoBuilder::new().build().create_uri().unwrap()
    );
    assert_eq!(
        "https://api.pexels.com/videos/videos/0",
        FetchVideoBuilder::new().build().create_uri().unwrap()
    );
    assert_eq!(
        "https://api.pexels.com/v1/collections/",
        MediaBuilder::new().build().create_uri().unwrap()
    );
}
