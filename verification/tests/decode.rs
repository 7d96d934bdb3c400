//! Response decoding: status-code mapping and JSON body decoding for each
//! endpoint family.
use pexels_api::{CollectionsBuilder, CuratedBuilder, FetchPhotoBuilder, FetchVideoBuilder,
    MediaBuilder, PexelsError, PopularBuilder, SearchBuilder};

fn photo_json(id: u32) -> String {
    format!(
        "{{\"id\":{},\"width\":400,\"height\":600,\"url\":\"u\",\
         \"photographer\":\"p\",\"photographer_url\":\"pu\",\"photographer_id\":7,\
         \"avg_color\":\"#aabbcc\",\"src\":{{\"original\":\"o\",\"large2x\":\"l2\",\
         \"large\":\"l\",\"medium\":\"m\",\"small\":\"s\",\"portrait\":\"po\",\
         \"landscape\":\"la\",\"tiny\":\"t\"}},\"liked\":false,\"alt\":\"a\"}}",
        id
    )
}

fn video_json(id: u32) -> String {
    format!(
        "{{\"id\":{},\"width\":1920,\"height\":1080,\"url\":\"vu\",\"image\":\"im\",\
         \"full_res\":null,\"tags\":[\"sea\",\"sun\"],\"duration\":12,\
         \"user\":{{\"id\":5,\"name\":\"n\",\"url\":\"uu\"}},\
         \"video_files\":[{{\"id\":9,\"quality\":\"hd\",\"file_type\":\"video/mp4\",\
         \"width\":1920,\"height\":1080,\"fps\":29.97,\"link\":\"lk\"}}],\
         \"video_pictures\":[{{\"id\":3,\"picture\":\"pic\",\"nr\":0}}]}}",
        id
    )
}

#[test]
fn test_auth_error_on_401() {
    let r = CuratedBuilder::new().build().decode_response(401, "");
    assert!(matches!(r, Err(PexelsError::AuthError(_))));
    let r = SearchBuilder::new().query("x").build().decode_response(401, "");
    assert!(matches!(r, Err(PexelsError::AuthError(_))));
}

#[test]
fn test_rate_limit_on_429() {
    let r = PopularBuilder::new().build().decode_response(429, "");
    assert!(matches!(r, Err(PexelsError::RateLimitError)));
}

#[test]
fn test_api_error_on_other_status() {
    let r = CollectionsBuilder::new().build().decode_response(500, "");
    match r {
        Err(PexelsError::ApiError(m)) => {
            assert_eq!(m, "Get collections failed with status: 500");
        },
        other => panic!("expected an API error, got {:?}", other),
    }
}

#[test]
fn test_not_found_message_names_the_id() {
    let r = FetchPhotoBuilder::new().id(123).build().decode_response(404, "");
    match r {
        Err(PexelsError::NotFound(m)) => {
            assert!(m.contains("123"));
            assert_eq!(m, "Photo with ID 123 not found");
        },
        other => panic!("expected a not-found error, got {:?}", other),
    }
    let r = FetchVideoBuilder::new().id(77).build().decode_response(404, "");
    match r {
        Err(PexelsError::NotFound(m)) => {
            assert_eq!(m, "Video with ID 77 not found");
        },
        other => panic!("expected a not-found error, got {:?}", other),
    }
}

#[test]
fn test_decode_photos_envelope() {
    let body = format!(
        "{{\"total_results\":200,\"page\":2,\"per_page\":2,\"photos\":[{},{}],\
         \"next_page\":\"https://api.pexels.com/v1/curated?page=3\",\"prev_page\":null}}",
        photo_json(1),
        photo_json(2)
    );
    let r = CuratedBuilder::new().build().decode_response(200, &body).unwrap();
    assert_eq!(r.photos.len(), 2);
    assert_eq!(r.next_page, Some(String::from("https://api.pexels.com/v1/curated?page=3")));
    assert_eq!(r.prev_page, None);
    assert_eq!(r.total_results, 200);
    assert_eq!(r.photos[0].id, 1);
    assert_eq!(r.photos[1].id, 2);
    assert_eq!(r.photos[0].src.tiny, "t");
    assert_eq!(r.photos[0].alt, "a");
}

#[test]
fn test_decode_malformed_json() {
    let r = CuratedBuilder::new().build().decode_response(200, "this is not json");
    assert!(matches!(r, Err(PexelsError::JsonParseError(_))));
}

#[test]
fn test_decode_wrong_shape() {
    let body = "{\"total_results\":\"many\",\"page\":1,\"per_page\":1,\"photos\":[],\
                \"next_page\":null,\"prev_page\":null}";
    let r = CuratedBuilder::new().build().decode_response(200, body);
    assert!(matches!(r, Err(PexelsError::JsonParseError(_))));
}

#[test]
fn test_decode_photo() {
    let body = photo_json(42);
    let p = FetchPhotoBuilder::new().id(42).build().decode_response(200, &body).unwrap();
    assert_eq!(p.id, 42);
    assert_eq!(p.photographer, "p");
    assert_eq!(p.src.original, "o");
    assert!(!p.liked);
}

#[test]
fn test_decode_video_response() {
    let body = format!(
        "{{\"page\":1,\"per_page\":1,\"total_results\":1,\"url\":\"r\",\
         \"videos\":[{}],\"prev_page\":null,\"next_page\":null}}",
        video_json(8)
    );
    let r = PopularBuilder::new().build().decode_response(200, &body).unwrap();
    assert_eq!(r.videos.len(), 1);
    assert_eq!(r.videos[0].id, 8);
    assert_eq!(r.videos[0].tags, vec![String::from("sea"), String::from("sun")]);
    assert_eq!(r.videos[0].user.name, "n");
    assert_eq!(r.videos[0].video_files[0].fps, "29.97");
    assert_eq!(r.videos[0].video_pictures[0].nr, 0);
}

#[test]
fn test_decode_video() {
    let body = video_json(9);
    let v = FetchVideoBuilder::new().id(9).build().decode_response(200, &body).unwrap();
    assert_eq!(v.duration, 12);
    assert_eq!(v.video_files[0].quality, "hd");
}

#[test]
fn test_decode_collections() {
    let body = "{\"collections\":[{\"id\":\"q\",\"title\":\"T\",\"description\":null,\
                \"private\":false,\"media_count\":3,\"photos_count\":2,\"videos_count\":1}],\
                \"page\":1,\"per_page\":15,\"total_results\":1,\"next_page\":null,\
                \"prev_page\":null}";
    let r = CollectionsBuilder::new().build().decode_response(200, body).unwrap();
    assert_eq!(r.collections.len(), 1);
    assert_eq!(r.collections[0].id, "q");
    assert_eq!(r.collections[0].description, None);
    assert_eq!(r.collections[0].media_count, 3);
}

#[test]
fn test_decode_media_items() {
    let photo_item = "{\"type\":\"Photo\",\"id\":1,\"width\":4,\"height\":6,\"url\":\"u\",\
        \"photographer\":null,\"photographer_url\":null,\"photographer_id\":7,\
        \"avg_color\":\"#aabbcc\",\"src\":{\"original\":\"o\",\"large2x\":\"l2\",\
        \"large\":\"l\",\"medium\":\"m\",\"small\":\"s\",\"portrait\":\"po\",\
        \"landscape\":\"la\",\"tiny\":\"t\"},\"liked\":true}";
    let video_item = "{\"type\":\"Video\",\"id\":2,\"width\":19,\"height\":10,\"duration\":3,\
        \"full_res\":null,\"tags\":[],\"url\":null,\"image\":null,\"avg_color\":null,\
        \"user\":{\"id\":5,\"name\":\"n\",\"url\":\"uu\"},\"video_files\":[],\
        \"video_pictures\":[]}";
    let body = format!(
        "{{\"id\":\"abc\",\"media\":[{},{}],\"page\":1,\"per_page\":2,\
         \"total_results\":2,\"next_page\":null,\"prev_page\":null}}",
        photo_item, video_item
    );
    let r = MediaBuilder::new()
        .id(String::from("abc"))
        .build()
        .decode_response(200, &body)
        .unwrap();
    assert_eq!(r.media.len(), 2);
    match &r.media[0] {
        pexels_api::domain::models::MediaType::Photo(mp) => {
            assert_eq!(mp.type_, "Photo");
            assert_eq!(mp.photographer, None);
            assert!(mp.liked);
        },
        other => panic!("expected a photo item, got {:?}", other),
    }
    match &r.media[1] {
        pexels_api::domain::models::MediaType::Video(mv) => {
            assert_eq!(mv.type_, "Video");
            assert_eq!(mv.user.id, 5);
        },
        other => panic!("expected a video item, got {:?}", other),
    }
}

#[test]
fn test_decode_rejects_out_of_range_number() {
    let body = "{\"id\":4294967296,\"width\":1,\"height\":1,\"url\":\"u\",\
                \"photographer\":\"p\",\"photographer_url\":\"pu\",\"photographer_id\":7,\
                \"avg_color\":\"c\",\"src\":{\"original\":\"o\",\"large2x\":\"l2\",\
                \"large\":\"l\",\"medium\":\"m\",\"small\":\"s\",\"portrait\":\"po\",\
                \"landscape\":\"la\",\"tiny\":\"t\"},\"liked\":false,\"alt\":\"a\"}";
    let r = FetchPhotoBuilder::new().id(1).build().decode_response(200, body);
    assert!(matches!(r, Err(PexelsError::JsonParseError(_))));
}
