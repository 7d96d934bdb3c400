//! Parsing and rendering of the parameter enumerations, and equality of the
//! error taxonomy.
use pexels_api::{Locale, MediaSort, MediaType, Orientation, PexelsError, Size};

#[test]
fn test_pexels_error_partial_eq() {
    let err1 = PexelsError::ApiKeyNotFound;
    let err2 = PexelsError::ApiKeyNotFound;
    assert_eq!(err1, err2);

    let err3 = PexelsError::HexColorCodeError(String::from("Invalid color"));
    let err4 = PexelsError::HexColorCodeError(String::from("Invalid color"));
    assert_eq!(err3, err4);

    let err9 = PexelsError::ParseError(url::ParseError::EmptyHost.to_string());
    let err10 = PexelsError::ParseError(url::ParseError::EmptyHost.to_string());
    assert_eq!(err9, err10);

    let err11 = PexelsError::ApiKeyNotFound;
    let err12 = PexelsError::HexColorCodeError(String::from("Invalid color"));
    assert_ne!(err11, err12);
}

#[test]
fn test_parse_photo() {
    let input = "photo";
    let media_type = input.parse::<MediaType>();
    assert_eq!(media_type, Ok(MediaType::Photo));
}

#[test]
fn test_parse_video() {
    let input = "video";
    let media_type = input.parse::<MediaType>();
    assert_eq!(media_type, Ok(MediaType::Video));
}

#[test]
fn test_parse_invalid() {
    let input = "audio";
    let media_type = input.parse::<MediaType>();
    assert!(matches!(media_type, Err(PexelsError::ParseMediaTypeError)));
}

#[test]
fn test_orientation_round_trip() {
    for o in [Orientation::Landscape, Orientation::Portrait, Orientation::Square] {
        assert_eq!(Orientation::from_str(o.as_str()), Ok(o));
    }
    assert_eq!(Orientation::from_str("LANDSCAPE"), Ok(Orientation::Landscape));
    assert_eq!(Orientation::from_str("Portrait"), Ok(Orientation::Portrait));
}

#[test]
fn test_media_sort_round_trip() {
    for m in [MediaSort::Asc, MediaSort::Desc] {
        assert_eq!(MediaSort::from_str(m.as_str()), Ok(m));
    }
    assert_eq!(MediaSort::from_str("DESC"), Ok(MediaSort::Desc));
}

#[test]
fn test_media_type_round_trip() {
    for m in [MediaType::Photo, MediaType::Video, MediaType::Empty] {
        assert_eq!(MediaType::from_str(m.as_str()), Ok(m));
    }
    assert_eq!(MediaType::from_str("PHOTOS"), Ok(MediaType::Photo));
}

#[test]
fn test_size_round_trip() {
    for z in [Size::Large, Size::Medium, Size::Small] {
        assert_eq!(Size::from_str(z.as_str()), Ok(z));
    }
    assert_eq!(Size::from_str("MEDIUM"), Ok(Size::Medium));
}

#[test]
fn test_locale_round_trip() {
    for l in [Locale::en_US, Locale::pt_BR, Locale::zh_TW, Locale::ru_RU] {
        assert_eq!(Locale::from_str(l.as_str()), Ok(l));
    }
    assert_eq!(Locale::ru_RU.as_str(), "ru-RU");
    assert_eq!(Locale::from_str("EN-us"), Ok(Locale::en_US));
}

#[test]
fn test_parse_errors_by_kind() {
    assert!(matches!(Orientation::from_str("diagonal"), Err(PexelsError::ParseOrientationError)));
    assert!(matches!(MediaSort::from_str("upwards"), Err(PexelsError::ParseMediaSortError)));
    assert!(matches!(Size::from_str("tiny"), Err(PexelsError::ParseSizeError)));
    assert!(matches!(Locale::from_str("xx-XX"), Err(PexelsError::ParseLocaleError)));
}

#[test]
fn test_error_messages() {
    assert_eq!(
        PexelsError::ParseMediaTypeError.message(),
        "Failed to parse media type: invalid value"
    );
    assert_eq!(
        PexelsError::JsonParseError(String::from("oops")).message(),
        "Failed to parse JSON response: oops"
    );
    assert_eq!(PexelsError::RateLimitError.message(), "Rate limit exceeded");
    assert_eq!(
        PexelsError::ApiKeyNotFound.message(),
        "API key not found in environment variables"
    );
}
