//! The response data model: plain value objects mirroring the API's JSON
//! shapes, each with a verified decoder from a parsed [`JsonNode`].
//!
//! A response either decodes completely into its target shape or the whole
//! decode fails; there is no partial success.  Frame rates are carried as
//! the decimal text of the JSON number, since this crate's data model is
//! integer- and string-valued.
use vstd::prelude::*;

use crate::json::{arr_matches, arr_ok, get_arr, get_arr_field, get_bool, get_bool_field,
    get_num_text, get_num_text_field, get_obj, get_obj_field, get_opt_string,
    get_opt_string_field, get_string, get_string_field, get_u32, get_u32_field, JsonNode};

verus! {


/// An assortment of image sizes available for one photo.
#[derive(Debug, Clone)]
pub struct PhotoSrc {
    pub original: String,
    pub large2x: String,
    pub large: String,
    pub medium: String,
    pub small: String,
    pub portrait: String,
    pub landscape: String,
    pub tiny: String,
}

/// A single photo with its source URLs and attribution.
#[derive(Debug, Clone)]
pub struct Photo {
    pub id: u32,
    pub width: u32,
    pub height: u32,
    pub url: String,
    pub photographer: String,
    pub photographer_url: String,
    pub photographer_id: u32,
    pub avg_color: String,
    pub src: PhotoSrc,
    pub liked: bool,
    pub alt: String,
}

/// A collection of media, identified by a string id.
#[derive(Debug, Clone)]
pub struct Collection {
    pub id: String,
    pub title: String,
    pub description: Option<String>,
    pub private: bool,
    pub media_count: u32,
    pub photos_count: u32,
    pub videos_count: u32,
}

/// The videographer who shot a video.
#[derive(Debug, Clone)]
pub struct User {
    pub id: u32,
    pub name: String,
    pub url: String,
}

/// One encoded variant of a video; `fps` holds the decimal text of the frame rate.
#[derive(Debug, Clone)]
pub struct VideoFile {
    pub id: u32,
    pub quality: String,
    pub file_type: String,
    pub width: u32,
    pub height: u32,
    pub fps: String,
    pub link: String,
}

/// One preview picture of a video.
#[derive(Debug, Clone)]
pub struct VideoPicture {
    pub id: u32,
    pub picture: String,
    pub nr: u32,
}

/// One page of a photo search or of the curated feed.
#[derive(Debug, Clone)]
pub struct PhotosResponse {
    pub total_results: u32,
    pub page: u32,
    pub per_page: u32,
    pub photos: Vec<Photo>,
    pub next_page: Option<String>,
    pub prev_page: Option<String>,
}

/// One page of the collection list.
#[derive(Debug, Clone)]
pub struct CollectionsResponse {
    pub collections: Vec<Collection>,
    pub page: u32,
    pub per_page: u32,
    pub total_results: u32,
    pub next_page: Option<String>,
    pub prev_page: Option<String>,
}

/// A single video with its encoded variants and preview pictures.
#[derive(Debug, Clone)]
pub struct Video {
    pub id: u32,
    pub width: u32,
    pub height: u32,
    pub url: String,
    pub image: String,
    pub full_res: Option<String>,
    pub tags: Vec<String>,
    pub duration: u32,
    pub user: User,
    pub video_files: Vec<VideoFile>,
    pub video_pictures: Vec<VideoPicture>,
}

/// One page of a video search or of the popular feed.
#[derive(Debug, Clone)]
pub struct VideoResponse {
    pub page: u32,
    pub per_page: u32,
    pub total_results: u32,
    pub url: String,
    pub videos: Vec<Video>,
    pub prev_page: Option<String>,
    pub next_page: Option<String>,
}

/// A photo-shaped item of a collection's media listing.
#[derive(Debug, Clone)]
pub struct MediaPhoto {
    pub type_: String,
    pub id: u32,
    pub width: u32,
    pub height: u32,
    pub url: Option<String>,
    pub photographer: Option<String>,
    pub photographer_url: Option<String>,
    pub photographer_id: u32,
    pub avg_color: String,
    pub src: PhotoSrc,
    pub liked: bool,
}

/// A video-shaped item of a collection's media listing.
#[derive(Debug, Clone)]
pub struct MediaVideo {
    pub type_: String,
    pub id: u32,
    pub width: u32,
    pub height: u32,
    pub duration: u32,
    pub full_res: Option<String>,
    pub tags: Vec<String>,
    pub url: Option<String>,
    pub image: Option<String>,
    pub avg_color: Option<String>,
    pub user: User,
    pub video_files: Vec<VideoFile>,
    pub video_pictures: Vec<VideoPicture>,
}

/// One item of a collection's media listing, discriminated by the JSON
/// `type` member.
#[derive(Debug, Clone)]
pub enum MediaType {
    Photo(MediaPhoto),
    Video(MediaVideo),
}

/// One page of a collection's media listing.
#[derive(Debug, Clone)]
pub struct MediaResponse {
    pub id: String,
    pub media: Vec<MediaType>,
    pub page: u32,
    pub per_page: u32,
    pub total_results: u32,
    pub next_page: Option<String>,
    pub prev_page: Option<String>,
}

/// The decoding of one JSON string node.
pub open spec fn string_from_node(n: JsonNode) -> Option<String> {
    match n {
        JsonNode::Str(s) => Some(s),
        _ => None,
    }
}

pub fn string_from_json(n: &JsonNode) -> (r: Option<String>)
    ensures
        r == string_from_node(*n),
{
    match n {
        JsonNode::Str(s) => Some(s.clone()),
        _ => None,
    }
}

pub open spec fn photo_src_from_fields(fs: Seq<(String, JsonNode)>) -> Option<PhotoSrc> {
    match get_string(fs, "original"@) {
        None => None,
        Some(original) => match get_string(fs, "large2x"@) {
            None => None,
            Some(large2x) => match get_string(fs, "large"@) {
                None => None,
                Some(large) => match get_string(fs, "medium"@) {
                    None => None,
                    Some(medium) => match get_string(fs, "small"@) {
                        None => None,
                        Some(small) => match get_string(fs, "portrait"@) {
                            None => None,
                            Some(portrait) => match get_string(fs, "landscape"@) {
                                None => None,
                                Some(landscape) => match get_string(fs, "tiny"@) {
                                    None => None,
                                    Some(tiny) => Some(PhotoSrc { original, large2x, large, medium, small, portrait, landscape, tiny }),
                                },
                            },
                        },
                    },
                },
            },
        },
    }
}

pub open spec fn photo_src_from_node(n: JsonNode) -> Option<PhotoSrc> {
    match n {
        JsonNode::Obj(fields) => photo_src_from_fields(fields@),
        _ => None,
    }
}

pub fn photo_src_from_fields_json(fields: &Vec<(String, JsonNode)>) -> (r: Option<PhotoSrc>)
    ensures
        r == photo_src_from_fields(fields@),
{
    let original = match get_string_field(fields, "original") {
        Some(v) => v,
        None => {
            return None;
        },
    };
    let large2x = match get_string_field(fields, "large2x") {
        Some(v) => v,
        None => {
            return None;
        },
    };
    let large = match get_string_field(fields, "large") {
        Some(v) => v,
        None => {
            return None;
        },
    };
    let medium = match get_string_field(fields, "medium") {
        Some(v) => v,
        None => {
            return None;
        },
    };
    let small = match get_string_field(fields, "small") {
        Some(v) => v,
        None => {
            return None;
        },
    };
    let portrait = match get_string_field(fields, "portrait") {
        Some(v) => v,
        None => {
            return None;
        },
    };
    let landscape = match get_string_field(fields, "landscape") {
        Some(v) => v,
        None => {
            return None;
        },
    };
    let tiny = match get_string_field(fields, "tiny") {
        Some(v) => v,
        None => {
            return None;
        },
    };
    Some(PhotoSrc { original, large2x, large, medium, small, portrait, landscape, tiny })
}

pub fn photo_src_from_json(n: &JsonNode) -> (r: Option<PhotoSrc>)
    ensures
        r == photo_src_from_node(*n),
{
    match n {
        JsonNode::Obj(fields) => photo_src_from_fields_json(fields),
        _ => None,
    }
}

pub open spec fn photo_from_fields(fs: Seq<(String, JsonNode)>) -> Option<Photo> {
    match get_u32(fs, "id"@) {
        None => None,
        Some(id) => match get_u32(fs, "width"@) {
            None => None,
            Some(width) => match get_u32(fs, "height"@) {
                None => None,
                Some(height) => match get_string(fs, "url"@) {
                    None => None,
                    Some(url) => match get_string(fs, "photographer"@) {
                        None => None,
                        Some(photographer) => match get_string(fs, "photographer_url"@) {
                            None => None,
                            Some(photographer_url) => match get_u32(fs, "photographer_id"@) {
                                None => None,
                                Some(photographer_id) => match get_string(fs, "avg_color"@) {
                                    None => None,
                                    Some(avg_color) => match get_obj(fs, "src"@) {
                                        None => None,
                                        Some(sub_fs) => match photo_src_from_fields(sub_fs) {
                                            None => None,
                                            Some(src) => match get_bool(fs, "liked"@) {
                                                None => None,
                                                Some(liked) => match get_string(fs, "alt"@) {
                                                    None => None,
                                                    Some(alt) => Some(Photo { id, width, height, url, photographer, photographer_url, photographer_id, avg_color, src, liked, alt }),
                                                },
                                            },
                                        },
                                    },
                                },
                            },
                        },
                    },
                },
            },
        },
    }
}

pub open spec fn photo_from_node(n: JsonNode) -> Option<Photo> {
    match n {
        JsonNode::Obj(fields) => photo_from_fields(fields@),
        _ => None,
    }
}

pub fn photo_from_fields_json(fields: &Vec<(String, JsonNode)>) -> (r: Option<Photo>)
    ensures
        r == photo_from_fields(fields@),
{
    let id = match get_u32_field(fields, "id") {
        Some(v) => v,
        None => {
            return None;
        },
    };
    let width = match get_u32_field(fields, "width") {
        Some(v) => v,
        None => {
            return None;
        },
    };
    let height = match get_u32_field(fields, "height") {
        Some(v) => v,
        None => {
            return None;
        },
    };
    let url = match get_string_field(fields, "url") {
        Some(v) => v,
        None => {
            return None;
        },
    };
    let photographer = match get_string_field(fields, "photographer") {
        Some(v) => v,
        None => {
            return None;
        },
    };
    let photographer_url = match get_string_field(fields, "photographer_url") {
        Some(v) => v,
        None => {
            return None;
        },
    };
    let photographer_id = match get_u32_field(fields, "photographer_id") {
        Some(v) => v,
        None => {
            return None;
        },
    };
    let avg_color = match get_string_field(fields, "avg_color") {
        Some(v) => v,
        None => {
            return None;
        },
    };
    let src = match get_obj_field(fields, "src") {
        Some(sub) => match photo_src_from_fields_json(sub) {
            Some(v) => v,
            None => {
                return None;
            },
        },
        None => {
            return None;
        },
    };
    let liked = match get_bool_field(fields, "liked") {
        Some(v) => v,
        None => {
            return None;
        },
    };
    let alt = match get_string_field(fields, "alt") {
        Some(v) => v,
        None => {
            return None;
        },
    };
    Some(Photo { id, width, height, url, photographer, photographer_url, photographer_id, avg_color, src, liked, alt })
}

pub fn photo_from_json(n: &JsonNode) -> (r: Option<Photo>)
    ensures
        r == photo_from_node(*n),
{
    match n {
        JsonNode::Obj(fields) => photo_from_fields_json(fields),
        _ => None,
    }
}

pub open spec fn collection_from_fields(fs: Seq<(String, JsonNode)>) -> Option<Collection> {
    match get_string(fs, "id"@) {
        None => None,
        Some(id) => match get_string(fs, "title"@) {
            None => None,
            Some(title) => match get_opt_string(fs, "description"@) {
                None => None,
                Some(description) => match get_bool(fs, "private"@) {
                    None => None,
                    Some(private) => match get_u32(fs, "media_count"@) {
                        None => None,
                        Some(media_count) => match get_u32(fs, "photos_count"@) {
                            None => None,
                            Some(photos_count) => match get_u32(fs, "videos_count"@) {
                                None => None,
                                Some(videos_count) => Some(Collection { id, title, description, private, media_count, photos_count, videos_count }),
                            },
                        },
                    },
                },
            },
        },
    }
}

pub open spec fn collection_from_node(n: JsonNode) -> Option<Collection> {
    match n {
        JsonNode::Obj(fields) => collection_from_fields(fields@),
        _ => None,
    }
}

pub fn collection_from_fields_json(fields: &Vec<(String, JsonNode)>) -> (r: Option<Collection>)
    ensures
        r == collection_from_fields(fields@),
{
    let id = match get_string_field(fields, "id") {
        Some(v) => v,
        None => {
            return None;
        },
    };
    let title = match get_string_field(fields, "title") {
        Some(v) => v,
        None => {
            return None;
        },
    };
    let description = match get_opt_string_field(fields, "description") {
        Some(v) => v,
        None => {
            return None;
        },
    };
    let private = match get_bool_field(fields, "private") {
        Some(v) => v,
        None => {
            return None;
        },
    };
    let media_count = match get_u32_field(fields, "media_count") {
        Some(v) => v,
        None => {
            return None;
        },
    };
    let photos_count = match get_u32_field(fields, "photos_count") {
        Some(v) => v,
        None => {
            return None;
        },
    };
    let videos_count = match get_u32_field(fields, "videos_count") {
        Some(v) => v,
        None => {
            return None;
        },
    };
    Some(Collection { id, title, description, private, media_count, photos_count, videos_count })
}

pub fn collection_from_json(n: &JsonNode) -> (r: Option<Collection>)
    ensures
        r == collection_from_node(*n),
{
    match n {
        JsonNode::Obj(fields) => collection_from_fields_json(fields),
        _ => None,
    }
}

pub open spec fn user_from_fields(fs: Seq<(String, JsonNode)>) -> Option<User> {
    match get_u32(fs, "id"@) {
        None => None,
        Some(id) => match get_string(fs, "name"@) {
            None => None,
            Some(name) => match get_string(fs, "url"@) {
                None => None,
                Some(url) => Some(User { id, name, url }),
            },
        },
    }
}

pub open spec fn user_from_node(n: JsonNode) -> Option<User> {
    match n {
        JsonNode::Obj(fields) => user_from_fields(fields@),
        _ => None,
    }
}

pub fn user_from_fields_json(fields: &Vec<(String, JsonNode)>) -> (r: Option<User>)
    ensures
        r == user_from_fields(fields@),
{
    let id = match get_u32_field(fields, "id") {
        Some(v) => v,
        None => {
            return None;
        },
    };
    let name = match get_string_field(fields, "name") {
        Some(v) => v,
        None => {
            return None;
        },
    };
    let url = match get_string_field(fields, "url") {
        Some(v) => v,
        None => {
            return None;
        },
    };
    Some(User { id, name, url })
}

pub fn user_from_json(n: &JsonNode) -> (r: Option<User>)
    ensures
        r == user_from_node(*n),
{
    match n {
        JsonNode::Obj(fields) => user_from_fields_json(fields),
        _ => None,
    }
}

pub open spec fn video_file_from_fields(fs: Seq<(String, JsonNode)>) -> Option<VideoFile> {
    match get_u32(fs, "id"@) {
        None => None,
        Some(id) => match get_string(fs, "quality"@) {
            None => None,
            Some(quality) => match get_string(fs, "file_type"@) {
                None => None,
                Some(file_type) => match get_u32(fs, "width"@) {
                    None => None,
                    Some(width) => match get_u32(fs, "height"@) {
                        None => None,
                        Some(height) => match get_num_text(fs, "fps"@) {
                            None => None,
                            Some(fps) => match get_string(fs, "link"@) {
                                None => None,
                                Some(link) => Some(VideoFile { id, quality, file_type, width, height, fps, link }),
                            },
                        },
                    },
                },
            },
        },
    }
}

pub open spec fn video_file_from_node(n: JsonNode) -> Option<VideoFile> {
    match n {
        JsonNode::Obj(fields) => video_file_from_fields(fields@),
        _ => None,
    }
}

pub fn video_file_from_fields_json(fields: &Vec<(String, JsonNode)>) -> (r: Option<VideoFile>)
    ensures
        r == video_file_from_fields(fields@),
{
    let id = match get_u32_field(fields, "id") {
        Some(v) => v,
        None => {
            return None;
        },
    };
    let quality = match get_string_field(fields, "quality") {
        Some(v) => v,
        None => {
            return None;
        },
    };
    let file_type = match get_string_field(fields, "file_type") {
        Some(v) => v,
        None => {
            return None;
        },
    };
    let width = match get_u32_field(fields, "width") {
        Some(v) => v,
        None => {
            return None;
        },
    };
    let height = match get_u32_field(fields, "height") {
        Some(v) => v,
        None => {
            return None;
        },
    };
    let fps = match get_num_text_field(fields, "fps") {
        Some(v) => v,
        None => {
            return None;
        },
    };
    let link = match get_string_field(fields, "link") {
        Some(v) => v,
        None => {
            return None;
        },
    };
    Some(VideoFile { id, quality, file_type, width, height, fps, link })
}

pub fn video_file_from_json(n: &JsonNode) -> (r: Option<VideoFile>)
    ensures
        r == video_file_from_node(*n),
{
    match n {
        JsonNode::Obj(fields) => video_file_from_fields_json(fields),
        _ => None,
    }
}

pub open spec fn video_picture_from_fields(fs: Seq<(String, JsonNode)>) -> Option<VideoPicture> {
    match get_u32(fs, "id"@) {
        None => None,
        Some(id) => match get_string(fs, "picture"@) {
            None => None,
            Some(picture) => match get_u32(fs, "nr"@) {
                None => None,
                Some(nr) => Some(VideoPicture { id, picture, nr }),
            },
        },
    }
}

pub open spec fn video_picture_from_node(n: JsonNode) -> Option<VideoPicture> {
    match n {
        JsonNode::Obj(fields) => video_picture_from_fields(fields@),
        _ => None,
    }
}

pub fn video_picture_from_fields_json(fields: &Vec<(String, JsonNode)>) -> (r: Option<VideoPicture>)
    ensures
        r == video_picture_from_fields(fields@),
{
    let id = match get_u32_field(fields, "id") {
        Some(v) => v,
        None => {
            return None;
        },
    };
    let picture = match get_string_field(fields, "picture") {
        Some(v) => v,
        None => {
            return None;
        },
    };
    let nr = match get_u32_field(fields, "nr") {
        Some(v) => v,
        None => {
            return None;
        },
    };
    Some(VideoPicture { id, picture, nr })
}

pub fn video_picture_from_json(n: &JsonNode) -> (r: Option<VideoPicture>)
    ensures
        r == video_picture_from_node(*n),
{
    match n {
        JsonNode::Obj(fields) => video_picture_from_fields_json(fields),
        _ => None,
    }
}

pub open spec fn media_photo_from_fields(fs: Seq<(String, JsonNode)>) -> Option<MediaPhoto> {
    match get_string(fs, "type"@) {
        None => None,
        Some(type_) => match get_u32(fs, "id"@) {
            None => None,
            Some(id) => match get_u32(fs, "width"@) {
                None => None,
                Some(width) => match get_u32(fs, "height"@) {
                    None => None,
                    Some(height) => match get_opt_string(fs, "url"@) {
                        None => None,
                        Some(url) => match get_opt_string(fs, "photographer"@) {
                            None => None,
                            Some(photographer) => match get_opt_string(fs, "photographer_url"@) {
                                None => None,
                                Some(photographer_url) => match get_u32(fs, "photographer_id"@) {
                                    None => None,
                                    Some(photographer_id) => match get_string(fs, "avg_color"@) {
                                        None => None,
                                        Some(avg_color) => match get_obj(fs, "src"@) {
                                            None => None,
                                            Some(sub_fs) => match photo_src_from_fields(sub_fs) {
                                                None => None,
                                                Some(src) => match get_bool(fs, "liked"@) {
                                                    None => None,
                                                    Some(liked) => Some(MediaPhoto { type_, id, width, height, url, photographer, photographer_url, photographer_id, avg_color, src, liked }),
                                                },
                                            },
                                        },
                                    },
                                },
                            },
                        },
                    },
                },
            },
        },
    }
}

pub open spec fn media_photo_from_node(n: JsonNode) -> Option<MediaPhoto> {
    match n {
        JsonNode::Obj(fields) => media_photo_from_fields(fields@),
        _ => None,
    }
}

pub fn media_photo_from_fields_json(fields: &Vec<(String, JsonNode)>) -> (r: Option<MediaPhoto>)
    ensures
        r == media_photo_from_fields(fields@),
{
    let type_ = match get_string_field(fields, "type") {
        Some(v) => v,
        None => {
            return None;
        },
    };
    let id = match get_u32_field(fields, "id") {
        Some(v) => v,
        None => {
            return None;
        },
    };
    let width = match get_u32_field(fields, "width") {
        Some(v) => v,
        None => {
            return None;
        },
    };
    let height = match get_u32_field(fields, "height") {
        Some(v) => v,
        None => {
            return None;
        },
    };
    let url = match get_opt_string_field(fields, "url") {
        Some(v) => v,
        None => {
            return None;
        },
    };
    let photographer = match get_opt_string_field(fields, "photographer") {
        Some(v) => v,
        None => {
            return None;
        },
    };
    let photographer_url = match get_opt_string_field(fields, "photographer_url") {
        Some(v) => v,
        None => {
            return None;
        },
    };
    let photographer_id = match get_u32_field(fields, "photographer_id") {
        Some(v) => v,
        None => {
            return None;
        },
    };
    let avg_color = match get_string_field(fields, "avg_color") {
        Some(v) => v,
        None => {
            return None;
        },
    };
    let src = match get_obj_field(fields, "src") {
        Some(sub) => match photo_src_from_fields_json(sub) {
            Some(v) => v,
            None => {
                return None;
            },
        },
        None => {
            return None;
        },
    };
    let liked = match get_bool_field(fields, "liked") {
        Some(v) => v,
        None => {
            return None;
        },
    };
    Some(MediaPhoto { type_, id, width, height, url, photographer, photographer_url, photographer_id, avg_color, src, liked })
}

pub fn media_photo_from_json(n: &JsonNode) -> (r: Option<MediaPhoto>)
    ensures
        r == media_photo_from_node(*n),
{
    match n {
        JsonNode::Obj(fields) => media_photo_from_fields_json(fields),
        _ => None,
    }
}

pub fn photos_from_arr(arr: &Vec<JsonNode>) -> (r: Option<Vec<Photo>>)
    ensures
        r is Some <==> arr_ok(arr@, (|x: JsonNode| photo_from_node(x) is Some)),
        r matches Some(v) ==> arr_matches(arr@, (|x: JsonNode, e: Photo| photo_from_node(x) == Some(e)), v@),
{
    let n = arr.len();
    let mut out: Vec<Photo> = Vec::new();
    let mut i: usize = 0;
    while i < n
        invariant
            i <= n,
            n == arr@.len(),
            out@.len() == i,
            forall|j: int| 0 <= j < i ==> photo_from_node(#[trigger] arr@[j]) == Some(out@[j]),
        decreases n - i,
    {
        match photo_from_json(&arr[i]) {
            Some(e) => out.push(e),
            None => {
                proof {
                    assert(!(photo_from_node(arr@[i as int]) is Some));
                }
                return None;
            },
        }
        i += 1;
    }
    Some(out)
}

pub fn collections_from_arr(arr: &Vec<JsonNode>) -> (r: Option<Vec<Collection>>)
    ensures
        r is Some <==> arr_ok(arr@, (|x: JsonNode| collection_from_node(x) is Some)),
        r matches Some(v) ==> arr_matches(arr@, (|x: JsonNode, e: Collection| collection_from_node(x) == Some(e)), v@),
{
    let n = arr.len();
    let mut out: Vec<Collection> = Vec::new();
    let mut i: usize = 0;
    while i < n
        invariant
            i <= n,
            n == arr@.len(),
            out@.len() == i,
            forall|j: int| 0 <= j < i ==> collection_from_node(#[trigger] arr@[j]) == Some(out@[j]),
        decreases n - i,
    {
        match collection_from_json(&arr[i]) {
            Some(e) => out.push(e),
            None => {
                proof {
                    assert(!(collection_from_node(arr@[i as int]) is Some));
                }
                return None;
            },
        }
        i += 1;
    }
    Some(out)
}

pub fn strings_from_arr(arr: &Vec<JsonNode>) -> (r: Option<Vec<String>>)
    ensures
        r is Some <==> arr_ok(arr@, (|x: JsonNode| string_from_node(x) is Some)),
        r matches Some(v) ==> arr_matches(arr@, (|x: JsonNode, e: String| string_from_node(x) == Some(e)), v@),
{
    let n = arr.len();
    let mut out: Vec<String> = Vec::new();
    let mut i: usize = 0;
    while i < n
        invariant
            i <= n,
            n == arr@.len(),
            out@.len() == i,
            forall|j: int| 0 <= j < i ==> string_from_node(#[trigger] arr@[j]) == Some(out@[j]),
        decreases n - i,
    {
        match string_from_json(&arr[i]) {
            Some(e) => out.push(e),
            None => {
                proof {
                    assert(!(string_from_node(arr@[i as int]) is Some));
                }
                return None;
            },
        }
        i += 1;
    }
    Some(out)
}

pub fn video_files_from_arr(arr: &Vec<JsonNode>) -> (r: Option<Vec<VideoFile>>)
    ensures
        r is Some <==> arr_ok(arr@, (|x: JsonNode| video_file_from_node(x) is Some)),
        r matches Some(v) ==> arr_matches(arr@, (|x: JsonNode, e: VideoFile| video_file_from_node(x) == Some(e)), v@),
{
    let n = arr.len();
    let mut out: Vec<VideoFile> = Vec::new();
    let mut i: usize = 0;
    while i < n
        invariant
            i <= n,
            n == arr@.len(),
            out@.len() == i,
            forall|j: int| 0 <= j < i ==> video_file_from_node(#[trigger] arr@[j]) == Some(out@[j]),
        decreases n - i,
    {
        match video_file_from_json(&arr[i]) {
            Some(e) => out.push(e),
            None => {
                proof {
                    assert(!(video_file_from_node(arr@[i as int]) is Some));
                }
                return None;
            },
        }
        i += 1;
    }
    Some(out)
}

pub fn video_pictures_from_arr(arr: &Vec<JsonNode>) -> (r: Option<Vec<VideoPicture>>)
    ensures
        r is Some <==> arr_ok(arr@, (|x: JsonNode| video_picture_from_node(x) is Some)),
        r matches Some(v) ==> arr_matches(arr@, (|x: JsonNode, e: VideoPicture| video_picture_from_node(x) == Some(e)), v@),
{
    let n = arr.len();
    let mut out: Vec<VideoPicture> = Vec::new();
    let mut i: usize = 0;
    while i < n
        invariant
            i <= n,
            n == arr@.len(),
            out@.len() == i,
            forall|j: int| 0 <= j < i ==> video_picture_from_node(#[trigger] arr@[j]) == Some(out@[j]),
        decreases n - i,
    {
        match video_picture_from_json(&arr[i]) {
            Some(e) => out.push(e),
            None => {
                proof {
                    assert(!(video_picture_from_node(arr@[i as int]) is Some));
                }
                return None;
            },
        }
        i += 1;
    }
    Some(out)
}

/// When a JSON object has the shape of a `PhotosResponse`.
pub open spec fn photos_response_shape_ok(fs: Seq<(String, JsonNode)>) -> bool {
    &&& get_u32(fs, "total_results"@) is Some
    &&& get_u32(fs, "page"@) is Some
    &&& get_u32(fs, "per_page"@) is Some
    &&& get_arr(fs, "photos"@) matches Some(es) && arr_ok(es, (|x: JsonNode| photo_from_node(x) is Some))
    &&& get_opt_string(fs, "next_page"@) is Some
    &&& get_opt_string(fs, "prev_page"@) is Some
}

/// When `v` is the decoding of the JSON object.
pub open spec fn photos_response_matches(fs: Seq<(String, JsonNode)>, v: PhotosResponse) -> bool {
    &&& get_u32(fs, "total_results"@) == Some(v.total_results)
    &&& get_u32(fs, "page"@) == Some(v.page)
    &&& get_u32(fs, "per_page"@) == Some(v.per_page)
    &&& get_arr(fs, "photos"@) matches Some(es) && arr_matches(es, (|x: JsonNode, e: Photo| photo_from_node(x) == Some(e)), v.photos@)
    &&& get_opt_string(fs, "next_page"@) == Some(v.next_page)
    &&& get_opt_string(fs, "prev_page"@) == Some(v.prev_page)
}

pub open spec fn photos_response_node_ok(n: JsonNode) -> bool {
    match n {
        JsonNode::Obj(fields) => photos_response_shape_ok(fields@),
        _ => false,
    }
}

pub open spec fn photos_response_node_matches(n: JsonNode, v: PhotosResponse) -> bool {
    match n {
        JsonNode::Obj(fields) => photos_response_matches(fields@, v),
        _ => false,
    }
}

pub fn photos_response_from_fields_json(fields: &Vec<(String, JsonNode)>) -> (r: Option<PhotosResponse>)
    ensures
        r is Some <==> photos_response_shape_ok(fields@),
        r matches Some(v) ==> photos_response_matches(fields@, v),
{
    let total_results = match get_u32_field(fields, "total_results") {
        Some(v) => v,
        None => {
            return None;
        },
    };
    let page = match get_u32_field(fields, "page") {
        Some(v) => v,
        None => {
            return None;
        },
    };
    let per_page = match get_u32_field(fields, "per_page") {
        Some(v) => v,
        None => {
            return None;
        },
    };
    let photos = match get_arr_field(fields, "photos") {
        Some(a) => match photos_from_arr(a) {
            Some(v) => v,
            None => {
                return None;
            },
        },
        None => {
            return None;
        },
    };
    let next_page = match get_opt_string_field(fields, "next_page") {
        Some(v) => v,
        None => {
            return None;
        },
    };
    let prev_page = match get_opt_string_field(fields, "prev_page") {
        Some(v) => v,
        None => {
            return None;
        },
    };
    Some(PhotosResponse { total_results, page, per_page, photos, next_page, prev_page })
}

pub fn photos_response_from_json(n: &JsonNode) -> (r: Option<PhotosResponse>)
    ensures
        r is Some <==> photos_response_node_ok(*n),
        r matches Some(v) ==> photos_response_node_matches(*n, v),
{
    match n {
        JsonNode::Obj(fields) => photos_response_from_fields_json(fields),
        _ => None,
    }
}

/// When a JSON object has the shape of a `CollectionsResponse`.
pub open spec fn collections_response_shape_ok(fs: Seq<(String, JsonNode)>) -> bool {
    &&& get_arr(fs, "collections"@) matches Some(es) && arr_ok(es, (|x: JsonNode| collection_from_node(x) is Some))
    &&& get_u32(fs, "page"@) is Some
    &&& get_u32(fs, "per_page"@) is Some
    &&& get_u32(fs, "total_results"@) is Some
    &&& get_opt_string(fs, "next_page"@) is Some
    &&& get_opt_string(fs, "prev_page"@) is Some
}

/// When `v` is the decoding of the JSON object.
pub open spec fn collections_response_matches(fs: Seq<(String, JsonNode)>, v: CollectionsResponse) -> bool {
    &&& get_arr(fs, "collections"@) matches Some(es) && arr_matches(es, (|x: JsonNode, e: Collection| collection_from_node(x) == Some(e)), v.collections@)
    &&& get_u32(fs, "page"@) == Some(v.page)
    &&& get_u32(fs, "per_page"@) == Some(v.per_page)
    &&& get_u32(fs, "total_results"@) == Some(v.total_results)
    &&& get_opt_string(fs, "next_page"@) == Some(v.next_page)
    &&& get_opt_string(fs, "prev_page"@) == Some(v.prev_page)
}

pub open spec fn collections_response_node_ok(n: JsonNode) -> bool {
    match n {
        JsonNode::Obj(fields) => collections_response_shape_ok(fields@),
        _ => false,
    }
}

pub open spec fn collections_response_node_matches(n: JsonNode, v: CollectionsResponse) -> bool {
    match n {
        JsonNode::Obj(fields) => collections_response_matches(fields@, v),
        _ => false,
    }
}

pub fn collections_response_from_fields_json(fields: &Vec<(String, JsonNode)>) -> (r: Option<CollectionsResponse>)
    ensures
        r is Some <==> collections_response_shape_ok(fields@),
        r matches Some(v) ==> collections_response_matches(fields@, v),
{
    let collections = match get_arr_field(fields, "collections") {
        Some(a) => match collections_from_arr(a) {
            Some(v) => v,
            None => {
                return None;
            },
        },
        None => {
            return None;
        },
    };
    let page = match get_u32_field(fields, "page") {
        Some(v) => v,
        None => {
            return None;
        },
    };
    let per_page = match get_u32_field(fields, "per_page") {
        Some(v) => v,
        None => {
            return None;
        },
    };
    let total_results = match get_u32_field(fields, "total_results") {
        Some(v) => v,
        None => {
            return None;
        },
    };
    let next_page = match get_opt_string_field(fields, "next_page") {
        Some(v) => v,
        None => {
            return None;
        },
    };
    let prev_page = match get_opt_string_field(fields, "prev_page") {
        Some(v) => v,
        None => {
            return None;
        },
    };
    Some(CollectionsResponse { collections, page, per_page, total_results, next_page, prev_page })
}

pub fn collections_response_from_json(n: &JsonNode) -> (r: Option<CollectionsResponse>)
    ensures
        r is Some <==> collections_response_node_ok(*n),
        r matches Some(v) ==> collections_response_node_matches(*n, v),
{
    match n {
        JsonNode::Obj(fields) => collections_response_from_fields_json(fields),
        _ => None,
    }
}

/// When a JSON object has the shape of a `Video`.
pub open spec fn video_shape_ok(fs: Seq<(String, JsonNode)>) -> bool {
    &&& get_u32(fs, "id"@) is Some
    &&& get_u32(fs, "width"@) is Some
    &&& get_u32(fs, "height"@) is Some
    &&& get_string(fs, "url"@) is Some
    &&& get_string(fs, "image"@) is Some
    &&& get_opt_string(fs, "full_res"@) is Some
    &&& get_arr(fs, "tags"@) matches Some(es) && arr_ok(es, (|x: JsonNode| string_from_node(x) is Some))
    &&& get_u32(fs, "duration"@) is Some
    &&& get_obj(fs, "user"@) matches Some(sub_fs) && user_from_fields(sub_fs) is Some
    &&& get_arr(fs, "video_files"@) matches Some(es) && arr_ok(es, (|x: JsonNode| video_file_from_node(x) is Some))
    &&& get_arr(fs, "video_pictures"@) matches Some(es) && arr_ok(es, (|x: JsonNode| video_picture_from_node(x) is Some))
}

/// When `v` is the decoding of the JSON object.
pub open spec fn video_matches(fs: Seq<(String, JsonNode)>, v: Video) -> bool {
    &&& get_u32(fs, "id"@) == Some(v.id)
    &&& get_u32(fs, "width"@) == Some(v.width)
    &&& get_u32(fs, "height"@) == Some(v.height)
    &&& get_string(fs, "url"@) == Some(v.url)
    &&& get_string(fs, "image"@) == Some(v.image)
    &&& get_opt_string(fs, "full_res"@) == Some(v.full_res)
    &&& get_arr(fs, "tags"@) matches Some(es) && arr_matches(es, (|x: JsonNode, e: String| string_from_node(x) == Some(e)), v.tags@)
    &&& get_u32(fs, "duration"@) == Some(v.duration)
    &&& get_obj(fs, "user"@) matches Some(sub_fs) && user_from_fields(sub_fs) == Some(v.user)
    &&& get_arr(fs, "video_files"@) matches Some(es) && arr_matches(es, (|x: JsonNode, e: VideoFile| video_file_from_node(x) == Some(e)), v.video_files@)
    &&& get_arr(fs, "video_pictures"@) matches Some(es) && arr_matches(es, (|x: JsonNode, e: VideoPicture| video_picture_from_node(x) == Some(e)), v.video_pictures@)
}

pub open spec fn video_node_ok(n: JsonNode) -> bool {
    match n {
        JsonNode::Obj(fields) => video_shape_ok(fields@),
        _ => false,
    }
}

pub open spec fn video_node_matches(n: JsonNode, v: Video) -> bool {
    match n {
        JsonNode::Obj(fields) => video_matches(fields@, v),
        _ => false,
    }
}

pub fn video_from_fields_json(fields: &Vec<(String, JsonNode)>) -> (r: Option<Video>)
    ensures
        r is Some <==> video_shape_ok(fields@),
        r matches Some(v) ==> video_matches(fields@, v),
{
    let id = match get_u32_field(fields, "id") {
        Some(v) => v,
        None => {
            return None;
        },
    };
    let width = match get_u32_field(fields, "width") {
        Some(v) => v,
        None => {
            return None;
        },
    };
    let height = match get_u32_field(fields, "height") {
        Some(v) => v,
        None => {
            return None;
        },
    };
    let url = match get_string_field(fields, "url") {
        Some(v) => v,
        None => {
            return None;
        },
    };
    let image = match get_string_field(fields, "image") {
        Some(v) => v,
        None => {
            return None;
        },
    };
    let full_res = match get_opt_string_field(fields, "full_res") {
        Some(v) => v,
        None => {
            return None;
        },
    };
    let tags = match get_arr_field(fields, "tags") {
        Some(a) => match strings_from_arr(a) {
            Some(v) => v,
            None => {
                return None;
            },
        },
        None => {
            return None;
        },
    };
    let duration = match get_u32_field(fields, "duration") {
        Some(v) => v,
        None => {
            return None;
        },
    };
    let user = match get_obj_field(fields, "user") {
        Some(sub) => match user_from_fields_json(sub) {
            Some(v) => v,
            None => {
                return None;
            },
        },
        None => {
            return None;
        },
    };
    let video_files = match get_arr_field(fields, "video_files") {
        Some(a) => match video_files_from_arr(a) {
            Some(v) => v,
            None => {
                return None;
            },
        },
        None => {
            return None;
        },
    };
    let video_pictures = match get_arr_field(fields, "video_pictures") {
        Some(a) => match video_pictures_from_arr(a) {
            Some(v) => v,
            None => {
                return None;
            },
        },
        None => {
            return None;
        },
    };
    Some(Video { id, width, height, url, image, full_res, tags, duration, user, video_files, video_pictures })
}

pub fn video_from_json(n: &JsonNode) -> (r: Option<Video>)
    ensures
        r is Some <==> video_node_ok(*n),
        r matches Some(v) ==> video_node_matches(*n, v),
{
    match n {
        JsonNode::Obj(fields) => video_from_fields_json(fields),
        _ => None,
    }
}

pub fn videos_from_arr(arr: &Vec<JsonNode>) -> (r: Option<Vec<Video>>)
    ensures
        r is Some <==> arr_ok(arr@, (|x: JsonNode| video_node_ok(x))),
        r matches Some(v) ==> arr_matches(arr@, (|x: JsonNode, e: Video| video_node_matches(x, e)), v@),
{
    let n = arr.len();
    let mut out: Vec<Video> = Vec::new();
    let mut i: usize = 0;
    while i < n
        invariant
            i <= n,
            n == arr@.len(),
            out@.len() == i,
            forall|j: int| 0 <= j < i ==> video_node_ok(#[trigger] arr@[j]) && video_node_matches(arr@[j], out@[j]),
        decreases n - i,
    {
        match video_from_json(&arr[i]) {
            Some(e) => out.push(e),
            None => {
                proof {
                    assert(!(video_node_ok(arr@[i as int])));
                }
                return None;
            },
        }
        i += 1;
    }
    Some(out)
}

/// When a JSON object has the shape of a `VideoResponse`.
pub open spec fn video_response_shape_ok(fs: Seq<(String, JsonNode)>) -> bool {
    &&& get_u32(fs, "page"@) is Some
    &&& get_u32(fs, "per_page"@) is Some
    &&& get_u32(fs, "total_results"@) is Some
    &&& get_string(fs, "url"@) is Some
    &&& get_arr(fs, "videos"@) matches Some(es) && arr_ok(es, (|x: JsonNode| video_node_ok(x)))
    &&& get_opt_string(fs, "prev_page"@) is Some
    &&& get_opt_string(fs, "next_page"@) is Some
}

/// When `v` is the decoding of the JSON object.
pub open spec fn video_response_matches(fs: Seq<(String, JsonNode)>, v: VideoResponse) -> bool {
    &&& get_u32(fs, "page"@) == Some(v.page)
    &&& get_u32(fs, "per_page"@) == Some(v.per_page)
    &&& get_u32(fs, "total_results"@) == Some(v.total_results)
    &&& get_string(fs, "url"@) == Some(v.url)
    &&& get_arr(fs, "videos"@) matches Some(es) && arr_matches(es, (|x: JsonNode, e: Video| video_node_matches(x, e)), v.videos@)
    &&& get_opt_string(fs, "prev_page"@) == Some(v.prev_page)
    &&& get_opt_string(fs, "next_page"@) == Some(v.next_page)
}

pub open spec fn video_response_node_ok(n: JsonNode) -> bool {
    match n {
        JsonNode::Obj(fields) => video_response_shape_ok(fields@),
        _ => false,
    }
}

pub open spec fn video_response_node_matches(n: JsonNode, v: VideoResponse) -> bool {
    match n {
        JsonNode::Obj(fields) => video_response_matches(fields@, v),
        _ => false,
    }
}

pub fn video_response_from_fields_json(fields: &Vec<(String, JsonNode)>) -> (r: Option<VideoResponse>)
    ensures
        r is Some <==> video_response_shape_ok(fields@),
        r matches Some(v) ==> video_response_matches(fields@, v),
{
    let page = match get_u32_field(fields, "page") {
        Some(v) => v,
        None => {
            return None;
        },
    };
    let per_page = match get_u32_field(fields, "per_page") {
        Some(v) => v,
        None => {
            return None;
        },
    };
    let total_results = match get_u32_field(fields, "total_results") {
        Some(v) => v,
        None => {
            return None;
        },
    };
    let url = match get_string_field(fields, "url") {
        Some(v) => v,
        None => {
            return None;
        },
    };
    let videos = match get_arr_field(fields, "videos") {
        Some(a) => match videos_from_arr(a) {
            Some(v) => v,
            None => {
                return None;
            },
        },
        None => {
            return None;
        },
    };
    let prev_page = match get_opt_string_field(fields, "prev_page") {
        Some(v) => v,
        None => {
            return None;
        },
    };
    let next_page = match get_opt_string_field(fields, "next_page") {
        Some(v) => v,
        None => {
            return None;
        },
    };
    Some(VideoResponse { page, per_page, total_results, url, videos, prev_page, next_page })
}

pub fn video_response_from_json(n: &JsonNode) -> (r: Option<VideoResponse>)
    ensures
        r is Some <==> video_response_node_ok(*n),
        r matches Some(v) ==> video_response_node_matches(*n, v),
{
    match n {
        JsonNode::Obj(fields) => video_response_from_fields_json(fields),
        _ => None,
    }
}

/// When a JSON object has the shape of a `MediaVideo`.
pub open spec fn media_video_shape_ok(fs: Seq<(String, JsonNode)>) -> bool {
    &&& get_string(fs, "type"@) is Some
    &&& get_u32(fs, "id"@) is Some
    &&& get_u32(fs, "width"@) is Some
    &&& get_u32(fs, "height"@) is Some
    &&& get_u32(fs, "duration"@) is Some
    &&& get_opt_string(fs, "full_res"@) is Some
    &&& get_arr(fs, "tags"@) matches Some(es) && arr_ok(es, (|x: JsonNode| string_from_node(x) is Some))
    &&& get_opt_string(fs, "url"@) is Some
    &&& get_opt_string(fs, "image"@) is Some
    &&& get_opt_string(fs, "avg_color"@) is Some
    &&& get_obj(fs, "user"@) matches Some(sub_fs) && user_from_fields(sub_fs) is Some
    &&& get_arr(fs, "video_files"@) matches Some(es) && arr_ok(es, (|x: JsonNode| video_file_from_node(x) is Some))
    &&& get_arr(fs, "video_pictures"@) matches Some(es) && arr_ok(es, (|x: JsonNode| video_picture_from_node(x) is Some))
}

/// When `v` is the decoding of the JSON object.
pub open spec fn media_video_matches(fs: Seq<(String, JsonNode)>, v: MediaVideo) -> bool {
    &&& get_string(fs, "type"@) == Some(v.type_)
    &&& get_u32(fs, "id"@) == Some(v.id)
    &&& get_u32(fs, "width"@) == Some(v.width)
    &&& get_u32(fs, "height"@) == Some(v.height)
    &&& get_u32(fs, "duration"@) == Some(v.duration)
    &&& get_opt_string(fs, "full_res"@) == Some(v.full_res)
    &&& get_arr(fs, "tags"@) matches Some(es) && arr_matches(es, (|x: JsonNode, e: String| string_from_node(x) == Some(e)), v.tags@)
    &&& get_opt_string(fs, "url"@) == Some(v.url)
    &&& get_opt_string(fs, "image"@) == Some(v.image)
    &&& get_opt_string(fs, "avg_color"@) == Some(v.avg_color)
    &&& get_obj(fs, "user"@) matches Some(sub_fs) && user_from_fields(sub_fs) == Some(v.user)
    &&& get_arr(fs, "video_files"@) matches Some(es) && arr_matches(es, (|x: JsonNode, e: VideoFile| video_file_from_node(x) == Some(e)), v.video_files@)
    &&& get_arr(fs, "video_pictures"@) matches Some(es) && arr_matches(es, (|x: JsonNode, e: VideoPicture| video_picture_from_node(x) == Some(e)), v.video_pictures@)
}

pub open spec fn media_video_node_ok(n: JsonNode) -> bool {
    match n {
        JsonNode::Obj(fields) => media_video_shape_ok(fields@),
        _ => false,
    }
}

pub open spec fn media_video_node_matches(n: JsonNode, v: MediaVideo) -> bool {
    match n {
        JsonNode::Obj(fields) => media_video_matches(fields@, v),
        _ => false,
    }
}

pub fn media_video_from_fields_json(fields: &Vec<(String, JsonNode)>) -> (r: Option<MediaVideo>)
    ensures
        r is Some <==> media_video_shape_ok(fields@),
        r matches Some(v) ==> media_video_matches(fields@, v),
{
    let type_ = match get_string_field(fields, "type") {
        Some(v) => v,
        None => {
            return None;
        },
    };
    let id = match get_u32_field(fields, "id") {
        Some(v) => v,
        None => {
            return None;
        },
    };
    let width = match get_u32_field(fields, "width") {
        Some(v) => v,
        None => {
            return None;
        },
    };
    let height = match get_u32_field(fields, "height") {
        Some(v) => v,
        None => {
            return None;
        },
    };
    let duration = match get_u32_field(fields, "duration") {
        Some(v) => v,
        None => {
            return None;
        },
    };
    let full_res = match get_opt_string_field(fields, "full_res") {
        Some(v) => v,
        None => {
            return None;
        },
    };
    let tags = match get_arr_field(fields, "tags") {
        Some(a) => match strings_from_arr(a) {
            Some(v) => v,
            None => {
                return None;
            },
        },
        None => {
            return None;
        },
    };
    let url = match get_opt_string_field(fields, "url") {
        Some(v) => v,
        None => {
            return None;
        },
    };
    let image = match get_opt_string_field(fields, "image") {
        Some(v) => v,
        None => {
            return None;
        },
    };
    let avg_color = match get_opt_string_field(fields, "avg_color") {
        Some(v) => v,
        None => {
            return None;
        },
    };
    let user = match get_obj_field(fields, "user") {
        Some(sub) => match user_from_fields_json(sub) {
            Some(v) => v,
            None => {
                return None;
            },
        },
        None => {
            return None;
        },
    };
    let video_files = match get_arr_field(fields, "video_files") {
        Some(a) => match video_files_from_arr(a) {
            Some(v) => v,
            None => {
                return None;
            },
        },
        None => {
            return None;
        },
    };
    let video_pictures = match get_arr_field(fields, "video_pictures") {
        Some(a) => match video_pictures_from_arr(a) {
            Some(v) => v,
            None => {
                return None;
            },
        },
        None => {
            return None;
        },
    };
    Some(MediaVideo { type_, id, width, height, duration, full_res, tags, url, image, avg_color, user, video_files, video_pictures })
}

pub fn media_video_from_json(n: &JsonNode) -> (r: Option<MediaVideo>)
    ensures
        r is Some <==> media_video_node_ok(*n),
        r matches Some(v) ==> media_video_node_matches(*n, v),
{
    match n {
        JsonNode::Obj(fields) => media_video_from_fields_json(fields),
        _ => None,
    }
}

/// When a JSON node is a well-formed media item: an object whose `type`
/// member says which of the two shapes to expect.
pub open spec fn media_item_node_ok(n: JsonNode) -> bool {
    match n {
        JsonNode::Obj(fields) => match get_string(fields@, "type"@) {
            Some(t) => if t@ == "Photo"@ {
                media_photo_from_fields(fields@) is Some
            } else if t@ == "Video"@ {
                media_video_shape_ok(fields@)
            } else {
                false
            },
            None => false,
        },
        _ => false,
    }
}

/// When `v` is the decoding of the media item node.
pub open spec fn media_item_node_matches(n: JsonNode, v: MediaType) -> bool {
    match n {
        JsonNode::Obj(fields) => match v {
            MediaType::Photo(mp) => get_string(fields@, "type"@) matches Some(t) && t@ == "Photo"@
                && media_photo_from_fields(fields@) == Some(mp),
            MediaType::Video(mv) => get_string(fields@, "type"@) matches Some(t) && t@ == "Video"@
                && media_video_matches(fields@, mv),
        },
        _ => false,
    }
}

pub fn media_item_from_json(n: &JsonNode) -> (r: Option<MediaType>)
    ensures
        r is Some <==> media_item_node_ok(*n),
        r matches Some(v) ==> media_item_node_matches(*n, v),
{
    match n {
        JsonNode::Obj(fields) => {
            let t = match get_string_field(fields, "type") {
                Some(v) => v,
                None => {
                    return None;
                },
            };
            if crate::strutil::str_eq(t.as_str(), "Photo") {
                match media_photo_from_fields_json(fields) {
                    Some(mp) => Some(MediaType::Photo(mp)),
                    None => None,
                }
            } else if crate::strutil::str_eq(t.as_str(), "Video") {
                match media_video_from_fields_json(fields) {
                    Some(mv) => Some(MediaType::Video(mv)),
                    None => None,
                }
            } else {
                None
            }
        },
        _ => None,
    }
}

pub fn media_items_from_arr(arr: &Vec<JsonNode>) -> (r: Option<Vec<MediaType>>)
    ensures
        r is Some <==> arr_ok(arr@, (|x: JsonNode| media_item_node_ok(x))),
        r matches Some(v) ==> arr_matches(arr@, (|x: JsonNode, e: MediaType| media_item_node_matches(x, e)), v@),
{
    let n = arr.len();
    let mut out: Vec<MediaType> = Vec::new();
    let mut i: usize = 0;
    while i < n
        invariant
            i <= n,
            n == arr@.len(),
            out@.len() == i,
            forall|j: int| 0 <= j < i ==> media_item_node_ok(#[trigger] arr@[j]) && media_item_node_matches(arr@[j], out@[j]),
        decreases n - i,
    {
        match media_item_from_json(&arr[i]) {
            Some(e) => out.push(e),
            None => {
                proof {
                    assert(!(media_item_node_ok(arr@[i as int])));
                }
                return None;
            },
        }
        i += 1;
    }
    Some(out)
}

/// When a JSON object has the shape of a `MediaResponse`.
pub open spec fn media_response_shape_ok(fs: Seq<(String, JsonNode)>) -> bool {
    &&& get_string(fs, "id"@) is Some
    &&& get_arr(fs, "media"@) matches Some(es) && arr_ok(es, (|x: JsonNode| media_item_node_ok(x)))
    &&& get_u32(fs, "page"@) is Some
    &&& get_u32(fs, "per_page"@) is Some
    &&& get_u32(fs, "total_results"@) is Some
    &&& get_opt_string(fs, "next_page"@) is Some
    &&& get_opt_string(fs, "prev_page"@) is Some
}

/// When `v` is the decoding of the JSON object.
pub open spec fn media_response_matches(fs: Seq<(String, JsonNode)>, v: MediaResponse) -> bool {
    &&& get_string(fs, "id"@) == Some(v.id)
    &&& get_arr(fs, "media"@) matches Some(es) && arr_matches(es, (|x: JsonNode, e: MediaType| media_item_node_matches(x, e)), v.media@)
    &&& get_u32(fs, "page"@) == Some(v.page)
    &&& get_u32(fs, "per_page"@) == Some(v.per_page)
    &&& get_u32(fs, "total_results"@) == Some(v.total_results)
    &&& get_opt_string(fs, "next_page"@) == Some(v.next_page)
    &&& get_opt_string(fs, "prev_page"@) == Some(v.prev_page)
}

pub open spec fn media_response_node_ok(n: JsonNode) -> bool {
    match n {
        JsonNode::Obj(fields) => media_response_shape_ok(fields@),
        _ => false,
    }
}

pub open spec fn media_response_node_matches(n: JsonNode, v: MediaResponse) -> bool {
    match n {
        JsonNode::Obj(fields) => media_response_matches(fields@, v),
        _ => false,
    }
}

pub fn media_response_from_fields_json(fields: &Vec<(String, JsonNode)>) -> (r: Option<MediaResponse>)
    ensures
        r is Some <==> media_response_shape_ok(fields@),
        r matches Some(v) ==> media_response_matches(fields@, v),
{
    let id = match get_string_field(fields, "id") {
        Some(v) => v,
        None => {
            return None;
        },
    };
    let media = match get_arr_field(fields, "media") {
        Some(a) => match media_items_from_arr(a) {
            Some(v) => v,
            None => {
                return None;
            },
        },
        None => {
            return None;
        },
    };
    let page = match get_u32_field(fields, "page") {
        Some(v) => v,
        None => {
            return None;
        },
    };
    let per_page = match get_u32_field(fields, "per_page") {
        Some(v) => v,
        None => {
            return None;
        },
    };
    let total_results = match get_u32_field(fields, "total_results") {
        Some(v) => v,
        None => {
            return None;
        },
    };
    let next_page = match get_opt_string_field(fields, "next_page") {
        Some(v) => v,
        None => {
            return None;
        },
    };
    let prev_page = match get_opt_string_field(fields, "prev_page") {
        Some(v) => v,
        None => {
            return None;
        },
    };
    Some(MediaResponse { id, media, page, per_page, total_results, next_page, prev_page })
}

pub fn media_response_from_json(n: &JsonNode) -> (r: Option<MediaResponse>)
    ensures
        r is Some <==> media_response_node_ok(*n),
        r matches Some(v) ==> media_response_node_matches(*n, v),
{
    match n {
        JsonNode::Obj(fields) => media_response_from_fields_json(fields),
        _ => None,
    }
}

} // verus!
