//! The single-video endpoint: fetches one video by its id.
use vstd::prelude::*;

use crate::strutil::{dec_rep, usize_to_string};
use crate::BuilderResult;
use crate::client::{decode_200_spec, error_for_status, error_status_spec};
use crate::domain::models::{Video, video_from_json, video_node_matches, video_node_ok};
use crate::json::{json_of, parse_json, JsonNode};
use crate::PexelsError;
use vstd::string::StringExecFns;

verus! {

/// A request for a specific video, identified by its id.
pub struct FetchVideo {
    pub id: usize,
}

impl FetchVideo {
    /// Creates a [`FetchVideoBuilder`] for building URIs.
    pub fn builder() -> (r: FetchVideoBuilder)
        ensures
            r.id == 0,
    {
        FetchVideoBuilder::new()
    }

    /// The exact URL this request renders to: the video id is a path
    /// segment, and there is no query string.
    pub open spec fn uri_spec(self) -> Seq<char> {
        "https://api.pexels.com/videos/videos/"@ + dec_rep(self.id as nat)
    }

    /// Renders the request to a fully qualified URL.
    pub fn create_uri(&self) -> (r: BuilderResult)
        ensures
            r matches Ok(u) && u@ == self.uri_spec(),
    {
        let mut url = String::from_str("https://api.pexels.com/videos/videos/");
        let v = usize_to_string(self.id);
        url.append(v.as_str());
        Ok(url)
    }

    /// Maps the HTTP status and body of the response to this request to the
    /// typed result: the decoded page on 200, a typed error otherwise.
    pub fn decode_response(&self, status: u16, body: &str) -> (r: Result<Video, PexelsError>)
        ensures
            status == 200 ==> decode_200_spec(
                body@,
                (|n: JsonNode| video_node_ok(n)),
                (|n: JsonNode, v: Video| video_node_matches(n, v)),
                r,
            ),
            status == 404 ==> (r matches Err(PexelsError::NotFound(m)) && m@ == "Video with ID "@
                + dec_rep(self.id as nat) + " not found"@),
            status != 200 && status != 404 ==> (r matches Err(e) && error_status_spec(
                status,
                "Get video"@,
                e,
            )),
    {
        if status == 200 {
            match parse_json(body) {
                Err(m) => Err(PexelsError::JsonParseError(m)),
                Ok(node) => match video_from_json(&node) {
                    Some(v) => Ok(v),
                    None => Err(
                        PexelsError::JsonParseError(
                            String::from_str("response body does not match the expected shape"),
                        ),
                    ),
                },
            }
        } else if status == 404 {
            let mut m = String::from_str("Video with ID ");
            let d = usize_to_string(self.id);
            m.append(d.as_str());
            m.append(" not found");
            Err(PexelsError::NotFound(m))
        } else {
            Err(error_for_status(status, "Get video"))
        }
    }
}

/// Builder for [`FetchVideo`].
pub struct FetchVideoBuilder {
    pub id: usize,
}

impl FetchVideoBuilder {
    /// Creates a new [`FetchVideoBuilder`].
    pub fn new() -> (r: Self)
        ensures
            r.id == 0,
    {
        Self { id: 0 }
    }

    /// The id of the video you are requesting.
    pub fn id(self, id: usize) -> (r: Self)
        ensures
            r.id == id,
    {
        Self { id }
    }

    /// Creates a [`FetchVideo`] request from the builder.
    pub fn build(self) -> (r: FetchVideo)
        ensures
            r.id == self.id,
    {
        FetchVideo { id: self.id }
    }
}

impl Default for FetchVideoBuilder {
    fn default() -> (r: Self)
        ensures
            r.id == 0,
    {
        Self::new()
    }
}

/// Rendering is deterministic: two requests with the same id render the
/// same URL.
pub proof fn lemma_fetch_video_render_deterministic(a: FetchVideo, b: FetchVideo)
    requires
        a.id == b.id,
    ensures
        a.uri_spec() == b.uri_spec(),
{
}

} // verus!
