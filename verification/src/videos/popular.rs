//! The popular-videos endpoint: the current popular Pexels videos, with
//! optional dimension, duration, and pagination filters.
use vstd::prelude::*;

use crate::query::{append_param, key_count, lemma_append_step, lemma_params_with_key_concat,
    lemma_params_with_key_opt_num, opt_num_param, params_with_key, render_query, QueryParam};
use crate::strutil::{dec_rep, usize_to_string};
use crate::BuilderResult;
use crate::client::{decode_200_spec, error_for_status, error_status_spec};
use crate::domain::models::{VideoResponse, video_response_from_json, video_response_node_matches, video_response_node_ok};
use crate::json::{json_of, parse_json, JsonNode};
use crate::PexelsError;
use vstd::string::StringExecFns;

verus! {

/// A request for the current popular videos.
pub struct Popular {
    pub min_width: Option<usize>,
    pub min_height: Option<usize>,
    pub min_duration: Option<usize>,
    pub max_duration: Option<usize>,
    pub page: Option<usize>,
    pub per_page: Option<usize>,
}

impl Popular {
    /// Creates a [`PopularBuilder`] for building URIs.
    pub fn builder() -> (r: PopularBuilder)
        ensures
            r.min_width is None,
            r.min_height is None,
            r.min_duration is None,
            r.max_duration is None,
            r.page is None,
            r.per_page is None,
    {
        PopularBuilder::new()
    }

    /// The query parameters this request renders, in order.
    pub open spec fn spec_params(self) -> Seq<QueryParam> {
        opt_num_param(self.min_width, "min_width"@) + opt_num_param(self.min_height, "min_height"@)
            + opt_num_param(self.min_duration, "min_duration"@) + opt_num_param(
            self.max_duration,
            "max_duration"@,
        ) + opt_num_param(self.page, "page"@) + opt_num_param(self.per_page, "per_page"@)
    }

    /// The exact URL this request renders to.
    pub open spec fn uri_spec(self) -> Seq<char> {
        "https://api.pexels.com/videos/popular"@ + render_query(self.spec_params())
    }

    /// Renders the request to a fully qualified URL.
    #[verifier::rlimit(50)]
    #[verifier::spinoff_prover]
    pub fn create_uri(&self) -> (r: BuilderResult)
        ensures
            r matches Ok(u) && u@ == self.uri_spec(),
    {
        let mut url = String::from_str("https://api.pexels.com/videos/popular");
        let mut started = false;
        let ghost base = "https://api.pexels.com/videos/popular"@;
        let ghost mut ps: Seq<QueryParam> = Seq::empty();
        proof {
            assert(url@ =~= base + render_query(ps));
            assert(started == (ps.len() > 0));
        }
        if let Some(min_width) = self.min_width {
            let v = usize_to_string(min_width);
            let ghost u_old = url@;
            append_param(&mut url, &mut started, "min_width", v.as_str());
            proof {
                lemma_append_step(u_old, url@, base, ps, "min_width"@, dec_rep(min_width as nat));
                ps = ps.push(("min_width"@, dec_rep(min_width as nat)));
                assert(started == (ps.len() > 0));
            }
        }
        proof {
            assert(ps =~= opt_num_param(self.min_width, "min_width"@));
        }
        if let Some(min_height) = self.min_height {
            let v = usize_to_string(min_height);
            let ghost u_old = url@;
            append_param(&mut url, &mut started, "min_height", v.as_str());
            proof {
                lemma_append_step(u_old, url@, base, ps, "min_height"@, dec_rep(min_height as nat));
                ps = ps.push(("min_height"@, dec_rep(min_height as nat)));
                assert(started == (ps.len() > 0));
            }
        }
        proof {
            assert(ps =~= opt_num_param(self.min_width, "min_width"@) + opt_num_param(self.min_height, "min_height"@));
        }
        if let Some(min_duration) = self.min_duration {
            let v = usize_to_string(min_duration);
            let ghost u_old = url@;
            append_param(&mut url, &mut started, "min_duration", v.as_str());
            proof {
                lemma_append_step(
                    u_old,
                    url@,
                    base,
                    ps,
                    "min_duration"@,
                    dec_rep(min_duration as nat),
                );
                ps = ps.push(("min_duration"@, dec_rep(min_duration as nat)));
                assert(started == (ps.len() > 0));
            }
        }
        proof {
            assert(ps =~= opt_num_param(self.min_width, "min_width"@) + opt_num_param(self.min_height, "min_height"@) + opt_num_param(self.min_duration, "min_duration"@));
        }
        if let Some(max_duration) = self.max_duration {
            let v = usize_to_string(max_duration);
            let ghost u_old = url@;
            append_param(&mut url, &mut started, "max_duration", v.as_str());
            proof {
                lemma_append_step(
                    u_old,
                    url@,
                    base,
                    ps,
                    "max_duration"@,
                    dec_rep(max_duration as nat),
                );
                ps = ps.push(("max_duration"@, dec_rep(max_duration as nat)));
                assert(started == (ps.len() > 0));
            }
        }
        proof {
            assert(ps =~= opt_num_param(self.min_width, "min_width"@) + opt_num_param(self.min_height, "min_height"@) + opt_num_param(self.min_duration, "min_duration"@) + opt_num_param(self.max_duration, "max_duration"@));
        }
        if let Some(page) = self.page {
            let v = usize_to_string(page);
            let ghost u_old = url@;
            append_param(&mut url, &mut started, "page", v.as_str());
            proof {
                lemma_append_step(u_old, url@, base, ps, "page"@, dec_rep(page as nat));
                ps = ps.push(("page"@, dec_rep(page as nat)));
                assert(started == (ps.len() > 0));
            }
        }
        proof {
            assert(ps =~= opt_num_param(self.min_width, "min_width"@) + opt_num_param(self.min_height, "min_height"@) + opt_num_param(self.min_duration, "min_duration"@) + opt_num_param(self.max_duration, "max_duration"@) + opt_num_param(self.page, "page"@));
        }
        if let Some(per_page) = self.per_page {
            let v = usize_to_string(per_page);
            let ghost u_old = url@;
            append_param(&mut url, &mut started, "per_page", v.as_str());
            proof {
                lemma_append_step(u_old, url@, base, ps, "per_page"@, dec_rep(per_page as nat));
                ps = ps.push(("per_page"@, dec_rep(per_page as nat)));
                assert(started == (ps.len() > 0));
            }
        }
        proof {
            assert(ps =~= opt_num_param(self.min_width, "min_width"@) + opt_num_param(self.min_height, "min_height"@) + opt_num_param(self.min_duration, "min_duration"@) + opt_num_param(self.max_duration, "max_duration"@) + opt_num_param(self.page, "page"@) + opt_num_param(self.per_page, "per_page"@));
        }
        proof {
            assert(ps =~= self.spec_params());
        }
        Ok(url)
    }

    /// Maps the HTTP status and body of the response to this request to the
    /// typed result: the decoded page on 200, a typed error otherwise.
    pub fn decode_response(&self, status: u16, body: &str) -> (r: Result<VideoResponse, PexelsError>)
        ensures
            status == 200 ==> decode_200_spec(
                body@,
                (|n: JsonNode| video_response_node_ok(n)),
                (|n: JsonNode, v: VideoResponse| video_response_node_matches(n, v)),
                r,
            ),
            status != 200 ==> (r matches Err(e) && error_status_spec(status, "Popular videos"@, e)),
    {
        if status == 200 {
            match parse_json(body) {
                Err(m) => Err(PexelsError::JsonParseError(m)),
                Ok(node) => match video_response_from_json(&node) {
                    Some(v) => Ok(v),
                    None => Err(
                        PexelsError::JsonParseError(
                            String::from_str("response body does not match the expected shape"),
                        ),
                    ),
                },
            }
        } else {
            Err(error_for_status(status, "Popular videos"))
        }
    }
}

/// Builder for [`Popular`].
pub struct PopularBuilder {
    pub min_width: Option<usize>,
    pub min_height: Option<usize>,
    pub min_duration: Option<usize>,
    pub max_duration: Option<usize>,
    pub page: Option<usize>,
    pub per_page: Option<usize>,
}

impl PopularBuilder {
    /// Creates a new [`PopularBuilder`].
    pub fn new() -> (r: Self)
        ensures
            r.min_width is None,
            r.min_height is None,
            r.min_duration is None,
            r.max_duration is None,
            r.page is None,
            r.per_page is None,
    {
        Self {
            min_width: None,
            min_height: None,
            min_duration: None,
            max_duration: None,
            page: None,
            per_page: None,
        }
    }

    /// The minimum width in pixels of the returned videos.
    pub fn min_width(self, min_width: usize) -> (r: Self)
        ensures
            r == (Self { min_width: Some(min_width), ..self }),
    {
        Self { min_width: Some(min_width), ..self }
    }

    /// The minimum height in pixels of the returned videos.
    pub fn min_height(self, min_height: usize) -> (r: Self)
        ensures
            r == (Self { min_height: Some(min_height), ..self }),
    {
        Self { min_height: Some(min_height), ..self }
    }

    /// The minimum duration in seconds of the returned videos.
    pub fn min_duration(self, min_duration: usize) -> (r: Self)
        ensures
            r == (Self { min_duration: Some(min_duration), ..self }),
    {
        Self { min_duration: Some(min_duration), ..self }
    }

    /// The maximum duration in seconds of the returned videos.
    pub fn max_duration(self, max_duration: usize) -> (r: Self)
        ensures
            r == (Self { max_duration: Some(max_duration), ..self }),
    {
        Self { max_duration: Some(max_duration), ..self }
    }

    /// The page number you are requesting.
    pub fn page(self, page: usize) -> (r: Self)
        ensures
            r == (Self { page: Some(page), ..self }),
    {
        Self { page: Some(page), ..self }
    }

    /// The number of results you are requesting per page.
    pub fn per_page(self, per_page: usize) -> (r: Self)
        ensures
            r == (Self { per_page: Some(per_page), ..self }),
    {
        Self { per_page: Some(per_page), ..self }
    }

    /// Creates a [`Popular`] request from the builder.
    pub fn build(self) -> (r: Popular)
        ensures
            r.min_width == self.min_width,
            r.min_height == self.min_height,
            r.min_duration == self.min_duration,
            r.max_duration == self.max_duration,
            r.page == self.page,
            r.per_page == self.per_page,
    {
        Popular {
            page: self.page,
            per_page: self.per_page,
            min_width: self.min_width,
            min_height: self.min_height,
            min_duration: self.min_duration,
            max_duration: self.max_duration,
        }
    }
}

impl Default for PopularBuilder {
    fn default() -> (r: Self)
        ensures
            r.min_width is None,
            r.min_height is None,
            r.min_duration is None,
            r.max_duration is None,
            r.page is None,
            r.per_page is None,
    {
        Self::new()
    }
}

/// An unset field contributes no key to the query and a set field
/// contributes exactly one parameter, carrying the decimal rendering of its
/// value.
/// An unset field contributes no key to the query and a set field
/// contributes exactly one parameter, carrying the decimal rendering of its
/// value.
pub proof fn lemma_popular_param_occurrences(f: Popular)
    ensures
        key_count(f.spec_params(), "min_width"@) == (if f.min_width is Some {
            1nat
        } else {
            0nat
        }),
        key_count(f.spec_params(), "min_height"@) == (if f.min_height is Some {
            1nat
        } else {
            0nat
        }),
        key_count(f.spec_params(), "min_duration"@) == (if f.min_duration is Some {
            1nat
        } else {
            0nat
        }),
        key_count(f.spec_params(), "max_duration"@) == (if f.max_duration is Some {
            1nat
        } else {
            0nat
        }),
        key_count(f.spec_params(), "page"@) == (if f.page is Some {
            1nat
        } else {
            0nat
        }),
        key_count(f.spec_params(), "per_page"@) == (if f.per_page is Some {
            1nat
        } else {
            0nat
        }),
        f.min_width matches Some(n) ==> params_with_key(f.spec_params(), "min_width"@) == seq![("min_width"@, dec_rep(n as nat))],
        f.min_height matches Some(n) ==> params_with_key(f.spec_params(), "min_height"@) == seq![("min_height"@, dec_rep(n as nat))],
        f.min_duration matches Some(n) ==> params_with_key(f.spec_params(), "min_duration"@) == seq![("min_duration"@, dec_rep(n as nat))],
        f.max_duration matches Some(n) ==> params_with_key(f.spec_params(), "max_duration"@) == seq![("max_duration"@, dec_rep(n as nat))],
        f.page matches Some(n) ==> params_with_key(f.spec_params(), "page"@) == seq![("page"@, dec_rep(n as nat))],
        f.per_page matches Some(n) ==> params_with_key(f.spec_params(), "per_page"@) == seq![("per_page"@, dec_rep(n as nat))],
{
    lemma_popular_keys_distinct();
    lemma_params_with_key_concat(
        opt_num_param(f.min_width, "min_width"@) + opt_num_param(f.min_height, "min_height"@) + opt_num_param(f.min_duration, "min_duration"@) + opt_num_param(f.max_duration, "max_duration"@) + opt_num_param(f.page, "page"@),
        opt_num_param(f.per_page, "per_page"@),
        "min_width"@,
    );
    lemma_params_with_key_concat(
        opt_num_param(f.min_width, "min_width"@) + opt_num_param(f.min_height, "min_height"@) + opt_num_param(f.min_duration, "min_duration"@) + opt_num_param(f.max_duration, "max_duration"@),
        opt_num_param(f.page, "page"@),
        "min_width"@,
    );
    lemma_params_with_key_concat(
        opt_num_param(f.min_width, "min_width"@) + opt_num_param(f.min_height, "min_height"@) + opt_num_param(f.min_duration, "min_duration"@),
        opt_num_param(f.max_duration, "max_duration"@),
        "min_width"@,
    );
    lemma_params_with_key_concat(
        opt_num_param(f.min_width, "min_width"@) + opt_num_param(f.min_height, "min_height"@),
        opt_num_param(f.min_duration, "min_duration"@),
        "min_width"@,
    );
    lemma_params_with_key_concat(
        opt_num_param(f.min_width, "min_width"@),
        opt_num_param(f.min_height, "min_height"@),
        "min_width"@,
    );
    lemma_params_with_key_opt_num(f.min_width, "min_width"@, "min_width"@);
    lemma_params_with_key_opt_num(f.min_height, "min_height"@, "min_width"@);
    lemma_params_with_key_opt_num(f.min_duration, "min_duration"@, "min_width"@);
    lemma_params_with_key_opt_num(f.max_duration, "max_duration"@, "min_width"@);
    lemma_params_with_key_opt_num(f.page, "page"@, "min_width"@);
    lemma_params_with_key_opt_num(f.per_page, "per_page"@, "min_width"@);
    lemma_params_with_key_concat(
        opt_num_param(f.min_width, "min_width"@) + opt_num_param(f.min_height, "min_height"@) + opt_num_param(f.min_duration, "min_duration"@) + opt_num_param(f.max_duration, "max_duration"@) + opt_num_param(f.page, "page"@),
        opt_num_param(f.per_page, "per_page"@),
        "min_height"@,
    );
    lemma_params_with_key_concat(
        opt_num_param(f.min_width, "min_width"@) + opt_num_param(f.min_height, "min_height"@) + opt_num_param(f.min_duration, "min_duration"@) + opt_num_param(f.max_duration, "max_duration"@),
        opt_num_param(f.page, "page"@),
        "min_height"@,
    );
    lemma_params_with_key_concat(
        opt_num_param(f.min_width, "min_width"@) + opt_num_param(f.min_height, "min_height"@) + opt_num_param(f.min_duration, "min_duration"@),
        opt_num_param(f.max_duration, "max_duration"@),
        "min_height"@,
    );
    lemma_params_with_key_concat(
        opt_num_param(f.min_width, "min_width"@) + opt_num_param(f.min_height, "min_height"@),
        opt_num_param(f.min_duration, "min_duration"@),
        "min_height"@,
    );
    lemma_params_with_key_concat(
        opt_num_param(f.min_width, "min_width"@),
        opt_num_param(f.min_height, "min_height"@),
        "min_height"@,
    );
    lemma_params_with_key_opt_num(f.min_width, "min_width"@, "min_height"@);
    lemma_params_with_key_opt_num(f.min_height, "min_height"@, "min_height"@);
    lemma_params_with_key_opt_num(f.min_duration, "min_duration"@, "min_height"@);
    lemma_params_with_key_opt_num(f.max_duration, "max_duration"@, "min_height"@);
    lemma_params_with_key_opt_num(f.page, "page"@, "min_height"@);
    lemma_params_with_key_opt_num(f.per_page, "per_page"@, "min_height"@);
    lemma_params_with_key_concat(
        opt_num_param(f.min_width, "min_width"@) + opt_num_param(f.min_height, "min_height"@) + opt_num_param(f.min_duration, "min_duration"@) + opt_num_param(f.max_duration, "max_duration"@) + opt_num_param(f.page, "page"@),
        opt_num_param(f.per_page, "per_page"@),
        "min_duration"@,
    );
    lemma_params_with_key_concat(
        opt_num_param(f.min_width, "min_width"@) + opt_num_param(f.min_height, "min_height"@) + opt_num_param(f.min_duration, "min_duration"@) + opt_num_param(f.max_duration, "max_duration"@),
        opt_num_param(f.page, "page"@),
        "min_duration"@,
    );
    lemma_params_with_key_concat(
        opt_num_param(f.min_width, "min_width"@) + opt_num_param(f.min_height, "min_height"@) + opt_num_param(f.min_duration, "min_duration"@),
        opt_num_param(f.max_duration, "max_duration"@),
        "min_duration"@,
    );
    lemma_params_with_key_concat(
        opt_num_param(f.min_width, "min_width"@) + opt_num_param(f.min_height, "min_height"@),
        opt_num_param(f.min_duration, "min_duration"@),
        "min_duration"@,
    );
    lemma_params_with_key_concat(
        opt_num_param(f.min_width, "min_width"@),
        opt_num_param(f.min_height, "min_height"@),
        "min_duration"@,
    );
    lemma_params_with_key_opt_num(f.min_width, "min_width"@, "min_duration"@);
    lemma_params_with_key_opt_num(f.min_height, "min_height"@, "min_duration"@);
    lemma_params_with_key_opt_num(f.min_duration, "min_duration"@, "min_duration"@);
    lemma_params_with_key_opt_num(f.max_duration, "max_duration"@, "min_duration"@);
    lemma_params_with_key_opt_num(f.page, "page"@, "min_duration"@);
    lemma_params_with_key_opt_num(f.per_page, "per_page"@, "min_duration"@);
    lemma_params_with_key_concat(
        opt_num_param(f.min_width, "min_width"@) + opt_num_param(f.min_height, "min_height"@) + opt_num_param(f.min_duration, "min_duration"@) + opt_num_param(f.max_duration, "max_duration"@) + opt_num_param(f.page, "page"@),
        opt_num_param(f.per_page, "per_page"@),
        "max_duration"@,
    );
    lemma_params_with_key_concat(
        opt_num_param(f.min_width, "min_width"@) + opt_num_param(f.min_height, "min_height"@) + opt_num_param(f.min_duration, "min_duration"@) + opt_num_param(f.max_duration, "max_duration"@),
        opt_num_param(f.page, "page"@),
        "max_duration"@,
    );
    lemma_params_with_key_concat(
        opt_num_param(f.min_width, "min_width"@) + opt_num_param(f.min_height, "min_height"@) + opt_num_param(f.min_duration, "min_duration"@),
        opt_num_param(f.max_duration, "max_duration"@),
        "max_duration"@,
    );
    lemma_params_with_key_concat(
        opt_num_param(f.min_width, "min_width"@) + opt_num_param(f.min_height, "min_height"@),
        opt_num_param(f.min_duration, "min_duration"@),
        "max_duration"@,
    );
    lemma_params_with_key_concat(
        opt_num_param(f.min_width, "min_width"@),
        opt_num_param(f.min_height, "min_height"@),
        "max_duration"@,
    );
    lemma_params_with_key_opt_num(f.min_width, "min_width"@, "max_duration"@);
    lemma_params_with_key_opt_num(f.min_height, "min_height"@, "max_duration"@);
    lemma_params_with_key_opt_num(f.min_duration, "min_duration"@, "max_duration"@);
    lemma_params_with_key_opt_num(f.max_duration, "max_duration"@, "max_duration"@);
    lemma_params_with_key_opt_num(f.page, "page"@, "max_duration"@);
    lemma_params_with_key_opt_num(f.per_page, "per_page"@, "max_duration"@);
    lemma_params_with_key_concat(
        opt_num_param(f.min_width, "min_width"@) + opt_num_param(f.min_height, "min_height"@) + opt_num_param(f.min_duration, "min_duration"@) + opt_num_param(f.max_duration, "max_duration"@) + opt_num_param(f.page, "page"@),
        opt_num_param(f.per_page, "per_page"@),
        "page"@,
    );
    lemma_params_with_key_concat(
        opt_num_param(f.min_width, "min_width"@) + opt_num_param(f.min_height, "min_height"@) + opt_num_param(f.min_duration, "min_duration"@) + opt_num_param(f.max_duration, "max_duration"@),
        opt_num_param(f.page, "page"@),
        "page"@,
    );
    lemma_params_with_key_concat(
        opt_num_param(f.min_width, "min_width"@) + opt_num_param(f.min_height, "min_height"@) + opt_num_param(f.min_duration, "min_duration"@),
        opt_num_param(f.max_duration, "max_duration"@),
        "page"@,
    );
    lemma_params_with_key_concat(
        opt_num_param(f.min_width, "min_width"@) + opt_num_param(f.min_height, "min_height"@),
        opt_num_param(f.min_duration, "min_duration"@),
        "page"@,
    );
    lemma_params_with_key_concat(
        opt_num_param(f.min_width, "min_width"@),
        opt_num_param(f.min_height, "min_height"@),
        "page"@,
    );
    lemma_params_with_key_opt_num(f.min_width, "min_width"@, "page"@);
    lemma_params_with_key_opt_num(f.min_height, "min_height"@, "page"@);
    lemma_params_with_key_opt_num(f.min_duration, "min_duration"@, "page"@);
    lemma_params_with_key_opt_num(f.max_duration, "max_duration"@, "page"@);
    lemma_params_with_key_opt_num(f.page, "page"@, "page"@);
    lemma_params_with_key_opt_num(f.per_page, "per_page"@, "page"@);
    lemma_params_with_key_concat(
        opt_num_param(f.min_width, "min_width"@) + opt_num_param(f.min_height, "min_height"@) + opt_num_param(f.min_duration, "min_duration"@) + opt_num_param(f.max_duration, "max_duration"@) + opt_num_param(f.page, "page"@),
        opt_num_param(f.per_page, "per_page"@),
        "per_page"@,
    );
    lemma_params_with_key_concat(
        opt_num_param(f.min_width, "min_width"@) + opt_num_param(f.min_height, "min_height"@) + opt_num_param(f.min_duration, "min_duration"@) + opt_num_param(f.max_duration, "max_duration"@),
        opt_num_param(f.page, "page"@),
        "per_page"@,
    );
    lemma_params_with_key_concat(
        opt_num_param(f.min_width, "min_width"@) + opt_num_param(f.min_height, "min_height"@) + opt_num_param(f.min_duration, "min_duration"@),
        opt_num_param(f.max_duration, "max_duration"@),
        "per_page"@,
    );
    lemma_params_with_key_concat(
        opt_num_param(f.min_width, "min_width"@) + opt_num_param(f.min_height, "min_height"@),
        opt_num_param(f.min_duration, "min_duration"@),
        "per_page"@,
    );
    lemma_params_with_key_concat(
        opt_num_param(f.min_width, "min_width"@),
        opt_num_param(f.min_height, "min_height"@),
        "per_page"@,
    );
    lemma_params_with_key_opt_num(f.min_width, "min_width"@, "per_page"@);
    lemma_params_with_key_opt_num(f.min_height, "min_height"@, "per_page"@);
    lemma_params_with_key_opt_num(f.min_duration, "min_duration"@, "per_page"@);
    lemma_params_with_key_opt_num(f.max_duration, "max_duration"@, "per_page"@);
    lemma_params_with_key_opt_num(f.page, "page"@, "per_page"@);
    lemma_params_with_key_opt_num(f.per_page, "per_page"@, "per_page"@);
    match f.min_width {
        Some(n) => {
            assert(params_with_key(f.spec_params(), "min_width"@) =~= seq![("min_width"@, dec_rep(
                n as nat,
            ))]);
        },
        None => {
        },
    }
    match f.min_height {
        Some(n) => {
            assert(params_with_key(f.spec_params(), "min_height"@) =~= seq![("min_height"@, dec_rep(
                n as nat,
            ))]);
        },
        None => {
        },
    }
    match f.min_duration {
        Some(n) => {
            assert(params_with_key(f.spec_params(), "min_duration"@) =~= seq![("min_duration"@, dec_rep(
                n as nat,
            ))]);
        },
        None => {
        },
    }
    match f.max_duration {
        Some(n) => {
            assert(params_with_key(f.spec_params(), "max_duration"@) =~= seq![("max_duration"@, dec_rep(
                n as nat,
            ))]);
        },
        None => {
        },
    }
    match f.page {
        Some(n) => {
            assert(params_with_key(f.spec_params(), "page"@) =~= seq![("page"@, dec_rep(
                n as nat,
            ))]);
        },
        None => {
        },
    }
    match f.per_page {
        Some(n) => {
            assert(params_with_key(f.spec_params(), "per_page"@) =~= seq![("per_page"@, dec_rep(
                n as nat,
            ))]);
        },
        None => {
        },
    }
}

proof fn lemma_popular_keys_distinct()
    ensures
        "min_width"@ != "min_height"@,
        "min_width"@ != "min_duration"@,
        "min_width"@ != "max_duration"@,
        "min_width"@ != "page"@,
        "min_width"@ != "per_page"@,
        "min_height"@ != "min_duration"@,
        "min_height"@ != "max_duration"@,
        "min_height"@ != "page"@,
        "min_height"@ != "per_page"@,
        "min_duration"@ != "max_duration"@,
        "min_duration"@ != "page"@,
        "min_duration"@ != "per_page"@,
        "max_duration"@ != "page"@,
        "max_duration"@ != "per_page"@,
        "page"@ != "per_page"@,
{
    reveal_strlit("min_width");
    reveal_strlit("min_height");
    reveal_strlit("min_duration");
    reveal_strlit("max_duration");
    reveal_strlit("page");
    reveal_strlit("per_page");
    assert(("min_width"@).len() == 9 && ("min_height"@).len() == 10 && ("min_duration"@).len()
        == 12 && ("max_duration"@).len() == 12 && ("page"@).len() == 4 && ("per_page"@).len() == 8);
    assert(("min_duration"@)[1] == 'i' && ("max_duration"@)[1] == 'a');
}

/// Rendering is deterministic: two requests with the same fields render the
/// same URL.
pub proof fn lemma_popular_render_deterministic(a: Popular, b: Popular)
    requires
        a.min_width == b.min_width,
        a.min_height == b.min_height,
        a.min_duration == b.min_duration,
        a.max_duration == b.max_duration,
        a.page == b.page,
        a.per_page == b.per_page,
    ensures
        a.uri_spec() == b.uri_spec(),
{
}

} // verus!
