//! The collection-media endpoint: all media items (photos and videos)
//! within a single collection, optionally filtered by media type and sorted.
use vstd::prelude::*;

use crate::query::{append_param, key_count, lemma_append_step, lemma_params_with_key_concat,
    lemma_params_with_key_empty, lemma_params_with_key_opt_num, lemma_params_with_key_single,
    opt_num_param, params_with_key, render_query, QueryParam};
use crate::strutil::{dec_rep, usize_to_string};
use crate::{BuilderResult, MediaSort, MediaType};
use crate::client::{decode_200_spec, error_for_status, error_status_spec};
use crate::domain::models::{MediaResponse, media_response_from_json, media_response_node_matches, media_response_node_ok};
use crate::json::{json_of, parse_json, JsonNode};
use crate::PexelsError;
use vstd::string::StringExecFns;

verus! {

/// A request for the media items of one collection.
///
/// The collection id is embedded in the URL path.  The `type` filter, sort
/// order, and pagination are optional query parameters; a `MediaType::Empty`
/// filter contributes no parameter at all.
pub struct Media {
    pub id: String,
    pub media_type: Option<MediaType>,
    pub sort: Option<MediaSort>,
    pub page: Option<usize>,
    pub per_page: Option<usize>,
}

/// The parameter contributed by the media-type filter: nothing when the
/// filter is absent or empty, else one `type` parameter in canonical form.
pub open spec fn opt_type_param(t: Option<MediaType>) -> Seq<QueryParam> {
    match t {
        Some(MediaType::Photo) => seq![("type"@, MediaType::Photo.canonical())],
        Some(MediaType::Video) => seq![("type"@, MediaType::Video.canonical())],
        _ => Seq::empty(),
    }
}

/// The parameter contributed by the sort order: one `sort` parameter in
/// canonical form when set.
pub open spec fn opt_sort_param(s: Option<MediaSort>) -> Seq<QueryParam> {
    match s {
        Some(m) => seq![("sort"@, m.canonical())],
        None => Seq::empty(),
    }
}

impl Media {
    /// Creates a [`MediaBuilder`] for building URIs.
    pub fn builder() -> (r: MediaBuilder)
        ensures
            r.id@.len() == 0,
            r.media_type is None,
            r.sort is None,
            r.page is None,
            r.per_page is None,
    {
        MediaBuilder::new()
    }

    /// The query parameters this request renders, in order.
    pub open spec fn spec_params(self) -> Seq<QueryParam> {
        opt_type_param(self.media_type) + opt_sort_param(self.sort) + opt_num_param(self.page, "page"@)
            + opt_num_param(self.per_page, "per_page"@)
    }

    /// The exact URL this request renders to: the collection id is a path
    /// segment, followed by the query string.
    pub open spec fn uri_spec(self) -> Seq<char> {
        "https://api.pexels.com/v1/collections/"@ + self.id@ + render_query(self.spec_params())
    }

    /// Renders the request to a fully qualified URL.
    #[verifier::rlimit(50)]
    pub fn create_uri(&self) -> (r: BuilderResult)
        ensures
            r matches Ok(u) && u@ == self.uri_spec(),
    {
        let mut url = String::from_str("https://api.pexels.com/v1/collections/");
        url.append(self.id.as_str());
        let mut started = false;
        let ghost base = "https://api.pexels.com/v1/collections/"@ + self.id@;
        let ghost mut ps: Seq<QueryParam> = Seq::empty();
        proof {
            assert(url@ =~= base + render_query(ps));
            assert(started == (ps.len() > 0));
        }
        if let Some(t) = self.media_type {
            match t {
                MediaType::Empty => {
                },
                _ => {
                    let ghost u_old = url@;
                    append_param(&mut url, &mut started, "type", t.as_str());
                    proof {
                        lemma_append_step(u_old, url@, base, ps, "type"@, t.canonical());
                        ps = ps.push(("type"@, t.canonical()));
                        assert(started == (ps.len() > 0));
                    }
                },
            }
        }
        proof {
            assert(ps =~= opt_type_param(self.media_type));
        }
        if let Some(m) = self.sort {
            let ghost u_old = url@;
            append_param(&mut url, &mut started, "sort", m.as_str());
            proof {
                lemma_append_step(u_old, url@, base, ps, "sort"@, m.canonical());
                ps = ps.push(("sort"@, m.canonical()));
                assert(started == (ps.len() > 0));
            }
        }
        if let Some(page) = self.page {
            let v = usize_to_string(page);
            let ghost u_old = url@;
            append_param(&mut url, &mut started, "page", v.as_str());
            proof {
                lemma_append_step(u_old, url@, base, ps, "page"@, dec_rep(page as nat));
                ps = ps.push(("page"@, dec_rep(page as nat)));
                assert(started == (ps.len() > 0));
            }
        }
        if let Some(per_page) = self.per_page {
            let v = usize_to_string(per_page);
            let ghost u_old = url@;
            append_param(&mut url, &mut started, "per_page", v.as_str());
            proof {
                lemma_append_step(u_old, url@, base, ps, "per_page"@, dec_rep(per_page as nat));
                ps = ps.push(("per_page"@, dec_rep(per_page as nat)));
                assert(started == (ps.len() > 0));
            }
        }
        proof {
            assert(ps =~= self.spec_params());
        }
        Ok(url)
    }

    /// Maps the HTTP status and body of the response to this request to the
    /// typed result: the decoded page on 200, a typed error otherwise.
    pub fn decode_response(&self, status: u16, body: &str) -> (r: Result<MediaResponse, PexelsError>)
        ensures
            status == 200 ==> decode_200_spec(
                body@,
                (|n: JsonNode| media_response_node_ok(n)),
                (|n: JsonNode, v: MediaResponse| media_response_node_matches(n, v)),
                r,
            ),
            status == 404 ==> (r matches Err(PexelsError::NotFound(m)) && m@ == "Collection with ID "@
                + self.id@ + " not found"@),
            status != 200 && status != 404 ==> (r matches Err(e) && error_status_spec(
                status,
                "Get collection media"@,
                e,
            )),
    {
        if status == 200 {
            match parse_json(body) {
                Err(m) => Err(PexelsError::JsonParseError(m)),
                Ok(node) => match media_response_from_json(&node) {
                    Some(v) => Ok(v),
                    None => Err(
                        PexelsError::JsonParseError(
                            String::from_str("response body does not match the expected shape"),
                        ),
                    ),
                },
            }
        } else if status == 404 {
            let mut m = String::from_str("Collection with ID ");
            m.append(self.id.as_str());
            m.append(" not found");
            Err(PexelsError::NotFound(m))
        } else {
            Err(error_for_status(status, "Get collection media"))
        }
    }
}

/// Builder for [`Media`].
pub struct MediaBuilder {
    pub id: String,
    pub media_type: Option<MediaType>,
    pub sort: Option<MediaSort>,
    pub page: Option<usize>,
    pub per_page: Option<usize>,
}

impl MediaBuilder {
    pub fn new() -> (r: Self)
        ensures
            r.id@.len() == 0,
            r.media_type is None,
            r.sort is None,
            r.page is None,
            r.per_page is None,
    {
        Self { id: String::new(), media_type: None, sort: None, page: None, per_page: None }
    }

    /// The id of the collection whose media you are requesting.
    pub fn id(self, id: String) -> (r: Self)
        ensures
            r.id == id,
            r.media_type == self.media_type,
            r.sort == self.sort,
            r.page == self.page,
            r.per_page == self.per_page,
    {
        Self { id, ..self }
    }

    /// The type of media to filter the collection down to.
    pub fn media_type(self, media_type: MediaType) -> (r: Self)
        ensures
            r.media_type == Some(media_type),
            r.id == self.id,
            r.sort == self.sort,
            r.page == self.page,
            r.per_page == self.per_page,
    {
        Self { media_type: Some(media_type), ..self }
    }

    /// The order in which the media items are returned.
    pub fn sort(self, sort: MediaSort) -> (r: Self)
        ensures
            r.sort == Some(sort),
            r.id == self.id,
            r.media_type == self.media_type,
            r.page == self.page,
            r.per_page == self.per_page,
    {
        Self { sort: Some(sort), ..self }
    }

    /// The page number you are requesting.
    pub fn page(self, page: usize) -> (r: Self)
        ensures
            r.page == Some(page),
            r.id == self.id,
            r.media_type == self.media_type,
            r.sort == self.sort,
            r.per_page == self.per_page,
    {
        Self { page: Some(page), ..self }
    }

    /// The number of results you are requesting per page.
    pub fn per_page(self, per_page: usize) -> (r: Self)
        ensures
            r.per_page == Some(per_page),
            r.id == self.id,
            r.media_type == self.media_type,
            r.sort == self.sort,
            r.page == self.page,
    {
        Self { per_page: Some(per_page), ..self }
    }

    /// Creates a [`Media`] request from the builder.
    pub fn build(self) -> (r: Media)
        ensures
            r.id == self.id,
            r.media_type == self.media_type,
            r.sort == self.sort,
            r.page == self.page,
            r.per_page == self.per_page,
    {
        Media {
            id: self.id,
            media_type: self.media_type,
            sort: self.sort,
            page: self.page,
            per_page: self.per_page,
        }
    }
}

impl Default for MediaBuilder {
    fn default() -> (r: Self)
        ensures
            r.id@.len() == 0,
            r.media_type is None,
            r.sort is None,
            r.page is None,
            r.per_page is None,
    {
        Self::new()
    }
}

/// What the media-type filter contributes under each key.
pub proof fn lemma_params_opt_type(t: Option<MediaType>, k: Seq<char>)
    ensures
        t == Some(MediaType::Photo) && "type"@ == k ==> params_with_key(opt_type_param(t), k)
            == seq![("type"@, MediaType::Photo.canonical())],
        t == Some(MediaType::Video) && "type"@ == k ==> params_with_key(opt_type_param(t), k)
            == seq![("type"@, MediaType::Video.canonical())],
        t is None || t == Some(MediaType::Empty) ==> params_with_key(opt_type_param(t), k) == Seq::<
            QueryParam,
        >::empty(),
        "type"@ != k ==> params_with_key(opt_type_param(t), k) == Seq::<QueryParam>::empty(),
{
    match t {
        Some(MediaType::Photo) => {
            lemma_params_with_key_single("type"@, MediaType::Photo.canonical(), k);
        },
        Some(MediaType::Video) => {
            lemma_params_with_key_single("type"@, MediaType::Video.canonical(), k);
        },
        _ => {
            lemma_params_with_key_empty(k);
        },
    }
}

/// What the sort order contributes under each key.
pub proof fn lemma_params_opt_sort(m: Option<MediaSort>, k: Seq<char>)
    ensures
        m matches Some(x) ==> ("sort"@ == k ==> params_with_key(opt_sort_param(m), k) == seq![("sort"@, x.canonical())]),
        m is None ==> params_with_key(opt_sort_param(m), k) == Seq::<QueryParam>::empty(),
        "sort"@ != k ==> params_with_key(opt_sort_param(m), k) == Seq::<QueryParam>::empty(),
{
    match m {
        Some(x) => {
            lemma_params_with_key_single("sort"@, x.canonical(), k);
        },
        None => {
            lemma_params_with_key_empty(k);
        },
    }
}

/// An unset optional field (and an empty media-type filter) contributes no
/// key to the query; a set field contributes exactly one parameter in
/// canonical form.
pub proof fn lemma_media_param_occurrences(f: Media)
    ensures
        key_count(f.spec_params(), "type"@) == (if f.media_type is Some && !(f.media_type
            == Some(MediaType::Empty)) {
            1nat
        } else {
            0nat
        }),
        key_count(f.spec_params(), "sort"@) == (if f.sort is Some {
            1nat
        } else {
            0nat
        }),
        key_count(f.spec_params(), "page"@) == (if f.page is Some {
            1nat
        } else {
            0nat
        }),
        key_count(f.spec_params(), "per_page"@) == (if f.per_page is Some {
            1nat
        } else {
            0nat
        }),
        f.sort matches Some(x) ==> params_with_key(f.spec_params(), "sort"@) == seq![("sort"@, x.canonical())],
        f.page matches Some(n) ==> params_with_key(f.spec_params(), "page"@) == seq![("page"@, dec_rep(n as nat))],
        f.per_page matches Some(n) ==> params_with_key(f.spec_params(), "per_page"@) == seq![("per_page"@, dec_rep(n as nat))],
{
    lemma_media_keys_distinct();
    let a = opt_type_param(f.media_type);
    let b = opt_sort_param(f.sort);
    let c = opt_num_param(f.page, "page"@);
    let d = opt_num_param(f.per_page, "per_page"@);
    lemma_params_with_key_concat(a + b + c, d, "type"@);
    lemma_params_with_key_concat(a + b, c, "type"@);
    lemma_params_with_key_concat(a, b, "type"@);
    lemma_params_opt_type(f.media_type, "type"@);
    lemma_params_opt_sort(f.sort, "type"@);
    lemma_params_with_key_opt_num(f.page, "page"@, "type"@);
    lemma_params_with_key_opt_num(f.per_page, "per_page"@, "type"@);
    lemma_params_with_key_concat(a + b + c, d, "sort"@);
    lemma_params_with_key_concat(a + b, c, "sort"@);
    lemma_params_with_key_concat(a, b, "sort"@);
    lemma_params_opt_type(f.media_type, "sort"@);
    lemma_params_opt_sort(f.sort, "sort"@);
    lemma_params_with_key_opt_num(f.page, "page"@, "sort"@);
    lemma_params_with_key_opt_num(f.per_page, "per_page"@, "sort"@);
    lemma_params_with_key_concat(a + b + c, d, "page"@);
    lemma_params_with_key_concat(a + b, c, "page"@);
    lemma_params_with_key_concat(a, b, "page"@);
    lemma_params_opt_type(f.media_type, "page"@);
    lemma_params_opt_sort(f.sort, "page"@);
    lemma_params_with_key_opt_num(f.page, "page"@, "page"@);
    lemma_params_with_key_opt_num(f.per_page, "per_page"@, "page"@);
    lemma_params_with_key_concat(a + b + c, d, "per_page"@);
    lemma_params_with_key_concat(a + b, c, "per_page"@);
    lemma_params_with_key_concat(a, b, "per_page"@);
    lemma_params_opt_type(f.media_type, "per_page"@);
    lemma_params_opt_sort(f.sort, "per_page"@);
    lemma_params_with_key_opt_num(f.page, "page"@, "per_page"@);
    lemma_params_with_key_opt_num(f.per_page, "per_page"@, "per_page"@);
    match f.sort {
        Some(x) => {
            assert(params_with_key(f.spec_params(), "sort"@) =~= seq![("sort"@, x.canonical())]);
        },
        None => {
        },
    }
    match f.page {
        Some(n) => {
            assert(params_with_key(f.spec_params(), "page"@) =~= seq![("page"@, dec_rep(
                n as nat,
            ))]);
        },
        None => {
        },
    }
    match f.per_page {
        Some(n) => {
            assert(params_with_key(f.spec_params(), "per_page"@) =~= seq![("per_page"@, dec_rep(
                n as nat,
            ))]);
        },
        None => {
        },
    }
}

proof fn lemma_media_keys_distinct()
    ensures
        "type"@ != "sort"@,
        "type"@ != "page"@,
        "type"@ != "per_page"@,
        "sort"@ != "page"@,
        "sort"@ != "per_page"@,
        "page"@ != "per_page"@,
{
    reveal_strlit("type");
    reveal_strlit("sort");
    reveal_strlit("page");
    reveal_strlit("per_page");
    assert(("type"@)[0] == 't' && ("sort"@)[0] == 's' && ("page"@)[0] == 'p');
    assert(("type"@).len() != ("per_page"@).len());
    assert(("sort"@).len() != ("per_page"@).len());
    assert(("page"@).len() != ("per_page"@).len());
}

/// Rendering is deterministic: two requests with the same fields render the
/// same URL.
pub proof fn lemma_media_render_deterministic(a: Media, b: Media)
    requires
        a.id@ == b.id@,
        a.media_type == b.media_type,
        a.sort == b.sort,
        a.page == b.page,
        a.per_page == b.per_page,
    ensures
        a.uri_spec() == b.uri_spec(),
{
}

} // verus!
