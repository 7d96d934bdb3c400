//! The collections-list endpoint: a paginated list of the caller's
//! collections.
use vstd::prelude::*;

use crate::query::{append_param, key_count, lemma_append_step, lemma_params_with_key_concat,
    lemma_params_with_key_opt_num, opt_num_param, params_with_key, render_query, QueryParam};
use crate::strutil::{dec_rep, usize_to_string};
use crate::BuilderResult;
use crate::client::{decode_200_spec, error_for_status, error_status_spec};
use crate::domain::models::{CollectionsResponse, collections_response_from_json, collections_response_node_matches, collections_response_node_ok};
use crate::json::{json_of, parse_json, JsonNode};
use crate::PexelsError;
use vstd::string::StringExecFns;

verus! {

/// A request for the collection list, with optional pagination.
pub struct Collections {
    pub page: Option<usize>,
    pub per_page: Option<usize>,
}

impl Collections {
    /// Creates a [`CollectionsBuilder`] for building URIs.
    pub fn builder() -> (r: CollectionsBuilder)
        ensures
            r.page is None,
            r.per_page is None,
    {
        CollectionsBuilder::new()
    }

    /// The query parameters this request renders, in order.
    pub open spec fn spec_params(self) -> Seq<QueryParam> {
        opt_num_param(self.page, "page"@) + opt_num_param(self.per_page, "per_page"@)
    }

    /// The exact URL this request renders to.
    pub open spec fn uri_spec(self) -> Seq<char> {
        "https://api.pexels.com/v1/collections"@ + render_query(self.spec_params())
    }

    /// Renders the request to a fully qualified URL.
    pub fn create_uri(&self) -> (r: BuilderResult)
        ensures
            r matches Ok(u) && u@ == self.uri_spec(),
    {
        let mut url = String::from_str("https://api.pexels.com/v1/collections");
        let mut started = false;
        let ghost base = "https://api.pexels.com/v1/collections"@;
        let ghost mut ps: Seq<QueryParam> = Seq::empty();
        proof {
            assert(url@ =~= base + render_query(ps));
            assert(started == (ps.len() > 0));
        }
        if let Some(page) = self.page {
            let v = usize_to_string(page);
            let ghost u_old = url@;
            append_param(&mut url, &mut started, "page", v.as_str());
            proof {
                lemma_append_step(u_old, url@, base, ps, "page"@, dec_rep(page as nat));
                ps = ps.push(("page"@, dec_rep(page as nat)));
                assert(started == (ps.len() > 0));
            }
        }
        if let Some(per_page) = self.per_page {
            let v = usize_to_string(per_page);
            let ghost u_old = url@;
            append_param(&mut url, &mut started, "per_page", v.as_str());
            proof {
                lemma_append_step(u_old, url@, base, ps, "per_page"@, dec_rep(per_page as nat));
                ps = ps.push(("per_page"@, dec_rep(per_page as nat)));
                assert(started == (ps.len() > 0));
            }
        }
        proof {
            assert(ps =~= self.spec_params());
        }
        Ok(url)
    }

    /// Maps the HTTP status and body of the response to this request to the
    /// typed result: the decoded page on 200, a typed error otherwise.
    pub fn decode_response(&self, status: u16, body: &str) -> (r: Result<CollectionsResponse, PexelsError>)
        ensures
            status == 200 ==> decode_200_spec(
                body@,
                (|n: JsonNode| collections_response_node_ok(n)),
                (|n: JsonNode, v: CollectionsResponse| collections_response_node_matches(n, v)),
                r,
            ),
            status != 200 ==> (r matches Err(e) && error_status_spec(status, "Get collections"@, e)),
    {
        if status == 200 {
            match parse_json(body) {
                Err(m) => Err(PexelsError::JsonParseError(m)),
                Ok(node) => match collections_response_from_json(&node) {
                    Some(v) => Ok(v),
                    None => Err(
                        PexelsError::JsonParseError(
                            String::from_str("response body does not match the expected shape"),
                        ),
                    ),
                },
            }
        } else {
            Err(error_for_status(status, "Get collections"))
        }
    }
}

/// Builder for [`Collections`].
pub struct CollectionsBuilder {
    pub page: Option<usize>,
    pub per_page: Option<usize>,
}

impl CollectionsBuilder {
    pub fn new() -> (r: Self)
        ensures
            r.page is None,
            r.per_page is None,
    {
        Self { page: None, per_page: None }
    }

    /// The page number you are requesting.
    pub fn page(self, page: usize) -> (r: Self)
        ensures
            r.page == Some(page),
            r.per_page == self.per_page,
    {
        Self { page: Some(page), ..self }
    }

    /// The number of results you are requesting per page.
    pub fn per_page(self, per_page: usize) -> (r: Self)
        ensures
            r.per_page == Some(per_page),
            r.page == self.page,
    {
        Self { per_page: Some(per_page), ..self }
    }

    /// Creates a [`Collections`] request from the builder.
    pub fn build(self) -> (r: Collections)
        ensures
            r.page == self.page,
            r.per_page == self.per_page,
    {
        Collections { page: self.page, per_page: self.per_page }
    }
}

impl Default for CollectionsBuilder {
    fn default() -> (r: Self)
        ensures
            r.page is None,
            r.per_page is None,
    {
        Self::new()
    }
}

/// An unset field contributes no key to the query and a set field
/// contributes exactly one parameter, carrying the decimal rendering of its
/// value.
pub proof fn lemma_collections_param_occurrences(f: Collections)
    ensures
        key_count(f.spec_params(), "page"@) == (if f.page is Some {
            1nat
        } else {
            0nat
        }),
        key_count(f.spec_params(), "per_page"@) == (if f.per_page is Some {
            1nat
        } else {
            0nat
        }),
        f.page matches Some(n) ==> params_with_key(f.spec_params(), "page"@) == seq![("page"@, dec_rep(n as nat))],
        f.per_page matches Some(n) ==> params_with_key(f.spec_params(), "per_page"@) == seq![("per_page"@, dec_rep(n as nat))],
{
    lemma_page_keys_distinct();
    let a = opt_num_param(f.page, "page"@);
    let b = opt_num_param(f.per_page, "per_page"@);
    lemma_params_with_key_concat(a, b, "page"@);
    lemma_params_with_key_concat(a, b, "per_page"@);
    lemma_params_with_key_opt_num(f.page, "page"@, "page"@);
    lemma_params_with_key_opt_num(f.page, "page"@, "per_page"@);
    lemma_params_with_key_opt_num(f.per_page, "per_page"@, "page"@);
    lemma_params_with_key_opt_num(f.per_page, "per_page"@, "per_page"@);
    match f.page {
        Some(n) => {
            assert(params_with_key(f.spec_params(), "page"@) =~= seq![("page"@, dec_rep(
                n as nat,
            ))]);
        },
        None => {
        },
    }
    match f.per_page {
        Some(n) => {
            assert(params_with_key(f.spec_params(), "per_page"@) =~= seq![("per_page"@, dec_rep(
                n as nat,
            ))]);
        },
        None => {
        },
    }
}

/// Rendering is deterministic: two requests with the same fields render the
/// same URL.
pub proof fn lemma_collections_render_deterministic(a: Collections, b: Collections)
    requires
        a.page == b.page,
        a.per_page == b.per_page,
    ensures
        a.uri_spec() == b.uri_spec(),
{
}

proof fn lemma_page_keys_distinct()
    ensures
        "page"@ != "per_page"@,
{
    reveal_strlit("page");
    reveal_strlit("per_page");
    assert(("page"@).len() != ("per_page"@).len());
}

} // verus!
