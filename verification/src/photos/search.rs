//! The photo-search endpoint: free-text search with optional orientation,
//! size, color, locale, and pagination filters.
use vstd::prelude::*;

use crate::query::{append_param, key_count, lemma_append_step, lemma_params_with_key_concat,
    lemma_params_with_key_empty, lemma_params_with_key_opt_num, lemma_params_with_key_single,
    opt_num_param, params_with_key, render_query, QueryParam};
use crate::strutil::{dec_rep, form_encode, form_encode_str, usize_to_string};
use crate::{BuilderResult, Locale, Orientation, PexelsError, Size};
use crate::client::{decode_200_spec, error_for_status, error_status_spec};
use crate::domain::models::{PhotosResponse, photos_response_from_json, photos_response_node_matches, photos_response_node_ok};
use crate::json::{json_of, parse_json, JsonNode};
use vstd::string::StringExecFns;

verus! {

/// Whether `c` is a hexadecimal digit, in either character case.
pub open spec fn is_hex_digit_char(c: char) -> bool {
    ('0' <= c && c <= '9') || ('a' <= c && c <= 'f') || ('A' <= c && c <= 'F')
}

/// A validated hex color code: `#` followed by six hexadecimal digits.
#[derive(Debug, Clone)]
pub struct Hex {
    code: String,
}

impl View for Hex {
    type V = Seq<char>;

    closed spec fn view(&self) -> Seq<char> {
        self.code@
    }
}

impl Hex {
    /// The shape a hex color filter must have.
    pub open spec fn valid_hex_color(s: Seq<char>) -> bool {
        s.len() == 7 && s[0] == '#' && (forall|i: int|
            1 <= i < 7 ==> is_hex_digit_char(#[trigger] s[i]))
    }

    /// Validates a hex color code.  A well-formed code is accepted verbatim;
    /// anything else is rejected with the hex-color error carrying the
    /// offending input.
    pub fn new(s: &str) -> (r: Result<Hex, PexelsError>)
        ensures
            Self::valid_hex_color(s@) ==> (r matches Ok(h) && h@ == s@),
            !Self::valid_hex_color(s@) ==> (r matches Err(PexelsError::HexColorCodeError(m)) && m@
                == s@),
    {
        let n = s.unicode_len();
        if n != 7 {
            return Err(PexelsError::HexColorCodeError(String::from_str(s)));
        }
        if s.get_char(0) != '#' {
            return Err(PexelsError::HexColorCodeError(String::from_str(s)));
        }
        let mut i: usize = 1;
        while i < 7
            invariant
                1 <= i <= 7,
                s@.len() == 7,
                forall|j: int| 1 <= j < i ==> is_hex_digit_char(#[trigger] s@[j]),
            decreases 7 - i,
        {
            let c = s.get_char(i);
            if !(('0' <= c && c <= '9') || ('a' <= c && c <= 'f') || ('A' <= c && c <= 'F')) {
                return Err(PexelsError::HexColorCodeError(String::from_str(s)));
            }
            i += 1;
        }
        Ok(Hex { code: String::from_str(s) })
    }

    /// The validated code.
    pub fn as_str(&self) -> (r: &str)
        ensures
            r@ == self@,
    {
        self.code.as_str()
    }
}

/// The color filter of a photo search: one of the named colors Pexels
/// supports, or an exact hex color code.
#[derive(Debug, Clone)]
pub enum Color {
    Red,
    Orange,
    Yellow,
    Green,
    Turquoise,
    Blue,
    Violet,
    Pink,
    Brown,
    Black,
    Gray,
    White,
    Hex(Hex),
}

impl Color {
    /// The canonical query-string form of each filter, before encoding.
    pub open spec fn canonical(self) -> Seq<char> {
        match self {
            Color::Red => "red"@,
            Color::Orange => "orange"@,
            Color::Yellow => "yellow"@,
            Color::Green => "green"@,
            Color::Turquoise => "turquoise"@,
            Color::Blue => "blue"@,
            Color::Violet => "violet"@,
            Color::Pink => "pink"@,
            Color::Brown => "brown"@,
            Color::Black => "black"@,
            Color::Gray => "gray"@,
            Color::White => "white"@,
            Color::Hex(h) => h@,
        }
    }

    pub fn as_str(&self) -> (r: &str)
        ensures
            r@ == self.canonical(),
    {
        match self {
            Color::Red => "red",
            Color::Orange => "orange",
            Color::Yellow => "yellow",
            Color::Green => "green",
            Color::Turquoise => "turquoise",
            Color::Blue => "blue",
            Color::Violet => "violet",
            Color::Pink => "pink",
            Color::Brown => "brown",
            Color::Black => "black",
            Color::Gray => "gray",
            Color::White => "white",
            Color::Hex(h) => h.as_str(),
        }
    }
}

/// The parameter contributed by an optional orientation filter.
pub open spec fn opt_orientation_param(o: Option<Orientation>) -> Seq<QueryParam> {
    match o {
        Some(x) => seq![("orientation"@, x.canonical())],
        None => Seq::empty(),
    }
}

/// The parameter contributed by an optional size filter.
pub open spec fn opt_size_param(z: Option<Size>) -> Seq<QueryParam> {
    match z {
        Some(x) => seq![("size"@, x.canonical())],
        None => Seq::empty(),
    }
}

/// The parameter contributed by an optional locale filter.
pub open spec fn opt_locale_param(l: Option<Locale>) -> Seq<QueryParam> {
    match l {
        Some(x) => seq![("locale"@, x.canonical())],
        None => Seq::empty(),
    }
}

/// The parameter contributed by an optional color filter; the value is
/// form-urlencoded, so a hex code's `#` travels as `%23`.
pub open spec fn opt_color_param(c: Option<Color>) -> Seq<QueryParam> {
    match c {
        Some(x) => seq![("color"@, form_encode(x.canonical()))],
        None => Seq::empty(),
    }
}

/// What the orientation filter contributes under each key.
pub proof fn lemma_params_opt_orientation(o: Option<Orientation>, k: Seq<char>)
    ensures
        o matches Some(x) ==> ("orientation"@ == k ==> params_with_key(opt_orientation_param(o), k)
            == seq![("orientation"@, x.canonical())]),
        o is None ==> params_with_key(opt_orientation_param(o), k) == Seq::<QueryParam>::empty(),
        "orientation"@ != k ==> params_with_key(opt_orientation_param(o), k) == Seq::<
            QueryParam,
        >::empty(),
{
    match o {
        Some(x) => {
            lemma_params_with_key_single("orientation"@, x.canonical(), k);
        },
        None => {
            lemma_params_with_key_empty(k);
        },
    }
}

/// What the size filter contributes under each key.
pub proof fn lemma_params_opt_size(z: Option<Size>, k: Seq<char>)
    ensures
        z matches Some(x) ==> ("size"@ == k ==> params_with_key(opt_size_param(z), k) == seq![("size"@, x.canonical())]),
        z is None ==> params_with_key(opt_size_param(z), k) == Seq::<QueryParam>::empty(),
        "size"@ != k ==> params_with_key(opt_size_param(z), k) == Seq::<QueryParam>::empty(),
{
    match z {
        Some(x) => {
            lemma_params_with_key_single("size"@, x.canonical(), k);
        },
        None => {
            lemma_params_with_key_empty(k);
        },
    }
}

/// What the locale filter contributes under each key.
pub proof fn lemma_params_opt_locale(l: Option<Locale>, k: Seq<char>)
    ensures
        l matches Some(x) ==> ("locale"@ == k ==> params_with_key(opt_locale_param(l), k) == seq![("locale"@, x.canonical())]),
        l is None ==> params_with_key(opt_locale_param(l), k) == Seq::<QueryParam>::empty(),
        "locale"@ != k ==> params_with_key(opt_locale_param(l), k) == Seq::<QueryParam>::empty(),
{
    match l {
        Some(x) => {
            lemma_params_with_key_single("locale"@, x.canonical(), k);
        },
        None => {
            lemma_params_with_key_empty(k);
        },
    }
}

/// What the color filter contributes under each key.
pub proof fn lemma_params_opt_color(c: Option<Color>, k: Seq<char>)
    ensures
        c matches Some(x) ==> ("color"@ == k ==> params_with_key(opt_color_param(c), k) == seq![("color"@, form_encode(x.canonical()))]),
        c is None ==> params_with_key(opt_color_param(c), k) == Seq::<QueryParam>::empty(),
        "color"@ != k ==> params_with_key(opt_color_param(c), k) == Seq::<QueryParam>::empty(),
{
    match c {
        Some(x) => {
            lemma_params_with_key_single("color"@, form_encode(x.canonical()), k);
        },
        None => {
            lemma_params_with_key_empty(k);
        },
    }
}

/// A photo-search request: a free-text query plus optional filters.
pub struct Search<'a> {
    pub query: &'a str,
    pub page: Option<usize>,
    pub per_page: Option<usize>,
    pub orientation: Option<Orientation>,
    pub size: Option<Size>,
    pub color: Option<Color>,
    pub locale: Option<Locale>,
}

impl<'a> Search<'a> {
    /// Creates a [`SearchBuilder`] for building URIs.
    pub fn builder() -> (r: SearchBuilder<'a>)
        ensures
            r.query@.len() == 0,
            r.page is None,
            r.per_page is None,
            r.orientation is None,
            r.size is None,
            r.color is None,
            r.locale is None,
    {
        SearchBuilder::new()
    }

    /// The query parameters this request renders, in order: the query text
    /// first (form-urlencoded), then each filter that is set.
    pub open spec fn spec_params(self) -> Seq<QueryParam> {
        seq![("query"@, form_encode(self.query@))] + opt_num_param(self.page, "page"@)
            + opt_num_param(self.per_page, "per_page"@) + opt_orientation_param(self.orientation)
            + opt_size_param(self.size) + opt_color_param(self.color) + opt_locale_param(
            self.locale,
        )
    }

    /// The exact URL this request renders to.
    pub open spec fn uri_spec(self) -> Seq<char> {
        "https://api.pexels.com/v1/search"@ + render_query(self.spec_params())
    }

    /// Renders the request to a fully qualified URL.
    #[verifier::rlimit(100)]
    #[verifier::spinoff_prover]
    pub fn create_uri(&self) -> (r: BuilderResult)
        ensures
            r matches Ok(u) && u@ == self.uri_spec(),
    {
        let mut url = String::from_str("https://api.pexels.com/v1/search");
        let mut started = false;
        let ghost base = "https://api.pexels.com/v1/search"@;
        let ghost mut ps: Seq<QueryParam> = Seq::empty();
        proof {
            assert(url@ =~= base + render_query(ps));
            assert(started == (ps.len() > 0));
        }
        let qv = form_encode_str(self.query);
        let ghost u_old = url@;
        append_param(&mut url, &mut started, "query", qv.as_str());
        proof {
            lemma_append_step(u_old, url@, base, ps, "query"@, form_encode(self.query@));
            ps = ps.push(("query"@, form_encode(self.query@)));
            assert(started == (ps.len() > 0));
            assert(ps =~= seq![("query"@, form_encode(self.query@))]);
        }
        if let Some(page) = self.page {
            let v = usize_to_string(page);
            let ghost u_old = url@;
            append_param(&mut url, &mut started, "page", v.as_str());
            proof {
                lemma_append_step(u_old, url@, base, ps, "page"@, dec_rep(page as nat));
                ps = ps.push(("page"@, dec_rep(page as nat)));
                assert(started == (ps.len() > 0));
            }
        }
        proof {
            assert(ps =~= seq![("query"@, form_encode(self.query@))] + opt_num_param(self.page, "page"@));
        }
        if let Some(per_page) = self.per_page {
            let v = usize_to_string(per_page);
            let ghost u_old = url@;
            append_param(&mut url, &mut started, "per_page", v.as_str());
            proof {
                lemma_append_step(u_old, url@, base, ps, "per_page"@, dec_rep(per_page as nat));
                ps = ps.push(("per_page"@, dec_rep(per_page as nat)));
                assert(started == (ps.len() > 0));
            }
        }
        proof {
            assert(ps =~= seq![("query"@, form_encode(self.query@))] + opt_num_param(self.page, "page"@) + opt_num_param(self.per_page, "per_page"@));
        }
        if let Some(o) = self.orientation {
            let ghost u_old = url@;
            append_param(&mut url, &mut started, "orientation", o.as_str());
            proof {
                lemma_append_step(u_old, url@, base, ps, "orientation"@, o.canonical());
                ps = ps.push(("orientation"@, o.canonical()));
                assert(started == (ps.len() > 0));
            }
        }
        proof {
            assert(ps =~= seq![("query"@, form_encode(self.query@))] + opt_num_param(self.page, "page"@) + opt_num_param(self.per_page, "per_page"@) + opt_orientation_param(self.orientation));
        }
        if let Some(z) = self.size {
            let ghost u_old = url@;
            append_param(&mut url, &mut started, "size", z.as_str());
            proof {
                lemma_append_step(u_old, url@, base, ps, "size"@, z.canonical());
                ps = ps.push(("size"@, z.canonical()));
                assert(started == (ps.len() > 0));
            }
        }
        proof {
            assert(ps =~= seq![("query"@, form_encode(self.query@))] + opt_num_param(self.page, "page"@) + opt_num_param(self.per_page, "per_page"@) + opt_orientation_param(self.orientation) + opt_size_param(self.size));
        }
        if let Some(c) = &self.color {
            let cv = form_encode_str(c.as_str());
            let ghost u_old = url@;
            append_param(&mut url, &mut started, "color", cv.as_str());
            proof {
                lemma_append_step(u_old, url@, base, ps, "color"@, form_encode(c.canonical()));
                ps = ps.push(("color"@, form_encode(c.canonical())));
                assert(started == (ps.len() > 0));
            }
        }
        proof {
            assert(ps =~= seq![("query"@, form_encode(self.query@))] + opt_num_param(self.page, "page"@) + opt_num_param(self.per_page, "per_page"@) + opt_orientation_param(self.orientation) + opt_size_param(self.size) + opt_color_param(self.color));
        }
        if let Some(l) = self.locale {
            let ghost u_old = url@;
            append_param(&mut url, &mut started, "locale", l.as_str());
            proof {
                lemma_append_step(u_old, url@, base, ps, "locale"@, l.canonical());
                ps = ps.push(("locale"@, l.canonical()));
                assert(started == (ps.len() > 0));
            }
        }
        proof {
            assert(ps =~= seq![("query"@, form_encode(self.query@))] + opt_num_param(self.page, "page"@) + opt_num_param(self.per_page, "per_page"@) + opt_orientation_param(self.orientation) + opt_size_param(self.size) + opt_color_param(self.color) + opt_locale_param(self.locale));
        }
        proof {
            assert(ps =~= self.spec_params());
        }
        Ok(url)
    }

    /// Maps the HTTP status and body of the response to this request to the
    /// typed result: the decoded page on 200, a typed error otherwise.
    pub fn decode_response(&self, status: u16, body: &str) -> (r: Result<PhotosResponse, PexelsError>)
        ensures
            status == 200 ==> decode_200_spec(
                body@,
                (|n: JsonNode| photos_response_node_ok(n)),
                (|n: JsonNode, v: PhotosResponse| photos_response_node_matches(n, v)),
                r,
            ),
            status != 200 ==> (r matches Err(e) && error_status_spec(status, "Search photos"@, e)),
    {
        if status == 200 {
            match parse_json(body) {
                Err(m) => Err(PexelsError::JsonParseError(m)),
                Ok(node) => match photos_response_from_json(&node) {
                    Some(v) => Ok(v),
                    None => Err(
                        PexelsError::JsonParseError(
                            String::from_str("response body does not match the expected shape"),
                        ),
                    ),
                },
            }
        } else {
            Err(error_for_status(status, "Search photos"))
        }
    }
}

/// Builder for [`Search`].
pub struct SearchBuilder<'a> {
    pub query: &'a str,
    pub page: Option<usize>,
    pub per_page: Option<usize>,
    pub orientation: Option<Orientation>,
    pub size: Option<Size>,
    pub color: Option<Color>,
    pub locale: Option<Locale>,
}

impl<'a> SearchBuilder<'a> {
    pub fn new() -> (r: Self)
        ensures
            r.query@.len() == 0,
            r.page is None,
            r.per_page is None,
            r.orientation is None,
            r.size is None,
            r.color is None,
            r.locale is None,
    {
        proof {
            reveal_strlit("");
        }
        Self {
            query: "",
            page: None,
            per_page: None,
            orientation: None,
            size: None,
            color: None,
            locale: None,
        }
    }

    /// The free-text search query.
    pub fn query(self, query: &'a str) -> (r: Self)
        ensures
            r == (Self { query, ..self }),
    {
        Self { query, ..self }
    }

    /// The page number you are requesting.
    pub fn page(self, page: usize) -> (r: Self)
        ensures
            r == (Self { page: Some(page), ..self }),
    {
        Self { page: Some(page), ..self }
    }

    /// The number of results you are requesting per page.
    pub fn per_page(self, per_page: usize) -> (r: Self)
        ensures
            r == (Self { per_page: Some(per_page), ..self }),
    {
        Self { per_page: Some(per_page), ..self }
    }

    /// The desired photo orientation.
    pub fn orientation(self, orientation: Orientation) -> (r: Self)
        ensures
            r == (Self { orientation: Some(orientation), ..self }),
    {
        Self { orientation: Some(orientation), ..self }
    }

    /// The minimum photo size.
    pub fn size(self, size: Size) -> (r: Self)
        ensures
            r == (Self { size: Some(size), ..self }),
    {
        Self { size: Some(size), ..self }
    }

    /// The desired photo color.
    pub fn color(self, color: Color) -> (r: Self)
        ensures
            r == (Self { color: Some(color), ..self }),
    {
        Self { color: Some(color), ..self }
    }

    /// The locale of the search query.
    pub fn locale(self, locale: Locale) -> (r: Self)
        ensures
            r == (Self { locale: Some(locale), ..self }),
    {
        Self { locale: Some(locale), ..self }
    }

    /// Creates a [`Search`] request from the builder.
    pub fn build(self) -> (r: Search<'a>)
        ensures
            r.query == self.query,
            r.page == self.page,
            r.per_page == self.per_page,
            r.orientation == self.orientation,
            r.size == self.size,
            r.color == self.color,
            r.locale == self.locale,
    {
        Search {
            query: self.query,
            page: self.page,
            per_page: self.per_page,
            orientation: self.orientation,
            size: self.size,
            color: self.color,
            locale: self.locale,
        }
    }
}

impl<'a> Default for SearchBuilder<'a> {
    fn default() -> (r: Self)
        ensures
            r.query@.len() == 0,
            r.page is None,
            r.per_page is None,
            r.orientation is None,
            r.size is None,
            r.color is None,
            r.locale is None,
    {
        Self::new()
    }
}

/// The query text always renders as exactly one `query` parameter, and each
/// unset filter contributes no key at all.
/// The query text always renders as exactly one `query` parameter, and each
/// unset filter contributes no key at all; a set filter contributes exactly
/// one parameter in canonical (encoded) form.
pub proof fn lemma_search_param_occurrences<'a>(f: Search<'a>)
    ensures
        key_count(f.spec_params(), "query"@) == 1,
        params_with_key(f.spec_params(), "query"@) == seq![("query"@, form_encode(f.query@))],
        key_count(f.spec_params(), "page"@) == (if f.page is Some {
            1nat
        } else {
            0nat
        }),
        key_count(f.spec_params(), "per_page"@) == (if f.per_page is Some {
            1nat
        } else {
            0nat
        }),
        key_count(f.spec_params(), "orientation"@) == (if f.orientation is Some {
            1nat
        } else {
            0nat
        }),
        key_count(f.spec_params(), "size"@) == (if f.size is Some {
            1nat
        } else {
            0nat
        }),
        key_count(f.spec_params(), "color"@) == (if f.color is Some {
            1nat
        } else {
            0nat
        }),
        key_count(f.spec_params(), "locale"@) == (if f.locale is Some {
            1nat
        } else {
            0nat
        }),
        f.page matches Some(n) ==> params_with_key(f.spec_params(), "page"@) == seq![("page"@, dec_rep(n as nat))],
        f.per_page matches Some(n) ==> params_with_key(f.spec_params(), "per_page"@) == seq![("per_page"@, dec_rep(n as nat))],
        f.orientation matches Some(n) ==> params_with_key(f.spec_params(), "orientation"@) == seq![("orientation"@, n.canonical())],
        f.size matches Some(n) ==> params_with_key(f.spec_params(), "size"@) == seq![("size"@, n.canonical())],
        f.color matches Some(n) ==> params_with_key(f.spec_params(), "color"@) == seq![("color"@, form_encode(n.canonical()))],
        f.locale matches Some(n) ==> params_with_key(f.spec_params(), "locale"@) == seq![("locale"@, n.canonical())],
{
    lemma_search_keys_distinct();
    lemma_params_with_key_concat(
        seq![("query"@, form_encode(f.query@))] + opt_num_param(f.page, "page"@) + opt_num_param(f.per_page, "per_page"@) + opt_orientation_param(f.orientation) + opt_size_param(f.size) + opt_color_param(f.color),
        opt_locale_param(f.locale),
        "query"@,
    );
    lemma_params_with_key_concat(
        seq![("query"@, form_encode(f.query@))] + opt_num_param(f.page, "page"@) + opt_num_param(f.per_page, "per_page"@) + opt_orientation_param(f.orientation) + opt_size_param(f.size),
        opt_color_param(f.color),
        "query"@,
    );
    lemma_params_with_key_concat(
        seq![("query"@, form_encode(f.query@))] + opt_num_param(f.page, "page"@) + opt_num_param(f.per_page, "per_page"@) + opt_orientation_param(f.orientation),
        opt_size_param(f.size),
        "query"@,
    );
    lemma_params_with_key_concat(
        seq![("query"@, form_encode(f.query@))] + opt_num_param(f.page, "page"@) + opt_num_param(f.per_page, "per_page"@),
        opt_orientation_param(f.orientation),
        "query"@,
    );
    lemma_params_with_key_concat(
        seq![("query"@, form_encode(f.query@))] + opt_num_param(f.page, "page"@),
        opt_num_param(f.per_page, "per_page"@),
        "query"@,
    );
    lemma_params_with_key_concat(
        seq![("query"@, form_encode(f.query@))],
        opt_num_param(f.page, "page"@),
        "query"@,
    );
    lemma_params_with_key_single("query"@, form_encode(f.query@), "query"@);
    lemma_params_with_key_opt_num(f.page, "page"@, "query"@);
    lemma_params_with_key_opt_num(f.per_page, "per_page"@, "query"@);
    lemma_params_opt_orientation(f.orientation, "query"@);
    lemma_params_opt_size(f.size, "query"@);
    lemma_params_opt_color(f.color, "query"@);
    lemma_params_opt_locale(f.locale, "query"@);
    lemma_params_with_key_concat(
        seq![("query"@, form_encode(f.query@))] + opt_num_param(f.page, "page"@) + opt_num_param(f.per_page, "per_page"@) + opt_orientation_param(f.orientation) + opt_size_param(f.size) + opt_color_param(f.color),
        opt_locale_param(f.locale),
        "page"@,
    );
    lemma_params_with_key_concat(
        seq![("query"@, form_encode(f.query@))] + opt_num_param(f.page, "page"@) + opt_num_param(f.per_page, "per_page"@) + opt_orientation_param(f.orientation) + opt_size_param(f.size),
        opt_color_param(f.color),
        "page"@,
    );
    lemma_params_with_key_concat(
        seq![("query"@, form_encode(f.query@))] + opt_num_param(f.page, "page"@) + opt_num_param(f.per_page, "per_page"@) + opt_orientation_param(f.orientation),
        opt_size_param(f.size),
        "page"@,
    );
    lemma_params_with_key_concat(
        seq![("query"@, form_encode(f.query@))] + opt_num_param(f.page, "page"@) + opt_num_param(f.per_page, "per_page"@),
        opt_orientation_param(f.orientation),
        "page"@,
    );
    lemma_params_with_key_concat(
        seq![("query"@, form_encode(f.query@))] + opt_num_param(f.page, "page"@),
        opt_num_param(f.per_page, "per_page"@),
        "page"@,
    );
    lemma_params_with_key_concat(
        seq![("query"@, form_encode(f.query@))],
        opt_num_param(f.page, "page"@),
        "page"@,
    );
    lemma_params_with_key_single("query"@, form_encode(f.query@), "page"@);
    lemma_params_with_key_opt_num(f.page, "page"@, "page"@);
    lemma_params_with_key_opt_num(f.per_page, "per_page"@, "page"@);
    lemma_params_opt_orientation(f.orientation, "page"@);
    lemma_params_opt_size(f.size, "page"@);
    lemma_params_opt_color(f.color, "page"@);
    lemma_params_opt_locale(f.locale, "page"@);
    lemma_params_with_key_concat(
        seq![("query"@, form_encode(f.query@))] + opt_num_param(f.page, "page"@) + opt_num_param(f.per_page, "per_page"@) + opt_orientation_param(f.orientation) + opt_size_param(f.size) + opt_color_param(f.color),
        opt_locale_param(f.locale),
        "per_page"@,
    );
    lemma_params_with_key_concat(
        seq![("query"@, form_encode(f.query@))] + opt_num_param(f.page, "page"@) + opt_num_param(f.per_page, "per_page"@) + opt_orientation_param(f.orientation) + opt_size_param(f.size),
        opt_color_param(f.color),
        "per_page"@,
    );
    lemma_params_with_key_concat(
        seq![("query"@, form_encode(f.query@))] + opt_num_param(f.page, "page"@) + opt_num_param(f.per_page, "per_page"@) + opt_orientation_param(f.orientation),
        opt_size_param(f.size),
        "per_page"@,
    );
    lemma_params_with_key_concat(
        seq![("query"@, form_encode(f.query@))] + opt_num_param(f.page, "page"@) + opt_num_param(f.per_page, "per_page"@),
        opt_orientation_param(f.orientation),
        "per_page"@,
    );
    lemma_params_with_key_concat(
        seq![("query"@, form_encode(f.query@))] + opt_num_param(f.page, "page"@),
        opt_num_param(f.per_page, "per_page"@),
        "per_page"@,
    );
    lemma_params_with_key_concat(
        seq![("query"@, form_encode(f.query@))],
        opt_num_param(f.page, "page"@),
        "per_page"@,
    );
    lemma_params_with_key_single("query"@, form_encode(f.query@), "per_page"@);
    lemma_params_with_key_opt_num(f.page, "page"@, "per_page"@);
    lemma_params_with_key_opt_num(f.per_page, "per_page"@, "per_page"@);
    lemma_params_opt_orientation(f.orientation, "per_page"@);
    lemma_params_opt_size(f.size, "per_page"@);
    lemma_params_opt_color(f.color, "per_page"@);
    lemma_params_opt_locale(f.locale, "per_page"@);
    lemma_params_with_key_concat(
        seq![("query"@, form_encode(f.query@))] + opt_num_param(f.page, "page"@) + opt_num_param(f.per_page, "per_page"@) + opt_orientation_param(f.orientation) + opt_size_param(f.size) + opt_color_param(f.color),
        opt_locale_param(f.locale),
        "orientation"@,
    );
    lemma_params_with_key_concat(
        seq![("query"@, form_encode(f.query@))] + opt_num_param(f.page, "page"@) + opt_num_param(f.per_page, "per_page"@) + opt_orientation_param(f.orientation) + opt_size_param(f.size),
        opt_color_param(f.color),
        "orientation"@,
    );
    lemma_params_with_key_concat(
        seq![("query"@, form_encode(f.query@))] + opt_num_param(f.page, "page"@) + opt_num_param(f.per_page, "per_page"@) + opt_orientation_param(f.orientation),
        opt_size_param(f.size),
        "orientation"@,
    );
    lemma_params_with_key_concat(
        seq![("query"@, form_encode(f.query@))] + opt_num_param(f.page, "page"@) + opt_num_param(f.per_page, "per_page"@),
        opt_orientation_param(f.orientation),
        "orientation"@,
    );
    lemma_params_with_key_concat(
        seq![("query"@, form_encode(f.query@))] + opt_num_param(f.page, "page"@),
        opt_num_param(f.per_page, "per_page"@),
        "orientation"@,
    );
    lemma_params_with_key_concat(
        seq![("query"@, form_encode(f.query@))],
        opt_num_param(f.page, "page"@),
        "orientation"@,
    );
    lemma_params_with_key_single("query"@, form_encode(f.query@), "orientation"@);
    lemma_params_with_key_opt_num(f.page, "page"@, "orientation"@);
    lemma_params_with_key_opt_num(f.per_page, "per_page"@, "orientation"@);
    lemma_params_opt_orientation(f.orientation, "orientation"@);
    lemma_params_opt_size(f.size, "orientation"@);
    lemma_params_opt_color(f.color, "orientation"@);
    lemma_params_opt_locale(f.locale, "orientation"@);
    lemma_params_with_key_concat(
        seq![("query"@, form_encode(f.query@))] + opt_num_param(f.page, "page"@) + opt_num_param(f.per_page, "per_page"@) + opt_orientation_param(f.orientation) + opt_size_param(f.size) + opt_color_param(f.color),
        opt_locale_param(f.locale),
        "size"@,
    );
    lemma_params_with_key_concat(
        seq![("query"@, form_encode(f.query@))] + opt_num_param(f.page, "page"@) + opt_num_param(f.per_page, "per_page"@) + opt_orientation_param(f.orientation) + opt_size_param(f.size),
        opt_color_param(f.color),
        "size"@,
    );
    lemma_params_with_key_concat(
        seq![("query"@, form_encode(f.query@))] + opt_num_param(f.page, "page"@) + opt_num_param(f.per_page, "per_page"@) + opt_orientation_param(f.orientation),
        opt_size_param(f.size),
        "size"@,
    );
    lemma_params_with_key_concat(
        seq![("query"@, form_encode(f.query@))] + opt_num_param(f.page, "page"@) + opt_num_param(f.per_page, "per_page"@),
        opt_orientation_param(f.orientation),
        "size"@,
    );
    lemma_params_with_key_concat(
        seq![("query"@, form_encode(f.query@))] + opt_num_param(f.page, "page"@),
        opt_num_param(f.per_page, "per_page"@),
        "size"@,
    );
    lemma_params_with_key_concat(
        seq![("query"@, form_encode(f.query@))],
        opt_num_param(f.page, "page"@),
        "size"@,
    );
    lemma_params_with_key_single("query"@, form_encode(f.query@), "size"@);
    lemma_params_with_key_opt_num(f.page, "page"@, "size"@);
    lemma_params_with_key_opt_num(f.per_page, "per_page"@, "size"@);
    lemma_params_opt_orientation(f.orientation, "size"@);
    lemma_params_opt_size(f.size, "size"@);
    lemma_params_opt_color(f.color, "size"@);
    lemma_params_opt_locale(f.locale, "size"@);
    lemma_params_with_key_concat(
        seq![("query"@, form_encode(f.query@))] + opt_num_param(f.page, "page"@) + opt_num_param(f.per_page, "per_page"@) + opt_orientation_param(f.orientation) + opt_size_param(f.size) + opt_color_param(f.color),
        opt_locale_param(f.locale),
        "color"@,
    );
    lemma_params_with_key_concat(
        seq![("query"@, form_encode(f.query@))] + opt_num_param(f.page, "page"@) + opt_num_param(f.per_page, "per_page"@) + opt_orientation_param(f.orientation) + opt_size_param(f.size),
        opt_color_param(f.color),
        "color"@,
    );
    lemma_params_with_key_concat(
        seq![("query"@, form_encode(f.query@))] + opt_num_param(f.page, "page"@) + opt_num_param(f.per_page, "per_page"@) + opt_orientation_param(f.orientation),
        opt_size_param(f.size),
        "color"@,
    );
    lemma_params_with_key_concat(
        seq![("query"@, form_encode(f.query@))] + opt_num_param(f.page, "page"@) + opt_num_param(f.per_page, "per_page"@),
        opt_orientation_param(f.orientation),
        "color"@,
    );
    lemma_params_with_key_concat(
        seq![("query"@, form_encode(f.query@))] + opt_num_param(f.page, "page"@),
        opt_num_param(f.per_page, "per_page"@),
        "color"@,
    );
    lemma_params_with_key_concat(
        seq![("query"@, form_encode(f.query@))],
        opt_num_param(f.page, "page"@),
        "color"@,
    );
    lemma_params_with_key_single("query"@, form_encode(f.query@), "color"@);
    lemma_params_with_key_opt_num(f.page, "page"@, "color"@);
    lemma_params_with_key_opt_num(f.per_page, "per_page"@, "color"@);
    lemma_params_opt_orientation(f.orientation, "color"@);
    lemma_params_opt_size(f.size, "color"@);
    lemma_params_opt_color(f.color, "color"@);
    lemma_params_opt_locale(f.locale, "color"@);
    lemma_params_with_key_concat(
        seq![("query"@, form_encode(f.query@))] + opt_num_param(f.page, "page"@) + opt_num_param(f.per_page, "per_page"@) + opt_orientation_param(f.orientation) + opt_size_param(f.size) + opt_color_param(f.color),
        opt_locale_param(f.locale),
        "locale"@,
    );
    lemma_params_with_key_concat(
        seq![("query"@, form_encode(f.query@))] + opt_num_param(f.page, "page"@) + opt_num_param(f.per_page, "per_page"@) + opt_orientation_param(f.orientation) + opt_size_param(f.size),
        opt_color_param(f.color),
        "locale"@,
    );
    lemma_params_with_key_concat(
        seq![("query"@, form_encode(f.query@))] + opt_num_param(f.page, "page"@) + opt_num_param(f.per_page, "per_page"@) + opt_orientation_param(f.orientation),
        opt_size_param(f.size),
        "locale"@,
    );
    lemma_params_with_key_concat(
        seq![("query"@, form_encode(f.query@))] + opt_num_param(f.page, "page"@) + opt_num_param(f.per_page, "per_page"@),
        opt_orientation_param(f.orientation),
        "locale"@,
    );
    lemma_params_with_key_concat(
        seq![("query"@, form_encode(f.query@))] + opt_num_param(f.page, "page"@),
        opt_num_param(f.per_page, "per_page"@),
        "locale"@,
    );
    lemma_params_with_key_concat(
        seq![("query"@, form_encode(f.query@))],
        opt_num_param(f.page, "page"@),
        "locale"@,
    );
    lemma_params_with_key_single("query"@, form_encode(f.query@), "locale"@);
    lemma_params_with_key_opt_num(f.page, "page"@, "locale"@);
    lemma_params_with_key_opt_num(f.per_page, "per_page"@, "locale"@);
    lemma_params_opt_orientation(f.orientation, "locale"@);
    lemma_params_opt_size(f.size, "locale"@);
    lemma_params_opt_color(f.color, "locale"@);
    lemma_params_opt_locale(f.locale, "locale"@);
    assert(params_with_key(f.spec_params(), "query"@) =~= seq![("query"@, form_encode(
        f.query@,
    ))]);
    match f.page {
        Some(n) => {
            assert(params_with_key(f.spec_params(), "page"@) =~= seq![("page"@, dec_rep(n as nat))]);
        },
        None => {
        },
    }
    match f.per_page {
        Some(n) => {
            assert(params_with_key(f.spec_params(), "per_page"@) =~= seq![("per_page"@, dec_rep(n as nat))]);
        },
        None => {
        },
    }
    match f.orientation {
        Some(n) => {
            assert(params_with_key(f.spec_params(), "orientation"@) =~= seq![("orientation"@, n.canonical())]);
        },
        None => {
        },
    }
    match f.size {
        Some(n) => {
            assert(params_with_key(f.spec_params(), "size"@) =~= seq![("size"@, n.canonical())]);
        },
        None => {
        },
    }
    match f.color {
        Some(n) => {
            assert(params_with_key(f.spec_params(), "color"@) =~= seq![("color"@, form_encode(n.canonical()))]);
        },
        None => {
        },
    }
    match f.locale {
        Some(n) => {
            assert(params_with_key(f.spec_params(), "locale"@) =~= seq![("locale"@, n.canonical())]);
        },
        None => {
        },
    }
}

proof fn lemma_search_keys_distinct()
    ensures
        "query"@ != "page"@,
        "query"@ != "per_page"@,
        "query"@ != "orientation"@,
        "query"@ != "size"@,
        "query"@ != "color"@,
        "query"@ != "locale"@,
        "page"@ != "per_page"@,
        "page"@ != "orientation"@,
        "page"@ != "size"@,
        "page"@ != "color"@,
        "page"@ != "locale"@,
        "per_page"@ != "orientation"@,
        "per_page"@ != "size"@,
        "per_page"@ != "color"@,
        "per_page"@ != "locale"@,
        "orientation"@ != "size"@,
        "orientation"@ != "color"@,
        "orientation"@ != "locale"@,
        "size"@ != "color"@,
        "size"@ != "locale"@,
        "color"@ != "locale"@,
{
    reveal_strlit("query");
    reveal_strlit("page");
    reveal_strlit("per_page");
    reveal_strlit("orientation");
    reveal_strlit("size");
    reveal_strlit("color");
    reveal_strlit("locale");
    assert(("query"@).len() == 5 && ("page"@).len() == 4 && ("per_page"@).len() == 8 && (
    "orientation"@).len() == 11 && ("size"@).len() == 4 && ("color"@).len() == 5 && (
    "locale"@).len() == 6);
    assert(("query"@)[0] == 'q' && ("color"@)[0] == 'c');
    assert(("page"@)[0] == 'p' && ("size"@)[0] == 's');
}

/// Rendering is deterministic: two requests with the same fields render the
/// same URL.
pub proof fn lemma_search_render_deterministic<'a, 'b>(a: Search<'a>, b: Search<'b>)
    requires
        a.query@ == b.query@,
        a.page == b.page,
        a.per_page == b.per_page,
        a.orientation == b.orientation,
        a.size == b.size,
        a.color == b.color,
        a.locale == b.locale,
    ensures
        a.uri_spec() == b.uri_spec(),
{
}

} // verus!
