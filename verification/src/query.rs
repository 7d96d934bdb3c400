//! The query-string layer shared by every URI builder: a parameter list is a
//! sequence of key/value pairs (values already in their encoded form), and
//! rendering joins them as `?k1=v1&k2=v2...`, producing nothing at all for an
//! empty list.
use vstd::prelude::*;

use crate::strutil::dec_rep;
use vstd::string::StringExecFns;

verus! {

/// One rendered query parameter: its key and its already-encoded value.
pub type QueryParam = (Seq<char>, Seq<char>);

/// `key=value` for one parameter.
pub open spec fn qitem(p: QueryParam) -> Seq<char> {
    p.0 + "="@ + p.1
}

/// `&key=value` for each parameter after the first.
pub open spec fn qtail(ps: Seq<QueryParam>) -> Seq<char>
    decreases ps.len(),
{
    if ps.len() == 0 {
        Seq::empty()
    } else {
        "&"@ + qitem(ps[0]) + qtail(ps.drop_first())
    }
}

/// The whole query string: empty for no parameters, else `?` followed by the
/// parameters, in order, joined with `&`.
pub open spec fn render_query(ps: Seq<QueryParam>) -> Seq<char> {
    if ps.len() == 0 {
        Seq::empty()
    } else {
        "?"@ + qitem(ps[0]) + qtail(ps.drop_first())
    }
}

proof fn lemma_qtail_push(ps: Seq<QueryParam>, p: QueryParam)
    ensures
        qtail(ps.push(p)) == qtail(ps) + "&"@ + qitem(p),
    decreases ps.len(),
{
    if ps.len() == 0 {
        assert(ps.push(p)[0] == p);
        assert(ps.push(p).drop_first() =~= Seq::<QueryParam>::empty());
        assert(qtail(ps.push(p)) == "&"@ + qitem(p) + qtail(Seq::<QueryParam>::empty()));
        assert(qtail(ps.push(p)) =~= "&"@ + qitem(p));
        assert(qtail(ps.push(p)) =~= qtail(ps) + "&"@ + qitem(p));
    } else {
        assert(ps.push(p)[0] == ps[0]);
        assert(ps.push(p).drop_first() =~= ps.drop_first().push(p));
        lemma_qtail_push(ps.drop_first(), p);
        assert(qtail(ps.push(p)) == "&"@ + qitem(ps[0]) + (qtail(ps.drop_first()) + "&"@ + qitem(
            p,
        )));
        assert(qtail(ps.push(p)) =~= qtail(ps) + "&"@ + qitem(p));
    }
}

/// Appending a parameter extends the rendered string by `?key=value` when
/// the list was empty, else by `&key=value`.
pub proof fn lemma_render_query_push(ps: Seq<QueryParam>, p: QueryParam)
    ensures
        render_query(ps.push(p)) == render_query(ps) + (if ps.len() == 0 {
            "?"@
        } else {
            "&"@
        }) + qitem(p),
{
    if ps.len() == 0 {
        assert(ps.push(p).drop_first() =~= Seq::<QueryParam>::empty());
        assert(render_query(ps.push(p)) =~= render_query(ps) + "?"@ + qitem(p));
    } else {
        assert(ps.push(p).drop_first() =~= ps.drop_first().push(p));
        lemma_qtail_push(ps.drop_first(), p);
        assert(render_query(ps.push(p)) =~= render_query(ps) + "&"@ + qitem(p));
    }
}

/// One appended `key=value` step: if a URL equals the base plus the
/// rendering of the parameters so far, then after appending the separator,
/// key, `=`, and value, it equals the base plus the rendering of the list
/// with that parameter at the end.
pub proof fn lemma_append_step(
    u_old: Seq<char>,
    u_new: Seq<char>,
    base: Seq<char>,
    ps: Seq<QueryParam>,
    key: Seq<char>,
    value: Seq<char>,
)
    requires
        u_old == base + render_query(ps),
        u_new == u_old + (if ps.len() == 0 {
            "?"@
        } else {
            "&"@
        }) + key + "="@ + value,
    ensures
        u_new == base + render_query(ps.push((key, value))),
{
    lemma_render_query_push(ps, (key, value));
    assert(u_new =~= base + render_query(ps.push((key, value))));
}

/// The parameter list contributed by one optional numeric field.
pub open spec fn opt_num_param(v: Option<usize>, key: Seq<char>) -> Seq<QueryParam> {
    match v {
        Some(n) => seq![(key, dec_rep(n as nat))],
        None => Seq::empty(),
    }
}

/// The parameters of the list that carry the given key, in order.
pub open spec fn params_with_key(ps: Seq<QueryParam>, key: Seq<char>) -> Seq<QueryParam> {
    ps.filter(|p: QueryParam| p.0 == key)
}

/// How many parameters of the list carry the given key.
pub open spec fn key_count(ps: Seq<QueryParam>, key: Seq<char>) -> nat {
    params_with_key(ps, key).len()
}

/// Selecting a key from a concatenation selects from each part.
pub proof fn lemma_params_with_key_concat(a: Seq<QueryParam>, b: Seq<QueryParam>, k: Seq<char>)
    ensures
        params_with_key(a + b, k) == params_with_key(a, k) + params_with_key(b, k),
{
    Seq::filter_distributes_over_add(a, b, |p: QueryParam| p.0 == k);
}

/// An empty list holds no key.
pub proof fn lemma_params_with_key_empty(k: Seq<char>)
    ensures
        params_with_key(Seq::empty(), k) == Seq::<QueryParam>::empty(),
{
    reveal_with_fuel(Seq::<QueryParam>::filter, 2);
}

/// A one-parameter list holds its own key once and any other key not at
/// all.
pub proof fn lemma_params_with_key_single(key: Seq<char>, value: Seq<char>, k: Seq<char>)
    ensures
        key == k ==> params_with_key(seq![(key, value)], k) == seq![(key, value)],
        key != k ==> params_with_key(seq![(key, value)], k) == Seq::<QueryParam>::empty(),
{
    reveal_with_fuel(Seq::<QueryParam>::filter, 2);
    assert(seq![(key, value)].drop_last() =~= Seq::<QueryParam>::empty());
    assert(seq![(key, value)].last() == (key, value));
    if key == k {
        assert(params_with_key(seq![(key, value)], k) =~= seq![(key, value)]);
    } else {
        assert(params_with_key(seq![(key, value)], k) =~= Seq::<QueryParam>::empty());
    }
}

/// What one optional numeric field contributes under each key: its own key
/// exactly once when set, and nothing otherwise.
pub proof fn lemma_params_with_key_opt_num(v: Option<usize>, key: Seq<char>, k: Seq<char>)
    ensures
        v matches Some(n) ==> (key == k ==> params_with_key(opt_num_param(v, key), k) == seq![(key, dec_rep(n as nat))]),
        v is None ==> params_with_key(opt_num_param(v, key), k) == Seq::<QueryParam>::empty(),
        key != k ==> params_with_key(opt_num_param(v, key), k) == Seq::<QueryParam>::empty(),
{
    match v {
        Some(n) => {
            lemma_params_with_key_single(key, dec_rep(n as nat), k);
        },
        None => {
            lemma_params_with_key_empty(k);
        },
    }
}

/// Appends one `key=value` parameter to a URL under construction, prefixed
/// with `?` for the first parameter and `&` for every later one.
pub fn append_param(url: &mut String, started: &mut bool, key: &str, value: &str)
    ensures
        final (url)@ == old(url)@ + (if *old(started) {
            "&"@
        } else {
            "?"@
        }) + key@ + "="@ + value@,
        *final (started),
{
    if *started {
        url.append("&");
    } else {
        url.append("?");
    }
    url.append(key);
    url.append("=");
    url.append(value);
    *started = true;
}

} // verus!
