//! The JSON layer of the response mapping: a plain tree of JSON values, a
//! trusted parser over it, and verified field accessors that the response
//! decoders build on.
//!
//! Parsing itself is delegated to `serde_json`; everything the library does
//! with a parsed body — field lookup, number and string extraction, shape
//! checking — is verified here over [`JsonNode`].
use vstd::prelude::*;

use crate::strutil::{parse_u32, parse_u32_spec};

verus! {

/// A parsed JSON document as plain values.
///
/// Numbers are carried as their decimal rendering, since this library's
/// data model only ever reads integers (and keeps frame rates as text);
/// object members are carried in the order the parser hands them out, with
/// lookups taking the first match.
#[derive(Debug)]
pub enum JsonNode {
    Null,
    Bool(bool),
    Num(String),
    Str(String),
    Arr(Vec<JsonNode>),
    Obj(Vec<(String, JsonNode)>),
}

/// Declares `serde_json::Value` so that the trusted conversion below can
/// take it as a parameter; the library never looks inside a `Value`.
#[verifier::external_type_specification]
#[verifier::external_body]
pub struct ExValue(serde_json::Value);

/// Relies on matching `serde_json::Value`'s variants one for one; numbers
/// are carried over as their canonical decimal rendering.
#[verifier::external_body]
fn value_to_node(v: &serde_json::Value) -> JsonNode {
    match v {
        serde_json::Value::Null => JsonNode::Null,
        serde_json::Value::Bool(b) => JsonNode::Bool(*b),
        serde_json::Value::Number(n) => JsonNode::Num(n.to_string()),
        serde_json::Value::String(s) => JsonNode::Str(s.clone()),
        serde_json::Value::Array(a) => JsonNode::Arr(a.iter().map(value_to_node).collect()),
        serde_json::Value::Object(m) => JsonNode::Obj(
            m.iter().map(|(k, x)| (k.clone(), value_to_node(x))).collect(),
        ),
    }
}

/// What parsing a JSON document yields: the parsed tree, or the parser's
/// error message.  The result depends on the input text alone.
pub uninterp spec fn json_of(s: Seq<char>) -> Result<JsonNode, String>;

/// Relies on `serde_json::from_str::<Value>`: parses the text as one JSON
/// document, deterministically, yielding an error message on malformed
/// input.
#[verifier::external_body]
pub fn parse_json(s: &str) -> (r: Result<JsonNode, String>)
    ensures
        r == json_of(s@),
{
    match serde_json::from_str::<serde_json::Value>(s) {
        Ok(v) => Ok(value_to_node(&v)),
        Err(e) => Err(e.to_string()),
    }
}

/// The first member of the object with the given key, if any.
pub open spec fn obj_get(fs: Seq<(String, JsonNode)>, key: Seq<char>) -> Option<JsonNode>
    decreases fs.len(),
{
    if fs.len() == 0 {
        None
    } else if fs[0].0@ == key {
        Some(fs[0].1)
    } else {
        obj_get(fs.drop_first(), key)
    }
}

/// Looks up the first member with the given key.
pub fn obj_get_node<'a>(fields: &'a Vec<(String, JsonNode)>, key: &str) -> (r: Option<
    &'a JsonNode,
>)
    ensures
        r is Some <==> obj_get(fields@, key@) is Some,
        r matches Some(x) ==> Some(*x) == obj_get(fields@, key@),
{
    let n = fields.len();
    let mut i: usize = 0;
    proof {
        assert(fields@.skip(0) =~= fields@);
    }
    while i < n
        invariant
            i <= n,
            n == fields@.len(),
            obj_get(fields@, key@) == obj_get(fields@.skip(i as int), key@),
        decreases n - i,
    {
        proof {
            assert(fields@.skip(i as int)[0] == fields@[i as int]);
            assert(fields@.skip(i as int).drop_first() =~= fields@.skip(i + 1));
        }
        if crate::strutil::str_eq(fields[i].0.as_str(), key) {
            return Some(&fields[i].1);
        }
        i += 1;
    }
    proof {
        assert(fields@.skip(n as int) =~= Seq::<(String, JsonNode)>::empty());
    }
    None
}

/// The value of an unsigned 32-bit number member: present, a number, and in
/// range.
pub open spec fn get_u32(fs: Seq<(String, JsonNode)>, key: Seq<char>) -> Option<u32> {
    match obj_get(fs, key) {
        Some(JsonNode::Num(t)) => parse_u32_spec(t@),
        _ => None,
    }
}

pub fn get_u32_field(fields: &Vec<(String, JsonNode)>, key: &str) -> (r: Option<u32>)
    ensures
        r == get_u32(fields@, key@),
{
    match obj_get_node(fields, key) {
        Some(JsonNode::Num(t)) => parse_u32(t.as_str()),
        _ => None,
    }
}

/// The value of a required string member.
pub open spec fn get_string(fs: Seq<(String, JsonNode)>, key: Seq<char>) -> Option<String> {
    match obj_get(fs, key) {
        Some(JsonNode::Str(s)) => Some(s),
        _ => None,
    }
}

pub fn get_string_field(fields: &Vec<(String, JsonNode)>, key: &str) -> (r: Option<String>)
    ensures
        r == get_string(fields@, key@),
{
    match obj_get_node(fields, key) {
        Some(JsonNode::Str(s)) => Some(s.clone()),
        _ => None,
    }
}

/// The value of an optional string member: an absent member and a JSON
/// `null` both stand for no value; anything but a string otherwise is a
/// shape error.
pub open spec fn get_opt_string(fs: Seq<(String, JsonNode)>, key: Seq<char>) -> Option<
    Option<String>,
> {
    match obj_get(fs, key) {
        None => Some(None),
        Some(JsonNode::Null) => Some(None),
        Some(JsonNode::Str(s)) => Some(Some(s)),
        Some(_) => None,
    }
}

pub fn get_opt_string_field(fields: &Vec<(String, JsonNode)>, key: &str) -> (r: Option<
    Option<String>,
>)
    ensures
        r == get_opt_string(fields@, key@),
{
    match obj_get_node(fields, key) {
        None => Some(None),
        Some(JsonNode::Null) => Some(None),
        Some(JsonNode::Str(s)) => Some(Some(s.clone())),
        Some(_) => None,
    }
}

/// The value of a required boolean member.
pub open spec fn get_bool(fs: Seq<(String, JsonNode)>, key: Seq<char>) -> Option<bool> {
    match obj_get(fs, key) {
        Some(JsonNode::Bool(b)) => Some(b),
        _ => None,
    }
}

pub fn get_bool_field(fields: &Vec<(String, JsonNode)>, key: &str) -> (r: Option<bool>)
    ensures
        r == get_bool(fields@, key@),
{
    match obj_get_node(fields, key) {
        Some(JsonNode::Bool(b)) => Some(*b),
        _ => None,
    }
}

/// The decimal text of a required number member, kept unparsed.
pub open spec fn get_num_text(fs: Seq<(String, JsonNode)>, key: Seq<char>) -> Option<String> {
    match obj_get(fs, key) {
        Some(JsonNode::Num(t)) => Some(t),
        _ => None,
    }
}

pub fn get_num_text_field(fields: &Vec<(String, JsonNode)>, key: &str) -> (r: Option<String>)
    ensures
        r == get_num_text(fields@, key@),
{
    match obj_get_node(fields, key) {
        Some(JsonNode::Num(t)) => Some(t.clone()),
        _ => None,
    }
}

/// The elements of a required array member.
pub open spec fn get_arr(fs: Seq<(String, JsonNode)>, key: Seq<char>) -> Option<Seq<JsonNode>> {
    match obj_get(fs, key) {
        Some(JsonNode::Arr(a)) => Some(a@),
        _ => None,
    }
}

pub fn get_arr_field<'a>(fields: &'a Vec<(String, JsonNode)>, key: &str) -> (r: Option<
    &'a Vec<JsonNode>,
>)
    ensures
        r is Some <==> get_arr(fields@, key@) is Some,
        r matches Some(v) ==> Some(v@) == get_arr(fields@, key@),
{
    match obj_get_node(fields, key) {
        Some(JsonNode::Arr(a)) => Some(a),
        _ => None,
    }
}

/// The nested object of a required member, as its member list.
pub open spec fn get_obj(fs: Seq<(String, JsonNode)>, key: Seq<char>) -> Option<
    Seq<(String, JsonNode)>,
> {
    match obj_get(fs, key) {
        Some(JsonNode::Obj(o)) => Some(o@),
        _ => None,
    }
}

pub fn get_obj_field<'a>(fields: &'a Vec<(String, JsonNode)>, key: &str) -> (r: Option<
    &'a Vec<(String, JsonNode)>,
>)
    ensures
        r is Some <==> get_obj(fields@, key@) is Some,
        r matches Some(v) ==> Some(v@) == get_obj(fields@, key@),
{
    match obj_get_node(fields, key) {
        Some(JsonNode::Obj(o)) => Some(o),
        _ => None,
    }
}

/// Every element of the array satisfies the element shape check.
pub open spec fn arr_ok(elems: Seq<JsonNode>, ok: spec_fn(JsonNode) -> bool) -> bool {
    forall|i: int| 0 <= i < elems.len() ==> ok(#[trigger] elems[i])
}

/// The decoded values correspond to the array's elements, one for one and
/// in order.
pub open spec fn arr_matches<T>(
    elems: Seq<JsonNode>,
    m: spec_fn(JsonNode, T) -> bool,
    vs: Seq<T>,
) -> bool {
    vs.len() == elems.len() && (forall|i: int| 0 <= i < elems.len() ==> m(#[trigger] elems[i], vs[i]))
}

} // verus!
