//! JSON documents as the library reads them, and lookups in them.
use vstd::prelude::*;
use crate::text::same_text;

verus! {

/// serde_json's document type, carried opaquely.
#[verifier::external_type_specification]
#[verifier::external_body]
pub struct ExJsonValue(serde_json::Value);

/// A JSON document. Numbers keep their value only when it is an unsigned
/// integer; an object keeps its members in order and its compact text.
pub enum Json {
    Null,
    Bool(bool),
    Number(Option<u64>),
    Str(String),
    Array(Vec<Json>),
    Object { fields: Vec<(String, Json)>, text: String },
}

/// The document that a JSON text holds, if it is well formed.
pub uninterp spec fn parsed_json(text: Seq<char>) -> Option<Json>;

/// Relies on `serde_json::from_str`: parses JSON text into a document (or
/// fails with a message); the result depends on the text alone.
#[verifier::external_body]
pub fn parse_json(text: &str) -> (r: Result<Json, String>)
    ensures
        r is Ok <==> parsed_json(text@) is Some,
        r is Ok ==> parsed_json(text@) == Some(r->Ok_0),
{
    serde_json::from_str::<serde_json::Value>(text).map(lift_value).map_err(|e| e.to_string())
}

/// Moves a serde_json document into `Json`, variant by variant; used only
/// inside `parse_json`.
#[verifier::external_body]
fn lift_value(v: serde_json::Value) -> Json {
    match v {
        serde_json::Value::Null => Json::Null,
        serde_json::Value::Bool(b) => Json::Bool(b),
        serde_json::Value::Number(n) => Json::Number(n.as_u64()),
        serde_json::Value::String(s) => Json::Str(s),
        serde_json::Value::Array(a) => Json::Array(a.into_iter().map(lift_value).collect()),
        serde_json::Value::Object(m) => {
            let text = serde_json::Value::Object(m.clone()).to_string();
            Json::Object { fields: m.into_iter().map(|(k, x)| (k, lift_value(x))).collect(), text }
        },
    }
}

pub open spec fn member_in(fields: Seq<(String, Json)>, key: Seq<char>) -> Option<Json>
    decreases fields.len(),
{
    if fields.len() == 0 {
        None
    } else if fields[0].0@ == key {
        Some(fields[0].1)
    } else {
        member_in(fields.drop_first(), key)
    }
}

/// The member `key` of an object; nothing for other documents.
pub open spec fn member(j: Json, key: Seq<char>) -> Option<Json> {
    match j {
        Json::Object { fields, .. } => member_in(fields@, key),
        _ => None,
    }
}

pub open spec fn as_text(j: Option<Json>) -> Option<Seq<char>> {
    match j {
        Some(Json::Str(s)) => Some(s@),
        _ => None,
    }
}

/// The string at `j.key`.
pub open spec fn text_at(j: Json, key: Seq<char>) -> Option<Seq<char>> {
    as_text(member(j, key))
}

/// The string at `j.k1.k2`.
pub open spec fn text_at2(j: Json, k1: Seq<char>, k2: Seq<char>) -> Option<Seq<char>> {
    match member(j, k1) {
        Some(m) => text_at(m, k2),
        None => None,
    }
}

/// The boolean at `j.key`.
pub open spec fn bool_at(j: Json, key: Seq<char>) -> Option<bool> {
    match member(j, key) {
        Some(Json::Bool(b)) => Some(b),
        _ => None,
    }
}

pub open spec fn opt_view(o: Option<String>) -> Option<Seq<char>> {
    match o {
        Some(s) => Some(s@),
        None => None,
    }
}

/// The document of a body, `null` when it is not JSON.
pub open spec fn doc_or_null(body: Seq<char>) -> Json {
    if parsed_json(body) is Some { parsed_json(body)->0 } else { Json::Null }
}

/// The member `key` of `j`, if `j` is an object that has one.
pub fn get_member<'a>(j: &'a Json, key: &str) -> (r: Option<&'a Json>)
    ensures
        match r {
            Some(v) => member(*j, key@) == Some(*v),
            None => member(*j, key@) is None,
        },
{
    match j {
        Json::Object { fields, .. } => {
            let n = fields.len();
            let mut i: usize = 0;
            assert(fields@.subrange(0, n as int) =~= fields@);
            while i < n
                invariant
                    n == fields@.len(),
                    i <= n,
                    member(*j, key@) == member_in(fields@, key@),
                    member_in(fields@, key@) == member_in(fields@.subrange(i as int, n as int), key@),
                decreases n - i,
            {
                assert(fields@.subrange(i as int, n as int).drop_first() =~= fields@.subrange(i + 1, n as int));
                assert(fields@.subrange(i as int, n as int)[0] == fields@[i as int]);
                if same_text(fields[i].0.as_str(), key) {
                    return Some(&fields[i].1);
                }
                i = i + 1;
            }
            None
        },
        _ => None,
    }
}

/// The string held by `j`, if it is one.
pub fn get_text(j: Option<&Json>) -> (r: Option<String>)
    ensures
        opt_view(r) == as_text(match j { Some(v) => Some(*v), None => None }),
{
    match j {
        Some(Json::Str(s)) => Some(s.clone()),
        _ => None,
    }
}

/// The string at `j.key`.
pub fn text_member(j: &Json, key: &str) -> (r: Option<String>)
    ensures
        opt_view(r) == text_at(*j, key@),
{
    get_text(get_member(j, key))
}

/// The string at `j.k1.k2`.
pub fn text_member2(j: &Json, k1: &str, k2: &str) -> (r: Option<String>)
    ensures
        opt_view(r) == text_at2(*j, k1@, k2@),
{
    match get_member(j, k1) {
        Some(m) => text_member(m, k2),
        None => None,
    }
}

/// The boolean at `j.key`.
pub fn bool_member(j: &Json, key: &str) -> (r: Option<bool>)
    ensures
        r == bool_at(*j, key@),
{
    match get_member(j, key) {
        Some(Json::Bool(b)) => Some(*b),
        _ => None,
    }
}

} // verus!
