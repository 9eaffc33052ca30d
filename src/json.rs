use vstd::prelude::*;
use crate::settings::{Member, Setting, overrides_of, overrides_spec};
use crate::text::same_text;

verus! {

#[verifier::external_type_specification]
#[verifier::external_body]
pub struct ExJsonValue(serde_json::Value);

#[verifier::external_type_specification]
#[verifier::external_body]
pub struct ExJsonError(serde_json::Error);

/// A parsed JSON document, holding what the extraction reads: the members of
/// objects, in the parser's order, and scalars; the items of an array are
/// not kept.
#[derive(Debug, PartialEq, Eq)]
pub enum Json {
    Null,
    Bool(bool),
    /// A number: its value as an `i64` when it is an integer in that range,
    /// and its value cast down to `i32` when it can be read as a fraction.
    Number { exact: Option<i64>, truncated: Option<i32> },
    Text(String),
    Array,
    Object(Vec<(String, Json)>),
}

/// Whether serde_json accepts a text as a JSON document.
pub uninterp spec fn json_text_valid(s: Seq<char>) -> bool;

/// The document serde_json reads from a text it accepts.
pub uninterp spec fn json_of(s: Seq<char>) -> Json;

/// Relies on serde_json's variants of `Value`, one arm each, and on
/// `Number::as_i64`, `Number::as_f64` with Rust's float-to-integer cast, which
/// drops the fraction and saturates at the bounds of `i32`.
#[verifier::external_body]
fn json_from_value(v: &serde_json::Value) -> Json {
    match v {
        serde_json::Value::Null => Json::Null,
        serde_json::Value::Bool(b) => Json::Bool(*b),
        serde_json::Value::Number(n) => Json::Number {
            exact: n.as_i64(),
            truncated: n.as_f64().map(|f| f as i32),
        },
        serde_json::Value::String(s) => Json::Text(s.clone()),
        serde_json::Value::Array(_) => Json::Array,
        serde_json::Value::Object(m) => Json::Object(
            m.iter().map(|(k, x)| (k.clone(), json_from_value(x))).collect(),
        ),
    }
}

/// Relies on serde_json::from_str into a `Value`: whether a text parses, and
/// the document it gives, depend on the text alone.
#[verifier::external_body]
fn parse_json(text: &str) -> (r: Result<Json, serde_json::Error>)
    ensures
        r is Ok == json_text_valid(text@),
        r is Ok ==> r->Ok_0 == json_of(text@),
{
    serde_json::from_str::<serde_json::Value>(text).map(|v| json_from_value(&v))
}

/// Relies on serde_json's `Display` for its error: the message for a
/// document that did not parse.
#[verifier::external_body]
fn error_text(e: &serde_json::Error) -> String {
    e.to_string()
}

/// The value of the first member named `key`.
pub open spec fn lookup(entries: Seq<(String, Json)>, key: Seq<char>) -> Option<Json>
    decreases entries.len(),
{
    if entries.len() == 0 {
        None
    } else if entries[0].0@ == key {
        Some(entries[0].1)
    } else {
        lookup(entries.drop_first(), key)
    }
}

pub open spec fn member_spec(j: Json) -> Member {
    match j {
        Json::Bool(b) => Member::Bool(b),
        Json::Number { exact, truncated } => Member::Number { exact, truncated },
        Json::Text(s) => Member::Text(s),
        _ => Member::Other,
    }
}

pub open spec fn section_key() -> Seq<char> {
    "typescript"@
}

/// The members of the document's `typescript` object, each read by kind;
/// none when the document is not an object, or has no such member, or that
/// member is not an object.
pub open spec fn typescript_members(doc: Json) -> Seq<(String, Member)> {
    match doc {
        Json::Object(entries) => match lookup(entries@, section_key()) {
            Some(Json::Object(ms)) => ms@.map_values(|p: (String, Json)| (p.0, member_spec(p.1))),
            _ => Seq::empty(),
        },
        _ => Seq::empty(),
    }
}

/// The document is an object whose `typescript` member is an object.
pub open spec fn has_section(doc: Json) -> bool {
    match doc {
        Json::Object(entries) => match lookup(entries@, section_key()) {
            Some(Json::Object(_)) => true,
            _ => false,
        },
        _ => false,
    }
}

/// A document without a `typescript` object gives no overrides.
pub proof fn lemma_no_section_no_overrides(doc: Json)
    requires
        !has_section(doc),
    ensures
        overrides_spec(typescript_members(doc)) == Seq::<(String, Setting)>::empty(),
{
    assert(typescript_members(doc) =~= Seq::<(String, Member)>::empty());
}

/// Reads a JSON value as a member of the `typescript` object.
pub fn member_of(v: &Json) -> (r: Member)
    ensures
        r == member_spec(*v),
{
    match v {
        Json::Bool(b) => Member::Bool(*b),
        Json::Number { exact, truncated } => Member::Number { exact: *exact, truncated: *truncated },
        Json::Text(s) => Member::Text(s.clone()),
        _ => Member::Other,
    }
}

fn find_member<'a>(entries: &'a Vec<(String, Json)>, key: &str) -> (r: Option<&'a Json>)
    ensures
        match r {
            Some(j) => lookup(entries@, key@) == Some(*j),
            None => lookup(entries@, key@) is None,
        },
{
    let n = entries.len();
    let mut i: usize = 0;
    assert(entries@.subrange(0, n as int) =~= entries@);
    while i < n
        invariant
            n == entries@.len(),
            i <= n,
            lookup(entries@, key@) == lookup(entries@.subrange(i as int, n as int), key@),
        decreases n - i,
    {
        let ghost rest = entries@.subrange(i as int, n as int);
        assert(rest[0] == entries@[i as int]);
        assert(rest.drop_first() =~= entries@.subrange(i + 1, n as int));
        if same_text(entries[i].0.as_str(), key) {
            return Some(&entries[i].1);
        }
        i = i + 1;
    }
    None
}

/// The overrides held by the `typescript` object of a document.
pub fn typescript_overrides(doc: &Json) -> (r: Vec<(String, Setting)>)
    ensures
        r@ == overrides_spec(typescript_members(*doc)),
{
    let entries = match doc {
        Json::Object(e) => e,
        _ => {
            return Vec::new();
        },
    };
    let ms = match find_member(entries, "typescript") {
        Some(Json::Object(ms)) => ms,
        _ => {
            return Vec::new();
        },
    };
    let mut members: Vec<(String, Member)> = Vec::new();
    let n = ms.len();
    let mut i: usize = 0;
    while i < n
        invariant
            n == ms@.len(),
            i <= n,
            members@ =~= ms@.subrange(0, i as int).map_values(
                |p: (String, Json)| (p.0, member_spec(p.1)),
            ),
        decreases n - i,
    {
        members.push((ms[i].0.clone(), member_of(&ms[i].1)));
        i = i + 1;
    }
    assert(ms@.subrange(0, n as int) =~= ms@);
    overrides_of(&members)
}

/// Parses a configuration document and extracts its overrides; fails with
/// the parser's message exactly when the text is not JSON.
pub fn parse_config(content: &str) -> (r: Result<Vec<(String, Setting)>, String>)
    ensures
        r is Ok == json_text_valid(content@),
        r is Ok ==> r->Ok_0@ == overrides_spec(typescript_members(json_of(content@))),
{
    match parse_json(content) {
        Ok(doc) => Ok(typescript_overrides(&doc)),
        Err(e) => Err(error_text(&e)),
    }
}

} // verus!
