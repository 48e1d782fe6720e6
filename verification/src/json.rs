//! A plain JSON tree and the trusted parsing boundary around serde_json.
//!
//! The pipeline's inputs and intermediate files are JSON text. Parsing the
//! text is delegated to serde_json; everything after that — walking the
//! tree, checking the schema, building the strict models — is verified
//! code over the [`JsonValue`] tree below. Object members keep the
//! insertion order of the source text, which the frame grouping algorithm
//! depends on.

use vstd::prelude::*;

verus! {

/// A JSON document as plain values. Numbers are kept only when they are
/// representable as `i64`; every field this pipeline reads is an integer,
/// so a non-integer number ([`JsonValue::BigNum`]) is malformed wherever a
/// number is expected.
#[derive(Debug)]
pub enum JsonValue {
    Null,
    Bool(bool),
    Int(i64),
    BigNum,
    Text(String),
    Array(Vec<JsonValue>),
    Object(Vec<(String, JsonValue)>),
}

/// The first member of `ms` whose key is `key`, if any. serde_json
/// collapses duplicate keys while parsing, so members handed out by
/// [`parse_json`] have unique keys.
pub open spec fn lookup_spec(ms: Seq<(String, JsonValue)>, key: Seq<char>) -> Option<JsonValue>
    decreases ms.len(),
{
    if ms.len() == 0 {
        None
    } else if ms[0].0@ == key {
        Some(ms[0].1)
    } else {
        lookup_spec(ms.drop_first(), key)
    }
}

/// Looks a key up among the members of a JSON object.
pub fn lookup<'a>(ms: &'a Vec<(String, JsonValue)>, key: &str) -> (r: Option<&'a JsonValue>)
    ensures
        match r {
            Some(v) => lookup_spec(ms@, key@) == Some(*v),
            None => lookup_spec(ms@, key@) is None,
        },
{
    let k: String = key.to_owned();
    let n = ms.len();
    let mut i: usize = 0;
    proof {
        assert(ms@.skip(0) =~= ms@);
    }
    while i < n
        invariant
            i <= n,
            n == ms@.len(),
            k@ == key@,
            lookup_spec(ms@, key@) == lookup_spec(ms@.skip(i as int), key@),
        decreases n - i,
    {
        if ms[i].0 == k {
            proof {
                assert(ms@.skip(i as int)[0] == ms@[i as int]);
            }
            return Some(&ms[i].1);
        }
        proof {
            assert(ms@.skip(i as int).drop_first() =~= ms@.skip(i + 1));
        }
        i = i + 1;
    }
    proof {
        assert(ms@.skip(n as int) =~= Seq::<(String, JsonValue)>::empty());
    }
    None
}

/// The text of a member that must be a JSON string.
pub open spec fn as_text(v: Option<JsonValue>) -> Option<Seq<char>> {
    match v {
        Some(JsonValue::Text(s)) => Some(s@),
        _ => None,
    }
}

/// The value of a member that must be a JSON integer.
pub open spec fn as_int(v: Option<JsonValue>) -> Option<i64> {
    match v {
        Some(JsonValue::Int(i)) => Some(i),
        _ => None,
    }
}

/// The value of a member that must be a JSON boolean.
pub open spec fn as_bool(v: Option<JsonValue>) -> Option<bool> {
    match v {
        Some(JsonValue::Bool(b)) => Some(b),
        _ => None,
    }
}

/// The elements of a member that must be a JSON array.
pub open spec fn as_array(v: Option<JsonValue>) -> Option<Seq<JsonValue>> {
    match v {
        Some(JsonValue::Array(a)) => Some(a@),
        _ => None,
    }
}

/// The members of a member that must be a JSON object.
pub open spec fn as_object(v: Option<JsonValue>) -> Option<Seq<(String, JsonValue)>> {
    match v {
        Some(JsonValue::Object(ms)) => Some(ms@),
        _ => None,
    }
}

/// A lookup resolves at the first member when its key matches.
pub proof fn lemma_lookup_head(ms: Seq<(String, JsonValue)>, key: Seq<char>)
    requires
        ms.len() > 0,
        ms[0].0@ == key,
    ensures
        lookup_spec(ms, key) == Some(ms[0].1),
{
}

/// A lookup passes over the first member when its key differs.
pub proof fn lemma_lookup_skip(ms: Seq<(String, JsonValue)>, key: Seq<char>)
    requires
        ms.len() > 0,
        ms[0].0@ != key,
    ensures
        lookup_spec(ms, key) == lookup_spec(ms.drop_first(), key),
{
}

/// The JSON tree a text parses to, or `None` where the text is not valid
/// JSON: a function of the text alone.
pub uninterp spec fn json_tree_of(s: Seq<char>) -> Option<JsonValue>;

/// Declares serde_json::Error, the opaque error of a failed parse.
#[verifier::external_type_specification]
#[verifier::external_body]
pub struct ExSerdeJsonError(serde_json::Error);

/// Declares serde_json::Value, the parser's own tree, converted below.
#[verifier::external_type_specification]
#[verifier::external_body]
pub struct ExSerdeJsonValue(serde_json::Value);

/// Converts serde_json's tree into the plain tree, one node for one node.
/// Relies on serde_json::Map keeping insertion order and on
/// serde_json::Number::as_i64 returning the value of every number that
/// fits in an `i64`.
#[verifier::external_body]
fn convert_value(v: &serde_json::Value) -> JsonValue {
    match v {
        serde_json::Value::Null => JsonValue::Null,
        serde_json::Value::Bool(b) => JsonValue::Bool(*b),
        serde_json::Value::Number(n) => match n.as_i64() {
            Some(i) => JsonValue::Int(i),
            None => JsonValue::BigNum,
        },
        serde_json::Value::String(s) => JsonValue::Text(s.clone()),
        serde_json::Value::Array(a) => JsonValue::Array(a.iter().map(convert_value).collect()),
        serde_json::Value::Object(m) => JsonValue::Object(
            m.iter().map(|(k, w)| (k.clone(), convert_value(w))).collect(),
        ),
    }
}

/// Relies on serde_json::from_str: whether a text parses, and to which
/// tree, depends on the text alone.
#[verifier::external_body]
pub fn parse_json(s: &str) -> (r: Result<JsonValue, serde_json::Error>)
    ensures
        match r {
            Ok(t) => json_tree_of(s@) == Some(t),
            Err(_) => json_tree_of(s@) is None,
        },
{
    match serde_json::from_str::<serde_json::Value>(s) {
        Ok(v) => Ok(convert_value(&v)),
        Err(e) => Err(e),
    }
}

} // verus!
