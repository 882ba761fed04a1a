use vstd::prelude::*;

verus! {

#[verifier::external_type_specification]
#[verifier::external_body]
pub struct ExJsonValue(serde_json::Value);

#[verifier::external_type_specification]
#[verifier::external_body]
pub struct ExJsonError(serde_json::Error);

#[verifier::external_type_specification]
#[verifier::external_body]
pub struct ExJsonNumber(serde_json::Number);

#[verifier::external_type_specification]
#[verifier::external_body]
#[verifier::reject_recursive_types(K)]
#[verifier::reject_recursive_types(V)]
pub struct ExJsonMap<K, V>(serde_json::Map<K, V>);

/// What a JSON value holds, as far as decoding reads it: a number is kept as its
/// value when that is a non-negative integer that fits in a `u64`.
pub enum JsonShape {
    Null,
    Bool(bool),
    Number(Option<u64>),
    Text(Seq<char>),
    Array,
    Object(Map<Seq<char>, JsonShape>),
}

/// The top level of a JSON value, one variant per variant of `serde_json::Value`.
pub enum JsonKind {
    Null,
    Bool(bool),
    Number(serde_json::Number),
    Text(String),
    Array(Vec<serde_json::Value>),
    Object(serde_json::Map<String, serde_json::Value>),
}

/// The document that serde_json reads from `text`, if it accepts the text.
pub uninterp spec fn json_of(text: Seq<char>) -> Option<JsonShape>;

/// What a `serde_json::Value` holds.
pub uninterp spec fn shape_of(v: serde_json::Value) -> JsonShape;

/// The members of a JSON object, by key.
pub uninterp spec fn members_of(m: serde_json::Map<String, serde_json::Value>) -> Map<Seq<char>, JsonShape>;

/// The value of a JSON number when it is a non-negative integer that fits in a `u64`.
pub uninterp spec fn number_u64(n: serde_json::Number) -> Option<u64>;

/// Relies on serde_json::from_str into a `Value`: whether it succeeds, and the document
/// it yields, depend on the text alone.
#[verifier::external_body]
pub(crate) fn parse_json(text: &str) -> (r: Result<serde_json::Value, serde_json::Error>)
    ensures
        match r {
            Ok(v) => json_of(text@) == Some(shape_of(v)),
            Err(_) => json_of(text@) is None,
        },
{
    serde_json::from_str::<serde_json::Value>(text)
}

/// Relies on the variants of serde_json::Value, each moved into its counterpart.
#[verifier::external_body]
pub(crate) fn json_kind(v: serde_json::Value) -> (r: JsonKind)
    ensures
        match shape_of(v) {
            JsonShape::Null => r is Null,
            JsonShape::Bool(b) => r == JsonKind::Bool(b),
            JsonShape::Number(x) => r is Number && number_u64(r->Number_0) == x,
            JsonShape::Text(s) => r is Text && r->Text_0@ == s,
            JsonShape::Array => r is Array,
            JsonShape::Object(m) => r is Object && members_of(r->Object_0) == m,
        },
{
    match v {
        serde_json::Value::Null => JsonKind::Null,
        serde_json::Value::Bool(b) => JsonKind::Bool(b),
        serde_json::Value::Number(n) => JsonKind::Number(n),
        serde_json::Value::String(s) => JsonKind::Text(s),
        serde_json::Value::Array(a) => JsonKind::Array(a),
        serde_json::Value::Object(m) => JsonKind::Object(m),
    }
}

/// Relies on serde_json::Map::remove: takes the member under `key` out of the object,
/// if there is one, and leaves the other members as they were.
#[verifier::external_body]
pub(crate) fn take_member(
    m: &mut serde_json::Map<String, serde_json::Value>,
    key: &str,
) -> (r: Option<serde_json::Value>)
    ensures
        r is Some <==> members_of(*old(m)).contains_key(key@),
        r is Some ==> shape_of(r->Some_0) == members_of(*old(m))[key@],
        members_of(*final(m)) == members_of(*old(m)).remove(key@),
{
    m.remove(key)
}

/// Relies on serde_json::Number::as_u64: the number when it is a non-negative integer
/// that fits in a `u64`.
pub assume_specification[ serde_json::Number::as_u64 ](n: &serde_json::Number) -> (r: Option<u64>)
    ensures
        r == number_u64(*n),
;

} // verus!
