//! The boundary to `serde_json`: the JSON object that carries one wire
//! record. Nothing in this file is proved; every contract here is taken on
//! trust from the `serde_json` sources.

use vstd::prelude::*;

verus! {

/// `serde_json::Map`, the JSON object; held without looking inside.
#[verifier::external_type_specification]
#[verifier::external_body]
#[verifier::reject_recursive_types(K)]
#[verifier::reject_recursive_types(V)]
pub struct ExJsonObject<K, V>(serde_json::Map<K, V>);

/// `serde_json::Value`, any JSON value; held without looking inside.
#[verifier::external_type_specification]
#[verifier::external_body]
pub struct ExJsonValue(serde_json::Value);

/// `serde_json::Error`, what the serializer and the parser report.
#[verifier::external_type_specification]
#[verifier::external_body]
pub struct ExJsonError(serde_json::Error);

/// What one JSON value is, as far as a wire record reads it: a string, an
/// integer (anything `serde_json` holds as a signed or unsigned 64-bit
/// number), or something else (null, a boolean, a fraction, an array, an
/// object).
pub ghost enum JsonScalar {
    Text(Seq<char>),
    Integer(int),
    Other,
}

/// The scalar that a `serde_json::Value` holds.
pub uninterp spec fn json_scalar(value: serde_json::Value) -> JsonScalar;

/// The members of a `serde_json::Map`, each value reduced to its scalar.
pub uninterp spec fn json_members(object: serde_json::Map<String, serde_json::Value>) -> Map<Seq<char>, JsonScalar>;

/// The members of an object that has none.
pub open spec fn no_members() -> Map<Seq<char>, JsonScalar> {
    Map::empty()
}

/// `serde_json::Map::new`: an object without members.
#[verifier::external_body]
pub(crate) fn object_new() -> (object: serde_json::Map<String, serde_json::Value>)
    ensures
        json_members(object) == no_members(),
{
    serde_json::Map::new()
}

/// `serde_json::Map::insert`: the member `key` is set to `value`, replacing
/// an earlier member of that name; the other members stay.
#[verifier::external_body]
pub(crate) fn object_insert(
    object: &mut serde_json::Map<String, serde_json::Value>,
    key: &str,
    value: serde_json::Value,
)
    ensures
        json_members(*final(object)) == json_members(*old(object)).insert(key@, json_scalar(value)),
{
    object.insert(key.to_string(), value);
}

/// `serde_json::Value::from(&str)`: the JSON string with the same characters.
#[verifier::external_body]
pub(crate) fn value_of_text(text: &str) -> (value: serde_json::Value)
    ensures
        json_scalar(value) == JsonScalar::Text(text@),
{
    serde_json::Value::from(text)
}

/// `serde_json::Value::from(i64)`: the JSON number with the same value.
#[verifier::external_body]
pub(crate) fn value_of_integer(number: i64) -> (value: serde_json::Value)
    ensures
        json_scalar(value) == JsonScalar::Integer(number as int),
{
    serde_json::Value::from(number)
}

/// `serde_json::Map::get`: the value of the member `key`, if the object has
/// one.
#[verifier::external_body]
pub(crate) fn object_get<'a>(
    object: &'a serde_json::Map<String, serde_json::Value>,
    key: &str,
) -> (found: Option<&'a serde_json::Value>)
    ensures
        found is Some <==> json_members(*object).contains_key(key@),
        found matches Some(value) ==> json_scalar(*value) == json_members(*object)[key@],
{
    object.get(key)
}

/// `serde_json::Value::as_str`: the characters of a JSON string, and `None`
/// for every other value.
#[verifier::external_body]
pub(crate) fn value_as_text<'a>(value: &'a serde_json::Value) -> (text: Option<&'a str>)
    ensures
        match text {
            Some(s) => json_scalar(*value) == JsonScalar::Text(s@),
            None => !(json_scalar(*value) is Text),
        },
{
    value.as_str()
}

/// `serde_json::Value::as_i64`: the value of a JSON integer that fits in an
/// `i64`, and `None` for a larger integer and for every other value.
#[verifier::external_body]
pub(crate) fn value_as_integer(value: &serde_json::Value) -> (number: Option<i64>)
    ensures
        match number {
            Some(i) => json_scalar(*value) == JsonScalar::Integer(i as int),
            None => json_scalar(*value) matches JsonScalar::Integer(i) ==> i > i64::MAX,
        },
{
    value.as_i64()
}

/// Whether every member is a string or an integer.
pub open spec fn all_scalar(members: Map<Seq<char>, JsonScalar>) -> bool {
    forall|key: Seq<char>| members.contains_key(key) ==> !(#[trigger] members[key] is Other)
}

/// The text that `serde_json::to_string` writes for an object of strings
/// and integers with the given members, or `None` where it reports an error.
pub uninterp spec fn json_text(members: Map<Seq<char>, JsonScalar>) -> Option<Seq<char>>;

/// The members of the object that `serde_json::from_str` reads from a text,
/// or `None` where it reports an error: the text is not JSON, is cut short,
/// or is JSON but not an object.
pub uninterp spec fn json_parse(text: Seq<char>) -> Option<Map<Seq<char>, JsonScalar>>;

/// `serde_json::to_string` on an object whose members are strings and
/// integers. The text is a function of the members alone: the object keeps
/// them sorted by name, as long as `serde_json` is built without its
/// `preserve_order` feature. The contract gives the text the name
/// `json_text` and claims nothing else of it.
#[verifier::external_body]
pub(crate) fn object_to_text(object: &serde_json::Map<String, serde_json::Value>) -> (text: Result<
    String,
    serde_json::Error,
>)
    requires
        all_scalar(json_members(*object)),
    ensures
        match text {
            Ok(written) => json_text(json_members(*object)) == Some(written@),
            Err(_) => json_text(json_members(*object)) is None,
        },
{
    serde_json::to_string(object)
}

/// `serde_json::from_str` read as an object. The outcome is a function of
/// the text alone; the contract gives it the name `json_parse` and claims
/// nothing else of it.
#[verifier::external_body]
pub(crate) fn object_from_text(text: &str) -> (object: Result<
    serde_json::Map<String, serde_json::Value>,
    serde_json::Error,
>)
    ensures
        match object {
            Ok(read) => json_parse(text@) == Some(json_members(read)),
            Err(_) => json_parse(text@) is None,
        },
{
    serde_json::from_str(text)
}

} // verus!
