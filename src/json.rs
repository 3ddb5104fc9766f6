//! The JSON values of `serde_json`, as this library uses them.
use vstd::prelude::*;

verus! {

/// A JSON document of `serde_json`, carried through the library unexamined.
#[verifier::external_type_specification]
#[verifier::external_body]
pub struct ExValue(serde_json::Value);

/// An object of `serde_json`: a map from keys to JSON values.
#[verifier::external_type_specification]
#[verifier::external_body]
#[verifier::reject_recursive_types(K)]
#[verifier::reject_recursive_types(V)]
pub struct ExMap<K, V>(serde_json::Map<K, V>);

/// The error of `serde_json` for text that does not parse or does not fit.
#[verifier::external_type_specification]
#[verifier::external_body]
pub struct ExError(serde_json::Error);

/// The members that a `serde_json` object holds, by key.
pub uninterp spec fn object_entries(m: serde_json::Map<String, serde_json::Value>) -> Map<
    Seq<char>,
    serde_json::Value,
>;

/// The members of a JSON value where it is an object (what `Value::as_object` gives), else `None`.
pub uninterp spec fn json_object(v: serde_json::Value) -> Option<Map<Seq<char>, serde_json::Value>>;

/// The member of a JSON value under a key, as indexing by that key gives it.
pub uninterp spec fn json_member(v: serde_json::Value, key: Seq<char>) -> serde_json::Value;

/// The boolean that a JSON value holds, as `Value::as_bool` gives it.
pub uninterp spec fn json_bool(v: serde_json::Value) -> Option<bool>;

/// The integer that a JSON value holds, as `Value::as_i64` gives it.
pub uninterp spec fn json_i64(v: serde_json::Value) -> Option<i64>;

/// The string that a JSON value holds, as `Value::as_str` gives it.
pub uninterp spec fn json_str(v: serde_json::Value) -> Option<Seq<char>>;

/// The elements of a JSON value read as a list, as `serde_json::from_value` gives them.
pub uninterp spec fn json_array(v: serde_json::Value) -> Option<Seq<serde_json::Value>>;

/// The JSON document that bytes parse to, as `serde_json::from_slice` gives it.
pub uninterp spec fn parsed(bytes: Seq<u8>) -> Option<serde_json::Value>;

/// The JSON text of a value, as `serde_json::to_vec` gives it.
pub uninterp spec fn json_text(v: serde_json::Value) -> Option<Seq<u8>>;

/// Relies on `serde_json::Map::new`: a new object holds no member.
pub assume_specification[ serde_json::Map::<String, serde_json::Value>::new ]() -> (r:
    serde_json::Map<String, serde_json::Value>)
    ensures
        object_entries(r).dom() == Set::<Seq<char>>::empty(),
;

/// Relies on `serde_json::Map::insert`: the value is held under the key, in
/// place of any earlier one; the other members stay.
pub assume_specification[ serde_json::Map::<String, serde_json::Value>::insert ](
    m: &mut serde_json::Map<String, serde_json::Value>,
    k: String,
    v: serde_json::Value,
) -> (r: Option<serde_json::Value>)
    ensures
        object_entries(*final(m)) == object_entries(*old(m)).insert(k@, v),
;

/// Relies on `serde_json::Value::as_bool`: the boolean that a value holds, if it is one.
pub assume_specification[ serde_json::Value::as_bool ](v: &serde_json::Value) -> (r: Option<bool>)
    ensures
        r == json_bool(*v),
;

/// Relies on `serde_json::Value::as_i64`: the integer that a value holds, if it fits an `i64`.
pub assume_specification[ serde_json::Value::as_i64 ](v: &serde_json::Value) -> (r: Option<i64>)
    ensures
        r == json_i64(*v),
;

/// Relies on `serde_json::Value::as_str`: the string that a value holds, if it is one.
pub assume_specification<'a>[ serde_json::Value::as_str ](v: &'a serde_json::Value) -> (r: Option<
    &'a str,
>)
    ensures
        r is None <==> json_str(*v) is None,
        r matches Some(s) ==> json_str(*v) == Some(s@),
;

/// Relies on the derived `Clone` of `serde_json::Value`: an equal copy.
pub assume_specification[ <serde_json::Value as Clone>::clone ](v: &serde_json::Value) -> (r:
    serde_json::Value)
    ensures
        r == *v,
;

/// Relies on indexing a `serde_json::Value` by a key: the member under `key`,
/// or `null` (which holds no boolean, integer or string) where the value is no
/// object or has no such member.
#[verifier::external_body]
pub(crate) fn member<'a>(v: &'a serde_json::Value, key: &str) -> (r: &'a serde_json::Value)
    ensures
        *r == json_member(*v, key@),
        json_object(*v) matches Some(ms) ==> if ms.contains_key(key@) {
            *r == ms[key@]
        } else {
            json_bool(*r) is None && json_i64(*r) is None && json_str(*r) is None
        },
        json_object(*v) is None ==> json_bool(*r) is None && json_i64(*r) is None && json_str(
            *r,
        ) is None,
{
    &v[key]
}

/// Relies on `serde_json::from_slice`: parses a JSON document from bytes.
#[verifier::external_body]
pub(crate) fn parse_document(bytes: &[u8]) -> (r: Result<serde_json::Value, serde_json::Error>)
    ensures
        r is Ok <==> parsed(bytes@) is Some,
        r matches Ok(d) ==> parsed(bytes@) == Some(d),
{
    serde_json::from_slice(bytes)
}

/// Relies on `serde_json::from_value`: reads a JSON array as its elements.
#[verifier::external_body]
pub(crate) fn array_elements(v: serde_json::Value) -> (r: Result<
    Vec<serde_json::Value>,
    serde_json::Error,
>)
    ensures
        r is Ok <==> json_array(v) is Some,
        r matches Ok(items) ==> json_array(v) == Some(items@),
{
    serde_json::from_value(v)
}

/// Relies on `serde_json::to_vec`: the JSON text of a value, as bytes.
#[verifier::external_body]
pub(crate) fn encode_document(v: &serde_json::Value) -> (r: Result<Vec<u8>, serde_json::Error>)
    ensures
        r is Ok <==> json_text(*v) is Some,
        r matches Ok(b) ==> json_text(*v) == Some(b@),
{
    serde_json::to_vec(v)
}

/// Relies on the `Display` impl of `serde_json::Error`: its message.
#[verifier::external_body]
pub(crate) fn error_message(e: &serde_json::Error) -> String {
    e.to_string()
}

/// Relies on `serde_json::Value::from` for `i64`: a JSON number that reads back as `n`.
#[verifier::external_body]
pub(crate) fn int_value(n: i64) -> (r: serde_json::Value)
    ensures
        json_i64(r) == Some(n),
{
    serde_json::Value::from(n)
}

/// Relies on `serde_json::Value::from` for `String`: a JSON string that reads back as `s`.
#[verifier::external_body]
pub(crate) fn text_value(s: String) -> (r: serde_json::Value)
    ensures
        json_str(r) == Some(s@),
{
    serde_json::Value::from(s)
}

/// Relies on `serde_json::Value::from` for a `Vec`: a JSON array of these elements.
#[verifier::external_body]
pub(crate) fn list_value(items: Vec<serde_json::Value>) -> (r: serde_json::Value)
    ensures
        json_array(r) == Some(items@),
{
    serde_json::Value::from(items)
}

/// Relies on `serde_json::Value::from` for a map: a JSON object with these members.
#[verifier::external_body]
pub(crate) fn object_value(m: serde_json::Map<String, serde_json::Value>) -> (r: serde_json::Value)
    ensures
        json_object(r) == Some(object_entries(m)),
{
    serde_json::Value::from(m)
}

} // verus!
