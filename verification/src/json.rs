//! JSON, read and written by `serde_json`. A parsed document stays a
//! `serde_json::Value`; the engine looks into it through the functions below.
use vstd::prelude::*;

verus! {

/// `serde_json::Value`: a parsed document. Opaque here; the functions below
/// say what it holds.
#[verifier::external_type_specification]
#[verifier::external_body]
pub struct ExJsonValue(serde_json::Value);

/// `serde_json::Error`, mapped to `InvalidJson` where it arises.
#[verifier::external_type_specification]
#[verifier::external_body]
pub struct ExJsonError(serde_json::Error);

/// The document that `bytes` spell, if they spell one.
pub uninterp spec fn json_of_bytes(bytes: Seq<u8>) -> Option<serde_json::Value>;

/// The document that `text` spells, if it spells one.
pub uninterp spec fn json_of_text(text: Seq<char>) -> Option<serde_json::Value>;

/// Whether a document is an object.
pub uninterp spec fn value_is_object(v: serde_json::Value) -> bool;

/// The member of an object under `key`; `None` for a missing key and for a
/// document that is no object.
pub uninterp spec fn value_member(v: serde_json::Value, key: Seq<char>) -> Option<
    serde_json::Value,
>;

/// The text of a document that is a string; `None` for any other.
pub uninterp spec fn value_text(v: serde_json::Value) -> Option<Seq<char>>;

/// The items of a document that is an array; `None` for any other.
pub uninterp spec fn value_items(v: serde_json::Value) -> Option<Seq<serde_json::Value>>;

/// The compact JSON text of the object with the given string members.
pub uninterp spec fn object_text(members: Seq<(Seq<char>, Seq<char>)>) -> Seq<char>;

/// The text of an answer's envelope: an object with the string members `id`,
/// `result` and `error`.
pub open spec fn envelope_text(id: Seq<char>, result: Seq<char>, error: Seq<char>) -> Seq<char> {
    object_text(seq![("id"@, id), ("result"@, result), ("error"@, error)])
}

/// The views of a list of members, in order.
pub open spec fn member_texts(members: Seq<(String, String)>) -> Seq<(Seq<char>, Seq<char>)> {
    Seq::new(members.len(), |i: int| (members[i].0@, members[i].1@))
}

/// The compact JSON text of an array of strings.
pub uninterp spec fn array_text(items: Seq<Seq<char>>) -> Seq<char>;

/// The views of a list of strings, in order.
pub open spec fn texts(items: Seq<String>) -> Seq<Seq<char>> {
    Seq::new(items.len(), |i: int| items[i]@)
}

/// Calls `serde_json::from_slice` for a `Value`. Trusted: parsing depends on the
/// bytes alone, so the document is `json_of_bytes` of them, and the call fails
/// exactly where that is `None`.
#[verifier::external_body]
pub(crate) fn parse_json(bytes: &[u8]) -> (r: Result<serde_json::Value, serde_json::Error>)
    ensures
        r matches Ok(v) ==> json_of_bytes(bytes@) == Some(v),
        r is Err ==> json_of_bytes(bytes@) is None,
{
    serde_json::from_slice(bytes)
}

/// Calls `serde_json::from_str` for a `Value`. Trusted: parsing depends on the
/// text alone, so the document is `json_of_text` of it, and the call fails
/// exactly where that is `None`.
#[verifier::external_body]
pub(crate) fn parse_json_text(text: &str) -> (r: Result<serde_json::Value, serde_json::Error>)
    ensures
        r matches Ok(v) ==> json_of_text(text@) == Some(v),
        r is Err ==> json_of_text(text@) is None,
{
    serde_json::from_str(text)
}

/// Calls `serde_json::Value::is_object`.
#[verifier::external_body]
pub(crate) fn is_object(v: &serde_json::Value) -> (r: bool)
    ensures
        r == value_is_object(*v),
{
    v.is_object()
}

/// Calls `serde_json::Value::get` with a string key, which looks the key up in
/// an object and answers `None` for every other document.
#[verifier::external_body]
pub(crate) fn member<'a>(v: &'a serde_json::Value, key: &str) -> (r: Option<&'a serde_json::Value>)
    ensures
        r matches Some(m) ==> value_member(*v, key@) == Some(*m),
        r is None ==> value_member(*v, key@) is None,
{
    v.get(key)
}

/// Calls `serde_json::Value::as_str`.
#[verifier::external_body]
pub(crate) fn text<'a>(v: &'a serde_json::Value) -> (r: Option<&'a str>)
    ensures
        r matches Some(s) ==> value_text(*v) == Some(s@),
        r is None ==> value_text(*v) is None,
{
    v.as_str()
}

/// Calls `serde_json::Value::as_array`.
#[verifier::external_body]
pub(crate) fn items<'a>(v: &'a serde_json::Value) -> (r: Option<&'a Vec<serde_json::Value>>)
    ensures
        r matches Some(a) ==> value_items(*v) == Some(a@),
        r is None ==> value_items(*v) is None,
{
    v.as_array()
}

/// Collects the members into a `serde_json::Map`, each value a
/// `Value::String`, and renders the object with `Value`'s `to_string`.
/// Trusted: the text depends on the members alone.
#[verifier::external_body]
pub(crate) fn write_object(members: &Vec<(String, String)>) -> (r: String)
    ensures
        r@ == object_text(member_texts(members@)),
{
    let object: serde_json::Map<String, serde_json::Value> =
        members.iter().map(|m| (m.0.clone(), serde_json::Value::String(m.1.clone()))).collect();
    serde_json::Value::Object(object).to_string()
}

/// Builds a `serde_json::Value` array of strings with `Value::from` and renders
/// it with `Value`'s `to_string`. Trusted: the text depends on the strings alone.
#[verifier::external_body]
pub(crate) fn write_array(items: &Vec<String>) -> (r: String)
    ensures
        r@ == array_text(texts(items@)),
{
    serde_json::Value::from(items.clone()).to_string()
}

} // verus!
