//! JSON documents, read and written by `serde_json`.
//!
//! A document is a `serde_json::Value`, which the verifier cannot look into.
//! The spec functions without a body below name what `serde_json` computes from
//! a document or a text; each executable function is one call into
//! `serde_json` whose contract is assumed, not proved.

use vstd::prelude::*;

verus! {

/// `serde_json::Value`: a JSON document. The verifier sees nothing inside it.
#[verifier::external_type_specification]
#[verifier::external_body]
pub struct ExJsonValue(serde_json::Value);

/// `serde_json::Error`: why a text is no JSON, or a value has no JSON form.
#[verifier::external_type_specification]
#[verifier::external_body]
pub struct ExJsonError(serde_json::Error);

/// The document that `serde_json::from_str` reads from `text`, if it reads one.
pub uninterp spec fn json_parse(text: Seq<char>) -> Option<serde_json::Value>;

/// The member that `Value::get` finds under `key`: present only in an object
/// that holds the key.
pub uninterp spec fn json_member(doc: serde_json::Value, key: Seq<char>) -> Option<
    serde_json::Value,
>;

/// The characters of `doc` where it is a JSON string, as `Value::as_str` gives
/// them.
pub uninterp spec fn json_string(doc: serde_json::Value) -> Option<Seq<char>>;

/// Whether `doc` is the JSON `null`.
pub uninterp spec fn json_is_null(doc: serde_json::Value) -> bool;

/// The compact text that `Value`'s `Display` writes for `doc`.
pub uninterp spec fn json_render(doc: serde_json::Value) -> Seq<char>;

/// No two of `entries` share a key.
pub open spec fn distinct_keys(entries: Seq<(String, serde_json::Value)>) -> bool {
    forall|i: int, j: int|
        0 <= i < j < entries.len() ==> (#[trigger] entries[i]).0@ != (#[trigger] entries[j]).0@
}

/// The value that `entries` holds under `key`.
pub open spec fn entry_under(entries: Seq<(String, serde_json::Value)>, key: Seq<char>) -> Option<
    serde_json::Value,
>
    decreases entries.len(),
{
    if entries.len() == 0 {
        None
    } else if entries.last().0@ == key {
        Some(entries.last().1)
    } else {
        entry_under(entries.drop_last(), key)
    }
}

/// `serde_json::from_str` at type `Value`: the result is `Ok` exactly for the
/// texts that `json_parse` reads, and then holds that document.
#[verifier::external_body]
pub(crate) fn parse(text: &str) -> (r: Result<serde_json::Value, serde_json::Error>)
    ensures
        match r {
            Ok(doc) => json_parse(text@) == Some(doc),
            Err(_) => json_parse(text@) is None,
        },
{
    serde_json::from_str::<serde_json::Value>(text)
}

/// `Value::get` with a string key: the result is the member that `json_member`
/// names, and `None` where there is none.
#[verifier::external_body]
pub(crate) fn member<'a>(doc: &'a serde_json::Value, key: &str) -> (r: Option<
    &'a serde_json::Value,
>)
    ensures
        match r {
            Some(found) => json_member(*doc, key@) == Some(*found),
            None => json_member(*doc, key@) is None,
        },
{
    doc.get(key)
}

/// `Value::as_str`: the characters of a JSON string, `None` for any other
/// document.
#[verifier::external_body]
pub(crate) fn string_of<'a>(doc: &'a serde_json::Value) -> (r: Option<&'a str>)
    ensures
        match r {
            Some(s) => json_string(*doc) == Some(s@),
            None => json_string(*doc) is None,
        },
{
    doc.as_str()
}

/// `Value::String`: the JSON string that holds the characters of `s`. It is
/// neither `null` nor an object, so it has no members.
#[verifier::external_body]
pub(crate) fn text_value(s: String) -> (doc: serde_json::Value)
    ensures
        json_string(doc) == Some(s@),
        !json_is_null(doc),
        forall|key: Seq<char>| #[trigger] json_member(doc, key) is None,
{
    serde_json::Value::String(s)
}

/// `Value::Null`: the JSON `null`, which is no string and has no members.
#[verifier::external_body]
pub(crate) fn null_value() -> (doc: serde_json::Value)
    ensures
        json_is_null(doc),
        json_string(doc) is None,
        forall|key: Seq<char>| #[trigger] json_member(doc, key) is None,
{
    serde_json::Value::Null
}

/// `Value::Object` over the map collected from `entries`: an object whose
/// members are exactly the entries. Keys must differ, as the map keeps one
/// value per key.
#[verifier::external_body]
pub(crate) fn object_value(entries: Vec<(String, serde_json::Value)>) -> (doc: serde_json::Value)
    requires
        distinct_keys(entries@),
    ensures
        forall|key: Seq<char>| #[trigger] json_member(doc, key) == entry_under(entries@, key),
        json_string(doc) is None,
        !json_is_null(doc),
{
    serde_json::Value::Object(entries.into_iter().collect())
}

/// `Display` for `Value`, through `to_string`: the compact text of `doc`.
#[verifier::external_body]
pub(crate) fn render(doc: &serde_json::Value) -> (text: String)
    ensures
        text@ == json_render(*doc),
{
    doc.to_string()
}

} // verus!
