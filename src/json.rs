use vstd::prelude::*;

verus! {

#[verifier::external_type_specification]
#[verifier::external_body]
pub struct ExJsonValue(serde_json::Value);

/// Whether serde_json reads the text as one JSON value.
pub uninterp spec fn json_parses(text: Seq<char>) -> bool;

/// The string held under `key` in the JSON object the text holds, if the text
/// parses, is an object, has that member, and the member is a string.
pub uninterp spec fn json_str_member(text: Seq<char>, key: Seq<char>) -> Option<Seq<char>>;

/// Whether the JSON object the text holds has a member under `key`.
pub uninterp spec fn json_has_member(text: Seq<char>, key: Seq<char>) -> bool;

/// The string held under `inner` in the object held under `outer` in the
/// JSON object the text holds.
pub uninterp spec fn json_nested_str_member(text: Seq<char>, outer: Seq<char>, inner: Seq<char>) -> Option<Seq<char>>;

/// Relies on serde_json::from_str into a `serde_json::Value`: whether it
/// succeeds, which depends on the text alone.
#[verifier::external_body]
pub(crate) fn parses(text: &str) -> (b: bool)
    ensures
        b == json_parses(text@),
{
    serde_json::from_str::<serde_json::Value>(text).is_ok()
}

/// Relies on serde_json::from_str into a `serde_json::Value`, then
/// `Value::get` and `Value::as_str`: the outcome depends on the text and key
/// alone, and is `None` where the text does not parse.
#[verifier::external_body]
pub(crate) fn str_member(text: &str, key: &str) -> (r: Option<String>)
    ensures
        match r {
            Some(s) => json_str_member(text@, key@) == Some(s@),
            None => json_str_member(text@, key@) is None,
        },
        r is Some ==> json_parses(text@),
{
    let v: serde_json::Value = serde_json::from_str(text).ok()?;
    v.get(key)?.as_str().map(String::from)
}

/// Relies on serde_json::from_str into a `serde_json::Value`, then
/// `Value::get`: the member under `key`, copied out; `None` where the text
/// does not parse, is not an object, or lacks the member.
#[verifier::external_body]
pub(crate) fn member(text: &str, key: &str) -> (r: Option<serde_json::Value>)
    ensures
        r is Some == json_has_member(text@, key@),
        r is Some ==> json_parses(text@),
{
    let v: serde_json::Value = serde_json::from_str(text).ok()?;
    v.get(key).cloned()
}

/// Relies on serde_json::from_str into a `serde_json::Value`, then
/// `Value::get` twice and `Value::as_str`.
#[verifier::external_body]
pub(crate) fn nested_str_member(text: &str, outer: &str, inner: &str) -> (r: Option<String>)
    ensures
        match r {
            Some(s) => json_nested_str_member(text@, outer@, inner@) == Some(s@),
            None => json_nested_str_member(text@, outer@, inner@) is None,
        },
{
    let v: serde_json::Value = serde_json::from_str(text).ok()?;
    v.get(outer)?.get(inner)?.as_str().map(String::from)
}

} // verus!
