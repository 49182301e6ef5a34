//! Trusted bridge to `serde_json`, from the raw body text to plain values.
//!
//! Every query here is a pure function of the body string (and a member
//! name), so each result carries a name that the callers' contracts share:
//! whether the body decodes, the compact renderings of an array's
//! elements, a string member, and the re-rendered document.
use vstd::prelude::*;

verus! {

/// Whether the body decodes as one JSON document.
pub uninterp spec fn json_parses(body: Seq<char>) -> bool;

/// When the body decodes and its member `key` is an array: the compact
/// renderings of that array's elements, in order.
pub uninterp spec fn member_array_lines(body: Seq<char>, key: Seq<char>) -> Option<Seq<Seq<char>>>;

/// When the body decodes and is itself an array: the compact renderings
/// of its elements, in order.
pub uninterp spec fn bare_array_lines(body: Seq<char>) -> Option<Seq<Seq<char>>>;

/// When the body decodes and its member `key` is a string: that string.
pub uninterp spec fn member_str(body: Seq<char>, key: Seq<char>) -> Option<Seq<char>>;

/// When the body decodes: its compact re-rendering.
pub uninterp spec fn rendered(body: Seq<char>) -> Seq<char>;

/// Relies on `serde_json::from_str`: whether the body is one JSON
/// document, with the decoder's description when it is not.
#[verifier::external_body]
pub(crate) fn json_check(body: &str) -> (r: Result<(), String>)
    ensures
        (r is Ok) == json_parses(body@),
{
    match serde_json::from_str::<serde_json::Value>(body) {
        Ok(_) => Ok(()),
        Err(e) => Err(e.to_string()),
    }
}

/// Relies on `serde_json`'s `from_str`, `Value::get`, `Value::as_array`
/// and `to_string`: the renderings of the named member's elements.
#[verifier::external_body]
pub(crate) fn json_member_array_lines(body: &str, key: &str) -> (r: Option<Vec<String>>)
    ensures
        json_parses(body@) ==> (match r {
            Some(v) => member_array_lines(body@, key@) == Some(v.deep_view()),
            None => member_array_lines(body@, key@) is None,
        }),
        !json_parses(body@) ==> r is None,
{
    let v: serde_json::Value = serde_json::from_str(body).ok()?;
    let arr = v.get(key)?.as_array()?;
    Some(arr.iter().map(|x| serde_json::to_string(x).unwrap_or_default()).collect())
}

/// Relies on `serde_json`'s `from_str`, `Value::as_array` and
/// `to_string`: the renderings of the body's own elements.
#[verifier::external_body]
pub(crate) fn json_bare_array_lines(body: &str) -> (r: Option<Vec<String>>)
    ensures
        json_parses(body@) ==> (match r {
            Some(v) => bare_array_lines(body@) == Some(v.deep_view()),
            None => bare_array_lines(body@) is None,
        }),
        !json_parses(body@) ==> r is None,
{
    let v: serde_json::Value = serde_json::from_str(body).ok()?;
    let arr = v.as_array()?;
    Some(arr.iter().map(|x| serde_json::to_string(x).unwrap_or_default()).collect())
}

/// Relies on `serde_json`'s `from_str`, `Value::get` and `Value::as_str`:
/// the body's named string member.
#[verifier::external_body]
pub(crate) fn json_member_str(body: &str, key: &str) -> (r: Option<String>)
    ensures
        json_parses(body@) ==> (match r {
            Some(s) => member_str(body@, key@) == Some(s@),
            None => member_str(body@, key@) is None,
        }),
        !json_parses(body@) ==> r is None,
{
    let v: serde_json::Value = serde_json::from_str(body).ok()?;
    Some(v.get(key)?.as_str()?.to_string())
}

/// Relies on `serde_json`'s `from_str` and `to_string`: the decoded body,
/// re-rendered compactly.
#[verifier::external_body]
pub(crate) fn json_rendered(body: &str) -> (r: Option<String>)
    ensures
        json_parses(body@) ==> (match r {
            Some(s) => s@ == rendered(body@),
            None => false,
        }),
        !json_parses(body@) ==> r is None,
{
    let v: serde_json::Value = serde_json::from_str(body).ok()?;
    Some(serde_json::to_string(&v).unwrap_or_default())
}

} // verus!
