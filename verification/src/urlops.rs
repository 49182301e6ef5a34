//! Trusted bridge to the `url` crate: parsing, relative resolution, query
//! reading and query rewriting, all over plain strings.
//!
//! Each operation is a pure function of its string arguments, so its result
//! carries a name that the callers' contracts share; what the names denote
//! is exactly what the `url` crate computes.
use vstd::prelude::*;

verus! {

/// The normalized serialization of a URL string, when it parses as an
/// absolute URL at all.
pub uninterp spec fn url_normalized(s: Seq<char>) -> Option<Seq<char>>;

/// The serialization of resolving `input` — absolute or relative — against
/// the URL that `base` parses to, when the resolution succeeds.
pub uninterp spec fn url_joined(base: Seq<char>, input: Seq<char>) -> Option<Seq<char>>;

/// The serialization of the URL that `base` parses to, its query replaced
/// by the given pairs, form-urlencoded in order.
pub uninterp spec fn url_with_query(base: Seq<char>, pairs: Seq<(Seq<char>, Seq<char>)>) -> Seq<
    char,
>;

/// The percent-decoded query pairs of the URL that `base` parses to, in
/// order.
pub uninterp spec fn url_query_pairs(base: Seq<char>) -> Seq<(Seq<char>, Seq<char>)>;

/// Relies on `url::Url::parse` and the `String` conversion of a `Url`,
/// which yields its serialization; a `Url`'s serialization is itself a
/// well-formed URL string, as `Url::as_str` documents.
#[verifier::external_body]
pub(crate) fn parse_url(s: &str) -> (r: Result<String, String>)
    ensures
        (r is Ok) == (url_normalized(s@) is Some),
        r matches Ok(u) ==> u@ == url_normalized(s@)->Some_0 && url_normalized(u@) is Some,
{
    match url::Url::parse(s) {
        Ok(u) => Ok(String::from(u)),
        Err(e) => Err(e.to_string()),
    }
}

/// Relies on `url::Url::join`, which resolves a possibly-relative reference
/// against a base URL and fails exactly when the reference cannot be parsed
/// against that base.
#[verifier::external_body]
pub(crate) fn join_url(base: &str, input: &str) -> (r: Result<String, String>)
    ensures
        url_normalized(base@) is Some ==> ((r is Ok) == (url_joined(base@, input@) is Some)),
        url_normalized(base@) is Some ==> (r matches Ok(u) ==> u@ == url_joined(base@, input@)->Some_0),
        url_normalized(base@) is None ==> r is Err,
{
    match url::Url::parse(base) {
        Ok(b) => match b.join(input) {
            Ok(u) => Ok(String::from(u)),
            Err(e) => Err(e.to_string()),
        },
        Err(e) => Err(e.to_string()),
    }
}

/// Relies on `url::Url::query_pairs_mut`: clearing the query and extending
/// it writes the given pairs back form-urlencoded, in order.
#[verifier::external_body]
pub(crate) fn with_query_url(base: &str, pairs: &Vec<(String, String)>) -> (r: Result<String, String>)
    ensures
        url_normalized(base@) is Some ==> r is Ok,
        url_normalized(base@) is Some ==> (r matches Ok(u) ==> u@ == url_with_query(base@, pairs.deep_view())),
        url_normalized(base@) is None ==> r is Err,
{
    match url::Url::parse(base) {
        Ok(mut u) => {
            u.query_pairs_mut().clear().extend_pairs(pairs.iter().map(|p| (&p.0, &p.1)));
            Ok(String::from(u))
        },
        Err(e) => Err(e.to_string()),
    }
}

/// Relies on `url::Url::query_pairs`: the query decoded as form-urlencoded
/// pairs, in the order they stand in the URL.
#[verifier::external_body]
pub(crate) fn query_pairs_url(base: &str) -> (r: Vec<(String, String)>)
    ensures
        url_normalized(base@) is Some ==> r.deep_view() == url_query_pairs(base@),
{
    match url::Url::parse(base) {
        Ok(u) => u.query_pairs().map(|(k, v)| (k.into_owned(), v.into_owned())).collect(),
        Err(_) => Vec::new(),
    }
}

} // verus!
