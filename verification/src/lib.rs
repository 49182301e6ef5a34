//! A library for paging through JSON HTTP APIs: it decides, after each
//! response, where the next page lives — from an RFC 5988 `Link` header, a
//! `next` field in the body, or a `page=N` query-parameter convention — and
//! never flips back once an API has shown an explicit hint.
use vstd::prelude::*;

pub mod error;
pub mod fetch;
pub mod jsonops;
pub mod link;
pub mod pager;
pub mod text;
pub mod urlops;

verus! {

/// Caller-supplied configuration for one paging run.
pub struct Opt {
    /// Basic-auth credentials in `user:password` form.
    pub user_password: Option<String>,
    /// How many values to fetch. If not specified, all pages are fetched.
    pub limit: Option<usize>,
    /// How long to wait between requests.
    pub wait: Option<std::time::Duration>,
    /// Extra header lines, each in `Name: Value` form.
    pub headers: Vec<String>,
    /// The URL of the first page.
    pub url: String,
}

impl Default for Opt {
    fn default() -> (r: Self)
        ensures
            r.user_password is None,
            r.limit is None,
            r.wait is None,
            r.headers@.len() == 0,
            r.url@.len() == 0,
    {
        Opt {
            user_password: None,
            limit: None,
            wait: None,
            headers: Vec::new(),
            url: String::new(),
        }
    }
}

} // verus!
