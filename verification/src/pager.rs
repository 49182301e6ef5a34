//! Cross-request pagination state: produce the next request URL from a
//! server-supplied hint, or fall back to counting pages — and never fall
//! back again once any hint has been seen.
use crate::error::Error;
use crate::text;
use crate::text::ParseNumError;
use crate::urlops;
use vstd::prelude::*;
use vstd::string::*;

verus! {

/// How the next page is found. The transition to `LockedToHints` is
/// one-way: numeric paging is never resumed.
#[derive(Clone, Copy, PartialEq, Eq, Structural, Debug)]
pub enum Strategy {
    TryingPageNumbers,
    LockedToHints,
}

/// Pagination state, built once per run from the start URL and advanced
/// once per fetched page.
pub struct Pager {
    /// The start URL, normalized; every hint resolves against it and every
    /// numeric page URL is built from it.
    pub start_url: String,
    /// The most recently requested page number, once numeric paging began.
    pub page: Option<usize>,
    /// The start URL's own `page` value, kept unparsed until the first
    /// numeric advance needs it.
    pub page_param: Option<String>,
    /// The start URL's other query parameters, in order, `page` excluded.
    pub query_params: Vec<(String, String)>,
    pub strategy: Strategy,
}

/// The last `page` value among a URL's query pairs, if any.
pub open spec fn page_param_of(pairs: Seq<(Seq<char>, Seq<char>)>) -> Option<Seq<char>>
    decreases pairs.len(),
{
    if pairs.len() == 0 {
        None
    } else if pairs.last().0 == "page"@ {
        Some(pairs.last().1)
    } else {
        page_param_of(pairs.drop_last())
    }
}

/// A URL's query pairs with every `page` pair removed, order kept.
pub open spec fn non_page_params(pairs: Seq<(Seq<char>, Seq<char>)>) -> Seq<(Seq<char>, Seq<char>)>
    decreases pairs.len(),
{
    if pairs.len() == 0 {
        Seq::empty()
    } else if pairs.last().0 == "page"@ {
        non_page_params(pairs.drop_last())
    } else {
        non_page_params(pairs.drop_last()).push(pairs.last())
    }
}

/// No pair kept by `non_page_params` is named `page`.
pub proof fn lemma_non_page_params_no_page(pairs: Seq<(Seq<char>, Seq<char>)>)
    ensures
        forall|i: int|
            0 <= i < non_page_params(pairs).len() ==> (#[trigger] non_page_params(pairs)[i]).0
                != "page"@,
    decreases pairs.len(),
{
    if pairs.len() > 0 {
        lemma_non_page_params_no_page(pairs.drop_last());
        if pairs.last().0 != "page"@ {
            assert forall|i: int| 0 <= i < non_page_params(pairs).len() implies (
            #[trigger] non_page_params(pairs)[i]).0 != "page"@ by {
                if i < non_page_params(pairs.drop_last()).len() {
                    assert(non_page_params(pairs)[i] == non_page_params(pairs.drop_last())[i]);
                } else {
                    assert(non_page_params(pairs)[i] == pairs.last());
                }
            }
        }
    }
}

/// The strategy after an advance that did or did not see a hint.
pub open spec fn strategy_after(s: Strategy, hint_present: bool) -> Strategy {
    if hint_present {
        Strategy::LockedToHints
    } else {
        s
    }
}

/// The page number a numeric advance continues from: the stored counter,
/// else the start URL's parsed `page` value, else 1 — or nothing when that
/// value does not parse.
pub open spec fn numeric_seed(p: Pager) -> Option<int> {
    match p.page {
        Some(n) => Some(n as int),
        None => match p.page_param {
            Some(v) => if text::valid_usize_digits(v@) {
                Some(text::dec_val(v@))
            } else {
                None
            },
            None => Some(1int),
        },
    }
}

/// The view of an optional string.
pub open spec fn opt_str_view(o: Option<String>) -> Option<Seq<char>> {
    match o {
        Some(s) => Some(s@),
        None => None,
    }
}

/// What one advance yields, as a function of the state and the hint —
/// exact whenever the start URL parses, which construction guarantees.
pub enum AdvanceSpec {
    /// The next request goes to this URL.
    Url(Seq<char>),
    /// The sequence has ended.
    End,
    /// The hint does not resolve against the start URL.
    BadHint,
    /// This page value cannot seed or continue the counter: the offending
    /// text and the failure it is reported with.
    BadPage(Seq<char>, ParseNumError),
}

/// The outcome of one advance.
pub open spec fn advance_spec(p: Pager, hint: Option<Seq<char>>) -> AdvanceSpec {
    match hint {
        Some(h) => match urlops::url_joined(p.start_url@, h) {
            Some(u) => AdvanceSpec::Url(u),
            None => AdvanceSpec::BadHint,
        },
        None => match p.strategy {
            Strategy::LockedToHints => AdvanceSpec::End,
            Strategy::TryingPageNumbers => match numeric_seed(p) {
                None => AdvanceSpec::BadPage(
                    p.page_param->Some_0@,
                    text::parse_failure(p.page_param->Some_0@),
                ),
                Some(seed) => if seed + 1 <= usize::MAX {
                    AdvanceSpec::Url(
                        urlops::url_with_query(
                            p.start_url@,
                            p.query_params.deep_view().push(("page"@, text::dec_str(seed + 1))),
                        ),
                    )
                } else {
                    AdvanceSpec::BadPage(text::dec_str(seed), ParseNumError::TooLarge)
                },
            },
        },
    }
}

/// The stored page number after an advance.
pub open spec fn page_after(p: Pager, hint: Option<Seq<char>>) -> Option<usize> {
    if hint is Some || p.strategy is LockedToHints {
        p.page
    } else {
        match numeric_seed(p) {
            Some(seed) => if seed + 1 <= usize::MAX {
                Some((seed + 1) as usize)
            } else {
                p.page
            },
            None => p.page,
        }
    }
}

impl Pager {
    /// Well-formed: the start URL is one the URL parser accepts, and no
    /// kept query parameter is named `page`.
    pub open spec fn wf(self) -> bool {
        &&& urlops::url_normalized(self.start_url@) is Some
        &&& forall|i: int|
            0 <= i < self.query_params@.len() ==> (#[trigger] self.query_params@[i]).0@ != "page"@
    }

    /// Build a pager from the start URL: capture its `page` parameter (the
    /// last one, unparsed) and its remaining query pairs, in order.
    pub fn new(start_url: &str) -> (p: Pager)
        ensures
            p.start_url@ == start_url@,
            p.page is None,
            p.strategy == Strategy::TryingPageNumbers,
            urlops::url_normalized(start_url@) is Some ==> p.wf(),
            urlops::url_normalized(start_url@) is Some ==> p.query_params.deep_view()
                == non_page_params(urlops::url_query_pairs(start_url@)),
            urlops::url_normalized(start_url@) is Some ==> (match p.page_param {
                Some(v) => page_param_of(urlops::url_query_pairs(start_url@)) == Some(v@),
                None => page_param_of(urlops::url_query_pairs(start_url@)) is None,
            }),
    {
        let pairs = urlops::query_pairs_url(start_url);
        let page_key = String::from_str("page");
        let mut page_param: Option<String> = None;
        let mut query_params: Vec<(String, String)> = Vec::new();
        let mut i: usize = 0;
        while i < pairs.len()
            invariant
                page_key@ == "page"@,
                0 <= i <= pairs@.len(),
                query_params.deep_view() == non_page_params(
                    pairs.deep_view().subrange(0, i as int),
                ),
                match page_param {
                    Some(v) => page_param_of(pairs.deep_view().subrange(0, i as int)) == Some(v@),
                    None => page_param_of(pairs.deep_view().subrange(0, i as int)) is None,
                },
            decreases pairs@.len() - i,
        {
            proof {
                assert(pairs.deep_view().subrange(0, i + 1).drop_last() =~= pairs.deep_view()
                    .subrange(0, i as int));
                assert(pairs.deep_view().subrange(0, i + 1).last() == pairs.deep_view()[i as int]);
            }
            let kv = &pairs[i];
            if kv.0 == page_key {
                page_param = Some(kv.1.clone());
            } else {
                query_params.push((kv.0.clone(), kv.1.clone()));
                proof {
                    assert(query_params.deep_view() =~= non_page_params(
                        pairs.deep_view().subrange(0, i + 1),
                    ));
                }
            }
            i = i + 1;
        }
        proof {
            assert(pairs.deep_view().subrange(0, pairs.deep_view().len() as int) =~= pairs
                .deep_view());
            lemma_non_page_params_no_page(pairs.deep_view());
            assert forall|j: int| 0 <= j < query_params@.len() implies (
            #[trigger] query_params@[j]).0@ != "page"@ by {
                assert(query_params.deep_view()[j] == non_page_params(pairs.deep_view())[j]);
                assert(query_params.deep_view()[j].0 == query_params@[j].0@);
            }
        }
        Pager {
            start_url: start_url.to_owned(),
            page: None,
            page_param,
            query_params,
            strategy: Strategy::TryingPageNumbers,
        }
    }

    /// Decide the next request URL.
    ///
    /// A present hint locks the pager to hints for good and resolves
    /// against the start URL. Otherwise, while numeric paging is still on,
    /// the page counter advances by exactly one — seeded, the first time,
    /// from the start URL's own `page` value, or from 1. A locked pager
    /// without a hint reports the end of the sequence.
    pub fn next(&mut self, next_url_from_response: Option<String>) -> (r: Result<
        Option<String>,
        Error,
    >)
        ensures
            final(self).start_url == old(self).start_url,
            final(self).page_param == old(self).page_param,
            final(self).query_params == old(self).query_params,
            final(self).strategy == strategy_after(
                old(self).strategy,
                next_url_from_response is Some,
            ),
            (r == Ok::<Option<String>, Error>(None::<String>)) <==> (next_url_from_response is None
                && old(self).strategy == Strategy::LockedToHints),
            final(self).page == page_after(*old(self), opt_str_view(next_url_from_response)),
            old(self).wf() ==> (match advance_spec(
                *old(self),
                opt_str_view(next_url_from_response),
            ) {
                AdvanceSpec::Url(u) => r matches Ok(o) && o matches Some(s2) && s2@ == u,
                AdvanceSpec::End => r == Ok::<Option<String>, Error>(None::<String>),
                AdvanceSpec::BadHint => r matches Err(e) && e matches Error::UrlResolution { .. },
                AdvanceSpec::BadPage(v, d) => r matches Err(e) && (e matches Error::PageParse {
                    value,
                    details,
                } && value@ == v && details == d),
            }),
            next_url_from_response matches Some(h) ==> {
                &&& final(self).page == old(self).page
                &&& (r matches Err(e) ==> e matches Error::UrlResolution { .. })
                &&& (urlops::url_normalized(old(self).start_url@) is Some ==> {
                    &&& ((r is Ok) <==> urlops::url_joined(old(self).start_url@, h@) is Some)
                    &&& (r matches Ok(u) ==> (u matches Some(s2) && s2@ == urlops::url_joined(
                        old(self).start_url@,
                        h@,
                    )->Some_0))
                })
            },
            (next_url_from_response is None && old(self).strategy == Strategy::LockedToHints)
                ==> final(self).page == old(self).page,
            (next_url_from_response is None && old(self).strategy == Strategy::TryingPageNumbers
                && numeric_seed(*old(self)) is None) ==> {
                &&& final(self).page == old(self).page
                &&& (r matches Err(e) && e matches Error::PageParse { value, details } && value@
                    == old(self).page_param->Some_0@ && details == text::parse_failure(
                    old(self).page_param->Some_0@,
                ))
            },
            numeric_seed(*old(self)) matches Some(seed) ==> ((next_url_from_response is None
                && old(self).strategy == Strategy::TryingPageNumbers) ==> {
                &&& (seed + 1 <= usize::MAX ==> {
                    &&& final(self).page == Some((seed + 1) as usize)
                    &&& (urlops::url_normalized(old(self).start_url@) is Some ==> (r matches Ok(u)
                        && u matches Some(s2) && s2@ == urlops::url_with_query(
                        old(self).start_url@,
                        old(self).query_params.deep_view().push(
                            ("page"@, text::dec_str(seed + 1)),
                        ),
                    )))
                    &&& (r matches Err(e) ==> e matches Error::UrlResolution { .. })
                })
                &&& (seed + 1 > usize::MAX ==> {
                    &&& final(self).page == old(self).page
                    &&& (r matches Err(e) && e matches Error::PageParse { value, details }
                        && value@ == text::dec_str(seed) && details == ParseNumError::TooLarge)
                })
            }),
    {
        match next_url_from_response {
            Some(next) => {
                // From now on only hints advance the sequence.
                self.strategy = Strategy::LockedToHints;
                match urlops::join_url(self.start_url.as_str(), next.as_str()) {
                    Ok(u) => Ok(Some(u)),
                    Err(details) => Err(Error::UrlResolution { details }),
                }
            },
            None => {
                if self.strategy == Strategy::LockedToHints {
                    return Ok(None);
                }
                let seed: usize = match &self.page {
                    Some(n) => *n,
                    None => match &self.page_param {
                        Some(param) => match text::parse_usize(param.as_str()) {
                            Ok(n) => n,
                            Err(details) => {
                                return Err(
                                    Error::PageParse { value: param.clone(), details },
                                );
                            },
                        },
                        None => 1,
                    },
                };
                if seed == usize::MAX {
                    return Err(
                        Error::PageParse {
                            value: text::fmt_usize(seed),
                            details: ParseNumError::TooLarge,
                        },
                    );
                }
                let page_number = seed + 1;
                self.page = Some(page_number);
                let mut pairs: Vec<(String, String)> = Vec::new();
                let mut i: usize = 0;
                while i < self.query_params.len()
                    invariant
                        0 <= i <= self.query_params@.len(),
                        pairs@.len() == i,
                        forall|j: int|
                            0 <= j < i ==> (#[trigger] pairs@[j]).0@ == self.query_params@[j].0@
                                && pairs@[j].1@ == self.query_params@[j].1@,
                    decreases self.query_params@.len() - i,
                {
                    let kv = &self.query_params[i];
                    pairs.push((kv.0.clone(), kv.1.clone()));
                    i = i + 1;
                }
                pairs.push((String::from_str("page"), text::fmt_usize(page_number)));
                proof {
                    assert(pairs.deep_view() =~= old(self).query_params.deep_view().push(
                        ("page"@, text::dec_str(seed + 1)),
                    ));
                }
                match urlops::with_query_url(self.start_url.as_str(), &pairs) {
                    Ok(u) => Ok(Some(u)),
                    Err(details) => Err(Error::UrlResolution { details }),
                }
            },
        }
    }
}

/// Strategy lock-in is permanent: any advance that sees a hint leaves the
/// pager locked, and no advance unlocks it.
pub proof fn lemma_lock_in_permanent(s: Strategy, hint_present: bool)
    ensures
        strategy_after(s, true) == Strategy::LockedToHints,
        s == Strategy::LockedToHints ==> strategy_after(s, hint_present)
            == Strategy::LockedToHints,
{
}

/// The very first numeric advance continues from the start URL's parsed
/// `page` value — or from 1, the start URL itself being the first page —
/// so the first page it requests is that value plus one.
pub proof fn lemma_first_page_seed(p: Pager)
    requires
        p.page is None,
    ensures
        p.page_param is None ==> numeric_seed(p) == Some(1int),
        p.page_param matches Some(v) ==> (text::valid_usize_digits(v@) ==> numeric_seed(p)
            == Some(text::dec_val(v@))),
{
}

/// The stored page after `k` hint-free advances.
pub open spec fn pages_after(p: Pager, k: nat) -> Option<usize>
    decreases k,
{
    if k == 0 {
        p.page
    } else {
        page_after(Pager { page: pages_after(p, (k - 1) as nat), ..p }, None::<Seq<char>>)
    }
}

/// Absent any hint, the counter walks the integers: starting from a state
/// seeded at `seed` (the parsed initial `page` value, or 1), the k-th
/// advance stores and requests exactly page `seed + k` — page numbers
/// strictly increase by one per advance, as far as a `usize` reaches.
pub proof fn lemma_pages_run(p: Pager, seed: int, k: nat)
    requires
        p.strategy == Strategy::TryingPageNumbers,
        0 <= seed,
        numeric_seed(p) == Some(seed),
        seed + k <= usize::MAX,
        k >= 1,
    ensures
        pages_after(p, k) == Some((seed + k) as usize),
        advance_spec(
            Pager { page: pages_after(p, (k - 1) as nat), ..p },
            None::<Seq<char>>,
        ) == AdvanceSpec::Url(
            urlops::url_with_query(
                p.start_url@,
                p.query_params.deep_view().push(("page"@, text::dec_str(seed + k))),
            ),
        ),
    decreases k,
{
    if k == 1 {
        assert(Pager { page: pages_after(p, 0), ..p } == p);
    } else {
        lemma_pages_run(p, seed, (k - 1) as nat);
        let q = Pager { page: pages_after(p, (k - 1) as nat), ..p };
        assert(numeric_seed(q) == Some(seed + k - 1));
    }
}

/// Page numbers strictly increase by exactly one: after an advance that
/// stored `seed + 1`, the next numeric advance continues from `seed + 1`.
pub proof fn lemma_pages_increase_by_one(p1: Pager, p2: Pager, seed: int)
    requires
        0 <= seed,
        numeric_seed(p1) == Some(seed),
        seed + 1 <= usize::MAX,
        p2.page == Some((seed + 1) as usize),
    ensures
        numeric_seed(p2) == Some(seed + 1),
{
}

} // verus!
