//! The fetch loop's decision core: classify each response, locate the
//! record array, emit records up to the limit, pick the hint, and drive
//! the pager — everything the loop decides between two requests.
use crate::error::Error;
use crate::jsonops;
use crate::jsonops::{bare_array_lines, json_parses, member_array_lines, member_str, rendered};
use crate::link;
use crate::pager::{
    advance_spec,
    non_page_params,
    opt_str_view,
    page_after,
    page_param_of,
    strategy_after,
    AdvanceSpec,
    Pager,
    Strategy,
};
use crate::urlops;
use vstd::prelude::*;
use vstd::string::*;

verus! {

/// The statuses a page fetch accepts: success and redirection.
pub open spec fn in_success_range(status: int) -> bool {
    200 <= status < 400
}

/// One HTTP response as the loop sees it: the status code, its standard
/// text (as an error message would print it), the raw `Link` header if one
/// came, and the raw body text.
pub struct Response {
    pub status: u16,
    pub status_text: String,
    pub link_header: Option<String>,
    pub body: String,
}

/// The record lines a decoded body yields: its `values` member, else its
/// `items` member, else the body itself when that is an array — the first
/// array wins; nothing when no shape matches.
pub open spec fn records_of(body: Seq<char>) -> Option<Seq<Seq<char>>> {
    if member_array_lines(body, "values"@) is Some {
        member_array_lines(body, "values"@)
    } else if member_array_lines(body, "items"@) is Some {
        member_array_lines(body, "items"@)
    } else {
        bare_array_lines(body)
    }
}

/// The hint a response carries: the `Link` header's `rel="next"` URI wins
/// over the body's `next` member.
pub open spec fn hint_of(link_header: Option<Seq<char>>, body: Seq<char>) -> Option<Seq<char>> {
    match link_header {
        Some(h) => if link::next_link_of(h) is Some {
            link::next_link_of(h)
        } else {
            member_str(body, "next"@)
        },
        None => member_str(body, "next"@),
    }
}

/// How many of a page's records are emitted: all of them, unless the
/// limit cuts the page short.
pub open spec fn emit_count(n_records: int, printed: int, limit: int) -> int {
    if printed + n_records <= limit {
        n_records
    } else {
        limit - printed
    }
}

/// The record array is taken from `values`, else from `items`, else from
/// the body itself — the first present wins.
pub fn pick_records(
    from_values: Option<Vec<String>>,
    from_items: Option<Vec<String>>,
    bare: Option<Vec<String>>,
) -> (r: Option<Vec<String>>)
    ensures
        r == if from_values is Some {
            from_values
        } else if from_items is Some {
            from_items
        } else {
            bare
        },
{
    if from_values.is_some() {
        from_values
    } else if from_items.is_some() {
        from_items
    } else {
        bare
    }
}

/// A hint from the `Link` header wins over the body's `next` field.
pub fn choose_hint(from_header: Option<String>, from_body: Option<String>) -> (r: Option<String>)
    ensures
        r == if from_header is Some {
            from_header
        } else {
            from_body
        },
{
    if from_header.is_some() {
        from_header
    } else {
        from_body
    }
}

/// Per-run fetch state: the pager, the emission count and its bound, and
/// the URL the next request goes to — `None` once the sequence has ended.
pub struct FetchCore {
    pub pager: Pager,
    pub values_printed: usize,
    pub values_limit: usize,
    pub next_url: Option<String>,
}

impl FetchCore {
    /// Begin a run: parse and normalize the start URL, build the pager
    /// from it, and aim the first request at it. Without a limit, every
    /// page is fetched.
    pub fn start(url: &str, limit: Option<usize>) -> (r: Result<FetchCore, Error>)
        ensures
            (r is Ok) == (urlops::url_normalized(url@) is Some),
            r matches Err(e) ==> e matches Error::UrlResolution { .. },
            r matches Ok(c) ==> {
                &&& c.values_printed == 0
                &&& c.values_limit == (if limit is Some {
                    limit->Some_0
                } else {
                    usize::MAX
                })
                &&& c.next_url matches Some(u) && u@ == urlops::url_normalized(url@)->Some_0
                &&& c.pager.start_url@ == urlops::url_normalized(url@)->Some_0
                &&& c.pager.page is None
                &&& c.pager.strategy == Strategy::TryingPageNumbers
                &&& c.pager.wf()
                &&& c.pager.query_params.deep_view() == non_page_params(
                    urlops::url_query_pairs(c.pager.start_url@),
                )
                &&& (match c.pager.page_param {
                    Some(v) => page_param_of(urlops::url_query_pairs(c.pager.start_url@)) == Some(
                        v@,
                    ),
                    None => page_param_of(urlops::url_query_pairs(c.pager.start_url@)) is None,
                })
            },
    {
        let normalized = match urlops::parse_url(url) {
            Ok(u) => u,
            Err(details) => {
                return Err(Error::UrlResolution { details });
            },
        };
        let pager = Pager::new(normalized.as_str());
        let values_limit = match limit {
            Some(l) => l,
            None => usize::MAX,
        };
        Ok(FetchCore { pager, values_printed: 0, values_limit, next_url: Some(normalized) })
    }

    /// Apply one response: classify the status, locate the record array,
    /// emit records up to the limit, pick the hint, and ask the pager
    /// where the next request goes.
    ///
    /// The lines — one compact JSON document per record, in array order —
    /// are what this page contributes to the output; on a success status
    /// they are exactly the first `emit_count` of `records_of` the body,
    /// and they are handed back even when the advance that follows them
    /// fails, as a streaming run would already have printed them. The
    /// error, if any, ends the run.
    pub fn process_response(&mut self, resp: &Response) -> (r: (Vec<String>, Option<Error>))
        requires
            old(self).next_url is Some,
            old(self).values_printed <= old(self).values_limit,
        ensures
            final(self).values_limit == old(self).values_limit,
            final(self).values_printed <= final(self).values_limit,
            final(self).values_printed == old(self).values_printed + r.0@.len(),
            final(self).pager.start_url == old(self).pager.start_url,
            final(self).pager.page_param == old(self).pager.page_param,
            final(self).pager.query_params == old(self).pager.query_params,
            old(self).pager.strategy == Strategy::LockedToHints ==> final(self).pager.strategy
                == Strategy::LockedToHints,
            r.1 is None ==> (final(self).values_printed == final(self).values_limit
                ==> final(self).next_url is None),
            (resp.status == 404 && old(self).values_printed > 0) ==> {
                &&& r.1 is None
                &&& r.0@.len() == 0
                &&& final(self).next_url is None
                &&& final(self).pager == old(self).pager
            },
            (!(resp.status == 404 && old(self).values_printed > 0) && !in_success_range(
                resp.status as int,
            )) ==> {
                &&& (r.1 matches Some(e) && e matches Error::RequestFailed { url, status, body }
                    && url@ == old(self).next_url->Some_0@ && status@ == resp.status_text@ && body@
                    == resp.body@)
                &&& r.0@.len() == 0
                &&& *final(self) == *old(self)
            },
            (!(resp.status == 404 && old(self).values_printed > 0) && in_success_range(
                resp.status as int,
            )) ==> {
                &&& (!json_parses(resp.body@) ==> {
                    &&& (r.1 matches Some(e) && e matches Error::BodyDecode { .. })
                    &&& r.0@.len() == 0
                    &&& *final(self) == *old(self)
                })
                &&& ((json_parses(resp.body@) && records_of(resp.body@) is None) ==> {
                    &&& (r.1 matches Some(e) && e matches Error::MalformedResponse { body }
                        && body@ == rendered(resp.body@))
                    &&& r.0@.len() == 0
                    &&& *final(self) == *old(self)
                })
                &&& (records_of(resp.body@) matches Some(recs) ==> (json_parses(resp.body@) ==> {
                    &&& r.0.deep_view() == recs.subrange(
                        0,
                        emit_count(
                            recs.len() as int,
                            old(self).values_printed as int,
                            old(self).values_limit as int,
                        ),
                    )
                    &&& (recs.len() == 0 ==> {
                        &&& r.1 is None
                        &&& final(self).next_url is None
                        &&& final(self).pager == old(self).pager
                    })
                    &&& ((recs.len() > 0 && old(self).values_printed + recs.len() >= old(
                        self,
                    ).values_limit) ==> {
                        &&& r.1 is None
                        &&& final(self).next_url is None
                        &&& final(self).pager == old(self).pager
                    })
                    &&& ((recs.len() > 0 && old(self).values_printed + recs.len() < old(
                        self,
                    ).values_limit) ==> {
                        &&& final(self).pager.page == page_after(
                            old(self).pager,
                            hint_of(opt_str_view(resp.link_header), resp.body@),
                        )
                        &&& final(self).pager.strategy == strategy_after(
                            old(self).pager.strategy,
                            hint_of(opt_str_view(resp.link_header), resp.body@) is Some,
                        )
                        &&& (old(self).pager.wf() ==> (match advance_spec(
                            old(self).pager,
                            hint_of(opt_str_view(resp.link_header), resp.body@),
                        ) {
                            AdvanceSpec::Url(u) => r.1 is None && (final(self).next_url matches Some(
                                s2,
                            ) && s2@ == u),
                            AdvanceSpec::End => r.1 is None && final(self).next_url is None,
                            AdvanceSpec::BadHint => r.1 matches Some(e)
                                && e matches Error::UrlResolution { .. },
                            AdvanceSpec::BadPage(v, d) => r.1 matches Some(e)
                                && (e matches Error::PageParse { value, details } && value@ == v
                                && details == d),
                        }))
                    })
                }))
            },
    {
        let url = self.next_url.as_ref().unwrap().clone();
        if resp.status == 404 && self.values_printed > 0 {
            // Not our first page: a missing next page is the end, not an
            // error.
            self.next_url = None;
            return (Vec::new(), None);
        }
        if !(resp.status >= 200 && resp.status < 400) {
            let e = Error::RequestFailed {
                url,
                status: resp.status_text.clone(),
                body: resp.body.clone(),
            };
            return (Vec::new(), Some(e));
        }
        if let Err(details) = jsonops::json_check(resp.body.as_str()) {
            return (Vec::new(), Some(Error::BodyDecode { details }));
        }
        let records = match pick_records(
            jsonops::json_member_array_lines(resp.body.as_str(), "values"),
            jsonops::json_member_array_lines(resp.body.as_str(), "items"),
            jsonops::json_bare_array_lines(resp.body.as_str()),
        ) {
            Some(rs) => rs,
            None => {
                let shown = jsonops::json_rendered(resp.body.as_str()).unwrap();
                return (Vec::new(), Some(Error::MalformedResponse { body: shown }));
            },
        };
        let ghost recs = records.deep_view();
        proof {
            assert(records_of(resp.body@) == Some(recs));
        }
        if records.len() == 0 {
            // An empty page ends the sequence, hint or no hint.
            self.next_url = None;
            return (Vec::new(), None);
        }
        let mut lines: Vec<String> = Vec::new();
        let mut idx: usize = 0;
        while idx < records.len() && self.values_printed < self.values_limit
            invariant
                !(resp.status == 404 && old(self).values_printed > 0),
                in_success_range(resp.status as int),
                recs == records.deep_view(),
                self.values_limit == old(self).values_limit,
                old(self).values_printed <= self.values_printed <= self.values_limit,
                idx == self.values_printed - old(self).values_printed,
                lines.deep_view() == recs.subrange(0, idx as int),
                self.pager == old(self).pager,
                self.next_url == old(self).next_url,
                0 <= idx <= records@.len(),
            decreases records@.len() - idx,
        {
            let ghost prevseq = lines@;
            let ghost prevdv = lines.deep_view();
            let line = records[idx].clone();
            proof {
                assert(recs[idx as int] == records@[idx as int]@);
                assert(line@ == recs[idx as int]);
            }
            lines.push(line);
            proof {
                assert(prevdv.len() == prevseq.len());
                assert(prevdv.len() == idx as int);
                assert(lines@ == prevseq.push(line));
                assert(lines@.len() == idx + 1);
                assert(lines.deep_view().len() == idx + 1);
                assert forall|t: int| 0 <= t < idx + 1 implies lines.deep_view()[t]
                    == recs.subrange(0, idx + 1)[t] by {
                    assert(lines.deep_view()[t] == lines@[t].deep_view());
                    if t < idx {
                        assert(lines@[t] == prevseq[t]);
                        assert(prevdv[t] == prevseq[t].deep_view());
                        assert(prevdv[t] == recs.subrange(0, idx as int)[t]);
                    } else {
                        assert(lines@[t] == line);
                    }
                }
                assert(lines.deep_view() =~= recs.subrange(0, idx + 1));
            }
            self.values_printed = self.values_printed + 1;
            idx = idx + 1;
        }
        proof {
            assert(idx as int == emit_count(
                recs.len() as int,
                old(self).values_printed as int,
                old(self).values_limit as int,
            ));
        }
        if self.values_printed >= self.values_limit {
            // The limit is reached: whatever of this page remains is
            // dropped, and no further request is made.
            self.next_url = None;
            return (lines, None);
        }
        let header_hint: Option<String> = match &resp.link_header {
            Some(h) => link::parse_next_link(h.as_str()),
            None => None,
        };
        let body_hint = jsonops::json_member_str(resp.body.as_str(), "next");
        let hint = choose_hint(header_hint, body_hint);
        proof {
            assert(opt_str_view(hint) == hint_of(opt_str_view(resp.link_header), resp.body@));
        }
        match self.pager.next(hint) {
            Ok(o) => {
                self.next_url = o;
                (lines, None)
            },
            Err(e) => (lines, Some(e)),
        }
    }
}

} // verus!
