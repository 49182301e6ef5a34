use curlall::error::Error;
use curlall::fetch::{choose_hint, pick_records, FetchCore, Response};

fn resp(status: u16, status_text: &str, link: Option<&str>, body: &str) -> Response {
    Response {
        status,
        status_text: status_text.to_string(),
        link_header: link.map(|s| s.to_string()),
        body: body.to_string(),
    }
}

fn ok(body: &str) -> Response {
    resp(200, "200 OK", None, body)
}

fn ok_linked(link: &str, body: &str) -> Response {
    resp(200, "200 OK", Some(link), body)
}

fn not_found() -> Response {
    resp(404, "404 Not Found", None, "")
}

/// Drive the fetch core against a canned API until it stops; the emitted
/// lines, the number of requests issued, and the failure that ended the
/// run, if any, come back.
fn run_loop(
    start: &str,
    limit: Option<usize>,
    api: &dyn Fn(&str) -> Response,
) -> (Vec<String>, usize, Option<Error>) {
    let mut core = match FetchCore::start(start, limit) {
        Ok(c) => c,
        Err(e) => return (Vec::new(), 0, Some(e)),
    };
    let mut out: Vec<String> = Vec::new();
    let mut requests: usize = 0;
    while let Some(url) = core.next_url.clone() {
        requests += 1;
        assert!(requests < 100, "the loop failed to terminate");
        let r = api(&url);
        let (lines, failure) = core.process_response(&r);
        out.extend(lines);
        if let Some(e) = failure {
            return (out, requests, Some(e));
        }
    }
    (out, requests, None)
}

/// The run's output on success.
fn run_ok(start: &str, limit: Option<usize>, api: &dyn Fn(&str) -> Response) -> (Vec<String>, usize) {
    let (out, requests, failure) = run_loop(start, limit, api);
    assert!(failure.is_none(), "the run failed: {:?}", failure);
    (out, requests)
}

/// The failure that ended the run.
fn run_err(start: &str, limit: Option<usize>, api: &dyn Fn(&str) -> Response) -> (Vec<String>, Error) {
    let (out, _, failure) = run_loop(start, limit, api);
    (out, failure.expect("the run was expected to fail"))
}

fn numbered_pages(url: &str) -> Response {
    match url {
        "http://api.test/without-link" => ok(r#"{"values": [1, 2]}"#),
        "http://api.test/without-link?page=2" => ok(r#"{"values": [3, 4]}"#),
        "http://api.test/without-link?page=3" => ok(r#"{"values": [5, 6]}"#),
        "http://api.test/without-link?page=4" => ok(r#"{"values": []}"#),
        _ => not_found(),
    }
}

#[test]
fn scenario_no_hints_no_initial_page() {
    let (out, requests) = run_ok("http://api.test/without-link", None, &numbered_pages);
    assert_eq!(out, vec!["1", "2", "3", "4", "5", "6"]);
    assert_eq!(requests, 4);
}

#[test]
fn scenario_initial_page_param_resumes() {
    let (out, _) = run_ok("http://api.test/without-link?page=2", None, &numbered_pages);
    assert_eq!(out, vec!["3", "4", "5", "6"]);
}

#[test]
fn scenario_limit_stops_after_first_request() {
    let (out, requests) = run_ok("http://api.test/without-link", Some(2), &numbered_pages);
    assert_eq!(out, vec!["1", "2"]);
    assert_eq!(requests, 1);
}

#[test]
fn scenario_limit_truncates_mid_page() {
    let (out, requests) = run_ok("http://api.test/without-link", Some(3), &numbered_pages);
    assert_eq!(out, vec!["1", "2", "3"]);
    assert_eq!(requests, 2);
}

#[test]
fn rerunning_the_loop_emits_the_same_sequence() {
    // The mock API is deterministic, so two runs from the same start URL
    // match exactly.
    let first = run_ok("http://api.test/without-link", None, &numbered_pages);
    let second = run_ok("http://api.test/without-link", None, &numbered_pages);
    assert_eq!(first, second);
}

fn body_next_pages(url: &str) -> Response {
    match url {
        "http://api.test/next-link" => ok(r#"{"values": [1, 2], "next": "/next-link?page=b"}"#),
        "http://api.test/next-link?page=b" => ok(r#"{"values": [3, 4], "next": "/next-link?page=c"}"#),
        "http://api.test/next-link?page=c" => ok(r#"{"values": [5]}"#),
        _ => not_found(),
    }
}

#[test]
fn scenario_body_next_hints() {
    let (out, requests) = run_ok("http://api.test/next-link", None, &body_next_pages);
    assert_eq!(out, vec!["1", "2", "3", "4", "5"]);
    assert_eq!(requests, 3);
}

#[test]
fn scenario_body_next_hints_from_later_page() {
    // `page=b` never parses as a number: the hints carry the whole run.
    let (out, _) = run_ok("http://api.test/next-link?page=b", None, &body_next_pages);
    assert_eq!(out, vec!["3", "4", "5"]);
}

fn link_header_pages(url: &str) -> Response {
    match url {
        "http://api.test/link-header" => {
            ok_linked("</link-header?page=b>; rel=\"next\"", r#"{"items": [1, 2]}"#)
        }
        "http://api.test/link-header?page=b" => ok_linked(
            "</link-header?page=c>; rel=\"next\", </link-header>; rel=\"prev\"",
            r#"{"items": [3, 4]}"#,
        ),
        "http://api.test/link-header?page=c" => {
            ok_linked("</link-header?page=b>; rel=\"prev\"", r#"{"items": [5]}"#)
        }
        _ => not_found(),
    }
}

#[test]
fn scenario_link_header_hints() {
    let (out, requests) = run_ok("http://api.test/link-header", None, &link_header_pages);
    assert_eq!(out, vec!["1", "2", "3", "4", "5"]);
    assert_eq!(requests, 3);
}

#[test]
fn scenario_link_header_hints_from_later_page() {
    let (out, _) = run_ok("http://api.test/link-header?page=b", None, &link_header_pages);
    assert_eq!(out, vec!["3", "4", "5"]);
}

#[test]
fn scenario_malformed_initial_page_param() {
    let (out, err) = run_err("http://api.test/non-numeric?page=x", None, &|_| {
        ok(r#"{"values": [1, 2]}"#)
    });
    assert!(err
        .message()
        .contains("Page query param 'x' could not be parsed as a number"));
    // The failing page's records were already emitted, as a streaming run
    // prints them before the advance fails.
    assert_eq!(out, vec!["1", "2"]);
}

#[test]
fn scenario_first_request_not_found_fails() {
    // A 404 on the very first request is a genuine error, not a graceful
    // end.
    let (out, err) = run_err("http://api.test/missing", None, &|_| not_found());
    assert!(out.is_empty());
    assert_eq!(
        err.message(),
        "Error getting http://api.test/missing: 404 Not Found: "
    );
}

#[test]
fn scenario_later_not_found_ends_gracefully() {
    let api = |url: &str| match url {
        "http://api.test/two-pages" => ok(r#"{"values": [1]}"#),
        _ => not_found(),
    };
    let (out, requests) = run_ok("http://api.test/two-pages", None, &api);
    assert_eq!(out, vec!["1"]);
    assert_eq!(requests, 2);
}

#[test]
fn scenario_error_status_fails_with_exact_message() {
    let api = |url: &str| match url {
        "http://api.test/error-500" => resp(500, "500 Internal Server Error", None, ""),
        _ => not_found(),
    };
    let (_, err) = run_err("http://api.test/error-500", None, &api);
    assert_eq!(
        err.message(),
        "Error getting http://api.test/error-500: 500 Internal Server Error: "
    );
}

#[test]
fn scenario_body_without_records_is_malformed() {
    let (_, err) = run_err("http://api.test/odd", None, &|_| ok(r#"{"foo": 1}"#));
    assert_eq!(
        err.message(),
        "Could not read values from response. Expected either {\"values\": [...]} or [...], got: {\"foo\":1}"
    );
}

#[test]
fn scenario_unparseable_body_fails() {
    let (_, err) = run_err("http://api.test/garbage", None, &|_| ok("not json"));
    assert!(matches!(err, Error::BodyDecode { .. }));
}

#[test]
fn scenario_bare_array_body() {
    let api = |url: &str| match url {
        "http://api.test/bare" => ok(r#"[1, 2]"#),
        "http://api.test/bare?page=2" => ok(r#"[]"#),
        _ => not_found(),
    };
    let (out, _) = run_ok("http://api.test/bare", None, &api);
    assert_eq!(out, vec!["1", "2"]);
}

#[test]
fn scenario_empty_page_overrides_hint() {
    // An explicit empty page ends the run even though a hint offers more.
    let api = |url: &str| match url {
        "http://api.test/e" => ok(r#"{"values": [], "next": "/e?page=z"}"#),
        _ => panic!("no request may follow an empty page"),
    };
    let (out, requests) = run_ok("http://api.test/e", None, &api);
    assert_eq!(out, Vec::<String>::new());
    assert_eq!(requests, 1);
}

#[test]
fn scenario_bad_start_url_is_rejected() {
    assert!(matches!(
        FetchCore::start("not a url", None),
        Err(Error::UrlResolution { .. })
    ));
}

#[test]
fn start_url_is_normalized_before_the_first_request() {
    let core = FetchCore::start("HTTP://API.TEST/a?b=1", None).unwrap();
    assert_eq!(core.next_url, Some("http://api.test/a?b=1".to_string()));
    assert_eq!(core.values_limit, usize::MAX);
    assert_eq!(core.values_printed, 0);
}

#[test]
fn records_are_reencoded_compactly() {
    // Each record is one line of compact JSON, whatever whitespace the
    // page used.
    let api = |url: &str| match url {
        "http://api.test/fmt" => ok("{\"values\": [ {\"a\": 1,  \"b\": [2, 3]},  \"x\" ]}"),
        "http://api.test/fmt?page=2" => ok(r#"{"values": []}"#),
        _ => not_found(),
    };
    let (out, _) = run_ok("http://api.test/fmt", None, &api);
    assert_eq!(out, vec!["{\"a\":1,\"b\":[2,3]}", "\"x\""]);
}

#[test]
fn pick_records_prefers_values_then_items_then_bare() {
    let values = Some(vec!["1".to_string()]);
    let items = Some(vec!["2".to_string()]);
    let bare = Some(vec!["3".to_string()]);
    assert_eq!(pick_records(values.clone(), items.clone(), bare.clone()), values);
    assert_eq!(pick_records(None, items.clone(), bare.clone()), items);
    assert_eq!(pick_records(None, None, bare.clone()), bare);
    assert_eq!(pick_records(None, None, None), None);
}

#[test]
fn link_header_hint_wins_over_body_next() {
    assert_eq!(
        choose_hint(Some("h".to_string()), Some("b".to_string())),
        Some("h".to_string())
    );
    assert_eq!(choose_hint(None, Some("b".to_string())), Some("b".to_string()));
    assert_eq!(choose_hint(Some("h".to_string()), None), Some("h".to_string()));
    assert_eq!(choose_hint(None, None), None);
}

#[test]
fn scenario_header_hint_beats_body_next() {
    let api = |url: &str| match url {
        "http://api.test/both" => ok_linked(
            "</both?page=h>; rel=\"next\"",
            r#"{"values": [1], "next": "/both?page=body"}"#,
        ),
        "http://api.test/both?page=h" => ok(r#"{"values": []}"#),
        _ => panic!("the header hint must win, not {}", url),
    };
    let (out, _) = run_ok("http://api.test/both", None, &api);
    assert_eq!(out, vec!["1"]);
}
