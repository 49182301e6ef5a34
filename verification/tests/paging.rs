use curlall::error::Error;
use curlall::pager::{Pager, Strategy};
use curlall::text::{
    fmt_usize, parse_usize, split_header_line, split_user_password, ParseNumError,
};

#[test]
fn parse_usize_exact_values() {
    assert_eq!(parse_usize("0"), Ok(0));
    assert_eq!(parse_usize("7"), Ok(7));
    assert_eq!(parse_usize("41"), Ok(41));
    assert_eq!(parse_usize("18446744073709551615"), Ok(usize::MAX));
}

#[test]
fn parse_usize_failures() {
    assert_eq!(parse_usize(""), Err(ParseNumError::Empty));
    assert_eq!(parse_usize("x"), Err(ParseNumError::InvalidDigit));
    assert_eq!(parse_usize("12b"), Err(ParseNumError::InvalidDigit));
    assert_eq!(parse_usize("-3"), Err(ParseNumError::InvalidDigit));
    assert_eq!(parse_usize("18446744073709551616"), Err(ParseNumError::TooLarge));
}

#[test]
fn fmt_usize_exact_values() {
    assert_eq!(fmt_usize(0), "0");
    assert_eq!(fmt_usize(7), "7");
    assert_eq!(fmt_usize(10), "10");
    assert_eq!(fmt_usize(123), "123");
    assert_eq!(fmt_usize(usize::MAX), "18446744073709551615");
}

#[test]
fn split_user_password_forms() {
    assert_eq!(split_user_password("admin:hunter2"), ("admin".to_string(), Some("hunter2".to_string())));
    assert_eq!(split_user_password("admin"), ("admin".to_string(), None));
    assert_eq!(split_user_password("a:b:c"), ("a".to_string(), Some("b:c".to_string())));
    assert_eq!(split_user_password(":pw"), ("".to_string(), Some("pw".to_string())));
}

#[test]
fn split_header_line_forms() {
    assert_eq!(split_header_line("Foo: 1"), ("Foo".to_string(), "1".to_string()));
    assert_eq!(split_header_line("Bar: a: b"), ("Bar".to_string(), "a: b".to_string()));
    assert_eq!(split_header_line("NoColon"), ("NoColon".to_string(), "".to_string()));
    assert_eq!(split_header_line("X:   spaced"), ("X".to_string(), "spaced".to_string()));
    // The value's leading blanks cover all of Unicode's whitespace, as
    // std's trim_start has it.
    assert_eq!(split_header_line("Y:\u{A0}\u{2003}v"), ("Y".to_string(), "v".to_string()));
}

#[test]
fn pager_splits_start_url_query() {
    // query_pairs are percent-decoded and `page` is captured separately.
    let p = Pager::new("http://api.test/w?a=1&page=7&b=%20x");
    assert_eq!(p.page_param, Some("7".to_string()));
    assert_eq!(
        p.query_params,
        vec![("a".to_string(), "1".to_string()), ("b".to_string(), " x".to_string())]
    );
    assert_eq!(p.page, None);
    assert_eq!(p.strategy, Strategy::TryingPageNumbers);
}

#[test]
fn pager_counts_from_two_without_initial_page() {
    // The start URL is page 1: the first numeric advance requests page 2,
    // and every further advance increases the number by exactly one.
    let mut p = Pager::new("http://api.test/without-link");
    assert_eq!(p.next(None), Ok(Some("http://api.test/without-link?page=2".to_string())));
    assert_eq!(p.page, Some(2));
    assert_eq!(p.next(None), Ok(Some("http://api.test/without-link?page=3".to_string())));
    assert_eq!(p.page, Some(3));
    assert_eq!(p.next(None), Ok(Some("http://api.test/without-link?page=4".to_string())));
    assert_eq!(p.page, Some(4));
}

#[test]
fn pager_seeds_counter_from_initial_page_param() {
    let mut p = Pager::new("http://api.test/w?foo=bar&page=41");
    assert_eq!(p.next(None), Ok(Some("http://api.test/w?foo=bar&page=42".to_string())));
    assert_eq!(p.page, Some(42));
}

#[test]
fn pager_reports_bad_initial_page_param() {
    let mut p = Pager::new("http://api.test/w?page=x");
    match p.next(None) {
        Err(e) => {
            let msg = e.message();
            assert!(msg.contains("Page query param 'x' could not be parsed as a number"));
            assert_eq!(
                msg,
                "Page query param 'x' could not be parsed as a number: invalid digit found in string"
            );
        }
        Ok(_) => panic!("a non-numeric page param must fail"),
    }
}

#[test]
fn pager_hint_locks_out_numeric_paging() {
    // Once a hint was seen, an advance without one ends the sequence
    // instead of resuming page numbers — on every later call.
    let mut p = Pager::new("http://api.test/w?page=3");
    assert_eq!(p.next(Some("/w?cursor=abc".to_string())), Ok(Some("http://api.test/w?cursor=abc".to_string())));
    assert_eq!(p.strategy, Strategy::LockedToHints);
    assert_eq!(p.next(None), Ok(None));
    assert_eq!(p.next(None), Ok(None));
    assert_eq!(p.strategy, Strategy::LockedToHints);
}

#[test]
fn pager_resolves_absolute_and_relative_hints() {
    let mut p = Pager::new("http://api.test/a/b");
    // Relative hints resolve against the start URL.
    assert_eq!(p.next(Some("c".to_string())), Ok(Some("http://api.test/a/c".to_string())));
    // Absolute hints replace it.
    assert_eq!(
        p.next(Some("http://other.test/z".to_string())),
        Ok(Some("http://other.test/z".to_string()))
    );
}

#[test]
fn pager_rejects_unresolvable_hint() {
    let mut p = Pager::new("http://api.test/a");
    match p.next(Some("http://[bad".to_string())) {
        Err(Error::UrlResolution { .. }) => {}
        other => panic!("expected a URL-resolution failure, got {:?}", other),
    }
}

#[test]
fn error_messages_keep_their_exact_format() {
    let e = Error::RequestFailed {
        url: "http://api.test/error-500".to_string(),
        status: "500 Internal Server Error".to_string(),
        body: "".to_string(),
    };
    assert_eq!(
        e.message(),
        "Error getting http://api.test/error-500: 500 Internal Server Error: "
    );
    let e = Error::MalformedResponse { body: "{\"foo\":1}".to_string() };
    assert_eq!(
        e.message(),
        "Could not read values from response. Expected either {\"values\": [...]} or [...], got: {\"foo\":1}"
    );
    let e = Error::PageParse { value: "x".to_string(), details: ParseNumError::InvalidDigit };
    assert_eq!(
        e.message(),
        "Page query param 'x' could not be parsed as a number: invalid digit found in string"
    );
}

#[test]
fn default_options_fetch_everything() {
    let opt = curlall::Opt::default();
    assert!(opt.user_password.is_none());
    assert!(opt.limit.is_none());
    assert!(opt.wait.is_none());
    assert!(opt.headers.is_empty());
    assert_eq!(opt.url, "");
}

#[test]
fn pager_rejects_page_number_that_cannot_advance() {
    // A counter at the top of `usize` cannot grow by one: the advance is
    // refused rather than wrapped.
    let mut p = Pager::new("http://api.test/w?page=18446744073709551615");
    match p.next(None) {
        Err(Error::PageParse { value, details }) => {
            assert_eq!(value, "18446744073709551615");
            assert_eq!(details, ParseNumError::TooLarge);
        }
        other => panic!("expected a page-parse failure, got {:?}", other),
    }
}
