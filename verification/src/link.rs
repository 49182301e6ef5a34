//! The Link relation parser: find the URI an RFC 5988 `Link` header marks
//! with `rel="next"`.
//!
//! The algorithm is deliberately a substring heuristic, not a full parameter
//! parser: it looks for the first literal occurrence of `>; rel="next"` and
//! takes the text back to the nearest preceding `<` as the URI.
use vstd::prelude::*;
use vstd::string::*;

verus! {

/// The literal marker this parser searches for.
pub open spec fn link_pattern() -> Seq<char> {
    ">; rel=\"next\""@
}

/// The marker occurs at position `i`.
pub open spec fn pattern_at(s: Seq<char>, i: int) -> bool {
    &&& 0 <= i
    &&& i + link_pattern().len() <= s.len()
    &&& s.subrange(i, i + link_pattern().len()) == link_pattern()
}

pub open spec fn has_pattern(s: Seq<char>) -> bool {
    exists|i: int| pattern_at(s, i)
}

/// `i` is the first occurrence of the marker.
pub open spec fn is_first_pattern(s: Seq<char>, i: int) -> bool {
    &&& pattern_at(s, i)
    &&& forall|j: int| 0 <= j < i ==> !pattern_at(s, j)
}

/// `k` is the nearest `<` before position `end`.
pub open spec fn is_uri_start(s: Seq<char>, end: int, k: int) -> bool {
    &&& 0 <= k < end
    &&& s[k] == '<'
    &&& forall|m: int| k < m < end ==> s[m] != '<'
}

/// The URI the header yields: the text between the nearest `<` and the
/// first marker, when both exist — the parser's result, as a function of
/// the header alone.
pub open spec fn next_link_of(s: Seq<char>) -> Option<Seq<char>> {
    if exists|end: int, k: int|
        #[trigger] is_first_pattern(s, end) && #[trigger] is_uri_start(s, end, k) {
        let (end, k) = choose|end: int, k: int|
            #[trigger] is_first_pattern(s, end) && #[trigger] is_uri_start(s, end, k);
        Some(s.subrange(k + 1, end))
    } else {
        None
    }
}

proof fn lemma_pattern_len()
    ensures
        link_pattern().len() == 13,
{
    reveal_strlit(">; rel=\"next\"");
}

/// Two first occurrences are the same occurrence.
proof fn lemma_first_pattern_unique(s: Seq<char>, a: int, b: int)
    requires
        is_first_pattern(s, a),
        is_first_pattern(s, b),
    ensures
        a == b,
{
    if a < b {
        assert(!pattern_at(s, a));
    } else if b < a {
        assert(!pattern_at(s, b));
    }
}

/// Before one marker there is only one nearest `<`.
proof fn lemma_uri_start_unique(s: Seq<char>, end: int, k1: int, k2: int)
    requires
        is_uri_start(s, end, k1),
        is_uri_start(s, end, k2),
    ensures
        k1 == k2,
{
    if k1 < k2 {
        assert(s[k2] != '<');
    } else if k2 < k1 {
        assert(s[k1] != '<');
    }
}

/// A first marker with a nearest `<` pins `next_link_of` down.
proof fn lemma_next_link_of_some(s: Seq<char>, end: int, k: int)
    requires
        is_first_pattern(s, end),
        is_uri_start(s, end, k),
    ensures
        next_link_of(s) == Some(s.subrange(k + 1, end)),
{
    let (e2, k2) = choose|e2: int, k2: int|
        #[trigger] is_first_pattern(s, e2) && #[trigger] is_uri_start(s, e2, k2);
    lemma_first_pattern_unique(s, end, e2);
    lemma_uri_start_unique(s, end, k, k2);
}

/// One character of the marker.
fn pattern_char(j: usize) -> (c: char)
    requires
        j < 13,
    ensures
        c == link_pattern()[j as int],
{
    proof {
        reveal_strlit(">; rel=\"next\"");
    }
    match j {
        0 => '>',
        1 => ';',
        2 => ' ',
        3 => 'r',
        4 => 'e',
        5 => 'l',
        6 => '=',
        7 => '"',
        8 => 'n',
        9 => 'e',
        10 => 'x',
        11 => 't',
        _ => '"',
    }
}

/// Does the marker occur at position `i`?
fn matches_pattern_at(s: &str, len: usize, i: usize) -> (b: bool)
    requires
        len == s@.len(),
        i + 13 <= len,
    ensures
        b == pattern_at(s@, i as int),
{
    proof {
        lemma_pattern_len();
    }
    let mut j: usize = 0;
    while j < 13
        invariant
            len == s@.len(),
            i + 13 <= len,
            0 <= j <= 13,
            link_pattern().len() == 13,
            forall|t: int| 0 <= t < j ==> s@[i + t] == link_pattern()[t],
        decreases 13 - j,
    {
        let c = s.get_char(i + j);
        if c != pattern_char(j) {
            proof {
                if pattern_at(s@, i as int) {
                    assert(s@.subrange(i as int, i + 13)[j as int] == s@[i + j]);
                }
            }
            return false;
        }
        j = j + 1;
    }
    proof {
        assert forall|t: int| 0 <= t < 13 implies s@.subrange(i as int, i + 13)[t]
            == link_pattern()[t] by {
            assert(s@.subrange(i as int, i + 13)[t] == s@[i + t]);
        }
        assert(s@.subrange(i as int, i + 13) =~= link_pattern());
    }
    true
}

/// Extract the URI that the header's first `>; rel="next"` marker closes,
/// scanning back from the marker to the nearest `<`.
///
/// Returns nothing when the marker never occurs — whatever other relations
/// or quoting the header uses — and also when no `<` precedes the first
/// marker.
pub fn parse_next_link(link_header: &str) -> (r: Option<String>)
    ensures
        (forall|i: int| !pattern_at(link_header@, i)) ==> r is None,
        (r is None) <==> (!has_pattern(link_header@) || exists|end: int|
            #[trigger] is_first_pattern(link_header@, end) && (forall|k: int|
                0 <= k < end ==> link_header@[k] != '<')),
        r matches Some(u) ==> exists|end: int, k: int|
            {
                &&& #[trigger] is_first_pattern(link_header@, end)
                &&& #[trigger] is_uri_start(link_header@, end, k)
                &&& u@ == link_header@.subrange(k + 1, end)
            },
        (r is None) <==> next_link_of(link_header@) is None,
        r matches Some(u) ==> next_link_of(link_header@) == Some(u@),
{
    proof {
        lemma_pattern_len();
    }
    let len = link_header.unicode_len();
    if len < 13 {
        proof {
            assert(forall|i: int| !pattern_at(link_header@, i));
            assert forall|e2: int, k2: int|
                !(#[trigger] is_first_pattern(link_header@, e2) && #[trigger] is_uri_start(
                    link_header@,
                    e2,
                    k2,
                )) by {
                assert(!pattern_at(link_header@, e2));
            }
        }
        return None;
    }
    let mut i: usize = 0;
    while i <= len - 13
        invariant
            len == link_header@.len(),
            13 <= len,
            0 <= i <= len - 13 + 1,
            link_pattern().len() == 13,
            forall|j: int| 0 <= j < i ==> !pattern_at(link_header@, j),
        decreases len - i,
    {
        if matches_pattern_at(link_header, len, i) {
            // `i` is the first occurrence: scan back for the nearest `<`.
            let ghost end = i as int;
            assert(is_first_pattern(link_header@, end));
            let mut k: usize = i;
            loop
                invariant
                    len == link_header@.len(),
                    0 <= k <= i <= len - 13,
                    link_pattern().len() == 13,
                    is_first_pattern(link_header@, i as int),
                    forall|m: int| k <= m < i ==> link_header@[m] != '<',
                decreases k,
            {
                if k == 0 {
                    proof {
                        assert forall|end2: int| #[trigger] is_first_pattern(
                            link_header@,
                            end2,
                        ) implies (forall|m: int| 0 <= m < end2 ==> link_header@[m] != '<') by {
                            lemma_first_pattern_unique(link_header@, i as int, end2);
                        }
                        assert forall|e2: int, k2: int|
                            !(#[trigger] is_first_pattern(link_header@, e2)
                                && #[trigger] is_uri_start(link_header@, e2, k2)) by {
                            if is_first_pattern(link_header@, e2) {
                                lemma_first_pattern_unique(link_header@, i as int, e2);
                            }
                        }
                    }
                    return None;
                }
                k = k - 1;
                if link_header.get_char(k) == '<' {
                    let uri = link_header.substring_char(k + 1, i).to_owned();
                    proof {
                        assert(is_uri_start(link_header@, i as int, k as int));
                        assert forall|end2: int|
                            !(#[trigger] is_first_pattern(link_header@, end2) && (forall|m: int|
                                0 <= m < end2 ==> link_header@[m] != '<')) by {
                            if is_first_pattern(link_header@, end2) {
                                lemma_first_pattern_unique(link_header@, i as int, end2);
                                assert(link_header@[k as int] == '<');
                            }
                        }
                        lemma_next_link_of_some(link_header@, i as int, k as int);
                    }
                    return Some(uri);
                }
            }
        }
        i = i + 1;
    }
    proof {
        assert forall|j: int| !pattern_at(link_header@, j) by {
            if j >= i {
                assert(j + 13 > len);
            }
        }
        assert forall|e2: int, k2: int|
            !(#[trigger] is_first_pattern(link_header@, e2) && #[trigger] is_uri_start(
                link_header@,
                e2,
                k2,
            )) by {
            assert(!pattern_at(link_header@, e2));
        }
    }
    None
}

/// A header that holds exactly one `rel="next"` entry — `pre`, then
/// `<uri>; rel="next"`, then anything — yields exactly that entry's URI,
/// whatever other relations stand around it.
pub proof fn lemma_single_next_entry(s: Seq<char>, pre: Seq<char>, uri: Seq<char>, post: Seq<char>)
    requires
        s == pre + seq!['<'] + uri + link_pattern() + post,
        forall|j: int| 0 <= j < pre.len() + 1 + uri.len() as int ==> !pattern_at(s, j),
        forall|m: int| 0 <= m < uri.len() ==> uri[m] != '<',
    ensures
        is_first_pattern(s, pre.len() + 1 + uri.len() as int),
        is_uri_start(s, pre.len() + 1 + uri.len() as int, pre.len() as int),
        forall|end: int, k: int|
            #[trigger] is_first_pattern(s, end) && #[trigger] is_uri_start(s, end, k) ==> s.subrange(
                k + 1,
                end,
            ) == uri,
{
    lemma_pattern_len();
    let l: int = pre.len() as int + 1 + uri.len() as int;
    assert(s.len() == pre.len() + 1 + uri.len() + 13 + post.len());
    assert forall|t: int| 0 <= t < 13 implies s[l + t] == link_pattern()[t] by {
        assert(s[l + t] == (pre + seq!['<'] + uri + link_pattern() + post)[l + t]);
    }
    assert(s.subrange(l, l + 13) =~= link_pattern());
    assert(pattern_at(s, l));
    assert(is_first_pattern(s, l));
    assert(s[pre.len() as int] == '<');
    assert forall|m: int| pre.len() < m < l implies s[m] != '<' by {
        assert(s[m] == uri[m - pre.len() - 1]);
    }
    assert(is_uri_start(s, l, pre.len() as int));
    assert forall|end: int, k: int|
        #[trigger] is_first_pattern(s, end) && #[trigger] is_uri_start(s, end, k) implies s.subrange(
        k + 1,
        end,
    ) == uri by {
        lemma_first_pattern_unique(s, end, l);
        if k > pre.len() {
            assert(s[k] != '<');
        }
        if k < pre.len() {
            assert(s[pre.len() as int] == '<');
        }
        assert(k == pre.len());
        assert forall|t: int| 0 <= t < uri.len() implies s.subrange(k + 1, end)[t] == uri[t] by {
            assert(s[k + 1 + t] == uri[t]);
        }
        assert(s.subrange(k + 1, end) =~= uri);
    }
}

} // verus!
