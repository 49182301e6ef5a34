//! Plain-text helpers: decimal numbers and the two `:`-separated forms the
//! command line hands over (credentials and raw header lines).
use vstd::prelude::*;
use vstd::string::*;

verus! {

pub open spec fn is_digit(c: char) -> bool {
    '0' <= c && c <= '9'
}

pub open spec fn all_digits(s: Seq<char>) -> bool {
    forall|i: int| 0 <= i < s.len() ==> is_digit(#[trigger] s[i])
}

/// The numeric value of a decimal digit character.
pub open spec fn digit_val(c: char) -> int {
    c as int - '0' as int
}

/// The decimal digit character for a value below ten.
pub open spec fn digit_char(d: int) -> char {
    if d == 0 {
        '0'
    } else if d == 1 {
        '1'
    } else if d == 2 {
        '2'
    } else if d == 3 {
        '3'
    } else if d == 4 {
        '4'
    } else if d == 5 {
        '5'
    } else if d == 6 {
        '6'
    } else if d == 7 {
        '7'
    } else if d == 8 {
        '8'
    } else {
        '9'
    }
}

/// The non-negative integer a digit string denotes, most significant first.
pub open spec fn dec_val(s: Seq<char>) -> int
    decreases s.len(),
{
    if s.len() == 0 {
        0
    } else {
        dec_val(s.drop_last()) * 10 + digit_val(s.last())
    }
}

/// The decimal rendering of a non-negative integer: no sign, no padding.
pub open spec fn dec_str(n: int) -> Seq<char>
    decreases n,
{
    if n < 10 {
        seq![digit_char(n)]
    } else {
        dec_str(n / 10).push(digit_char(n % 10))
    }
}

/// Which failure a non-numeric digit string is reported with.
pub open spec fn parse_failure(s: Seq<char>) -> ParseNumError {
    if s.len() == 0 {
        ParseNumError::Empty
    } else if !all_digits(s) {
        ParseNumError::InvalidDigit
    } else {
        ParseNumError::TooLarge
    }
}

/// A digit string that denotes a value a `usize` can hold.
pub open spec fn valid_usize_digits(s: Seq<char>) -> bool {
    s.len() > 0 && all_digits(s) && dec_val(s) <= usize::MAX
}

/// Why a string failed to parse as a non-negative number.
#[derive(Clone, Copy, PartialEq, Eq, Structural, Debug)]
pub enum ParseNumError {
    Empty,
    InvalidDigit,
    TooLarge,
}

impl ParseNumError {
    pub open spec fn message_spec(self) -> Seq<char> {
        match self {
            ParseNumError::Empty => "cannot parse integer from empty string"@,
            ParseNumError::InvalidDigit => "invalid digit found in string"@,
            ParseNumError::TooLarge => "number too large to fit in target type"@,
        }
    }

    /// The description std gives for the same failure.
    pub fn message(&self) -> (r: &'static str)
        ensures
            r@ == self.message_spec(),
    {
        match self {
            ParseNumError::Empty => "cannot parse integer from empty string",
            ParseNumError::InvalidDigit => "invalid digit found in string",
            ParseNumError::TooLarge => "number too large to fit in target type",
        }
    }
}

proof fn lemma_dec_val_nonneg(s: Seq<char>)
    requires
        all_digits(s),
    ensures
        dec_val(s) >= 0,
    decreases s.len(),
{
    if s.len() > 0 {
        assert(all_digits(s.drop_last()));
        lemma_dec_val_nonneg(s.drop_last());
    }
}

/// A digit string denotes at least as much as any of its prefixes.
proof fn lemma_dec_val_prefix_le(s: Seq<char>, i: int)
    requires
        all_digits(s),
        0 <= i <= s.len(),
    ensures
        dec_val(s.subrange(0, i)) <= dec_val(s),
    decreases s.len() - i,
{
    if i == s.len() {
        assert(s.subrange(0, i) =~= s);
    } else {
        let shorter = s.subrange(0, i);
        let longer = s.subrange(0, i + 1);
        assert(longer.drop_last() =~= shorter);
        assert(all_digits(shorter));
        lemma_dec_val_nonneg(shorter);
        assert(dec_val(longer) == dec_val(shorter) * 10 + digit_val(s[i]));
        assert(dec_val(shorter) * 10 >= dec_val(shorter)) by (nonlinear_arith)
            requires
                dec_val(shorter) >= 0,
        ;
        lemma_dec_val_prefix_le(s, i + 1);
    }
}

/// Parse a string of decimal digits as a `usize`.
///
/// Failures are told apart exactly: an empty string, any non-digit
/// character, or a value too large for `usize`, in that order of precedence.
pub fn parse_usize(s: &str) -> (r: Result<usize, ParseNumError>)
    ensures
        (r is Ok) == valid_usize_digits(s@),
        r matches Ok(n) ==> n == dec_val(s@),
        s@.len() == 0 ==> r == Err::<usize, ParseNumError>(ParseNumError::Empty),
        s@.len() > 0 && !all_digits(s@) ==> r == Err::<usize, ParseNumError>(
            ParseNumError::InvalidDigit,
        ),
        s@.len() > 0 && all_digits(s@) && dec_val(s@) > usize::MAX ==> r == Err::<
            usize,
            ParseNumError,
        >(ParseNumError::TooLarge),
        r matches Err(e) ==> e == parse_failure(s@),
{
    let len = s.unicode_len();
    if len == 0 {
        return Err(ParseNumError::Empty);
    }
    let mut i: usize = 0;
    while i < len
        invariant
            len == s@.len(),
            0 <= i <= len,
            forall|j: int| 0 <= j < i ==> is_digit(#[trigger] s@[j]),
        decreases len - i,
    {
        let c = s.get_char(i);
        if c < '0' || c > '9' {
            return Err(ParseNumError::InvalidDigit);
        }
        i = i + 1;
    }
    assert(all_digits(s@));
    let mut k: usize = 0;
    let mut acc: usize = 0;
    while k < len
        invariant
            len == s@.len(),
            all_digits(s@),
            0 <= k <= len,
            acc == dec_val(s@.subrange(0, k as int)),
        decreases len - k,
    {
        let c = s.get_char(k);
        assert(is_digit(c));
        let d = digit_to_val(c);
        proof {
            assert(s@.subrange(0, k + 1).drop_last() =~= s@.subrange(0, k as int));
            assert(dec_val(s@.subrange(0, k + 1)) == acc * 10 + d);
        }
        if acc > (usize::MAX - d) / 10 {
            proof {
                assert(acc * 10 + d > usize::MAX) by (nonlinear_arith)
                    requires
                        acc > (usize::MAX - d) / 10,
                        0 <= d <= 9,
                ;
                lemma_dec_val_prefix_le(s@, k + 1);
            }
            return Err(ParseNumError::TooLarge);
        }
        proof {
            assert(acc * 10 + d <= usize::MAX) by (nonlinear_arith)
                requires
                    acc <= (usize::MAX - d) / 10,
                    0 <= d <= 9,
            ;
        }
        acc = acc * 10 + d;
        k = k + 1;
    }
    assert(s@.subrange(0, len as int) =~= s@);
    Ok(acc)
}

/// The numeric value of one digit character.
fn digit_to_val(c: char) -> (d: usize)
    requires
        is_digit(c),
    ensures
        d == digit_val(c),
        d <= 9,
{
    (c as u8 - 48) as usize
}

/// One-character string for a digit value.
fn digit_str(d: usize) -> (r: &'static str)
    requires
        d < 10,
    ensures
        r@ =~= seq![digit_char(d as int)],
{
    proof {
        reveal_strlit("0");
        reveal_strlit("1");
        reveal_strlit("2");
        reveal_strlit("3");
        reveal_strlit("4");
        reveal_strlit("5");
        reveal_strlit("6");
        reveal_strlit("7");
        reveal_strlit("8");
        reveal_strlit("9");
    }
    match d {
        0 => "0",
        1 => "1",
        2 => "2",
        3 => "3",
        4 => "4",
        5 => "5",
        6 => "6",
        7 => "7",
        8 => "8",
        _ => "9",
    }
}

/// Render a `usize` in decimal, as a `page=N` parameter needs it.
pub fn fmt_usize(n: usize) -> (r: String)
    ensures
        r@ == dec_str(n as int),
    decreases n,
{
    if n < 10 {
        let r = digit_str(n).to_owned();
        proof {
            assert(r@ =~= dec_str(n as int));
        }
        r
    } else {
        let mut r = fmt_usize(n / 10);
        r.append(digit_str(n % 10));
        proof {
            assert(r@ =~= dec_str(n as int));
        }
        r
    }
}

/// The characters std's `trim_start` removes: Unicode `White_Space`.
pub open spec fn is_blank(c: char) -> bool {
    ||| c == ' '
    ||| c == '\t'
    ||| c == '\n'
    ||| c == '\u{0B}'
    ||| c == '\u{0C}'
    ||| c == '\r'
    ||| c == '\u{85}'
    ||| c == '\u{A0}'
    ||| c == '\u{1680}'
    ||| ('\u{2000}' <= c && c <= '\u{200A}')
    ||| c == '\u{2028}'
    ||| c == '\u{2029}'
    ||| c == '\u{202F}'
    ||| c == '\u{205F}'
    ||| c == '\u{3000}'
}

/// Is this a character blank, as `is_blank` has it?
fn is_blank_char(c: char) -> (b: bool)
    ensures
        b == is_blank(c),
{
    c == ' ' || c == '\t' || c == '\n' || c == '\u{0B}' || c == '\u{0C}' || c == '\r'
        || c == '\u{85}' || c == '\u{A0}' || c == '\u{1680}' || ('\u{2000}' <= c && c
        <= '\u{200A}') || c == '\u{2028}' || c == '\u{2029}' || c == '\u{202F}' || c
        == '\u{205F}' || c == '\u{3000}'
}

/// The string with its leading blanks removed.
pub open spec fn trim_leading(s: Seq<char>) -> Seq<char>
    decreases s.len(),
{
    if s.len() > 0 && is_blank(s[0]) {
        trim_leading(s.drop_first())
    } else {
        s
    }
}

/// Split `user:password` at the first `:`; without one, the whole string is
/// the user and there is no password.
pub fn split_user_password(s: &str) -> (r: (String, Option<String>))
    ensures
        (r.1 is Some) == exists|i: int| 0 <= i < s@.len() && s@[i] == ':',
        r.1 matches Some(p) ==> exists|i: int|
            {
                &&& 0 <= i < s@.len()
                &&& s@[i] == ':'
                &&& forall|j: int| 0 <= j < i ==> s@[j] != ':'
                &&& r.0@ == s@.subrange(0, i)
                &&& p@ == s@.subrange(i + 1, s@.len() as int)
            },
        r.1 is None ==> r.0@ == s@,
{
    let len = s.unicode_len();
    let mut i: usize = 0;
    while i < len
        invariant
            len == s@.len(),
            0 <= i <= len,
            forall|j: int| 0 <= j < i ==> s@[j] != ':',
        decreases len - i,
    {
        if s.get_char(i) == ':' {
            let user = s.substring_char(0, i).to_owned();
            let password = s.substring_char(i + 1, len).to_owned();
            return (user, Some(password));
        }
        i = i + 1;
    }
    (s.to_owned(), None)
}

/// Split a `Name: Value` header line at the first `:` and drop the value's
/// leading blanks; without a `:`, the whole line is the name and the value
/// is empty.
pub fn split_header_line(s: &str) -> (r: (String, String))
    ensures
        (exists|i: int| 0 <= i < s@.len() && s@[i] == ':') ==> exists|i: int|
            {
                &&& 0 <= i < s@.len()
                &&& s@[i] == ':'
                &&& forall|j: int| 0 <= j < i ==> s@[j] != ':'
                &&& r.0@ == s@.subrange(0, i)
                &&& r.1@ == trim_leading(s@.subrange(i + 1, s@.len() as int))
            },
        (forall|i: int| 0 <= i < s@.len() ==> s@[i] != ':') ==> r.0@ == s@ && r.1@.len() == 0,
{
    let len = s.unicode_len();
    let mut i: usize = 0;
    while i < len
        invariant
            len == s@.len(),
            0 <= i <= len,
            forall|j: int| 0 <= j < i ==> s@[j] != ':',
        decreases len - i,
    {
        if s.get_char(i) == ':' {
            let name = s.substring_char(0, i).to_owned();
            let mut v: usize = i + 1;
            loop
                invariant
                    len == s@.len(),
                    i + 1 <= v <= len,
                    trim_leading(s@.subrange(i + 1, len as int)) == trim_leading(
                        s@.subrange(v as int, len as int),
                    ),
                ensures
                    len == s@.len(),
                    i + 1 <= v <= len,
                    trim_leading(s@.subrange(i + 1, len as int)) == s@.subrange(
                        v as int,
                        len as int,
                    ),
                decreases len - v,
            {
                if v >= len {
                    break ;
                }
                let c = s.get_char(v);
                if !is_blank_char(c) {
                    proof {
                        assert(s@.subrange(v as int, len as int)[0] == s@[v as int]);
                    }
                    break ;
                }
                proof {
                    assert(s@.subrange(v as int, len as int).drop_first() =~= s@.subrange(
                        v + 1,
                        len as int,
                    ));
                }
                v = v + 1;
            }
            let value = s.substring_char(v, len).to_owned();
            return (name, value);
        }
        i = i + 1;
    }
    (s.to_owned(), String::new())
}

} // verus!
