//! What this library takes from outside crates and from std, each item with
//! the contract it is trusted to meet.

use vstd::prelude::*;

verus! {

/// The error of an HTTP request made with reqwest; carried, never inspected.
#[verifier::external_type_specification]
#[verifier::external_body]
pub struct ExReqwestError(reqwest::Error);

/// The error of a failed integer parse; carried, never inspected.
#[verifier::external_type_specification]
#[verifier::external_body]
pub struct ExParseIntError(core::num::ParseIntError);

/// The percent-encoded form of a text, as urlencoding produces it.
pub uninterp spec fn percent_encoded(s: Seq<char>) -> Seq<char>;

/// The text that a percent-encoded text stands for, if it is valid UTF-8.
pub uninterp spec fn percent_decoded(s: Seq<char>) -> Option<Seq<char>>;

/// Relies on urlencoding::encode: every byte but ASCII letters, digits and
/// `-_.~` becomes `%XX`; the result depends on `s` alone.
#[verifier::external_body]
pub(crate) fn percent_encode(s: &str) -> (r: String)
    ensures
        r@ == percent_encoded(s@),
{
    urlencoding::encode(s).into_owned()
}

/// Relies on urlencoding::decode: `%XX` sequences become bytes, and the
/// result is `None` where those bytes are not valid UTF-8.
#[verifier::external_body]
pub(crate) fn percent_decode(s: &str) -> (r: Option<String>)
    ensures
        match r {
            Some(d) => percent_decoded(s@) == Some(d@),
            None => percent_decoded(s@) is None,
        },
{
    match urlencoding::decode(s) {
        Ok(d) => Some(d.into_owned()),
        Err(_) => None,
    }
}

/// Relies on reqwest::Error's `Display`: a description of a failed request.
#[verifier::external_body]
pub(crate) fn reqwest_error_text(e: &reqwest::Error) -> (r: String) {
    format!("{}", e)
}

/// The first capture group of the first match of the regular expression
/// `pattern` in `haystack`; `None` where there is no match, or where the
/// pattern does not compile.
pub uninterp spec fn regex_first_group(pattern: Seq<char>, haystack: Seq<char>) -> Option<Seq<char>>;

/// Relies on regex::Regex::new and Regex::captures: compiles `pattern` and
/// returns group 1 of its leftmost-first match in `haystack`.
#[verifier::external_body]
pub(crate) fn first_group(pattern: &str, haystack: &str) -> (r: Option<String>)
    ensures
        match r {
            Some(g) => regex_first_group(pattern@, haystack@) == Some(g@),
            None => regex_first_group(pattern@, haystack@) is None,
        },
{
    match regex::Regex::new(pattern) {
        Ok(re) => match re.captures(haystack) {
            Some(c) => c.get(1).map(|m| m.as_str().to_string()),
            None => None,
        },
        Err(_) => None,
    }
}

/// The value of a run of decimal digits.
pub open spec fn digits_value(s: Seq<char>) -> int
    decreases s.len(),
{
    if s.len() == 0 {
        0
    } else {
        digits_value(s.drop_last()) * 10 + (s.last() as u32 - '0' as u32)
    }
}

pub open spec fn all_digits(s: Seq<char>) -> bool {
    s.len() > 0 && forall|i: int| 0 <= i < s.len() ==> '0' <= #[trigger] s[i] <= '9'
}

/// The value of an optional `+` or `-` followed by decimal digits, where it
/// fits in an `i32`.
pub open spec fn i32_text_value(s: Seq<char>) -> Option<int> {
    let neg = s.len() > 0 && s[0] == '-';
    let body = if s.len() > 0 && (s[0] == '-' || s[0] == '+') {
        s.drop_first()
    } else {
        s
    };
    let v = if neg {
        -digits_value(body)
    } else {
        digits_value(body)
    };
    if all_digits(body) && i32::MIN <= v <= i32::MAX {
        Some(v)
    } else {
        None
    }
}

/// Relies on `<i32 as FromStr>::from_str`, documented to accept an optional
/// sign followed by digits whose value fits in an `i32`, and nothing else.
#[verifier::external_body]
pub(crate) fn parse_i32(s: &str) -> (r: Option<i32>)
    ensures
        match r {
            Some(v) => i32_text_value(s@) == Some(v as int),
            None => i32_text_value(s@) is None,
        },
{
    match <i32 as core::str::FromStr>::from_str(s) {
        Ok(v) => Some(v),
        Err(_) => None,
    }
}

/// The error of parsing JSON text with serde_json; carried, never inspected.
#[verifier::external_type_specification]
#[verifier::external_body]
pub struct ExJsonError(serde_json::Error);

/// Relies on serde_json::Error's `Display`: a description of the parse error.
#[verifier::external_body]
pub(crate) fn json_error_text(e: &serde_json::Error) -> (r: String) {
    format!("{}", e)
}

/// The characters of `s` from `start` up to `end`, each clamped to the
/// length of `s`; nothing where `end <= start`.
pub open spec fn char_range_spec(s: Seq<char>, start: int, end: int) -> Seq<char> {
    let n = s.len() as int;
    let a = if start < n {
        start
    } else {
        n
    };
    let b = if end < n {
        end
    } else {
        n
    };
    if end <= start {
        Seq::empty()
    } else {
        s.subrange(a, b)
    }
}

/// Relies on substring::Substring::substring, which takes character
/// indices, clamps them to the length, and is empty where `end <= start`.
#[verifier::external_body]
pub(crate) fn char_range(s: &str, start: usize, end: usize) -> (r: &str)
    ensures
        r@ == char_range_spec(s@, start as int, end as int),
{
    substring::Substring::substring(s, start, end)
}

/// The media type that a file name's extension suggests, if any.
pub uninterp spec fn guessed_mime(path: Seq<char>) -> Option<Seq<char>>;

/// Relies on mime_guess::from_path and MimeGuess::first_raw: the first
/// media type registered for the extension of `path`; a function of the
/// path alone.
#[verifier::external_body]
pub(crate) fn guess_mime(path: &str) -> (r: Option<String>)
    ensures
        match r {
            Some(m) => guessed_mime(path@) == Some(m@),
            None => guessed_mime(path@) is None,
        },
{
    mime_guess::from_path(path).first_raw().map(|m| m.to_string())
}

} // verus!
