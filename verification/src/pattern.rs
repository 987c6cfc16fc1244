//! Regular-expression matching, through the `regex` crate.

use vstd::prelude::*;
use crate::text::{chars_of, string_of_range};

verus! {

/// What `regex` reports for `pattern` over `haystack`: the text of each
/// successive non-overlapping leftmost-first match, in order, or `None` when
/// `pattern` is not a valid expression.
pub uninterp spec fn regex_match_texts(pattern: Seq<char>, haystack: Seq<char>) -> Option<Seq<Seq<char>>>;

/// Compiles `pattern` with `regex::Regex::new` and collects the text of every
/// match that `Regex::find_iter` yields over `haystack`, in order; `None` when
/// the pattern does not compile. The contract only names the result.
#[verifier::external_body]
pub(crate) fn regex_find_iter(pattern: &str, haystack: &str) -> (r: Option<Vec<String>>)
    ensures
        match r {
            Some(v) => regex_match_texts(pattern@, haystack@) == Some(v.deep_view()),
            None => regex_match_texts(pattern@, haystack@) is None,
        },
{
    match regex::Regex::new(pattern) {
        Ok(re) => Some(re.find_iter(haystack).map(|m| m.as_str().to_string()).collect()),
        Err(_) => None,
    }
}


/// What `regex` gives for replacing every match of `pattern` in `haystack`
/// by `replacement`, or `None` when `pattern` is not a valid expression.
pub uninterp spec fn regex_replaced(pattern: Seq<char>, haystack: Seq<char>, replacement: Seq<char>) -> Option<Seq<char>>;

/// Compiles `pattern` with `regex::Regex::new` and returns
/// `Regex::replace_all(haystack, replacement)`; `None` when the pattern does
/// not compile. The contract only names the result.
#[verifier::external_body]
pub(crate) fn regex_replace_all(pattern: &str, haystack: &str, replacement: &str) -> (r: Option<String>)
    ensures
        r.deep_view() == regex_replaced(pattern@, haystack@, replacement@),
{
    match regex::Regex::new(pattern) {
        Ok(re) => Some(re.replace_all(haystack, replacement).into_owned()),
        Err(_) => None,
    }
}

/// An episode marker with digits, dots, spaces and Latin letters, or the word
/// for "movie", in square brackets.
pub const MIN_EPISODE_PATTERN: &'static str = r"\[\d*\.?\d* *\.?[A-Z,a-z]*(?:電影)?\]";

/// Any text in square brackets, as short as possible.
pub const FULL_EPISODE_PATTERN: &'static str = r"\[.+?\]";

/// A run of white space.
pub const WHITESPACES_PATTERN: &'static str = r"\s+";

/// A season marker such as 第三季.
pub const SEASON_FILTER_PATTERN: &'static str = r"第[零一二三四五六七八九十]{1,3}季";

/// The bracketed extra-version markers 特別篇 and 中文配音.
pub const EXTRA_FILTER_PATTERN: &'static str = r"\[(特別篇|中文配音)\]";

/// The first match text, if any.
pub open spec fn first_match(found: Option<Seq<Seq<char>>>) -> Option<Seq<char>> {
    match found {
        Some(ms) => if ms.len() > 0 { Some(ms[0]) } else { None },
        None => None,
    }
}

/// The last match text, if any.
pub open spec fn last_match(found: Option<Seq<Seq<char>>>) -> Option<Seq<char>> {
    match found {
        Some(ms) => if ms.len() > 0 { Some(ms.last()) } else { None },
        None => None,
    }
}

/// The text between the brackets of `[...]`; `None` when `m` is not bracketed.
pub open spec fn bracket_inner(m: Seq<char>) -> Option<Seq<char>> {
    if m.len() >= 2 && m[0] == '[' && m.last() == ']' {
        Some(m.subrange(1, m.len() - 1))
    } else {
        None
    }
}

/// The text of the first match of `pattern` in `haystack`.
pub fn find_first(pattern: &str, haystack: &str) -> (r: Option<String>)
    ensures
        r.deep_view() == first_match(regex_match_texts(pattern@, haystack@)),
{
    match regex_find_iter(pattern, haystack) {
        Some(ms) => {
            if ms.len() > 0 {
                Some(ms[0].clone())
            } else {
                None
            }
        },
        None => None,
    }
}

/// The text of the last match of `pattern` in `haystack`.
pub fn find_last(pattern: &str, haystack: &str) -> (r: Option<String>)
    ensures
        r.deep_view() == last_match(regex_match_texts(pattern@, haystack@)),
{
    match regex_find_iter(pattern, haystack) {
        Some(ms) => {
            let n = ms.len();
            if n > 0 {
                Some(ms[n - 1].clone())
            } else {
                None
            }
        },
        None => None,
    }
}

/// `replacement` put in place of every match of `pattern` in `haystack`;
/// `haystack` itself when the pattern does not compile.
pub open spec fn replaced_or_same(pattern: Seq<char>, haystack: Seq<char>, replacement: Seq<char>) -> Seq<char> {
    match regex_replaced(pattern, haystack, replacement) {
        Some(r) => r,
        None => haystack,
    }
}

/// Replaces every match of `pattern` in `haystack` by `replacement`.
pub fn replace_matches(pattern: &str, haystack: &str, replacement: &str) -> (r: String)
    ensures
        r@ == replaced_or_same(pattern@, haystack@, replacement@),
{
    match regex_replace_all(pattern, haystack, replacement) {
        Some(s) => s,
        None => String::from_str(haystack),
    }
}

/// The text between the brackets of `m`, when `m` is bracketed.
pub fn strip_brackets(m: &str) -> (r: Option<String>)
    ensures
        r.deep_view() == bracket_inner(m@),
{
    let mc = chars_of(m);
    let n = mc.len();
    if n >= 2 && mc[0] == '[' && mc[n - 1] == ']' {
        Some(string_of_range(&mc, 1, n - 1))
    } else {
        None
    }
}

} // verus!
