//! Trusted layer over the `regex` crate.
//!
//! A compiled `regex::Regex` is opaque to the verifier; the uninterpreted
//! functions below name what the crate computes, and every verified contract
//! in this library speaks of those names.

use vstd::prelude::*;

verus! {

#[verifier::external_type_specification]
#[verifier::external_body]
pub struct ExRegex(regex::Regex);

/// The pattern a `regex::Regex` was compiled from, as `Regex::as_str`
/// returns it.
pub uninterp spec fn re_pattern(re: regex::Regex) -> Seq<char>;

/// Whether `regex::Regex::new` accepts a pattern.
pub uninterp spec fn regex_valid(pattern: Seq<char>) -> bool;

/// What `regex::Regex::is_match` returns for a pattern and a haystack.
pub uninterp spec fn regex_match(pattern: Seq<char>, text: Seq<char>) -> bool;

/// What `regex::Regex::replace` returns: the haystack with the leftmost
/// match of the pattern rewritten once through the replacement string
/// (`$n` group references expanded), or the haystack unchanged when the
/// pattern does not match.
pub uninterp spec fn regex_replace_first(
    pattern: Seq<char>,
    text: Seq<char>,
    rewrite: Seq<char>,
) -> Seq<char>;

/// The text of capture group 1 of each successive non-overlapping match of a
/// pattern, in match order, as `regex::Regex::captures_iter` yields them
/// (the empty string where group 1 did not participate in a match).
pub uninterp spec fn regex_captures1(pattern: Seq<char>, text: Seq<char>) -> Seq<Seq<char>>;

/// Relies on `regex::Regex::clone`: a clone is the same compiled pattern.
pub assume_specification[ <regex::Regex as Clone>::clone ](re: &regex::Regex) -> (r:
    regex::Regex)
    ensures
        re_pattern(r) == re_pattern(*re),
;

/// Relies on `regex::Regex::new`: compilation succeeds iff the pattern is a
/// valid regular expression, and `Regex::as_str` on the result gives the
/// pattern back.
#[verifier::external_body]
pub(crate) fn re_compile(pattern: &str) -> (r: Option<regex::Regex>)
    ensures
        r is Some <==> regex_valid(pattern@),
        r matches Some(re) ==> re_pattern(re) == pattern@,
{
    regex::Regex::new(pattern).ok()
}

/// Relies on `regex::Regex::is_match`: the result is a pure function of the
/// compiled pattern and the haystack.
#[verifier::external_body]
pub(crate) fn re_is_match(re: &regex::Regex, text: &str) -> (r: bool)
    ensures
        r == regex_match(re_pattern(*re), text@),
{
    re.is_match(text)
}

/// Relies on `regex::Regex::replace` with a `&str` replacer: rewrites the
/// leftmost match once, a pure function of pattern, haystack and replacement.
#[verifier::external_body]
pub(crate) fn re_replace_first(re: &regex::Regex, text: &str, rewrite: &str) -> (r: String)
    ensures
        r@ == regex_replace_first(re_pattern(*re), text@, rewrite@),
{
    re.replace(text, rewrite).into_owned()
}

/// Relies on `regex::Regex::captures_iter` and `regex::Captures::get`: the
/// matches and their groups are a pure function of pattern and haystack.
#[verifier::external_body]
pub(crate) fn re_captures1(re: &regex::Regex, text: &str) -> (r: Vec<String>)
    ensures
        r.deep_view() == regex_captures1(re_pattern(*re), text@),
{
    let mut out = Vec::new();
    for caps in re.captures_iter(text) {
        match caps.get(1) {
            Some(m) => out.push(m.as_str().to_string()),
            None => out.push(String::new()),
        }
    }
    out
}

} // verus!
