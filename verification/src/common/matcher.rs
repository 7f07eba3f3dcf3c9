//! The regular-expression engine, as the rest of the library sees it.
//!
//! Matching is done by the `regex` crate. Nothing here is proved about that
//! crate: each function below states what the crate documents, over names
//! for what the crate computes.

use crate::common::text::views;
use vstd::prelude::*;

verus! {

#[verifier::external_type_specification]
#[verifier::external_body]
pub struct ExRegex(regex::Regex);

#[verifier::external_type_specification]
#[verifier::external_body]
pub struct ExRegexSet(regex::RegexSet);

#[verifier::external_type_specification]
#[verifier::external_body]
pub struct ExRegexError(regex::Error);

/// The pattern text that a compiled regex was built from (`Regex::as_str`).
pub uninterp spec fn regex_source(re: regex::Regex) -> Seq<char>;

/// The pattern texts that a compiled set was built from, in the order given
/// (`RegexSet::patterns`).
pub uninterp spec fn regex_set_patterns(set: regex::RegexSet) -> Seq<Seq<char>>;

/// Whether `Regex::new` accepts `pattern`.
pub uninterp spec fn regex_compiles(pattern: Seq<char>) -> bool;

/// Whether `RegexSet::new` accepts `patterns`.
pub uninterp spec fn regex_set_compiles(patterns: Seq<Seq<char>>) -> bool;

/// Whether the regex written as `pattern` matches anywhere in `haystack`.
pub uninterp spec fn regex_matches(pattern: Seq<char>, haystack: Seq<char>) -> bool;

/// The byte offsets `(start, end)` of the leftmost match of `pattern` in
/// `haystack`, if there is one.
pub uninterp spec fn regex_first_match(pattern: Seq<char>, haystack: Seq<char>) -> Option<
    (usize, usize),
>;

/// `haystack` with every non-overlapping match of `pattern` replaced by the
/// expansion of `replacement`.
pub uninterp spec fn regex_replaced(
    pattern: Seq<char>,
    haystack: Seq<char>,
    replacement: Seq<char>,
) -> Seq<char>;

/// Whether the position `p` is among `indices`.
pub open spec fn lists(indices: Seq<usize>, p: int) -> bool {
    exists|t: int| 0 <= t < indices.len() && #[trigger] indices[t] == p
}

/// The characters that have a meaning in a regular expression.
pub open spec fn is_meta_character(c: char) -> bool {
    c == '\\' || c == '.' || c == '+' || c == '*' || c == '?' || c == '(' || c == ')' || c == '|'
        || c == '[' || c == ']' || c == '{' || c == '}' || c == '^' || c == '$' || c == '#' || c
        == '&' || c == '-' || c == '~'
}

/// `text` with a backslash put before each meta character.
pub open spec fn escaped(text: Seq<char>) -> Seq<char>
    decreases text.len(),
{
    if text.len() == 0 {
        Seq::empty()
    } else if is_meta_character(text.last()) {
        escaped(text.drop_last()).push('\\').push(text.last())
    } else {
        escaped(text.drop_last()).push(text.last())
    }
}

/// Calls `regex::escape`, which walks the characters of `text` and writes a
/// backslash before each meta character.
#[verifier::external_body]
pub(crate) fn escape(text: &str) -> (r: String)
    ensures
        r@ == escaped(text@),
{
    regex::escape(text)
}

/// Calls `Regex::new`. Whether it succeeds is a function of the pattern; a
/// regex that it returns was built from `pattern`.
#[verifier::external_body]
pub(crate) fn compile_regex(pattern: &str) -> (r: Result<regex::Regex, regex::Error>)
    ensures
        r is Ok <==> regex_compiles(pattern@),
        r matches Ok(re) ==> regex_source(re) == pattern@,
{
    regex::Regex::new(pattern)
}

/// `Regex::clone` gives a regex built from the same pattern.
pub assume_specification[ <regex::Regex as Clone>::clone ](re: &regex::Regex) -> (r: regex::Regex)
    ensures
        regex_source(r) == regex_source(*re),
;

/// `RegexSet::clone` gives a set that holds the same patterns.
pub assume_specification[ <regex::RegexSet as Clone>::clone ](set: &regex::RegexSet) -> (r:
    regex::RegexSet)
    ensures
        regex_set_patterns(r) == regex_set_patterns(*set),
;

/// Calls `Regex::is_match`: true if and only if the regex matches somewhere
/// in `haystack`.
#[verifier::external_body]
pub(crate) fn is_match(re: &regex::Regex, haystack: &str) -> (r: bool)
    ensures
        r == regex_matches(regex_source(*re), haystack@),
{
    re.is_match(haystack)
}

/// Calls `Regex::find` and hands back the byte offsets of the leftmost
/// match. There is one exactly when `Regex::is_match` holds.
#[verifier::external_body]
pub(crate) fn find(re: &regex::Regex, haystack: &str) -> (r: Option<(usize, usize)>)
    ensures
        r == regex_first_match(regex_source(*re), haystack@),
        r is Some <==> regex_matches(regex_source(*re), haystack@),
{
    re.find(haystack).map(|m| (m.start(), m.end()))
}

/// Calls `Regex::replace_all` with a string replacement.
#[verifier::external_body]
pub(crate) fn replace_all(re: &regex::Regex, haystack: &str, replacement: &str) -> (r: String)
    ensures
        r@ == regex_replaced(regex_source(*re), haystack@, replacement@),
{
    re.replace_all(haystack, replacement).into_owned()
}

/// Calls `RegexSet::new`. Whether it succeeds is a function of the
/// patterns; a set that it returns holds them in the order given.
#[verifier::external_body]
pub(crate) fn compile_regex_set(patterns: &Vec<String>) -> (r: Result<
    regex::RegexSet,
    regex::Error,
>)
    ensures
        r is Ok <==> regex_set_compiles(views(patterns@)),
        r matches Ok(set) ==> regex_set_patterns(set) == views(patterns@),
{
    regex::RegexSet::new(patterns)
}

/// Calls `RegexSet::empty`: the set of no patterns.
#[verifier::external_body]
pub(crate) fn empty_regex_set() -> (r: regex::RegexSet)
    ensures
        regex_set_patterns(r) == Seq::<Seq<char>>::empty(),
{
    regex::RegexSet::empty()
}

/// Calls `RegexSet::matches` and collects the indices it yields: in
/// ascending order, the index of each pattern of the set that matches in
/// `haystack`, and no other.
#[verifier::external_body]
pub(crate) fn set_matches(set: &regex::RegexSet, haystack: &str) -> (r: Vec<usize>)
    ensures
        forall|i: int, j: int| 0 <= i < j < r@.len() ==> r@[i] < r@[j],
        forall|k: int| 0 <= k < r@.len() ==> (#[trigger] r@[k]) < regex_set_patterns(*set).len(),
        forall|p: int|
            0 <= p < regex_set_patterns(*set).len() ==> (lists(r@, p) <==> #[trigger] regex_matches(
                regex_set_patterns(*set)[p],
                haystack@,
            )),
{
    set.matches(haystack).into_iter().collect()
}

} // verus!
