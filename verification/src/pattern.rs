//! Regular expressions, as the `regex` crate compiles and runs them.
//!
//! The library never looks inside a pattern. It speaks of two things only:
//! whether a pattern compiles, and whether a compiled pattern finds a match in
//! a text. Both are fixed by the pattern and the text alone.
use vstd::prelude::*;

verus! {

/// Makes `regex::Regex` known as a type. Nothing is seen of what a compiled
/// expression holds.
#[verifier::external_type_specification]
#[verifier::external_body]
pub struct ExRegex(regex::Regex);

/// Makes `regex::Error` known as a type. Nothing is seen of what an error
/// holds.
#[verifier::external_type_specification]
#[verifier::external_body]
pub struct ExRegexError(regex::Error);

/// Whether `regex::Regex::new` accepts `pattern`.
pub uninterp spec fn regex_compiles(pattern: Seq<char>) -> bool;

/// The pattern that a compiled expression was made from, which
/// `regex::Regex::as_str` hands back.
pub uninterp spec fn regex_source(regex: regex::Regex) -> Seq<char>;

/// Whether the expression compiled from `pattern` finds a match anywhere in
/// `text`, as `regex::Regex::is_match` reports it.
pub uninterp spec fn regex_matches(pattern: Seq<char>, text: Seq<char>) -> bool;

/// Whether `pattern` is a regular expression that matches somewhere in `text`.
/// A pattern that does not compile matches nothing.
pub open spec fn pattern_matches(pattern: Seq<char>, text: Seq<char>) -> bool {
    regex_compiles(pattern) && regex_matches(pattern, text)
}

/// Whether one of `patterns` matches somewhere in `text`.
pub open spec fn any_pattern_matches(patterns: Seq<Seq<char>>, text: Seq<char>) -> bool {
    exists|i: int| 0 <= i < patterns.len() && #[trigger] pattern_matches(patterns[i], text)
}

/// `regex::Regex::new`: compiles `pattern`. It succeeds exactly on the
/// patterns that compile, and the expression it gives was made from `pattern`.
#[verifier::external_body]
pub(crate) fn compile(pattern: &str) -> (r: Result<regex::Regex, regex::Error>)
    ensures
        r is Ok <==> regex_compiles(pattern@),
        r matches Ok(regex) ==> regex_source(regex) == pattern@,
{
    regex::Regex::new(pattern)
}

/// `regex::Regex::is_match`: whether `regex` finds a match anywhere in `text`.
#[verifier::external_body]
pub(crate) fn is_match(regex: &regex::Regex, text: &str) -> (found: bool)
    ensures
        found == regex_matches(regex_source(*regex), text@),
{
    regex.is_match(text)
}

/// Whether `pattern`, read as a regular expression, matches somewhere in
/// `text`. A pattern that does not compile matches nothing.
pub fn search(pattern: &str, text: &str) -> (found: bool)
    ensures
        found == pattern_matches(pattern@, text@),
{
    match compile(pattern) {
        Ok(regex) => is_match(&regex, text),
        Err(_) => false,
    }
}

/// A pattern that does not compile matches in no text.
pub proof fn law_invalid_pattern_never_matches(pattern: Seq<char>, text: Seq<char>)
    requires
        !regex_compiles(pattern),
    ensures
        !pattern_matches(pattern, text),
{
}

/// Patterns that do not compile change nothing: a row of patterns matches in
/// a text exactly if one of those that compile does.
pub proof fn law_only_valid_patterns_count(patterns: Seq<Seq<char>>, text: Seq<char>)
    ensures
        any_pattern_matches(patterns, text) <==> exists|i: int|
            0 <= i < patterns.len() && regex_compiles(patterns[i]) && #[trigger] regex_matches(
                patterns[i],
                text,
            ),
{
    if any_pattern_matches(patterns, text) {
        let i = choose|i: int| 0 <= i < patterns.len() && #[trigger] pattern_matches(patterns[i], text);
    }
    if exists|i: int|
        0 <= i < patterns.len() && regex_compiles(patterns[i]) && #[trigger] regex_matches(
            patterns[i],
            text,
        ) {
        let i = choose|i: int|
            0 <= i < patterns.len() && regex_compiles(patterns[i]) && #[trigger] regex_matches(
                patterns[i],
                text,
            );
        assert(pattern_matches(patterns[i], text));
    }
}

} // verus!
