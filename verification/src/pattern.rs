//! What this library takes from the crate `regex`: compiled patterns, their
//! compilation and the search for a match. Nothing here is proved; each
//! contract says what the crate's documentation and source show.

use regex::Regex;
use vstd::prelude::*;

verus! {

/// `regex::Regex`: a compiled pattern.
#[verifier::external_type_specification]
#[verifier::external_body]
pub struct ExRegex(Regex);

/// `regex::Error`: why a pattern was not compiled.
#[verifier::external_type_specification]
#[verifier::external_body]
pub struct ExRegexError(regex::Error);

/// The pattern text that `regex` was compiled from: what `Regex::as_str`
/// returns.
pub uninterp spec fn regex_source(regex: Regex) -> Seq<char>;

/// The sentence in which `error` reports why a pattern was not compiled.
pub uninterp spec fn regex_error_message(error: regex::Error) -> Seq<char>;

/// Whether `regex` matches somewhere in `text`.
pub uninterp spec fn regex_matches(regex: Regex, text: Seq<char>) -> bool;

/// `Regex::new`. A compiled pattern keeps the text it was compiled from. A
/// pattern is refused where its syntax is wrong and where its compiled form
/// would pass the crate's size limit; which patterns those are is not
/// stated here.
pub assume_specification[ Regex::new ](re: &str) -> (result: Result<Regex, regex::Error>)
    ensures
        result matches Ok(regex) ==> regex_source(regex) == re@,
;

/// `Regex::is_match`: true exactly where the pattern matches anywhere in the
/// haystack. A pattern that is to match the whole text is anchored with `^`
/// and `$` by its author.
pub assume_specification[ Regex::is_match ](regex: &Regex, haystack: &str) -> (found: bool)
    ensures
        found == regex_matches(*regex, haystack@),
;

/// `regex::Error` as text, by its `Display`: the syntax error as the engine
/// words it, or the size limit that the compiled pattern would pass. The
/// text depends on the error alone.
#[verifier::external_body]
pub(crate) fn regex_error_text(error: &regex::Error) -> (text: String)
    ensures
        text@ == regex_error_message(*error),
{
    error.to_string()
}

} // verus!
