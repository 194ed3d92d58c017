//! Regular-expression collaborators.
//!
//! The pipeline is configured with caller-supplied patterns: one marking
//! anchors that carry a site code, one extracting the trailing code token.
//! What a pattern matches is the regex engine's business; the library names
//! the results and states only that they are functions of the pattern and
//! the text.

use vstd::prelude::*;

verus! {

/// Whether a pattern text compiles as a regular expression.
pub uninterp spec fn regex_ok(pat: Seq<char>) -> bool;

/// Whether a compiled pattern matches anywhere in a text.
pub uninterp spec fn regex_match(pat: Seq<char>, text: Seq<char>) -> bool;

/// The first match of a compiled pattern in a text, as the matched
/// substring, if the pattern matches at all.
pub uninterp spec fn regex_find(pat: Seq<char>, text: Seq<char>) -> Option<Seq<char>>;

/// Relies on regex::Regex::new: it returns Ok exactly when the pattern
/// text is a valid regular expression (within the default size limit).
#[verifier::external_body]
pub(crate) fn regex_compiles(pat: &String) -> (r: bool)
    ensures
        r == regex_ok(pat@),
{
    regex::Regex::new(pat.as_str()).is_ok()
}

/// Relies on regex::Regex::is_match: true if and only if the pattern
/// matches anywhere in the text. The compile step cannot fail here because
/// the pattern is known to be valid.
#[verifier::external_body]
pub(crate) fn regex_is_match(pat: &String, text: &String) -> (r: bool)
    requires
        regex_ok(pat@),
    ensures
        r == regex_match(pat@, text@),
{
    regex::Regex::new(pat.as_str()).unwrap().is_match(text.as_str())
}

/// Relies on regex::Regex::find: the first match of the pattern in the
/// text, returned as the matched substring. The compile step cannot fail
/// here because the pattern is known to be valid.
#[verifier::external_body]
pub(crate) fn regex_find_first(pat: &String, text: &String) -> (r: Option<String>)
    requires
        regex_ok(pat@),
    ensures
        r.deep_view() == regex_find(pat@, text@),
{
    regex::Regex::new(pat.as_str()).unwrap().find(text.as_str()).map(|m| m.as_str().to_string())
}

} // verus!
