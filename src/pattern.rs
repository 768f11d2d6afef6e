use vstd::prelude::*;
use crate::error::SearchError;

verus! {

#[verifier::external_type_specification]
#[verifier::external_body]
pub struct ExRegex(regex::Regex);

#[verifier::external_type_specification]
#[verifier::external_body]
pub struct ExRegexError(regex::Error);

/// Whether the regex crate compiles the expression `p` with its default
/// settings (syntax and the default size limit).
pub uninterp spec fn regex_accepts(p: Seq<char>) -> bool;

/// Whether the expression `p`, compiled with the regex crate's default
/// settings, matches somewhere in `line`.
pub uninterp spec fn regex_matches(p: Seq<char>, line: Seq<char>) -> bool;

/// Relies on regex::Regex::new: it fails exactly on the expressions that
/// the crate does not accept, and the outcome depends on the text alone.
#[verifier::external_body]
fn new_regex(p: &str) -> (r: Result<regex::Regex, regex::Error>)
    ensures
        r.is_ok() == regex_accepts(p@),
{
    regex::Regex::new(p)
}

/// Relies on the Display impl of regex::Error for its message.
#[verifier::external_body]
fn regex_error_text(e: &regex::Error) -> String {
    e.to_string()
}

/// A compiled regular expression together with the text it was compiled
/// from. Its view is that text.
pub struct Pattern {
    re: regex::Regex,
    source: String,
}

impl View for Pattern {
    type V = Seq<char>;

    closed spec fn view(&self) -> Seq<char> {
        self.source@
    }
}

/// Relies on regex::Regex::is_match: true iff the expression matches
/// somewhere in `line`. `p.re` is always compiled from `p.source`, since
/// `Pattern::compile` is the only place that builds a `Pattern`.
#[verifier::external_body]
fn regex_is_match(p: &Pattern, line: &str) -> (r: bool)
    ensures
        r == regex_matches(p@, line@),
{
    p.re.is_match(line)
}

impl Pattern {
    /// Compiles `text`; fails with `InvalidPattern` exactly when the regex
    /// crate refuses it.
    pub fn compile(text: &str) -> (r: Result<Pattern, SearchError>)
        ensures
            r.is_ok() == regex_accepts(text@),
            r matches Ok(p) ==> p@ == text@,
            r matches Err(e) ==> e.is_invalid_pattern(),
    {
        match new_regex(text) {
            Ok(re) => Ok(Pattern { re, source: String::from_str(text) }),
            Err(e) => Err(SearchError::InvalidPattern(regex_error_text(&e))),
        }
    }

    /// The text the pattern was compiled from.
    pub fn as_str(&self) -> (r: &str)
        ensures
            r@ == self@,
    {
        self.source.as_str()
    }

    /// Whether the pattern matches somewhere in `line`.
    pub fn matches(&self, line: &str) -> (r: bool)
        ensures
            r == regex_matches(self@, line@),
    {
        regex_is_match(self, line)
    }
}

} // verus!
