use vstd::prelude::*;
use crate::error::SearchError;
use crate::pattern::{Pattern, regex_accepts};

verus! {

#[verifier::external_type_specification]
#[verifier::external_body]
pub struct ExPatternError(glob::PatternError);

/// Whether the glob crate accepts `p` as pattern syntax.
pub uninterp spec fn glob_accepts(p: Seq<char>) -> bool;

/// Relies on glob::Pattern::new, the syntax check that glob::glob makes
/// before it walks the file system: it fails exactly on malformed patterns,
/// and the outcome depends on the text alone.
#[verifier::external_body]
fn glob_syntax(p: &str) -> (r: Result<(), glob::PatternError>)
    ensures
        r.is_ok() == glob_accepts(p@),
{
    glob::Pattern::new(p).map(|_| ())
}

/// Relies on the Display impl of glob::PatternError for its message.
#[verifier::external_body]
fn glob_error_text(e: &glob::PatternError) -> String {
    e.to_string()
}

/// Checks the syntax of a glob pattern; a pattern that matches no file is
/// still valid.
pub fn check_glob(glob_pattern: &str) -> (r: Result<(), SearchError>)
    ensures
        r.is_ok() == glob_accepts(glob_pattern@),
        r matches Err(e) ==> e.is_invalid_glob(),
{
    match glob_syntax(glob_pattern) {
        Ok(()) => Ok(()),
        Err(e) => Err(SearchError::InvalidGlob(glob_error_text(&e))),
    }
}

/// Validates both inputs of a search, the glob pattern first, and compiles
/// the regular expression. Nothing is scanned unless both are valid.
pub fn prepare(glob_pattern: &str, regex_text: &str) -> (r: Result<Pattern, SearchError>)
    ensures
        !glob_accepts(glob_pattern@) <==> (r matches Err(e) && e.is_invalid_glob()),
        glob_accepts(glob_pattern@) && !regex_accepts(regex_text@) <==> (r matches Err(
            e,
        ) && e.is_invalid_pattern()),
        r.is_ok() <==> glob_accepts(glob_pattern@) && regex_accepts(regex_text@),
        r matches Ok(p) ==> p@ == regex_text@,
{
    match check_glob(glob_pattern) {
        Err(e) => Err(e),
        Ok(()) => Pattern::compile(regex_text),
    }
}

} // verus!
