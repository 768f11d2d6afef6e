use vstd::prelude::*;

verus! {

/// The fatal errors of a search; both stop it before any file is read.
#[derive(Debug, Clone, PartialEq, Eq)]
pub enum SearchError {
    /// The glob pattern is malformed; holds the glob library's detail.
    InvalidGlob(String),
    /// The regular expression is malformed; holds the regex library's detail.
    InvalidPattern(String),
}

impl SearchError {
    pub open spec fn is_invalid_glob(&self) -> bool {
        self is InvalidGlob
    }

    pub open spec fn is_invalid_pattern(&self) -> bool {
        self is InvalidPattern
    }
}

} // verus!
