//! Searching the lines of a set of files for a regular expression.
//!
//! The library holds the decisions of a file search: which inputs are
//! accepted, which lines of a file match, how the per-file results are
//! gathered in input order, and how they are rendered as text.
pub mod enumerate;
pub mod error;
pub mod gather;
pub mod laws;
pub mod pattern;
pub mod report;
pub mod scan;
pub mod search;
