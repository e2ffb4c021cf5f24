//! A query service over a pre-built full-text index: it opens the index,
//! discovers which fields answer free-text queries, runs ranked retrieval,
//! and projects raw hits onto stable, display-ready records. A small
//! companion picks a uniformly random URL from a fixed, startup-loaded list.
//! Retrieval itself is done by the tantivy engine behind the narrow, trusted
//! bindings of `engine`; everything around those bindings is verified.

pub mod analyzer;
pub mod datefmt;
pub mod engine;
pub mod fields;
pub mod page;
pub mod selector;
pub mod service;

use vstd::prelude::*;

verus! {

/// An error found while setting the service up: the process cannot serve.
#[derive(Debug, PartialEq, Eq, Structural)]
pub enum ConfigError {
    /// The location given does not hold a readable index.
    InvalidIndex,
    /// The index has no text field that was indexed for search.
    NoSearchableFields,
    /// The list of redirect targets is empty.
    EmptyUrlList,
}

/// An error of one query: recoverable, reported to the caller as a request
/// failure, distinct from a successful empty result.
#[derive(Debug, PartialEq, Eq, Structural)]
pub enum QueryError {
    /// The query text did not parse: unbalanced quotes or parentheses, an
    /// unknown field qualifier, and the like.
    MalformedQuery,
    /// The engine failed while running a well-formed query.
    SearchFailed,
}

} // verus!
