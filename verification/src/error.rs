//! The pipeline's error taxonomy.
//!
//! Every fatal failure of acquisition or configuration carries enough
//! context (a key, a pattern, a row index) to diagnose it. Transport
//! failures are not represented here: network I/O happens outside the
//! library, and its errors never reach verified code.

use vstd::prelude::*;

verus! {

/// A fatal pipeline failure.
#[derive(Debug, PartialEq, Eq)]
pub enum PipelineError {
    /// A required configuration key is absent.
    MissingKey(String),
    /// A configured regular-expression pattern does not compile.
    BadPattern(String),
    /// A configured or built-in element selector does not parse.
    BadSelector(String),
    /// The expected download anchor is absent from the fetched page.
    LinkNotFound,
    /// A CSV row cannot be decoded against the header (the index counts
    /// data rows from zero; the header itself is row zero only when the
    /// header line cannot be read at all).
    MalformedRow { row: usize },
    /// A decoded row lacks a non-empty station identifier field.
    MissingId { row: usize },
}

} // verus!
