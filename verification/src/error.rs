//! Failures surfaced by this library's parsers.

use vstd::prelude::*;

verus! {

/// A typed parse failure, returned to the caller rather than silently
/// defaulted.
#[derive(Debug, PartialEq, Eq, Structural, Clone, Copy)]
pub enum Error {
    /// A `;`-delimited part of the propagation header carried no `=`.
    HeaderParse,
}

} // verus!
