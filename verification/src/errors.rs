//! The typed errors every public operation returns.

use vstd::prelude::*;

verus! {

/// `tantivy::TantivyError` is the engine's low-level failure type; values of
/// it are carried through unchanged, never inspected.
#[verifier::external_type_specification]
#[verifier::external_body]
pub struct ExTantivyError(tantivy::TantivyError);

/// A failure of one public operation, terminal for the call that produced it.
#[derive(Debug)]
pub enum TantivySearchError {
    /// A required analyzer or configuration is missing where it should be
    /// guaranteed present.
    InternalError(String),
    /// The underlying query build, run or rank step failed; the message is
    /// the engine's own description of the failure.
    IndexSearcherError(String),
    /// A low-level engine failure, surfaced unchanged.
    TantivyError(tantivy::TantivyError),
}

} // verus!
