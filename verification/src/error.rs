//! The ways in which an operation of the store can fail.

use vstd::prelude::*;

verus! {

/// Why an operation did not succeed. None of these ends the program: each
/// is the answer to one call.
#[derive(Clone, Copy, Debug, PartialEq, Eq, Structural)]
pub enum StoreError {
    /// No item has the identifier that was asked for.
    NotFound,
    /// The collection was changed in memory, but the document could not be
    /// written. The change in memory stays.
    PersistenceFailure,
    /// The document could not be read as a collection. It is set aside and
    /// the store starts empty.
    MalformedPersistedData,
}

} // verus!
