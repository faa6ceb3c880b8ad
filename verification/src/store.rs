//! Outcomes of document-store calls, as the usecases see them.
//!
//! The store adapters themselves perform wire I/O and live outside this
//! library; they report each call's outcome as one of these plain values.

use vstd::prelude::*;

verus! {

/// The outcome of a single document-store call, reduced to the three
/// signals the usecases distinguish: the item was absent, a conditional
/// write found an item already present, or the store failed outright.
#[derive(Debug)]
pub enum StoreError {
    /// The requested item does not exist, or a fail-if-absent write found
    /// no item to overwrite.
    NotFound,
    /// A fail-if-exists write found an item already present.
    AlreadyExists,
    /// Any other store failure, with a human-readable detail.
    Infra { detail: String },
}

} // verus!
