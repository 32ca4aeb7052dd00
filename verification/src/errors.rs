//! The error taxonomy of the create and lookup protocols.

use vstd::prelude::*;

verus! {

/// Why a create request failed.
///
/// `MalformedInput` is client-caused and reported before any store
/// interaction; `StoreTimeout` and `StoreError` are infrastructure failures
/// of a single insert attempt and are never retried; `IdSpaceExhausted`
/// reports that the whole retry budget was spent on identifier collisions.
#[derive(Debug, Clone, Copy, PartialEq, Eq, Structural)]
pub enum CreateError {
    MalformedInput,
    StoreTimeout,
    StoreError,
    IdSpaceExhausted,
}

/// Why a lookup failed: the store did not answer in time, answered with an
/// error, or holds no row under the requested id.
#[derive(Debug, Clone, Copy, PartialEq, Eq, Structural)]
pub enum LookupError {
    StoreTimeout,
    StoreError,
    NotFound,
}

} // verus!
