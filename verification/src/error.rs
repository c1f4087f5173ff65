use vstd::prelude::*;

verus! {

/// Failure taxonomy of the snapshot-diff pass.
///
/// `NotFound` is recovered locally (a missing store is treated as an empty
/// snapshot); the other variants propagate to the caller and abort the pass.
#[derive(Clone, Copy, Debug, PartialEq, Eq, Structural)]
pub enum Error {
    /// The registry fetch failed or returned a non-success response.
    NetworkError,
    /// A fetched or stored document could not be parsed as an
    /// identifier-to-status object.
    MalformedData,
    /// No prior snapshot exists in the store.
    NotFound,
}

} // verus!
