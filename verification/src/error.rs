//! The ways in which locating an offset can fail.

use vstd::prelude::*;

verus! {

/// Why an offset could not be produced.
#[derive(Clone, Copy, Debug, PartialEq, Eq, Structural)]
pub enum OffsetError {
    /// A signature holds a token that is neither a byte nor a wildcard, or no
    /// concrete byte at all.
    MalformedSignature,
    /// The scan ended without a match.
    NotFound,
    /// A persisted registry is incomplete or carries another version tag.
    RegistryLoadFailure,
    /// A required symbol could not be resolved against the image.
    RegistryInitFailure,
}

} // verus!
