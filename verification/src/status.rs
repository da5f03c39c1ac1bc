//! Sorting a response by its top-level status.

use vstd::prelude::*;

verus! {

/// The status that a response carries in its header, as far as a resolution
/// tells the values apart.
#[derive(Clone, Copy, Debug, PartialEq, Eq, Structural)]
pub enum ResponseStatus {
    /// The query was answered.
    NoError,
    /// The name that was asked for does not exist.
    NameDoesNotExist,
    /// The server could not process the query.
    ServerFailure,
    /// Every other status.
    Other,
}

/// What a status means for the resolution, decided before any record is read.
#[derive(Clone, Copy, Debug, PartialEq, Eq, Structural)]
pub enum Classification {
    /// The answer records decide.
    Continue,
    /// The name has no address; final.
    NotFound,
    /// The failure may pass; the caller may ask again later.
    TryAgain,
    /// The failure will not pass.
    Unavailable,
}

/// The classification of each status.
pub open spec fn classification_of(status: ResponseStatus) -> Classification {
    match status {
        ResponseStatus::NoError => Classification::Continue,
        ResponseStatus::NameDoesNotExist => Classification::NotFound,
        ResponseStatus::ServerFailure => Classification::TryAgain,
        ResponseStatus::Other => Classification::Unavailable,
    }
}

/// Sorts a response by its status alone.
pub fn classify(status: ResponseStatus) -> (class: Classification)
    ensures
        class == classification_of(status),
{
    match status {
        ResponseStatus::NoError => Classification::Continue,
        ResponseStatus::NameDoesNotExist => Classification::NotFound,
        ResponseStatus::ServerFailure => Classification::TryAgain,
        ResponseStatus::Other => Classification::Unavailable,
    }
}

} // verus!
