//! The result of a resolution, as it is handed to the caller.

use vstd::prelude::*;
use crate::error::ResolveError;
use crate::record::Ipv4Address;

verus! {

/// The mathematical value of an outcome.
pub ghost enum OutcomeView {
    /// The addresses of the name.
    Success(Seq<Ipv4Address>),
    /// The name has no address.
    NotFound,
    /// The resolution failed for now; the caller may ask again later.
    TryAgain,
    /// The resolution failed, and asking again will not help.
    Unavailable,
}

/// The result of a resolution.
#[derive(Clone, Debug, PartialEq, Eq)]
pub enum ResolutionOutcome {
    /// The addresses of the name: at least one.
    Success(Vec<Ipv4Address>),
    /// The name has no address.
    NotFound,
    /// The resolution failed for now; the caller may ask again later.
    TryAgain,
    /// The resolution failed, and asking again will not help.
    Unavailable,
}

impl View for ResolutionOutcome {
    type V = OutcomeView;

    open spec fn view(&self) -> OutcomeView {
        match *self {
            ResolutionOutcome::Success(addresses) => OutcomeView::Success(addresses@),
            ResolutionOutcome::NotFound => OutcomeView::NotFound,
            ResolutionOutcome::TryAgain => OutcomeView::TryAgain,
            ResolutionOutcome::Unavailable => OutcomeView::Unavailable,
        }
    }
}

impl OutcomeView {
    /// A success carries at least one address.
    pub open spec fn well_formed(self) -> bool {
        self matches OutcomeView::Success(addresses) ==> addresses.len() > 0
    }
}

/// The outcome under which a failure reaches the caller.
pub open spec fn surfaced(error: ResolveError) -> OutcomeView {
    match error {
        ResolveError::InvalidName => OutcomeView::Unavailable,
        ResolveError::TransportFailure => OutcomeView::Unavailable,
        ResolveError::ServerTransientFailure => OutcomeView::TryAgain,
        ResolveError::ServerPermanentFailure => OutcomeView::Unavailable,
        ResolveError::NameNotFound => OutcomeView::NotFound,
    }
}

/// The outcome of a list of addresses: a success, unless the list is empty.
pub open spec fn outcome_of_addresses(addresses: Seq<Ipv4Address>) -> OutcomeView {
    if addresses.len() > 0 {
        OutcomeView::Success(addresses)
    } else {
        OutcomeView::NotFound
    }
}

/// The outcome of the addresses that were found, or of the failure.
pub open spec fn outcome_of(found: Result<Seq<Ipv4Address>, ResolveError>) -> OutcomeView {
    match found {
        Ok(addresses) => outcome_of_addresses(addresses),
        Err(error) => surfaced(error),
    }
}

impl ResolutionOutcome {
    /// A success carries at least one address.
    pub open spec fn well_formed(self) -> bool {
        self@.well_formed()
    }

    /// The outcome under which a failure reaches the caller.
    pub fn from_error(error: ResolveError) -> (outcome: ResolutionOutcome)
        ensures
            outcome@ == surfaced(error),
            outcome.well_formed(),
    {
        match error {
            ResolveError::InvalidName => ResolutionOutcome::Unavailable,
            ResolveError::TransportFailure => ResolutionOutcome::Unavailable,
            ResolveError::ServerTransientFailure => ResolutionOutcome::TryAgain,
            ResolveError::ServerPermanentFailure => ResolutionOutcome::Unavailable,
            ResolveError::NameNotFound => ResolutionOutcome::NotFound,
        }
    }

    /// The outcome of a list of addresses: a success, unless the list is
    /// empty, which is a name without an address.
    pub fn from_addresses(addresses: Vec<Ipv4Address>) -> (outcome: ResolutionOutcome)
        ensures
            outcome@ == outcome_of_addresses(addresses@),
            outcome.well_formed(),
    {
        if addresses.len() > 0 {
            ResolutionOutcome::Success(addresses)
        } else {
            ResolutionOutcome::NotFound
        }
    }

    /// The outcome of the addresses that were found, or of the failure.
    pub fn from_result(found: Result<Vec<Ipv4Address>, ResolveError>) -> (outcome:
        ResolutionOutcome)
        ensures
            match found {
                Ok(addresses) => outcome@ == outcome_of(Ok(addresses@)),
                Err(error) => outcome@ == outcome_of(Err(error)),
            },
            outcome.well_formed(),
    {
        match found {
            Ok(addresses) => ResolutionOutcome::from_addresses(addresses),
            Err(error) => ResolutionOutcome::from_error(error),
        }
    }
}

} // verus!
