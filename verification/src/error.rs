//! The ways in which a resolution fails.

use vstd::prelude::*;

verus! {

/// Why a resolution gave no address.
#[derive(Clone, Copy, Debug, PartialEq, Eq, Structural)]
pub enum ResolveError {
    /// The host name is no domain name.
    InvalidName,
    /// The query could not be sent, or no response could be read.
    TransportFailure,
    /// The server reported a failure that may pass.
    ServerTransientFailure,
    /// The server reported a failure that will not pass.
    ServerPermanentFailure,
    /// The name has no address.
    NameNotFound,
}

} // verus!
