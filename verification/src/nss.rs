//! The side of the name service switch: what a lookup reports to its caller,
//! and where its result lies in the buffer that the caller lends.
//!
//! Nothing here touches memory. A plan gives the offsets at which the caller's
//! buffer is to be filled; who fills it writes the pointers.

use vstd::prelude::*;
use crate::name::{parsed_name, DomainName, NameView};
use crate::outcome::{OutcomeView, ResolutionOutcome};
use crate::record::Ipv4Address;
use crate::resolve::{begin, conclude, resolution, status_in, Reply, ReplyView, Step};
use crate::status::{classification_of, classify, Classification, ResponseStatus};

verus! {

/// The lookup failed for now.
pub const NSS_STATUS_TRYAGAIN: i32 = -2;

/// The service is not available.
pub const NSS_STATUS_UNAVAIL: i32 = -1;

/// The name has no entry.
pub const NSS_STATUS_NOTFOUND: i32 = 0;

/// The lookup succeeded.
pub const NSS_STATUS_SUCCESS: i32 = 1;

/// The host is not known.
pub const HOST_NOT_FOUND: i32 = 1;

/// The failure may pass.
pub const TRY_AGAIN: i32 = 2;

/// The failure will not pass.
pub const NO_RECOVERY: i32 = 3;

/// The name is known and has no address.
pub const NO_DATA: i32 = 4;

/// The failure lies in the resolver itself; the error number says more.
pub const NETDB_INTERNAL: i32 = -1;

/// No failure.
pub const NETDB_SUCCESS: i32 = 0;

/// The address family of a request.
#[derive(Clone, Copy, Debug, PartialEq, Eq, Structural)]
pub enum AddressFamily {
    /// IPv4.
    Inet,
    /// IPv6.
    Inet6,
    /// Any other family, or none.
    Other,
}

/// Whether a request for this family is taken up: every one but IPv6.
pub fn is_served(family: AddressFamily) -> (served: bool)
    ensures
        served == (family != AddressFamily::Inet6),
{
    match family {
        AddressFamily::Inet6 => false,
        _ => true,
    }
}

/// The error number that a lookup leaves to its caller. Its value is the
/// platform's.
#[derive(Clone, Copy, Debug, PartialEq, Eq, Structural)]
pub enum ErrorNumber {
    /// No error.
    Clear,
    /// No such entry.
    NoEntry,
    /// The buffer is too small for the result.
    OutOfRange,
}

/// What a lookup reports besides its result.
#[derive(Clone, Copy, Debug, PartialEq, Eq, Structural)]
pub struct Report {
    /// One of the `NSS_STATUS_` values.
    pub status: i32,
    /// The error number.
    pub error_number: ErrorNumber,
    /// The host error: `HOST_NOT_FOUND`, `TRY_AGAIN`, `NO_RECOVERY`, `NO_DATA`,
    /// `NETDB_INTERNAL` or `NETDB_SUCCESS`.
    pub host_error: i32,
}

/// The status under which an outcome is reported.
pub open spec fn status_of(outcome: OutcomeView) -> i32 {
    match outcome {
        OutcomeView::Success(_) => NSS_STATUS_SUCCESS,
        OutcomeView::NotFound => NSS_STATUS_NOTFOUND,
        OutcomeView::TryAgain => NSS_STATUS_TRYAGAIN,
        OutcomeView::Unavailable => NSS_STATUS_UNAVAIL,
    }
}

/// The host error of a resolution, by the status of the response that it had,
/// if it had one.
pub open spec fn host_error_of(response: Option<ResponseStatus>) -> i32 {
    match response {
        None => NETDB_INTERNAL,
        Some(status) => match classification_of(status) {
            Classification::Continue => NO_DATA,
            Classification::NotFound => HOST_NOT_FOUND,
            Classification::TryAgain => TRY_AGAIN,
            Classification::Unavailable => NO_RECOVERY,
        },
    }
}

/// What a resolution reports: its status goes by the outcome; the error number
/// and the host error go by the response, if there was one to read.
pub open spec fn lookup_report(outcome: OutcomeView, response: Option<ResponseStatus>) -> Report {
    Report {
        status: status_of(outcome),
        error_number: if response is Some {
            ErrorNumber::Clear
        } else {
            ErrorNumber::NoEntry
        },
        host_error: host_error_of(response),
    }
}

/// What is reported once the addresses of a success are to be handed over:
/// success if they fit into the caller's buffer, and else that the caller may
/// try again with a larger one.
pub open spec fn packing_report(fits: bool) -> Report {
    if fits {
        Report {
            status: NSS_STATUS_SUCCESS,
            error_number: ErrorNumber::Clear,
            host_error: NETDB_SUCCESS,
        }
    } else {
        Report {
            status: NSS_STATUS_TRYAGAIN,
            error_number: ErrorNumber::OutOfRange,
            host_error: TRY_AGAIN,
        }
    }
}

/// Reports a resolution that ended in `outcome`; `response` is the status of
/// the response that was read, and nothing where the name was refused or no
/// response came.
pub fn report_lookup(outcome: &ResolutionOutcome, response: Option<ResponseStatus>) -> (report:
    Report)
    ensures
        report == lookup_report(outcome@, response),
{
    let status = match outcome {
        ResolutionOutcome::Success(_) => NSS_STATUS_SUCCESS,
        ResolutionOutcome::NotFound => NSS_STATUS_NOTFOUND,
        ResolutionOutcome::TryAgain => NSS_STATUS_TRYAGAIN,
        ResolutionOutcome::Unavailable => NSS_STATUS_UNAVAIL,
    };
    match response {
        None => Report { status, error_number: ErrorNumber::NoEntry, host_error: NETDB_INTERNAL },
        Some(code) => {
            let host_error = match classify(code) {
                Classification::Continue => NO_DATA,
                Classification::NotFound => HOST_NOT_FOUND,
                Classification::TryAgain => TRY_AGAIN,
                Classification::Unavailable => NO_RECOVERY,
            };
            Report { status, error_number: ErrorNumber::Clear, host_error }
        },
    }
}

/// Reports whether the addresses of a success could be handed over.
pub fn report_packing(fits: bool) -> (report: Report)
    ensures
        report == packing_report(fits),
{
    if fits {
        Report {
            status: NSS_STATUS_SUCCESS,
            error_number: ErrorNumber::Clear,
            host_error: NETDB_SUCCESS,
        }
    } else {
        Report {
            status: NSS_STATUS_TRYAGAIN,
            error_number: ErrorNumber::OutOfRange,
            host_error: TRY_AGAIN,
        }
    }
}

/// The addresses that a resolution hands over, and what it reports: the
/// addresses of a success and nothing else, and the report of the outcome.
pub open spec fn lookup(query: NameView, reply: ReplyView) -> (Option<Seq<Ipv4Address>>, Report) {
    let outcome = resolution(query, reply);
    (
        match outcome {
            OutcomeView::Success(addresses) => Some(addresses),
            _ => None,
        },
        lookup_report(outcome, status_in(reply)),
    )
}

/// Resolves a host name to its addresses by one query, which `transport`
/// makes, and says what is to be reported. For a text that is no domain name
/// no query is made, and the report is that of a resolution without a
/// response.
pub fn retrieve_addrs<T: FnOnce(&DomainName) -> Reply>(name: &str, transport: T) -> (found: (
    Option<Vec<Ipv4Address>>,
    Report,
))
    requires
        forall|query: &DomainName| query@.fqdn ==> call_requires(transport, (query,)),
    ensures
        match parsed_name(name@) {
            Some(read) => exists|query: &DomainName, reply: Reply|
                {
                    &&& query@ == read.qualified()
                    &&& #[trigger] call_ensures(transport, (query,), reply)
                    &&& found.1 == lookup(query@, reply@).1
                    &&& match lookup(query@, reply@).0 {
                        Some(addresses) => found.0 matches Some(list) && list@ == addresses,
                        None => found.0 is None,
                    }
                },
            None => found.0 is None && found.1 == lookup_report(OutcomeView::Unavailable, None),
        },
        found.0 matches Some(list) ==> list.len() > 0 && found.1.status == NSS_STATUS_SUCCESS,
        found.0 is None ==> found.1.status != NSS_STATUS_SUCCESS,
{
    match begin(name) {
        Step::Query(query) => {
            let reply = transport(&query);
            assert(call_ensures(transport, (&query,), reply));
            let outcome = conclude(&query, &reply);
            let report = report_lookup(&outcome, reply.status());
            match outcome {
                ResolutionOutcome::Success(addresses) => (Some(addresses), report),
                _ => (None, report),
            }
        },
        Step::Done(outcome) => (None, report_lookup(&outcome, None)),
    }
}

} // verus!
