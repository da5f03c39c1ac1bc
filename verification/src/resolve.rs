//! One resolution: the host name is brought into its absolute form, one query
//! is made for it, and the response is read.
//!
//! The query itself is made by the caller. `resolve` takes it as a function
//! and calls it once. A caller that cannot hand the query in as a function
//! goes in two steps: `begin` says whether there is a name to ask for, and
//! `conclude` reads what came back.

use vstd::prelude::*;
use crate::chase::{
    chase, chase_result, is_first_alias, lemma_address_before_alias_fails,
    lemma_alias_cycle_fails, lemma_success_has_address, StateView,
};
use crate::error::ResolveError;
use crate::name::{normalize, parsed_name, DomainName, NameView};
use crate::outcome::{outcome_of, OutcomeView, ResolutionOutcome};
use crate::record::{AnswerRecord, Ipv4Address, RecordView};
use crate::status::{classification_of, classify, Classification, ResponseStatus};

verus! {

/// A response, as far as a resolution reads it.
#[derive(Clone, Debug)]
pub struct Response {
    /// The status in the header.
    pub status: ResponseStatus,
    /// The records of the answer section, in their order.
    pub answers: Vec<AnswerRecord>,
}

/// The mathematical value of a response.
pub ghost struct ResponseView {
    /// The status in the header.
    pub status: ResponseStatus,
    /// The records of the answer section, in their order.
    pub answers: Seq<RecordView>,
}

impl View for Response {
    type V = ResponseView;

    open spec fn view(&self) -> ResponseView {
        ResponseView { status: self.status, answers: self.answers.deep_view() }
    }
}

/// What came back for the one query.
#[derive(Clone, Debug)]
pub enum Reply {
    /// A response that could be read.
    Message(Response),
    /// The query could not be sent, or no response could be read.
    TransportFailure,
}

/// The mathematical value of a reply.
pub ghost enum ReplyView {
    /// A response that could be read.
    Message(ResponseView),
    /// The query could not be sent, or no response could be read.
    TransportFailure,
}

impl View for Reply {
    type V = ReplyView;

    open spec fn view(&self) -> ReplyView {
        match *self {
            Reply::Message(response) => ReplyView::Message(response@),
            Reply::TransportFailure => ReplyView::TransportFailure,
        }
    }
}

/// The status of the response in a reply, if there is one.
pub open spec fn status_in(reply: ReplyView) -> Option<ResponseStatus> {
    match reply {
        ReplyView::Message(response) => Some(response.status),
        ReplyView::TransportFailure => None,
    }
}

impl Reply {
    /// The status of the response, if there is one.
    pub fn status(&self) -> (status: Option<ResponseStatus>)
        ensures
            status == status_in(self@),
    {
        match self {
            Reply::Message(response) => Some(response.status),
            Reply::TransportFailure => None,
        }
    }
}

/// What a response says of the name that was asked for. The status decides
/// first; the answer records are read only for a response without an error.
pub open spec fn reading(query: NameView, response: ResponseView) -> Result<
    Seq<Ipv4Address>,
    ResolveError,
> {
    match classification_of(response.status) {
        Classification::Continue => match chase_result(response.answers, query) {
            Ok(addresses) => Ok(addresses),
            Err(_) => Err(ResolveError::NameNotFound),
        },
        Classification::NotFound => Err(ResolveError::NameNotFound),
        Classification::TryAgain => Err(ResolveError::ServerTransientFailure),
        Classification::Unavailable => Err(ResolveError::ServerPermanentFailure),
    }
}

/// What a reply says of the name that was asked for.
pub open spec fn diagnosis(query: NameView, reply: ReplyView) -> Result<
    Seq<Ipv4Address>,
    ResolveError,
> {
    match reply {
        ReplyView::Message(response) => reading(query, response),
        ReplyView::TransportFailure => Err(ResolveError::TransportFailure),
    }
}

/// The outcome of a resolution of `query` to which `reply` came back.
pub open spec fn resolution(query: NameView, reply: ReplyView) -> OutcomeView {
    outcome_of(diagnosis(query, reply))
}

/// Reads a response for the name that was asked for: the addresses of the
/// name, or the reason why there are none.
pub fn read_response(query: &DomainName, response: &Response) -> (found: Result<
    Vec<Ipv4Address>,
    ResolveError,
>)
    ensures
        match reading(query@, response@) {
            Ok(addresses) => found matches Ok(list) && list@ == addresses,
            Err(error) => found matches Err(reason) && reason == error,
        },
        found matches Ok(list) ==> list.len() > 0,
{
    match classify(response.status) {
        Classification::Continue => match chase(&response.answers, query) {
            Ok(addresses) => Ok(addresses),
            Err(_) => Err(ResolveError::NameNotFound),
        },
        Classification::NotFound => Err(ResolveError::NameNotFound),
        Classification::TryAgain => Err(ResolveError::ServerTransientFailure),
        Classification::Unavailable => Err(ResolveError::ServerPermanentFailure),
    }
}

/// Reads what came back for the one query: the addresses of the name, or the
/// reason why there are none.
pub fn diagnose(query: &DomainName, reply: &Reply) -> (found: Result<
    Vec<Ipv4Address>,
    ResolveError,
>)
    ensures
        match diagnosis(query@, reply@) {
            Ok(addresses) => found matches Ok(list) && list@ == addresses,
            Err(error) => found matches Err(reason) && reason == error,
        },
        found matches Ok(list) ==> list.len() > 0,
{
    match reply {
        Reply::Message(response) => read_response(query, response),
        Reply::TransportFailure => Err(ResolveError::TransportFailure),
    }
}

/// What a resolution does first.
#[derive(Clone, Debug)]
pub enum Step {
    /// One query for the addresses of this absolute name is to be made.
    Query(DomainName),
    /// The resolution is over.
    Done(ResolutionOutcome),
}

/// Begins a resolution: the host name is read and brought into its absolute
/// form, and is then to be asked for. For a text that is no domain name the
/// resolution is over, and the name service unavailable.
pub fn begin(host_name: &str) -> (step: Step)
    ensures
        match parsed_name(host_name@) {
            Some(read) => step matches Step::Query(name) && name@ == read.qualified(),
            None => step matches Step::Done(outcome) && outcome@ == OutcomeView::Unavailable,
        },
        step matches Step::Query(name) ==> name@.fqdn,
{
    match normalize(host_name) {
        Ok(name) => Step::Query(name),
        Err(error) => Step::Done(ResolutionOutcome::from_error(error)),
    }
}

/// Ends a resolution: reads what came back for the query.
pub fn conclude(query: &DomainName, reply: &Reply) -> (outcome: ResolutionOutcome)
    ensures
        outcome@ == resolution(query@, reply@),
        outcome.well_formed(),
{
    ResolutionOutcome::from_result(diagnose(query, reply))
}

/// Resolves a host name by one query, which `transport` makes: the name is
/// read and brought into its absolute form, `transport` is called once with
/// it, and what it hands back is read. For a text that is no domain name no
/// query is made, and the name service is unavailable.
pub fn resolve<T: FnOnce(&DomainName) -> Reply>(host_name: &str, transport: T) -> (outcome:
    ResolutionOutcome)
    requires
        forall|name: &DomainName| name@.fqdn ==> call_requires(transport, (name,)),
    ensures
        outcome.well_formed(),
        match parsed_name(host_name@) {
            Some(read) => exists|name: &DomainName, reply: Reply|
                {
                    &&& name@ == read.qualified()
                    &&& #[trigger] call_ensures(transport, (name,), reply)
                    &&& outcome@ == resolution(name@, reply@)
                },
            None => outcome@ == OutcomeView::Unavailable,
        },
{
    match begin(host_name) {
        Step::Query(name) => {
            let reply = transport(&name);
            conclude(&name, &reply)
        },
        Step::Done(outcome) => outcome,
    }
}

/// The status of a response decides before any record is read: a name that
/// does not exist is not found, a server failure asks to try again, and any
/// other error makes the name service unavailable, whatever the answer
/// records hold. Only a response without an error is decided by the walk
/// over its records.
pub proof fn lemma_status_decides_first(query: NameView, answers: Seq<RecordView>)
    ensures
        resolution(
            query,
            ReplyView::Message(
                ResponseView { status: ResponseStatus::NameDoesNotExist, answers },
            ),
        ) == OutcomeView::NotFound,
        resolution(
            query,
            ReplyView::Message(ResponseView { status: ResponseStatus::ServerFailure, answers }),
        ) == OutcomeView::TryAgain,
        resolution(
            query,
            ReplyView::Message(ResponseView { status: ResponseStatus::Other, answers }),
        ) == OutcomeView::Unavailable,
        resolution(
            query,
            ReplyView::Message(ResponseView { status: ResponseStatus::NoError, answers }),
        ) == match chase_result(answers, query) {
            Ok(addresses) => OutcomeView::Success(addresses),
            Err(_) => OutcomeView::NotFound,
        },
{
    lemma_success_has_address(answers, StateView::start(query));
}

/// No resolution ends in a success without an address.
pub proof fn lemma_resolution_is_well_formed(query: NameView, reply: ReplyView)
    ensures
        resolution(query, reply).well_formed(),
{
}

/// A response without an error in which two names are each other's alias
/// gives no address for either of them, whatever other records it holds:
/// record `i` is the first alias of `query` and leads to a second name, and
/// record `j` is the first alias of that name and leads back to `query`.
pub proof fn lemma_alias_cycle_is_not_found(
    query: NameView,
    answers: Seq<RecordView>,
    i: int,
    j: int,
)
    requires
        is_first_alias(answers, query.key(), i),
        is_first_alias(answers, answers[i]->target.key(), j),
        answers[j]->target.key() == query.key(),
    ensures
        resolution(
            query,
            ReplyView::Message(ResponseView { status: ResponseStatus::NoError, answers }),
        ) == OutcomeView::NotFound,
{
    lemma_alias_cycle_fails(answers, query, Set::empty(), i, j);
}

/// A response without an error in which an address of the name that was asked
/// for comes before the first alias of that name gives no address, even where
/// the alias leads to a name that has one: record `i` is an address of
/// `query`, and record `j`, after it, is the first alias of `query`.
pub proof fn lemma_address_before_alias_is_not_found(
    query: NameView,
    answers: Seq<RecordView>,
    i: int,
    j: int,
)
    requires
        0 <= i < j,
        answers[i].is_address_of(query.key()),
        is_first_alias(answers, query.key(), j),
    ensures
        resolution(
            query,
            ReplyView::Message(ResponseView { status: ResponseStatus::NoError, answers }),
        ) == OutcomeView::NotFound,
{
    lemma_address_before_alias_fails(answers, query, Set::empty(), i, j);
}

} // verus!
