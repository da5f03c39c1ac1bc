use std::cell::Cell;

use nss_doh::name::DomainName;
use nss_doh::nss::{retrieve_addrs, ErrorNumber, Report};
use nss_doh::outcome::ResolutionOutcome;
use nss_doh::record::{AnswerRecord, Ipv4Address};
use nss_doh::resolve::{resolve, Reply, Response};
use nss_doh::status::ResponseStatus;

fn name(text: &str) -> DomainName {
    let labels = text.split('.').filter(|l| !l.is_empty()).map(|l| l.as_bytes().to_vec()).collect();
    DomainName { labels, fqdn: true }
}

fn ip(a: u8, b: u8, c: u8, d: u8) -> Ipv4Address {
    Ipv4Address { octets: [a, b, c, d] }
}

fn example_answers() -> Reply {
    Reply::Message(Response {
        status: ResponseStatus::NoError,
        answers: vec![
            AnswerRecord::Alias { owner: name("www.example.com."), target: name("example.com.") },
            AnswerRecord::Address { owner: name("example.com."), ip: ip(93, 184, 216, 34) },
        ],
    })
}

fn status_only(status: ResponseStatus) -> Reply {
    Reply::Message(Response { status, answers: vec![] })
}

#[test]
fn one_query_is_made_for_the_absolute_name() {
    let calls = Cell::new(0);
    let outcome = resolve("www.example.com", |query: &DomainName| {
        calls.set(calls.get() + 1);
        assert!(query.fqdn);
        assert!(query.same_name(&name("www.example.com.")));
        example_answers()
    });
    assert_eq!(calls.get(), 1);
    assert_eq!(outcome, ResolutionOutcome::Success(vec![ip(93, 184, 216, 34)]));
}

#[test]
fn no_query_is_made_for_a_text_that_is_no_name() {
    let calls = Cell::new(0);
    let outcome = resolve("exa mple.com", |_query: &DomainName| {
        calls.set(calls.get() + 1);
        example_answers()
    });
    assert_eq!(calls.get(), 0);
    assert_eq!(outcome, ResolutionOutcome::Unavailable);
}

#[test]
fn resolution_ends_as_the_reply_says() {
    assert_eq!(
        resolve("example.com", |_: &DomainName| Reply::TransportFailure),
        ResolutionOutcome::Unavailable
    );
    assert_eq!(
        resolve("example.com", |_: &DomainName| status_only(ResponseStatus::NameDoesNotExist)),
        ResolutionOutcome::NotFound
    );
    assert_eq!(
        resolve("example.com", |_: &DomainName| status_only(ResponseStatus::ServerFailure)),
        ResolutionOutcome::TryAgain
    );
    assert_eq!(
        resolve("example.com", |_: &DomainName| status_only(ResponseStatus::Other)),
        ResolutionOutcome::Unavailable
    );
    assert_eq!(
        resolve("example.com", |_: &DomainName| status_only(ResponseStatus::NoError)),
        ResolutionOutcome::NotFound
    );
}

#[test]
fn lookup_hands_over_the_addresses_of_a_success() {
    let (found, report) = retrieve_addrs("www.example.com", |_: &DomainName| example_answers());
    assert_eq!(found, Some(vec![ip(93, 184, 216, 34)]));
    assert_eq!(report, Report { status: 1, error_number: ErrorNumber::Clear, host_error: 4 });
}

#[test]
fn lookup_of_a_text_that_is_no_name_makes_no_query() {
    let calls = Cell::new(0);
    let (found, report) = retrieve_addrs("exa mple.com", |_: &DomainName| {
        calls.set(calls.get() + 1);
        example_answers()
    });
    assert_eq!(calls.get(), 0);
    assert_eq!(found, None);
    assert_eq!(report, Report { status: -1, error_number: ErrorNumber::NoEntry, host_error: -1 });
}

#[test]
fn lookup_reports_each_failure() {
    let (found, report) = retrieve_addrs("example.com", |_: &DomainName| Reply::TransportFailure);
    assert_eq!(found, None);
    assert_eq!(report, Report { status: -1, error_number: ErrorNumber::NoEntry, host_error: -1 });

    let (found, report) = retrieve_addrs("example.com", |_: &DomainName| {
        status_only(ResponseStatus::NameDoesNotExist)
    });
    assert_eq!(found, None);
    assert_eq!(report, Report { status: 0, error_number: ErrorNumber::Clear, host_error: 1 });

    let (found, report) = retrieve_addrs("example.com", |_: &DomainName| {
        status_only(ResponseStatus::ServerFailure)
    });
    assert_eq!(found, None);
    assert_eq!(report, Report { status: -2, error_number: ErrorNumber::Clear, host_error: 2 });

    let (found, report) =
        retrieve_addrs("example.com", |_: &DomainName| status_only(ResponseStatus::Other));
    assert_eq!(found, None);
    assert_eq!(report, Report { status: -1, error_number: ErrorNumber::Clear, host_error: 3 });

    let (found, report) =
        retrieve_addrs("example.com", |_: &DomainName| status_only(ResponseStatus::NoError));
    assert_eq!(found, None);
    assert_eq!(report, Report { status: 0, error_number: ErrorNumber::Clear, host_error: 4 });
}

#[test]
fn reply_tells_its_status() {
    assert_eq!(Reply::TransportFailure.status(), None);
    assert_eq!(status_only(ResponseStatus::Other).status(), Some(ResponseStatus::Other));
    assert_eq!(example_answers().status(), Some(ResponseStatus::NoError));
}
