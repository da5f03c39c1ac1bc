use nss_doh::buffer::{
    hostent_bytes, plan_hostent, plan_tuples, AddressSlot, HostentPlan, PlanError, TuplePlan,
    TupleSlot,
};
use nss_doh::nss::{
    is_served, report_lookup, report_packing, AddressFamily, ErrorNumber, Report, HOST_NOT_FOUND,
    NETDB_INTERNAL, NETDB_SUCCESS, NO_DATA, NO_RECOVERY, NSS_STATUS_NOTFOUND, NSS_STATUS_SUCCESS,
    NSS_STATUS_TRYAGAIN, NSS_STATUS_UNAVAIL, TRY_AGAIN,
};
use nss_doh::outcome::ResolutionOutcome;
use nss_doh::record::Ipv4Address;
use nss_doh::status::ResponseStatus;

fn ip(d: u8) -> Ipv4Address {
    Ipv4Address { octets: [192, 0, 2, d] }
}

#[test]
fn codes_have_their_values() {
    assert_eq!(NSS_STATUS_TRYAGAIN, -2);
    assert_eq!(NSS_STATUS_UNAVAIL, -1);
    assert_eq!(NSS_STATUS_NOTFOUND, 0);
    assert_eq!(NSS_STATUS_SUCCESS, 1);
    assert_eq!(HOST_NOT_FOUND, 1);
    assert_eq!(TRY_AGAIN, 2);
    assert_eq!(NO_RECOVERY, 3);
    assert_eq!(NO_DATA, 4);
    assert_eq!(NETDB_INTERNAL, -1);
    assert_eq!(NETDB_SUCCESS, 0);
}

#[test]
fn only_ipv6_is_turned_away() {
    assert!(is_served(AddressFamily::Inet));
    assert!(is_served(AddressFamily::Other));
    assert!(!is_served(AddressFamily::Inet6));
}

#[test]
fn resolution_without_response_reports_an_internal_failure() {
    assert_eq!(
        report_lookup(&ResolutionOutcome::Unavailable, None),
        Report { status: -1, error_number: ErrorNumber::NoEntry, host_error: -1 }
    );
}

#[test]
fn resolution_with_response_reports_by_its_status() {
    assert_eq!(
        report_lookup(&ResolutionOutcome::NotFound, Some(ResponseStatus::NameDoesNotExist)),
        Report { status: 0, error_number: ErrorNumber::Clear, host_error: 1 }
    );
    assert_eq!(
        report_lookup(&ResolutionOutcome::TryAgain, Some(ResponseStatus::ServerFailure)),
        Report { status: -2, error_number: ErrorNumber::Clear, host_error: 2 }
    );
    assert_eq!(
        report_lookup(&ResolutionOutcome::Unavailable, Some(ResponseStatus::Other)),
        Report { status: -1, error_number: ErrorNumber::Clear, host_error: 3 }
    );
    assert_eq!(
        report_lookup(&ResolutionOutcome::NotFound, Some(ResponseStatus::NoError)),
        Report { status: 0, error_number: ErrorNumber::Clear, host_error: 4 }
    );
    assert_eq!(
        report_lookup(&ResolutionOutcome::Success(vec![ip(1)]), Some(ResponseStatus::NoError)),
        Report { status: 1, error_number: ErrorNumber::Clear, host_error: 4 }
    );
}

#[test]
fn packing_reports_success_or_a_buffer_too_small() {
    assert_eq!(
        report_packing(true),
        Report { status: 1, error_number: ErrorNumber::Clear, host_error: 0 }
    );
    assert_eq!(
        report_packing(false),
        Report { status: -2, error_number: ErrorNumber::OutOfRange, host_error: 2 }
    );
}

#[test]
fn host_entry_is_laid_out_in_four_parts() {
    let addresses = vec![ip(1), ip(2)];
    let plan = plan_hostent(&addresses, 11, 8, 44);
    assert_eq!(
        plan,
        Ok(HostentPlan {
            slots: vec![
                AddressSlot { pointer_at: 0, address_at: 24, ip: ip(1) },
                AddressSlot { pointer_at: 8, address_at: 28, ip: ip(2) },
            ],
            end_of_list: 16,
            name_at: 32,
            size: 44,
        })
    );
    assert_eq!(plan_hostent(&addresses, 11, 8, 43), Err(PlanError::BufferTooSmall));
    assert_eq!(plan_hostent(&addresses, 11, 8, 0), Err(PlanError::BufferTooSmall));
    assert!(plan_hostent(&addresses, 11, 8, 4096).is_ok());
}

#[test]
fn host_entry_with_narrow_pointers() {
    let plan = plan_hostent(&vec![ip(7)], 1, 4, 14);
    assert_eq!(
        plan,
        Ok(HostentPlan {
            slots: vec![AddressSlot { pointer_at: 0, address_at: 8, ip: ip(7) }],
            end_of_list: 4,
            name_at: 12,
            size: 14,
        })
    );
}

#[test]
fn host_entry_without_address_holds_the_end_of_the_list_and_the_name() {
    assert_eq!(
        plan_hostent(&vec![], 3, 8, 12),
        Ok(HostentPlan { slots: vec![], end_of_list: 0, name_at: 8, size: 12 })
    );
    assert_eq!(plan_hostent(&vec![], 3, 8, 11), Err(PlanError::BufferTooSmall));
}

#[test]
fn host_entry_size_that_is_no_usize_fits_nowhere() {
    assert_eq!(hostent_bytes(2, 11, 8), Some(44));
    assert_eq!(hostent_bytes(0, 0, usize::MAX - 1), Some(usize::MAX));
    assert_eq!(hostent_bytes(0, 0, usize::MAX), None);
    assert_eq!(hostent_bytes(usize::MAX, 0, 8), None);
    assert_eq!(hostent_bytes(1, usize::MAX, 8), None);
    assert_eq!(plan_hostent(&vec![ip(1)], usize::MAX, 8, usize::MAX), Err(PlanError::BufferTooSmall));
    assert_eq!(plan_hostent(&vec![ip(1)], 0, usize::MAX, usize::MAX), Err(PlanError::BufferTooSmall));
}

#[test]
fn address_tuples_are_chained_through_the_buffer() {
    let addresses = vec![ip(1), ip(2), ip(3)];
    let plan = plan_tuples(&addresses, 11, 40, 92);
    assert_eq!(
        plan,
        Ok(TuplePlan {
            tuples: vec![
                TupleSlot { place: None, next: Some(0), name: Some(80), ip: ip(1) },
                TupleSlot { place: Some(0), next: Some(40), name: None, ip: ip(2) },
                TupleSlot { place: Some(40), next: None, name: None, ip: ip(3) },
            ],
            name_at: 80,
            size: 92,
        })
    );
    assert_eq!(plan_tuples(&addresses, 11, 40, 91), Err(PlanError::BufferTooSmall));
}

#[test]
fn single_address_tuple_stays_with_the_caller() {
    assert_eq!(
        plan_tuples(&vec![ip(9)], 11, 40, 12),
        Ok(TuplePlan {
            tuples: vec![TupleSlot { place: None, next: None, name: Some(0), ip: ip(9) }],
            name_at: 0,
            size: 12,
        })
    );
    assert_eq!(plan_tuples(&vec![ip(9)], 11, 40, 11), Err(PlanError::BufferTooSmall));
}

#[test]
fn address_tuples_need_an_address() {
    assert_eq!(plan_tuples(&vec![], 11, 40, 4096), Err(PlanError::NoAddress));
    assert_eq!(plan_tuples(&vec![], usize::MAX, 40, 0), Err(PlanError::NoAddress));
}

#[test]
fn address_tuples_whose_size_is_no_usize_fit_nowhere() {
    assert_eq!(
        plan_tuples(&vec![ip(1), ip(2)], usize::MAX, 40, usize::MAX),
        Err(PlanError::BufferTooSmall)
    );
    assert_eq!(
        plan_tuples(&vec![ip(1), ip(2), ip(3)], 0, usize::MAX, usize::MAX),
        Err(PlanError::BufferTooSmall)
    );
    assert_eq!(
        plan_tuples(&vec![ip(1)], usize::MAX, 40, usize::MAX),
        Err(PlanError::BufferTooSmall)
    );
}
