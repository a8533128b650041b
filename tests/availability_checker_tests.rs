use std::rc::Rc;

use kurtosis_lib::availability_checker::AvailabilityChecker;
use kurtosis_lib::error::SuiteError;
use kurtosis_lib::retry::{RetryPolicy, RetryStep};
use kurtosis_lib::service::{Service, ServiceId};

struct MockService {
    is_available: bool,
}

impl MockService {
    pub fn new(is_available: bool) -> MockService {
        MockService { is_available }
    }
}

impl Service for MockService {
    fn is_available(&self) -> bool {
        self.is_available
    }
}

/// Polls as a caller would, without sleeping; returns the outcome and the waits asked for.
fn wait_for_startup<S: Service>(checker: &AvailabilityChecker<S>, poll_interval_millis: u64, max_polls: u32) -> (Result<(), SuiteError>, u32) {
    let mut waits: u32 = 0;
    let mut poll: u32 = 0;
    while poll < max_polls {
        poll += 1;
        match checker.after_poll(max_polls, poll, checker.is_available()) {
            RetryStep::Succeeded => return (Ok(()), waits),
            RetryStep::WaitThenRetry => waits += 1,
            RetryStep::GiveUp => break,
        }
    }
    (Err(checker.timeout_error(max_polls, poll_interval_millis)), waits)
}

#[test]
fn test_timeout_on_service_startup() {
    let never_available_service = MockService::new(false);
    let service_id: ServiceId = String::from("test-service");
    let checker = AvailabilityChecker::new(&service_id, Rc::new(never_available_service));
    match wait_for_startup(&checker, 200, 3).0 {
        Err(_) => {},
        Ok(_) => panic!("Expected an error waiting for a never-available service, but no error was thrown"),
    }
}

#[test]
fn never_ready_service_times_out_after_two_waits() {
    let checker = AvailabilityChecker::new("svc", Rc::new(MockService::new(false)));
    let (outcome, waits) = wait_for_startup(&checker, 50, 3);
    assert_eq!(waits, 2);
    assert_eq!(
        outcome,
        Err(SuiteError::AvailabilityTimeout { service_id: "svc".to_string(), max_polls: 3, poll_interval_millis: 50 })
    );
}

#[test]
fn ready_service_succeeds_on_first_poll() {
    let checker = AvailabilityChecker::new("svc", Rc::new(MockService::new(true)));
    let (outcome, waits) = wait_for_startup(&checker, 50, 3);
    assert_eq!(outcome, Ok(()));
    assert_eq!(waits, 0);
    assert_eq!(checker.get_service_id(), "svc");
}

#[test]
fn zero_polls_fail_without_polling() {
    let checker = AvailabilityChecker::new("svc", Rc::new(MockService::new(true)));
    let (outcome, waits) = wait_for_startup(&checker, 10, 0);
    assert!(outcome.is_err());
    assert_eq!(waits, 0);
}

#[test]
fn retry_policy_steps() {
    let p = RetryPolicy::new(3, 500);
    assert!(p.allows_attempt());
    assert!(!RetryPolicy::new(0, 500).allows_attempt());
    assert_eq!(p.after_attempt(1, false), RetryStep::WaitThenRetry);
    assert_eq!(p.after_attempt(2, false), RetryStep::WaitThenRetry);
    assert_eq!(p.after_attempt(3, false), RetryStep::GiveUp);
    assert_eq!(p.after_attempt(3, true), RetryStep::Succeeded);
    assert_eq!(p.after_attempt(1, true), RetryStep::Succeeded);
}
