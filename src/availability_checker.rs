use vstd::prelude::*;
use std::rc::Rc;
use crate::error::SuiteError;
use crate::retry::{RetryPolicy, RetryStep, step_after};
use crate::service::Service;

verus! {

/// Polls one service until it reports itself ready, within a bounded number of polls.
///
/// Each poll is `is_available`; after it, `after_poll` says whether to stop or to wait the
/// interval and poll again. There is no wait after the last poll.
pub struct AvailabilityChecker<S> {
    service_id: String,
    to_check: Rc<S>,
}

impl<S: Service> AvailabilityChecker<S> {
    pub closed spec fn spec_service_id(&self) -> Seq<char> {
        self.service_id@
    }

    pub closed spec fn spec_service(&self) -> Rc<S> {
        self.to_check
    }

    pub fn new(service_id: &str, to_check: Rc<S>) -> (r: AvailabilityChecker<S>)
        ensures
            r.spec_service_id() == service_id@,
            r.spec_service() == to_check,
    {
        AvailabilityChecker { service_id: service_id.to_owned(), to_check }
    }

    pub fn get_service_id(&self) -> (r: &String)
        ensures
            r@ == self.spec_service_id(),
    {
        &self.service_id
    }

    /// Polls the service once.
    pub fn is_available(&self) -> bool {
        (*self.to_check).is_available()
    }

    /// What follows poll number `poll` (counting from 1) of at most `max_polls`.
    pub fn after_poll(&self, max_polls: u32, poll: u32, ready: bool) -> (r: RetryStep)
        requires
            1 <= poll <= max_polls,
        ensures
            r == step_after(max_polls, poll as nat, ready),
    {
        RetryPolicy::new(max_polls, 0).after_attempt(poll, ready)
    }

    /// The error when the service never became ready within `max_polls` polls spaced
    /// `poll_interval_millis` apart.
    pub fn timeout_error(&self, max_polls: u32, poll_interval_millis: u64) -> (r: SuiteError)
        ensures
            match r {
                SuiteError::AvailabilityTimeout { service_id, max_polls: m, poll_interval_millis: p } =>
                    service_id@ == self.spec_service_id() && m == max_polls && p == poll_interval_millis,
                _ => false,
            },
    {
        SuiteError::AvailabilityTimeout {
            service_id: self.service_id.clone(),
            max_polls,
            poll_interval_millis,
        }
    }
}

} // verus!
