use vstd::prelude::*;
use crate::lifecycle::LifecycleEvent;

verus! {

/// Handed to a test's run callback: records the first failure the test signals.
pub struct TestContext {
    failure: Option<String>,
}

impl TestContext {
    pub closed spec fn spec_failure(&self) -> Option<Seq<char>> {
        match self.failure {
            Some(m) => Some(m@),
            None => None,
        }
    }

    pub fn new() -> (r: TestContext)
        ensures
            r.spec_failure() is None,
    {
        TestContext { failure: None }
    }

    /// Fails the test with `err`, unless it already failed.
    pub fn fatal(&mut self, err: String)
        ensures
            final(self).spec_failure() == if old(self).spec_failure() is Some {
                old(self).spec_failure()
            } else {
                Some(err@)
            },
    {
        if self.failure.is_none() {
            self.failure = Some(err);
        }
    }

    /// Fails the test with `err` when `condition` does not hold, unless it already failed.
    pub fn assert_true(&mut self, condition: bool, err: String)
        ensures
            final(self).spec_failure() == if condition || old(self).spec_failure() is Some {
                old(self).spec_failure()
            } else {
                Some(err@)
            },
    {
        if !condition {
            self.fatal(err);
        }
    }

    /// Whether the test failed so far.
    pub fn has_failed(&self) -> (r: bool)
        ensures
            r == self.spec_failure() is Some,
    {
        self.failure.is_some()
    }

    /// How the run callback ended, seen from the driver: a recorded failure makes it fail.
    pub fn into_run_event(self) -> (r: LifecycleEvent)
        ensures
            match self.spec_failure() {
                Some(m) => r matches LifecycleEvent::RunFailed { message } && message@ == m,
                None => r is RunReturned,
            },
    {
        match self.failure {
            Some(message) => LifecycleEvent::RunFailed { message },
            None => LifecycleEvent::RunReturned,
        }
    }
}

} // verus!
