use vstd::prelude::*;
use crate::error::SuiteError;
use crate::retry::{RetryPolicy, RetryStep, step_after};

verus! {

/// How often connecting to the orchestrator is tried; it may still be starting.
pub const MAX_CONNECTION_ATTEMPTS: u32 = 20;
pub const TIME_BETWEEN_CONNECTION_RETRIES_MILLIS: u64 = 500;

/// How often registering the suite is tried.
pub const MAX_SUITE_REGISTRATION_ATTEMPTS: u32 = 20;
pub const TIME_BETWEEN_SUITE_REGISTRATION_RETRIES_MILLIS: u64 = 500;

/// What the orchestrator asks the suite's process to do.
#[derive(Clone, Copy, Debug, PartialEq, Eq, Structural)]
pub enum ActionDirective {
    /// Publish the metadata of every test, then exit.
    SerializeMetadata,
    /// Run the one test named.
    ExecuteTest,
}

impl ActionDirective {
    /// The directive that the orchestrator's action code stands for: 0 publishes the
    /// metadata, 1 runs a test; any other code stands for none.
    pub fn from_code(code: i32) -> (r: Option<ActionDirective>)
        ensures
            r == if code == 0 {
                Some(ActionDirective::SerializeMetadata)
            } else if code == 1 {
                Some(ActionDirective::ExecuteTest)
            } else {
                None::<ActionDirective>
            },
    {
        if code == 0 {
            Some(ActionDirective::SerializeMetadata)
        } else if code == 1 {
            Some(ActionDirective::ExecuteTest)
        } else {
            None
        }
    }
}

pub fn connection_policy() -> (r: RetryPolicy)
    ensures
        r.max_attempts == MAX_CONNECTION_ATTEMPTS,
        r.interval_millis == TIME_BETWEEN_CONNECTION_RETRIES_MILLIS,
{
    RetryPolicy::new(MAX_CONNECTION_ATTEMPTS, TIME_BETWEEN_CONNECTION_RETRIES_MILLIS)
}

pub fn registration_policy() -> (r: RetryPolicy)
    ensures
        r.max_attempts == MAX_SUITE_REGISTRATION_ATTEMPTS,
        r.interval_millis == TIME_BETWEEN_SUITE_REGISTRATION_RETRIES_MILLIS,
{
    RetryPolicy::new(MAX_SUITE_REGISTRATION_ATTEMPTS, TIME_BETWEEN_SUITE_REGISTRATION_RETRIES_MILLIS)
}

/// The address of the orchestrator listening at `socket` (`host:port`).
pub fn endpoint_url(socket: &str) -> (r: String)
    ensures
        r@ == "http://"@ + socket@,
{
    let mut r = "http://".to_owned();
    r.append(socket);
    r
}

/// The error when `endpoint` could not be reached under `policy`.
pub fn connection_error(endpoint: &String, policy: &RetryPolicy) -> (r: SuiteError)
    ensures
        match r {
            SuiteError::Connection { endpoint: e, attempts, interval_millis } =>
                e@ == endpoint@ && attempts == policy.max_attempts && interval_millis == policy.interval_millis,
            _ => false,
        },
{
    SuiteError::Connection {
        endpoint: endpoint.clone(),
        attempts: policy.max_attempts,
        interval_millis: policy.interval_millis,
    }
}

/// Where the suite's process stands.
#[derive(Clone, Copy, Debug, PartialEq, Eq, Structural)]
pub enum SuiteStage {
    Idle,
    /// Connection attempt `attempt` (counting from 1) is under way.
    Connecting { attempt: u32 },
    /// Registration attempt `attempt` (counting from 1) is under way.
    Registering { attempt: u32 },
    Publishing,
    Testing,
    Finished { exit_code: i32 },
}

/// What happened since the last step.
#[derive(Clone, Copy, Debug, PartialEq, Eq, Structural)]
pub enum SuiteEvent {
    Start,
    Connected,
    ConnectFailed,
    /// The suite was registered and the orchestrator answered with this action code.
    Registered { code: i32 },
    RegisterFailed,
    Published,
    PublishFailed,
    /// The test ran; the exit status it calls for.
    TestFinished { exit_code: i32 },
}

/// What the process does next.
#[derive(Clone, Copy, Debug, PartialEq, Eq, Structural)]
pub enum SuiteAction {
    Connect,
    /// Sleep this many milliseconds, then connect.
    WaitThenConnect { millis: u64 },
    RegisterSuite,
    /// Sleep this many milliseconds, then register.
    WaitThenRegisterSuite { millis: u64 },
    PublishMetadata,
    RunTest,
    Exit { exit_code: i32 },
}

/// The next stage and action of the suite's process. Connecting and registering are retried
/// under their policies; publishing and testing are done once; an event that does not fit the
/// stage ends the process with status 1.
pub open spec fn suite_next(stage: SuiteStage, event: SuiteEvent) -> (SuiteStage, SuiteAction) {
    match (stage, event) {
        (SuiteStage::Finished { exit_code }, _) => (stage, SuiteAction::Exit { exit_code }),
        (SuiteStage::Idle, SuiteEvent::Start) => (SuiteStage::Connecting { attempt: 1 }, SuiteAction::Connect),
        (SuiteStage::Connecting { attempt }, SuiteEvent::Connected) =>
            (SuiteStage::Registering { attempt: 1 }, SuiteAction::RegisterSuite),
        (SuiteStage::Connecting { attempt }, SuiteEvent::ConnectFailed) =>
            if step_after(MAX_CONNECTION_ATTEMPTS, attempt as nat, false) == RetryStep::WaitThenRetry {
                (SuiteStage::Connecting { attempt: (attempt + 1) as u32 },
                    SuiteAction::WaitThenConnect { millis: TIME_BETWEEN_CONNECTION_RETRIES_MILLIS })
            } else {
                (SuiteStage::Finished { exit_code: 1 }, SuiteAction::Exit { exit_code: 1 })
            },
        (SuiteStage::Registering { attempt }, SuiteEvent::Registered { code }) =>
            if code == 0 {
                (SuiteStage::Publishing, SuiteAction::PublishMetadata)
            } else if code == 1 {
                (SuiteStage::Testing, SuiteAction::RunTest)
            } else {
                (SuiteStage::Finished { exit_code: 1 }, SuiteAction::Exit { exit_code: 1 })
            },
        (SuiteStage::Registering { attempt }, SuiteEvent::RegisterFailed) =>
            if step_after(MAX_SUITE_REGISTRATION_ATTEMPTS, attempt as nat, false) == RetryStep::WaitThenRetry {
                (SuiteStage::Registering { attempt: (attempt + 1) as u32 },
                    SuiteAction::WaitThenRegisterSuite { millis: TIME_BETWEEN_SUITE_REGISTRATION_RETRIES_MILLIS })
            } else {
                (SuiteStage::Finished { exit_code: 1 }, SuiteAction::Exit { exit_code: 1 })
            },
        (SuiteStage::Publishing, SuiteEvent::Published) => (SuiteStage::Finished { exit_code: 0 }, SuiteAction::Exit { exit_code: 0 }),
        (SuiteStage::Testing, SuiteEvent::TestFinished { exit_code }) =>
            (SuiteStage::Finished { exit_code }, SuiteAction::Exit { exit_code }),
        _ => (SuiteStage::Finished { exit_code: 1 }, SuiteAction::Exit { exit_code: 1 }),
    }
}

/// Whether the attempt counters of `stage` are within their policies.
pub open spec fn suite_stage_ok(stage: SuiteStage) -> bool {
    match stage {
        SuiteStage::Connecting { attempt } => 1 <= attempt <= MAX_CONNECTION_ATTEMPTS,
        SuiteStage::Registering { attempt } => 1 <= attempt <= MAX_SUITE_REGISTRATION_ATTEMPTS,
        _ => true,
    }
}

/// The decisions of the suite's process: connect, register, then publish the metadata or run
/// the test, and exit. The caller performs each action and reports the outcome.
pub struct SuiteSession {
    stage: SuiteStage,
}

impl SuiteSession {
    pub closed spec fn spec_stage(&self) -> SuiteStage {
        self.stage
    }

    pub closed spec fn wf(&self) -> bool {
        suite_stage_ok(self.stage)
    }

    pub fn new() -> (r: SuiteSession)
        ensures
            r.wf(),
            r.spec_stage() == SuiteStage::Idle,
    {
        SuiteSession { stage: SuiteStage::Idle }
    }

    pub fn stage(&self) -> (r: SuiteStage)
        ensures
            r == self.spec_stage(),
    {
        self.stage
    }

    pub fn step(&mut self, event: SuiteEvent) -> (r: SuiteAction)
        requires
            old(self).wf(),
        ensures
            final(self).wf(),
            (final(self).spec_stage(), r) == suite_next(old(self).spec_stage(), event),
    {
        let (next, action) = match (self.stage, event) {
            (SuiteStage::Finished { exit_code }, _) => (self.stage, SuiteAction::Exit { exit_code }),
            (SuiteStage::Idle, SuiteEvent::Start) => (SuiteStage::Connecting { attempt: 1 }, SuiteAction::Connect),
            (SuiteStage::Connecting { attempt: _ }, SuiteEvent::Connected) =>
                (SuiteStage::Registering { attempt: 1 }, SuiteAction::RegisterSuite),
            (SuiteStage::Connecting { attempt }, SuiteEvent::ConnectFailed) => {
                match connection_policy().after_attempt(attempt, false) {
                    RetryStep::WaitThenRetry => (
                        SuiteStage::Connecting { attempt: attempt + 1 },
                        SuiteAction::WaitThenConnect { millis: TIME_BETWEEN_CONNECTION_RETRIES_MILLIS },
                    ),
                    _ => (SuiteStage::Finished { exit_code: 1 }, SuiteAction::Exit { exit_code: 1 }),
                }
            },
            (SuiteStage::Registering { attempt: _ }, SuiteEvent::Registered { code }) => {
                match ActionDirective::from_code(code) {
                    Some(ActionDirective::SerializeMetadata) => (SuiteStage::Publishing, SuiteAction::PublishMetadata),
                    Some(ActionDirective::ExecuteTest) => (SuiteStage::Testing, SuiteAction::RunTest),
                    None => (SuiteStage::Finished { exit_code: 1 }, SuiteAction::Exit { exit_code: 1 }),
                }
            },
            (SuiteStage::Registering { attempt }, SuiteEvent::RegisterFailed) => {
                match registration_policy().after_attempt(attempt, false) {
                    RetryStep::WaitThenRetry => (
                        SuiteStage::Registering { attempt: attempt + 1 },
                        SuiteAction::WaitThenRegisterSuite { millis: TIME_BETWEEN_SUITE_REGISTRATION_RETRIES_MILLIS },
                    ),
                    _ => (SuiteStage::Finished { exit_code: 1 }, SuiteAction::Exit { exit_code: 1 }),
                }
            },
            (SuiteStage::Publishing, SuiteEvent::Published) =>
                (SuiteStage::Finished { exit_code: 0 }, SuiteAction::Exit { exit_code: 0 }),
            (SuiteStage::Testing, SuiteEvent::TestFinished { exit_code }) =>
                (SuiteStage::Finished { exit_code }, SuiteAction::Exit { exit_code }),
            _ => (SuiteStage::Finished { exit_code: 1 }, SuiteAction::Exit { exit_code: 1 }),
        };
        self.stage = next;
        action
    }
}

/// The stage reached and the actions asked for, event by event.
pub open spec fn run_suite(stage: SuiteStage, events: Seq<SuiteEvent>) -> (SuiteStage, Seq<SuiteAction>)
    decreases events.len(),
{
    if events.len() == 0 {
        (stage, Seq::empty())
    } else {
        let (s1, a) = suite_next(stage, events[0]);
        let (last, rest) = run_suite(s1, events.drop_first());
        (last, seq![a] + rest)
    }
}

proof fn lemma_connect_failures_from(attempt: u32, events: Seq<SuiteEvent>)
    requires
        1 <= attempt <= MAX_CONNECTION_ATTEMPTS,
        events.len() == MAX_CONNECTION_ATTEMPTS - attempt + 1,
        forall|i: int| 0 <= i < events.len() ==> #[trigger] events[i] == SuiteEvent::ConnectFailed,
    ensures
        run_suite(SuiteStage::Connecting { attempt }, events).0 == (SuiteStage::Finished { exit_code: 1 }),
        run_suite(SuiteStage::Connecting { attempt }, events).1.len() == events.len(),
        forall|i: int| 0 <= i < events.len() - 1 ==> #[trigger] run_suite(SuiteStage::Connecting { attempt }, events).1[i]
            == (SuiteAction::WaitThenConnect { millis: TIME_BETWEEN_CONNECTION_RETRIES_MILLIS }),
        run_suite(SuiteStage::Connecting { attempt }, events).1.last() == (SuiteAction::Exit { exit_code: 1 }),
    decreases MAX_CONNECTION_ATTEMPTS - attempt,
{
    let rest = events.drop_first();
    assert(events[0] == SuiteEvent::ConnectFailed);
    if attempt < MAX_CONNECTION_ATTEMPTS {
        lemma_connect_failures_from((attempt + 1) as u32, rest);
        let tail = run_suite(SuiteStage::Connecting { attempt: (attempt + 1) as u32 }, rest).1;
        let all = run_suite(SuiteStage::Connecting { attempt }, events).1;
        assert(all == seq![SuiteAction::WaitThenConnect { millis: TIME_BETWEEN_CONNECTION_RETRIES_MILLIS }] + tail);
        assert forall|i: int| 0 <= i < events.len() - 1 implies #[trigger] all[i]
            == (SuiteAction::WaitThenConnect { millis: TIME_BETWEEN_CONNECTION_RETRIES_MILLIS }) by {
            if i > 0 {
                assert(all[i] == tail[i - 1]);
            }
        }
    } else {
        assert(rest.len() == 0);
        let all = run_suite(SuiteStage::Connecting { attempt }, events).1;
        assert(run_suite(SuiteStage::Finished { exit_code: 1 }, rest).1 =~= Seq::<SuiteAction>::empty());
        assert(all =~= seq![SuiteAction::Exit { exit_code: 1 }]);
    }
}

/// When the orchestrator cannot be reached, the process tries to connect exactly
/// `MAX_CONNECTION_ATTEMPTS` times, waits the retry interval between two attempts and not
/// after the last, and exits with status 1.
pub proof fn lemma_unreachable_orchestrator(events: Seq<SuiteEvent>)
    requires
        events.len() == MAX_CONNECTION_ATTEMPTS,
        forall|i: int| 0 <= i < events.len() ==> #[trigger] events[i] == SuiteEvent::ConnectFailed,
    ensures
        ({
            let (last, actions) = run_suite(SuiteStage::Idle, seq![SuiteEvent::Start] + events);
            &&& last == (SuiteStage::Finished { exit_code: 1 })
            &&& actions.len() == MAX_CONNECTION_ATTEMPTS + 1
            &&& actions[0] == SuiteAction::Connect
            &&& forall|i: int| 1 <= i < MAX_CONNECTION_ATTEMPTS ==> #[trigger] actions[i]
                == (SuiteAction::WaitThenConnect { millis: TIME_BETWEEN_CONNECTION_RETRIES_MILLIS })
            &&& actions[MAX_CONNECTION_ATTEMPTS as int] == (SuiteAction::Exit { exit_code: 1 })
        }),
{
    let all = seq![SuiteEvent::Start] + events;
    assert(all.drop_first() =~= events);
    lemma_connect_failures_from(1, events);
    let tail = run_suite(SuiteStage::Connecting { attempt: 1 }, events).1;
    let actions = run_suite(SuiteStage::Idle, all).1;
    assert(actions == seq![SuiteAction::Connect] + tail);
    assert forall|i: int| 1 <= i < MAX_CONNECTION_ATTEMPTS implies #[trigger] actions[i]
        == (SuiteAction::WaitThenConnect { millis: TIME_BETWEEN_CONNECTION_RETRIES_MILLIS }) by {
        assert(actions[i] == tail[i - 1]);
    }
    assert(actions[MAX_CONNECTION_ATTEMPTS as int] == tail.last());
}

} // verus!
