use vstd::prelude::*;
use crate::error::SuiteError;

verus! {

/// The phases of one test.
#[derive(Clone, Copy, Debug, PartialEq, Eq, Structural)]
pub enum TestPhase {
    Idle,
    Registering,
    SettingUp,
    Running,
    Completed,
    Failed,
}

/// A phase boundary that the orchestrator is told of.
#[derive(Clone, Copy, Debug, PartialEq, Eq, Structural)]
pub enum Notification {
    SetupStarting,
    SetupComplete,
    ExecutionStarting,
}

/// Where the driver stands, finer than the phase: which acknowledgment it waits for.
#[derive(Clone, Copy, Debug, PartialEq, Eq, Structural)]
pub enum Stage {
    Idle,
    AwaitingSetupAck,
    SettingUp,
    AwaitingSetupCompleteAck,
    AwaitingExecutionAck,
    Running,
    Completed,
    Failed,
}

/// What happened since the last step.
pub enum LifecycleEvent {
    /// The test is to start.
    Begin,
    /// The orchestrator acknowledged the last notification.
    Acknowledged,
    /// The setup callback returned a network.
    SetupReturned,
    /// The run callback returned normally.
    RunReturned,
    /// The run callback signalled a failed assertion or returned an error.
    RunFailed { message: String },
    /// The run callback faulted; the fault was caught.
    RunFaulted { cause: String },
    /// Anything else went wrong: a notification failed, setup failed, a phase timed out.
    Aborted { error: SuiteError },
}

/// What the driver asks for next.
#[derive(Clone, Copy, Debug, PartialEq, Eq, Structural)]
pub enum LifecycleAction {
    Notify(Notification),
    InvokeSetup,
    InvokeRun,
    /// The test reached a terminal phase.
    Finish,
    /// The event does not apply in this stage; nothing to do.
    Ignore,
}

pub open spec fn phase_of(stage: Stage) -> TestPhase {
    match stage {
        Stage::Idle => TestPhase::Idle,
        Stage::AwaitingSetupAck => TestPhase::Registering,
        Stage::SettingUp | Stage::AwaitingSetupCompleteAck | Stage::AwaitingExecutionAck => TestPhase::SettingUp,
        Stage::Running => TestPhase::Running,
        Stage::Completed => TestPhase::Completed,
        Stage::Failed => TestPhase::Failed,
    }
}

pub open spec fn is_terminal(stage: Stage) -> bool {
    stage == Stage::Completed || stage == Stage::Failed
}

/// The error with which a test fails on `event`, where the event is a failure.
pub open spec fn failure_of(event: LifecycleEvent) -> Option<SuiteError> {
    match event {
        LifecycleEvent::RunFailed { message } => Some(SuiteError::TestAssertionFailure { message }),
        LifecycleEvent::RunFaulted { cause } => Some(SuiteError::InternalFault { cause }),
        LifecycleEvent::Aborted { error } => Some(error),
        _ => None,
    }
}

/// The cause recorded when an event arrives that does not fit the stage.
pub const UNEXPECTED_EVENT: &'static str = "an event arrived that does not fit the test's stage";

/// Whether `f` records the failure that `event` brought.
pub open spec fn failure_recorded(f: Option<SuiteError>, event: LifecycleEvent) -> bool {
    match failure_of(event) {
        Some(e) => f == Some(e),
        None => match f {
            Some(SuiteError::InternalFault { cause }) => cause@ == UNEXPECTED_EVENT@,
            _ => false,
        },
    }
}

/// The next stage and action on `event`. An event that does not fit a live stage fails the
/// test; a terminal stage ignores every event.
pub open spec fn next_stage(stage: Stage, event: LifecycleEvent) -> (Stage, LifecycleAction) {
    if is_terminal(stage) {
        (stage, LifecycleAction::Ignore)
    } else {
        match (stage, event) {
            (Stage::Idle, LifecycleEvent::Begin) =>
                (Stage::AwaitingSetupAck, LifecycleAction::Notify(Notification::SetupStarting)),
            (Stage::AwaitingSetupAck, LifecycleEvent::Acknowledged) =>
                (Stage::SettingUp, LifecycleAction::InvokeSetup),
            (Stage::SettingUp, LifecycleEvent::SetupReturned) =>
                (Stage::AwaitingSetupCompleteAck, LifecycleAction::Notify(Notification::SetupComplete)),
            (Stage::AwaitingSetupCompleteAck, LifecycleEvent::Acknowledged) =>
                (Stage::AwaitingExecutionAck, LifecycleAction::Notify(Notification::ExecutionStarting)),
            (Stage::AwaitingExecutionAck, LifecycleEvent::Acknowledged) =>
                (Stage::Running, LifecycleAction::InvokeRun),
            (Stage::Running, LifecycleEvent::RunReturned) => (Stage::Completed, LifecycleAction::Finish),
            _ => (Stage::Failed, LifecycleAction::Finish),
        }
    }
}

/// The stage reached and the actions asked for, event by event.
pub open spec fn run_events(stage: Stage, events: Seq<LifecycleEvent>) -> (Stage, Seq<LifecycleAction>)
    decreases events.len(),
{
    if events.len() == 0 {
        (stage, Seq::empty())
    } else {
        let (s1, a) = next_stage(stage, events[0]);
        let (last, rest) = run_events(s1, events.drop_first());
        (last, seq![a] + rest)
    }
}

/// The phase after each event, in order.
pub open spec fn run_phases(stage: Stage, events: Seq<LifecycleEvent>) -> Seq<TestPhase>
    decreases events.len(),
{
    if events.len() == 0 {
        Seq::empty()
    } else {
        let s1 = next_stage(stage, events[0]).0;
        seq![phase_of(s1)] + run_phases(s1, events.drop_first())
    }
}

/// The notifications among `actions`, in order.
pub open spec fn notifications_of(actions: Seq<LifecycleAction>) -> Seq<Notification>
    decreases actions.len(),
{
    if actions.len() == 0 {
        Seq::empty()
    } else {
        let rest = notifications_of(actions.drop_first());
        match actions[0] {
            LifecycleAction::Notify(n) => seq![n] + rest,
            _ => rest,
        }
    }
}

/// The order in which the orchestrator is told of a test's phases.
pub open spec fn notification_order() -> Seq<Notification> {
    seq![Notification::SetupStarting, Notification::SetupComplete, Notification::ExecutionStarting]
}

/// How many notifications precede `stage`.
pub open spec fn sent_before(stage: Stage) -> int {
    match stage {
        Stage::Idle => 0,
        Stage::AwaitingSetupAck | Stage::SettingUp => 1,
        Stage::AwaitingSetupCompleteAck => 2,
        _ => 3,
    }
}

pub open spec fn is_prefix(a: Seq<Notification>, b: Seq<Notification>) -> bool {
    a.len() <= b.len() && a == b.take(a.len() as int)
}

/// The exit status of the process that drove a test ending in `stage`.
pub open spec fn exit_code_of(stage: Stage) -> i32 {
    if stage == Stage::Completed { 0 } else { 1 }
}

proof fn lemma_notifications_from(stage: Stage, events: Seq<LifecycleEvent>)
    ensures
        is_prefix(notifications_of(run_events(stage, events).1), notification_order().skip(sent_before(stage))),
    decreases events.len(),
{
    let order = notification_order();
    if events.len() > 0 {
        let (s1, a) = next_stage(stage, events[0]);
        let rest = run_events(s1, events.drop_first()).1;
        lemma_notifications_from(s1, events.drop_first());
        let all = seq![a] + rest;
        assert(all.drop_first() =~= rest);
        assert(all[0] == a);
        let rn = notifications_of(rest);
        match a {
            LifecycleAction::Notify(n) => {
                assert(notifications_of(all) == seq![n] + rn);
                assert(n == order[sent_before(stage)]);
                assert(sent_before(s1) == sent_before(stage) + 1);
                assert(order.skip(sent_before(s1)) =~= order.skip(sent_before(stage)).drop_first());
                assert((seq![n] + rn) =~= order.skip(sent_before(stage)).take(rn.len() as int + 1));
            },
            _ => {
                assert(notifications_of(all) == rn);
                if s1 == Stage::Failed || s1 == Stage::Completed {
                    assert(order.skip(sent_before(s1)).len() == 0);
                    assert(rn.len() == 0);
                    assert(rn =~= order.skip(sent_before(stage)).take(0));
                } else {
                    assert(sent_before(s1) == sent_before(stage));
                }
            },
        }
    } else {
        assert(notifications_of(run_events(stage, events).1) =~= order.skip(sent_before(stage)).take(0));
    }
}

/// Whatever happens, the orchestrator is told of a test's phases in the order setup starting,
/// setup complete, execution starting, each at most once: the notifications sent form a prefix
/// of that order.
pub proof fn lemma_notifications_follow_order(events: Seq<LifecycleEvent>)
    ensures
        is_prefix(notifications_of(run_events(Stage::Idle, events).1), notification_order()),
{
    lemma_notifications_from(Stage::Idle, events);
    assert(notification_order().skip(0) =~= notification_order());
}

/// The events of a test whose setup and run succeed and whose notifications are all
/// acknowledged.
pub open spec fn successful_events() -> Seq<LifecycleEvent> {
    seq![
        LifecycleEvent::Begin,
        LifecycleEvent::Acknowledged,
        LifecycleEvent::SetupReturned,
        LifecycleEvent::Acknowledged,
        LifecycleEvent::Acknowledged,
        LifecycleEvent::RunReturned,
    ]
}

/// A test whose run succeeds passes through registering, setting up and running to completed,
/// sends its three notifications in order, and exits with 0.
pub proof fn lemma_successful_test()
    ensures
        run_events(Stage::Idle, successful_events()).0 == Stage::Completed,
        run_phases(Stage::Idle, successful_events()) == seq![
            TestPhase::Registering,
            TestPhase::SettingUp,
            TestPhase::SettingUp,
            TestPhase::SettingUp,
            TestPhase::Running,
            TestPhase::Completed,
        ],
        notifications_of(run_events(Stage::Idle, successful_events()).1) == notification_order(),
        exit_code_of(run_events(Stage::Idle, successful_events()).0) == 0,
{
    let e = successful_events();
    reveal_with_fuel(run_events, 7);
    reveal_with_fuel(run_phases, 7);
    reveal_with_fuel(notifications_of, 7);
    assert(e.drop_first() =~= seq![e[1], e[2], e[3], e[4], e[5]]);
    assert(e.drop_first().drop_first() =~= seq![e[2], e[3], e[4], e[5]]);
    assert(e.drop_first().drop_first().drop_first() =~= seq![e[3], e[4], e[5]]);
    assert(e.drop_first().drop_first().drop_first().drop_first() =~= seq![e[4], e[5]]);
    assert(e.drop_first().drop_first().drop_first().drop_first().drop_first() =~= seq![e[5]]);
    assert(seq![e[5]].drop_first() =~= Seq::<LifecycleEvent>::empty());
    let acts = run_events(Stage::Idle, e).1;
    assert(acts =~= seq![
        LifecycleAction::Notify(Notification::SetupStarting),
        LifecycleAction::InvokeSetup,
        LifecycleAction::Notify(Notification::SetupComplete),
        LifecycleAction::Notify(Notification::ExecutionStarting),
        LifecycleAction::InvokeRun,
        LifecycleAction::Finish,
    ]);
    assert(acts.drop_first() =~= seq![acts[1], acts[2], acts[3], acts[4], acts[5]]);
    assert(acts.drop_first().drop_first() =~= seq![acts[2], acts[3], acts[4], acts[5]]);
    assert(acts.drop_first().drop_first().drop_first() =~= seq![acts[3], acts[4], acts[5]]);
    assert(acts.drop_first().drop_first().drop_first().drop_first() =~= seq![acts[4], acts[5]]);
    assert(acts.drop_first().drop_first().drop_first().drop_first().drop_first() =~= seq![acts[5]]);
    assert(seq![acts[5]].drop_first() =~= Seq::<LifecycleAction>::empty());
    assert(notifications_of(acts) =~= notification_order());
    assert(run_phases(Stage::Idle, e) =~= seq![
        TestPhase::Registering,
        TestPhase::SettingUp,
        TestPhase::SettingUp,
        TestPhase::SettingUp,
        TestPhase::Running,
        TestPhase::Completed,
    ]);
}

proof fn lemma_run_events_push(stage: Stage, events: Seq<LifecycleEvent>, last: LifecycleEvent)
    ensures
        run_events(stage, events.push(last)).0 == next_stage(run_events(stage, events).0, last).0,
    decreases events.len(),
{
    if events.len() == 0 {
        let s1 = next_stage(stage, last).0;
        assert(events.push(last).drop_first() =~= Seq::<LifecycleEvent>::empty());
        assert(run_events(s1, Seq::<LifecycleEvent>::empty()).0 == s1);
    } else {
        let s1 = next_stage(stage, events[0]).0;
        assert(events.push(last).drop_first() =~= events.drop_first().push(last));
        lemma_run_events_push(s1, events.drop_first(), last);
    }
}

/// Whatever led a test to run, a fault caught in its run callback ends it as failed, with the
/// fault's cause recorded and exit status 1.
pub proof fn lemma_fault_fails_test(events: Seq<LifecycleEvent>, cause: String)
    requires
        run_events(Stage::Idle, events).0 == Stage::Running,
    ensures
        run_events(Stage::Idle, events.push(LifecycleEvent::RunFaulted { cause })).0 == Stage::Failed,
        exit_code_of(run_events(Stage::Idle, events.push(LifecycleEvent::RunFaulted { cause })).0) == 1,
        forall|f: Option<SuiteError>| failure_recorded(f, LifecycleEvent::RunFaulted { cause })
            <==> f == Some(SuiteError::InternalFault { cause }),
{
    lemma_run_events_push(Stage::Idle, events, LifecycleEvent::RunFaulted { cause });
}

/// Drives one test through registration, setup and execution. The driver only decides: the
/// caller performs each action and reports what came of it as the next event.
pub struct TestLifecycleDriver {
    stage: Stage,
    failure: Option<SuiteError>,
}

impl TestLifecycleDriver {
    pub closed spec fn spec_stage(&self) -> Stage {
        self.stage
    }

    pub closed spec fn spec_failure(&self) -> Option<SuiteError> {
        self.failure
    }

    pub fn new() -> (r: TestLifecycleDriver)
        ensures
            r.spec_stage() == Stage::Idle,
            r.spec_failure() is None,
    {
        TestLifecycleDriver { stage: Stage::Idle, failure: None }
    }

    pub fn phase(&self) -> (r: TestPhase)
        ensures
            r == phase_of(self.spec_stage()),
    {
        match self.stage {
            Stage::Idle => TestPhase::Idle,
            Stage::AwaitingSetupAck => TestPhase::Registering,
            Stage::SettingUp | Stage::AwaitingSetupCompleteAck | Stage::AwaitingExecutionAck => TestPhase::SettingUp,
            Stage::Running => TestPhase::Running,
            Stage::Completed => TestPhase::Completed,
            Stage::Failed => TestPhase::Failed,
        }
    }

    /// Why the test failed, once it has.
    pub fn failure(&self) -> (r: &Option<SuiteError>)
        ensures
            *r == self.spec_failure(),
    {
        &self.failure
    }

    /// 0 when the test completed, 1 otherwise.
    pub fn exit_code(&self) -> (r: i32)
        ensures
            r == exit_code_of(self.spec_stage()),
    {
        match self.stage {
            Stage::Completed => 0,
            _ => 1,
        }
    }

    /// Takes in one event and says what to do next.
    pub fn step(&mut self, event: LifecycleEvent) -> (r: LifecycleAction)
        ensures
            (final(self).spec_stage(), r) == next_stage(old(self).spec_stage(), event),
            final(self).spec_stage() == Stage::Failed && old(self).spec_stage() != Stage::Failed ==>
                failure_recorded(final(self).spec_failure(), event),
            !(final(self).spec_stage() == Stage::Failed && old(self).spec_stage() != Stage::Failed) ==>
                final(self).spec_failure() == old(self).spec_failure(),
    {
        if self.stage == Stage::Completed || self.stage == Stage::Failed {
            return LifecycleAction::Ignore;
        }
        let (next, action) = match (self.stage, &event) {
            (Stage::Idle, LifecycleEvent::Begin) =>
                (Stage::AwaitingSetupAck, LifecycleAction::Notify(Notification::SetupStarting)),
            (Stage::AwaitingSetupAck, LifecycleEvent::Acknowledged) => (Stage::SettingUp, LifecycleAction::InvokeSetup),
            (Stage::SettingUp, LifecycleEvent::SetupReturned) =>
                (Stage::AwaitingSetupCompleteAck, LifecycleAction::Notify(Notification::SetupComplete)),
            (Stage::AwaitingSetupCompleteAck, LifecycleEvent::Acknowledged) =>
                (Stage::AwaitingExecutionAck, LifecycleAction::Notify(Notification::ExecutionStarting)),
            (Stage::AwaitingExecutionAck, LifecycleEvent::Acknowledged) => (Stage::Running, LifecycleAction::InvokeRun),
            (Stage::Running, LifecycleEvent::RunReturned) => (Stage::Completed, LifecycleAction::Finish),
            _ => (Stage::Failed, LifecycleAction::Finish),
        };
        if next == Stage::Failed {
            self.failure = Some(match event {
                LifecycleEvent::RunFailed { message } => SuiteError::TestAssertionFailure { message },
                LifecycleEvent::RunFaulted { cause } => SuiteError::InternalFault { cause },
                LifecycleEvent::Aborted { error } => error,
                _ => SuiteError::InternalFault { cause: UNEXPECTED_EVENT.to_owned() },
            });
        }
        self.stage = next;
        action
    }
}

} // verus!
