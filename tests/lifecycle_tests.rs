use kurtosis_lib::error::SuiteError;
use kurtosis_lib::lifecycle::{LifecycleAction, LifecycleEvent, Notification, TestLifecycleDriver, TestPhase};
use kurtosis_lib::test_context::TestContext;

#[test]
fn successful_test_completes_with_notifications_in_order() {
    let mut d = TestLifecycleDriver::new();
    assert_eq!(d.phase(), TestPhase::Idle);
    let mut notified = Vec::new();
    let mut phases = Vec::new();
    let events = vec![
        LifecycleEvent::Begin,
        LifecycleEvent::Acknowledged,
        LifecycleEvent::SetupReturned,
        LifecycleEvent::Acknowledged,
        LifecycleEvent::Acknowledged,
        LifecycleEvent::RunReturned,
    ];
    let mut actions = Vec::new();
    for e in events {
        let a = d.step(e);
        if let LifecycleAction::Notify(n) = a {
            notified.push(n);
        }
        actions.push(a);
        phases.push(d.phase());
    }
    assert_eq!(
        notified,
        vec![Notification::SetupStarting, Notification::SetupComplete, Notification::ExecutionStarting]
    );
    assert_eq!(
        phases,
        vec![
            TestPhase::Registering,
            TestPhase::SettingUp,
            TestPhase::SettingUp,
            TestPhase::SettingUp,
            TestPhase::Running,
            TestPhase::Completed
        ]
    );
    assert_eq!(actions[1], LifecycleAction::InvokeSetup);
    assert_eq!(actions[4], LifecycleAction::InvokeRun);
    assert_eq!(actions[5], LifecycleAction::Finish);
    assert_eq!(d.exit_code(), 0);
    assert_eq!(d.failure(), &None);
}

fn drive_to_running() -> TestLifecycleDriver {
    let mut d = TestLifecycleDriver::new();
    d.step(LifecycleEvent::Begin);
    d.step(LifecycleEvent::Acknowledged);
    d.step(LifecycleEvent::SetupReturned);
    d.step(LifecycleEvent::Acknowledged);
    d.step(LifecycleEvent::Acknowledged);
    assert_eq!(d.phase(), TestPhase::Running);
    d
}

#[test]
fn fault_in_run_fails_test_with_cause() {
    let mut d = drive_to_running();
    let a = d.step(LifecycleEvent::RunFaulted { cause: "index out of bounds".to_string() });
    assert_eq!(a, LifecycleAction::Finish);
    assert_eq!(d.phase(), TestPhase::Failed);
    assert_eq!(d.failure(), &Some(SuiteError::InternalFault { cause: "index out of bounds".to_string() }));
    assert_eq!(d.exit_code(), 1);
    assert_eq!(d.step(LifecycleEvent::RunReturned), LifecycleAction::Ignore);
    assert_eq!(d.phase(), TestPhase::Failed);
}

#[test]
fn failed_assertion_fails_test() {
    let mut d = drive_to_running();
    let mut ctx = TestContext::new();
    ctx.assert_true(1 + 1 == 2, "arithmetic".to_string());
    assert!(!ctx.has_failed());
    ctx.assert_true(false, "books read should be 1".to_string());
    ctx.fatal("later".to_string());
    assert!(ctx.has_failed());
    d.step(ctx.into_run_event());
    assert_eq!(d.failure(), &Some(SuiteError::TestAssertionFailure { message: "books read should be 1".to_string() }));
    assert_eq!(d.exit_code(), 1);
}

#[test]
fn clean_context_completes_test() {
    let mut d = drive_to_running();
    d.step(TestContext::new().into_run_event());
    assert_eq!(d.phase(), TestPhase::Completed);
}

#[test]
fn setup_failure_stops_before_running() {
    let mut d = TestLifecycleDriver::new();
    d.step(LifecycleEvent::Begin);
    d.step(LifecycleEvent::Acknowledged);
    let err = SuiteError::Registration {
        operation: "setup".to_string(),
        service_id: "datastore".to_string(),
        cause: "refused".to_string(),
    };
    assert_eq!(d.step(LifecycleEvent::Aborted { error: err.clone() }), LifecycleAction::Finish);
    assert_eq!(d.phase(), TestPhase::Failed);
    assert_eq!(d.failure(), &Some(err));
    assert_eq!(d.step(LifecycleEvent::Acknowledged), LifecycleAction::Ignore);
}

#[test]
fn out_of_order_event_fails_test() {
    let mut d = TestLifecycleDriver::new();
    assert_eq!(d.step(LifecycleEvent::RunReturned), LifecycleAction::Finish);
    assert_eq!(d.phase(), TestPhase::Failed);
    assert!(matches!(d.failure(), Some(SuiteError::InternalFault { .. })));
    assert_eq!(d.exit_code(), 1);
}
