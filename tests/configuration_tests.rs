use std::collections::HashMap;

use kurtosis_lib::container_creation_config::ContainerCreationConfigBuilder;
use kurtosis_lib::container_run_config::ContainerRunConfigBuilder;
use kurtosis_lib::error::SuiteError;
use kurtosis_lib::executor::{
    connection_error, connection_policy, endpoint_url, registration_policy, ActionDirective, SuiteAction, SuiteEvent, SuiteSession,
    SuiteStage,
};
use kurtosis_lib::repartitioner::{PartitionConnectionInfo, RepartitionerBuilder};
use kurtosis_lib::table::StringTable;
use kurtosis_lib::test_configuration::{TestConfigurationBuilder, TestMetadata};

#[test]
fn test_configuration_defaults_and_overrides() {
    let c = TestConfigurationBuilder::new_test_configuration_builder().build();
    assert_eq!(c.test_setup_timeout_seconds, 60);
    assert_eq!(c.test_run_timeout_seconds, 60);
    assert!(!c.is_partitioning_enabled);
    assert_eq!(c.files_artifact_urls.len(), 0);

    let mut urls = StringTable::new();
    urls.insert("a".to_string(), "http://x/1".to_string());
    let mut b = TestConfigurationBuilder::new_test_configuration_builder();
    b.with_setup_timeout_seconds(30).with_run_timeout_seconds(90).with_partitioning_enabled(true).with_files_artifact_urls(urls);
    let c = b.build();
    assert_eq!(c.test_setup_timeout_seconds, 30);
    assert_eq!(c.test_run_timeout_seconds, 90);
    assert!(c.is_partitioning_enabled);
    assert_eq!(c.files_artifact_urls.get(&"a".to_string()), Some(&"http://x/1".to_string()));
}

#[test]
fn metadata_lists_each_url_once() {
    let mut urls = StringTable::new();
    urls.insert("a".to_string(), "http://x/1".to_string());
    urls.insert("b".to_string(), "http://x/2".to_string());
    urls.insert("c".to_string(), "http://x/1".to_string());
    let mut b = TestConfigurationBuilder::new_test_configuration_builder();
    b.with_setup_timeout_seconds(10).with_partitioning_enabled(true).with_files_artifact_urls(urls);
    let m = TestMetadata::from_configuration(&b.build());
    assert_eq!(m.used_artifact_urls, vec!["http://x/1".to_string(), "http://x/2".to_string()]);
    assert!(m.is_partitioning_enabled);
    assert_eq!(m.test_setup_timeout_in_seconds, 10);
    assert_eq!(m.test_run_timeout_in_seconds, 60);
}

#[test]
fn run_config_builder_keeps_each_part() {
    let empty = ContainerRunConfigBuilder::new().build();
    assert_eq!(empty.get_entrypoint_override_args(), &None);
    assert_eq!(empty.get_cmd_override_args(), &None);
    assert!(empty.get_environment_variable_overrides().is_empty());
    let mut env = HashMap::new();
    env.insert("K".to_string(), "V".to_string());
    let mut b = ContainerRunConfigBuilder::new();
    b.with_entrypoint_override(vec!["/bin/sh".to_string()])
        .with_cmd_override(vec!["-c".to_string(), "true".to_string()])
        .with_environment_variable_overrides(env.clone());
    let c = b.build();
    assert_eq!(c.get_entrypoint_override_args(), &Some(vec!["/bin/sh".to_string()]));
    assert_eq!(c.get_cmd_override_args(), &Some(vec!["-c".to_string(), "true".to_string()]));
    assert_eq!(c.get_environment_variable_overrides(), &env);
}

#[test]
fn creation_config_builder_keeps_each_part() {
    let mut mounts = StringTable::new();
    mounts.insert("art".to_string(), "/data".to_string());
    let mut b = ContainerCreationConfigBuilder::new("img".to_string(), "/vol".to_string());
    b.with_used_ports(vec!["1323/tcp".to_string()]).with_generated_files(vec!["cfg".to_string()]).with_files_artifacts(mounts);
    let c = b.build();
    assert_eq!(c.get_image(), "img");
    assert_eq!(c.get_test_volume_mountpoint(), "/vol");
    assert_eq!(c.get_used_ports(), &vec!["1323/tcp".to_string()]);
    assert_eq!(c.get_generated_file_ids(), &vec!["cfg".to_string()]);
    assert_eq!(c.get_files_artifact_mountpoints().get(&"art".to_string()), Some(&"/data".to_string()));
}

#[test]
fn repartitioner_applies_steps_in_order() {
    let mut b = RepartitionerBuilder::new(true);
    b.with_partition("east", vec!["a".to_string()])
        .with_partition("west", vec!["b".to_string()])
        .with_partition("east", vec!["a".to_string(), "c".to_string()])
        .with_partition_connection("east", "west", false)
        .with_partition_connection("east", "west", true);
    let r = b.build();
    let parts = r.get_partition_services();
    assert_eq!(parts.len(), 2);
    assert_eq!(parts.get(&"east".to_string()), Some(&vec!["a".to_string(), "c".to_string()]));
    assert_eq!(parts.get(&"west".to_string()), Some(&vec!["b".to_string()]));
    let conns = r.get_partition_connections();
    assert_eq!(conns.len(), 2);
    assert_eq!(conns[1].info, PartitionConnectionInfo { is_blocked: true });
    assert_eq!(r.get_default_connection(), PartitionConnectionInfo { is_blocked: true });
}

#[test]
fn empty_repartitioner_has_only_default() {
    let r = RepartitionerBuilder::new(false).build();
    assert_eq!(r.get_partition_services().len(), 0);
    assert!(r.get_partition_connections().is_empty());
    assert_eq!(r.get_default_connection(), PartitionConnectionInfo { is_blocked: false });
}

#[test]
fn executor_settings() {
    assert_eq!(endpoint_url("1.2.3.4:7443"), "http://1.2.3.4:7443");
    let p = connection_policy();
    assert_eq!(p.max_attempts, 20);
    assert_eq!(p.interval_millis, 500);
    assert_eq!(registration_policy().max_attempts, 20);
    assert_eq!(
        connection_error(&"http://1.2.3.4:7443".to_string(), &p),
        SuiteError::Connection { endpoint: "http://1.2.3.4:7443".to_string(), attempts: 20, interval_millis: 500 }
    );
}

#[test]
fn table_replaces_in_place() {
    let mut t = StringTable::new();
    t.insert("k1".to_string(), "v1".to_string());
    t.insert("k2".to_string(), "v2".to_string());
    t.insert("k1".to_string(), "v3".to_string());
    assert_eq!(t.len(), 2);
    assert_eq!(t.entry(0), (&"k1".to_string(), &"v3".to_string()));
    assert_eq!(t.entry(1), (&"k2".to_string(), &"v2".to_string()));
    assert_eq!(t.get(&"k3".to_string()), None);
}

#[test]
fn action_codes() {
    assert_eq!(ActionDirective::from_code(0), Some(ActionDirective::SerializeMetadata));
    assert_eq!(ActionDirective::from_code(1), Some(ActionDirective::ExecuteTest));
    assert_eq!(ActionDirective::from_code(7), None);
}

#[test]
fn suite_session_runs_a_test() {
    let mut s = SuiteSession::new();
    assert_eq!(s.step(SuiteEvent::Start), SuiteAction::Connect);
    assert_eq!(s.step(SuiteEvent::ConnectFailed), SuiteAction::WaitThenConnect { millis: 500 });
    assert_eq!(s.stage(), SuiteStage::Connecting { attempt: 2 });
    assert_eq!(s.step(SuiteEvent::Connected), SuiteAction::RegisterSuite);
    assert_eq!(s.step(SuiteEvent::RegisterFailed), SuiteAction::WaitThenRegisterSuite { millis: 500 });
    assert_eq!(s.step(SuiteEvent::Registered { code: 1 }), SuiteAction::RunTest);
    assert_eq!(s.step(SuiteEvent::TestFinished { exit_code: 0 }), SuiteAction::Exit { exit_code: 0 });
    assert_eq!(s.stage(), SuiteStage::Finished { exit_code: 0 });
}

#[test]
fn suite_session_publishes_metadata_once() {
    let mut s = SuiteSession::new();
    s.step(SuiteEvent::Start);
    s.step(SuiteEvent::Connected);
    assert_eq!(s.step(SuiteEvent::Registered { code: 0 }), SuiteAction::PublishMetadata);
    assert_eq!(s.step(SuiteEvent::PublishFailed), SuiteAction::Exit { exit_code: 1 });
}

#[test]
fn unreachable_orchestrator_gives_up_after_twenty_attempts() {
    let mut s = SuiteSession::new();
    assert_eq!(s.step(SuiteEvent::Start), SuiteAction::Connect);
    let mut waits = 0;
    loop {
        match s.step(SuiteEvent::ConnectFailed) {
            SuiteAction::WaitThenConnect { millis } => {
                assert_eq!(millis, 500);
                waits += 1;
            },
            SuiteAction::Exit { exit_code } => {
                assert_eq!(exit_code, 1);
                break;
            },
            other => panic!("unexpected action {:?}", other),
        }
    }
    assert_eq!(waits, 19);
}

#[test]
fn unknown_action_code_exits_with_failure() {
    let mut s = SuiteSession::new();
    s.step(SuiteEvent::Start);
    s.step(SuiteEvent::Connected);
    assert_eq!(s.step(SuiteEvent::Registered { code: 5 }), SuiteAction::Exit { exit_code: 1 });
    assert_eq!(s.step(SuiteEvent::Published), SuiteAction::Exit { exit_code: 1 });
}
