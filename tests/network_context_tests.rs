use std::collections::HashMap;
use std::rc::Rc;

use kurtosis_lib::add_service::{AddServiceAction, AddStage};
use kurtosis_lib::availability_checker::AvailabilityChecker;

use kurtosis_lib::container_creation_config::{ContainerCreationConfig, ContainerCreationConfigBuilder};
use kurtosis_lib::container_run_config::ContainerRunConfigBuilder;
use kurtosis_lib::error::SuiteError;
use kurtosis_lib::network_context::{NetworkContext, RegisterServiceResponse, DEFAULT_PARTITION_ID, SUITE_EX_VOL_MOUNTPOINT};
use kurtosis_lib::repartitioner::RepartitionerBuilder;
use kurtosis_lib::service::Service;
use kurtosis_lib::table::StringTable;

#[derive(Debug, PartialEq)]
struct Store {
    name: String,
}

impl Service for Store {
    fn is_available(&self) -> bool {
        true
    }
}

fn urls() -> StringTable {
    let mut t = StringTable::new();
    t.insert("art-1".to_string(), "http://example.com/a.tgz".to_string());
    t.insert("art-2".to_string(), "http://example.com/b.tgz".to_string());
    t
}

fn plain_config() -> ContainerCreationConfig {
    ContainerCreationConfigBuilder::new("image:1".to_string(), "/test-volume".to_string()).build()
}

fn try_add(net: &mut NetworkContext<Store>, id: &str, ip: &str, name: &str) -> Result<(Rc<Store>, AvailabilityChecker<Store>), SuiteError> {
    let (mut flow, action) = net.begin_add_service(&id.to_string(), &DEFAULT_PARTITION_ID.to_string(), plain_config());
    match action {
        AddServiceAction::Register(args) => {
            assert_eq!(args.service_id, id);
            assert_eq!(args.partition_id, "");
        },
        AddServiceAction::Abort(e) => return Err(e),
        _ => panic!("expected a registration"),
    }
    let response = RegisterServiceResponse { ip_addr: ip.to_string(), generated_files_relative_filepaths: StringTable::new() };
    match net.on_registered(&mut flow, &response) {
        AddServiceAction::WriteFiles(paths) => assert!(paths.is_empty()),
        _ => panic!("expected files to write"),
    }
    assert_eq!(flow.ip_address(), ip);
    match net.on_files_written(&mut flow, &ContainerRunConfigBuilder::new().build()) {
        AddServiceAction::Start(args) => assert_eq!(args.service_id, id),
        _ => panic!("expected a start request"),
    }
    let ctx = match net.on_started(&mut flow) {
        AddServiceAction::Construct(ctx) => ctx,
        _ => panic!("expected the service to be built"),
    };
    assert_eq!(flow.stage(), AddStage::Started);
    assert_eq!(ctx.get_ip_address(), ip);
    net.finish_add_service(flow, Store { name: name.to_string() })
}

fn add(net: &mut NetworkContext<Store>, id: &str, ip: &str) {
    try_add(net, id, ip, id).unwrap();
}

#[test]
fn add_then_get_returns_same_address_and_object() {
    let mut net: NetworkContext<Store> = NetworkContext::new(urls());
    let id = "svc-a".to_string();
    let (object, checker) = try_add(&mut net, "svc-a", "10.0.0.2", "a").unwrap();
    let handle = net.get_service(&id).unwrap();
    assert_eq!(handle.ip_address, "10.0.0.2");
    assert_eq!(handle.service_id, "svc-a");
    assert!(std::rc::Rc::ptr_eq(&handle.service, &object));
    assert_eq!(checker.get_service_id(), "svc-a");
    assert!(checker.is_available());
}

#[test]
fn remove_then_get_fails_and_id_cannot_return() {
    let mut net: NetworkContext<Store> = NetworkContext::new(urls());
    add(&mut net, "svc-a", "10.0.0.2");
    net.remove_service(&"svc-a".to_string());
    assert_eq!(
        net.get_service(&"svc-a".to_string()).err(),
        Some(SuiteError::ServiceNotFound { service_id: "svc-a".to_string() })
    );
    assert_eq!(
        try_add(&mut net, "svc-a", "10.0.0.3", "x").err(),
        Some(SuiteError::ServiceIdInUse { service_id: "svc-a".to_string() })
    );
    assert!(net.get_service(&"svc-a".to_string()).is_err());
}

#[test]
fn failed_registration_leaves_no_entry() {
    let mut net: NetworkContext<Store> = NetworkContext::new(urls());
    let id = "svc-a".to_string();
    let (flow, action) = net.begin_add_service(&id, &DEFAULT_PARTITION_ID.to_string(), plain_config());
    assert!(matches!(action, AddServiceAction::Register(_)));
    assert_eq!(flow.stage(), AddStage::AwaitingRegistration);
    // The orchestrator refused the registration: the flow is dropped here.
    drop(flow);
    assert!(matches!(net.get_service(&id), Err(SuiteError::ServiceNotFound { .. })));
    add(&mut net, "svc-b", "10.0.0.9");
    assert!(net.get_service(&id).is_err());
    // The id was never taken, so a later attempt may use it.
    add(&mut net, "svc-a", "10.0.0.2");
    assert_eq!(net.get_service(&id).unwrap().ip_address, "10.0.0.2");
}

#[test]
fn two_adds_with_distinct_ids_both_resolve() {
    let mut net: NetworkContext<Store> = NetworkContext::new(urls());
    add(&mut net, "svc-a", "10.0.0.2");
    add(&mut net, "svc-b", "10.0.0.3");
    let a = net.get_service(&"svc-a".to_string()).unwrap();
    assert_eq!(a.ip_address, "10.0.0.2");
    assert_eq!(a.service.name, "svc-a");
    let b = net.get_service(&"svc-b".to_string()).unwrap();
    assert_eq!(b.ip_address, "10.0.0.3");
    assert_eq!(b.service.name, "svc-b");
}

#[test]
fn duplicate_id_is_refused() {
    let mut net: NetworkContext<Store> = NetworkContext::new(urls());
    add(&mut net, "svc-a", "10.0.0.2");
    let r = try_add(&mut net, "svc-a", "10.0.0.5", "other");
    assert_eq!(r.err(), Some(SuiteError::ServiceIdInUse { service_id: "svc-a".to_string() }));
    assert_eq!(net.get_service(&"svc-a".to_string()).unwrap().ip_address, "10.0.0.2");
}

#[test]
fn register_args_carry_partition_and_files() {
    let net: NetworkContext<Store> = NetworkContext::new(urls());
    let mut b = ContainerCreationConfigBuilder::new("image:1".to_string(), "/vol".to_string());
    b.with_generated_files(vec!["config".to_string(), "keys".to_string()]);
    let config = b.build();
    let args = net.register_service_args(&"svc".to_string(), &"part-1".to_string(), &config).unwrap();
    assert_eq!(args.partition_id, "part-1");
    assert_eq!(args.files_to_generate, vec!["config".to_string(), "keys".to_string()]);
}

#[test]
fn generated_files_are_placed_below_both_roots() {
    let net: NetworkContext<Store> = NetworkContext::new(urls());
    let mut b = ContainerCreationConfigBuilder::new("image:1".to_string(), "/vol".to_string());
    b.with_generated_files(vec!["config".to_string()]);
    let config = b.build();
    let mut rel = StringTable::new();
    rel.insert("config".to_string(), "svc/config.json".to_string());
    let response = RegisterServiceResponse { ip_addr: "10.0.0.7".to_string(), generated_files_relative_filepaths: rel };
    let ctx = net.service_context(&"svc".to_string(), &response.ip_addr, &config);
    assert_eq!(ctx.get_ip_address(), "10.0.0.7");
    assert_eq!(ctx.get_service_id(), "svc");
    assert_eq!(ctx.get_test_volume_mountpoint_on_testsuite_container(), SUITE_EX_VOL_MOUNTPOINT);
    let paths = ctx.generated_file_filepaths(config.get_generated_file_ids(), &response.generated_files_relative_filepaths).unwrap();
    assert_eq!(paths.len(), 1);
    assert_eq!(paths[0].0, "config");
    assert_eq!(paths[0].1.absolute_filepath_on_testsuite_container, "/suite-execution/svc/config.json");
    assert_eq!(paths[0].1.absolute_filepath_on_service_container, "/vol/svc/config.json");
}

#[test]
fn missing_generated_file_is_an_error() {
    let net: NetworkContext<Store> = NetworkContext::new(urls());
    let mut b = ContainerCreationConfigBuilder::new("image:1".to_string(), "/vol".to_string());
    b.with_generated_files(vec!["config".to_string()]);
    let config = b.build();
    let ctx = net.service_context(&"svc".to_string(), &"10.0.0.7".to_string(), &config);
    let r = ctx.generated_file_filepaths(config.get_generated_file_ids(), &StringTable::new());
    assert_eq!(
        r.err(),
        Some(SuiteError::MissingGeneratedFile { service_id: "svc".to_string(), file_id: "config".to_string() })
    );
}

#[test]
fn start_args_resolve_artifacts() {
    let net: NetworkContext<Store> = NetworkContext::new(urls());
    let mut mounts = StringTable::new();
    mounts.insert("art-2".to_string(), "/data".to_string());
    let mut b = ContainerCreationConfigBuilder::new("image:1".to_string(), "/vol".to_string());
    b.with_used_ports(vec!["80/tcp".to_string()]).with_files_artifacts(mounts);
    let config = b.build();
    let mut env = HashMap::new();
    env.insert("MODE".to_string(), "test".to_string());
    let mut rb = ContainerRunConfigBuilder::new();
    rb.with_cmd_override(vec!["run".to_string()]).with_environment_variable_overrides(env.clone());
    let run = rb.build();
    let args = net.start_service_args(&"svc".to_string(), &config, &run).unwrap();
    assert_eq!(args.docker_image, "image:1");
    assert_eq!(args.used_ports, vec!["80/tcp".to_string()]);
    assert_eq!(args.cmd_args, Some(vec!["run".to_string()]));
    assert_eq!(args.entrypoint_args, None);
    assert_eq!(args.docker_env_vars, env);
    assert_eq!(args.suite_execution_vol_mnt_dirpath, "/vol");
    assert_eq!(args.files_artifact_mount_dirpaths.len(), 1);
    assert_eq!(args.files_artifact_mount_dirpaths.get(&"http://example.com/b.tgz".to_string()), Some(&"/data".to_string()));
}

#[test]
fn unknown_artifact_is_a_configuration_error() {
    let net: NetworkContext<Store> = NetworkContext::new(urls());
    let mut mounts = StringTable::new();
    mounts.insert("art-9".to_string(), "/data".to_string());
    let mut b = ContainerCreationConfigBuilder::new("image:1".to_string(), "/vol".to_string());
    b.with_files_artifacts(mounts);
    let config = b.build();
    let run = ContainerRunConfigBuilder::new().build();
    let r = net.start_service_args(&"svc".to_string(), &config, &run);
    assert_eq!(r.err(), Some(SuiteError::Configuration { service_id: "svc".to_string(), detail: "art-9".to_string() }));
}

#[test]
fn repartition_with_unknown_service_is_rejected() {
    let mut net: NetworkContext<Store> = NetworkContext::new(urls());
    add(&mut net, "svc-a", "10.0.0.2");
    let mut b = RepartitionerBuilder::new(false);
    b.with_partition("east", vec!["svc-a".to_string(), "ghost".to_string()]);
    let r = net.validate_repartition(&b.build());
    assert_eq!(r, Err(SuiteError::ServiceNotFound { service_id: "ghost".to_string() }));
}

#[test]
fn repartition_with_service_in_two_partitions_is_rejected() {
    let mut net: NetworkContext<Store> = NetworkContext::new(urls());
    add(&mut net, "svc-a", "10.0.0.2");
    add(&mut net, "svc-b", "10.0.0.3");
    let mut b = RepartitionerBuilder::new(true);
    b.with_partition("east", vec!["svc-a".to_string()]).with_partition("west", vec!["svc-b".to_string(), "svc-a".to_string()]);
    let r = net.validate_repartition(&b.build());
    assert!(matches!(r, Err(SuiteError::Configuration { .. })));
}

#[test]
fn valid_repartition_is_accepted() {
    let mut net: NetworkContext<Store> = NetworkContext::new(urls());
    add(&mut net, "svc-a", "10.0.0.2");
    add(&mut net, "svc-b", "10.0.0.3");
    let mut b = RepartitionerBuilder::new(true);
    b.with_partition("east", vec!["svc-a".to_string()])
        .with_partition("west", vec!["svc-b".to_string()])
        .with_partition_connection("east", "west", false);
    assert_eq!(net.validate_repartition(&b.build()), Ok(()));
}

#[test]
fn removed_service_cannot_be_partitioned() {
    let mut net: NetworkContext<Store> = NetworkContext::new(urls());
    add(&mut net, "svc-a", "10.0.0.2");
    net.remove_service(&"svc-a".to_string());
    let mut b = RepartitionerBuilder::new(false);
    b.with_partition("east", vec!["svc-a".to_string()]);
    assert!(net.validate_repartition(&b.build()).is_err());
}

#[test]
fn add_flow_aborts_on_missing_generated_file() {
    let mut net: NetworkContext<Store> = NetworkContext::new(urls());
    let mut b = ContainerCreationConfigBuilder::new("image:1".to_string(), "/vol".to_string());
    b.with_generated_files(vec!["config".to_string()]);
    let (mut flow, action) = net.begin_add_service(&"svc".to_string(), &"p".to_string(), b.build());
    match action {
        AddServiceAction::Register(args) => assert_eq!(args.files_to_generate, vec!["config".to_string()]),
        _ => panic!("expected a registration"),
    }
    let response = RegisterServiceResponse { ip_addr: "10.0.0.4".to_string(), generated_files_relative_filepaths: StringTable::new() };
    match net.on_registered(&mut flow, &response) {
        AddServiceAction::Abort(e) => assert_eq!(
            e,
            SuiteError::MissingGeneratedFile { service_id: "svc".to_string(), file_id: "config".to_string() }
        ),
        _ => panic!("expected an abort"),
    }
    assert_eq!(flow.stage(), AddStage::Aborted);
    assert!(net.get_service(&"svc".to_string()).is_err());
    add(&mut net, "svc", "10.0.0.4");
}

#[test]
fn add_flow_aborts_on_unknown_artifact() {
    let net: NetworkContext<Store> = NetworkContext::new(urls());
    let mut mounts = StringTable::new();
    mounts.insert("art-7".to_string(), "/data".to_string());
    let mut b = ContainerCreationConfigBuilder::new("image:1".to_string(), "/vol".to_string());
    b.with_files_artifacts(mounts);
    let (mut flow, _) = net.begin_add_service(&"svc".to_string(), &"".to_string(), b.build());
    let response = RegisterServiceResponse { ip_addr: "10.0.0.4".to_string(), generated_files_relative_filepaths: StringTable::new() };
    net.on_registered(&mut flow, &response);
    match net.on_files_written(&mut flow, &ContainerRunConfigBuilder::new().build()) {
        AddServiceAction::Abort(e) => assert_eq!(e, SuiteError::Configuration { service_id: "svc".to_string(), detail: "art-7".to_string() }),
        _ => panic!("expected an abort"),
    }
    assert_eq!(flow.stage(), AddStage::Aborted);
}
