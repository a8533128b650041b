use vstd::prelude::*;
use std::rc::Rc;
use crate::availability_checker::AvailabilityChecker;
use crate::container_creation_config::ContainerCreationConfig;
use crate::container_run_config::{ContainerRunConfig, args_view};
use crate::error::SuiteError;
use crate::network_context::{NetworkContext, PartitionId, RegisterServiceArgs, RegisterServiceResponse,
    StartServiceArgs, SUITE_EX_VOL_MOUNTPOINT, artifact_mounts};
use crate::service::{Service, ServiceId};
use crate::service_context::{GeneratedFileFilepaths, ServiceContext, generated_paths_match};

verus! {

/// How far the addition of one service has come.
#[derive(Clone, Copy, Debug, PartialEq, Eq, Structural)]
pub enum AddStage {
    /// The registration request is out.
    AwaitingRegistration,
    /// The generated files are being written and the run configuration computed.
    AwaitingFiles,
    /// The start request is out.
    AwaitingStart,
    /// The service runs; its object can be built and the service joined to the network.
    Started,
    /// A step failed; nothing more happens.
    Aborted,
}

/// What the caller does next for an addition in progress.
pub enum AddServiceAction {
    /// Send this registration and report the answer to `on_registered`.
    Register(RegisterServiceArgs),
    /// Write each file at its path in the test process, ask the factory for the run
    /// configuration (with the paths in the service's container) and report it to
    /// `on_files_written`.
    WriteFiles(Vec<(String, GeneratedFileFilepaths)>),
    /// Send this start request and report success to `on_started`.
    Start(StartServiceArgs),
    /// Build the service's object from this context and hand it to `finish_add_service`.
    Construct(ServiceContext),
    /// Stop: the addition failed with this error.
    Abort(SuiteError),
}

/// One addition of a service in progress: register, write generated files, start, construct.
/// A failure at any step, here or in the caller's exchanges, leaves the network untouched: only
/// `finish_add_service`, which takes a flow that reached `Started`, changes it.
pub struct AddServiceFlow {
    service_id: ServiceId,
    config: ContainerCreationConfig,
    stage: AddStage,
    ip_address: String,
    context: Option<ServiceContext>,
}

impl AddServiceFlow {
    pub closed spec fn spec_stage(&self) -> AddStage {
        self.stage
    }

    pub closed spec fn spec_service_id(&self) -> Seq<char> {
        self.service_id@
    }

    pub closed spec fn spec_config(&self) -> ContainerCreationConfig {
        self.config
    }

    pub closed spec fn spec_ip_address(&self) -> Seq<char> {
        self.ip_address@
    }

    /// The context that the service's object will be built from, once it is known.
    pub closed spec fn spec_context(&self) -> Option<ServiceContext> {
        self.context
    }

    /// The address the orchestrator gave the service, once registered.
    pub fn ip_address(&self) -> (r: &String)
        ensures
            r@ == self.spec_ip_address(),
    {
        &self.ip_address
    }

    pub fn stage(&self) -> (r: AddStage)
        ensures
            r == self.spec_stage(),
    {
        self.stage
    }
}

/// Whether `ctx` is the context of service `id` at `ip` configured by `config`.
pub open spec fn context_for(ctx: ServiceContext, id: Seq<char>, ip: Seq<char>, config: ContainerCreationConfig) -> bool {
    &&& ctx.spec_service_id() == id
    &&& ctx.spec_ip_address() == ip
    &&& ctx.spec_testsuite_root() == SUITE_EX_VOL_MOUNTPOINT@
    &&& ctx.spec_service_root() == config.spec_test_volume_mountpoint()
}

impl<S: Service> NetworkContext<S> {
    /// Starts adding service `service_id` to partition `partition_id`: the registration to
    /// send, or an abort when the id was used before in this network.
    pub fn begin_add_service(&self, service_id: &ServiceId, partition_id: &PartitionId, config: ContainerCreationConfig) -> (r: (AddServiceFlow, AddServiceAction))
        requires
            self.wf(),
            config.wf(),
        ensures
            r.0.spec_service_id() == service_id@,
            r.0.spec_config() == config,
            r.0.spec_config().wf(),
            match r.1 {
                AddServiceAction::Register(args) => {
                    &&& r.0.spec_stage() == AddStage::AwaitingRegistration
                    &&& !self.used_ids().contains(service_id@)
                    &&& args.service_id@ == service_id@
                    &&& args.partition_id@ == partition_id@
                    &&& args.files_to_generate@ == config.spec_generated_file_ids()
                },
                AddServiceAction::Abort(e) => {
                    &&& r.0.spec_stage() == AddStage::Aborted
                    &&& self.used_ids().contains(service_id@)
                    &&& e.is_service_id_in_use(service_id@)
                },
                _ => false,
            },
    {
        let action = match self.register_service_args(service_id, partition_id, &config) {
            Ok(args) => AddServiceAction::Register(args),
            Err(e) => AddServiceAction::Abort(e),
        };
        let stage = match action {
            AddServiceAction::Register(_) => AddStage::AwaitingRegistration,
            _ => AddStage::Aborted,
        };
        let flow = AddServiceFlow {
            service_id: service_id.clone(),
            config,
            stage,
            ip_address: String::new(),
            context: None,
        };
        (flow, action)
    }

    /// The orchestrator registered the service: the files to write, or an abort when it placed
    /// no file for one of the ids asked for.
    pub fn on_registered(&self, flow: &mut AddServiceFlow, response: &RegisterServiceResponse) -> (r: AddServiceAction)
        requires
            self.wf(),
            old(flow).spec_stage() == AddStage::AwaitingRegistration,
            old(flow).spec_config().wf(),
            response.generated_files_relative_filepaths.wf(),
        ensures
            final(flow).spec_service_id() == old(flow).spec_service_id(),
            final(flow).spec_config() == old(flow).spec_config(),
            ({
                let ids = old(flow).spec_config().spec_generated_file_ids();
                let relative = response.generated_files_relative_filepaths@;
                match r {
                    AddServiceAction::WriteFiles(paths) => {
                        &&& final(flow).spec_stage() == AddStage::AwaitingFiles
                        &&& final(flow).spec_ip_address() == response.ip_addr@
                        &&& final(flow).spec_context() matches Some(ctx) && context_for(ctx,
                            old(flow).spec_service_id(), response.ip_addr@, old(flow).spec_config())
                        &&& forall|i: int| 0 <= i < ids.len() ==> relative.contains_key(#[trigger] ids[i]@)
                        &&& generated_paths_match(paths@, ids, relative, SUITE_EX_VOL_MOUNTPOINT@,
                            old(flow).spec_config().spec_test_volume_mountpoint())
                    },
                    AddServiceAction::Abort(e) => {
                        &&& final(flow).spec_stage() == AddStage::Aborted
                        &&& exists|i: int| 0 <= i < ids.len() && !relative.contains_key(#[trigger] ids[i]@)
                            && e.is_missing_generated_file(old(flow).spec_service_id(), ids[i]@)
                    },
                    _ => false,
                }
            }),
    {
        let ctx = self.service_context(&flow.service_id, &response.ip_addr, &flow.config);
        match ctx.generated_file_filepaths(flow.config.get_generated_file_ids(), &response.generated_files_relative_filepaths) {
            Ok(paths) => {
                flow.stage = AddStage::AwaitingFiles;
                flow.ip_address = response.ip_addr.clone();
                flow.context = Some(ctx);
                AddServiceAction::WriteFiles(paths)
            },
            Err(e) => {
                flow.stage = AddStage::Aborted;
                AddServiceAction::Abort(e)
            },
        }
    }

    /// The files are written and the run configuration is known: the start request, or an
    /// abort when the service mounts an artifact that the test did not declare.
    pub fn on_files_written(&self, flow: &mut AddServiceFlow, run_config: &ContainerRunConfig) -> (r: AddServiceAction)
        requires
            self.wf(),
            old(flow).spec_stage() == AddStage::AwaitingFiles,
            old(flow).spec_config().wf(),
        ensures
            final(flow).spec_service_id() == old(flow).spec_service_id(),
            final(flow).spec_config() == old(flow).spec_config(),
            final(flow).spec_ip_address() == old(flow).spec_ip_address(),
            final(flow).spec_context() == old(flow).spec_context(),
            ({
                let config = old(flow).spec_config();
                let requested = config.spec_artifact_mountpoints().entry_seq();
                match r {
                    AddServiceAction::Start(args) => {
                        &&& final(flow).spec_stage() == AddStage::AwaitingStart
                        &&& forall|i: int| 0 <= i < requested.len() ==>
                            self.artifact_urls().contains_key(#[trigger] requested[i].0@)
                        &&& args.service_id@ == old(flow).spec_service_id()
                        &&& args.docker_image@ == config.spec_image()
                        &&& args.used_ports@ == config.spec_used_ports()
                        &&& args_view(args.entrypoint_args) == run_config.spec_entrypoint()
                        &&& args_view(args.cmd_args) == run_config.spec_cmd()
                        &&& args.docker_env_vars@ == run_config.spec_env()
                        &&& args.suite_execution_vol_mnt_dirpath@ == config.spec_test_volume_mountpoint()
                        &&& args.files_artifact_mount_dirpaths.wf()
                        &&& args.files_artifact_mount_dirpaths@ == artifact_mounts(self.artifact_urls(), requested)
                    },
                    AddServiceAction::Abort(e) => {
                        &&& final(flow).spec_stage() == AddStage::Aborted
                        &&& exists|i: int| 0 <= i < requested.len()
                            && !self.artifact_urls().contains_key(#[trigger] requested[i].0@)
                        &&& e.is_configuration(old(flow).spec_service_id())
                    },
                    _ => false,
                }
            }),
    {
        match self.start_service_args(&flow.service_id, &flow.config, run_config) {
            Ok(args) => {
                flow.stage = AddStage::AwaitingStart;
                AddServiceAction::Start(args)
            },
            Err(e) => {
                flow.stage = AddStage::Aborted;
                AddServiceAction::Abort(e)
            },
        }
    }

    /// The orchestrator started the service: its object is to be built from the context.
    pub fn on_started(&self, flow: &mut AddServiceFlow) -> (r: AddServiceAction)
        requires
            old(flow).spec_stage() == AddStage::AwaitingStart,
            old(flow).spec_context() is Some,
        ensures
            final(flow).spec_stage() == AddStage::Started,
            final(flow).spec_service_id() == old(flow).spec_service_id(),
            final(flow).spec_ip_address() == old(flow).spec_ip_address(),
            r matches AddServiceAction::Construct(ctx) && old(flow).spec_context() == Some(ctx),
    {
        flow.stage = AddStage::Started;
        let ctx = flow.context.take().unwrap();
        AddServiceAction::Construct(ctx)
    }

    /// Joins a started service to the network and gives back its object and a checker bound
    /// to it; fails, leaving the network as it was, when its id was taken meanwhile.
    pub fn finish_add_service(&mut self, flow: AddServiceFlow, service: S) -> (r: Result<(Rc<S>, AvailabilityChecker<S>), SuiteError>)
        requires
            old(self).wf(),
            flow.spec_stage() == AddStage::Started,
        ensures
            final(self).wf(),
            final(self).artifact_urls() == old(self).artifact_urls(),
            match r {
                Ok((object, checker)) => {
                    &&& !old(self).used_ids().contains(flow.spec_service_id())
                    &&& *object == service
                    &&& checker.spec_service() == object
                    &&& checker.spec_service_id() == flow.spec_service_id()
                    &&& final(self).services().contains_key(flow.spec_service_id())
                    &&& final(self).services() == old(self).services().insert(flow.spec_service_id(),
                        final(self).services()[flow.spec_service_id()])
                    &&& final(self).services()[flow.spec_service_id()].service == object
                    &&& final(self).services()[flow.spec_service_id()].ip_address@ == flow.spec_ip_address()
                    &&& final(self).services()[flow.spec_service_id()].service_id@ == flow.spec_service_id()
                    &&& final(self).used_ids() == old(self).used_ids().insert(flow.spec_service_id())
                },
                Err(e) => {
                    &&& old(self).used_ids().contains(flow.spec_service_id())
                    &&& e.is_service_id_in_use(flow.spec_service_id())
                    &&& final(self).services() == old(self).services()
                    &&& final(self).used_ids() == old(self).used_ids()
                },
            },
    {
        self.add_started_service(&flow.service_id, &flow.ip_address, service)
    }
}

} // verus!
