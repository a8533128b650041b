use vstd::prelude::*;
use std::collections::HashMap;
use std::rc::Rc;
use crate::availability_checker::AvailabilityChecker;
use crate::container_creation_config::ContainerCreationConfig;
use crate::container_run_config::{ContainerRunConfig, args_view, clone_args};
use crate::error::SuiteError;
use crate::registry::{ServiceHandle, ServiceRegistry};
use crate::repartitioner::Repartitioner;
use crate::service::{Service, ServiceId};
use crate::service_context::ServiceContext;
use crate::table::{StringTable, Table};

verus! {

/// The partition that every network has from the start.
pub const DEFAULT_PARTITION_ID: &'static str = "";

/// Where the shared volume is mounted in the test process.
pub const SUITE_EX_VOL_MOUNTPOINT: &'static str = "/suite-execution";

pub type PartitionId = String;

/// The request that registers a service with the orchestrator.
pub struct RegisterServiceArgs {
    pub service_id: ServiceId,
    pub partition_id: PartitionId,
    pub files_to_generate: Vec<String>,
}

/// The orchestrator's answer to a registration: the service's address, and for each file id
/// that was asked for, where the file lies relative to the shared volume's root.
pub struct RegisterServiceResponse {
    pub ip_addr: String,
    pub generated_files_relative_filepaths: StringTable,
}

/// The request that starts a registered service.
pub struct StartServiceArgs {
    pub service_id: ServiceId,
    pub docker_image: String,
    pub used_ports: Vec<String>,
    pub entrypoint_args: Option<Vec<String>>,
    pub cmd_args: Option<Vec<String>>,
    pub docker_env_vars: HashMap<String, String>,
    pub suite_execution_vol_mnt_dirpath: String,
    /// Artifact URL to the directory it is mounted at in the service's container.
    pub files_artifact_mount_dirpaths: StringTable,
}

/// The mounts that `requested` (artifact id to mount directory, in order) asks for: each
/// artifact's URL to its directory.
pub open spec fn artifact_mounts(urls: Map<Seq<char>, String>, requested: Seq<(String, String)>) -> Map<Seq<char>, String>
    decreases requested.len(),
{
    if requested.len() == 0 {
        Map::empty()
    } else {
        let (id, dir) = requested.last();
        artifact_mounts(urls, requested.drop_last()).insert(urls[id@]@, dir)
    }
}

/// Every service that a partition names is live, and no service stands in two partitions.
pub open spec fn topology_is_valid(services: Map<Seq<char>, Seq<String>>, live: Set<Seq<char>>) -> bool {
    &&& forall|p: Seq<char>, i: int|
        #[trigger] services.contains_key(p) && 0 <= i < services[p].len() ==> live.contains(#[trigger] services[p][i]@)
    &&& forall|p: Seq<char>, q: Seq<char>, i: int, j: int|
        services.contains_key(p) && services.contains_key(q) && 0 <= i < services[p].len()
            && 0 <= j < services[q].len() && #[trigger] services[p][i]@ == #[trigger] services[q][j]@ ==> p == q
}

/// Whether `e` names a fault of the topology `services`: a placed service that is not live, or
/// a service placed in two partitions.
pub open spec fn topology_error(services: Map<Seq<char>, Seq<String>>, live: Set<Seq<char>>, e: SuiteError) -> bool {
    ||| exists|p: Seq<char>, i: int|
        #[trigger] services.contains_key(p) && 0 <= i < services[p].len() && !live.contains(#[trigger] services[p][i]@)
            && e.is_service_not_found(services[p][i]@)
    ||| exists|p: Seq<char>, q: Seq<char>, i: int, j: int|
        services.contains_key(p) && services.contains_key(q) && p != q && 0 <= i < services[p].len()
            && 0 <= j < services[q].len() && #[trigger] services[p][i]@ == #[trigger] services[q][j]@
            && e.is_configuration(services[p][i]@)
}

/// The services of one test's network, and the artifacts that the test declared.
///
/// Adding a service takes several exchanges with the orchestrator; this type makes the
/// decisions between them, through an `AddServiceFlow`: the service joins the network only
/// through `finish_add_service`, once it runs. A failure at any step before that leaves the
/// network as it was.
pub struct NetworkContext<S> {
    services: ServiceRegistry<S>,
    files_artifact_urls: StringTable,
}

impl<S: Service> NetworkContext<S> {
    /// The live services, by id.
    pub closed spec fn services(&self) -> Map<Seq<char>, ServiceHandle<S>> {
        self.services.live()
    }

    /// Every id that this network ever gave a service.
    pub closed spec fn used_ids(&self) -> Set<Seq<char>> {
        self.services.used()
    }

    /// Artifact id to artifact URL, as the test declared them.
    pub closed spec fn artifact_urls(&self) -> Map<Seq<char>, String> {
        self.files_artifact_urls@
    }

    pub closed spec fn wf(&self) -> bool {
        self.services.wf() && self.files_artifact_urls.wf()
    }

    pub fn new(files_artifact_urls: StringTable) -> (r: NetworkContext<S>)
        requires
            files_artifact_urls.wf(),
        ensures
            r.wf(),
            r.services().dom() == Set::<Seq<char>>::empty(),
            r.used_ids() == Set::<Seq<char>>::empty(),
            r.artifact_urls() == files_artifact_urls@,
    {
        NetworkContext { services: ServiceRegistry::new(), files_artifact_urls }
    }

    /// A live service is stored under its own id, and its id counts as used.
    pub proof fn lemma_live_is_used(&self)
        requires
            self.wf(),
        ensures
            forall|k: Seq<char>| #[trigger] self.services().contains_key(k) ==> {
                &&& self.used_ids().contains(k)
                &&& self.services()[k].service_id@ == k
            },
    {
        self.services.lemma_live_is_used();
    }

    /// The registration request for a new service in partition `partition_id`; fails when
    /// the id was used before in this network.
    pub fn register_service_args(&self, service_id: &ServiceId, partition_id: &PartitionId, config: &ContainerCreationConfig) -> (r: Result<RegisterServiceArgs, SuiteError>)
        requires
            self.wf(),
        ensures
            match r {
                Ok(args) => {
                    &&& !self.used_ids().contains(service_id@)
                    &&& args.service_id@ == service_id@
                    &&& args.partition_id@ == partition_id@
                    &&& args.files_to_generate@ == config.spec_generated_file_ids()
                },
                Err(e) => self.used_ids().contains(service_id@) && e.is_service_id_in_use(service_id@),
            },
    {
        if self.services.is_used(service_id) {
            return Err(SuiteError::ServiceIdInUse { service_id: service_id.clone() });
        }
        let files = config.get_generated_file_ids().clone();
        assert(files@ =~= config.spec_generated_file_ids());
        Ok(RegisterServiceArgs {
            service_id: service_id.clone(),
            partition_id: partition_id.clone(),
            files_to_generate: files,
        })
    }

    /// The context of a registered service at address `ip_address`.
    pub fn service_context(&self, service_id: &ServiceId, ip_address: &String, config: &ContainerCreationConfig) -> (r: ServiceContext)
        ensures
            r.spec_service_id() == service_id@,
            r.spec_ip_address() == ip_address@,
            r.spec_testsuite_root() == SUITE_EX_VOL_MOUNTPOINT@,
            r.spec_service_root() == config.spec_test_volume_mountpoint(),
    {
        ServiceContext::new(
            service_id.clone(),
            ip_address.clone(),
            SUITE_EX_VOL_MOUNTPOINT.to_owned(),
            config.get_test_volume_mountpoint().clone(),
        )
    }

    /// For each artifact that `config` mounts, its URL and mount directory; fails on the first
    /// artifact id that the test did not declare.
    pub fn artifact_mount_dirpaths(&self, service_id: &ServiceId, config: &ContainerCreationConfig) -> (r: Result<StringTable, SuiteError>)
        requires
            self.wf(),
            config.wf(),
        ensures
            ({
                let requested = config.spec_artifact_mountpoints().entry_seq();
                match r {
                    Ok(t) => {
                        &&& t.wf()
                        &&& forall|i: int| 0 <= i < requested.len() ==>
                            self.artifact_urls().contains_key(#[trigger] requested[i].0@)
                        &&& t@ == artifact_mounts(self.artifact_urls(), requested)
                    },
                    Err(e) => {
                        &&& exists|i: int| 0 <= i < requested.len()
                            && !self.artifact_urls().contains_key(#[trigger] requested[i].0@)
                        &&& e.is_configuration(service_id@)
                    },
                }
            }),
    {
        let requested = config.get_files_artifact_mountpoints();
        let mut mounts: StringTable = Table::new();
        let mut i: usize = 0;
        while i < requested.len()
            invariant
                self.wf(),
                requested.wf(),
                *requested == config.spec_artifact_mountpoints(),
                i <= requested.entry_seq().len(),
                mounts.wf(),
                forall|j: int| 0 <= j < i ==> self.artifact_urls().contains_key(#[trigger] requested.entry_seq()[j].0@),
                mounts@ == artifact_mounts(self.artifact_urls(), requested.entry_seq().take(i as int)),
            decreases requested.entry_seq().len() - i,
        {
            let (artifact_id, dir) = requested.entry(i);
            assert(requested.entry_seq().take(i + 1).drop_last() =~= requested.entry_seq().take(i as int));
            match self.files_artifact_urls.get(artifact_id) {
                Some(url) => {
                    mounts.insert(url.clone(), dir.clone());
                },
                None => {
                    return Err(SuiteError::Configuration {
                        service_id: service_id.clone(),
                        detail: artifact_id.clone(),
                    });
                },
            }
            i = i + 1;
        }
        assert(requested.entry_seq().take(i as int) =~= requested.entry_seq());
        Ok(mounts)
    }

    /// The request that starts a registered service, with its run configuration and its
    /// artifact mounts resolved; fails when it mounts an artifact the test did not declare.
    pub fn start_service_args(&self, service_id: &ServiceId, config: &ContainerCreationConfig, run_config: &ContainerRunConfig) -> (r: Result<StartServiceArgs, SuiteError>)
        requires
            self.wf(),
            config.wf(),
        ensures
            ({
                let requested = config.spec_artifact_mountpoints().entry_seq();
                match r {
                    Ok(args) => {
                        &&& forall|i: int| 0 <= i < requested.len() ==>
                            self.artifact_urls().contains_key(#[trigger] requested[i].0@)
                        &&& args.service_id@ == service_id@
                        &&& args.docker_image@ == config.spec_image()
                        &&& args.used_ports@ == config.spec_used_ports()
                        &&& args_view(args.entrypoint_args) == run_config.spec_entrypoint()
                        &&& args_view(args.cmd_args) == run_config.spec_cmd()
                        &&& args.docker_env_vars@ == run_config.spec_env()
                        &&& args.suite_execution_vol_mnt_dirpath@ == config.spec_test_volume_mountpoint()
                        &&& args.files_artifact_mount_dirpaths.wf()
                        &&& args.files_artifact_mount_dirpaths@ == artifact_mounts(self.artifact_urls(), requested)
                    },
                    Err(e) => {
                        &&& exists|i: int| 0 <= i < requested.len()
                            && !self.artifact_urls().contains_key(#[trigger] requested[i].0@)
                        &&& e.is_configuration(service_id@)
                    },
                }
            }),
    {
        let mounts = match self.artifact_mount_dirpaths(service_id, config) {
            Ok(t) => t,
            Err(e) => {
                return Err(e);
            },
        };
        let ports = config.get_used_ports().clone();
        assert(ports@ =~= config.spec_used_ports());
        Ok(StartServiceArgs {
            service_id: service_id.clone(),
            docker_image: config.get_image().clone(),
            used_ports: ports,
            entrypoint_args: clone_args(run_config.get_entrypoint_override_args()),
            cmd_args: clone_args(run_config.get_cmd_override_args()),
            docker_env_vars: run_config.get_environment_variable_overrides().clone(),
            suite_execution_vol_mnt_dirpath: config.get_test_volume_mountpoint().clone(),
            files_artifact_mount_dirpaths: mounts,
        })
    }

    /// Makes a started service part of the network and gives back its object and a checker
    /// bound to it; fails, leaving the network as it was, when the id was used before.
    pub(crate) fn add_started_service(&mut self, service_id: &ServiceId, ip_address: &String, service: S) -> (r: Result<(Rc<S>, AvailabilityChecker<S>), SuiteError>)
        requires
            old(self).wf(),
        ensures
            final(self).wf(),
            final(self).artifact_urls() == old(self).artifact_urls(),
            match r {
                Ok((object, checker)) => {
                    &&& !old(self).used_ids().contains(service_id@)
                    &&& *object == service
                    &&& checker.spec_service() == object
                    &&& checker.spec_service_id() == service_id@
                    &&& final(self).services() == old(self).services().insert(service_id@,
                        ServiceHandle { service_id: *service_id, ip_address: *ip_address, service: object })
                    &&& final(self).used_ids() == old(self).used_ids().insert(service_id@)
                },
                Err(e) => {
                    &&& old(self).used_ids().contains(service_id@)
                    &&& e.is_service_id_in_use(service_id@)
                    &&& final(self).services() == old(self).services()
                    &&& final(self).used_ids() == old(self).used_ids()
                },
            },
    {
        if self.services.is_used(service_id) {
            return Err(SuiteError::ServiceIdInUse { service_id: service_id.clone() });
        }
        let object = Rc::new(service);
        let checker = AvailabilityChecker::new(service_id.as_str(), object.clone());
        let handle = ServiceHandle {
            service_id: service_id.clone(),
            ip_address: ip_address.clone(),
            service: object.clone(),
        };
        self.services.add(handle);
        Ok((object, checker))
    }

    /// The live service with id `service_id`.
    pub fn get_service(&self, service_id: &ServiceId) -> (r: Result<&ServiceHandle<S>, SuiteError>)
        requires
            self.wf(),
        ensures
            match r {
                Ok(h) => self.services().contains_key(service_id@) && *h == self.services()[service_id@],
                Err(e) => !self.services().contains_key(service_id@) && e.is_service_not_found(service_id@),
            },
    {
        match self.services.get(service_id) {
            Some(h) => Ok(h),
            None => Err(SuiteError::ServiceNotFound { service_id: service_id.clone() }),
        }
    }

    /// Checks a topology before it is sent: every service it places must be live, and in one
    /// partition only.
    pub fn validate_repartition(&self, topology: &Repartitioner) -> (r: Result<(), SuiteError>)
        requires
            self.wf(),
            topology.wf(),
        ensures
            r is Ok <==> topology_is_valid(topology.topology().services, self.services().dom()),
            match r {
                Ok(_) => true,
                Err(e) => topology_error(topology.topology().services, self.services().dom(), e),
            },
    {
        let partitions = topology.get_partition_services();
        let ghost es = partitions.entry_seq();
        let ghost live = self.services().dom();
        let ghost services = topology.topology().services;
        let mut seen: StringTable = Table::new();
        let mut k: usize = 0;
        while k < partitions.len()
            invariant
                self.wf(),
                partitions.wf(),
                *partitions == topology.spec_partitions(),
                es == partitions.entry_seq(),
                live == self.services().dom(),
                services == topology.topology().services,
                k <= es.len(),
                seen.wf(),
                forall|a: int, b: int| 0 <= a < k && 0 <= b < es[a].1@.len() ==> {
                    &&& live.contains(#[trigger] es[a].1@[b]@)
                    &&& seen@.contains_key(es[a].1@[b]@)
                    &&& seen@[es[a].1@[b]@]@ == es[a].0@
                },
                forall|s: Seq<char>| #[trigger] seen@.contains_key(s) ==> exists|a: int, b: int|
                    0 <= a < k && 0 <= b < es[a].1@.len() && #[trigger] es[a].1@[b]@ == s
                        && es[a].0@ == seen@[s]@,
            decreases es.len() - k,
        {
            let (partition_id, ids) = partitions.entry(k);
            let mut j: usize = 0;
            while j < ids.len()
                invariant
                    self.wf(),
                    partitions.wf(),
                    *partitions == topology.spec_partitions(),
                    es == partitions.entry_seq(),
                    live == self.services().dom(),
                    services == topology.topology().services,
                    k < es.len(),
                    *partition_id == es[k as int].0,
                    *ids == es[k as int].1,
                    j <= ids@.len(),
                    seen.wf(),
                    forall|a: int, b: int| 0 <= a <= k && 0 <= b < es[a].1@.len() && (a < k || b < j) ==> {
                        &&& live.contains(#[trigger] es[a].1@[b]@)
                        &&& seen@.contains_key(es[a].1@[b]@)
                        &&& seen@[es[a].1@[b]@]@ == es[a].0@
                    },
                    forall|s: Seq<char>| #[trigger] seen@.contains_key(s) ==> exists|a: int, b: int|
                        0 <= a <= k && 0 <= b < es[a].1@.len() && (a < k || b < j) && #[trigger] es[a].1@[b]@ == s
                            && es[a].0@ == seen@[s]@,
                decreases ids@.len() - j,
            {
                let id = &ids[j];
                assert(partitions@.contains_key(es[k as int].0@));
                assert(services.contains_key(es[k as int].0@) && services[es[k as int].0@] == es[k as int].1@);
                if self.services.get(id).is_none() {
                    assert(services[es[k as int].0@][j as int]@ == id@);
                    assert(!live.contains(services[es[k as int].0@][j as int]@));
                    let e = SuiteError::ServiceNotFound { service_id: id.clone() };
                    assert(e.is_service_not_found(services[es[k as int].0@][j as int]@));
                    return Err(e);
                }
                match seen.get(id) {
                    Some(other) => {
                        if *other != *partition_id {
                            let ghost (a, b) = choose|a: int, b: int|
                                0 <= a <= k && 0 <= b < es[a].1@.len() && (a < k || b < j) && #[trigger] es[a].1@[b]@ == id@
                                    && es[a].0@ == seen@[id@]@;
                            assert(partitions@.contains_key(es[a].0@));
                            assert(services.contains_key(es[a].0@) && services[es[a].0@] == es[a].1@);
                            assert(services[es[a].0@][b]@ == services[es[k as int].0@][j as int]@);
                            let e = SuiteError::Configuration { service_id: id.clone(), detail: partition_id.clone() };
                            assert(e.is_configuration(services[es[a].0@][b]@));
                            assert(es[a].0@ != es[k as int].0@);
                            return Err(e);
                        }
                    },
                    None => {
                        seen.insert(id.clone(), partition_id.clone());
                    },
                }
                j = j + 1;
            }
            k = k + 1;
        }
        assert forall|p: Seq<char>, q: Seq<char>, i: int, j: int|
            services.contains_key(p) && services.contains_key(q) && 0 <= i < services[p].len()
                && 0 <= j < services[q].len() && #[trigger] services[p][i]@ == #[trigger] services[q][j]@ implies p == q by {
            let a = choose|a: int| 0 <= a < es.len() && #[trigger] es[a].0@ == p;
            let b = choose|b: int| 0 <= b < es.len() && #[trigger] es[b].0@ == q;
            assert(seen@[es[a].1@[i]@]@ == p);
            assert(seen@[es[b].1@[j]@]@ == q);
        }
        assert forall|p: Seq<char>, i: int|
            #[trigger] services.contains_key(p) && 0 <= i < services[p].len() implies live.contains(#[trigger] services[p][i]@) by {
            let a = choose|a: int| 0 <= a < es.len() && #[trigger] es[a].0@ == p;
            assert(live.contains(es[a].1@[i]@));
        }
        Ok(())
    }

    /// Drops a service once the orchestrator has removed it; its id stays used, so it can
    /// never be added again.
    pub fn remove_service(&mut self, service_id: &ServiceId)
        requires
            old(self).wf(),
        ensures
            final(self).wf(),
            final(self).artifact_urls() == old(self).artifact_urls(),
            final(self).services() == old(self).services().remove(service_id@),
            final(self).used_ids() == old(self).used_ids(),
    {
        self.services.remove(service_id);
    }
}

/// Adding a service with id `service_id` at `ip_address` with object `object` takes `before`
/// to `after`, as `finish_add_service` states on success.
pub open spec fn added<S: Service>(before: NetworkContext<S>, after: NetworkContext<S>, service_id: Seq<char>, ip_address: Seq<char>, object: Rc<S>) -> bool {
    &&& !before.used_ids().contains(service_id)
    &&& after.services().contains_key(service_id)
    &&& after.services() == before.services().insert(service_id, after.services()[service_id])
    &&& after.services()[service_id].service == object
    &&& after.services()[service_id].ip_address@ == ip_address
    &&& after.used_ids() == before.used_ids().insert(service_id)
}

/// Removing the service with id `service_id` takes `before` to `after`, as `remove_service`
/// states.
pub open spec fn removed<S: Service>(before: NetworkContext<S>, after: NetworkContext<S>, service_id: Seq<char>) -> bool {
    &&& after.services() == before.services().remove(service_id)
    &&& after.used_ids() == before.used_ids()
}

/// A service that was added is found under its id, with the address it was added with and
/// the very object that was built for it.
pub proof fn lemma_add_then_get<S: Service>(before: NetworkContext<S>, after: NetworkContext<S>, service_id: Seq<char>, ip_address: Seq<char>, object: Rc<S>)
    requires
        added(before, after, service_id, ip_address, object),
    ensures
        after.services().contains_key(service_id),
        after.services()[service_id].ip_address@ == ip_address,
        after.services()[service_id].service == object,
{
}

/// Two services added one after the other under different ids are both found afterwards,
/// each with its own address and object.
pub proof fn lemma_two_adds_both_found<S: Service>(
    before: NetworkContext<S>,
    middle: NetworkContext<S>,
    after: NetworkContext<S>,
    id_a: Seq<char>,
    ip_a: Seq<char>,
    object_a: Rc<S>,
    id_b: Seq<char>,
    ip_b: Seq<char>,
    object_b: Rc<S>,
)
    requires
        id_a != id_b,
        added(before, middle, id_a, ip_a, object_a),
        added(middle, after, id_b, ip_b, object_b),
    ensures
        after.services().contains_key(id_a),
        after.services()[id_a].ip_address@ == ip_a,
        after.services()[id_a].service == object_a,
        after.services().contains_key(id_b),
        after.services()[id_b].ip_address@ == ip_b,
        after.services()[id_b].service == object_b,
{
}

/// Once a service is removed, looking it up fails, and its id stays used, so that no later
/// addition can bring it back.
pub proof fn lemma_remove_then_get_fails<S: Service>(before: NetworkContext<S>, after: NetworkContext<S>, service_id: Seq<char>)
    requires
        before.wf(),
        before.services().contains_key(service_id),
        removed(before, after, service_id),
    ensures
        !after.services().contains_key(service_id),
        after.used_ids().contains(service_id),
{
    before.lemma_live_is_used();
}

/// An id that is used but not live stays absent through every later addition and removal.
pub proof fn lemma_removed_stays_absent<S: Service>(before: NetworkContext<S>, after: NetworkContext<S>, service_id: Seq<char>, other: Seq<char>, ip_address: Seq<char>, object: Rc<S>)
    requires
        before.used_ids().contains(service_id),
        !before.services().contains_key(service_id),
        added(before, after, other, ip_address, object) || removed(before, after, other)
            || (after.services() == before.services() && after.used_ids() == before.used_ids()),
    ensures
        after.used_ids().contains(service_id),
        !after.services().contains_key(service_id),
{
}

} // verus!
