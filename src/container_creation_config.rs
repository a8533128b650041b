use vstd::prelude::*;
use crate::table::StringTable;

verus! {

/// What a service's container needs before the orchestrator has given it an address: its
/// image, where the shared volume is mounted inside it, the ports it uses, the ids of the files
/// to generate for it, and the artifacts it mounts (artifact id to mount directory).
pub struct ContainerCreationConfig {
    image: String,
    test_volume_mountpoint: String,
    used_ports: Vec<String>,
    generated_file_ids: Vec<String>,
    files_artifact_mountpoints: StringTable,
}

impl ContainerCreationConfig {
    pub closed spec fn spec_image(&self) -> Seq<char> {
        self.image@
    }

    pub closed spec fn spec_test_volume_mountpoint(&self) -> Seq<char> {
        self.test_volume_mountpoint@
    }

    pub closed spec fn spec_used_ports(&self) -> Seq<String> {
        self.used_ports@
    }

    pub closed spec fn spec_generated_file_ids(&self) -> Seq<String> {
        self.generated_file_ids@
    }

    pub closed spec fn spec_artifact_mountpoints(&self) -> StringTable {
        self.files_artifact_mountpoints
    }

    pub open spec fn wf(&self) -> bool {
        self.spec_artifact_mountpoints().wf()
    }

    pub fn get_image(&self) -> (r: &String)
        ensures
            r@ == self.spec_image(),
    {
        &self.image
    }

    pub fn get_test_volume_mountpoint(&self) -> (r: &String)
        ensures
            r@ == self.spec_test_volume_mountpoint(),
    {
        &self.test_volume_mountpoint
    }

    pub fn get_used_ports(&self) -> (r: &Vec<String>)
        ensures
            r@ == self.spec_used_ports(),
    {
        &self.used_ports
    }

    pub fn get_generated_file_ids(&self) -> (r: &Vec<String>)
        ensures
            r@ == self.spec_generated_file_ids(),
    {
        &self.generated_file_ids
    }

    pub fn get_files_artifact_mountpoints(&self) -> (r: &StringTable)
        ensures
            *r == self.spec_artifact_mountpoints(),
    {
        &self.files_artifact_mountpoints
    }
}

/// Collects the parts of a `ContainerCreationConfig`; by default no ports, no generated files
/// and no artifacts.
pub struct ContainerCreationConfigBuilder {
    config: ContainerCreationConfig,
}

impl ContainerCreationConfigBuilder {
    pub closed spec fn spec_config(&self) -> ContainerCreationConfig {
        self.config
    }

    pub fn new(image: String, test_volume_mountpoint: String) -> (r: ContainerCreationConfigBuilder)
        ensures
            r.spec_config().wf(),
            r.spec_config().spec_image() == image@,
            r.spec_config().spec_test_volume_mountpoint() == test_volume_mountpoint@,
            r.spec_config().spec_used_ports().len() == 0,
            r.spec_config().spec_generated_file_ids().len() == 0,
            r.spec_config().spec_artifact_mountpoints()@.dom().len() == 0,
    {
        let t = StringTable::new();
        ContainerCreationConfigBuilder {
            config: ContainerCreationConfig {
                image,
                test_volume_mountpoint,
                used_ports: Vec::new(),
                generated_file_ids: Vec::new(),
                files_artifact_mountpoints: t,
            },
        }
    }

    pub fn with_used_ports(&mut self, used_ports: Vec<String>) -> (r: &mut ContainerCreationConfigBuilder)
        ensures
            r.spec_config().spec_used_ports() == used_ports@,
            r.spec_config().spec_image() == old(self).spec_config().spec_image(),
            r.spec_config().spec_test_volume_mountpoint() == old(self).spec_config().spec_test_volume_mountpoint(),
            r.spec_config().spec_generated_file_ids() == old(self).spec_config().spec_generated_file_ids(),
            r.spec_config().spec_artifact_mountpoints() == old(self).spec_config().spec_artifact_mountpoints(),
            *final(self) == *final(r),
    {
        self.config.used_ports = used_ports;
        self
    }

    pub fn with_generated_files(&mut self, file_ids: Vec<String>) -> (r: &mut ContainerCreationConfigBuilder)
        ensures
            r.spec_config().spec_generated_file_ids() == file_ids@,
            r.spec_config().spec_image() == old(self).spec_config().spec_image(),
            r.spec_config().spec_test_volume_mountpoint() == old(self).spec_config().spec_test_volume_mountpoint(),
            r.spec_config().spec_used_ports() == old(self).spec_config().spec_used_ports(),
            r.spec_config().spec_artifact_mountpoints() == old(self).spec_config().spec_artifact_mountpoints(),
            *final(self) == *final(r),
    {
        self.config.generated_file_ids = file_ids;
        self
    }

    pub fn with_files_artifacts(&mut self, files_artifact_mountpoints: StringTable) -> (r: &mut ContainerCreationConfigBuilder)
        requires
            files_artifact_mountpoints.wf(),
        ensures
            r.spec_config().wf(),
            r.spec_config().spec_artifact_mountpoints() == files_artifact_mountpoints,
            r.spec_config().spec_image() == old(self).spec_config().spec_image(),
            r.spec_config().spec_test_volume_mountpoint() == old(self).spec_config().spec_test_volume_mountpoint(),
            r.spec_config().spec_used_ports() == old(self).spec_config().spec_used_ports(),
            r.spec_config().spec_generated_file_ids() == old(self).spec_config().spec_generated_file_ids(),
            *final(self) == *final(r),
    {
        self.config.files_artifact_mountpoints = files_artifact_mountpoints;
        self
    }

    /// The configuration collected so far.
    pub fn build(self) -> (r: ContainerCreationConfig)
        ensures
            r == self.spec_config(),
    {
        self.config
    }
}

} // verus!
