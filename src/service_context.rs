use vstd::prelude::*;
use crate::error::SuiteError;
use crate::service::ServiceId;
use crate::table::StringTable;

verus! {

/// `root/relative`: a path below a mount root.
pub open spec fn join_path(root: Seq<char>, relative: Seq<char>) -> Seq<char> {
    root + seq!['/'] + relative
}

/// Where one generated file lies, as the test process and as the service's container see it.
pub struct GeneratedFileFilepaths {
    pub absolute_filepath_on_testsuite_container: String,
    pub absolute_filepath_on_service_container: String,
}

/// What a service object knows of its service: its id, its address, and where the shared
/// volume is mounted in the test process and in the service's container.
pub struct ServiceContext {
    service_id: ServiceId,
    ip_address: String,
    test_volume_mountpoint_on_testsuite_container: String,
    test_volume_mountpoint_on_service_container: String,
}

/// Whether `r` lists, for each of `ids` in order, the id with its paths below the two roots.
pub open spec fn generated_paths_match(
    r: Seq<(String, GeneratedFileFilepaths)>,
    ids: Seq<String>,
    relative: Map<Seq<char>, String>,
    testsuite_root: Seq<char>,
    service_root: Seq<char>,
) -> bool {
    &&& r.len() == ids.len()
    &&& forall|i: int| 0 <= i < ids.len() ==> {
        &&& (#[trigger] r[i]).0@ == ids[i]@
        &&& r[i].1.absolute_filepath_on_testsuite_container@ == join_path(testsuite_root, relative[ids[i]@]@)
        &&& r[i].1.absolute_filepath_on_service_container@ == join_path(service_root, relative[ids[i]@]@)
    }
}

/// `root/relative`, built.
pub fn join(root: &String, relative: &String) -> (r: String)
    ensures
        r@ == join_path(root@, relative@),
{
    let mut r = root.clone();
    let sep = "/";
    proof {
        reveal_strlit("/");
    }
    r.append(sep);
    r.append(relative.as_str());
    r
}

impl ServiceContext {
    pub closed spec fn spec_service_id(&self) -> Seq<char> {
        self.service_id@
    }

    pub closed spec fn spec_ip_address(&self) -> Seq<char> {
        self.ip_address@
    }

    pub closed spec fn spec_testsuite_root(&self) -> Seq<char> {
        self.test_volume_mountpoint_on_testsuite_container@
    }

    pub closed spec fn spec_service_root(&self) -> Seq<char> {
        self.test_volume_mountpoint_on_service_container@
    }

    pub fn new(
        service_id: ServiceId,
        ip_address: String,
        test_volume_mountpoint_on_testsuite_container: String,
        test_volume_mountpoint_on_service_container: String,
    ) -> (r: ServiceContext)
        ensures
            r.spec_service_id() == service_id@,
            r.spec_ip_address() == ip_address@,
            r.spec_testsuite_root() == test_volume_mountpoint_on_testsuite_container@,
            r.spec_service_root() == test_volume_mountpoint_on_service_container@,
    {
        ServiceContext {
            service_id,
            ip_address,
            test_volume_mountpoint_on_testsuite_container,
            test_volume_mountpoint_on_service_container,
        }
    }

    pub fn get_service_id(&self) -> (r: ServiceId)
        ensures
            r@ == self.spec_service_id(),
    {
        self.service_id.clone()
    }

    pub fn get_ip_address(&self) -> (r: &String)
        ensures
            r@ == self.spec_ip_address(),
    {
        &self.ip_address
    }

    pub fn get_test_volume_mountpoint_on_testsuite_container(&self) -> (r: &String)
        ensures
            r@ == self.spec_testsuite_root(),
    {
        &self.test_volume_mountpoint_on_testsuite_container
    }

    pub fn get_test_volume_mountpoint_on_service_container(&self) -> (r: &String)
        ensures
            r@ == self.spec_service_root(),
    {
        &self.test_volume_mountpoint_on_service_container
    }

    /// The paths of the files `files_to_generate`, given the paths (relative to the shared
    /// volume's root) that the orchestrator placed them at. Fails on the first id for which it
    /// placed none.
    pub fn generated_file_filepaths(&self, files_to_generate: &Vec<String>, relative_filepaths: &StringTable) -> (r: Result<Vec<(String, GeneratedFileFilepaths)>, SuiteError>)
        requires
            relative_filepaths.wf(),
        ensures
            match r {
                Ok(paths) => {
                    &&& forall|i: int| 0 <= i < files_to_generate@.len() ==>
                        relative_filepaths@.contains_key(#[trigger] files_to_generate@[i]@)
                    &&& generated_paths_match(paths@, files_to_generate@, relative_filepaths@,
                        self.spec_testsuite_root(), self.spec_service_root())
                },
                Err(e) => exists|i: int| 0 <= i < files_to_generate@.len()
                    && !relative_filepaths@.contains_key(#[trigger] files_to_generate@[i]@)
                    && e.is_missing_generated_file(self.spec_service_id(), files_to_generate@[i]@),
            },
    {
        let mut paths: Vec<(String, GeneratedFileFilepaths)> = Vec::new();
        let mut i: usize = 0;
        while i < files_to_generate.len()
            invariant
                relative_filepaths.wf(),
                i <= files_to_generate@.len(),
                forall|j: int| 0 <= j < i ==> relative_filepaths@.contains_key(#[trigger] files_to_generate@[j]@),
                generated_paths_match(paths@, files_to_generate@.take(i as int), relative_filepaths@,
                    self.spec_testsuite_root(), self.spec_service_root()),
            decreases files_to_generate@.len() - i,
        {
            let file_id = &files_to_generate[i];
            match relative_filepaths.get(file_id) {
                Some(relative) => {
                    let on_testsuite = join(&self.test_volume_mountpoint_on_testsuite_container, relative);
                    let on_service = join(&self.test_volume_mountpoint_on_service_container, relative);
                    paths.push((file_id.clone(), GeneratedFileFilepaths {
                        absolute_filepath_on_testsuite_container: on_testsuite,
                        absolute_filepath_on_service_container: on_service,
                    }));
                },
                None => {
                    return Err(SuiteError::MissingGeneratedFile {
                        service_id: self.service_id.clone(),
                        file_id: file_id.clone(),
                    });
                },
            }
            i = i + 1;
        }
        assert(files_to_generate@.take(i as int) =~= files_to_generate@);
        Ok(paths)
    }
}

} // verus!
