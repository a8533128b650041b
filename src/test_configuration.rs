use vstd::prelude::*;
use crate::table::{StringTable, Table};

verus! {

pub const DEFAULT_SETUP_TIMEOUT_SECONDS: u32 = 60;
pub const DEFAULT_RUN_TIMEOUT_SECONDS: u32 = 60;
pub const DEFAULT_IS_PARTITIONING_ENABLED: bool = false;

/// How one test runs: its phase timeouts, whether it may repartition its network, and the
/// artifacts it may mount (artifact id to URL).
pub struct TestConfiguration {
    pub test_setup_timeout_seconds: u32,
    pub test_run_timeout_seconds: u32,
    pub is_partitioning_enabled: bool,
    pub files_artifact_urls: StringTable,
}

/// Collects a `TestConfiguration`, starting from the defaults.
pub struct TestConfigurationBuilder {
    setup_timeout_seconds: u32,
    run_timeout_seconds: u32,
    is_partitioning_enabled: bool,
    files_artifact_urls: StringTable,
}

impl TestConfigurationBuilder {
    pub closed spec fn spec_setup_timeout(&self) -> u32 {
        self.setup_timeout_seconds
    }

    pub closed spec fn spec_run_timeout(&self) -> u32 {
        self.run_timeout_seconds
    }

    pub closed spec fn spec_partitioning(&self) -> bool {
        self.is_partitioning_enabled
    }

    pub closed spec fn spec_urls(&self) -> StringTable {
        self.files_artifact_urls
    }

    pub open spec fn wf(&self) -> bool {
        self.spec_urls().wf()
    }

    pub fn new_test_configuration_builder() -> (r: TestConfigurationBuilder)
        ensures
            r.wf(),
            r.spec_setup_timeout() == DEFAULT_SETUP_TIMEOUT_SECONDS,
            r.spec_run_timeout() == DEFAULT_RUN_TIMEOUT_SECONDS,
            r.spec_partitioning() == DEFAULT_IS_PARTITIONING_ENABLED,
            r.spec_urls()@.dom().len() == 0,
    {
        TestConfigurationBuilder {
            setup_timeout_seconds: DEFAULT_SETUP_TIMEOUT_SECONDS,
            run_timeout_seconds: DEFAULT_RUN_TIMEOUT_SECONDS,
            is_partitioning_enabled: DEFAULT_IS_PARTITIONING_ENABLED,
            files_artifact_urls: Table::new(),
        }
    }

    pub fn with_setup_timeout_seconds(&mut self, setup_timeout_seconds: u32) -> (r: &mut TestConfigurationBuilder)
        ensures
            r.spec_setup_timeout() == setup_timeout_seconds,
            r.spec_run_timeout() == old(self).spec_run_timeout(),
            r.spec_partitioning() == old(self).spec_partitioning(),
            r.spec_urls() == old(self).spec_urls(),
            *final(self) == *final(r),
    {
        self.setup_timeout_seconds = setup_timeout_seconds;
        self
    }

    pub fn with_run_timeout_seconds(&mut self, run_timeout_seconds: u32) -> (r: &mut TestConfigurationBuilder)
        ensures
            r.spec_run_timeout() == run_timeout_seconds,
            r.spec_setup_timeout() == old(self).spec_setup_timeout(),
            r.spec_partitioning() == old(self).spec_partitioning(),
            r.spec_urls() == old(self).spec_urls(),
            *final(self) == *final(r),
    {
        self.run_timeout_seconds = run_timeout_seconds;
        self
    }

    pub fn with_partitioning_enabled(&mut self, is_partitioning_enabled: bool) -> (r: &mut TestConfigurationBuilder)
        ensures
            r.spec_partitioning() == is_partitioning_enabled,
            r.spec_setup_timeout() == old(self).spec_setup_timeout(),
            r.spec_run_timeout() == old(self).spec_run_timeout(),
            r.spec_urls() == old(self).spec_urls(),
            *final(self) == *final(r),
    {
        self.is_partitioning_enabled = is_partitioning_enabled;
        self
    }

    pub fn with_files_artifact_urls(&mut self, files_artifact_urls: StringTable) -> (r: &mut TestConfigurationBuilder)
        requires
            files_artifact_urls.wf(),
        ensures
            r.wf(),
            r.spec_urls() == files_artifact_urls,
            r.spec_setup_timeout() == old(self).spec_setup_timeout(),
            r.spec_run_timeout() == old(self).spec_run_timeout(),
            r.spec_partitioning() == old(self).spec_partitioning(),
            *final(self) == *final(r),
    {
        self.files_artifact_urls = files_artifact_urls;
        self
    }

    /// The configuration collected so far.
    pub fn build(self) -> (r: TestConfiguration)
        ensures
            r.test_setup_timeout_seconds == self.spec_setup_timeout(),
            r.test_run_timeout_seconds == self.spec_run_timeout(),
            r.is_partitioning_enabled == self.spec_partitioning(),
            r.files_artifact_urls == self.spec_urls(),
    {
        TestConfiguration {
            test_setup_timeout_seconds: self.setup_timeout_seconds,
            test_run_timeout_seconds: self.run_timeout_seconds,
            is_partitioning_enabled: self.is_partitioning_enabled,
            files_artifact_urls: self.files_artifact_urls,
        }
    }
}

/// What the orchestrator learns of a test before any test runs.
pub struct TestMetadata {
    pub is_partitioning_enabled: bool,
    /// Each artifact URL that the test may mount, once.
    pub used_artifact_urls: Vec<String>,
    pub test_setup_timeout_in_seconds: u32,
    pub test_run_timeout_in_seconds: u32,
}

/// The URLs of the artifacts that `urls` declares.
pub open spec fn url_set(urls: Map<Seq<char>, String>) -> Set<Seq<char>> {
    Set::new(|u: Seq<char>| exists|k: Seq<char>| urls.contains_key(k) && #[trigger] urls[k]@ == u)
}

/// Whether `s` is in `v`.
fn contains_string(v: &Vec<String>, s: &String) -> (r: bool)
    ensures
        r == exists|i: int| 0 <= i < v@.len() && #[trigger] v@[i]@ == s@,
{
    let mut i: usize = 0;
    while i < v.len()
        invariant
            i <= v@.len(),
            forall|j: int| 0 <= j < i ==> v@[j]@ != s@,
        decreases v@.len() - i,
    {
        if v[i] == *s {
            return true;
        }
        i = i + 1;
    }
    false
}

/// Whether some string of `v` reads `u`.
pub open spec fn holds_string(v: Seq<String>, u: Seq<char>) -> bool {
    exists|b: int| 0 <= b < v.len() && #[trigger] v[b]@ == u
}

/// Whether one of the first `n` entries of `es` has value `u`.
spec fn holds_value(es: Seq<(String, String)>, n: int, u: Seq<char>) -> bool {
    exists|a: int| 0 <= a < n && #[trigger] es[a].1@ == u
}

impl TestMetadata {
    /// The metadata of a test with configuration `config`.
    pub fn from_configuration(config: &TestConfiguration) -> (r: TestMetadata)
        requires
            config.files_artifact_urls.wf(),
        ensures
            r.is_partitioning_enabled == config.is_partitioning_enabled,
            r.test_setup_timeout_in_seconds == config.test_setup_timeout_seconds,
            r.test_run_timeout_in_seconds == config.test_run_timeout_seconds,
            forall|u: Seq<char>| url_set(config.files_artifact_urls@).contains(u) <==> holds_string(r.used_artifact_urls@, u),
            forall|i: int, j: int| 0 <= i < j < r.used_artifact_urls@.len() ==>
                r.used_artifact_urls@[i]@ != r.used_artifact_urls@[j]@,
    {
        let urls = &config.files_artifact_urls;
        let ghost es = urls.entry_seq();
        let mut used: Vec<String> = Vec::new();
        let mut i: usize = 0;
        while i < urls.len()
            invariant
                urls.wf(),
                es == urls.entry_seq(),
                i <= es.len(),
                forall|a: int| 0 <= a < i ==> holds_string(used@, (#[trigger] es[a]).1@),
                forall|b: int| 0 <= b < used@.len() ==> holds_value(es, i as int, (#[trigger] used@[b])@),
                forall|x: int, y: int| 0 <= x < y < used@.len() ==> used@[x]@ != used@[y]@,
            decreases es.len() - i,
        {
            let (_, url) = urls.entry(i);
            let ghost prev = used@;
            if !contains_string(&used, url) {
                used.push(url.clone());
                assert(used@[used@.len() - 1]@ == es[i as int].1@);
                assert forall|a: int| 0 <= a < i implies holds_string(used@, (#[trigger] es[a]).1@) by {
                    let b = choose|b: int| 0 <= b < prev.len() && #[trigger] prev[b]@ == es[a].1@;
                    assert(used@[b]@ == es[a].1@);
                }
            }
            assert(holds_string(used@, es[i as int].1@));
            assert forall|b: int| 0 <= b < used@.len() implies holds_value(es, i + 1, (#[trigger] used@[b])@) by {
                if b < prev.len() {
                    assert(used@[b] == prev[b]);
                    assert(holds_value(es, i as int, prev[b]@));
                    let a = choose|a: int| 0 <= a < i && #[trigger] es[a].1@ == prev[b]@;
                    assert(es[a].1@ == used@[b]@);
                } else {
                    assert(es[i as int].1@ == used@[b]@);
                }
            }
            i = i + 1;
        }
        assert forall|u: Seq<char>| url_set(urls@).contains(u) <==> holds_string(used@, u) by {
            if url_set(urls@).contains(u) {
                let k = choose|k: Seq<char>| urls@.contains_key(k) && #[trigger] urls@[k]@ == u;
                let a = choose|a: int| 0 <= a < es.len() && #[trigger] es[a].0@ == k;
                assert(es[a].1@ == u);
                assert(holds_string(used@, es[a].1@));
            }
            if holds_string(used@, u) {
                let b = choose|b: int| 0 <= b < used@.len() && #[trigger] used@[b]@ == u;
                assert(holds_value(es, i as int, used@[b]@));
                let a = choose|a: int| 0 <= a < i && #[trigger] es[a].1@ == used@[b]@;
                assert(urls@.contains_key(es[a].0@));
                assert(urls@[es[a].0@]@ == u);
            }
        }
        TestMetadata {
            is_partitioning_enabled: config.is_partitioning_enabled,
            used_artifact_urls: used,
            test_setup_timeout_in_seconds: config.test_setup_timeout_seconds,
            test_run_timeout_in_seconds: config.test_run_timeout_seconds,
        }
    }
}

} // verus!
