use vstd::prelude::*;

verus! {

/// Every way in which an operation of this library can fail.
#[derive(Clone, Debug, PartialEq, Eq)]
pub enum SuiteError {
    /// The orchestrator could not be reached after the allowed attempts.
    Connection { endpoint: String, attempts: u32, interval_millis: u64 },
    /// A registration call to the orchestrator failed.
    Registration { operation: String, service_id: String, cause: String },
    /// A service id that this network already used (live or removed) was offered again.
    ServiceIdInUse { service_id: String },
    /// A service's configuration is inconsistent with the network (an unknown artifact id,
    /// an invalid topology, or a generated file the orchestrator did not place).
    Configuration { service_id: String, detail: String },
    /// The orchestrator placed no file for a generated-file id that was asked for.
    MissingGeneratedFile { service_id: String, file_id: String },
    /// A generated file could not be written.
    FileIo { service_id: String, file_id: String, cause: String },
    /// A service never reported itself ready.
    AvailabilityTimeout { service_id: String, max_polls: u32, poll_interval_millis: u64 },
    /// No live service has the given id.
    ServiceNotFound { service_id: String },
    /// The test's own code signalled a failed assertion or returned an error.
    TestAssertionFailure { message: String },
    /// The test's code faulted unexpectedly; the fault was caught.
    InternalFault { cause: String },
}

impl SuiteError {
    pub open spec fn is_service_id_in_use(self, id: Seq<char>) -> bool {
        match self {
            SuiteError::ServiceIdInUse { service_id } => service_id@ == id,
            _ => false,
        }
    }

    pub open spec fn is_service_not_found(self, id: Seq<char>) -> bool {
        match self {
            SuiteError::ServiceNotFound { service_id } => service_id@ == id,
            _ => false,
        }
    }

    pub open spec fn is_missing_generated_file(self, id: Seq<char>, file: Seq<char>) -> bool {
        match self {
            SuiteError::MissingGeneratedFile { service_id, file_id } => service_id@ == id && file_id@ == file,
            _ => false,
        }
    }

    pub open spec fn is_configuration(self, id: Seq<char>) -> bool {
        match self {
            SuiteError::Configuration { service_id, .. } => service_id@ == id,
            _ => false,
        }
    }
}

} // verus!
