//! A client library for tests that run against a remote orchestrator of service containers.
//!
//! The library decides; its caller performs the exchanges. It keeps the registry of a test's
//! services (`network_context`, `registry`), sequences the addition of a service
//! (`add_service`), checks network topologies (`repartitioner`), bounds retries and readiness
//! polls (`retry`, `availability_checker`), and drives a test through its phases
//! (`lifecycle`).

pub mod add_service;
pub mod availability_checker;
pub mod container_creation_config;
pub mod container_run_config;
pub mod error;
pub mod executor;
pub mod lifecycle;
pub mod network_context;
pub mod registry;
pub mod repartitioner;
pub mod retry;
pub mod service;
pub mod service_context;
pub mod table;
pub mod test_configuration;
pub mod test_context;
