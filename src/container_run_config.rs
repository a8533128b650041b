use vstd::prelude::*;
use std::collections::HashMap;

verus! {

/// An optional argument list, as a sequence.
pub open spec fn args_view(a: Option<Vec<String>>) -> Option<Seq<String>> {
    match a {
        Some(v) => Some(v@),
        None => None,
    }
}

/// A copy of an optional argument list.
pub fn clone_args(a: &Option<Vec<String>>) -> (r: Option<Vec<String>>)
    ensures
        args_view(r) == args_view(*a),
{
    match a {
        Some(v) => {
            let c = v.clone();
            assert(c@ =~= v@);
            Some(c)
        },
        None => None,
    }
}

/// How a service's container is started, decided once its address and generated files are known.
pub struct ContainerRunConfig {
    entrypoint_override_args: Option<Vec<String>>,
    cmd_override_args: Option<Vec<String>>,
    environment_variable_overrides: HashMap<String, String>,
}

impl ContainerRunConfig {
    pub closed spec fn spec_entrypoint(&self) -> Option<Seq<String>> {
        args_view(self.entrypoint_override_args)
    }

    pub closed spec fn spec_cmd(&self) -> Option<Seq<String>> {
        args_view(self.cmd_override_args)
    }

    pub closed spec fn spec_env(&self) -> Map<String, String> {
        self.environment_variable_overrides@
    }

    pub fn get_entrypoint_override_args(&self) -> (r: &Option<Vec<String>>)
        ensures
            args_view(*r) == self.spec_entrypoint(),
    {
        &self.entrypoint_override_args
    }

    pub fn get_cmd_override_args(&self) -> (r: &Option<Vec<String>>)
        ensures
            args_view(*r) == self.spec_cmd(),
    {
        &self.cmd_override_args
    }

    pub fn get_environment_variable_overrides(&self) -> (r: &HashMap<String, String>)
        ensures
            r@ == self.spec_env(),
    {
        &self.environment_variable_overrides
    }
}

/// Collects the parts of a `ContainerRunConfig`; nothing is overridden unless asked.
pub struct ContainerRunConfigBuilder {
    entrypoint_override_args: Option<Vec<String>>,
    cmd_override_args: Option<Vec<String>>,
    environment_variable_overrides: HashMap<String, String>,
}

impl ContainerRunConfigBuilder {
    pub closed spec fn spec_entrypoint(&self) -> Option<Seq<String>> {
        args_view(self.entrypoint_override_args)
    }

    pub closed spec fn spec_cmd(&self) -> Option<Seq<String>> {
        args_view(self.cmd_override_args)
    }

    pub closed spec fn spec_env(&self) -> Map<String, String> {
        self.environment_variable_overrides@
    }

    pub fn new() -> (r: ContainerRunConfigBuilder)
        ensures
            r.spec_entrypoint() is None,
            r.spec_cmd() is None,
            r.spec_env() == Map::<String, String>::empty(),
    {
        ContainerRunConfigBuilder {
            entrypoint_override_args: None,
            cmd_override_args: None,
            environment_variable_overrides: HashMap::new(),
        }
    }

    pub fn with_entrypoint_override(&mut self, args: Vec<String>) -> (r: &mut ContainerRunConfigBuilder)
        ensures
            r.spec_entrypoint() == Some(args@),
            r.spec_cmd() == old(self).spec_cmd(),
            r.spec_env() == old(self).spec_env(),
            *final(self) == *final(r),
    {
        self.entrypoint_override_args = Some(args);
        self
    }

    pub fn with_cmd_override(&mut self, args: Vec<String>) -> (r: &mut ContainerRunConfigBuilder)
        ensures
            r.spec_cmd() == Some(args@),
            r.spec_entrypoint() == old(self).spec_entrypoint(),
            r.spec_env() == old(self).spec_env(),
            *final(self) == *final(r),
    {
        self.cmd_override_args = Some(args);
        self
    }

    pub fn with_environment_variable_overrides(&mut self, env_vars: HashMap<String, String>) -> (r: &mut ContainerRunConfigBuilder)
        ensures
            r.spec_env() == env_vars@,
            r.spec_entrypoint() == old(self).spec_entrypoint(),
            r.spec_cmd() == old(self).spec_cmd(),
            *final(self) == *final(r),
    {
        self.environment_variable_overrides = env_vars;
        self
    }

    pub fn build(&self) -> (r: ContainerRunConfig)
        ensures
            r.spec_entrypoint() == self.spec_entrypoint(),
            r.spec_cmd() == self.spec_cmd(),
            r.spec_env() == self.spec_env(),
    {
        ContainerRunConfig {
            entrypoint_override_args: clone_args(&self.entrypoint_override_args),
            cmd_override_args: clone_args(&self.cmd_override_args),
            environment_variable_overrides: self.environment_variable_overrides.clone(),
        }
    }
}

} // verus!
