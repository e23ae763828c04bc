//! The executor: the one strategy by which a container runtime has a
//! workload run as a WebAssembly module.

use vstd::prelude::*;
use crate::context::{build_context, sandbox_for, SandboxContext, StdioHandles};
use crate::dispatch::{can_handle, handles};
use crate::engine::{has_entry, is_engine_step, run, ENTRY_POINT};
use crate::error::{error_text, BridgeError, SetupError, SetupStep};
use crate::loader::{load_module, module_path_of, ModuleArtifact, NO_ARGUMENTS};
use crate::outcome::ExecutionOutcome;
use crate::spec::ContainerSpec;

verus! {

/// The name under which the executor is known to the container runtime.
pub const EXECUTOR_NAME: &'static str = "wasmtime";

/// Runs workloads with the engine that it holds.
pub struct WasmtimeExecutor {
    pub engine: wasmtime::Engine,
}

/// What the preparation phase hands to the engine: the sandbox and the
/// compiled module of one execution attempt.
pub struct Prepared {
    pub context: SandboxContext,
    pub artifact: ModuleArtifact,
}

/// Whether `failure` is one that the preparation of `spec` can end in: the
/// root directory could not be granted, the container specification names
/// no module, or the module could not be loaded.
pub open spec fn is_preparation_failure(
    spec: crate::spec::ContainerSpecView,
    failure: SetupError,
) -> bool {
    ||| failure.step == SetupStep::RootDirectory && exists|error: wasmtime::Error|
        failure.cause@ == error_text(error)
    ||| failure.step == SetupStep::ModulePath && module_path_of(spec) is None && failure.cause@
        == NO_ARGUMENTS@
    ||| failure.step == SetupStep::ModuleLoad && module_path_of(spec) is Some && exists|
        error: wasmtime::Error,
    | failure.cause@ == error_text(error)
}

impl WasmtimeExecutor {
    /// An executor that runs workloads with `engine`.
    pub fn new(engine: wasmtime::Engine) -> (executor: WasmtimeExecutor)
        ensures
            executor.engine == engine,
    {
        WasmtimeExecutor { engine }
    }

    /// The executor's name.
    pub fn name(&self) -> (name: &'static str)
        ensures
            name@ == EXECUTOR_NAME@,
    {
        EXECUTOR_NAME
    }

    /// Whether this executor is the one to run the workload that `spec`
    /// describes.
    pub fn can_handle(&self, spec: &ContainerSpec) -> (handled: bool)
        ensures
            handled == handles(spec@.annotations),
    {
        can_handle(spec)
    }

    /// The preparation phase: builds the sandbox that `spec` and the
    /// resolved streams call for, then loads the module that `spec` names.
    /// No code of the module has run when it returns.
    pub fn prepare(&self, spec: &ContainerSpec, stdio: StdioHandles) -> (prepared: Result<
        Prepared,
        SetupError,
    >)
        ensures
            match prepared {
                Ok(ready) => ready.context@ == sandbox_for(spec@, stdio) && module_path_of(spec@)
                    == Some(ready.artifact.path@),
                Err(failure) => is_preparation_failure(spec@, failure),
            },
    {
        let context = build_context(spec, stdio)?;
        let artifact = load_module(&self.engine, spec)?;
        Ok(Prepared { context, artifact })
    }

    /// The execution phase: runs the prepared module in its sandbox and
    /// reports the outcome. An outcome is reported only of a module that
    /// exports the entry point; the failure that names the missing export is
    /// returned only of one that lacks it.
    pub fn exec(&self, prepared: Prepared) -> (ended: Result<ExecutionOutcome, BridgeError>)
        ensures
            match ended {
                Ok(outcome) => has_entry(prepared.artifact.module) && (outcome is Failure
                    ==> exists|error: wasmtime::Error| outcome->Failure_0@ == error_text(error)),
                Err(BridgeError::Setup(failure)) => is_engine_step(failure.step) && exists|
                    error: wasmtime::Error,
                | failure.cause@ == error_text(error),
                Err(BridgeError::InvalidArgument(name)) => !has_entry(prepared.artifact.module)
                    && name@ == ENTRY_POINT@,
                Err(BridgeError::Declined) => false,
            },
    {
        let Prepared { context, artifact } = prepared;
        run(&self.engine, &artifact, context)
    }

    /// One execution attempt from end to end: the dispatch decision gates
    /// the attempt, the preparation phase follows, and the engine runs what
    /// was prepared. A workload that is declined is neither prepared nor
    /// run, and a failed preparation runs nothing.
    pub fn launch(&self, spec: &ContainerSpec, stdio: StdioHandles) -> (ended: Result<
        ExecutionOutcome,
        BridgeError,
    >)
        ensures
            !handles(spec@.annotations) <==> ended == Err::<ExecutionOutcome, BridgeError>(
                BridgeError::Declined,
            ),
            match ended {
                Ok(outcome) => module_path_of(spec@) is Some && (outcome is Failure ==> exists|
                    error: wasmtime::Error,
                | outcome->Failure_0@ == error_text(error)),
                Err(BridgeError::Setup(failure)) => is_preparation_failure(spec@, failure) || (
                module_path_of(spec@) is Some && is_engine_step(failure.step) && exists|
                    error: wasmtime::Error,
                | failure.cause@ == error_text(error)),
                Err(BridgeError::InvalidArgument(name)) => module_path_of(spec@) is Some && name@
                    == ENTRY_POINT@,
                Err(BridgeError::Declined) => true,
            },
    {
        if !self.can_handle(spec) {
            return Err(BridgeError::Declined);
        }
        let prepared = match self.prepare(spec, stdio) {
            Ok(prepared) => prepared,
            Err(failure) => {
                return Err(BridgeError::Setup(failure));
            },
        };
        self.exec(prepared)
    }
}

} // verus!
