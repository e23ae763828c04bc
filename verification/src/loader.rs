//! Finds the module that a container specification names and has the
//! runtime compile it.

use vstd::prelude::*;
use crate::error::{error_text, SetupError, SetupStep};
use crate::locate::{law_resolved_path_under_root, resolve_module_path, resolved_path};
use crate::spec::{ContainerSpec, ContainerSpecView};

verus! {

/// `wasmtime::Engine`: the configuration that modules are compiled and run
/// with.
#[verifier::external_type_specification]
#[verifier::external_body]
pub struct ExEngine(wasmtime::Engine);

/// `wasmtime::Module`: a compiled module.
#[verifier::external_type_specification]
#[verifier::external_body]
pub struct ExModule(wasmtime::Module);

/// A compiled module, with the path that it was read from.
pub struct ModuleArtifact {
    pub module: wasmtime::Module,
    pub path: String,
}

/// Cause of the failure that a container specification without arguments
/// gives.
pub const NO_ARGUMENTS: &'static str = "the container specification holds no process arguments";

/// The path of the module that a container specification names, where it
/// names one: its first argument, resolved against its root.
pub open spec fn module_path_of(spec: ContainerSpecView) -> Option<Seq<char>> {
    if spec.args.len() > 0 {
        Some(resolved_path(spec.root, spec.args[0]))
    } else {
        None
    }
}

/// `Module::from_file`: reads the file at `path` and compiles it for
/// `engine`. What comes back depends on what lies at `path`, so nothing is
/// said of it.
#[verifier::external_body]
fn compile_file(engine: &wasmtime::Engine, path: &str) -> (compiled: Result<
    wasmtime::Module,
    wasmtime::Error,
>) {
    wasmtime::Module::from_file(engine, path)
}

/// Resolves the path of the module that `spec` names. A container
/// specification without arguments names no module, which is a setup
/// failure.
pub fn locate_module(spec: &ContainerSpec) -> (located: Result<String, SetupError>)
    ensures
        match module_path_of(spec@) {
            Some(path) => located is Ok && located->Ok_0@ == path,
            None => located is Err && located->Err_0.step == SetupStep::ModulePath
                && located->Err_0.cause@ == NO_ARGUMENTS@,
        },
{
    if spec.args.len() == 0 {
        Err(SetupError { step: SetupStep::ModulePath, cause: NO_ARGUMENTS.to_owned() })
    } else {
        Ok(resolve_module_path(spec.root.as_str(), spec.args[0].as_str()))
    }
}

/// What the attempt to compile the file at `path` comes to: the artifact, or
/// a setup failure that carries the runtime's error as its cause.
pub fn conclude_load(path: String, compiled: Result<wasmtime::Module, wasmtime::Error>) -> (loaded:
    Result<ModuleArtifact, SetupError>)
    ensures
        match compiled {
            Ok(module) => loaded is Ok && loaded->Ok_0.module == module && loaded->Ok_0.path
                == path,
            Err(error) => loaded is Err && loaded->Err_0.step == SetupStep::ModuleLoad
                && loaded->Err_0.cause@ == error_text(error),
        },
{
    match compiled {
        Ok(module) => Ok(ModuleArtifact { module, path }),
        Err(error) => Err(SetupError::caused_by(SetupStep::ModuleLoad, &error)),
    }
}

/// Loads the module that `spec` names: resolves its path, then reads and
/// compiles the file there. The artifact keeps the resolved path, which lies
/// under the container's root.
pub fn load_module(engine: &wasmtime::Engine, spec: &ContainerSpec) -> (loaded: Result<
    ModuleArtifact,
    SetupError,
>)
    ensures
        match loaded {
            Ok(artifact) => module_path_of(spec@) == Some(artifact.path@)
                && spec@.root.is_prefix_of(artifact.path@),
            Err(failure) => match module_path_of(spec@) {
                Some(_) => failure.step == SetupStep::ModuleLoad && exists|error: wasmtime::Error|
                    failure.cause@ == error_text(error),
                None => failure.step == SetupStep::ModulePath && failure.cause@ == NO_ARGUMENTS@,
            },
        },
{
    let path = locate_module(spec)?;
    proof {
        law_resolved_path_under_root(spec@.root, spec@.args[0]);
    }
    let compiled = compile_file(engine, path.as_str());
    conclude_load(path, compiled)
}

} // verus!
