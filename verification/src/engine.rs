//! Runs a compiled module in its sandbox and reports how that ended.

use vstd::prelude::*;
use crate::context::SandboxContext;
use crate::error::{error_text, describe_error, BridgeError, SetupError, SetupStep};
use crate::loader::ModuleArtifact;
use crate::outcome::ExecutionOutcome;

verus! {

/// `wasmtime::Store`: the state of one execution, and the owner of what is
/// instantiated in it.
#[verifier::external_type_specification]
#[verifier::external_body]
#[verifier::reject_recursive_types(T)]
pub struct ExStore<T: 'static>(wasmtime::Store<T>);

/// `wasmtime::Linker`: the imports that modules are instantiated with.
#[verifier::external_type_specification]
#[verifier::external_body]
#[verifier::reject_recursive_types(T)]
pub struct ExLinker<T>(wasmtime::Linker<T>);

/// `wasmtime::Instance`: an instantiated module.
#[verifier::external_type_specification]
#[verifier::external_body]
pub struct ExInstance(wasmtime::Instance);

/// `wasmtime::Func`: a function of an instance.
#[verifier::external_type_specification]
#[verifier::external_body]
pub struct ExFunc(wasmtime::Func);

/// Name of the export that the engine invokes: a function that takes and
/// returns nothing.
pub const ENTRY_POINT: &'static str = "_start";

/// What ties a linker to the rest of the runtime.
pub ghost struct LinkerTies {
    /// The engine that the linker was made for.
    pub engine: wasmtime::Engine,
    /// Whether the linker holds an item that belongs to a store.
    pub holds_store_items: bool,
}

/// What tells one store from another.
pub ghost struct StoreTies {
    /// The engine that the store was made for.
    pub engine: wasmtime::Engine,
    /// The store's own identity.
    pub id: int,
}

/// The engine of a linker, and whether it holds items of a store.
pub uninterp spec fn linker_ties(
    linker: wasmtime::Linker<wasmtime_wasi::p1::WasiP1Ctx>,
) -> LinkerTies;

/// The engine and the identity of a store.
pub uninterp spec fn store_ties(store: wasmtime::Store<wasmtime_wasi::p1::WasiP1Ctx>) -> StoreTies;

/// What ties an instance to the rest of the runtime.
pub ghost struct InstanceTies {
    /// The identity of the store that owns the instance.
    pub owner: int,
    /// The module that the instance was made of.
    pub module: wasmtime::Module,
}

/// The store that owns an instance, and the module that it was made of.
pub uninterp spec fn instance_ties(instance: wasmtime::Instance) -> InstanceTies;

/// The names under which a module exports a function.
pub uninterp spec fn exported_funcs(module: wasmtime::Module) -> Set<Seq<char>>;

/// Whether a module exports the entry point: a function named
/// [`ENTRY_POINT`].
pub open spec fn has_entry(module: wasmtime::Module) -> bool {
    exported_funcs(module).contains(ENTRY_POINT@)
}

/// The identity of the store that owns a function.
pub uninterp spec fn func_owner(func: wasmtime::Func) -> int;

/// `Linker::new`: an empty linker for `engine`.
#[verifier::external_body]
fn new_linker(engine: &wasmtime::Engine) -> (linker: wasmtime::Linker<
    wasmtime_wasi::p1::WasiP1Ctx,
>)
    ensures
        linker_ties(linker) == (LinkerTies { engine: *engine, holds_store_items: false }),
{
    wasmtime::Linker::new(engine)
}

/// `wasmtime_wasi::p1::add_to_linker_sync`: defines the sandbox's
/// capabilities in the linker as functions of the host, which belong to no
/// store. The linker's engine stays.
#[verifier::external_body]
fn bind_capabilities(linker: &mut wasmtime::Linker<wasmtime_wasi::p1::WasiP1Ctx>) -> (bound:
    Result<(), wasmtime::Error>)
    ensures
        linker_ties(*final(linker)) == linker_ties(*old(linker)),
{
    wasmtime_wasi::p1::add_to_linker_sync(linker, |context| context)
}

/// `Store::try_new`: a store for `engine` that holds `context`.
#[verifier::external_body]
fn new_store(engine: &wasmtime::Engine, context: wasmtime_wasi::p1::WasiP1Ctx) -> (made: Result<
    wasmtime::Store<wasmtime_wasi::p1::WasiP1Ctx>,
    wasmtime::Error,
>)
    ensures
        made is Ok ==> store_ties(made->Ok_0).engine == *engine,
{
    wasmtime::Store::try_new(engine, context)
}

/// `Linker::instantiate`: instantiates `module` in `store` with the imports
/// that `linker` defines; the instance belongs to `store` and is one of
/// `module`. The call panics where linker and store are of different
/// engines, or where the linker holds an item of another store: `requires`
/// leaves both out.
#[verifier::external_body]
fn instantiate(
    linker: &wasmtime::Linker<wasmtime_wasi::p1::WasiP1Ctx>,
    store: &mut wasmtime::Store<wasmtime_wasi::p1::WasiP1Ctx>,
    module: &wasmtime::Module,
) -> (made: Result<wasmtime::Instance, wasmtime::Error>)
    requires
        linker_ties(*linker).engine == store_ties(*old(store)).engine,
        !linker_ties(*linker).holds_store_items,
    ensures
        store_ties(*final(store)) == store_ties(*old(store)),
        made is Ok ==> instance_ties(made->Ok_0) == (InstanceTies {
            owner: store_ties(*old(store)).id,
            module: *module,
        }),
{
    linker.instantiate(store, module)
}

/// `Instance::get_func`: the function that the instance exports under
/// `name`; `None` where it exports nothing of that name, or something that
/// is no function. The exports of an instance are those of its module, so a
/// function is found exactly where the module exports one under `name`. The
/// function belongs to the instance's store. The call panics where `store`
/// does not own the instance, which `requires` leaves out.
#[verifier::external_body]
fn exported_func(
    instance: &wasmtime::Instance,
    store: &mut wasmtime::Store<wasmtime_wasi::p1::WasiP1Ctx>,
    name: &str,
) -> (found: Option<wasmtime::Func>)
    requires
        instance_ties(*instance).owner == store_ties(*old(store)).id,
    ensures
        store_ties(*final(store)) == store_ties(*old(store)),
        found is Some <==> exported_funcs(instance_ties(*instance).module).contains(name@),
        found is Some ==> func_owner(found->Some_0) == store_ties(*old(store)).id,
{
    instance.get_func(store, name)
}

/// `Func::call`, without arguments and without room for results: runs the
/// function until it returns, traps or fails. A function that takes or
/// returns something is not run; the call fails. The call panics where
/// `store` does not own the function, which `requires` leaves out. It
/// returns when the module does, and the sandbox's capabilities block the
/// calling thread while they work: the caller must not be a task of an
/// asynchronous runtime.
#[verifier::external_body]
fn call_without_values(
    func: &wasmtime::Func,
    store: &mut wasmtime::Store<wasmtime_wasi::p1::WasiP1Ctx>,
) -> (called: Result<(), wasmtime::Error>)
    requires
        func_owner(*func) == store_ties(*old(store)).id,
    ensures
        store_ties(*final(store)) == store_ties(*old(store)),
{
    func.call(store, &[], &mut [])
}

/// The entry point, where the module exports it; else the failure that
/// names the export that is missing.
pub fn require_entry(found: Option<wasmtime::Func>) -> (entry: Result<wasmtime::Func, BridgeError>)
    ensures
        match found {
            Some(func) => entry == Ok::<wasmtime::Func, BridgeError>(func),
            None => entry is Err && entry->Err_0 is InvalidArgument
                && entry->Err_0->InvalidArgument_0@ == ENTRY_POINT@,
        },
{
    match found {
        Some(func) => Ok(func),
        None => Err(BridgeError::InvalidArgument(ENTRY_POINT.to_owned())),
    }
}

/// What the invocation of the entry point comes to: success where it
/// returned, failure, with the runtime's words, where it trapped or failed.
pub fn conclude_call(called: Result<(), wasmtime::Error>) -> (outcome: ExecutionOutcome)
    ensures
        match called {
            Ok(_) => outcome is Success,
            Err(error) => outcome is Failure && outcome->Failure_0@ == error_text(error),
        },
{
    match called {
        Ok(_) => ExecutionOutcome::Success,
        Err(error) => ExecutionOutcome::Failure(describe_error(&error)),
    }
}

/// Whether `step` is one of the steps at which `run` can fail.
pub open spec fn is_engine_step(step: SetupStep) -> bool {
    step == SetupStep::Link || step == SetupStep::Store || step == SetupStep::Instantiate
}

/// Runs `artifact`'s module in the sandbox that `context` holds: binds the
/// sandbox's capabilities into a fresh linker, seeds a fresh store with the
/// context, instantiates the module, finds its entry point and invokes it.
///
/// The context is used up. Whether the module links, instantiates and
/// returns from its entry point is the module's matter; the result says
/// which of these it was. An outcome is reported only of a module that
/// exports the entry point. One that lacks it is never run: unless a setup
/// step failed before the entry point was looked for, the result is the
/// failure that names the missing export, and that failure is returned of no
/// other module. An outcome is returned, not acted on: ending the process is
/// the caller's decision. The call lasts as long as the module runs, and is
/// to be made from a thread that is no task of an asynchronous runtime.
pub fn run(engine: &wasmtime::Engine, artifact: &ModuleArtifact, context: SandboxContext) -> (ended:
    Result<ExecutionOutcome, BridgeError>)
    ensures
        match ended {
            Ok(outcome) => has_entry(artifact.module) && (outcome is Failure ==> exists|
                error: wasmtime::Error,
            | outcome->Failure_0@ == error_text(error)),
            Err(BridgeError::Setup(failure)) => is_engine_step(failure.step) && exists|
                error: wasmtime::Error,
            | failure.cause@ == error_text(error),
            Err(BridgeError::InvalidArgument(name)) => !has_entry(artifact.module) && name@
                == ENTRY_POINT@,
            Err(BridgeError::Declined) => false,
        },
{
    let mut linker = new_linker(engine);
    if let Err(error) = bind_capabilities(&mut linker) {
        return Err(BridgeError::Setup(SetupError::caused_by(SetupStep::Link, &error)));
    }
    let mut store = match new_store(engine, context.context) {
        Ok(store) => store,
        Err(error) => {
            return Err(BridgeError::Setup(SetupError::caused_by(SetupStep::Store, &error)));
        },
    };
    let instance = match instantiate(&linker, &mut store, &artifact.module) {
        Ok(instance) => instance,
        Err(error) => {
            return Err(BridgeError::Setup(SetupError::caused_by(SetupStep::Instantiate, &error)));
        },
    };
    let found = exported_func(&instance, &mut store, ENTRY_POINT);
    let entry = require_entry(found)?;
    let called = call_without_values(&entry, &mut store);
    Ok(conclude_call(called))
}

} // verus!
