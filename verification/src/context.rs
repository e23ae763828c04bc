//! Builds the sandbox in which a module runs: its arguments, its
//! environment, the one directory it may reach and its standard streams.

use vstd::prelude::*;
use crate::environ::{split_entries, variables};
use crate::error::{error_text, SetupError, SetupStep};
use crate::spec::{texts, ContainerSpec};

verus! {

/// `wasmtime_wasi::WasiCtxBuilder`: collects what a sandbox is to be made of.
#[verifier::external_type_specification]
#[verifier::external_body]
pub struct ExWasiCtxBuilder(wasmtime_wasi::WasiCtxBuilder);

/// `wasmtime_wasi::p1::WasiP1Ctx`: a finished sandbox.
#[verifier::external_type_specification]
#[verifier::external_body]
pub struct ExWasiP1Ctx(wasmtime_wasi::p1::WasiP1Ctx);

/// `wasmtime_wasi::cli::InputFile`: an open file that a sandbox reads its
/// standard input from.
#[verifier::external_type_specification]
#[verifier::external_body]
pub struct ExInputFile(wasmtime_wasi::cli::InputFile);

/// `wasmtime_wasi::cli::OutputFile`: an open file that a sandbox writes a
/// standard stream to.
#[verifier::external_type_specification]
#[verifier::external_body]
pub struct ExOutputFile(wasmtime_wasi::cli::OutputFile);

/// A directory of the host that the sandbox may reach, under the name by
/// which the module sees it. Directories and files in it may be read and
/// changed.
pub ghost struct Grant {
    pub host: Seq<char>,
    pub guest: Seq<char>,
}

/// What a sandbox is made of.
pub ghost struct Sandbox {
    /// The arguments that the module sees, in order.
    pub args: Seq<Seq<char>>,
    /// The environment that the module sees, key and value, in order.
    pub env: Seq<(Seq<char>, Seq<char>)>,
    /// The directories that the module may reach, in order.
    pub grants: Seq<Grant>,
    /// The file that standard input reads, where it is overridden.
    pub stdin: Option<wasmtime_wasi::cli::InputFile>,
    /// The file that standard output writes, where it is overridden.
    pub stdout: Option<wasmtime_wasi::cli::OutputFile>,
    /// The file that standard error writes, where it is overridden.
    pub stderr: Option<wasmtime_wasi::cli::OutputFile>,
    /// Whether a context has been built from the builder already.
    pub spent: bool,
}

/// The sandbox that a builder has been told to make so far.
pub uninterp spec fn builder_sandbox(builder: wasmtime_wasi::WasiCtxBuilder) -> Sandbox;

/// The sandbox that a finished context holds.
pub uninterp spec fn context_sandbox(context: wasmtime_wasi::p1::WasiP1Ctx) -> Sandbox;

/// A sandbox with no arguments, no environment, no directory and every
/// standard stream at its default.
pub open spec fn bare_sandbox() -> Sandbox {
    Sandbox {
        args: Seq::empty(),
        env: Seq::empty(),
        grants: Seq::empty(),
        stdin: None,
        stdout: None,
        stderr: None,
        spent: false,
    }
}

/// Key and value of each pair, in order.
pub open spec fn pair_texts(pairs: Seq<(String, String)>) -> Seq<(Seq<char>, Seq<char>)> {
    Seq::new(pairs.len(), |i: int| (pairs[i].0@, pairs[i].1@))
}

/// `WasiCtxBuilder::new`: a builder whose sandbox has no arguments, no
/// environment and no directory, with the standard streams at their defaults
/// (input closed, output discarded), and from which nothing was built yet.
#[verifier::external_body]
fn new_builder() -> (builder: wasmtime_wasi::WasiCtxBuilder)
    ensures
        builder_sandbox(builder) == bare_sandbox(),
{
    wasmtime_wasi::WasiCtxBuilder::new()
}

/// `WasiCtxBuilder::args`: appends `args` to the builder's arguments, in
/// order, and leaves the rest of the sandbox as it was.
#[verifier::external_body]
fn add_args(builder: &mut wasmtime_wasi::WasiCtxBuilder, args: &Vec<String>)
    ensures
        builder_sandbox(*final(builder)) == (Sandbox {
            args: builder_sandbox(*old(builder)).args + texts(args@),
            ..builder_sandbox(*old(builder))
        }),
{
    builder.args(args.as_slice());
}

/// `WasiCtxBuilder::envs`: appends `pairs` to the builder's environment, in
/// order and without looking for keys that occur twice, and leaves the rest
/// of the sandbox as it was.
#[verifier::external_body]
fn add_envs(builder: &mut wasmtime_wasi::WasiCtxBuilder, pairs: &Vec<(String, String)>)
    ensures
        builder_sandbox(*final(builder)) == (Sandbox {
            env: builder_sandbox(*old(builder)).env + pair_texts(pairs@),
            ..builder_sandbox(*old(builder))
        }),
{
    builder.envs(pairs.as_slice());
}

/// `WasiCtxBuilder::preopened_dir`, with every permission on directories and
/// on files: opens the directory `host` and appends it to the builder's
/// directories under the name `guest`. Where the directory cannot be opened
/// the builder stays as it was and the error says why.
#[verifier::external_body]
fn grant_dir(builder: &mut wasmtime_wasi::WasiCtxBuilder, host: &str, guest: &str) -> (granted:
    Result<(), wasmtime::Error>)
    ensures
        granted is Ok ==> builder_sandbox(*final(builder)) == (Sandbox {
            grants: builder_sandbox(*old(builder)).grants.push(
                Grant { host: host@, guest: guest@ },
            ),
            ..builder_sandbox(*old(builder))
        }),
        granted is Err ==> builder_sandbox(*final(builder)) == builder_sandbox(*old(builder)),
{
    let dirs = wasmtime_wasi::DirPerms::all();
    let files = wasmtime_wasi::FilePerms::all();
    builder.preopened_dir(host, guest, dirs, files).map(|_| ())
}

/// `WasiCtxBuilder::stdin`: makes `file` the sandbox's standard input and
/// leaves the rest of the sandbox as it was.
#[verifier::external_body]
fn set_stdin(builder: &mut wasmtime_wasi::WasiCtxBuilder, file: wasmtime_wasi::cli::InputFile)
    ensures
        builder_sandbox(*final(builder)) == (Sandbox {
            stdin: Some(file),
            ..builder_sandbox(*old(builder))
        }),
{
    builder.stdin(file);
}

/// `WasiCtxBuilder::stdout`: makes `file` the sandbox's standard output and
/// leaves the rest of the sandbox as it was.
#[verifier::external_body]
fn set_stdout(builder: &mut wasmtime_wasi::WasiCtxBuilder, file: wasmtime_wasi::cli::OutputFile)
    ensures
        builder_sandbox(*final(builder)) == (Sandbox {
            stdout: Some(file),
            ..builder_sandbox(*old(builder))
        }),
{
    builder.stdout(file);
}

/// `WasiCtxBuilder::stderr`: makes `file` the sandbox's standard error and
/// leaves the rest of the sandbox as it was.
#[verifier::external_body]
fn set_stderr(builder: &mut wasmtime_wasi::WasiCtxBuilder, file: wasmtime_wasi::cli::OutputFile)
    ensures
        builder_sandbox(*final(builder)) == (Sandbox {
            stderr: Some(file),
            ..builder_sandbox(*old(builder))
        }),
{
    builder.stderr(file);
}

/// `WasiCtxBuilder::build_p1`: the context holds the sandbox that the
/// builder was told to make. The call panics on a builder from which a
/// context was built before, which `requires` leaves out.
#[verifier::external_body]
fn finish(builder: &mut wasmtime_wasi::WasiCtxBuilder) -> (context: wasmtime_wasi::p1::WasiP1Ctx)
    requires
        !builder_sandbox(*old(builder)).spent,
    ensures
        context_sandbox(context) == builder_sandbox(*old(builder)),
        builder_sandbox(*final(builder)).spent,
{
    builder.build_p1()
}

/// Name under which the module sees the container's filesystem root.
pub const GUEST_ROOT: &'static str = "/";

/// The handles that override the sandbox's standard streams. A stream
/// without a handle keeps the sandbox's default.
pub struct StdioHandles {
    pub stdin: Option<wasmtime_wasi::cli::InputFile>,
    pub stdout: Option<wasmtime_wasi::cli::OutputFile>,
    pub stderr: Option<wasmtime_wasi::cli::OutputFile>,
}

impl StdioHandles {
    /// No override: every stream keeps the sandbox's default.
    pub fn inherit() -> (handles: StdioHandles)
        ensures
            handles.stdin is None,
            handles.stdout is None,
            handles.stderr is None,
    {
        StdioHandles { stdin: None, stdout: None, stderr: None }
    }
}

/// The context of one execution attempt. It is built once and handed, whole,
/// to the engine that runs the module: a context cannot be used twice.
pub struct SandboxContext {
    pub(crate) context: wasmtime_wasi::p1::WasiP1Ctx,
}

impl View for SandboxContext {
    type V = Sandbox;

    closed spec fn view(&self) -> Sandbox {
        context_sandbox(self.context)
    }
}

/// The sandbox that a container specification and the resolved streams call
/// for: the arguments as they are, the environment entry by entry, the
/// container's root as the only directory, seen by the module as its own
/// root, and each stream overridden where a handle was resolved for it.
pub open spec fn sandbox_for(
    spec: crate::spec::ContainerSpecView,
    stdio: StdioHandles,
) -> Sandbox {
    Sandbox {
        args: spec.args,
        env: variables(spec.env),
        grants: seq![Grant { host: spec.root, guest: GUEST_ROOT@ }],
        stdin: stdio.stdin,
        stdout: stdio.stdout,
        stderr: stdio.stderr,
        spent: false,
    }
}

/// Builds the context for the workload that `spec` describes. The one thing
/// that can fail is the grant of the root directory; the failure then names
/// that step and carries the runtime's own words as its cause.
pub fn build_context(spec: &ContainerSpec, stdio: StdioHandles) -> (built: Result<
    SandboxContext,
    SetupError,
>)
    ensures
        match built {
            Ok(context) => context@ == sandbox_for(spec@, stdio),
            Err(failure) => failure.step == SetupStep::RootDirectory && exists|
                error: wasmtime::Error,
            | failure.cause@ == error_text(error),
        },
{
    let mut builder = new_builder();
    add_args(&mut builder, &spec.args);
    let pairs = split_entries(&spec.env);
    assert(pair_texts(pairs@) =~= variables(texts(spec.env@)));
    add_envs(&mut builder, &pairs);
    match grant_dir(&mut builder, spec.root.as_str(), GUEST_ROOT) {
        Ok(()) => {},
        Err(error) => {
            return Err(SetupError::caused_by(SetupStep::RootDirectory, &error));
        },
    }
    let StdioHandles { stdin, stdout, stderr } = stdio;
    if let Some(file) = stdin {
        set_stdin(&mut builder, file);
    }
    if let Some(file) = stdout {
        set_stdout(&mut builder, file);
    }
    if let Some(file) = stderr {
        set_stderr(&mut builder, file);
    }
    let context = finish(&mut builder);
    proof {
        let made = context_sandbox(context);
        let want = sandbox_for(spec@, stdio);
        assert(made.args =~= want.args);
        assert(made.env =~= want.env);
        assert(made.grants =~= want.grants);
    }
    Ok(SandboxContext { context })
}

} // verus!
