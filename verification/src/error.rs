//! The ways in which an execution attempt can fail before the module's entry
//! point has run.

use vstd::prelude::*;
use crate::text::join_text;

verus! {

/// `wasmtime::Error`, the error of every fallible call into the runtime.
#[verifier::external_type_specification]
#[verifier::external_body]
pub struct ExWasmtimeError(wasmtime::Error);

/// The message of an error of the runtime, with the causes that it wraps.
pub uninterp spec fn error_text(error: wasmtime::Error) -> Seq<char>;

/// The `Display` of `wasmtime::Error` in its alternate form, which writes
/// the error's message and, after it, those of the causes that it wraps.
#[verifier::external_body]
pub(crate) fn describe_error(error: &wasmtime::Error) -> (text: String)
    ensures
        text@ == error_text(*error),
{
    format!("{error:#}")
}

/// The preparation step at which a setup failure arose.
#[derive(Clone, Copy, Debug, PartialEq, Eq, Structural)]
pub enum SetupStep {
    /// Opening the file that standard input is redirected to.
    Stdin,
    /// Opening the file that standard output is redirected to.
    Stdout,
    /// Opening the file that standard error is redirected to.
    Stderr,
    /// Granting the container's filesystem root to the sandbox.
    RootDirectory,
    /// Finding the module's path among the process arguments.
    ModulePath,
    /// Reading and compiling the module.
    ModuleLoad,
    /// Binding the sandbox's capabilities into the linker.
    Link,
    /// Creating the store that the module runs in.
    Store,
    /// Instantiating the module.
    Instantiate,
}

impl SetupStep {
    /// The words that describe this step in a failure's message.
    pub open spec fn spec_describe(self) -> Seq<char> {
        match self {
            SetupStep::Stdin => "failed to open stdin"@,
            SetupStep::Stdout => "failed to open stdout"@,
            SetupStep::Stderr => "failed to open stderr"@,
            SetupStep::RootDirectory => "failed to grant the root directory"@,
            SetupStep::ModulePath => "failed to resolve the module path"@,
            SetupStep::ModuleLoad => "failed to load the module"@,
            SetupStep::Link => "failed to link the sandbox capabilities"@,
            SetupStep::Store => "failed to create the execution store"@,
            SetupStep::Instantiate => "failed to instantiate the module"@,
        }
    }

    /// The words that describe this step in a failure's message.
    pub fn describe(self) -> (words: &'static str)
        ensures
            words@ == self.spec_describe(),
    {
        match self {
            SetupStep::Stdin => "failed to open stdin",
            SetupStep::Stdout => "failed to open stdout",
            SetupStep::Stderr => "failed to open stderr",
            SetupStep::RootDirectory => "failed to grant the root directory",
            SetupStep::ModulePath => "failed to resolve the module path",
            SetupStep::ModuleLoad => "failed to load the module",
            SetupStep::Link => "failed to link the sandbox capabilities",
            SetupStep::Store => "failed to create the execution store",
            SetupStep::Instantiate => "failed to instantiate the module",
        }
    }
}

/// A failure of the preparation phase: the step that failed and the
/// underlying cause, in words. No sandboxed code has run when one is
/// returned.
#[derive(Debug)]
pub struct SetupError {
    pub step: SetupStep,
    pub cause: String,
}

impl SetupError {
    /// The message of a failure at `step` with cause `cause`: the step's
    /// description, a colon and a space, then the cause.
    pub open spec fn spec_message(step: SetupStep, cause: Seq<char>) -> Seq<char> {
        step.spec_describe() + ": "@ + cause
    }

    /// The failure at `step` that the runtime's `error` caused: its cause is
    /// the error's message.
    pub fn caused_by(step: SetupStep, error: &wasmtime::Error) -> (failure: SetupError)
        ensures
            failure.step == step,
            failure.cause@ == error_text(*error),
    {
        SetupError { step, cause: describe_error(error) }
    }

    /// The failure in words, the step first and the cause after it.
    pub fn message(&self) -> (text: String)
        ensures
            text@ == Self::spec_message(self.step, self.cause@),
    {
        let head = join_text(self.step.describe(), ": ");
        join_text(head.as_str(), self.cause.as_str())
    }
}

/// Why an execution attempt ended without an outcome.
#[derive(Debug)]
pub enum BridgeError {
    /// The workload is not one for this executor; nothing was prepared.
    Declined,
    /// A preparation step failed.
    Setup(SetupError),
    /// The module lacks the export of this name: the module is not a valid
    /// argument to the engine.
    InvalidArgument(String),
}

} // verus!
