//! How a finished invocation is reported to the container runtime.

use vstd::prelude::*;

verus! {

/// Exit code reported when the entry point returned normally.
pub const EXIT_SUCCESS: i32 = 0;

/// Exit code reported when the entry point trapped or failed; it mirrors a
/// process that was forcefully terminated.
pub const EXIT_FAILURE: i32 = 137;

/// How the invocation of a module's entry point ended. The engine reports
/// the outcome and leaves it to its caller to end the process.
#[derive(Debug)]
pub enum ExecutionOutcome {
    /// The entry point returned normally.
    Success,
    /// The entry point trapped or reported an error; the cause is given in
    /// words.
    Failure(String),
}

impl ExecutionOutcome {
    /// The exit code that stands for this outcome.
    pub open spec fn spec_exit_code(self) -> i32 {
        match self {
            ExecutionOutcome::Success => EXIT_SUCCESS,
            ExecutionOutcome::Failure(_) => EXIT_FAILURE,
        }
    }

    /// Whether the entry point returned normally.
    pub fn succeeded(&self) -> (ok: bool)
        ensures
            ok == (*self is Success),
    {
        match self {
            ExecutionOutcome::Success => true,
            ExecutionOutcome::Failure(_) => false,
        }
    }

    /// The exit code that the container runtime sees for this outcome: 0
    /// for success, 137 for every failure.
    pub fn exit_code(&self) -> (code: i32)
        ensures
            code == self.spec_exit_code(),
            code == 0 || code == 137,
            code == 0 <==> *self is Success,
    {
        match self {
            ExecutionOutcome::Success => EXIT_SUCCESS,
            ExecutionOutcome::Failure(_) => EXIT_FAILURE,
        }
    }
}

} // verus!
