//! Turns the path configured for a standard stream into the handle, if any,
//! that the sandbox is to use for it.
//!
//! Opening the file is the caller's part. The rules are here: which paths
//! ask for a file at all, and what each result of the attempt to open one
//! means.

use vstd::prelude::*;
use crate::error::{SetupError, SetupStep};

verus! {

/// One of the three standard streams.
#[derive(Clone, Copy, Debug, PartialEq, Eq, Structural)]
pub enum Stream {
    Stdin,
    Stdout,
    Stderr,
}

impl Stream {
    /// The preparation step that opens this stream's file.
    pub open spec fn spec_step(self) -> SetupStep {
        match self {
            Stream::Stdin => SetupStep::Stdin,
            Stream::Stdout => SetupStep::Stdout,
            Stream::Stderr => SetupStep::Stderr,
        }
    }

    /// The preparation step that opens this stream's file.
    pub fn step(self) -> (step: SetupStep)
        ensures
            step == self.spec_step(),
    {
        match self {
            Stream::Stdin => SetupStep::Stdin,
            Stream::Stdout => SetupStep::Stdout,
            Stream::Stderr => SetupStep::Stderr,
        }
    }
}

/// What came of the attempt to open a file for reading and writing. `H` is
/// the handle of an open file.
pub enum OpenOutcome<H> {
    /// The file is open.
    Opened(H),
    /// There is no file at the path.
    NotFound,
    /// The file could not be opened for another reason, given in words.
    Failed(String),
}

/// What a stream's path and the attempt to open it come to: the handle that
/// overrides the stream, no override, or a setup failure with its cause.
pub enum Resolution<H> {
    Override(H),
    Inherit,
    Failure(Seq<char>),
}

/// The resolver's rule. An empty path asks for no redirection, whatever the
/// attempt gave. A path at which nothing lies counts as not requested. Every
/// other reason for which the file cannot be opened is a failure.
pub open spec fn resolution<H>(path: Seq<char>, outcome: OpenOutcome<H>) -> Resolution<H> {
    if path.len() == 0 {
        Resolution::Inherit
    } else {
        match outcome {
            OpenOutcome::Opened(handle) => Resolution::Override(handle),
            OpenOutcome::NotFound => Resolution::Inherit,
            OpenOutcome::Failed(cause) => Resolution::Failure(cause@),
        }
    }
}

/// Whether `path` asks for a file to be opened: every path but the empty
/// one does.
pub fn wants_file(path: &str) -> (wanted: bool)
    ensures
        wanted == (path@.len() > 0),
{
    !path.is_empty()
}

/// Resolves one stream from its configured path and the outcome of the
/// attempt to open that path. A caller that finds `wants_file` false makes
/// no attempt and may hand in any outcome.
pub fn resolve<H>(stream: Stream, path: &str, outcome: OpenOutcome<H>) -> (resolved: Result<
    Option<H>,
    SetupError,
>)
    ensures
        match resolution(path@, outcome) {
            Resolution::Override(handle) => resolved == Ok::<Option<H>, SetupError>(Some(handle)),
            Resolution::Inherit => resolved == Ok::<Option<H>, SetupError>(None),
            Resolution::Failure(cause) => resolved is Err && resolved->Err_0.step
                == stream.spec_step() && resolved->Err_0.cause@ == cause,
        },
{
    if !wants_file(path) {
        return Ok(None);
    }
    match outcome {
        OpenOutcome::Opened(handle) => Ok(Some(handle)),
        OpenOutcome::NotFound => Ok(None),
        OpenOutcome::Failed(cause) => Err(SetupError { step: stream.step(), cause }),
    }
}

/// An empty path leaves the stream as it is, whatever an attempt to open it
/// would give.
pub proof fn law_empty_path_inherits<H>(outcome: OpenOutcome<H>)
    ensures
        resolution(Seq::<char>::empty(), outcome) == Resolution::<H>::Inherit,
{
}

/// A path at which nothing lies resolves as the empty path does.
pub proof fn law_missing_file_is_as_empty_path<H>(path: Seq<char>, any: OpenOutcome<H>)
    ensures
        resolution(path, OpenOutcome::<H>::NotFound) == resolution(Seq::<char>::empty(), any),
{
}

/// A file that is there and cannot be opened fails the preparation, with
/// the cause that the attempt gave.
pub proof fn law_unopenable_file_fails<H>(path: Seq<char>, cause: String)
    requires
        path.len() > 0,
    ensures
        resolution(path, OpenOutcome::<H>::Failed(cause)) == Resolution::<H>::Failure(cause@),
{
}

} // verus!
