//! A bridge that lets a container runtime launch a WebAssembly module as if
//! it were an ordinary container process.
//!
//! One execution attempt passes through these modules, in this order:
//!
//! * [`dispatch`] decides from the annotations of the container
//!   specification whether the workload is one for the bridge;
//! * [`stdio`] turns the path configured for each standard stream into the
//!   handle, if any, that overrides it;
//! * [`context`] builds the sandbox: arguments, environment, the container's
//!   root as the one directory in reach, and the overridden streams;
//! * [`locate`] and [`loader`] find the module under the container's root and
//!   have it compiled;
//! * [`engine`] instantiates the module in its sandbox, invokes its entry
//!   point and reports the outcome, which [`outcome`] maps to an exit code.
//!
//! [`executor`] holds the executor that strings these together, [`spec`] the
//! data that is read of a container specification, [`error`] the failures,
//! and [`environ`] and [`text`] the handling of environment entries and of
//! text in general.
//!
//! Every function is verified against its contract. What the runtime itself
//! does is not: each call into it stands in a small function of its own whose
//! contract says what is taken on trust.

pub mod context;
pub mod dispatch;
pub mod engine;
pub mod environ;
pub mod error;
pub mod executor;
pub mod loader;
pub mod locate;
pub mod outcome;
pub mod spec;
pub mod stdio;
pub mod text;
