//! Run a child command behind a pair of pseudo-terminals, capturing its
//! stdout and stderr as separately tagged line streams while tracking the
//! child's termination.
//!
//! The crate holds the decision logic of the pipeline: building a launch
//! specification from a command vector and the parent environment, the
//! multiplexer state machine that merges the two line streams and closes
//! the descriptors exactly once, classification of the child's wait status,
//! and the mapping from a termination outcome to a reported exit code.
//! The host binary performs the OS work (fork, exec, descriptor I/O) and
//! drives these functions.

pub mod app;
pub mod command;
pub mod config;
pub mod mux;
pub mod status;

use vstd::prelude::*;

verus! {

/// Everything that can go wrong while launching or streaming a command.
#[derive(Clone, Copy, Debug, PartialEq, Eq, Structural)]
pub enum XError {
    /// The command vector was empty: a usage error, reported before any
    /// process work begins.
    EmptyCommand,
    /// The executable could not be resolved on the search path; no child
    /// process is ever created.
    CommandNotFound,
    /// A pseudo-terminal pair could not be allocated.
    ChannelAllocationFailed,
    /// The OS refused to create the child process.
    ForkFailed,
    /// The forked child could not replace its image.
    ExecFailed,
    /// An argument, environment entry or path cannot be represented in the
    /// OS-level string form required for exec (it contains a NUL).
    EncodingError,
    /// A read from a channel failed after the child was running.
    StreamIOError,
    /// The wait operation reported a child state other than exit or signal
    /// termination: an internal-invariant violation.
    UnrecognizedChildState,
    /// A caller-supplied line handler failed; remaining output is dropped.
    HandlerError,
}

impl XError {
    /// A short description of the failure, one per variant.
    pub fn message(&self) -> (r: &'static str)
        ensures
            r@ == match *self {
                XError::EmptyCommand => "no command was given"@,
                XError::CommandNotFound => "unable to find the command on the search path"@,
                XError::ChannelAllocationFailed => "unable to allocate a pseudo-terminal"@,
                XError::ForkFailed => "unable to fork a child process"@,
                XError::ExecFailed => "unable to exec the command in the child"@,
                XError::EncodingError => "a string cannot be carried into exec"@,
                XError::StreamIOError => "a read from the child's output failed"@,
                XError::UnrecognizedChildState => "the child entered an unexpected state"@,
                XError::HandlerError => "an output handler failed"@,
            },
    {
        match *self {
            XError::EmptyCommand => "no command was given",
            XError::CommandNotFound => "unable to find the command on the search path",
            XError::ChannelAllocationFailed => "unable to allocate a pseudo-terminal",
            XError::ForkFailed => "unable to fork a child process",
            XError::ExecFailed => "unable to exec the command in the child",
            XError::EncodingError => "a string cannot be carried into exec",
            XError::StreamIOError => "a read from the child's output failed",
            XError::UnrecognizedChildState => "the child entered an unexpected state",
            XError::HandlerError => "an output handler failed",
        }
    }
}

} // verus!
