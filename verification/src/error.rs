//! The failures of a launch.

use vstd::prelude::*;

verus! {

/// The error type of `std::io`, the cause that the operating system gave
/// for a failed file or process operation. Nothing is claimed of what such
/// a value holds: it is carried from the failed operation to the caller
/// as it came.
#[verifier::external_type_specification]
#[verifier::external_body]
pub struct ExIoError(std::io::Error);

/// An error during the execution of some code.
#[derive(Debug)]
pub enum CodeExecuteError {
    /// The code carries no evaluator: it was never marked for execution.
    NotExecutableCode,
    /// The temporary file for the code could not be created, written or
    /// flushed.
    TempFile(std::io::Error),
    /// The process could not be spawned.
    SpawnProcess(std::io::Error),
    /// The code names an evaluator that is not defined.
    EvaluatorNotDefined(String),
}

} // verus!
