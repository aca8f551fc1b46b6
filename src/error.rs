use vstd::prelude::*;

verus! {

/// Errors that can occur during interaction with a process.
#[derive(Debug)]
pub enum Error {
    /// Obtaining a handle to a process failed.
    ObtainHandleError(String),
    /// Reading or writing the process's memory failed.
    AccessMemoryError(String),
    /// Creating a snapshot of processes or modules failed.
    CreateSnapshotError(String),
    /// No process or module matched what was asked for.
    ProcessError(String),
    /// A pointer chain could not be resolved.
    ResolvePointerChainError(String),
    /// A size did not fit the integer field that holds it.
    ConvertIntegerError(String),
}

} // verus!
