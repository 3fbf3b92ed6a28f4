use vstd::prelude::*;

verus! {

/// Declares std::io::Error, which std's thread builder returns when the
/// operating system refuses a thread; the library only carries it, opaque.
#[verifier::external_type_specification]
#[verifier::external_body]
pub struct ExIoError(std::io::Error);

/// Why a pool could not be built.
#[derive(Debug)]
pub enum PoolCreationError {
    /// A pool needs at least one worker.
    ZeroSize,
    /// One of the workers could not be started.
    WorkerCreationError(WorkerCreationError),
}

/// Why a single worker could not be started.
#[derive(Debug)]
pub enum WorkerCreationError {
    ThreadSpawnError(std::io::Error),
}

/// Why a job could not be handed to the workers.
#[derive(Debug)]
pub enum PoolExecuteError {
    JobCreationError(String),
}

} // verus!
