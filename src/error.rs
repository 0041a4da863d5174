//! The errors a task or a stage can end with.
use vstd::prelude::*;

verus! {

/// Everything that can stop a task or a stage.
#[derive(Clone, Debug, PartialEq, Eq)]
pub enum InstallError {
    /// The operator answered no to a confirmation: a benign early stop.
    Decline,
    /// An operating-system, filesystem or process-spawn failure, with its message.
    IoError(String),
    /// A path that should name an existing non-directory file does not.
    InvalidFile(String),
    /// The configuration is inconsistent (for instance its first stage is missing).
    InvalidConfig(String),
    /// A free-form failure.
    Custom(String),
    /// Capture-to-file produced no bytes on the primary output.
    EmptyResponse,
    /// No task is registered under this name.
    InvalidTask(String),
    /// The configuration has no stage of this name.
    InvalidStage(String),
    /// A command exited with this nonzero status.
    CommandFailed(i32),
    /// A bounded wait used up its attempts before the condition held.
    WaitExhausted,
    /// The task has no implementation yet.
    NotImplemented,
}

} // verus!
