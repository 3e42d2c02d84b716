//! What can go wrong with one background task.

use vstd::prelude::*;

verus! {

/// Why picking an input image gave no image.
#[derive(Debug, Clone, PartialEq, Eq)]
pub enum PickError {
    /// The picker was closed without a selection.
    DialogCancelled,
    /// More than one file was selected where exactly one is asked for.
    DialogMultiSelectRejected,
    /// The selected file is no image that can be decoded: its path, and the
    /// decoder's reason.
    DecodeFailed(String, String),
}

/// Why running a script gave no image.
#[derive(Debug, Clone, PartialEq, Eq)]
pub enum RunError {
    /// The process could not be started: the reason.
    ProcessSpawnFailed(String),
    /// The process ended with a status other than zero: its exit code, or
    /// `None` where it ended without one.
    ProcessFailed(Option<i32>),
    /// The process ended with status zero, but the output path holds no
    /// image that can be decoded: the path.
    OutputUnreadable(String),
}

/// Why a background task gave no image.
#[derive(Debug, Clone, PartialEq, Eq)]
pub enum TaskError {
    /// A pick failed.
    Pick(PickError),
    /// A run failed.
    Run(RunError),
}

impl TaskError {
    /// Whether the error stands for a choice of the user rather than a
    /// failure: the picker was cancelled, or a multiple selection rejected.
    pub open spec fn is_dismissal(self) -> bool {
        self matches TaskError::Pick(e) && (e is DialogCancelled || e is DialogMultiSelectRejected)
    }

    /// Whether the error stands for a choice of the user rather than a
    /// failure.
    pub fn dismissal(&self) -> (yes: bool)
        ensures
            yes == self.is_dismissal(),
    {
        match self {
            TaskError::Pick(PickError::DialogCancelled) => true,
            TaskError::Pick(PickError::DialogMultiSelectRejected) => true,
            _ => false,
        }
    }
}

} // verus!
