//! What can go wrong inside one cycle.

use vstd::prelude::*;

verus! {

/// The reason a task could not finish its work for this cycle.
#[derive(Clone, Copy, Debug, PartialEq, Eq, Structural)]
pub enum TaskError {
    /// The frame buffer is shorter than its declared resolution requires.
    InvalidFrame,
    /// The marker detector failed on a well-formed image.
    DetectorFailure,
    /// The time of validity of a detection batch is not a single instant.
    UnsupportedTimeRepresentation,
}

impl TaskError {
    /// What the error says of itself.
    pub open spec fn text(self) -> Seq<char> {
        match self {
            TaskError::InvalidFrame => "frame buffer shorter than its resolution requires"@,
            TaskError::DetectorFailure => "marker detector failed"@,
            TaskError::UnsupportedTimeRepresentation => "time of validity is not a single instant"@,
        }
    }

    /// A line for the log.
    pub fn message(&self) -> (r: &'static str)
        ensures
            r@ == self.text(),
    {
        match self {
            TaskError::InvalidFrame => "frame buffer shorter than its resolution requires",
            TaskError::DetectorFailure => "marker detector failed",
            TaskError::UnsupportedTimeRepresentation => "time of validity is not a single instant",
        }
    }
}

/// A task error as it crosses the task boundary: fatal to the cycle in which
/// it arises, and to nothing else.
#[derive(Clone, Copy, Debug, PartialEq, Eq, Structural)]
pub struct TaskExecutionFailure {
    pub cause: TaskError,
}

impl TaskExecutionFailure {
    /// Wraps a task error for the driver.
    pub fn new(cause: TaskError) -> (r: TaskExecutionFailure)
        ensures
            r.cause == cause,
    {
        TaskExecutionFailure { cause }
    }
}

} // verus!
