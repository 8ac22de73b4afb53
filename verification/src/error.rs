//! How a job's execution can end.

use vstd::prelude::*;

verus! {

/// Why a job handler failed. A retryable failure is rescheduled while the
/// attempt budget lasts; a permanent one is dead-lettered at once.
#[derive(Debug, PartialEq, Eq)]
pub enum JobError {
    Retryable(String),
    Permanent(String),
}

/// What came of one trip of a job through a worker.
#[derive(Debug, PartialEq, Eq)]
pub enum JobOutcome {
    Success,
    Failed(JobError),
    LeaseLost,
}

impl JobError {
    /// The message that the error carries.
    pub open spec fn message_view(&self) -> Seq<char> {
        match self {
            JobError::Retryable(m) => m@,
            JobError::Permanent(m) => m@,
        }
    }

    /// True of a failure that must not be retried.
    pub open spec fn is_permanent(&self) -> bool {
        self is Permanent
    }
}

} // verus!
