//! The failures that an operation on the ledger can report.

use vstd::prelude::*;

verus! {

/// Why an operation was refused. Each kind has a fixed numeric code, under
/// which a host reports it to the caller.
#[derive(Clone, Copy, Debug, PartialEq, Eq, Structural)]
pub enum WorkflowError {
    /// No workflow with the given identifier exists.
    WorkflowNotFound,
    /// The requested move is not an edge of the transition graph.
    InvalidTransition,
    /// The caller does not have the required role.
    InsufficientPermissions,
    /// The workflow has reached a terminal state.
    WorkflowAlreadyCompleted,
    /// The workflow definition is invalid.
    InvalidWorkflowDefinition,
    /// Validation of the transition failed.
    TransitionValidationFailed,
    /// A required argument is missing.
    MissingArgument,
    /// An argument has an invalid value.
    InvalidArgument,
    /// The storage underneath failed.
    StorageError,
    /// The identifier counter is exhausted.
    Overflow,
}

impl WorkflowError {
    /// The numeric code of each kind.
    pub open spec fn spec_code(self) -> u16 {
        match self {
            WorkflowError::WorkflowNotFound => 1,
            WorkflowError::InvalidTransition => 2,
            WorkflowError::InsufficientPermissions => 3,
            WorkflowError::WorkflowAlreadyCompleted => 4,
            WorkflowError::InvalidWorkflowDefinition => 5,
            WorkflowError::TransitionValidationFailed => 6,
            WorkflowError::MissingArgument => 7,
            WorkflowError::InvalidArgument => 8,
            WorkflowError::StorageError => 9,
            WorkflowError::Overflow => 10,
        }
    }

    /// The numeric code under which this failure is reported.
    pub fn code(&self) -> (code: u16)
        ensures
            code == self.spec_code(),
            1 <= code <= 10,
    {
        match self {
            WorkflowError::WorkflowNotFound => 1,
            WorkflowError::InvalidTransition => 2,
            WorkflowError::InsufficientPermissions => 3,
            WorkflowError::WorkflowAlreadyCompleted => 4,
            WorkflowError::InvalidWorkflowDefinition => 5,
            WorkflowError::TransitionValidationFailed => 6,
            WorkflowError::MissingArgument => 7,
            WorkflowError::InvalidArgument => 8,
            WorkflowError::StorageError => 9,
            WorkflowError::Overflow => 10,
        }
    }
}

/// Distinct failures have distinct codes.
pub proof fn lemma_codes_are_distinct(a: WorkflowError, b: WorkflowError)
    ensures
        a.spec_code() == b.spec_code() <==> a == b,
{
}

} // verus!
