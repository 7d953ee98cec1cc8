use workflow_contract::error::WorkflowError;
use workflow_contract::roles::{ADMIN, APPROVER, AUDITOR, REQUESTER, SENIOR_APPROVER};

#[test]
fn error_codes_are_one_to_ten() {
    assert_eq!(WorkflowError::WorkflowNotFound.code(), 1);
    assert_eq!(WorkflowError::InvalidTransition.code(), 2);
    assert_eq!(WorkflowError::InsufficientPermissions.code(), 3);
    assert_eq!(WorkflowError::WorkflowAlreadyCompleted.code(), 4);
    assert_eq!(WorkflowError::InvalidWorkflowDefinition.code(), 5);
    assert_eq!(WorkflowError::TransitionValidationFailed.code(), 6);
    assert_eq!(WorkflowError::MissingArgument.code(), 7);
    assert_eq!(WorkflowError::InvalidArgument.code(), 8);
    assert_eq!(WorkflowError::StorageError.code(), 9);
    assert_eq!(WorkflowError::Overflow.code(), 10);
}

#[test]
fn role_bits_are_distinct_powers_of_two() {
    assert_eq!(REQUESTER, 1 << 0);
    assert_eq!(APPROVER, 1 << 1);
    assert_eq!(SENIOR_APPROVER, 1 << 2);
    assert_eq!(ADMIN, 1 << 3);
    assert_eq!(AUDITOR, 1 << 4);
    assert_eq!(REQUESTER | APPROVER | SENIOR_APPROVER | ADMIN | AUDITOR, 31);
}
