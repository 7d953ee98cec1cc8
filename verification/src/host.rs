//! What a host has to know to keep the ledger in its storage: the names and
//! keys under which the parts of the ledger are kept, and what the outcome
//! of a read means.
//!
//! A host keeps the workflows in one table and the histories in another,
//! both keyed by the workflow's identifier, and the counter in a value of
//! its own. A read gives a value, nothing, or a failure of the storage: the
//! three are told apart, so that a caller can tell an unknown workflow from
//! a broken storage.

use crate::error::WorkflowError;
use crate::uint::{decimal, lemma_decimal_is_injective, lemma_value_determines_limbs, U256};
use crate::workflow::{TransitionRecord, WorkflowData};
use vstd::prelude::*;

verus! {

/// Name of the table of workflows.
pub const WORKFLOWS_DICT: &'static str = "workflows";

/// Name of the table of histories.
pub const TRANSITIONS_DICT: &'static str = "transitions";

/// Name of the counter.
pub const WORKFLOW_COUNT_KEY: &'static str = "workflow_count";

/// Name of the installed version.
pub const CONTRACT_VERSION_KEY: &'static str = "contract_version";

/// The version that is installed.
pub const CONTRACT_VERSION: &'static str = "1.0.0";

/// The key of a workflow in both tables: the decimal numeral of its
/// identifier.
pub fn storage_key(workflow_id: &U256) -> (key: String)
    ensures
        key@ == decimal(workflow_id@),
{
    workflow_id.to_decimal_string()
}

/// Keys are stable: a workflow has one key, and two workflows never share
/// one.
pub proof fn lemma_keys_are_distinct(a: U256, b: U256)
    ensures
        decimal(a@) == decimal(b@) <==> a == b,
{
    if decimal(a@) == decimal(b@) {
        lemma_decimal_is_injective(a@, b@);
        lemma_value_determines_limbs(a, b);
    }
}

/// The workflow that a read of the table of workflows gave: a failure of
/// the storage where the read failed, and an unknown workflow where the
/// table has nothing under the key.
pub fn loaded_workflow<E>(read: Result<Option<WorkflowData>, E>) -> (loaded: Result<
    WorkflowData,
    WorkflowError,
>)
    ensures
        match read {
            Ok(Some(workflow)) => loaded == Ok::<WorkflowData, WorkflowError>(workflow),
            Ok(None) => loaded == Err::<WorkflowData, WorkflowError>(
                WorkflowError::WorkflowNotFound,
            ),
            Err(_) => loaded == Err::<WorkflowData, WorkflowError>(WorkflowError::StorageError),
        },
{
    match read {
        Ok(Some(workflow)) => Ok(workflow),
        Ok(None) => Err(WorkflowError::WorkflowNotFound),
        Err(_) => Err(WorkflowError::StorageError),
    }
}

/// The history that a read of the table of histories gave: a failure of the
/// storage where the read failed, and an unknown workflow where the table
/// has nothing under the key. A workflow that has not moved yet has an empty
/// history, which is no failure.
pub fn loaded_history<E>(read: Result<Option<Vec<TransitionRecord>>, E>) -> (loaded: Result<
    Vec<TransitionRecord>,
    WorkflowError,
>)
    ensures
        match read {
            Ok(Some(history)) => loaded == Ok::<Vec<TransitionRecord>, WorkflowError>(history),
            Ok(None) => loaded == Err::<Vec<TransitionRecord>, WorkflowError>(
                WorkflowError::WorkflowNotFound,
            ),
            Err(_) => loaded == Err::<Vec<TransitionRecord>, WorkflowError>(
                WorkflowError::StorageError,
            ),
        },
{
    match read {
        Ok(Some(history)) => Ok(history),
        Ok(None) => Err(WorkflowError::WorkflowNotFound),
        Err(_) => Err(WorkflowError::StorageError),
    }
}

} // verus!
