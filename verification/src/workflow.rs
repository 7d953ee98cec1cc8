//! The records of the ledger: a workflow, and one move of a workflow.

use crate::account::AccountHash;
use crate::error::WorkflowError;
use crate::state_table::{is_allowed, is_terminal, is_terminal_state, is_valid_transition};
use crate::states::DRAFT;
use crate::uint::U256;
use vstd::prelude::*;

verus! {

/// A workflow instance. Business data stays off the ledger: only its hash
/// is kept.
#[derive(Clone, Copy, Debug, PartialEq, Eq)]
pub struct WorkflowData {
    /// Unique workflow identifier.
    pub id: U256,
    /// Hash of the workflow template definition.
    pub template_hash: [u8; 32],
    /// Hash of the associated business data.
    pub data_hash: [u8; 32],
    /// Current state of the workflow.
    pub current_state: u8,
    /// Account that created the workflow.
    pub creator: AccountHash,
    /// Time of creation.
    pub created_at: u64,
    /// Time of the last update.
    pub updated_at: u64,
    /// Whether the workflow has reached a terminal state.
    pub is_completed: bool,
}

/// One executed move of a workflow, kept for the audit trail.
#[derive(Clone, Copy, Debug, PartialEq, Eq)]
pub struct TransitionRecord {
    /// State before the move.
    pub from_state: u8,
    /// State after the move.
    pub to_state: u8,
    /// Account that made the move.
    pub actor: AccountHash,
    /// Role mask that the actor claimed.
    pub actor_role: u64,
    /// Time of the move.
    pub timestamp: u64,
    /// Hash of the comment or justification.
    pub comment_hash: [u8; 32],
}

impl WorkflowData {
    /// A workflow as it stands right after creation: a draft, not completed,
    /// created and updated at the same time.
    pub open spec fn spec_new(
        id: U256,
        template_hash: [u8; 32],
        data_hash: [u8; 32],
        creator: AccountHash,
        timestamp: u64,
    ) -> WorkflowData {
        WorkflowData {
            id,
            template_hash,
            data_hash,
            current_state: DRAFT,
            creator,
            created_at: timestamp,
            updated_at: timestamp,
            is_completed: false,
        }
    }

    /// The workflow after a move to `to_state` at `timestamp`: state, time of
    /// update and completion change, nothing else does.
    pub open spec fn moved(self, to_state: u8, timestamp: u64) -> WorkflowData {
        WorkflowData {
            id: self.id,
            template_hash: self.template_hash,
            data_hash: self.data_hash,
            current_state: to_state,
            creator: self.creator,
            created_at: self.created_at,
            updated_at: timestamp,
            is_completed: is_terminal(to_state),
        }
    }

    /// Whether a move to `to_state` is accepted: a completed workflow takes
    /// none, and any other takes the edges of the transition graph.
    pub open spec fn admits(self, to_state: u8) -> Result<(), WorkflowError> {
        if self.is_completed {
            Err(WorkflowError::WorkflowAlreadyCompleted)
        } else if !is_allowed(self.current_state, to_state) {
            Err(WorkflowError::InvalidTransition)
        } else {
            Ok(())
        }
    }

    /// The record of a move of this workflow.
    pub open spec fn record_of(
        self,
        to_state: u8,
        actor_role: u64,
        comment_hash: [u8; 32],
        actor: AccountHash,
        timestamp: u64,
    ) -> TransitionRecord {
        TransitionRecord {
            from_state: self.current_state,
            to_state,
            actor,
            actor_role,
            timestamp,
            comment_hash,
        }
    }

    /// Makes the record of a new workflow.
    pub fn new(
        id: U256,
        template_hash: [u8; 32],
        data_hash: [u8; 32],
        creator: AccountHash,
        timestamp: u64,
    ) -> (workflow: WorkflowData)
        ensures
            workflow == WorkflowData::spec_new(id, template_hash, data_hash, creator, timestamp),
    {
        WorkflowData {
            id,
            template_hash,
            data_hash,
            current_state: DRAFT,
            creator,
            created_at: timestamp,
            updated_at: timestamp,
            is_completed: false,
        }
    }

    /// Decides a move of this workflow to `to_state`, requested by `caller`
    /// at `timestamp`. Where the move is accepted, hands back the workflow as
    /// it stands after the move, and the record of the move. The claimed role
    /// is recorded and not judged.
    pub fn transition(
        &self,
        to_state: u8,
        actor_role: u64,
        comment_hash: [u8; 32],
        caller: AccountHash,
        timestamp: u64,
    ) -> (outcome: Result<(WorkflowData, TransitionRecord), WorkflowError>)
        ensures
            match outcome {
                Ok((workflow, record)) => {
                    &&& self.admits(to_state) is Ok
                    &&& workflow == self.moved(to_state, timestamp)
                    &&& record == self.record_of(
                        to_state,
                        actor_role,
                        comment_hash,
                        caller,
                        timestamp,
                    )
                },
                Err(error) => self.admits(to_state) == Err::<(), WorkflowError>(error),
            },
    {
        if self.is_completed {
            return Err(WorkflowError::WorkflowAlreadyCompleted);
        }
        let from_state = self.current_state;
        if !is_valid_transition(from_state, to_state) {
            return Err(WorkflowError::InvalidTransition);
        }
        let record = TransitionRecord {
            from_state,
            to_state,
            actor: caller,
            actor_role,
            timestamp,
            comment_hash,
        };
        let mut workflow = *self;
        workflow.current_state = to_state;
        workflow.updated_at = timestamp;
        workflow.is_completed = is_terminal_state(to_state);
        Ok((workflow, record))
    }
}

} // verus!
