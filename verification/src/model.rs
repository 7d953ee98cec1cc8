//! The ledger as a mathematical value, and what each request makes of it.

use crate::account::AccountHash;
use crate::error::WorkflowError;
use crate::state_table::{is_allowed, is_terminal};
use crate::states::DRAFT;
use crate::uint::{u256_max, U256};
use crate::workflow::{TransitionRecord, WorkflowData};
use vstd::prelude::*;

verus! {

/// The state to which a sequence of moves leads from a draft, where each
/// move starts in the state that the one before it reached and is an edge of
/// the transition graph; nothing for any other sequence.
pub open spec fn replay(trail: Seq<TransitionRecord>) -> Option<u8>
    decreases trail.len(),
{
    if trail.len() == 0 {
        Some(DRAFT)
    } else {
        match replay(trail.drop_last()) {
            Some(state) => if trail.last().from_state == state && is_allowed(
                state,
                trail.last().to_state,
            ) {
                Some(trail.last().to_state)
            } else {
                None
            },
            None => None,
        }
    }
}

/// The ledger: the workflows with the identifiers that follow `base`, in
/// order, and the moves of each.
pub struct LedgerView {
    /// The value of the counter before the first workflow.
    pub base: nat,
    /// The workflows, in the order of their identifiers.
    pub workflows: Seq<WorkflowData>,
    /// The moves of each workflow, oldest first.
    pub histories: Seq<Seq<TransitionRecord>>,
}

/// A request that changes the ledger.
pub enum Request {
    /// Create a workflow.
    Create { template_hash: [u8; 32], data_hash: [u8; 32], caller: AccountHash, timestamp: u64 },
    /// Move a workflow to another state.
    Transition {
        workflow_id: U256,
        to_state: u8,
        actor_role: u64,
        comment_hash: [u8; 32],
        caller: AccountHash,
        timestamp: u64,
    },
}

impl LedgerView {
    /// The ledger without workflows, whose counter stands at `base`.
    pub open spec fn empty(base: nat) -> LedgerView {
        LedgerView { base, workflows: Seq::empty(), histories: Seq::empty() }
    }

    /// The value of the counter: the identifier issued last.
    pub open spec fn count(self) -> nat {
        self.base + self.workflows.len()
    }

    /// Tells whether a workflow with the identifier `id` exists.
    pub open spec fn contains(self, id: nat) -> bool {
        self.base < id <= self.count()
    }

    /// The workflow with the identifier `id`.
    pub open spec fn workflow(self, id: nat) -> WorkflowData
        recommends
            self.contains(id),
    {
        self.workflows[id - self.base - 1]
    }

    /// The moves of the workflow with the identifier `id`, oldest first.
    pub open spec fn history(self, id: nat) -> Seq<TransitionRecord>
        recommends
            self.contains(id),
    {
        self.histories[id - self.base - 1]
    }

    /// What holds of every ledger: the counter has not passed the largest
    /// identifier; every workflow has a history; a workflow carries the
    /// identifier of its place, is completed exactly when its state is
    /// terminal, and is in the state to which its history leads.
    pub open spec fn inv(self) -> bool {
        &&& self.count() <= u256_max()
        &&& self.histories.len() == self.workflows.len()
        &&& forall|i: int|
            0 <= i < self.workflows.len() ==> {
                &&& (#[trigger] self.workflows[i]).id@ == self.base + i + 1
                &&& self.workflows[i].is_completed == is_terminal(self.workflows[i].current_state)
                &&& replay(self.histories[i]) == Some(self.workflows[i].current_state)
            }
    }

    /// Tells whether one more workflow can be created.
    pub open spec fn can_create(self) -> bool {
        self.count() < u256_max()
    }

    /// The ledger with one workflow more, and an empty history for it.
    pub open spec fn created(self, workflow: WorkflowData) -> LedgerView {
        LedgerView {
            base: self.base,
            workflows: self.workflows.push(workflow),
            histories: self.histories.push(Seq::empty()),
        }
    }

    /// How a request to move the workflow `id` to `to_state` ends: with a
    /// failure where there is no such workflow, where it is completed, or
    /// where the move is no edge of the transition graph, in this order.
    pub open spec fn transition_outcome(self, id: nat, to_state: u8) -> Result<(), WorkflowError> {
        if !self.contains(id) {
            Err(WorkflowError::WorkflowNotFound)
        } else {
            self.workflow(id).admits(to_state)
        }
    }

    /// The ledger after the workflow `id` has moved: its record is replaced,
    /// and the record of the move is added to its history.
    pub open spec fn transitioned(
        self,
        id: nat,
        workflow: WorkflowData,
        record: TransitionRecord,
    ) -> LedgerView {
        LedgerView {
            base: self.base,
            workflows: self.workflows.update(id - self.base - 1, workflow),
            histories: self.histories.update(id - self.base - 1, self.history(id).push(record)),
        }
    }

    /// The ledger after one request. A request that fails leaves the ledger
    /// as it was.
    pub open spec fn step(self, request: Request) -> LedgerView {
        match request {
            Request::Create { template_hash, data_hash, caller, timestamp } => if self.can_create() {
                self.created(
                    WorkflowData::spec_new(
                        U256::spec_from_nat(self.count() + 1),
                        template_hash,
                        data_hash,
                        caller,
                        timestamp,
                    ),
                )
            } else {
                self
            },
            Request::Transition {
                workflow_id,
                to_state,
                actor_role,
                comment_hash,
                caller,
                timestamp,
            } => if self.transition_outcome(workflow_id@, to_state) is Ok {
                self.transitioned(
                    workflow_id@,
                    self.workflow(workflow_id@).moved(to_state, timestamp),
                    self.workflow(workflow_id@).record_of(
                        to_state,
                        actor_role,
                        comment_hash,
                        caller,
                        timestamp,
                    ),
                )
            } else {
                self
            },
        }
    }

    /// The ledger after a sequence of requests, served in order.
    pub open spec fn run(self, requests: Seq<Request>) -> LedgerView
        decreases requests.len(),
    {
        if requests.len() == 0 {
            self
        } else {
            self.run(requests.drop_last()).step(requests.last())
        }
    }
}

} // verus!
