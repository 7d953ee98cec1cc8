//! The transition engine: the operations of the ledger.
//!
//! The engine keeps the workflow store and the transition log in step. Each
//! operation either takes effect as a whole or fails and changes nothing.

use crate::account::AccountHash;
use crate::counter::Counter;
use crate::error::WorkflowError;
use crate::log::TransitionLog;
use crate::model::{replay, LedgerView, Request};
use crate::states::DRAFT;
use crate::store::WorkflowStore;
use crate::uint::{lemma_from_nat, lemma_value_determines_limbs, U256};
use crate::workflow::{TransitionRecord, WorkflowData};
use vstd::prelude::*;

verus! {

/// The ledger: the workflow store, with its counter, and the transition log.
pub struct Ledger {
    store: WorkflowStore,
    log: TransitionLog,
}

impl View for Ledger {
    type V = LedgerView;

    closed spec fn view(&self) -> LedgerView {
        LedgerView {
            base: self.store.base(),
            workflows: self.store.records(),
            histories: self.log.entries(),
        }
    }
}

impl Ledger {
    /// The ledger is well formed: store and log are in step, and what holds
    /// of every ledger holds of this one.
    pub closed spec fn wf(&self) -> bool {
        &&& self.store.wf()
        &&& self.log.base() == self.store.base()
        &&& self@.inv()
    }

    /// What holds of every ledger holds of a well-formed one.
    pub proof fn lemma_wf_inv(&self)
        requires
            self.wf(),
        ensures
            self@.inv(),
    {
    }

    /// A ledger without workflows, whose first identifier is the one after
    /// the counter's value.
    pub fn with_counter(counter: Counter) -> (ledger: Ledger)
        ensures
            ledger.wf(),
            ledger@ == LedgerView::empty(counter@),
    {
        let base = counter.current();
        proof {
            lemma_value_determines_limbs(base, base);
        }
        let store = WorkflowStore::new(counter);
        let log = TransitionLog::new(base);
        Ledger { store, log }
    }
}

/// Installs the ledger: no workflows, and the counter at zero.
pub fn call() -> (ledger: Ledger)
    ensures
        ledger.wf(),
        ledger@ == LedgerView::empty(0),
{
    Ledger::with_counter(Counter::new())
}

/// Creates a workflow in the state of a draft, on behalf of `caller` at
/// `timestamp`, and hands back its identifier: the one after the identifier
/// issued last. Fails with an overflow, and changes nothing, where the
/// counter is exhausted.
pub fn create_workflow(
    ledger: &mut Ledger,
    template_hash: [u8; 32],
    data_hash: [u8; 32],
    caller: AccountHash,
    timestamp: u64,
) -> (created: Result<U256, WorkflowError>)
    requires
        old(ledger).wf(),
    ensures
        final(ledger).wf(),
        match created {
            Ok(id) => old(ledger)@.can_create() && id@ == old(ledger)@.count() + 1,
            Err(error) => error == WorkflowError::Overflow && !old(ledger)@.can_create(),
        },
        final(ledger)@ == old(ledger)@.step(
            Request::Create { template_hash, data_hash, caller, timestamp },
        ),
{
    let id = ledger.store.create(template_hash, data_hash, caller, timestamp)?;
    let opened = ledger.log.init(&id);
    assert(opened is Ok);
    proof {
        lemma_from_nat(id@);
        assert(replay(Seq::<TransitionRecord>::empty()) == Some(DRAFT));
    }
    Ok(id)
}

/// Moves the workflow `workflow_id` to `to_state`, on behalf of `caller` at
/// `timestamp`: replaces its record and adds the record of the move to its
/// history. The claimed role and the hash of the comment are recorded as
/// given. Fails, and changes nothing, where there is no such workflow, where
/// it is completed, or where the state table does not allow the move.
pub fn transition_state(
    ledger: &mut Ledger,
    workflow_id: U256,
    to_state: u8,
    actor_role: u64,
    comment_hash: [u8; 32],
    caller: AccountHash,
    timestamp: u64,
) -> (moved: Result<(), WorkflowError>)
    requires
        old(ledger).wf(),
    ensures
        final(ledger).wf(),
        moved == old(ledger)@.transition_outcome(workflow_id@, to_state),
        final(ledger)@ == old(ledger)@.step(
            Request::Transition {
                workflow_id,
                to_state,
                actor_role,
                comment_hash,
                caller,
                timestamp,
            },
        ),
{
    let workflow = ledger.store.get(&workflow_id)?;
    let (updated, record) = workflow.transition(
        to_state,
        actor_role,
        comment_hash,
        caller,
        timestamp,
    )?;
    let stored = ledger.store.apply_transition(&workflow_id, to_state, timestamp);
    assert(stored == Ok::<WorkflowData, WorkflowError>(updated));
    let added = ledger.log.append(&workflow_id, record);
    assert(added is Ok);
    proof {
        let slot = workflow_id@ - old(ledger)@.base - 1;
        let trail = old(ledger)@.histories[slot];
        assert(trail.push(record).drop_last() == trail);
        assert(ledger@ == old(ledger)@.transitioned(workflow_id@, updated, record));
    }
    Ok(())
}

/// The record of the workflow `workflow_id`, or a failure where there is no
/// such workflow.
pub fn get_workflow_state(ledger: &Ledger, workflow_id: U256) -> (found: Result<
    WorkflowData,
    WorkflowError,
>)
    requires
        ledger.wf(),
    ensures
        match found {
            Ok(workflow) => ledger@.contains(workflow_id@) && workflow == ledger@.workflow(
                workflow_id@,
            ),
            Err(error) => error == WorkflowError::WorkflowNotFound && !ledger@.contains(
                workflow_id@,
            ),
        },
{
    ledger.store.get(&workflow_id)
}

/// The moves of the workflow `workflow_id`, oldest first: an empty sequence
/// where it has not moved yet, and a failure where there is no such
/// workflow.
pub fn get_workflow_history(ledger: &Ledger, workflow_id: U256) -> (found: Result<
    Vec<TransitionRecord>,
    WorkflowError,
>)
    requires
        ledger.wf(),
    ensures
        match found {
            Ok(history) => ledger@.contains(workflow_id@) && history@ == ledger@.history(
                workflow_id@,
            ),
            Err(error) => error == WorkflowError::WorkflowNotFound && !ledger@.contains(
                workflow_id@,
            ),
        },
{
    ledger.log.get(&workflow_id)
}

/// The number of workflows counted so far: the identifier issued last.
pub fn get_workflow_count(ledger: &Ledger) -> (count: U256)
    requires
        ledger.wf(),
    ensures
        count@ == ledger@.count(),
{
    ledger.store.count()
}

} // verus!
