//! The workflow store: the current record of every workflow, by identifier.
//!
//! The store owns the counter. Workflows are never removed, and identifiers
//! are issued in order, so the store holds the workflows of all identifiers
//! from the one after its base up to the counter's value.

use crate::account::AccountHash;
use crate::counter::Counter;
use crate::error::WorkflowError;
use crate::state_table::{is_terminal, is_terminal_state};
use crate::uint::{lemma_value_determines_limbs, u256_max, U256};
use crate::workflow::WorkflowData;
use vstd::prelude::*;

verus! {

/// The place of `id` among the `len` identifiers that follow `base`, where
/// it is one of them.
pub fn slot_of(base: &U256, len: usize, id: &U256) -> (slot: Option<usize>)
    ensures
        match slot {
            Some(index) => base@ < id@ <= base@ + len && index == id@ - base@ - 1,
            None => !(base@ < id@ <= base@ + len),
        },
{
    match id.checked_sub(*base) {
        None => None,
        Some(offset) => match offset.to_usize() {
            None => None,
            Some(distance) => if 1 <= distance && distance <= len {
                Some(distance - 1)
            } else {
                None
            },
        },
    }
}

/// What holds of the records of a store with the given base: each carries
/// the identifier of its place, and is completed exactly when its state is
/// terminal.
pub open spec fn records_inv(base: nat, records: Seq<WorkflowData>) -> bool {
    forall|i: int|
        0 <= i < records.len() ==> {
            &&& (#[trigger] records[i]).id@ == base + i + 1
            &&& records[i].is_completed == is_terminal(records[i].current_state)
        }
}

/// The workflow store.
pub struct WorkflowStore {
    base: U256,
    counter: Counter,
    records: Vec<WorkflowData>,
}

impl WorkflowStore {
    /// The value that the counter had when the store was made.
    pub closed spec fn base(&self) -> nat {
        self.base@
    }

    /// The value that the counter has reached.
    pub closed spec fn issued(&self) -> nat {
        self.counter@
    }

    /// The workflows, in the order of their identifiers.
    pub closed spec fn records(&self) -> Seq<WorkflowData> {
        self.records@
    }

    /// The store is well formed: the counter has counted every workflow, and
    /// the records are in order.
    pub open spec fn wf(&self) -> bool {
        &&& self.issued() == self.base() + self.records().len()
        &&& self.issued() <= u256_max()
        &&& records_inv(self.base(), self.records())
    }

    /// Tells whether a workflow with the identifier `id` exists.
    pub open spec fn contains(&self, id: nat) -> bool {
        self.base() < id <= self.issued()
    }

    /// The workflow with the identifier `id`.
    pub open spec fn record(&self, id: nat) -> WorkflowData
        recommends
            self.contains(id),
    {
        self.records()[id - self.base() - 1]
    }

    /// An empty store that issues the identifiers after the counter's value.
    pub fn new(counter: Counter) -> (store: WorkflowStore)
        ensures
            store.wf(),
            store.base() == counter@,
            store.records() == Seq::<WorkflowData>::empty(),
    {
        let base = counter.current();
        proof {
            lemma_value_determines_limbs(base, base);
        }
        WorkflowStore { base, counter, records: Vec::new() }
    }

    /// The number of the workflow created last.
    pub fn count(&self) -> (count: U256)
        ensures
            count@ == self.issued(),
    {
        self.counter.current()
    }

    /// Creates a workflow: a draft with the next identifier. Fails where the
    /// counter is exhausted, and then changes nothing.
    pub fn create(
        &mut self,
        template_hash: [u8; 32],
        data_hash: [u8; 32],
        creator: AccountHash,
        timestamp: u64,
    ) -> (created: Result<U256, WorkflowError>)
        requires
            old(self).wf(),
        ensures
            final(self).wf(),
            final(self).base() == old(self).base(),
            match created {
                Ok(id) => {
                    &&& id@ == old(self).issued() + 1
                    &&& final(self).issued() == id@
                    &&& final(self).records() == old(self).records().push(
                        WorkflowData::spec_new(id, template_hash, data_hash, creator, timestamp),
                    )
                },
                Err(error) => {
                    &&& error == WorkflowError::Overflow
                    &&& old(self).issued() == u256_max()
                    &&& final(self).issued() == old(self).issued()
                    &&& final(self).records() == old(self).records()
                },
            },
    {
        let id = self.counter.advance()?;
        self.records.push(WorkflowData::new(id, template_hash, data_hash, creator, timestamp));
        Ok(id)
    }

    /// The workflow with the identifier `id`, if there is one.
    pub fn get(&self, id: &U256) -> (found: Result<WorkflowData, WorkflowError>)
        requires
            self.wf(),
        ensures
            match found {
                Ok(workflow) => self.contains(id@) && workflow == self.record(id@),
                Err(error) => error == WorkflowError::WorkflowNotFound && !self.contains(id@),
            },
    {
        match slot_of(&self.base, self.records.len(), id) {
            Some(slot) => Ok(self.records[slot]),
            None => Err(WorkflowError::WorkflowNotFound),
        }
    }

    /// Moves the workflow `id` to `to_state` at `timestamp`, whatever the
    /// state table says of the move, and hands back the new record. Fails,
    /// and changes nothing, where there is no such workflow.
    pub fn apply_transition(&mut self, id: &U256, to_state: u8, timestamp: u64) -> (moved: Result<
        WorkflowData,
        WorkflowError,
    >)
        requires
            old(self).wf(),
        ensures
            final(self).wf(),
            final(self).base() == old(self).base(),
            final(self).issued() == old(self).issued(),
            match moved {
                Ok(workflow) => {
                    &&& old(self).contains(id@)
                    &&& workflow == old(self).record(id@).moved(to_state, timestamp)
                    &&& final(self).records() == old(self).records().update(
                        id@ - old(self).base() - 1,
                        workflow,
                    )
                },
                Err(error) => {
                    &&& error == WorkflowError::WorkflowNotFound
                    &&& !old(self).contains(id@)
                    &&& final(self).records() == old(self).records()
                },
            },
    {
        match slot_of(&self.base, self.records.len(), id) {
            Some(slot) => {
                let mut workflow = self.records[slot];
                workflow.current_state = to_state;
                workflow.updated_at = timestamp;
                workflow.is_completed = is_terminal_state(to_state);
                self.records[slot] = workflow;
                Ok(workflow)
            },
            None => Err(WorkflowError::WorkflowNotFound),
        }
    }
}

} // verus!
