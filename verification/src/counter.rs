//! The workflow counter: the source of workflow identifiers.
//!
//! The counter holds the number of the workflow that was created last. It
//! only ever grows, by one for each workflow, so that no identifier is
//! skipped and none is issued twice.

use crate::error::WorkflowError;
use crate::uint::{lemma_value_determines_limbs, u256_max, U256};
use vstd::prelude::*;

verus! {

/// The count that storage holds, from what reading it gave: the stored
/// value, zero where nothing is stored yet, and a storage failure where the
/// read failed.
pub fn read_workflow_count<E>(stored: Result<Option<U256>, E>) -> (count: Result<
    U256,
    WorkflowError,
>)
    ensures
        match stored {
            Ok(Some(value)) => count == Ok::<U256, WorkflowError>(value),
            Ok(None) => count is Ok && count->Ok_0@ == 0,
            Err(_) => count == Err::<U256, WorkflowError>(WorkflowError::StorageError),
        },
{
    match stored {
        Ok(Some(value)) => Ok(value),
        Ok(None) => Ok(U256::zero()),
        Err(_) => Err(WorkflowError::StorageError),
    }
}

/// The count after one more workflow: `current` plus one. The largest count
/// has no successor and is refused, never wrapped.
pub fn increment_workflow_count(current: U256) -> (next: Result<U256, WorkflowError>)
    ensures
        match next {
            Ok(count) => count@ == current@ + 1,
            Err(error) => error == WorkflowError::Overflow && current@ == u256_max(),
        },
{
    proof {
        lemma_value_determines_limbs(current, current);
    }
    match current.checked_add(U256::one()) {
        Some(count) => Ok(count),
        None => Err(WorkflowError::Overflow),
    }
}

/// A workflow counter held in memory.
pub struct Counter {
    value: U256,
}

impl View for Counter {
    type V = nat;

    closed spec fn view(&self) -> nat {
        self.value@
    }
}

impl Counter {
    /// A counter at zero.
    pub fn new() -> (counter: Counter)
        ensures
            counter@ == 0,
    {
        Counter { value: U256::zero() }
    }

    /// A counter that has reached `value`: the next identifier is the one
    /// after it.
    pub fn starting_at(value: U256) -> (counter: Counter)
        ensures
            counter@ == value@,
    {
        Counter { value }
    }

    /// The value that the counter has reached.
    pub fn current(&self) -> (value: U256)
        ensures
            value@ == self@,
    {
        self.value
    }

    /// Counts one workflow more and hands out its identifier, the new value
    /// of the counter. At the largest value the counter stays as it is.
    pub fn advance(&mut self) -> (issued: Result<U256, WorkflowError>)
        ensures
            final(self)@ <= u256_max(),
            match issued {
                Ok(id) => id@ == old(self)@ + 1 && final(self)@ == id@,
                Err(error) => error == WorkflowError::Overflow && old(self)@ == u256_max()
                    && final(self)@ == old(self)@,
            },
    {
        proof {
            lemma_value_determines_limbs(self.value, self.value);
        }
        let next = increment_workflow_count(self.value)?;
        self.value = next;
        Ok(next)
    }
}

} // verus!
