//! The transition log: the moves of every workflow, by identifier, in the
//! order in which they were made. Records are only ever added at the end.

use crate::error::WorkflowError;
use crate::store::slot_of;
use crate::uint::U256;
use crate::workflow::TransitionRecord;
use vstd::prelude::*;

verus! {

/// The transition log.
pub struct TransitionLog {
    base: U256,
    entries: Vec<Vec<TransitionRecord>>,
}

impl TransitionLog {
    /// The identifier before the first one that the log can hold.
    pub closed spec fn base(&self) -> nat {
        self.base@
    }

    /// The sequences of the log, in the order of their identifiers.
    pub closed spec fn entries(&self) -> Seq<Seq<TransitionRecord>> {
        Seq::new(self.entries@.len(), |i: int| self.entries@[i]@)
    }

    /// Tells whether the log has a sequence for the identifier `id`.
    pub open spec fn contains(&self, id: nat) -> bool {
        self.base() < id <= self.base() + self.entries().len()
    }

    /// The sequence of the identifier `id`.
    pub open spec fn trail(&self, id: nat) -> Seq<TransitionRecord>
        recommends
            self.contains(id),
    {
        self.entries()[id - self.base() - 1]
    }

    /// An empty log for the identifiers after `base`.
    pub fn new(base: U256) -> (log: TransitionLog)
        ensures
            log.base() == base@,
            log.entries() == Seq::<Seq<TransitionRecord>>::empty(),
    {
        let log = TransitionLog { base, entries: Vec::new() };
        assert(log.entries() =~= Seq::<Seq<TransitionRecord>>::empty());
        log
    }

    /// Opens an empty sequence for `id`, the identifier of a workflow that
    /// was just created: the one after the last that the log holds. Any other
    /// identifier is refused, and the log stays as it is.
    pub fn init(&mut self, id: &U256) -> (opened: Result<(), WorkflowError>)
        ensures
            final(self).base() == old(self).base(),
            match opened {
                Ok(_) => {
                    &&& id@ == old(self).base() + old(self).entries().len() + 1
                    &&& final(self).entries() == old(self).entries().push(
                        Seq::<TransitionRecord>::empty(),
                    )
                },
                Err(error) => {
                    &&& error == WorkflowError::InvalidArgument
                    &&& id@ != old(self).base() + old(self).entries().len() + 1
                    &&& final(self).entries() == old(self).entries()
                },
            },
    {
        let len = self.entries.len();
        let next = match id.checked_sub(self.base) {
            None => false,
            Some(offset) => match offset.checked_sub(U256::one()) {
                None => false,
                Some(before) => match before.to_usize() {
                    None => false,
                    Some(held) => held == len,
                },
            },
        };
        if !next {
            return Err(WorkflowError::InvalidArgument);
        }
        self.entries.push(Vec::new());
        assert(self.entries() =~= old(self).entries().push(Seq::<TransitionRecord>::empty()));
        Ok(())
    }

    /// Adds `record` at the end of the sequence of `id`. Fails, and changes
    /// nothing, where no sequence was opened for `id`.
    pub fn append(&mut self, id: &U256, record: TransitionRecord) -> (added: Result<
        (),
        WorkflowError,
    >)
        ensures
            final(self).base() == old(self).base(),
            match added {
                Ok(_) => {
                    &&& old(self).contains(id@)
                    &&& final(self).entries() == old(self).entries().update(
                        id@ - old(self).base() - 1,
                        old(self).trail(id@).push(record),
                    )
                },
                Err(error) => {
                    &&& error == WorkflowError::WorkflowNotFound
                    &&& !old(self).contains(id@)
                    &&& final(self).entries() == old(self).entries()
                },
            },
    {
        match slot_of(&self.base, self.entries.len(), id) {
            Some(slot) => {
                self.entries[slot].push(record);
                assert(self.entries() =~= old(self).entries().update(
                    slot as int,
                    old(self).trail(id@).push(record),
                ));
                Ok(())
            },
            None => Err(WorkflowError::WorkflowNotFound),
        }
    }

    /// The moves of the workflow `id`, oldest first: empty where it has not
    /// moved yet. Fails where no sequence was opened for `id`.
    pub fn get(&self, id: &U256) -> (found: Result<Vec<TransitionRecord>, WorkflowError>)
        ensures
            match found {
                Ok(trail) => self.contains(id@) && trail@ == self.trail(id@),
                Err(error) => error == WorkflowError::WorkflowNotFound && !self.contains(id@),
            },
    {
        match slot_of(&self.base, self.entries.len(), id) {
            Some(slot) => Ok(self.entries[slot].clone()),
            None => Err(WorkflowError::WorkflowNotFound),
        }
    }
}

} // verus!
