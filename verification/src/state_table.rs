//! The state table: which states end a workflow, and which moves are allowed.

use vstd::prelude::*;
use crate::states::{APPROVED, CANCELLED, DRAFT, ESCALATED, PENDING_REVIEW, REJECTED};

verus! {

/// A state is terminal when no move leaves it.
pub open spec fn is_terminal(state: u8) -> bool {
    state == APPROVED || state == REJECTED || state == CANCELLED
}

/// The allow-list of moves, edge by edge.
pub open spec fn is_allowed(from: u8, to: u8) -> bool {
    ||| from == DRAFT && (to == PENDING_REVIEW || to == CANCELLED)
    ||| from == PENDING_REVIEW && (to == APPROVED || to == REJECTED || to == ESCALATED)
    ||| from == ESCALATED && (to == APPROVED || to == REJECTED)
}

/// Tells whether a workflow in `state` is complete.
pub fn is_terminal_state(state: u8) -> (terminal: bool)
    ensures
        terminal == is_terminal(state),
{
    matches!(state, APPROVED | REJECTED | CANCELLED)
}

/// Tells whether the move from `from` to `to` is an edge of the transition graph.
pub fn is_valid_transition(from: u8, to: u8) -> (valid: bool)
    ensures
        valid == is_allowed(from, to),
{
    match (from, to) {
        (DRAFT, PENDING_REVIEW) => true,
        (DRAFT, CANCELLED) => true,
        (PENDING_REVIEW, APPROVED) => true,
        (PENDING_REVIEW, REJECTED) => true,
        (PENDING_REVIEW, ESCALATED) => true,
        (ESCALATED, APPROVED) => true,
        (ESCALATED, REJECTED) => true,
        _ => false,
    }
}

} // verus!
