//! The predefined workflow states.
//!
//! Values below 100 are reserved for the states defined here; values from 100
//! up are left to a deployment, and have no edge in the transition graph.

use vstd::prelude::*;

verus! {

/// Initial draft state.
pub const DRAFT: u8 = 0;

/// Submitted for review.
pub const PENDING_REVIEW: u8 = 1;

/// Approved.
pub const APPROVED: u8 = 10;

/// Rejected.
pub const REJECTED: u8 = 11;

/// Escalated to a higher authority.
pub const ESCALATED: u8 = 20;

/// Cancelled by the requester.
pub const CANCELLED: u8 = 30;

} // verus!
