//! Role bits that a caller may claim when it moves a workflow.
//!
//! A claim is a bitmask: several roles are combined with bitwise OR. The
//! ledger records the claim with each transition and never judges it.

use vstd::prelude::*;

verus! {

/// May create workflow instances (bit 0).
pub const REQUESTER: u64 = 1;

/// May approve or reject at the first level (bit 1).
pub const APPROVER: u64 = 2;

/// May approve or reject escalated workflows (bit 2).
pub const SENIOR_APPROVER: u64 = 4;

/// May manage workflow definitions (bit 3).
pub const ADMIN: u64 = 8;

/// May view audit logs (bit 4).
pub const AUDITOR: u64 = 16;

} // verus!
