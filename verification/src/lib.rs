//! An append-only, audited state machine for multi-party approval workflows.
//!
//! A workflow moves through a small, fixed set of states: from a draft to a
//! review, and from there to approval, rejection or escalation. Every move is
//! recorded for good with the account that made it, the role it claimed and
//! the time. A workflow that has reached a terminal state is frozen.
//!
//! The ledger does not judge roles: it records the claim. It holds no business
//! data either, only hashes of it.
//!
//! - [`states`], [`roles`]: the predefined states and role bits.
//! - [`state_table`]: the terminal states and the transition graph.
//! - [`workflow`]: the two records, and the decision on one move.
//! - [`counter`], [`store`], [`log`]: the identifier counter, the workflow
//!   store and the transition log.
//! - [`ledger`]: the operations, which keep store and log in step.
//! - [`model`], [`laws`]: the ledger as a mathematical value, and what holds
//!   of it whatever requests it has served.
//! - [`uint`], [`account`], [`codec`], [`layout`]: identifiers, account
//!   hashes, and the bytes under which the records are persisted.
//! - [`host`]: names, keys and the meaning of reads for a host that keeps
//!   the ledger in its storage.

pub mod account;
pub mod codec;
pub mod counter;
pub mod error;
pub mod host;
pub mod laws;
pub mod layout;
pub mod ledger;
pub mod log;
pub mod model;
pub mod roles;
pub mod state_table;
pub mod states;
pub mod store;
pub mod uint;
pub mod workflow;

pub use account::AccountHash;
pub use error::WorkflowError;
pub use ledger::{
    call, create_workflow, get_workflow_count, get_workflow_history, get_workflow_state,
    transition_state, Ledger,
};
pub use state_table::{is_terminal_state, is_valid_transition};
pub use uint::U256;
pub use workflow::{TransitionRecord, WorkflowData};
